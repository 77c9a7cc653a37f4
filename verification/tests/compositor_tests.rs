use shaderview::compositor::{
    binding_plan, main_pass_name, plan_single_pass, plan_two_pass, resolution_name, time_name,
    use_two_pass, visible_uniform_names, Compositor,
};
use shaderview::gpu::{compile_program, CompileOutcome, ResourceLedger};
use shaderview::parse::parse_uniforms;
use shaderview::uniform::{TextureHandle, UniformType, UniformValue};

#[test]
fn two_pass_mode_needs_a_loaded_and_enabled_post_shader() {
    assert!(!use_two_pass(false, false));
    assert!(!use_two_pass(true, false));
    assert!(!use_two_pass(false, true));
    assert!(use_two_pass(true, true));
}

#[test]
fn reserved_names_spell_correctly() {
    assert_eq!(time_name(), b"u_time".to_vec());
    assert_eq!(resolution_name(), b"u_resolution".to_vec());
    assert_eq!(main_pass_name(), b"u_mainPass".to_vec());
}

#[test]
fn intermediate_target_is_kept_only_at_the_same_size() {
    let mut ledger = ResourceLedger::new();
    let mut compositor = Compositor::new();

    let first = compositor.ensure_intermediate(&mut ledger, 640, 360, );
    assert_eq!((first.width, first.height), (640, 360));
    assert_eq!(ledger.live_objects(), 2);

    let same = compositor.ensure_intermediate(&mut ledger, 640, 360, );
    assert_eq!(same, first);
    assert_eq!(ledger.live_objects(), 2);

    // A stale size is destroyed and recreated, never reused.
    let resized = compositor.ensure_intermediate(&mut ledger, 1920, 1080, );
    assert_eq!((resized.width, resized.height), (1920, 1080));
    assert_ne!(resized.framebuffer, first.framebuffer);
    assert_eq!(ledger.live_objects(), 2);

    compositor.shutdown(&mut ledger);
    assert_eq!(ledger.live_objects(), 0);
}

#[test]
fn visible_names_exclude_every_reserved_name() {
    let reg = parse_uniforms(
        "uniform float u_time;\nuniform vec2 u_resolution;\nuniform sampler2D u_mainPass;\nuniform float wobble;\nuniform vec3 hue;",
    );
    let mut names = visible_uniform_names(&reg);
    names.sort();
    assert_eq!(names, vec![b"hue".to_vec(), b"wobble".to_vec()]);
}

#[test]
fn binding_plan_skips_builtins_but_binds_the_injected_texture() {
    let mut ledger = ResourceLedger::new();
    let mut compositor = Compositor::new();
    let target = compositor.ensure_intermediate(&mut ledger, 8, 8, );

    let reg = parse_uniforms("uniform float u_time;\nuniform vec2 u_resolution;\nuniform float k;");
    let with_input = shaderview::compositor::with_main_pass_input(&reg, target);
    let plan = binding_plan(&with_input);

    let mut names: Vec<Vec<u8>> = plan.iter().map(|e| e.name.clone()).collect();
    names.sort();
    assert_eq!(names, vec![b"k".to_vec(), b"u_mainPass".to_vec()]);
}

#[test]
fn injected_input_carries_the_intermediate_texture() {
    let mut ledger = ResourceLedger::new();
    let mut compositor = Compositor::new();
    let target = compositor.ensure_intermediate(&mut ledger, 320, 200, );

    let post = parse_uniforms("uniform float strength;");
    let with_input = shaderview::compositor::with_main_pass_input(&post, target);

    assert_eq!(with_input.len(), 2);
    let injected = with_input.get(b"u_mainPass").unwrap();
    assert_eq!(injected.uniform_type, UniformType::Sampler2D);
    assert_eq!(
        injected.value,
        UniformValue::Sampler2D(Some(TextureHandle {
            path: Vec::new(),
            texture_id: Some(target.color_texture),
            width: 320,
            height: 200,
        }))
    );
    // The pass's own registry was not touched.
    assert_eq!(post.len(), 1);
    assert!(post.get(b"u_mainPass").is_none());
}

#[test]
fn two_pass_plan_feeds_the_first_pass_into_the_second() {
    let mut ledger = ResourceLedger::new();
    let mut compositor = Compositor::new();
    let target = compositor.ensure_intermediate(&mut ledger, 64, 64, );
    let main_handle = compile_program(&mut ledger, CompileOutcome::Success).unwrap();
    let post_handle = compile_program(&mut ledger, CompileOutcome::Success).unwrap();

    let main_reg = parse_uniforms("uniform float a;");
    let post_reg = parse_uniforms("uniform float b;");
    let time_bits = 1.25f32.to_bits();

    let plan = plan_two_pass(
        time_bits,
        64,
        64,
        main_handle,
        &main_reg,
        post_handle,
        &post_reg,
        target,
    );

    // First pass: the main program renders into the intermediate target.
    assert_eq!(plan.first.target_framebuffer, Some(target.framebuffer));
    assert_eq!(plan.first.handle, main_handle);
    // Second pass: the post program renders into the destination with the
    // intermediate's color texture as its reserved input.
    let second = plan.second.expect("two passes");
    assert_eq!(second.target_framebuffer, None);
    assert_eq!(second.handle, post_handle);
    let injected = second.uniforms.get(b"u_mainPass").unwrap();
    assert_eq!(
        injected.value,
        UniformValue::Sampler2D(Some(TextureHandle {
            path: Vec::new(),
            texture_id: Some(target.color_texture),
            width: 64,
            height: 64,
        }))
    );
    // Both passes of the frame share one logical time and one pixel size.
    assert_eq!(plan.first.time_bits, second.time_bits);
    assert_eq!((plan.first.width, plan.first.height), (second.width, second.height));
}

#[test]
fn single_pass_plan_draws_straight_to_the_destination() {
    let mut ledger = ResourceLedger::new();
    let handle = compile_program(&mut ledger, CompileOutcome::Success).unwrap();
    let reg = parse_uniforms("uniform float a;");
    let plan = plan_single_pass(0.5f32.to_bits(), 800, 600, handle, &reg);
    assert!(plan.second.is_none());
    assert_eq!(plan.first.target_framebuffer, None);
    assert_eq!(plan.first.handle, handle);
    assert_eq!((plan.first.width, plan.first.height), (800, 600));
}
