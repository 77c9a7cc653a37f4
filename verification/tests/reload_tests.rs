use shaderview::error::CoreError;
use shaderview::gpu::{compile_program, CompileOutcome, ResourceLedger};
use shaderview::parse::parse_uniforms;
use shaderview::reload::{ReloadController, ReloadEvent, RELOAD_DEBOUNCE_MS};
use shaderview::uniform::{UniformType, UniformValue};
use shaderview::watch::{SignalChannel, WatchEventKind, WatchState};

fn controller_with_program(
    ledger: &mut ResourceLedger,
    source: &str,
    now_ms: u64,
) -> ReloadController {
    let registry = parse_uniforms(source);
    let handle = compile_program(ledger, CompileOutcome::Success).expect("initial build");
    ReloadController::new(b"shader.frag".to_vec(), Some(handle), registry, now_ms)
}

#[test]
fn compile_paths_leave_no_object_behind() {
    let mut ledger = ResourceLedger::new();
    assert_eq!(ledger.live_objects(), 0);

    let err = compile_program(
        &mut ledger,
        CompileOutcome::ProgramAllocFailed("out of contexts".to_string()),
    )
    .unwrap_err();
    assert_eq!(
        err,
        CoreError::GpuResourceAllocation("out of contexts".to_string())
    );
    assert_eq!(ledger.live_objects(), 0);

    let err = compile_program(
        &mut ledger,
        CompileOutcome::FragmentCompileFailed("0:1 syntax error".to_string()),
    )
    .unwrap_err();
    assert_eq!(err, CoreError::ShaderCompile("0:1 syntax error".to_string()));
    assert_eq!(ledger.live_objects(), 0);

    let err = compile_program(
        &mut ledger,
        CompileOutcome::LinkFailed("unresolved main".to_string()),
    )
    .unwrap_err();
    assert_eq!(err, CoreError::ShaderLink("unresolved main".to_string()));
    assert_eq!(ledger.live_objects(), 0);

    let handle = compile_program(&mut ledger, CompileOutcome::Success).unwrap();
    assert_eq!(ledger.live_objects(), 2);
    assert_ne!(handle.program, handle.vertex_array);
}

#[test]
fn failed_compile_keeps_current_handle_and_sets_error() {
    let mut ledger = ResourceLedger::new();
    let mut ctrl = controller_with_program(&mut ledger, "uniform float a;", 0);
    let held = ctrl.handle;
    assert!(held.is_some());
    assert!(ctrl.last_error.is_none());

    let diagnostic = CoreError::ShaderCompile("0:3 ';' expected".to_string());
    ctrl.apply_reload_outcome(
        &mut ledger,
        ReloadEvent::CompileFailed(diagnostic.clone()),
        1_000,
    );

    // The handle that was current is still current, and the error is
    // published, never cleared, by a failure.
    assert_eq!(ctrl.handle, held);
    assert_eq!(ctrl.last_error, Some(diagnostic));
    assert_eq!(ctrl.uniforms.len(), 1);
    assert_eq!(ledger.live_objects(), 2);
}

#[test]
fn failed_read_keeps_current_handle_and_sets_error() {
    let mut ledger = ResourceLedger::new();
    let mut ctrl = controller_with_program(&mut ledger, "uniform float a;", 0);
    let held = ctrl.handle;

    ctrl.apply_reload_outcome(
        &mut ledger,
        ReloadEvent::ReadFailed("No such file or directory".to_string()),
        1_000,
    );

    assert_eq!(ctrl.handle, held);
    assert_eq!(
        ctrl.last_error,
        Some(CoreError::FileRead("No such file or directory".to_string()))
    );
    assert_eq!(ledger.live_objects(), 2);
}

#[test]
fn successful_reload_swaps_merges_and_clears_error() {
    let mut ledger = ResourceLedger::new();
    let mut ctrl = controller_with_program(&mut ledger, "uniform float gain;", 0);
    let first = ctrl.handle.unwrap();
    assert!(ctrl.uniforms.set_value(b"gain", UniformValue::Float(0x4080_0000)));
    ctrl.apply_reload_outcome(
        &mut ledger,
        ReloadEvent::CompileFailed(CoreError::ShaderCompile("bad".to_string())),
        200,
    );

    let fresh = parse_uniforms("uniform float gain;\nuniform vec2 extra;");
    let next = compile_program(&mut ledger, CompileOutcome::Success).unwrap();
    ctrl.apply_reload_outcome(&mut ledger, ReloadEvent::Compiled(next, fresh), 400);

    assert_eq!(ctrl.handle, Some(next));
    assert_ne!(ctrl.handle, Some(first));
    assert!(ctrl.last_error.is_none());
    assert_eq!(ctrl.last_reload_ms, 400);
    // The edited value survived the reload; the new input has its default.
    assert_eq!(
        ctrl.uniforms.get(b"gain").unwrap().value,
        UniformValue::Float(0x4080_0000)
    );
    assert_eq!(ctrl.uniforms.get(b"extra").unwrap().uniform_type, UniformType::Vec2);
    // The replaced program was destroyed: still exactly one program pair.
    assert_eq!(ledger.live_objects(), 2);
}

#[test]
fn reload_cycles_return_allocation_counter_to_baseline() {
    let mut ledger = ResourceLedger::new();
    let mut ctrl = controller_with_program(&mut ledger, "uniform float t;", 0);
    let baseline = ledger.live_objects();
    assert_eq!(baseline, 2);

    let mut now: u64 = 0;
    for round in 0..8u32 {
        now += u64::from(RELOAD_DEBOUNCE_MS) + 1;
        if round % 2 == 0 {
            // A failing attempt: compile cleans up after itself and the
            // controller keeps the old program.
            let err = compile_program(
                &mut ledger,
                CompileOutcome::FragmentCompileFailed("boom".to_string()),
            )
            .unwrap_err();
            ctrl.apply_reload_outcome(&mut ledger, ReloadEvent::CompileFailed(err), now);
        } else {
            let fresh = parse_uniforms("uniform float t;");
            let handle = compile_program(&mut ledger, CompileOutcome::Success).unwrap();
            ctrl.apply_reload_outcome(&mut ledger, ReloadEvent::Compiled(handle, fresh), now);
        }
        assert_eq!(ledger.live_objects(), baseline);
    }

    ctrl.shutdown(&mut ledger);
    assert_eq!(ledger.live_objects(), 0);
}

#[test]
fn two_signals_within_the_interval_cause_one_reload() {
    let mut ledger = ResourceLedger::new();
    let mut ctrl = controller_with_program(&mut ledger, "uniform float t;", 0);

    let mut channel = SignalChannel::new();
    // A single save produces a burst of events; they coalesce.
    channel.notify(WatchEventKind::Modify);
    channel.notify(WatchEventKind::Modify);

    let t1: u64 = 10_000;
    let mut reloads: u32 = 0;
    if channel.drain() && ctrl.debounce_allows(t1) {
        let fresh = parse_uniforms("uniform float t;");
        let handle = compile_program(&mut ledger, CompileOutcome::Success).unwrap();
        ctrl.apply_reload_outcome(&mut ledger, ReloadEvent::Compiled(handle, fresh), t1);
        reloads += 1;
    }
    // The second signal of the burst arrives within the interval.
    channel.notify(WatchEventKind::Modify);
    let t2 = t1 + u64::from(RELOAD_DEBOUNCE_MS) - 1;
    if channel.drain() && ctrl.debounce_allows(t2) {
        reloads += 1;
    }
    assert_eq!(reloads, 1);
    assert_eq!(ctrl.last_reload_ms, t1);

    // Once the interval has passed, the next signal is acted on again.
    channel.notify(WatchEventKind::Modify);
    assert!(channel.drain() && ctrl.debounce_allows(t1 + u64::from(RELOAD_DEBOUNCE_MS)));
}

#[test]
fn only_modify_and_create_events_signal() {
    let mut channel = SignalChannel::new();
    channel.notify(WatchEventKind::Remove);
    channel.notify(WatchEventKind::Rename);
    channel.notify(WatchEventKind::MetadataOnly);
    channel.notify(WatchEventKind::Other);
    assert!(!channel.drain());

    channel.notify(WatchEventKind::Create);
    assert!(channel.drain());
    assert!(!channel.drain());
}

#[test]
fn repointing_the_watch_replaces_the_old_registration() {
    let mut watch = WatchState::new();
    watch.repoint(b"a.frag".to_vec(), true);
    watch.repoint(b"b.frag".to_vec(), true);
    // A failed start leaves the pass unwatched but running.
    watch.repoint(b"c.frag".to_vec(), false);
    let mut channel = SignalChannel::new();
    assert!(!channel.drain());
}

#[test]
fn load_outcome_replaces_inputs_outright() {
    let mut ledger = ResourceLedger::new();
    let mut ctrl = controller_with_program(&mut ledger, "uniform float old_gain;", 0);
    assert!(ctrl
        .uniforms
        .set_value(b"old_gain", UniformValue::Float(0x4000_0000)));

    ctrl.set_watch_path(b"other.frag".to_vec());
    let fresh = parse_uniforms("uniform float old_gain;\nuniform vec3 tint;");
    let handle = compile_program(&mut ledger, CompileOutcome::Success).unwrap();
    ctrl.apply_load_outcome(&mut ledger, ReloadEvent::Compiled(handle, fresh));

    // No merge on a deliberate load: the new file's defaults stand.
    assert_eq!(
        ctrl.uniforms.get(b"old_gain").unwrap().value,
        UniformValue::Float(shaderview::uniform::ONE_BITS)
    );
    assert_eq!(ctrl.uniforms.len(), 2);
    assert_eq!(ctrl.watch_path, b"other.frag".to_vec());
    assert_eq!(ledger.live_objects(), 2);
}
