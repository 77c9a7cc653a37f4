use shaderview::parse::parse_uniforms;
use shaderview::uniform::{UniformType, UniformValue, HALF_BITS, ONE_BITS};

#[test]
fn detects_every_supported_type_with_defaults() {
    let src = "\
        uniform float u_speed;\n\
        uniform vec2 u_center;\n\
        uniform vec3 u_tint;\n\
        uniform vec4 u_color;\n\
        uniform sampler2D u_noise;\n";
    let reg = parse_uniforms(src);
    assert_eq!(reg.len(), 5);

    let speed = reg.get(b"u_speed").expect("u_speed detected");
    assert_eq!(speed.uniform_type, UniformType::Float);
    assert_eq!(speed.value, UniformValue::Float(ONE_BITS));
    assert_eq!(f32::from_bits(ONE_BITS), 1.0);

    let center = reg.get(b"u_center").expect("u_center detected");
    assert_eq!(center.uniform_type, UniformType::Vec2);
    assert_eq!(center.value, UniformValue::Vec2(HALF_BITS, HALF_BITS));
    assert_eq!(f32::from_bits(HALF_BITS), 0.5);

    let tint = reg.get(b"u_tint").expect("u_tint detected");
    assert_eq!(tint.uniform_type, UniformType::Vec3);
    assert_eq!(tint.value, UniformValue::Vec3(HALF_BITS, HALF_BITS, HALF_BITS));

    let color = reg.get(b"u_color").expect("u_color detected");
    assert_eq!(color.uniform_type, UniformType::Vec4);
    assert_eq!(
        color.value,
        UniformValue::Vec4(ONE_BITS, ONE_BITS, ONE_BITS, ONE_BITS)
    );

    let noise = reg.get(b"u_noise").expect("u_noise detected");
    assert_eq!(noise.uniform_type, UniformType::Sampler2D);
    assert_eq!(noise.value, UniformValue::Sampler2D(None));
}

#[test]
fn parsing_is_idempotent_on_unchanged_input() {
    let src = "uniform float a;\nuniform vec3 b;\nvoid main() {}\nuniform sampler2D tex;";
    let first = parse_uniforms(src);
    let second = parse_uniforms(src);
    assert_eq!(first, second);
    assert_eq!(first.len(), 3);
}

#[test]
fn unsupported_types_are_silently_skipped() {
    let src = "uniform mat4 u_model;\nuniform int u_count;\nuniform float u_ok;";
    let reg = parse_uniforms(src);
    assert_eq!(reg.len(), 1);
    assert!(reg.get(b"u_model").is_none());
    assert!(reg.get(b"u_count").is_none());
    assert!(reg.get(b"u_ok").is_some());
}

#[test]
fn last_occurrence_of_a_duplicated_name_wins() {
    let src = "uniform float shade;\nuniform vec2 shade;";
    let reg = parse_uniforms(src);
    assert_eq!(reg.len(), 1);
    let info = reg.get(b"shade").unwrap();
    assert_eq!(info.uniform_type, UniformType::Vec2);
    assert_eq!(info.value, UniformValue::Vec2(HALF_BITS, HALF_BITS));
}

#[test]
fn declaration_needs_whitespace_and_semicolon() {
    assert_eq!(parse_uniforms("uniformfloat x;").len(), 0);
    assert_eq!(parse_uniforms("uniform floatx;").len(), 0);
    assert_eq!(parse_uniforms("uniform float x").len(), 0);
    assert_eq!(parse_uniforms("uniform float ;").len(), 0);
    assert_eq!(parse_uniforms("uniform float 9x;").len(), 0);
}

#[test]
fn flexible_whitespace_is_accepted() {
    let src = "uniform\n\tfloat\r\n  wavy_1  \n;";
    let reg = parse_uniforms(src);
    assert_eq!(reg.len(), 1);
    assert!(reg.get(b"wavy_1").is_some());
}

#[test]
fn identifier_may_start_with_underscore() {
    let reg = parse_uniforms("uniform vec4 _rgba;");
    assert_eq!(reg.get(b"_rgba").unwrap().uniform_type, UniformType::Vec4);
}

#[test]
fn match_may_start_inside_a_longer_word() {
    // The pattern is not anchored to word boundaries.
    let reg = parse_uniforms("myuniform float x;");
    assert_eq!(reg.len(), 1);
    assert!(reg.get(b"x").is_some());
}

#[test]
fn type_keyword_followed_by_more_identifier_does_not_match() {
    assert_eq!(parse_uniforms("uniform vec25 x;").len(), 0);
    assert_eq!(parse_uniforms("uniform sampler2Dx y;").len(), 0);
}

#[test]
fn empty_source_has_no_inputs() {
    assert_eq!(parse_uniforms("").len(), 0);
}
