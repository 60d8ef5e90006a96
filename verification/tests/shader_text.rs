use matrix_lively::frame::TextureChannel;
use matrix_lively::shader::{
    build_glsl_header, fragment_shader_source, one_decimal_f32_text, GlslType, Uniform,
    HEADER_LINE_COUNT, VERTEX_SHADER_SOURCE,
};

fn expected_float_text(v: i32) -> String {
    format!("{:.1}", v as f32)
}

#[test]
fn dimension_text_matches_float_formatting_on_small_values() {
    for v in -3000..3000 {
        assert_eq!(one_decimal_f32_text(v), expected_float_text(v), "value {}", v);
    }
}

#[test]
fn dimension_text_matches_float_formatting_near_precision_limit() {
    let limit: i64 = 1 << 24;
    for d in -40i64..40 {
        for base in [limit, -limit, 2 * limit, -2 * limit, 1 << 30, -(1 << 30)] {
            let v = (base + d) as i32;
            assert_eq!(one_decimal_f32_text(v), expected_float_text(v), "value {}", v);
        }
    }
}

#[test]
fn dimension_text_matches_float_formatting_at_extremes() {
    let mut samples = vec![i32::MIN, i32::MIN + 1, i32::MAX, i32::MAX - 1, i32::MAX - 64, i32::MAX - 127, i32::MAX - 128, i32::MAX - 129];
    let mut x: u32 = 12345;
    for _ in 0..5000 {
        x = x.wrapping_mul(1664525).wrapping_add(1013904223);
        samples.push(x as i32);
    }
    for v in samples {
        assert_eq!(one_decimal_f32_text(v), expected_float_text(v), "value {}", v);
    }
}

#[test]
fn dimension_text_exact_values() {
    assert_eq!(one_decimal_f32_text(0), "0.0");
    assert_eq!(one_decimal_f32_text(1920), "1920.0");
    assert_eq!(one_decimal_f32_text(-7), "-7.0");
    assert_eq!(one_decimal_f32_text(16777217), "16777216.0");
    assert_eq!(one_decimal_f32_text(16777219), "16777220.0");
    assert_eq!(one_decimal_f32_text(i32::MAX), "2147483648.0");
    assert_eq!(one_decimal_f32_text(i32::MIN), "-2147483648.0");
}

const EXPECTED_HEADER_1920_1080: &str = "#version 300 es
precision highp float;
precision mediump int;
out vec4 FragColor;
const float cRNDSEED1 = 170.12;
const float cRNDSEED2 = 7572.1;
const float cMININTENSITY = 0.075;
const float cDISTORTFACTORX = 0.6;
const float cDISTORTFACTORY = 0.4;
const float cVIGNETTEINTENSITY = 0.05;
uniform float cDotSize;
uniform float cColumns;
uniform float cNoiseFluctuation;
uniform float dLowPower;
const vec2 cResolution = vec2(1920.0, 1080.0);
uniform sampler2D iChannel0;
uniform sampler2D iChannel1;
uniform sampler2D iChannel2;
uniform sampler2D iChannel3;
uniform vec3 iAlbumPosition;
uniform vec3 iAlbumRGB;
#define dNoise
uniform float iTime;
uniform vec3 cColor;
uniform float cRainHighlights;
uniform float cINTENSITY;
uniform float cDistortThreshold;
uniform float cCrtCurve;

float h11(float p) {
  float r_low = fract(.13 * p + 217943.37373737 / (p + 0.31));
  float r_norm = fract(20.12345 + sin(p * cRNDSEED1) * cRNDSEED2);
  return mix(r_norm, r_low, dLowPower);
}

float waveform(vec2 uv) {
  float wave = texture(iChannel0, vec2(uv.x * .15 + .5, 0.75)).x;
  float wf_low = min(abs(uv.y * 20. + (wave - .5) * 10.), 0.5);
  float wf_norm = abs(smoothstep(.225, .275, wave * .5 + uv.y) - .5);
  return mix(wf_norm, wf_low, dLowPower);
}

#ifdef dNoise
float noise(vec2 gv) {
  float n_low = texture(iChannel2, vec2(gl_FragCoord.xy / (256.0 * cDotSize))).x;
  float n_norm = texture(iChannel2, (gv * .035431) + iTime * cNoiseFluctuation).x;
  return mix(n_norm, n_low, dLowPower);
}
#endif

vec3 bw2col(float bw, vec2 uv) {
  float d = length(fract(uv * cColumns) - .5);
  // Low power:  (basecolor*cColor + peakcolor) * bw
  float pk_low = .6 - d;
  float bc_low = .8 - d;
  vec3 r_low = (bc_low * cColor + pk_low) * bw;
  // Normal:     basecolor*cColor + peakcolor  (bw in smoothstep)
  float pk_norm = smoothstep(.35, .0, d) * bw;
  float bc_norm = smoothstep(.85, .0, d) * bw;
  vec3 r_norm = bc_norm * cColor + pk_norm;
  return mix(r_norm, r_low, dLowPower);
}

vec2 getUV() {
  vec2 uv = (gl_FragCoord.xy - .5 * cResolution.xy) / cResolution.y;
  vec2 crtUV = uv / (1.00 - length(uv * .1));
  return mix(uv, crtUV, cCrtCurve);
}
";

#[test]
fn header_for_full_hd_canvas() {
    assert_eq!(build_glsl_header(1920, 1080), EXPECTED_HEADER_1920_1080);
}

#[test]
fn header_differs_only_in_resolution_line() {
    let small = build_glsl_header(640, 480);
    let expected = EXPECTED_HEADER_1920_1080.replace(
        "const vec2 cResolution = vec2(1920.0, 1080.0);\n",
        "const vec2 cResolution = vec2(640.0, 480.0);\n",
    );
    assert_eq!(small, expected);
    assert!(small.starts_with("#version 300 es\n"));
    assert_eq!(small.lines().count(), HEADER_LINE_COUNT);
}

fn all_uniforms() -> Vec<Uniform> {
    vec![
        Uniform::Time,
        Uniform::Color,
        Uniform::RainHighlights,
        Uniform::Intensity,
        Uniform::DistortThreshold,
        Uniform::CrtCurve,
        Uniform::NoiseFluctuation,
        Uniform::LowPower,
        Uniform::DotSize,
        Uniform::Columns,
        Uniform::AlbumPosition,
        Uniform::AlbumRgb,
        Uniform::Sampler(TextureChannel::Audio),
        Uniform::Sampler(TextureChannel::Logo),
        Uniform::Sampler(TextureChannel::Noise),
        Uniform::Sampler(TextureChannel::Album),
    ]
}

#[test]
fn header_declares_every_uniform_once() {
    let header = build_glsl_header(1280, 720);
    for u in all_uniforms() {
        let line = format!("uniform {} {};", u.glsl_type().keyword(), u.name());
        assert_eq!(header.lines().filter(|l| *l == line).count(), 1, "{}", line);
    }
    assert_eq!(header.lines().filter(|l| l.starts_with("uniform ")).count(), 16);
}

#[test]
fn uniform_names_and_types() {
    assert_eq!(Uniform::Time.name(), "iTime");
    assert_eq!(Uniform::Intensity.name(), "cINTENSITY");
    assert_eq!(Uniform::LowPower.name(), "dLowPower");
    assert_eq!(Uniform::AlbumRgb.name(), "iAlbumRGB");
    assert_eq!(Uniform::Sampler(TextureChannel::Noise).name(), "iChannel2");
    assert_eq!(Uniform::Color.glsl_type(), GlslType::Vec3);
    assert_eq!(Uniform::Columns.glsl_type(), GlslType::Float);
    assert_eq!(Uniform::Sampler(TextureChannel::Album).glsl_type(), GlslType::Sampler2D);
    assert_eq!(GlslType::Sampler2D.keyword(), "sampler2D");
}

#[test]
fn header_with_unusual_dimensions() {
    let h = build_glsl_header(-1, 0);
    assert!(h.contains("const vec2 cResolution = vec2(-1.0, 0.0);\n"));
    let h = build_glsl_header(i32::MAX, 16777217);
    assert!(h.contains("const vec2 cResolution = vec2(2147483648.0, 16777216.0);\n"));
}

#[test]
fn fragment_source_puts_body_after_header_and_newline() {
    let body = "void main() { FragColor = vec4(1.0); }\n";
    let full = fragment_shader_source(800, 600, body);
    assert_eq!(full, format!("{}\n{}", build_glsl_header(800, 600), body));
    assert!(full.ends_with(body));
}

#[test]
fn fragment_source_with_empty_body() {
    let full = fragment_shader_source(1, 1, "");
    assert_eq!(full, format!("{}\n", build_glsl_header(1, 1)));
}

#[test]
fn vertex_shader_is_a_pass_through() {
    assert_eq!(
        VERTEX_SHADER_SOURCE,
        "#version 300 es\n            precision highp float;\n            in vec4 vertex;\n            void main() { gl_Position = vertex; }\n            "
    );
}
