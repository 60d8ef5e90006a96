use vstd::prelude::*;
use crate::frame::{channel_unit_spec, TextureChannel};

verus! {

/// Source of the vertex shader: a pass-through for the full-screen quad.
pub const VERTEX_SHADER_SOURCE: &'static str = "#version 300 es\n            precision highp float;\n            in vec4 vertex;\n            void main() { gl_Position = vertex; }\n            ";

/// GLSL type of a uniform.
#[derive(Clone, Copy, Debug, PartialEq, Eq, Structural)]
pub enum GlslType {
    Float,
    Vec3,
    Sampler2D,
}

/// The GLSL keyword of a type.
pub open spec fn glsl_type_name(t: GlslType) -> Seq<char> {
    match t {
        GlslType::Float => "float"@,
        GlslType::Vec3 => "vec3"@,
        GlslType::Sampler2D => "sampler2D"@,
    }
}

impl GlslType {
    /// The GLSL keyword of the type.
    pub fn keyword(&self) -> (k: &'static str)
        ensures
            k@ == glsl_type_name(*self),
    {
        match self {
            GlslType::Float => "float",
            GlslType::Vec3 => "vec3",
            GlslType::Sampler2D => "sampler2D",
        }
    }
}

/// The uniforms the renderer sets on the fragment shader every frame.
#[derive(Clone, Copy, Debug, PartialEq, Eq, Structural)]
pub enum Uniform {
    /// Scaled time driving the rain.
    Time,
    /// Rain colour.
    Color,
    RainHighlights,
    Intensity,
    DistortThreshold,
    CrtCurve,
    NoiseFluctuation,
    LowPower,
    DotSize,
    /// Number of dot columns across the canvas.
    Columns,
    AlbumPosition,
    /// Album fade-in colour.
    AlbumRgb,
    /// Sampler of a texture channel.
    Sampler(TextureChannel),
}

/// Name of a uniform in the shader.
pub open spec fn uniform_name(u: Uniform) -> Seq<char> {
    match u {
        Uniform::Time => "iTime"@,
        Uniform::Color => "cColor"@,
        Uniform::RainHighlights => "cRainHighlights"@,
        Uniform::Intensity => "cINTENSITY"@,
        Uniform::DistortThreshold => "cDistortThreshold"@,
        Uniform::CrtCurve => "cCrtCurve"@,
        Uniform::NoiseFluctuation => "cNoiseFluctuation"@,
        Uniform::LowPower => "dLowPower"@,
        Uniform::DotSize => "cDotSize"@,
        Uniform::Columns => "cColumns"@,
        Uniform::AlbumPosition => "iAlbumPosition"@,
        Uniform::AlbumRgb => "iAlbumRGB"@,
        Uniform::Sampler(c) => "iChannel"@ + seq![digit_char(channel_unit_spec(c))],
    }
}

/// GLSL type of a uniform: what the renderer feeds it.
pub open spec fn uniform_type(u: Uniform) -> GlslType {
    match u {
        Uniform::Color | Uniform::AlbumPosition | Uniform::AlbumRgb => GlslType::Vec3,
        Uniform::Sampler(_) => GlslType::Sampler2D,
        _ => GlslType::Float,
    }
}

/// The header line that declares a uniform: `uniform <type> <name>;`.
pub open spec fn declaration(u: Uniform) -> Seq<char> {
    "uniform "@ + glsl_type_name(uniform_type(u)) + " "@ + uniform_name(u) + ";"@
}

impl Uniform {
    /// Name under which the renderer looks the uniform up.
    pub fn name(&self) -> (n: &'static str)
        ensures
            n@ == uniform_name(*self),
    {
        match self {
            Uniform::Time => "iTime",
            Uniform::Color => "cColor",
            Uniform::RainHighlights => "cRainHighlights",
            Uniform::Intensity => "cINTENSITY",
            Uniform::DistortThreshold => "cDistortThreshold",
            Uniform::CrtCurve => "cCrtCurve",
            Uniform::NoiseFluctuation => "cNoiseFluctuation",
            Uniform::LowPower => "dLowPower",
            Uniform::DotSize => "cDotSize",
            Uniform::Columns => "cColumns",
            Uniform::AlbumPosition => "iAlbumPosition",
            Uniform::AlbumRgb => "iAlbumRGB",
            Uniform::Sampler(c) => c.sampler_name(),
        }
    }

    /// GLSL type of the uniform.
    pub fn glsl_type(&self) -> (t: GlslType)
        ensures
            t == uniform_type(*self),
    {
        match self {
            Uniform::Color | Uniform::AlbumPosition | Uniform::AlbumRgb => GlslType::Vec3,
            Uniform::Sampler(_) => GlslType::Sampler2D,
            _ => GlslType::Float,
        }
    }
}

/// One line of the fragment-shader header.
#[derive(Clone, Copy)]
pub enum HeaderLine {
    /// A fixed line.
    Text(&'static str),
    /// The declaration of a uniform.
    Declare(Uniform),
    /// The constant holding the canvas resolution.
    Resolution,
}

/// Number of lines of the fragment-shader header.
pub const HEADER_LINE_COUNT: usize = 68;

/// Line `i` of the fragment-shader header: version and precisions, fixed
/// constants, uniform declarations around the resolution constant, then the
/// common helper functions.
pub open spec fn header_line(i: int) -> HeaderLine {
    if i == 0 {
        HeaderLine::Text("#version 300 es")
    } else if i == 1 {
        HeaderLine::Text("precision highp float;")
    } else if i == 2 {
        HeaderLine::Text("precision mediump int;")
    } else if i == 3 {
        HeaderLine::Text("out vec4 FragColor;")
    } else if i == 4 {
        HeaderLine::Text("const float cRNDSEED1 = 170.12;")
    } else if i == 5 {
        HeaderLine::Text("const float cRNDSEED2 = 7572.1;")
    } else if i == 6 {
        HeaderLine::Text("const float cMININTENSITY = 0.075;")
    } else if i == 7 {
        HeaderLine::Text("const float cDISTORTFACTORX = 0.6;")
    } else if i == 8 {
        HeaderLine::Text("const float cDISTORTFACTORY = 0.4;")
    } else if i == 9 {
        HeaderLine::Text("const float cVIGNETTEINTENSITY = 0.05;")
    } else if i == 10 {
        HeaderLine::Declare(Uniform::DotSize)
    } else if i == 11 {
        HeaderLine::Declare(Uniform::Columns)
    } else if i == 12 {
        HeaderLine::Declare(Uniform::NoiseFluctuation)
    } else if i == 13 {
        HeaderLine::Declare(Uniform::LowPower)
    } else if i == 14 {
        HeaderLine::Resolution
    } else if i == 15 {
        HeaderLine::Declare(Uniform::Sampler(TextureChannel::Audio))
    } else if i == 16 {
        HeaderLine::Declare(Uniform::Sampler(TextureChannel::Logo))
    } else if i == 17 {
        HeaderLine::Declare(Uniform::Sampler(TextureChannel::Noise))
    } else if i == 18 {
        HeaderLine::Declare(Uniform::Sampler(TextureChannel::Album))
    } else if i == 19 {
        HeaderLine::Declare(Uniform::AlbumPosition)
    } else if i == 20 {
        HeaderLine::Declare(Uniform::AlbumRgb)
    } else if i == 21 {
        HeaderLine::Text("#define dNoise")
    } else if i == 22 {
        HeaderLine::Declare(Uniform::Time)
    } else if i == 23 {
        HeaderLine::Declare(Uniform::Color)
    } else if i == 24 {
        HeaderLine::Declare(Uniform::RainHighlights)
    } else if i == 25 {
        HeaderLine::Declare(Uniform::Intensity)
    } else if i == 26 {
        HeaderLine::Declare(Uniform::DistortThreshold)
    } else if i == 27 {
        HeaderLine::Declare(Uniform::CrtCurve)
    } else if i == 28 {
        HeaderLine::Text("")
    } else if i == 29 {
        HeaderLine::Text("float h11(float p) {")
    } else if i == 30 {
        HeaderLine::Text("  float r_low = fract(.13 * p + 217943.37373737 / (p + 0.31));")
    } else if i == 31 {
        HeaderLine::Text("  float r_norm = fract(20.12345 + sin(p * cRNDSEED1) * cRNDSEED2);")
    } else if i == 32 {
        HeaderLine::Text("  return mix(r_norm, r_low, dLowPower);")
    } else if i == 33 {
        HeaderLine::Text("}")
    } else if i == 34 {
        HeaderLine::Text("")
    } else if i == 35 {
        HeaderLine::Text("float waveform(vec2 uv) {")
    } else if i == 36 {
        HeaderLine::Text("  float wave = texture(iChannel0, vec2(uv.x * .15 + .5, 0.75)).x;")
    } else if i == 37 {
        HeaderLine::Text("  float wf_low = min(abs(uv.y * 20. + (wave - .5) * 10.), 0.5);")
    } else if i == 38 {
        HeaderLine::Text("  float wf_norm = abs(smoothstep(.225, .275, wave * .5 + uv.y) - .5);")
    } else if i == 39 {
        HeaderLine::Text("  return mix(wf_norm, wf_low, dLowPower);")
    } else if i == 40 {
        HeaderLine::Text("}")
    } else if i == 41 {
        HeaderLine::Text("")
    } else if i == 42 {
        HeaderLine::Text("#ifdef dNoise")
    } else if i == 43 {
        HeaderLine::Text("float noise(vec2 gv) {")
    } else if i == 44 {
        HeaderLine::Text("  float n_low = texture(iChannel2, vec2(gl_FragCoord.xy / (256.0 * cDotSize))).x;")
    } else if i == 45 {
        HeaderLine::Text("  float n_norm = texture(iChannel2, (gv * .035431) + iTime * cNoiseFluctuation).x;")
    } else if i == 46 {
        HeaderLine::Text("  return mix(n_norm, n_low, dLowPower);")
    } else if i == 47 {
        HeaderLine::Text("}")
    } else if i == 48 {
        HeaderLine::Text("#endif")
    } else if i == 49 {
        HeaderLine::Text("")
    } else if i == 50 {
        HeaderLine::Text("vec3 bw2col(float bw, vec2 uv) {")
    } else if i == 51 {
        HeaderLine::Text("  float d = length(fract(uv * cColumns) - .5);")
    } else if i == 52 {
        HeaderLine::Text("  // Low power:  (basecolor*cColor + peakcolor) * bw")
    } else if i == 53 {
        HeaderLine::Text("  float pk_low = .6 - d;")
    } else if i == 54 {
        HeaderLine::Text("  float bc_low = .8 - d;")
    } else if i == 55 {
        HeaderLine::Text("  vec3 r_low = (bc_low * cColor + pk_low) * bw;")
    } else if i == 56 {
        HeaderLine::Text("  // Normal:     basecolor*cColor + peakcolor  (bw in smoothstep)")
    } else if i == 57 {
        HeaderLine::Text("  float pk_norm = smoothstep(.35, .0, d) * bw;")
    } else if i == 58 {
        HeaderLine::Text("  float bc_norm = smoothstep(.85, .0, d) * bw;")
    } else if i == 59 {
        HeaderLine::Text("  vec3 r_norm = bc_norm * cColor + pk_norm;")
    } else if i == 60 {
        HeaderLine::Text("  return mix(r_norm, r_low, dLowPower);")
    } else if i == 61 {
        HeaderLine::Text("}")
    } else if i == 62 {
        HeaderLine::Text("")
    } else if i == 63 {
        HeaderLine::Text("vec2 getUV() {")
    } else if i == 64 {
        HeaderLine::Text("  vec2 uv = (gl_FragCoord.xy - .5 * cResolution.xy) / cResolution.y;")
    } else if i == 65 {
        HeaderLine::Text("  vec2 crtUV = uv / (1.00 - length(uv * .1));")
    } else if i == 66 {
        HeaderLine::Text("  return mix(uv, crtUV, cCrtCurve);")
    } else {
        HeaderLine::Text("}")
    }
}

/// Line of the header at which a uniform is declared.
pub open spec fn uniform_line(u: Uniform) -> int {
    match u {
        Uniform::DotSize => 10,
        Uniform::Columns => 11,
        Uniform::NoiseFluctuation => 12,
        Uniform::LowPower => 13,
        Uniform::Sampler(c) => 15 + channel_unit_spec(c),
        Uniform::AlbumPosition => 19,
        Uniform::AlbumRgb => 20,
        Uniform::Time => 22,
        Uniform::Color => 23,
        Uniform::RainHighlights => 24,
        Uniform::Intensity => 25,
        Uniform::DistortThreshold => 26,
        Uniform::CrtCurve => 27,
    }
}

/// Smallest magnitude from which a 32-bit float no longer holds every integer.
pub const F32_EXACT_LIMIT: u64 = 0x100_0000;

/// Spacing of the 32-bit floats around the magnitude `a` (for `a >= 0`):
/// 1 below 2^24, doubling with every further binary digit.
pub open spec fn float_spacing(a: int) -> int
    decreases a,
{
    if a < 0x100_0000 {
        1
    } else {
        2 * float_spacing(a / 2)
    }
}

/// `a` rounded to a multiple of `u`, to the nearest one, ties to the even multiple.
pub open spec fn round_half_even(a: int, u: int) -> int {
    let q = a / u;
    let r = a % u;
    if 2 * r < u {
        q * u
    } else if 2 * r > u {
        (q + 1) * u
    } else if q % 2 == 0 {
        q * u
    } else {
        (q + 1) * u
    }
}

/// The value that the integer `v` takes as a 32-bit float (round to nearest, ties to even).
pub open spec fn f32_value(v: int) -> int {
    if v < 0 {
        -round_half_even(-v, float_spacing(-v))
    } else {
        round_half_even(v, float_spacing(v))
    }
}

/// The decimal digit `d` (0..9) as a character.
pub open spec fn digit_char(d: int) -> char {
    if d == 0 { '0' }
    else if d == 1 { '1' }
    else if d == 2 { '2' }
    else if d == 3 { '3' }
    else if d == 4 { '4' }
    else if d == 5 { '5' }
    else if d == 6 { '6' }
    else if d == 7 { '7' }
    else if d == 8 { '8' }
    else { '9' }
}

/// Decimal digits of `n`, most significant first, without leading zeros.
pub open spec fn decimal(n: nat) -> Seq<char>
    decreases n,
{
    if n < 10 {
        seq![digit_char(n as int)]
    } else {
        decimal(n / 10).push(digit_char((n % 10) as int))
    }
}

/// An integer-valued number written with one digit after the point: `-12.0`, `0.0`, `640.0`.
pub open spec fn one_decimal_text(x: int) -> Seq<char> {
    let sign = if x < 0 { seq!['-'] } else { Seq::<char>::empty() };
    let magnitude = if x < 0 { -x } else { x };
    sign + decimal(magnitude as nat) + seq!['.', '0']
}

/// Whether a character is a decimal digit.
pub open spec fn is_digit(c: char) -> bool {
    '0' <= c && c <= '9'
}

/// The number a string of decimal digits reads as, most significant digit first.
pub open spec fn digits_value(digits: Seq<char>) -> int
    decreases digits.len(),
{
    if digits.len() == 0 {
        0
    } else {
        10 * digits_value(digits.drop_last()) + (digits.last() as int - '0' as int)
    }
}

/// Whether `t` is a number written as an optional minus sign, one or more
/// decimal digits, then `.0`.
pub open spec fn is_one_decimal_number(t: Seq<char>) -> bool {
    &&& t.len() >= 3
    &&& t[t.len() - 2] == '.'
    &&& t[t.len() - 1] == '0'
    &&& {
        let body = t.take(t.len() - 2);
        let digits = if body[0] == '-' { body.drop_first() } else { body };
        &&& digits.len() >= 1
        &&& forall|i: int| 0 <= i < digits.len() ==> is_digit(#[trigger] digits[i])
    }
}

/// The value a number written as by `is_one_decimal_number` reads as.
pub open spec fn one_decimal_number_value(t: Seq<char>) -> int {
    let body = t.take(t.len() - 2);
    if body.len() > 0 && body[0] == '-' {
        -digits_value(body.drop_first())
    } else {
        digits_value(body)
    }
}

/// The line that declares the canvas resolution (without its line break).
pub open spec fn resolution_text(width: int, height: int) -> Seq<char> {
    "const vec2 cResolution = vec2("@ + one_decimal_text(f32_value(width)) + ", "@
        + one_decimal_text(f32_value(height)) + ");"@
}

/// Text of a header line for a `width` x `height` canvas.
pub open spec fn line_text(l: HeaderLine, width: int, height: int) -> Seq<char> {
    match l {
        HeaderLine::Text(s) => s@,
        HeaderLine::Declare(u) => declaration(u),
        HeaderLine::Resolution => resolution_text(width, height),
    }
}

/// The lines of the header for a `width` x `height` canvas.
pub open spec fn header_lines(width: int, height: int) -> Seq<Seq<char>> {
    Seq::new(HEADER_LINE_COUNT as nat, |i: int| line_text(header_line(i), width, height))
}

/// Lines written one after another, each ended by a line break.
pub open spec fn join_lines(lines: Seq<Seq<char>>) -> Seq<char>
    decreases lines.len(),
{
    if lines.len() == 0 {
        Seq::<char>::empty()
    } else {
        join_lines(lines.drop_last()) + lines.last() + seq!['\n']
    }
}

/// The whole fragment-shader header for a canvas of `width` x `height` pixels.
pub open spec fn glsl_header(width: int, height: int) -> Seq<char> {
    join_lines(header_lines(width, height))
}

/// The complete fragment shader: the header, a line break, then the body.
pub open spec fn fragment_source(width: int, height: int, body: Seq<char>) -> Seq<char> {
    glsl_header(width, height) + "\n"@ + body
}

fn header_line_at(i: usize) -> (l: HeaderLine)
    requires
        i < HEADER_LINE_COUNT,
    ensures
        l == header_line(i as int),
{
    match i {
        0 => HeaderLine::Text("#version 300 es"),
        1 => HeaderLine::Text("precision highp float;"),
        2 => HeaderLine::Text("precision mediump int;"),
        3 => HeaderLine::Text("out vec4 FragColor;"),
        4 => HeaderLine::Text("const float cRNDSEED1 = 170.12;"),
        5 => HeaderLine::Text("const float cRNDSEED2 = 7572.1;"),
        6 => HeaderLine::Text("const float cMININTENSITY = 0.075;"),
        7 => HeaderLine::Text("const float cDISTORTFACTORX = 0.6;"),
        8 => HeaderLine::Text("const float cDISTORTFACTORY = 0.4;"),
        9 => HeaderLine::Text("const float cVIGNETTEINTENSITY = 0.05;"),
        10 => HeaderLine::Declare(Uniform::DotSize),
        11 => HeaderLine::Declare(Uniform::Columns),
        12 => HeaderLine::Declare(Uniform::NoiseFluctuation),
        13 => HeaderLine::Declare(Uniform::LowPower),
        14 => HeaderLine::Resolution,
        15 => HeaderLine::Declare(Uniform::Sampler(TextureChannel::Audio)),
        16 => HeaderLine::Declare(Uniform::Sampler(TextureChannel::Logo)),
        17 => HeaderLine::Declare(Uniform::Sampler(TextureChannel::Noise)),
        18 => HeaderLine::Declare(Uniform::Sampler(TextureChannel::Album)),
        19 => HeaderLine::Declare(Uniform::AlbumPosition),
        20 => HeaderLine::Declare(Uniform::AlbumRgb),
        21 => HeaderLine::Text("#define dNoise"),
        22 => HeaderLine::Declare(Uniform::Time),
        23 => HeaderLine::Declare(Uniform::Color),
        24 => HeaderLine::Declare(Uniform::RainHighlights),
        25 => HeaderLine::Declare(Uniform::Intensity),
        26 => HeaderLine::Declare(Uniform::DistortThreshold),
        27 => HeaderLine::Declare(Uniform::CrtCurve),
        28 => HeaderLine::Text(""),
        29 => HeaderLine::Text("float h11(float p) {"),
        30 => HeaderLine::Text("  float r_low = fract(.13 * p + 217943.37373737 / (p + 0.31));"),
        31 => HeaderLine::Text("  float r_norm = fract(20.12345 + sin(p * cRNDSEED1) * cRNDSEED2);"),
        32 => HeaderLine::Text("  return mix(r_norm, r_low, dLowPower);"),
        33 => HeaderLine::Text("}"),
        34 => HeaderLine::Text(""),
        35 => HeaderLine::Text("float waveform(vec2 uv) {"),
        36 => HeaderLine::Text("  float wave = texture(iChannel0, vec2(uv.x * .15 + .5, 0.75)).x;"),
        37 => HeaderLine::Text("  float wf_low = min(abs(uv.y * 20. + (wave - .5) * 10.), 0.5);"),
        38 => HeaderLine::Text("  float wf_norm = abs(smoothstep(.225, .275, wave * .5 + uv.y) - .5);"),
        39 => HeaderLine::Text("  return mix(wf_norm, wf_low, dLowPower);"),
        40 => HeaderLine::Text("}"),
        41 => HeaderLine::Text(""),
        42 => HeaderLine::Text("#ifdef dNoise"),
        43 => HeaderLine::Text("float noise(vec2 gv) {"),
        44 => HeaderLine::Text("  float n_low = texture(iChannel2, vec2(gl_FragCoord.xy / (256.0 * cDotSize))).x;"),
        45 => HeaderLine::Text("  float n_norm = texture(iChannel2, (gv * .035431) + iTime * cNoiseFluctuation).x;"),
        46 => HeaderLine::Text("  return mix(n_norm, n_low, dLowPower);"),
        47 => HeaderLine::Text("}"),
        48 => HeaderLine::Text("#endif"),
        49 => HeaderLine::Text(""),
        50 => HeaderLine::Text("vec3 bw2col(float bw, vec2 uv) {"),
        51 => HeaderLine::Text("  float d = length(fract(uv * cColumns) - .5);"),
        52 => HeaderLine::Text("  // Low power:  (basecolor*cColor + peakcolor) * bw"),
        53 => HeaderLine::Text("  float pk_low = .6 - d;"),
        54 => HeaderLine::Text("  float bc_low = .8 - d;"),
        55 => HeaderLine::Text("  vec3 r_low = (bc_low * cColor + pk_low) * bw;"),
        56 => HeaderLine::Text("  // Normal:     basecolor*cColor + peakcolor  (bw in smoothstep)"),
        57 => HeaderLine::Text("  float pk_norm = smoothstep(.35, .0, d) * bw;"),
        58 => HeaderLine::Text("  float bc_norm = smoothstep(.85, .0, d) * bw;"),
        59 => HeaderLine::Text("  vec3 r_norm = bc_norm * cColor + pk_norm;"),
        60 => HeaderLine::Text("  return mix(r_norm, r_low, dLowPower);"),
        61 => HeaderLine::Text("}"),
        62 => HeaderLine::Text(""),
        63 => HeaderLine::Text("vec2 getUV() {"),
        64 => HeaderLine::Text("  vec2 uv = (gl_FragCoord.xy - .5 * cResolution.xy) / cResolution.y;"),
        65 => HeaderLine::Text("  vec2 crtUV = uv / (1.00 - length(uv * .1));"),
        66 => HeaderLine::Text("  return mix(uv, crtUV, cCrtCurve);"),
        _ => HeaderLine::Text("}"),
    }
}

fn digit_str(d: u64) -> (s: &'static str)
    requires
        d < 10,
    ensures
        s@ == seq![digit_char(d as int)],
{
    if d == 0 {
        proof { reveal_strlit("0"); }
        "0"
    } else if d == 1 {
        proof { reveal_strlit("1"); }
        "1"
    } else if d == 2 {
        proof { reveal_strlit("2"); }
        "2"
    } else if d == 3 {
        proof { reveal_strlit("3"); }
        "3"
    } else if d == 4 {
        proof { reveal_strlit("4"); }
        "4"
    } else if d == 5 {
        proof { reveal_strlit("5"); }
        "5"
    } else if d == 6 {
        proof { reveal_strlit("6"); }
        "6"
    } else if d == 7 {
        proof { reveal_strlit("7"); }
        "7"
    } else if d == 8 {
        proof { reveal_strlit("8"); }
        "8"
    } else {
        proof { reveal_strlit("9"); }
        "9"
    }
}

fn append_decimal(out: &mut String, n: u64)
    ensures
        final(out)@ == old(out)@ + decimal(n as nat),
    decreases n,
{
    if n >= 10 {
        append_decimal(out, n / 10);
    }
    out.append(digit_str(n % 10));
    assert(final(out)@ =~= old(out)@ + decimal(n as nat));
}

fn spacing_at(a: u64) -> (u: u64)
    requires
        a < 0x1_0000_0000,
    ensures
        u == float_spacing(a as int),
        u >= 1,
        u == 1 || u * 0x80_0000 <= a,
    decreases a,
{
    if a < F32_EXACT_LIMIT {
        1
    } else {
        2 * spacing_at(a / 2)
    }
}

fn round_magnitude(a: u64) -> (r: u64)
    requires
        a < 0x1_0000_0000,
    ensures
        r == round_half_even(a as int, float_spacing(a as int)),
        a > 0 ==> r > 0,
{
    let u = spacing_at(a);
    let q = a / u;
    let rem = a % u;
    assert(q * u + rem == a && rem < u) by (nonlinear_arith)
        requires
            u >= 1,
            q == a / u,
            rem == a % u,
    ;
    assert((q + 1) * u == q * u + u) by (nonlinear_arith);
    if a > 0 {
        assert(a >= u);
        assert(q * u >= u) by (nonlinear_arith)
            requires
                q * u + rem == a,
                rem < u,
                a >= u,
                u >= 1,
        ;
    }
    if 2 * rem < u {
        q * u
    } else if 2 * rem > u {
        (q + 1) * u
    } else if q % 2 == 0 {
        q * u
    } else {
        (q + 1) * u
    }
}

/// `v` converted to a 32-bit float and written with one digit after the point,
/// as the header writes the canvas dimensions (e.g. `1920.0`, `-3.0`, `16777216.0`).
pub fn one_decimal_f32_text(v: i32) -> (s: String)
    ensures
        s@ == one_decimal_text(f32_value(v as int)),
        is_one_decimal_number(s@),
        one_decimal_number_value(s@) == f32_value(v as int),
        -0x100_0000 <= v <= 0x100_0000 ==> one_decimal_number_value(s@) == v,
{
    let mut s = String::new();
    let wide = v as i64;
    let magnitude: u64 = if wide < 0 { (-wide) as u64 } else { wide as u64 };
    let rounded = round_magnitude(magnitude);
    if wide < 0 {
        proof { reveal_strlit("-"); }
        s.append("-");
    }
    append_decimal(&mut s, rounded);
    proof { reveal_strlit(".0"); }
    s.append(".0");
    assert(f32_value(v as int) < 0 <==> wide < 0);
    proof {
        one_decimal_text_reads_back(f32_value(v as int));
        assert(s@ == one_decimal_text(f32_value(v as int)));
        assert(is_one_decimal_number(s@));
        if -0x100_0000 <= v <= 0x100_0000 {
            small_dimensions_are_exact(v as int);
        }
    }
    s
}

fn append_declaration(out: &mut String, u: Uniform)
    ensures
        final(out)@ == old(out)@ + declaration(u),
{
    out.append("uniform ");
    out.append(u.glsl_type().keyword());
    out.append(" ");
    out.append(u.name());
    out.append(";");
    assert(final(out)@ =~= old(out)@ + declaration(u));
}

fn append_resolution(out: &mut String, width: i32, height: i32)
    ensures
        final(out)@ == old(out)@ + resolution_text(width as int, height as int),
{
    out.append("const vec2 cResolution = vec2(");
    let w = one_decimal_f32_text(width);
    out.append(w.as_str());
    out.append(", ");
    let h = one_decimal_f32_text(height);
    out.append(h.as_str());
    out.append(");");
    assert(final(out)@ =~= old(out)@ + resolution_text(width as int, height as int));
}

/// The GLSL header put in front of every fragment shader: version and precision,
/// the fixed constants, the uniforms and samplers the renderer sets, the canvas
/// resolution, and the common helper functions.
pub fn build_glsl_header(width: i32, height: i32) -> (h: String)
    ensures
        h@ == glsl_header(width as int, height as int),
{
    let ghost lines = header_lines(width as int, height as int);
    let mut h = String::new();
    let mut i: usize = 0;
    assert(lines.take(0) =~= Seq::<Seq<char>>::empty());
    while i < HEADER_LINE_COUNT
        invariant
            i <= HEADER_LINE_COUNT,
            lines == header_lines(width as int, height as int),
            h@ == join_lines(lines.take(i as int)),
        decreases HEADER_LINE_COUNT - i,
    {
        let line = header_line_at(i);
        match line {
            HeaderLine::Text(s) => h.append(s),
            HeaderLine::Declare(u) => append_declaration(&mut h, u),
            HeaderLine::Resolution => append_resolution(&mut h, width, height),
        }
        proof { reveal_strlit("\n"); }
        h.append("\n");
        assert(lines.take(i + 1).drop_last() =~= lines.take(i as int));
        i = i + 1;
    }
    assert(lines.take(HEADER_LINE_COUNT as int) =~= lines);
    h
}

/// The complete fragment shader compiled for a `width` x `height` canvas:
/// the header, a line break, then `body` unchanged.
pub fn fragment_shader_source(width: i32, height: i32, body: &str) -> (src: String)
    ensures
        src@ == fragment_source(width as int, height as int, body@),
        src@.len() == glsl_header(width as int, height as int).len() + 1 + body@.len(),
        src@.skip(glsl_header(width as int, height as int).len() + 1int) == body@,
{
    let mut src = build_glsl_header(width, height);
    src.append("\n");
    src.append(body);
    assert(src@ =~= fragment_source(width as int, height as int, body@));
    proof { fragment_source_keeps_whole_body(width as int, height as int, body@); }
    src
}

proof fn fixed_lines_do_not_start_with_u(i: int)
    requires
        0 <= i < HEADER_LINE_COUNT,
    ensures
        header_line(i) matches HeaderLine::Text(s) ==> s@.len() == 0 || s@[0] != 'u',
{
    reveal_strlit("");
    reveal_strlit("  // Low power:  (basecolor*cColor + peakcolor) * bw");
    reveal_strlit("  // Normal:     basecolor*cColor + peakcolor  (bw in smoothstep)");
    reveal_strlit("  float bc_low = .8 - d;");
    reveal_strlit("  float bc_norm = smoothstep(.85, .0, d) * bw;");
    reveal_strlit("  float d = length(fract(uv * cColumns) - .5);");
    reveal_strlit("  float n_low = texture(iChannel2, vec2(gl_FragCoord.xy / (256.0 * cDotSize))).x;");
    reveal_strlit("  float n_norm = texture(iChannel2, (gv * .035431) + iTime * cNoiseFluctuation).x;");
    reveal_strlit("  float pk_low = .6 - d;");
    reveal_strlit("  float pk_norm = smoothstep(.35, .0, d) * bw;");
    reveal_strlit("  float r_low = fract(.13 * p + 217943.37373737 / (p + 0.31));");
    reveal_strlit("  float r_norm = fract(20.12345 + sin(p * cRNDSEED1) * cRNDSEED2);");
    reveal_strlit("  float wave = texture(iChannel0, vec2(uv.x * .15 + .5, 0.75)).x;");
    reveal_strlit("  float wf_low = min(abs(uv.y * 20. + (wave - .5) * 10.), 0.5);");
    reveal_strlit("  float wf_norm = abs(smoothstep(.225, .275, wave * .5 + uv.y) - .5);");
    reveal_strlit("  return mix(n_norm, n_low, dLowPower);");
    reveal_strlit("  return mix(r_norm, r_low, dLowPower);");
    reveal_strlit("  return mix(uv, crtUV, cCrtCurve);");
    reveal_strlit("  return mix(wf_norm, wf_low, dLowPower);");
    reveal_strlit("  vec2 crtUV = uv / (1.00 - length(uv * .1));");
    reveal_strlit("  vec2 uv = (gl_FragCoord.xy - .5 * cResolution.xy) / cResolution.y;");
    reveal_strlit("  vec3 r_low = (bc_low * cColor + pk_low) * bw;");
    reveal_strlit("  vec3 r_norm = bc_norm * cColor + pk_norm;");
    reveal_strlit("#define dNoise");
    reveal_strlit("#endif");
    reveal_strlit("#ifdef dNoise");
    reveal_strlit("#version 300 es");
    reveal_strlit("const float cDISTORTFACTORX = 0.6;");
    reveal_strlit("const float cDISTORTFACTORY = 0.4;");
    reveal_strlit("const float cMININTENSITY = 0.075;");
    reveal_strlit("const float cRNDSEED1 = 170.12;");
    reveal_strlit("const float cRNDSEED2 = 7572.1;");
    reveal_strlit("const float cVIGNETTEINTENSITY = 0.05;");
    reveal_strlit("float h11(float p) {");
    reveal_strlit("float noise(vec2 gv) {");
    reveal_strlit("float waveform(vec2 uv) {");
    reveal_strlit("out vec4 FragColor;");
    reveal_strlit("precision highp float;");
    reveal_strlit("precision mediump int;");
    reveal_strlit("vec2 getUV() {");
    reveal_strlit("vec3 bw2col(float bw, vec2 uv) {");
    reveal_strlit("}");
}

proof fn declaration_starts_with_u(u: Uniform)
    ensures
        declaration(u).len() > 0,
        declaration(u)[0] == 'u',
{
    reveal_strlit("uniform ");
}

proof fn resolution_starts_with_c(width: int, height: int)
    ensures
        resolution_text(width, height).len() > 0,
        resolution_text(width, height)[0] == 'c',
{
    reveal_strlit("const vec2 cResolution = vec2(");
}

proof fn declarations_differ(u1: Uniform, u2: Uniform)
    requires
        declaration(u1) == declaration(u2),
    ensures
        u1 == u2,
{
    reveal_strlit("uniform ");
    reveal_strlit(" ");
    reveal_strlit(";");
    reveal_strlit("float");
    reveal_strlit("vec3");
    reveal_strlit("sampler2D");
    reveal_strlit("iTime");
    reveal_strlit("cColor");
    reveal_strlit("cRainHighlights");
    reveal_strlit("cINTENSITY");
    reveal_strlit("cDistortThreshold");
    reveal_strlit("cCrtCurve");
    reveal_strlit("cNoiseFluctuation");
    reveal_strlit("dLowPower");
    reveal_strlit("cDotSize");
    reveal_strlit("cColumns");
    reveal_strlit("iAlbumPosition");
    reveal_strlit("iAlbumRGB");
    reveal_strlit("iChannel");
    let d1 = declaration(u1);
    let d2 = declaration(u2);
    assert(d1.len() == d2.len());
    assert(d1[15] == d2[15]);
    if d1.len() > 26 {
        assert(d1[26] == d2[26]);
    }
}

proof fn declared_where_placed(i: int)
    requires
        0 <= i < HEADER_LINE_COUNT,
    ensures
        header_line(i) matches HeaderLine::Declare(u) ==> uniform_line(u) == i,
{
}

/// The header declares every uniform the renderer sets, each on a line of its
/// own reading `uniform <type> <name>;` with the type the renderer feeds, and
/// on exactly one line.
pub proof fn header_declares_each_uniform_once(width: int, height: int, u: Uniform)
    ensures
        0 <= uniform_line(u) < HEADER_LINE_COUNT,
        header_lines(width, height)[uniform_line(u)] == declaration(u),
        forall|i: int|
            0 <= i < HEADER_LINE_COUNT && #[trigger] header_lines(width, height)[i]
                == declaration(u) ==> i == uniform_line(u),
{
    let lines = header_lines(width, height);
    assert(header_line(uniform_line(u)) == HeaderLine::Declare(u));
    assert forall|i: int|
        0 <= i < HEADER_LINE_COUNT && #[trigger] lines[i] == declaration(u) implies i
            == uniform_line(u) by {
        fixed_lines_do_not_start_with_u(i);
        declared_where_placed(i);
        declaration_starts_with_u(u);
        resolution_starts_with_c(width, height);
        match header_line(i) {
            HeaderLine::Text(s) => {},
            HeaderLine::Resolution => {},
            HeaderLine::Declare(v) => {
                declarations_differ(v, u);
            },
        }
    }
}

proof fn digit_char_is_digit(d: int)
    requires
        0 <= d < 10,
    ensures
        is_digit(digit_char(d)),
        digit_char(d) as int - '0' as int == d,
{
}

/// The decimal digits of `n` are digits, start with no minus sign, and read back as `n`.
pub proof fn decimal_reads_back(n: nat)
    ensures
        decimal(n).len() >= 1,
        forall|i: int| 0 <= i < decimal(n).len() ==> is_digit(#[trigger] decimal(n)[i]),
        digits_value(decimal(n)) == n,
    decreases n,
{
    if n < 10 {
        digit_char_is_digit(n as int);
        assert(decimal(n).drop_last() =~= Seq::<char>::empty());
        assert(digits_value(Seq::<char>::empty()) == 0);
        assert(digits_value(decimal(n)) == 10 * digits_value(decimal(n).drop_last()) + (
        decimal(n).last() as int - '0' as int));
    } else {
        decimal_reads_back(n / 10);
        digit_char_is_digit((n % 10) as int);
        let d = decimal(n);
        assert(d.drop_last() =~= decimal(n / 10));
        assert(d.last() == digit_char((n % 10) as int));
        assert(digits_value(d) == 10 * digits_value(d.drop_last()) + (d.last() as int - '0' as int));
        assert(n == 10 * (n / 10) + n % 10);
        assert forall|i: int| 0 <= i < d.len() implies is_digit(#[trigger] d[i]) by {
            if i < d.len() - 1 {
                assert(d[i] == decimal(n / 10)[i]);
            }
        }
    }
}

/// The text of a number is well formed and reads back as the number: a minus
/// sign exactly when it is negative, the decimal digits of its magnitude, `.0`.
pub proof fn one_decimal_text_reads_back(x: int)
    ensures
        is_one_decimal_number(one_decimal_text(x)),
        one_decimal_number_value(one_decimal_text(x)) == x,
        (one_decimal_text(x)[0] == '-') == (x < 0),
{
    let magnitude = if x < 0 { -x } else { x };
    let digits = decimal(magnitude as nat);
    decimal_reads_back(magnitude as nat);
    let t = one_decimal_text(x);
    let body = t.take(t.len() - 2);
    if x < 0 {
        assert(body =~= seq!['-'] + digits);
        assert(body.drop_first() =~= digits);
    } else {
        assert(body =~= digits);
        assert(is_digit(digits[0]));
    }
}

/// The resolution line writes the width first and the height second, each as
/// its exact value, for every canvas dimension up to 2^24 in magnitude; it is
/// line 14 of the header.
pub proof fn resolution_line_writes_width_then_height(width: int, height: int)
    requires
        -0x100_0000 <= width <= 0x100_0000,
        -0x100_0000 <= height <= 0x100_0000,
    ensures
        resolution_text(width, height) == "const vec2 cResolution = vec2("@ + one_decimal_text(width)
            + ", "@ + one_decimal_text(height) + ");"@,
        one_decimal_number_value(one_decimal_text(width)) == width,
        one_decimal_number_value(one_decimal_text(height)) == height,
        header_lines(width, height)[14] == resolution_text(width, height),
{
    small_dimensions_are_exact(width);
    small_dimensions_are_exact(height);
    one_decimal_text_reads_back(width);
    one_decimal_text_reads_back(height);
}

/// The complete shader is the header, one line break, and the whole body
/// unchanged, whatever the body's length.
pub proof fn fragment_source_keeps_whole_body(width: int, height: int, body: Seq<char>)
    ensures
        fragment_source(width, height, body).len() == glsl_header(width, height).len() + 1
            + body.len(),
        fragment_source(width, height, body).take(glsl_header(width, height).len() as int)
            == glsl_header(width, height),
        fragment_source(width, height, body)[glsl_header(width, height).len() as int] == '\n',
        fragment_source(width, height, body).skip(glsl_header(width, height).len() + 1int) == body,
{
    reveal_strlit("\n");
    let hd = glsl_header(width, height);
    let f = fragment_source(width, height, body);
    assert(f.take(hd.len() as int) =~= hd);
    assert(f.skip(hd.len() + 1int) =~= body);
}

/// A 32-bit float conversion moves an integer by at most half the float spacing
/// at its magnitude, to a multiple of that spacing.
pub proof fn f32_value_is_nearest(v: int)
    ensures
        ({
            let a = if v < 0 { -v } else { v };
            let u = float_spacing(a);
            let f = if v < 0 { -f32_value(v) } else { f32_value(v) };
            &&& u >= 1
            &&& f % u == 0
            &&& 2 * (f - a) <= u
            &&& 2 * (a - f) <= u
        }),
{
    let a = if v < 0 { -v } else { v };
    spacing_positive(a);
    let u = float_spacing(a);
    let q = a / u;
    let r = a % u;
    assert(q * u + r == a && 0 <= r < u) by (nonlinear_arith)
        requires
            u >= 1,
            q == a / u,
            r == a % u,
    ;
    vstd::arithmetic::div_mod::lemma_mod_multiples_basic(q, u);
    vstd::arithmetic::div_mod::lemma_mod_multiples_basic(q + 1, u);
    assert((q + 1) * u == q * u + u) by (nonlinear_arith);
}

proof fn spacing_positive(a: int)
    ensures
        float_spacing(a) >= 1,
    decreases a,
{
    if a >= 0x100_0000 {
        spacing_positive(a / 2);
    }
}

/// The helper functions of the header read the uniforms under the very names
/// the renderer sets them by: the waveform reads the audio channel's sampler,
/// the noise reads the noise channel's sampler, and the dot size, time, noise
/// fluctuation, column count, colour, curvature and low-power uniforms appear
/// where the helpers use them.
pub proof fn helpers_read_the_renderer_uniforms(width: int, height: int)
    ensures
        header_lines(width, height)[32].subrange(28, 37) == uniform_name(Uniform::LowPower),
        header_lines(width, height)[36].subrange(23, 32) == uniform_name(Uniform::Sampler(TextureChannel::Audio)),
        header_lines(width, height)[44].subrange(24, 33) == uniform_name(Uniform::Sampler(TextureChannel::Noise)),
        header_lines(width, height)[44].subrange(67, 75) == uniform_name(Uniform::DotSize),
        header_lines(width, height)[45].subrange(53, 58) == uniform_name(Uniform::Time),
        header_lines(width, height)[45].subrange(61, 78) == uniform_name(Uniform::NoiseFluctuation),
        header_lines(width, height)[51].subrange(30, 38) == uniform_name(Uniform::Columns),
        header_lines(width, height)[55].subrange(25, 31) == uniform_name(Uniform::Color),
        header_lines(width, height)[66].subrange(24, 33) == uniform_name(Uniform::CrtCurve),
{
    reveal_strlit("  float d = length(fract(uv * cColumns) - .5);");
    reveal_strlit("  float n_low = texture(iChannel2, vec2(gl_FragCoord.xy / (256.0 * cDotSize))).x;");
    reveal_strlit("  float n_norm = texture(iChannel2, (gv * .035431) + iTime * cNoiseFluctuation).x;");
    reveal_strlit("  float wave = texture(iChannel0, vec2(uv.x * .15 + .5, 0.75)).x;");
    reveal_strlit("  return mix(r_norm, r_low, dLowPower);");
    reveal_strlit("  return mix(uv, crtUV, cCrtCurve);");
    reveal_strlit("  vec3 r_low = (bc_low * cColor + pk_low) * bw;");
    reveal_strlit("iChannel");
    reveal_strlit("dLowPower");
    reveal_strlit("cDotSize");
    reveal_strlit("iTime");
    reveal_strlit("cNoiseFluctuation");
    reveal_strlit("cColumns");
    reveal_strlit("cColor");
    reveal_strlit("cCrtCurve");
    assert(header_lines(width, height)[32].subrange(28, 37) =~= uniform_name(Uniform::LowPower));
    assert(header_lines(width, height)[36].subrange(23, 32) =~= uniform_name(Uniform::Sampler(TextureChannel::Audio)));
    assert(header_lines(width, height)[44].subrange(24, 33) =~= uniform_name(Uniform::Sampler(TextureChannel::Noise)));
    assert(header_lines(width, height)[44].subrange(67, 75) =~= uniform_name(Uniform::DotSize));
    assert(header_lines(width, height)[45].subrange(53, 58) =~= uniform_name(Uniform::Time));
    assert(header_lines(width, height)[45].subrange(61, 78) =~= uniform_name(Uniform::NoiseFluctuation));
    assert(header_lines(width, height)[51].subrange(30, 38) =~= uniform_name(Uniform::Columns));
    assert(header_lines(width, height)[55].subrange(25, 31) =~= uniform_name(Uniform::Color));
    assert(header_lines(width, height)[66].subrange(24, 33) =~= uniform_name(Uniform::CrtCurve));
}

proof fn join_lines_starts_with_first(lines: Seq<Seq<char>>)
    requires
        lines.len() >= 1,
    ensures
        join_lines(lines).len() >= lines[0].len() + 1,
        join_lines(lines).take(lines[0].len() + 1int) == lines[0].push('\n'),
    decreases lines.len(),
{
    let k: int = lines[0].len() + 1int;
    if lines.len() == 1 {
        assert(lines.drop_last() =~= Seq::<Seq<char>>::empty());
        assert(join_lines(lines.drop_last()) == Seq::<char>::empty());
        assert(join_lines(lines) == join_lines(lines.drop_last()) + lines.last() + seq!['\n']);
        assert(join_lines(lines) =~= lines[0].push('\n'));
        assert(join_lines(lines).take(k) =~= lines[0].push('\n'));
    } else {
        let rest = lines.drop_last();
        join_lines_starts_with_first(rest);
        assert(rest[0] == lines[0]);
        assert(join_lines(lines).take(k) =~= join_lines(rest).take(k));
    }
}

/// The header begins with the GLSL ES 3.00 version directive on its own first
/// line, as GLSL requires.
pub proof fn header_starts_with_version(width: int, height: int)
    ensures
        glsl_header(width, height).take(16) == "#version 300 es\n"@,
{
    reveal_strlit("#version 300 es");
    reveal_strlit("#version 300 es\n");
    let lines = header_lines(width, height);
    join_lines_starts_with_first(lines);
    assert(lines[0] == "#version 300 es"@);
    assert(lines[0].push('\n') =~= "#version 300 es\n"@);
}

/// Every canvas dimension up to 2^24 in magnitude is written exactly: its
/// float conversion loses nothing.
pub proof fn small_dimensions_are_exact(v: int)
    requires
        -0x100_0000 <= v <= 0x100_0000,
    ensures
        f32_value(v) == v,
{
    let a = if v < 0 { -v } else { v };
    if a < 0x100_0000 {
        assert(float_spacing(a) == 1);
        assert(a / 1 == a && a % 1 == 0);
    } else {
        assert(float_spacing(a / 2) == 1);
        assert(float_spacing(a) == 2);
        assert(a / 2 == 0x80_0000 && a % 2 == 0);
    }
}

} // verus!
