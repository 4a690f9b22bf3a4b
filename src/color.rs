use vstd::prelude::*;

verus! {

/// An 8-bit RGBA color whose color channels are premultiplied by alpha.
#[derive(Clone, Copy, Debug, PartialEq, Eq, Structural)]
pub struct Color {
    pub r: u8,
    pub g: u8,
    pub b: u8,
    pub a: u8,
}

/// A line: its width in tenths of a point, and its color.
#[derive(Clone, Copy, Debug, PartialEq, Eq, Structural)]
pub struct Stroke {
    pub width_tenths: u32,
    pub color: Color,
}

pub open spec fn white() -> Color {
    Color { r: 255, g: 255, b: 255, a: 255 }
}

pub open spec fn black() -> Color {
    Color { r: 0, g: 0, b: 0, a: 255 }
}

/// No color at all.
pub open spec fn transparent() -> Color {
    Color { r: 0, g: 0, b: 0, a: 0 }
}

/// A channel multiplied by `percent` / 100, rounded down and capped at 255.
pub open spec fn scaled_channel(c: u8, percent: u32) -> u8 {
    let v = c as int * percent as int / 100;
    if v > 255 {
        255
    } else {
        v as u8
    }
}

/// Every channel, alpha included, multiplied by `percent` / 100.
pub open spec fn scaled(c: Color, percent: u32) -> Color {
    Color {
        r: scaled_channel(c.r, percent),
        g: scaled_channel(c.g, percent),
        b: scaled_channel(c.b, percent),
        a: scaled_channel(c.a, percent),
    }
}

/// The alpha channel raised by `percent` percent, capped at fully opaque.
pub open spec fn raised_alpha(a: u8, percent: u32) -> u8 {
    let v = a as int * (100 + percent as int) / 100;
    if v > 255 {
        255
    } else {
        v as u8
    }
}

/// The color with its alpha raised by `percent` percent; the color channels are kept.
pub open spec fn with_raised_opacity(c: Color, percent: u32) -> Color {
    Color { a: raised_alpha(c.a, percent), ..c }
}

/// The look of a color on a control that does not respond: scaled, then made more opaque.
///
/// This works on the stored 8-bit channels. It does not convert to linear light and back,
/// and it does not premultiply the channels again after raising alpha. So a dimmed color can
/// differ by a few steps from one that egui's `Color32::linear_multiply` would give.
pub open spec fn disabled_look(c: Color, multiply: u32, opacity: u32) -> Color {
    with_raised_opacity(scaled(c, multiply), opacity)
}

fn scale_channel(c: u8, percent: u32) -> (r: u8)
    ensures
        r == scaled_channel(c, percent),
{
    assert(c as u64 * percent as u64 <= 255 * 0xffff_ffff) by (nonlinear_arith)
        requires
            c <= 255,
            percent <= 0xffff_ffff,
    ;
    let v: u64 = c as u64 * percent as u64 / 100;
    if v > 255 {
        255
    } else {
        v as u8
    }
}

impl Color {
    /// An opaque color from its red, green and blue channels.
    pub fn from_rgb(r: u8, g: u8, b: u8) -> (c: Color)
        ensures
            c == (Color { r, g, b, a: 255 }),
    {
        Color { r, g, b, a: 255 }
    }

    pub fn transparent() -> (c: Color)
        ensures
            c == transparent(),
    {
        Color { r: 0, g: 0, b: 0, a: 0 }
    }

    pub fn white() -> (c: Color)
        ensures
            c == white(),
    {
        Color { r: 255, g: 255, b: 255, a: 255 }
    }

    pub fn black() -> (c: Color)
        ensures
            c == black(),
    {
        Color { r: 0, g: 0, b: 0, a: 255 }
    }

    /// Every channel, alpha included, multiplied by `percent` / 100 (rounded down, capped at 255).
    pub fn scale(self, percent: u32) -> (c: Color)
        ensures
            c == scaled(self, percent),
    {
        Color {
            r: scale_channel(self.r, percent),
            g: scale_channel(self.g, percent),
            b: scale_channel(self.b, percent),
            a: scale_channel(self.a, percent),
        }
    }
}

/// Raises the opacity of `color` by `increase_percentage` percent, capped at fully opaque.
pub fn increase_opacity(color: Color, increase_percentage: u32) -> (c: Color)
    ensures
        c == with_raised_opacity(color, increase_percentage),
{
    let f: u64 = 100 + increase_percentage as u64;
    assert(color.a as u64 * f <= 255 * 0x1_0000_0064) by (nonlinear_arith)
        requires
            color.a <= 255,
            f <= 0x1_0000_0064,
    ;
    let v: u64 = color.a as u64 * f / 100;
    let a: u8 = if v > 255 {
        255
    } else {
        v as u8
    };
    Color { a, ..color }
}

/// The color of a disabled control: every channel scaled by `multiply` percent, then the
/// opacity raised by `opacity` percent.
pub fn disable_color(color: Color, multiply: u32, opacity: u32) -> (c: Color)
    ensures
        c == disabled_look(color, multiply, opacity),
{
    increase_opacity(color.scale(multiply), opacity)
}

pub open spec fn abs(a: int) -> int {
    if a >= 0 {
        a
    } else {
        -a
    }
}

/// The common denominator of the quantities below.
pub open spec fn hsl_den() -> int {
    12_000_000_000
}

/// A channel from its value over `hsl_den()`: scaled to 255, rounded toward zero and held
/// within 0 to 255.
pub open spec fn channel_of(n: int) -> u8 {
    if n <= 0 {
        0
    } else if n * 255 / hsl_den() >= 255 {
        255
    } else {
        (n * 255 / hsl_den()) as u8
    }
}

/// Chroma `c = (1 - |2l - 1|) s`, over `hsl_den()`; `s` and `l` in thousandths.
pub open spec fn hsl_chroma(s: int, l: int) -> int {
    (1000 - abs(2 * l - 1000)) * s * 12000
}

/// The hue turned into one full circle: `h` modulo 360 degrees, in [0, 36000) hundredths.
pub open spec fn hue_in_circle(h: int) -> int {
    h % 36000
}

/// The second largest component `x = c (1 - |(h / 60) mod 2 - 1|)`, over `hsl_den()`; `h` in
/// hundredths of a degree, within one circle.
pub open spec fn hsl_second(h: int, s: int, l: int) -> int {
    (1000 - abs(2 * l - 1000)) * s * (6000 - abs(h % 12000 - 6000)) * 2
}

/// The offset `m = l - c / 2`, over `hsl_den()`.
pub open spec fn hsl_offset(s: int, l: int) -> int {
    l * 12_000_000 - (1000 - abs(2 * l - 1000)) * s * 6000
}

/// The RGB color of hue `h` (hundredths of a degree, any angle, taken modulo 360 degrees),
/// saturation `s` and lightness `l` (thousandths), by the standard conversion; each channel
/// is rounded toward zero and held within 0 to 255.
pub open spec fn hsl_rgb(hue: int, s: int, l: int) -> (u8, u8, u8) {
    let h = hue_in_circle(hue);
    let c = hsl_chroma(s, l);
    let x = hsl_second(h, s, l);
    let m = hsl_offset(s, l);
    let (r, g, b) = if h < 6000 {
        (c, x, 0)
    } else if h < 12000 {
        (x, c, 0)
    } else if h < 18000 {
        (0, c, x)
    } else if h < 24000 {
        (0, x, c)
    } else if h < 30000 {
        (x, 0, c)
    } else {
        (c, 0, x)
    };
    (channel_of(r + m), channel_of(g + m), channel_of(b + m))
}

/// The exec computation of the hue within one circle matches `hue_in_circle`.
proof fn lemma_hue_in_circle(h: int, hc: int)
    requires
        h >= 0 ==> hc == h % 36000,
        h < 0 ==> hc == (if (-h) % 36000 == 0 {
            0
        } else {
            36000 - (-h) % 36000
        }),
    ensures
        hc == hue_in_circle(h),
        0 <= hc < 36000,
{
    if h < 0 {
        let q = (-h) / 36000;
        let r = (-h) % 36000;
        assert(-h == q * 36000 + r);
        if r == 0 {
            assert(h == (-q) * 36000);
            vstd::arithmetic::div_mod::lemma_mod_multiples_basic(-q, 36000);
        } else {
            assert(h == (-q - 1) * 36000 + (36000 - r));
            vstd::arithmetic::div_mod::lemma_mod_multiples_vanish(-q - 1, 36000 - r, 36000);
            vstd::arithmetic::div_mod::lemma_small_mod((36000 - r) as nat, 36000);
        }
    }
}

/// A hue and the same hue a full circle away, or any number of circles, give one color.
pub proof fn lemma_hue_wraps(h: int, turns: int, s: int, l: int)
    ensures
        hsl_rgb(h + turns * 36000, s, l) == hsl_rgb(h, s, l),
        hsl_rgb(h, s, l) == hsl_rgb(hue_in_circle(h), s, l),
{
    vstd::arithmetic::div_mod::lemma_mod_multiples_vanish(turns, h, 36000);
    vstd::arithmetic::div_mod::lemma_small_mod((h % 36000) as nat, 36000);
    assert(h + turns * 36000 == turns * 36000 + h);
}

fn channel_from(n: i64) -> (c: u8)
    requires
        -100_000_000_000 <= n <= 100_000_000_000,
    ensures
        c == channel_of(n as int),
{
    if n <= 0 {
        0
    } else {
        let v: i64 = n * 255 / 12_000_000_000;
        if v >= 255 {
            255
        } else {
            v as u8
        }
    }
}

/// Converts hue `h` (hundredths of a degree), saturation `s` and lightness `l` (thousandths)
/// to RGB.
#[verifier::rlimit(30)]
pub fn hsl_to_rgb(h: i32, s: u32, l: u32) -> (rgb: (u8, u8, u8))
    requires
        s <= 1000,
        l <= 1000,
    ensures
        rgb == hsl_rgb(h as int, s as int, l as int),
{
    let hh: i64 = h as i64;
    let ss: i64 = s as i64;
    let ll: i64 = l as i64;
    let d: i64 = if 2 * ll >= 1000 {
        2 * ll - 1000
    } else {
        1000 - 2 * ll
    };
    let hc: i64 = if hh >= 0 {
        hh % 36000
    } else {
        let back: i64 = (-hh) % 36000;
        if back == 0 {
            0
        } else {
            36000 - back
        }
    };
    proof {
        lemma_hue_in_circle(hh as int, hc as int);
    }
    let rem: i64 = hc % 12000;
    let e: i64 = if rem >= 6000 {
        rem - 6000
    } else {
        6000 - rem
    };
    let w: i64 = 1000 - d;
    assert(0 <= w * ss <= 1_000_000) by (nonlinear_arith)
        requires
            0 <= w <= 1000,
            0 <= ss <= 1000,
    ;
    let ws: i64 = w * ss;
    let f: i64 = 6000 - e;
    assert(0 <= ws * f <= 6_000_000_000) by (nonlinear_arith)
        requires
            0 <= ws <= 1_000_000,
            0 <= f <= 6000,
    ;
    let c: i64 = ws * 12000;
    let x: i64 = ws * f * 2;
    let m: i64 = ll * 12_000_000 - ws * 6000;
    proof {
        assert(abs(2 * l - 1000) == d);
        assert(c == hsl_chroma(s as int, l as int));
        assert(x == hsl_second(hc as int, s as int, l as int));
        assert(m == hsl_offset(s as int, l as int));
    }
    let (r, g, b): (i64, i64, i64) = if hc < 6000 {
        (c, x, 0)
    } else if hc < 12000 {
        (x, c, 0)
    } else if hc < 18000 {
        (0, c, x)
    } else if hc < 24000 {
        (0, x, c)
    } else if hc < 30000 {
        (x, 0, c)
    } else {
        (c, 0, x)
    };
    (channel_from(r + m), channel_from(g + m), channel_from(b + m))
}

} // verus!
