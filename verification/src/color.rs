//! Color values and their derivation operations.
//!
//! A color is an RGBA value with byte channels and an alpha held in
//! thousandths, so every operation is exact integer arithmetic.  `shade`
//! blends toward black, `tint` toward white, `fade` replaces the alpha;
//! the blend ratio is given in thousandths and rounding is to the nearest
//! value, halves away from zero.  Lightness is the HSL lightness,
//! `(max + min) / 2` of the channels scaled to `[0, 1]`; a color is "light"
//! when that exceeds one half, that is when `max + min > 255`.

use vstd::prelude::*;
use vstd::arithmetic::div_mod::lemma_div_is_ordered;
use vstd::arithmetic::div_mod::lemma_div_multiples_vanish;
use vstd::arithmetic::div_mod::lemma_multiply_divide_lt;
use vstd::arithmetic::mul::lemma_mul_inequality;
use vstd::string::StrSliceExecFns;
use vstd::string::StringExecFns;

use crate::length::spec_decimal_shape;
use crate::length::spec_dot_pos;
use crate::length::spec_pow10;
use crate::length::spec_whole_val;
use crate::numtext::digits_value_capped;
use crate::numtext::spec_all_digits;
use crate::numtext::spec_digit_char;
use crate::numtext::spec_digits_val;
use crate::numtext::spec_is_digit;
use crate::numtext::str_chars;

verus! {

/// An RGBA color: byte channels, alpha in thousandths of full opacity.
#[derive(Debug, Clone, Copy, PartialEq, Eq, Structural)]
pub struct ColorValue {
    pub red: u8,
    pub green: u8,
    pub blue: u8,
    /// Opacity in `0 ..= 1000`; `1000` is fully opaque.
    pub alpha_milli: u16,
}

/// The error returned when a string is not a recognized CSS color literal.
#[derive(Debug, Clone, Copy, PartialEq, Eq, Structural)]
pub struct ColorParseError;

impl ColorValue {
    /// The alpha channel never exceeds full opacity.
    pub open spec fn wf(self) -> bool {
        self.alpha_milli <= 1000
    }
}

/// Ratios above full weight count as full weight.
pub open spec fn spec_clamp_milli(t: int) -> int {
    if t > 1000 {
        1000
    } else {
        t
    }
}

/// A channel blended toward black: scaled by the remaining weight,
/// rounded to nearest.
pub open spec fn spec_shade_channel(ch: int, t: int) -> int {
    (ch * (1000 - spec_clamp_milli(t)) + 500) / 1000
}

/// A channel blended toward white by weight `t`, rounded to nearest.
pub open spec fn spec_tint_channel(ch: int, t: int) -> int {
    (ch * (1000 - spec_clamp_milli(t)) + 255 * spec_clamp_milli(t) + 500) / 1000
}

/// The alpha after blending with an opaque endpoint of weight `t`.
pub open spec fn spec_blend_alpha(a: int, t: int) -> int {
    (a * (1000 - spec_clamp_milli(t)) + 1000 * spec_clamp_milli(t) + 500) / 1000
}

/// The color blended toward black by weight `t` thousandths.
pub open spec fn spec_shade(c: ColorValue, t: int) -> ColorValue {
    ColorValue {
        red: spec_shade_channel(c.red as int, t) as u8,
        green: spec_shade_channel(c.green as int, t) as u8,
        blue: spec_shade_channel(c.blue as int, t) as u8,
        alpha_milli: spec_blend_alpha(c.alpha_milli as int, t) as u16,
    }
}

/// The color blended toward white by weight `t` thousandths.
pub open spec fn spec_tint(c: ColorValue, t: int) -> ColorValue {
    ColorValue {
        red: spec_tint_channel(c.red as int, t) as u8,
        green: spec_tint_channel(c.green as int, t) as u8,
        blue: spec_tint_channel(c.blue as int, t) as u8,
        alpha_milli: spec_blend_alpha(c.alpha_milli as int, t) as u16,
    }
}

/// The color with its alpha replaced (clamped to full opacity).
pub open spec fn spec_fade(c: ColorValue, a: int) -> ColorValue {
    ColorValue {
        red: c.red,
        green: c.green,
        blue: c.blue,
        alpha_milli: spec_clamp_milli(a) as u16,
    }
}

/// The larger of two integers.
pub open spec fn spec_max2(a: int, b: int) -> int {
    if a >= b {
        a
    } else {
        b
    }
}

/// The smaller of two integers.
pub open spec fn spec_min2(a: int, b: int) -> int {
    if a <= b {
        a
    } else {
        b
    }
}

/// Twice the HSL lightness, scaled by 255: `max + min` of the channels.
/// The lightness itself is this value divided by 510.
pub open spec fn spec_lightness_sum(c: ColorValue) -> int {
    spec_max2(spec_max2(c.red as int, c.green as int), c.blue as int) + spec_min2(
        spec_min2(c.red as int, c.green as int),
        c.blue as int,
    )
}

/// Whether the HSL lightness exceeds one half.
pub open spec fn spec_is_light(c: ColorValue) -> bool {
    spec_lightness_sum(c) > 255
}

/// The hover background: a strong shade for light colors, a strong tint
/// for dark ones, so the hover state is visible on any base color.
pub open spec fn spec_hover_background(c: ColorValue) -> ColorValue {
    if spec_is_light(c) {
        spec_shade(c, 900)
    } else {
        spec_tint(c, 900)
    }
}

/// Bounds for one shaded channel.
proof fn lemma_shade_channel_bounds(ch: int, t: int)
    requires
        0 <= ch <= 255,
        0 <= t,
    ensures
        0 <= spec_shade_channel(ch, t) <= 255,
{
    let tc = spec_clamp_milli(t);
    lemma_mul_inequality(ch, 255, 1000 - tc);
    lemma_div_is_ordered(ch * (1000 - tc) + 500, 255 * 1000 + 500int, 1000);
}

/// Bounds for one tinted channel.
proof fn lemma_tint_channel_bounds(ch: int, t: int)
    requires
        0 <= ch <= 255,
        0 <= t,
    ensures
        0 <= spec_tint_channel(ch, t) <= 255,
{
    let tc = spec_clamp_milli(t);
    lemma_mul_inequality(ch, 255, 1000 - tc);
    lemma_div_is_ordered(ch * (1000 - tc) + 255 * tc + 500, 255 * 1000 + 500int, 1000);
}

/// Bounds for the blended alpha.
proof fn lemma_blend_alpha_bounds(a: int, t: int)
    requires
        0 <= a <= 1000,
        0 <= t,
    ensures
        0 <= spec_blend_alpha(a, t) <= 1000,
{
    let tc = spec_clamp_milli(t);
    lemma_mul_inequality(a, 1000, 1000 - tc);
    lemma_div_is_ordered(a * (1000 - tc) + 1000 * tc + 500, 1000 * 1000 + 500int, 1000);
}

/// Shading keeps the relative order of two channels.
proof fn lemma_shade_channel_monotone(x: int, y: int, t: int)
    requires
        0 <= x <= y,
        0 <= t,
    ensures
        spec_shade_channel(x, t) <= spec_shade_channel(y, t),
{
    let tc = spec_clamp_milli(t);
    lemma_mul_inequality(x, y, 1000 - tc);
    lemma_div_is_ordered(x * (1000 - tc) + 500, y * (1000 - tc) + 500, 1000);
}

/// Tinting keeps the relative order of two channels.
proof fn lemma_tint_channel_monotone(x: int, y: int, t: int)
    requires
        0 <= x <= y,
        0 <= t,
    ensures
        spec_tint_channel(x, t) <= spec_tint_channel(y, t),
{
    let tc = spec_clamp_milli(t);
    lemma_mul_inequality(x, y, 1000 - tc);
    lemma_div_is_ordered(x * (1000 - tc) + 255 * tc + 500, y * (1000 - tc) + 255 * tc + 500, 1000);
}

impl ColorValue {
    /// Blends toward black by `t` thousandths (`900` gives a strong shade).
    pub fn shade(&self, t: u16) -> (r: ColorValue)
        requires
            self.wf(),
        ensures
            r == spec_shade(*self, t as int),
            r.wf(),
    {
        proof {
            lemma_shade_channel_bounds(self.red as int, t as int);
            lemma_shade_channel_bounds(self.green as int, t as int);
            lemma_shade_channel_bounds(self.blue as int, t as int);
            lemma_blend_alpha_bounds(self.alpha_milli as int, t as int);
        }
        let tc: u32 = if t > 1000 {
            1000
        } else {
            t as u32
        };
        proof {
            lemma_mul_inequality(self.red as int, 255, 1000 - tc as int);
            lemma_mul_inequality(self.green as int, 255, 1000 - tc as int);
            lemma_mul_inequality(self.blue as int, 255, 1000 - tc as int);
            lemma_mul_inequality(self.alpha_milli as int, 1000, 1000 - tc as int);
        }
        let red = ((self.red as u32 * (1000 - tc) + 500) / 1000) as u8;
        let green = ((self.green as u32 * (1000 - tc) + 500) / 1000) as u8;
        let blue = ((self.blue as u32 * (1000 - tc) + 500) / 1000) as u8;
        let alpha_milli = ((self.alpha_milli as u32 * (1000 - tc) + 1000 * tc + 500) / 1000) as u16;
        ColorValue { red, green, blue, alpha_milli }
    }

    /// Blends toward white by `t` thousandths (`900` gives a strong tint).
    pub fn tint(&self, t: u16) -> (r: ColorValue)
        requires
            self.wf(),
        ensures
            r == spec_tint(*self, t as int),
            r.wf(),
    {
        proof {
            lemma_tint_channel_bounds(self.red as int, t as int);
            lemma_tint_channel_bounds(self.green as int, t as int);
            lemma_tint_channel_bounds(self.blue as int, t as int);
            lemma_blend_alpha_bounds(self.alpha_milli as int, t as int);
        }
        let tc: u32 = if t > 1000 {
            1000
        } else {
            t as u32
        };
        proof {
            lemma_mul_inequality(self.red as int, 255, 1000 - tc as int);
            lemma_mul_inequality(self.green as int, 255, 1000 - tc as int);
            lemma_mul_inequality(self.blue as int, 255, 1000 - tc as int);
            lemma_mul_inequality(self.alpha_milli as int, 1000, 1000 - tc as int);
        }
        let red = ((self.red as u32 * (1000 - tc) + 255 * tc + 500) / 1000) as u8;
        let green = ((self.green as u32 * (1000 - tc) + 255 * tc + 500) / 1000) as u8;
        let blue = ((self.blue as u32 * (1000 - tc) + 255 * tc + 500) / 1000) as u8;
        let alpha_milli = ((self.alpha_milli as u32 * (1000 - tc) + 1000 * tc + 500) / 1000) as u16;
        ColorValue { red, green, blue, alpha_milli }
    }

    /// Replaces the alpha with `a` thousandths, clamped to full opacity.
    pub fn fade(&self, a: u16) -> (r: ColorValue)
        ensures
            r == spec_fade(*self, a as int),
            r.wf(),
    {
        let alpha_milli = if a > 1000 {
            1000
        } else {
            a
        };
        ColorValue { red: self.red, green: self.green, blue: self.blue, alpha_milli }
    }

    /// Whether the HSL lightness exceeds one half.
    pub fn is_light(&self) -> (r: bool)
        ensures
            r == spec_is_light(*self),
    {
        let mx = if self.red >= self.green {
            self.red
        } else {
            self.green
        };
        let mx = if mx >= self.blue {
            mx
        } else {
            self.blue
        };
        let mn = if self.red <= self.green {
            self.red
        } else {
            self.green
        };
        let mn = if mn <= self.blue {
            mn
        } else {
            self.blue
        };
        (mx as u16 + mn as u16) > 255
    }

    /// The hover background for this base color: shaded when light,
    /// tinted when dark.
    pub fn hover_background(&self) -> (r: ColorValue)
        requires
            self.wf(),
        ensures
            r == spec_hover_background(*self),
            r.wf(),
    {
        if self.is_light() {
            self.shade(900)
        } else {
            self.tint(900)
        }
    }
}

/// The hover background always contrasts with the base color: a light color
/// hovers strictly darker, a dark one strictly lighter (lightness is
/// `spec_lightness_sum` divided by 510, so the sum orders lightness).
pub proof fn lemma_hover_contrast(c: ColorValue)
    requires
        c.wf(),
    ensures
        spec_is_light(c) ==> spec_lightness_sum(spec_hover_background(c)) < spec_lightness_sum(c),
        !spec_is_light(c) ==> spec_lightness_sum(spec_hover_background(c)) > spec_lightness_sum(c),
{
    let r = c.red as int;
    let g = c.green as int;
    let b = c.blue as int;
    let mx = spec_max2(spec_max2(r, g), b);
    let mn = spec_min2(spec_min2(r, g), b);
    if spec_is_light(c) {
        // The maximum channel is at least 128, and shading by nine tenths
        // moves it strictly down; no channel moves up.
        lemma_shade_channel_bounds(r, 900);
        lemma_shade_channel_bounds(g, 900);
        lemma_shade_channel_bounds(b, 900);
        lemma_shade_channel_monotone(mn, r, 900);
        lemma_shade_channel_monotone(mn, g, 900);
        lemma_shade_channel_monotone(mn, b, 900);
        lemma_shade_channel_monotone(r, mx, 900);
        lemma_shade_channel_monotone(g, mx, 900);
        lemma_shade_channel_monotone(b, mx, 900);
        assert(mx + mn > 255);
        assert(mx >= 128);
        assert(spec_shade_channel(mx, 900) < mx) by {
            lemma_multiply_divide_lt(mx * 100 + 500, 1000, mx);
        };
        assert(spec_shade_channel(mn, 900) <= mn) by {
            lemma_multiply_divide_lt(mn * 100 + 500, 1000, mn + 1);
        };
    } else {
        // The minimum channel is at most 127, and tinting by nine tenths
        // moves it strictly up; no channel moves down.
        lemma_tint_channel_bounds(r, 900);
        lemma_tint_channel_bounds(g, 900);
        lemma_tint_channel_bounds(b, 900);
        lemma_tint_channel_monotone(mn, r, 900);
        lemma_tint_channel_monotone(mn, g, 900);
        lemma_tint_channel_monotone(mn, b, 900);
        lemma_tint_channel_monotone(r, mx, 900);
        lemma_tint_channel_monotone(g, mx, 900);
        lemma_tint_channel_monotone(b, mx, 900);
        assert(mx + mn <= 255);
        assert(mn <= 127);
        assert(spec_tint_channel(mn, 900) > mn) by {
            lemma_div_multiples_vanish(mn + 1, 1000);
            lemma_div_is_ordered((mn + 1) * 1000, mn * 100 + 255 * 900 + 500, 1000);
        };
        assert(spec_tint_channel(mx, 900) >= mx) by {
            lemma_div_multiples_vanish(mx, 1000);
            lemma_div_is_ordered(mx * 1000, mx * 100 + 255 * 900 + 500, 1000);
        };
    }
}

/// Fading a shaded color never reorders the RGB channels: every ordering
/// among red, green and blue in the source still holds in
/// `fade(shade(c, t), a)`, for every ratio and alpha.
pub proof fn lemma_fade_shade_keeps_channel_order(c: ColorValue, t: int, a: int)
    requires
        0 <= t,
    ensures
        ({
            let d = spec_fade(spec_shade(c, t), a);
            &&& c.red <= c.green ==> d.red <= d.green
            &&& c.green <= c.red ==> d.green <= d.red
            &&& c.red <= c.blue ==> d.red <= d.blue
            &&& c.blue <= c.red ==> d.blue <= d.red
            &&& c.green <= c.blue ==> d.green <= d.blue
            &&& c.blue <= c.green ==> d.blue <= d.green
        }),
{
    lemma_shade_channel_bounds(c.red as int, t);
    lemma_shade_channel_bounds(c.green as int, t);
    lemma_shade_channel_bounds(c.blue as int, t);
    if c.red <= c.green {
        lemma_shade_channel_monotone(c.red as int, c.green as int, t);
    } else {
        lemma_shade_channel_monotone(c.green as int, c.red as int, t);
    }
    if c.red <= c.blue {
        lemma_shade_channel_monotone(c.red as int, c.blue as int, t);
    } else {
        lemma_shade_channel_monotone(c.blue as int, c.red as int, t);
    }
    if c.green <= c.blue {
        lemma_shade_channel_monotone(c.green as int, c.blue as int, t);
    } else {
        lemma_shade_channel_monotone(c.blue as int, c.green as int, t);
    }
}

/// Fading a tinted color never reorders the RGB channels either.
pub proof fn lemma_fade_tint_keeps_channel_order(c: ColorValue, t: int, a: int)
    requires
        0 <= t,
    ensures
        ({
            let d = spec_fade(spec_tint(c, t), a);
            &&& c.red <= c.green ==> d.red <= d.green
            &&& c.green <= c.red ==> d.green <= d.red
            &&& c.red <= c.blue ==> d.red <= d.blue
            &&& c.blue <= c.red ==> d.blue <= d.red
            &&& c.green <= c.blue ==> d.green <= d.blue
            &&& c.blue <= c.green ==> d.blue <= d.green
        }),
{
    lemma_tint_channel_bounds(c.red as int, t);
    lemma_tint_channel_bounds(c.green as int, t);
    lemma_tint_channel_bounds(c.blue as int, t);
    if c.red <= c.green {
        lemma_tint_channel_monotone(c.red as int, c.green as int, t);
    } else {
        lemma_tint_channel_monotone(c.green as int, c.red as int, t);
    }
    if c.red <= c.blue {
        lemma_tint_channel_monotone(c.red as int, c.blue as int, t);
    } else {
        lemma_tint_channel_monotone(c.blue as int, c.red as int, t);
    }
    if c.green <= c.blue {
        lemma_tint_channel_monotone(c.green as int, c.blue as int, t);
    } else {
        lemma_tint_channel_monotone(c.blue as int, c.green as int, t);
    }
}

/// The character for a hexadecimal digit value, lower case.
pub open spec fn spec_hex_digit_char(d: int) -> char {
    if d < 10 {
        spec_digit_char(d)
    } else if d == 10 {
        'a'
    } else if d == 11 {
        'b'
    } else if d == 12 {
        'c'
    } else if d == 13 {
        'd'
    } else if d == 14 {
        'e'
    } else {
        'f'
    }
}

/// Two hex characters for a byte.
pub open spec fn spec_byte_hex(b: int) -> Seq<char> {
    seq![spec_hex_digit_char(b / 16), spec_hex_digit_char(b % 16)]
}

/// The alpha byte displayed for an alpha in thousandths: scaled to
/// `0 ..= 255` and rounded to nearest.
pub open spec fn spec_alpha_byte(a: int) -> int {
    (a * 51 + 100) / 200
}

/// Whether both hex characters of a byte coincide.
pub open spec fn spec_byte_foldable(b: int) -> bool {
    b / 16 == b % 16
}

/// The CSS hex text of a color: `#rrggbb` when fully opaque, `#rrggbbaa`
/// otherwise, shortened to `#rgb` / `#rgba` when every pair of hex digits
/// repeats.
pub open spec fn spec_color_hex_text(c: ColorValue) -> Seq<char> {
    if c.alpha_milli == 1000 {
        if spec_byte_foldable(c.red as int) && spec_byte_foldable(c.green as int)
            && spec_byte_foldable(c.blue as int) {
            seq!['#'] + seq![
                spec_hex_digit_char(c.red as int % 16),
                spec_hex_digit_char(c.green as int % 16),
                spec_hex_digit_char(c.blue as int % 16),
            ]
        } else {
            seq!['#'] + spec_byte_hex(c.red as int) + spec_byte_hex(c.green as int) + spec_byte_hex(
                c.blue as int,
            )
        }
    } else {
        let a8 = spec_alpha_byte(c.alpha_milli as int);
        if spec_byte_foldable(c.red as int) && spec_byte_foldable(c.green as int)
            && spec_byte_foldable(c.blue as int) && spec_byte_foldable(a8) {
            seq!['#'] + seq![
                spec_hex_digit_char(c.red as int % 16),
                spec_hex_digit_char(c.green as int % 16),
                spec_hex_digit_char(c.blue as int % 16),
                spec_hex_digit_char(a8 % 16),
            ]
        } else {
            seq!['#'] + spec_byte_hex(c.red as int) + spec_byte_hex(c.green as int) + spec_byte_hex(
                c.blue as int,
            ) + spec_byte_hex(a8)
        }
    }
}

/// One-character string for a hexadecimal digit value.
fn hex_digit_str(d: u32) -> (r: &'static str)
    requires
        d < 16,
    ensures
        r@ == seq![spec_hex_digit_char(d as int)],
{
    if d < 10 {
        crate::numtext::digit_str(d as u64)
    } else {
        let r = match d {
            10 => "a",
            11 => "b",
            12 => "c",
            13 => "d",
            14 => "e",
            _ => "f",
        };
        proof {
            reveal_strlit("a");
            reveal_strlit("b");
            reveal_strlit("c");
            reveal_strlit("d");
            reveal_strlit("e");
            reveal_strlit("f");
            assert(r@ =~= seq![spec_hex_digit_char(d as int)]);
        }
        r
    }
}

/// Appends the two hex characters of a byte.
fn push_byte_hex(out: &mut String, b: u8)
    ensures
        final(out)@ == old(out)@ + spec_byte_hex(b as int),
{
    out.append(hex_digit_str(b as u32 / 16));
    out.append(hex_digit_str(b as u32 % 16));
    assert(out@ =~= old(out)@ + spec_byte_hex(b as int));
}

/// Renders the color as its CSS hex text (`#6750a4`, `#fff`, `#0000001a`).
pub fn color_hex_text(c: &ColorValue) -> (r: String)
    requires
        c.wf(),
    ensures
        r@ == spec_color_hex_text(*c),
{
    let mut out = String::new();
    out.append("#");
    proof {
        reveal_strlit("#");
        assert("#"@ =~= seq!['#']);
    }
    if c.alpha_milli == 1000 {
        if c.red / 16 == c.red % 16 && c.green / 16 == c.green % 16 && c.blue / 16 == c.blue % 16 {
            out.append(hex_digit_str(c.red as u32 % 16));
            out.append(hex_digit_str(c.green as u32 % 16));
            out.append(hex_digit_str(c.blue as u32 % 16));
        } else {
            push_byte_hex(&mut out, c.red);
            push_byte_hex(&mut out, c.green);
            push_byte_hex(&mut out, c.blue);
        }
    } else {
        let a8: u16 = (c.alpha_milli * 51 + 100) / 200;
        if c.red / 16 == c.red % 16 && c.green / 16 == c.green % 16 && c.blue / 16 == c.blue % 16
            && a8 / 16 == a8 % 16 {
            out.append(hex_digit_str(c.red as u32 % 16));
            out.append(hex_digit_str(c.green as u32 % 16));
            out.append(hex_digit_str(c.blue as u32 % 16));
            out.append(hex_digit_str(a8 as u32 % 16));
        } else {
            push_byte_hex(&mut out, c.red);
            push_byte_hex(&mut out, c.green);
            push_byte_hex(&mut out, c.blue);
            proof {
                lemma_div_is_ordered(c.alpha_milli as int * 51 + 100, 1000 * 51 + 100int, 200);
            }
            push_byte_hex(&mut out, a8 as u8);
        }
    }
    proof {
        assert(out@ =~= spec_color_hex_text(*c));
    }
    out
}

/// Whitespace stripped from the ends of a color literal.
pub open spec fn spec_is_space(c: char) -> bool {
    c == ' ' || c == '\t' || c == '\n' || c == '\r'
}

/// The sequence with leading whitespace removed.
pub open spec fn spec_trim_front(s: Seq<char>) -> Seq<char>
    decreases s.len(),
{
    if s.len() > 0 && spec_is_space(s[0]) {
        spec_trim_front(s.drop_first())
    } else {
        s
    }
}

/// The sequence with trailing whitespace removed.
pub open spec fn spec_trim_back(s: Seq<char>) -> Seq<char>
    decreases s.len(),
{
    if s.len() > 0 && spec_is_space(s.last()) {
        spec_trim_back(s.drop_last())
    } else {
        s
    }
}

/// The sequence with whitespace removed from both ends.
pub open spec fn spec_trim(s: Seq<char>) -> Seq<char> {
    spec_trim_back(spec_trim_front(s))
}

/// An upper-case ASCII letter mapped to lower case; all else unchanged.
pub open spec fn spec_lower_char(c: char) -> char {
    if 'A' <= c && c <= 'Z' {
        ((c as u8) + 32) as char
    } else {
        c
    }
}

/// Every character mapped to lower case.
pub open spec fn spec_lower(s: Seq<char>) -> Seq<char> {
    s.map_values(|c: char| spec_lower_char(c))
}

/// The canonical form a color literal is parsed from: trimmed, lower case.
pub open spec fn spec_canon(s: Seq<char>) -> Seq<char> {
    spec_lower(spec_trim(s))
}

/// If the first `k` characters are spaces and the `k`-th is not (or `k` is
/// the length), trimming the front leaves the tail from `k`.
proof fn lemma_trim_front_from_bounds(s: Seq<char>, k: int)
    requires
        0 <= k <= s.len(),
        forall|j: int| 0 <= j < k ==> spec_is_space(#[trigger] s[j]),
        k == s.len() || !spec_is_space(s[k]),
    ensures
        spec_trim_front(s) == s.subrange(k, s.len() as int),
    decreases s.len(),
{
    if k == 0 {
        assert(s.subrange(0, s.len() as int) =~= s);
    } else {
        lemma_trim_front_from_bounds(s.drop_first(), k - 1);
        assert(s.drop_first().subrange(k - 1, s.drop_first().len() as int) =~= s.subrange(
            k,
            s.len() as int,
        ));
    }
}

/// If everything from `m` on is a space and the character before `m` is not
/// (or `m` is zero), trimming the back leaves the first `m` characters.
proof fn lemma_trim_back_from_bounds(s: Seq<char>, m: int)
    requires
        0 <= m <= s.len(),
        forall|j: int| m <= j < s.len() ==> spec_is_space(#[trigger] s[j]),
        m == 0 || !spec_is_space(s[m - 1]),
    ensures
        spec_trim_back(s) == s.take(m),
    decreases s.len(),
{
    if m == s.len() {
        if s.len() == 0 {
            assert(s.take(0) =~= s);
        } else {
            assert(s.take(m) =~= s);
        }
    } else {
        lemma_trim_back_from_bounds(s.drop_last(), m);
        assert(s.drop_last().take(m) =~= s.take(m));
    }
}

/// Whether `c` is whitespace.
fn is_space_char(c: char) -> (r: bool)
    ensures
        r == spec_is_space(c),
{
    c == ' ' || c == '\t' || c == '\n' || c == '\r'
}

/// One character mapped to lower case.
fn lower_char(c: char) -> (r: char)
    ensures
        r == spec_lower_char(c),
{
    if c >= 'A' && c <= 'Z' {
        ((c as u8) + 32) as char
    } else {
        c
    }
}

/// The characters of `s` trimmed of surrounding whitespace and lowered:
/// the canonical form of a color literal.
pub fn canon_chars(s: &str) -> (r: Vec<char>)
    ensures
        r@ == spec_canon(s@),
{
    let v = str_chars(s);
    let n = v.len();
    let mut a: usize = 0;
    while a < n && is_space_char(v[a])
        invariant
            0 <= a <= n,
            n == v@.len(),
            v@ == s@,
            forall|j: int| 0 <= j < a ==> spec_is_space(#[trigger] v@[j]),
        decreases n - a,
    {
        a = a + 1;
    }
    proof {
        lemma_trim_front_from_bounds(s@, a as int);
    }
    if a == n {
        proof {
            assert(spec_trim_front(s@) =~= Seq::<char>::empty());
            assert(spec_trim_back(Seq::<char>::empty()) =~= Seq::<char>::empty());
            assert(spec_canon(s@) =~= Seq::<char>::empty());
        }
        let r: Vec<char> = Vec::new();
        return r;
    }
    let mut b: usize = n;
    while b > a + 1 && is_space_char(v[b - 1])
        invariant
            a < b <= n,
            n == v@.len(),
            v@ == s@,
            forall|j: int| b <= j < n ==> spec_is_space(#[trigger] v@[j]),
        decreases b,
    {
        b = b - 1;
    }
    if is_space_char(v[b - 1]) {
        // Only possible when b == a + 1, and v[a] is not a space.
        proof {
            assert(false);
        }
    }
    let ghost q = s@.subrange(a as int, b as int);
    proof {
        let u = s@.subrange(a as int, s@.len() as int);
        lemma_trim_back_from_bounds(u, b - a);
        assert(u.take(b - a) =~= q);
    }
    let mut r: Vec<char> = Vec::new();
    let mut i: usize = a;
    while i < b
        invariant
            a <= i <= b <= n,
            n == v@.len(),
            v@ == s@,
            q == s@.subrange(a as int, b as int),
            r@ == spec_lower(q).take(i - a),
        decreases b - i,
    {
        r.push(lower_char(v[i]));
        proof {
            assert(r@ =~= spec_lower(q).take(i + 1 - a));
        }
        i = i + 1;
    }
    proof {
        assert(r@ =~= spec_lower(q));
    }
    r
}

/// Whether the characters `v[lo .. hi]` spell exactly `s`.
fn vec_range_eq_str(v: &Vec<char>, lo: usize, hi: usize, s: &str) -> (r: bool)
    requires
        lo <= hi <= v@.len(),
    ensures
        r == (v@.subrange(lo as int, hi as int) == s@),
{
    let m = s.unicode_len();
    if hi - lo != m {
        return false;
    }
    let mut i: usize = 0;
    while i < m
        invariant
            0 <= i <= m,
            m == s@.len(),
            lo <= hi <= v@.len(),
            hi - lo == m,
            forall|j: int| 0 <= j < i ==> v@[lo + j] == s@[j],
        decreases m - i,
    {
        if v[lo + i] != s.get_char(i) {
            return false;
        }
        i = i + 1;
    }
    proof {
        assert(v@.subrange(lo as int, hi as int) =~= s@);
    }
    true
}

/// Whether the characters of `v` spell exactly `s`.
fn vec_eq_str(v: &Vec<char>, s: &str) -> (r: bool)
    ensures
        r == (v@ == s@),
{
    let r = vec_range_eq_str(v, 0, v.len(), s);
    proof {
        assert(v@.subrange(0, v@.len() as int) =~= v@);
    }
    r
}

/// Whether `c` is a lower-case hexadecimal digit character.
pub open spec fn spec_is_hex_digit(c: char) -> bool {
    spec_is_digit(c) || ('a' <= c && c <= 'f')
}

/// Value of a hexadecimal digit character.
pub open spec fn spec_hex_val(c: char) -> int {
    if spec_is_digit(c) {
        c as u32 - '0' as u32
    } else {
        c as u32 - 'a' as u32 + 10
    }
}

/// Value of a byte written as two hexadecimal characters.
pub open spec fn spec_hex_pair(c1: char, c2: char) -> int {
    spec_hex_val(c1) * 16 + spec_hex_val(c2)
}

/// The alpha in thousandths denoted by an alpha byte, rounded to nearest.
pub open spec fn spec_alpha_from_byte(a8: int) -> int {
    (2000 * a8 + 255) / 510
}

/// Whether the canonical literal is a well-formed hex color: `#` followed
/// by 3, 4, 6 or 8 hex digits.
pub open spec fn spec_is_hex_form(q: Seq<char>) -> bool {
    &&& q.len() == 4 || q.len() == 5 || q.len() == 7 || q.len() == 9
    &&& q[0] == '#'
    &&& forall|j: int| 1 <= j < q.len() ==> spec_is_hex_digit(#[trigger] q[j])
}

/// The color denoted by a well-formed hex literal; in the 3- and 4-digit
/// short forms each digit doubles.
pub open spec fn spec_hex_color(q: Seq<char>) -> ColorValue {
    if q.len() == 4 {
        ColorValue {
            red: spec_hex_pair(q[1], q[1]) as u8,
            green: spec_hex_pair(q[2], q[2]) as u8,
            blue: spec_hex_pair(q[3], q[3]) as u8,
            alpha_milli: 1000,
        }
    } else if q.len() == 5 {
        ColorValue {
            red: spec_hex_pair(q[1], q[1]) as u8,
            green: spec_hex_pair(q[2], q[2]) as u8,
            blue: spec_hex_pair(q[3], q[3]) as u8,
            alpha_milli: spec_alpha_from_byte(spec_hex_pair(q[4], q[4])) as u16,
        }
    } else if q.len() == 7 {
        ColorValue {
            red: spec_hex_pair(q[1], q[2]) as u8,
            green: spec_hex_pair(q[3], q[4]) as u8,
            blue: spec_hex_pair(q[5], q[6]) as u8,
            alpha_milli: 1000,
        }
    } else {
        ColorValue {
            red: spec_hex_pair(q[1], q[2]) as u8,
            green: spec_hex_pair(q[3], q[4]) as u8,
            blue: spec_hex_pair(q[5], q[6]) as u8,
            alpha_milli: spec_alpha_from_byte(spec_hex_pair(q[7], q[8])) as u16,
        }
    }
}

/// Whether `c` is a lower-case hexadecimal digit.
fn is_hex_digit_char(c: char) -> (r: bool)
    ensures
        r == spec_is_hex_digit(c),
{
    (c >= '0' && c <= '9') || (c >= 'a' && c <= 'f')
}

/// Value of a hexadecimal digit character.
fn hex_val(c: char) -> (r: u32)
    requires
        spec_is_hex_digit(c),
    ensures
        r == spec_hex_val(c),
        r < 16,
{
    if c >= '0' && c <= '9' {
        c as u32 - 48
    } else {
        c as u32 - 97 + 10
    }
}

/// The alpha in thousandths for an alpha byte.
fn alpha_from_byte(a8: u32) -> (r: u16)
    requires
        a8 <= 255,
    ensures
        r == spec_alpha_from_byte(a8 as int),
        r <= 1000,
{
    ((2000 * a8 + 255) / 510) as u16
}

/// An opaque color from three channel values.
pub open spec fn spec_rgb(r: int, g: int, b: int) -> ColorValue {
    ColorValue { red: r as u8, green: g as u8, blue: b as u8, alpha_milli: 1000 }
}

/// The named colors from `aliceblue` to `darkgreen`.
pub open spec fn spec_named_color_a_d(q: Seq<char>) -> Option<ColorValue> {
    if q == "aliceblue"@ {
        Some(spec_rgb(240, 248, 255))
    } else if q == "antiquewhite"@ {
        Some(spec_rgb(250, 235, 215))
    } else if q == "aqua"@ {
        Some(spec_rgb(0, 255, 255))
    } else if q == "aquamarine"@ {
        Some(spec_rgb(127, 255, 212))
    } else if q == "azure"@ {
        Some(spec_rgb(240, 255, 255))
    } else if q == "beige"@ {
        Some(spec_rgb(245, 245, 220))
    } else if q == "bisque"@ {
        Some(spec_rgb(255, 228, 196))
    } else if q == "black"@ {
        Some(spec_rgb(0, 0, 0))
    } else if q == "blanchedalmond"@ {
        Some(spec_rgb(255, 235, 205))
    } else if q == "blue"@ {
        Some(spec_rgb(0, 0, 255))
    } else if q == "blueviolet"@ {
        Some(spec_rgb(138, 43, 226))
    } else if q == "brown"@ {
        Some(spec_rgb(165, 42, 42))
    } else if q == "burlywood"@ {
        Some(spec_rgb(222, 184, 135))
    } else if q == "cadetblue"@ {
        Some(spec_rgb(95, 158, 160))
    } else if q == "chartreuse"@ {
        Some(spec_rgb(127, 255, 0))
    } else if q == "chocolate"@ {
        Some(spec_rgb(210, 105, 30))
    } else if q == "coral"@ {
        Some(spec_rgb(255, 127, 80))
    } else if q == "cornflowerblue"@ {
        Some(spec_rgb(100, 149, 237))
    } else if q == "cornsilk"@ {
        Some(spec_rgb(255, 248, 220))
    } else if q == "crimson"@ {
        Some(spec_rgb(220, 20, 60))
    } else if q == "cyan"@ {
        Some(spec_rgb(0, 255, 255))
    } else if q == "darkblue"@ {
        Some(spec_rgb(0, 0, 139))
    } else if q == "darkcyan"@ {
        Some(spec_rgb(0, 139, 139))
    } else if q == "darkgoldenrod"@ {
        Some(spec_rgb(184, 134, 11))
    } else if q == "darkgray"@ {
        Some(spec_rgb(169, 169, 169))
    } else if q == "darkgreen"@ {
        Some(spec_rgb(0, 100, 0))
    } else {
        None
    }
}

/// The named colors from `darkgrey` to `gold`.
pub open spec fn spec_named_color_d_g(q: Seq<char>) -> Option<ColorValue> {
    if q == "darkgrey"@ {
        Some(spec_rgb(169, 169, 169))
    } else if q == "darkkhaki"@ {
        Some(spec_rgb(189, 183, 107))
    } else if q == "darkmagenta"@ {
        Some(spec_rgb(139, 0, 139))
    } else if q == "darkolivegreen"@ {
        Some(spec_rgb(85, 107, 47))
    } else if q == "darkorange"@ {
        Some(spec_rgb(255, 140, 0))
    } else if q == "darkorchid"@ {
        Some(spec_rgb(153, 50, 204))
    } else if q == "darkred"@ {
        Some(spec_rgb(139, 0, 0))
    } else if q == "darksalmon"@ {
        Some(spec_rgb(233, 150, 122))
    } else if q == "darkseagreen"@ {
        Some(spec_rgb(143, 188, 143))
    } else if q == "darkslateblue"@ {
        Some(spec_rgb(72, 61, 139))
    } else if q == "darkslategray"@ {
        Some(spec_rgb(47, 79, 79))
    } else if q == "darkslategrey"@ {
        Some(spec_rgb(47, 79, 79))
    } else if q == "darkturquoise"@ {
        Some(spec_rgb(0, 206, 209))
    } else if q == "darkviolet"@ {
        Some(spec_rgb(148, 0, 211))
    } else if q == "deeppink"@ {
        Some(spec_rgb(255, 20, 147))
    } else if q == "deepskyblue"@ {
        Some(spec_rgb(0, 191, 255))
    } else if q == "dimgray"@ {
        Some(spec_rgb(105, 105, 105))
    } else if q == "dimgrey"@ {
        Some(spec_rgb(105, 105, 105))
    } else if q == "dodgerblue"@ {
        Some(spec_rgb(30, 144, 255))
    } else if q == "firebrick"@ {
        Some(spec_rgb(178, 34, 34))
    } else if q == "floralwhite"@ {
        Some(spec_rgb(255, 250, 240))
    } else if q == "forestgreen"@ {
        Some(spec_rgb(34, 139, 34))
    } else if q == "fuchsia"@ {
        Some(spec_rgb(255, 0, 255))
    } else if q == "gainsboro"@ {
        Some(spec_rgb(220, 220, 220))
    } else if q == "ghostwhite"@ {
        Some(spec_rgb(248, 248, 255))
    } else if q == "gold"@ {
        Some(spec_rgb(255, 215, 0))
    } else {
        None
    }
}

/// The named colors from `goldenrod` to `lightsalmon`.
pub open spec fn spec_named_color_g_l(q: Seq<char>) -> Option<ColorValue> {
    if q == "goldenrod"@ {
        Some(spec_rgb(218, 165, 32))
    } else if q == "gray"@ {
        Some(spec_rgb(128, 128, 128))
    } else if q == "green"@ {
        Some(spec_rgb(0, 128, 0))
    } else if q == "greenyellow"@ {
        Some(spec_rgb(173, 255, 47))
    } else if q == "grey"@ {
        Some(spec_rgb(128, 128, 128))
    } else if q == "honeydew"@ {
        Some(spec_rgb(240, 255, 240))
    } else if q == "hotpink"@ {
        Some(spec_rgb(255, 105, 180))
    } else if q == "indianred"@ {
        Some(spec_rgb(205, 92, 92))
    } else if q == "indigo"@ {
        Some(spec_rgb(75, 0, 130))
    } else if q == "ivory"@ {
        Some(spec_rgb(255, 255, 240))
    } else if q == "khaki"@ {
        Some(spec_rgb(240, 230, 140))
    } else if q == "laserlemon"@ {
        Some(spec_rgb(255, 255, 84))
    } else if q == "lavender"@ {
        Some(spec_rgb(230, 230, 250))
    } else if q == "lavenderblush"@ {
        Some(spec_rgb(255, 240, 245))
    } else if q == "lawngreen"@ {
        Some(spec_rgb(124, 252, 0))
    } else if q == "lemonchiffon"@ {
        Some(spec_rgb(255, 250, 205))
    } else if q == "lightblue"@ {
        Some(spec_rgb(173, 216, 230))
    } else if q == "lightcoral"@ {
        Some(spec_rgb(240, 128, 128))
    } else if q == "lightcyan"@ {
        Some(spec_rgb(224, 255, 255))
    } else if q == "lightgoldenrod"@ {
        Some(spec_rgb(250, 250, 210))
    } else if q == "lightgoldenrodyellow"@ {
        Some(spec_rgb(250, 250, 210))
    } else if q == "lightgray"@ {
        Some(spec_rgb(211, 211, 211))
    } else if q == "lightgreen"@ {
        Some(spec_rgb(144, 238, 144))
    } else if q == "lightgrey"@ {
        Some(spec_rgb(211, 211, 211))
    } else if q == "lightpink"@ {
        Some(spec_rgb(255, 182, 193))
    } else if q == "lightsalmon"@ {
        Some(spec_rgb(255, 160, 122))
    } else {
        None
    }
}

/// The named colors from `lightseagreen` to `moccasin`.
pub open spec fn spec_named_color_l_m(q: Seq<char>) -> Option<ColorValue> {
    if q == "lightseagreen"@ {
        Some(spec_rgb(32, 178, 170))
    } else if q == "lightskyblue"@ {
        Some(spec_rgb(135, 206, 250))
    } else if q == "lightslategray"@ {
        Some(spec_rgb(119, 136, 153))
    } else if q == "lightslategrey"@ {
        Some(spec_rgb(119, 136, 153))
    } else if q == "lightsteelblue"@ {
        Some(spec_rgb(176, 196, 222))
    } else if q == "lightyellow"@ {
        Some(spec_rgb(255, 255, 224))
    } else if q == "lime"@ {
        Some(spec_rgb(0, 255, 0))
    } else if q == "limegreen"@ {
        Some(spec_rgb(50, 205, 50))
    } else if q == "linen"@ {
        Some(spec_rgb(250, 240, 230))
    } else if q == "magenta"@ {
        Some(spec_rgb(255, 0, 255))
    } else if q == "maroon"@ {
        Some(spec_rgb(128, 0, 0))
    } else if q == "maroon2"@ {
        Some(spec_rgb(127, 0, 0))
    } else if q == "maroon3"@ {
        Some(spec_rgb(176, 48, 96))
    } else if q == "mediumaquamarine"@ {
        Some(spec_rgb(102, 205, 170))
    } else if q == "mediumblue"@ {
        Some(spec_rgb(0, 0, 205))
    } else if q == "mediumorchid"@ {
        Some(spec_rgb(186, 85, 211))
    } else if q == "mediumpurple"@ {
        Some(spec_rgb(147, 112, 219))
    } else if q == "mediumseagreen"@ {
        Some(spec_rgb(60, 179, 113))
    } else if q == "mediumslateblue"@ {
        Some(spec_rgb(123, 104, 238))
    } else if q == "mediumspringgreen"@ {
        Some(spec_rgb(0, 250, 154))
    } else if q == "mediumturquoise"@ {
        Some(spec_rgb(72, 209, 204))
    } else if q == "mediumvioletred"@ {
        Some(spec_rgb(199, 21, 133))
    } else if q == "midnightblue"@ {
        Some(spec_rgb(25, 25, 112))
    } else if q == "mintcream"@ {
        Some(spec_rgb(245, 255, 250))
    } else if q == "mistyrose"@ {
        Some(spec_rgb(255, 228, 225))
    } else if q == "moccasin"@ {
        Some(spec_rgb(255, 228, 181))
    } else {
        None
    }
}

/// The named colors from `navajowhite` to `saddlebrown`.
pub open spec fn spec_named_color_n_s(q: Seq<char>) -> Option<ColorValue> {
    if q == "navajowhite"@ {
        Some(spec_rgb(255, 222, 173))
    } else if q == "navy"@ {
        Some(spec_rgb(0, 0, 128))
    } else if q == "oldlace"@ {
        Some(spec_rgb(253, 245, 230))
    } else if q == "olive"@ {
        Some(spec_rgb(128, 128, 0))
    } else if q == "olivedrab"@ {
        Some(spec_rgb(107, 142, 35))
    } else if q == "orange"@ {
        Some(spec_rgb(255, 165, 0))
    } else if q == "orangered"@ {
        Some(spec_rgb(255, 69, 0))
    } else if q == "orchid"@ {
        Some(spec_rgb(218, 112, 214))
    } else if q == "palegoldenrod"@ {
        Some(spec_rgb(238, 232, 170))
    } else if q == "palegreen"@ {
        Some(spec_rgb(152, 251, 152))
    } else if q == "paleturquoise"@ {
        Some(spec_rgb(175, 238, 238))
    } else if q == "palevioletred"@ {
        Some(spec_rgb(219, 112, 147))
    } else if q == "papayawhip"@ {
        Some(spec_rgb(255, 239, 213))
    } else if q == "peachpuff"@ {
        Some(spec_rgb(255, 218, 185))
    } else if q == "peru"@ {
        Some(spec_rgb(205, 133, 63))
    } else if q == "pink"@ {
        Some(spec_rgb(255, 192, 203))
    } else if q == "plum"@ {
        Some(spec_rgb(221, 160, 221))
    } else if q == "powderblue"@ {
        Some(spec_rgb(176, 224, 230))
    } else if q == "purple"@ {
        Some(spec_rgb(128, 0, 128))
    } else if q == "purple2"@ {
        Some(spec_rgb(127, 0, 127))
    } else if q == "purple3"@ {
        Some(spec_rgb(160, 32, 240))
    } else if q == "rebeccapurple"@ {
        Some(spec_rgb(102, 51, 153))
    } else if q == "red"@ {
        Some(spec_rgb(255, 0, 0))
    } else if q == "rosybrown"@ {
        Some(spec_rgb(188, 143, 143))
    } else if q == "royalblue"@ {
        Some(spec_rgb(65, 105, 225))
    } else if q == "saddlebrown"@ {
        Some(spec_rgb(139, 69, 19))
    } else {
        None
    }
}

/// The named colors from `salmon` to `yellowgreen`.
pub open spec fn spec_named_color_s_y(q: Seq<char>) -> Option<ColorValue> {
    if q == "salmon"@ {
        Some(spec_rgb(250, 128, 114))
    } else if q == "sandybrown"@ {
        Some(spec_rgb(244, 164, 96))
    } else if q == "seagreen"@ {
        Some(spec_rgb(46, 139, 87))
    } else if q == "seashell"@ {
        Some(spec_rgb(255, 245, 238))
    } else if q == "sienna"@ {
        Some(spec_rgb(160, 82, 45))
    } else if q == "silver"@ {
        Some(spec_rgb(192, 192, 192))
    } else if q == "skyblue"@ {
        Some(spec_rgb(135, 206, 235))
    } else if q == "slateblue"@ {
        Some(spec_rgb(106, 90, 205))
    } else if q == "slategray"@ {
        Some(spec_rgb(112, 128, 144))
    } else if q == "slategrey"@ {
        Some(spec_rgb(112, 128, 144))
    } else if q == "snow"@ {
        Some(spec_rgb(255, 250, 250))
    } else if q == "springgreen"@ {
        Some(spec_rgb(0, 255, 127))
    } else if q == "steelblue"@ {
        Some(spec_rgb(70, 130, 180))
    } else if q == "tan"@ {
        Some(spec_rgb(210, 180, 140))
    } else if q == "teal"@ {
        Some(spec_rgb(0, 128, 128))
    } else if q == "thistle"@ {
        Some(spec_rgb(216, 191, 216))
    } else if q == "tomato"@ {
        Some(spec_rgb(255, 99, 71))
    } else if q == "turquoise"@ {
        Some(spec_rgb(64, 224, 208))
    } else if q == "violet"@ {
        Some(spec_rgb(238, 130, 238))
    } else if q == "wheat"@ {
        Some(spec_rgb(245, 222, 179))
    } else if q == "white"@ {
        Some(spec_rgb(255, 255, 255))
    } else if q == "whitesmoke"@ {
        Some(spec_rgb(245, 245, 245))
    } else if q == "yellow"@ {
        Some(spec_rgb(255, 255, 0))
    } else if q == "yellowgreen"@ {
        Some(spec_rgb(154, 205, 50))
    } else {
        None
    }
}

/// The named colors this library recognizes: the W3C/X11 named-color
/// table, every name in it an ASCII one.
pub open spec fn spec_named_color(q: Seq<char>) -> Option<ColorValue> {
    if spec_named_color_a_d(q) is Some {
        spec_named_color_a_d(q)
    } else if spec_named_color_d_g(q) is Some {
        spec_named_color_d_g(q)
    } else if spec_named_color_g_l(q) is Some {
        spec_named_color_g_l(q)
    } else if spec_named_color_l_m(q) is Some {
        spec_named_color_l_m(q)
    } else if spec_named_color_n_s(q) is Some {
        spec_named_color_n_s(q)
    } else if spec_named_color_s_y(q) is Some {
        spec_named_color_s_y(q)
    } else {
        None
    }
}

fn named_color_a_d(q: &Vec<char>) -> (r: Option<ColorValue>)
    ensures
        r == spec_named_color_a_d(q@),
{
    if vec_eq_str(q, "aliceblue") {
        return Some(ColorValue { red: 240, green: 248, blue: 255, alpha_milli: 1000 });
    }
    if vec_eq_str(q, "antiquewhite") {
        return Some(ColorValue { red: 250, green: 235, blue: 215, alpha_milli: 1000 });
    }
    if vec_eq_str(q, "aqua") {
        return Some(ColorValue { red: 0, green: 255, blue: 255, alpha_milli: 1000 });
    }
    if vec_eq_str(q, "aquamarine") {
        return Some(ColorValue { red: 127, green: 255, blue: 212, alpha_milli: 1000 });
    }
    if vec_eq_str(q, "azure") {
        return Some(ColorValue { red: 240, green: 255, blue: 255, alpha_milli: 1000 });
    }
    if vec_eq_str(q, "beige") {
        return Some(ColorValue { red: 245, green: 245, blue: 220, alpha_milli: 1000 });
    }
    if vec_eq_str(q, "bisque") {
        return Some(ColorValue { red: 255, green: 228, blue: 196, alpha_milli: 1000 });
    }
    if vec_eq_str(q, "black") {
        return Some(ColorValue { red: 0, green: 0, blue: 0, alpha_milli: 1000 });
    }
    if vec_eq_str(q, "blanchedalmond") {
        return Some(ColorValue { red: 255, green: 235, blue: 205, alpha_milli: 1000 });
    }
    if vec_eq_str(q, "blue") {
        return Some(ColorValue { red: 0, green: 0, blue: 255, alpha_milli: 1000 });
    }
    if vec_eq_str(q, "blueviolet") {
        return Some(ColorValue { red: 138, green: 43, blue: 226, alpha_milli: 1000 });
    }
    if vec_eq_str(q, "brown") {
        return Some(ColorValue { red: 165, green: 42, blue: 42, alpha_milli: 1000 });
    }
    if vec_eq_str(q, "burlywood") {
        return Some(ColorValue { red: 222, green: 184, blue: 135, alpha_milli: 1000 });
    }
    if vec_eq_str(q, "cadetblue") {
        return Some(ColorValue { red: 95, green: 158, blue: 160, alpha_milli: 1000 });
    }
    if vec_eq_str(q, "chartreuse") {
        return Some(ColorValue { red: 127, green: 255, blue: 0, alpha_milli: 1000 });
    }
    if vec_eq_str(q, "chocolate") {
        return Some(ColorValue { red: 210, green: 105, blue: 30, alpha_milli: 1000 });
    }
    if vec_eq_str(q, "coral") {
        return Some(ColorValue { red: 255, green: 127, blue: 80, alpha_milli: 1000 });
    }
    if vec_eq_str(q, "cornflowerblue") {
        return Some(ColorValue { red: 100, green: 149, blue: 237, alpha_milli: 1000 });
    }
    if vec_eq_str(q, "cornsilk") {
        return Some(ColorValue { red: 255, green: 248, blue: 220, alpha_milli: 1000 });
    }
    if vec_eq_str(q, "crimson") {
        return Some(ColorValue { red: 220, green: 20, blue: 60, alpha_milli: 1000 });
    }
    if vec_eq_str(q, "cyan") {
        return Some(ColorValue { red: 0, green: 255, blue: 255, alpha_milli: 1000 });
    }
    if vec_eq_str(q, "darkblue") {
        return Some(ColorValue { red: 0, green: 0, blue: 139, alpha_milli: 1000 });
    }
    if vec_eq_str(q, "darkcyan") {
        return Some(ColorValue { red: 0, green: 139, blue: 139, alpha_milli: 1000 });
    }
    if vec_eq_str(q, "darkgoldenrod") {
        return Some(ColorValue { red: 184, green: 134, blue: 11, alpha_milli: 1000 });
    }
    if vec_eq_str(q, "darkgray") {
        return Some(ColorValue { red: 169, green: 169, blue: 169, alpha_milli: 1000 });
    }
    if vec_eq_str(q, "darkgreen") {
        return Some(ColorValue { red: 0, green: 100, blue: 0, alpha_milli: 1000 });
    }
    None
}

fn named_color_d_g(q: &Vec<char>) -> (r: Option<ColorValue>)
    ensures
        r == spec_named_color_d_g(q@),
{
    if vec_eq_str(q, "darkgrey") {
        return Some(ColorValue { red: 169, green: 169, blue: 169, alpha_milli: 1000 });
    }
    if vec_eq_str(q, "darkkhaki") {
        return Some(ColorValue { red: 189, green: 183, blue: 107, alpha_milli: 1000 });
    }
    if vec_eq_str(q, "darkmagenta") {
        return Some(ColorValue { red: 139, green: 0, blue: 139, alpha_milli: 1000 });
    }
    if vec_eq_str(q, "darkolivegreen") {
        return Some(ColorValue { red: 85, green: 107, blue: 47, alpha_milli: 1000 });
    }
    if vec_eq_str(q, "darkorange") {
        return Some(ColorValue { red: 255, green: 140, blue: 0, alpha_milli: 1000 });
    }
    if vec_eq_str(q, "darkorchid") {
        return Some(ColorValue { red: 153, green: 50, blue: 204, alpha_milli: 1000 });
    }
    if vec_eq_str(q, "darkred") {
        return Some(ColorValue { red: 139, green: 0, blue: 0, alpha_milli: 1000 });
    }
    if vec_eq_str(q, "darksalmon") {
        return Some(ColorValue { red: 233, green: 150, blue: 122, alpha_milli: 1000 });
    }
    if vec_eq_str(q, "darkseagreen") {
        return Some(ColorValue { red: 143, green: 188, blue: 143, alpha_milli: 1000 });
    }
    if vec_eq_str(q, "darkslateblue") {
        return Some(ColorValue { red: 72, green: 61, blue: 139, alpha_milli: 1000 });
    }
    if vec_eq_str(q, "darkslategray") {
        return Some(ColorValue { red: 47, green: 79, blue: 79, alpha_milli: 1000 });
    }
    if vec_eq_str(q, "darkslategrey") {
        return Some(ColorValue { red: 47, green: 79, blue: 79, alpha_milli: 1000 });
    }
    if vec_eq_str(q, "darkturquoise") {
        return Some(ColorValue { red: 0, green: 206, blue: 209, alpha_milli: 1000 });
    }
    if vec_eq_str(q, "darkviolet") {
        return Some(ColorValue { red: 148, green: 0, blue: 211, alpha_milli: 1000 });
    }
    if vec_eq_str(q, "deeppink") {
        return Some(ColorValue { red: 255, green: 20, blue: 147, alpha_milli: 1000 });
    }
    if vec_eq_str(q, "deepskyblue") {
        return Some(ColorValue { red: 0, green: 191, blue: 255, alpha_milli: 1000 });
    }
    if vec_eq_str(q, "dimgray") {
        return Some(ColorValue { red: 105, green: 105, blue: 105, alpha_milli: 1000 });
    }
    if vec_eq_str(q, "dimgrey") {
        return Some(ColorValue { red: 105, green: 105, blue: 105, alpha_milli: 1000 });
    }
    if vec_eq_str(q, "dodgerblue") {
        return Some(ColorValue { red: 30, green: 144, blue: 255, alpha_milli: 1000 });
    }
    if vec_eq_str(q, "firebrick") {
        return Some(ColorValue { red: 178, green: 34, blue: 34, alpha_milli: 1000 });
    }
    if vec_eq_str(q, "floralwhite") {
        return Some(ColorValue { red: 255, green: 250, blue: 240, alpha_milli: 1000 });
    }
    if vec_eq_str(q, "forestgreen") {
        return Some(ColorValue { red: 34, green: 139, blue: 34, alpha_milli: 1000 });
    }
    if vec_eq_str(q, "fuchsia") {
        return Some(ColorValue { red: 255, green: 0, blue: 255, alpha_milli: 1000 });
    }
    if vec_eq_str(q, "gainsboro") {
        return Some(ColorValue { red: 220, green: 220, blue: 220, alpha_milli: 1000 });
    }
    if vec_eq_str(q, "ghostwhite") {
        return Some(ColorValue { red: 248, green: 248, blue: 255, alpha_milli: 1000 });
    }
    if vec_eq_str(q, "gold") {
        return Some(ColorValue { red: 255, green: 215, blue: 0, alpha_milli: 1000 });
    }
    None
}

fn named_color_g_l(q: &Vec<char>) -> (r: Option<ColorValue>)
    ensures
        r == spec_named_color_g_l(q@),
{
    if vec_eq_str(q, "goldenrod") {
        return Some(ColorValue { red: 218, green: 165, blue: 32, alpha_milli: 1000 });
    }
    if vec_eq_str(q, "gray") {
        return Some(ColorValue { red: 128, green: 128, blue: 128, alpha_milli: 1000 });
    }
    if vec_eq_str(q, "green") {
        return Some(ColorValue { red: 0, green: 128, blue: 0, alpha_milli: 1000 });
    }
    if vec_eq_str(q, "greenyellow") {
        return Some(ColorValue { red: 173, green: 255, blue: 47, alpha_milli: 1000 });
    }
    if vec_eq_str(q, "grey") {
        return Some(ColorValue { red: 128, green: 128, blue: 128, alpha_milli: 1000 });
    }
    if vec_eq_str(q, "honeydew") {
        return Some(ColorValue { red: 240, green: 255, blue: 240, alpha_milli: 1000 });
    }
    if vec_eq_str(q, "hotpink") {
        return Some(ColorValue { red: 255, green: 105, blue: 180, alpha_milli: 1000 });
    }
    if vec_eq_str(q, "indianred") {
        return Some(ColorValue { red: 205, green: 92, blue: 92, alpha_milli: 1000 });
    }
    if vec_eq_str(q, "indigo") {
        return Some(ColorValue { red: 75, green: 0, blue: 130, alpha_milli: 1000 });
    }
    if vec_eq_str(q, "ivory") {
        return Some(ColorValue { red: 255, green: 255, blue: 240, alpha_milli: 1000 });
    }
    if vec_eq_str(q, "khaki") {
        return Some(ColorValue { red: 240, green: 230, blue: 140, alpha_milli: 1000 });
    }
    if vec_eq_str(q, "laserlemon") {
        return Some(ColorValue { red: 255, green: 255, blue: 84, alpha_milli: 1000 });
    }
    if vec_eq_str(q, "lavender") {
        return Some(ColorValue { red: 230, green: 230, blue: 250, alpha_milli: 1000 });
    }
    if vec_eq_str(q, "lavenderblush") {
        return Some(ColorValue { red: 255, green: 240, blue: 245, alpha_milli: 1000 });
    }
    if vec_eq_str(q, "lawngreen") {
        return Some(ColorValue { red: 124, green: 252, blue: 0, alpha_milli: 1000 });
    }
    if vec_eq_str(q, "lemonchiffon") {
        return Some(ColorValue { red: 255, green: 250, blue: 205, alpha_milli: 1000 });
    }
    if vec_eq_str(q, "lightblue") {
        return Some(ColorValue { red: 173, green: 216, blue: 230, alpha_milli: 1000 });
    }
    if vec_eq_str(q, "lightcoral") {
        return Some(ColorValue { red: 240, green: 128, blue: 128, alpha_milli: 1000 });
    }
    if vec_eq_str(q, "lightcyan") {
        return Some(ColorValue { red: 224, green: 255, blue: 255, alpha_milli: 1000 });
    }
    if vec_eq_str(q, "lightgoldenrod") {
        return Some(ColorValue { red: 250, green: 250, blue: 210, alpha_milli: 1000 });
    }
    if vec_eq_str(q, "lightgoldenrodyellow") {
        return Some(ColorValue { red: 250, green: 250, blue: 210, alpha_milli: 1000 });
    }
    if vec_eq_str(q, "lightgray") {
        return Some(ColorValue { red: 211, green: 211, blue: 211, alpha_milli: 1000 });
    }
    if vec_eq_str(q, "lightgreen") {
        return Some(ColorValue { red: 144, green: 238, blue: 144, alpha_milli: 1000 });
    }
    if vec_eq_str(q, "lightgrey") {
        return Some(ColorValue { red: 211, green: 211, blue: 211, alpha_milli: 1000 });
    }
    if vec_eq_str(q, "lightpink") {
        return Some(ColorValue { red: 255, green: 182, blue: 193, alpha_milli: 1000 });
    }
    if vec_eq_str(q, "lightsalmon") {
        return Some(ColorValue { red: 255, green: 160, blue: 122, alpha_milli: 1000 });
    }
    None
}

fn named_color_l_m(q: &Vec<char>) -> (r: Option<ColorValue>)
    ensures
        r == spec_named_color_l_m(q@),
{
    if vec_eq_str(q, "lightseagreen") {
        return Some(ColorValue { red: 32, green: 178, blue: 170, alpha_milli: 1000 });
    }
    if vec_eq_str(q, "lightskyblue") {
        return Some(ColorValue { red: 135, green: 206, blue: 250, alpha_milli: 1000 });
    }
    if vec_eq_str(q, "lightslategray") {
        return Some(ColorValue { red: 119, green: 136, blue: 153, alpha_milli: 1000 });
    }
    if vec_eq_str(q, "lightslategrey") {
        return Some(ColorValue { red: 119, green: 136, blue: 153, alpha_milli: 1000 });
    }
    if vec_eq_str(q, "lightsteelblue") {
        return Some(ColorValue { red: 176, green: 196, blue: 222, alpha_milli: 1000 });
    }
    if vec_eq_str(q, "lightyellow") {
        return Some(ColorValue { red: 255, green: 255, blue: 224, alpha_milli: 1000 });
    }
    if vec_eq_str(q, "lime") {
        return Some(ColorValue { red: 0, green: 255, blue: 0, alpha_milli: 1000 });
    }
    if vec_eq_str(q, "limegreen") {
        return Some(ColorValue { red: 50, green: 205, blue: 50, alpha_milli: 1000 });
    }
    if vec_eq_str(q, "linen") {
        return Some(ColorValue { red: 250, green: 240, blue: 230, alpha_milli: 1000 });
    }
    if vec_eq_str(q, "magenta") {
        return Some(ColorValue { red: 255, green: 0, blue: 255, alpha_milli: 1000 });
    }
    if vec_eq_str(q, "maroon") {
        return Some(ColorValue { red: 128, green: 0, blue: 0, alpha_milli: 1000 });
    }
    if vec_eq_str(q, "maroon2") {
        return Some(ColorValue { red: 127, green: 0, blue: 0, alpha_milli: 1000 });
    }
    if vec_eq_str(q, "maroon3") {
        return Some(ColorValue { red: 176, green: 48, blue: 96, alpha_milli: 1000 });
    }
    if vec_eq_str(q, "mediumaquamarine") {
        return Some(ColorValue { red: 102, green: 205, blue: 170, alpha_milli: 1000 });
    }
    if vec_eq_str(q, "mediumblue") {
        return Some(ColorValue { red: 0, green: 0, blue: 205, alpha_milli: 1000 });
    }
    if vec_eq_str(q, "mediumorchid") {
        return Some(ColorValue { red: 186, green: 85, blue: 211, alpha_milli: 1000 });
    }
    if vec_eq_str(q, "mediumpurple") {
        return Some(ColorValue { red: 147, green: 112, blue: 219, alpha_milli: 1000 });
    }
    if vec_eq_str(q, "mediumseagreen") {
        return Some(ColorValue { red: 60, green: 179, blue: 113, alpha_milli: 1000 });
    }
    if vec_eq_str(q, "mediumslateblue") {
        return Some(ColorValue { red: 123, green: 104, blue: 238, alpha_milli: 1000 });
    }
    if vec_eq_str(q, "mediumspringgreen") {
        return Some(ColorValue { red: 0, green: 250, blue: 154, alpha_milli: 1000 });
    }
    if vec_eq_str(q, "mediumturquoise") {
        return Some(ColorValue { red: 72, green: 209, blue: 204, alpha_milli: 1000 });
    }
    if vec_eq_str(q, "mediumvioletred") {
        return Some(ColorValue { red: 199, green: 21, blue: 133, alpha_milli: 1000 });
    }
    if vec_eq_str(q, "midnightblue") {
        return Some(ColorValue { red: 25, green: 25, blue: 112, alpha_milli: 1000 });
    }
    if vec_eq_str(q, "mintcream") {
        return Some(ColorValue { red: 245, green: 255, blue: 250, alpha_milli: 1000 });
    }
    if vec_eq_str(q, "mistyrose") {
        return Some(ColorValue { red: 255, green: 228, blue: 225, alpha_milli: 1000 });
    }
    if vec_eq_str(q, "moccasin") {
        return Some(ColorValue { red: 255, green: 228, blue: 181, alpha_milli: 1000 });
    }
    None
}

fn named_color_n_s(q: &Vec<char>) -> (r: Option<ColorValue>)
    ensures
        r == spec_named_color_n_s(q@),
{
    if vec_eq_str(q, "navajowhite") {
        return Some(ColorValue { red: 255, green: 222, blue: 173, alpha_milli: 1000 });
    }
    if vec_eq_str(q, "navy") {
        return Some(ColorValue { red: 0, green: 0, blue: 128, alpha_milli: 1000 });
    }
    if vec_eq_str(q, "oldlace") {
        return Some(ColorValue { red: 253, green: 245, blue: 230, alpha_milli: 1000 });
    }
    if vec_eq_str(q, "olive") {
        return Some(ColorValue { red: 128, green: 128, blue: 0, alpha_milli: 1000 });
    }
    if vec_eq_str(q, "olivedrab") {
        return Some(ColorValue { red: 107, green: 142, blue: 35, alpha_milli: 1000 });
    }
    if vec_eq_str(q, "orange") {
        return Some(ColorValue { red: 255, green: 165, blue: 0, alpha_milli: 1000 });
    }
    if vec_eq_str(q, "orangered") {
        return Some(ColorValue { red: 255, green: 69, blue: 0, alpha_milli: 1000 });
    }
    if vec_eq_str(q, "orchid") {
        return Some(ColorValue { red: 218, green: 112, blue: 214, alpha_milli: 1000 });
    }
    if vec_eq_str(q, "palegoldenrod") {
        return Some(ColorValue { red: 238, green: 232, blue: 170, alpha_milli: 1000 });
    }
    if vec_eq_str(q, "palegreen") {
        return Some(ColorValue { red: 152, green: 251, blue: 152, alpha_milli: 1000 });
    }
    if vec_eq_str(q, "paleturquoise") {
        return Some(ColorValue { red: 175, green: 238, blue: 238, alpha_milli: 1000 });
    }
    if vec_eq_str(q, "palevioletred") {
        return Some(ColorValue { red: 219, green: 112, blue: 147, alpha_milli: 1000 });
    }
    if vec_eq_str(q, "papayawhip") {
        return Some(ColorValue { red: 255, green: 239, blue: 213, alpha_milli: 1000 });
    }
    if vec_eq_str(q, "peachpuff") {
        return Some(ColorValue { red: 255, green: 218, blue: 185, alpha_milli: 1000 });
    }
    if vec_eq_str(q, "peru") {
        return Some(ColorValue { red: 205, green: 133, blue: 63, alpha_milli: 1000 });
    }
    if vec_eq_str(q, "pink") {
        return Some(ColorValue { red: 255, green: 192, blue: 203, alpha_milli: 1000 });
    }
    if vec_eq_str(q, "plum") {
        return Some(ColorValue { red: 221, green: 160, blue: 221, alpha_milli: 1000 });
    }
    if vec_eq_str(q, "powderblue") {
        return Some(ColorValue { red: 176, green: 224, blue: 230, alpha_milli: 1000 });
    }
    if vec_eq_str(q, "purple") {
        return Some(ColorValue { red: 128, green: 0, blue: 128, alpha_milli: 1000 });
    }
    if vec_eq_str(q, "purple2") {
        return Some(ColorValue { red: 127, green: 0, blue: 127, alpha_milli: 1000 });
    }
    if vec_eq_str(q, "purple3") {
        return Some(ColorValue { red: 160, green: 32, blue: 240, alpha_milli: 1000 });
    }
    if vec_eq_str(q, "rebeccapurple") {
        return Some(ColorValue { red: 102, green: 51, blue: 153, alpha_milli: 1000 });
    }
    if vec_eq_str(q, "red") {
        return Some(ColorValue { red: 255, green: 0, blue: 0, alpha_milli: 1000 });
    }
    if vec_eq_str(q, "rosybrown") {
        return Some(ColorValue { red: 188, green: 143, blue: 143, alpha_milli: 1000 });
    }
    if vec_eq_str(q, "royalblue") {
        return Some(ColorValue { red: 65, green: 105, blue: 225, alpha_milli: 1000 });
    }
    if vec_eq_str(q, "saddlebrown") {
        return Some(ColorValue { red: 139, green: 69, blue: 19, alpha_milli: 1000 });
    }
    None
}

fn named_color_s_y(q: &Vec<char>) -> (r: Option<ColorValue>)
    ensures
        r == spec_named_color_s_y(q@),
{
    if vec_eq_str(q, "salmon") {
        return Some(ColorValue { red: 250, green: 128, blue: 114, alpha_milli: 1000 });
    }
    if vec_eq_str(q, "sandybrown") {
        return Some(ColorValue { red: 244, green: 164, blue: 96, alpha_milli: 1000 });
    }
    if vec_eq_str(q, "seagreen") {
        return Some(ColorValue { red: 46, green: 139, blue: 87, alpha_milli: 1000 });
    }
    if vec_eq_str(q, "seashell") {
        return Some(ColorValue { red: 255, green: 245, blue: 238, alpha_milli: 1000 });
    }
    if vec_eq_str(q, "sienna") {
        return Some(ColorValue { red: 160, green: 82, blue: 45, alpha_milli: 1000 });
    }
    if vec_eq_str(q, "silver") {
        return Some(ColorValue { red: 192, green: 192, blue: 192, alpha_milli: 1000 });
    }
    if vec_eq_str(q, "skyblue") {
        return Some(ColorValue { red: 135, green: 206, blue: 235, alpha_milli: 1000 });
    }
    if vec_eq_str(q, "slateblue") {
        return Some(ColorValue { red: 106, green: 90, blue: 205, alpha_milli: 1000 });
    }
    if vec_eq_str(q, "slategray") {
        return Some(ColorValue { red: 112, green: 128, blue: 144, alpha_milli: 1000 });
    }
    if vec_eq_str(q, "slategrey") {
        return Some(ColorValue { red: 112, green: 128, blue: 144, alpha_milli: 1000 });
    }
    if vec_eq_str(q, "snow") {
        return Some(ColorValue { red: 255, green: 250, blue: 250, alpha_milli: 1000 });
    }
    if vec_eq_str(q, "springgreen") {
        return Some(ColorValue { red: 0, green: 255, blue: 127, alpha_milli: 1000 });
    }
    if vec_eq_str(q, "steelblue") {
        return Some(ColorValue { red: 70, green: 130, blue: 180, alpha_milli: 1000 });
    }
    if vec_eq_str(q, "tan") {
        return Some(ColorValue { red: 210, green: 180, blue: 140, alpha_milli: 1000 });
    }
    if vec_eq_str(q, "teal") {
        return Some(ColorValue { red: 0, green: 128, blue: 128, alpha_milli: 1000 });
    }
    if vec_eq_str(q, "thistle") {
        return Some(ColorValue { red: 216, green: 191, blue: 216, alpha_milli: 1000 });
    }
    if vec_eq_str(q, "tomato") {
        return Some(ColorValue { red: 255, green: 99, blue: 71, alpha_milli: 1000 });
    }
    if vec_eq_str(q, "turquoise") {
        return Some(ColorValue { red: 64, green: 224, blue: 208, alpha_milli: 1000 });
    }
    if vec_eq_str(q, "violet") {
        return Some(ColorValue { red: 238, green: 130, blue: 238, alpha_milli: 1000 });
    }
    if vec_eq_str(q, "wheat") {
        return Some(ColorValue { red: 245, green: 222, blue: 179, alpha_milli: 1000 });
    }
    if vec_eq_str(q, "white") {
        return Some(ColorValue { red: 255, green: 255, blue: 255, alpha_milli: 1000 });
    }
    if vec_eq_str(q, "whitesmoke") {
        return Some(ColorValue { red: 245, green: 245, blue: 245, alpha_milli: 1000 });
    }
    if vec_eq_str(q, "yellow") {
        return Some(ColorValue { red: 255, green: 255, blue: 0, alpha_milli: 1000 });
    }
    if vec_eq_str(q, "yellowgreen") {
        return Some(ColorValue { red: 154, green: 205, blue: 50, alpha_milli: 1000 });
    }
    None
}

/// Looks the canonical literal up in the named-color table.
fn named_color(q: &Vec<char>) -> (r: Option<ColorValue>)
    ensures
        r == spec_named_color(q@),
{
    if let Some(c) = named_color_a_d(q) {
        return Some(c);
    }
    if let Some(c) = named_color_d_g(q) {
        return Some(c);
    }
    if let Some(c) = named_color_g_l(q) {
        return Some(c);
    }
    if let Some(c) = named_color_l_m(q) {
        return Some(c);
    }
    if let Some(c) = named_color_n_s(q) {
        return Some(c);
    }
    if let Some(c) = named_color_s_y(q) {
        return Some(c);
    }
    None
}

/// The positions of the commas in `t` at or after index `i`.
pub open spec fn spec_commas_from(t: Seq<char>, i: int) -> Seq<int>
    decreases t.len() - i,
{
    if i >= t.len() {
        Seq::empty()
    } else if t[i] == ',' {
        seq![i] + spec_commas_from(t, i + 1)
    } else {
        spec_commas_from(t, i + 1)
    }
}

/// One when the fraction of a decimal literal is at least one half — its
/// first fraction digit is five or more — and zero otherwise.
pub open spec fn spec_half_up(g: Seq<char>) -> int {
    if spec_dot_pos(g) + 1 < g.len() && crate::numtext::spec_digit_val(g[spec_dot_pos(g) + 1])
        >= 5 {
        1
    } else {
        0
    }
}

/// A color channel: the segment trimmed of whitespace must be an unsigned
/// decimal number no greater than 255; its value is rounded to the nearest
/// whole channel, halves up.
pub open spec fn spec_component(seg: Seq<char>) -> Option<int> {
    let g = spec_trim(seg);
    if spec_decimal_shape(g) && (spec_whole_val(g) < 255 || (spec_whole_val(g) == 255 && (forall|
        j: int,
    |
        spec_dot_pos(g) < j < g.len() ==> #[trigger] g[j] == '0'))) {
        Some(spec_whole_val(g) + spec_half_up(g))
    } else {
        None
    }
}

/// Value in thousandths of the fraction digits after the dot; digits
/// beyond the third are ignored.
pub open spec fn spec_frac3(g: Seq<char>) -> int {
    let dp = spec_dot_pos(g);
    if dp >= g.len() {
        0
    } else {
        let w = g.subrange(dp + 1, g.len() as int);
        if w.len() >= 3 {
            spec_digits_val(w.take(3))
        } else {
            spec_digits_val(w) * spec_pow10((3 - w.len()) as nat)
        }
    }
}

/// An alpha component: the trimmed segment must be an unsigned decimal
/// number no greater than one; its value is in thousandths.
pub open spec fn spec_alpha_component(seg: Seq<char>) -> Option<int> {
    let g = spec_trim(seg);
    if spec_decimal_shape(g) && (spec_whole_val(g) == 0 || (spec_whole_val(g) == 1 && (forall|
        j: int,
    |
        spec_dot_pos(g) < j < g.len() ==> #[trigger] g[j] == '0'))) {
        Some(spec_whole_val(g) * 1000 + spec_frac3(g))
    } else {
        None
    }
}

/// The color denoted by a canonical `rgb(r, g, b)` literal.
pub open spec fn spec_rgb_color(q: Seq<char>) -> Option<ColorValue> {
    let t = q.subrange(4, q.len() - 1);
    let ps = spec_commas_from(t, 0);
    if ps.len() == 2 {
        let c1 = spec_component(t.subrange(0, ps[0]));
        let c2 = spec_component(t.subrange(ps[0] + 1, ps[1]));
        let c3 = spec_component(t.subrange(ps[1] + 1, t.len() as int));
        if c1 is Some && c2 is Some && c3 is Some {
            Some(spec_rgb(c1->0, c2->0, c3->0))
        } else {
            None
        }
    } else {
        None
    }
}

/// The color denoted by a canonical `rgba(r, g, b, a)` literal.
pub open spec fn spec_rgba_color(q: Seq<char>) -> Option<ColorValue> {
    let t = q.subrange(5, q.len() - 1);
    let ps = spec_commas_from(t, 0);
    if ps.len() == 3 {
        let c1 = spec_component(t.subrange(0, ps[0]));
        let c2 = spec_component(t.subrange(ps[0] + 1, ps[1]));
        let c3 = spec_component(t.subrange(ps[1] + 1, ps[2]));
        let ca = spec_alpha_component(t.subrange(ps[2] + 1, t.len() as int));
        if c1 is Some && c2 is Some && c3 is Some && ca is Some && ca->0 <= 1000 {
            Some(
                ColorValue {
                    red: c1->0 as u8,
                    green: c2->0 as u8,
                    blue: c3->0 as u8,
                    alpha_milli: ca->0 as u16,
                },
            )
        } else {
            None
        }
    } else {
        None
    }
}

/// What a canonical (trimmed, lowered) literal denotes: a hex form, a named
/// color, or an `rgb` / `rgba` form; anything else is no color.
pub open spec fn spec_css_color_canon(q: Seq<char>) -> Option<ColorValue> {
    if q.len() > 0 && q[0] == '#' {
        if spec_is_hex_form(q) {
            Some(spec_hex_color(q))
        } else {
            None
        }
    } else if spec_named_color(q) is Some {
        spec_named_color(q)
    } else if q.len() >= 5 && q.subrange(0, 4) == "rgb("@ && q.last() == ')' {
        spec_rgb_color(q)
    } else if q.len() >= 6 && q.subrange(0, 5) == "rgba("@ && q.last() == ')' {
        spec_rgba_color(q)
    } else {
        None
    }
}

/// The color a literal denotes, after trimming and lowering.
pub open spec fn spec_css_color(s: Seq<char>) -> Option<ColorValue> {
    spec_css_color_canon(spec_canon(s))
}

/// Trims `b[lo .. hi]`: returns the bounds of the whitespace-free middle,
/// which is empty only when the whole range is whitespace.
fn trim_range(b: &Vec<char>, lo: usize, hi: usize) -> (r: (usize, usize))
    requires
        lo <= hi <= b@.len(),
    ensures
        lo <= r.0 <= r.1 <= hi,
        spec_trim(b@.subrange(lo as int, hi as int)) == b@.subrange(r.0 as int, r.1 as int),
        r.0 < r.1 ==> !spec_is_space(b@[r.0 as int]) && !spec_is_space(b@[r.1 - 1]),
{
    let ghost seg = b@.subrange(lo as int, hi as int);
    let mut a: usize = lo;
    while a < hi && is_space_char(b[a])
        invariant
            lo <= a <= hi <= b@.len(),
            seg == b@.subrange(lo as int, hi as int),
            forall|j: int| lo <= j < a ==> spec_is_space(#[trigger] b@[j]),
        decreases hi - a,
    {
        a = a + 1;
    }
    proof {
        lemma_trim_front_from_bounds(seg, a - lo);
    }
    if a == hi {
        proof {
            assert(spec_trim_front(seg) =~= Seq::<char>::empty());
            assert(spec_trim(seg) =~= b@.subrange(a as int, a as int));
        }
        return (a, a);
    }
    let mut e: usize = hi;
    while e > a + 1 && is_space_char(b[e - 1])
        invariant
            a < e <= hi <= b@.len(),
            seg == b@.subrange(lo as int, hi as int),
            forall|j: int| e <= j < hi ==> spec_is_space(#[trigger] b@[j]),
        decreases e,
    {
        e = e - 1;
    }
    proof {
        let u2 = seg.subrange(a - lo, seg.len() as int);
        lemma_trim_back_from_bounds(u2, e - a);
        assert(u2.take(e - a) =~= b@.subrange(a as int, e as int));
    }
    (a, e)
}

/// Parses one `rgb` / `rgba` channel segment `b[lo .. hi]`: whitespace
/// around an unsigned decimal number no greater than 255, rounded to the
/// nearest whole channel.
#[verifier::rlimit(100)]
fn parse_channel(b: &Vec<char>, lo: usize, hi: usize) -> (r: Option<u8>)
    requires
        lo <= hi <= b@.len(),
    ensures
        ({
            let comp = spec_component(b@.subrange(lo as int, hi as int));
            &&& (r is Some <==> comp is Some)
            &&& (r is Some ==> r->0 == comp->0)
        }),
{
    let ghost seg = b@.subrange(lo as int, hi as int);
    let (a, e) = trim_range(b, lo, hi);
    let ghost g = spec_trim(seg);
    if a == e {
        return None;
    }

    // Scan: digits with at most one dot, nothing else.
    let mut found_dot = false;
    let mut dot: usize = e;  // absolute index of the first dot, `e` if none
    let mut i: usize = a;
    while i < e
        invariant
            lo <= a <= i <= e <= hi <= b@.len(),
            a < e,
            g == spec_trim(b@.subrange(lo as int, hi as int)),
            g == b@.subrange(a as int, e as int),
            !found_dot ==> dot == e && forall|j: int|
                a <= j < i ==> spec_is_digit(#[trigger] b@[j]),
            found_dot ==> {
                &&& a <= dot < i
                &&& b@[dot as int] == '.'
                &&& (forall|j: int| a <= j < dot ==> spec_is_digit(#[trigger] b@[j]))
                &&& (forall|j: int| dot < j < i ==> spec_is_digit(#[trigger] b@[j]))
            },
        decreases e - i,
    {
        let c = b[i];
        if c >= '0' && c <= '9' {
            // a digit
        } else if c == '.' {
            if found_dot {
                proof {
                    crate::length::lemma_dot_pos_from_bounds(g, dot - a);
                    assert(g[i - a] == '.');
                    assert(!spec_decimal_shape(g));
                }
                return None;
            }
            found_dot = true;
            dot = i;
        } else {
            proof {
                assert(g[i - a] == b@[i as int]);
                assert(!spec_decimal_shape(g));
            }
            return None;
        }
        i = i + 1;
    }
    proof {
        if found_dot {
            crate::length::lemma_dot_pos_from_bounds(g, dot - a);
        } else {
            crate::length::lemma_dot_pos_from_bounds(g, g.len() as int);
        }
    }
    if found_dot && e - a == 1 {
        assert(!spec_decimal_shape(g));
        return None;
    }
    assert(spec_decimal_shape(g));

    // Whole part: at most 255.
    let whole = digits_value_capped(b, a, dot, 255);
    proof {
        assert(b@.subrange(a as int, dot as int) =~= g.take(spec_dot_pos(g)));
    }
    if whole > 255 {
        return None;
    }
    if whole == 255 && found_dot {
        // At the top of the range, every fraction digit must be zero.
        let mut j: usize = dot + 1;
        while j < e
            invariant
                lo <= a <= dot < e <= hi <= b@.len(),
                dot < j <= e,
                g == spec_trim(b@.subrange(lo as int, hi as int)),
                g == b@.subrange(a as int, e as int),
                spec_dot_pos(g) == dot - a,
                spec_whole_val(g) == 255,
                forall|k: int| dot < k < j ==> b@[k] == '0',
            decreases e - j,
        {
            if b[j] != '0' {
                proof {
                    assert(g[j - a] == b@[j as int]);
                }
                return None;
            }
            j = j + 1;
        }
    }

    // Round to nearest: up when the first fraction digit is five or more.
    let mut bump: u64 = 0;
    if found_dot && dot + 1 < e {
        let d = b[dot + 1];
        if d >= '5' && d <= '9' {
            bump = 1;
        }
    }
    Some((whole + bump) as u8)
}

/// Parses the alpha segment `b[lo .. hi]`: whitespace around an unsigned
/// decimal number no greater than one, in thousandths.
#[verifier::rlimit(100)]
fn parse_alpha(b: &Vec<char>, lo: usize, hi: usize) -> (r: Option<u16>)
    requires
        lo <= hi <= b@.len(),
    ensures
        ({
            let comp = spec_alpha_component(b@.subrange(lo as int, hi as int));
            &&& (r is Some <==> comp is Some)
            &&& (r is Some ==> r->0 == comp->0 && r->0 <= 1000)
        }),
{
    proof {
        reveal_with_fuel(spec_pow10, 4);
    }
    let ghost seg = b@.subrange(lo as int, hi as int);
    let (a, e) = trim_range(b, lo, hi);
    let ghost g = spec_trim(seg);
    if a == e {
        return None;
    }

    // Scan: digits with at most one dot, nothing else.
    let mut found_dot = false;
    let mut dot: usize = e;  // absolute index of the first dot, `e` if none
    let mut i: usize = a;
    while i < e
        invariant
            lo <= a <= i <= e <= hi <= b@.len(),
            a < e,
            g == spec_trim(b@.subrange(lo as int, hi as int)),
            g == b@.subrange(a as int, e as int),
            !found_dot ==> dot == e && forall|j: int|
                a <= j < i ==> spec_is_digit(#[trigger] b@[j]),
            found_dot ==> {
                &&& a <= dot < i
                &&& b@[dot as int] == '.'
                &&& (forall|j: int| a <= j < dot ==> spec_is_digit(#[trigger] b@[j]))
                &&& (forall|j: int| dot < j < i ==> spec_is_digit(#[trigger] b@[j]))
            },
        decreases e - i,
    {
        let c = b[i];
        if c >= '0' && c <= '9' {
            // a digit
        } else if c == '.' {
            if found_dot {
                proof {
                    crate::length::lemma_dot_pos_from_bounds(g, dot - a);
                    assert(g[i - a] == '.');
                    assert(!spec_decimal_shape(g));
                }
                return None;
            }
            found_dot = true;
            dot = i;
        } else {
            proof {
                assert(g[i - a] == b@[i as int]);
                assert(!spec_decimal_shape(g));
            }
            return None;
        }
        i = i + 1;
    }
    proof {
        if found_dot {
            crate::length::lemma_dot_pos_from_bounds(g, dot - a);
        } else {
            crate::length::lemma_dot_pos_from_bounds(g, g.len() as int);
        }
    }
    if found_dot && e - a == 1 {
        assert(!spec_decimal_shape(g));
        return None;
    }
    assert(spec_decimal_shape(g));

    // Whole part: zero or one.
    let whole = digits_value_capped(b, a, dot, 1);
    proof {
        assert(b@.subrange(a as int, dot as int) =~= g.take(spec_dot_pos(g)));
    }
    if whole > 1 {
        return None;
    }
    if whole == 1 && found_dot {
        // Every fraction digit must be zero.
        let mut j: usize = dot + 1;
        while j < e
            invariant
                lo <= a <= dot < e <= hi <= b@.len(),
                dot < j <= e,
                g == spec_trim(b@.subrange(lo as int, hi as int)),
                g == b@.subrange(a as int, e as int),
                spec_dot_pos(g) == dot - a,
                spec_whole_val(g) == 1,
                forall|k: int| dot < k < j ==> b@[k] == '0',
            decreases e - j,
        {
            if b[j] != '0' {
                proof {
                    assert(g[j - a] == b@[j as int]);
                }
                return None;
            }
            j = j + 1;
        }
    }

    // Fraction part, in thousandths; digits beyond the third are ignored.
    let mut frac: u64 = 0;
    if found_dot && dot + 1 < e {
        let avail = e - (dot + 1);
        let m = if avail >= 3 {
            3
        } else {
            avail
        };
        let fv = digits_value_capped(b, dot + 1, dot + 1 + m, 999_999);
        let mult: u64 = match 3 - m {
            0 => 1,
            1 => 10,
            _ => 100,
        };
        proof {
            let w = g.subrange(spec_dot_pos(g) + 1, g.len() as int);
            let taken = b@.subrange(dot + 1, (dot + 1 + m) as int);
            if avail >= 3 {
                assert(taken =~= w.take(3));
            } else {
                assert(taken =~= w);
            }
            assert(spec_all_digits(taken));
            crate::length::lemma_digits_val_bound(taken);
            if whole == 1 {
                crate::numtext::lemma_digits_val_zeros(taken);
            }
        }
        frac = fv * mult;
    }
    let milli = whole * 1000 + frac;
    Some(milli as u16)
}

/// The positions of every comma in `b`, in order.
fn find_commas(b: &Vec<char>) -> (pos: Vec<usize>)
    ensures
        pos@.map_values(|x: usize| x as int) == spec_commas_from(b@, 0),
        forall|k: int|
            0 <= k < pos@.len() ==> 0 <= #[trigger] pos@[k] < b@.len() && b@[pos@[k] as int]
                == ',',
        forall|k1: int, k2: int| 0 <= k1 < k2 < pos@.len() ==> pos@[k1] < pos@[k2],
{
    let mut pos: Vec<usize> = Vec::new();
    let n = b.len();
    let mut i: usize = 0;
    while i < n
        invariant
            0 <= i <= n,
            n == b@.len(),
            spec_commas_from(b@, 0) == pos@.map_values(|x: usize| x as int) + spec_commas_from(
                b@,
                i as int,
            ),
            forall|k: int|
                0 <= k < pos@.len() ==> 0 <= #[trigger] pos@[k] < i && b@[pos@[k] as int] == ',',
            forall|k1: int, k2: int| 0 <= k1 < k2 < pos@.len() ==> pos@[k1] < pos@[k2],
        decreases n - i,
    {
        if b[i] == ',' {
            let ghost old_pos = pos@;
            pos.push(i);
            proof {
                assert(pos@.map_values(|x: usize| x as int) =~= old_pos.map_values(
                    |x: usize| x as int,
                ) + seq![i as int]);
                assert(old_pos.map_values(|x: usize| x as int) + (seq![i as int]
                    + spec_commas_from(b@, i + 1)) =~= (old_pos.map_values(|x: usize| x as int)
                    + seq![i as int]) + spec_commas_from(b@, i + 1));
            }
        }
        i = i + 1;
    }
    proof {
        assert(pos@.map_values(|x: usize| x as int) + spec_commas_from(b@, n as int)
            =~= pos@.map_values(|x: usize| x as int));
    }
    pos
}

/// Parses a CSS color literal: a hex form (`#rgb`, `#rgba`, `#rrggbb`,
/// `#rrggbbaa`), a name from the W3C/X11 named-color table, or an
/// `rgb(r, g, b)` / `rgba(r, g, b, a)` form, after trimming whitespace and
/// lowering case.  Every other string is rejected; in particular, only the
/// ASCII color names are recognized — no table of names in other scripts
/// is carried here.
#[verifier::rlimit(100)]
pub fn parse_css_color(s: &str) -> (r: Result<ColorValue, ColorParseError>)
    ensures
        r is Ok <==> spec_css_color(s@) is Some,
        r is Ok ==> r->Ok_0 == spec_css_color(s@)->Some_0 && r->Ok_0.wf(),
{
    let q = canon_chars(s);
    let n = q.len();
    if n > 0 && q[0] == '#' {
        if !(n == 4 || n == 5 || n == 7 || n == 9) {
            return Err(ColorParseError);
        }
        let mut i: usize = 1;
        while i < n
            invariant
                1 <= i <= n,
                n == q@.len(),
                q@ == spec_canon(s@),
                q@[0] == '#',
                n == 4 || n == 5 || n == 7 || n == 9,
                forall|j: int| 1 <= j < i ==> spec_is_hex_digit(#[trigger] q@[j]),
            decreases n - i,
        {
            if !is_hex_digit_char(q[i]) {
                return Err(ColorParseError);
            }
            i = i + 1;
        }
        assert(spec_is_hex_form(q@));
        if n == 4 {
            let red = (hex_val(q[1]) * 17) as u8;
            let green = (hex_val(q[2]) * 17) as u8;
            let blue = (hex_val(q[3]) * 17) as u8;
            return Ok(ColorValue { red, green, blue, alpha_milli: 1000 });
        } else if n == 5 {
            let red = (hex_val(q[1]) * 17) as u8;
            let green = (hex_val(q[2]) * 17) as u8;
            let blue = (hex_val(q[3]) * 17) as u8;
            let alpha_milli = alpha_from_byte(hex_val(q[4]) * 17);
            return Ok(ColorValue { red, green, blue, alpha_milli });
        } else if n == 7 {
            let red = (hex_val(q[1]) * 16 + hex_val(q[2])) as u8;
            let green = (hex_val(q[3]) * 16 + hex_val(q[4])) as u8;
            let blue = (hex_val(q[5]) * 16 + hex_val(q[6])) as u8;
            return Ok(ColorValue { red, green, blue, alpha_milli: 1000 });
        } else {
            let red = (hex_val(q[1]) * 16 + hex_val(q[2])) as u8;
            let green = (hex_val(q[3]) * 16 + hex_val(q[4])) as u8;
            let blue = (hex_val(q[5]) * 16 + hex_val(q[6])) as u8;
            let alpha_milli = alpha_from_byte(hex_val(q[7]) * 16 + hex_val(q[8]));
            return Ok(ColorValue { red, green, blue, alpha_milli });
        }
    }
    if let Some(c) = named_color(&q) {
        return Ok(c);
    }
    if n >= 5 && q[n - 1] == ')' && vec_range_eq_str(&q, 0, 4, "rgb(") {
        // rgb(r, g, b)
        let mut body: Vec<char> = Vec::new();
        let mut i: usize = 4;
        while i < n - 1
            invariant
                4 <= i <= n - 1,
                n == q@.len(),
                n >= 5,
                body@ == q@.subrange(4, i as int),
            decreases n - i,
        {
            body.push(q[i]);
            proof {
                assert(body@ =~= q@.subrange(4, i + 1));
            }
            i = i + 1;
        }
        let pos = find_commas(&body);
        if pos.len() != 2 {
            return Err(ColorParseError);
        }
        let r0 = parse_channel(&body, 0, pos[0]);
        let r1 = parse_channel(&body, pos[0] + 1, pos[1]);
        let r2 = parse_channel(&body, pos[1] + 1, body.len());
        match (r0, r1, r2) {
            (Some(red), Some(green), Some(blue)) => Ok(
                ColorValue { red, green, blue, alpha_milli: 1000 },
            ),
            _ => Err(ColorParseError),
        }
    } else if n >= 6 && q[n - 1] == ')' && vec_range_eq_str(&q, 0, 5, "rgba(") {
        // rgba(r, g, b, a)
        let mut body: Vec<char> = Vec::new();
        let mut i: usize = 5;
        while i < n - 1
            invariant
                5 <= i <= n - 1,
                n == q@.len(),
                n >= 6,
                body@ == q@.subrange(5, i as int),
            decreases n - i,
        {
            body.push(q[i]);
            proof {
                assert(body@ =~= q@.subrange(5, i + 1));
            }
            i = i + 1;
        }
        let pos = find_commas(&body);
        if pos.len() != 3 {
            return Err(ColorParseError);
        }
        let r0 = parse_channel(&body, 0, pos[0]);
        let r1 = parse_channel(&body, pos[0] + 1, pos[1]);
        let r2 = parse_channel(&body, pos[1] + 1, pos[2]);
        let ra = parse_alpha(&body, pos[2] + 1, body.len());
        match (r0, r1, r2, ra) {
            (Some(red), Some(green), Some(blue), Some(alpha_milli)) => Ok(
                ColorValue { red, green, blue, alpha_milli },
            ),
            _ => Err(ColorParseError),
        }
    } else {
        Err(ColorParseError)
    }
}

} // verus!
