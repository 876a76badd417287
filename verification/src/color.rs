//! Color values and the jet color map used to visualize depth frames.
//!
//! A position inside a color ramp is an exact rational `num / den`, so the
//! interpolation below is stated and proved over mathematical integers: a
//! channel of the blend of `a` and `b` at position `num / den` is the
//! integer part of `a + (num / den) * (b - a)`, written without subtraction
//! as `(a * (den - num) + num * b) / den`.
use vstd::arithmetic::div_mod::lemma_div_is_ordered;
use vstd::arithmetic::div_mod::lemma_div_multiples_vanish;
use vstd::prelude::*;

verus! {

/// An 8-bit RGB color.
#[derive(Clone, Copy, Debug, PartialEq, Eq, Structural)]
pub struct Color {
    pub r: u8,
    pub g: u8,
    pub b: u8,
}

/// The blend of channels `a` and `b` at position `num / den`,
/// rounded down: `(a * (den - num) + num * b) / den`.
pub open spec fn spec_lerp_channel(a: int, b: int, num: int, den: int) -> int {
    (a * (den - num) + num * b) / den
}

/// Where `value` falls inside `[v_min, v_max]`, as an offset from `v_min`
/// clamped to the interval.
pub open spec fn spec_clamped_offset(value: int, v_min: int, v_max: int) -> int {
    if value <= v_min {
        0
    } else if value >= v_max {
        v_max - v_min
    } else {
        value - v_min
    }
}

/// The channels of the color `lerp_color` returns: each channel of `c_min`
/// is blended with the same channel of `c_max` at the clamped position of
/// `value` inside `[v_min, v_max]`.
pub open spec fn spec_lerp_color(value: int, v_min: int, c_min: Color, v_max: int, c_max: Color) -> (
    int,
    int,
    int,
) {
    let den = v_max - v_min;
    let num = spec_clamped_offset(value, v_min, v_max);
    (
        spec_lerp_channel(c_min.r as int, c_max.r as int, num, den),
        spec_lerp_channel(c_min.g as int, c_max.g as int, num, den),
        spec_lerp_channel(c_min.b as int, c_max.b as int, num, den),
    )
}

proof fn lemma_lerp_channel_bounds(a: int, b: int, num: int, den: int)
    requires
        0 <= a <= 255,
        0 <= b <= 255,
        0 <= num <= den,
        0 < den,
    ensures
        0 <= spec_lerp_channel(a, b, num, den) <= 255,
{
    assert(0 <= a * (den - num) + num * b <= 255 * den) by (nonlinear_arith)
        requires
            0 <= a <= 255,
            0 <= b <= 255,
            0 <= num <= den,
    ;
    lemma_div_is_ordered(0, a * (den - num) + num * b, den);
    lemma_div_is_ordered(a * (den - num) + num * b, 255 * den, den);
    lemma_div_multiples_vanish(255, den);
}

/// One channel of a linear blend, at the exact rational position `num / den`.
fn lerp_channel(a: u8, b: u8, num: u64, den: u64) -> (r: u8)
    requires
        0 < den,
        num <= den,
        den < 0x0100_0000_0000_0000,
    ensures
        r as int == spec_lerp_channel(a as int, b as int, num as int, den as int),
{
    proof {
        assert((a as int) * ((den - num) as int) + (num as int) * (b as int) <= 255 * (den as int))
            by (nonlinear_arith)
            requires
                a <= 255,
                b <= 255,
                0 <= num <= den,
        ;
        lemma_lerp_channel_bounds(a as int, b as int, num as int, den as int);
    }
    let numerator: u64 = (a as u64) * (den - num) + num * (b as u64);
    (numerator / den) as u8
}

/// The channels of the color `jet_colormap` returns for the position
/// `num / den` (clamped to `[0, 1]`): the classic jet ramp
/// blue -> cyan -> yellow -> red -> black, with the last segment running
/// from `4/5` to `1` so that positions in `[3/4, 4/5]` stay fully red.
///
/// Positions are compared on a scale of twentieths, where every segment
/// boundary (`1/4`, `1/2`, `3/4`, `4/5`, `1`) is a whole multiple of `den`.
pub open spec fn spec_jet(num: int, den: int) -> (int, int, int) {
    let v = if num <= den {
        num
    } else {
        den
    };
    let w = 20 * v;
    if w < 5 * den {
        spec_lerp_color(w, 0, (Color { r: 0, g: 0, b: 255 }), 5 * den, (Color { r: 0, g: 255, b: 255 }))
    } else if w < 10 * den {
        spec_lerp_color(
            w,
            5 * den,
            (Color { r: 0, g: 255, b: 255 }),
            10 * den,
            (Color { r: 255, g: 255, b: 0 }),
        )
    } else if w < 15 * den {
        spec_lerp_color(
            w,
            10 * den,
            (Color { r: 255, g: 255, b: 0 }),
            15 * den,
            (Color { r: 255, g: 0, b: 0 }),
        )
    } else {
        spec_lerp_color(
            w,
            16 * den,
            (Color { r: 255, g: 0, b: 0 }),
            20 * den,
            (Color { r: 0, g: 0, b: 0 }),
        )
    }
}

/// The classic jet color map, blue -> cyan -> yellow -> red -> black, for
/// the position `num / den`; positions above `1` are clamped to `1`.
pub fn jet_colormap(num: u32, den: u32) -> (r: Color)
    requires
        den > 0,
    ensures
        (r.r as int, r.g as int, r.b as int) == spec_jet(num as int, den as int),
{
    let v: u64 = if num <= den {
        num as u64
    } else {
        den as u64
    };
    let d: u64 = den as u64;
    let w: u64 = 20 * v;

    if w < 5 * d {
        lerp_color(w, 0, Color { r: 0, g: 0, b: 255 }, 5 * d, Color { r: 0, g: 255, b: 255 })
    } else if w < 10 * d {
        lerp_color(w, 5 * d, Color { r: 0, g: 255, b: 255 }, 10 * d, Color { r: 255, g: 255, b: 0 })
    } else if w < 15 * d {
        lerp_color(w, 10 * d, Color { r: 255, g: 255, b: 0 }, 15 * d, Color { r: 255, g: 0, b: 0 })
    } else {
        lerp_color(w, 16 * d, Color { r: 255, g: 0, b: 0 }, 20 * d, Color { r: 0, g: 0, b: 0 })
    }
}

/// Linearly interpolates between two colors based on the position of
/// `value` inside `[v_min, v_max]`; positions outside the interval are
/// clamped to its ends.
pub fn lerp_color(value: u64, v_min: u64, c_min: Color, v_max: u64, c_max: Color) -> (r: Color)
    requires
        v_min < v_max,
        v_max - v_min < 0x0100_0000_0000_0000,
    ensures
        (r.r as int, r.g as int, r.b as int) == spec_lerp_color(
            value as int,
            v_min as int,
            c_min,
            v_max as int,
            c_max,
        ),
{
    let den = v_max - v_min;
    let num = if value <= v_min {
        0
    } else if value >= v_max {
        den
    } else {
        value - v_min
    };
    Color {
        r: lerp_channel(c_min.r, c_max.r, num, den),
        g: lerp_channel(c_min.g, c_max.g, num, den),
        b: lerp_channel(c_min.b, c_max.b, num, den),
    }
}

} // verus!
