//! Style snapshots (keyframes) and their component-wise interpolation.
//!
//! A [`Style`] holds every field a keyframe may animate, as plain integer
//! values: lengths are whole units (the host decides whether a unit is a
//! pixel), colors are 8-bit RGBA channels. Numeric fields interpolate
//! linearly in the fixed-point fraction; enumerated fields switch from the
//! source to the target value as soon as the fraction leaves zero.

use vstd::prelude::*;

verus! {

use crate::easing::EASE_ONE;
use vstd::arithmetic::div_mod::{lemma_div_is_ordered, lemma_div_multiples_vanish};
use vstd::arithmetic::mul::lemma_mul_inequality;

/// An 8-bit RGBA color.
#[derive(Clone, Copy, PartialEq, Eq, Structural, Debug)]
pub struct Rgba {
    pub red: u8,
    pub green: u8,
    pub blue: u8,
    pub alpha: u8,
}

/// How the element is positioned by the host layout engine. Not
/// interpolable: a transition switches it at the first nonzero fraction.
#[derive(Clone, Copy, PartialEq, Eq, Structural, Debug)]
pub enum WidgetPosition {
    Relative,
    Absolute,
}

/// Whether the element takes part in layout. Not interpolable.
#[derive(Clone, Copy, PartialEq, Eq, Structural, Debug)]
pub enum WidgetDisplay {
    Flex,
    Hidden,
}

/// Margins on the four sides of an element, in whole length units.
#[derive(Clone, Copy, PartialEq, Eq, Structural, Debug)]
pub struct Edge {
    pub top: u32,
    pub right: u32,
    pub bottom: u32,
    pub left: u32,
}

impl Edge {
    /// The same margin on all four sides.
    pub fn all(v: u32) -> (e: Edge)
        ensures
            e == (Edge { top: v, right: v, bottom: v, left: v }),
    {
        Edge { top: v, right: v, bottom: v, left: v }
    }
}

/// One complete style snapshot. Every field is explicit; a keyframe never
/// merges with another partial record.
#[derive(Clone, Copy, PartialEq, Eq, Structural, Debug)]
pub struct Style {
    pub position: WidgetPosition,
    pub display: WidgetDisplay,
    pub background_color: Rgba,
    pub color: Rgba,
    pub width: u32,
    pub height: u32,
    pub margin: Edge,
    pub font_size: u32,
}

/// The style every keyframe starts from when a field is not given a value
/// of its own: relative flex layout, fully transparent background, white
/// text at font size 14, no extent and no margin.
pub open spec fn base_style() -> Style {
    Style {
        position: WidgetPosition::Relative,
        display: WidgetDisplay::Flex,
        background_color: Rgba { red: 0, green: 0, blue: 0, alpha: 0 },
        color: Rgba { red: 255, green: 255, blue: 255, alpha: 255 },
        width: 0,
        height: 0,
        margin: Edge { top: 0, right: 0, bottom: 0, left: 0 },
        font_size: 14,
    }
}

impl Default for Style {
    /// Returns [`base_style`].
    fn default() -> (s: Style)
        ensures
            s == base_style(),
    {
        Style {
            position: WidgetPosition::Relative,
            display: WidgetDisplay::Flex,
            background_color: Rgba { red: 0, green: 0, blue: 0, alpha: 0 },
            color: Rgba { red: 255, green: 255, blue: 255, alpha: 255 },
            width: 0,
            height: 0,
            margin: Edge { top: 0, right: 0, bottom: 0, left: 0 },
            font_size: 14,
        }
    }
}

/// Linear interpolation from `a` toward `b` by the fixed-point fraction
/// `e`, rounding toward `a`.
pub open spec fn lerp_spec(a: int, b: int, e: int) -> int {
    if a <= b {
        a + ((b - a) * e) / (EASE_ONE as int)
    } else {
        a - ((a - b) * e) / (EASE_ONE as int)
    }
}

/// A scaled difference `(d * e) / EASE_ONE` with `e` at most `EASE_ONE`
/// never exceeds `d` and never goes negative.
pub proof fn lemma_scaled_fraction_bounds(d: int, e: int)
    requires
        0 <= d,
        0 <= e <= EASE_ONE,
    ensures
        0 <= (d * e) / (EASE_ONE as int) <= d,
        e == EASE_ONE ==> (d * e) / (EASE_ONE as int) == d,
{
    lemma_mul_inequality(e, EASE_ONE as int, d);
    assert(d * e == e * d) by (nonlinear_arith);
    assert(d * (EASE_ONE as int) == (EASE_ONE as int) * d) by (nonlinear_arith);
    lemma_div_is_ordered(d * e, (EASE_ONE as int) * d, EASE_ONE as int);
    lemma_div_multiples_vanish(d, EASE_ONE as int);
    assert(0 <= d * e) by (nonlinear_arith)
        requires
            0 <= d,
            0 <= e,
    ;
    lemma_div_is_ordered(0, d * e, EASE_ONE as int);
}

/// The interpolated value always lies between its two endpoints, and the
/// fraction endpoints reproduce them exactly.
pub proof fn lemma_lerp_bounds(a: int, b: int, e: int)
    requires
        0 <= e <= EASE_ONE,
    ensures
        a <= b ==> a <= lerp_spec(a, b, e) <= b,
        b <= a ==> b <= lerp_spec(a, b, e) <= a,
        e == 0 ==> lerp_spec(a, b, e) == a,
        e == EASE_ONE ==> lerp_spec(a, b, e) == b,
{
    if a <= b {
        lemma_scaled_fraction_bounds(b - a, e);
    } else {
        lemma_scaled_fraction_bounds(a - b, e);
    }
}

/// Interpolates a `u32` field.
pub fn lerp_u32(a: u32, b: u32, e: u64) -> (r: u32)
    requires
        e <= EASE_ONE,
    ensures
        r == lerp_spec(a as int, b as int, e as int),
{
    proof {
        lemma_lerp_bounds(a as int, b as int, e as int);
    }
    if a <= b {
        let d: u64 = (b - a) as u64;
        assert(d * e <= 0xFFFF_FFFFu64 * 1024) by (nonlinear_arith)
            requires
                d <= 0xFFFF_FFFFu64,
                e <= 1024,
        ;
        let inc: u64 = d * e / EASE_ONE;
        a + (inc as u32)
    } else {
        let d: u64 = (a - b) as u64;
        assert(d * e <= 0xFFFF_FFFFu64 * 1024) by (nonlinear_arith)
            requires
                d <= 0xFFFF_FFFFu64,
                e <= 1024,
        ;
        let dec: u64 = d * e / EASE_ONE;
        a - (dec as u32)
    }
}

/// Interpolates an 8-bit color channel.
pub fn lerp_u8(a: u8, b: u8, e: u64) -> (r: u8)
    requires
        e <= EASE_ONE,
    ensures
        r == lerp_spec(a as int, b as int, e as int),
{
    proof {
        lemma_lerp_bounds(a as int, b as int, e as int);
    }
    lerp_u32(a as u32, b as u32, e) as u8
}

/// Per-channel interpolation of a color.
pub open spec fn lerp_rgba_spec(a: Rgba, b: Rgba, e: int) -> Rgba {
    Rgba {
        red: lerp_spec(a.red as int, b.red as int, e) as u8,
        green: lerp_spec(a.green as int, b.green as int, e) as u8,
        blue: lerp_spec(a.blue as int, b.blue as int, e) as u8,
        alpha: lerp_spec(a.alpha as int, b.alpha as int, e) as u8,
    }
}

/// Interpolates a color channel by channel.
pub fn lerp_rgba(a: &Rgba, b: &Rgba, e: u64) -> (r: Rgba)
    requires
        e <= EASE_ONE,
    ensures
        r == lerp_rgba_spec(*a, *b, e as int),
{
    Rgba {
        red: lerp_u8(a.red, b.red, e),
        green: lerp_u8(a.green, b.green, e),
        blue: lerp_u8(a.blue, b.blue, e),
        alpha: lerp_u8(a.alpha, b.alpha, e),
    }
}

/// Component-wise interpolation of two keyframes: numeric fields move
/// linearly, colors move per channel, enumerated fields take the target
/// value as soon as the fraction is nonzero.
pub open spec fn lerp_style_spec(a: Style, b: Style, e: int) -> Style {
    Style {
        position: if e > 0 {
            b.position
        } else {
            a.position
        },
        display: if e > 0 {
            b.display
        } else {
            a.display
        },
        background_color: lerp_rgba_spec(a.background_color, b.background_color, e),
        color: lerp_rgba_spec(a.color, b.color, e),
        width: lerp_spec(a.width as int, b.width as int, e) as u32,
        height: lerp_spec(a.height as int, b.height as int, e) as u32,
        margin: Edge {
            top: lerp_spec(a.margin.top as int, b.margin.top as int, e) as u32,
            right: lerp_spec(a.margin.right as int, b.margin.right as int, e) as u32,
            bottom: lerp_spec(a.margin.bottom as int, b.margin.bottom as int, e) as u32,
            left: lerp_spec(a.margin.left as int, b.margin.left as int, e) as u32,
        },
        font_size: lerp_spec(a.font_size as int, b.font_size as int, e) as u32,
    }
}

/// At fraction zero interpolation returns the source keyframe; at the full
/// fraction it returns the target keyframe.
pub proof fn lemma_lerp_style_endpoints(a: Style, b: Style)
    ensures
        lerp_style_spec(a, b, 0) == a,
        lerp_style_spec(a, b, EASE_ONE as int) == b,
{
    lemma_lerp_bounds(a.width as int, b.width as int, 0);
    lemma_lerp_bounds(a.height as int, b.height as int, 0);
    lemma_lerp_bounds(a.font_size as int, b.font_size as int, 0);
    lemma_lerp_bounds(a.margin.top as int, b.margin.top as int, 0);
    lemma_lerp_bounds(a.margin.right as int, b.margin.right as int, 0);
    lemma_lerp_bounds(a.margin.bottom as int, b.margin.bottom as int, 0);
    lemma_lerp_bounds(a.margin.left as int, b.margin.left as int, 0);
    lemma_lerp_bounds(a.background_color.red as int, b.background_color.red as int, 0);
    lemma_lerp_bounds(a.background_color.green as int, b.background_color.green as int, 0);
    lemma_lerp_bounds(a.background_color.blue as int, b.background_color.blue as int, 0);
    lemma_lerp_bounds(a.background_color.alpha as int, b.background_color.alpha as int, 0);
    lemma_lerp_bounds(a.color.red as int, b.color.red as int, 0);
    lemma_lerp_bounds(a.color.green as int, b.color.green as int, 0);
    lemma_lerp_bounds(a.color.blue as int, b.color.blue as int, 0);
    lemma_lerp_bounds(a.color.alpha as int, b.color.alpha as int, 0);
    let full = EASE_ONE as int;
    lemma_lerp_bounds(a.width as int, b.width as int, full);
    lemma_lerp_bounds(a.height as int, b.height as int, full);
    lemma_lerp_bounds(a.font_size as int, b.font_size as int, full);
    lemma_lerp_bounds(a.margin.top as int, b.margin.top as int, full);
    lemma_lerp_bounds(a.margin.right as int, b.margin.right as int, full);
    lemma_lerp_bounds(a.margin.bottom as int, b.margin.bottom as int, full);
    lemma_lerp_bounds(a.margin.left as int, b.margin.left as int, full);
    lemma_lerp_bounds(a.background_color.red as int, b.background_color.red as int, full);
    lemma_lerp_bounds(a.background_color.green as int, b.background_color.green as int, full);
    lemma_lerp_bounds(a.background_color.blue as int, b.background_color.blue as int, full);
    lemma_lerp_bounds(a.background_color.alpha as int, b.background_color.alpha as int, full);
    lemma_lerp_bounds(a.color.red as int, b.color.red as int, full);
    lemma_lerp_bounds(a.color.green as int, b.color.green as int, full);
    lemma_lerp_bounds(a.color.blue as int, b.color.blue as int, full);
    lemma_lerp_bounds(a.color.alpha as int, b.color.alpha as int, full);
}

/// Interpolates a whole keyframe pair.
pub fn lerp_style(a: &Style, b: &Style, e: u64) -> (r: Style)
    requires
        e <= EASE_ONE,
    ensures
        r == lerp_style_spec(*a, *b, e as int),
{
    Style {
        position: if e > 0 {
            b.position
        } else {
            a.position
        },
        display: if e > 0 {
            b.display
        } else {
            a.display
        },
        background_color: lerp_rgba(&a.background_color, &b.background_color, e),
        color: lerp_rgba(&a.color, &b.color, e),
        width: lerp_u32(a.width, b.width, e),
        height: lerp_u32(a.height, b.height, e),
        margin: Edge {
            top: lerp_u32(a.margin.top, b.margin.top, e),
            right: lerp_u32(a.margin.right, b.margin.right, e),
            bottom: lerp_u32(a.margin.bottom, b.margin.bottom, e),
            left: lerp_u32(a.margin.left, b.margin.left, e),
        },
        font_size: lerp_u32(a.font_size, b.font_size, e),
    }
}

} // verus!
