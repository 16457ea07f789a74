//! RGBA colours: conversion to channel bytes and interpolation between two colours.

use vstd::prelude::*;

verus! {

/// Progress of an interpolation is a fraction of `PROGRESS_MAX`.
pub const PROGRESS_MAX: u16 = 65535;

/// An RGBA colour, one byte per component.
#[derive(Clone, Copy, Debug, PartialEq, Eq, Structural)]
pub struct Colour {
    pub r: u8,
    pub g: u8,
    pub b: u8,
    pub a: u8,
}

/// The byte at `progress / 65535` of the way from `a` to `b`, rounded to the nearest.
pub open spec fn lerp_byte(a: u8, b: u8, progress: u16) -> int {
    if a <= b {
        a + ((b - a) * progress + 32767) / 65535
    } else {
        a - ((a - b) * progress + 32767) / 65535
    }
}

/// The colour at `progress / 65535` of the way from `start` to `end`, each component by itself.
pub open spec fn lerp_colour(start: Colour, end: Colour, progress: u16) -> Colour {
    Colour {
        r: lerp_byte(start.r, end.r, progress) as u8,
        g: lerp_byte(start.g, end.g, progress) as u8,
        b: lerp_byte(start.b, end.b, progress) as u8,
        a: lerp_byte(start.a, end.a, progress) as u8,
    }
}

/// An interpolated byte never leaves the range spanned by its two ends.
pub proof fn lemma_lerp_byte_range(a: u8, b: u8, progress: u16)
    ensures
        a <= b ==> a <= lerp_byte(a, b, progress) <= b,
        b <= a ==> b <= lerp_byte(a, b, progress) <= a,
{
    let d: int = if a <= b { b - a } else { a - b };
    let p: int = progress as int;
    assert(0 <= d * p <= d * 65535) by (nonlinear_arith)
        requires
            0 <= d,
            0 <= p <= 65535,
    ;
}

impl Colour {
    /// The colour with full alpha and the same red, green and blue.
    pub fn to_opaque(&self) -> (c: Colour)
        ensures
            c == (Colour { a: 255, ..*self }),
    {
        Colour { r: self.r, g: self.g, b: self.b, a: 255 }
    }

    /// The same colour with another alpha.
    pub fn with_alpha(&self, alpha: u8) -> (c: Colour)
        ensures
            c == (Colour { a: alpha, ..*self }),
    {
        Colour { r: self.r, g: self.g, b: self.b, a: alpha }
    }

    /// The white (or lime) mix of an additive fixture: the inverse of alpha, so that
    /// full alpha mixes in no white and zero alpha mixes in full white.
    pub fn white_mix(&self) -> (w: u8)
        ensures
            w == 255 - self.a,
    {
        255 - self.a
    }

    /// Cyan, magenta and yellow of a subtractive fixture: the inverse of red, green and blue.
    pub fn to_cmy(&self) -> (cmy: (u8, u8, u8))
        ensures
            cmy.0 == 255 - self.r,
            cmy.1 == 255 - self.g,
            cmy.2 == 255 - self.b,
    {
        (255 - self.r, 255 - self.g, 255 - self.b)
    }
}

/// The colour that a colour macro holds before anything has set it: light yellow.
pub fn default_rgb() -> (c: Colour)
    ensures
        c == (Colour { r: 255, g: 255, b: 224, a: 255 }),
{
    Colour { r: 255, g: 255, b: 224, a: 255 }
}

/// Interpolates one byte.
pub fn linear_interpolate_u8(a: u8, b: u8, t: u16) -> (v: u8)
    ensures
        v == lerp_byte(a, b, t),
        t == 0 ==> v == a,
        t == 65535 ==> v == b,
{
    proof {
        lemma_lerp_byte_range(a, b, t);
    }
    if a <= b {
        let d: u32 = (b - a) as u32;
        assert(0 <= d * t <= d * 65535 && (t == 0 ==> d * t == 0) && (t == 65535 ==> d * t == d * 65535))
            by (nonlinear_arith)
            requires
                0 <= d <= 255,
                0 <= t <= 65535,
        ;
        let step: u32 = (d * (t as u32) + 32767) / 65535;
        a + (step as u8)
    } else {
        let d: u32 = (a - b) as u32;
        assert(0 <= d * t <= d * 65535 && (t == 0 ==> d * t == 0) && (t == 65535 ==> d * t == d * 65535))
            by (nonlinear_arith)
            requires
                0 <= d <= 255,
                0 <= t <= 65535,
        ;
        let step: u32 = (d * (t as u32) + 32767) / 65535;
        a - (step as u8)
    }
}

/// Interpolates a colour, each component by itself.
pub fn animate_colour(start_colour: &Colour, end_colour: &Colour, progress: u16) -> (c: Colour)
    ensures
        c == lerp_colour(*start_colour, *end_colour, progress),
{
    let r = linear_interpolate_u8(start_colour.r, end_colour.r, progress);
    let g = linear_interpolate_u8(start_colour.g, end_colour.g, progress);
    let b = linear_interpolate_u8(start_colour.b, end_colour.b, progress);
    let a = linear_interpolate_u8(start_colour.a, end_colour.a, progress);
    Colour { r, g, b, a }
}

/// At no progress the interpolated colour is the start colour, and at full progress
/// it is the end colour, both exactly.
pub proof fn lemma_lerp_colour_ends(start: Colour, end: Colour)
    ensures
        lerp_colour(start, end, 0) == start,
        lerp_colour(start, end, PROGRESS_MAX) == end,
{
}

} // verus!
