//! Colors and their conversion into the rasterizer's channel order.
use vstd::prelude::*;

verus! {

/// A color with four 8-bit channels.
#[derive(Clone, Copy, Debug, PartialEq, Eq, Structural)]
pub struct Color {
    pub r: u8,
    pub g: u8,
    pub b: u8,
    pub a: u8,
}

/// Scales the alpha channel `a` by a global alpha, both read as fractions of 255,
/// rounding to the nearest step.
pub open spec fn scale_alpha(a: u8, global_alpha: u8) -> u8 {
    ((a as int * global_alpha as int + 127) / 255) as u8
}

/// The four bytes that the rasterizer receives for `c` under `global_alpha`:
/// the red and blue channels change places, and the alpha channel is scaled.
pub open spec fn backend_channels(c: Color, global_alpha: u8) -> Seq<u8> {
    seq![c.b, c.g, c.r, scale_alpha(c.a, global_alpha)]
}

impl Color {
    /// Creates a color from its red, green, blue and alpha channels.
    pub fn rgba(r: u8, g: u8, b: u8, a: u8) -> (c: Color)
        ensures
            c == (Color { r, g, b, a }),
    {
        Color { r, g, b, a }
    }

    /// Creates an opaque color.
    pub fn rgb(r: u8, g: u8, b: u8) -> (c: Color)
        ensures
            c == (Color { r, g, b, a: 255 }),
    {
        Color { r, g, b, a: 255 }
    }

    /// The fully transparent black that brushes and backgrounds start from.
    pub fn transparent() -> (c: Color)
        ensures
            c == (Color { r: 0, g: 0, b: 0, a: 0 }),
    {
        Color { r: 0, g: 0, b: 0, a: 0 }
    }

    pub fn r(&self) -> (v: u8)
        ensures
            v == self.r,
    {
        self.r
    }

    pub fn g(&self) -> (v: u8)
        ensures
            v == self.g,
    {
        self.g
    }

    pub fn b(&self) -> (v: u8)
        ensures
            v == self.b,
    {
        self.b
    }

    pub fn a(&self) -> (v: u8)
        ensures
            v == self.a,
    {
        self.a
    }
}

/// Multiplies an alpha channel by a global alpha, both fractions of 255.
pub fn scaled_alpha(a: u8, global_alpha: u8) -> (r: u8)
    ensures
        r == scale_alpha(a, global_alpha),
{
    assert(a as int * global_alpha as int <= 255 * 255) by (nonlinear_arith)
        requires
            a <= 255,
            global_alpha <= 255,
    ;
    let p: u32 = a as u32 * global_alpha as u32;
    ((p + 127) / 255) as u8
}

/// Converts a color into the byte order of the pixel buffer (blue, green,
/// red, alpha), with its alpha scaled by `global_alpha`.
pub fn to_backend(c: Color, global_alpha: u8) -> (r: [u8; 4])
    ensures
        r@ == backend_channels(c, global_alpha),
{
    let a = scaled_alpha(c.a, global_alpha);
    let r = [c.b, c.g, c.r, a];
    assert(r@ =~= backend_channels(c, global_alpha));
    r
}

} // verus!
