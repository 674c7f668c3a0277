//! The color value type and its conversions to and from the native layout.
//!
//! A color is four 8-bit channels. Crossing into the native library it is
//! copied field for field into the native struct layout; coming back it is
//! copied field for field again. The hexadecimal packing used by the native
//! palette helpers is `0xRRGGBBAA`: red in the top byte, alpha in the
//! bottom. Both conversions are proved to be inverses.

use vstd::prelude::*;

use crate::native;

verus! {

/// An RGBA color, 8 bits per channel.
#[derive(Debug, Copy, Clone, PartialEq, Eq, Hash, Structural)]
pub struct Color {
    pub r: u8,
    pub g: u8,
    pub b: u8,
    pub a: u8,
}

/// The native layout a color takes when handed to the native library.
pub open spec fn to_native_spec(c: Color) -> native::Color {
    native::Color { r: c.r, g: c.g, b: c.b, a: c.a }
}

/// The color read back from a value in the native layout.
pub open spec fn of_native_spec(n: native::Color) -> Color {
    Color { r: n.r, g: n.g, b: n.b, a: n.a }
}

/// The hexadecimal packing of a color: `0xRRGGBBAA`.
pub open spec fn to_int_spec(c: Color) -> u32 {
    ((c.r as u32) << 24) | ((c.g as u32) << 16) | ((c.b as u32) << 8) | (c.a as u32)
}

/// The color whose hexadecimal packing is `v`.
pub open spec fn of_int_spec(v: u32) -> Color {
    Color {
        r: ((v >> 24) & 0xFF) as u8,
        g: ((v >> 16) & 0xFF) as u8,
        b: ((v >> 8) & 0xFF) as u8,
        a: (v & 0xFF) as u8,
    }
}

impl Color {
    /// Builds a color from its four channels.
    pub fn new(r: u8, g: u8, b: u8, a: u8) -> (c: Color)
        ensures
            c == (Color { r, g, b, a }),
    {
        Color { r, g, b, a }
    }

    /// Reads a color out of the native layout, channel by channel.
    pub fn from_raw(raw: native::Color) -> (c: Color)
        ensures
            c == of_native_spec(raw),
    {
        Color { r: raw.r, g: raw.g, b: raw.b, a: raw.a }
    }

    /// Lays a color out as the native library expects it, channel by
    /// channel.
    pub fn into_raw(self) -> (n: native::Color)
        ensures
            n == to_native_spec(self),
    {
        native::Color { r: self.r, g: self.g, b: self.b, a: self.a }
    }

    /// Returns the hexadecimal value `0xRRGGBBAA` for a color.
    pub fn to_int(self) -> (v: u32)
        ensures
            v == to_int_spec(self),
    {
        ((self.r as u32) << 24) | ((self.g as u32) << 16) | ((self.b as u32) << 8) | (self.a
            as u32)
    }

    /// Returns the color whose hexadecimal value is `value`.
    pub fn from_int(value: u32) -> (c: Color)
        ensures
            c == of_int_spec(value),
    {
        assert((value >> 24) & 0xFF < 256 && (value >> 16) & 0xFF < 256 && (value >> 8) & 0xFF
            < 256 && value & 0xFF < 256) by (bit_vector);
        Color {
            r: ((value >> 24) & 0xFF) as u8,
            g: ((value >> 16) & 0xFF) as u8,
            b: ((value >> 8) & 0xFF) as u8,
            a: (value & 0xFF) as u8,
        }
    }
}

/// Converting a color to the native layout and back yields the color it
/// started from.
pub proof fn lemma_color_native_round_trip(c: Color)
    ensures
        of_native_spec(to_native_spec(c)) == c,
{
}

/// Reading a native color value and laying it out again yields the value it
/// started from.
pub proof fn lemma_native_color_round_trip(n: native::Color)
    ensures
        to_native_spec(of_native_spec(n)) == n,
{
}

/// Packing a color into its hexadecimal value and unpacking it yields the
/// color it started from.
pub proof fn lemma_color_int_round_trip(c: Color)
    ensures
        of_int_spec(to_int_spec(c)) == c,
{
    let r = c.r;
    let g = c.g;
    let b = c.b;
    let a = c.a;
    let v = to_int_spec(c);
    assert(((v >> 24) & 0xFF) as u8 == r && ((v >> 16) & 0xFF) as u8 == g && ((v >> 8) & 0xFF)
        as u8 == b && (v & 0xFF) as u8 == a) by (bit_vector)
        requires
            v == ((r as u32) << 24) | ((g as u32) << 16) | ((b as u32) << 8) | (a as u32),
    ;
}

/// Unpacking a hexadecimal value into a color and packing it again yields
/// the value it started from.
pub proof fn lemma_int_color_round_trip(v: u32)
    ensures
        to_int_spec(of_int_spec(v)) == v,
{
    let c = of_int_spec(v);
    let r = c.r;
    let g = c.g;
    let b = c.b;
    let a = c.a;
    assert(((r as u32) << 24) | ((g as u32) << 16) | ((b as u32) << 8) | (a as u32) == v)
        by (bit_vector)
        requires
            r == ((v >> 24) & 0xFF) as u8 && g == ((v >> 16) & 0xFF) as u8 && b == ((v >> 8)
                & 0xFF) as u8 && a == (v & 0xFF) as u8,
    ;
}

} // verus!
