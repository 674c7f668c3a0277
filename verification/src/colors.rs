//! The named color palette of the native library.
//!
//! Each entry returns the palette color with its exact channel values
//! stated in the contract.

use vstd::prelude::*;

use crate::color::Color;

verus! {

/// Light gray.
pub fn lightgray() -> (c: Color)
    ensures
        c == (Color { r: 200, g: 200, b: 200, a: 255 }),
{
    Color::new(200, 200, 200, 255)
}

/// Gray.
pub fn gray() -> (c: Color)
    ensures
        c == (Color { r: 130, g: 130, b: 130, a: 255 }),
{
    Color::new(130, 130, 130, 255)
}

/// Dark gray.
pub fn darkgray() -> (c: Color)
    ensures
        c == (Color { r: 80, g: 80, b: 80, a: 255 }),
{
    Color::new(80, 80, 80, 255)
}

/// Yellow.
pub fn yellow() -> (c: Color)
    ensures
        c == (Color { r: 253, g: 249, b: 0, a: 255 }),
{
    Color::new(253, 249, 0, 255)
}

/// Gold.
pub fn gold() -> (c: Color)
    ensures
        c == (Color { r: 255, g: 203, b: 0, a: 255 }),
{
    Color::new(255, 203, 0, 255)
}

/// Orange.
pub fn orange() -> (c: Color)
    ensures
        c == (Color { r: 255, g: 161, b: 0, a: 255 }),
{
    Color::new(255, 161, 0, 255)
}

/// Pink.
pub fn pink() -> (c: Color)
    ensures
        c == (Color { r: 255, g: 109, b: 194, a: 255 }),
{
    Color::new(255, 109, 194, 255)
}

/// Red.
pub fn red() -> (c: Color)
    ensures
        c == (Color { r: 230, g: 41, b: 55, a: 255 }),
{
    Color::new(230, 41, 55, 255)
}

/// Maroon.
pub fn maroon() -> (c: Color)
    ensures
        c == (Color { r: 190, g: 33, b: 55, a: 255 }),
{
    Color::new(190, 33, 55, 255)
}

/// Green.
pub fn green() -> (c: Color)
    ensures
        c == (Color { r: 0, g: 228, b: 48, a: 255 }),
{
    Color::new(0, 228, 48, 255)
}

/// Lime.
pub fn lime() -> (c: Color)
    ensures
        c == (Color { r: 0, g: 159, b: 47, a: 255 }),
{
    Color::new(0, 159, 47, 255)
}

/// Dark green.
pub fn darkgreen() -> (c: Color)
    ensures
        c == (Color { r: 0, g: 117, b: 44, a: 255 }),
{
    Color::new(0, 117, 44, 255)
}

/// Sky blue.
pub fn skyblue() -> (c: Color)
    ensures
        c == (Color { r: 102, g: 191, b: 255, a: 255 }),
{
    Color::new(102, 191, 255, 255)
}

/// Blue.
pub fn blue() -> (c: Color)
    ensures
        c == (Color { r: 0, g: 121, b: 241, a: 255 }),
{
    Color::new(0, 121, 241, 255)
}

/// Dark blue.
pub fn darkblue() -> (c: Color)
    ensures
        c == (Color { r: 0, g: 82, b: 172, a: 255 }),
{
    Color::new(0, 82, 172, 255)
}

/// Purple.
pub fn purple() -> (c: Color)
    ensures
        c == (Color { r: 200, g: 122, b: 255, a: 255 }),
{
    Color::new(200, 122, 255, 255)
}

/// Violet.
pub fn violet() -> (c: Color)
    ensures
        c == (Color { r: 135, g: 60, b: 190, a: 255 }),
{
    Color::new(135, 60, 190, 255)
}

/// Dark purple.
pub fn darkpurple() -> (c: Color)
    ensures
        c == (Color { r: 112, g: 31, b: 126, a: 255 }),
{
    Color::new(112, 31, 126, 255)
}

/// Beige.
pub fn beige() -> (c: Color)
    ensures
        c == (Color { r: 211, g: 176, b: 131, a: 255 }),
{
    Color::new(211, 176, 131, 255)
}

/// Brown.
pub fn brown() -> (c: Color)
    ensures
        c == (Color { r: 127, g: 106, b: 79, a: 255 }),
{
    Color::new(127, 106, 79, 255)
}

/// Dark brown.
pub fn darkbrown() -> (c: Color)
    ensures
        c == (Color { r: 76, g: 63, b: 47, a: 255 }),
{
    Color::new(76, 63, 47, 255)
}

/// White.
pub fn white() -> (c: Color)
    ensures
        c == (Color { r: 255, g: 255, b: 255, a: 255 }),
{
    Color::new(255, 255, 255, 255)
}

/// Black.
pub fn black() -> (c: Color)
    ensures
        c == (Color { r: 0, g: 0, b: 0, a: 255 }),
{
    Color::new(0, 0, 0, 255)
}

/// Blank (transparent).
pub fn blank() -> (c: Color)
    ensures
        c == (Color { r: 0, g: 0, b: 0, a: 0 }),
{
    Color::new(0, 0, 0, 0)
}

/// Magenta.
pub fn magenta() -> (c: Color)
    ensures
        c == (Color { r: 255, g: 0, b: 255, a: 255 }),
{
    Color::new(255, 0, 255, 255)
}

/// Ray white.
pub fn raywhite() -> (c: Color)
    ensures
        c == (Color { r: 245, g: 245, b: 245, a: 255 }),
{
    Color::new(245, 245, 245, 255)
}

} // verus!
