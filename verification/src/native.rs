//! Mirrors of the native library's binary layouts and integer conventions.
//!
//! The native engine is plain C: structs passed by value, booleans reported
//! as an integer sentinel, enums and flag sets as integers, and opaque
//! buffers as raw pointers. The types here hold those values field for field
//! as plain data, so that every conversion between the safe types of this
//! crate and the native layout is stated and proved. The unsafe boundary
//! that reinterprets these values for the C ABI lives outside this crate.

use vstd::prelude::*;

verus! {

/// The integer the native library uses where C has no boolean type: a
/// comparison against this sentinel, never a nonzero test, decides truth.
pub const TRUE: i32 = 1;

/// The integer the native library uses for a false result.
pub const FALSE: i32 = 0;

/// A color in the native layout: four 8-bit channels, red, green, blue,
/// alpha, in that order.
#[derive(Debug, Copy, Clone, PartialEq, Eq, Hash, Structural)]
pub struct Color {
    pub r: u8,
    pub g: u8,
    pub b: u8,
    pub a: u8,
}

/// An image header in the native layout. The pixel buffer is opaque to this
/// crate: `data` carries the native pointer's address untouched, and only
/// the native library ever reads or frees the buffer behind it. The pixel
/// format is the raw integer constant, decoded by this crate's own image
/// type.
#[derive(Debug, Copy, Clone, PartialEq, Eq, Hash, Structural)]
pub struct Image {
    pub data: usize,
    pub width: i32,
    pub height: i32,
    pub mipmaps: i32,
    pub format: i32,
}

/// Decodes the native boolean convention: a result is true exactly when it
/// equals the native true sentinel.
pub fn bool_from_native(value: i32) -> (r: bool)
    ensures
        r == (value == TRUE),
{
    value == TRUE
}

} // verus!
