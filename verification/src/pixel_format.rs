//! The pixel-format enumeration and its exhaustive mapping to the native
//! integer constants.
//!
//! The native library names each pixel format by an integer constant. The
//! mapping here is exhaustive in both directions: every variant converts to
//! its constant, every known constant converts back to its variant, and an
//! integer outside the known constant set decodes to nothing — the caller
//! must treat that as a fatal version mismatch, never substitute a default.

use vstd::prelude::*;

verus! {

/// Pixel formats of image and texture data, one per native integer
/// constant.
#[derive(Debug, Copy, Clone, PartialEq, Eq, Hash, Structural)]
pub enum PixelFormat {
    /// 8 bit per pixel (no alpha).
    UncompressedGrayscale,
    /// 8*2 bpp (2 channels).
    UncompressedGrayAlpha,
    /// 16 bpp.
    UncompressedR5g6b5,
    /// 24 bpp.
    UncompressedR8g8b8,
    /// 16 bpp (1 bit alpha).
    UncompressedR5g5b5a1,
    /// 16 bpp (4 bit alpha).
    UncompressedR4g4b4a4,
    /// 32 bpp.
    UncompressedR8g8b8a8,
    /// 32 bpp (1 channel - float).
    UncompressedR32,
    /// 32*3 bpp (3 channels - float).
    UncompressedR32g32b32,
    /// 32*4 bpp (4 channels - float).
    UncompressedR32g32b32a32,
    /// 4 bpp (no alpha).
    CompressedDxt1Rgb,
    /// 4 bpp (1 bit alpha).
    CompressedDxt1Rgba,
    /// 8 bpp.
    CompressedDxt3Rgba,
    /// 8 bpp.
    CompressedDxt5Rgba,
    /// 4 bpp.
    CompressedEtc1Rgb,
    /// 4 bpp.
    CompressedEtc2Rgb,
    /// 8 bpp.
    CompressedEtc2EacRgba,
    /// 4 bpp.
    CompressedPvrtRgb,
    /// 4 bpp.
    CompressedPvrtRgba,
    /// 8 bpp.
    CompressedAstc4x4Rgba,
    /// 2 bpp.
    CompressedAstc8x8Rgba,
}

/// The native integer constant of each pixel format.
pub open spec fn pixel_format_raw(p: PixelFormat) -> i32 {
    match p {
        PixelFormat::UncompressedGrayscale => 1,
        PixelFormat::UncompressedGrayAlpha => 2,
        PixelFormat::UncompressedR5g6b5 => 3,
        PixelFormat::UncompressedR8g8b8 => 4,
        PixelFormat::UncompressedR5g5b5a1 => 5,
        PixelFormat::UncompressedR4g4b4a4 => 6,
        PixelFormat::UncompressedR8g8b8a8 => 7,
        PixelFormat::UncompressedR32 => 8,
        PixelFormat::UncompressedR32g32b32 => 9,
        PixelFormat::UncompressedR32g32b32a32 => 10,
        PixelFormat::CompressedDxt1Rgb => 11,
        PixelFormat::CompressedDxt1Rgba => 12,
        PixelFormat::CompressedDxt3Rgba => 13,
        PixelFormat::CompressedDxt5Rgba => 14,
        PixelFormat::CompressedEtc1Rgb => 15,
        PixelFormat::CompressedEtc2Rgb => 16,
        PixelFormat::CompressedEtc2EacRgba => 17,
        PixelFormat::CompressedPvrtRgb => 18,
        PixelFormat::CompressedPvrtRgba => 19,
        PixelFormat::CompressedAstc4x4Rgba => 20,
        PixelFormat::CompressedAstc8x8Rgba => 21,
    }
}

/// The pixel format a native integer decodes to: each known constant names
/// its variant, and any other integer names none.
pub open spec fn pixel_format_of_raw(v: i32) -> Option<PixelFormat> {
    if v == 1 {
        Some(PixelFormat::UncompressedGrayscale)
    } else if v == 2 {
        Some(PixelFormat::UncompressedGrayAlpha)
    } else if v == 3 {
        Some(PixelFormat::UncompressedR5g6b5)
    } else if v == 4 {
        Some(PixelFormat::UncompressedR8g8b8)
    } else if v == 5 {
        Some(PixelFormat::UncompressedR5g5b5a1)
    } else if v == 6 {
        Some(PixelFormat::UncompressedR4g4b4a4)
    } else if v == 7 {
        Some(PixelFormat::UncompressedR8g8b8a8)
    } else if v == 8 {
        Some(PixelFormat::UncompressedR32)
    } else if v == 9 {
        Some(PixelFormat::UncompressedR32g32b32)
    } else if v == 10 {
        Some(PixelFormat::UncompressedR32g32b32a32)
    } else if v == 11 {
        Some(PixelFormat::CompressedDxt1Rgb)
    } else if v == 12 {
        Some(PixelFormat::CompressedDxt1Rgba)
    } else if v == 13 {
        Some(PixelFormat::CompressedDxt3Rgba)
    } else if v == 14 {
        Some(PixelFormat::CompressedDxt5Rgba)
    } else if v == 15 {
        Some(PixelFormat::CompressedEtc1Rgb)
    } else if v == 16 {
        Some(PixelFormat::CompressedEtc2Rgb)
    } else if v == 17 {
        Some(PixelFormat::CompressedEtc2EacRgba)
    } else if v == 18 {
        Some(PixelFormat::CompressedPvrtRgb)
    } else if v == 19 {
        Some(PixelFormat::CompressedPvrtRgba)
    } else if v == 20 {
        Some(PixelFormat::CompressedAstc4x4Rgba)
    } else if v == 21 {
        Some(PixelFormat::CompressedAstc8x8Rgba)
    } else {
        None
    }
}

impl PixelFormat {
    /// The native integer constant of this pixel format.
    pub fn to_raw(self) -> (v: i32)
        ensures
            v == pixel_format_raw(self),
    {
        match self {
            PixelFormat::UncompressedGrayscale => 1,
            PixelFormat::UncompressedGrayAlpha => 2,
            PixelFormat::UncompressedR5g6b5 => 3,
            PixelFormat::UncompressedR8g8b8 => 4,
            PixelFormat::UncompressedR5g5b5a1 => 5,
            PixelFormat::UncompressedR4g4b4a4 => 6,
            PixelFormat::UncompressedR8g8b8a8 => 7,
            PixelFormat::UncompressedR32 => 8,
            PixelFormat::UncompressedR32g32b32 => 9,
            PixelFormat::UncompressedR32g32b32a32 => 10,
            PixelFormat::CompressedDxt1Rgb => 11,
            PixelFormat::CompressedDxt1Rgba => 12,
            PixelFormat::CompressedDxt3Rgba => 13,
            PixelFormat::CompressedDxt5Rgba => 14,
            PixelFormat::CompressedEtc1Rgb => 15,
            PixelFormat::CompressedEtc2Rgb => 16,
            PixelFormat::CompressedEtc2EacRgba => 17,
            PixelFormat::CompressedPvrtRgb => 18,
            PixelFormat::CompressedPvrtRgba => 19,
            PixelFormat::CompressedAstc4x4Rgba => 20,
            PixelFormat::CompressedAstc8x8Rgba => 21,
        }
    }

    /// Decodes a native integer constant; an integer outside the known
    /// constant set yields nothing, never a default variant.
    pub fn from_raw(v: i32) -> (r: Option<PixelFormat>)
        ensures
            r == pixel_format_of_raw(v),
    {
        if v == 1 {
            Some(PixelFormat::UncompressedGrayscale)
        } else if v == 2 {
            Some(PixelFormat::UncompressedGrayAlpha)
        } else if v == 3 {
            Some(PixelFormat::UncompressedR5g6b5)
        } else if v == 4 {
            Some(PixelFormat::UncompressedR8g8b8)
        } else if v == 5 {
            Some(PixelFormat::UncompressedR5g5b5a1)
        } else if v == 6 {
            Some(PixelFormat::UncompressedR4g4b4a4)
        } else if v == 7 {
            Some(PixelFormat::UncompressedR8g8b8a8)
        } else if v == 8 {
            Some(PixelFormat::UncompressedR32)
        } else if v == 9 {
            Some(PixelFormat::UncompressedR32g32b32)
        } else if v == 10 {
            Some(PixelFormat::UncompressedR32g32b32a32)
        } else if v == 11 {
            Some(PixelFormat::CompressedDxt1Rgb)
        } else if v == 12 {
            Some(PixelFormat::CompressedDxt1Rgba)
        } else if v == 13 {
            Some(PixelFormat::CompressedDxt3Rgba)
        } else if v == 14 {
            Some(PixelFormat::CompressedDxt5Rgba)
        } else if v == 15 {
            Some(PixelFormat::CompressedEtc1Rgb)
        } else if v == 16 {
            Some(PixelFormat::CompressedEtc2Rgb)
        } else if v == 17 {
            Some(PixelFormat::CompressedEtc2EacRgba)
        } else if v == 18 {
            Some(PixelFormat::CompressedPvrtRgb)
        } else if v == 19 {
            Some(PixelFormat::CompressedPvrtRgba)
        } else if v == 20 {
            Some(PixelFormat::CompressedAstc4x4Rgba)
        } else if v == 21 {
            Some(PixelFormat::CompressedAstc8x8Rgba)
        } else {
            None
        }
    }
}

/// Converting a pixel format to its native integer and back yields the
/// variant it started from.
pub proof fn lemma_pixel_format_round_trip(p: PixelFormat)
    ensures
        pixel_format_of_raw(pixel_format_raw(p)) == Some(p),
{
}

/// Decoding a known native constant and converting the variant back yields
/// the constant it started from.
pub proof fn lemma_pixel_raw_round_trip(v: i32)
    requires
        1 <= v <= 21,
    ensures
        pixel_format_of_raw(v) is Some,
        pixel_format_raw(pixel_format_of_raw(v).unwrap()) == v,
{
}

} // verus!
