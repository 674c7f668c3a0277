//! The image header type and its conversions to and from the native
//! layout.
//!
//! An image's pixel buffer lives in native memory: the native library
//! allocates it in a load call and frees it in the matching unload call,
//! and this crate never reads, writes or frees it. The buffer's address is
//! carried through untouched as an opaque handle; the dimensions, mipmap
//! count and pixel format are plain values, and the format is decoded
//! through the exhaustive pixel-format mapping — a header whose format
//! integer is unknown decodes to nothing, which the caller must treat as a
//! fatal version mismatch.

use vstd::prelude::*;

use crate::native;
use crate::pixel_format::{pixel_format_of_raw, pixel_format_raw, PixelFormat};

verus! {

/// An image header: an opaque native pixel buffer with its dimensions,
/// mipmap count and pixel format.
#[derive(Debug, Clone, PartialEq, Eq, Structural)]
pub struct Image {
    /// The address of the native pixel buffer, opaque to this crate: only
    /// the native library ever reads or frees the memory behind it.
    pub data: usize,
    /// Image base width.
    pub width: i32,
    /// Image base height.
    pub height: i32,
    /// Mipmap levels, 1 by default.
    pub mipmaps: i32,
    /// Data format of the pixel buffer.
    pub format: PixelFormat,
}

impl Image {
    /// The native layout this header folds to: every field copied, the
    /// format as its native integer constant.
    pub open spec fn to_native_spec(self) -> native::Image {
        native::Image {
            data: self.data,
            width: self.width,
            height: self.height,
            mipmaps: self.mipmaps,
            format: pixel_format_raw(self.format),
        }
    }

    /// The header a native layout decodes to: every field copied when the
    /// format integer is a known constant, and nothing otherwise.
    pub open spec fn of_native_spec(raw: native::Image) -> Option<Image> {
        match pixel_format_of_raw(raw.format) {
            Some(format) => Some(
                Image {
                    data: raw.data,
                    width: raw.width,
                    height: raw.height,
                    mipmaps: raw.mipmaps,
                    format,
                },
            ),
            None => None,
        }
    }

    /// Reads an image header out of the native layout; a header whose
    /// format integer is outside the known constant set yields nothing,
    /// never a default.
    pub fn from_raw(raw: native::Image) -> (r: Option<Image>)
        ensures
            r == Image::of_native_spec(raw),
    {
        match PixelFormat::from_raw(raw.format) {
            Some(format) => Some(
                Image {
                    data: raw.data,
                    width: raw.width,
                    height: raw.height,
                    mipmaps: raw.mipmaps,
                    format,
                },
            ),
            None => None,
        }
    }

    /// Lays an image header out as the native library expects it, with the
    /// pixel format as its native integer constant.
    pub fn into_raw(self) -> (n: native::Image)
        ensures
            n == self.to_native_spec(),
    {
        let format = self.format.to_raw();
        native::Image {
            data: self.data,
            width: self.width,
            height: self.height,
            mipmaps: self.mipmaps,
            format,
        }
    }
}

/// Converting an image header to the native layout and back yields the
/// header it started from.
pub proof fn lemma_image_native_round_trip(img: Image)
    ensures
        Image::of_native_spec(img.to_native_spec()) == Some(img),
{
    crate::pixel_format::lemma_pixel_format_round_trip(img.format);
}

/// Reading a native layout whose format integer is known and laying the
/// header out again yields the layout it started from.
pub proof fn lemma_native_image_round_trip(raw: native::Image)
    requires
        pixel_format_of_raw(raw.format) is Some,
    ensures
        Image::of_native_spec(raw) is Some,
        Image::of_native_spec(raw).unwrap().to_native_spec() == raw,
{
    assert(1 <= raw.format <= 21) by {
        if !(1 <= raw.format <= 21) {
            assert(pixel_format_of_raw(raw.format) is None);
        }
    }
    crate::pixel_format::lemma_pixel_raw_round_trip(raw.format);
}

} // verus!
