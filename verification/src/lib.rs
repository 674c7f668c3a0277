//! A safe, verified wrapper layer for a native 2D/3D graphics library.
//!
//! The native engine (window management, input, drawing, audio) is a
//! precompiled C library; every call into it crosses an unsafe boundary that
//! lives outside this crate. What this crate holds, and proves correct, is
//! everything on the near side of that boundary: the value types mirrored
//! from the native ABI (colors, images, pixel formats), the bit-flag set
//! abstractions folded to and from native integers, the boolean-sentinel and
//! enum decoding rules, text marshaling to null-terminated buffers, the
//! file-path string queries, and the build-time platform-resolution table
//! that selects the native binary archive.

pub mod color;
pub mod colors;
pub mod files;
pub mod flags;
pub mod gestures;
pub mod image;
pub mod marshal;
pub mod native;
pub mod pixel_format;
pub mod platform;

pub use color::Color;
pub use flags::{ConfigFlag, ConfigFlags, LogType, LogTypes};
pub use gestures::{Gesture, Gestures};
pub use image::Image;
pub use pixel_format::PixelFormat;
