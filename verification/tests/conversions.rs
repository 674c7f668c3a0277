use raylib::color::Color;
use raylib::colors;
use raylib::image::Image;
use raylib::native;
use raylib::pixel_format::PixelFormat;

#[test]
fn color_new_fields() {
    let c = Color::new(1, 2, 3, 4);
    assert_eq!(c.r, 1);
    assert_eq!(c.g, 2);
    assert_eq!(c.b, 3);
    assert_eq!(c.a, 4);
}

#[test]
fn color_native_round_trip() {
    let c = Color::new(10, 20, 30, 40);
    let raw = c.into_raw();
    assert_eq!(raw.r, 10);
    assert_eq!(raw.g, 20);
    assert_eq!(raw.b, 30);
    assert_eq!(raw.a, 40);
    assert_eq!(Color::from_raw(raw), c);
}

#[test]
fn native_color_round_trip() {
    let raw = native::Color { r: 9, g: 8, b: 7, a: 6 };
    assert_eq!(Color::from_raw(raw).into_raw(), raw);
}

#[test]
fn color_to_int_exact() {
    assert_eq!(Color::new(0x12, 0x34, 0x56, 0x78).to_int(), 0x12345678);
    assert_eq!(Color::new(255, 255, 255, 255).to_int(), 0xFFFFFFFF);
    assert_eq!(Color::new(0, 0, 0, 0).to_int(), 0);
}

#[test]
fn color_from_int_exact() {
    assert_eq!(Color::from_int(0xAABBCCDD), Color::new(0xAA, 0xBB, 0xCC, 0xDD));
}

#[test]
fn color_int_round_trip() {
    let c = Color::new(200, 122, 255, 1);
    assert_eq!(Color::from_int(c.to_int()), c);
    let v: u32 = 0x01020304;
    assert_eq!(Color::from_int(v).to_int(), v);
}

#[test]
fn palette_values() {
    assert_eq!(colors::raywhite(), Color::new(245, 245, 245, 255));
    assert_eq!(colors::black(), Color::new(0, 0, 0, 255));
    assert_eq!(colors::blank(), Color::new(0, 0, 0, 0));
    assert_eq!(colors::maroon(), Color::new(190, 33, 55, 255));
}

#[test]
fn pixel_format_round_trip_all() {
    let variants = vec![
        PixelFormat::UncompressedGrayscale,
        PixelFormat::UncompressedGrayAlpha,
        PixelFormat::UncompressedR5g6b5,
        PixelFormat::UncompressedR8g8b8,
        PixelFormat::UncompressedR5g5b5a1,
        PixelFormat::UncompressedR4g4b4a4,
        PixelFormat::UncompressedR8g8b8a8,
        PixelFormat::UncompressedR32,
        PixelFormat::UncompressedR32g32b32,
        PixelFormat::UncompressedR32g32b32a32,
        PixelFormat::CompressedDxt1Rgb,
        PixelFormat::CompressedDxt1Rgba,
        PixelFormat::CompressedDxt3Rgba,
        PixelFormat::CompressedDxt5Rgba,
        PixelFormat::CompressedEtc1Rgb,
        PixelFormat::CompressedEtc2Rgb,
        PixelFormat::CompressedEtc2EacRgba,
        PixelFormat::CompressedPvrtRgb,
        PixelFormat::CompressedPvrtRgba,
        PixelFormat::CompressedAstc4x4Rgba,
        PixelFormat::CompressedAstc8x8Rgba,
    ];
    for (i, p) in variants.iter().enumerate() {
        let raw = p.to_raw();
        assert_eq!(raw, (i + 1) as i32);
        assert_eq!(PixelFormat::from_raw(raw), Some(*p));
    }
}

#[test]
fn pixel_format_unknown_is_refused() {
    assert_eq!(PixelFormat::from_raw(0), None);
    assert_eq!(PixelFormat::from_raw(22), None);
    assert_eq!(PixelFormat::from_raw(-1), None);
    assert_eq!(PixelFormat::from_raw(i32::MAX), None);
}

#[test]
fn image_round_trip() {
    let raw = native::Image { data: 0x1000, width: 640, height: 480, mipmaps: 1, format: 7 };
    let img = Image::from_raw(raw).unwrap();
    assert_eq!(img.width, 640);
    assert_eq!(img.height, 480);
    assert_eq!(img.mipmaps, 1);
    assert_eq!(img.format, PixelFormat::UncompressedR8g8b8a8);
    assert_eq!(img.into_raw(), raw);
}

#[test]
fn image_unknown_format_is_refused() {
    let raw = native::Image { data: 0, width: 1, height: 1, mipmaps: 1, format: 99 };
    assert_eq!(Image::from_raw(raw), None);
}
