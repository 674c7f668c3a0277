use raylib::flags::{ConfigFlag, ConfigFlags, LogType, LogTypes};
use raylib::gestures::{Gesture, Gestures};

#[test]
fn config_flags_empty_set() {
    let s = ConfigFlags::empty();
    assert_eq!(s.bits(), 0);
    assert_eq!(ConfigFlags::from_bits(0), Some(s));
}

#[test]
fn config_flags_single_flag() {
    let s = ConfigFlags::empty().with(ConfigFlag::VsyncHint);
    assert_eq!(s.bits(), 64);
    assert!(s.contains(ConfigFlag::VsyncHint));
    assert!(!s.contains(ConfigFlag::ShowLogo));
    assert_eq!(ConfigFlags::from_bits(s.bits()), Some(s));
}

#[test]
fn config_flags_full_set() {
    let s = ConfigFlags::all();
    assert_eq!(s.bits(), 0x7F);
    assert!(s.contains(ConfigFlag::ShowLogo));
    assert!(s.contains(ConfigFlag::FullscreenMode));
    assert!(s.contains(ConfigFlag::WindowResizable));
    assert!(s.contains(ConfigFlag::WindowUndecorated));
    assert!(s.contains(ConfigFlag::WindowTransparent));
    assert!(s.contains(ConfigFlag::Msaa4xHint));
    assert!(s.contains(ConfigFlag::VsyncHint));
    assert_eq!(ConfigFlags::from_bits(s.bits()), Some(s));
}

#[test]
fn config_flags_unknown_bit_is_refused() {
    assert_eq!(ConfigFlags::from_bits(0x80), None);
    assert_eq!(ConfigFlags::from_bits(0xFF), None);
}

#[test]
fn config_flags_union() {
    let a = ConfigFlags::empty().with(ConfigFlag::ShowLogo);
    let b = ConfigFlags::empty().with(ConfigFlag::Msaa4xHint);
    let u = a.union(b);
    assert_eq!(u.bits(), 1 | 32);
}

#[test]
fn config_flag_bits() {
    assert_eq!(ConfigFlag::ShowLogo.bit(), 1);
    assert_eq!(ConfigFlag::FullscreenMode.bit(), 2);
    assert_eq!(ConfigFlag::WindowResizable.bit(), 4);
    assert_eq!(ConfigFlag::WindowUndecorated.bit(), 8);
    assert_eq!(ConfigFlag::WindowTransparent.bit(), 16);
    assert_eq!(ConfigFlag::Msaa4xHint.bit(), 32);
    assert_eq!(ConfigFlag::VsyncHint.bit(), 64);
}

#[test]
fn log_types_empty_single_full() {
    assert_eq!(LogTypes::empty().bits(), 0);
    let s = LogTypes::empty().with(LogType::Warning);
    assert_eq!(s.bits(), 2);
    assert!(s.contains(LogType::Warning));
    assert!(!s.contains(LogType::Info));
    assert_eq!(LogTypes::all().bits(), 0x1F);
    assert_eq!(LogTypes::from_bits(2), Some(s));
    assert_eq!(LogTypes::from_bits(0x1F), Some(LogTypes::all()));
}

#[test]
fn log_types_unknown_bit_is_refused() {
    assert_eq!(LogTypes::from_bits(0x20), None);
}

#[test]
fn log_type_to_raw() {
    assert_eq!(LogType::Info.to_raw(), 1);
    assert_eq!(LogType::Warning.to_raw(), 2);
    assert_eq!(LogType::Error.to_raw(), 4);
    assert_eq!(LogType::Debug.to_raw(), 8);
    assert_eq!(LogType::Other.to_raw(), 16);
}

#[test]
fn gestures_empty_single_full() {
    assert_eq!(Gestures::empty().bits(), 0);
    let s = Gestures::empty().with(Gesture::SwipeDown);
    assert_eq!(s.bits(), 128);
    assert!(s.contains(Gesture::SwipeDown));
    assert!(!s.contains(Gesture::Tap));
    assert_eq!(Gestures::all().bits(), 0x3FF);
    assert_eq!(Gestures::from_bits(128), Some(s));
    assert_eq!(Gestures::from_bits(0x3FF), Some(Gestures::all()));
}

#[test]
fn gestures_unknown_bit_is_refused() {
    assert_eq!(Gestures::from_bits(0x400), None);
    assert_eq!(Gestures::from_bits(u32::MAX), None);
}

#[test]
fn gestures_build_and_query() {
    let s = Gestures::empty().with(Gesture::Tap).with(Gesture::Hold);
    assert_eq!(s.bits(), 1 | 4);
    assert!(s.contains(Gesture::Tap));
    assert!(s.contains(Gesture::Hold));
    assert!(!s.contains(Gesture::Drag));
}

#[test]
fn gesture_to_raw() {
    assert_eq!(Gesture::Tap.to_raw(), 1);
    assert_eq!(Gesture::DoubleTap.to_raw(), 2);
    assert_eq!(Gesture::Hold.to_raw(), 4);
    assert_eq!(Gesture::Drag.to_raw(), 8);
    assert_eq!(Gesture::SwipeRight.to_raw(), 16);
    assert_eq!(Gesture::SwipeLeft.to_raw(), 32);
    assert_eq!(Gesture::SwipeUp.to_raw(), 64);
    assert_eq!(Gesture::SwipeDown.to_raw(), 128);
    assert_eq!(Gesture::PinchIn.to_raw(), 256);
    assert_eq!(Gesture::PinchOut.to_raw(), 512);
}

#[test]
fn gesture_detection_decode() {
    assert_eq!(Gesture::from_raw(256), Some(Gesture::PinchIn));
    assert_eq!(Gesture::from_raw(512), Some(Gesture::PinchOut));
    assert_eq!(Gesture::from_raw(0), None);
    assert_eq!(Gesture::from_raw(3), None);
    assert_eq!(Gesture::from_raw(1024), None);
    for g in [
        Gesture::Tap,
        Gesture::DoubleTap,
        Gesture::Hold,
        Gesture::Drag,
        Gesture::SwipeRight,
        Gesture::SwipeLeft,
        Gesture::SwipeUp,
        Gesture::SwipeDown,
        Gesture::PinchIn,
        Gesture::PinchOut,
    ] {
        assert_eq!(Gesture::from_raw(g.to_raw()), Some(g));
    }
}
