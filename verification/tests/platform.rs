use raylib::platform;

#[test]
fn apple_targets_resolve_to_macos_archive() {
    assert_eq!(
        platform::release_suffix_for_target("x86_64-apple-darwin"),
        Some(String::from("macOS.tar.gz"))
    );
}

#[test]
fn linux_64_bit_target_resolves() {
    assert_eq!(
        platform::release_suffix_for_target("x86_64-unknown-linux-gnu"),
        Some(String::from("Linux-amd64.tar.gz"))
    );
}

#[test]
fn linux_32_bit_target_resolves() {
    assert_eq!(
        platform::release_suffix_for_target("i686-unknown-linux-gnu"),
        Some(String::from("Linux-i386.tar.gz"))
    );
}

#[test]
fn windows_64_bit_targets_resolve_by_toolchain() {
    assert_eq!(
        platform::release_suffix_for_target("x86_64-pc-windows-gnu"),
        Some(String::from("Win64-mingw.zip"))
    );
    assert_eq!(
        platform::release_suffix_for_target("x86_64-pc-windows-msvc"),
        Some(String::from("Win64-msvc15.zip"))
    );
}

#[test]
fn windows_32_bit_targets_resolve_by_toolchain() {
    assert_eq!(
        platform::release_suffix_for_target("i686-pc-windows-gnu"),
        Some(String::from("Win32-mingw.zip"))
    );
    assert_eq!(
        platform::release_suffix_for_target("i686-pc-windows-msvc"),
        Some(String::from("Win32-msvc15.zip"))
    );
}

#[test]
fn other_targets_are_unsupported() {
    assert_eq!(platform::release_suffix_for_target("wasm32-unknown-unknown"), None);
    assert_eq!(platform::release_suffix_for_target("arm-unknown-linux-gnueabihf"), None);
    assert_eq!(platform::release_suffix_for_target("aarch64-unknown-none"), None);
    assert_eq!(platform::release_suffix_for_target(""), None);
}

#[test]
fn release_url_joins_pinned_location_and_suffix() {
    assert_eq!(
        platform::release_url_for_target("x86_64-unknown-linux-gnu"),
        Some(String::from(
            "https://github.com/raysan5/raylib/releases/download/2.0.0/raylib-2.0.0-Linux-amd64.tar.gz"
        ))
    );
    assert_eq!(platform::release_url_for_target("wasm32-unknown-unknown"), None);
}

#[test]
fn substring_search_finds_runs() {
    assert!(platform::str_contains("hello", "ell"));
    assert!(platform::str_contains("hello", "hello"));
    assert!(platform::str_contains("hello", ""));
    assert!(platform::str_contains("", ""));
    assert!(!platform::str_contains("hello", "xyz"));
    assert!(!platform::str_contains("he", "hello"));
}
