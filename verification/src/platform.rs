//! Build-time platform resolution: which prebuilt native release archive a
//! build target gets.
//!
//! The native library ships as precompiled archives, one per platform. A
//! build target string resolves by this table, read top to bottom:
//!
//! | target contains              | archive suffix        |
//! |------------------------------|-----------------------|
//! | `apple`                      | `macOS.tar.gz`        |
//! | `linux` and `x86_64`         | `Linux-amd64.tar.gz`  |
//! | `linux` and `i686`           | `Linux-i386.tar.gz`   |
//! | `windows`, `x86_64`, `gnu`   | `Win64-mingw.zip`     |
//! | `windows`, `x86_64`, `msvc`  | `Win64-msvc15.zip`    |
//! | `windows`, other, `gnu`      | `Win32-mingw.zip`     |
//! | `windows`, other, `msvc`     | `Win32-msvc15.zip`    |
//! | anything else                | none: unsupported     |
//!
//! An unsupported target resolves to nothing, and the build must abort
//! before any network activity.

use vstd::prelude::*;
use vstd::string::*;

verus! {

/// Whether the pattern occurs in `s` starting at position `i`.
pub open spec fn matches_at(s: Seq<char>, pattern: Seq<char>, i: int) -> bool {
    0 <= i && i + pattern.len() <= s.len() && s.subrange(i, i + pattern.len() as int)
        == pattern
}

/// Whether the pattern occurs anywhere in `s`.
pub open spec fn contains_pattern(s: Seq<char>, pattern: Seq<char>) -> bool {
    exists|i: int| matches_at(s, pattern, i)
}

/// Whether `s` holds the pattern as a contiguous run of characters.
pub fn str_contains(s: &str, pattern: &str) -> (r: bool)
    ensures
        r == contains_pattern(s@, pattern@),
{
    let n = s.unicode_len();
    let m = pattern.unicode_len();
    if m > n {
        proof {
            assert(!contains_pattern(s@, pattern@)) by {
                if contains_pattern(s@, pattern@) {
                    let j = choose|j: int| matches_at(s@, pattern@, j);
                }
            }
        }
        return false;
    }
    let mut i: usize = 0;
    while i <= n - m
        invariant
            m <= n,
            n == s@.len(),
            m == pattern@.len(),
            i <= n - m + 1,
            forall|j: int| 0 <= j < i ==> !matches_at(s@, pattern@, j),
        decreases n - m + 1 - i,
    {
        let mut k: usize = 0;
        while k < m && s.get_char(i + k) == pattern.get_char(k)
            invariant
                m <= n,
                n == s@.len(),
                m == pattern@.len(),
                i + m <= n,
                k <= m,
                forall|t: int| 0 <= t < k ==> s@[i + t] == pattern@[t],
            decreases m - k,
        {
            k = k + 1;
        }
        if k == m {
            proof {
                assert(s@.subrange(i as int, i + m as int) =~= pattern@);
                assert(matches_at(s@, pattern@, i as int));
            }
            return true;
        }
        proof {
            assert(!matches_at(s@, pattern@, i as int)) by {
                if matches_at(s@, pattern@, i as int) {
                    assert(s@.subrange(i as int, i + m as int)[k as int] == s@[i + k]);
                }
            }
        }
        i = i + 1;
    }
    proof {
        assert(!contains_pattern(s@, pattern@)) by {
            if contains_pattern(s@, pattern@) {
                let j = choose|j: int| matches_at(s@, pattern@, j);
            }
        }
    }
    false
}

/// The archive suffix the resolution table gives a build target, and
/// nothing for an unsupported target.
pub open spec fn release_suffix_spec(t: Seq<char>) -> Option<Seq<char>> {
    if contains_pattern(t, "apple"@) {
        Some("macOS.tar.gz"@)
    } else if contains_pattern(t, "linux"@) {
        if contains_pattern(t, "x86_64"@) {
            Some("Linux-amd64.tar.gz"@)
        } else if contains_pattern(t, "i686"@) {
            Some("Linux-i386.tar.gz"@)
        } else {
            None
        }
    } else if contains_pattern(t, "windows"@) {
        if contains_pattern(t, "gnu"@) {
            if contains_pattern(t, "x86_64"@) {
                Some("Win64-mingw.zip"@)
            } else {
                Some("Win32-mingw.zip"@)
            }
        } else if contains_pattern(t, "msvc"@) {
            if contains_pattern(t, "x86_64"@) {
                Some("Win64-msvc15.zip"@)
            } else {
                Some("Win32-msvc15.zip"@)
            }
        } else {
            None
        }
    } else {
        None
    }
}

/// Resolves the file suffix of the prebuilt native release archive for a
/// build target, by the resolution table; an unsupported target yields
/// nothing, on which the build must abort.
pub fn release_suffix_for_target(target: &str) -> (r: Option<String>)
    ensures
        r is Some <==> release_suffix_spec(target@) is Some,
        r is Some ==> r.unwrap()@ == release_suffix_spec(target@).unwrap(),
{
    if str_contains(target, "apple") {
        Some(String::from_str("macOS.tar.gz"))
    } else if str_contains(target, "linux") {
        if str_contains(target, "x86_64") {
            Some(String::from_str("Linux-amd64.tar.gz"))
        } else if str_contains(target, "i686") {
            Some(String::from_str("Linux-i386.tar.gz"))
        } else {
            None
        }
    } else if str_contains(target, "windows") {
        if str_contains(target, "gnu") {
            if str_contains(target, "x86_64") {
                Some(String::from_str("Win64-mingw.zip"))
            } else {
                Some(String::from_str("Win32-mingw.zip"))
            }
        } else if str_contains(target, "msvc") {
            if str_contains(target, "x86_64") {
                Some(String::from_str("Win64-msvc15.zip"))
            } else {
                Some(String::from_str("Win32-msvc15.zip"))
            }
        } else {
            None
        }
    } else {
        None
    }
}

/// The full download address of the prebuilt release for a build target,
/// and nothing for an unsupported target.
pub open spec fn release_url_spec(t: Seq<char>) -> Option<Seq<char>> {
    match release_suffix_spec(t) {
        Some(suffix) => Some(
            "https://github.com/raysan5/raylib/releases/download/2.0.0/raylib-2.0.0-"@
                + suffix,
        ),
        None => None,
    }
}

/// Resolves the full download address of the prebuilt native release for
/// a build target: the pinned release location followed by the archive
/// suffix of the resolution table.
pub fn release_url_for_target(target: &str) -> (r: Option<String>)
    ensures
        r is Some <==> release_suffix_spec(target@) is Some,
        r is Some ==> r.unwrap()@ == release_url_spec(target@).unwrap(),
{
    match release_suffix_for_target(target) {
        Some(suffix) => {
            let base = String::from_str(
                "https://github.com/raysan5/raylib/releases/download/2.0.0/raylib-2.0.0-",
            );
            Some(base.concat(suffix.as_str()))
        },
        None => None,
    }
}

} // verus!
