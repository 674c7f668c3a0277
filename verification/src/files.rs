//! File management queries: extension, file name and directory of a path
//! string, the outcome of a directory change, and the dropped-files
//! policy.
//!
//! The path queries work on the text alone. The extension of a file name
//! is the suffix after the last dot, provided that dot comes after the
//! last path separator; a name without such a dot has the empty extension.
//! The file name of a path is the part after the last separator, and the
//! directory part is everything before it.

use vstd::prelude::*;
use vstd::string::*;

use crate::native;

verus! {

/// Whether a character separates path components.
pub open spec fn is_path_separator(c: char) -> bool {
    c == '/' || c == '\\'
}

/// Where the extension of a file name starts: the position just after the
/// last dot, provided that dot comes after the last path separator;
/// nothing when no such dot exists.
pub open spec fn extension_start(s: Seq<char>) -> Option<int>
    decreases s.len(),
{
    if s.len() == 0 {
        None
    } else if s.last() == '.' {
        Some(s.len() as int)
    } else if is_path_separator(s.last()) {
        None
    } else {
        extension_start(s.drop_last())
    }
}

/// The extension of a file name: the suffix after the last dot that comes
/// after the last path separator, and empty when there is none.
pub open spec fn extension_of(s: Seq<char>) -> Seq<char> {
    match extension_start(s) {
        Some(i) => s.subrange(i, s.len() as int),
        None => Seq::empty(),
    }
}

/// Where the file name of a path starts: just after the last path
/// separator, or at the start when there is none.
pub open spec fn file_name_start(s: Seq<char>) -> int
    decreases s.len(),
{
    if s.len() == 0 {
        0
    } else if is_path_separator(s.last()) {
        s.len() as int
    } else {
        file_name_start(s.drop_last())
    }
}

/// The file name of a path: the part after the last path separator, or
/// the whole path when there is none.
pub open spec fn file_name_of(s: Seq<char>) -> Seq<char> {
    s.subrange(file_name_start(s), s.len() as int)
}

/// The directory part of a path: everything before the last path
/// separator, and empty when there is none.
pub open spec fn directory_of(s: Seq<char>) -> Seq<char> {
    if file_name_start(s) == 0 {
        Seq::empty()
    } else {
        s.subrange(0, file_name_start(s) - 1)
    }
}

/// An extension starts no earlier than just after a dot and never past the
/// end of the name.
pub proof fn lemma_extension_start_bounds(s: Seq<char>)
    ensures
        match extension_start(s) {
            Some(i) => 1 <= i <= s.len(),
            None => true,
        },
    decreases s.len(),
{
    if s.len() > 0 && s.last() != '.' && !is_path_separator(s.last()) {
        lemma_extension_start_bounds(s.drop_last());
    }
}

/// Returns the extension of a file name: the exact suffix after the last
/// dot that comes after the last path separator, and the empty string for
/// a name with no extension.
pub fn get_extension(file_name: &str) -> (r: String)
    ensures
        r@ == extension_of(file_name@),
{
    let n = file_name.unicode_len();
    let mut i: usize = n;
    assert(file_name@.subrange(0, n as int) =~= file_name@);
    while i > 0
        invariant
            i <= n,
            n == file_name@.len(),
            extension_start(file_name@) == extension_start(file_name@.subrange(0, i as int)),
        decreases i,
    {
        let c = file_name.get_char(i - 1);
        proof {
            assert(file_name@.subrange(0, i as int).last() == file_name@[i - 1]);
        }
        if c == '.' {
            proof {
                lemma_extension_start_bounds(file_name@);
            }
            return String::from_str(file_name.substring_char(i, n));
        }
        if c == '/' || c == '\\' {
            return String::new();
        }
        proof {
            assert(file_name@.subrange(0, i as int).drop_last() =~= file_name@.subrange(
                0,
                i - 1,
            ));
        }
        i = i - 1;
    }
    proof {
        assert(file_name@.subrange(0, 0) =~= Seq::<char>::empty());
    }
    String::new()
}

/// Whether a file name carries the given extension. The extension is
/// compared with its leading dot, so a name with no extension matches
/// nothing.
pub open spec fn has_extension(s: Seq<char>, ext: Seq<char>) -> bool {
    match extension_start(s) {
        Some(i) => ext == s.subrange(i - 1, s.len() as int),
        None => false,
    }
}

/// Checks a file name's extension against `ext`, given with its leading
/// dot, as in `.png`.
pub fn is_file_extension(file_name: &str, ext: &str) -> (r: bool)
    ensures
        r == has_extension(file_name@, ext@),
{
    let n = file_name.unicode_len();
    let mut i: usize = n;
    assert(file_name@.subrange(0, n as int) =~= file_name@);
    while i > 0
        invariant
            i <= n,
            n == file_name@.len(),
            extension_start(file_name@) == extension_start(file_name@.subrange(0, i as int)),
        decreases i,
    {
        let c = file_name.get_char(i - 1);
        proof {
            assert(file_name@.subrange(0, i as int).last() == file_name@[i - 1]);
        }
        if c == '.' {
            proof {
                lemma_extension_start_bounds(file_name@);
            }
            let dotted = String::from_str(file_name.substring_char(i - 1, n));
            let given = String::from_str(ext);
            return dotted == given;
        }
        if c == '/' || c == '\\' {
            return false;
        }
        proof {
            assert(file_name@.subrange(0, i as int).drop_last() =~= file_name@.subrange(
                0,
                i - 1,
            ));
        }
        i = i - 1;
    }
    false
}

/// Returns the file name of a path: the exact part after the last path
/// separator, or the whole path when there is none.
pub fn get_file_name(file_path: &str) -> (r: String)
    ensures
        r@ == file_name_of(file_path@),
{
    let n = file_path.unicode_len();
    let mut i: usize = n;
    assert(file_path@.subrange(0, n as int) =~= file_path@);
    while i > 0
        invariant
            i <= n,
            n == file_path@.len(),
            file_name_start(file_path@) == file_name_start(file_path@.subrange(0, i as int)),
        decreases i,
    {
        let c = file_path.get_char(i - 1);
        proof {
            assert(file_path@.subrange(0, i as int).last() == file_path@[i - 1]);
        }
        if c == '/' || c == '\\' {
            return String::from_str(file_path.substring_char(i, n));
        }
        proof {
            assert(file_path@.subrange(0, i as int).drop_last() =~= file_path@.subrange(
                0,
                i - 1,
            ));
        }
        i = i - 1;
    }
    String::from_str(file_path.substring_char(0, n))
}

/// Returns the directory part of a path: everything before the last path
/// separator, and the empty string when there is none.
pub fn get_directory_path(file_path: &str) -> (r: String)
    ensures
        r@ == directory_of(file_path@),
{
    let n = file_path.unicode_len();
    let mut i: usize = n;
    assert(file_path@.subrange(0, n as int) =~= file_path@);
    while i > 0
        invariant
            i <= n,
            n == file_path@.len(),
            file_name_start(file_path@) == file_name_start(file_path@.subrange(0, i as int)),
        decreases i,
    {
        let c = file_path.get_char(i - 1);
        proof {
            assert(file_path@.subrange(0, i as int).last() == file_path@[i - 1]);
        }
        if c == '/' || c == '\\' {
            return String::from_str(file_path.substring_char(0, i - 1));
        }
        proof {
            assert(file_path@.subrange(0, i as int).drop_last() =~= file_path@.subrange(
                0,
                i - 1,
            ));
        }
        i = i - 1;
    }
    String::new()
}

/// Turns the native result of a directory change into a success or
/// failure: success exactly when the native library answered with its true
/// sentinel.
pub fn change_directory_result(raw_result: i32) -> (r: Result<(), ()>)
    ensures
        r is Ok <==> raw_result == native::TRUE,
{
    if raw_result == native::TRUE {
        Ok(())
    } else {
        Err(())
    }
}

/// Applies the dropped-files policy to what the native query handed back:
/// an absent list — the native library answering with no buffer — yields
/// the empty list rather than an error, and a present list is passed
/// through unchanged.
pub fn dropped_files_from(paths: Option<Vec<String>>) -> (r: Vec<String>)
    ensures
        r@ == (match paths {
            Some(v) => v@,
            None => Seq::<String>::empty(),
        }),
{
    match paths {
        Some(v) => v,
        None => Vec::new(),
    }
}

} // verus!
