//! Text marshaling for the native boundary.
//!
//! The native library takes text as a pointer to a null-terminated byte
//! buffer. Marshaling a string means copying its UTF-8 bytes and appending
//! one terminating zero; a string with a zero byte inside cannot be
//! marshaled, since the terminator would be read early, and yields nothing
//! instead.

use vstd::prelude::*;
use vstd::string::*;

verus! {

/// Lays a string out as a null-terminated byte buffer: its UTF-8 bytes
/// followed by one zero. A string holding a zero byte yields nothing.
pub fn to_c_bytes(s: &str) -> (r: Option<Vec<u8>>)
    ensures
        match r {
            Some(buf) => !s.spec_bytes().contains(0u8) && buf@ == s.spec_bytes().push(0u8),
            None => s.spec_bytes().contains(0u8),
        },
{
    let mut buf = s.as_bytes_vec();
    let n = buf.len();
    let mut i: usize = 0;
    while i < n
        invariant
            i <= n,
            n == buf@.len(),
            buf@ == s.spec_bytes(),
            forall|j: int| 0 <= j < i ==> buf@[j] != 0u8,
        decreases n - i,
    {
        if buf[i] == 0 {
            proof {
                assert(s.spec_bytes()[i as int] == 0u8);
            }
            return None;
        }
        i = i + 1;
    }
    proof {
        assert(!s.spec_bytes().contains(0u8)) by {
            if s.spec_bytes().contains(0u8) {
                let j = choose|j: int|
                    0 <= j < s.spec_bytes().len() && s.spec_bytes()[j] == 0u8;
            }
        }
    }
    buf.push(0);
    Some(buf)
}

} // verus!
