//! Helpers for handing an exported document to a file.

use vstd::prelude::*;

verus! {

/// Extension of exported files, without the dot.
pub const EXPORT_EXTENSION: &'static str = "svg";

/// The length of the text in a zero-terminated buffer of UTF-16 units: the
/// position of the first zero unit, or the buffer's length where no unit is
/// zero.
pub fn terminated_len(buffer: &[u16]) -> (n: usize)
    ensures
        n <= buffer@.len(),
        forall|i: int| 0 <= i < n ==> buffer@[i] != 0,
        n < buffer@.len() ==> buffer@[n as int] == 0,
{
    let mut n: usize = 0;
    while n < buffer.len() && buffer[n] != 0
        invariant
            n <= buffer@.len(),
            forall|i: int| 0 <= i < n ==> buffer@[i] != 0,
        decreases buffer@.len() - n,
    {
        n += 1;
    }
    n
}

} // verus!
