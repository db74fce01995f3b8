use vstd::prelude::*;

use crate::c_error::CError;

verus! {

/// The buffer size the first attempt at reading the working directory uses.
pub const INITIAL_BUFFER_SIZE: usize = 100;

/// After a failed attempt to read the working directory into a buffer of
/// `len` bytes: the size to try next when the buffer was too small, or
/// `None` when the failure is final (another error, or no larger size fits).
pub fn next_buffer_len(len: usize, e: CError) -> (r: Option<usize>)
    ensures
        r is Some <==> (e == CError::Range && 2 * len <= usize::MAX),
        r is Some ==> r->Some_0 == 2 * len,
{
    if e == CError::Range && len <= usize::MAX / 2 {
        Some(len * 2)
    } else {
        None
    }
}

} // verus!
