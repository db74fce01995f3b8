use vstd::prelude::*;

use crate::c_error::{error_of, CError};
use crate::c_result::CResult;

verus! {

pub open spec fn has_nul(s: Seq<u8>) -> bool {
    exists|i: int| 0 <= i < s.len() && s[i] == 0
}

/// A string as the system takes it: its bytes and a terminating NUL.
pub open spec fn nul_terminated(s: Seq<u8>) -> Seq<u8> {
    s.push(0)
}

/// Turns the bytes of one string into a NUL-terminated system string, or
/// `None` when a NUL inside it would cut it short.
pub fn c_string_bytes(s: &[u8]) -> (r: Option<Vec<u8>>)
    ensures
        has_nul(s@) <==> r is None,
        r is Some ==> r->Some_0@ == nul_terminated(s@),
{
    let mut out: Vec<u8> = Vec::new();
    let mut i: usize = 0;
    while i < s.len()
        invariant
            0 <= i <= s@.len(),
            out@ == s@.subrange(0, i as int),
            forall|j: int| 0 <= j < i ==> s@[j] != 0,
        decreases s@.len() - i,
    {
        if s[i] == 0 {
            return None;
        }
        out.push(s[i]);
        i = i + 1;
    }
    out.push(0);
    Some(out)
}

/// Marshals an argument or environment list into NUL-terminated system
/// strings, in order, or `None` when one of them holds a NUL.
pub fn marshal_strings(list: &Vec<Vec<u8>>) -> (r: Option<Vec<Vec<u8>>>)
    ensures
        (exists|k: int| 0 <= k < list@.len() && has_nul(#[trigger] list@[k]@)) <==> r is None,
        r is Some ==> r->Some_0@.len() == list@.len() && forall|k: int|
            0 <= k < list@.len() ==> #[trigger] r->Some_0@[k]@ == nul_terminated(list@[k]@),
{
    let mut out: Vec<Vec<u8>> = Vec::new();
    let mut i: usize = 0;
    while i < list.len()
        invariant
            0 <= i <= list@.len(),
            out@.len() == i,
            forall|k: int| 0 <= k < i ==> !has_nul(#[trigger] list@[k]@),
            forall|k: int| 0 <= k < i ==> #[trigger] out@[k]@ == nul_terminated(list@[k]@),
        decreases list@.len() - i,
    {
        match c_string_bytes(list[i].as_slice()) {
            Some(c) => {
                out.push(c);
            },
            None => {
                return None;
            },
        }
        i = i + 1;
    }
    Some(out)
}

/// Interprets a return from the exec family. On success those calls never
/// return, so a return is a failure, reported from the last error.
pub fn exec_outcome(ret: i32) -> (r: CResult<()>)
    requires
        ret == -1,
    ensures
        r is Err,
        r is Err ==> exists|c: i32| r->Err_0 == error_of(c),
{
    Err(CError::new_from_errno())
}

} // verus!
