use vstd::prelude::*;

use crate::c_error::{error_of, CError};
use crate::c_result::CResult;

verus! {

/// Which side of a process split the caller is on.
#[derive(Clone, Copy, Debug, PartialEq, Eq, Structural)]
pub enum ForkResult {
    Child,
    Parent(i32),
}

impl ForkResult {
    /// Interprets what fork returned: the failure sentinel captures the last
    /// error at once, zero is the child, and a positive value is the child's
    /// pid as seen by the parent.
    pub fn from_return(ret: i32) -> (r: CResult<ForkResult>)
        requires
            ret >= -1,
        ensures
            ret == -1 <==> r is Err,
            r is Err ==> exists|c: i32| r->Err_0 == error_of(c),
            ret == 0 <==> r == Ok::<ForkResult, CError>(ForkResult::Child),
            ret > 0 <==> r == Ok::<ForkResult, CError>(ForkResult::Parent(ret)),
            r matches Ok(ForkResult::Parent(pid)) ==> pid > 0,
    {
        if ret == -1 {
            Err(CError::new_from_errno())
        } else if ret == 0 {
            Ok(ForkResult::Child)
        } else {
            Ok(ForkResult::Parent(ret))
        }
    }
}

} // verus!
