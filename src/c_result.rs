use vstd::prelude::*;

use crate::c_error::{error_of, CError};

verus! {

/// Outcome of an operation that reports failure through the error domain.
pub type CResult<T> = Result<T, CError>;

/// Interprets a call that returns zero on success and `-1` on failure
/// (chmod, chdir, fchmod): the failure captures the last error at once.
pub fn check_status(ret: i32) -> (r: CResult<()>)
    requires
        ret == 0 || ret == -1,
    ensures
        ret == 0 <==> r is Ok,
        r is Err ==> exists|c: i32| r->Err_0 == error_of(c),
{
    if ret == 0 {
        Ok(())
    } else {
        Err(CError::new_from_errno())
    }
}

/// Interprets a call that returns a value on success and `-1` on failure
/// (fcntl): the failure captures the last error at once.
pub fn check_value(ret: i32) -> (r: CResult<i32>)
    ensures
        ret == -1 <==> r is Err,
        r is Err ==> exists|c: i32| r->Err_0 == error_of(c),
        r is Ok ==> r->Ok_0 == ret,
{
    if ret == -1 {
        Err(CError::new_from_errno())
    } else {
        Ok(ret)
    }
}

} // verus!
