use vstd::prelude::*;

use crate::c_error::CError;
use crate::c_result::CResult;

verus! {

/// The access-probe mode bits, as Linux numbers them.
pub const F_OK: i32 = 0;

pub const R_OK: i32 = 4;

pub const W_OK: i32 = 2;

pub const X_OK: i32 = 1;

/// What an access probe asks about a path.
#[derive(Debug, Clone, Copy, PartialEq, Eq, Structural)]
pub enum AccessCheck {
    FileExists,
    Read,
    Write,
    Execute,
    ReadWrite,
    ReadExecute,
    WriteExecute,
    AllPermissions,
}

/// The mode bits an access probe passes for a check.
pub open spec fn access_bits(check: AccessCheck) -> i32 {
    match check {
        AccessCheck::FileExists => F_OK,
        AccessCheck::Read => R_OK,
        AccessCheck::Write => W_OK,
        AccessCheck::Execute => X_OK,
        AccessCheck::ReadWrite => R_OK | W_OK,
        AccessCheck::ReadExecute => R_OK | X_OK,
        AccessCheck::WriteExecute => W_OK | X_OK,
        AccessCheck::AllPermissions => R_OK | W_OK | X_OK,
    }
}

/// The check that some mode bits stand for, if any.
pub open spec fn check_of_bits(bits: i32) -> Option<AccessCheck> {
    if bits == F_OK {
        Some(AccessCheck::FileExists)
    } else if bits == R_OK | W_OK | X_OK {
        Some(AccessCheck::AllPermissions)
    } else if bits == R_OK | W_OK {
        Some(AccessCheck::ReadWrite)
    } else if bits == R_OK | X_OK {
        Some(AccessCheck::ReadExecute)
    } else if bits == W_OK | X_OK {
        Some(AccessCheck::WriteExecute)
    } else if bits == R_OK {
        Some(AccessCheck::Read)
    } else if bits == W_OK {
        Some(AccessCheck::Write)
    } else if bits == X_OK {
        Some(AccessCheck::Execute)
    } else {
        None
    }
}

/// What a failed probe means: a denial answers "no" to a permission check,
/// a missing entry answers "no" to an existence check, and anything else is
/// an error.
pub open spec fn access_answer(check: AccessCheck, e: CError) -> CResult<bool> {
    if e == CError::PermissionDenied && check != AccessCheck::FileExists {
        Ok(false)
    } else if e == CError::NotFound && check == AccessCheck::FileExists {
        Ok(false)
    } else {
        Err(e)
    }
}

impl AccessCheck {
    pub fn from_bits(bits: i32) -> (r: Option<AccessCheck>)
        ensures
            r == check_of_bits(bits),
    {
        if bits == F_OK {
            Some(AccessCheck::FileExists)
        } else if bits == R_OK | W_OK | X_OK {
            Some(AccessCheck::AllPermissions)
        } else if bits == R_OK | W_OK {
            Some(AccessCheck::ReadWrite)
        } else if bits == R_OK | X_OK {
            Some(AccessCheck::ReadExecute)
        } else if bits == W_OK | X_OK {
            Some(AccessCheck::WriteExecute)
        } else if bits == R_OK {
            Some(AccessCheck::Read)
        } else if bits == W_OK {
            Some(AccessCheck::Write)
        } else if bits == X_OK {
            Some(AccessCheck::Execute)
        } else {
            None
        }
    }

    pub fn to_bits(self) -> (r: i32)
        ensures
            r == access_bits(self),
    {
        match self {
            AccessCheck::FileExists => F_OK,
            AccessCheck::Read => R_OK,
            AccessCheck::Write => W_OK,
            AccessCheck::Execute => X_OK,
            AccessCheck::ReadWrite => R_OK | W_OK,
            AccessCheck::ReadExecute => R_OK | X_OK,
            AccessCheck::WriteExecute => W_OK | X_OK,
            AccessCheck::AllPermissions => R_OK | W_OK | X_OK,
        }
    }

    /// The answer to a failed probe for this check, given its error.
    pub fn answer_failure(self, e: CError) -> (r: CResult<bool>)
        ensures
            r == access_answer(self, e),
    {
        if e == CError::PermissionDenied && self != AccessCheck::FileExists {
            Ok(false)
        } else if e == CError::NotFound && self == AccessCheck::FileExists {
            Ok(false)
        } else {
            Err(e)
        }
    }

    /// Interprets what an access probe for this check returned: zero
    /// answers "yes"; the failure sentinel captures the last error at once
    /// and is answered as `answer_failure` says.
    pub fn access_outcome(self, ret: i32) -> (r: CResult<bool>)
        requires
            ret == 0 || ret == -1,
        ensures
            ret == 0 ==> r == Ok::<bool, CError>(true),
            ret == -1 ==> exists|e: CError| r == access_answer(self, e),
    {
        if ret == 0 {
            Ok(true)
        } else {
            let e = CError::new_from_errno();
            self.answer_failure(e)
        }
    }
}

impl From<AccessCheck> for i32 {
    fn from(check: AccessCheck) -> (r: i32) {
        check.to_bits()
    }
}

impl vstd::std_specs::convert::FromSpecImpl<AccessCheck> for i32 {
    open spec fn obeys_from_spec() -> bool {
        true
    }

    open spec fn from_spec(check: AccessCheck) -> i32 {
        access_bits(check)
    }
}

/// Every check's mode bits read back as that same check.
pub proof fn lemma_access_bits_round_trip(check: AccessCheck)
    ensures
        check_of_bits(access_bits(check)) == Some(check),
{
    assert(4i32 | 2i32 | 1i32 == 7) by (bit_vector);
    assert(4i32 | 2i32 == 6) by (bit_vector);
    assert(4i32 | 1i32 == 5) by (bit_vector);
    assert(2i32 | 1i32 == 3) by (bit_vector);
}

} // verus!
