use vstd::prelude::*;

use crate::c_error::{error_of, CError};
use crate::c_result::CResult;

verus! {

/// Low seven bits: the terminating signal, or zero on a normal exit.
pub open spec fn signal_bits(status: i32) -> i32 {
    status & 0x7f
}

/// Bits 8 to 15: the exit code, or the stopping signal of a stopped child.
pub open spec fn high_byte(status: i32) -> i32 {
    (status & 0xff00) >> 8
}

pub open spec fn is_normal_exit(status: i32) -> bool {
    signal_bits(status) == 0
}

pub open spec fn is_signal_termination(status: i32) -> bool {
    signal_bits(status) != 0 && signal_bits(status) != 0x7f
}

pub open spec fn is_stop(status: i32) -> bool {
    status & 0xff == 0x7f
}

pub open spec fn has_core_flag(status: i32) -> bool {
    status & 0x80 != 0
}

/// A packed status word as the wait family reports it.
pub struct WaitStatus(pub i32);

/// The child that a wait call reported on, and how its state changed.
pub struct WaitResult {
    pub pid: i32,
    pub status: WaitStatus,
}

impl WaitResult {
    pub fn new(pid: i32, wstatus: i32) -> (r: WaitResult)
        ensures
            r.pid == pid,
            r.status.0 == wstatus,
    {
        WaitResult { pid, status: WaitStatus(wstatus) }
    }

    /// Interprets what a wait call returned: the failure sentinel `-1`
    /// captures the last error at once; any other value is the child's pid,
    /// paired with the status word the call filled in.
    pub fn from_return(ret: i32, wstatus: i32) -> (r: CResult<WaitResult>)
        ensures
            ret == -1 <==> r is Err,
            r is Err ==> exists|c: i32| r->Err_0 == error_of(c),
            r is Ok ==> r->Ok_0.pid == ret && r->Ok_0.status.0 == wstatus,
    {
        if ret == -1 {
            Err(CError::new_from_errno())
        } else {
            Ok(WaitResult::new(ret, wstatus))
        }
    }
}

impl WaitStatus {
    /// The child ended through an exit call (WIFEXITED).
    pub fn exited_normally(&self) -> (r: bool)
        ensures
            r == is_normal_exit(self.0),
    {
        self.terminating_signal() == 0
    }

    /// The signal that ended the child, or zero (WTERMSIG).
    pub fn terminating_signal(&self) -> (r: i32)
        ensures
            r == signal_bits(self.0),
            0 <= r < 128,
    {
        let s = self.0;
        assert(0 <= s & 0x7f < 128) by (bit_vector);
        s & 0x7f
    }

    /// The code the child exited with, meaningful after a normal exit
    /// (WEXITSTATUS).
    pub fn exit_status(&self) -> (r: u8)
        ensures
            r as i32 == high_byte(self.0),
    {
        let s = self.0;
        assert(0 <= (s & 0xff00) >> 8 < 256) by (bit_vector);
        ((s & 0xff00) >> 8) as u8
    }

    /// The signal that stopped the child, meaningful when it is stopped
    /// (WSTOPSIG).
    pub fn stopping_signal(&self) -> (r: i32)
        ensures
            r == high_byte(self.0),
    {
        (self.0 & 0xff00) >> 8
    }

    /// The child was ended by a signal (WIFSIGNALED): a nonzero signal
    /// field that is not the stop marker.
    pub fn terminated_by_signal(&self) -> (r: bool)
        ensures
            r == is_signal_termination(self.0),
    {
        let sig = self.terminating_signal();
        sig != 0 && sig != 0x7f
    }

    /// The child is stopped rather than ended (WIFSTOPPED).
    pub fn is_stopped(&self) -> (r: bool)
        ensures
            r == is_stop(self.0),
    {
        (self.0 & 0xff) == 0x7f
    }

    /// The child left a core dump (WCOREDUMP).
    pub fn dumped_core(&self) -> (r: bool)
        ensures
            r == has_core_flag(self.0),
    {
        (self.0 & 0x80) != 0
    }
}

/// The status word of a child that exited with `code` decodes as a normal
/// exit with that code, neither ended by a signal nor stopped.
pub proof fn lemma_normal_exit_decodes(code: u8)
    ensures
        is_normal_exit((code as i32) << 8),
        high_byte((code as i32) << 8) == code as i32,
        !is_signal_termination((code as i32) << 8),
        !is_stop((code as i32) << 8),
        !has_core_flag((code as i32) << 8),
{
    let c = code as i32;
    assert(0 <= c < 256 ==> (c << 8) & 0x7f == 0) by (bit_vector);
    assert(0 <= c < 256 ==> ((c << 8) & 0xff00) >> 8 == c) by (bit_vector);
    assert(0 <= c < 256 ==> (c << 8) & 0xff == 0) by (bit_vector);
    assert(0 <= c < 256 ==> (c << 8) & 0x80 == 0) by (bit_vector);
}

/// The status word of a child ended by signal `sig` (1 to 126) decodes as
/// a termination by that signal, not a normal exit and not a stop.
pub proof fn lemma_signal_termination_decodes(sig: i32)
    requires
        1 <= sig <= 126,
    ensures
        is_signal_termination(sig),
        signal_bits(sig) == sig,
        !is_normal_exit(sig),
        !is_stop(sig),
{
    assert(1 <= sig <= 126 ==> sig & 0x7f == sig) by (bit_vector);
    assert(1 <= sig <= 126 ==> sig & 0xff == sig) by (bit_vector);
}

/// The status word of a child stopped by signal `sig` decodes as a stop by
/// that signal, neither a normal exit nor a termination.
pub proof fn lemma_stop_decodes(sig: u8)
    ensures
        is_stop(((sig as i32) << 8) | 0x7f),
        high_byte(((sig as i32) << 8) | 0x7f) == sig as i32,
        !is_normal_exit(((sig as i32) << 8) | 0x7f),
        !is_signal_termination(((sig as i32) << 8) | 0x7f),
{
    let s = sig as i32;
    assert(0 <= s < 256 ==> ((s << 8) | 0x7f) & 0xff == 0x7f) by (bit_vector);
    assert(0 <= s < 256 ==> ((s << 8) | 0x7f) & 0x7f == 0x7f) by (bit_vector);
    assert(0 <= s < 256 ==> ((((s << 8) | 0x7f) & 0xff00) >> 8) == s) by (bit_vector);
}

} // verus!
