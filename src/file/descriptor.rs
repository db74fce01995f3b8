use vstd::prelude::*;

use crate::c_error::{code_of, error_of, CError};
use crate::c_result::CResult;

verus! {

/// The sentinel held by a slot that refers to no descriptor.
pub const NO_DESCRIPTOR: i32 = -1;

/// The standard streams' descriptor numbers, as POSIX fixes them.
pub const STDIN_FILENO: i32 = 0;

pub const STDOUT_FILENO: i32 = 1;

pub const STDERR_FILENO: i32 = 2;

/// The status flag that makes reads and writes on a descriptor non-blocking,
/// as Linux numbers it (x86_64).
pub const O_NONBLOCK: i32 = 2048;

/// How a failed read or write is reported through `std::io`: the distinct
/// signals callers act on, and the raw code for everything else.
#[derive(Clone, Copy, Debug, PartialEq, Eq, Structural)]
pub enum IoFailure {
    WouldBlock,
    Interrupted,
    PermissionDenied,
    NotConnected,
    BrokenPipe,
    Os(i32),
}

pub open spec fn read_failure_of(e: CError) -> IoFailure {
    match e {
        CError::Again | CError::WouldBlock => IoFailure::WouldBlock,
        CError::Interrupted => IoFailure::Interrupted,
        CError::Fault => IoFailure::PermissionDenied,
        _ => IoFailure::Os(code_of(e)),
    }
}

pub open spec fn write_failure_of(e: CError) -> IoFailure {
    match e {
        CError::Again | CError::WouldBlock => IoFailure::WouldBlock,
        CError::DestinationAddressRequired => IoFailure::NotConnected,
        CError::Fault | CError::Perm => IoFailure::PermissionDenied,
        CError::Interrupted => IoFailure::Interrupted,
        CError::BrokenPipe => IoFailure::BrokenPipe,
        _ => IoFailure::Os(code_of(e)),
    }
}

/// Descriptor flags with only the non-blocking bit set or cleared.
pub open spec fn with_nonblocking(flags: i32, nonblocking: bool) -> i32 {
    if nonblocking {
        flags | O_NONBLOCK
    } else {
        flags & !O_NONBLOCK
    }
}

/// What a close of a slot holding `fd` has to release.
pub open spec fn close_target(fd: i32) -> Option<i32> {
    if fd == NO_DESCRIPTOR {
        None
    } else {
        Some(fd)
    }
}

/// A slot for one raw descriptor. Once released or detached it holds
/// `NO_DESCRIPTOR`, so the descriptor is never released twice.
pub struct FileDescriptor {
    fd: i32,
}

impl FileDescriptor {
    /// The raw descriptor the slot holds.
    pub closed spec fn raw(&self) -> i32 {
        self.fd
    }

    /// Wraps a descriptor whose release is handled elsewhere.
    pub fn from_unowned(fd: i32) -> (r: FileDescriptor)
        ensures
            r.raw() == fd,
    {
        FileDescriptor { fd }
    }

    pub fn from_stdin() -> (r: FileDescriptor)
        ensures
            r.raw() == STDIN_FILENO,
    {
        FileDescriptor::from_unowned(STDIN_FILENO)
    }

    pub fn from_stdout() -> (r: FileDescriptor)
        ensures
            r.raw() == STDOUT_FILENO,
    {
        FileDescriptor::from_unowned(STDOUT_FILENO)
    }

    pub fn from_stderr() -> (r: FileDescriptor)
        ensures
            r.raw() == STDERR_FILENO,
    {
        FileDescriptor::from_unowned(STDERR_FILENO)
    }

    /// Gives the raw descriptor up without releasing it.
    pub fn to_unowned(self) -> (r: i32)
        ensures
            r == self.raw(),
    {
        self.fd
    }

    /// Detaches the raw descriptor from the slot, which is left empty.
    pub fn detach(&mut self) -> (r: i32)
        ensures
            r == old(self).raw(),
            final(self).raw() == NO_DESCRIPTOR,
    {
        let fd = self.fd;
        self.fd = NO_DESCRIPTOR;
        fd
    }

    pub fn get_fd(&self) -> (r: i32)
        ensures
            r == self.raw(),
    {
        self.fd
    }

    pub fn is_closed(&self) -> (r: bool)
        ensures
            r == (self.raw() == NO_DESCRIPTOR),
    {
        self.fd == NO_DESCRIPTOR
    }

    /// First half of a close: empties the slot and says which descriptor, if
    /// any, must now be released. The slot is empty afterwards whatever the
    /// release reports, since the number may already be reused.
    pub fn begin_close(&mut self) -> (r: Option<i32>)
        ensures
            r == close_target(old(self).raw()),
            final(self).raw() == NO_DESCRIPTOR,
    {
        if self.fd == NO_DESCRIPTOR {
            None
        } else {
            let fd = self.fd;
            self.fd = NO_DESCRIPTOR;
            Some(fd)
        }
    }

    /// Second half of a close: interprets what the release returned.
    pub fn close_outcome(ret: i32) -> (r: CResult<()>)
        ensures
            ret == -1 <==> r is Err,
            r is Err ==> exists|c: i32| r->Err_0 == error_of(c),
    {
        if ret == -1 {
            Err(CError::new_from_errno())
        } else {
            Ok(())
        }
    }

    /// Interprets a call that returns a fresh descriptor (open, openat,
    /// creat, dup): the failure sentinel captures the last error at once,
    /// anything else becomes an owned slot.
    pub fn from_new_fd(ret: i32) -> (r: CResult<FileDescriptor>)
        ensures
            ret == -1 <==> r is Err,
            r is Err ==> exists|c: i32| r->Err_0 == error_of(c),
            r is Ok ==> r->Ok_0.raw() == ret,
    {
        if ret == -1 {
            Err(CError::new_from_errno())
        } else {
            Ok(FileDescriptor { fd: ret })
        }
    }

    /// Interprets what a dup2 onto this slot returned. The call reports
    /// either failure or this very descriptor.
    pub fn redirect_outcome(&self, ret: i32) -> (r: CResult<()>)
        requires
            ret == -1 || ret == self.raw(),
        ensures
            ret == -1 <==> r is Err,
            r is Err ==> exists|c: i32| r->Err_0 == error_of(c),
    {
        if ret == -1 {
            Err(CError::new_from_errno())
        } else {
            Ok(())
        }
    }

    /// The flags to store so that only the non-blocking bit changes, or
    /// `None` when `previous` already has the wanted mode and no second call
    /// is needed.
    pub fn nonblocking_update(previous: i32, nonblocking: bool) -> (r: Option<i32>)
        ensures
            with_nonblocking(previous, nonblocking) == previous <==> r is None,
            r is Some ==> r->Some_0 == with_nonblocking(previous, nonblocking),
    {
        let current = if nonblocking {
            previous | O_NONBLOCK
        } else {
            previous & !O_NONBLOCK
        };
        if current != previous {
            Some(current)
        } else {
            None
        }
    }

    /// Maps a failed read to how `std::io` reports it.
    pub fn read_failure(e: CError) -> (r: IoFailure)
        ensures
            r == read_failure_of(e),
    {
        match e {
            CError::Again | CError::WouldBlock => IoFailure::WouldBlock,
            CError::Interrupted => IoFailure::Interrupted,
            CError::Fault => IoFailure::PermissionDenied,
            _ => IoFailure::Os(e.to_code()),
        }
    }

    /// Maps a failed write to how `std::io` reports it.
    pub fn write_failure(e: CError) -> (r: IoFailure)
        ensures
            r == write_failure_of(e),
    {
        match e {
            CError::Again | CError::WouldBlock => IoFailure::WouldBlock,
            CError::DestinationAddressRequired => IoFailure::NotConnected,
            CError::Fault | CError::Perm => IoFailure::PermissionDenied,
            CError::Interrupted => IoFailure::Interrupted,
            CError::BrokenPipe => IoFailure::BrokenPipe,
            _ => IoFailure::Os(e.to_code()),
        }
    }

    /// Interprets one read as `std::io::Read` reports it: the count of bytes
    /// transferred, or the mapped failure.
    pub fn read_outcome(ret: isize) -> (r: Result<usize, IoFailure>)
        requires
            ret >= -1,
        ensures
            ret == -1 <==> r is Err,
            r is Ok ==> r->Ok_0 == ret,
            r is Err ==> exists|c: i32| r->Err_0 == read_failure_of(error_of(c)),
    {
        if ret == -1 {
            Err(FileDescriptor::read_failure(CError::new_from_errno()))
        } else {
            Ok(ret as usize)
        }
    }

    /// Interprets one write as `std::io::Write` reports it.
    pub fn write_outcome(ret: isize) -> (r: Result<usize, IoFailure>)
        requires
            ret >= -1,
        ensures
            ret == -1 <==> r is Err,
            r is Ok ==> r->Ok_0 == ret,
            r is Err ==> exists|c: i32| r->Err_0 == write_failure_of(error_of(c)),
    {
        if ret == -1 {
            Err(FileDescriptor::write_failure(CError::new_from_errno()))
        } else {
            Ok(ret as usize)
        }
    }
    /// Interprets a call that returns a count of bytes (write, read): the
    /// failure sentinel captures the last error at once.
    pub fn count_outcome(ret: isize) -> (r: CResult<usize>)
        requires
            ret >= -1,
        ensures
            ret == -1 <==> r is Err,
            r is Err ==> exists|c: i32| r->Err_0 == error_of(c),
            r is Ok ==> r->Ok_0 == ret,
    {
        if ret == -1 {
            Err(CError::new_from_errno())
        } else {
            Ok(ret as usize)
        }
    }

    /// Interprets one read into `buffer`: on success the buffer is cut to the
    /// `ret` bytes that arrived.
    pub fn read_bytes_outcome(buffer: Vec<u8>, ret: isize) -> (r: CResult<Vec<u8>>)
        requires
            -1 <= ret <= buffer@.len(),
        ensures
            ret == -1 <==> r is Err,
            r is Err ==> exists|c: i32| r->Err_0 == error_of(c),
            r is Ok ==> r->Ok_0@ == buffer@.subrange(0, ret as int),
    {
        if ret == -1 {
            Err(CError::new_from_errno())
        } else {
            let mut buffer = buffer;
            buffer.truncate(ret as usize);
            Ok(buffer)
        }
    }

    /// Runs `body` on a slot over a descriptor owned elsewhere, then detaches
    /// the descriptor so the slot never releases it.
    pub fn wrap_unowned<CB, T>(fd: i32, body: CB) -> (r: T)
        where
            CB: FnOnce(&mut FileDescriptor) -> T,
        requires
            forall|d: &mut FileDescriptor| #[trigger] body.requires((d,)),
        ensures
            exists|d: &mut FileDescriptor| d.raw() == fd && #[trigger] body.ensures((d,), r),
    {
        let mut slot = FileDescriptor::from_unowned(fd);
        let result = body(&mut slot);
        slot.detach();
        result
    }
    pub fn wrap_stdin<CB, T>(body: CB) -> (r: T)
        where
            CB: FnOnce(&mut FileDescriptor) -> T,
        requires
            forall|d: &mut FileDescriptor| #[trigger] body.requires((d,)),
        ensures
            exists|d: &mut FileDescriptor| d.raw() == STDIN_FILENO && #[trigger] body.ensures((d,), r),
    {
        FileDescriptor::wrap_unowned(STDIN_FILENO, body)
    }

    pub fn wrap_stdout<CB, T>(body: CB) -> (r: T)
        where
            CB: FnOnce(&mut FileDescriptor) -> T,
        requires
            forall|d: &mut FileDescriptor| #[trigger] body.requires((d,)),
        ensures
            exists|d: &mut FileDescriptor| d.raw() == STDOUT_FILENO && #[trigger] body.ensures((d,), r),
    {
        FileDescriptor::wrap_unowned(STDOUT_FILENO, body)
    }

    pub fn wrap_stderr<CB, T>(body: CB) -> (r: T)
        where
            CB: FnOnce(&mut FileDescriptor) -> T,
        requires
            forall|d: &mut FileDescriptor| #[trigger] body.requires((d,)),
        ensures
            exists|d: &mut FileDescriptor| d.raw() == STDERR_FILENO && #[trigger] body.ensures((d,), r),
    {
        FileDescriptor::wrap_unowned(STDERR_FILENO, body)
    }
}

/// How an exact read stands after one more read was taken in.
#[derive(Clone, Copy, Debug, PartialEq, Eq, Structural)]
pub enum ExactStatus {
    /// Some bytes are still missing: read again.
    Pending,
    /// All bytes arrived.
    Complete,
    /// The read failed, or the stream ended early; what arrived is dropped.
    Failed(CError),
}

/// The state of a read of exactly `target` bytes, carried across the short
/// reads that make it up.
pub struct ExactRead {
    data: Vec<u8>,
    target: usize,
}

impl ExactRead {
    pub closed spec fn collected(&self) -> Seq<u8> {
        self.data@
    }

    pub closed spec fn target(&self) -> nat {
        self.target as nat
    }

    pub open spec fn wf(&self) -> bool {
        self.collected().len() <= self.target()
    }

    pub open spec fn missing(&self) -> int {
        self.target() - self.collected().len()
    }

    pub fn new(target: usize) -> (r: ExactRead)
        ensures
            r.wf(),
            r.collected() == Seq::<u8>::empty(),
            r.target() == target,
    {
        ExactRead { data: Vec::new(), target }
    }

    /// How many bytes are still missing.
    pub fn remaining(&self) -> (r: usize)
        requires
            self.wf(),
        ensures
            r == self.missing(),
    {
        self.target - self.data.len()
    }

    pub fn is_complete(&self) -> (r: bool)
        requires
            self.wf(),
        ensures
            r == (self.missing() == 0),
    {
        self.data.len() == self.target
    }

    /// Takes in one read of at most `remaining()` bytes into `chunk`, which
    /// returned `ret`. A failure captures the last error at once; a read of
    /// nothing means the stream ended before all bytes came, which fails as
    /// an I/O error. Any failure ends the exact read.
    pub fn accept(&mut self, ret: isize, chunk: &[u8]) -> (r: ExactStatus)
        requires
            old(self).wf(),
            old(self).missing() > 0,
            ret == -1 || (0 <= ret <= chunk@.len() && ret <= old(self).missing()),
        ensures
            final(self).wf(),
            final(self).target() == old(self).target(),
            ret == -1 ==> r is Failed && final(self).collected() == old(self).collected(),
            ret == -1 ==> exists|c: i32| r == ExactStatus::Failed(error_of(c)),
            ret == 0 ==> r == ExactStatus::Failed(CError::IO) && final(self).collected()
                == old(self).collected(),
            ret > 0 ==> final(self).collected() == old(self).collected() + chunk@.subrange(
                0,
                ret as int,
            ),
            ret > 0 ==> (r == ExactStatus::Complete <==> final(self).missing() == 0),
            ret > 0 ==> (r == ExactStatus::Pending <==> final(self).missing() > 0),
    {
        if ret == -1 {
            return ExactStatus::Failed(CError::new_from_errno());
        }
        if ret == 0 {
            return ExactStatus::Failed(CError::IO);
        }
        let n = ret as usize;
        let ghost before = self.data@;
        let mut i: usize = 0;
        while i < n
            invariant
                0 <= i <= n,
                n <= chunk@.len(),
                n <= self.target - before.len(),
                self.target == old(self).target,
                before == old(self).data@,
                self.data@ == before + chunk@.subrange(0, i as int),
            decreases n - i,
        {
            self.data.push(chunk[i]);
            i = i + 1;
        }
        if self.data.len() == self.target {
            ExactStatus::Complete
        } else {
            ExactStatus::Pending
        }
    }

    /// The bytes of a complete exact read: exactly `target` of them.
    pub fn into_bytes(self) -> (r: Vec<u8>)
        requires
            self.wf(),
            self.missing() == 0,
        ensures
            r@ == self.collected(),
            r@.len() == self.target(),
    {
        self.data
    }
}

/// A slot released once is empty, and releasing it again has nothing to
/// release.
pub proof fn lemma_close_idempotent(fd: i32)
    ensures
        close_target(fd) is Some <==> fd != NO_DESCRIPTOR,
        close_target(NO_DESCRIPTOR) is None,
{
}

/// Setting the non-blocking mode changes that one bit only, and setting the
/// same mode again changes nothing.
pub proof fn lemma_nonblocking_one_bit(flags: i32, nonblocking: bool)
    ensures
        (with_nonblocking(flags, nonblocking) & O_NONBLOCK != 0) == nonblocking,
        with_nonblocking(flags, nonblocking) & !O_NONBLOCK == flags & !O_NONBLOCK,
        with_nonblocking(with_nonblocking(flags, nonblocking), nonblocking) == with_nonblocking(
            flags,
            nonblocking,
        ),
{
    assert((flags | 2048) & 2048 != 0) by (bit_vector);
    assert((flags & !2048i32) & 2048 == 0) by (bit_vector);
    assert((flags | 2048) & !2048i32 == flags & !2048i32) by (bit_vector);
    assert((flags & !2048i32) & !2048i32 == flags & !2048i32) by (bit_vector);
    assert((flags | 2048) | 2048 == flags | 2048) by (bit_vector);
}


} // verus!
