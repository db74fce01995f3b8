use vstd::prelude::*;

use crate::c_error::{error_of, CError};
use crate::c_result::CResult;
use crate::file::descriptor::FileDescriptor;

verus! {

/// The two ends of one pipe.
pub struct PipeResult {
    pub read_fd: FileDescriptor,
    pub write_fd: FileDescriptor,
}

impl PipeResult {
    /// Interprets what pipe or pipe2 returned, with `fds` the two slots it
    /// filled in: read end first, write end second.
    pub fn from_return(ret: i32, fds: &[i32]) -> (r: CResult<PipeResult>)
        requires
            fds@.len() == 2,
        ensures
            ret == -1 <==> r is Err,
            r is Err ==> exists|c: i32| r->Err_0 == error_of(c),
            r is Ok ==> r->Ok_0.read_fd.raw() == fds@[0] && r->Ok_0.write_fd.raw() == fds@[1],
    {
        if ret == -1 {
            Err(CError::new_from_errno())
        } else {
            Ok(PipeResult::new_from_slice(fds))
        }
    }

    pub fn new_from_slice(slice: &[i32]) -> (r: PipeResult)
        requires
            slice@.len() == 2,
        ensures
            r.read_fd.raw() == slice@[0],
            r.write_fd.raw() == slice@[1],
    {
        PipeResult::from_unowned(slice[0], slice[1])
    }

    pub fn from_unowned(read_fd: i32, write_fd: i32) -> (r: PipeResult)
        ensures
            r.read_fd.raw() == read_fd,
            r.write_fd.raw() == write_fd,
    {
        PipeResult {
            read_fd: FileDescriptor::from_unowned(read_fd),
            write_fd: FileDescriptor::from_unowned(write_fd),
        }
    }

    /// Gives up both raw descriptors, read end first.
    pub fn to_unowned(self) -> (r: (i32, i32))
        ensures
            r == (self.read_fd.raw(), self.write_fd.raw()),
    {
        (self.read_fd.to_unowned(), self.write_fd.to_unowned())
    }

    /// Keeps the write end only: returns it, and the read end's descriptor,
    /// which the caller now has to release.
    pub fn drop_read(self) -> (r: (FileDescriptor, i32))
        ensures
            r.0.raw() == self.write_fd.raw(),
            r.1 == self.read_fd.raw(),
    {
        let released = self.read_fd.to_unowned();
        (self.write_fd, released)
    }

    /// Keeps the read end only: returns it, and the write end's descriptor,
    /// which the caller now has to release.
    pub fn drop_write(self) -> (r: (FileDescriptor, i32))
        ensures
            r.0.raw() == self.read_fd.raw(),
            r.1 == self.write_fd.raw(),
    {
        let released = self.write_fd.to_unowned();
        (self.read_fd, released)
    }
}

} // verus!
