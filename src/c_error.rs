use vstd::prelude::*;

verus! {

// The OS error codes as Linux numbers them (x86_64, the values libc gives
// for that target).
pub const EAGAIN: i32 = 11;
pub const ENOMEM: i32 = 12;
pub const ENOSYS: i32 = 38;
pub const ECHILD: i32 = 10;
pub const EINVAL: i32 = 22;
pub const EINTR: i32 = 4;
pub const E2BIG: i32 = 7;
pub const EBADF: i32 = 9;
pub const EMFILE: i32 = 24;
pub const EIO: i32 = 5;
pub const ENOSPC: i32 = 28;
pub const EDQUOT: i32 = 122;
pub const EWOULDBLOCK: i32 = 11;
pub const EDESTADDRREQ: i32 = 89;
pub const EFAULT: i32 = 14;
pub const EFBIG: i32 = 27;
pub const EPERM: i32 = 1;
pub const EPIPE: i32 = 32;
pub const EISDIR: i32 = 21;
pub const ENFILE: i32 = 23;
pub const ERANGE: i32 = 34;
pub const ENOENT: i32 = 2;
pub const EACCES: i32 = 13;

/// A failure reported by the operating system: one of the named conditions,
/// or the numeric code itself when no named condition matches it.
#[derive(Clone, Copy, Debug, PartialEq, Eq, Structural)]
pub enum CError {
    Again,
    NoMemory,
    NoSys,
    Child,
    Invalid,
    Interrupted,
    TooBig,
    BadFileDescriptor,
    MFile,
    IO,
    NoSpace,
    DiskQuota,
    WouldBlock,
    DestinationAddressRequired,
    Fault,
    FileTooLarge,
    Perm,
    BrokenPipe,
    IsDirectory,
    NFile,
    Range,
    NotFound,
    PermissionDenied,
    Unknown(i32),
}

/// The named condition for an OS code, or `Unknown` carrying the code.
/// Where two names share a code, the first listed wins.
pub open spec fn error_of(code: i32) -> CError {
    if code == EAGAIN {
        CError::Again
    } else if code == ENOMEM {
        CError::NoMemory
    } else if code == ENOSYS {
        CError::NoSys
    } else if code == ECHILD {
        CError::Child
    } else if code == EINVAL {
        CError::Invalid
    } else if code == EINTR {
        CError::Interrupted
    } else if code == E2BIG {
        CError::TooBig
    } else if code == EBADF {
        CError::BadFileDescriptor
    } else if code == EMFILE {
        CError::MFile
    } else if code == EIO {
        CError::IO
    } else if code == ENOSPC {
        CError::NoSpace
    } else if code == EDQUOT {
        CError::DiskQuota
    } else if code == EWOULDBLOCK {
        CError::WouldBlock
    } else if code == EDESTADDRREQ {
        CError::DestinationAddressRequired
    } else if code == EFAULT {
        CError::Fault
    } else if code == EFBIG {
        CError::FileTooLarge
    } else if code == EPERM {
        CError::Perm
    } else if code == EPIPE {
        CError::BrokenPipe
    } else if code == EISDIR {
        CError::IsDirectory
    } else if code == ENFILE {
        CError::NFile
    } else if code == ERANGE {
        CError::Range
    } else if code == ENOENT {
        CError::NotFound
    } else if code == EACCES {
        CError::PermissionDenied
    } else {
        CError::Unknown(code)
    }
}

/// The OS code that a condition stands for.
pub open spec fn code_of(e: CError) -> i32 {
    match e {
        CError::Again => EAGAIN,
        CError::NoMemory => ENOMEM,
        CError::NoSys => ENOSYS,
        CError::Child => ECHILD,
        CError::Invalid => EINVAL,
        CError::Interrupted => EINTR,
        CError::TooBig => E2BIG,
        CError::BadFileDescriptor => EBADF,
        CError::MFile => EMFILE,
        CError::IO => EIO,
        CError::NoSpace => ENOSPC,
        CError::DiskQuota => EDQUOT,
        CError::WouldBlock => EWOULDBLOCK,
        CError::DestinationAddressRequired => EDESTADDRREQ,
        CError::Fault => EFAULT,
        CError::FileTooLarge => EFBIG,
        CError::Perm => EPERM,
        CError::BrokenPipe => EPIPE,
        CError::IsDirectory => EISDIR,
        CError::NFile => ENFILE,
        CError::Range => ERANGE,
        CError::NotFound => ENOENT,
        CError::PermissionDenied => EACCES,
        CError::Unknown(code) => code,
    }
}

/// Whether some named condition stands for this OS code.
pub open spec fn is_named_code(code: i32) -> bool {
    code == EAGAIN
        || code == ENOMEM
        || code == ENOSYS
        || code == ECHILD
        || code == EINVAL
        || code == EINTR
        || code == E2BIG
        || code == EBADF
        || code == EMFILE
        || code == EIO
        || code == ENOSPC
        || code == EDQUOT
        || code == EWOULDBLOCK
        || code == EDESTADDRREQ
        || code == EFAULT
        || code == EFBIG
        || code == EPERM
        || code == EPIPE
        || code == EISDIR
        || code == ENFILE
        || code == ERANGE
        || code == ENOENT
        || code == EACCES
}

/// Relies on errno::errno: reads the calling thread's last-error value.
/// Nothing is known of it beyond its type; it is whatever the last failing
/// call left there.
#[verifier::external_body]
fn last_os_code() -> i32 {
    errno::errno().0
}

/// What the bytes decode to as UTF-8 text, when they are valid UTF-8.
pub uninterp spec fn utf8_decode(b: Seq<u8>) -> Option<Seq<char>>;

/// Relies on std::str::from_utf8: `Ok` exactly when the bytes are valid
/// UTF-8, with the text they encode.
#[verifier::external_body]
fn utf8_text(b: &[u8]) -> (r: Option<String>)
    ensures
        r is None <==> utf8_decode(b@) is None,
        r is Some ==> r->Some_0@ == utf8_decode(b@)->Some_0,
{
    std::str::from_utf8(b).ok().map(|s| s.to_string())
}

/// Turns the raw bytes of a system error message into text, or `None` when
/// they are not valid UTF-8; no text is made up in that case.
pub fn decode_message(msg: &[u8]) -> (r: Option<String>)
    ensures
        r is None <==> utf8_decode(msg@) is None,
        r is Some ==> r->Some_0@ == utf8_decode(msg@)->Some_0,
{
    utf8_text(msg)
}

impl CError {
    /// Looks up the named condition for an OS code; codes without one are
    /// kept as `Unknown`.
    pub fn from_code(code: i32) -> (r: CError)
        ensures
            r == error_of(code),
    {
        if code == EAGAIN {
            CError::Again
        } else if code == ENOMEM {
            CError::NoMemory
        } else if code == ENOSYS {
            CError::NoSys
        } else if code == ECHILD {
            CError::Child
        } else if code == EINVAL {
            CError::Invalid
        } else if code == EINTR {
            CError::Interrupted
        } else if code == E2BIG {
            CError::TooBig
        } else if code == EBADF {
            CError::BadFileDescriptor
        } else if code == EMFILE {
            CError::MFile
        } else if code == EIO {
            CError::IO
        } else if code == ENOSPC {
            CError::NoSpace
        } else if code == EDQUOT {
            CError::DiskQuota
        } else if code == EWOULDBLOCK {
            CError::WouldBlock
        } else if code == EDESTADDRREQ {
            CError::DestinationAddressRequired
        } else if code == EFAULT {
            CError::Fault
        } else if code == EFBIG {
            CError::FileTooLarge
        } else if code == EPERM {
            CError::Perm
        } else if code == EPIPE {
            CError::BrokenPipe
        } else if code == EISDIR {
            CError::IsDirectory
        } else if code == ENFILE {
            CError::NFile
        } else if code == ERANGE {
            CError::Range
        } else if code == ENOENT {
            CError::NotFound
        } else if code == EACCES {
            CError::PermissionDenied
        } else {
            CError::Unknown(code)
        }
    }

    /// The OS code this condition stands for.
    pub fn to_code(&self) -> (r: i32)
        ensures
            r == code_of(*self),
    {
        match self {
            CError::Again => EAGAIN,
            CError::NoMemory => ENOMEM,
            CError::NoSys => ENOSYS,
            CError::Child => ECHILD,
            CError::Invalid => EINVAL,
            CError::Interrupted => EINTR,
            CError::TooBig => E2BIG,
            CError::BadFileDescriptor => EBADF,
            CError::MFile => EMFILE,
            CError::IO => EIO,
            CError::NoSpace => ENOSPC,
            CError::DiskQuota => EDQUOT,
            CError::WouldBlock => EWOULDBLOCK,
            CError::DestinationAddressRequired => EDESTADDRREQ,
            CError::Fault => EFAULT,
            CError::FileTooLarge => EFBIG,
            CError::Perm => EPERM,
            CError::BrokenPipe => EPIPE,
            CError::IsDirectory => EISDIR,
            CError::NFile => ENFILE,
            CError::Range => ERANGE,
            CError::NotFound => ENOENT,
            CError::PermissionDenied => EACCES,
            CError::Unknown(code) => *code,
        }
    }

    /// Captures the calling thread's last-error value. Call it right after
    /// the failing call, before anything else can overwrite that value.
    pub fn new_from_errno() -> (r: CError)
        ensures
            exists|code: i32| r == error_of(code),
    {
        let code = last_os_code();
        CError::from_code(code)
    }
}

impl From<i32> for CError {
    fn from(code: i32) -> (r: CError) {
        CError::from_code(code)
    }
}

impl vstd::std_specs::convert::FromSpecImpl<i32> for CError {
    open spec fn obeys_from_spec() -> bool {
        true
    }

    open spec fn from_spec(code: i32) -> CError {
        error_of(code)
    }
}

impl From<CError> for i32 {
    fn from(e: CError) -> (r: i32) {
        e.to_code()
    }
}

impl vstd::std_specs::convert::FromSpecImpl<CError> for i32 {
    open spec fn obeys_from_spec() -> bool {
        true
    }

    open spec fn from_spec(e: CError) -> i32 {
        code_of(e)
    }
}

/// Every code that has a named condition comes back unchanged from the
/// lookup and its inverse.
pub proof fn lemma_named_code_round_trip(code: i32)
    requires
        is_named_code(code),
    ensures
        error_of(code) != CError::Unknown(code),
        code_of(error_of(code)) == code,
{
}

/// A code without a named condition is kept as `Unknown` and given back
/// exactly.
pub proof fn lemma_unknown_code_round_trip(code: i32)
    requires
        !is_named_code(code),
    ensures
        error_of(code) == CError::Unknown(code),
        code_of(error_of(code)) == code,
{
}

} // verus!
