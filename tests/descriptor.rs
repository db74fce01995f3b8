use c_wrapper::c_error::CError;
use c_wrapper::file::descriptor::{
    ExactRead, ExactStatus, FileDescriptor, IoFailure, NO_DESCRIPTOR, O_NONBLOCK, STDERR_FILENO,
    STDIN_FILENO, STDOUT_FILENO,
};

#[test]
fn standard_stream_numbers() {
    assert_eq!(STDIN_FILENO, libc::STDIN_FILENO);
    assert_eq!(STDOUT_FILENO, libc::STDOUT_FILENO);
    assert_eq!(STDERR_FILENO, libc::STDERR_FILENO);
    assert_eq!(O_NONBLOCK, libc::O_NONBLOCK);
    assert_eq!(FileDescriptor::from_stdin().get_fd(), 0);
    assert_eq!(FileDescriptor::from_stdout().get_fd(), 1);
    assert_eq!(FileDescriptor::from_stderr().get_fd(), 2);
}

#[test]
fn close_twice_releases_once() {
    let mut fd = FileDescriptor::from_unowned(7);
    assert!(!fd.is_closed());
    assert_eq!(fd.begin_close(), Some(7));
    assert!(fd.is_closed());
    assert_eq!(fd.begin_close(), None);
    assert_eq!(fd.get_fd(), NO_DESCRIPTOR);
}

#[test]
fn close_outcome_reports_failure() {
    assert_eq!(FileDescriptor::close_outcome(0), Ok(()));
    errno::set_errno(errno::Errno(libc::EBADF));
    assert_eq!(FileDescriptor::close_outcome(-1), Err(CError::BadFileDescriptor));
}

#[test]
fn detach_leaves_the_slot_empty() {
    let mut fd = FileDescriptor::from_unowned(9);
    assert_eq!(fd.detach(), 9);
    assert_eq!(fd.get_fd(), NO_DESCRIPTOR);
    assert_eq!(FileDescriptor::from_unowned(4).to_unowned(), 4);
}

#[test]
fn wrapped_streams_see_their_number() {
    assert_eq!(FileDescriptor::wrap_stdin(|d| d.get_fd()), 0);
    assert_eq!(FileDescriptor::wrap_stdout(|d| d.get_fd()), 1);
    assert_eq!(FileDescriptor::wrap_stderr(|d| d.get_fd()), 2);
    assert_eq!(FileDescriptor::wrap_unowned(12, |d| d.get_fd() + 1), 13);
}

#[test]
fn new_descriptors_are_owned() {
    let fd = FileDescriptor::from_new_fd(5).ok().unwrap();
    assert_eq!(fd.get_fd(), 5);
}

#[test]
fn redirect_outcome_cases() {
    let fd = FileDescriptor::from_unowned(1);
    assert_eq!(fd.redirect_outcome(1), Ok(()));
    errno::set_errno(errno::Errno(libc::EBADF));
    assert_eq!(fd.redirect_outcome(-1), Err(CError::BadFileDescriptor));
}

#[test]
fn nonblocking_touches_one_bit() {
    let flags = libc::O_RDWR | libc::O_APPEND;
    assert_eq!(FileDescriptor::nonblocking_update(flags, true), Some(flags | libc::O_NONBLOCK));
    assert_eq!(FileDescriptor::nonblocking_update(flags, false), None);
    let nb = flags | libc::O_NONBLOCK;
    assert_eq!(FileDescriptor::nonblocking_update(nb, true), None);
    assert_eq!(FileDescriptor::nonblocking_update(nb, false), Some(flags));
}

#[test]
fn read_failures_map_to_io_signals() {
    assert_eq!(FileDescriptor::read_failure(CError::Again), IoFailure::WouldBlock);
    assert_eq!(FileDescriptor::read_failure(CError::WouldBlock), IoFailure::WouldBlock);
    assert_eq!(FileDescriptor::read_failure(CError::Interrupted), IoFailure::Interrupted);
    assert_eq!(FileDescriptor::read_failure(CError::Fault), IoFailure::PermissionDenied);
    assert_eq!(FileDescriptor::read_failure(CError::BadFileDescriptor), IoFailure::Os(libc::EBADF));
    assert_eq!(FileDescriptor::read_failure(CError::Perm), IoFailure::Os(libc::EPERM));
}

#[test]
fn write_failures_map_to_io_signals() {
    assert_eq!(FileDescriptor::write_failure(CError::Again), IoFailure::WouldBlock);
    assert_eq!(FileDescriptor::write_failure(CError::DestinationAddressRequired), IoFailure::NotConnected);
    assert_eq!(FileDescriptor::write_failure(CError::Fault), IoFailure::PermissionDenied);
    assert_eq!(FileDescriptor::write_failure(CError::Perm), IoFailure::PermissionDenied);
    assert_eq!(FileDescriptor::write_failure(CError::Interrupted), IoFailure::Interrupted);
    assert_eq!(FileDescriptor::write_failure(CError::BrokenPipe), IoFailure::BrokenPipe);
    assert_eq!(FileDescriptor::write_failure(CError::NoSpace), IoFailure::Os(libc::ENOSPC));
}

#[test]
fn write_to_closed_pipe_is_broken_pipe() {
    errno::set_errno(errno::Errno(libc::EPIPE));
    assert_eq!(FileDescriptor::write_outcome(-1), Err(IoFailure::BrokenPipe));
    errno::set_errno(errno::Errno(libc::EPIPE));
    assert_eq!(FileDescriptor::count_outcome(-1), Err(CError::BrokenPipe));
    assert_eq!(FileDescriptor::write_outcome(3), Ok(3));
}

#[test]
fn read_outcomes() {
    assert_eq!(FileDescriptor::read_outcome(0), Ok(0));
    assert_eq!(FileDescriptor::count_outcome(17), Ok(17));
    errno::set_errno(errno::Errno(libc::EAGAIN));
    assert_eq!(FileDescriptor::read_outcome(-1), Err(IoFailure::WouldBlock));
    errno::set_errno(errno::Errno(libc::EINTR));
    assert_eq!(FileDescriptor::read_outcome(-1), Err(IoFailure::Interrupted));
}

#[test]
fn read_bytes_keeps_what_arrived() {
    let buf = vec![1u8, 2, 3, 0, 0];
    assert_eq!(FileDescriptor::read_bytes_outcome(buf, 3), Ok(vec![1u8, 2, 3]));
    assert_eq!(FileDescriptor::read_bytes_outcome(vec![0u8; 4], 0), Ok(vec![]));
    errno::set_errno(errno::Errno(libc::EIO));
    assert_eq!(FileDescriptor::read_bytes_outcome(vec![0u8; 4], -1), Err(CError::IO));
}

#[test]
fn exact_read_collects_short_reads() {
    let mut st = ExactRead::new(5);
    assert_eq!(st.remaining(), 5);
    assert_eq!(st.accept(2, &[b'h', b'e', 0, 0, 0]), ExactStatus::Pending);
    assert_eq!(st.remaining(), 3);
    assert_eq!(st.accept(3, &[b'l', b'l', b'o']), ExactStatus::Complete);
    assert!(st.is_complete());
    assert_eq!(st.into_bytes(), b"hello".to_vec());
}

#[test]
fn exact_read_fails_on_early_end() {
    let mut st = ExactRead::new(4);
    assert_eq!(st.accept(2, &[1, 2, 0, 0]), ExactStatus::Pending);
    assert_eq!(st.accept(0, &[0, 0]), ExactStatus::Failed(CError::IO));
    assert!(!st.is_complete());
}

#[test]
fn exact_read_fails_on_error() {
    let mut st = ExactRead::new(4);
    errno::set_errno(errno::Errno(libc::EINTR));
    assert_eq!(st.accept(-1, &[0, 0, 0, 0]), ExactStatus::Failed(CError::Interrupted));
}

#[test]
fn exact_read_of_nothing_is_complete() {
    let st = ExactRead::new(0);
    assert!(st.is_complete());
    assert_eq!(st.into_bytes(), Vec::<u8>::new());
}
