use c_wrapper::c_error::CError;
use c_wrapper::exec::{c_string_bytes, exec_outcome, marshal_strings};
use c_wrapper::fork::ForkResult;
use c_wrapper::wait::{WaitResult, WaitStatus};

#[test]
fn fork_sides() {
    assert_eq!(ForkResult::from_return(0), Ok(ForkResult::Child));
    assert_eq!(ForkResult::from_return(4321), Ok(ForkResult::Parent(4321)));
    errno::set_errno(errno::Errno(libc::EAGAIN));
    assert_eq!(ForkResult::from_return(-1), Err(CError::Again));
}

#[test]
fn exit_code_seven_decodes() {
    let st = WaitStatus(7 << 8);
    assert!(st.exited_normally());
    assert_eq!(st.exit_status(), 7);
    assert!(!st.terminated_by_signal());
    assert!(!st.is_stopped());
    assert!(!st.dumped_core());
    assert_eq!(st.terminating_signal(), 0);
}

#[test]
fn signal_termination_decodes() {
    let st = WaitStatus(libc::SIGKILL);
    assert!(!st.exited_normally());
    assert!(st.terminated_by_signal());
    assert_eq!(st.terminating_signal(), libc::SIGKILL);
    let core = WaitStatus(libc::SIGSEGV | 0x80);
    assert!(core.terminated_by_signal());
    assert!(core.dumped_core());
    assert_eq!(core.terminating_signal(), libc::SIGSEGV);
}

#[test]
fn stop_decodes() {
    let st = WaitStatus((libc::SIGSTOP << 8) | 0x7f);
    assert!(st.is_stopped());
    assert!(!st.exited_normally());
    assert!(!st.terminated_by_signal());
    assert_eq!(st.stopping_signal(), libc::SIGSTOP);
}

#[test]
fn decoding_agrees_with_the_system_macros() {
    for s in [0, 7 << 8, 255 << 8, 9, 0x8b, 0x137f, 0xffff] {
        let st = WaitStatus(s);
        assert_eq!(st.exited_normally(), libc::WIFEXITED(s));
        assert_eq!(st.terminated_by_signal(), libc::WIFSIGNALED(s));
        assert_eq!(st.is_stopped(), libc::WIFSTOPPED(s));
        assert_eq!(st.dumped_core(), libc::WCOREDUMP(s));
        assert_eq!(st.exit_status() as i32, libc::WEXITSTATUS(s));
        assert_eq!(st.terminating_signal(), libc::WTERMSIG(s));
        assert_eq!(st.stopping_signal(), libc::WSTOPSIG(s));
    }
}

#[test]
fn wait_returns() {
    let r = WaitResult::from_return(77, 3 << 8).ok().unwrap();
    assert_eq!(r.pid, 77);
    assert_eq!(r.status.exit_status(), 3);
    errno::set_errno(errno::Errno(libc::ECHILD));
    assert_eq!(WaitResult::from_return(-1, 0).err(), Some(CError::Child));
    let n = WaitResult::new(5, 0);
    assert_eq!(n.pid, 5);
    assert_eq!(n.status.0, 0);
}

#[test]
fn strings_are_nul_terminated() {
    assert_eq!(c_string_bytes(b"ls"), Some(b"ls\0".to_vec()));
    assert_eq!(c_string_bytes(b""), Some(vec![0u8]));
    assert_eq!(c_string_bytes(b"a\0b"), None);
}

#[test]
fn argument_lists_marshal_in_order() {
    let args = vec![b"/bin/echo".to_vec(), b"hi".to_vec(), Vec::new()];
    assert_eq!(
        marshal_strings(&args),
        Some(vec![b"/bin/echo\0".to_vec(), b"hi\0".to_vec(), vec![0u8]])
    );
    assert_eq!(marshal_strings(&vec![b"ok".to_vec(), b"b\0ad".to_vec()]), None);
    assert_eq!(marshal_strings(&Vec::new()), Some(Vec::new()));
}

#[test]
fn exec_returns_only_failure() {
    errno::set_errno(errno::Errno(libc::ENOENT));
    assert_eq!(exec_outcome(-1), Err(CError::NotFound));
}
