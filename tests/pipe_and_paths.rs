use c_wrapper::c_error::CError;
use c_wrapper::cwd::{next_buffer_len, INITIAL_BUFFER_SIZE};
use c_wrapper::file::access::{AccessCheck, F_OK, R_OK, W_OK, X_OK};
use c_wrapper::pipe::PipeResult;

#[test]
fn pipe_ends_in_order() {
    let p = PipeResult::from_return(0, &[3, 4]).ok().unwrap();
    assert_eq!(p.to_unowned(), (3, 4));
    errno::set_errno(errno::Errno(libc::EMFILE));
    assert_eq!(PipeResult::from_return(-1, &[-1, -1]).err(), Some(CError::MFile));
}

#[test]
fn keep_write_only_releases_the_read_end() {
    let p = PipeResult::from_unowned(3, 4);
    let (kept, released) = p.drop_read();
    assert_eq!(kept.get_fd(), 4);
    assert_eq!(released, 3);
    let p = PipeResult::new_from_slice(&[5, 6]);
    let (kept, released) = p.drop_write();
    assert_eq!(kept.get_fd(), 5);
    assert_eq!(released, 6);
}

#[test]
fn access_bits_match_the_system() {
    assert_eq!(F_OK, libc::F_OK);
    assert_eq!(R_OK, libc::R_OK);
    assert_eq!(W_OK, libc::W_OK);
    assert_eq!(X_OK, libc::X_OK);
    let all = [
        AccessCheck::FileExists,
        AccessCheck::Read,
        AccessCheck::Write,
        AccessCheck::Execute,
        AccessCheck::ReadWrite,
        AccessCheck::ReadExecute,
        AccessCheck::WriteExecute,
        AccessCheck::AllPermissions,
    ];
    for c in all {
        assert_eq!(AccessCheck::from_bits(c.to_bits()), Some(c));
        assert_eq!(i32::from(c), c.to_bits());
    }
    assert_eq!(AccessCheck::ReadWrite.to_bits(), 6);
    assert_eq!(AccessCheck::AllPermissions.to_bits(), 7);
    assert_eq!(AccessCheck::from_bits(8), None);
}

#[test]
fn access_answers() {
    assert_eq!(AccessCheck::Read.access_outcome(0), Ok(true));
    assert_eq!(AccessCheck::Read.answer_failure(CError::PermissionDenied), Ok(false));
    assert_eq!(AccessCheck::FileExists.answer_failure(CError::PermissionDenied), Err(CError::PermissionDenied));
    assert_eq!(AccessCheck::FileExists.answer_failure(CError::NotFound), Ok(false));
    assert_eq!(AccessCheck::Write.answer_failure(CError::NotFound), Err(CError::NotFound));
    errno::set_errno(errno::Errno(libc::ENOENT));
    assert_eq!(AccessCheck::FileExists.access_outcome(-1), Ok(false));
}

#[test]
fn cwd_buffer_grows_on_range_only() {
    assert_eq!(INITIAL_BUFFER_SIZE, 100);
    assert_eq!(next_buffer_len(100, CError::Range), Some(200));
    assert_eq!(next_buffer_len(100, CError::NoMemory), None);
    assert_eq!(next_buffer_len(usize::MAX, CError::Range), None);
}
