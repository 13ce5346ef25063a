use cuda_oxide::driver::{complete, teardown_diagnostic};
use cuda_oxide::error::{cuda_error, ErrorCode};

#[test]
fn success_status_is_ok() {
    assert_eq!(cuda_error(0), Ok(()));
}

#[test]
fn known_statuses_map_to_their_kinds() {
    assert_eq!(cuda_error(1), Err(ErrorCode::InvalidValue));
    assert_eq!(cuda_error(2), Err(ErrorCode::OutOfMemory));
    assert_eq!(cuda_error(201), Err(ErrorCode::InvalidContext));
    assert_eq!(cuda_error(222), Err(ErrorCode::UnsupportedPtxVersion));
    assert_eq!(cuda_error(600), Err(ErrorCode::NotReady));
    assert_eq!(cuda_error(719), Err(ErrorCode::LaunchFailed));
    assert_eq!(cuda_error(909), Err(ErrorCode::Timeout));
    assert_eq!(cuda_error(999), Err(ErrorCode::Unknown));
}

#[test]
fn unlisted_statuses_are_unknown() {
    assert_eq!(cuda_error(9), Err(ErrorCode::Unknown));
    assert_eq!(cuda_error(12345), Err(ErrorCode::Unknown));
    assert_eq!(cuda_error(u32::MAX), Err(ErrorCode::Unknown));
}

#[test]
fn codes_round_trip() {
    for code in 0u32..1000 {
        if let Some(e) = ErrorCode::from_code(code) {
            assert_eq!(e.code(), code);
        }
    }
    assert_eq!(ErrorCode::from_code(34), Some(ErrorCode::StubLibrary));
    assert_eq!(ErrorCode::from_code(35), None);
    assert_eq!(ErrorCode::StreamCaptureWrongThread.code(), 908);
}

#[test]
fn complete_passes_value_on_success() {
    assert_eq!(complete(0, 42u64), Ok(42));
    assert_eq!(complete(2, 42u64), Err(ErrorCode::OutOfMemory));
}

#[test]
fn teardown_failures_become_diagnostics() {
    assert_eq!(teardown_diagnostic(0), None);
    assert_eq!(teardown_diagnostic(709), Some(ErrorCode::ContextIsDestroyed));
}
