use explicit_sync::error::TimelineError;
use explicit_sync::model::{DrmDeviceModel, MODEL_INVALID_ARGUMENT};

#[test]
fn signal_then_query_covers_point() {
    let mut m = DrmDeviceModel::new();
    let handle = m.create_syncobj();
    assert_eq!(m.signal_point(handle, 9), Ok(()));
    let queried = m.query_last_signaled(handle).unwrap();
    assert!(queried >= 9);
    assert_eq!(queried, 9);
}

#[test]
fn signal_never_lowers_last_signaled() {
    let mut m = DrmDeviceModel::new();
    let handle = m.create_syncobj();
    m.signal_point(handle, 9).unwrap();
    m.signal_point(handle, 4).unwrap();
    assert_eq!(m.query_last_signaled(handle), Ok(9));
}

#[test]
fn fresh_syncobj_is_unsignaled() {
    let mut m = DrmDeviceModel::new();
    let handle = m.create_syncobj();
    assert_eq!(m.query_last_signaled(handle), Ok(0));
    assert_eq!(m.is_point_signaled(handle, 0), Ok(true));
    assert_eq!(m.is_point_signaled(handle, 1), Ok(false));
}

#[test]
fn handle_fd_round_trip() {
    let mut m = DrmDeviceModel::new();
    let first = m.create_syncobj();
    let second = m.create_syncobj();
    let fd = m.handle_to_fd(second).unwrap();
    assert!(m.is_valid_syncobj_fd(fd));
    assert_eq!(m.fd_to_handle(fd), Ok(second));
    let fd_first = m.handle_to_fd(first).unwrap();
    assert_eq!(m.fd_to_handle(fd_first), Ok(first));
}

#[test]
fn unknown_handle_is_a_kernel_error() {
    let mut m = DrmDeviceModel::new();
    assert_eq!(
        m.query_last_signaled(1),
        Err(TimelineError::KernelError(MODEL_INVALID_ARGUMENT))
    );
    assert_eq!(
        m.signal_point(7, 1),
        Err(TimelineError::KernelError(MODEL_INVALID_ARGUMENT))
    );
    assert_eq!(
        m.handle_to_fd(0),
        Err(TimelineError::KernelError(MODEL_INVALID_ARGUMENT))
    );
}

#[test]
fn unknown_fd_does_not_validate() {
    let mut m = DrmDeviceModel::new();
    assert!(!m.is_valid_syncobj_fd(1));
    assert_eq!(
        m.fd_to_handle(1),
        Err(TimelineError::KernelError(MODEL_INVALID_ARGUMENT))
    );
    m.create_syncobj();
    assert!(m.is_valid_syncobj_fd(1));
    assert!(!m.is_valid_syncobj_fd(-3));
}

#[test]
fn signals_stay_per_object() {
    let mut m = DrmDeviceModel::new();
    let a = m.create_syncobj();
    let b = m.create_syncobj();
    m.signal_point(a, 5).unwrap();
    assert_eq!(m.query_last_signaled(a), Ok(5));
    assert_eq!(m.query_last_signaled(b), Ok(0));
}
