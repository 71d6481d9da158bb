use explicit_sync::buffer::DataType;
use explicit_sync::drm::{
    device_candidate_path, drm_ioctl_code, fd_to_handle_outcome, find_device_outcome,
    kernel_result, point_is_signaled, DrmDeviceFd, DEVICE_CANDIDATE_COUNT,
    DRM_SYNCOBJ_CREATE_NR, DRM_SYNCOBJ_EVENTFD_NR, DRM_SYNCOBJ_FD_TO_HANDLE_NR,
    DRM_SYNCOBJ_HANDLE_TO_FD_NR, DRM_SYNCOBJ_QUERY_FLAGS_LAST_SUBMITTED, DRM_SYNCOBJ_QUERY_NR,
    DRM_SYNCOBJ_TIMELINE_SIGNAL_NR, DRM_SYNCOBJ_TIMELINE_WAIT_NR, DRM_VERSION_NR,
};
use explicit_sync::error::{DmaError, TimelineError, TimeoutError};
use explicit_sync::loop_builder::LoopBuilder;
use explicit_sync::param::MetaType;
use explicit_sync::utils::{BoundedQueue, TimeoutFuture, TMR};

#[test]
fn ioctl_codes_match_kernel_values() {
    // Argument-structure sizes fixed by the kernel ABI.
    assert_eq!(drm_ioctl_code(DRM_SYNCOBJ_TIMELINE_WAIT_NR, 48), 0xC03064CA);
    assert_eq!(drm_ioctl_code(DRM_SYNCOBJ_TIMELINE_SIGNAL_NR, 24), 0xC01864CD);
    assert_eq!(drm_ioctl_code(DRM_SYNCOBJ_QUERY_NR, 24), 0xC01864CB);
    assert_eq!(drm_ioctl_code(DRM_SYNCOBJ_EVENTFD_NR, 24), 0xC01864CF);
    assert_eq!(drm_ioctl_code(DRM_SYNCOBJ_FD_TO_HANDLE_NR, 16), 0xC01064C2);
    assert_eq!(drm_ioctl_code(DRM_SYNCOBJ_HANDLE_TO_FD_NR, 16), 0xC01064C1);
    assert_eq!(drm_ioctl_code(DRM_SYNCOBJ_CREATE_NR, 8), 0xC00864BF);
    assert_eq!(drm_ioctl_code(DRM_VERSION_NR, 64), 0xC0406400);
    assert_eq!(DRM_SYNCOBJ_QUERY_FLAGS_LAST_SUBMITTED, 1);
}

#[test]
fn device_candidates_cover_card0_to_card15() {
    assert_eq!(DEVICE_CANDIDATE_COUNT, 16);
    assert_eq!(device_candidate_path(0), "/dev/dri/card0");
    assert_eq!(device_candidate_path(9), "/dev/dri/card9");
    assert_eq!(device_candidate_path(10), "/dev/dri/card10");
    assert_eq!(device_candidate_path(15), "/dev/dri/card15");
}

#[test]
fn find_device_with_no_valid_candidate_fails_not_found() {
    let probes = vec![false; 16];
    assert_eq!(find_device_outcome(&probes), Err(TimelineError::NotFound));
    let none: Vec<bool> = vec![];
    assert_eq!(find_device_outcome(&none), Err(TimelineError::NotFound));
}

#[test]
fn find_device_picks_first_valid_candidate() {
    let mut probes = vec![false; 16];
    probes[3] = true;
    probes[7] = true;
    assert_eq!(find_device_outcome(&probes), Ok(3));
}

#[test]
fn kernel_result_keeps_os_error_code() {
    assert_eq!(kernel_result::<u64>(Ok(5)), Ok(5));
    assert_eq!(kernel_result::<u64>(Err(110)), Err(TimelineError::KernelError(110)));
}

#[test]
fn fd_to_handle_requires_valid_device() {
    assert_eq!(
        fd_to_handle_outcome(false, Ok(7)),
        Err(TimelineError::InvalidDescriptor)
    );
    assert_eq!(fd_to_handle_outcome(true, Ok(7)), Ok(7));
    assert_eq!(
        fd_to_handle_outcome(true, Err(9)),
        Err(TimelineError::KernelError(9))
    );
}

#[test]
fn point_signal_comparison() {
    assert!(point_is_signaled(5, 5));
    assert!(point_is_signaled(6, 5));
    assert!(!point_is_signaled(4, 5));
}

#[test]
fn drm_device_fd_keeps_descriptor() {
    let dev = DrmDeviceFd::new(12);
    assert_eq!(dev.as_raw_fd(), 12);
}

#[test]
fn data_type_round_trips_through_raw_tags() {
    for raw in 0u32..8 {
        assert_eq!(DataType::from_raw(raw).as_raw(), raw);
    }
    assert_eq!(DataType::from_raw(5), DataType::SyncObj);
    assert_eq!(DataType::from_raw(3), DataType::DmaBuf);
    assert_eq!(DataType::SyncObj.as_raw(), 5);
}

#[test]
fn meta_type_round_trips_through_raw_tags() {
    for raw in 0u32..12 {
        assert_eq!(MetaType::from_raw(raw).as_raw(), raw);
    }
    assert_eq!(MetaType::from_raw(9), MetaType::SyncTimeline);
    assert_eq!(MetaType::SyncTimeline.as_raw(), 9);
}

#[test]
fn tmr_votes_out_a_single_corrupted_copy() {
    let mut cell: TMR<u64> = TMR::new();
    assert_eq!(cell.get(), None);
    cell.set(7);
    assert_eq!(cell.get(), Some(7));
    cell.slot1 = Some(8);
    assert_eq!(cell.get(), Some(7));
    assert_eq!(cell.get_checked(), Ok(7));
}

#[test]
fn tmr_disagreement_is_resource_corruption() {
    let mut cell: TMR<u64> = TMR::new();
    cell.slot0 = Some(1);
    cell.slot1 = Some(2);
    cell.slot2 = Some(3);
    assert_eq!(cell.get(), None);
    assert_eq!(cell.get_checked(), Err(TimelineError::ResourceCorruption));
    assert_eq!(TMR::<u64>::new().get_checked(), Err(TimelineError::ResourceCorruption));
}

#[test]
fn bounded_queue_is_fifo_within_capacity() {
    let mut q: BoundedQueue<u32, 2> = BoundedQueue::new();
    assert_eq!(q.pop(), None);
    assert_eq!(q.push(1), Ok(()));
    assert_eq!(q.push(2), Ok(()));
    assert_eq!(q.len(), 2);
    assert_eq!(q.push(3), Err(3));
    assert_eq!(q.pop(), Some(1));
    assert_eq!(q.push(3), Ok(()));
    assert_eq!(q.pop(), Some(2));
    assert_eq!(q.pop(), Some(3));
    assert_eq!(q.pop(), None);
}

#[test]
fn zero_capacity_queue_rejects_every_item() {
    let mut q: BoundedQueue<u32, 0> = BoundedQueue::new();
    assert_eq!(q.push(1), Err(1));
    assert_eq!(q.pop(), None);
}

#[test]
fn timeout_future_checks_poll_budget_before_deadline() {
    let mut f = TimeoutFuture::new(100, 2, 0);
    assert_eq!(f.deadline_nanos, 100);
    assert_eq!(f.poll_step(10), Ok(()));
    assert_eq!(f.poll_step(20), Ok(()));
    // The poll-count bound is checked first, even past the deadline.
    assert_eq!(f.poll_step(200), Err(TimeoutError::MaxPollsExceeded));
}

#[test]
fn timeout_future_deadline_exceeded() {
    let mut f = TimeoutFuture::new(100, 10, 0);
    assert_eq!(f.poll_step(101), Err(TimeoutError::DeadlineExceeded));
    assert_eq!(f.poll_count, 0);
    assert_eq!(f.poll_step(100), Ok(()));
    assert_eq!(f.poll_count, 1);
}

#[test]
fn dma_error_variants_carry_their_cause() {
    let e = DmaError::SyncFailed(TimelineError::Timeout);
    assert!(matches!(e, DmaError::SyncFailed(TimelineError::Timeout)));
    assert!(matches!(DmaError::NotDmaBuf, DmaError::NotDmaBuf));
    let op = DmaError::InvalidOperation(String::from("import"));
    assert!(matches!(op, DmaError::InvalidOperation(_)));
}

#[test]
fn loop_builder_collects_configuration() {
    let b = LoopBuilder::new()
        .name(String::from("data-loop"))
        .class(String::from("data.rt"))
        .cpu_affinity(vec![0, 2])
        .rt_priority(20)
        .property(String::from("loop.prio"), String::from("high"))
        .property(String::from("loop.idle"), String::from("low"));
    assert_eq!(b.name.as_deref(), Some("data-loop"));
    assert_eq!(b.class.as_deref(), Some("data.rt"));
    assert_eq!(b.cpu_affinity, Some(vec![0, 2]));
    assert_eq!(b.rt_priority, Some(20));
    assert_eq!(b.properties.len(), 2);
    assert_eq!(b.properties[0].0, "loop.prio");
    assert_eq!(b.properties[1].1, "low");
    let d = LoopBuilder::default();
    assert!(d.name.is_none());
    assert!(d.properties.is_empty());
}
