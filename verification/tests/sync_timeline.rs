use explicit_sync::buffer::{AsyncBuffer, Buffer, BufferMeta, Data, DataType};
use explicit_sync::error::{DmaError, TimelineError};
use explicit_sync::meta::SyncTimelineRef;
use explicit_sync::param::MetaType;

#[test]
fn initialize_then_read_points() {
    let mut t = SyncTimelineRef::new(0, 0);
    t.initialize(17, 4);
    assert_eq!(t.acquire_point(), 17);
    assert_eq!(t.release_point(), 4);
    assert_eq!(t.flags(), 0);
}

#[test]
fn new_clears_flags_and_stores_points() {
    let t = SyncTimelineRef::new(9, 2);
    assert_eq!(t.flags(), 0);
    assert_eq!(t.acquire_point(), 9);
    assert_eq!(t.release_point(), 2);
}

#[test]
fn default_is_zeroed() {
    let t = SyncTimelineRef::default();
    assert_eq!(t.flags(), 0);
    assert_eq!(t.acquire_point(), 0);
    assert_eq!(t.release_point(), 0);
}

#[test]
fn set_flags_twice_is_idempotent() {
    let mut once = SyncTimelineRef::new(3, 1);
    once.set_flags(5);
    let mut twice = SyncTimelineRef::new(3, 1);
    twice.set_flags(5);
    twice.set_flags(5);
    assert_eq!(once.flags(), twice.flags());
    assert_eq!(once, twice);
}

#[test]
fn set_flags_keeps_points() {
    let mut t = SyncTimelineRef::new(8, 6);
    t.set_flags(1);
    assert_eq!(t.flags(), 1);
    assert_eq!(t.acquire_point(), 8);
    assert_eq!(t.release_point(), 6);
}

#[test]
fn zeroed_timeline_is_locally_available() {
    let t = SyncTimelineRef::new(0, 0);
    assert_eq!(t.flags(), 0);
    assert!(t.is_locally_available());
}

#[test]
fn local_availability_follows_point_comparison() {
    // The stored-number hint is `acquire_point >= release_point`.
    let mut t = SyncTimelineRef::new(5, 3);
    assert!(t.is_locally_available());
    t.set_release_point(5);
    assert!(t.is_locally_available());
    t.set_release_point(6);
    assert!(!t.is_locally_available());
}

#[test]
fn signal_release_stores_release_point() {
    let mut t = SyncTimelineRef::new(5, 0);
    t.signal_release(5);
    assert_eq!(t.release_point(), 5);
    assert_eq!(t.acquire_point(), 5);
}

#[test]
fn set_acquire_point_stores_acquire_point() {
    let mut t = SyncTimelineRef::new(0, 0);
    t.set_acquire_point(42);
    assert_eq!(t.acquire_point(), 42);
    assert_eq!(t.release_point(), 0);
}

#[test]
fn extract_two_sync_fds() {
    let datas = vec![
        Data::new(DataType::SyncObj, 0, 10, 0),
        Data::new(DataType::SyncObj, 0, 11, 0),
    ];
    let r = SyncTimelineRef::extract_timeline_fds_from_buffer_data(&datas);
    assert_eq!(r, Ok((10, 11)));
}

#[test]
fn extract_skips_other_element_types() {
    let datas = vec![
        Data::new(DataType::MemPtr, 0, -1, 4096),
        Data::new(DataType::SyncObj, 0, 10, 0),
        Data::new(DataType::DmaBuf, 0, 7, 4096),
        Data::new(DataType::SyncObj, 0, 11, 0),
        Data::new(DataType::SyncObj, 0, 12, 0),
    ];
    let r = SyncTimelineRef::extract_timeline_fds_from_buffer_data(&datas);
    assert_eq!(r, Ok((10, 11)));
}

#[test]
fn extract_with_one_sync_fd_fails_not_found() {
    let datas = vec![Data::new(DataType::SyncObj, 0, 10, 0)];
    let r = SyncTimelineRef::extract_timeline_fds_from_buffer_data(&datas);
    assert_eq!(r, Err(TimelineError::NotFound));
}

#[test]
fn extract_with_no_sync_fd_fails_not_found() {
    let datas = vec![Data::new(DataType::MemPtr, 0, -1, 4096)];
    let r = SyncTimelineRef::extract_timeline_fds_from_buffer_data(&datas);
    assert_eq!(r, Err(TimelineError::NotFound));
}

#[test]
fn data_fd_only_for_descriptor_bearing_types() {
    assert_eq!(Data::new(DataType::MemFd, 0, 9, 0).fd(), Some(9));
    assert_eq!(Data::new(DataType::DmaBuf, 0, 9, 0).fd(), Some(9));
    assert_eq!(Data::new(DataType::SyncObj, 0, 9, 0).fd(), Some(9));
    assert_eq!(Data::new(DataType::MemPtr, 0, 9, 0).fd(), None);
    assert_eq!(Data::new(DataType::SyncObj, 0, -1, 0).fd(), None);
    assert_eq!(Data::new(DataType::SyncObj, 0, (i32::MAX as i64) + 1, 0).fd(), None);
}

#[test]
fn sync_obj_fd_requires_sync_obj_type() {
    assert_eq!(Data::new(DataType::SyncObj, 0, 3, 0).sync_obj_fd(), Some(3));
    assert_eq!(Data::new(DataType::MemFd, 0, 3, 0).sync_obj_fd(), None);
}

#[test]
fn dma_buf_fd_requires_dma_buf_type() {
    assert_eq!(Data::new(DataType::DmaBuf, 0, 5, 0).dma_buf_fd(), Some(5));
    assert_eq!(Data::new(DataType::SyncObj, 0, 5, 0).dma_buf_fd(), None);
}

#[test]
fn buffer_finds_sync_timeline_metadata() {
    let buffer = Buffer {
        metas: vec![
            BufferMeta { meta_type: MetaType::Header, sync_timeline: None },
            BufferMeta {
                meta_type: MetaType::SyncTimeline,
                sync_timeline: Some(SyncTimelineRef::new(7, 2)),
            },
        ],
        datas: vec![],
    };
    let found = buffer.get_sync_timeline_metadata();
    assert_eq!(found, Some(SyncTimelineRef::new(7, 2)));
}

#[test]
fn buffer_without_sync_timeline_metadata_finds_none() {
    let buffer = Buffer {
        metas: vec![BufferMeta { meta_type: MetaType::Header, sync_timeline: None }],
        datas: vec![],
    };
    assert_eq!(buffer.get_sync_timeline_metadata(), None);
    let empty = Buffer { metas: vec![], datas: vec![] };
    assert_eq!(empty.get_sync_timeline_metadata(), None);
}

#[test]
fn buffer_get_sync_fds_takes_first_two_sync_elements() {
    let buffer = Buffer {
        metas: vec![],
        datas: vec![
            Data::new(DataType::MemPtr, 0, -1, 64),
            Data::new(DataType::SyncObj, 0, 10, 0),
            Data::new(DataType::SyncObj, 0, 11, 0),
        ],
    };
    assert_eq!(buffer.get_sync_fds(), Some((10, 11)));
}

#[test]
fn buffer_get_sync_fds_needs_two_sync_elements() {
    let buffer = Buffer {
        metas: vec![],
        datas: vec![Data::new(DataType::SyncObj, 0, 10, 0)],
    };
    assert_eq!(buffer.get_sync_fds(), None);
}

#[test]
fn buffer_datas_with_type_filters_elements() {
    let buffer = Buffer {
        metas: vec![],
        datas: vec![
            Data::new(DataType::DmaBuf, 0, 4, 64),
            Data::new(DataType::SyncObj, 0, 10, 0),
            Data::new(DataType::DmaBuf, 0, 5, 64),
        ],
    };
    let dmabufs = buffer.datas_with_type(DataType::DmaBuf).unwrap();
    assert_eq!(dmabufs.len(), 2);
    assert_eq!(dmabufs[0].fd(), Some(4));
    assert_eq!(dmabufs[1].fd(), Some(5));
    assert!(buffer.datas_with_type(DataType::MemId).is_none());
}

#[test]
fn sync_dma_buf_requires_a_dma_buf_element() {
    let dma = Data::new(DataType::DmaBuf, 0, 6, 4096);
    assert_eq!(dma.sync_dma_buf().unwrap(), 6);
    let not_dma = Data::new(DataType::MemPtr, 0, 6, 4096);
    assert!(matches!(not_dma.sync_dma_buf(), Err(DmaError::NotDmaBuf)));
}

#[test]
fn async_buffer_seeds_points_from_timeline() {
    let buffer = Buffer {
        metas: vec![BufferMeta {
            meta_type: MetaType::SyncTimeline,
            sync_timeline: Some(SyncTimelineRef::new(8, 3)),
        }],
        datas: vec![],
    };
    let ab = AsyncBuffer::new(buffer);
    assert_eq!(ab.timeline, Some(SyncTimelineRef::new(8, 3)));
    assert_eq!(ab.acquire_target(), Ok(Some(8)));
    assert_eq!(ab.release_target(), Ok(Some(3)));
}

#[test]
fn async_buffer_without_timeline_needs_no_sync() {
    let buffer = Buffer { metas: vec![], datas: vec![] };
    let ab = AsyncBuffer::new(buffer);
    assert_eq!(ab.timeline, None);
    assert_eq!(ab.acquire_target(), Ok(None));
    assert_eq!(ab.release_target(), Ok(None));
}

#[test]
fn async_buffer_detects_point_corruption() {
    let buffer = Buffer {
        metas: vec![BufferMeta {
            meta_type: MetaType::SyncTimeline,
            sync_timeline: Some(SyncTimelineRef::new(8, 3)),
        }],
        datas: vec![],
    };
    let mut ab = AsyncBuffer::new(buffer);
    // One corrupted copy is outvoted.
    ab.acquire_point.slot2 = Some(999);
    assert_eq!(ab.acquire_target(), Ok(Some(8)));
    // Two disagreeing corruptions cannot be resolved.
    ab.acquire_point.slot1 = Some(777);
    assert_eq!(ab.acquire_target(), Err(TimelineError::ResourceCorruption));
}
