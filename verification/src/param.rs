use vstd::prelude::*;

verus! {

/// The kind of a buffer metadata block, as tagged in the block's type field.
/// `Other` keeps a tag this library does not interpret.
#[derive(Clone, Copy, Debug, PartialEq, Eq, Structural)]
pub enum MetaType {
    Invalid,
    Header,
    VideoCrop,
    VideoDamage,
    Bitmap,
    Cursor,
    Control,
    Busy,
    VideoTransform,
    /// Sync-timeline record for explicit synchronization.
    SyncTimeline,
    Other(u32),
}

impl MetaType {
    /// The raw type tag that stands for this kind in a buffer descriptor.
    pub open spec fn raw_spec(self) -> u32 {
        match self {
            MetaType::Invalid => 0,
            MetaType::Header => 1,
            MetaType::VideoCrop => 2,
            MetaType::VideoDamage => 3,
            MetaType::Bitmap => 4,
            MetaType::Cursor => 5,
            MetaType::Control => 6,
            MetaType::Busy => 7,
            MetaType::VideoTransform => 8,
            MetaType::SyncTimeline => 9,
            MetaType::Other(v) => v,
        }
    }

    /// The kind a raw type tag denotes.
    pub open spec fn from_raw_spec(raw: u32) -> MetaType {
        if raw == 0 {
            MetaType::Invalid
        } else if raw == 1 {
            MetaType::Header
        } else if raw == 2 {
            MetaType::VideoCrop
        } else if raw == 3 {
            MetaType::VideoDamage
        } else if raw == 4 {
            MetaType::Bitmap
        } else if raw == 5 {
            MetaType::Cursor
        } else if raw == 6 {
            MetaType::Control
        } else if raw == 7 {
            MetaType::Busy
        } else if raw == 8 {
            MetaType::VideoTransform
        } else if raw == 9 {
            MetaType::SyncTimeline
        } else {
            MetaType::Other(raw)
        }
    }

    /// Obtain a [`MetaType`] from a raw metadata type tag.
    pub fn from_raw(raw: u32) -> (r: Self)
        ensures
            r == MetaType::from_raw_spec(raw),
            r.raw_spec() == raw,
    {
        match raw {
            0 => MetaType::Invalid,
            1 => MetaType::Header,
            2 => MetaType::VideoCrop,
            3 => MetaType::VideoDamage,
            4 => MetaType::Bitmap,
            5 => MetaType::Cursor,
            6 => MetaType::Control,
            7 => MetaType::Busy,
            8 => MetaType::VideoTransform,
            9 => MetaType::SyncTimeline,
            _ => MetaType::Other(raw),
        }
    }

    /// Get the raw tag representing this `MetaType`.
    pub fn as_raw(&self) -> (r: u32)
        ensures
            r == self.raw_spec(),
    {
        match *self {
            MetaType::Invalid => 0,
            MetaType::Header => 1,
            MetaType::VideoCrop => 2,
            MetaType::VideoDamage => 3,
            MetaType::Bitmap => 4,
            MetaType::Cursor => 5,
            MetaType::Control => 6,
            MetaType::Busy => 7,
            MetaType::VideoTransform => 8,
            MetaType::SyncTimeline => 9,
            MetaType::Other(v) => v,
        }
    }
}

/// A timeline selected for explicit synchronization: the file descriptor of
/// its synchronization object.
#[derive(Clone, Copy, Debug, PartialEq, Eq, Structural)]
pub struct Timeline {
    fd: i32,
}

impl Timeline {
    /// The file descriptor this timeline was built over.
    pub closed spec fn fd_spec(self) -> i32 {
        self.fd
    }

    pub fn new(fd: i32) -> (r: Self)
        ensures
            r.fd_spec() == fd,
    {
        Timeline { fd }
    }

    /// The file descriptor of the timeline's synchronization object.
    pub fn fd(&self) -> (r: i32)
        ensures
            r == self.fd_spec(),
    {
        self.fd
    }
}

} // verus!
