use vstd::prelude::*;

verus! {

use crate::error::DmaError;
use crate::error::TimelineError;
use crate::meta::SyncTimelineRef;
use crate::param::MetaType;
use crate::utils::TMR;

/// The kind of payload one data-plane element of a buffer carries, as tagged
/// in the element's type field.  `Other` keeps a tag this library does not
/// interpret.
#[derive(Clone, Copy, Debug, PartialEq, Eq, Structural)]
pub enum DataType {
    Invalid,
    /// Pointer to memory mapped into this process.
    MemPtr,
    /// Generic file descriptor; `mmap` to get to memory.
    MemFd,
    /// File descriptor of DMA-BUF memory.
    DmaBuf,
    /// Memory identified by an id.
    MemId,
    /// Synchronization object; usually paired with sync-timeline metadata.
    SyncObj,
    Other(u32),
}

impl DataType {
    /// The raw type tag that stands for this kind in a buffer descriptor.
    pub open spec fn raw_spec(self) -> u32 {
        match self {
            DataType::Invalid => 0,
            DataType::MemPtr => 1,
            DataType::MemFd => 2,
            DataType::DmaBuf => 3,
            DataType::MemId => 4,
            DataType::SyncObj => 5,
            DataType::Other(v) => v,
        }
    }

    /// The kind a raw type tag denotes.
    pub open spec fn from_raw_spec(raw: u32) -> DataType {
        if raw == 0 {
            DataType::Invalid
        } else if raw == 1 {
            DataType::MemPtr
        } else if raw == 2 {
            DataType::MemFd
        } else if raw == 3 {
            DataType::DmaBuf
        } else if raw == 4 {
            DataType::MemId
        } else if raw == 5 {
            DataType::SyncObj
        } else {
            DataType::Other(raw)
        }
    }

    /// Obtain a [`DataType`] from a raw type tag.
    pub fn from_raw(raw: u32) -> (r: Self)
        ensures
            r == DataType::from_raw_spec(raw),
            r.raw_spec() == raw,
    {
        match raw {
            0 => DataType::Invalid,
            1 => DataType::MemPtr,
            2 => DataType::MemFd,
            3 => DataType::DmaBuf,
            4 => DataType::MemId,
            5 => DataType::SyncObj,
            _ => DataType::Other(raw),
        }
    }

    /// Get the raw type tag representing this `DataType`.
    pub fn as_raw(&self) -> (r: u32)
        ensures
            r == self.raw_spec(),
    {
        match *self {
            DataType::Invalid => 0,
            DataType::MemPtr => 1,
            DataType::MemFd => 2,
            DataType::DmaBuf => 3,
            DataType::MemId => 4,
            DataType::SyncObj => 5,
            DataType::Other(v) => v,
        }
    }
}

/// One data-plane element of a buffer descriptor: a type tag, per-element
/// flags, the file descriptor the element carries (meaningful only for the
/// descriptor-bearing types) and the usable size of its memory.
#[derive(Clone, Copy, Debug, PartialEq, Eq, Structural)]
pub struct Data {
    pub data_type: DataType,
    pub flags: u32,
    pub fd: i64,
    pub maxsize: u32,
}

impl Data {
    /// Whether this element's type associates a file descriptor with it.
    pub open spec fn carries_fd(self) -> bool {
        self.data_type == DataType::MemFd || self.data_type == DataType::DmaBuf
            || self.data_type == DataType::SyncObj
    }

    /// The file descriptor of this element: present when the type carries
    /// one and the stored value is non-negative and representable.
    pub open spec fn fd_spec(self) -> Option<i32> {
        if self.carries_fd() && 0 <= self.fd <= i32::MAX {
            Some(self.fd as i32)
        } else {
            None
        }
    }

    /// The element's file descriptor when it is a synchronization object.
    pub open spec fn sync_obj_fd_spec(self) -> Option<i32> {
        if self.data_type == DataType::SyncObj {
            self.fd_spec()
        } else {
            None
        }
    }

    pub fn new(data_type: DataType, flags: u32, fd: i64, maxsize: u32) -> (r: Self)
        ensures
            r == (Data { data_type, flags, fd, maxsize }),
    {
        Data { data_type, flags, fd, maxsize }
    }

    /// The type tag of this element.
    pub fn type_(&self) -> (r: DataType)
        ensures
            r == self.data_type,
    {
        self.data_type
    }

    /// Get the file descriptor for this data element.
    ///
    /// Returns `None` if the element's type does not carry a file
    /// descriptor, or if the stored value is negative or does not fit a
    /// `RawFd`.
    pub fn fd(&self) -> (r: Option<i32>)
        ensures
            r == self.fd_spec(),
    {
        match self.data_type {
            DataType::MemFd | DataType::DmaBuf | DataType::SyncObj => {
                if 0 <= self.fd && self.fd <= i32::MAX as i64 {
                    Some(self.fd as i32)
                } else {
                    None
                }
            },
            _ => None,
        }
    }

    /// The file descriptor of a synchronization-object element, `None` for
    /// every other element type.
    pub fn sync_obj_fd(&self) -> (r: Option<i32>)
        ensures
            r == self.sync_obj_fd_spec(),
    {
        if self.data_type == DataType::SyncObj {
            self.fd()
        } else {
            None
        }
    }

    /// Get the DMA-BUF file descriptor.
    ///
    /// Returns the file descriptor if this element represents a DMA-BUF,
    /// otherwise returns `None`.
    pub fn dma_buf_fd(&self) -> (r: Option<i32>)
        ensures
            self.data_type == DataType::DmaBuf && i32::MIN <= self.fd <= i32::MAX
                ==> r == Some(self.fd as i32),
            !(self.data_type == DataType::DmaBuf && i32::MIN <= self.fd <= i32::MAX)
                ==> r is None,
    {
        if self.data_type == DataType::DmaBuf {
            if i32::MIN as i64 <= self.fd && self.fd <= i32::MAX as i64 {
                Some(self.fd as i32)
            } else {
                None
            }
        } else {
            None
        }
    }

    /// Admit this element to a DMA-BUF synchronization operation: hand
    /// back the descriptor the operation must target, or fail with
    /// `NotDmaBuf` when the element does not carry one.  The timeline
    /// wait and signal against that descriptor are the driver's part.
    pub fn sync_dma_buf(&self) -> (r: Result<i32, DmaError>)
        ensures
            self.data_type == DataType::DmaBuf && i32::MIN <= self.fd <= i32::MAX
                ==> r == Ok::<i32, DmaError>(self.fd as i32),
            !(self.data_type == DataType::DmaBuf && i32::MIN <= self.fd <= i32::MAX)
                ==> (r matches Err(e) && e is NotDmaBuf),
    {
        match self.dma_buf_fd() {
            Some(fd) => Ok(fd),
            None => Err(DmaError::NotDmaBuf),
        }
    }
}

/// One metadata block of a buffer descriptor: a type tag, and the
/// sync-timeline record when the tag marks the block as one.
#[derive(Clone, Copy, Debug, PartialEq, Eq, Structural)]
pub struct BufferMeta {
    pub meta_type: MetaType,
    pub sync_timeline: Option<SyncTimelineRef>,
}

/// A dequeued buffer as this library sees it: the metadata blocks and the
/// data-plane elements of its descriptor, each reduced to the plain values
/// the synchronization logic reads.
#[derive(Clone, Debug)]
pub struct Buffer {
    pub metas: Vec<BufferMeta>,
    pub datas: Vec<Data>,
}

/// The first sync-timeline metadata block of `metas` that carries a record,
/// or `None` when there is none.
pub open spec fn first_sync_timeline(metas: Seq<BufferMeta>) -> Option<SyncTimelineRef>
    decreases metas.len(),
{
    if metas.len() == 0 {
        None
    } else if metas[0].meta_type == MetaType::SyncTimeline && metas[0].sync_timeline is Some {
        metas[0].sync_timeline
    } else {
        first_sync_timeline(metas.drop_first())
    }
}

/// The elements of `datas` whose type tag is `t`, in element order.
pub open spec fn datas_of_type(datas: Seq<Data>, t: DataType) -> Seq<Data> {
    datas.filter(|d: Data| d.data_type == t)
}

/// The file descriptors of the synchronization-object elements of `datas`,
/// in element order, keeping only the representable ones.
pub open spec fn sync_obj_fds(datas: Seq<Data>) -> Seq<i32>
    decreases datas.len(),
{
    if datas.len() == 0 {
        Seq::empty()
    } else {
        let rest = sync_obj_fds(datas.drop_last());
        match datas.last().sync_obj_fd_spec() {
            Some(fd) => rest.push(fd),
            None => rest,
        }
    }
}

impl Buffer {
    /// Gets the sync-timeline metadata of the buffer if present: the first
    /// metadata block tagged as a sync timeline that carries a record.
    pub fn get_sync_timeline_metadata(&self) -> (r: Option<SyncTimelineRef>)
        ensures
            r == first_sync_timeline(self.metas@),
    {
        let n: usize = self.metas.len();
        let mut i: usize = 0;
        proof {
            assert(self.metas@.skip(0) =~= self.metas@);
        }
        while i < n
            invariant
                i <= n,
                n == self.metas@.len(),
                first_sync_timeline(self.metas@) == first_sync_timeline(
                    self.metas@.skip(i as int),
                ),
            decreases n - i,
        {
            let m = self.metas[i];
            proof {
                assert(self.metas@.skip(i as int)[0] == self.metas@[i as int]);
                assert(self.metas@.skip(i as int).drop_first() =~= self.metas@.skip(i + 1));
            }
            if m.meta_type == MetaType::SyncTimeline && m.sync_timeline.is_some() {
                return m.sync_timeline;
            }
            i = i + 1;
        }
        proof {
            assert(self.metas@.skip(n as int) =~= Seq::<BufferMeta>::empty());
        }
        None
    }

    /// Gets all data elements of the buffer with the given type.
    ///
    /// Returns `None` when the buffer has no element of that type.
    pub fn datas_with_type(&self, data_type: DataType) -> (r: Option<Vec<Data>>)
        ensures
            datas_of_type(self.datas@, data_type).len() == 0 ==> r is None,
            datas_of_type(self.datas@, data_type).len() > 0 ==> (r matches Some(v) && v@
                == datas_of_type(self.datas@, data_type)),
    {
        let mut matching: Vec<Data> = Vec::new();
        let n: usize = self.datas.len();
        let mut i: usize = 0;
        proof {
            assert(self.datas@.take(0) =~= Seq::<Data>::empty());
            reveal_with_fuel(Seq::<_>::filter, 2);
        }
        while i < n
            invariant
                i <= n,
                n == self.datas@.len(),
                matching@ == datas_of_type(self.datas@.take(i as int), data_type),
            decreases n - i,
        {
            let d = self.datas[i];
            proof {
                assert(self.datas@.take(i + 1).drop_last() =~= self.datas@.take(i as int));
                assert(self.datas@.take(i + 1).last() == self.datas@[i as int]);
                reveal_with_fuel(Seq::<_>::filter, 2);
            }
            if d.data_type == data_type {
                matching.push(d);
            }
            i = i + 1;
        }
        proof {
            assert(self.datas@.take(n as int) =~= self.datas@);
        }
        if matching.len() == 0 {
            None
        } else {
            Some(matching)
        }
    }

    /// Gets the acquire and release timeline descriptors of the buffer: the
    /// file descriptors of its first two synchronization-object elements.
    ///
    /// Returns `None` when the buffer has fewer than two such elements, or
    /// when either of the first two carries no representable descriptor.
    pub fn get_sync_fds(&self) -> (r: Option<(i32, i32)>)
        ensures
            ({
                let syncs = datas_of_type(self.datas@, DataType::SyncObj);
                if syncs.len() >= 2 {
                    match (syncs[0].fd_spec(), syncs[1].fd_spec()) {
                        (Some(a), Some(rel)) => r == Some((a, rel)),
                        _ => r is None,
                    }
                } else {
                    r is None
                }
            }),
    {
        let sync_datas = self.datas_with_type(DataType::SyncObj);
        match sync_datas {
            Some(v) => {
                if v.len() >= 2 {
                    let a = v[0].fd();
                    let rel = v[1].fd();
                    match (a, rel) {
                        (Some(acquire_fd), Some(release_fd)) => Some((acquire_fd, release_fd)),
                        _ => None,
                    }
                } else {
                    None
                }
            },
            None => None,
        }
    }
}

/// The synchronization state of one buffer hand-off: the buffer itself,
/// its sync-timeline record if it carries one, and the two timeline
/// targets held in corruption-detecting cells for the duration of the
/// hand-off.
pub struct AsyncBuffer {
    pub buffer: Buffer,
    pub timeline: Option<SyncTimelineRef>,
    pub acquire_point: TMR<u64>,
    pub release_point: TMR<u64>,
}

impl AsyncBuffer {
    /// Take a dequeued buffer into a hand-off: locate its sync-timeline
    /// record and seed the redundant point cells from it.  A buffer
    /// without such a record needs no explicit synchronization, and the
    /// cells stay empty.
    pub fn new(buffer: Buffer) -> (r: Self)
        ensures
            r.buffer == buffer,
            r.timeline == first_sync_timeline(buffer.metas@),
            match r.timeline {
                Some(t) => r.acquire_point.consensus() == Some(t.acquire_point)
                    && r.release_point.consensus() == Some(t.release_point),
                None => r.acquire_point.consensus() is None && r.release_point.consensus()
                    is None,
            },
    {
        let timeline = buffer.get_sync_timeline_metadata();
        let mut acquire_point: TMR<u64> = TMR::new();
        let mut release_point: TMR<u64> = TMR::new();
        match &timeline {
            Some(t) => {
                acquire_point.set(t.acquire_point());
                release_point.set(t.release_point());
            },
            None => {},
        }
        AsyncBuffer { buffer, timeline, acquire_point, release_point }
    }

    /// The timeline point a consumer must wait for before touching this
    /// buffer's payload: `None` when the buffer carries no timeline record
    /// (no explicit synchronization), otherwise the voted acquire target.
    /// Fails with `ResourceCorruption` when the copies disagree.
    pub fn acquire_target(&self) -> (r: Result<Option<u64>, TimelineError>)
        ensures
            self.timeline is None ==> r == Ok::<Option<u64>, TimelineError>(None),
            self.timeline is Some ==> match (r, self.acquire_point.consensus()) {
                (Ok(Some(p)), Some(w)) => p == w,
                (Err(e), None) => e == TimelineError::ResourceCorruption,
                _ => false,
            },
    {
        match &self.timeline {
            None => Ok(None),
            Some(_) => match self.acquire_point.get_checked() {
                Ok(point) => Ok(Some(point)),
                Err(e) => Err(e),
            },
        }
    }

    /// The timeline point this buffer's consumer signals once done,
    /// permitting producer reuse: `None` when the buffer carries no
    /// timeline record, otherwise the voted release target.  Fails with
    /// `ResourceCorruption` when the copies disagree.
    pub fn release_target(&self) -> (r: Result<Option<u64>, TimelineError>)
        ensures
            self.timeline is None ==> r == Ok::<Option<u64>, TimelineError>(None),
            self.timeline is Some ==> match (r, self.release_point.consensus()) {
                (Ok(Some(p)), Some(w)) => p == w,
                (Err(e), None) => e == TimelineError::ResourceCorruption,
                _ => false,
            },
    {
        match &self.timeline {
            None => Ok(None),
            Some(_) => match self.release_point.get_checked() {
                Ok(point) => Ok(Some(point)),
                Err(e) => Err(e),
            },
        }
    }
}

} // verus!
