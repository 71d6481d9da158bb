use vstd::prelude::*;

verus! {

use crate::buffer::Data;
use crate::buffer::sync_obj_fds;
use crate::error::TimelineError;

/// The sync-timeline record of a buffer: the in-metadata state of explicit
/// synchronization over DRM timeline objects.
///
/// `acquire_point` is the timeline value the consumer must wait for before
/// touching the buffer's payload; `release_point` is the value the consumer
/// signals once done, permitting producer reuse.  Both are targets: the
/// kernel timeline objects, not these stored numbers, are the source of
/// truth on what has been signaled.  Bit 0 of `flags` is reserved to mark
/// the synchronized state.
///
/// A value of this type is borrowed out of buffer memory for the duration
/// of one hand-off; the layer that owns the mapping performs the
/// acquire/release-ordered loads and stores and hands the plain values to
/// this library.
#[derive(Clone, Copy, Debug, PartialEq, Eq, Structural)]
pub struct SyncTimelineRef {
    pub flags: u32,
    pub acquire_point: u64,
    pub release_point: u64,
}

impl SyncTimelineRef {
    /// The record that initialization to the points `(acquire, release)`
    /// produces: both points as given and the flags cleared.
    pub open spec fn initialize_result(acquire: u64, release: u64) -> SyncTimelineRef {
        SyncTimelineRef { flags: 0, acquire_point: acquire, release_point: release }
    }

    /// The record after storing `flags`, the points untouched.
    pub open spec fn set_flags_result(self, flags: u32) -> SyncTimelineRef {
        SyncTimelineRef { flags, ..self }
    }

    /// Whether the stored numbers alone suggest the buffer may be handled:
    /// the acquire target has reached the release target.  A hint only; the
    /// kernel objects are authoritative.
    pub open spec fn locally_available(self) -> bool {
        self.acquire_point >= self.release_point
    }

    pub fn new(acquire_point: u64, release_point: u64) -> (r: Self)
        ensures
            r == SyncTimelineRef::initialize_result(acquire_point, release_point),
    {
        SyncTimelineRef { flags: 0, acquire_point, release_point }
    }

    /// The stored flags word.
    pub fn flags(&self) -> (r: u32)
        ensures
            r == self.flags,
    {
        self.flags
    }

    /// Store a flags word, leaving both points unchanged.
    pub fn set_flags(&mut self, flags: u32)
        ensures
            *final(self) == old(self).set_flags_result(flags),
    {
        self.flags = flags;
    }

    /// The stored acquire target.
    pub fn acquire_point(&self) -> (r: u64)
        ensures
            r == self.acquire_point,
    {
        self.acquire_point
    }

    /// Store an acquire target, leaving the rest of the record unchanged.
    pub fn set_acquire_point(&mut self, point: u64)
        ensures
            *final(self) == (SyncTimelineRef { acquire_point: point, ..*old(self) }),
    {
        self.acquire_point = point;
    }

    /// The stored release target.
    pub fn release_point(&self) -> (r: u64)
        ensures
            r == self.release_point,
    {
        self.release_point
    }

    /// Store a release target, leaving the rest of the record unchanged.
    pub fn set_release_point(&mut self, point: u64)
        ensures
            *final(self) == (SyncTimelineRef { release_point: point, ..*old(self) }),
    {
        self.release_point = point;
    }

    /// Record the release target of the buffer, indicating the payload can
    /// be reused once that point is signaled.
    pub fn signal_release(&mut self, release_point: u64)
        ensures
            *final(self) == (SyncTimelineRef { release_point, ..*old(self) }),
    {
        self.release_point = release_point;
    }

    /// Reset the record to the points `(acquire, release)` with cleared
    /// flags, as one sequence.  Used at buffer-allocation time only.
    pub fn initialize(&mut self, acquire: u64, release: u64)
        ensures
            *final(self) == SyncTimelineRef::initialize_result(acquire, release),
    {
        self.flags = 0;
        self.acquire_point = acquire;
        self.release_point = release;
    }

    /// Cheap local availability hint from the stored numbers alone, without
    /// consulting the kernel.  When correctness rather than scheduling is
    /// at stake, the authoritative check is a kernel query or a wait.
    pub fn is_locally_available(&self) -> (r: bool)
        ensures
            r == self.locally_available(),
    {
        self.acquire_point >= self.release_point
    }

    /// Extract the timeline file descriptors from a buffer's data elements.
    ///
    /// Searches the elements for synchronization objects; by convention the
    /// first such element carries the acquire timeline and the second the
    /// release timeline.  Further synchronization objects are ignored.
    ///
    /// Fails with `NotFound` when fewer than two elements carry a usable
    /// synchronization-object descriptor.
    pub fn extract_timeline_fds_from_buffer_data(buffer_data: &Vec<Data>) -> (r: Result<
        (i32, i32),
        TimelineError,
    >)
        ensures
            ({
                let fds = sync_obj_fds(buffer_data@);
                if fds.len() >= 2 {
                    r == Ok::<(i32, i32), TimelineError>((fds[0], fds[1]))
                } else {
                    r == Err::<(i32, i32), TimelineError>(TimelineError::NotFound)
                }
            }),
    {
        let mut found: Vec<i32> = Vec::new();
        let n: usize = buffer_data.len();
        let mut i: usize = 0;
        proof {
            assert(buffer_data@.take(0) =~= Seq::<Data>::empty());
        }
        while i < n
            invariant
                i <= n,
                n == buffer_data@.len(),
                found@ == sync_obj_fds(buffer_data@.take(i as int)),
            decreases n - i,
        {
            let d = buffer_data[i];
            proof {
                assert(buffer_data@.take(i + 1).drop_last() =~= buffer_data@.take(i as int));
                assert(buffer_data@.take(i + 1).last() == buffer_data@[i as int]);
            }
            match d.sync_obj_fd() {
                Some(fd) => {
                    found.push(fd);
                },
                None => {},
            }
            i = i + 1;
        }
        proof {
            assert(buffer_data@.take(n as int) =~= buffer_data@);
        }
        if found.len() >= 2 {
            Ok((found[0], found[1]))
        } else {
            Err(TimelineError::NotFound)
        }
    }
}

impl Default for SyncTimelineRef {
    /// The zeroed record: no synchronization required in either direction.
    fn default() -> (r: Self)
        ensures
            r == SyncTimelineRef::initialize_result(0, 0),
    {
        SyncTimelineRef { flags: 0, acquire_point: 0, release_point: 0 }
    }
}

/// After initializing a timeline record to the points `(acquire, release)`,
/// reading the two points gives back exactly those values, and the flags
/// read as cleared.
pub proof fn lemma_initialize_then_read(acquire: u64, release: u64)
    ensures
        SyncTimelineRef::initialize_result(acquire, release).acquire_point == acquire,
        SyncTimelineRef::initialize_result(acquire, release).release_point == release,
        SyncTimelineRef::initialize_result(acquire, release).flags == 0,
{
}

/// Storing the same flags word twice leaves the record exactly as one store
/// leaves it: the second store changes nothing observable.
pub proof fn lemma_set_flags_idempotent(t: SyncTimelineRef, flags: u32)
    ensures
        t.set_flags_result(flags).set_flags_result(flags) == t.set_flags_result(flags),
{
}

} // verus!
