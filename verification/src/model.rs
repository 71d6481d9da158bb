use vstd::prelude::*;

verus! {

use crate::error::TimelineError;

/// The OS error code the model reports for a handle or descriptor it does
/// not know.
pub const MODEL_INVALID_ARGUMENT: i32 = 22;

/// An in-process model of a DRM device's syncobj timeline state.
///
/// The model keeps, per synchronization object, the last signaled timeline
/// point, and numbers the objects with kernel-style non-zero handles.  It
/// states — and lets tests exercise — the behavior the engine relies on
/// from the kernel: signaling a point raises the last signaled value at
/// least to it, querying reads that value back, and an exported descriptor
/// leads back to the object it came from.
pub struct DrmDeviceModel {
    timelines: Vec<u64>,
}

impl DrmDeviceModel {
    /// How many synchronization objects exist.
    pub closed spec fn handle_count(self) -> int {
        self.timelines@.len() as int
    }

    /// Whether `handle` names an existing synchronization object.
    pub open spec fn valid_handle(self, handle: u32) -> bool {
        1 <= handle && handle as int <= self.handle_count()
    }

    /// The last signaled point of the object `handle` names.
    pub closed spec fn last_signaled(self, handle: u32) -> u64 {
        self.timelines@[handle as int - 1]
    }

    /// Whether `fd` is a descriptor this model exported.
    pub open spec fn valid_fd(self, fd: i32) -> bool {
        1 <= fd && fd as int <= self.handle_count()
    }

    /// A device with no synchronization objects.
    pub fn new() -> (r: Self)
        ensures
            r.handle_count() == 0,
    {
        DrmDeviceModel { timelines: Vec::new() }
    }

    /// Create a new timeline synchronization object, unsignaled.
    pub fn create_syncobj(&mut self) -> (handle: u32)
        requires
            old(self).handle_count() < u32::MAX,
        ensures
            handle == old(self).handle_count() + 1,
            final(self).handle_count() == old(self).handle_count() + 1,
            final(self).valid_handle(handle),
            final(self).last_signaled(handle) == 0,
            forall|h: u32|
                old(self).valid_handle(h) ==> final(self).valid_handle(h)
                    && final(self).last_signaled(h) == old(self).last_signaled(h),
    {
        self.timelines.push(0);
        self.timelines.len() as u32
    }

    /// What a successful signal leaves behind: the object's last signaled
    /// point raised at least to `point`, every other object untouched.
    pub open spec fn signal_updates(
        pre: DrmDeviceModel,
        post: DrmDeviceModel,
        handle: u32,
        point: u64,
    ) -> bool {
        &&& post.handle_count() == pre.handle_count()
        &&& post.last_signaled(handle) == (if point > pre.last_signaled(handle) {
            point
        } else {
            pre.last_signaled(handle)
        })
        &&& forall|h: u32|
            pre.valid_handle(h) && h != handle ==> post.last_signaled(h) == pre.last_signaled(h)
    }

    /// Signal `point` on the object `handle` names: every point up to it
    /// counts as signaled from now on.
    pub fn signal_point(&mut self, handle: u32, point: u64) -> (r: Result<(), TimelineError>)
        ensures
            old(self).valid_handle(handle) ==> r == Ok::<(), TimelineError>(())
                && Self::signal_updates(*old(self), *final(self), handle, point),
            !old(self).valid_handle(handle) ==> r == Err::<(), TimelineError>(
                TimelineError::KernelError(MODEL_INVALID_ARGUMENT),
            ) && *final(self) == *old(self),
    {
        if handle >= 1 && (handle as usize) <= self.timelines.len() {
            let idx: usize = (handle - 1) as usize;
            if point > self.timelines[idx] {
                self.timelines[idx] = point;
            }
            proof {
                assert(self.timelines@ =~= old(self).timelines@.update(
                    handle as int - 1,
                    self.timelines@[handle as int - 1],
                ));
            }
            Ok(())
        } else {
            Err(TimelineError::KernelError(MODEL_INVALID_ARGUMENT))
        }
    }

    /// Query the last signaled point of the object `handle` names.
    pub fn query_last_signaled(&self, handle: u32) -> (r: Result<u64, TimelineError>)
        ensures
            self.valid_handle(handle) ==> r == Ok::<u64, TimelineError>(
                self.last_signaled(handle),
            ),
            !self.valid_handle(handle) ==> r == Err::<u64, TimelineError>(
                TimelineError::KernelError(MODEL_INVALID_ARGUMENT),
            ),
    {
        if handle >= 1 && (handle as usize) <= self.timelines.len() {
            Ok(self.timelines[(handle - 1) as usize])
        } else {
            Err(TimelineError::KernelError(MODEL_INVALID_ARGUMENT))
        }
    }

    /// Whether the object `handle` names has signaled `point`.
    pub fn is_point_signaled(&self, handle: u32, point: u64) -> (r: Result<bool, TimelineError>)
        ensures
            self.valid_handle(handle) ==> r == Ok::<bool, TimelineError>(
                self.last_signaled(handle) >= point,
            ),
            !self.valid_handle(handle) ==> r == Err::<bool, TimelineError>(
                TimelineError::KernelError(MODEL_INVALID_ARGUMENT),
            ),
    {
        match self.query_last_signaled(handle) {
            Ok(signaled) => Ok(signaled >= point),
            Err(e) => Err(e),
        }
    }

    /// Export the object `handle` names as a descriptor.
    pub fn handle_to_fd(&self, handle: u32) -> (r: Result<i32, TimelineError>)
        ensures
            self.valid_handle(handle) && handle <= i32::MAX ==> r == Ok::<i32, TimelineError>(
                handle as i32,
            ),
            !(self.valid_handle(handle) && handle <= i32::MAX) ==> r == Err::<i32, TimelineError>(
                TimelineError::KernelError(MODEL_INVALID_ARGUMENT),
            ),
    {
        if handle >= 1 && (handle as usize) <= self.timelines.len() && handle <= i32::MAX as u32 {
            Ok(handle as i32)
        } else {
            Err(TimelineError::KernelError(MODEL_INVALID_ARGUMENT))
        }
    }

    /// Resolve an exported descriptor back to the object it came from.
    pub fn fd_to_handle(&self, fd: i32) -> (r: Result<u32, TimelineError>)
        ensures
            self.valid_fd(fd) ==> r == Ok::<u32, TimelineError>(fd as u32),
            !self.valid_fd(fd) ==> r == Err::<u32, TimelineError>(
                TimelineError::KernelError(MODEL_INVALID_ARGUMENT),
            ),
    {
        if fd >= 1 && (fd as usize) <= self.timelines.len() {
            Ok(fd as u32)
        } else {
            Err(TimelineError::KernelError(MODEL_INVALID_ARGUMENT))
        }
    }

    /// Whether `fd` validates as a descriptor of this device's objects.
    pub fn is_valid_syncobj_fd(&self, fd: i32) -> (r: bool)
        ensures
            r == self.valid_fd(fd),
    {
        fd >= 1 && (fd as usize) <= self.timelines.len()
    }
}

/// Signal-then-query: after a point is signaled on a valid handle, the
/// queried last signaled value of that handle is at least the signaled
/// point.
pub proof fn lemma_signal_then_query(
    pre: DrmDeviceModel,
    post: DrmDeviceModel,
    handle: u32,
    point: u64,
)
    requires
        pre.valid_handle(handle),
        DrmDeviceModel::signal_updates(pre, post, handle, point),
    ensures
        post.valid_handle(handle),
        post.last_signaled(handle) >= point,
{
}

/// Round trip: a descriptor exported from a valid handle resolves back to
/// exactly that handle, and itself validates as one of the device's
/// descriptors.
pub proof fn lemma_handle_fd_round_trip(m: DrmDeviceModel, handle: u32)
    requires
        m.valid_handle(handle),
        handle <= i32::MAX,
    ensures
        m.valid_fd(handle as i32),
        (handle as i32) as u32 == handle,
{
}

} // verus!
