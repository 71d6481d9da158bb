use vstd::prelude::*;

verus! {

use crate::error::TimelineError;

/// Direction bits of a read-write ioctl, as the kernel encodes them.
pub const IOCTL_DIR_READWRITE: u64 = 3;

/// The ioctl subsystem character code of the DRM interface, `'d'`.
pub const DRM_IOCTL_BASE: u64 = 0x64;

/// Sequential command numbers of the DRM calls this library issues, from
/// the kernel's numbering.
pub const DRM_VERSION_NR: u64 = 0x00;

pub const DRM_SYNCOBJ_CREATE_NR: u64 = 0xBF;

pub const DRM_SYNCOBJ_HANDLE_TO_FD_NR: u64 = 0xC1;

pub const DRM_SYNCOBJ_FD_TO_HANDLE_NR: u64 = 0xC2;

pub const DRM_SYNCOBJ_TIMELINE_WAIT_NR: u64 = 0xCA;

pub const DRM_SYNCOBJ_QUERY_NR: u64 = 0xCB;

pub const DRM_SYNCOBJ_TIMELINE_SIGNAL_NR: u64 = 0xCD;

pub const DRM_SYNCOBJ_EVENTFD_NR: u64 = 0xCF;

/// Query flag asking for the last submitted rather than last signaled
/// point.
pub const DRM_SYNCOBJ_QUERY_FLAGS_LAST_SUBMITTED: u32 = 1;

/// Creation flag asking for an already-signaled synchronization object.
pub const DRM_SYNCOBJ_CREATE_SIGNALED: u32 = 1;

/// The code of a read-write DRM ioctl: direction in the top two bits, then
/// the argument structure's size, the DRM character code and the command
/// number, matching the kernel's own macro-generated values.
pub open spec fn drm_ioctl_code_spec(nr: u64, size: u64) -> u64 {
    (IOCTL_DIR_READWRITE << 30) | (size << 16) | (DRM_IOCTL_BASE << 8) | nr
}

/// Compute the code of a read-write DRM ioctl from its command number and
/// the size of its argument structure.
pub fn drm_ioctl_code(nr: u64, size: u64) -> (r: u64)
    requires
        nr < 0x100,
        size < 0x4000,
    ensures
        r == drm_ioctl_code_spec(nr, size),
{
    (IOCTL_DIR_READWRITE << 30) | (size << 16) | (DRM_IOCTL_BASE << 8) | nr
}

/// A DRM device file descriptor as the synchronization logic sees it: the
/// plain descriptor value.  The layer that opens, duplicates and finally
/// closes the underlying OS resource owns its lifetime; it hands the
/// descriptor in here for the duration of the operations that use it.
#[derive(Clone, Copy, Debug, PartialEq, Eq, Structural)]
pub struct DrmDeviceFd {
    fd: i32,
}

impl DrmDeviceFd {
    /// The descriptor this value carries.
    pub closed spec fn fd_spec(self) -> i32 {
        self.fd
    }

    pub fn new(fd: i32) -> (r: Self)
        ensures
            r.fd_spec() == fd,
    {
        DrmDeviceFd { fd }
    }

    pub fn as_raw_fd(&self) -> (r: i32)
        ensures
            r == self.fd_spec(),
    {
        self.fd
    }
}

/// How many candidate device nodes the fallback device search probes.
pub const DEVICE_CANDIDATE_COUNT: usize = 16;

/// The path of the `index`-th candidate DRM device node.
pub open spec fn device_candidate_path_spec(index: int) -> Seq<char> {
    if index == 0 {
        "/dev/dri/card0"@
    } else if index == 1 {
        "/dev/dri/card1"@
    } else if index == 2 {
        "/dev/dri/card2"@
    } else if index == 3 {
        "/dev/dri/card3"@
    } else if index == 4 {
        "/dev/dri/card4"@
    } else if index == 5 {
        "/dev/dri/card5"@
    } else if index == 6 {
        "/dev/dri/card6"@
    } else if index == 7 {
        "/dev/dri/card7"@
    } else if index == 8 {
        "/dev/dri/card8"@
    } else if index == 9 {
        "/dev/dri/card9"@
    } else if index == 10 {
        "/dev/dri/card10"@
    } else if index == 11 {
        "/dev/dri/card11"@
    } else if index == 12 {
        "/dev/dri/card12"@
    } else if index == 13 {
        "/dev/dri/card13"@
    } else if index == 14 {
        "/dev/dri/card14"@
    } else {
        "/dev/dri/card15"@
    }
}

/// The path of the `index`-th candidate DRM device node, `card0` up to
/// `card15` in ascending order.
pub fn device_candidate_path(index: usize) -> (r: &'static str)
    requires
        index < DEVICE_CANDIDATE_COUNT,
    ensures
        r@ == device_candidate_path_spec(index as int),
{
    match index {
        0 => "/dev/dri/card0",
        1 => "/dev/dri/card1",
        2 => "/dev/dri/card2",
        3 => "/dev/dri/card3",
        4 => "/dev/dri/card4",
        5 => "/dev/dri/card5",
        6 => "/dev/dri/card6",
        7 => "/dev/dri/card7",
        8 => "/dev/dri/card8",
        9 => "/dev/dri/card9",
        10 => "/dev/dri/card10",
        11 => "/dev/dri/card11",
        12 => "/dev/dri/card12",
        13 => "/dev/dri/card13",
        14 => "/dev/dri/card14",
        _ => "/dev/dri/card15",
    }
}

/// The fallback device-search policy: given which candidate nodes opened
/// and passed the version probe, pick the first of them, in ascending
/// order; fail with `NotFound` when none did.
pub fn find_device_outcome(probes: &Vec<bool>) -> (r: Result<usize, TimelineError>)
    ensures
        match r {
            Ok(i) => i < probes@.len() && probes@[i as int] && (forall|j: int|
                0 <= j < i ==> !probes@[j]),
            Err(e) => e == TimelineError::NotFound && (forall|j: int|
                0 <= j < probes@.len() ==> !probes@[j]),
        },
{
    let n: usize = probes.len();
    let mut i: usize = 0;
    while i < n
        invariant
            i <= n,
            n == probes@.len(),
            forall|j: int| 0 <= j < i ==> !probes@[j],
        decreases n - i,
    {
        if probes[i] {
            return Ok(i);
        }
        i = i + 1;
    }
    Err(TimelineError::NotFound)
}

/// Map what a kernel call returned into the engine's error taxonomy: a
/// failure keeps its OS error code verbatim.
pub fn kernel_result<T>(r: Result<T, i32>) -> (out: Result<T, TimelineError>)
    ensures
        match r {
            Ok(v) => out == Ok::<T, TimelineError>(v),
            Err(code) => out == Err::<T, TimelineError>(TimelineError::KernelError(code)),
        },
{
    match r {
        Ok(v) => Ok(v),
        Err(code) => Err(TimelineError::KernelError(code)),
    }
}

/// The outcome of converting a syncobj descriptor to a DRM handle: the
/// device must answer the version probe first — an invalid device is
/// rejected before any conversion — and the conversion call's own result
/// decides the rest.
pub fn fd_to_handle_outcome(device_valid: bool, conversion: Result<u32, i32>) -> (r: Result<
    u32,
    TimelineError,
>)
    ensures
        !device_valid ==> r == Err::<u32, TimelineError>(TimelineError::InvalidDescriptor),
        device_valid ==> match conversion {
            Ok(handle) => r == Ok::<u32, TimelineError>(handle),
            Err(code) => r == Err::<u32, TimelineError>(TimelineError::KernelError(code)),
        },
{
    if !device_valid {
        Err(TimelineError::InvalidDescriptor)
    } else {
        kernel_result(conversion)
    }
}

/// Whether a queried last-signaled point covers the target point.
pub fn point_is_signaled(signaled_point: u64, target_point: u64) -> (r: bool)
    ensures
        r == (signaled_point >= target_point),
{
    signaled_point >= target_point
}

} // verus!
