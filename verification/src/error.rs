use vstd::prelude::*;

verus! {

/// Errors of the timeline synchronization engine.
///
/// Every failure of a wait, signal or lookup operation is reported through
/// one of these variants; kernel error codes are carried verbatim so that a
/// caller can diagnose the underlying `ioctl` failure.
#[derive(Clone, Copy, Debug, PartialEq, Eq, Structural)]
pub enum TimelineError {
    /// The supplied file descriptor is not a valid DRM device.
    InvalidDescriptor,
    /// An `ioctl` returned a failure; the OS error code is preserved.
    KernelError(i32),
    /// A wait exceeded its deadline.
    Timeout,
    /// A wait exceeded its bound on suspend/resume cycles.
    MaxSuspensionsExceeded,
    /// Expected metadata or data elements were absent.
    NotFound,
    /// An internal consistency check failed; the stored state cannot be
    /// trusted.
    ResourceCorruption,
}

/// Errors of a bounded-execution wrapper around a suspension-capable
/// operation.
#[derive(Clone, Copy, Debug, PartialEq, Eq, Structural)]
pub enum TimeoutError {
    /// The wall-clock deadline elapsed.
    DeadlineExceeded,
    /// The bound on poll cycles was reached.
    MaxPollsExceeded,
}

/// Errors of DMA-BUF level operations on a buffer's data elements.
#[derive(Clone, Debug)]
pub enum DmaError {
    /// The data element does not carry a DMA-BUF file descriptor.
    NotDmaBuf,
    /// A timeline synchronization step failed.
    SyncFailed(TimelineError),
    /// The requested operation does not apply to this element.
    InvalidOperation(String),
}

} // verus!
