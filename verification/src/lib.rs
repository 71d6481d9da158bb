//! Explicit GPU/compositor buffer synchronization over Linux DRM timeline
//! synchronization objects.
//!
//! The library tracks acquire/release timeline points on a shared buffer,
//! maps them to kernel DRM syncobj handles, and drives non-blocking wait and
//! signal operations as verified state machines.  The raw `ioctl` calls and
//! the event-loop plumbing live outside the library; they feed plain values
//! (file descriptors, handles, timeline points, clock readings) into the
//! verified logic and carry its decisions back to the kernel.

pub mod buffer;
pub mod drm;
pub mod error;
pub mod loop_builder;
pub mod meta;
pub mod model;
pub mod param;
pub mod utils;
pub mod wait;
