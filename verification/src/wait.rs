use vstd::prelude::*;

verus! {

use crate::error::TimelineError;

/// Default deadline for a wait operation, in nanoseconds past its start.
pub const DEFAULT_WAIT_TIMEOUT_NANOS: u64 = 5_000_000_000;

/// Default bound on suspend/resume cycles of one wait operation.
pub const DEFAULT_MAX_SUSPENSIONS: u64 = 1000;

/// Where a wait operation stands.
#[derive(Clone, Copy, Debug, PartialEq, Eq)]
pub enum WaitPhase {
    /// Initial validation: the fast path and the device probe.
    Checking,
    /// Confirming against the kernel's last signaled point.
    Polling,
    /// Registered for kernel notification, suspended or about to suspend.
    AwaitingNotification,
    /// Finished, with this outcome.
    Resolved(Result<(), TimelineError>),
}

/// What the surrounding driver observed since the machine last decided.
/// The driver performs one action, then hands back the event it produced.
#[derive(Clone, Copy, Debug, PartialEq, Eq)]
pub enum WaitEvent {
    /// Entry into the operation; nothing observed yet.
    Begin,
    /// The device descriptor answered the version probe.
    DeviceValid,
    /// The device descriptor failed the version probe.
    DeviceInvalid,
    /// The kernel reported this last signaled point for the timeline.
    Queried(u64),
    /// Resolving the handle or querying the timeline failed with this OS
    /// error code.
    QueryFailed(i32),
    /// The notification eventfd was created and registered for the target
    /// point.
    NotificationRegistered,
    /// Creating or registering the notification eventfd failed with this OS
    /// error code.
    RegistrationFailed(i32),
    /// The registered eventfd became readable.
    Notified,
    /// The eventfd's pending counter was drained.
    Drained,
    /// Reading the eventfd would block: no notification yet.
    DrainWouldBlock,
    /// Reading the eventfd failed with this OS error code (other than
    /// would-block).
    DrainFailed(i32),
}

/// What the machine asks the surrounding driver to do next.
#[derive(Clone, Copy, Debug, PartialEq, Eq)]
pub enum WaitAction {
    /// Probe the device descriptor with the version query.
    CheckDevice,
    /// Resolve the timeline descriptor to a handle and query the last
    /// signaled point.
    QuerySignaled,
    /// Create a notification eventfd (non-blocking, close-on-exec) and
    /// register it with the kernel for the target point.
    RegisterNotification,
    /// Suspend until the registered eventfd becomes readable.
    Suspend,
    /// Drain the eventfd's counter value.
    DrainNotification,
    /// The operation is over with this outcome; no further kernel work.
    Finish(Result<(), TimelineError>),
}

/// A wait for a timeline point, driven as a state machine.
///
/// The machine holds every decision of the wait: the fast path for target
/// point zero, device validation, the poll/notify/re-poll cycle, the
/// absolute deadline, and the bound on suspend/resume cycles.  The
/// surrounding driver owns the clock and the kernel calls; it feeds
/// [`Self::step`] the current clock reading and the last observation, and
/// performs the action the machine returns.
#[derive(Clone, Copy, Debug, PartialEq, Eq)]
pub struct SyncObjTimelineWaiter {
    /// The syncobj descriptor of the timeline being waited on.
    pub timeline_fd: i32,
    /// The timeline point that must be signaled.
    pub target_point: u64,
    /// Absolute deadline, in the driver's clock.
    pub deadline_nanos: u64,
    /// Bound on suspend/resume cycles.
    pub max_suspensions: u64,
    /// Suspend/resume cycles taken so far.
    pub suspensions: u64,
    pub phase: WaitPhase,
}

impl SyncObjTimelineWaiter {
    /// The machine `with_limits` builds: phase `Checking`, no suspensions
    /// taken, deadline the given timeout past `now`, saturating at the top
    /// of the clock.
    pub open spec fn initial_spec(
        timeline_fd: i32,
        timeline_point: u64,
        timeout_nanos: u64,
        max_suspensions: u64,
        now_nanos: u64,
    ) -> SyncObjTimelineWaiter {
        SyncObjTimelineWaiter {
            timeline_fd,
            target_point: timeline_point,
            deadline_nanos: now_nanos.saturating_add(timeout_nanos),
            max_suspensions,
            suspensions: 0,
            phase: WaitPhase::Checking,
        }
    }

    /// Start a wait with the default deadline and suspension bound.
    pub fn new(timeline_fd: i32, timeline_point: u64, now_nanos: u64) -> (r: Self)
        ensures
            r == Self::initial_spec(
                timeline_fd,
                timeline_point,
                DEFAULT_WAIT_TIMEOUT_NANOS,
                DEFAULT_MAX_SUSPENSIONS,
                now_nanos,
            ),
    {
        Self::with_limits(
            timeline_fd,
            timeline_point,
            DEFAULT_WAIT_TIMEOUT_NANOS,
            DEFAULT_MAX_SUSPENSIONS,
            now_nanos,
        )
    }

    /// Start a wait with the given timeout and the default suspension
    /// bound.
    pub fn with_timeout(
        timeline_fd: i32,
        timeline_point: u64,
        timeout_nanos: u64,
        now_nanos: u64,
    ) -> (r: Self)
        ensures
            r == Self::initial_spec(
                timeline_fd,
                timeline_point,
                timeout_nanos,
                DEFAULT_MAX_SUSPENSIONS,
                now_nanos,
            ),
    {
        Self::with_limits(timeline_fd, timeline_point, timeout_nanos, DEFAULT_MAX_SUSPENSIONS, now_nanos)
    }

    /// Start a wait with the given timeout and suspension bound.
    pub fn with_limits(
        timeline_fd: i32,
        timeline_point: u64,
        timeout_nanos: u64,
        max_suspensions: u64,
        now_nanos: u64,
    ) -> (r: Self)
        ensures
            r == Self::initial_spec(
                timeline_fd,
                timeline_point,
                timeout_nanos,
                max_suspensions,
                now_nanos,
            ),
    {
        SyncObjTimelineWaiter {
            timeline_fd,
            target_point: timeline_point,
            deadline_nanos: now_nanos.saturating_add(timeout_nanos),
            max_suspensions,
            suspensions: 0,
            phase: WaitPhase::Checking,
        }
    }

    /// The machine resolved to this outcome.
    pub open spec fn resolved_spec(self, outcome: Result<(), TimelineError>) -> (
        SyncObjTimelineWaiter,
        WaitAction,
    ) {
        (
            SyncObjTimelineWaiter { phase: WaitPhase::Resolved(outcome), ..self },
            WaitAction::Finish(outcome),
        )
    }

    /// Take one suspend/resume cycle, or resolve to
    /// `MaxSuspensionsExceeded` when the bound is used up.
    pub open spec fn suspend_spec(self) -> (SyncObjTimelineWaiter, WaitAction) {
        if self.suspensions >= self.max_suspensions {
            self.resolved_spec(Err(TimelineError::MaxSuspensionsExceeded))
        } else {
            (
                SyncObjTimelineWaiter { suspensions: (self.suspensions + 1) as u64, ..self },
                WaitAction::Suspend,
            )
        }
    }

    /// The transition relation of the wait: from the machine's state, the
    /// clock and the last observation to the next state and the next
    /// action.
    ///
    /// The deadline is checked before anything else — before the fast path
    /// and before any observation is believed — so an elapsed deadline
    /// resolves `Timeout` even when the kernel point is already signaled.
    pub open spec fn step_spec(self, now_nanos: u64, event: WaitEvent) -> (
        SyncObjTimelineWaiter,
        WaitAction,
    ) {
        match self.phase {
            WaitPhase::Resolved(outcome) => (self, WaitAction::Finish(outcome)),
            _ => {
                if now_nanos > self.deadline_nanos {
                    self.resolved_spec(Err(TimelineError::Timeout))
                } else {
                    match self.phase {
                        WaitPhase::Checking => {
                            if self.target_point == 0 {
                                // Point zero means no synchronization is
                                // required: resolve before any kernel work.
                                self.resolved_spec(Ok(()))
                            } else {
                                match event {
                                    WaitEvent::DeviceValid => (
                                        SyncObjTimelineWaiter { phase: WaitPhase::Polling, ..self },
                                        WaitAction::QuerySignaled,
                                    ),
                                    WaitEvent::DeviceInvalid => self.resolved_spec(
                                        Err(TimelineError::InvalidDescriptor),
                                    ),
                                    _ => (self, WaitAction::CheckDevice),
                                }
                            }
                        },
                        WaitPhase::Polling => match event {
                            WaitEvent::Queried(signaled) => {
                                if signaled >= self.target_point {
                                    self.resolved_spec(Ok(()))
                                } else {
                                    (
                                        SyncObjTimelineWaiter {
                                            phase: WaitPhase::AwaitingNotification,
                                            ..self
                                        },
                                        WaitAction::RegisterNotification,
                                    )
                                }
                            },
                            WaitEvent::QueryFailed(code) => self.resolved_spec(
                                Err(TimelineError::KernelError(code)),
                            ),
                            _ => (self, WaitAction::QuerySignaled),
                        },
                        WaitPhase::AwaitingNotification => match event {
                            WaitEvent::NotificationRegistered => self.suspend_spec(),
                            WaitEvent::RegistrationFailed(code) => self.resolved_spec(
                                Err(TimelineError::KernelError(code)),
                            ),
                            WaitEvent::Notified => (self, WaitAction::DrainNotification),
                            WaitEvent::Drained => (
                                SyncObjTimelineWaiter { phase: WaitPhase::Polling, ..self },
                                WaitAction::QuerySignaled,
                            ),
                            WaitEvent::DrainWouldBlock => self.suspend_spec(),
                            WaitEvent::DrainFailed(code) => self.resolved_spec(
                                Err(TimelineError::KernelError(code)),
                            ),
                            _ => self.suspend_spec(),
                        },
                        WaitPhase::Resolved(outcome) => (self, WaitAction::Finish(outcome)),
                    }
                }
            },
        }
    }

    /// Advance the wait by one decision.
    ///
    /// `now_nanos` is the driver's current clock reading and `event` what
    /// the driver observed while carrying out the previous action.  The
    /// returned action is what the driver must do next; `Finish` carries
    /// the operation's outcome and asks for no further kernel work.
    pub fn step(&mut self, now_nanos: u64, event: WaitEvent) -> (a: WaitAction)
        ensures
            (*final(self), a) == old(self).step_spec(now_nanos, event),
    {
        match self.phase {
            WaitPhase::Resolved(outcome) => WaitAction::Finish(outcome),
            _ => {
                if now_nanos > self.deadline_nanos {
                    self.resolve(Err(TimelineError::Timeout))
                } else {
                    match self.phase {
                        WaitPhase::Checking => {
                            if self.target_point == 0 {
                                self.resolve(Ok(()))
                            } else {
                                match event {
                                    WaitEvent::DeviceValid => {
                                        self.phase = WaitPhase::Polling;
                                        WaitAction::QuerySignaled
                                    },
                                    WaitEvent::DeviceInvalid => self.resolve(
                                        Err(TimelineError::InvalidDescriptor),
                                    ),
                                    _ => WaitAction::CheckDevice,
                                }
                            }
                        },
                        WaitPhase::Polling => match event {
                            WaitEvent::Queried(signaled) => {
                                if signaled >= self.target_point {
                                    self.resolve(Ok(()))
                                } else {
                                    self.phase = WaitPhase::AwaitingNotification;
                                    WaitAction::RegisterNotification
                                }
                            },
                            WaitEvent::QueryFailed(code) => self.resolve(
                                Err(TimelineError::KernelError(code)),
                            ),
                            _ => WaitAction::QuerySignaled,
                        },
                        WaitPhase::AwaitingNotification => match event {
                            WaitEvent::NotificationRegistered => self.suspend(),
                            WaitEvent::RegistrationFailed(code) => self.resolve(
                                Err(TimelineError::KernelError(code)),
                            ),
                            WaitEvent::Notified => WaitAction::DrainNotification,
                            WaitEvent::Drained => {
                                self.phase = WaitPhase::Polling;
                                WaitAction::QuerySignaled
                            },
                            WaitEvent::DrainWouldBlock => self.suspend(),
                            WaitEvent::DrainFailed(code) => self.resolve(
                                Err(TimelineError::KernelError(code)),
                            ),
                            _ => self.suspend(),
                        },
                        WaitPhase::Resolved(outcome) => WaitAction::Finish(outcome),
                    }
                }
            },
        }
    }

    /// Whether the wait is over.
    pub fn is_resolved(&self) -> (r: bool)
        ensures
            r == (self.phase is Resolved),
    {
        match self.phase {
            WaitPhase::Resolved(_) => true,
            _ => false,
        }
    }

    fn resolve(&mut self, outcome: Result<(), TimelineError>) -> (a: WaitAction)
        ensures
            (*final(self), a) == old(self).resolved_spec(outcome),
    {
        self.phase = WaitPhase::Resolved(outcome);
        WaitAction::Finish(outcome)
    }

    fn suspend(&mut self) -> (a: WaitAction)
        ensures
            (*final(self), a) == old(self).suspend_spec(),
    {
        if self.suspensions >= self.max_suspensions {
            self.resolve(Err(TimelineError::MaxSuspensionsExceeded))
        } else {
            self.suspensions = self.suspensions + 1;
            WaitAction::Suspend
        }
    }
}

/// Fast path: a wait whose target point is zero resolves `Ok` at once —
/// whatever the driver observed — and the machine never asks for a kernel
/// call.
pub proof fn lemma_fast_path_needs_no_kernel_call(
    w: SyncObjTimelineWaiter,
    now_nanos: u64,
    event: WaitEvent,
)
    requires
        w.phase == WaitPhase::Checking,
        w.target_point == 0,
        now_nanos <= w.deadline_nanos,
    ensures
        w.step_spec(now_nanos, event).1 == WaitAction::Finish(Ok::<(), TimelineError>(())),
        w.step_spec(now_nanos, event).0.phase == WaitPhase::Resolved(Ok(())),
{
}

/// Deadline-first ordering: once the clock has passed the deadline of an
/// unresolved wait, the next decision is `Timeout` — whatever the driver
/// observed, even a kernel point at or past the target.
pub proof fn lemma_elapsed_deadline_times_out(
    w: SyncObjTimelineWaiter,
    now_nanos: u64,
    event: WaitEvent,
)
    requires
        !(w.phase is Resolved),
        now_nanos > w.deadline_nanos,
    ensures
        w.step_spec(now_nanos, event).1 == WaitAction::Finish(
            Err::<(), TimelineError>(TimelineError::Timeout),
        ),
        w.step_spec(now_nanos, event).0.phase == WaitPhase::Resolved(Err(TimelineError::Timeout)),
{
}

/// A wait against a descriptor that fails the device probe resolves
/// `InvalidDescriptor` at its first decision; it never proceeds to a
/// kernel wait.
pub proof fn lemma_invalid_device_is_rejected(w: SyncObjTimelineWaiter, now_nanos: u64)
    requires
        w.phase == WaitPhase::Checking,
        w.target_point != 0,
        now_nanos <= w.deadline_nanos,
    ensures
        w.step_spec(now_nanos, WaitEvent::DeviceInvalid).1 == WaitAction::Finish(
            Err::<(), TimelineError>(TimelineError::InvalidDescriptor),
        ),
        w.step_spec(now_nanos, WaitEvent::DeviceInvalid).0.phase == WaitPhase::Resolved(
            Err(TimelineError::InvalidDescriptor),
        ),
{
}

/// A resolved wait is final: every further decision repeats the outcome
/// and changes nothing.
pub proof fn lemma_resolved_is_final(
    w: SyncObjTimelineWaiter,
    outcome: Result<(), TimelineError>,
    now_nanos: u64,
    event: WaitEvent,
)
    requires
        w.phase == WaitPhase::Resolved(outcome),
    ensures
        w.step_spec(now_nanos, event) == (w, WaitAction::Finish(outcome)),
{
}

/// Bounded execution: the machine suspends only while it has budget, each
/// suspension spends one unit of it, and a wait whose budget is used up
/// resolves `MaxSuspensionsExceeded` instead of suspending again.
pub proof fn lemma_suspensions_are_bounded(
    w: SyncObjTimelineWaiter,
    now_nanos: u64,
    event: WaitEvent,
)
    requires
        w.suspensions <= w.max_suspensions,
    ensures
        w.step_spec(now_nanos, event).0.suspensions <= w.step_spec(
            now_nanos,
            event,
        ).0.max_suspensions,
        w.step_spec(now_nanos, event).1 == WaitAction::Suspend ==> w.suspensions
            < w.max_suspensions && w.step_spec(now_nanos, event).0.suspensions == w.suspensions
            + 1,
{
}

/// A future describing a wait for a sync-timeline point: the target point
/// and the timeout to apply once the wait starts.
#[derive(Clone, Copy, Debug, PartialEq, Eq, Structural)]
pub struct SyncFuture {
    pub timeline_point: u64,
    pub timeout_nanos: u64,
}

impl SyncFuture {
    /// A wait for `timeline_point` with the default timeout.
    pub fn new(timeline_point: u64) -> (r: Self)
        ensures
            r == (SyncFuture { timeline_point, timeout_nanos: DEFAULT_WAIT_TIMEOUT_NANOS }),
    {
        SyncFuture { timeline_point, timeout_nanos: DEFAULT_WAIT_TIMEOUT_NANOS }
    }

    /// A wait for `timeline_point` with the given timeout.
    pub fn with_timeout(timeline_point: u64, timeout_nanos: u64) -> (r: Self)
        ensures
            r == (SyncFuture { timeline_point, timeout_nanos }),
    {
        SyncFuture { timeline_point, timeout_nanos }
    }

    /// Start the described wait over the given timeline descriptor, with
    /// the clock reading `now_nanos` as its start.
    pub fn begin(&self, timeline_fd: i32, now_nanos: u64) -> (r: SyncObjTimelineWaiter)
        ensures
            r == SyncObjTimelineWaiter::initial_spec(
                timeline_fd,
                self.timeline_point,
                self.timeout_nanos,
                DEFAULT_MAX_SUSPENSIONS,
                now_nanos,
            ),
    {
        SyncObjTimelineWaiter::with_timeout(
            timeline_fd,
            self.timeline_point,
            self.timeout_nanos,
            now_nanos,
        )
    }
}

/// Where a signal operation stands.
#[derive(Clone, Copy, Debug, PartialEq, Eq)]
pub enum SignalPhase {
    /// Validating the device descriptor.
    Checking,
    /// Resolving the timeline descriptor to a handle.
    Resolving,
    /// Issuing the signal ioctl for this handle.
    Signaling(u32),
    /// Finished, with this outcome.
    Resolved(Result<(), TimelineError>),
}

/// What the signal machine asks the surrounding driver to do next.
#[derive(Clone, Copy, Debug, PartialEq, Eq)]
pub enum SignalAction {
    /// Probe the device descriptor with the version query.
    CheckDevice,
    /// Resolve the timeline descriptor to a handle.
    ResolveHandle,
    /// Signal the target point on this handle.
    SignalPoint(u32),
    /// The operation is over with this outcome; no further kernel work.
    Finish(Result<(), TimelineError>),
}

/// What the surrounding driver observed for the signal machine.
#[derive(Clone, Copy, Debug, PartialEq, Eq)]
pub enum SignalEvent {
    /// Entry into the operation; nothing observed yet.
    Begin,
    /// The device descriptor answered the version probe.
    DeviceValid,
    /// The device descriptor failed the version probe.
    DeviceInvalid,
    /// The descriptor resolved to this handle.
    HandleResolved(u32),
    /// Resolving the handle failed with this OS error code.
    HandleFailed(i32),
    /// The signal ioctl succeeded.
    Signaled,
    /// The signal ioctl failed with this OS error code.
    SignalFailed(i32),
}

/// A signal of a timeline point, driven as a state machine.
///
/// Signaling is single-step and never blocks: validate the device, resolve
/// the descriptor to a handle, issue the signal ioctl; resolve `Ok` or the
/// error.  A failure is surfaced, never retried here.
#[derive(Clone, Copy, Debug, PartialEq, Eq)]
pub struct SyncObjTimelineSignaler {
    /// The syncobj descriptor of the timeline being signaled.
    pub timeline_fd: i32,
    /// The timeline point to signal.
    pub timeline_point: u64,
    pub phase: SignalPhase,
}

impl SyncObjTimelineSignaler {
    pub fn new(timeline_fd: i32, timeline_point: u64) -> (r: Self)
        ensures
            r == (SyncObjTimelineSignaler {
                timeline_fd,
                timeline_point,
                phase: SignalPhase::Checking,
            }),
    {
        SyncObjTimelineSignaler { timeline_fd, timeline_point, phase: SignalPhase::Checking }
    }

    /// The machine resolved to this outcome.
    pub open spec fn resolved_spec(self, outcome: Result<(), TimelineError>) -> (
        SyncObjTimelineSignaler,
        SignalAction,
    ) {
        (
            SyncObjTimelineSignaler { phase: SignalPhase::Resolved(outcome), ..self },
            SignalAction::Finish(outcome),
        )
    }

    /// The transition relation of the signal operation.
    pub open spec fn step_spec(self, event: SignalEvent) -> (
        SyncObjTimelineSignaler,
        SignalAction,
    ) {
        match self.phase {
            SignalPhase::Checking => match event {
                SignalEvent::DeviceValid => (
                    SyncObjTimelineSignaler { phase: SignalPhase::Resolving, ..self },
                    SignalAction::ResolveHandle,
                ),
                SignalEvent::DeviceInvalid => self.resolved_spec(
                    Err(TimelineError::InvalidDescriptor),
                ),
                _ => (self, SignalAction::CheckDevice),
            },
            SignalPhase::Resolving => match event {
                SignalEvent::HandleResolved(handle) => (
                    SyncObjTimelineSignaler { phase: SignalPhase::Signaling(handle), ..self },
                    SignalAction::SignalPoint(handle),
                ),
                SignalEvent::HandleFailed(code) => self.resolved_spec(
                    Err(TimelineError::KernelError(code)),
                ),
                _ => (self, SignalAction::ResolveHandle),
            },
            SignalPhase::Signaling(handle) => match event {
                SignalEvent::Signaled => self.resolved_spec(Ok(())),
                SignalEvent::SignalFailed(code) => self.resolved_spec(
                    Err(TimelineError::KernelError(code)),
                ),
                _ => (self, SignalAction::SignalPoint(handle)),
            },
            SignalPhase::Resolved(outcome) => (self, SignalAction::Finish(outcome)),
        }
    }

    /// Advance the signal operation by one decision.
    pub fn step(&mut self, event: SignalEvent) -> (a: SignalAction)
        ensures
            (*final(self), a) == old(self).step_spec(event),
    {
        match self.phase {
            SignalPhase::Checking => match event {
                SignalEvent::DeviceValid => {
                    self.phase = SignalPhase::Resolving;
                    SignalAction::ResolveHandle
                },
                SignalEvent::DeviceInvalid => self.resolve(Err(TimelineError::InvalidDescriptor)),
                _ => SignalAction::CheckDevice,
            },
            SignalPhase::Resolving => match event {
                SignalEvent::HandleResolved(handle) => {
                    self.phase = SignalPhase::Signaling(handle);
                    SignalAction::SignalPoint(handle)
                },
                SignalEvent::HandleFailed(code) => self.resolve(
                    Err(TimelineError::KernelError(code)),
                ),
                _ => SignalAction::ResolveHandle,
            },
            SignalPhase::Signaling(handle) => match event {
                SignalEvent::Signaled => self.resolve(Ok(())),
                SignalEvent::SignalFailed(code) => self.resolve(
                    Err(TimelineError::KernelError(code)),
                ),
                _ => SignalAction::SignalPoint(handle),
            },
            SignalPhase::Resolved(outcome) => SignalAction::Finish(outcome),
        }
    }

    fn resolve(&mut self, outcome: Result<(), TimelineError>) -> (a: SignalAction)
        ensures
            (*final(self), a) == old(self).resolved_spec(outcome),
    {
        self.phase = SignalPhase::Resolved(outcome);
        SignalAction::Finish(outcome)
    }
}

/// A signal against a descriptor that fails the device probe resolves
/// `InvalidDescriptor` at its first decision.
pub proof fn lemma_signal_invalid_device_is_rejected(s: SyncObjTimelineSignaler)
    requires
        s.phase == SignalPhase::Checking,
    ensures
        s.step_spec(SignalEvent::DeviceInvalid).1 == SignalAction::Finish(
            Err::<(), TimelineError>(TimelineError::InvalidDescriptor),
        ),
{
}

} // verus!
