use vstd::prelude::*;

verus! {

use vstd::pervasive::cloned;
use vstd::std_specs::cmp::PartialEqSpec;
use crate::error::TimeoutError;
use crate::error::TimelineError;

/// A corruption-detecting value cell: the value is stored three times, and
/// read back by majority vote, so that a single corrupted copy is outvoted
/// and detected rather than silently believed.
#[derive(Debug)]
pub struct TMR<T: PartialEq + Clone> {
    pub slot0: Option<T>,
    pub slot1: Option<T>,
    pub slot2: Option<T>,
}

impl<T: PartialEq + Clone> TMR<T> {
    /// The value at least two of the three copies agree on, or `None` when
    /// no two agree (or the cell was never set).  Stated over the type's
    /// own equality.
    pub open spec fn consensus(self) -> Option<T> {
        match (self.slot0, self.slot1, self.slot2) {
            (Some(a), Some(b), Some(c)) => if a.eq_spec(&b) || a.eq_spec(&c) {
                Some(a)
            } else if b.eq_spec(&c) {
                Some(b)
            } else {
                None
            },
            _ => None,
        }
    }

    /// Create a cell with no values.
    pub fn new() -> (r: Self)
        ensures
            r.slot0 is None,
            r.slot1 is None,
            r.slot2 is None,
            r.consensus() is None,
    {
        TMR { slot0: None, slot1: None, slot2: None }
    }

    /// Store `value` into all three redundant copies.
    pub fn set(&mut self, value: T)
        ensures
            final(self).slot0 matches Some(v0) && cloned(value, v0),
            final(self).slot1 matches Some(v1) && cloned(value, v1),
            final(self).slot2 matches Some(v2) && cloned(value, v2),
    {
        let first = value.clone();
        let second = value.clone();
        self.slot0 = Some(first);
        self.slot1 = Some(second);
        self.slot2 = Some(value);
    }

    /// Read the value back by majority vote: a clone of the consensus
    /// value, or `None` when the copies no longer agree.
    pub fn get(&self) -> (r: Option<T>)
        ensures
            T::obeys_eq_spec() ==> match (r, self.consensus()) {
                (Some(v), Some(w)) => cloned(w, v),
                (None, None) => true,
                _ => false,
            },
    {
        match (&self.slot0, &self.slot1, &self.slot2) {
            (Some(a), Some(b), Some(c)) => {
                if a.eq(b) || a.eq(c) {
                    Some(a.clone())
                } else if b.eq(c) {
                    Some(b.clone())
                } else {
                    None
                }
            },
            _ => None,
        }
    }

    /// Read the value back by majority vote, reporting a disagreement as
    /// `ResourceCorruption`: the stored state cannot be trusted and is
    /// never guessed at.
    pub fn get_checked(&self) -> (r: Result<T, TimelineError>)
        ensures
            T::obeys_eq_spec() ==> match (r, self.consensus()) {
                (Ok(v), Some(w)) => cloned(w, v),
                (Err(e), None) => e == TimelineError::ResourceCorruption,
                _ => false,
            },
    {
        match self.get() {
            Some(v) => Ok(v),
            None => Err(TimelineError::ResourceCorruption),
        }
    }
}

/// A first-in first-out queue that never holds more than `N` items, for
/// predictable memory usage.
pub struct BoundedQueue<T, const N: usize> {
    items: Vec<T>,
}

impl<T, const N: usize> BoundedQueue<T, N> {
    /// The queued items, oldest first.
    pub closed spec fn contents(self) -> Seq<T> {
        self.items@
    }

    /// The queue holds at most its capacity.
    pub closed spec fn wf(self) -> bool {
        self.items@.len() <= N
    }

    /// Create an empty queue.
    pub fn new() -> (r: Self)
        ensures
            r.wf(),
            r.contents() == Seq::<T>::empty(),
    {
        BoundedQueue { items: Vec::new() }
    }

    /// Append an item, or hand it back unchanged when the queue is full.
    pub fn push(&mut self, item: T) -> (r: Result<(), T>)
        requires
            old(self).wf(),
        ensures
            final(self).wf(),
            old(self).contents().len() >= N ==> r == Err::<(), T>(item) && final(self).contents()
                == old(self).contents(),
            old(self).contents().len() < N ==> r == Ok::<(), T>(()) && final(self).contents()
                == old(self).contents().push(item),
    {
        if self.items.len() == N {
            return Err(item);
        }
        self.items.push(item);
        Ok(())
    }

    /// Remove and return the oldest item, or `None` when the queue is
    /// empty.
    pub fn pop(&mut self) -> (r: Option<T>)
        requires
            old(self).wf(),
        ensures
            final(self).wf(),
            old(self).contents().len() == 0 ==> r is None && final(self).contents() == old(
                self,
            ).contents(),
            old(self).contents().len() > 0 ==> (r matches Some(v) && v == old(self).contents()[0]
                && final(self).contents() == old(self).contents().drop_first()),
    {
        if self.items.len() == 0 {
            return None;
        }
        let item = self.items.remove(0);
        proof {
            assert(self.items@ =~= old(self).items@.drop_first());
        }
        Some(item)
    }

    /// How many items are queued.
    pub fn len(&self) -> (r: usize)
        ensures
            r == self.contents().len(),
    {
        self.items.len()
    }
}

/// The bounded-execution core of a suspension-capable operation: an
/// absolute deadline and a bound on poll cycles.  The layer that owns the
/// actual suspended computation asks [`Self::poll_step`] before every poll
/// of it; the bounds guarantee the operation cannot run, or be re-polled,
/// without limit.
#[derive(Clone, Copy, Debug, PartialEq, Eq, Structural)]
pub struct TimeoutFuture {
    /// Absolute deadline, in the driver's clock.
    pub deadline_nanos: u64,
    /// Poll cycles taken so far.
    pub poll_count: usize,
    /// Bound on poll cycles.
    pub max_polls: usize,
}

impl TimeoutFuture {
    /// Bounds for an operation starting at clock reading `now_nanos`: the
    /// given timeout past it (saturating at the top of the clock), and the
    /// given bound on poll cycles.
    pub fn new(timeout_nanos: u64, max_polls: usize, now_nanos: u64) -> (r: Self)
        ensures
            r == (TimeoutFuture {
                deadline_nanos: now_nanos.saturating_add(timeout_nanos),
                poll_count: 0,
                max_polls,
            }),
    {
        TimeoutFuture {
            deadline_nanos: now_nanos.saturating_add(timeout_nanos),
            poll_count: 0,
            max_polls,
        }
    }

    /// Decide whether the wrapped operation may be polled once more.
    ///
    /// The poll-count bound is checked first, then the deadline; only when
    /// both have room is a cycle spent and `Ok` returned.  On either
    /// exhaustion the state is left untouched and the corresponding error
    /// is final.
    pub fn poll_step(&mut self, now_nanos: u64) -> (r: Result<(), TimeoutError>)
        ensures
            old(self).poll_count >= old(self).max_polls ==> r == Err::<(), TimeoutError>(
                TimeoutError::MaxPollsExceeded,
            ) && *final(self) == *old(self),
            old(self).poll_count < old(self).max_polls && now_nanos > old(self).deadline_nanos
                ==> r == Err::<(), TimeoutError>(TimeoutError::DeadlineExceeded) && *final(self)
                == *old(self),
            old(self).poll_count < old(self).max_polls && now_nanos <= old(self).deadline_nanos
                ==> r == Ok::<(), TimeoutError>(()) && *final(self) == (TimeoutFuture {
                deadline_nanos: old(self).deadline_nanos,
                poll_count: (old(self).poll_count + 1) as usize,
                max_polls: old(self).max_polls,
            }),
    {
        if self.poll_count >= self.max_polls {
            return Err(TimeoutError::MaxPollsExceeded);
        }
        if now_nanos > self.deadline_nanos {
            return Err(TimeoutError::DeadlineExceeded);
        }
        self.poll_count = self.poll_count + 1;
        Ok(())
    }
}

} // verus!
