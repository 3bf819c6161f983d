//! The end of the observation window.

use crate::source::Micros;
use vstd::prelude::*;

verus! {

/// The start of a session on a monotonic clock, in microseconds, and the
/// length of its observation window. The deadline is reached when the clock
/// reads `start + duration` or more.
#[derive(Clone, Copy, Debug, PartialEq, Eq)]
pub struct CaptureDeadline {
    /// The clock's reading when the session began.
    pub start: u64,
    /// Length of the observation window.
    pub duration: Micros,
}

impl CaptureDeadline {
    /// Whether the deadline is reached when the clock reads `now`.
    pub open spec fn spec_is_reached(self, now: u64) -> bool {
        now >= self.start + self.duration
    }

    /// The time that has passed since the start when the clock reads `now`;
    /// zero for a reading from before the start.
    pub open spec fn spec_elapsed(self, now: u64) -> Micros {
        if now >= self.start {
            (now - self.start) as u64
        } else {
            0
        }
    }

    /// The deadline of a window of `duration` that starts at `start`.
    pub fn new(start: u64, duration: Micros) -> (deadline: CaptureDeadline)
        ensures
            deadline.start == start,
            deadline.duration == duration,
    {
        CaptureDeadline { start, duration }
    }

    /// Whether the deadline is reached when the clock reads `now`.
    pub fn is_reached(&self, now: u64) -> (reached: bool)
        ensures
            reached == self.spec_is_reached(now),
            reached <==> now >= self.start + self.duration,
    {
        now >= self.start && now - self.start >= self.duration
    }

    /// The time that has passed since the start when the clock reads `now`;
    /// zero for a reading from before the start.
    pub fn elapsed(&self, now: u64) -> (elapsed: Micros)
        ensures
            elapsed == self.spec_elapsed(now),
            now >= self.start ==> elapsed == now - self.start,
            now < self.start ==> elapsed == 0,
    {
        if now >= self.start {
            now - self.start
        } else {
            0
        }
    }
}

/// A deadline that is reached stays reached, and by then at least the whole
/// window has passed.
pub proof fn lemma_deadline_monotonic(deadline: CaptureDeadline, earlier: u64, later: u64)
    requires
        earlier <= later,
    ensures
        deadline.spec_is_reached(earlier) ==> deadline.spec_is_reached(later),
        deadline.spec_elapsed(earlier) <= deadline.spec_elapsed(later),
        deadline.spec_is_reached(later) ==> deadline.spec_elapsed(later) >= deadline.duration,
        deadline.spec_is_reached(later) <==> later >= deadline.start && deadline.spec_elapsed(later)
            >= deadline.duration,
{
}

} // verus!
