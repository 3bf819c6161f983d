//! The observation loop as a state machine.
//!
//! The engine performs no input or output. A driver asks it what to do next,
//! performs that on the capture source, and hands back what the source
//! returned:
//!
//! 1. [`CaptureLoop::next_directive`] takes the clock's reading and checks
//!    the deadline. It answers [`Directive::Receive`] while the session runs,
//!    [`Directive::Close`] once when the session has ended, and
//!    [`Directive::Done`] from then on.
//! 2. After `Receive`, the driver receives once and passes the outcome to
//!    [`CaptureLoop::on_outcome`], which says what to forward to the sink.
//!
//! [`LoopModel`] is the mathematical form of the engine; its functions
//! `tick` and `receive` define the two steps.

use crate::deadline::CaptureDeadline;
use crate::decoder::{decode, spec_decode, DecodedFrame};
use crate::source::{CaptureError, CaptureOptions, Micros, ReceiveOutcome};
use vstd::prelude::*;

verus! {

/// Why a session ended.
#[derive(Clone, Copy, Debug, PartialEq, Eq)]
pub enum StopReason {
    /// The deadline was reached.
    Completed,
    /// A receive failed for good.
    HardError,
}

/// Where a session stands.
#[derive(Clone, Copy, Debug, PartialEq, Eq)]
pub enum LoopState {
    /// Frames are being received.
    Running,
    /// The session has ended.
    Stopped(StopReason),
}

/// The final account of a session.
#[derive(Clone, Copy, Debug, PartialEq, Eq)]
pub struct Summary {
    /// Number of frames that were received and decoded.
    pub frames: u64,
    /// Time from the start of the session to its closing.
    pub elapsed: Micros,
    /// Why the session ended.
    pub reason: StopReason,
    /// The failure that ended it, for a session that ended by one.
    pub failure: Option<CaptureError>,
}

/// What the driver has to do next.
#[derive(Clone, Copy, Debug, PartialEq, Eq)]
pub enum Directive {
    /// Receive once from the source and report the outcome.
    Receive,
    /// Close the source and hand the summary to the sink.
    Close(Summary),
    /// Nothing: the source is closed and the summary was given.
    Done,
}

/// What the sink is to be told after one receive.
#[derive(Clone, Copy, Debug, PartialEq, Eq)]
pub enum Report {
    /// A frame was decoded; `sequence` counts the frames of the session from 1.
    Decoded { sequence: u64, frame: DecodedFrame },
    /// Nothing to tell.
    Quiet,
    /// The receive failed and the session has ended.
    Failure(CaptureError),
}

/// Counts the frames of a session: it starts at zero, goes up by one for
/// each frame, and is never set back.
#[derive(Debug)]
pub struct PacketCounter {
    count: u64,
}

impl View for PacketCounter {
    type V = nat;

    /// The number of frames counted.
    closed spec fn view(&self) -> nat {
        self.count as nat
    }
}

impl PacketCounter {
    /// A counter that has counted nothing.
    pub fn new() -> (counter: PacketCounter)
        ensures
            counter@ == 0,
    {
        PacketCounter { count: 0 }
    }

    /// The number of frames counted.
    pub fn count(&self) -> (count: u64)
        ensures
            count == self@,
    {
        self.count
    }

    /// Counts one frame more. The counter must have room for it.
    pub fn increment(&mut self)
        requires
            old(self)@ < u64::MAX,
        ensures
            final(self)@ == old(self)@ + 1,
        no_unwind
    {
        self.count = self.count + 1;
    }
}

/// The mathematical form of a [`CaptureLoop`].
pub struct LoopModel {
    /// Start and length of the observation window. Never changes.
    pub deadline: CaptureDeadline,
    /// Number of frames decoded so far. Never decreases.
    pub frames: nat,
    /// Where the session stands.
    pub state: LoopState,
    /// The failure that ended the session, if one did.
    pub failure: Option<CaptureError>,
    /// The clock's reading when the driver was told to close the source;
    /// `None` while the source is open.
    pub closed_at: Option<u64>,
}

impl LoopModel {
    /// The engine at the start of a session that begins at `start` and is to
    /// last for `window`.
    pub open spec fn fresh(window: Micros, start: u64) -> LoopModel {
        LoopModel {
            deadline: CaptureDeadline { start, duration: window },
            frames: 0,
            state: LoopState::Running,
            failure: None,
            closed_at: None,
        }
    }

    /// What holds of every engine: a running session has its source open and
    /// no failure; a completed one was closed at or after the deadline; one
    /// that ended by a failure holds that failure.
    pub open spec fn wf(self) -> bool {
        match self.state {
            LoopState::Running => self.closed_at is None && self.failure is None,
            LoopState::Stopped(StopReason::Completed) => {
                &&& self.failure is None
                &&& self.closed_at matches Some(at)
                &&& self.deadline.spec_is_reached(at)
            },
            LoopState::Stopped(StopReason::HardError) => self.failure matches Some(
                CaptureError::ReceiveError(_),
            ),
        }
    }

    /// Whether the driver still holds the source open.
    pub open spec fn source_open(self) -> bool {
        self.closed_at is None
    }

    /// The account of a session that ends for `reason` and is closed when the
    /// clock reads `now`.
    pub open spec fn summary_at(self, reason: StopReason, now: u64) -> Summary {
        Summary {
            frames: self.frames as u64,
            elapsed: self.deadline.spec_elapsed(now),
            reason,
            failure: self.failure,
        }
    }

    /// The account of the session, once its source is closed.
    pub open spec fn summary(self) -> Option<Summary> {
        match (self.state, self.closed_at) {
            (LoopState::Stopped(reason), Some(at)) => Some(self.summary_at(reason, at)),
            _ => None,
        }
    }

    /// The deadline check when the clock reads `now`: the engine after it,
    /// and what the driver is told.
    ///
    /// A running session goes on while the deadline is not reached, and is
    /// completed and closed when it is. A session that a failure has ended is
    /// closed at the first check after the failure. Once closed, nothing
    /// changes any more.
    pub open spec fn tick(self, now: u64) -> (LoopModel, Directive) {
        match self.state {
            LoopState::Running => {
                if self.deadline.spec_is_reached(now) {
                    (
                        LoopModel {
                            state: LoopState::Stopped(StopReason::Completed),
                            closed_at: Some(now),
                            ..self
                        },
                        Directive::Close(self.summary_at(StopReason::Completed, now)),
                    )
                } else {
                    (self, Directive::Receive)
                }
            },
            LoopState::Stopped(reason) => {
                if self.closed_at is None {
                    (
                        LoopModel { closed_at: Some(now), ..self },
                        Directive::Close(self.summary_at(reason, now)),
                    )
                } else {
                    (self, Directive::Done)
                }
            },
        }
    }

    /// The outcome of one receive: the engine after it, and what the sink is
    /// told.
    ///
    /// While the session runs, a frame is counted and decoded, a timeout
    /// changes nothing, and an error ends the session. Once the session has
    /// ended, an outcome changes nothing.
    pub open spec fn receive(self, outcome: ReceiveOutcome) -> (LoopModel, Report) {
        match self.state {
            LoopState::Running => match outcome {
                ReceiveOutcome::Frame(frame) => (
                    LoopModel { frames: self.frames + 1, ..self },
                    Report::Decoded {
                        sequence: (self.frames + 1) as u64,
                        frame: spec_decode(
                            frame@,
                            frame.spec_total_length(),
                            frame.spec_timestamp(),
                        ),
                    },
                ),
                ReceiveOutcome::Timeout => (self, Report::Quiet),
                ReceiveOutcome::Error(code) => (
                    LoopModel {
                        state: LoopState::Stopped(StopReason::HardError),
                        failure: Some(CaptureError::ReceiveError(code)),
                        ..self
                    },
                    Report::Failure(CaptureError::ReceiveError(code)),
                ),
            },
            LoopState::Stopped(_) => (self, Report::Quiet),
        }
    }
}

/// Where the engine stands, in a form that holds no more than it can mean.
#[derive(Debug)]
enum Phase {
    /// Frames are being received.
    Running,
    /// A receive failed; the source is closed once `closed_at` is set.
    Failed { code: i32, closed_at: Option<u64> },
    /// The deadline was reached when the clock read `reached_at`, and the
    /// source was closed then.
    Completed { reached_at: u64 },
}

/// The engine of one capture session.
///
/// It owns the deadline and the frame counter, and decides on every event
/// whether the session goes on. It is created when the source has been
/// opened, and tells the driver to close the source exactly once.
#[derive(Debug)]
pub struct CaptureLoop {
    deadline: CaptureDeadline,
    counter: PacketCounter,
    phase: Phase,
}

impl View for CaptureLoop {
    type V = LoopModel;

    closed spec fn view(&self) -> LoopModel {
        LoopModel {
            deadline: self.deadline,
            frames: self.counter@,
            state: match self.phase {
                Phase::Running => LoopState::Running,
                Phase::Failed { .. } => LoopState::Stopped(StopReason::HardError),
                Phase::Completed { .. } => LoopState::Stopped(StopReason::Completed),
            },
            failure: match self.phase {
                Phase::Failed { code, .. } => Some(CaptureError::ReceiveError(code)),
                _ => None,
            },
            closed_at: match self.phase {
                Phase::Running => None,
                Phase::Failed { closed_at, .. } => closed_at,
                Phase::Completed { reached_at } => Some(reached_at),
            },
        }
    }
}

impl CaptureLoop {
    #[verifier::type_invariant]
    spec fn well_formed(self) -> bool {
        self@.wf()
    }

    /// The engine of a session that begins when the clock reads `start`, on a
    /// source that has just been opened.
    pub fn new(options: &CaptureOptions, start: u64) -> (engine: CaptureLoop)
        ensures
            engine@ == LoopModel::fresh(options.window_duration, start),
            engine@.wf(),
    {
        CaptureLoop {
            deadline: CaptureDeadline::new(start, options.window_duration),
            counter: PacketCounter::new(),
            phase: Phase::Running,
        }
    }

    /// Checks the deadline against the clock's reading `now` and says what
    /// the driver has to do next.
    pub fn next_directive(&mut self, now: u64) -> (directive: Directive)
        ensures
            final(self)@ == old(self)@.tick(now).0,
            directive == old(self)@.tick(now).1,
            final(self)@.wf(),
    {
        proof {
            use_type_invariant(&*self);
        }
        match self.phase {
            Phase::Running => {
                if self.deadline.is_reached(now) {
                    let summary = self.summary_at(StopReason::Completed, now);
                    self.phase = Phase::Completed { reached_at: now };
                    Directive::Close(summary)
                } else {
                    Directive::Receive
                }
            },
            Phase::Failed { code, closed_at: None } => {
                let summary = self.summary_at(StopReason::HardError, now);
                self.phase = Phase::Failed { code, closed_at: Some(now) };
                Directive::Close(summary)
            },
            _ => Directive::Done,
        }
    }

    /// Takes the outcome of the receive that the last directive asked for,
    /// and says what the sink is to be told.
    ///
    /// The frame counter must have room for the frame.
    pub fn on_outcome(&mut self, outcome: &ReceiveOutcome) -> (report: Report)
        requires
            old(self)@.state is Running && outcome is Frame ==> old(self)@.frames < u64::MAX,
        ensures
            final(self)@ == old(self)@.receive(*outcome).0,
            report == old(self)@.receive(*outcome).1,
            final(self)@.wf(),
    {
        proof {
            use_type_invariant(&*self);
        }
        match self.phase {
            Phase::Running => match outcome {
                ReceiveOutcome::Frame(frame) => {
                    self.counter.increment();
                    Report::Decoded { sequence: self.counter.count(), frame: decode(frame) }
                },
                ReceiveOutcome::Timeout => Report::Quiet,
                ReceiveOutcome::Error(code) => {
                    self.phase = Phase::Failed { code: *code, closed_at: None };
                    Report::Failure(CaptureError::ReceiveError(*code))
                },
            },
            _ => Report::Quiet,
        }
    }

    /// The failure that ended the session, if one did.
    pub fn failure(&self) -> (failure: Option<CaptureError>)
        ensures
            failure == self@.failure,
    {
        match self.phase {
            Phase::Failed { code, .. } => Some(CaptureError::ReceiveError(code)),
            _ => None,
        }
    }

    /// The account of a session that ends for `reason` and is closed at `now`.
    fn summary_at(&self, reason: StopReason, now: u64) -> (summary: Summary)
        ensures
            summary == self@.summary_at(reason, now),
    {
        Summary {
            frames: self.counter.count(),
            elapsed: self.deadline.elapsed(now),
            reason,
            failure: self.failure(),
        }
    }

    /// Where the session stands.
    pub fn state(&self) -> (state: LoopState)
        ensures
            state == self@.state,
    {
        match self.phase {
            Phase::Running => LoopState::Running,
            Phase::Failed { .. } => LoopState::Stopped(StopReason::HardError),
            Phase::Completed { .. } => LoopState::Stopped(StopReason::Completed),
        }
    }

    /// Number of frames decoded so far.
    pub fn frames(&self) -> (frames: u64)
        ensures
            frames == self@.frames,
    {
        self.counter.count()
    }

    /// Start and length of the observation window.
    pub fn deadline(&self) -> (deadline: CaptureDeadline)
        ensures
            deadline == self@.deadline,
    {
        self.deadline
    }

    /// Whether the driver still holds the source open.
    pub fn is_source_open(&self) -> (open: bool)
        ensures
            open == self@.source_open(),
    {
        match self.phase {
            Phase::Running => true,
            Phase::Failed { closed_at, .. } => closed_at.is_none(),
            Phase::Completed { .. } => false,
        }
    }

    /// The account of the session, once its source is closed.
    pub fn summary(&self) -> (summary: Option<Summary>)
        ensures
            summary == self@.summary(),
    {
        match self.phase {
            Phase::Running => None,
            Phase::Failed { closed_at: None, .. } => None,
            Phase::Failed { closed_at: Some(at), .. } => Some(
                self.summary_at(StopReason::HardError, at),
            ),
            Phase::Completed { reached_at } => Some(
                self.summary_at(StopReason::Completed, reached_at),
            ),
        }
    }
}

} // verus!
