//! Whole sessions, and what holds of every one of them.
//!
//! A driver that follows the engine works in rounds. In each round it reads
//! the clock and asks for a directive; if the directive is to receive, it
//! receives once and reports the outcome. A [`Round`] holds the clock's
//! reading and what the source returns if it is asked in that round. The
//! functions of this module say where the engine stands after a sequence of
//! rounds, and how often the source was asked to deliver and told to close.

use crate::capture_loop::{Directive, LoopModel, LoopState, StopReason, Summary};
use crate::deadline::CaptureDeadline;
use crate::source::{CaptureError, Micros, ReceiveOutcome};
use vstd::prelude::*;

verus! {

/// One turn of the driver: the clock's reading at the deadline check, and
/// what the source returns if the engine asks for a receive.
pub struct Round {
    pub now: u64,
    pub outcome: ReceiveOutcome,
}

impl LoopModel {
    /// Whether the source is asked to deliver in a round that starts here.
    pub open spec fn receives_in(self, round: Round) -> bool {
        self.tick(round.now).1 is Receive
    }

    /// Whether the source is told to close in a round that starts here.
    pub open spec fn closes_in(self, round: Round) -> bool {
        self.tick(round.now).1 is Close
    }

    /// The engine after one round.
    pub open spec fn after_round(self, round: Round) -> LoopModel {
        if self.receives_in(round) {
            self.tick(round.now).0.receive(round.outcome).0
        } else {
            self.tick(round.now).0
        }
    }

    /// The engine after a sequence of rounds.
    pub open spec fn after_rounds(self, rounds: Seq<Round>) -> LoopModel
        decreases rounds.len(),
    {
        if rounds.len() == 0 {
            self
        } else {
            self.after_rounds(rounds.drop_last()).after_round(rounds.last())
        }
    }

    /// How often the source is asked to deliver in a sequence of rounds.
    pub open spec fn receive_calls(self, rounds: Seq<Round>) -> nat
        decreases rounds.len(),
    {
        if rounds.len() == 0 {
            0
        } else {
            let before = self.after_rounds(rounds.drop_last());
            self.receive_calls(rounds.drop_last()) + if before.receives_in(rounds.last()) {
                1nat
            } else {
                0nat
            }
        }
    }

    /// How often the source delivers a frame on being asked, in a sequence of
    /// rounds.
    pub open spec fn frames_delivered(self, rounds: Seq<Round>) -> nat
        decreases rounds.len(),
    {
        if rounds.len() == 0 {
            0
        } else {
            let before = self.after_rounds(rounds.drop_last());
            self.frames_delivered(rounds.drop_last()) + if before.receives_in(rounds.last())
                && rounds.last().outcome is Frame {
                1nat
            } else {
                0nat
            }
        }
    }

    /// How often the source is told to close in a sequence of rounds.
    pub open spec fn close_calls(self, rounds: Seq<Round>) -> nat
        decreases rounds.len(),
    {
        if rounds.len() == 0 {
            0
        } else {
            let before = self.after_rounds(rounds.drop_last());
            self.close_calls(rounds.drop_last()) + if before.closes_in(rounds.last()) {
                1nat
            } else {
                0nat
            }
        }
    }
}

/// Neither step of the engine breaks what holds of every engine, changes the
/// deadline or lowers the frame count, and a source that was closed stays so.
pub proof fn lemma_steps_preserve(model: LoopModel, now: u64, outcome: ReceiveOutcome)
    requires
        model.wf(),
    ensures
        model.tick(now).0.wf(),
        model.tick(now).0.deadline == model.deadline,
        model.tick(now).0.frames == model.frames,
        !model.source_open() ==> model.tick(now) == (model, Directive::Done),
        model.receive(outcome).0.wf(),
        model.receive(outcome).0.deadline == model.deadline,
        model.receive(outcome).0.frames >= model.frames,
        model.receive(outcome).0.closed_at == model.closed_at,
{
}

/// The frame counter counts every frame once, and nothing else.
///
/// After any rounds, the count has grown by the number of frames that the
/// source delivered on being asked. The source is asked at most once in a
/// round.
pub proof fn lemma_counter_counts_frames(model: LoopModel, rounds: Seq<Round>)
    ensures
        model.after_rounds(rounds).frames == model.frames + model.frames_delivered(rounds),
        model.frames_delivered(rounds) <= model.receive_calls(rounds) <= rounds.len(),
    decreases rounds.len(),
{
    if rounds.len() > 0 {
        lemma_counter_counts_frames(model, rounds.drop_last());
    }
}

/// A session is closed exactly once, however it ends.
///
/// After any rounds of a session, the source was told to close once if the
/// session has been closed and never otherwise; no round closes it a second
/// time. It is closed only after the session has stopped, and a session that
/// has stopped is closed by the next round, whatever that round holds. Once
/// closed, the source is never asked to deliver again.
pub proof fn lemma_closed_exactly_once(window: Micros, start: u64, rounds: Seq<Round>)
    ensures
        ({
            let end = LoopModel::fresh(window, start).after_rounds(rounds);
            &&& end.wf()
            &&& LoopModel::fresh(window, start).close_calls(rounds) == (if end.source_open() {
                0nat
            } else {
                1nat
            })
            &&& !end.source_open() ==> end.state is Stopped && end.summary() is Some
            &&& end.state is Running ==> end.source_open()
            &&& forall|next: Round|
                end.state is Stopped ==> !(#[trigger] end.after_round(next)).source_open()
            &&& forall|next: Round|
                !end.source_open() ==> !(#[trigger] end.receives_in(next)) && !end.closes_in(next)
                    && end.after_round(next) == end
        }),
    decreases rounds.len(),
{
    let begin = LoopModel::fresh(window, start);
    if rounds.len() > 0 {
        lemma_closed_exactly_once(window, start, rounds.drop_last());
        let before = begin.after_rounds(rounds.drop_last());
        let last = rounds.last();
        lemma_steps_preserve(before, last.now, last.outcome);
        lemma_steps_preserve(before.tick(last.now).0, last.now, last.outcome);
    }
}

/// Number of rounds in which the source delivers a frame if asked.
pub open spec fn frames_among(rounds: Seq<Round>) -> nat
    decreases rounds.len(),
{
    if rounds.len() == 0 {
        0
    } else {
        frames_among(rounds.drop_last()) + if rounds.last().outcome is Frame {
            1nat
        } else {
            0nat
        }
    }
}

/// Timeouts are absorbed and frames are counted one by one.
///
/// While the deadline is not reached and no receive fails, the session keeps
/// running: the source is asked to deliver in every round and never told to
/// close, and the frame count is the number of frames delivered. Rounds that
/// time out leave the engine as it was.
pub proof fn lemma_running_session(window: Micros, start: u64, rounds: Seq<Round>)
    requires
        forall|i: int|
            0 <= i < rounds.len() ==> !(CaptureDeadline { start, duration: window }).spec_is_reached(
                (#[trigger] rounds[i]).now,
            ) && !(rounds[i].outcome is Error),
    ensures
        LoopModel::fresh(window, start).after_rounds(rounds) == (LoopModel {
            frames: frames_among(rounds),
            ..LoopModel::fresh(window, start)
        }),
        LoopModel::fresh(window, start).receive_calls(rounds) == rounds.len(),
        LoopModel::fresh(window, start).close_calls(rounds) == 0,
        frames_among(rounds) <= rounds.len(),
        (forall|i: int| 0 <= i < rounds.len() ==> (#[trigger] rounds[i]).outcome is Timeout)
            ==> frames_among(rounds) == 0,
        (forall|i: int| 0 <= i < rounds.len() ==> (#[trigger] rounds[i]).outcome is Frame)
            ==> frames_among(rounds) == rounds.len(),
    decreases rounds.len(),
{
    if rounds.len() > 0 {
        lemma_running_session(window, start, rounds.drop_last());
    }
}

/// A session whose every receive times out ends by the deadline, with no
/// frame counted.
///
/// Let round `last` be the first in which the deadline is reached, every
/// receive before it having timed out. Whatever rounds follow, the session is
/// completed, it counts no frame, the source was asked to deliver once in
/// each round before `last` and told to close once, and the summary gives the
/// time from the start to that round's reading of the clock. That time is at
/// least the window, and exceeds it by less than the time between the last
/// two readings.
pub proof fn lemma_timeouts_until_deadline(
    window: Micros,
    start: u64,
    rounds: Seq<Round>,
    last: int,
)
    requires
        0 <= last < rounds.len(),
        forall|i: int|
            0 <= i < last ==> !(CaptureDeadline { start, duration: window }).spec_is_reached(
                (#[trigger] rounds[i]).now,
            ) && rounds[i].outcome is Timeout,
        (CaptureDeadline { start, duration: window }).spec_is_reached(rounds[last].now),
    ensures
        ({
            let begin = LoopModel::fresh(window, start);
            let end = begin.after_rounds(rounds);
            &&& end.state == LoopState::Stopped(StopReason::Completed)
            &&& end.deadline == begin.deadline
            &&& end.frames == 0
            &&& end.failure is None
            &&& begin.receive_calls(rounds) == last
            &&& begin.close_calls(rounds) == 1
            &&& end.summary() == Some(
                Summary {
                    frames: 0,
                    elapsed: (rounds[last].now - start) as u64,
                    reason: StopReason::Completed,
                    failure: None,
                },
            )
            &&& rounds[last].now - start >= window
            &&& last > 0 ==> rounds[last].now - start - window < rounds[last].now - rounds[last
                - 1].now
        }),
    decreases rounds.len(),
{
    if rounds.len() - 1 == last {
        lemma_running_session(window, start, rounds.drop_last());
    } else {
        lemma_timeouts_until_deadline(window, start, rounds.drop_last(), last);
    }
}

/// A failed receive ends the session at once and keeps what was gathered.
///
/// Let the source deliver a frame in each of the first `count` rounds and
/// fail in the next, all before the deadline. Whatever rounds follow, the
/// session has ended by that failure and holds it, it counts exactly `count`
/// frames, and the source was asked to deliver `count + 1` times: never again
/// after the failure. If a round follows the failure, the source was told to
/// close once, and the summary gives the count and the time from the start to
/// that round's reading of the clock.
pub proof fn lemma_failure_ends_session(
    window: Micros,
    start: u64,
    rounds: Seq<Round>,
    count: int,
    code: i32,
)
    requires
        0 <= count < rounds.len(),
        forall|i: int|
            0 <= i <= count ==> !(CaptureDeadline { start, duration: window }).spec_is_reached(
                (#[trigger] rounds[i]).now,
            ),
        forall|i: int| 0 <= i < count ==> (#[trigger] rounds[i]).outcome is Frame,
        rounds[count].outcome == ReceiveOutcome::Error(code),
    ensures
        ({
            let begin = LoopModel::fresh(window, start);
            let end = begin.after_rounds(rounds);
            &&& end.state == LoopState::Stopped(StopReason::HardError)
            &&& end.deadline == begin.deadline
            &&& end.frames == count
            &&& end.failure == Some(CaptureError::ReceiveError(code))
            &&& begin.receive_calls(rounds) == count + 1
            &&& rounds.len() == count + 1 ==> end.source_open() && begin.close_calls(rounds) == 0
            &&& rounds.len() > count + 1 ==> {
                &&& begin.close_calls(rounds) == 1
                &&& end.summary() == Some(
                    end.summary_at(StopReason::HardError, rounds[count + 1].now),
                )
                &&& count <= u64::MAX ==> end.summary() == Some(
                    Summary {
                        frames: count as u64,
                        elapsed: (CaptureDeadline { start, duration: window }).spec_elapsed(
                            rounds[count + 1].now,
                        ),
                        reason: StopReason::HardError,
                        failure: Some(CaptureError::ReceiveError(code)),
                    },
                )
            }
        }),
    decreases rounds.len(),
{
    if rounds.len() - 1 == count {
        lemma_running_session(window, start, rounds.drop_last());
    } else {
        lemma_failure_ends_session(window, start, rounds.drop_last(), count, code);
    }
}

} // verus!
