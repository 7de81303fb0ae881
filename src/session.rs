use vstd::prelude::*;
use crate::event::EventModel;
use crate::bus::drained;

verus! {

/// The wall-clock budget of one turn, in milliseconds.
pub const TURN_DEADLINE_MS: u64 = 120_000;

/// Why a turn failed.
#[derive(Debug, Clone)]
pub enum TurnError {
    /// The backend reported an error while streaming; its message.
    Backend(String),
    /// The turn ran past its deadline.
    Timeout,
}

/// What the stream of a turn did next, as seen by the session.
#[derive(Debug, Clone)]
pub enum StreamSignal {
    /// A chunk arrived intact.
    Chunk,
    /// A chunk carried a backend error, with its message.
    ChunkFailed(String),
    /// The stream ended.
    Ended,
    /// No chunk arrived before the deadline.
    DeadlineElapsed,
}

/// What the session does after a signal.
#[derive(Debug)]
pub enum TurnStep {
    /// Wait for the next chunk.
    Continue,
    /// The turn is over, with this outcome.
    Finish(Result<(), TurnError>),
}

/// The outcome that a step stands for.
pub enum Outcome {
    Pending,
    Succeeded,
    Backend(Seq<char>),
    TimedOut,
}

impl View for TurnStep {
    type V = Outcome;

    open spec fn view(&self) -> Outcome {
        match self {
            TurnStep::Continue => Outcome::Pending,
            TurnStep::Finish(Ok(())) => Outcome::Succeeded,
            TurnStep::Finish(Err(TurnError::Backend(m))) => Outcome::Backend(m@),
            TurnStep::Finish(Err(TurnError::Timeout)) => Outcome::TimedOut,
        }
    }
}

/// The time since `started`, none where the clock reads earlier.
pub open spec fn elapsed(started: u64, now: u64) -> int {
    if now >= started {
        now - started
    } else {
        0
    }
}

/// What a signal observed at `now` means for a turn started at `started`: past
/// the deadline the turn has timed out whatever the signal; before it, a
/// failed chunk fails the turn, the end of the stream completes it and a
/// chunk lets it go on.
pub open spec fn decide(started: u64, now: u64, signal: StreamSignal) -> Outcome {
    if elapsed(started, now) >= TURN_DEADLINE_MS {
        Outcome::TimedOut
    } else {
        match signal {
            StreamSignal::Chunk => Outcome::Pending,
            StreamSignal::ChunkFailed(m) => Outcome::Backend(m@),
            StreamSignal::Ended => Outcome::Succeeded,
            StreamSignal::DeadlineElapsed => Outcome::TimedOut,
        }
    }
}

/// The decisions of one turn: it drains the stream until it ends, fails or
/// runs out of time.
pub struct TurnDriver {
    started_ms: u64,
}

impl TurnDriver {
    /// The moment, in milliseconds, at which the turn started.
    pub closed spec fn started(&self) -> u64 {
        self.started_ms
    }

    /// A turn that starts at `now_ms`.
    pub fn start(now_ms: u64) -> (r: TurnDriver)
        ensures
            r.started() == now_ms,
    {
        TurnDriver { started_ms: now_ms }
    }

    /// How long the turn may still wait, in milliseconds.
    pub fn remaining_ms(&self, now_ms: u64) -> (r: u64)
        ensures
            r == if elapsed(self.started(), now_ms) >= TURN_DEADLINE_MS {
                0
            } else {
                TURN_DEADLINE_MS - elapsed(self.started(), now_ms)
            },
    {
        let spent: u64 = if now_ms >= self.started_ms {
            now_ms - self.started_ms
        } else {
            0
        };
        if spent >= TURN_DEADLINE_MS {
            0
        } else {
            TURN_DEADLINE_MS - spent
        }
    }

    /// What to do after `signal` arrived at `now_ms`.
    pub fn observe(&self, now_ms: u64, signal: StreamSignal) -> (r: TurnStep)
        ensures
            r@ == decide(self.started(), now_ms, signal),
    {
        let spent: u64 = if now_ms >= self.started_ms {
            now_ms - self.started_ms
        } else {
            0
        };
        if spent >= TURN_DEADLINE_MS {
            return TurnStep::Finish(Err(TurnError::Timeout));
        }
        match signal {
            StreamSignal::Chunk => TurnStep::Continue,
            StreamSignal::ChunkFailed(m) => TurnStep::Finish(Err(TurnError::Backend(m))),
            StreamSignal::Ended => TurnStep::Finish(Ok(())),
            StreamSignal::DeadlineElapsed => TurnStep::Finish(Err(TurnError::Timeout)),
        }
    }
}

impl TurnError {
    /// The message shown for this error.
    pub fn message(&self) -> (r: String)
        ensures
            r@ == match self {
                TurnError::Backend(m) => m@,
                TurnError::Timeout => "deadline has elapsed"@,
            },
    {
        match self {
            TurnError::Backend(m) => m.clone(),
            TurnError::Timeout => String::from_str("deadline has elapsed"),
        }
    }
}

/// A turn that runs past its deadline fails with a timeout, whatever the
/// stream does, and leaves the events emitted so far on the bus: draining it
/// then hands all of them out.
pub proof fn lemma_timeout_keeps_events(
    started: u64,
    now: u64,
    signal: StreamSignal,
    pending: Seq<EventModel>,
)
    requires
        elapsed(started, now) >= TURN_DEADLINE_MS,
    ensures
        decide(started, now, signal) == Outcome::TimedOut,
        drained(pending).0 == pending,
{
}

} // verus!
