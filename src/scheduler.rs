use vstd::prelude::*;

verus! {

/// Longest time in milliseconds spent draining one stream per cycle.
pub const MAX_QUEUE_PROCESSING_TIME_SLICE: u128 = 50;

/// One of the two input streams.
#[derive(Clone, Copy, Debug, PartialEq, Eq, Structural)]
pub enum Stream {
    Gps,
    R09,
}

/// Where the consumer stands in its cycle: waiting for the next element to
/// ripen, or draining a stream in a slice that began at `start`.
#[derive(Clone, Copy, Debug, PartialEq, Eq, Structural)]
pub enum Phase {
    Waiting,
    Draining { stream: Stream, start: u128 },
}

/// What came of the last step that was carried out.
#[derive(Clone, Copy, Debug, PartialEq, Eq, Structural)]
pub enum Outcome {
    /// the wait is over
    Slept,
    /// a pop handed out an element, which was dispatched
    Popped,
    /// a pop handed out nothing
    Empty,
}

/// What the consumer is to do next.
#[derive(Clone, Copy, Debug, PartialEq, Eq, Structural)]
pub enum Step {
    Sleep { millis: u128 },
    Pop { stream: Stream },
}

/// The phase that follows a finished drain of `phase`: the GPS stream is
/// followed by the R09 stream, which is followed by a wait.
pub open spec fn next_stream(phase: Phase, now: u128) -> Phase {
    match phase {
        Phase::Draining { stream: Stream::Gps, start: _ } => Phase::Draining {
            stream: Stream::R09,
            start: now,
        },
        _ => Phase::Waiting,
    }
}

/// The phase after `outcome`, before the time slice is checked.
pub open spec fn phase_after(phase: Phase, outcome: Outcome, now: u128) -> Phase {
    match outcome {
        Outcome::Slept => Phase::Draining { stream: Stream::Gps, start: now },
        Outcome::Popped => phase,
        Outcome::Empty => next_stream(phase, now),
    }
}

/// The drain of `phase` has used up its slice at `now`.
pub open spec fn slice_spent(phase: Phase, now: u128) -> bool {
    match phase {
        Phase::Draining { stream: _, start } => now - start >= MAX_QUEUE_PROCESSING_TIME_SLICE,
        Phase::Waiting => false,
    }
}

/// The phase the consumer moves to on `outcome` at `now`.
pub open spec fn transition(phase: Phase, outcome: Outcome, now: u128) -> Phase {
    let p = phase_after(phase, outcome, now);
    if slice_spent(p, now) {
        next_stream(p, now)
    } else {
        p
    }
}

/// The step taken in `phase`; a wait lasts until the first element of either
/// queue ripens.
pub open spec fn step_in(phase: Phase, gps_wait: u128, r09_wait: u128) -> Step {
    match phase {
        Phase::Waiting => Step::Sleep {
            millis: if gps_wait <= r09_wait {
                gps_wait
            } else {
                r09_wait
            },
        },
        Phase::Draining { stream, start: _ } => Step::Pop { stream },
    }
}

/// The consumer's decisions: wait for the sooner of the two queues, drain
/// the GPS queue, then the R09 queue, each until it runs empty or its time
/// slice is spent, and start over.
pub struct Scheduler {
    pub phase: Phase,
}

impl Scheduler {
    /// A scheduler that begins with a wait.
    pub fn new() -> (s: Scheduler)
        ensures
            s.phase == Phase::Waiting,
    {
        Scheduler { phase: Phase::Waiting }
    }

    /// Records `outcome` observed at `now` and returns the next step.
    /// `gps_wait` and `r09_wait` are the queues' `most_recent_event_at(now)`.
    pub fn step(&mut self, outcome: Outcome, now: u128, gps_wait: u128, r09_wait: u128) -> (s: Step)
        ensures
            final(self).phase == transition(old(self).phase, outcome, now),
            s == step_in(final(self).phase, gps_wait, r09_wait),
    {
        let after = match outcome {
            Outcome::Slept => Phase::Draining { stream: Stream::Gps, start: now },
            Outcome::Popped => self.phase,
            Outcome::Empty => next_phase(self.phase, now),
        };
        let spent = match after {
            Phase::Draining { stream: _, start } => now >= start && now - start
                >= MAX_QUEUE_PROCESSING_TIME_SLICE,
            Phase::Waiting => false,
        };
        self.phase = if spent {
            next_phase(after, now)
        } else {
            after
        };
        match self.phase {
            Phase::Waiting => Step::Sleep {
                millis: if gps_wait <= r09_wait {
                    gps_wait
                } else {
                    r09_wait
                },
            },
            Phase::Draining { stream, start: _ } => Step::Pop { stream },
        }
    }
}

fn next_phase(phase: Phase, now: u128) -> (r: Phase)
    ensures
        r == next_stream(phase, now),
{
    match phase {
        Phase::Draining { stream: Stream::Gps, start: _ } => Phase::Draining {
            stream: Stream::R09,
            start: now,
        },
        _ => Phase::Waiting,
    }
}

} // verus!
