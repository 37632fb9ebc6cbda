//! The countdown before a run and the timer of the run itself. Times count
//! millionths of a second; a moment is the time since some fixed start.

use vstd::prelude::*;

verus! {

/// How long the countdown lasts: three seconds.
pub const COUNTDOWN: u64 = 3_000_000;

/// The timer of one run: when it started and, once it was stopped, when.
#[derive(Clone, Copy, Debug, PartialEq, Eq, Structural)]
pub struct MapDuration {
    pub start: u64,
    pub end: Option<u64>,
}

/// The time from `start` to `end`, and none where `end` lies before `start`.
pub open spec fn span(start: u64, end: u64) -> u64 {
    if end >= start {
        (end - start) as u64
    } else {
        0
    }
}

impl MapDuration {
    /// A timer that starts at the moment `now`.
    pub fn new(now: u64) -> (t: MapDuration)
        ensures
            t == (MapDuration { start: now, end: None }),
    {
        MapDuration { start: now, end: None }
    }

    /// The timer after it was stopped at the moment `now`: a running timer
    /// ends at `now`, a stopped one keeps its end.
    pub open spec fn stopped_at(self, now: u64) -> MapDuration {
        if self.end is Some {
            self
        } else {
            MapDuration { start: self.start, end: Some(now) }
        }
    }

    /// Stops the timer at the moment `now`. A timer that was stopped before
    /// stays as it is, so that the time of the run does not move.
    pub fn stop(&mut self, now: u64)
        ensures
            *final(self) == old(self).stopped_at(now),
    {
        match self.end {
            Some(_) => {},
            None => {
                self.end = Some(now);
            },
        }
    }

    /// How long the run has taken at the moment `now`.
    pub open spec fn elapsed_spec(self, now: u64) -> u64 {
        match self.end {
            Some(end) => span(self.start, end),
            None => span(self.start, now),
        }
    }

    /// How long the run took, once the timer was stopped, and else how long
    /// it has taken at the moment `now`.
    pub fn elapsed(&self, now: u64) -> (r: u64)
        ensures
            r == self.elapsed_spec(now),
    {
        let end = match self.end {
            Some(end) => end,
            None => now,
        };
        if end >= self.start {
            end - self.start
        } else {
            0
        }
    }
}

/// Stopping is idempotent: a timer that was stopped at `first` is not
/// changed by a stop at `second`, and the time of its run stays the time
/// from its start to `first`, whenever it is asked for.
pub proof fn lemma_stop_is_idempotent(timer: MapDuration, first: u64, second: u64, asked: u64)
    requires
        timer.end is None,
    ensures
        timer.stopped_at(first).stopped_at(second) == timer.stopped_at(first),
        timer.stopped_at(first).stopped_at(second).start == timer.start,
        timer.stopped_at(first).stopped_at(second).elapsed_spec(asked) == span(timer.start, first),
{
}

/// The countdown that runs once before a run.
#[derive(Clone, Copy, Debug, PartialEq, Eq, Structural)]
pub struct Countdown {
    /// The time counted so far, at most `COUNTDOWN`.
    pub elapsed: u64,
    /// Whether the countdown has run out.
    pub finished: bool,
    /// Whether the countdown ran out in the last tick.
    pub just_finished: bool,
}

impl Countdown {
    /// What always holds of a countdown: it has counted no more than it
    /// lasts, it has run out if and only if it has counted all of it, and it
    /// can only just have run out if it has run out.
    pub open spec fn wf(self) -> bool {
        &&& self.elapsed <= COUNTDOWN
        &&& self.finished <==> self.elapsed == COUNTDOWN
        &&& self.just_finished ==> self.finished
    }

    /// A countdown that has not begun.
    pub open spec fn start() -> Countdown {
        Countdown { elapsed: 0, finished: false, just_finished: false }
    }

    /// A countdown that has not begun.
    pub fn new() -> (c: Countdown)
        ensures
            c == Countdown::start(),
            c.wf(),
    {
        Countdown { elapsed: 0, finished: false, just_finished: false }
    }

    /// The countdown after `delta` more has passed.
    pub open spec fn ticked(self, delta: u64) -> Countdown {
        if self.finished {
            Countdown { just_finished: false, ..self }
        } else if self.elapsed + delta >= COUNTDOWN {
            Countdown { elapsed: COUNTDOWN, finished: true, just_finished: true }
        } else {
            Countdown { elapsed: (self.elapsed + delta) as u64, finished: false, just_finished: false }
        }
    }

    /// Counts `delta` more. The countdown runs out in the tick in which it
    /// has counted three seconds, and then stays as it is.
    pub fn tick(&mut self, delta: u64)
        ensures
            *final(self) == old(self).ticked(delta),
            old(self).wf() ==> final(self).wf(),
    {
        if self.finished {
            self.just_finished = false;
        } else if delta >= COUNTDOWN || self.elapsed >= COUNTDOWN - delta {
            self.elapsed = COUNTDOWN;
            self.finished = true;
            self.just_finished = true;
        } else {
            self.elapsed = self.elapsed + delta;
            self.just_finished = false;
        }
    }

    /// What is left of the countdown, to be shown; nothing is shown once it
    /// has run out.
    pub fn display_countdown(&self) -> (left: Option<u64>)
        ensures
            self.finished ==> left is None,
            !self.finished ==> left == Some(span(self.elapsed, COUNTDOWN)),
    {
        if self.finished {
            None
        } else if self.elapsed <= COUNTDOWN {
            Some(COUNTDOWN - self.elapsed)
        } else {
            Some(0)
        }
    }
}

/// Starts the timer of the run in the tick in which the countdown ran out:
/// the new timer starts at `now`. In any other tick the timer stays.
pub fn countdown_timer(countdown: &Countdown, timer: &mut Option<MapDuration>, now: u64)
    ensures
        countdown.just_finished ==> *final(timer) == Some(MapDuration { start: now, end: None }),
        !countdown.just_finished ==> *final(timer) == *old(timer),
{
    if countdown.just_finished {
        *timer = Some(MapDuration::new(now));
    }
}

} // verus!
