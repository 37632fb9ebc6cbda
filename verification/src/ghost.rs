//! The ghost: the log of a run, the choice of the log that is kept, and the
//! segments along which the kept log is played back.
//!
//! Times count millionths of a second.

use vstd::prelude::*;
use crate::fixed::{sum, sum_spec};
use crate::vector::{Quat, Vec3};

verus! {

/// The least time between two samples of the log: 0.3 seconds.
pub const SAMPLE_INTERVAL: i64 = 300_000;

/// Where the player was, and how it was turned.
#[derive(Clone, Copy, Debug, PartialEq, Eq, Structural)]
pub struct GhostSample {
    pub position: Vec3,
    pub orientation: Quat,
}

/// The log of a run: its samples, and for each the time since the one
/// before.
#[derive(Clone, Debug, PartialEq, Eq)]
pub struct GhostData {
    pub log: Vec<GhostSample>,
    pub duration: Vec<i64>,
}

/// The log that is being recorded, and the time since its last sample.
#[derive(Clone, Debug, PartialEq, Eq)]
pub struct GhostRecorder {
    pub data: GhostData,
    pub elapsed: i64,
}

/// One stretch of the playback, from one sample to the next.
#[derive(Clone, Copy, Debug, PartialEq, Eq, Structural)]
pub struct RotationTranslationLens {
    pub start: Vec3,
    pub end: Vec3,
    pub rstart: Quat,
    pub rend: Quat,
    /// How long the stretch lasts.
    pub duration: i64,
}

/// The sum of `durations`.
pub open spec fn total_spec(durations: Seq<i64>) -> int
    decreases durations.len(),
{
    if durations.len() == 0 {
        0
    } else {
        total_spec(durations.drop_last()) + durations.last()
    }
}

/// The time since the last sample, once `dt` more has passed than
/// `elapsed`.
pub open spec fn waited(elapsed: i64, dt: i64) -> i64 {
    sum_spec(elapsed as int, dt as int) as i64
}

/// Whether a sample is due once `dt` more has passed than `elapsed`: the
/// time since the last sample is then more than 0.3 seconds.
pub open spec fn due(elapsed: i64, dt: i64) -> bool {
    waited(elapsed, dt) > SAMPLE_INTERVAL
}

/// How many stretches a log of `samples` samples and `times` times has:
/// one less than it has samples, as far as it has times for them.
pub open spec fn segment_count(samples: nat, times: nat) -> nat {
    if samples == 0 {
        0
    } else if samples - 1 <= times {
        (samples - 1) as nat
    } else {
        times
    }
}

/// The stretch from sample `i` of the log to the next.
pub open spec fn segment_spec(log: Seq<GhostSample>, duration: Seq<i64>, i: int) -> RotationTranslationLens {
    RotationTranslationLens {
        start: log[i].position,
        end: log[i + 1].position,
        rstart: log[i].orientation,
        rend: log[i + 1].orientation,
        duration: duration[i],
    }
}

impl GhostData {
    /// Whether the log holds one time for each sample.
    pub open spec fn wf(self) -> bool {
        self.log.len() == self.duration.len()
    }

    /// A log without samples.
    pub fn new() -> (d: GhostData)
        ensures
            d.log@ == Seq::<GhostSample>::empty(),
            d.duration@ == Seq::<i64>::empty(),
            d.wf(),
    {
        GhostData { log: Vec::new(), duration: Vec::new() }
    }

    /// A log of the given samples and times, if there is one time for each
    /// sample; else nothing, as for a file that cannot be read.
    pub fn from_parts(log: Vec<GhostSample>, duration: Vec<i64>) -> (d: Option<GhostData>)
        ensures
            log.len() == duration.len() ==> d == Some(GhostData { log, duration }),
            log.len() != duration.len() ==> d is None,
    {
        if log.len() == duration.len() {
            Some(GhostData { log, duration })
        } else {
            None
        }
    }

    /// How long the logged run took: the sum of its times.
    pub fn total_duration(&self) -> (total: i128)
        ensures
            total == total_spec(self.duration@),
    {
        let mut total: i128 = 0;
        let mut i: usize = 0;
        while i < self.duration.len()
            invariant
                i <= self.duration.len(),
                total == total_spec(self.duration@.take(i as int)),
                -(i as int) * 0x8000_0000_0000_0000 <= total <= (i as int) * 0x8000_0000_0000_0000,
            decreases self.duration.len() - i,
        {
            proof {
                assert(self.duration@.take(i + 1).drop_last() =~= self.duration@.take(i as int));
                assert((i as int) * 0x8000_0000_0000_0000 + 0x8000_0000_0000_0000 == (i as int + 1)
                    * 0x8000_0000_0000_0000) by (nonlinear_arith);
                assert((i as int + 1) * 0x8000_0000_0000_0000 <= 0xffff_ffff_ffff_ffff
                    * 0x8000_0000_0000_0000) by (nonlinear_arith)
                    requires
                        i as int + 1 <= 0xffff_ffff_ffff_ffff,
                ;
            }
            total = total + self.duration[i] as i128;
            i += 1;
        }
        proof {
            assert(self.duration@.take(self.duration.len() as int) =~= self.duration@);
        }
        total
    }

    /// The stretches of the playback: one from each sample to the next, as
    /// long as the time logged with the first of the two. A log with fewer
    /// than two samples has none, and a log that lacks times has only those
    /// stretches for which it holds a time.
    pub fn replay_ghost(&self) -> (segments: Vec<RotationTranslationLens>)
        ensures
            segments.len() == segment_count(self.log@.len(), self.duration@.len()),
            self.wf() && self.log.len() > 0 ==> segments.len() == self.log.len() - 1,
            forall|i: int|
                0 <= i < segments.len() ==> #[trigger] segments@[i] == segment_spec(
                    self.log@,
                    self.duration@,
                    i,
                ),
    {
        let mut segments: Vec<RotationTranslationLens> = Vec::new();
        if self.log.len() == 0 {
            return segments;
        }
        let count = if self.log.len() - 1 <= self.duration.len() {
            self.log.len() - 1
        } else {
            self.duration.len()
        };
        let mut i: usize = 0;
        while i < count
            invariant
                count == segment_count(self.log@.len(), self.duration@.len()),
                count < self.log.len(),
                count <= self.duration.len(),
                i <= count,
                segments.len() == i,
                forall|j: int|
                    0 <= j < i ==> #[trigger] segments@[j] == segment_spec(self.log@, self.duration@, j),
            decreases count - i,
        {
            segments.push(
                RotationTranslationLens {
                    start: self.log[i].position,
                    end: self.log[i + 1].position,
                    rstart: self.log[i].orientation,
                    rend: self.log[i + 1].orientation,
                    duration: self.duration[i],
                },
            );
            i += 1;
        }
        segments
    }
}

impl RotationTranslationLens {
    /// The position at `ratio` of the way: `start + (end - start) * ratio`.
    pub open spec fn lerp_spec(self, ratio: i64) -> Vec3 {
        self.start.plus_spec(self.end.minus_spec(self.start).scaled_spec(ratio))
    }

    /// The position at `ratio` of the way from the start to the end, on the
    /// straight line between them.
    pub fn lerp(&self, ratio: i64) -> (p: Vec3)
        ensures
            p == self.lerp_spec(ratio),
    {
        self.start.plus(self.end.minus(self.start).scaled(ratio))
    }
}

impl GhostRecorder {
    /// Whether the recorded log holds one time for each sample.
    pub open spec fn wf(self) -> bool {
        self.data.wf()
    }

    /// A recorder with an empty log.
    pub fn new() -> (r: GhostRecorder)
        ensures
            r.data.log@ == Seq::<GhostSample>::empty(),
            r.data.duration@ == Seq::<i64>::empty(),
            r.elapsed == 0,
            r.wf(),
    {
        GhostRecorder { data: GhostData::new(), elapsed: 0 }
    }

    /// Lets `dt` pass. Once more than 0.3 seconds have passed since the last
    /// sample, the log gains the sample and the time that has passed, and
    /// the time starts again from nothing.
    pub fn ghost_recorder(&mut self, dt: i64, sample: GhostSample)
        ensures
            due(old(self).elapsed, dt) ==> {
                &&& final(self).data.log@ == old(self).data.log@.push(sample)
                &&& final(self).data.duration@ == old(self).data.duration@.push(waited(old(self).elapsed, dt))
                &&& final(self).elapsed == 0
            },
            !due(old(self).elapsed, dt) ==> {
                &&& final(self).data.log@ == old(self).data.log@
                &&& final(self).data.duration@ == old(self).data.duration@
                &&& final(self).elapsed == waited(old(self).elapsed, dt)
            },
            old(self).wf() ==> final(self).wf(),
    {
        self.elapsed = sum(self.elapsed, dt);
        if self.elapsed > SAMPLE_INTERVAL {
            self.data.log.push(sample);
            self.data.duration.push(self.elapsed);
            self.elapsed = 0;
        }
    }
}

/// Tells whether the log of the run that was just completed replaces the
/// stored one: always where none is stored, and else if and only if the
/// new run took less time than the stored one.
pub fn store_ghost(recorded: &GhostData, stored: Option<&GhostData>) -> (replace: bool)
    ensures
        replace <==> match stored {
            Some(kept) => total_spec(recorded.duration@) < total_spec(kept.duration@),
            None => true,
        },
{
    match stored {
        Some(kept) => recorded.total_duration() < kept.total_duration(),
        None => true,
    }
}

} // verus!
