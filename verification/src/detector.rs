//! The jump detector: is the time between two readings more than the clock
//! may advance in one tick?

use vstd::prelude::*;
use crate::clock::{elapsed_between, Sample, Span};

verus! {

/// Whether an elapsed time counts as a jump: strictly more than the
/// threshold. An elapsed time equal to the threshold does not.
pub open spec fn is_anomalous(elapsed: int, threshold: int) -> bool {
    elapsed > threshold
}

/// Two consecutive readings of the clock.
#[derive(Clone, Copy, Debug, PartialEq, Eq, Structural)]
pub struct Interval {
    pub previous: Sample,
    pub current: Sample,
}

impl Interval {
    /// The length of the interval in nanoseconds, zero where the clock went
    /// back.
    pub open spec fn elapsed_nanos(&self) -> int {
        elapsed_between(self.previous@, self.current@)
    }

    /// The interval from `previous` to `current`.
    pub fn new(previous: Sample, current: Sample) -> (interval: Interval)
        ensures
            interval == (Interval { previous, current }),
    {
        Interval { previous, current }
    }

    /// The length of the interval.
    pub fn elapsed(&self) -> (span: Span)
        ensures
            span@ == self.elapsed_nanos(),
    {
        self.current.elapsed_since(&self.previous)
    }

    /// Whether the interval is longer than `threshold`.
    pub fn exceeds(&self, threshold: &Span) -> (anomalous: bool)
        ensures
            anomalous == is_anomalous(self.elapsed_nanos(), threshold@),
    {
        self.elapsed().exceeds(threshold)
    }
}

/// Classifies one tick: the interval between the two readings, and whether
/// it is a jump beyond `threshold`. An interval no longer than the threshold
/// is never a jump, not even one exactly as long; a longer one always is; and
/// where the clock went back no time has passed, which is never a jump.
pub fn classify(previous: Sample, current: Sample, threshold: Span) -> (verdict: (Interval, bool))
    ensures
        verdict.0 == (Interval { previous, current }),
        verdict.1 == is_anomalous(verdict.0.elapsed_nanos(), threshold@),
        verdict.0.elapsed_nanos() <= threshold@ ==> !verdict.1,
        verdict.0.elapsed_nanos() > threshold@ ==> verdict.1,
        current@ < previous@ ==> verdict.0.elapsed_nanos() == 0 && !verdict.1,
{
    let interval = Interval::new(previous, current);
    let anomalous = interval.exceeds(&threshold);
    proof {
        threshold.lemma_nonnegative();
    }
    (interval, anomalous)
}

/// A clock that went back has let no time pass, and that is never a jump,
/// whatever the threshold.
pub proof fn lemma_backward_step_is_normal(interval: Interval, threshold: Span)
    requires
        interval.current@ < interval.previous@,
    ensures
        interval.elapsed_nanos() == 0,
        !is_anomalous(interval.elapsed_nanos(), threshold@),
{
    threshold.lemma_nonnegative();
}

} // verus!
