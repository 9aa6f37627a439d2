//! Points in time and lengths of time, counted in whole nanoseconds.

use vstd::prelude::*;

verus! {

/// Nanoseconds in one second.
pub const NANOS_PER_SEC: u32 = 1_000_000_000;

/// Seconds in one hour.
pub const SECS_PER_HOUR: u64 = 3_600;

/// The time that passes between two readings, in nanoseconds: the difference
/// where the clock went forward, zero where it stood still or went back.
pub open spec fn elapsed_between(previous: int, current: int) -> int {
    if current > previous {
        current - previous
    } else {
        0
    }
}

/// A non-negative length of time with nanosecond resolution.
#[derive(Clone, Copy, Debug, PartialEq, Eq, Structural)]
pub struct Span {
    secs: u64,
    nanos: u32,
}

impl View for Span {
    type V = int;

    /// The length in nanoseconds.
    closed spec fn view(&self) -> int {
        self.secs as int * 1_000_000_000 + self.nanos as int
    }
}

impl Span {
    /// The sub-second part stays below one second.
    #[verifier::type_invariant]
    pub closed spec fn wf(self) -> bool {
        self.nanos < 1_000_000_000
    }

    /// The span of `secs` whole seconds, as a specification value.
    pub closed spec fn of_secs(secs: u64) -> Span {
        Span { secs, nanos: 0 }
    }

    /// A span of `secs` seconds and `nanos` nanoseconds, or `None` where
    /// `nanos` is a full second or more.
    pub fn new(secs: u64, nanos: u32) -> (span: Option<Span>)
        ensures
            span is Some <==> nanos < NANOS_PER_SEC,
            span matches Some(s) ==> s.wf() && s@ == secs * NANOS_PER_SEC + nanos,
    {
        if nanos < NANOS_PER_SEC {
            Some(Span { secs, nanos })
        } else {
            None
        }
    }

    /// A span of `secs` whole seconds.
    pub fn from_secs(secs: u64) -> (span: Span)
        ensures
            span == Span::of_secs(secs),
            span.wf(),
            span@ == secs * NANOS_PER_SEC,
    {
        Span { secs, nanos: 0 }
    }

    /// The whole seconds in the span.
    pub fn secs(&self) -> (secs: u64)
        ensures
            secs == self@ / (NANOS_PER_SEC as int),
    {
        proof {
            use_type_invariant(self);
        }
        self.secs
    }

    /// What is left of the span beyond its whole seconds, in nanoseconds.
    pub fn subsec_nanos(&self) -> (nanos: u32)
        ensures
            nanos == self@ % (NANOS_PER_SEC as int),
            nanos < NANOS_PER_SEC,
    {
        proof {
            use_type_invariant(self);
        }
        self.nanos
    }

    /// Whether the span is strictly longer than `other`.
    pub fn exceeds(&self, other: &Span) -> (longer: bool)
        ensures
            longer == (self@ > other@),
    {
        proof {
            use_type_invariant(self);
            use_type_invariant(other);
        }
        self.secs > other.secs || (self.secs == other.secs && self.nanos > other.nanos)
    }

    /// The whole hours in the span, rounded down.
    pub fn whole_hours(&self) -> (hours: u64)
        ensures
            hours == self@ / (SECS_PER_HOUR * NANOS_PER_SEC),
    {
        proof {
            use_type_invariant(self);
            Self::lemma_hours(self.secs as int, self.nanos as int);
        }
        self.secs / SECS_PER_HOUR
    }

    proof fn lemma_hours(secs: int, nanos: int)
        requires
            0 <= secs,
            0 <= nanos < 1_000_000_000,
        ensures
            secs / 3_600 == (secs * 1_000_000_000 + nanos) / 3_600_000_000_000,
    {
        let h = secs / 3_600;
        let r = secs % 3_600;
        assert(secs == 3_600 * h + r);
        assert(secs * 1_000_000_000 + nanos == 3_600_000_000_000 * h + (r * 1_000_000_000
            + nanos));
        assert(0 <= r * 1_000_000_000 + nanos < 3_600_000_000_000);
        vstd::arithmetic::div_mod::lemma_fundamental_div_mod_converse(
            secs * 1_000_000_000 + nanos,
            3_600_000_000_000,
            h,
            r * 1_000_000_000 + nanos,
        );
    }

    /// A span of whole seconds is as long as that many seconds.
    pub proof fn lemma_of_secs(secs: u64)
        ensures
            Span::of_secs(secs).wf(),
            Span::of_secs(secs)@ == secs * NANOS_PER_SEC,
    {
    }

    /// No span is negative.
    pub proof fn lemma_nonnegative(self)
        ensures
            self@ >= 0,
    {
    }

    /// Two spans of the same length are the same span.
    pub proof fn lemma_equal_by_length(self, other: Span)
        requires
            self.wf(),
            other.wf(),
            self@ == other@,
        ensures
            self == other,
    {
    }
}

/// A reading of the wall clock: the time since the Unix epoch, negative for
/// readings before it.
#[derive(Clone, Copy, Debug, PartialEq, Eq, Structural)]
pub struct Sample {
    secs: i64,
    nanos: u32,
}

impl View for Sample {
    type V = int;

    /// Nanoseconds since the Unix epoch.
    closed spec fn view(&self) -> int {
        self.secs as int * 1_000_000_000 + self.nanos as int
    }
}

impl Sample {
    /// The sub-second part stays below one second.
    #[verifier::type_invariant]
    pub closed spec fn wf(self) -> bool {
        self.nanos < 1_000_000_000
    }

    /// The reading `secs` seconds and `nanos` nanoseconds after the epoch
    /// (`secs` may be negative; `nanos` always counts forward), or `None`
    /// where `nanos` is a full second or more.
    pub fn new(secs: i64, nanos: u32) -> (sample: Option<Sample>)
        ensures
            sample is Some <==> nanos < NANOS_PER_SEC,
            sample matches Some(s) ==> s.wf() && s@ == secs * NANOS_PER_SEC + nanos,
    {
        if nanos < NANOS_PER_SEC {
            Some(Sample { secs, nanos })
        } else {
            None
        }
    }

    /// The reading `secs` seconds and `nanos` nanoseconds after the epoch,
    /// or `None` where `nanos` is a full second or more or the seconds
    /// exceed what a reading can hold.
    pub fn after_epoch(secs: u64, nanos: u32) -> (sample: Option<Sample>)
        ensures
            sample is Some <==> nanos < NANOS_PER_SEC && secs <= i64::MAX,
            sample matches Some(s) ==> s.wf() && s@ == secs * NANOS_PER_SEC + nanos,
    {
        if nanos < NANOS_PER_SEC && secs <= i64::MAX as u64 {
            Some(Sample { secs: secs as i64, nanos })
        } else {
            None
        }
    }

    /// The reading `secs` seconds and `nanos` nanoseconds before the epoch,
    /// or `None` where `nanos` is a full second or more or the reading lies
    /// further back than a reading can hold.
    pub fn before_epoch(secs: u64, nanos: u32) -> (sample: Option<Sample>)
        ensures
            sample is Some <==> nanos < NANOS_PER_SEC && -(secs * NANOS_PER_SEC + nanos)
                >= i64::MIN * NANOS_PER_SEC,
            sample matches Some(s) ==> s.wf() && s@ == -(secs * NANOS_PER_SEC + nanos),
    {
        if nanos >= NANOS_PER_SEC {
            None
        } else if nanos == 0 {
            if secs <= i64::MAX as u64 {
                Some(Sample { secs: -(secs as i64), nanos: 0 })
            } else if secs == i64::MAX as u64 + 1 {
                Some(Sample { secs: i64::MIN, nanos: 0 })
            } else {
                None
            }
        } else if secs <= i64::MAX as u64 {
            Some(Sample { secs: -(secs as i64) - 1, nanos: NANOS_PER_SEC - nanos })
        } else {
            None
        }
    }

    /// The whole seconds since the epoch, rounded towards the past.
    pub fn secs(&self) -> (secs: i64)
        ensures
            secs == self@ / (NANOS_PER_SEC as int),
    {
        proof {
            use_type_invariant(self);
        }
        self.secs
    }

    /// The nanoseconds past the whole second.
    pub fn subsec_nanos(&self) -> (nanos: u32)
        ensures
            nanos == self@ % (NANOS_PER_SEC as int),
            nanos < NANOS_PER_SEC,
    {
        proof {
            use_type_invariant(self);
        }
        self.nanos
    }

    /// The time that passed from `earlier` to this reading, zero where this
    /// reading is not the later one.
    pub fn elapsed_since(&self, earlier: &Sample) -> (span: Span)
        ensures
            span@ == elapsed_between(earlier@, self@),
    {
        proof {
            use_type_invariant(self);
            use_type_invariant(earlier);
        }
        if self.secs < earlier.secs || (self.secs == earlier.secs && self.nanos <= earlier.nanos) {
            Span { secs: 0, nanos: 0 }
        } else if self.nanos >= earlier.nanos {
            let secs: i128 = self.secs as i128 - earlier.secs as i128;
            Span { secs: secs as u64, nanos: self.nanos - earlier.nanos }
        } else {
            let secs: i128 = self.secs as i128 - earlier.secs as i128 - 1;
            Span { secs: secs as u64, nanos: self.nanos + NANOS_PER_SEC - earlier.nanos }
        }
    }

    /// Two readings of the same instant are the same reading.
    pub proof fn lemma_equal_by_instant(self, other: Sample)
        requires
            self.wf(),
            other.wf(),
            self@ == other@,
        ensures
            self == other,
    {
    }
}

} // verus!
