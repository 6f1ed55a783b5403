use vstd::prelude::*;

verus! {

/// Nanoseconds in one second.
pub const NANOS_PER_SECOND: u64 = 1_000_000_000;

/// Nanoseconds in one millisecond.
pub const NANOS_PER_MSECOND: u64 = 1_000_000;

/// The one `u64` that is not a time: hosts use it to say "no time".
pub const CLOCK_TIME_NONE: u64 = 0xffff_ffff_ffff_ffff;

/// A point or a span on the media clock, counted in nanoseconds.
#[derive(Clone, Copy, Debug)]
pub struct ClockTime {
    nanos: u64,
}

impl ClockTime {
    /// Every nanosecond count but `CLOCK_TIME_NONE` is a time.
    #[verifier::type_invariant]
    pub closed spec fn wf(self) -> bool {
        self.nanos != CLOCK_TIME_NONE
    }

    /// The time in nanoseconds.
    pub closed spec fn nanos(self) -> nat {
        self.nanos as nat
    }

    /// What `wf` says, over the count of nanoseconds.
    pub proof fn lemma_wf(self)
        ensures
            self.nanos() <= u64::MAX,
            self.wf() <==> self.nanos() != CLOCK_TIME_NONE,
    {
    }

    /// The start of the clock.
    pub fn zero() -> (t: ClockTime)
        ensures
            t.nanos() == 0,
            t.wf(),
    {
        ClockTime { nanos: 0 }
    }

    /// The time `nseconds` nanoseconds after the start of the clock.
    pub fn from_nseconds(nseconds: u64) -> (t: ClockTime)
        requires
            nseconds != CLOCK_TIME_NONE,
        ensures
            t.nanos() == nseconds,
            t.wf(),
    {
        ClockTime { nanos: nseconds }
    }

    /// The time `mseconds` milliseconds after the start of the clock.
    pub fn from_mseconds(mseconds: u64) -> (t: ClockTime)
        requires
            mseconds * NANOS_PER_MSECOND <= u64::MAX,
        ensures
            t.nanos() == mseconds * NANOS_PER_MSECOND,
            t.wf(),
    {
        ClockTime { nanos: mseconds * NANOS_PER_MSECOND }
    }

    /// The time `seconds` seconds after the start of the clock.
    pub fn from_seconds(seconds: u64) -> (t: ClockTime)
        requires
            seconds * NANOS_PER_SECOND <= u64::MAX,
        ensures
            t.nanos() == seconds * NANOS_PER_SECOND,
            t.wf(),
    {
        ClockTime { nanos: seconds * NANOS_PER_SECOND }
    }

    pub fn nseconds(self) -> (ns: u64)
        ensures
            ns == self.nanos(),
    {
        self.nanos
    }

    /// Whole milliseconds, rounded down.
    pub fn mseconds(self) -> (ms: u64)
        ensures
            ms == self.nanos() / (NANOS_PER_MSECOND as nat),
    {
        self.nanos / NANOS_PER_MSECOND
    }

    /// Whole seconds, rounded down.
    pub fn seconds(self) -> (s: u64)
        ensures
            s == self.nanos() / (NANOS_PER_SECOND as nat),
    {
        self.nanos / NANOS_PER_SECOND
    }

    /// The span from `earlier` to `self`, if `earlier` is not the later one.
    pub fn checked_sub(self, earlier: ClockTime) -> (span: Option<ClockTime>)
        ensures
            span is Some <==> earlier.nanos() <= self.nanos(),
            span matches Some(d) ==> d.nanos() == self.nanos() - earlier.nanos() && d.wf(),
    {
        proof {
            use_type_invariant(self);
        }
        if earlier.nanos <= self.nanos {
            Some(ClockTime { nanos: self.nanos - earlier.nanos })
        } else {
            None
        }
    }
}

} // verus!
