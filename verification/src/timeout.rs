//! The time limit of a yt-dlp run, held as whole seconds and nanoseconds.
use vstd::prelude::*;

verus! {

/// Number of nanoseconds in one second.
pub const NANOS_PER_SEC: u32 = 1_000_000_000;

/// A span of time: whole seconds plus a fraction below one second,
/// measured in nanoseconds. The fraction is always below one second.
#[derive(Clone, Copy, Debug, PartialEq, Eq)]
pub struct Timeout {
    secs: u64,
    nanos: u32,
}

impl Timeout {
    #[verifier::type_invariant]
    spec fn fraction_below_one_second(self) -> bool {
        self.nanos < NANOS_PER_SEC
    }

    /// Whole seconds of the span.
    pub closed spec fn spec_secs(self) -> nat {
        self.secs as nat
    }

    /// Nanoseconds of the span beyond its whole seconds.
    pub closed spec fn spec_nanos(self) -> nat {
        self.nanos as nat
    }

    /// The span of `secs` whole seconds.
    pub fn from_secs(secs: u64) -> (t: Timeout)
        ensures
            t.spec_secs() == secs,
            t.spec_nanos() == 0,
    {
        Timeout { secs, nanos: 0 }
    }

    /// The span of `secs` seconds and `nanos` nanoseconds.
    pub fn new(secs: u64, nanos: u32) -> (t: Timeout)
        requires
            nanos < NANOS_PER_SEC,
        ensures
            t.spec_secs() == secs,
            t.spec_nanos() == nanos,
    {
        Timeout { secs, nanos }
    }

    /// Whole seconds of the span.
    pub fn as_secs(&self) -> (s: u64)
        ensures
            s == self.spec_secs(),
    {
        self.secs
    }

    /// Nanoseconds of the span beyond its whole seconds.
    pub fn subsec_nanos(&self) -> (n: u32)
        ensures
            n == self.spec_nanos(),
            n < NANOS_PER_SEC,
    {
        proof {
            use_type_invariant(self);
        }
        self.nanos
    }
}

} // verus!
