//! Spans of time, in whole nanoseconds: the check intervals and lock times to
//! live of jobs, and the delays of executors.

use vstd::prelude::*;

verus! {

/// Nanoseconds in a second.
pub const NANOS_PER_SEC: u32 = 1_000_000_000u32;

/// Nanoseconds in a millisecond.
pub const NANOS_PER_MILLI: u32 = 1_000_000u32;

/// A span of `nanos` nanoseconds, rounded down to whole seconds.
pub open spec fn whole_seconds(nanos: nat) -> nat {
    ((nanos / (NANOS_PER_SEC as nat)) * NANOS_PER_SEC) as nat
}

/// Whether a number of nanoseconds is the span of an `Interval`: its whole
/// seconds fit in a `u64`.
pub open spec fn representable(nanos: nat) -> bool {
    nanos / (NANOS_PER_SEC as nat) <= u64::MAX
}

/// A span of time: whole seconds and the nanoseconds below a second.
#[derive(Clone, Copy, Debug)]
pub struct Interval {
    secs: u64,
    nanos: u32,
}

impl View for Interval {
    /// The span in nanoseconds.
    type V = nat;

    closed spec fn view(&self) -> nat {
        (self.secs * NANOS_PER_SEC + self.nanos) as nat
    }
}

proof fn lemma_split(secs: u64, nanos: u32)
    requires
        nanos < NANOS_PER_SEC,
    ensures
        (secs * NANOS_PER_SEC + nanos) / (NANOS_PER_SEC as int) == secs,
        (secs * NANOS_PER_SEC + nanos) % (NANOS_PER_SEC as int) == nanos,
{
    vstd::arithmetic::div_mod::lemma_fundamental_div_mod_converse(
        secs * NANOS_PER_SEC + nanos,
        NANOS_PER_SEC as int,
        secs as int,
        nanos as int,
    );
}

impl Interval {
    #[verifier::type_invariant]
    spec fn normalized(self) -> bool {
        self.nanos < NANOS_PER_SEC
    }

    /// A span of whole seconds.
    pub fn from_secs(secs: u64) -> (i: Interval)
        ensures
            i@ == secs * NANOS_PER_SEC,
    {
        Interval { secs, nanos: 0 }
    }

    /// A span of whole milliseconds.
    pub fn from_millis(millis: u64) -> (i: Interval)
        ensures
            i@ == millis * NANOS_PER_MILLI,
    {
        let secs = millis / 1000;
        let rest = millis % 1000;
        let nanos: u32 = (rest as u32) * NANOS_PER_MILLI;
        assert(secs * NANOS_PER_SEC + nanos == millis * NANOS_PER_MILLI) by (nonlinear_arith)
            requires
                secs == millis / 1000,
                rest == millis % 1000,
                nanos == rest * NANOS_PER_MILLI,
        {
        }
        Interval { secs, nanos }
    }

    /// The span of `secs` seconds and `nanos` nanoseconds; nanoseconds beyond
    /// a second carry into the seconds.
    pub fn new(secs: u64, nanos: u32) -> (i: Interval)
        requires
            secs + nanos / NANOS_PER_SEC <= u64::MAX,
        ensures
            i@ == secs * NANOS_PER_SEC + nanos,
    {
        let carry: u64 = (nanos / NANOS_PER_SEC) as u64;
        let rest: u32 = nanos % NANOS_PER_SEC;
        assert((secs + carry) * NANOS_PER_SEC + rest == secs * NANOS_PER_SEC + nanos) by (
        nonlinear_arith)
            requires
                carry == nanos / NANOS_PER_SEC,
                rest == nanos % NANOS_PER_SEC,
        {
        }
        Interval { secs: secs + carry, nanos: rest }
    }

    /// The whole seconds of the span.
    pub fn as_secs(&self) -> (s: u64)
        ensures
            s == self@ / (NANOS_PER_SEC as nat),
    {
        proof {
            use_type_invariant(self);
            lemma_split(self.secs, self.nanos);
        }
        self.secs
    }

    /// The nanoseconds of the span below its whole seconds.
    pub fn subsec_nanos(&self) -> (n: u32)
        ensures
            n == self@ % (NANOS_PER_SEC as nat),
            n < NANOS_PER_SEC,
    {
        proof {
            use_type_invariant(self);
            lemma_split(self.secs, self.nanos);
        }
        self.nanos
    }
}

} // verus!
