//! Spans of time.

use vstd::prelude::*;

verus! {

/// The number of nanoseconds in a second.
pub const NANOS_PER_SEC: u32 = 1_000_000_000;

/// A span of time in whole seconds and nanoseconds, as `std::time::Duration`
/// holds it. The nanoseconds stay below one second.
#[derive(Clone, Copy, Debug, PartialEq, Eq, Hash)]
pub struct Duration {
    secs: u64,
    nanos: u32,
}

impl View for Duration {
    type V = nat;

    /// The span in nanoseconds.
    closed spec fn view(&self) -> nat {
        (self.secs * NANOS_PER_SEC + self.nanos) as nat
    }
}

impl Duration {
    #[verifier::type_invariant]
    spec fn well_formed(self) -> bool {
        self.nanos < NANOS_PER_SEC
    }

    /// No time at all.
    pub fn zero() -> (d: Duration)
        ensures
            d@ == 0,
    {
        Duration { secs: 0, nanos: 0 }
    }

    /// The span of `secs` whole seconds.
    pub fn from_secs(secs: u64) -> (d: Duration)
        ensures
            d@ == secs * NANOS_PER_SEC,
    {
        Duration { secs, nanos: 0 }
    }

    /// The span of `secs` seconds and `nanos` nanoseconds. Nanoseconds beyond a
    /// second are carried into the seconds; `None` where these then pass
    /// `u64::MAX`.
    pub fn new(secs: u64, nanos: u32) -> (d: Option<Duration>)
        ensures
            match d {
                Some(span) => span@ == secs * NANOS_PER_SEC + nanos,
                None => secs + nanos / NANOS_PER_SEC > u64::MAX,
            },
    {
        let carried: u64 = (nanos / NANOS_PER_SEC) as u64;
        let rest: u32 = nanos % NANOS_PER_SEC;
        match secs.checked_add(carried) {
            Some(whole) => {
                proof {
                    assert(carried * NANOS_PER_SEC + rest == nanos) by {
                        vstd::arithmetic::div_mod::lemma_fundamental_div_mod(
                            nanos as int,
                            NANOS_PER_SEC as int,
                        );
                    }
                }
                Some(Duration { secs: whole, nanos: rest })
            },
            None => None,
        }
    }

    /// The whole seconds of the span.
    pub fn as_secs(&self) -> (secs: u64)
        ensures
            secs == self@ / (NANOS_PER_SEC as nat),
    {
        proof {
            use_type_invariant(self);
            lemma_parts(self.secs as nat, self.nanos as nat);
        }
        self.secs
    }

    /// What of the span is beyond its whole seconds, in nanoseconds.
    pub fn subsec_nanos(&self) -> (nanos: u32)
        ensures
            nanos == self@ % (NANOS_PER_SEC as nat),
    {
        proof {
            use_type_invariant(self);
            lemma_parts(self.secs as nat, self.nanos as nat);
        }
        self.nanos
    }

    /// Whether the span is no time at all.
    pub fn is_zero(&self) -> (r: bool)
        ensures
            r == (self@ == 0),
    {
        self.secs == 0 && self.nanos == 0
    }

    /// Whether the span is at least as long as `other`.
    pub fn at_least(&self, other: &Duration) -> (r: bool)
        ensures
            r == (self@ >= other@),
    {
        proof {
            use_type_invariant(self);
            use_type_invariant(other);
            lemma_order(self.secs as nat, self.nanos as nat, other.secs as nat, other.nanos as nat);
            lemma_order(other.secs as nat, other.nanos as nat, self.secs as nat, self.nanos as nat);
        }
        self.secs > other.secs || (self.secs == other.secs && self.nanos >= other.nanos)
    }
}

proof fn lemma_parts(secs: nat, nanos: nat)
    requires
        nanos < NANOS_PER_SEC,
    ensures
        ((secs * NANOS_PER_SEC + nanos) as nat) / (NANOS_PER_SEC as nat) == secs,
        ((secs * NANOS_PER_SEC + nanos) as nat) % (NANOS_PER_SEC as nat) == nanos,
{
    vstd::arithmetic::div_mod::lemma_fundamental_div_mod_converse(
        (secs * NANOS_PER_SEC + nanos) as int,
        NANOS_PER_SEC as int,
        secs as int,
        nanos as int,
    );
}

proof fn lemma_order(s1: nat, n1: nat, s2: nat, n2: nat)
    requires
        n1 < NANOS_PER_SEC,
        n2 < NANOS_PER_SEC,
    ensures
        s1 > s2 ==> s1 * NANOS_PER_SEC + n1 > s2 * NANOS_PER_SEC + n2,
        s1 == s2 ==> (n1 >= n2 <==> s1 * NANOS_PER_SEC + n1 >= s2 * NANOS_PER_SEC + n2),
{
    if s1 > s2 {
        assert(s1 * NANOS_PER_SEC >= (s2 + 1) * NANOS_PER_SEC) by (nonlinear_arith)
            requires
                s1 >= s2 + 1,
        ;
    }
}

} // verus!
