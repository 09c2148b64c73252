//! `Span`: a length of time with nanosecond precision, shaped like
//! `std::time::Duration` (whole seconds plus a sub-second remainder).

use vstd::prelude::*;
use vstd::arithmetic::div_mod::lemma_fundamental_div_mod_converse;

verus! {

/// Nanoseconds in one second.
pub const NANOS_PER_SEC: u32 = 1_000_000_000;

/// A non-negative length of time.
///
/// Its view is the total number of nanoseconds.
#[derive(Clone, Copy, Debug, PartialEq, Eq, Structural)]
pub struct Span {
    secs: u64,
    nanos: u32,
}

impl View for Span {
    type V = nat;

    closed spec fn view(&self) -> nat {
        (self.secs * NANOS_PER_SEC + self.nanos) as nat
    }
}

/// Whole seconds in `nanos` nanoseconds.
pub open spec fn whole_secs(nanos: nat) -> nat {
    nanos / (NANOS_PER_SEC as nat)
}

/// The smaller of two lengths.
pub open spec fn min_nat(a: nat, b: nat) -> nat {
    if a <= b { a } else { b }
}

/// `a - b`, or zero where `b` is the larger.
pub open spec fn saturating_diff(a: nat, b: nat) -> nat {
    if a >= b { (a - b) as nat } else { 0 }
}

/// The largest length a `Span` can hold.
pub open spec fn max_nanos() -> nat {
    (u64::MAX * NANOS_PER_SEC + (NANOS_PER_SEC - 1)) as nat
}

impl Span {
    #[verifier::type_invariant]
    spec fn well_formed(self) -> bool {
        self.nanos < NANOS_PER_SEC
    }

    proof fn lemma_split(self)
        requires
            self.well_formed(),
        ensures
            whole_secs(self@) == self.secs,
            self@ % (NANOS_PER_SEC as nat) == self.nanos,
            self@ <= max_nanos(),
    {
        lemma_fundamental_div_mod_converse(
            self@ as int,
            NANOS_PER_SEC as int,
            self.secs as int,
            self.nanos as int,
        );
    }

    /// The empty span.
    pub fn zero() -> (r: Span)
        ensures
            r@ == 0,
    {
        Span { secs: 0, nanos: 0 }
    }

    /// A span of `secs` whole seconds.
    pub fn from_secs(secs: u64) -> (r: Span)
        ensures
            r@ == secs * NANOS_PER_SEC,
    {
        Span { secs, nanos: 0 }
    }

    /// A span of `millis` milliseconds.
    pub fn from_millis(millis: u64) -> (r: Span)
        ensures
            r@ == millis * 1_000_000,
    {
        let secs = millis / 1000;
        let rest = millis % 1000;
        assert(millis * 1_000_000 == secs * NANOS_PER_SEC + rest * 1_000_000) by (nonlinear_arith)
            requires
                secs == millis / 1000,
                rest == millis % 1000,
        ;
        Span { secs, nanos: (rest * 1_000_000) as u32 }
    }

    /// A span of `secs` seconds plus `nanos` nanoseconds, as
    /// `Duration::new` builds it: nanoseconds beyond a second carry into the
    /// seconds, which must then still fit in a `u64`.
    pub fn new(secs: u64, nanos: u32) -> (r: Span)
        requires
            secs + nanos / NANOS_PER_SEC <= u64::MAX,
        ensures
            r@ == secs * NANOS_PER_SEC + nanos,
    {
        let carry = nanos / NANOS_PER_SEC;
        let rest = nanos % NANOS_PER_SEC;
        assert(nanos == carry * NANOS_PER_SEC + rest) by (nonlinear_arith)
            requires
                carry == nanos / NANOS_PER_SEC,
                rest == nanos % NANOS_PER_SEC,
        ;
        Span { secs: secs + carry as u64, nanos: rest }
    }

    /// Whole seconds, as `as_secs` returns them.
    pub open spec fn as_secs_spec(self) -> nat {
        whole_secs(self@)
    }

    /// The sub-second remainder in nanoseconds.
    pub open spec fn subsec_nanos_spec(self) -> nat {
        self@ % (NANOS_PER_SEC as nat)
    }

    /// The whole seconds in this span (fractions are dropped).
    pub fn as_secs(&self) -> (r: u64)
        ensures
            r == self.as_secs_spec(),
    {
        proof {
            use_type_invariant(self);
            self.lemma_split();
        }
        self.secs
    }

    /// The nanoseconds past the last whole second.
    pub fn subsec_nanos(&self) -> (r: u32)
        ensures
            r == self.subsec_nanos_spec(),
            r < NANOS_PER_SEC,
    {
        proof {
            use_type_invariant(self);
            self.lemma_split();
        }
        self.nanos
    }

    /// Whether the span is empty.
    pub fn is_zero(&self) -> (r: bool)
        ensures
            r == (self@ == 0),
    {
        self.secs == 0 && self.nanos == 0
    }

    /// Whether this span is strictly shorter than `other`.
    pub fn shorter_than(&self, other: &Span) -> (r: bool)
        ensures
            r == (self@ < other@),
    {
        proof {
            use_type_invariant(self);
            use_type_invariant(other);
        }
        self.secs < other.secs || (self.secs == other.secs && self.nanos < other.nanos)
    }

    /// The shorter of the two spans (`self` where they are equal).
    pub fn min(self, other: Span) -> (r: Span)
        ensures
            r@ == min_nat(self@, other@),
            r == self || r == other,
    {
        if other.shorter_than(&self) {
            other
        } else {
            self
        }
    }

    /// `self - other`, or the empty span where `other` is longer.
    pub fn saturating_sub(self, other: Span) -> (r: Span)
        ensures
            r@ == saturating_diff(self@, other@),
    {
        proof {
            use_type_invariant(&self);
            use_type_invariant(&other);
        }
        if self.shorter_than(&other) {
            Span::zero()
        } else if self.nanos >= other.nanos {
            Span { secs: self.secs - other.secs, nanos: self.nanos - other.nanos }
        } else {
            Span {
                secs: self.secs - other.secs - 1,
                nanos: self.nanos + (NANOS_PER_SEC - other.nanos),
            }
        }
    }
}

} // verus!
