//! Time units and floor division on signed counts.

use vstd::prelude::*;
use vstd::arithmetic::div_mod::{lemma_fundamental_div_mod, lemma_fundamental_div_mod_converse};

verus! {

/// Granularity of a timestamp or of a time of day.
#[derive(Clone, Copy, Debug, PartialEq, Eq, Structural)]
pub enum TimeUnit {
    Second,
    Millisecond,
    Microsecond,
    Nanosecond,
}

impl TimeUnit {
    /// How many of this unit make one second.
    pub open spec fn units_per_second(self) -> int {
        match self {
            TimeUnit::Second => 1,
            TimeUnit::Millisecond => 1_000,
            TimeUnit::Microsecond => 1_000_000,
            TimeUnit::Nanosecond => 1_000_000_000,
        }
    }

    /// How many nanoseconds make one of this unit.
    pub open spec fn nanos_per_unit(self) -> int {
        match self {
            TimeUnit::Second => 1_000_000_000,
            TimeUnit::Millisecond => 1_000_000,
            TimeUnit::Microsecond => 1_000,
            TimeUnit::Nanosecond => 1,
        }
    }

    /// How many of this unit make one second.
    pub fn per_second(self) -> (n: i64)
        ensures
            n == self.units_per_second(),
            n * self.nanos_per_unit() == 1_000_000_000,
    {
        match self {
            TimeUnit::Second => 1,
            TimeUnit::Millisecond => 1_000,
            TimeUnit::Microsecond => 1_000_000,
            TimeUnit::Nanosecond => 1_000_000_000,
        }
    }

    /// How many nanoseconds make one of this unit.
    pub fn nanos(self) -> (n: i64)
        ensures
            n == self.nanos_per_unit(),
    {
        match self {
            TimeUnit::Second => 1_000_000_000,
            TimeUnit::Millisecond => 1_000_000,
            TimeUnit::Microsecond => 1_000,
            TimeUnit::Nanosecond => 1,
        }
    }
}

/// Floor division: the quotient rounded toward negative infinity, and the
/// remainder that goes with it, which is never negative.
pub fn floor_div_mod(value: i64, divisor: i64) -> (parts: (i64, i64))
    requires
        divisor > 0,
    ensures
        parts.0 == value as int / divisor as int,
        parts.1 == value as int % divisor as int,
        0 <= parts.1 < divisor,
        divisor * parts.0 + parts.1 == value,
{
    proof {
        lemma_fundamental_div_mod(value as int, divisor as int);
    }
    if value >= 0 {
        (value / divisor, value % divisor)
    } else {
        let mirrored: i64 = -(value + 1);
        let quotient: i64 = mirrored / divisor;
        let remainder: i64 = mirrored % divisor;
        proof {
            lemma_fundamental_div_mod(mirrored as int, divisor as int);
            assert(value as int == divisor as int * (-(quotient as int) - 1) + (divisor as int - 1
                - remainder as int)) by (nonlinear_arith)
                requires
                    mirrored as int == divisor as int * (quotient as int) + remainder as int,
                    mirrored as int == -(value as int + 1),
            ;
            lemma_fundamental_div_mod_converse(
                value as int,
                divisor as int,
                -(quotient as int) - 1,
                divisor as int - 1 - remainder as int,
            );
        }
        (-quotient - 1, divisor - 1 - remainder)
    }
}

} // verus!
