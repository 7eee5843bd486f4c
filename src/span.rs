use vstd::prelude::*;

verus! {

/// Nanoseconds in one millisecond.
pub const NANOS_PER_MILLI: u128 = 1_000_000;

/// Whole milliseconds that cover `n` nanoseconds: the count rounded up.
pub open spec fn ceil_millis(n: int) -> int {
    (n + 999_999) / 1_000_000
}

/// A length of time, counted in nanoseconds.
#[derive(Clone, Copy, Debug, PartialEq, Eq, Structural)]
pub struct Span {
    pub nanos: u128,
}

impl Span {
    pub fn zero() -> (r: Span)
        ensures
            r.nanos == 0,
    {
        Span { nanos: 0 }
    }

    pub fn from_nanos(nanos: u128) -> (r: Span)
        ensures
            r.nanos == nanos,
    {
        Span { nanos }
    }

    pub fn from_millis(millis: u64) -> (r: Span)
        ensures
            r.nanos == millis * NANOS_PER_MILLI,
    {
        Span { nanos: millis as u128 * NANOS_PER_MILLI }
    }

    pub fn is_zero(&self) -> (r: bool)
        ensures
            r == (self.nanos == 0),
    {
        self.nanos == 0
    }

    /// The span in whole milliseconds, rounded up, so that a wait of that many
    /// milliseconds is never shorter than the span.
    pub fn millis_ceil(&self) -> (r: u128)
        ensures
            r == ceil_millis(self.nanos as int),
            r * NANOS_PER_MILLI >= self.nanos,
            r * NANOS_PER_MILLI < self.nanos + NANOS_PER_MILLI,
    {
        let whole = self.nanos / NANOS_PER_MILLI;
        let rest = self.nanos % NANOS_PER_MILLI;
        let r = if rest == 0 { whole } else { whole + 1 };
        proof {
            let n = self.nanos as int;
            assert(n == whole * 1_000_000 + rest) by (nonlinear_arith)
                requires
                    whole == n / 1_000_000,
                    rest == n % 1_000_000,
            ;
            assert(ceil_millis(n) == r) by (nonlinear_arith)
                requires
                    n == whole * 1_000_000 + rest,
                    0 <= rest < 1_000_000,
                    r == (if rest == 0 { whole as int } else { whole + 1 }),
            ;
        }
        r
    }

    /// What is left of `self` once `other` has passed, or `None` when `other`
    /// is the longer.
    pub fn checked_sub(&self, other: Span) -> (r: Option<Span>)
        ensures
            match r {
                Some(d) => self.nanos >= other.nanos && d.nanos == self.nanos - other.nanos,
                None => self.nanos < other.nanos,
            },
    {
        if self.nanos >= other.nanos {
            Some(Span { nanos: self.nanos - other.nanos })
        } else {
            None
        }
    }
}

} // verus!
