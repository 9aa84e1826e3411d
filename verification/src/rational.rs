use vstd::prelude::*;

verus! {

/// An immutable clock unit: one tick lasts `num / den` seconds.
///
/// The pair is meaningful only with a strictly positive denominator; the
/// model itself performs no validation, callers constructing a timebase go
/// through [`Rational64::new`], which demands it.
#[derive(Clone, Copy, Debug, PartialEq, Eq, Structural)]
pub struct Rational64 {
    /// Numerator of the clock unit.
    pub num: i64,
    /// Denominator of the clock unit; strictly positive for a well-formed pair.
    pub den: i64,
}

impl Rational64 {
    /// A well-formed timebase has a strictly positive denominator.
    pub open spec fn wf(self) -> bool {
        self.den > 0
    }

    /// Builds the clock unit `num / den`.
    pub fn new(num: i64, den: i64) -> (r: Self)
        requires
            den > 0,
        ensures
            r.num == num,
            r.den == den,
            r.wf(),
    {
        Rational64 { num, den }
    }
}

} // verus!
