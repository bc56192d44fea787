use vstd::prelude::*;

verus! {

/// The arithmetic that one numeric width supplies to the statistics in this
/// crate.
///
/// Implementations are expected to behave like IEEE floating-point
/// arithmetic at a fixed width. Each implementing type describes its own
/// arithmetic through the uninterpreted spec counterparts below, and each
/// run-time method promises to return exactly what its counterpart names:
/// the crate's contracts thereby pin every computed value to the width's own
/// operations, in the exact order they are applied, without modelling the
/// width's rounding. Mixing widths inside one accumulation is ruled out by
/// the types alone, since no method converts between two implementing types.
pub trait Scalar: Sized + Copy {
    /// What `zero` returns.
    spec fn spec_zero() -> Self;

    /// What `from_count` returns.
    spec fn spec_from_count(n: usize) -> Self;

    /// What `plus` returns.
    spec fn spec_plus(self, rhs: Self) -> Self;

    /// What `minus` returns.
    spec fn spec_minus(self, rhs: Self) -> Self;

    /// What `times` returns.
    spec fn spec_times(self, rhs: Self) -> Self;

    /// What `divided_by` returns.
    spec fn spec_divided_by(self, rhs: Self) -> Self;

    /// The additive identity of this width.
    fn zero() -> (r: Self)
        ensures
            r == Self::spec_zero(),
    ;

    /// An observation count carried into this width, so that a sum can be
    /// divided by it without mixed-width arithmetic.
    fn from_count(n: usize) -> (r: Self)
        ensures
            r == Self::spec_from_count(n),
    ;

    fn plus(self, rhs: Self) -> (r: Self)
        ensures
            r == self.spec_plus(rhs),
    ;

    fn minus(self, rhs: Self) -> (r: Self)
        ensures
            r == self.spec_minus(rhs),
    ;

    fn times(self, rhs: Self) -> (r: Self)
        ensures
            r == self.spec_times(rhs),
    ;

    fn divided_by(self, rhs: Self) -> (r: Self)
        ensures
            r == self.spec_divided_by(rhs),
    ;
}

} // verus!
