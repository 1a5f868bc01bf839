use vstd::prelude::*;

verus! {

/// The number type that a controller computes in.
///
/// Each operation is tied to a spec function of the same type, which names its
/// result: the contracts of the controllers are written over these names, so
/// they state which operations are applied to which values, in which order. An
/// implementation only has to compute each operation as a function of its
/// arguments (as IEEE-754 arithmetic does); nothing else is assumed of it.
pub trait Scalar: Copy + Sized {
    /// The additive zero.
    spec fn zero_spec() -> Self;

    /// The value of a small natural number.
    spec fn from_u8_spec(n: u8) -> Self;

    /// The smallest value (negative infinity for floating point).
    spec fn lowest_spec() -> Self;

    /// The largest value (positive infinity for floating point).
    spec fn highest_spec() -> Self;

    spec fn add_spec(a: Self, b: Self) -> Self;

    spec fn sub_spec(a: Self, b: Self) -> Self;

    spec fn mul_spec(a: Self, b: Self) -> Self;

    spec fn div_spec(a: Self, b: Self) -> Self;

    /// Whether `a` is strictly less than `b`.
    spec fn lt_spec(a: Self, b: Self) -> bool;

    fn zero() -> (r: Self)
        ensures
            r == Self::zero_spec(),
    ;

    fn from_u8(n: u8) -> (r: Self)
        ensures
            r == Self::from_u8_spec(n),
    ;

    fn lowest() -> (r: Self)
        ensures
            r == Self::lowest_spec(),
    ;

    fn highest() -> (r: Self)
        ensures
            r == Self::highest_spec(),
    ;

    fn add(self, rhs: Self) -> (r: Self)
        ensures
            r == Self::add_spec(self, rhs),
    ;

    fn sub(self, rhs: Self) -> (r: Self)
        ensures
            r == Self::sub_spec(self, rhs),
    ;

    fn mul(self, rhs: Self) -> (r: Self)
        ensures
            r == Self::mul_spec(self, rhs),
    ;

    fn div(self, rhs: Self) -> (r: Self)
        ensures
            r == Self::div_spec(self, rhs),
    ;

    fn lt(self, rhs: Self) -> (r: bool)
        ensures
            r == Self::lt_spec(self, rhs),
    ;
}

/// `x` limited to `[lo, hi]`: raised to `lo` when below it, then lowered to
/// `hi` when above it. With `lo <= hi` this is the usual clamp; with inverted
/// bounds every value ends at `hi`; a value that compares with neither bound
/// (NaN) passes through unchanged.
pub open spec fn clamp_spec<T: Scalar>(x: T, lo: T, hi: T) -> T {
    let raised = if T::lt_spec(x, lo) {
        lo
    } else {
        x
    };
    if T::lt_spec(hi, raised) {
        hi
    } else {
        raised
    }
}

/// Limits `x` to `[lo, hi]` (see [`clamp_spec`]).
pub fn clamp<T: Scalar>(x: T, lo: T, hi: T) -> (r: T)
    ensures
        r == clamp_spec(x, lo, hi),
{
    let raised = if x.lt(lo) {
        lo
    } else {
        x
    };
    if hi.lt(raised) {
        hi
    } else {
        raised
    }
}

} // verus!
