use vstd::prelude::*;

verus! {

/// The arithmetic capability a sample type must supply: the four arithmetic
/// operators, natural logarithm and exponential, and the additive and
/// multiplicative identities.
///
/// Implementations live in the embedding program, not here: the intended
/// sample types are floating point, which the verified library cannot hold.
/// Each executable operation is therefore pinned to an uninterpreted
/// per-implementation spec function and nothing more: the library assumes
/// only that every operation is a pure, deterministic function of its
/// operands, exactly what the normalization contracts need. No algebraic
/// law (associativity, inverses, and the like) is assumed, since none holds
/// exactly of floating-point arithmetic.
pub trait Numeric: Sized + Copy {
    /// The value of `self + other` in the sample arithmetic.
    spec fn spec_add(self, other: Self) -> Self;

    /// The value of `self - other` in the sample arithmetic.
    spec fn spec_sub(self, other: Self) -> Self;

    /// The value of `self * other` in the sample arithmetic.
    spec fn spec_mul(self, other: Self) -> Self;

    /// The value of `self / other` in the sample arithmetic.
    spec fn spec_div(self, other: Self) -> Self;

    /// The natural logarithm of `self` in the sample arithmetic.
    spec fn spec_ln(self) -> Self;

    /// The natural exponential of `self` in the sample arithmetic.
    spec fn spec_exp(self) -> Self;

    /// The additive identity of the sample arithmetic.
    spec fn spec_zero() -> Self;

    /// The multiplicative identity of the sample arithmetic.
    spec fn spec_one() -> Self;

    /// Addition. Trusted of every implementation: pure and deterministic.
    fn add(self, other: Self) -> (r: Self)
        ensures
            r == self.spec_add(other),
    ;

    /// Subtraction. Trusted of every implementation: pure and deterministic.
    fn sub(self, other: Self) -> (r: Self)
        ensures
            r == self.spec_sub(other),
    ;

    /// Multiplication. Trusted of every implementation: pure and
    /// deterministic.
    fn mul(self, other: Self) -> (r: Self)
        ensures
            r == self.spec_mul(other),
    ;

    /// Division. Trusted of every implementation: pure and deterministic.
    /// A zero divisor is not excluded: the result is then whatever the
    /// sample arithmetic produces for it (infinity or not-a-number under
    /// floating point).
    fn div(self, other: Self) -> (r: Self)
        ensures
            r == self.spec_div(other),
    ;

    /// Natural logarithm. Trusted of every implementation: pure and
    /// deterministic. A non-positive argument is not excluded: the result
    /// is then whatever the sample arithmetic produces for it.
    fn ln(self) -> (r: Self)
        ensures
            r == self.spec_ln(),
    ;

    /// Natural exponential. Trusted of every implementation: pure and
    /// deterministic.
    fn exp(self) -> (r: Self)
        ensures
            r == self.spec_exp(),
    ;

    /// The additive identity. Trusted of every implementation: pure and
    /// deterministic.
    fn zero() -> (r: Self)
        ensures
            r == Self::spec_zero(),
    ;

    /// The multiplicative identity. Trusted of every implementation: pure
    /// and deterministic.
    fn one() -> (r: Self)
        ensures
            r == Self::spec_one(),
    ;
}

} // verus!
