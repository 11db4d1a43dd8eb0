use crate::normalizer::Normalizer;
use crate::normalizer::NormalizerProvider;
use crate::numeric::Numeric;
use vstd::prelude::*;

verus! {

/// Logarithmic rescaling between `[min, max]` and `[0, 1]`, meant for
/// strictly positive ranges with multiplicative (perceptual) scaling, such
/// as frequencies or amplitude ratios.
///
/// Beside the range it holds two coefficients derived once at
/// construction: `a = min` and `b = ln(min / max) / (zero - one)`, that is,
/// the negation of `ln(min / max)`. A non-positive or degenerate range is
/// deliberately not rejected; the logarithm then poisons `b` with whatever
/// the sample arithmetic produces for its out-of-domain argument, and every
/// later operation carries that through.
pub struct LogNormalizer<S: Numeric> {
    /// The lower end of the range.
    pub min: S,
    /// The upper end of the range.
    pub max: S,
    /// Derived coefficient, equal to `min`.
    pub a: S,
    /// Derived coefficient, the negation of `ln(min / max)`.
    pub b: S,
}

impl<S: Numeric> Normalizer<S> for LogNormalizer<S> {
    /// `ln(value / a) / b` in the sample arithmetic.
    open spec fn spec_to_normal(self, value: S) -> S {
        value.spec_div(self.a).spec_ln().spec_div(self.b)
    }

    /// `exp(b * value) * a` in the sample arithmetic.
    open spec fn spec_from_normal(self, value: S) -> S {
        self.b.spec_mul(value).spec_exp().spec_mul(self.a)
    }

    fn to_normal(&self, value: S) -> (r: S)
        ensures
            r == value.spec_div(self.a).spec_ln().spec_div(self.b),
    {
        value.div(self.a).ln().div(self.b)
    }

    fn from_normal(&self, value: S) -> (r: S)
        ensures
            r == self.b.spec_mul(value).spec_exp().spec_mul(self.a),
    {
        self.b.mul(value).exp().mul(self.a)
    }
}

impl<S: Numeric> NormalizerProvider<S> for LogNormalizer<S> {
    /// The coefficients are fixed by the range: `a = min` and
    /// `b = ln(min / max) / (zero - one)`.
    open spec fn spec_new(min: S, max: S) -> Self {
        LogNormalizer {
            min,
            max,
            a: min,
            b: min.spec_div(max).spec_ln().spec_div(S::spec_zero().spec_sub(S::spec_one())),
        }
    }

    fn new(min: S, max: S) -> (r: Self)
        ensures
            r == Self::spec_new(min, max),
            r.a == min,
            r.b == min.spec_div(max).spec_ln().spec_div(S::spec_zero().spec_sub(S::spec_one())),
    {
        let b: S = min.div(max).ln().div(S::zero().sub(S::one()));
        let a: S = min;
        LogNormalizer { min, max, a, b }
    }

    fn boxed(min: S, max: S) -> (r: Box<Self>)
        ensures
            *r == Self::spec_new(min, max),
    {
        Box::new(Self::new(min, max))
    }
}

} // verus!
