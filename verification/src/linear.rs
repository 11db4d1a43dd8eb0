use crate::normalizer::Normalizer;
use crate::normalizer::NormalizerProvider;
use crate::numeric::Numeric;
use vstd::prelude::*;

verus! {

/// Affine rescaling between `[min, max]` and `[0, 1]`.
///
/// A value object, immutable in use: built once from its range and never
/// recomputed. A degenerate range (`min == max`) is deliberately not
/// rejected; both operations then divide by `min.spec_sub(min)` and yield
/// whatever the sample arithmetic produces for that (not-a-number under
/// floating point).
pub struct LinearNormalizer<S: Numeric> {
    /// The lower end of the range.
    pub min: S,
    /// The upper end of the range.
    pub max: S,
}

impl<S: Numeric> Normalizer<S> for LinearNormalizer<S> {
    /// `(value - min) / (max - min)` in the sample arithmetic.
    open spec fn spec_to_normal(self, value: S) -> S {
        value.spec_sub(self.min).spec_div(self.max.spec_sub(self.min))
    }

    /// `value * (max - min) + min` in the sample arithmetic.
    open spec fn spec_from_normal(self, value: S) -> S {
        value.spec_mul(self.max.spec_sub(self.min)).spec_add(self.min)
    }

    fn to_normal(&self, value: S) -> (r: S)
        ensures
            r == value.spec_sub(self.min).spec_div(self.max.spec_sub(self.min)),
    {
        value.sub(self.min).div(self.max.sub(self.min))
    }

    fn from_normal(&self, value: S) -> (r: S)
        ensures
            r == value.spec_mul(self.max.spec_sub(self.min)).spec_add(self.min),
    {
        value.mul(self.max.sub(self.min)).add(self.min)
    }
}

impl<S: Numeric> NormalizerProvider<S> for LinearNormalizer<S> {
    /// Plain field assignment: no derived state, no validation.
    open spec fn spec_new(min: S, max: S) -> Self {
        LinearNormalizer { min, max }
    }

    fn new(min: S, max: S) -> (r: Self)
        ensures
            r == (LinearNormalizer { min, max }),
    {
        LinearNormalizer { min, max }
    }

    fn boxed(min: S, max: S) -> (r: Box<Self>)
        ensures
            *r == (LinearNormalizer { min, max }),
    {
        Box::new(Self::new(min, max))
    }
}

} // verus!
