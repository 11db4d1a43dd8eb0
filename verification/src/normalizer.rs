use crate::numeric::Numeric;
use vstd::prelude::*;

verus! {

/// The two-operation contract every normalization strategy exposes: mapping
/// a sample value into the canonical `[0, 1]` range and back.
///
/// Neither operation validates its input. A value outside `[min, max]`
/// produces a mathematically consistent out-of-range result, and a value
/// outside the strategy's mathematical domain produces whatever the sample
/// arithmetic produces for it; nothing is clamped or rejected.
pub trait Normalizer<S: Numeric>: Sized {
    /// The value `to_normal` computes, as a function of the strategy's
    /// state and the input alone.
    spec fn spec_to_normal(self, value: S) -> S;

    /// The value `from_normal` computes, as a function of the strategy's
    /// state and the input alone.
    spec fn spec_from_normal(self, value: S) -> S;

    /// Maps a value presumed to lie in `[min, max]` into `[0, 1]`.
    fn to_normal(&self, value: S) -> (r: S)
        ensures
            r == self.spec_to_normal(value),
    ;

    /// The inverse mapping: takes a value presumed to lie in `[0, 1]` back
    /// into `[min, max]`.
    fn from_normal(&self, value: S) -> (r: S)
        ensures
            r == self.spec_from_normal(value),
    ;
}

/// The factory contract for constructing a strategy, either as a plain
/// value or behind a uniquely owned heap handle.
pub trait NormalizerProvider<S: Numeric>: Normalizer<S> {
    /// The instance the factory builds from `(min, max)`.
    spec fn spec_new(min: S, max: S) -> Self;

    /// Builds a concrete, value-allocated instance. No validation is
    /// performed: a degenerate or out-of-domain range is accepted and
    /// surfaces later through the sample arithmetic itself.
    fn new(min: S, max: S) -> (r: Self)
        ensures
            r == Self::spec_new(min, max),
    ;

    /// Builds the same strategy behind a uniquely owned heap handle. The
    /// handle holds exactly the instance `new` builds from the same
    /// `(min, max)`, so its operations agree with the concrete construction
    /// on every input.
    fn boxed(min: S, max: S) -> (r: Box<Self>)
        ensures
            *r == Self::spec_new(min, max),
    ;
}

/// Law: a normalizer built by the boxed factory behaves identically to the
/// concrete, non-boxed construction for the same `(min, max)`. The
/// hypotheses are the postconditions of `boxed` (of the instance behind the
/// handle) and of `new`; the conclusion is that the two instances map every
/// input to the same result, in both directions.
pub proof fn lemma_boxed_agrees_with_concrete<S: Numeric, P: NormalizerProvider<S>>(
    behind_handle: P,
    concrete: P,
    min: S,
    max: S,
    value: S,
)
    requires
        behind_handle == P::spec_new(min, max),
        concrete == P::spec_new(min, max),
    ensures
        behind_handle.spec_to_normal(value) == concrete.spec_to_normal(value),
        behind_handle.spec_from_normal(value) == concrete.spec_from_normal(value),
{
}

} // verus!
