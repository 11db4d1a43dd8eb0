//! Normalization strategies: mapping a sample value between an arbitrary
//! `[min, max]` range and the canonical `[0, 1]` range, and back.
//!
//! Two strategies are provided, one affine ([`LinearNormalizer`]) and one
//! logarithmic ([`LogNormalizer`]), both behind a shared two-operation
//! contract ([`Normalizer`]) and a factory contract ([`NormalizerProvider`]).
//! The sample type is abstract: anything supplying the [`Numeric`] capability
//! set (arithmetic, natural logarithm and exponential, the two identities).

mod linear;
mod log;
mod normalizer;
mod numeric;

pub use linear::LinearNormalizer;
pub use log::LogNormalizer;
pub use normalizer::lemma_boxed_agrees_with_concrete;
pub use normalizer::Normalizer;
pub use normalizer::NormalizerProvider;
pub use numeric::Numeric;
