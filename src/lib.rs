//! Random values drawn from declared distributions, with an unbiased
//! uniform sampler over half-open integer ranges at its core.
//!
//! A distribution samples by attempts: each attempt draws from a source of
//! random words and either returns a value or rejects the draw, so that the
//! values that do come back are exactly uniform. A caller that wants one
//! value repeats the attempt until one comes back.
use vstd::prelude::*;

pub mod api;
pub mod bit_source;
pub mod impls;
pub mod primitive;
pub mod random;
pub mod rng_ext;
pub mod uniform;
pub mod uniform_range;

pub use bit_source::XorShiftSource;
pub use api::{BitSource, DefaultDistribution, Distribution, IntoDistribution, try_sample_from};
pub use impls::{Alphanum, Constant, RandomElement, WeightedBool};
pub use primitive::PrimitiveInteger;
pub use random::{Random, RandomSimple, RandomSimpleDistribution};
pub use rng_ext::{GenIter, RngExt};
pub use uniform::Uniform;
pub use uniform_range::UniformPrimitiveIntegerRange;
