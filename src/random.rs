//! Types that can be created randomly.
use vstd::prelude::*;
use core::marker::PhantomData;
use crate::api::{BitSource, DefaultDistribution, Distribution};

verus! {

/// Data types that can be created randomly.
pub trait Random: Sized {
    /// A random value, drawn from `rng`.
    fn random<R: BitSource>(rng: &mut R) -> Self;
}

impl<T: DefaultDistribution> Random for T {
    /// One sample of the type's default distribution, which never rejects a
    /// draw, so one attempt always gives a value.
    fn random<R: BitSource>(rng: &mut R) -> T {
        let d = T::default_distribution();
        d.try_sample(rng).unwrap()
    }
}

/// Data types that build a random value of themselves from a source of
/// random words, for their users to implement.
pub trait RandomSimple: Sized {
    /// A random value, drawn from `rng`.
    fn random<R: BitSource>(rng: &mut R) -> Self;
}

/// The distribution of a type's own `RandomSimple::random`.
pub struct RandomSimpleDistribution<T>(PhantomData<T>);

impl<T: RandomSimple> RandomSimpleDistribution<T> {
    /// The distribution that calls `T::random`.
    pub fn new() -> (r: RandomSimpleDistribution<T>) {
        RandomSimpleDistribution(PhantomData)
    }
}

impl<T: RandomSimple> Distribution for RandomSimpleDistribution<T> {
    type Output = T;

    open spec fn produces(&self, v: T) -> bool {
        true
    }

    open spec fn never_rejects(&self) -> bool {
        true
    }

    /// `T::random` draws as its author chose; nothing is known of it.
    open spec fn attempt(&self, before: Seq<u64>, after: Seq<u64>, r: Option<T>) -> bool {
        r is Some
    }

    fn try_sample<R: BitSource>(&self, rng: &mut R) -> (r: Option<T>) {
        Some(T::random(rng))
    }
}

} // verus!
