//! Sampling straight from a source of random words.
use vstd::prelude::*;
use crate::api::{BitSource, Distribution, IntoDistribution, try_sample_from};

verus! {

/// Convenience methods on every source of random words.
pub trait RngExt: BitSource + Sized {
    /// One sampling attempt from the distribution that `d` describes.
    fn generate<T, D: IntoDistribution<T>>(&mut self, d: D) -> (r: Option<T>)
        requires
            d.is_convertible(),
        ensures
            r matches Some(v) ==> d.converted().produces(v),
            d.converted().never_rejects() ==> r is Some,
            d.converted().attempt(old(self).drawn(), final(self).drawn(), r),
    ;

    /// A stream of sampling attempts from the distribution that `d`
    /// describes, drawing from this source.
    fn generate_iter<'a, T, D: IntoDistribution<T>>(&'a mut self, d: D) -> (r: GenIter<
        'a,
        Self,
        <D as IntoDistribution<T>>::Distribution,
    >)
        requires
            d.is_convertible(),
        ensures
            r.distribution() == d.converted(),
            r.source() == *old(self),
    ;
}

impl<R: BitSource> RngExt for R {
    fn generate<T, D: IntoDistribution<T>>(&mut self, d: D) -> (r: Option<T>) {
        try_sample_from(d, self)
    }

    fn generate_iter<'a, T, D: IntoDistribution<T>>(&'a mut self, d: D) -> (r: GenIter<
        'a,
        R,
        <D as IntoDistribution<T>>::Distribution,
    >) {
        GenIter { rng: self, distribution: d.into_distribution() }
    }
}

/// Sampling attempts from a distribution, each drawing from a borrowed source.
pub struct GenIter<'a, R, D> {
    rng: &'a mut R,
    distribution: D,
}

impl<'a, R: BitSource, D: Distribution> GenIter<'a, R, D> {
    /// The distribution sampled.
    pub closed spec fn distribution(self) -> D {
        self.distribution
    }

    /// The source drawn from.
    pub closed spec fn source(self) -> R {
        *self.rng
    }

    /// The next sampling attempt.
    pub fn next_attempt(&mut self) -> (r: Option<D::Output>)
        ensures
            final(self).distribution() == old(self).distribution(),
            r matches Some(v) ==> old(self).distribution().produces(v),
            old(self).distribution().never_rejects() ==> r is Some,
            old(self).distribution().attempt(
                old(self).source().drawn(),
                final(self).source().drawn(),
                r,
            ),
    {
        self.distribution.try_sample(self.rng)
    }
}

} // verus!
