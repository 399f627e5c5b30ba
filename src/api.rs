//! The interfaces: a source of random words, a distribution, and values that
//! turn into distributions.
use vstd::prelude::*;

verus! {

/// A supplier of uniformly distributed random words.
pub trait BitSource {
    /// The words drawn so far, oldest first.
    spec fn drawn(&self) -> Seq<u64>;

    /// The next 32-bit word.
    fn next_u32(&mut self) -> (r: u32)
        ensures
            final(self).drawn() == old(self).drawn().push(r as u64),
    ;

    /// The next 64-bit word.
    fn next_u64(&mut self) -> (r: u64)
        ensures
            final(self).drawn() == old(self).drawn().push(r),
    ;
}

/// `after` is `before` with one more word drawn.
pub open spec fn one_more_draw(before: Seq<u64>, after: Seq<u64>) -> bool {
    &&& after.len() == before.len() + 1
    &&& after.drop_last() == before
}

/// A stateless strategy for producing random values of type `Output`.
///
/// Each call of `try_sample` is one attempt: it draws from the source and
/// either returns a value, or returns `None` when the draw fell in a zone that
/// the distribution rejects to stay unbiased. Calling again with fresh draws
/// until a value comes back gives one sample; the number of attempts is
/// geometrically distributed and deliberately left unbounded.
pub trait Distribution {
    /// The type of the values produced.
    type Output;

    /// Whether `v` is a value that the distribution can return.
    spec fn produces(&self, v: Self::Output) -> bool;

    /// Whether every attempt returns a value.
    spec fn never_rejects(&self) -> bool;

    /// What one attempt does: with the words drawn `before` it, the words
    /// drawn `after` it, and its result `r`.
    spec fn attempt(&self, before: Seq<u64>, after: Seq<u64>, r: Option<Self::Output>) -> bool;

    /// One sampling attempt, using `rng` as the source of randomness.
    fn try_sample<R: BitSource>(&self, rng: &mut R) -> (r: Option<Self::Output>)
        ensures
            r matches Some(v) ==> self.produces(v),
            self.never_rejects() ==> r is Some,
            self.attempt(old(rng).drawn(), final(rng).drawn(), r),
    ;
}

/// Data types that have a default distribution for generating random values.
///
/// For integers the default is the uniform distribution over all values.
pub trait DefaultDistribution: Sized {
    /// The distribution used.
    type Distribution: Distribution<Output = Self>;

    /// The default distribution of the type; it never rejects a draw.
    fn default_distribution() -> (d: <Self as DefaultDistribution>::Distribution)
        ensures
            d.never_rejects(),
    ;
}

/// Values that can be converted into a distribution over `T`.
///
/// The type parameter is the type produced by the distribution, not the
/// distribution itself, so that call sites need no annotation for it.
pub trait IntoDistribution<T>: Sized {
    /// The distribution converted into.
    type Distribution: Distribution<Output = T>;

    /// Whether the value describes a distribution (a range must not be empty).
    spec fn is_convertible(&self) -> bool;

    /// The distribution that the value describes.
    spec fn converted(self) -> <Self as IntoDistribution<T>>::Distribution;

    /// Converts the value into its distribution; a pure transformation.
    fn into_distribution(self) -> (d: <Self as IntoDistribution<T>>::Distribution)
        requires
            self.is_convertible(),
        ensures
            d == self.converted(),
    ;
}

/// A borrowed distribution samples as the distribution itself.
impl<'a, D: Distribution> Distribution for &'a D {
    type Output = D::Output;

    open spec fn produces(&self, v: D::Output) -> bool {
        (**self).produces(v)
    }

    open spec fn never_rejects(&self) -> bool {
        (**self).never_rejects()
    }

    open spec fn attempt(&self, before: Seq<u64>, after: Seq<u64>, r: Option<D::Output>) -> bool {
        (**self).attempt(before, after, r)
    }

    fn try_sample<R: BitSource>(&self, rng: &mut R) -> (r: Option<D::Output>) {
        (**self).try_sample(rng)
    }
}

/// A borrowed distribution converts into itself.
impl<'a, D: Distribution> IntoDistribution<D::Output> for &'a D {
    type Distribution = &'a D;

    open spec fn is_convertible(&self) -> bool {
        true
    }

    open spec fn converted(self) -> &'a D {
        self
    }

    fn into_distribution(self) -> (d: &'a D) {
        self
    }
}

/// One sampling attempt from the distribution that `value` describes:
/// `value.into_distribution().try_sample(rng)`.
pub fn try_sample_from<T, V: IntoDistribution<T>, R: BitSource>(value: V, rng: &mut R) -> (r:
    Option<T>)
    requires
        value.is_convertible(),
    ensures
        r matches Some(v) ==> value.converted().produces(v),
        value.converted().never_rejects() ==> r is Some,
        value.converted().attempt(old(rng).drawn(), final(rng).drawn(), r),
{
    let d = value.into_distribution();
    d.try_sample(rng)
}

} // verus!
