//! The full-width sampler: a value uniform over every bit pattern of its type,
//! built from 32-bit and 64-bit words.
use vstd::arithmetic::div_mod::{lemma_mod_bound, lemma_mod_mod, lemma_small_mod};
use vstd::prelude::*;
use core::marker::PhantomData;
use core::ops::RangeFull;
use crate::api::{BitSource, DefaultDistribution, Distribution, IntoDistribution, one_more_draw};
use crate::primitive::{
    PrimitiveInteger, lemma_pattern_bound, lemma_pattern_determines_value, lemma_residue_count,
    pattern_of,
};

verus! {

/// The uniform distribution over all values of `T`.
pub struct Uniform<T>(PhantomData<T>);

impl<T> Clone for Uniform<T> {
    fn clone(&self) -> (r: Uniform<T>)
        ensures
            r == *self,
    {
        Uniform(PhantomData)
    }
}

impl<T> Copy for Uniform<T> {
}

impl<T> Uniform<T> {
    /// The one value of the type: it holds no data.
    pub closed spec fn spec_new() -> Uniform<T> {
        Uniform(PhantomData)
    }

    /// The uniform distribution over all values of `T`.
    pub fn new() -> (r: Uniform<T>)
        ensures
            r == Self::spec_new(),
    {
        Uniform(PhantomData)
    }
}

/// The low bits of `w`, as a value of the unsigned type whose largest value
/// is `max`.
fn low_bits(w: u64, max: u64) -> (r: u64)
    ensures
        r as int == w as int % (max as int + 1),
{
    if max == u64::MAX {
        proof {
            lemma_small_mod(w as nat, max as nat + 1);
        }
        w
    } else {
        w % (max + 1)
    }
}

impl<T: PrimitiveInteger> Uniform<T> {
    /// The value of `T` whose bit pattern is the low bits of the 32-bit word `w`.
    pub fn from_u32(&self, w: u32) -> (r: T)
        ensures
            pattern_of(r.int_of(), T::modulus()) == w as int % T::modulus() as int,
    {
        let max = T::unsigned_max();
        T::from_unsigned(low_bits(w as u64, max))
    }

    /// The value of `T` whose bit pattern is the low bits of the 64-bit word `w`.
    pub fn from_u64(&self, w: u64) -> (r: T)
        ensures
            pattern_of(r.int_of(), T::modulus()) == w as int % T::modulus() as int,
    {
        let max = T::unsigned_max();
        T::from_unsigned(low_bits(w, max))
    }

    /// Draws a value uniformly over all values of `T`: one 32-bit word for
    /// types up to 32 bits wide, one 64-bit word for wider ones.
    pub fn sample<R: BitSource>(&self, rng: &mut R) -> (r: T)
        ensures
            one_more_draw(old(rng).drawn(), final(rng).drawn()),
            pattern_of(r.int_of(), T::modulus()) == final(rng).drawn().last() as int
                % T::modulus() as int,
            T::modulus() <= 0x1_0000_0000 ==> final(rng).drawn().last() < 0x1_0000_0000,
    {
        let ghost before = rng.drawn();
        let r = if T::is_wide() {
            let w = rng.next_u64();
            self.from_u64(w)
        } else {
            let w = rng.next_u32();
            self.from_u32(w)
        };
        assert(rng.drawn().drop_last() =~= before);
        r
    }
}

impl<T: PrimitiveInteger> Distribution for Uniform<T> {
    type Output = T;

    open spec fn produces(&self, v: T) -> bool {
        true
    }

    open spec fn never_rejects(&self) -> bool {
        true
    }

    /// One word is drawn, and the value is the one whose bit pattern is its
    /// low bits.
    open spec fn attempt(&self, before: Seq<u64>, after: Seq<u64>, r: Option<T>) -> bool {
        &&& one_more_draw(before, after)
        &&& r matches Some(x) && pattern_of(x.int_of(), T::modulus()) == after.last() as int
            % T::modulus() as int
    }

    fn try_sample<R: BitSource>(&self, rng: &mut R) -> (r: Option<T>) {
        Some(self.sample(rng))
    }
}

/// Every value of `T` comes out of the full-width sampler: a word whose low
/// bits hold its bit pattern gives it, and every word that gives it has
/// those low bits.
pub proof fn lemma_every_value_reachable<T: PrimitiveInteger>(x: T)
    ensures
        ({
            let w = pattern_of(x.int_of(), T::modulus());
            &&& 0 <= w < T::modulus()
            &&& w % (T::modulus() as int) == w
            &&& forall|y: T|
                #[trigger] pattern_of(y.int_of(), T::modulus()) == w ==> y.int_of() == x.int_of()
        }),
{
    let w = pattern_of(x.int_of(), T::modulus());
    lemma_pattern_bound(x);
    lemma_small_mod(w as nat, T::modulus());
    assert forall|y: T| #[trigger] pattern_of(y.int_of(), T::modulus()) == w implies y.int_of()
        == x.int_of() by {
        lemma_pattern_determines_value(x, y);
    }
}

/// The boolean that a 32-bit word gives: the lowest bit of its low byte.
pub open spec fn bool_of_word(w: int) -> bool {
    w % 256 % 2 == 1
}

/// The word that differs from `w` in its lowest bit.
pub open spec fn lowest_bit_partner(w: int) -> int {
    if w % 2 == 0 {
        w + 1
    } else {
        w - 1
    }
}

/// Exactly half of all 32-bit words give `true`: pairing each word with the
/// word that differs from it in the lowest bit is a bijection of the words
/// that swaps the two results.
pub proof fn lemma_bool_balanced(w: int)
    requires
        0 <= w < 0x1_0000_0000,
    ensures
        0 <= lowest_bit_partner(w) < 0x1_0000_0000,
        lowest_bit_partner(lowest_bit_partner(w)) == w,
        bool_of_word(lowest_bit_partner(w)) != bool_of_word(w),
{
}

/// The number of words the full-width sampler of `T` draws from: `2^32` for
/// types up to 32 bits wide, `2^64` for wider ones.
pub open spec fn word_space<T: PrimitiveInteger>() -> int {
    if T::modulus() > 0x1_0000_0000 {
        0x1_0000_0000_0000_0000
    } else {
        0x1_0000_0000
    }
}

/// The words that give the value `x` of `T`: those whose low bits hold its
/// bit pattern.
pub open spec fn words_giving<T: PrimitiveInteger>(x: T) -> Set<int> {
    Set::new(
        |w: int|
            0 <= w < word_space::<T>() && w % (T::modulus() as int) == pattern_of(
                x.int_of(),
                T::modulus(),
            ),
    )
}

/// Uniformity of the full-width sampler: every value of `T` is given by
/// exactly `word_space / 2^bits` of the words drawn, the same number for
/// each value (`2^24` of the 32-bit words for an 8-bit type).
pub proof fn lemma_equal_word_counts<T: PrimitiveInteger>(x: T)
    ensures
        words_giving(x).finite(),
        words_giving(x).len() == word_space::<T>() / (T::modulus() as int),
{
    T::lemma_bounds(x);
    lemma_pattern_bound(x);
    lemma_residue_count(
        word_space::<T>(),
        T::modulus() as int,
        pattern_of(x.int_of(), T::modulus()),
    );
}

/// The 32-bit words that give the coin `b`.
pub open spec fn words_giving_bool(b: bool) -> Set<int> {
    Set::new(|w: int| 0 <= w < 0x1_0000_0000 && bool_of_word(w) == b)
}

/// The coin is fair: exactly `2^31` of the `2^32` words give `true`, and
/// exactly `2^31` give `false`.
pub proof fn lemma_bool_word_counts(b: bool)
    ensures
        words_giving_bool(b).finite(),
        words_giving_bool(b).len() == 0x8000_0000,
{
    let p: int = if b {
        1
    } else {
        0
    };
    assert forall|w: int| #[trigger] bool_of_word(w) == (w % 2 == 1) by {
        lemma_mod_mod(w, 2, 128);
    }
    assert forall|w: int| 0 <= w < 0x1_0000_0000 implies (bool_of_word(w) == b) == (w % 2
        == p) by {
        lemma_mod_bound(w, 2);
    }
    assert(words_giving_bool(b) =~= Set::new(|w: int| 0 <= w < 0x1_0000_0000 && w % 2 == p));
    lemma_residue_count(0x1_0000_0000, 2, p);
}

impl Uniform<bool> {
    /// The boolean that the 32-bit word `w` gives: the lowest bit of the
    /// byte drawn from it.
    pub fn bool_from_u32(&self, w: u32) -> (r: bool)
        ensures
            r == bool_of_word(w as int),
    {
        let b: u8 = Uniform::<u8>::new().from_u32(w);
        proof {
            lemma_small_mod(b as nat, 256);
            lemma_mod_bound(w as int, 256);
        }
        assert(b & 1 == b % 2) by (bit_vector);
        b & 1 == 1
    }

    /// Draws one 32-bit word; `true` when the lowest bit of its low byte is set.
    pub fn sample<R: BitSource>(&self, rng: &mut R) -> (r: bool)
        ensures
            one_more_draw(old(rng).drawn(), final(rng).drawn()),
            final(rng).drawn().last() < 0x1_0000_0000,
            r == bool_of_word(final(rng).drawn().last() as int),
    {
        let ghost before = rng.drawn();
        let w = rng.next_u32();
        assert(rng.drawn().drop_last() =~= before);
        self.bool_from_u32(w)
    }
}

impl Distribution for Uniform<bool> {
    type Output = bool;

    open spec fn produces(&self, v: bool) -> bool {
        true
    }

    open spec fn never_rejects(&self) -> bool {
        true
    }

    /// One 32-bit word is drawn, and the coin is the lowest bit of its low byte.
    open spec fn attempt(&self, before: Seq<u64>, after: Seq<u64>, r: Option<bool>) -> bool {
        &&& one_more_draw(before, after)
        &&& r == Some(bool_of_word(after.last() as int))
    }

    fn try_sample<R: BitSource>(&self, rng: &mut R) -> (r: Option<bool>) {
        Some(self.sample(rng))
    }
}

#[verifier::external_type_specification]
#[verifier::external_body]
pub struct ExRangeFull(RangeFull);

impl<T: PrimitiveInteger> IntoDistribution<T> for RangeFull {
    type Distribution = Uniform<T>;

    open spec fn is_convertible(&self) -> bool {
        true
    }

    open spec fn converted(self) -> Uniform<T> {
        Uniform::spec_new()
    }

    /// `..` stands for the uniform distribution over all values.
    fn into_distribution(self) -> (d: Uniform<T>) {
        Uniform(PhantomData)
    }
}

impl DefaultDistribution for u8 {
    type Distribution = Uniform<u8>;

    fn default_distribution() -> (d: Uniform<u8>) {
        let d = Uniform::<u8>::new();
        assert(<Uniform<u8> as Distribution>::never_rejects(&d));
        d
    }
}

impl DefaultDistribution for u16 {
    type Distribution = Uniform<u16>;

    fn default_distribution() -> (d: Uniform<u16>) {
        let d = Uniform::<u16>::new();
        assert(<Uniform<u16> as Distribution>::never_rejects(&d));
        d
    }
}

impl DefaultDistribution for u32 {
    type Distribution = Uniform<u32>;

    fn default_distribution() -> (d: Uniform<u32>) {
        let d = Uniform::<u32>::new();
        assert(<Uniform<u32> as Distribution>::never_rejects(&d));
        d
    }
}

impl DefaultDistribution for u64 {
    type Distribution = Uniform<u64>;

    fn default_distribution() -> (d: Uniform<u64>) {
        let d = Uniform::<u64>::new();
        assert(<Uniform<u64> as Distribution>::never_rejects(&d));
        d
    }
}

impl DefaultDistribution for usize {
    type Distribution = Uniform<usize>;

    fn default_distribution() -> (d: Uniform<usize>) {
        let d = Uniform::<usize>::new();
        assert(<Uniform<usize> as Distribution>::never_rejects(&d));
        d
    }
}

impl DefaultDistribution for i8 {
    type Distribution = Uniform<i8>;

    fn default_distribution() -> (d: Uniform<i8>) {
        let d = Uniform::<i8>::new();
        assert(<Uniform<i8> as Distribution>::never_rejects(&d));
        d
    }
}

impl DefaultDistribution for i16 {
    type Distribution = Uniform<i16>;

    fn default_distribution() -> (d: Uniform<i16>) {
        let d = Uniform::<i16>::new();
        assert(<Uniform<i16> as Distribution>::never_rejects(&d));
        d
    }
}

impl DefaultDistribution for i32 {
    type Distribution = Uniform<i32>;

    fn default_distribution() -> (d: Uniform<i32>) {
        let d = Uniform::<i32>::new();
        assert(<Uniform<i32> as Distribution>::never_rejects(&d));
        d
    }
}

impl DefaultDistribution for i64 {
    type Distribution = Uniform<i64>;

    fn default_distribution() -> (d: Uniform<i64>) {
        let d = Uniform::<i64>::new();
        assert(<Uniform<i64> as Distribution>::never_rejects(&d));
        d
    }
}

impl DefaultDistribution for isize {
    type Distribution = Uniform<isize>;

    fn default_distribution() -> (d: Uniform<isize>) {
        let d = Uniform::<isize>::new();
        assert(<Uniform<isize> as Distribution>::never_rejects(&d));
        d
    }
}

impl DefaultDistribution for bool {
    type Distribution = Uniform<bool>;

    fn default_distribution() -> (d: Uniform<bool>) {
        let d = Uniform::<bool>::new();
        assert(<Uniform<bool> as Distribution>::never_rejects(&d));
        d
    }
}

} // verus!
