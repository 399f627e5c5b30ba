//! Small distributions built on the samplers: a constant, a weighted coin,
//! a random element of a slice, and a random alphanumeric character.
use vstd::prelude::*;
use vstd::pervasive::cloned;
use crate::api::{BitSource, Distribution, IntoDistribution, one_more_draw};
use crate::uniform::Uniform;
use crate::primitive::{PrimitiveInteger, pattern_of};
use crate::uniform_range::{UniformPrimitiveIntegerRange, acceptance_bound_of};

verus! {

/// A distribution that always returns the same value.
#[derive(Copy, Clone)]
pub struct Constant<T>(pub T);

impl<T: Clone> Distribution for Constant<T> {
    type Output = T;

    open spec fn produces(&self, v: T) -> bool {
        cloned(self.0, v)
    }

    open spec fn never_rejects(&self) -> bool {
        true
    }

    /// Nothing is drawn, and the value is a clone of the held one.
    open spec fn attempt(&self, before: Seq<u64>, after: Seq<u64>, r: Option<T>) -> bool {
        &&& after == before
        &&& r matches Some(v) && cloned(self.0, v)
    }

    /// A clone of the held value; nothing is drawn.
    fn try_sample<R: BitSource>(&self, rng: &mut R) -> (r: Option<T>) {
        Some(self.0.clone())
    }
}

impl IntoDistribution<u8> for u8 {
    type Distribution = Constant<u8>;

    open spec fn is_convertible(&self) -> bool {
        true
    }

    open spec fn converted(self) -> Constant<u8> {
        Constant(self)
    }

    /// A bare value stands for the distribution that always returns it.
    fn into_distribution(self) -> (d: Constant<u8>) {
        Constant(self)
    }
}

impl IntoDistribution<u16> for u16 {
    type Distribution = Constant<u16>;

    open spec fn is_convertible(&self) -> bool {
        true
    }

    open spec fn converted(self) -> Constant<u16> {
        Constant(self)
    }

    /// A bare value stands for the distribution that always returns it.
    fn into_distribution(self) -> (d: Constant<u16>) {
        Constant(self)
    }
}

impl IntoDistribution<u32> for u32 {
    type Distribution = Constant<u32>;

    open spec fn is_convertible(&self) -> bool {
        true
    }

    open spec fn converted(self) -> Constant<u32> {
        Constant(self)
    }

    /// A bare value stands for the distribution that always returns it.
    fn into_distribution(self) -> (d: Constant<u32>) {
        Constant(self)
    }
}

impl IntoDistribution<u64> for u64 {
    type Distribution = Constant<u64>;

    open spec fn is_convertible(&self) -> bool {
        true
    }

    open spec fn converted(self) -> Constant<u64> {
        Constant(self)
    }

    /// A bare value stands for the distribution that always returns it.
    fn into_distribution(self) -> (d: Constant<u64>) {
        Constant(self)
    }
}

impl IntoDistribution<usize> for usize {
    type Distribution = Constant<usize>;

    open spec fn is_convertible(&self) -> bool {
        true
    }

    open spec fn converted(self) -> Constant<usize> {
        Constant(self)
    }

    /// A bare value stands for the distribution that always returns it.
    fn into_distribution(self) -> (d: Constant<usize>) {
        Constant(self)
    }
}

impl IntoDistribution<i8> for i8 {
    type Distribution = Constant<i8>;

    open spec fn is_convertible(&self) -> bool {
        true
    }

    open spec fn converted(self) -> Constant<i8> {
        Constant(self)
    }

    /// A bare value stands for the distribution that always returns it.
    fn into_distribution(self) -> (d: Constant<i8>) {
        Constant(self)
    }
}

impl IntoDistribution<i16> for i16 {
    type Distribution = Constant<i16>;

    open spec fn is_convertible(&self) -> bool {
        true
    }

    open spec fn converted(self) -> Constant<i16> {
        Constant(self)
    }

    /// A bare value stands for the distribution that always returns it.
    fn into_distribution(self) -> (d: Constant<i16>) {
        Constant(self)
    }
}

impl IntoDistribution<i32> for i32 {
    type Distribution = Constant<i32>;

    open spec fn is_convertible(&self) -> bool {
        true
    }

    open spec fn converted(self) -> Constant<i32> {
        Constant(self)
    }

    /// A bare value stands for the distribution that always returns it.
    fn into_distribution(self) -> (d: Constant<i32>) {
        Constant(self)
    }
}

impl IntoDistribution<i64> for i64 {
    type Distribution = Constant<i64>;

    open spec fn is_convertible(&self) -> bool {
        true
    }

    open spec fn converted(self) -> Constant<i64> {
        Constant(self)
    }

    /// A bare value stands for the distribution that always returns it.
    fn into_distribution(self) -> (d: Constant<i64>) {
        Constant(self)
    }
}

impl IntoDistribution<isize> for isize {
    type Distribution = Constant<isize>;

    open spec fn is_convertible(&self) -> bool {
        true
    }

    open spec fn converted(self) -> Constant<isize> {
        Constant(self)
    }

    /// A bare value stands for the distribution that always returns it.
    fn into_distribution(self) -> (d: Constant<isize>) {
        Constant(self)
    }
}

impl IntoDistribution<bool> for bool {
    type Distribution = Constant<bool>;

    open spec fn is_convertible(&self) -> bool {
        true
    }

    open spec fn converted(self) -> Constant<bool> {
        Constant(self)
    }

    /// A bare value stands for the distribution that always returns it.
    fn into_distribution(self) -> (d: Constant<bool>) {
        Constant(self)
    }
}

impl IntoDistribution<char> for char {
    type Distribution = Constant<char>;

    open spec fn is_convertible(&self) -> bool {
        true
    }

    open spec fn converted(self) -> Constant<char> {
        Constant(self)
    }

    /// A bare value stands for the distribution that always returns it.
    fn into_distribution(self) -> (d: Constant<char>) {
        Constant(self)
    }
}

impl<T: Clone> IntoDistribution<Vec<T>> for Vec<T> {
    type Distribution = Constant<Vec<T>>;

    open spec fn is_convertible(&self) -> bool {
        true
    }

    open spec fn converted(self) -> Constant<Vec<T>> {
        Constant(self)
    }

    /// A collection stands for the distribution that always returns it.
    fn into_distribution(self) -> (d: Constant<Vec<T>>) {
        Constant(self)
    }
}

impl<T: Clone> IntoDistribution<std::collections::VecDeque<T>> for std::collections::VecDeque<T> {
    type Distribution = Constant<std::collections::VecDeque<T>>;

    open spec fn is_convertible(&self) -> bool {
        true
    }

    open spec fn converted(self) -> Constant<std::collections::VecDeque<T>> {
        Constant(self)
    }

    /// A collection stands for the distribution that always returns it.
    fn into_distribution(self) -> (d: Constant<std::collections::VecDeque<T>>) {
        Constant(self)
    }
}

impl<K: Clone, V: Clone> IntoDistribution<std::collections::HashMap<K, V>> for std::collections::HashMap<K, V> {
    type Distribution = Constant<std::collections::HashMap<K, V>>;

    open spec fn is_convertible(&self) -> bool {
        true
    }

    open spec fn converted(self) -> Constant<std::collections::HashMap<K, V>> {
        Constant(self)
    }

    /// A collection stands for the distribution that always returns it.
    fn into_distribution(self) -> (d: Constant<std::collections::HashMap<K, V>>) {
        Constant(self)
    }
}

impl<K: Clone, V: Clone> IntoDistribution<std::collections::BTreeMap<K, V>> for std::collections::BTreeMap<K, V> {
    type Distribution = Constant<std::collections::BTreeMap<K, V>>;

    open spec fn is_convertible(&self) -> bool {
        true
    }

    open spec fn converted(self) -> Constant<std::collections::BTreeMap<K, V>> {
        Constant(self)
    }

    /// A collection stands for the distribution that always returns it.
    fn into_distribution(self) -> (d: Constant<std::collections::BTreeMap<K, V>>) {
        Constant(self)
    }
}

impl<T: Clone> IntoDistribution<std::collections::HashSet<T>> for std::collections::HashSet<T> {
    type Distribution = Constant<std::collections::HashSet<T>>;

    open spec fn is_convertible(&self) -> bool {
        true
    }

    open spec fn converted(self) -> Constant<std::collections::HashSet<T>> {
        Constant(self)
    }

    /// A collection stands for the distribution that always returns it.
    fn into_distribution(self) -> (d: Constant<std::collections::HashSet<T>>) {
        Constant(self)
    }
}

impl<T: Clone> IntoDistribution<std::collections::BTreeSet<T>> for std::collections::BTreeSet<T> {
    type Distribution = Constant<std::collections::BTreeSet<T>>;

    open spec fn is_convertible(&self) -> bool {
        true
    }

    open spec fn converted(self) -> Constant<std::collections::BTreeSet<T>> {
        Constant(self)
    }

    /// A collection stands for the distribution that always returns it.
    fn into_distribution(self) -> (d: Constant<std::collections::BTreeSet<T>>) {
        Constant(self)
    }
}

/// A coin that comes up `true` once in `n` throws.
pub enum WeightedBool {
    /// `n` was 0 or 1: always `true`.
    AlwaysTrue,
    /// `true` when a value drawn uniformly from `[0, n)` is 0.
    OneIn(UniformPrimitiveIntegerRange<u32>),
}

impl WeightedBool {
    /// The coin that is `true` once in `n` throws; always `true` for `n <= 1`.
    pub fn new(n: u32) -> (r: WeightedBool)
        ensures
            r is AlwaysTrue <==> n <= 1,
            r matches WeightedBool::OneIn(d) ==> d.low_value() == 0 && d.range_width() == n
                && d.acceptance_bound() == acceptance_bound_of(n as int, u32::modulus() as int),
    {
        if n <= 1 {
            WeightedBool::AlwaysTrue
        } else {
            WeightedBool::OneIn(UniformPrimitiveIntegerRange::new(0, n).unwrap())
        }
    }

    /// The result of one throw from the full-width draw `x`: always `true`,
    /// or for `OneIn(d)` whether `d` turns `x` into 0, `None` where `d`
    /// rejects it.
    pub fn sample_from_draw(&self, x: u32) -> (r: Option<bool>)
        ensures
            match self {
                WeightedBool::AlwaysTrue => r == Some(true),
                WeightedBool::OneIn(d) => match d.outcome(pattern_of(x as int, u32::modulus())) {
                    Some(y) => r == Some(y == 0),
                    None => r is None,
                },
            },
    {
        match self {
            WeightedBool::AlwaysTrue => Some(true),
            WeightedBool::OneIn(d) => match d.sample_from_draw(x) {
                Some(y) => Some(y == 0),
                None => None,
            },
        }
    }
}

impl Distribution for WeightedBool {
    type Output = bool;

    open spec fn produces(&self, v: bool) -> bool {
        self is AlwaysTrue ==> v
    }

    open spec fn never_rejects(&self) -> bool {
        self is AlwaysTrue
    }

    /// `AlwaysTrue` draws nothing and gives `true`; `OneIn(d)` draws one
    /// 32-bit word and gives whether `d` turns it into 0.
    open spec fn attempt(&self, before: Seq<u64>, after: Seq<u64>, r: Option<bool>) -> bool {
        match self {
            WeightedBool::AlwaysTrue => after == before && r == Some(true),
            WeightedBool::OneIn(d) => {
                &&& one_more_draw(before, after)
                &&& match d.outcome(after.last() as int % u32::modulus() as int) {
                    Some(y) => r == Some(y == 0),
                    None => r is None,
                }
            },
        }
    }

    fn try_sample<R: BitSource>(&self, rng: &mut R) -> (r: Option<bool>) {
        match self {
            WeightedBool::AlwaysTrue => Some(true),
            WeightedBool::OneIn(_) => {
                let x = Uniform::<u32>::new().sample(rng);
                self.sample_from_draw(x)
            },
        }
    }
}

/// The uniform distribution over the elements of a non-empty slice.
pub struct RandomElement<'a, T> {
    values: &'a [T],
    range: UniformPrimitiveIntegerRange<usize>,
}

impl<'a, T> RandomElement<'a, T> {
    /// The index range covers the slice exactly.
    #[verifier::type_invariant]
    pub closed spec fn valid(self) -> bool {
        &&& self.range.low_value() == 0
        &&& self.range.range_width() == self.values@.len()
    }

    /// The elements chosen from.
    pub closed spec fn elements(self) -> Seq<T> {
        self.values@
    }

    /// The index distribution, uniform over `[0, len)`.
    pub closed spec fn index_range(self) -> UniformPrimitiveIntegerRange<usize> {
        self.range
    }

    /// The distribution over the elements of `values`; `None` when it is empty.
    pub fn from(values: &'a [T]) -> (r: Option<RandomElement<'a, T>>)
        ensures
            r is None <==> values@.len() == 0,
            r matches Some(e) ==> e.elements() == values@ && e.index_range().low_value() == 0
                && e.index_range().range_width() == values@.len()
                && e.index_range().acceptance_bound() == acceptance_bound_of(
                values@.len() as int,
                usize::modulus() as int,
            ),
    {
        if values.len() == 0 {
            None
        } else {
            let range_distribution = UniformPrimitiveIntegerRange::new(0, values.len()).unwrap();
            Some(RandomElement { values, range: range_distribution })
        }
    }

    /// The element that the full-width draw `x` picks: the one at the index
    /// that the index range turns `x` into, `None` where it rejects `x`.
    pub fn sample_from_draw(&self, x: usize) -> (r: Option<&'a T>)
        ensures
            match self.index_range().outcome(pattern_of(x as int, usize::modulus())) {
                Some(i) => r matches Some(v) && 0 <= i < self.elements().len() && *v
                    == self.elements()[i],
                None => r is None,
            },
    {
        proof {
            use_type_invariant(self);
        }
        match self.range.sample_from_draw(x) {
            Some(i) => Some(&self.values[i]),
            None => None,
        }
    }
}

impl<'a, T> Distribution for RandomElement<'a, T> {
    type Output = &'a T;

    open spec fn produces(&self, v: &'a T) -> bool {
        exists|i: int| 0 <= i < self.elements().len() && self.elements()[i] == *v
    }

    open spec fn never_rejects(&self) -> bool {
        false
    }

    /// One word is drawn; the element is the one at the index that the index
    /// range turns its low bits into, or the draw is rejected.
    open spec fn attempt(&self, before: Seq<u64>, after: Seq<u64>, r: Option<&'a T>) -> bool {
        &&& one_more_draw(before, after)
        &&& match self.index_range().outcome(after.last() as int % usize::modulus() as int) {
            Some(i) => r matches Some(v) && 0 <= i < self.elements().len() && *v
                == self.elements()[i],
            None => r is None,
        }
    }

    fn try_sample<R: BitSource>(&self, rng: &mut R) -> (r: Option<&'a T>) {
        let x = Uniform::<usize>::new().sample(rng);
        let r = self.sample_from_draw(x);
        proof {
            if let Some(v) = r {
                let i = self.index_range().outcome(pattern_of(x as int, usize::modulus())).unwrap();
                assert(self.elements()[i] == *v);
            }
        }
        r
    }
}

/// The character at index `i` of the sequence of the 26 upper case letters,
/// the 26 lower case letters and the 10 digits of ASCII.
pub open spec fn alphanum_char(i: int) -> char {
    if i < 26 {
        (65 + i) as char
    } else if i < 52 {
        (97 + i - 26) as char
    } else {
        (48 + i - 52) as char
    }
}

/// Whether `c` is an ASCII letter or digit.
pub open spec fn is_ascii_alphanumeric(c: char) -> bool {
    ||| 'A' <= c <= 'Z'
    ||| 'a' <= c <= 'z'
    ||| '0' <= c <= '9'
}

/// Each index of the alphanumeric sequence gives a letter or a digit.
proof fn lemma_alphanum_char(i: int)
    requires
        0 <= i < 62,
    ensures
        is_ascii_alphanumeric(alphanum_char(i)),
{
}

/// The character at index `i` of the alphanumeric sequence.
fn alphanum_at(i: u8) -> (c: char)
    requires
        i < 62,
    ensures
        c == alphanum_char(i as int),
        is_ascii_alphanumeric(c),
{
    if i < 26 {
        (65 + i) as char
    } else if i < 52 {
        (97 + (i - 26)) as char
    } else {
        (48 + (i - 52)) as char
    }
}

/// The uniform distribution over the 62 ASCII letters and digits.
pub struct Alphanum(UniformPrimitiveIntegerRange<u8>);

impl Alphanum {
    /// The index range covers the 62 characters.
    #[verifier::type_invariant]
    pub closed spec fn valid(self) -> bool {
        &&& self.0.low_value() == 0
        &&& self.0.range_width() == 62
    }

    /// The index distribution, uniform over `[0, 62)`.
    pub closed spec fn index_range(self) -> UniformPrimitiveIntegerRange<u8> {
        self.0
    }

    /// The uniform distribution over ASCII letters and digits.
    pub fn new() -> (r: Alphanum)
        ensures
            r.index_range().low_value() == 0,
            r.index_range().range_width() == 62,
            r.index_range().acceptance_bound() == acceptance_bound_of(62, u8::modulus() as int),
    {
        Alphanum(UniformPrimitiveIntegerRange::new(0, 62).unwrap())
    }

    /// The character that the full-width draw `x` picks: the one at the
    /// index that the index range turns `x` into, `None` where it rejects `x`.
    pub fn sample_from_draw(&self, x: u8) -> (r: Option<char>)
        ensures
            match self.index_range().outcome(pattern_of(x as int, u8::modulus())) {
                Some(i) => r == Some(alphanum_char(i)),
                None => r is None,
            },
    {
        proof {
            use_type_invariant(self);
        }
        match self.0.sample_from_draw(x) {
            Some(i) => Some(alphanum_at(i)),
            None => None,
        }
    }
}

impl Distribution for Alphanum {
    type Output = char;

    open spec fn produces(&self, v: char) -> bool {
        is_ascii_alphanumeric(v)
    }

    open spec fn never_rejects(&self) -> bool {
        false
    }

    /// One word is drawn; the character is the one at the index that the
    /// index range turns its low byte into, or the draw is rejected.
    open spec fn attempt(&self, before: Seq<u64>, after: Seq<u64>, r: Option<char>) -> bool {
        &&& one_more_draw(before, after)
        &&& match self.index_range().outcome(after.last() as int % u8::modulus() as int) {
            Some(i) => r == Some(alphanum_char(i)),
            None => r is None,
        }
    }

    fn try_sample<R: BitSource>(&self, rng: &mut R) -> (r: Option<char>) {
        proof {
            use_type_invariant(self);
        }
        let x = Uniform::<u8>::new().sample(rng);
        let r = self.sample_from_draw(x);
        proof {
            if let Some(c) = r {
                let i = self.index_range().outcome(pattern_of(x as int, u8::modulus())).unwrap();
                lemma_alphanum_char(i);
            }
        }
        r
    }
}

} // verus!
