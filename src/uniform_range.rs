//! The uniform distribution over a half-open range `[low, high)` of a
//! primitive integer type, by rejection sampling.
use vstd::arithmetic::div_mod::{
    lemma_add_mod_noop, lemma_fundamental_div_mod, lemma_fundamental_div_mod_converse,
    lemma_mod_add_multiples_vanish, lemma_mod_bound, lemma_small_mod, lemma_sub_mod_noop,
};
use vstd::prelude::*;
use vstd::set_lib::{lemma_int_range, lemma_map_size, set_int_range};
use core::ops::Range;
use crate::api::{BitSource, Distribution, IntoDistribution, one_more_draw};
use crate::primitive::{PrimitiveInteger, lemma_pattern_bound, lemma_window_mod_unique, pattern_of};
use crate::uniform::Uniform;

verus! {

/// The acceptance bound for a range of `width` values in a type with
/// `modulus` bit patterns: the largest multiple of `width` that is at most
/// the largest unsigned value, `(modulus - 1) - (modulus - 1) % width`.
pub open spec fn acceptance_bound_of(width: int, modulus: int) -> int {
    (modulus - 1) - (modulus - 1) % width
}

/// `(a - b) mod (max + 1)`, for `a` and `b` at most `max`.
fn wrapping_sub_within(a: u64, b: u64, max: u64) -> (r: u64)
    requires
        a <= max,
        b <= max,
    ensures
        r as int == (a - b) % (max as int + 1),
{
    let ghost m = max as int + 1;
    if a >= b {
        proof {
            lemma_small_mod((a - b) as nat, m as nat);
        }
        a - b
    } else {
        proof {
            lemma_mod_add_multiples_vanish(a - b, m);
            lemma_small_mod((m + a - b) as nat, m as nat);
        }
        max - (b - a) + 1
    }
}

/// `(a + k) mod (max + 1)`, for `a` and `k` at most `max`.
fn wrapping_add_within(a: u64, k: u64, max: u64) -> (r: u64)
    requires
        a <= max,
        k <= max,
    ensures
        r as int == (a + k) % (max as int + 1),
{
    let ghost m = max as int + 1;
    if a <= max - k {
        proof {
            lemma_small_mod((a + k) as nat, m as nat);
        }
        a + k
    } else {
        proof {
            lemma_mod_add_multiples_vanish(a + k - m, m);
            lemma_small_mod((a + k - m) as nat, m as nat);
        }
        k - (max - a) - 1
    }
}

/// The uniform distribution over the integers `low, low + 1, ..., high - 1`.
///
/// It keeps `low`, the width of the range and the acceptance bound, both in
/// the unsigned counterpart of `T`. A full-width draw `v` below the
/// acceptance bound gives `low + v % width`; a draw at or above it is
/// rejected, since keeping it would favour the smallest offsets.
#[derive(Copy)]
pub struct UniformPrimitiveIntegerRange<T: PrimitiveInteger> {
    low: T,
    range: u64,
    accept_zone: u64,
}

impl<T: PrimitiveInteger> Clone for UniformPrimitiveIntegerRange<T> {
    fn clone(&self) -> (r: UniformPrimitiveIntegerRange<T>)
        ensures
            r == *self,
    {
        *self
    }
}

impl<T: PrimitiveInteger> UniformPrimitiveIntegerRange<T> {
    /// The range holds at least one value, its top lies within `T`, and the
    /// acceptance bound is computed from its width.
    #[verifier::type_invariant]
    pub closed spec fn valid(self) -> bool {
        &&& 0 < self.range
        &&& self.low.int_of() + self.range < T::min_int() + T::modulus()
        &&& T::min_int() <= self.low.int_of()
        &&& self.accept_zone as int == acceptance_bound_of(self.range as int, T::modulus() as int)
    }

    /// The smallest value of the range.
    pub closed spec fn low_value(self) -> int {
        self.low.int_of()
    }

    /// The number of values in the range, `high - low`.
    pub closed spec fn range_width(self) -> int {
        self.range as int
    }

    /// The acceptance bound: draws below it are kept.
    pub closed spec fn acceptance_bound(self) -> int {
        self.accept_zone as int
    }

    /// The distribution that `new(low, high)` builds when `low < high`.
    pub closed spec fn spec_new(low: T, high: T) -> Self {
        UniformPrimitiveIntegerRange {
            low,
            range: (high.int_of() - low.int_of()) as u64,
            accept_zone: acceptance_bound_of(
                high.int_of() - low.int_of(),
                T::modulus() as int,
            ) as u64,
        }
    }

    /// What a full-width draw whose bit pattern is `v` gives: `None` when it
    /// is rejected, else the value `low + v % width`.
    pub open spec fn outcome(self, v: int) -> Option<int> {
        if v < self.acceptance_bound() {
            Some(self.low_value() + v % self.range_width())
        } else {
            None
        }
    }

    /// The uniform distribution over `[low, high)`; `None` unless `low < high`.
    pub fn new(low: T, high: T) -> (r: Option<UniformPrimitiveIntegerRange<T>>)
        ensures
            r is None <==> !(low.int_of() < high.int_of()),
            r matches Some(d) ==> d == Self::spec_new(low, high) && d.valid(),
            r matches Some(d) ==> d.low_value() == low.int_of() && d.range_width() == high.int_of()
                - low.int_of() && d.acceptance_bound() == acceptance_bound_of(
                high.int_of() - low.int_of(),
                T::modulus() as int,
            ),
    {
        if !low.less_than(&high) {
            None
        } else {
            proof {
                T::lemma_bounds(low);
                T::lemma_bounds(high);
            }
            let unsigned_max = T::unsigned_max();
            let high_u = high.to_unsigned();
            let low_u = low.to_unsigned();
            proof {
                lemma_pattern_bound(low);
                lemma_pattern_bound(high);
            }
            let unsigned_range = wrapping_sub_within(high_u, low_u, unsigned_max);
            proof {
                let m = T::modulus() as int;
                lemma_sub_mod_noop(high.int_of(), low.int_of(), m);
                lemma_small_mod((high.int_of() - low.int_of()) as nat, m as nat);
                lemma_mod_bound(unsigned_max as int, unsigned_range as int);
            }
            let unsigned_zone = unsigned_max - unsigned_max % unsigned_range;
            Some(UniformPrimitiveIntegerRange { low, range: unsigned_range, accept_zone: unsigned_zone })
        }
    }

    /// The acceptance bound is a positive multiple of the range width, at
    /// most the largest unsigned value, and fewer than `width` draws lie at
    /// or above it; so at least half of all draws are accepted.
    pub proof fn lemma_acceptance_bound(self)
        requires
            self.valid(),
        ensures
            self.acceptance_bound() % self.range_width() == 0,
            0 < self.range_width() <= self.acceptance_bound() <= T::modulus() - 1,
            T::modulus() - self.range_width() <= self.acceptance_bound(),
            2 * self.acceptance_bound() >= T::modulus(),
    {
        let m = T::modulus() as int;
        let r = self.range as int;
        let a = self.accept_zone as int;
        lemma_fundamental_div_mod(m - 1, r);
        lemma_mod_bound(m - 1, r);
        let q = (m - 1) / r;
        assert(a == r * q);
        lemma_fundamental_div_mod_converse(a, r, q, 0);
        assert(q >= 1) by (nonlinear_arith)
            requires
                m - 1 == r * q + (m - 1) % r,
                (m - 1) % r < r,
                r <= m - 1,
        ;
        assert(r * q >= r) by (nonlinear_arith)
            requires
                q >= 1,
                r > 0,
        ;
    }

    /// No modulo bias: a draw `v` gives the value `x` of the range exactly
    /// when `v == j * width + (x - low)` for some `j` below
    /// `acceptance_bound / width`. Every value of the range is thus given by
    /// the same number of draws.
    pub proof fn lemma_no_modulo_bias(self, x: int, v: int)
        requires
            self.valid(),
            self.low_value() <= x < self.low_value() + self.range_width(),
            0 <= v < T::modulus(),
        ensures
            self.outcome(v) == Some(x) <==> exists|j: int|
                0 <= j < self.acceptance_bound() / self.range_width() && v == #[trigger] (j
                    * self.range_width()) + (x - self.low_value()),
    {
        self.lemma_acceptance_bound();
        let r = self.range_width();
        let a = self.acceptance_bound();
        let c = x - self.low_value();
        let n = a / r;
        lemma_fundamental_div_mod(a, r);
        assert(a == n * r) by (nonlinear_arith)
            requires
                a == r * (a / r) + a % r,
                a % r == 0,
                n == a / r,
        ;
        if self.outcome(v) == Some(x) {
            let j = v / r;
            lemma_fundamental_div_mod(v, r);
            assert(v == j * r + c) by (nonlinear_arith)
                requires
                    v == r * (v / r) + v % r,
                    v % r == c,
                    j == v / r,
            ;
            assert(j < n) by (nonlinear_arith)
                requires
                    v == j * r + c,
                    0 <= c,
                    v < a,
                    a == n * r,
                    r > 0,
            ;
            assert(0 <= j) by (nonlinear_arith)
                requires
                    v == j * r + c,
                    0 <= v,
                    c < r,
                    r > 0,
            ;
        }
        if exists|j: int| 0 <= j < n && v == #[trigger] (j * r) + c {
            let j = choose|j: int| 0 <= j < n && v == #[trigger] (j * r) + c;
            lemma_fundamental_div_mod_converse(v, r, j, c);
            assert(j * r <= (n - 1) * r) by (nonlinear_arith)
                requires
                    j <= n - 1,
                    r > 0,
            ;
            assert((n - 1) * r + r == n * r) by (nonlinear_arith);
            assert(v < a);
        }
    }

    /// The draws, among all bit patterns of the unsigned counterpart, that
    /// give the value `x`.
    pub open spec fn draws_giving(self, x: int) -> Set<int> {
        Set::new(|v: int| 0 <= v < T::modulus() && self.outcome(v) == Some(x))
    }

    /// Uniformity: every value of the range is given by exactly
    /// `acceptance_bound / width` of the draws, the same number for each.
    pub proof fn lemma_equal_counts(self, x: int)
        requires
            self.valid(),
            self.low_value() <= x < self.low_value() + self.range_width(),
        ensures
            self.draws_giving(x).finite(),
            self.draws_giving(x).len() == self.acceptance_bound() / self.range_width(),
    {
        self.lemma_acceptance_bound();
        let r = self.range_width();
        let c = x - self.low_value();
        let n = self.acceptance_bound() / r;
        let f = |j: int| j * r + c;
        let dom = set_int_range(0, n);
        let pre = self.draws_giving(x);
        assert forall|v: int| pre.contains(v) implies dom.map(f).contains(v) by {
            self.lemma_no_modulo_bias(x, v);
            let j = choose|j: int| 0 <= j < n && v == #[trigger] (j * r) + c;
            assert(dom.contains(j) && f(j) == v);
        }
        assert forall|v: int| dom.map(f).contains(v) implies pre.contains(v) by {
            let j = choose|j: int| dom.contains(j) && f(j) == v;
            assert(j * r <= (n - 1) * r) by (nonlinear_arith)
                requires
                    j <= n - 1,
                    r > 0,
            ;
            assert((n - 1) * r + r == n * r) by (nonlinear_arith);
            assert(0 <= j * r) by (nonlinear_arith)
                requires
                    0 <= j,
                    r > 0,
            ;
            assert(n * r <= self.acceptance_bound()) by (nonlinear_arith)
                requires
                    n == self.acceptance_bound() / r,
                    r > 0,
                    self.acceptance_bound() >= 0,
            ;
            self.lemma_no_modulo_bias(x, v);
        }
        assert(dom.map(f) =~= pre);
        assert forall|a: int, b: int| dom.contains(a) && dom.contains(b) && #[trigger] f(a)
            == #[trigger] f(b) implies a == b by {
            assert(a * r == b * r);
            assert(a == b) by (nonlinear_arith)
                requires
                    a * r == b * r,
                    r > 0,
            ;
        }
        lemma_int_range(0, n);
        lemma_map_size(dom, pre, f);
    }

    /// The smallest value of the range.
    pub fn low(&self) -> (r: T)
        ensures
            r.int_of() == self.low_value(),
    {
        self.low
    }

    /// The number of values in the range, in the unsigned counterpart of `T`.
    pub fn range_width_unsigned(&self) -> (r: u64)
        ensures
            r as int == self.range_width(),
    {
        self.range
    }

    /// The acceptance bound, in the unsigned counterpart of `T`.
    pub fn acceptance_bound_unsigned(&self) -> (r: u64)
        ensures
            r as int == self.acceptance_bound(),
    {
        self.accept_zone
    }

    /// The result of one full-width draw `x`: its bit pattern `v` is kept
    /// when below the acceptance bound and then gives `low + v % width`;
    /// otherwise it is rejected and `None` comes back.
    pub fn sample_from_draw(&self, x: T) -> (r: Option<T>)
        ensures
            r is Some <==> self.outcome(pattern_of(x.int_of(), T::modulus())) is Some,
            r matches Some(y) ==> self.outcome(pattern_of(x.int_of(), T::modulus())) == Some(
                y.int_of(),
            ),
            r matches Some(y) ==> self.low_value() <= y.int_of() < self.low_value()
                + self.range_width(),
    {
        proof {
            use_type_invariant(self);
            lemma_pattern_bound(x);
            lemma_pattern_bound(self.low);
        }
        let v = x.to_unsigned();
        if v < self.accept_zone {
            let unsigned_max = T::unsigned_max();
            let low_u = self.low.to_unsigned();
            let k = v % self.range;
            let sum = wrapping_add_within(low_u, k, unsigned_max);
            let y = T::from_unsigned(sum);
            proof {
                let m = T::modulus() as int;
                let lo = self.low.int_of();
                lemma_mod_bound(v as int, self.range as int);
                lemma_add_mod_noop(lo, k as int, m);
                lemma_small_mod(k as nat, m as nat);
                T::lemma_bounds(y);
                lemma_mod_bound(y.int_of(), m);
                lemma_mod_bound(lo + k, m);
                lemma_window_mod_unique(y.int_of(), lo + k, T::min_int(), m);
            }
            Some(y)
        } else {
            None
        }
    }
}

impl<T: PrimitiveInteger> Distribution for UniformPrimitiveIntegerRange<T> {
    type Output = T;

    open spec fn produces(&self, v: T) -> bool {
        self.low_value() <= v.int_of() < self.low_value() + self.range_width()
    }

    open spec fn never_rejects(&self) -> bool {
        false
    }

    /// One word is drawn; its low bits are the full-width draw, which gives
    /// the value or is rejected as `outcome` says.
    open spec fn attempt(&self, before: Seq<u64>, after: Seq<u64>, r: Option<T>) -> bool {
        &&& one_more_draw(before, after)
        &&& match self.outcome(after.last() as int % T::modulus() as int) {
            Some(y) => r matches Some(v) && v.int_of() == y,
            None => r is None,
        }
    }

    /// Draws one full-width value and keeps it or rejects it.
    fn try_sample<R: BitSource>(&self, rng: &mut R) -> (r: Option<T>) {
        let x = Uniform::<T>::new().sample(rng);
        self.sample_from_draw(x)
    }
}

impl<T: PrimitiveInteger> IntoDistribution<T> for Range<T> {
    type Distribution = UniformPrimitiveIntegerRange<T>;

    open spec fn is_convertible(&self) -> bool {
        self.start.int_of() < self.end.int_of()
    }

    open spec fn converted(self) -> UniformPrimitiveIntegerRange<T> {
        UniformPrimitiveIntegerRange::spec_new(self.start, self.end)
    }

    /// `low..high` stands for the uniform distribution over `[low, high)`.
    fn into_distribution(self) -> (d: UniformPrimitiveIntegerRange<T>) {
        UniformPrimitiveIntegerRange::new(self.start, self.end).unwrap()
    }
}

/// Converting two equal ranges gives distributions with the same stored
/// parameters: the same low end, range width and acceptance bound, all
/// determined by the two ends.
pub proof fn lemma_conversion_deterministic<T: PrimitiveInteger>(a: Range<T>, b: Range<T>)
    requires
        a.start.int_of() == b.start.int_of(),
        a.end.int_of() == b.end.int_of(),
        a.is_convertible(),
    ensures
        a.converted().low_value() == b.converted().low_value(),
        a.converted().range_width() == b.converted().range_width(),
        a.converted().acceptance_bound() == b.converted().acceptance_bound(),
        a.converted().low_value() == a.start.int_of(),
        a.converted().range_width() == a.end.int_of() - a.start.int_of(),
        a.converted().acceptance_bound() == acceptance_bound_of(
            a.end.int_of() - a.start.int_of(),
            T::modulus() as int,
        ),
{
    let w = a.end.int_of() - a.start.int_of();
    let m = T::modulus() as int;
    T::lemma_bounds(a.start);
    T::lemma_bounds(a.end);
    lemma_mod_bound(m - 1, w);
}

} // verus!
