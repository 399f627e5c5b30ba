//! The primitive integer types that the samplers work over, described by
//! their value, their bit pattern and the width of their unsigned counterpart.
use vstd::arithmetic::div_mod::{lemma_fundamental_div_mod, lemma_fundamental_div_mod_converse, lemma_mod_bound, lemma_small_mod};
use vstd::prelude::*;
use vstd::set_lib::{lemma_int_range, lemma_map_size, set_int_range};

verus! {

/// The bit pattern of the integer `v` in a type with `modulus` bit patterns,
/// read as an unsigned number.
pub open spec fn pattern_of(v: int, modulus: nat) -> int {
    v % (modulus as int)
}

/// A primitive integer type, paired with the unsigned type of the same width.
///
/// The unsigned counterpart is carried in a `u64`: `to_unsigned` gives the
/// bit pattern of a value, `from_unsigned` reads a bit pattern back.
pub trait PrimitiveInteger: Copy + Sized {
    /// Number of bit patterns of the type, `2^bits`.
    spec fn modulus() -> nat;

    /// The smallest value of the type.
    spec fn min_int() -> int;

    /// The mathematical value.
    spec fn int_of(self) -> int;

    /// The values of the type are the `modulus()` consecutive integers from
    /// `min_int()` on, and the width is one of the primitive widths.
    proof fn lemma_bounds(x: Self)
        ensures
            Self::min_int() <= x.int_of() < Self::min_int() + Self::modulus(),
            Self::min_int() <= 0,
            256 <= Self::modulus() <= 0x1_0000_0000_0000_0000,
            0x1_0000_0000_0000_0000int % (Self::modulus() as int) == 0,
            Self::modulus() <= 0x1_0000_0000 ==> 0x1_0000_0000int % (Self::modulus() as int) == 0,
    ;

    /// The bit pattern, as a value of the unsigned counterpart.
    fn to_unsigned(self) -> (r: u64)
        ensures
            r as int == pattern_of(self.int_of(), Self::modulus()),
    ;

    /// The value whose bit pattern is `u`.
    fn from_unsigned(u: u64) -> (r: Self)
        requires
            u < Self::modulus(),
        ensures
            pattern_of(r.int_of(), Self::modulus()) == u as int,
    ;

    /// The largest value of the unsigned counterpart.
    fn unsigned_max() -> (r: u64)
        ensures
            r as int + 1 == Self::modulus(),
    ;

    /// Whether the type is wider than a 32-bit word.
    fn is_wide() -> (r: bool)
        ensures
            r == (Self::modulus() > 0x1_0000_0000),
    ;

    /// `self < other` on the values.
    fn less_than(&self, other: &Self) -> (r: bool)
        ensures
            r == (self.int_of() < other.int_of()),
    ;
}

/// Two integers in one window of `m` consecutive integers that leave the same
/// remainder modulo `m` are equal.
pub proof fn lemma_window_mod_unique(a: int, b: int, lo: int, m: int)
    requires
        0 < m,
        lo <= a < lo + m,
        lo <= b < lo + m,
        a % m == b % m,
    ensures
        a == b,
{
    lemma_fundamental_div_mod(a, m);
    lemma_fundamental_div_mod(b, m);
    let k = a / m - b / m;
    assert(a - b == m * k) by (nonlinear_arith)
        requires
            a == m * (a / m) + a % m,
            b == m * (b / m) + b % m,
            a % m == b % m,
            k == a / m - b / m,
    ;
    if k > 0 {
        assert(m * k >= m) by (nonlinear_arith)
            requires
                k > 0,
                m > 0,
        ;
    } else if k < 0 {
        assert(m * k <= -m) by (nonlinear_arith)
            requires
                k < 0,
                m > 0,
        ;
    }
}

/// Among the integers in `[0, k)`, where `m` divides `k`, exactly `k / m`
/// leave the remainder `p` modulo `m`.
pub proof fn lemma_residue_count(k: int, m: int, p: int)
    requires
        0 < m,
        0 <= k,
        k % m == 0,
        0 <= p < m,
    ensures
        Set::new(|w: int| 0 <= w < k && w % m == p).finite(),
        Set::new(|w: int| 0 <= w < k && w % m == p).len() == k / m,
{
    let n = k / m;
    let f = |j: int| j * m + p;
    let dom = set_int_range(0, n);
    let pre = Set::new(|w: int| 0 <= w < k && w % m == p);
    lemma_fundamental_div_mod(k, m);
    assert(k == n * m) by (nonlinear_arith)
        requires
            k == m * (k / m) + k % m,
            k % m == 0,
            n == k / m,
    ;
    assert forall|w: int| pre.contains(w) implies dom.map(f).contains(w) by {
        let j = w / m;
        lemma_fundamental_div_mod(w, m);
        assert(w == j * m + p) by (nonlinear_arith)
            requires
                w == m * (w / m) + w % m,
                w % m == p,
                j == w / m,
        ;
        assert(0 <= j < n) by (nonlinear_arith)
            requires
                w == j * m + p,
                0 <= w < k,
                0 <= p < m,
                k == n * m,
                m > 0,
        ;
        assert(dom.contains(j) && f(j) == w);
    }
    assert forall|w: int| dom.map(f).contains(w) implies pre.contains(w) by {
        let j = choose|j: int| dom.contains(j) && f(j) == w;
        lemma_fundamental_div_mod_converse(w, m, j, p);
        assert(0 <= w < k) by (nonlinear_arith)
            requires
                w == j * m + p,
                0 <= j < n,
                0 <= p < m,
                k == n * m,
        ;
    }
    assert(dom.map(f) =~= pre);
    assert forall|a: int, b: int| dom.contains(a) && dom.contains(b) && #[trigger] f(a)
        == #[trigger] f(b) implies a == b by {
        assert(a == b) by (nonlinear_arith)
            requires
                a * m + p == b * m + p,
                m > 0,
        ;
    }
    lemma_int_range(0, n);
    lemma_map_size(dom, pre, f);
}

/// The bit pattern of a value lies below the modulus.
pub proof fn lemma_pattern_bound<T: PrimitiveInteger>(x: T)
    ensures
        0 <= pattern_of(x.int_of(), T::modulus()) < T::modulus(),
{
    T::lemma_bounds(x);
    lemma_mod_bound(x.int_of(), T::modulus() as int);
}

/// A value of a primitive type is determined by its bit pattern.
pub proof fn lemma_pattern_determines_value<T: PrimitiveInteger>(a: T, b: T)
    requires
        pattern_of(a.int_of(), T::modulus()) == pattern_of(b.int_of(), T::modulus()),
    ensures
        a.int_of() == b.int_of(),
{
    T::lemma_bounds(a);
    T::lemma_bounds(b);
    lemma_window_mod_unique(a.int_of(), b.int_of(), T::min_int(), T::modulus() as int);
}

impl PrimitiveInteger for u8 {
    open spec fn modulus() -> nat {
        0x100
    }

    open spec fn min_int() -> int {
        0
    }

    open spec fn int_of(self) -> int {
        self as int
    }

    proof fn lemma_bounds(x: Self) {
    }

    fn to_unsigned(self) -> (r: u64) {
        self as u64
    }

    fn from_unsigned(u: u64) -> (r: Self) {
        u as u8
    }

    fn unsigned_max() -> (r: u64) {
        0xff
    }

    fn is_wide() -> (r: bool) {
        false
    }

    fn less_than(&self, other: &Self) -> (r: bool) {
        *self < *other
    }
}

impl PrimitiveInteger for i8 {
    open spec fn modulus() -> nat {
        0x100
    }

    open spec fn min_int() -> int {
        -0x80
    }

    open spec fn int_of(self) -> int {
        self as int
    }

    proof fn lemma_bounds(x: Self) {
    }

    fn to_unsigned(self) -> (r: u64) {
        if self < 0 {
            (self as i16 + 0x100) as u64
        } else {
            self as u64
        }
    }

    fn from_unsigned(u: u64) -> (r: Self) {
        if u < 0x80 {
            u as i8
        } else {
            (u as i16 - 0x100) as i8
        }
    }

    fn unsigned_max() -> (r: u64) {
        0xff
    }

    fn is_wide() -> (r: bool) {
        false
    }

    fn less_than(&self, other: &Self) -> (r: bool) {
        *self < *other
    }
}

impl PrimitiveInteger for u16 {
    open spec fn modulus() -> nat {
        0x1_0000
    }

    open spec fn min_int() -> int {
        0
    }

    open spec fn int_of(self) -> int {
        self as int
    }

    proof fn lemma_bounds(x: Self) {
    }

    fn to_unsigned(self) -> (r: u64) {
        self as u64
    }

    fn from_unsigned(u: u64) -> (r: Self) {
        u as u16
    }

    fn unsigned_max() -> (r: u64) {
        0xffff
    }

    fn is_wide() -> (r: bool) {
        false
    }

    fn less_than(&self, other: &Self) -> (r: bool) {
        *self < *other
    }
}

impl PrimitiveInteger for u32 {
    open spec fn modulus() -> nat {
        0x1_0000_0000
    }

    open spec fn min_int() -> int {
        0
    }

    open spec fn int_of(self) -> int {
        self as int
    }

    proof fn lemma_bounds(x: Self) {
    }

    fn to_unsigned(self) -> (r: u64) {
        self as u64
    }

    fn from_unsigned(u: u64) -> (r: Self) {
        u as u32
    }

    fn unsigned_max() -> (r: u64) {
        0xffff_ffff
    }

    fn is_wide() -> (r: bool) {
        false
    }

    fn less_than(&self, other: &Self) -> (r: bool) {
        *self < *other
    }
}

impl PrimitiveInteger for u64 {
    open spec fn modulus() -> nat {
        0x1_0000_0000_0000_0000
    }

    open spec fn min_int() -> int {
        0
    }

    open spec fn int_of(self) -> int {
        self as int
    }

    proof fn lemma_bounds(x: Self) {
    }

    fn to_unsigned(self) -> (r: u64) {
        self as u64
    }

    fn from_unsigned(u: u64) -> (r: Self) {
        u as u64
    }

    fn unsigned_max() -> (r: u64) {
        0xffff_ffff_ffff_ffff
    }

    fn is_wide() -> (r: bool) {
        true
    }

    fn less_than(&self, other: &Self) -> (r: bool) {
        *self < *other
    }
}

impl PrimitiveInteger for i16 {
    open spec fn modulus() -> nat {
        0x1_0000
    }

    open spec fn min_int() -> int {
        -0x8000
    }

    open spec fn int_of(self) -> int {
        self as int
    }

    proof fn lemma_bounds(x: Self) {
    }

    fn to_unsigned(self) -> (r: u64) {
        if self < 0 {
            (self as i32 + 0x1_0000) as u64
        } else {
            self as u64
        }
    }

    fn from_unsigned(u: u64) -> (r: Self) {
        if u < 0x8000 {
            u as i16
        } else {
            (u as i32 - 0x1_0000) as i16
        }
    }

    fn unsigned_max() -> (r: u64) {
        0xffff
    }

    fn is_wide() -> (r: bool) {
        false
    }

    fn less_than(&self, other: &Self) -> (r: bool) {
        *self < *other
    }
}

impl PrimitiveInteger for i32 {
    open spec fn modulus() -> nat {
        0x1_0000_0000
    }

    open spec fn min_int() -> int {
        -0x8000_0000
    }

    open spec fn int_of(self) -> int {
        self as int
    }

    proof fn lemma_bounds(x: Self) {
    }

    fn to_unsigned(self) -> (r: u64) {
        if self < 0 {
            (self as i64 + 0x1_0000_0000) as u64
        } else {
            self as u64
        }
    }

    fn from_unsigned(u: u64) -> (r: Self) {
        if u < 0x8000_0000 {
            u as i32
        } else {
            (u as i64 - 0x1_0000_0000) as i32
        }
    }

    fn unsigned_max() -> (r: u64) {
        0xffff_ffff
    }

    fn is_wide() -> (r: bool) {
        false
    }

    fn less_than(&self, other: &Self) -> (r: bool) {
        *self < *other
    }
}

impl PrimitiveInteger for i64 {
    open spec fn modulus() -> nat {
        0x1_0000_0000_0000_0000
    }

    open spec fn min_int() -> int {
        -0x8000_0000_0000_0000
    }

    open spec fn int_of(self) -> int {
        self as int
    }

    proof fn lemma_bounds(x: Self) {
    }

    fn to_unsigned(self) -> (r: u64) {
        if self < 0 {
            u64::MAX - (-(self + 1)) as u64
        } else {
            self as u64
        }
    }

    fn from_unsigned(u: u64) -> (r: Self) {
        if u <= i64::MAX as u64 {
            u as i64
        } else {
            -((u64::MAX - u) as i64) - 1
        }
    }

    fn unsigned_max() -> (r: u64) {
        u64::MAX
    }

    fn is_wide() -> (r: bool) {
        true
    }

    fn less_than(&self, other: &Self) -> (r: bool) {
        *self < *other
    }
}

impl PrimitiveInteger for usize {
    open spec fn modulus() -> nat {
        usize::MAX as nat + 1
    }

    open spec fn min_int() -> int {
        0
    }

    open spec fn int_of(self) -> int {
        self as int
    }

    proof fn lemma_bounds(x: Self) {
    }

    fn to_unsigned(self) -> (r: u64) {
        proof {
            lemma_small_mod(self as nat, Self::modulus());
        }
        self as u64
    }

    fn from_unsigned(u: u64) -> (r: Self) {
        proof {
            lemma_small_mod(u as nat, Self::modulus());
        }
        u as usize
    }

    fn unsigned_max() -> (r: u64) {
        usize::MAX as u64
    }

    fn is_wide() -> (r: bool) {
        usize::MAX as u64 > 0xffff_ffff
    }

    fn less_than(&self, other: &Self) -> (r: bool) {
        *self < *other
    }
}

impl PrimitiveInteger for isize {
    open spec fn modulus() -> nat {
        usize::MAX as nat + 1
    }

    open spec fn min_int() -> int {
        isize::MIN as int
    }

    open spec fn int_of(self) -> int {
        self as int
    }

    proof fn lemma_bounds(x: Self) {
    }

    fn to_unsigned(self) -> (r: u64) {
        if self < 0 {
            (usize::MAX - (-(self + 1)) as usize) as u64
        } else {
            self as u64
        }
    }

    fn from_unsigned(u: u64) -> (r: Self) {
        if u <= isize::MAX as u64 {
            u as isize
        } else {
            -((usize::MAX as u64 - u) as isize) - 1
        }
    }

    fn unsigned_max() -> (r: u64) {
        usize::MAX as u64
    }

    fn is_wide() -> (r: bool) {
        usize::MAX as u64 > 0xffff_ffff
    }

    fn less_than(&self, other: &Self) -> (r: bool) {
        *self < *other
    }
}

} // verus!
