//! The arithmetic that the overlay's geometry is written in.
//!
//! Regions, pointers and cursor shading are computed in logical pixels, and a
//! logical pixel is rarely a whole one. The geometry is therefore generic over
//! the number type: its functions say, operation by operation, what they
//! compute, and hold for every type that can add, compare and round.
//! Whole pixels (`i64`, saturating at the ends of the range) come with the
//! library.

use vstd::prelude::*;

verus! {

/// A number that the geometry can compute with.
///
/// Each operation is a function of its operands; the matching `spec_` function
/// names its result, so that contracts can speak of it.
/// An implementation from outside this library has to keep to that: the
/// contracts of the geometry rest on it.
pub trait Coord: Copy + Sized {
    /// The number nearest to the integer `n`.
    spec fn spec_int(n: i64) -> Self;

    /// `self + other`.
    spec fn spec_plus(self, other: Self) -> Self;

    /// `self - other`.
    spec fn spec_minus(self, other: Self) -> Self;

    /// `self * other`.
    spec fn spec_times(self, other: Self) -> Self;

    /// `self / other`.
    spec fn spec_over(self, other: Self) -> Self;

    /// The larger of the two.
    spec fn spec_larger(self, other: Self) -> Self;

    /// `|self|`.
    spec fn spec_magnitude(self) -> Self;

    /// The square root.
    spec fn spec_root(self) -> Self;

    /// `self < other`.
    spec fn spec_below(self, other: Self) -> bool;

    /// `self <= other`.
    spec fn spec_at_most(self, other: Self) -> bool;

    /// Numerical equality.
    spec fn spec_equals(self, other: Self) -> bool;

    /// Are the two written down alike?
    spec fn spec_reads_as(self, other: Self) -> bool;

    /// The nearest integer, halves away from zero, saturating.
    spec fn spec_rounded(self) -> i32;

    /// The integer part, saturating.
    spec fn spec_truncated(self) -> i32;

    /// The number nearest to the integer `n`.
    fn from_int(n: i64) -> (r: Self)
        ensures
            r == Self::spec_int(n),
    ;

    /// `self + other`.
    fn plus(self, other: Self) -> (r: Self)
        ensures
            r == self.spec_plus(other),
    ;

    /// `self - other`.
    fn minus(self, other: Self) -> (r: Self)
        ensures
            r == self.spec_minus(other),
    ;

    /// `self * other`.
    fn times(self, other: Self) -> (r: Self)
        ensures
            r == self.spec_times(other),
    ;

    /// `self / other`.
    fn over(self, other: Self) -> (r: Self)
        ensures
            r == self.spec_over(other),
    ;

    /// The larger of the two.
    fn larger(self, other: Self) -> (r: Self)
        ensures
            r == self.spec_larger(other),
    ;

    /// `|self|`.
    fn magnitude(self) -> (r: Self)
        ensures
            r == self.spec_magnitude(),
    ;

    /// The square root.
    fn root(self) -> (r: Self)
        ensures
            r == self.spec_root(),
    ;

    /// `self < other`.
    fn below(self, other: Self) -> (r: bool)
        ensures
            r == self.spec_below(other),
    ;

    /// `self <= other`.
    fn at_most(self, other: Self) -> (r: bool)
        ensures
            r == self.spec_at_most(other),
    ;

    /// Numerical equality.
    fn equals(self, other: Self) -> (r: bool)
        ensures
            r == self.spec_equals(other),
    ;

    /// Are the two written down alike?
    fn reads_as(self, other: Self) -> (r: bool)
        ensures
            r == self.spec_reads_as(other),
    ;

    /// The nearest integer, halves away from zero, saturating.
    fn rounded(self) -> (r: i32)
        ensures
            r == self.spec_rounded(),
    ;

    /// The integer part, saturating.
    fn truncated(self) -> (r: i32)
        ensures
            r == self.spec_truncated(),
    ;
}

/// `x` held between `lo` and `hi`.
pub open spec fn clamped<T: Coord>(x: T, lo: T, hi: T) -> T {
    if x.spec_below(lo) {
        lo
    } else if hi.spec_below(x) {
        hi
    } else {
        x
    }
}

/// Hold `x` between `lo` and `hi`.
pub fn clamp<T: Coord>(x: T, lo: T, hi: T) -> (r: T)
    ensures
        r == clamped(x, lo, hi),
{
    if x.below(lo) {
        lo
    } else if hi.below(x) {
        hi
    } else {
        x
    }
}

/// Is `x` ordered at all? A value that does not even reach itself is no number.
pub open spec fn is_number<T: Coord>(x: T) -> bool {
    x.spec_at_most(x)
}

/// What the laws of the geometry need of the order of a number type. Whole
/// pixels meet it, and so do floating-point numbers, whose only values that are
/// no numbers are the NaNs.
pub open spec fn is_ordered<T: Coord>() -> bool {
    &&& forall|n: i64| is_number(#[trigger] T::spec_int(n))
    &&& forall|a: T, b: T| #[trigger] a.spec_at_most(b) ==> is_number(a) && is_number(b)
    &&& forall|a: T, b: T, c: T|
        #[trigger] a.spec_at_most(b) && #[trigger] b.spec_at_most(c) ==> a.spec_at_most(c)
    &&& forall|a: T, b: T| #[trigger] a.spec_below(b) ==> a.spec_at_most(b)
    &&& forall|a: T, b: T|
        is_number(a) && is_number(b) && !#[trigger] a.spec_below(b) ==> b.spec_at_most(a)
    &&& forall|a: T, b: T|
        #[trigger] a.spec_equals(b) ==> a.spec_at_most(b) && b.spec_at_most(a)
    &&& forall|a: T, b: T| is_number(b) ==> b.spec_at_most(#[trigger] a.spec_larger(b))
    &&& forall|a: T, b: T| b.spec_at_most(a) ==> (#[trigger] a.spec_larger(b)).spec_at_most(a)
}

/// Is `x` from `lo` to `hi`, if it is a number?
pub open spec fn between<T: Coord>(x: T, lo: T, hi: T) -> bool {
    is_number(x) ==> lo.spec_at_most(x) && x.spec_at_most(hi)
}

/// Whole pixels are ordered, and each of them is a number.
pub proof fn law_whole_pixels_are_ordered()
    ensures
        is_ordered::<i64>(),
        forall|x: i64| is_number(x),
{
}

/// Clamping leads between the bounds, for every number type that is ordered; a
/// value that is no number stays as it is.
pub proof fn law_clamped_is_between<T: Coord>(x: T, lo: T, hi: T)
    requires
        is_ordered::<T>(),
        lo.spec_at_most(hi),
    ensures
        between(clamped(x, lo, hi), lo, hi),
        is_number(clamped(x, lo, hi)) ==> is_number(x),
{
}

/// The quotient `num / den` of two integers.
pub open spec fn ratio<T: Coord>(num: i64, den: i64) -> T {
    T::spec_int(num).spec_over(T::spec_int(den))
}

/// The quotient `num / den` of two integers.
pub fn from_ratio<T: Coord>(num: i64, den: i64) -> (r: T)
    ensures
        r == ratio::<T>(num, den),
{
    T::from_int(num).over(T::from_int(den))
}

/// The `i64` nearest to `n`.
pub open spec fn saturated(n: int) -> i64 {
    if n < i64::MIN {
        i64::MIN
    } else if n > i64::MAX {
        i64::MAX
    } else {
        n as i64
    }
}

/// The `i32` nearest to `n`.
pub open spec fn saturated_i32(n: int) -> i32 {
    if n < i32::MIN {
        i32::MIN
    } else if n > i32::MAX {
        i32::MAX
    } else {
        n as i32
    }
}

/// `|n|`.
pub open spec fn absolute(n: int) -> int {
    if n < 0 {
        -n
    } else {
        n
    }
}

/// `a / b` with the fraction cut off.
pub open spec fn quotient(a: int, b: int) -> int
    recommends
        b != 0,
{
    if (a < 0) == (b < 0) {
        absolute(a) / absolute(b)
    } else {
        -(absolute(a) / absolute(b))
    }
}

/// Is `r` the integer part of the square root of `n`?
pub open spec fn is_floor_root(n: int, r: int) -> bool {
    0 <= r && r * r <= n < (r + 1) * (r + 1)
}

fn saturate(n: i128) -> (r: i64)
    ensures
        r == saturated(n as int),
{
    if n < -0x8000_0000_0000_0000i128 {
        i64::MIN
    } else if n > 0x7fff_ffff_ffff_ffffi128 {
        i64::MAX
    } else {
        n as i64
    }
}

fn saturate_i32(n: i64) -> (r: i32)
    ensures
        r == saturated_i32(n as int),
{
    if n < -0x8000_0000i64 {
        i32::MIN
    } else if n > 0x7fff_ffffi64 {
        i32::MAX
    } else {
        n as i32
    }
}

fn unsigned(n: i64) -> (r: u64)
    ensures
        r == absolute(n as int),
{
    if n < 0 {
        (-(n as i128)) as u64
    } else {
        n as u64
    }
}

proof fn lemma_floor_root_unique(n: int, a: int, b: int)
    requires
        is_floor_root(n, a),
        is_floor_root(n, b),
    ensures
        a == b,
{
    if a < b {
        assert((a + 1) * (a + 1) <= b * b) by (nonlinear_arith)
            requires
                0 <= a,
                a + 1 <= b,
        ;
    } else if b < a {
        assert((b + 1) * (b + 1) <= a * a) by (nonlinear_arith)
            requires
                0 <= b,
                b + 1 <= a,
        ;
    }
}

/// The integer part of the square root of `n`.
fn floor_root(n: u64) -> (r: u64)
    requires
        n <= i64::MAX,
    ensures
        is_floor_root(n as int, r as int),
        r <= i64::MAX,
{
    let mut lo: u64 = 0;
    let mut hi: u64 = 3_037_000_500;
    assert(3_037_000_500int * 3_037_000_500int > i64::MAX);
    while hi - lo > 1
        invariant
            lo < hi <= 3_037_000_500,
            lo * lo <= n < hi * hi,
            n <= i64::MAX,
        decreases hi - lo,
    {
        let mid: u64 = lo + (hi - lo) / 2;
        assert(mid * mid <= 3_037_000_500 * 3_037_000_500) by (nonlinear_arith)
            requires
                0 <= mid <= 3_037_000_500,
        ;
        if mid * mid <= n {
            lo = mid;
        } else {
            hi = mid;
        }
    }
    lo
}

/// Whole pixels. Results that leave the range stop at its end; a quotient by
/// zero does so too, with the sign of the dividend.
impl Coord for i64 {
    open spec fn spec_int(n: i64) -> i64 {
        n
    }

    open spec fn spec_plus(self, other: i64) -> i64 {
        saturated(self + other)
    }

    open spec fn spec_minus(self, other: i64) -> i64 {
        saturated(self - other)
    }

    open spec fn spec_times(self, other: i64) -> i64 {
        saturated(self * other)
    }

    open spec fn spec_over(self, other: i64) -> i64 {
        if other != 0 {
            saturated(quotient(self as int, other as int))
        } else if self > 0 {
            i64::MAX
        } else if self < 0 {
            i64::MIN
        } else {
            0
        }
    }

    open spec fn spec_larger(self, other: i64) -> i64 {
        if self < other {
            other
        } else {
            self
        }
    }

    open spec fn spec_magnitude(self) -> i64 {
        saturated(absolute(self as int))
    }

    open spec fn spec_root(self) -> i64 {
        if self < 0 {
            0
        } else {
            choose|r: i64| is_floor_root(self as int, r as int)
        }
    }

    open spec fn spec_below(self, other: i64) -> bool {
        self < other
    }

    open spec fn spec_at_most(self, other: i64) -> bool {
        self <= other
    }

    open spec fn spec_equals(self, other: i64) -> bool {
        self == other
    }

    open spec fn spec_reads_as(self, other: i64) -> bool {
        self == other
    }

    open spec fn spec_rounded(self) -> i32 {
        saturated_i32(self as int)
    }

    open spec fn spec_truncated(self) -> i32 {
        saturated_i32(self as int)
    }

    fn from_int(n: i64) -> (r: i64) {
        n
    }

    fn plus(self, other: i64) -> (r: i64) {
        saturate(self as i128 + other as i128)
    }

    fn minus(self, other: i64) -> (r: i64) {
        saturate(self as i128 - other as i128)
    }

    fn times(self, other: i64) -> (r: i64) {
        let (a, b) = (self as i128, other as i128);
        assert(-0x4000_0000_0000_0000_0000_0000_0000_0000 <= a * b
            <= 0x4000_0000_0000_0000_0000_0000_0000_0000) by (nonlinear_arith)
            requires
                -0x8000_0000_0000_0000 <= a <= 0x7fff_ffff_ffff_ffff,
                -0x8000_0000_0000_0000 <= b <= 0x7fff_ffff_ffff_ffff,
        ;
        saturate(a * b)
    }

    fn over(self, other: i64) -> (r: i64) {
        if other == 0 {
            if self > 0 {
                i64::MAX
            } else if self < 0 {
                i64::MIN
            } else {
                0
            }
        } else {
            let (a, b) = (unsigned(self), unsigned(other));
            let q: i128 = (a / b) as i128;
            if (self < 0) == (other < 0) {
                saturate(q)
            } else {
                saturate(-q)
            }
        }
    }

    fn larger(self, other: i64) -> (r: i64) {
        if self < other {
            other
        } else {
            self
        }
    }

    fn magnitude(self) -> (r: i64) {
        saturate(unsigned(self) as i128)
    }

    fn root(self) -> (r: i64) {
        if self < 0 {
            0
        } else {
            let r: i64 = floor_root(self as u64) as i64;
            proof {
                assert(is_floor_root(self as int, r as int));
                lemma_floor_root_unique(self as int, r as int, self.spec_root() as int);
            }
            r
        }
    }

    fn below(self, other: i64) -> (r: bool) {
        self < other
    }

    fn at_most(self, other: i64) -> (r: bool) {
        self <= other
    }

    fn equals(self, other: i64) -> (r: bool) {
        self == other
    }

    fn reads_as(self, other: i64) -> (r: bool) {
        self == other
    }

    fn rounded(self) -> (r: i32) {
        saturate_i32(self)
    }

    fn truncated(self) -> (r: i32) {
        saturate_i32(self)
    }
}

/// Clamping changes only what is out of bounds: a value below the lower bound
/// becomes that bound, one above the upper bound becomes that one, and any
/// other stays.
pub proof fn law_clamped_picks_the_bound<T: Coord>(x: T, lo: T, hi: T)
    ensures
        x.spec_below(lo) ==> clamped(x, lo, hi) == lo,
        !x.spec_below(lo) && hi.spec_below(x) ==> clamped(x, lo, hi) == hi,
        !x.spec_below(lo) && !hi.spec_below(x) ==> clamped(x, lo, hi) == x,
{
}

/// A ratio is the quotient of the two integers.
pub proof fn law_ratio_is_a_quotient<T: Coord>(num: i64, den: i64)
    ensures
        ratio::<T>(num, den) == T::spec_int(num).spec_over(T::spec_int(den)),
{
}

/// Division with the fraction cut off: the remainder is smaller than the
/// divisor and has the sign of the dividend.
pub proof fn law_quotient_cuts_off(a: int, b: int)
    requires
        b != 0,
    ensures
        ({
            let rest = a - quotient(a, b) * b;
            &&& a >= 0 ==> 0 <= rest < absolute(b)
            &&& a <= 0 ==> -absolute(b) < rest <= 0
        }),
{
    let (m, n) = (absolute(a), absolute(b));
    vstd::arithmetic::div_mod::lemma_fundamental_div_mod(m, n);
    vstd::arithmetic::div_mod::lemma_mod_bound(m, n);
    let q = m / n;
    assert(q * n == n * q && q * (-n) == -(n * q) && (-q) * n == -(n * q) && (-q) * (-n) == n * q)
        by (nonlinear_arith);
}

/// Whole pixels: sums, differences and products are exact where they fit and
/// stop at the end of the range where they do not.
pub proof fn law_whole_pixels_saturate(a: i64, b: i64, n: int)
    ensures
        i64::MIN <= n <= i64::MAX ==> saturated(n) == n,
        n > i64::MAX ==> saturated(n) == i64::MAX,
        n < i64::MIN ==> saturated(n) == i64::MIN,
        a.spec_plus(b) == saturated(a + b),
        a.spec_minus(b) == saturated(a - b),
        a.spec_times(b) == saturated(a * b),
        a.spec_larger(b) >= a && a.spec_larger(b) >= b,
        a.spec_larger(b) == a || a.spec_larger(b) == b,
        a.spec_below(b) <==> a < b,
        a.spec_at_most(b) <==> a <= b,
        a.spec_equals(b) <==> a == b,
        a.spec_reads_as(b) <==> a == b,
        a >= 0 ==> a.spec_magnitude() == a,
        i64::MIN < a < 0 ==> a.spec_magnitude() == -a,
        i32::MIN <= a <= i32::MAX ==> a.spec_rounded() == a && a.spec_truncated() == a,
        b != 0 && (a != i64::MIN || b != -1) ==> a.spec_over(b) == quotient(a as int, b as int),
{
    if b != 0 && (a != i64::MIN || b != -1) {
        let (m, k) = (absolute(a as int), absolute(b as int));
        assert(0 <= m / k <= m) by (nonlinear_arith)
            requires
                0 <= m,
                1 <= k,
        ;
        if a == i64::MIN && b < 0 {
            assert(m / k <= m / 2) by (nonlinear_arith)
                requires
                    0 <= m,
                    2 <= k,
            ;
        }
    }
}

} // verus!
