//! Miscellaneous integer and range helpers.

use core::ops::Range;
use vstd::prelude::*;

verus! {

/// Whether `b` is a power of two.
pub open spec fn is_pow2(b: u64) -> bool {
    b > 0 && b & ((b - 1) as u64) == 0
}

/// The smallest multiple of `b` that is not below `a`.
pub open spec fn spec_align(a: int, b: int) -> int {
    ((a + b - 1) / b) * b
}

/// The largest multiple of `b` that is not above `a`.
pub open spec fn spec_align_down(a: int, b: int) -> int {
    (a / b) * b
}

/// The quotient of `a` by `b`, rounded up.
pub open spec fn spec_div_ceil(a: int, b: int) -> int {
    (a + b - 1) / b
}

/// Rounding up yields a multiple of `b` in `[a, a + b)`.
pub proof fn lemma_align_bounds(a: int, b: int)
    requires
        0 <= a,
        0 < b,
    ensures
        spec_align(a, b) % b == 0,
        a <= spec_align(a, b) < a + b,
{
    let q = (a + b - 1) / b;
    assert(q * b == b * q) by (nonlinear_arith);
    vstd::arithmetic::div_mod::lemma_fundamental_div_mod(a + b - 1, b);
    vstd::arithmetic::div_mod::lemma_mod_multiples_basic(q, b);
}

/// No multiple of `b` lies between `a` and `a` rounded up.
pub proof fn lemma_align_least(a: int, b: int, m: int)
    requires
        0 <= a,
        0 < b,
        m % b == 0,
        a <= m,
    ensures
        spec_align(a, b) <= m,
{
    lemma_align_bounds(a, b);
    let q = (a + b - 1) / b;
    let k = m / b;
    vstd::arithmetic::div_mod::lemma_fundamental_div_mod(m, b);
    assert(q * b == b * q) by (nonlinear_arith);
    if k < q {
        assert(b * k <= b * q - b) by (nonlinear_arith)
            requires
                k <= q - 1,
                b > 0,
        ;
    } else {
        assert(b * q <= b * k) by (nonlinear_arith)
            requires
                q <= k,
                b > 0,
        ;
    }
}

/// Rounding down yields a multiple of `b` in `(a - b, a]`.
pub proof fn lemma_align_down_bounds(a: int, b: int)
    requires
        0 <= a,
        0 < b,
    ensures
        spec_align_down(a, b) % b == 0,
        a - b < spec_align_down(a, b) <= a,
{
    let q = a / b;
    assert(q * b == b * q) by (nonlinear_arith);
    vstd::arithmetic::div_mod::lemma_fundamental_div_mod(a, b);
    vstd::arithmetic::div_mod::lemma_mod_multiples_basic(q, b);
}

/// The alignments that the driver uses are powers of two.
pub proof fn lemma_pow2_constants()
    ensures
        is_pow2(2),
        is_pow2(4),
        is_pow2(0x40),
        is_pow2(0x80),
        is_pow2(0x4000),
        is_pow2(0x8000),
{
    assert(2u64 & ((2u64 - 1) as u64) == 0 && 4u64 & ((4u64 - 1) as u64) == 0 && 0x40u64 & ((
        0x40u64 - 1) as u64) == 0 && 0x80u64 & ((0x80u64 - 1) as u64) == 0 && 0x4000u64 & ((
        0x4000u64 - 1) as u64) == 0 && 0x8000u64 & ((0x8000u64 - 1) as u64) == 0) by (bit_vector);
}

/// Aligns an integer up to a power of two.
pub fn align(a: u64, b: u64) -> (r: u64)
    requires
        is_pow2(b),
        a + b - 1 <= u64::MAX,
    ensures
        r == spec_align(a as int, b as int),
        r % b == 0,
        a <= r < a + b,
{
    proof {
        lemma_align_bounds(a as int, b as int);
    }
    let q = (a + (b - 1)) / b;
    assert(q * b == spec_align(a as int, b as int));
    q * b
}

/// Aligns an integer down to a power of two.
pub fn align_down(a: u64, b: u64) -> (r: u64)
    requires
        is_pow2(b),
    ensures
        r == spec_align_down(a as int, b as int),
        r % b == 0,
        a - b < r <= a,
{
    proof {
        lemma_align_down_bounds(a as int, b as int);
    }
    let q = a / b;
    assert(q * b == spec_align_down(a as int, b as int));
    q * b
}

/// Integer division rounding up.
pub fn div_ceil(a: u64, b: u64) -> (r: u64)
    requires
        b > 0,
        a + b - 1 <= u64::MAX,
    ensures
        r == spec_div_ceil(a as int, b as int),
{
    (a + (b - 1)) / b
}

/// Whether the half-open range holds no address.
pub open spec fn range_is_empty(r: Range<u64>) -> bool {
    r.start >= r.end
}

/// Whether address `x` lies in the half-open range.
pub open spec fn range_contains(r: Range<u64>, x: int) -> bool {
    r.start <= x < r.end
}

/// Whether two half-open ranges have an address in common.
pub open spec fn range_overlaps(a: Range<u64>, b: Range<u64>) -> bool {
    a.start < a.end && b.start < b.end && a.start < b.end && b.start < a.end
}

/// Whether every address of `b` lies in `a`, for a non-empty `a`.
pub open spec fn range_is_superset(a: Range<u64>, b: Range<u64>) -> bool {
    a.start < a.end && (b.start >= b.end || (a.start <= b.start && b.end <= a.end))
}

/// The number of addresses in a half-open range.
pub open spec fn range_len(r: Range<u64>) -> int {
    if r.start >= r.end {
        0
    } else {
        r.end - r.start
    }
}

/// Two ranges overlap exactly when some address lies in both, and a
/// non-empty range is a superset of another exactly when it holds each of
/// the other's addresses.
pub proof fn lemma_range_pointwise(a: Range<u64>, b: Range<u64>)
    ensures
        range_overlaps(a, b) <==> exists|x: int| #[trigger]
            range_contains(a, x) && range_contains(b, x),
        range_is_superset(a, b) <==> !range_is_empty(a) && forall|x: int| #[trigger]
            range_contains(b, x) ==> range_contains(a, x),
{
    if range_overlaps(a, b) {
        let x: int = if a.start >= b.start {
            a.start as int
        } else {
            b.start as int
        };
        assert(range_contains(a, x) && range_contains(b, x));
    }
    if !range_is_superset(a, b) && !range_is_empty(a) {
        let x: int = if b.start < a.start {
            b.start as int
        } else {
            b.end - 1
        };
        assert(range_contains(b, x) && !range_contains(a, x));
    }
}

/// Set-like queries on half-open address ranges.
pub trait RangeExt<T>: Sized {
    /// Whether the two ranges share an address.
    fn overlaps(&self, other: Self) -> bool;

    /// Whether `other` lies inside this (non-empty) range.
    fn is_superset(&self, other: Self) -> bool;

    /// The number of addresses in the range.
    fn range(&self) -> T;
}

impl RangeExt<u64> for Range<u64> {
    fn overlaps(&self, other: Self) -> (r: bool)
        ensures
            r == range_overlaps(*self, other),
    {
        let r = !(self.start >= self.end || other.start >= other.end || self.end <= other.start
            || other.end <= self.start);
        r
    }

    fn is_superset(&self, other: Self) -> (r: bool)
        ensures
            r == range_is_superset(*self, other),
    {
        let r = !(self.start >= self.end) && (other.start >= other.end || (other.start
            >= self.start && other.end <= self.end));
        r
    }

    fn range(&self) -> (r: u64)
        ensures
            r == range_len(*self),
    {
        if self.start >= self.end {
            0
        } else {
            self.end - self.start
        }
    }
}

} // verus!
