//! Fixed-point arithmetic.
//!
//! Every quantity of the orchestration core (currency per hour, percentages,
//! confidences, severities) is a whole number of millionths of its unit, held
//! in an `i64`. Intermediate results are computed in `i128` and narrowed back.

use vstd::prelude::*;

verus! {

/// One whole unit: `1.0` is `SCALE` millionths.
pub const SCALE: i64 = 1_000_000;

/// One hundred whole units, the full share when the unit is a percentage.
pub const HUNDRED: i64 = 100_000_000;

/// Whether `v` can be held in an `i64`.
pub open spec fn fits_i64(v: int) -> bool {
    i64::MIN <= v <= i64::MAX
}

/// The absolute value of `v`.
pub open spec fn magnitude(v: int) -> int {
    if v >= 0 {
        v
    } else {
        -v
    }
}

/// The quotient of `a` by `b` rounded toward zero, for a positive `b`.
pub open spec fn quotient(a: int, b: int) -> int {
    if a >= 0 {
        a / b
    } else {
        -((-a) / b)
    }
}

/// The smaller of two integers.
pub open spec fn least(a: int, b: int) -> int {
    if a <= b {
        a
    } else {
        b
    }
}

/// `a * b / d`, rounded toward zero: the product of two fixed-point numbers
/// when `d` is `SCALE`, a share of `a` when `b / d` is a fraction.
pub open spec fn scaled_product(a: int, b: int, d: int) -> int {
    quotient(a * b, d)
}

/// `v` as an `i64`, if it can be held in one.
pub open spec fn held(v: int) -> Option<i64> {
    if fits_i64(v) {
        Some(v as i64)
    } else {
        None
    }
}

/// Narrows a wide intermediate result: `None` exactly when it does not fit.
pub fn narrow(v: i128) -> (r: Option<i64>)
    ensures
        r == held(v as int),
{
    if v < -9_223_372_036_854_775_808i128 || v > 9_223_372_036_854_775_807i128 {
        None
    } else {
        Some(v as i64)
    }
}

/// The distance between two fixed-point numbers.
pub fn distance(a: i64, b: i64) -> (r: i128)
    ensures
        r == magnitude(a as int - b as int),
{
    let d: i128 = a as i128 - b as i128;
    if d >= 0 {
        d
    } else {
        -d
    }
}

/// The product of two `i64` values never leaves the `i128` range.
pub proof fn lemma_product_bound(a: int, b: int)
    requires
        fits_i64(a),
        fits_i64(b),
    ensures
        -0x4000_0000_0000_0000_0000_0000_0000_0000 <= a * b <= 0x4000_0000_0000_0000_0000_0000_0000_0000,
{
    assert(-0x4000_0000_0000_0000_0000_0000_0000_0000 <= a * b
        <= 0x4000_0000_0000_0000_0000_0000_0000_0000) by (nonlinear_arith)
        requires
            -0x8000_0000_0000_0000 <= a <= 0x8000_0000_0000_0000,
            -0x8000_0000_0000_0000 <= b <= 0x8000_0000_0000_0000,
    ;
}

/// `a * b / d` rounded toward zero, computed without overflow.
pub fn mul_div(a: i64, b: i64, d: i64) -> (r: i128)
    requires
        d > 0,
    ensures
        r == scaled_product(a as int, b as int, d as int),
{
    proof {
        lemma_product_bound(a as int, b as int);
    }
    let p: i128 = (a as i128) * (b as i128);
    p / (d as i128)
}

/// Whether `r` is the integer square root of `v`: the largest integer whose
/// square does not exceed `v`.
pub open spec fn is_root(v: int, r: int) -> bool {
    0 <= r && r * r <= v < (r + 1) * (r + 1)
}

/// The integer square root of a non-negative `v`.
pub open spec fn root(v: int) -> int {
    choose|r: int| is_root(v, r)
}

/// A number has at most one integer square root.
pub proof fn lemma_root_unique(v: int, a: int, b: int)
    requires
        is_root(v, a),
        is_root(v, b),
    ensures
        a == b,
{
    if a < b {
        assert((a + 1) * (a + 1) <= b * b) by (nonlinear_arith)
            requires
                0 <= a,
                a + 1 <= b,
        ;
    } else if b < a {
        assert((b + 1) * (b + 1) <= a * a) by (nonlinear_arith)
            requires
                0 <= b,
                b + 1 <= a,
        ;
    }
}

/// Every non-negative number has an integer square root.
pub proof fn lemma_root_exists(v: int)
    requires
        v >= 0,
    ensures
        is_root(v, root(v)),
    decreases v,
{
    if v == 0 {
        assert(is_root(0, 0));
    } else {
        lemma_root_exists(v - 1);
        let r = root(v - 1);
        if (r + 1) * (r + 1) <= v {
            assert((r + 2) * (r + 2) > v) by (nonlinear_arith)
                requires
                    0 <= r,
                    v - 1 < (r + 1) * (r + 1),
            ;
            assert(is_root(v, r + 1));
        } else {
            assert(is_root(v, r));
        }
    }
}

/// The root of a number that is at least `b * b` is at least `b`.
pub proof fn lemma_root_at_least(v: int, b: int)
    requires
        0 <= b,
        b * b <= v,
    ensures
        root(v) >= b,
{
    assert(b * b >= 0) by (nonlinear_arith);
    lemma_root_exists(v);
    let r = root(v);
    if r < b {
        assert((r + 1) * (r + 1) <= b * b) by (nonlinear_arith)
            requires
                0 <= r,
                r + 1 <= b,
        ;
    }
}

/// The integer square root of `v`.
pub fn integer_root(v: u128) -> (r: u128)
    ensures
        r == root(v as int),
        is_root(v as int, r as int),
        r < 0x1_0000_0000_0000_0000,
{
    let mut lo: u128 = 0;
    let mut hi: u128 = 0x1_0000_0000_0000_0000;
    assert(0x1_0000_0000_0000_0000int * 0x1_0000_0000_0000_0000int > v) by (nonlinear_arith)
        requires
            v <= 0xffff_ffff_ffff_ffff_ffff_ffff_ffff_ffff,
    ;
    while hi - lo > 1
        invariant
            lo < hi <= 0x1_0000_0000_0000_0000,
            lo * lo <= v < hi * hi,
        decreases hi - lo,
    {
        let mid: u128 = lo + (hi - lo) / 2;
        assert(mid * mid <= 0xffff_ffff_ffff_ffff_ffff_ffff_ffff_ffff) by (nonlinear_arith)
            requires
                0 <= mid <= 0xffff_ffff_ffff_ffff,
        ;
        if mid * mid <= v {
            lo = mid;
        } else {
            hi = mid;
        }
    }
    proof {
        assert(hi == lo + 1);
        assert(is_root(v as int, lo as int));
        lemma_root_exists(v as int);
        lemma_root_unique(v as int, lo as int, root(v as int));
    }
    lo
}

} // verus!
