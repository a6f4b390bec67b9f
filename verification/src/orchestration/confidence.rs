//! How far a proposed move can be trusted, judged by how steady the two
//! providers' earnings have been.
//!
//! The steadier the earnings, the higher the confidence: with `v` the sum of
//! the two variances, it is `0.7 / (1 + sqrt(v)) + 0.3`, at most `0.99`.

use super::MetricsView;
use crate::fixed::{
    integer_root, least, lemma_root_at_least, lemma_root_exists, quotient, root, SCALE,
};
use crate::ledger::value_of;
use vstd::prelude::*;

verus! {

/// The highest confidence given: 0.99.
pub const CONFIDENCE_CAP: i64 = 990_000;

/// The confidence that remains however unsteady the earnings are: 0.3.
pub const CONFIDENCE_FLOOR: i64 = 300_000;

/// The part of the confidence that steadiness can earn: 0.7.
pub const CONFIDENCE_SPAN: i64 = 700_000;

/// The earnings that `history` records for the provider `name`, oldest first.
pub open spec fn series(history: Seq<MetricsView>, name: Seq<char>) -> Seq<i64>
    decreases history.len(),
{
    if history.len() == 0 {
        Seq::empty()
    } else {
        match value_of(history.last().earnings, name) {
            Some(v) => series(history.drop_last(), name).push(v),
            None => series(history.drop_last(), name),
        }
    }
}

/// The sum of a series.
pub open spec fn series_sum(xs: Seq<i64>) -> int
    decreases xs.len(),
{
    if xs.len() == 0 {
        0
    } else {
        series_sum(xs.drop_last()) + xs.last()
    }
}

/// The mean of a non-empty series, rounded toward zero.
pub open spec fn series_mean(xs: Seq<i64>) -> int {
    quotient(series_sum(xs), xs.len() as int)
}

/// The sum of the squared distances of the values of a series from `mean`.
pub open spec fn squared_spread(xs: Seq<i64>, mean: int) -> int
    decreases xs.len(),
{
    if xs.len() == 0 {
        0
    } else {
        squared_spread(xs.drop_last(), mean) + (xs.last() - mean) * (xs.last() - mean)
    }
}

/// The variance of a non-empty series about its mean, rounded down.
pub open spec fn variance(xs: Seq<i64>) -> int {
    squared_spread(xs, series_mean(xs)) / (xs.len() as int)
}

/// The confidence for earnings whose standard deviation is `deviation`.
pub open spec fn confidence_at(deviation: int) -> int {
    least(
        CONFIDENCE_CAP as int,
        (CONFIDENCE_SPAN * SCALE) / (SCALE + deviation) + CONFIDENCE_FLOOR,
    )
}

/// The confidence in a move between two providers with the given earnings
/// series: the neutral 0.7 if either has no earnings on record.
pub open spec fn confidence_of(from: Seq<i64>, to: Seq<i64>) -> int {
    if from.len() == 0 || to.len() == 0 {
        700_000
    } else {
        confidence_at(root(variance(from) + variance(to)))
    }
}

/// The confidence always lies between 0.3 and 0.99.
pub proof fn lemma_confidence_range(from: Seq<i64>, to: Seq<i64>)
    ensures
        CONFIDENCE_FLOOR <= confidence_of(from, to) <= CONFIDENCE_CAP,
{
    if from.len() > 0 && to.len() > 0 {
        lemma_spread_grows(from, series_mean(from), 0);
        lemma_spread_grows(to, series_mean(to), 0);
        let v = variance(from) + variance(to);
        assert(variance(from) >= 0 && variance(to) >= 0) by (nonlinear_arith)
            requires
                squared_spread(from, series_mean(from)) >= 0,
                squared_spread(to, series_mean(to)) >= 0,
                from.len() > 0,
                to.len() > 0,
                variance(from) == squared_spread(from, series_mean(from)) / (from.len() as int),
                variance(to) == squared_spread(to, series_mean(to)) / (to.len() as int),
        ;
        lemma_root_exists(v);
        let d = root(v);
        assert((CONFIDENCE_SPAN * SCALE) / (SCALE + d) >= 0) by (nonlinear_arith)
            requires
                d >= 0,
        ;
    }
}

/// The sum of `n` values lies within `n` times the range of one.
pub proof fn lemma_series_sum_bound(xs: Seq<i64>)
    ensures
        xs.len() * i64::MIN <= series_sum(xs) <= xs.len() * i64::MAX,
    decreases xs.len(),
{
    if xs.len() > 0 {
        lemma_series_sum_bound(xs.drop_last());
        assert((xs.len() - 1) * i64::MIN + i64::MIN == xs.len() * i64::MIN) by (nonlinear_arith);
        assert((xs.len() - 1) * i64::MAX + i64::MAX == xs.len() * i64::MAX) by (nonlinear_arith);
    }
}

/// The squared spread of a series is at least that of any of its prefixes,
/// and never negative.
pub proof fn lemma_spread_grows(xs: Seq<i64>, mean: int, k: int)
    requires
        0 <= k <= xs.len(),
    ensures
        0 <= squared_spread(xs.take(k), mean) <= squared_spread(xs, mean),
    decreases xs.len() - k,
{
    if k == xs.len() {
        assert(xs.take(k) == xs);
        lemma_spread_nonnegative(xs, mean);
    } else {
        lemma_spread_grows(xs, mean, k + 1);
        assert(xs.take(k + 1).drop_last() == xs.take(k));
        let d = xs.take(k + 1).last() - mean;
        assert(d * d >= 0) by (nonlinear_arith);
        lemma_spread_nonnegative(xs.take(k), mean);
    }
}

/// A squared spread is never negative.
pub proof fn lemma_spread_nonnegative(xs: Seq<i64>, mean: int)
    ensures
        0 <= squared_spread(xs, mean),
    decreases xs.len(),
{
    if xs.len() > 0 {
        lemma_spread_nonnegative(xs.drop_last(), mean);
        let d = xs.last() - mean;
        assert(d * d >= 0) by (nonlinear_arith);
    }
}

/// The least variance that `measure` reports as beyond measure: with it the
/// standard deviation is so large that the confidence is at its floor.
pub open spec fn beyond_measure() -> int {
    0x1_0000_0000_0000_0000_0000
}

/// The longest series that `measure` takes: more values than a machine holds.
pub const SERIES_LIMIT: u64 = 0x1_0000_0000_0000;

/// The variance of a non-empty series, or `None` if it is
/// `beyond_measure()` or more.
pub fn measure(xs: &Vec<i64>) -> (r: Option<u128>)
    requires
        0 < xs@.len() <= SERIES_LIMIT,
    ensures
        match r {
            Some(v) => v == variance(xs@),
            None => variance(xs@) >= beyond_measure(),
        },
{
    let n = xs.len();
    let mut sum: i128 = 0;
    let mut i: usize = 0;
    while i < n
        invariant
            n == xs@.len(),
            n <= SERIES_LIMIT,
            i <= n,
            sum == series_sum(xs@.take(i as int)),
        decreases n - i,
    {
        proof {
            lemma_series_sum_bound(xs@.take(i as int));
            assert(xs@.take(i + 1).drop_last() == xs@.take(i as int));
            assert(i * i64::MIN >= 0x1_0000_0000_0000 * i64::MIN && i * i64::MAX
                <= 0x1_0000_0000_0000 * i64::MAX) by (nonlinear_arith)
                requires
                    0 <= i <= 0x1_0000_0000_0000,
            ;
        }
        sum = sum + xs[i] as i128;
        i += 1;
    }
    proof {
        assert(xs@.take(n as int) == xs@);
        lemma_series_sum_bound(xs@);
        let s = sum as int;
        let m = n as int;
        if s >= 0 {
            assert(0 <= s / m <= i64::MAX) by (nonlinear_arith)
                requires
                    0 <= s <= m * i64::MAX,
                    m > 0,
            ;
        } else {
            assert(0 <= (-s) / m <= -(i64::MIN as int)) by (nonlinear_arith)
                requires
                    0 < -s <= m * (-(i64::MIN as int)),
                    m > 0,
            ;
        }
    }
    let mean: i128 = sum / (n as i128);
    let ghost mu = series_mean(xs@);
    assert(mean == mu);
    let mut spread: u128 = 0;
    let mut k: usize = 0;
    while k < n
        invariant
            n == xs@.len(),
            0 < n <= SERIES_LIMIT,
            k <= n,
            mean == mu,
            mu == series_mean(xs@),
            i64::MIN <= mean <= i64::MAX,
            spread == squared_spread(xs@.take(k as int), mu),
        decreases n - k,
    {
        let d: i128 = xs[k] as i128 - mean;
        let a: u128 = if d < 0 {
            (-d) as u128
        } else {
            d as u128
        };
        assert(a * a <= 0xffff_ffff_ffff_ffff_ffff_ffff_ffff_ffff && a * a == d * d)
            by (nonlinear_arith)
            requires
                0 <= a <= 0xffff_ffff_ffff_ffff,
                a == d || a == -d,
        ;
        let square: u128 = a * a;
        proof {
            assert(xs@.take(k + 1).drop_last() == xs@.take(k as int));
        }
        if square > u128::MAX - spread {
            proof {
                lemma_spread_grows(xs@, mu, k + 1);
                let total = squared_spread(xs@, mu);
                assert(total / (n as int) >= beyond_measure()) by (nonlinear_arith)
                    requires
                        total >= 0x1_0000_0000_0000_0000_0000_0000_0000_0000,
                        0 < n <= 0x1_0000_0000_0000,
                        beyond_measure() == 0x1_0000_0000_0000_0000_0000,
                ;
            }
            return None;
        }
        spread = spread + square;
        k += 1;
    }
    assert(xs@.take(n as int) == xs@);
    Some(spread / (n as u128))
}

/// The confidence in a move between two providers with the given earnings series.
pub fn rate_confidence(from: &Vec<i64>, to: &Vec<i64>) -> (r: i64)
    requires
        from@.len() <= SERIES_LIMIT,
        to@.len() <= SERIES_LIMIT,
    ensures
        r == confidence_of(from@, to@),
        CONFIDENCE_FLOOR <= r <= CONFIDENCE_CAP,
{
    proof {
        lemma_confidence_range(from@, to@);
    }
    if from.len() == 0 || to.len() == 0 {
        return 700_000;
    }
    let sum: Option<u128> = match (measure(from), measure(to)) {
        (Some(a), Some(b)) => if a > u128::MAX - b {
            None
        } else {
            Some(a + b)
        },
        _ => None,
    };
    proof {
        lemma_spread_grows(from@, series_mean(from@), 0);
        lemma_spread_grows(to@, series_mean(to@), 0);
        assert(variance(from@) >= 0 && variance(to@) >= 0) by (nonlinear_arith)
            requires
                squared_spread(from@, series_mean(from@)) >= 0,
                squared_spread(to@, series_mean(to@)) >= 0,
                from@.len() > 0,
                to@.len() > 0,
                variance(from@) == squared_spread(from@, series_mean(from@)) / (from@.len() as int),
                variance(to@) == squared_spread(to@, series_mean(to@)) / (to@.len() as int),
        ;
    }
    match sum {
        Some(v) => {
            let deviation = integer_root(v);
            let earned: u128 = 700_000_000_000u128 / (1_000_000u128 + deviation);
            assert(earned <= 700_000) by (nonlinear_arith)
                requires
                    earned == 700_000_000_000int / (1_000_000 + deviation),
                    deviation >= 0,
            ;
            let c: u128 = earned + 300_000;
            if c > 990_000 {
                990_000
            } else {
                c as i64
            }
        },
        None => {
            proof {
                let v = variance(from@) + variance(to@);
                assert(v >= beyond_measure());
                assert(0x100_0000_0000int * 0x100_0000_0000int == 0x1_0000_0000_0000_0000_0000)
                    by (nonlinear_arith);
                lemma_root_at_least(v, 0x100_0000_0000);
                let d = root(v);
                assert((CONFIDENCE_SPAN * SCALE) / (SCALE + d) == 0) by (nonlinear_arith)
                    requires
                        d >= 0x100_0000_0000,
                        CONFIDENCE_SPAN * SCALE == 700_000_000_000,
                        SCALE == 1_000_000,
                ;
            }
            300_000
        },
    }
}

} // verus!
