//! The optimizer: which moves of allocation between providers would raise
//! earnings, and the single plan it recommends.
//!
//! It keeps a rolling history of snapshots, used only to judge how steady a
//! provider's earnings are.

use super::confidence::{confidence_of, rate_confidence, series};
use super::{
    push_bounded, views, AggregatedMetrics, AllocationPlan, MetricsView, OpportunityView,
    OptimizationOpportunity, OrchestrationError, OrchestrationResult, PlanView,
};
use crate::clock::now_millis;
use crate::fixed::{
    distance, fits_i64, least, lemma_product_bound, magnitude, mul_div, narrow, quotient,
    scaled_product, HUNDRED, SCALE,
};
use crate::ledger::{
    amount_or, distinct_names, lemma_position_is, lemma_put_other, lemma_put_total, names, put,
    total, Ledger, StatusMap,
};
use vstd::prelude::*;
use vstd::string::*;

verus! {

/// How many snapshots the optimizer keeps.
pub const HISTORY_LIMIT: usize = 1000;

/// The confidence an opportunity must have to be acted on, and the one it is
/// given when a provider has no earnings on record: 0.7.
pub const NEUTRAL_CONFIDENCE: i64 = 700_000;

/// The thresholds of the optimizer.
#[derive(Debug, Clone, Copy, PartialEq, Eq, Structural)]
pub struct OptimizerConfig {
    /// The least improvement, in millionths of the currency unit per hour,
    /// that is worth a reallocation.
    pub min_improvement_threshold: i64,
    /// The least improvement relative to the source's rate, in millionths of a percent.
    pub min_improvement_percent: i64,
    /// The most allocation one reallocation may move, in millionths of a percent.
    pub max_allocation_change: i64,
    /// How many past hours an analysis considers.
    pub analysis_window_hours: u32,
}

impl Default for OptimizerConfig {
    fn default() -> (r: Self)
        ensures
            r.min_improvement_threshold == 250_000,
            r.min_improvement_percent == 5_000_000,
            r.max_allocation_change == 20_000_000,
            r.analysis_window_hours == 24,
    {
        OptimizerConfig {
            min_improvement_threshold: 250_000,
            min_improvement_percent: 5_000_000,
            max_allocation_change: 20_000_000,
            analysis_window_hours: 24,
        }
    }
}

/// What one provider is expected to earn at `rate` with the share it has in `allocation`.
pub open spec fn projected_share(
    rate: int,
    name: Seq<char>,
    allocation: Seq<(Seq<char>, i64)>,
) -> int {
    scaled_product(rate, amount_or(allocation, name, 0), HUNDRED as int)
}

/// The total that the providers in `rates` are expected to earn under
/// `allocation`: each rate times the provider's share, a provider without an
/// allocation counting for nothing.
pub open spec fn projected_earnings(
    rates: Seq<(Seq<char>, i64)>,
    allocation: Seq<(Seq<char>, i64)>,
) -> int
    decreases rates.len(),
{
    if rates.len() == 0 {
        0
    } else {
        projected_earnings(rates.drop_last(), allocation) + projected_share(
            rates.last().1 as int,
            rates.last().0,
            allocation,
        )
    }
}

/// Whether every provider's expected earnings, and their total, can be held.
pub open spec fn projection_fits(
    rates: Seq<(Seq<char>, i64)>,
    allocation: Seq<(Seq<char>, i64)>,
) -> bool {
    &&& forall|i: int|
        0 <= i < rates.len() ==> fits_i64(
            #[trigger] projected_share(rates[i].1 as int, rates[i].0, allocation),
        )
    &&& fits_i64(projected_earnings(rates, allocation))
}

/// The sum of `n` shares that each fit lies within `n` times the range of one.
pub proof fn lemma_projected_bound(rates: Seq<(Seq<char>, i64)>, allocation: Seq<(Seq<char>, i64)>)
    requires
        forall|i: int|
            0 <= i < rates.len() ==> fits_i64(
                #[trigger] projected_share(rates[i].1 as int, rates[i].0, allocation),
            ),
    ensures
        rates.len() * i64::MIN <= projected_earnings(rates, allocation) <= rates.len() * i64::MAX,
    decreases rates.len(),
{
    if rates.len() > 0 {
        let rest = rates.drop_last();
        assert forall|i: int| 0 <= i < rest.len() implies fits_i64(
            #[trigger] projected_share(rest[i].1 as int, rest[i].0, allocation),
        ) by {
            assert(rest[i] == rates[i]);
        }
        lemma_projected_bound(rest, allocation);
        let k = rates.len() - 1;
        assert(fits_i64(projected_share(rates[k].1 as int, rates[k].0, allocation)));
        assert((rates.len() - 1) * i64::MIN + i64::MIN == rates.len() * i64::MIN)
            by (nonlinear_arith);
        assert((rates.len() - 1) * i64::MAX + i64::MAX == rates.len() * i64::MAX)
            by (nonlinear_arith);
    }
}

/// Whether a reallocation should be executed: there is an opportunity, the
/// best one improves earnings by at least the threshold with a confidence of
/// at least 0.7, and the plan, if one is given, has a net benefit of at least
/// the threshold.
pub open spec fn worth_reallocating(
    config: OptimizerConfig,
    opportunities: Seq<OpportunityView>,
    plan: Option<PlanView>,
) -> bool {
    &&& opportunities.len() > 0
    &&& opportunities[0].earnings_improvement >= config.min_improvement_threshold
    &&& opportunities[0].confidence >= NEUTRAL_CONFIDENCE
    &&& match plan {
        Some(p) => p.net_benefit >= config.min_improvement_threshold,
        None => true,
    }
}

/// The names of the providers that `status` records as connected, in order.
pub open spec fn connected_names(status: Seq<(Seq<char>, bool)>) -> Seq<Seq<char>>
    decreases status.len(),
{
    if status.len() == 0 {
        Seq::empty()
    } else if status.last().1 {
        connected_names(status.drop_last()).push(status.last().0)
    } else {
        connected_names(status.drop_last())
    }
}

/// The slice of a provider's allocation that one move takes: a tenth of it,
/// at most `max_change`.
pub open spec fn moved_share(allocation: int, max_change: int) -> int {
    least(quotient(allocation, 10), max_change)
}

/// What moving a slice of the source's allocation to a provider that earns
/// `to_rate` instead of `from_rate` adds to the earnings per hour.
pub open spec fn improvement(from_rate: int, to_rate: int, from_allocation: int, max_change: int) -> int {
    quotient((to_rate - from_rate) * moved_share(from_allocation, max_change), HUNDRED as int)
}

/// Whether `gain`, taken as a percentage of `from_rate`, exceeds `percent`.
/// Of a source that earns nothing every positive gain is an unbounded percentage.
pub open spec fn relative_gain_exceeds(gain: int, from_rate: int, percent: int) -> bool {
    if from_rate > 0 {
        gain * HUNDRED > percent * from_rate
    } else if from_rate == 0 {
        gain > 0
    } else {
        gain * HUNDRED < percent * from_rate
    }
}

/// Whether a move between two providers is proposed: their rates differ by at
/// least 0.01, the source holds at least one percent, the target earns more,
/// and the improvement clears both the absolute and the relative threshold.
pub open spec fn worth_proposing(
    config: OptimizerConfig,
    from_rate: int,
    to_rate: int,
    from_allocation: int,
) -> bool {
    let gain = improvement(from_rate, to_rate, from_allocation, config.max_allocation_change as int);
    &&& magnitude(to_rate - from_rate) >= 10_000
    &&& from_allocation >= SCALE
    &&& to_rate > from_rate
    &&& gain > config.min_improvement_threshold
    &&& relative_gain_exceeds(gain, from_rate, config.min_improvement_percent as int)
}

/// The improvement of the move from `from` to `to` under the snapshot `m`.
pub open spec fn pair_gain(config: OptimizerConfig, m: MetricsView, from: Seq<char>, to: Seq<char>) -> int {
    improvement(
        amount_or(m.earnings, from, 0),
        amount_or(m.earnings, to, 0),
        amount_or(m.allocation, from, 0),
        config.max_allocation_change as int,
    )
}

/// Whether the move from `from` to `to` is proposed under the snapshot `m`.
pub open spec fn pair_proposed(config: OptimizerConfig, m: MetricsView, from: Seq<char>, to: Seq<char>) -> bool {
    worth_proposing(
        config,
        amount_or(m.earnings, from, 0),
        amount_or(m.earnings, to, 0),
        amount_or(m.allocation, from, 0),
    )
}

/// The opportunity that the move from `from` to `to` is, if it is proposed.
pub open spec fn proposal(
    config: OptimizerConfig,
    m: MetricsView,
    history: Seq<MetricsView>,
    from: Seq<char>,
    to: Seq<char>,
) -> Option<OpportunityView> {
    if pair_proposed(config, m, from, to) {
        Some(
            OpportunityView {
                from_protocol: from,
                to_protocol: to,
                current_rate: amount_or(m.earnings, from, 0) as i64,
                projected_rate: amount_or(m.earnings, to, 0) as i64,
                earnings_improvement: pair_gain(config, m, from, to) as i64,
                confidence: confidence_of(series(history, from), series(history, to)) as i64,
                complexity: 300_000,
            },
        )
    } else {
        None
    }
}

/// Whether the improvement of the move, if it is proposed, can be held.
pub open spec fn pair_fits(config: OptimizerConfig, m: MetricsView, from: Seq<char>, to: Seq<char>) -> bool {
    pair_proposed(config, m, from, to) ==> fits_i64(pair_gain(config, m, from, to))
}

/// The opportunities from the provider at index `i` of `names` to those at
/// the indices below `upto`, in order.
pub open spec fn row(
    config: OptimizerConfig,
    m: MetricsView,
    history: Seq<MetricsView>,
    names: Seq<Seq<char>>,
    i: int,
    upto: int,
) -> Seq<OpportunityView>
    decreases upto,
{
    if upto <= 0 {
        Seq::empty()
    } else {
        let rest = row(config, m, history, names, i, upto - 1);
        if upto - 1 == i {
            rest
        } else {
            match proposal(config, m, history, names[i], names[upto - 1]) {
                Some(o) => rest.push(o),
                None => rest,
            }
        }
    }
}

/// The opportunities from the providers at the indices below `upto` of
/// `names` to every other provider in `names`, source by source.
pub open spec fn candidates(
    config: OptimizerConfig,
    m: MetricsView,
    history: Seq<MetricsView>,
    names: Seq<Seq<char>>,
    upto: int,
) -> Seq<OpportunityView>
    decreases upto,
{
    if upto <= 0 {
        Seq::empty()
    } else {
        candidates(config, m, history, names, upto - 1) + row(
            config,
            m,
            history,
            names,
            upto - 1,
            names.len() as int,
        )
    }
}

/// `s` with `x` put behind the last opportunity that improves earnings at
/// least as much as `x` does.
pub open spec fn insert_ranked(s: Seq<OpportunityView>, x: OpportunityView) -> Seq<OpportunityView>
    decreases s.len(),
{
    if s.len() == 0 {
        seq![x]
    } else if s.last().earnings_improvement >= x.earnings_improvement {
        s.push(x)
    } else {
        insert_ranked(s.drop_last(), x).push(s.last())
    }
}

/// `s` ordered by improvement, best first; opportunities of equal
/// improvement keep the order they have in `s`.
pub open spec fn ranked(s: Seq<OpportunityView>) -> Seq<OpportunityView>
    decreases s.len(),
{
    if s.len() == 0 {
        Seq::empty()
    } else {
        insert_ranked(ranked(s.drop_last()), s.last())
    }
}

/// Whether `s` is ordered by improvement, best first.
pub open spec fn best_first(s: Seq<OpportunityView>) -> bool {
    forall|a: int, b: int|
        0 <= a < b < s.len() ==> s[a].earnings_improvement >= s[b].earnings_improvement
}

/// The opportunities that the snapshot `m` offers, best first: every ordered
/// pair of connected providers whose move is proposed.
pub open spec fn opportunities(
    config: OptimizerConfig,
    m: MetricsView,
    history: Seq<MetricsView>,
) -> Seq<OpportunityView> {
    let names = connected_names(m.status);
    ranked(candidates(config, m, history, names, names.len() as int))
}

/// Whether the improvement of every proposed move can be held.
pub open spec fn analysis_fits(config: OptimizerConfig, m: MetricsView) -> bool {
    let names = connected_names(m.status);
    forall|i: int, j: int|
        0 <= i < names.len() && 0 <= j < names.len() && i != j ==> #[trigger] pair_fits(
            config,
            m,
            names[i],
            names[j],
        )
}

/// Putting `x` at the start of the run of lesser opportunities that ends `s`
/// is ranking it into `s`.
pub proof fn lemma_insert_ranked_at(s: Seq<OpportunityView>, x: OpportunityView, p: int)
    requires
        0 <= p <= s.len(),
        forall|k: int| p <= k < s.len() ==> (#[trigger] s[k]).earnings_improvement < x.earnings_improvement,
        p > 0 ==> s[p - 1].earnings_improvement >= x.earnings_improvement,
    ensures
        insert_ranked(s, x) == s.insert(p, x),
    decreases s.len(),
{
    if s.len() == 0 {
        assert(seq![x] =~= s.insert(p, x));
    } else if s.last().earnings_improvement >= x.earnings_improvement {
        assert(p == s.len()) by {
            if p < s.len() {
                assert(s[s.len() - 1].earnings_improvement < x.earnings_improvement);
            }
        }
        assert(s.push(x) =~= s.insert(p, x));
    } else {
        let t = s.drop_last();
        assert(p <= t.len()) by {
            if p == s.len() {
                assert(s[p - 1] == s.last());
            }
        }
        assert forall|k: int| p <= k < t.len() implies (#[trigger] t[k]).earnings_improvement
            < x.earnings_improvement by {
            assert(t[k] == s[k]);
        }
        lemma_insert_ranked_at(t, x, p);
        assert(t.insert(p, x).push(s.last()) =~= s.insert(p, x));
    }
}

/// Ranking an opportunity into an ordered sequence keeps it ordered, adds one
/// element, and introduces no improvement below `bound` if `x` and `s` have none.
pub proof fn lemma_insert_ranked(s: Seq<OpportunityView>, x: OpportunityView, bound: int)
    requires
        best_first(s),
        x.earnings_improvement >= bound,
        forall|k: int| 0 <= k < s.len() ==> (#[trigger] s[k]).earnings_improvement >= bound,
    ensures
        best_first(insert_ranked(s, x)),
        insert_ranked(s, x).len() == s.len() + 1,
        forall|k: int|
            0 <= k < insert_ranked(s, x).len() ==> (#[trigger] insert_ranked(
                s,
                x,
            )[k]).earnings_improvement >= bound,
    decreases s.len(),
{
    if s.len() > 0 && s.last().earnings_improvement < x.earnings_improvement {
        let t = s.drop_last();
        let low = s.last().earnings_improvement as int;
        assert forall|k: int| 0 <= k < t.len() implies (#[trigger] t[k]).earnings_improvement
            >= low by {
            assert(t[k] == s[k]);
        }
        assert(best_first(t)) by {
            assert forall|a: int, b: int| 0 <= a < b < t.len() implies t[a].earnings_improvement
                >= t[b].earnings_improvement by {
                assert(t[a] == s[a] && t[b] == s[b]);
            }
        }
        lemma_insert_ranked(t, x, low);
        lemma_insert_ranked(t, x, bound);
    }
}

/// Ranking orders: the result is best first and as long as the input.
pub proof fn lemma_ranked(s: Seq<OpportunityView>)
    ensures
        best_first(ranked(s)),
        ranked(s).len() == s.len(),
    decreases s.len(),
{
    if s.len() > 0 {
        lemma_ranked(s.drop_last());
        lemma_insert_ranked(ranked(s.drop_last()), s.last(), i64::MIN as int);
    }
}

/// No opportunity is found without two connected providers.
pub proof fn lemma_needs_two_connected(config: OptimizerConfig, m: MetricsView, history: Seq<MetricsView>)
    requires
        connected_names(m.status).len() < 2,
    ensures
        opportunities(config, m, history) == Seq::<OpportunityView>::empty(),
{
    let names = connected_names(m.status);
    if names.len() == 1 {
        reveal_with_fuel(row, 2);
        reveal_with_fuel(candidates, 2);
        assert(row(config, m, history, names, 0, 1) == Seq::<OpportunityView>::empty());
        assert(candidates(config, m, history, names, 1) =~= Seq::<OpportunityView>::empty());
    }
}

/// The names of the providers that `status` records as connected, in order.
pub fn connected_providers(status: &StatusMap) -> (r: Vec<String>)
    ensures
        names(r@) == connected_names(status@),
{
    let n = status.len();
    let mut r: Vec<String> = Vec::new();
    let mut i: usize = 0;
    while i < n
        invariant
            n == status@.len(),
            i <= n,
            names(r@) == connected_names(status@.take(i as int)),
        decreases n - i,
    {
        proof {
            assert(status@.take(i + 1).drop_last() == status@.take(i as int));
        }
        if status.value_at(i) {
            let ghost before = names(r@);
            r.push(status.name_at(i).clone());
            assert(names(r@) =~= before.push(status@[i as int].0));
        }
        i += 1;
    }
    assert(status@.take(n as int) == status@);
    r
}

/// Orders opportunities by improvement, best first; opportunities of equal
/// improvement keep their order.
pub fn rank(found: &Vec<OptimizationOpportunity>) -> (r: Vec<OptimizationOpportunity>)
    ensures
        views(r@) == ranked(views(found@)),
        best_first(views(r@)),
{
    let ghost all = views(found@);
    let mut r: Vec<OptimizationOpportunity> = Vec::new();
    let mut i: usize = 0;
    assert(views(r@) =~= ranked(all.take(0)));
    while i < found.len()
        invariant
            i <= found@.len(),
            all == views(found@),
            views(r@) == ranked(all.take(i as int)),
        decreases found@.len() - i,
    {
        proof {
            assert(all.take(i + 1).drop_last() == all.take(i as int));
            lemma_ranked(all.take(i as int));
        }
        let x = found[i].clone();
        let mut p: usize = r.len();
        while p > 0 && r[p - 1].earnings_improvement < x.earnings_improvement
            invariant
                p <= r@.len(),
                forall|k: int|
                    p <= k < r@.len() ==> (#[trigger] views(r@)[k]).earnings_improvement
                        < x.earnings_improvement,
            decreases p,
        {
            p -= 1;
        }
        proof {
            if p > 0 {
                assert(views(r@)[p - 1] == r@[p - 1]@);
            }
            lemma_insert_ranked_at(views(r@), x@, p as int);
        }
        let ghost before = views(r@);
        r.insert(p, x);
        assert(views(r@) =~= before.insert(p as int, x@));
        i += 1;
    }
    proof {
        assert(all.take(found@.len() as int) == all);
        lemma_ranked(all);
    }
    r
}


/// Whether allocations that sum to `sum` have drifted from one hundred
/// percent by more than a tenth of a percent.
pub open spec fn drifted(sum: int) -> bool {
    magnitude(sum - HUNDRED) > 100_000
}

/// The allocation `a` scaled so that allocations that sum to `sum` sum to one
/// hundred percent; `a` itself if they have not drifted or sum to nothing.
pub open spec fn normalized(a: int, sum: int) -> int {
    if !drifted(sum) || sum == 0 {
        a
    } else if sum > 0 {
        quotient(a * HUNDRED, sum)
    } else {
        quotient(-(a * HUNDRED), -sum)
    }
}

/// The allocations `s`, which sum to `sum`, each normalized.
pub open spec fn scaled(s: Seq<(Seq<char>, i64)>, sum: int) -> Seq<(Seq<char>, i64)> {
    Seq::new(s.len(), |i: int| (s[i].0, normalized(s[i].1 as int, sum) as i64))
}

/// The allocations that a plan starts from. Allocations that have drifted
/// and do not sum to nothing are normalized, and what the rounding leaves
/// goes to the first provider, so that they sum to exactly one hundred
/// percent. Other allocations stay as they are.
pub open spec fn settled(s: Seq<(Seq<char>, i64)>) -> Seq<(Seq<char>, i64)> {
    let sum = total(s);
    if !drifted(sum) || sum == 0 {
        s
    } else {
        let q = scaled(s, sum);
        put(q, q[0].0, (q[0].1 + HUNDRED - total(q)) as i64)
    }
}

/// Whether every allocation that a plan starts from can be held.
pub open spec fn settling_fits(s: Seq<(Seq<char>, i64)>) -> bool {
    let sum = total(s);
    drifted(sum) && sum != 0 ==> {
        &&& forall|i: int| 0 <= i < s.len() ==> fits_i64(#[trigger] normalized(s[i].1 as int, sum))
        &&& fits_i64(scaled(s, sum)[0].1 + HUNDRED - total(scaled(s, sum)))
    }
}

/// The snapshot `m` with the allocations that a plan starts from.
pub open spec fn based(m: MetricsView) -> MetricsView {
    MetricsView { allocation: settled(m.allocation), ..m }
}

/// The allocation that a provider's earnings are measured against: its
/// allocation, one percent if it has none, and never less than a tenth of a
/// percent.
pub open spec fn footing(m: MetricsView, name: Seq<char>) -> int {
    let share = amount_or(m.allocation, name, SCALE as int);
    if share < 100_000 {
        100_000
    } else {
        share
    }
}

/// Whether the provider at index `a` of the earnings earns more per
/// allocated unit than the one at index `b`.
pub open spec fn outearns(m: MetricsView, a: int, b: int) -> bool {
    m.earnings[a].1 * footing(m, m.earnings[b].0) > m.earnings[b].1 * footing(m, m.earnings[a].0)
}

/// The index of the most efficient provider among the first `upto` of the
/// earnings: the first of them that none of them outearns.
pub open spec fn most_efficient(m: MetricsView, upto: int) -> int
    decreases upto,
{
    if upto <= 1 {
        0
    } else {
        let best = most_efficient(m, upto - 1);
        if outearns(m, upto - 1, best) {
            upto - 1
        } else {
            best
        }
    }
}

/// The index of the least efficient provider among the first `upto` of the
/// earnings: the last of them that outearns none of them.
pub open spec fn least_efficient(m: MetricsView, upto: int) -> int
    decreases upto,
{
    if upto <= 1 {
        0
    } else {
        let worst = least_efficient(m, upto - 1);
        if outearns(m, upto - 1, worst) {
            worst
        } else {
            upto - 1
        }
    }
}

/// The name of the provider that gives up allocation.
pub open spec fn donor(m: MetricsView) -> Seq<char> {
    m.earnings[least_efficient(m, m.earnings.len() as int)].0
}

/// The name of the provider that receives allocation.
pub open spec fn receiver(m: MetricsView) -> Seq<char> {
    m.earnings[most_efficient(m, m.earnings.len() as int)].0
}

/// The slice that is moved from the least to the most efficient provider
/// of `m`: a tenth of the donor's allocation, at most the configured step,
/// and nothing unless that is more than a tenth of a percent and at least two
/// providers earn.
pub open spec fn plan_step(config: OptimizerConfig, m: MetricsView) -> int {
    if m.earnings.len() < 2 {
        0
    } else {
        let slice = moved_share(amount_or(m.allocation, donor(m), 0), config.max_allocation_change as int);
        if slice > 100_000 {
            slice
        } else {
            0
        }
    }
}

/// The allocation of `m` with the step moved from the donor to the receiver.
pub open spec fn shifted(config: OptimizerConfig, m: MetricsView) -> Seq<(Seq<char>, i64)> {
    let step = plan_step(config, m);
    if step == 0 {
        m.allocation
    } else {
        let reduced = put(m.allocation, donor(m), (amount_or(m.allocation, donor(m), 0) - step) as i64);
        put(reduced, receiver(m), (amount_or(m.allocation, receiver(m), 0) + step) as i64)
    }
}

/// The allocation that the plan proposes: the allocations that a plan
/// starts from, normalized if the current ones have drifted, with the step
/// moved from the least to the most efficient provider.
pub open spec fn plan_allocation(config: OptimizerConfig, m: MetricsView) -> Seq<(Seq<char>, i64)> {
    shifted(config, based(m))
}

/// The return on the cost of a plan, as a percentage: the net benefit over
/// the cost, or one hundred percent if the cost is a thousandth or less.
pub open spec fn return_on_cost(net_benefit: int, cost: int) -> int {
    if cost > 1000 {
        quotient(net_benefit * HUNDRED, cost)
    } else {
        HUNDRED as int
    }
}

/// The plan that the optimizer recommends for the snapshot `m` at `now`.
/// The cost is five percent of the earnings it projects.
pub open spec fn recommended_plan(config: OptimizerConfig, m: MetricsView, now: i64) -> PlanView {
    let allocation = plan_allocation(config, m);
    let estimate = projected_earnings(m.earnings, allocation);
    let cost = quotient(estimate, 20);
    PlanView {
        allocation,
        estimated_improvement: estimate as i64,
        estimated_cost: cost as i64,
        net_benefit: (estimate - cost) as i64,
        roi_percent: return_on_cost(estimate - cost, cost) as i64,
        confidence: 850_000,
        created_at: now,
    }
}

/// Whether every allocation of the recommended plan can be held.
pub open spec fn allocation_fits(config: OptimizerConfig, m: MetricsView) -> bool {
    &&& settling_fits(m.allocation)
    &&& plan_step(config, based(m)) != 0 ==> fits_i64(
        amount_or(based(m).allocation, receiver(based(m)), 0) + plan_step(config, based(m)),
    )
}

/// Whether every number of the recommended plan can be held.
pub open spec fn plan_fits(config: OptimizerConfig, m: MetricsView) -> bool {
    &&& allocation_fits(config, m)
    &&& projection_fits(m.earnings, plan_allocation(config, m))
}

/// The most and the least efficient provider are among those considered,
/// the least efficient does not outearn the most efficient, and the two
/// differ as soon as two providers are considered.
pub proof fn lemma_extremes(m: MetricsView, upto: int)
    requires
        1 <= upto,
    ensures
        0 <= most_efficient(m, upto) < upto,
        0 <= least_efficient(m, upto) < upto,
        !outearns(m, least_efficient(m, upto), most_efficient(m, upto)),
        upto >= 2 ==> most_efficient(m, upto) != least_efficient(m, upto),
    decreases upto,
{
    if upto > 1 {
        lemma_extremes(m, upto - 1);
        let best = most_efficient(m, upto - 1);
        let worst = least_efficient(m, upto - 1);
        let fa = footing(m, m.earnings[upto - 1].0);
        let fb = footing(m, m.earnings[best].0);
        let fw = footing(m, m.earnings[worst].0);
        let ra = m.earnings[upto - 1].1 as int;
        let rb = m.earnings[best].1 as int;
        let rw = m.earnings[worst].1 as int;
        if outearns(m, upto - 1, best) && !outearns(m, upto - 1, worst) {
            // the newcomer would be the best and the worst at once; but it
            // outearns the best, which the worst does not, so it outearns the worst
            assert(ra * fb * fw > rb * fa * fw) by (nonlinear_arith)
                requires
                    ra * fb > rb * fa,
                    fw >= 100_000,
            ;
            assert(rb * fw * fa >= rw * fb * fa) by (nonlinear_arith)
                requires
                    rw * fb <= rb * fw,
                    fa >= 100_000,
            ;
            assert(ra * fw * fb <= rw * fa * fb) by (nonlinear_arith)
                requires
                    ra * fw <= rw * fa,
                    fb >= 100_000,
            ;
            assert(false) by (nonlinear_arith)
                requires
                    ra * fb * fw > rb * fa * fw,
                    rb * fw * fa >= rw * fb * fa,
                    ra * fw * fb <= rw * fa * fb,
            ;
        }
    }
}

/// Moving the step neither adds nor removes allocation: the allocations sum
/// to what they summed to.
pub proof fn lemma_shift_keeps_total(config: OptimizerConfig, m: MetricsView)
    requires
        distinct_names(m.earnings),
        plan_step(config, m) != 0 ==> fits_i64(
            amount_or(m.allocation, receiver(m), 0) + plan_step(config, m),
        ),
    ensures
        total(shifted(config, m)) == total(m.allocation),
{
    let step = plan_step(config, m);
    if step != 0 {
        let n = m.earnings.len() as int;
        lemma_extremes(m, n);
        let from = donor(m);
        let to = receiver(m);
        assert(from != to);
        let held = amount_or(m.allocation, from, 0);
        assert(held - step >= 0 && held - step <= held) by {
            assert(quotient(held, 10) >= step);
        }
        let lowered = (held - step) as i64;
        let reduced = put(m.allocation, from, lowered);
        lemma_put_total(m.allocation, from, lowered);
        lemma_put_other(m.allocation, from, lowered, to);
        let raised = (amount_or(m.allocation, to, 0) + step) as i64;
        lemma_put_total(reduced, to, raised);
    }
}

/// The allocations that a plan starts from sum to exactly one hundred
/// percent if the current ones have drifted and do not sum to nothing, and
/// to what the current ones sum to otherwise.
pub proof fn lemma_settled_total(s: Seq<(Seq<char>, i64)>)
    requires
        settling_fits(s),
    ensures
        total(settled(s)) == (if drifted(total(s)) && total(s) != 0 {
            HUNDRED as int
        } else {
            total(s)
        }),
{
    let sum = total(s);
    if drifted(sum) && sum != 0 {
        let q = scaled(s, sum);
        assert(q.len() > 0);
        let v = (q[0].1 + HUNDRED - total(q)) as i64;
        lemma_position_is(q, q[0].0, 0);
        lemma_put_total(q, q[0].0, v);
    }
}

/// The allocations of a plan sum to exactly one hundred percent if the
/// current ones have drifted and do not sum to nothing, and to what the
/// current ones sum to otherwise.
pub proof fn lemma_plan_total(config: OptimizerConfig, m: MetricsView)
    requires
        distinct_names(m.earnings),
        allocation_fits(config, m),
    ensures
        total(plan_allocation(config, m)) == (if drifted(total(m.allocation)) && total(m.allocation)
            != 0 {
            HUNDRED as int
        } else {
            total(m.allocation)
        }),
{
    lemma_settled_total(m.allocation);
    lemma_shift_keeps_total(config, based(m));
}

/// The allocations of every plan for allocations that do not sum to
/// nothing sum to one hundred percent within one percent: whether the
/// current ones have drifted or not.
pub proof fn lemma_plan_stays_near_hundred(config: OptimizerConfig, m: MetricsView)
    requires
        distinct_names(m.earnings),
        allocation_fits(config, m),
        total(m.allocation) != 0,
    ensures
        magnitude(total(plan_allocation(config, m)) - HUNDRED) <= SCALE,
{
    lemma_plan_total(config, m);
}

/// The allocation that the provider `name` is measured against under `allocation`.
fn footing_of(allocation: &Ledger, name: &String, Ghost(b): Ghost<MetricsView>) -> (r: i64)
    requires
        b.allocation == allocation@,
    ensures
        r == footing(b, name@),
{
    let share = match allocation.get(name) {
        None => SCALE,
        Some(a) => a,
    };
    if share < 100_000 {
        100_000
    } else {
        share
    }
}

/// The allocations that a plan starts from, if they can be held.
pub fn settle(allocation: &Ledger) -> (r: Option<Ledger>)
    ensures
        r is Some <==> settling_fits(allocation@),
        r is Some ==> r->0@ == settled(allocation@),
{
    let sum = allocation.total();
    let drift: i128 = if sum >= HUNDRED as i128 {
        sum - HUNDRED as i128
    } else {
        HUNDRED as i128 - sum
    };
    if drift <= 100_000 || sum == 0 {
        return Some(allocation.clone());
    }
    let ghost s = allocation@;
    let n = allocation.len();
    let mut base = Ledger::new();
    let mut i: usize = 0;
    while i < n
        invariant
            s == allocation@,
            n == s.len(),
            distinct_names(s),
            i <= n,
            sum == total(s),
            drifted(sum as int),
            sum != 0,
            -0x7fff_ffff_ffff_ffff_8000_0000_0000_0000 <= sum <= 0x7fff_ffff_ffff_ffff_8000_0000_0000_0000,
            base@ == scaled(s, sum as int).take(i as int),
            forall|j: int| 0 <= j < i ==> fits_i64(#[trigger] normalized(s[j].1 as int, sum as int)),
        decreases n - i,
    {
        let a = allocation.value_at(i) as i128;
        assert(-0x7fff_ffff_ffff_ffff_ffff_ffff_ffff <= a * 100_000_000
            <= 0x7fff_ffff_ffff_ffff_ffff_ffff_ffff) by (nonlinear_arith)
            requires
                -0x8000_0000_0000_0000 <= a <= 0x7fff_ffff_ffff_ffff,
        ;
        let wide: i128 = if sum > 0 {
            (a * HUNDRED as i128) / sum
        } else {
            (-(a * HUNDRED as i128)) / (-sum)
        };
        let v = match narrow(wide) {
            Some(v) => v,
            None => {
                assert(!fits_i64(normalized(s[i as int].1 as int, sum as int)));
                return None;
            },
        };
        proof {
            assert forall|j: int| 0 <= j < base@.len() implies (#[trigger] base@[j]).0 != s[i as int].0 by {
                assert(base@[j].0 == s[j].0);
            }
            lemma_position_is(base@, s[i as int].0, i as int);
        }
        base.insert(allocation.name_at(i).clone(), v);
        assert(base@ =~= scaled(s, sum as int).take(i + 1));
        i += 1;
    }
    assert(base@ == scaled(s, sum as int));
    assert(n > 0);
    let first = base.name_at(0).clone();
    let rest = base.total();
    if rest < -0x2_0000_0000_0000_0000 || rest > 0x2_0000_0000_0000_0000 {
        return None;
    }
    let v = match narrow(base.value_at(0) as i128 + HUNDRED as i128 - rest) {
        Some(v) => v,
        None => {
            return None;
        },
    };
    base.insert(first, v);
    Some(base)
}

/// Analyzes earnings and proposes reallocations.
pub struct EarningsOptimizer {
    config: OptimizerConfig,
    metrics_history: Vec<AggregatedMetrics>,
}

impl EarningsOptimizer {
    #[verifier::type_invariant]
    spec fn bounded(self) -> bool {
        self.metrics_history@.len() <= HISTORY_LIMIT
    }

    /// The thresholds in force.
    pub closed spec fn settings(&self) -> OptimizerConfig {
        self.config
    }

    /// The snapshots kept, oldest first.
    pub closed spec fn history(&self) -> Seq<MetricsView> {
        views(self.metrics_history@)
    }

    /// An optimizer with the given thresholds and no history.
    pub fn new(config: OptimizerConfig) -> (r: Self)
        ensures
            r.settings() == config,
            r.history() == Seq::<MetricsView>::empty(),
    {
        let r = EarningsOptimizer { config, metrics_history: Vec::new() };
        assert(r.history() =~= Seq::<MetricsView>::empty());
        r
    }

    /// The thresholds in force.
    pub fn config(&self) -> (r: OptimizerConfig)
        ensures
            r == self.settings(),
    {
        self.config
    }

    /// How many snapshots are kept: never more than `HISTORY_LIMIT`.
    pub fn history_len(&self) -> (r: usize)
        ensures
            r == self.history().len(),
            r <= HISTORY_LIMIT,
    {
        proof {
            use_type_invariant(self);
        }
        self.metrics_history.len()
    }

    /// Adds a snapshot to the history, evicting the oldest beyond `HISTORY_LIMIT`.
    pub fn update_metrics(&mut self, metrics: AggregatedMetrics)
        ensures
            final(self).settings() == old(self).settings(),
            final(self).history() == push_bounded(
                old(self).history(),
                metrics@,
                HISTORY_LIMIT as int,
            ),
    {
        proof {
            use_type_invariant(&*self);
        }
        let ghost before = self.history();
        let mut history: Vec<AggregatedMetrics> = Vec::new();
        std::mem::swap(&mut history, &mut self.metrics_history);
        history.push(metrics);
        if history.len() > HISTORY_LIMIT {
            history.remove(0);
        }
        assert(views(history@) =~= push_bounded(before, metrics@, HISTORY_LIMIT as int));
        self.metrics_history = history;
    }

    /// The earnings that the history records for the provider `name`, oldest first.
    pub fn earnings_series(&self, name: &String) -> (r: Vec<i64>)
        ensures
            r@ == series(self.history(), name@),
            r@.len() <= HISTORY_LIMIT,
    {
        proof {
            use_type_invariant(self);
        }
        let ghost h = self.history();
        let n = self.metrics_history.len();
        let mut r: Vec<i64> = Vec::new();
        let mut i: usize = 0;
        while i < n
            invariant
                n == self.metrics_history@.len(),
                h == views(self.metrics_history@),
                i <= n,
                r@.len() <= i,
                r@ == series(h.take(i as int), name@),
            decreases n - i,
        {
            proof {
                assert(h.take(i + 1).drop_last() == h.take(i as int));
            }
            if let Some(v) = self.metrics_history[i].earnings_by_protocol.get(name) {
                r.push(v);
            }
            i += 1;
        }
        assert(h.take(n as int) == h);
        r
    }

    /// The confidence in a move from `from_protocol` to `to_protocol`, judged
    /// by the variance of both providers' earnings in the history.
    pub fn calculate_opportunity_confidence(&self, from_protocol: &String, to_protocol: &String) -> (r:
        i64)
        ensures
            r == confidence_of(
                series(self.history(), from_protocol@),
                series(self.history(), to_protocol@),
            ),
            300_000 <= r <= 990_000,
    {
        let from = self.earnings_series(from_protocol);
        let to = self.earnings_series(to_protocol);
        rate_confidence(&from, &to)
    }

    /// The opportunity that a move from `from` to `to` is under
    /// `current_metrics`, if the move is proposed; an error if it is proposed
    /// and its improvement cannot be held.
    pub fn evaluate_pair(&self, current_metrics: &AggregatedMetrics, from: &String, to: &String) -> (r:
        OrchestrationResult<Option<OptimizationOpportunity>>)
        ensures
            r is Ok <==> pair_fits(self.settings(), current_metrics@, from@, to@),
            r is Ok ==> (match r->Ok_0 {
                Some(o) => Some(o@),
                None => None,
            }) == proposal(self.settings(), current_metrics@, self.history(), from@, to@),
            r is Err ==> r->Err_0 is CalculationError,
    {
        let from_rate = match current_metrics.earnings_by_protocol.get(from) {
            Some(v) => v,
            None => 0,
        };
        let to_rate = match current_metrics.earnings_by_protocol.get(to) {
            Some(v) => v,
            None => 0,
        };
        let from_allocation = match current_metrics.allocation_by_protocol.get(from) {
            Some(v) => v,
            None => 0,
        };
        if distance(to_rate, from_rate) < 10_000 || from_allocation < SCALE {
            return Ok(None);
        }
        if to_rate <= from_rate {
            return Ok(None);
        }
        let tenth = from_allocation / 10;
        let share = if tenth <= self.config.max_allocation_change {
            tenth
        } else {
            self.config.max_allocation_change
        };
        let difference: i128 = to_rate as i128 - from_rate as i128;
        assert(-0x7fff_ffff_ffff_ffff_ffff_ffff_ffff_ffff <= difference * share
            <= 0x7fff_ffff_ffff_ffff_ffff_ffff_ffff_ffff) by (nonlinear_arith)
            requires
                0 < difference <= 0xffff_ffff_ffff_ffff,
                -0x8000_0000_0000_0000 <= share <= 0x7fff_ffff_ffff_ffff,
        ;
        let product: i128 = difference * (share as i128);
        let gain: i128 = product / (HUNDRED as i128);
        assert(gain == pair_gain(self.settings(), current_metrics@, from@, to@));
        if gain <= self.config.min_improvement_threshold as i128 {
            return Ok(None);
        }
        proof {
            let a = product as int;
            let g = gain as int;
            if a >= 0 {
                assert(0 <= (a / 100_000_000) * 100_000_000 <= a) by (nonlinear_arith)
                    requires
                        a >= 0,
                ;
            } else {
                assert(0 <= ((-a) / 100_000_000) * 100_000_000 <= -a) by (nonlinear_arith)
                    requires
                        a < 0,
                ;
            }
            lemma_product_bound(
                self.config.min_improvement_percent as int,
                from_rate as int,
            );
        }
        let scaled: i128 = gain * (HUNDRED as i128);
        let bar: i128 = (self.config.min_improvement_percent as i128) * (from_rate as i128);
        let exceeds = if from_rate > 0 {
            scaled > bar
        } else if from_rate == 0 {
            gain > 0
        } else {
            scaled < bar
        };
        if !exceeds {
            return Ok(None);
        }
        let earnings_improvement = match narrow(gain) {
            Some(g) => g,
            None => {
                return Err(
                    OrchestrationError::CalculationError(
                        String::from_str("Earnings improvement out of range"),
                    ),
                );
            },
        };
        let confidence = self.calculate_opportunity_confidence(from, to);
        Ok(
            Some(
                OptimizationOpportunity {
                    from_protocol: from.clone(),
                    to_protocol: to.clone(),
                    current_rate: from_rate,
                    projected_rate: to_rate,
                    earnings_improvement,
                    confidence,
                    complexity: 300_000,
                },
            ),
        )
    }

    /// The opportunities that `current_metrics` offers, best first: for every
    /// ordered pair of connected providers, the move from the one to the
    /// other, if it is proposed. An error if the improvement of a proposed
    /// move cannot be held.
    pub fn analyze_opportunities(&self, current_metrics: &AggregatedMetrics) -> (r:
        OrchestrationResult<Vec<OptimizationOpportunity>>)
        ensures
            r is Ok <==> analysis_fits(self.settings(), current_metrics@),
            r is Ok ==> views(r->Ok_0@) == opportunities(
                self.settings(),
                current_metrics@,
                self.history(),
            ) && best_first(views(r->Ok_0@)),
            r is Err ==> r->Err_0 is CalculationError,
    {
        let connected = connected_providers(&current_metrics.connection_status);
        let ghost c = self.settings();
        let ghost m = current_metrics@;
        let ghost h = self.history();
        let ghost ns = names(connected@);
        let n = connected.len();
        let mut found: Vec<OptimizationOpportunity> = Vec::new();
        let mut i: usize = 0;
        assert(views(found@) =~= candidates(c, m, h, ns, 0));
        while i < n
            invariant
                n == connected@.len(),
                i <= n,
                c == self.settings(),
                m == current_metrics@,
                h == self.history(),
                ns == names(connected@),
                ns == connected_names(m.status),
                views(found@) == candidates(c, m, h, ns, i as int),
                forall|a: int, b: int|
                    0 <= a < i && 0 <= b < n && a != b ==> #[trigger] pair_fits(c, m, ns[a], ns[b]),
            decreases n - i,
        {
            let ghost base = views(found@);
            let mut j: usize = 0;
            assert(views(found@) =~= base + row(c, m, h, ns, i as int, 0));
            while j < n
                invariant
                    n == connected@.len(),
                    i < n,
                    j <= n,
                    c == self.settings(),
                    m == current_metrics@,
                    h == self.history(),
                    ns == names(connected@),
                    ns == connected_names(m.status),
                    base == candidates(c, m, h, ns, i as int),
                    views(found@) == base + row(c, m, h, ns, i as int, j as int),
                    forall|a: int, b: int|
                        0 <= a < i && 0 <= b < n && a != b ==> #[trigger] pair_fits(
                            c,
                            m,
                            ns[a],
                            ns[b],
                        ),
                    forall|b: int| 0 <= b < j && b != i ==> #[trigger] pair_fits(c, m, ns[i as int], ns[b]),
                decreases n - j,
            {
                if i != j {
                    assert(connected@[i as int]@ == ns[i as int]);
                    assert(connected@[j as int]@ == ns[j as int]);
                    match self.evaluate_pair(current_metrics, &connected[i], &connected[j]) {
                        Ok(Some(o)) => {
                            let ghost before = views(found@);
                            found.push(o);
                            assert(views(found@) =~= before.push(o@));
                            assert(views(found@) =~= base + row(c, m, h, ns, i as int, j + 1));
                        },
                        Ok(None) => {},
                        Err(e) => {
                            assert(!pair_fits(c, m, ns[i as int], ns[j as int]));
                            return Err(e);
                        },
                    }
                }
                j += 1;
            }
            i += 1;
        }
        let r = rank(&found);
        Ok(r)
    }

    /// The plan recommended for `current_metrics`, made at the instant `now`.
    /// Allocations that have drifted from one hundred percent are normalized
    /// first. Then a slice is moved from the least to the most efficient
    /// provider. The plan gives the earnings this projects, a cost of five
    /// percent of them, and the return on that cost. The allocations of the
    /// plan sum to one hundred percent within one percent, unless the
    /// current ones sum to nothing. An error if a number of the plan cannot
    /// be held.
    pub fn calculate_optimal_allocation_at(&self, now: i64, current_metrics: &AggregatedMetrics) -> (r:
        OrchestrationResult<AllocationPlan>)
        ensures
            r is Ok <==> plan_fits(self.settings(), current_metrics@),
            r is Ok ==> r->Ok_0@ == recommended_plan(self.settings(), current_metrics@, now),
            r is Ok ==> total(r->Ok_0@.allocation) == (if drifted(total(current_metrics@.allocation))
                && total(current_metrics@.allocation) != 0 {
                HUNDRED as int
            } else {
                total(current_metrics@.allocation)
            }),
            r is Ok && total(current_metrics@.allocation) != 0 ==> magnitude(
                total(r->Ok_0@.allocation) - HUNDRED,
            ) <= SCALE,
            r is Ok ==> r->Ok_0.net_benefit == r->Ok_0.estimated_improvement
                - r->Ok_0.estimated_cost,
            r is Err ==> r->Err_0 is CalculationError,
    {
        let ghost c = self.settings();
        let ghost origin = current_metrics@;
        let ghost m = based(origin);
        let earnings = &current_metrics.earnings_by_protocol;
        let n = earnings.len();
        let base = match settle(&current_metrics.allocation_by_protocol) {
            Some(base) => base,
            None => {
                return Err(
                    OrchestrationError::CalculationError(
                        String::from_str("Normalized allocation out of range"),
                    ),
                );
            },
        };
        let allocation = &base;
        let mut footings: Vec<i64> = Vec::new();
        let mut k: usize = 0;
        while k < n
            invariant
                n == earnings@.len(),
                earnings@ == m.earnings,
                allocation@ == m.allocation,
                k <= n,
                footings@.len() == k,
                forall|j: int| 0 <= j < k ==> footings@[j] == #[trigger] footing(m, m.earnings[j].0),
            decreases n - k,
        {
            let f = footing_of(allocation, earnings.name_at(k), Ghost(m));
            footings.push(f);
            k += 1;
        }
        let mut best: usize = 0;
        let mut worst: usize = 0;
        let mut k: usize = 1;
        while k < n
            invariant
                n == earnings@.len(),
                earnings@ == m.earnings,
                1 <= k,
                k <= n || n == 0,
                footings@.len() == n,
                forall|j: int| 0 <= j < n ==> footings@[j] == #[trigger] footing(m, m.earnings[j].0),
                best == most_efficient(m, k as int),
                worst == least_efficient(m, k as int),
                best < k,
                worst < k,
            decreases n - k,
        {
            proof {
                lemma_product_bound(earnings@[k as int].1 as int, footings@[best as int] as int);
                lemma_product_bound(earnings@[best as int].1 as int, footings@[k as int] as int);
                lemma_product_bound(earnings@[k as int].1 as int, footings@[worst as int] as int);
                lemma_product_bound(earnings@[worst as int].1 as int, footings@[k as int] as int);
                assert(footings@[best as int] == footing(m, m.earnings[best as int].0));
                assert(footings@[worst as int] == footing(m, m.earnings[worst as int].0));
                assert(footings@[k as int] == footing(m, m.earnings[k as int].0));
            }
            let rate = earnings.value_at(k) as i128;
            let beats_best = rate * (footings[best] as i128) > (earnings.value_at(best) as i128) * (
            footings[k] as i128);
            let beats_worst = rate * (footings[worst] as i128) > (earnings.value_at(worst) as i128)
                * (footings[k] as i128);
            if beats_best {
                best = k;
            }
            if !beats_worst {
                worst = k;
            }
            k += 1;
        }
        let mut new_allocation = allocation.clone();
        if n >= 2 {
            proof {
                lemma_extremes(m, n as int);
            }
            let donor_name = earnings.name_at(worst);
            let held = match allocation.get(donor_name) {
                Some(a) => a,
                None => 0,
            };
            let tenth = held / 10;
            let slice = if tenth <= self.config.max_allocation_change {
                tenth
            } else {
                self.config.max_allocation_change
            };
            assert(slice == moved_share(amount_or(m.allocation, donor(m), 0), c.max_allocation_change as int));
            if slice > 100_000 {
                let receiver_name = earnings.name_at(best);
                let had = match allocation.get(receiver_name) {
                    Some(a) => a,
                    None => 0,
                };
                let raised = match narrow(had as i128 + slice as i128) {
                    Some(v) => v,
                    None => {
                        assert(!plan_fits(c, origin));
                        return Err(
                            OrchestrationError::CalculationError(
                                String::from_str("Allocation out of range"),
                            ),
                        );
                    },
                };
                new_allocation.insert(donor_name.clone(), held - slice);
                new_allocation.insert(receiver_name.clone(), raised);
            }
        }
        assert(new_allocation@ == plan_allocation(c, origin));
        proof {
            lemma_plan_total(c, origin);
        }
        let estimate = match project_earnings(&new_allocation, earnings) {
            Ok(e) => e,
            Err(e) => {
                return Err(e);
            },
        };
        let cost = estimate / 20;
        let net_benefit = estimate - cost;
        let roi_percent = if cost > 1000 {
            let wide: i128 = (net_benefit as i128 * HUNDRED as i128) / (cost as i128);
            assert(0 <= wide <= 2_100_000_000) by (nonlinear_arith)
                requires
                    cost > 1000,
                    0 <= net_benefit <= 20 * cost + 20,
                    wide == (net_benefit * 100_000_000) / (cost as int),
            ;
            wide as i64
        } else {
            HUNDRED
        };
        Ok(
            AllocationPlan {
                allocation: new_allocation,
                estimated_improvement: estimate,
                estimated_cost: cost,
                net_benefit,
                roi_percent,
                confidence: 850_000,
                created_at: now,
            },
        )
    }

    /// The plan recommended for `current_metrics`, stamped with the current
    /// time. See `calculate_optimal_allocation_at`.
    pub fn calculate_optimal_allocation(&self, current_metrics: &AggregatedMetrics) -> (r:
        OrchestrationResult<AllocationPlan>)
        ensures
            r is Ok <==> plan_fits(self.settings(), current_metrics@),
            r is Ok ==> r->Ok_0@ == recommended_plan(
                self.settings(),
                current_metrics@,
                r->Ok_0.created_at,
            ),
            r is Ok ==> total(r->Ok_0@.allocation) == (if drifted(total(current_metrics@.allocation))
                && total(current_metrics@.allocation) != 0 {
                HUNDRED as int
            } else {
                total(current_metrics@.allocation)
            }),
            r is Ok && total(current_metrics@.allocation) != 0 ==> magnitude(
                total(r->Ok_0@.allocation) - HUNDRED,
            ) <= SCALE,
            r is Err ==> r->Err_0 is CalculationError,
    {
        let now = now_millis();
        self.calculate_optimal_allocation_at(now, current_metrics)
    }

    /// The total the providers would earn at `earnings_rates` under
    /// `new_allocation`; an error if a share or the total cannot be held.
    pub fn estimate_earnings_improvement(
        &self,
        new_allocation: &Ledger,
        earnings_rates: &Ledger,
    ) -> (r: OrchestrationResult<i64>)
        ensures
            r is Ok <==> projection_fits(earnings_rates@, new_allocation@),
            r is Ok ==> r->Ok_0 == projected_earnings(earnings_rates@, new_allocation@),
            r is Err ==> r->Err_0 is CalculationError,
    {
        project_earnings(new_allocation, earnings_rates)
    }

    /// Whether a reallocation should be executed. Never without an opportunity.
    pub fn should_reallocate(
        &self,
        opportunities: &Vec<OptimizationOpportunity>,
        current_plan: Option<&AllocationPlan>,
    ) -> (r: bool)
        ensures
            r == worth_reallocating(
                self.settings(),
                views(opportunities@),
                match current_plan {
                    Some(p) => Some(p@),
                    None => None,
                },
            ),
            opportunities@.len() == 0 ==> !r,
    {
        if opportunities.len() == 0 {
            return false;
        }
        let best = &opportunities[0];
        assert(views(opportunities@)[0] == best@);
        if best.earnings_improvement < self.config.min_improvement_threshold {
            return false;
        }
        if best.confidence < NEUTRAL_CONFIDENCE {
            return false;
        }
        if let Some(plan) = current_plan {
            if plan.net_benefit < self.config.min_improvement_threshold {
                return false;
            }
        }
        true
    }
}

/// The total the providers would earn at `rates` under `allocation`.
pub fn project_earnings(allocation: &Ledger, rates: &Ledger) -> (r: OrchestrationResult<i64>)
    ensures
        r is Ok <==> projection_fits(rates@, allocation@),
        r is Ok ==> r->Ok_0 == projected_earnings(rates@, allocation@),
        r is Err ==> r->Err_0 is CalculationError,
{
    let n = rates.len();
    let mut sum: i128 = 0;
    let mut i: usize = 0;
    while i < n
        invariant
            n == rates@.len(),
            i <= n,
            sum == projected_earnings(rates@.take(i as int), allocation@),
            forall|j: int|
                0 <= j < i ==> fits_i64(
                    #[trigger] projected_share(rates@[j].1 as int, rates@[j].0, allocation@),
                ),
        decreases n - i,
    {
        let share = match allocation.get(rates.name_at(i)) {
            Some(a) => a,
            None => 0,
        };
        let term = match narrow(mul_div(rates.value_at(i), share, HUNDRED)) {
            Some(t) => t,
            None => {
                assert(!fits_i64(
                    projected_share(rates@[i as int].1 as int, rates@[i as int].0, allocation@),
                ));
                return Err(
                    OrchestrationError::CalculationError(
                        String::from_str("Projected earnings out of range"),
                    ),
                );
            },
        };
        proof {
            let part = rates@.take(i as int);
            assert forall|j: int| 0 <= j < part.len() implies fits_i64(
                #[trigger] projected_share(part[j].1 as int, part[j].0, allocation@),
            ) by {
                assert(part[j] == rates@[j]);
            }
            lemma_projected_bound(part, allocation@);
            assert(rates@.take(i + 1).drop_last() == part);
            assert(i * i64::MIN >= usize::MAX * i64::MIN && i * i64::MAX <= usize::MAX * i64::MAX)
                by (nonlinear_arith)
                requires
                    0 <= i <= usize::MAX,
            ;
        }
        sum = sum + term as i128;
        i += 1;
    }
    assert(rates@.take(n as int) == rates@);
    match narrow(sum) {
        Some(s) => Ok(s),
        None => Err(
            OrchestrationError::CalculationError(String::from_str("Projected earnings out of range")),
        ),
    }
}

} // verus!
