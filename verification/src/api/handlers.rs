//! What the request handlers compute between reading the engine's state and
//! writing a response.

use crate::fixed::{magnitude, HUNDRED, SCALE};
use crate::ledger::{total, Ledger};
use crate::orchestration::{views, AggregatedMetrics, MetricsView, OptimizationOpportunity};
use crate::text::{join3, plain_text, render_plain};
use vstd::prelude::*;
use vstd::string::*;

verus! {

/// How many snapshots a history request gets if it names no limit.
pub const DEFAULT_HISTORY_LIMIT: usize = 1000;

/// How many opportunities a request gets if it names no limit.
pub const DEFAULT_OPPORTUNITY_LIMIT: usize = 10;

/// The smaller of a length and a limit.
pub open spec fn capped(len: nat, limit: usize) -> int {
    if len <= limit {
        len as int
    } else {
        limit as int
    }
}

/// The last `limit` snapshots of `history`, latest first.
pub open spec fn latest(history: Seq<MetricsView>, limit: usize) -> Seq<MetricsView> {
    Seq::new(capped(history.len(), limit) as nat, |i: int| history[history.len() - 1 - i])
}

/// The last `limit` snapshots of `history`, latest first.
pub fn latest_snapshots(history: &Vec<AggregatedMetrics>, limit: usize) -> (r: Vec<AggregatedMetrics>)
    ensures
        views(r@) == latest(views(history@), limit),
{
    let n = history.len();
    let count = if n <= limit {
        n
    } else {
        limit
    };
    let mut r: Vec<AggregatedMetrics> = Vec::new();
    let mut i: usize = 0;
    while i < count
        invariant
            n == history@.len(),
            count <= n,
            i <= count,
            r@.len() == i,
            forall|j: int| 0 <= j < i ==> (#[trigger] r@[j])@ == history@[n - 1 - j]@,
        decreases count - i,
    {
        r.push(history[n - 1 - i].clone());
        i += 1;
    }
    assert(views(r@) =~= latest(views(history@), limit));
    r
}

/// The opportunities shown for a request: the best ones, with the
/// improvement and the confidence of the best of them.
#[derive(Debug, Clone)]
pub struct OpportunityPage {
    pub opportunities: Vec<OptimizationOpportunity>,
    pub best_improvement: Option<i64>,
    /// The confidence of the best opportunity, zero if there is none.
    pub confidence: i64,
}

/// The first `limit` of the opportunities, with the improvement and the
/// confidence of the first one.
pub fn opportunity_page(opportunities: &Vec<OptimizationOpportunity>, limit: usize) -> (r:
    OpportunityPage)
    ensures
        views(r.opportunities@) == views(opportunities@).take(capped(opportunities@.len(), limit)),
        r.best_improvement == (if r.opportunities@.len() > 0 {
            Some(opportunities@[0].earnings_improvement)
        } else {
            None
        }),
        r.confidence == (if r.opportunities@.len() > 0 {
            opportunities@[0].confidence
        } else {
            0
        }),
{
    let n = opportunities.len();
    let count = if n <= limit {
        n
    } else {
        limit
    };
    let mut shown: Vec<OptimizationOpportunity> = Vec::new();
    let mut i: usize = 0;
    while i < count
        invariant
            n == opportunities@.len(),
            count <= n,
            i <= count,
            shown@.len() == i,
            forall|j: int| 0 <= j < i ==> (#[trigger] shown@[j])@ == opportunities@[j]@,
        decreases count - i,
    {
        shown.push(opportunities[i].clone());
        i += 1;
    }
    assert(views(shown@) =~= views(opportunities@).take(count as int));
    let (best_improvement, confidence) = if count > 0 {
        (Some(opportunities[0].earnings_improvement), opportunities[0].confidence)
    } else {
        (None, 0)
    };
    OpportunityPage { opportunities: shown, best_improvement, confidence }
}

/// Why a requested allocation is refused, if it is: it does not sum to one
/// hundred percent within one percent.
pub open spec fn request_refusal(allocation: Seq<(Seq<char>, i64)>) -> Option<Seq<char>> {
    if magnitude(total(allocation) - HUNDRED) > SCALE {
        Some("Total allocation "@ + plain_text(total(allocation)) + " != 100%"@)
    } else {
        None
    }
}

/// Whether a requested allocation sums to one hundred percent within one percent.
pub fn check_requested_allocation(allocation: &Ledger) -> (r: Result<(), String>)
    ensures
        r is Ok <==> request_refusal(allocation@) is None,
        r is Err ==> Some(r->Err_0@) == request_refusal(allocation@),
{
    let sum = allocation.total();
    let off: i128 = if sum >= HUNDRED as i128 {
        sum - HUNDRED as i128
    } else {
        HUNDRED as i128 - sum
    };
    if off > SCALE as i128 {
        let number = render_plain(sum);
        return Err(join3("Total allocation ", number.as_str(), " != 100%"));
    }
    Ok(())
}

} // verus!
