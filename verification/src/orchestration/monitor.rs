//! The monitor: alerts on thresholds, the dashboard view, and reports over a
//! period of its own archive of snapshots.

use super::coordinator::{earnings_sum, in_period, lemma_earnings_sum_bound, select_period};
use super::{
    copy_alerts, copy_metrics, views, AggregatedMetrics, Alert, AlertType, AlertTypeView,
    AlertView, AllocationChange, ChangeView, DashboardSnapshot, DashboardView, ErrorKind,
    ErrorView, MetricsView, OpportunityView, OptimizationOpportunity, OrchestrationError,
    OrchestrationResult, PerformanceReport, ReportView,
};
use crate::clock::{now_millis, DAY_MILLIS, HOUR_MILLIS};
use crate::ledger::{distinct_names, lemma_position_is};
use crate::fixed::{fits_i64, lemma_product_bound, magnitude, narrow, quotient, HUNDRED};
use crate::ledger::{amount_or, first_where, lemma_first_where_is, put, value_of, Ledger, StatusMap};
use crate::text::{amount_text, join3, join4, render_amount};
use vstd::prelude::*;
use vstd::string::*;

verus! {

/// How many snapshots the monitor keeps.
pub const SNAPSHOT_LIMIT: usize = 10_000;

/// The thresholds of the monitor.
#[derive(Debug, Clone, Copy, PartialEq, Eq, Structural)]
pub struct MonitorConfig {
    /// Total earnings below this raise an alert; millionths of the currency unit per hour.
    pub low_earnings_threshold: i64,
    /// A best opportunity above this raises an alert; millionths of the currency unit per hour.
    pub optimization_threshold: i64,
    /// After how many milliseconds a connection counts as timed out.
    pub connection_timeout: i64,
    /// How many alerts are kept.
    pub max_alerts: usize,
}

impl Default for MonitorConfig {
    fn default() -> (r: Self)
        ensures
            r.low_earnings_threshold == 5_000_000,
            r.optimization_threshold == 250_000,
            r.connection_timeout == 300_000,
            r.max_alerts == 1000,
    {
        MonitorConfig {
            low_earnings_threshold: 5_000_000,
            optimization_threshold: 250_000,
            connection_timeout: 300_000,
            max_alerts: 1000,
        }
    }
}

/// The mathematical content of a `RealtimeMonitor`.
pub struct MonitorView {
    pub config: MonitorConfig,
    /// The alerts kept, oldest first.
    pub alerts: Seq<AlertView>,
    /// The snapshots kept, oldest first.
    pub snapshots: Seq<MetricsView>,
    pub last_dashboard_update: Option<i64>,
}

/// The last `limit` elements of `s`, or all of `s` if it has no more.
pub open spec fn keep_last<T>(s: Seq<T>, limit: int) -> Seq<T> {
    if s.len() > limit {
        s.subrange(s.len() - limit, s.len() as int)
    } else {
        s
    }
}

/// The alert for total earnings below the threshold, if they are.
pub open spec fn low_earnings_alert(config: MonitorConfig, m: MetricsView, now: i64) -> Seq<AlertView> {
    if m.total_earnings_per_hour < config.low_earnings_threshold {
        seq![
            AlertView {
                timestamp: now,
                alert_type: AlertTypeView::LowEarnings {
                    current_rate: m.total_earnings_per_hour,
                    threshold: config.low_earnings_threshold,
                },
                severity: 600_000,
                message: "Earnings "@ + amount_text(m.total_earnings_per_hour as int)
                    + "/hr below threshold "@ + amount_text(config.low_earnings_threshold as int)
                    + "/hr"@,
                acknowledged: false,
            },
        ]
    } else {
        Seq::empty()
    }
}

/// The alert for a disconnected provider.
pub open spec fn disconnected_alert(provider: Seq<char>, now: i64) -> AlertView {
    AlertView {
        timestamp: now,
        alert_type: AlertTypeView::ProtocolDisconnected { protocol: provider },
        severity: 900_000,
        message: "Protocol "@ + provider + " disconnected"@,
        acknowledged: false,
    }
}

/// One alert for every provider that `status` records as disconnected, in order.
pub open spec fn disconnected_alerts(status: Seq<(Seq<char>, bool)>, now: i64) -> Seq<AlertView>
    decreases status.len(),
{
    if status.len() == 0 {
        Seq::empty()
    } else if status.last().1 {
        disconnected_alerts(status.drop_last(), now)
    } else {
        disconnected_alerts(status.drop_last(), now).push(disconnected_alert(status.last().0, now))
    }
}

/// The alert for a best opportunity above the threshold, if there is one.
pub open spec fn opportunity_alert(
    config: MonitorConfig,
    opportunities: Seq<OpportunityView>,
    now: i64,
) -> Seq<AlertView> {
    if opportunities.len() > 0 && opportunities[0].earnings_improvement
        > config.optimization_threshold {
        seq![
            AlertView {
                timestamp: now,
                alert_type: AlertTypeView::ReallocationOpportunity { opportunity: opportunities[0] },
                severity: 400_000,
                message: "Optimization opportunity: "@ + amount_text(
                    opportunities[0].earnings_improvement as int,
                ) + "/hr improvement"@,
                acknowledged: false,
            },
        ]
    } else {
        Seq::empty()
    }
}

/// The alert for a processor used beyond 95 percent, if it is.
pub open spec fn contention_alert(m: MetricsView, now: i64) -> Seq<AlertView> {
    if m.utilization.cpu_percent > 95_000_000 {
        seq![
            AlertView {
                timestamp: now,
                alert_type: AlertTypeView::ResourceContention { resource: "CPU"@ },
                severity: 800_000,
                message: "CPU utilization critically high"@,
                acknowledged: false,
            },
        ]
    } else {
        Seq::empty()
    }
}

/// The alerts that a snapshot and the opportunities found in it raise at
/// `now`: low earnings, then every disconnected provider, then the best
/// opportunity, then processor contention.
pub open spec fn raised_alerts(
    config: MonitorConfig,
    m: MetricsView,
    opportunities: Seq<OpportunityView>,
    now: i64,
) -> Seq<AlertView> {
    low_earnings_alert(config, m, now) + disconnected_alerts(m.status, now) + opportunity_alert(
        config,
        opportunities,
        now,
    ) + contention_alert(m, now)
}

/// The index of the first alert raised at `timestamp`.
pub open spec fn first_raised_at(alerts: Seq<AlertView>, timestamp: i64) -> int {
    first_where(alerts, |a: AlertView| a.timestamp == timestamp)
}

/// The alerts with the first one raised at `timestamp` acknowledged.
pub open spec fn acknowledged(alerts: Seq<AlertView>, timestamp: i64) -> Seq<AlertView> {
    let k = first_raised_at(alerts, timestamp);
    if k < alerts.len() {
        alerts.update(k, AlertView { acknowledged: true, ..alerts[k] })
    } else {
        alerts
    }
}

/// The snapshots of `history` taken at or after `cutoff`, or only after it
/// if it is not `inclusive`, in order.
pub open spec fn snapshots_from(history: Seq<MetricsView>, cutoff: int, inclusive: bool) -> Seq<MetricsView> {
    history.filter(|m: MetricsView| m.timestamp > cutoff || (inclusive && m.timestamp == cutoff))
}

/// What following the providers' allocations through snapshots has found:
/// the changes seen, and the allocation each provider was last seen with.
pub struct Tracking {
    pub changes: Seq<ChangeView>,
    pub held: Seq<(Seq<char>, i64)>,
}

/// The change on record when a provider last seen with `before` is seen with
/// `entry` at `timestamp`.
pub open spec fn observed_change(timestamp: i64, entry: (Seq<char>, i64), before: i64) -> ChangeView {
    ChangeView {
        timestamp,
        protocol: entry.0,
        old_allocation: before,
        new_allocation: entry.1,
        reason: "Automatic reallocation"@,
        earnings_impact: 0,
    }
}

/// `t` after one more allocation was seen: a change is on record if the
/// provider was seen before with an allocation more than a tenth of a percent
/// away.
pub open spec fn track_entry(t: Tracking, timestamp: i64, entry: (Seq<char>, i64)) -> Tracking {
    Tracking {
        changes: match value_of(t.held, entry.0) {
            Some(before) => if magnitude(entry.1 - before) > 100_000 {
                t.changes.push(observed_change(timestamp, entry, before))
            } else {
                t.changes
            },
            None => t.changes,
        },
        held: put(t.held, entry.0, entry.1),
    }
}

/// `t` after the allocations of one snapshot were seen, in order.
pub open spec fn track_entries(t: Tracking, timestamp: i64, entries: Seq<(Seq<char>, i64)>) -> Tracking
    decreases entries.len(),
{
    if entries.len() == 0 {
        t
    } else {
        track_entry(track_entries(t, timestamp, entries.drop_last()), timestamp, entries.last())
    }
}

/// What following the allocations through the snapshots of `window` finds.
pub open spec fn track(window: Seq<MetricsView>) -> Tracking
    decreases window.len(),
{
    if window.len() == 0 {
        Tracking { changes: Seq::empty(), held: Seq::empty() }
    } else {
        track_entries(track(window.drop_last()), window.last().timestamp, window.last().allocation)
    }
}

/// The allocation changes that the snapshots of `window` show: one wherever
/// a provider's allocation differs by more than a tenth of a percent from
/// the one it had in the last earlier snapshot that lists it.
pub open spec fn observed_changes(window: Seq<MetricsView>) -> Seq<ChangeView> {
    track(window).changes
}

/// The dashboard for the snapshot `m` at `now`: the best opportunity, a
/// next reallocation suggested in two hours if there is an opportunity, and
/// the allocation changes that the snapshots of the last day show.
pub open spec fn dashboard(
    monitor: MonitorView,
    m: MetricsView,
    optimal: Seq<(Seq<char>, i64)>,
    opportunities: Seq<OpportunityView>,
    now: i64,
) -> DashboardView {
    DashboardView {
        timestamp: now,
        total_earnings_per_hour: m.total_earnings_per_hour,
        earnings: m.earnings,
        current_allocation: m.allocation,
        optimal_allocation: optimal,
        opportunity: if opportunities.len() > 0 {
            Some(opportunities[0])
        } else {
            None
        },
        next_reallocation_in: if opportunities.len() > 0 {
            Some(7200u64)
        } else {
            None
        },
        status: m.status,
        recent_changes: observed_changes(snapshots_from(monitor.snapshots, now - DAY_MILLIS, true)),
    }
}

/// The providers with earnings in `entries` added to `roster`, each once.
pub open spec fn enroll(roster: Seq<(Seq<char>, i64)>, entries: Seq<(Seq<char>, i64)>) -> Seq<
    (Seq<char>, i64),
>
    decreases entries.len(),
{
    if entries.len() == 0 {
        roster
    } else {
        put(enroll(roster, entries.drop_last()), entries.last().0, 0)
    }
}

/// The providers with earnings in some snapshot of `window`, in the order of
/// their first appearance, each with zero.
pub open spec fn roster(window: Seq<MetricsView>) -> Seq<(Seq<char>, i64)>
    decreases window.len(),
{
    if window.len() == 0 {
        Seq::empty()
    } else {
        enroll(roster(window.drop_last()), window.last().earnings)
    }
}

/// The sum of the earnings of the provider `name` over the snapshots of `window`.
pub open spec fn provider_total(window: Seq<MetricsView>, name: Seq<char>) -> int
    decreases window.len(),
{
    if window.len() == 0 {
        0
    } else {
        provider_total(window.drop_last(), name) + amount_or(window.last().earnings, name, 0)
    }
}

/// Whether every flag of `status` is set.
pub open spec fn all_set(status: Seq<(Seq<char>, bool)>) -> bool {
    forall|i: int| 0 <= i < status.len() ==> (#[trigger] status[i]).1
}

/// Whether every provider of the snapshot is connected.
pub open spec fn fully_connected(m: MetricsView) -> bool {
    all_set(m.status)
}

/// How many snapshots of `window` have every provider connected.
pub open spec fn connected_count(window: Seq<MetricsView>) -> nat
    decreases window.len(),
{
    if window.len() == 0 {
        0
    } else {
        connected_count(window.drop_last()) + if fully_connected(window.last()) {
            1nat
        } else {
            0nat
        }
    }
}

/// Whether the sums of a report over `window` can be held.
pub open spec fn report_fits(window: Seq<MetricsView>) -> bool {
    &&& fits_i64(earnings_sum(window))
    &&& forall|i: int|
        0 <= i < roster(window).len() ==> fits_i64(
            provider_total(window, (#[trigger] roster(window)[i]).0),
        )
}

/// The report over the non-empty `window` of snapshots taken from `start`
/// to `end`. The changes it lists are those that the snapshots show; they
/// carry no measured impact, so the total improvement is zero.
pub open spec fn report(window: Seq<MetricsView>, start: i64, end: i64) -> ReportView {
    let changes = observed_changes(window);
    ReportView {
        period_start: start,
        period_end: end,
        total_earnings: earnings_sum(window) as i64,
        average_hourly_earnings: quotient(earnings_sum(window), window.len() as int) as i64,
        earnings: Seq::new(
            roster(window).len(),
            |i: int| (roster(window)[i].0, provider_total(window, roster(window)[i].0) as i64),
        ),
        allocation_changes: changes,
        total_improvement: 0,
        successful_optimizations: if changes.len() > u32::MAX {
            u32::MAX
        } else {
            changes.len() as u32
        },
        uptime_percent: quotient(connected_count(window) * HUNDRED, window.len() as int) as i64,
    }
}

/// The sum of `n` amounts lies within `n` times the range of one.
pub proof fn lemma_provider_total_bound(window: Seq<MetricsView>, name: Seq<char>)
    ensures
        window.len() * i64::MIN <= provider_total(window, name) <= window.len() * i64::MAX,
    decreases window.len(),
{
    if window.len() > 0 {
        lemma_provider_total_bound(window.drop_last(), name);
        assert((window.len() - 1) * i64::MIN + i64::MIN == window.len() * i64::MIN)
            by (nonlinear_arith);
        assert((window.len() - 1) * i64::MAX + i64::MAX == window.len() * i64::MAX)
            by (nonlinear_arith);
    }
}

/// No more snapshots are fully connected than there are snapshots.
pub proof fn lemma_connected_count_bound(window: Seq<MetricsView>)
    ensures
        connected_count(window) <= window.len(),
    decreases window.len(),
{
    if window.len() > 0 {
        lemma_connected_count_bound(window.drop_last());
    }
}

/// The uptime of a report lies between zero and one hundred percent.
pub proof fn lemma_uptime_range(window: Seq<MetricsView>, start: i64, end: i64)
    requires
        window.len() > 0,
    ensures
        0 <= report(window, start, end).uptime_percent <= HUNDRED,
{
    lemma_connected_count_bound(window);
    let c = connected_count(window) as int;
    let n = window.len() as int;
    assert(0 <= (c * 100_000_000) / n <= 100_000_000) by (nonlinear_arith)
        requires
            0 <= c <= n,
            n >= 1,
    ;
}

/// The snapshots of `list` taken at or after `cutoff`, or only after it if
/// not `inclusive`, in order.
pub fn select_from(list: &Vec<AggregatedMetrics>, cutoff: i128, inclusive: bool) -> (r: Vec<
    AggregatedMetrics,
>)
    ensures
        views(r@) == snapshots_from(views(list@), cutoff as int, inclusive),
{
    let ghost all = views(list@);
    let ghost keep = |m: MetricsView|
        m.timestamp > cutoff as int || (inclusive && m.timestamp == cutoff as int);
    let mut r: Vec<AggregatedMetrics> = Vec::new();
    let mut i: usize = 0;
    assert(all.take(0).filter(keep) =~= Seq::<MetricsView>::empty()) by {
        reveal(Seq::filter);
    }
    while i < list.len()
        invariant
            i <= list@.len(),
            all == views(list@),
            keep == |m: MetricsView|
                m.timestamp > cutoff as int || (inclusive && m.timestamp == cutoff as int),
            views(r@) == all.take(i as int).filter(keep),
        decreases list@.len() - i,
    {
        proof {
            reveal(Seq::filter);
            assert(all.take(i + 1).drop_last() == all.take(i as int));
        }
        let ghost before = views(r@);
        let t = list[i].timestamp as i128;
        if t > cutoff || (inclusive && t == cutoff) {
            r.push(list[i].clone());
            assert(views(r@) =~= before.push(list@[i as int]@));
        }
        i += 1;
    }
    assert(all.take(list@.len() as int) == all);
    r
}

/// The allocation changes that the snapshots of `window` show.
pub fn derive_changes(window: &Vec<AggregatedMetrics>) -> (r: Vec<AllocationChange>)
    ensures
        views(r@) == observed_changes(views(window@)),
{
    let ghost all = views(window@);
    let mut changes: Vec<AllocationChange> = Vec::new();
    let mut held = Ledger::new();
    let mut i: usize = 0;
    assert(views(changes@) =~= track(all.take(0)).changes);
    while i < window.len()
        invariant
            i <= window@.len(),
            all == views(window@),
            views(changes@) == track(all.take(i as int)).changes,
            held@ == track(all.take(i as int)).held,
        decreases window@.len() - i,
    {
        let snapshot = &window[i];
        let entries = &snapshot.allocation_by_protocol;
        let ghost base = track(all.take(i as int));
        let n = entries.len();
        let mut j: usize = 0;
        while j < n
            invariant
                n == entries@.len(),
                j <= n,
                base == track(all.take(i as int)),
                views(changes@) == track_entries(
                    base,
                    snapshot.timestamp,
                    entries@.take(j as int),
                ).changes,
                held@ == track_entries(base, snapshot.timestamp, entries@.take(j as int)).held,
            decreases n - j,
        {
            proof {
                assert(entries@.take(j + 1).drop_last() == entries@.take(j as int));
            }
            let allocation = entries.value_at(j);
            if let Some(before) = held.get(entries.name_at(j)) {
                let off: i128 = allocation as i128 - before as i128;
                if off > 100_000 || off < -100_000 {
                    let ghost so_far = views(changes@);
                    let change = AllocationChange {
                        timestamp: snapshot.timestamp,
                        protocol: entries.name_at(j).clone(),
                        old_allocation: before,
                        new_allocation: allocation,
                        reason: String::from_str("Automatic reallocation"),
                        earnings_impact: 0,
                    };
                    changes.push(change);
                    assert(views(changes@) =~= so_far.push(change@));
                }
            }
            held.insert(entries.name_at(j).clone(), allocation);
            j += 1;
        }
        proof {
            assert(entries@.take(n as int) == entries@);
            assert(all.take(i + 1).drop_last() == all.take(i as int));
            assert(all.take(i + 1).last() == snapshot@);
        }
        i += 1;
    }
    assert(all.take(window@.len() as int) == all);
    changes
}

/// The providers with earnings in some snapshot of `window`, each with zero.
fn collect_roster(window: &Vec<AggregatedMetrics>) -> (r: Ledger)
    ensures
        r@ == roster(views(window@)),
{
    let ghost all = views(window@);
    let mut found = Ledger::new();
    let mut i: usize = 0;
    while i < window.len()
        invariant
            i <= window@.len(),
            all == views(window@),
            found@ == roster(all.take(i as int)),
        decreases window@.len() - i,
    {
        let entries = &window[i].earnings_by_protocol;
        let ghost base = found@;
        let n = entries.len();
        let mut j: usize = 0;
        while j < n
            invariant
                n == entries@.len(),
                j <= n,
                found@ == enroll(base, entries@.take(j as int)),
            decreases n - j,
        {
            proof {
                assert(entries@.take(j + 1).drop_last() == entries@.take(j as int));
            }
            found.insert(entries.name_at(j).clone(), 0);
            j += 1;
        }
        proof {
            assert(entries@.take(n as int) == entries@);
            assert(all.take(i + 1).drop_last() == all.take(i as int));
            assert(all.take(i + 1).last() == window@[i as int]@);
        }
        i += 1;
    }
    assert(all.take(window@.len() as int) == all);
    found
}

/// The sum of the earnings of the provider `name` over the snapshots of `window`.
fn sum_provider(window: &Vec<AggregatedMetrics>, name: &String) -> (r: i128)
    ensures
        r == provider_total(views(window@), name@),
{
    let ghost all = views(window@);
    let mut sum: i128 = 0;
    let mut i: usize = 0;
    while i < window.len()
        invariant
            i <= window@.len(),
            all == views(window@),
            sum == provider_total(all.take(i as int), name@),
        decreases window@.len() - i,
    {
        proof {
            lemma_provider_total_bound(all.take(i as int), name@);
            assert(all.take(i + 1).drop_last() == all.take(i as int));
            assert(all.take(i + 1).last() == window@[i as int]@);
            assert(i * i64::MIN >= usize::MAX * i64::MIN && i * i64::MAX <= usize::MAX * i64::MAX)
                by (nonlinear_arith)
                requires
                    0 <= i <= usize::MAX,
            ;
        }
        let amount = match window[i].earnings_by_protocol.get(name) {
            Some(a) => a,
            None => 0,
        };
        sum = sum + amount as i128;
        i += 1;
    }
    assert(all.take(window@.len() as int) == all);
    sum
}

/// Whether every provider of the snapshot is connected.
fn all_connected(status: &StatusMap) -> (r: bool)
    ensures
        r == all_set(status@),
{
    let n = status.len();
    let mut i: usize = 0;
    while i < n
        invariant
            n == status@.len(),
            i <= n,
            forall|j: int| 0 <= j < i ==> (#[trigger] status@[j]).1,
        decreases n - i,
    {
        if !status.value_at(i) {
            return false;
        }
        i += 1;
    }
    true
}

/// The pairs of instant and total earnings of the snapshots taken in the
/// last `hours` hours before `now`, oldest first.
pub open spec fn trends(snapshots: Seq<MetricsView>, now: i64, hours: i64) -> Seq<(i64, i64)> {
    snapshots_from(snapshots, now - hours * HOUR_MILLIS, false).map_values(
        |m: MetricsView| (m.timestamp, m.total_earnings_per_hour),
    )
}

/// The alerts of `alerts` raised after `cutoff`, in order.
pub open spec fn alerts_after(alerts: Seq<AlertView>, cutoff: int) -> Seq<AlertView> {
    alerts.filter(|a: AlertView| a.timestamp > cutoff)
}

/// The monitor after everything not younger than `retention_days` days at
/// `now` was dropped.
pub open spec fn cleaned(monitor: MonitorView, now: i64, retention_days: i64) -> MonitorView {
    MonitorView {
        snapshots: snapshots_from(monitor.snapshots, now - retention_days * DAY_MILLIS, false),
        alerts: alerts_after(monitor.alerts, now - retention_days * DAY_MILLIS),
        ..monitor
    }
}

/// The allocation changes that the snapshots of the last `hours` hours
/// before `now` show.
pub open spec fn recent_allocation_changes(snapshots: Seq<MetricsView>, now: i64, hours: i64) -> Seq<
    ChangeView,
> {
    observed_changes(snapshots_from(snapshots, now - hours * HOUR_MILLIS, true))
}

/// What `generate_report` answers for the window of snapshots of a period:
/// an error for an empty window, an error if a sum cannot be held, and the
/// report otherwise.
pub open spec fn report_outcome(
    window: Seq<MetricsView>,
    start: i64,
    end: i64,
    r: OrchestrationResult<PerformanceReport>,
) -> bool {
    if window.len() == 0 {
        r is Err && r->Err_0@ == (ErrorView {
            kind: ErrorKind::Monitoring,
            detail: "No metrics for period"@,
        })
    } else if !report_fits(window) {
        r is Err && r->Err_0 is CalculationError
    } else {
        r is Ok && r->Ok_0@ == report(window, start, end)
    }
}

/// Monitors the providers' performance and raises alerts.
pub struct RealtimeMonitor {
    config: MonitorConfig,
    alerts: Vec<Alert>,
    metrics_snapshots: Vec<AggregatedMetrics>,
    last_dashboard_update: Option<i64>,
}

impl View for RealtimeMonitor {
    type V = MonitorView;

    closed spec fn view(&self) -> MonitorView {
        MonitorView {
            config: self.config,
            alerts: views(self.alerts@),
            snapshots: views(self.metrics_snapshots@),
            last_dashboard_update: self.last_dashboard_update,
        }
    }
}

/// Cuts a list down to its last `limit` elements.
fn trim<T: View>(list: &mut Vec<T>, limit: usize)
    ensures
        views(final(list)@) == keep_last(views(old(list)@), limit as int),
{
    let n = list.len();
    if n > limit {
        let tail = list.split_off(n - limit);
        assert(views(tail@) =~= keep_last(views(old(list)@), limit as int));
        *list = tail;
    }
}

impl RealtimeMonitor {
    /// A monitor with the given thresholds and nothing on record.
    pub fn new(config: MonitorConfig) -> (r: Self)
        ensures
            r@ == (MonitorView {
                config,
                alerts: Seq::empty(),
                snapshots: Seq::empty(),
                last_dashboard_update: None,
            }),
    {
        let r = RealtimeMonitor {
            config,
            alerts: Vec::new(),
            metrics_snapshots: Vec::new(),
            last_dashboard_update: None,
        };
        assert(views(r.alerts@) =~= Seq::<AlertView>::empty());
        assert(views(r.metrics_snapshots@) =~= Seq::<MetricsView>::empty());
        r
    }

    /// The thresholds in force.
    pub fn config(&self) -> (r: MonitorConfig)
        ensures
            r == self@.config,
    {
        self.config
    }

    /// Raises the alerts that `current_metrics` and `opportunities` call for
    /// at `now`, and adds them to the alerts kept, of which only the last
    /// `max_alerts` stay.
    pub fn check_alerts_at(
        &mut self,
        now: i64,
        current_metrics: &AggregatedMetrics,
        opportunities: &Vec<OptimizationOpportunity>,
    ) -> (r: OrchestrationResult<Vec<Alert>>)
        ensures
            r is Ok,
            views(r->Ok_0@) == raised_alerts(
                old(self)@.config,
                current_metrics@,
                views(opportunities@),
                now,
            ),
            final(self)@ == (MonitorView {
                alerts: keep_last(
                    old(self)@.alerts + views(r->Ok_0@),
                    old(self)@.config.max_alerts as int,
                ),
                ..old(self)@
            }),
            final(self)@.alerts.len() <= old(self)@.config.max_alerts,
    {
        let ghost m = current_metrics@;
        let ghost c = self@.config;
        let mut raised: Vec<Alert> = Vec::new();
        if current_metrics.total_earnings_per_hour < self.config.low_earnings_threshold {
            let rate = render_amount(current_metrics.total_earnings_per_hour as i128);
            let bar = render_amount(self.config.low_earnings_threshold as i128);
            let mut message = join4("Earnings ", rate.as_str(), "/hr below threshold ", bar.as_str());
            message.append("/hr");
            raised.push(
                Alert {
                    timestamp: now,
                    alert_type: AlertType::LowEarnings {
                        current_rate: current_metrics.total_earnings_per_hour,
                        threshold: self.config.low_earnings_threshold,
                    },
                    severity: 600_000,
                    message,
                    acknowledged: false,
                },
            );
        }
        assert(views(raised@) =~= low_earnings_alert(c, m, now));
        let status = &current_metrics.connection_status;
        let n = status.len();
        let mut i: usize = 0;
        assert(disconnected_alerts(status@.take(0), now) =~= Seq::<AlertView>::empty());
        while i < n
            invariant
                n == status@.len(),
                i <= n,
                status@ == m.status,
                views(raised@) == low_earnings_alert(c, m, now) + disconnected_alerts(
                    status@.take(i as int),
                    now,
                ),
            decreases n - i,
        {
            proof {
                assert(status@.take(i + 1).drop_last() == status@.take(i as int));
            }
            if !status.value_at(i) {
                let ghost before = views(raised@);
                let alert = Alert {
                    timestamp: now,
                    alert_type: AlertType::ProtocolDisconnected { protocol: status.name_at(i).clone() },
                    severity: 900_000,
                    message: join3("Protocol ", status.name_at(i).as_str(), " disconnected"),
                    acknowledged: false,
                };
                raised.push(alert);
                assert(views(raised@) =~= before.push(disconnected_alert(status@[i as int].0, now)));
                assert(views(raised@) =~= low_earnings_alert(c, m, now) + disconnected_alerts(
                    status@.take(i + 1),
                    now,
                ));
            }
            i += 1;
        }
        assert(status@.take(n as int) == status@);
        let ghost so_far = views(raised@);
        if opportunities.len() > 0 {
            let best = &opportunities[0];
            assert(views(opportunities@)[0] == best@);
            if best.earnings_improvement > self.config.optimization_threshold {
                let gain = render_amount(best.earnings_improvement as i128);
                raised.push(
                    Alert {
                        timestamp: now,
                        alert_type: AlertType::ReallocationOpportunity { opportunity: best.clone() },
                        severity: 400_000,
                        message: join3("Optimization opportunity: ", gain.as_str(), "/hr improvement"),
                        acknowledged: false,
                    },
                );
            }
        }
        assert(views(raised@) =~= so_far + opportunity_alert(c, views(opportunities@), now));
        let ghost so_far = views(raised@);
        if current_metrics.resource_utilization.cpu_percent > 95_000_000 {
            raised.push(
                Alert {
                    timestamp: now,
                    alert_type: AlertType::ResourceContention { resource: String::from_str("CPU") },
                    severity: 800_000,
                    message: String::from_str("CPU utilization critically high"),
                    acknowledged: false,
                },
            );
        }
        assert(views(raised@) =~= so_far + contention_alert(m, now));
        let ghost kept = views(self.alerts@);
        let mut j: usize = 0;
        while j < raised.len()
            invariant
                j <= raised@.len(),
                views(self.alerts@) == kept + views(raised@).take(j as int),
                self.config == old(self).config,
                self.metrics_snapshots == old(self).metrics_snapshots,
                self.last_dashboard_update == old(self).last_dashboard_update,
            decreases raised@.len() - j,
        {
            let ghost before = views(self.alerts@);
            self.alerts.push(raised[j].clone());
            assert(views(self.alerts@) =~= before.push(raised@[j as int]@));
            assert(views(raised@).take(j + 1) =~= views(raised@).take(j as int).push(raised@[j as int]@));
            assert(views(self.alerts@) =~= kept + views(raised@).take(j + 1));
            j += 1;
        }
        assert(views(raised@).take(raised@.len() as int) == views(raised@));
        trim(&mut self.alerts, self.config.max_alerts);
        Ok(raised)
    }

    /// Raises the alerts that `current_metrics` and `opportunities` call
    /// for, stamped with the current time. See `check_alerts_at`.
    pub fn check_alerts(
        &mut self,
        current_metrics: &AggregatedMetrics,
        opportunities: &Vec<OptimizationOpportunity>,
    ) -> (r: OrchestrationResult<Vec<Alert>>)
        ensures
            r is Ok,
            exists|now: i64|
                views(r->Ok_0@) == #[trigger] raised_alerts(
                    old(self)@.config,
                    current_metrics@,
                    views(opportunities@),
                    now,
                ),
            final(self)@ == (MonitorView {
                alerts: keep_last(
                    old(self)@.alerts + views(r->Ok_0@),
                    old(self)@.config.max_alerts as int,
                ),
                ..old(self)@
            }),
    {
        let now = now_millis();
        self.check_alerts_at(now, current_metrics, opportunities)
    }

    /// The allocation changes that the snapshots of the last `hours` hours
    /// before `now` show.
    pub fn get_recent_allocation_changes_at(&self, now: i64, hours: i64) -> (r: Vec<AllocationChange>)
        ensures
            views(r@) == recent_allocation_changes(self@.snapshots, now, hours),
    {
        proof {
            lemma_product_bound(hours as int, HOUR_MILLIS as int);
        }
        let cutoff: i128 = now as i128 - (hours as i128) * (HOUR_MILLIS as i128);
        let window = select_from(&self.metrics_snapshots, cutoff, true);
        derive_changes(&window)
    }

    /// The dashboard for `current_metrics` at `now`. See `dashboard`.
    pub fn get_dashboard_metrics_at(
        &mut self,
        now: i64,
        current_metrics: &AggregatedMetrics,
        optimal_allocation: &Ledger,
        opportunities: &Vec<OptimizationOpportunity>,
    ) -> (r: OrchestrationResult<DashboardSnapshot>)
        ensures
            r is Ok,
            r->Ok_0@ == dashboard(
                old(self)@,
                current_metrics@,
                optimal_allocation@,
                views(opportunities@),
                now,
            ),
            final(self)@ == (MonitorView { last_dashboard_update: Some(now), ..old(self)@ }),
    {
        let cutoff: i128 = now as i128 - DAY_MILLIS as i128;
        let window = select_from(&self.metrics_snapshots, cutoff, true);
        let recent_changes = derive_changes(&window);
        let (optimization_opportunity, next_reallocation_in) = if opportunities.len() > 0 {
            assert(views(opportunities@)[0] == opportunities@[0]@);
            (Some(opportunities[0].clone()), Some(7200u64))
        } else {
            (None, None)
        };
        let snapshot = DashboardSnapshot {
            timestamp: now,
            total_earnings_per_hour: current_metrics.total_earnings_per_hour,
            earnings_by_protocol: current_metrics.earnings_by_protocol.clone(),
            current_allocation: current_metrics.allocation_by_protocol.clone(),
            optimal_allocation: optimal_allocation.clone(),
            optimization_opportunity,
            next_reallocation_in,
            connection_status: current_metrics.connection_status.clone(),
            recent_changes,
        };
        self.last_dashboard_update = Some(now);
        Ok(snapshot)
    }

    /// The dashboard for `current_metrics`, stamped with the current time.
    pub fn get_dashboard_metrics(
        &mut self,
        current_metrics: &AggregatedMetrics,
        optimal_allocation: &Ledger,
        opportunities: &Vec<OptimizationOpportunity>,
    ) -> (r: OrchestrationResult<DashboardSnapshot>)
        ensures
            r is Ok,
            r->Ok_0@ == dashboard(
                old(self)@,
                current_metrics@,
                optimal_allocation@,
                views(opportunities@),
                r->Ok_0.timestamp,
            ),
            final(self)@ == (MonitorView {
                last_dashboard_update: Some(r->Ok_0.timestamp),
                ..old(self)@
            }),
    {
        let now = now_millis();
        self.get_dashboard_metrics_at(now, current_metrics, optimal_allocation, opportunities)
    }

    /// The report over the snapshots taken from `period_start` to
    /// `period_end`, both included. A period without snapshots is an error,
    /// not an empty report.
    pub fn generate_report(&self, period_start: i64, period_end: i64) -> (r: OrchestrationResult<
        PerformanceReport,
    >)
        ensures
            report_outcome(
                in_period(self@.snapshots, period_start, period_end),
                period_start,
                period_end,
                r,
            ),
    {
        let window = select_period(&self.metrics_snapshots, period_start, period_end);
        let ghost w = views(window@);
        let n = window.len();
        assert(w.len() == n);
        if n == 0 {
            return Err(OrchestrationError::MonitoringError(String::from_str("No metrics for period")));
        }
        let mut sum: i128 = 0;
        let mut connected: usize = 0;
        let mut i: usize = 0;
        while i < n
            invariant
                n == window@.len(),
                w == views(window@),
                i <= n,
                sum == earnings_sum(w.take(i as int)),
                connected == connected_count(w.take(i as int)),
                connected <= i,
            decreases n - i,
        {
            proof {
                lemma_earnings_sum_bound(w.take(i as int));
                assert(w.take(i + 1).drop_last() == w.take(i as int));
                assert(w.take(i + 1).last() == window@[i as int]@);
                assert(i * i64::MIN >= usize::MAX * i64::MIN && i * i64::MAX <= usize::MAX
                    * i64::MAX) by (nonlinear_arith)
                    requires
                        0 <= i <= usize::MAX,
                ;
            }
            sum = sum + window[i].total_earnings_per_hour as i128;
            if all_connected(&window[i].connection_status) {
                connected += 1;
            }
            i += 1;
        }
        assert(w.take(n as int) == w);
        let total_earnings = match narrow(sum) {
            Some(t) => t,
            None => {
                return Err(
                    OrchestrationError::CalculationError(
                        String::from_str("Total earnings out of range"),
                    ),
                );
            },
        };
        let names = collect_roster(&window);
        let count = names.len();
        let mut earnings_by_protocol = Ledger::new();
        let mut k: usize = 0;
        while k < count
            invariant
                count == names@.len(),
                names@ == roster(w),
                distinct_names(names@),
                w == views(window@),
                w == in_period(self@.snapshots, period_start, period_end),
                w.len() > 0,
                k <= count,
                earnings_by_protocol@ == Seq::new(
                    k as nat,
                    |i: int| (roster(w)[i].0, provider_total(w, roster(w)[i].0) as i64),
                ),
                forall|i: int|
                    0 <= i < k ==> fits_i64(provider_total(w, (#[trigger] roster(w)[i]).0)),
            decreases count - k,
        {
            let name = names.name_at(k);
            let amount = match narrow(sum_provider(&window, name)) {
                Some(a) => a,
                None => {
                    assert(!fits_i64(provider_total(w, roster(w)[k as int].0)));
                    return Err(
                        OrchestrationError::CalculationError(
                            String::from_str("Provider earnings out of range"),
                        ),
                    );
                },
            };
            proof {
                let before = earnings_by_protocol@;
                assert forall|j: int| 0 <= j < before.len() implies (#[trigger] before[j]).0
                    != name@ by {
                    assert(names@[j].0 != names@[k as int].0);
                }
                lemma_position_is(before, name@, before.len() as int);
            }
            let ghost before = earnings_by_protocol@;
            earnings_by_protocol.insert(name.clone(), amount);
            assert(earnings_by_protocol@ =~= Seq::new(
                (k + 1) as nat,
                |i: int| (roster(w)[i].0, provider_total(w, roster(w)[i].0) as i64),
            ));
            k += 1;
        }
        assert(report_fits(w));
        let allocation_changes = derive_changes(&window);
        let successful_optimizations: u32 = if allocation_changes.len() > 0xffff_ffff {
            0xffff_ffff
        } else {
            allocation_changes.len() as u32
        };
        assert(views(allocation_changes@).len() == allocation_changes@.len());
        let average: i128 = (total_earnings as i128) / (n as i128);
        let uptime: i128 = ((connected as i128) * (HUNDRED as i128)) / (n as i128);
        proof {
            let t = total_earnings as int;
            let m = n as int;
            let c = connected as int;
            if t >= 0 {
                assert(0 <= t / m <= t) by (nonlinear_arith)
                    requires
                        t >= 0,
                        m >= 1,
                ;
            } else {
                assert(0 <= (-t) / m <= -t) by (nonlinear_arith)
                    requires
                        t < 0,
                        m >= 1,
                ;
            }
            assert(0 <= (c * 100_000_000) / m <= 100_000_000) by (nonlinear_arith)
                requires
                    0 <= c <= m,
                    m >= 1,
            ;
        }
        Ok(
            PerformanceReport {
                period_start,
                period_end,
                total_earnings,
                average_hourly_earnings: average as i64,
                earnings_by_protocol,
                allocation_changes,
                total_improvement: 0,
                successful_optimizations,
                uptime_percent: uptime as i64,
            },
        )
    }

    /// The pairs of instant and total earnings of the snapshots taken in the
    /// last `hours` hours before `now`, oldest first.
    pub fn get_earnings_trends_at(&self, now: i64, hours: i64) -> (r: OrchestrationResult<
        Vec<(i64, i64)>,
    >)
        ensures
            r is Ok,
            r->Ok_0@ == trends(self@.snapshots, now, hours),
    {
        proof {
            lemma_product_bound(hours as int, HOUR_MILLIS as int);
        }
        let cutoff: i128 = now as i128 - (hours as i128) * (HOUR_MILLIS as i128);
        let window = select_from(&self.metrics_snapshots, cutoff, false);
        let mut r: Vec<(i64, i64)> = Vec::new();
        let mut i: usize = 0;
        while i < window.len()
            invariant
                i <= window@.len(),
                r@.len() == i,
                forall|j: int|
                    0 <= j < i ==> r@[j] == (
                        (#[trigger] window@[j]).timestamp,
                        window@[j].total_earnings_per_hour,
                    ),
            decreases window@.len() - i,
        {
            r.push((window[i].timestamp, window[i].total_earnings_per_hour));
            i += 1;
        }
        assert(r@ =~= views(window@).map_values(
            |m: MetricsView| (m.timestamp, m.total_earnings_per_hour),
        ));
        Ok(r)
    }

    /// The earnings trend of the last `hours` hours: what
    /// `get_earnings_trends_at` gives for the current time.
    pub fn get_earnings_trends(&self, hours: i64) -> (r: OrchestrationResult<Vec<(i64, i64)>>)
        ensures
            r is Ok,
            exists|now: i64| r->Ok_0@ == #[trigger] trends(self@.snapshots, now, hours),
    {
        let now = now_millis();
        self.get_earnings_trends_at(now, hours)
    }

    /// Drops the snapshots and alerts that are not younger than
    /// `retention_days` days at `now`.
    pub fn cleanup_old_data_at(&mut self, now: i64, retention_days: i64)
        ensures
            final(self)@ == cleaned(old(self)@, now, retention_days),
    {
        proof {
            lemma_product_bound(retention_days as int, DAY_MILLIS as int);
        }
        let cutoff: i128 = now as i128 - (retention_days as i128) * (DAY_MILLIS as i128);
        let snapshots = select_from(&self.metrics_snapshots, cutoff, false);
        let ghost all = views(self.alerts@);
        let ghost keep = |a: AlertView| a.timestamp > cutoff as int;
        let mut alerts: Vec<Alert> = Vec::new();
        let mut i: usize = 0;
        assert(all.take(0).filter(keep) =~= Seq::<AlertView>::empty()) by {
            reveal(Seq::filter);
        }
        while i < self.alerts.len()
            invariant
                i <= self.alerts@.len(),
                all == views(self.alerts@),
                keep == |a: AlertView| a.timestamp > cutoff as int,
                views(alerts@) == all.take(i as int).filter(keep),
            decreases self.alerts@.len() - i,
        {
            proof {
                reveal(Seq::filter);
                assert(all.take(i + 1).drop_last() == all.take(i as int));
            }
            let ghost before = views(alerts@);
            if self.alerts[i].timestamp as i128 > cutoff {
                alerts.push(self.alerts[i].clone());
                assert(views(alerts@) =~= before.push(self.alerts@[i as int]@));
            }
            i += 1;
        }
        assert(all.take(self.alerts@.len() as int) == all);
        self.metrics_snapshots = snapshots;
        self.alerts = alerts;
    }

    /// Drops the snapshots and alerts that are not younger than
    /// `retention_days` days now.
    pub fn cleanup_old_data(&mut self, retention_days: i64)
        ensures
            exists|now: i64| final(self)@ == #[trigger] cleaned(old(self)@, now, retention_days),
    {
        let now = now_millis();
        self.cleanup_old_data_at(now, retention_days)
    }

    /// Adds a snapshot to the archive, of which only the last `SNAPSHOT_LIMIT` stay.
    pub fn update_snapshot(&mut self, metrics: AggregatedMetrics)
        ensures
            final(self)@ == (MonitorView {
                snapshots: keep_last(old(self)@.snapshots.push(metrics@), SNAPSHOT_LIMIT as int),
                ..old(self)@
            }),
            final(self)@.snapshots.len() <= SNAPSHOT_LIMIT,
    {
        let ghost before = views(self.metrics_snapshots@);
        self.metrics_snapshots.push(metrics);
        assert(views(self.metrics_snapshots@) =~= before.push(metrics@));
        trim(&mut self.metrics_snapshots, SNAPSHOT_LIMIT);
    }

    /// The alerts kept, oldest first.
    pub fn get_alert_history(&self) -> (r: Vec<Alert>)
        ensures
            views(r@) == self@.alerts,
    {
        copy_alerts(&self.alerts)
    }

    /// The snapshots kept, oldest first.
    pub fn get_snapshots(&self) -> (r: Vec<AggregatedMetrics>)
        ensures
            views(r@) == self@.snapshots,
    {
        copy_metrics(&self.metrics_snapshots)
    }

    /// Acknowledges the first alert raised at `alert_timestamp`; an error,
    /// and no change, if there is none.
    pub fn acknowledge_alert(&mut self, alert_timestamp: i64) -> (r: OrchestrationResult<()>)
        ensures
            r is Ok <==> first_raised_at(old(self)@.alerts, alert_timestamp) < old(self)@.alerts.len(),
            final(self)@ == (MonitorView {
                alerts: acknowledged(old(self)@.alerts, alert_timestamp),
                ..old(self)@
            }),
            r is Err ==> r->Err_0@ == (ErrorView {
                kind: ErrorKind::Monitoring,
                detail: "Alert not found"@,
            }),
    {
        let ghost all = views(self.alerts@);
        let ghost raised_then = |a: AlertView| a.timestamp == alert_timestamp;
        let mut i: usize = 0;
        while i < self.alerts.len()
            invariant
                i <= self.alerts@.len(),
                all == views(self.alerts@),
                self@ == old(self)@,
                raised_then == |a: AlertView| a.timestamp == alert_timestamp,
                forall|j: int| 0 <= j < i ==> !raised_then(#[trigger] all[j]),
            decreases self.alerts@.len() - i,
        {
            if self.alerts[i].timestamp == alert_timestamp {
                proof {
                    lemma_first_where_is(all, raised_then, i as int);
                }
                let mut alert = self.alerts[i].clone();
                alert.acknowledged = true;
                self.alerts.set(i, alert);
                assert(views(self.alerts@) =~= acknowledged(all, alert_timestamp));
                return Ok(());
            }
            i += 1;
        }
        proof {
            lemma_first_where_is(all, raised_then, all.len() as int);
        }
        Err(OrchestrationError::MonitoringError(String::from_str("Alert not found")))
    }
}

} // verus!
