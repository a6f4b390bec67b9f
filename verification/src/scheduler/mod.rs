//! The settings of the background tasks, the rule for the severity of a
//! threshold alert, and what the tasks store and discard.

use crate::clock::{rfc3339, rfc3339_text, DAY_MILLIS};
use crate::db::models::ProtocolMetricsRecord;
use crate::fixed::{held, least, narrow, quotient, HUNDRED};
use crate::ledger::{amount_or, value_of};
use crate::orchestration::{AggregatedMetrics, MetricsView, ResourceUtilization};
use crate::text::{join5, render_tenths, tenths_text};
use vstd::prelude::*;
use vstd::string::*;

verus! {

/// The settings of the background tasks. Thresholds are millionths of a percent.
#[derive(Debug, Clone, Copy, PartialEq, Eq, Structural)]
pub struct SchedulerConfig {
    /// Seconds between two optimization runs.
    pub optimization_interval: u64,
    /// Days that metrics are kept.
    pub metrics_retention_days: i64,
    /// Seconds between two alert passes.
    pub alert_processing_interval: u64,
    /// The least improvement that triggers a reallocation.
    pub min_reallocation_threshold: i64,
    /// Processor use above this raises an alert.
    pub cpu_alert_threshold: i64,
    /// Memory use above this raises an alert.
    pub memory_alert_threshold: i64,
}

impl Default for SchedulerConfig {
    fn default() -> (r: Self)
        ensures
            r.optimization_interval == 300,
            r.metrics_retention_days == 30,
            r.alert_processing_interval == 60,
            r.min_reallocation_threshold == 5_000_000,
            r.cpu_alert_threshold == 90_000_000,
            r.memory_alert_threshold == 85_000_000,
    {
        SchedulerConfig {
            optimization_interval: 300,
            metrics_retention_days: 30,
            alert_processing_interval: 60,
            min_reallocation_threshold: 5_000_000,
            cpu_alert_threshold: 90_000_000,
            memory_alert_threshold: 85_000_000,
        }
    }
}

impl SchedulerConfig {
    /// The settings with every value that is given in place of the default.
    pub fn from_overrides(
        optimization_interval: Option<u64>,
        metrics_retention_days: Option<i64>,
        alert_processing_interval: Option<u64>,
        min_reallocation_threshold: Option<i64>,
        cpu_alert_threshold: Option<i64>,
        memory_alert_threshold: Option<i64>,
    ) -> (r: Self)
        ensures
            r.optimization_interval == optimization_interval.unwrap_or(300),
            r.metrics_retention_days == metrics_retention_days.unwrap_or(30),
            r.alert_processing_interval == alert_processing_interval.unwrap_or(60),
            r.min_reallocation_threshold == min_reallocation_threshold.unwrap_or(5_000_000),
            r.cpu_alert_threshold == cpu_alert_threshold.unwrap_or(90_000_000),
            r.memory_alert_threshold == memory_alert_threshold.unwrap_or(85_000_000),
    {
        SchedulerConfig {
            optimization_interval: match optimization_interval {
                Some(v) => v,
                None => 300,
            },
            metrics_retention_days: match metrics_retention_days {
                Some(v) => v,
                None => 30,
            },
            alert_processing_interval: match alert_processing_interval {
                Some(v) => v,
                None => 60,
            },
            min_reallocation_threshold: match min_reallocation_threshold {
                Some(v) => v,
                None => 5_000_000,
            },
            cpu_alert_threshold: match cpu_alert_threshold {
                Some(v) => v,
                None => 90_000_000,
            },
            memory_alert_threshold: match memory_alert_threshold {
                Some(v) => v,
                None => 85_000_000,
            },
        }
    }
}

/// By how many percent of `threshold` the value `current` exceeds it, at
/// least zero and at most one hundred percent, in millionths. Against a
/// threshold of zero a value that is not negative exceeds it without bound.
pub open spec fn severity(current: int, threshold: int) -> int {
    if threshold == 0 {
        if current >= 0 {
            HUNDRED as int
        } else {
            0
        }
    } else {
        let excess = if threshold > 0 {
            quotient((current - threshold) * HUNDRED, threshold)
        } else {
            quotient(-((current - threshold) * HUNDRED), -threshold)
        };
        if excess < 0 {
            0
        } else {
            least(excess, HUNDRED as int)
        }
    }
}

/// The severity of an alert for `current_value` against `threshold`.
pub fn calculate_severity(current_value: i64, threshold: i64) -> (r: i64)
    ensures
        r == severity(current_value as int, threshold as int),
        0 <= r <= HUNDRED,
{
    if threshold == 0 {
        return if current_value >= 0 {
            HUNDRED
        } else {
            0
        };
    }
    let excess: i128 = current_value as i128 - threshold as i128;
    assert(-0x7fff_ffff_ffff_ffff_ffff_ffff_ffff_ffff <= excess * 100_000_000
        <= 0x7fff_ffff_ffff_ffff_ffff_ffff_ffff_ffff) by (nonlinear_arith)
        requires
            -0x1_0000_0000_0000_0000 <= excess <= 0x1_0000_0000_0000_0000,
    ;
    let scaled: i128 = excess * (HUNDRED as i128);
    let percent: i128 = if threshold > 0 {
        scaled / (threshold as i128)
    } else {
        (-scaled) / (-(threshold as i128))
    };
    if percent < 0 {
        0
    } else if percent > HUNDRED as i128 {
        HUNDRED
    } else {
        percent as i64
    }
}

/// An alert for a resource used beyond its threshold.
#[derive(Debug, Clone)]
pub struct ThresholdAlert {
    pub alert_type: String,
    /// By how many percent of the threshold the use exceeds it, in millionths.
    pub severity: i64,
    pub message: String,
}

/// The mathematical content of a `ThresholdAlert`.
pub struct ThresholdAlertView {
    pub alert_type: Seq<char>,
    pub severity: i64,
    pub message: Seq<char>,
}

impl View for ThresholdAlert {
    type V = ThresholdAlertView;

    open spec fn view(&self) -> ThresholdAlertView {
        ThresholdAlertView {
            alert_type: self.alert_type@,
            severity: self.severity,
            message: self.message@,
        }
    }
}

/// The alert for a resource whose use `current` is above `threshold`, if it is.
pub open spec fn threshold_alert(
    kind: Seq<char>,
    label: Seq<char>,
    current: i64,
    threshold: i64,
) -> Seq<ThresholdAlertView> {
    if current > threshold {
        seq![
            ThresholdAlertView {
                alert_type: kind,
                severity: severity(current as int, threshold as int) as i64,
                message: label + " usage at "@ + tenths_text(current as int) + "% (threshold: "@
                    + tenths_text(threshold as int) + "%)"@,
            },
        ]
    } else {
        Seq::empty()
    }
}

/// The alerts that the resource use calls for: one for the processor and
/// one for the memory, each if it is used beyond its threshold.
pub open spec fn due_alerts(config: SchedulerConfig, use_now: ResourceUtilization) -> Seq<
    ThresholdAlertView,
> {
    threshold_alert("HIGH_CPU_USAGE"@, "CPU"@, use_now.cpu_percent, config.cpu_alert_threshold)
        + threshold_alert(
        "HIGH_MEMORY_USAGE"@,
        "Memory"@,
        use_now.memory_percent,
        config.memory_alert_threshold,
    )
}

fn alert_for(kind: &str, label: &str, current: i64, threshold: i64) -> (r: ThresholdAlert)
    ensures
        r@ == (ThresholdAlertView {
            alert_type: kind@,
            severity: severity(current as int, threshold as int) as i64,
            message: label@ + " usage at "@ + tenths_text(current as int) + "% (threshold: "@
                + tenths_text(threshold as int) + "%)"@,
        }),
{
    let now = render_tenths(current);
    let bar = render_tenths(threshold);
    let mut message = join5(label, " usage at ", now.as_str(), "% (threshold: ", bar.as_str());
    message.append("%)");
    ThresholdAlert {
        alert_type: String::from_str(kind),
        severity: calculate_severity(current, threshold),
        message,
    }
}

/// The alerts that the resource use calls for.
pub fn resource_alerts(config: &SchedulerConfig, utilization: &ResourceUtilization) -> (r: Vec<
    ThresholdAlert,
>)
    ensures
        r@.map_values(|a: ThresholdAlert| a@) == due_alerts(*config, *utilization),
{
    let mut r: Vec<ThresholdAlert> = Vec::new();
    if utilization.cpu_percent > config.cpu_alert_threshold {
        r.push(alert_for("HIGH_CPU_USAGE", "CPU", utilization.cpu_percent, config.cpu_alert_threshold));
    }
    if utilization.memory_percent > config.memory_alert_threshold {
        r.push(
            alert_for(
                "HIGH_MEMORY_USAGE",
                "Memory",
                utilization.memory_percent,
                config.memory_alert_threshold,
            ),
        );
    }
    assert(r@.map_values(|a: ThresholdAlert| a@) =~= due_alerts(*config, *utilization));
    r
}

/// Days that an acknowledged alert is kept.
pub const ALERT_RETENTION_DAYS: i64 = 7;

/// The instant `days` days before `now`: what was stored before it is
/// discarded. Nothing if the instant cannot be held.
pub open spec fn cutoff(now: i64, days: i64) -> Option<i64> {
    held(now - days * DAY_MILLIS)
}

/// The instant `days` days before `now`.
pub fn cutoff_at(now: i64, days: i64) -> (r: Option<i64>)
    ensures
        r == cutoff(now, days),
{
    assert(-0x7fff_ffff_ffff_ffff_ffff_ffff_ffff <= days * 86_400_000
        <= 0x7fff_ffff_ffff_ffff_ffff_ffff_ffff) by (nonlinear_arith)
        requires
            -0x8000_0000_0000_0000 <= days <= 0x7fff_ffff_ffff_ffff,
    ;
    narrow(now as i128 - (days as i128) * (DAY_MILLIS as i128))
}

/// The instant `days` days before `now` as the stored records write their
/// instants. Nothing if the instant cannot be held or the calendar cannot
/// hold it.
pub open spec fn cutoff_text(now: i64, days: i64) -> Option<Seq<char>> {
    match cutoff(now, days) {
        Some(instant) => rfc3339_text(instant),
        None => None,
    }
}

/// The instant `days` days before `now`, written as the stored records write theirs.
pub fn written_cutoff_at(now: i64, days: i64) -> (r: Option<String>)
    ensures
        r is Some <==> cutoff_text(now, days) is Some,
        r is Some ==> Some(r->0@) == cutoff_text(now, days),
{
    match cutoff_at(now, days) {
        Some(instant) => rfc3339(instant),
        None => None,
    }
}

/// What is stored of the provider at `index` of the earnings of a snapshot
/// that is stored as `metrics_id`: its earnings, its allocation (zero if it
/// has none) and whether it is connected (not, if nothing is known).
pub open spec fn stored_part(r: ProtocolMetricsRecord, metrics_id: i64, m: MetricsView, index: int) -> bool {
    let name = m.earnings[index].0;
    &&& r.id is None
    &&& r.metrics_id == metrics_id
    &&& r.protocol_name@ == name
    &&& r.earnings_per_hour == m.earnings[index].1
    &&& r.allocation_percent == amount_or(m.allocation, name, 0)
    &&& r.connected == Some(value_of(m.status, name) == Some(true))
}

/// The records of the providers' parts in a snapshot that is stored as
/// `metrics_id`: one for each provider with earnings, in their order.
pub fn protocol_records(metrics_id: i64, metrics: &AggregatedMetrics) -> (r: Vec<
    ProtocolMetricsRecord,
>)
    ensures
        r@.len() == metrics@.earnings.len(),
        forall|i: int| 0 <= i < r@.len() ==> stored_part(#[trigger] r@[i], metrics_id, metrics@, i),
{
    let n = metrics.earnings_by_protocol.len();
    let mut r: Vec<ProtocolMetricsRecord> = Vec::new();
    let mut i: usize = 0;
    while i < n
        invariant
            n == metrics@.earnings.len(),
            i <= n,
            r@.len() == i,
            forall|j: int| 0 <= j < i ==> stored_part(#[trigger] r@[j], metrics_id, metrics@, j),
        decreases n - i,
    {
        let name = metrics.earnings_by_protocol.name_at(i);
        let allocation = match metrics.allocation_by_protocol.get(name) {
            Some(a) => a,
            None => 0,
        };
        let connected = match metrics.connection_status.get(name) {
            Some(c) => c,
            None => false,
        };
        r.push(
            ProtocolMetricsRecord::new(
                metrics_id,
                name.clone(),
                metrics.earnings_by_protocol.value_at(i),
                allocation,
                connected,
            ),
        );
        i += 1;
    }
    r
}

} // verus!
