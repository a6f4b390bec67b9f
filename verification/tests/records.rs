use depin_orcha::db::models::{
    AlertRecord, MetricsRecord, ProtocolMetricsRecord, ReallocationRecord,
};
use depin_orcha::ledger::{Ledger, StatusMap};
use depin_orcha::orchestration::ResourceUtilization;
use depin_orcha::clock::DAY_MILLIS;
use depin_orcha::scheduler::{
    cutoff_at, protocol_records, written_cutoff_at, ALERT_RETENTION_DAYS,
};
use depin_orcha::AggregatedMetrics;

fn now() -> i64 {
    chrono::Utc::now().timestamp_millis()
}

#[test]
fn test_metrics_record_creation() {
    let record =
        MetricsRecord::new(now(), 10_500_000, 50_000_000, 60_000_000, 40_000_000, 30_000_000)
            .unwrap();
    assert_eq!(record.total_earnings_per_hour, 10_500_000);
    assert_eq!(record.cpu_percent, Some(50_000_000));
}

#[test]
fn models_test_reallocation_record_creation() {
    let record = ReallocationRecord::new(
        now(),
        "streamr".to_string(),
        50_000_000,
        75_000_000,
        Some(2_500_000),
        Some("Optimization".to_string()),
    )
    .unwrap();
    assert_eq!(record.protocol_name, "streamr");
    assert_eq!(record.new_allocation, 75_000_000);
}

#[test]
fn models_test_alert_record_creation() {
    let record = AlertRecord::new(
        now(),
        "LOW_EARNINGS".to_string(),
        800_000,
        "Earnings below threshold".to_string(),
    )
    .unwrap();
    assert_eq!(record.alert_type, "LOW_EARNINGS");
    assert_eq!(record.acknowledged, Some(false));
}

#[test]
fn queries_test_reallocation_record_creation() {
    let record = ReallocationRecord::new(
        now(),
        "storj".to_string(),
        50_000_000,
        60_000_000,
        Some(1_500_000),
        Some("test".to_string()),
    )
    .unwrap();
    assert_eq!(record.protocol_name, "storj");
}

#[test]
fn queries_test_alert_record_creation() {
    let record =
        AlertRecord::new(now(), "TEST".to_string(), 500_000, "Test alert".to_string()).unwrap();
    assert_eq!(record.alert_type, "TEST");
}

#[test]
fn a_metrics_record_holds_what_it_was_given() {
    let record = MetricsRecord::new(0, 1, 2, 3, 4, 5).unwrap();
    assert_eq!(record.id, None);
    assert_eq!(record.timestamp, "1970-01-01T00:00:00+00:00");
    assert_eq!(record.total_earnings_per_hour, 1);
    assert_eq!(record.cpu_percent, Some(2));
    assert_eq!(record.memory_percent, Some(3));
    assert_eq!(record.bandwidth_percent, Some(4));
    assert_eq!(record.storage_percent, Some(5));
    assert!(record.created_at.is_some());
}

#[test]
fn a_record_writes_its_instant_by_the_calendar() {
    let record =
        AlertRecord::new(851_013_597_000, "A".to_string(), 1, "m".to_string()).unwrap();
    assert_eq!(record.timestamp, "1996-12-19T16:39:57+00:00");
    let record = AlertRecord::new(1_500, "A".to_string(), 1, "m".to_string()).unwrap();
    assert_eq!(record.timestamp, "1970-01-01T00:00:01.500+00:00");
    let record = AlertRecord::new(-1_000, "A".to_string(), 1, "m".to_string()).unwrap();
    assert_eq!(record.timestamp, "1969-12-31T23:59:59+00:00");
}

#[test]
fn an_instant_beyond_the_calendar_gives_no_record() {
    assert!(MetricsRecord::new(i64::MAX, 1, 2, 3, 4, 5).is_none());
    assert!(AlertRecord::new(i64::MIN, "A".to_string(), 1, "m".to_string()).is_none());
    assert!(ReallocationRecord::new(i64::MAX, "a".to_string(), 1, 2, None, None).is_none());
}

#[test]
fn a_record_with_a_written_instant_keeps_the_text() {
    let record = MetricsRecord::with_timestamp(7, "then".to_string(), 1, 2, 3, 4, 5);
    assert_eq!(record.timestamp, "then");
    assert_eq!(record.created_at, Some(7));
    let record = ReallocationRecord::with_timestamp(
        "then".to_string(),
        "golem".to_string(),
        10_000_000,
        20_000_000,
        None,
        None,
    );
    assert_eq!(record.timestamp, "then");
    assert_eq!(record.protocol_name, "golem");
    assert_eq!(record.old_allocation, 10_000_000);
    assert_eq!(record.new_allocation, 20_000_000);
    assert_eq!(record.earnings_impact, None);
    assert_eq!(record.reason, None);
    let record =
        AlertRecord::with_timestamp("then".to_string(), "A".to_string(), 3, "m".to_string());
    assert_eq!(record.timestamp, "then");
    assert_eq!(record.severity, 3);
    assert_eq!(record.message, "m");
    assert_eq!(record.acknowledged, Some(false));
}

#[test]
fn a_protocol_metrics_record_holds_what_it_was_given() {
    let record =
        ProtocolMetricsRecord::new(9, "grass".to_string(), 1_250_000, 25_000_000, true);
    assert_eq!(record.id, None);
    assert_eq!(record.metrics_id, 9);
    assert_eq!(record.protocol_name, "grass");
    assert_eq!(record.earnings_per_hour, 1_250_000);
    assert_eq!(record.allocation_percent, 25_000_000);
    assert_eq!(record.connected, Some(true));
}

#[test]
fn a_cutoff_lies_whole_days_back() {
    assert_eq!(cutoff_at(0, 0), Some(0));
    assert_eq!(cutoff_at(DAY_MILLIS * 30, 30), Some(0));
    assert_eq!(cutoff_at(1_000, 1), Some(1_000 - 86_400_000));
    assert_eq!(cutoff_at(5, -2), Some(5 + 2 * 86_400_000));
    assert_eq!(cutoff_at(i64::MIN, 1), None);
    assert_eq!(cutoff_at(0, i64::MAX), None);
    assert_eq!(cutoff_at(i64::MAX, -1), None);
    assert_eq!(ALERT_RETENTION_DAYS, 7);
}

#[test]
fn a_cutoff_is_written_by_the_calendar() {
    assert_eq!(
        written_cutoff_at(851_013_597_000 + 7 * DAY_MILLIS, 7),
        Some("1996-12-19T16:39:57+00:00".to_string())
    );
    assert_eq!(written_cutoff_at(DAY_MILLIS, 2), Some("1969-12-31T00:00:00+00:00".to_string()));
    assert_eq!(written_cutoff_at(i64::MIN, 1), None);
    assert_eq!(written_cutoff_at(i64::MAX, 0), None);
}

#[test]
fn each_provider_with_earnings_gets_a_record() {
    let mut earnings = Ledger::new();
    earnings.insert("a".to_string(), 3_000_000);
    earnings.insert("b".to_string(), 4_000_000);
    earnings.insert("c".to_string(), 0);
    let mut allocation = Ledger::new();
    allocation.insert("b".to_string(), 60_000_000);
    allocation.insert("a".to_string(), 40_000_000);
    let mut status = StatusMap::new();
    status.insert("a".to_string(), true);
    status.insert("b".to_string(), false);
    let metrics = AggregatedMetrics {
        timestamp: 1,
        total_earnings_per_hour: 7_000_000,
        earnings_by_protocol: earnings,
        allocation_by_protocol: allocation,
        resource_utilization: ResourceUtilization {
            cpu_percent: 0,
            memory_percent: 0,
            bandwidth_percent: 0,
            storage_percent: 0,
        },
        connection_status: status,
    };
    let records = protocol_records(17, &metrics);
    assert_eq!(records.len(), 3);
    let seen: Vec<(Option<i64>, i64, &str, i64, i64, Option<bool>)> = records
        .iter()
        .map(|r| {
            (
                r.id,
                r.metrics_id,
                r.protocol_name.as_str(),
                r.earnings_per_hour,
                r.allocation_percent,
                r.connected,
            )
        })
        .collect();
    assert_eq!(
        seen,
        vec![
            (None, 17, "a", 3_000_000, 40_000_000, Some(true)),
            (None, 17, "b", 4_000_000, 60_000_000, Some(false)),
            (None, 17, "c", 0, 0, Some(false)),
        ]
    );
}
