use depin_orcha::ledger::Ledger;
use depin_orcha::protocols::{
    AllocationStrategy, ConnectionStatus, EarningsData, HealthStatus, ResourceMetrics,
};
use depin_orcha::{OrchestrationError, ProtocolCoordinator, ProviderReading};

fn healthy() -> Option<HealthStatus> {
    Some(HealthStatus {
        is_healthy: true,
        connection_status: ConnectionStatus::Connected,
        last_operation: Some(1),
        error_message: None,
    })
}

fn usage(cpu: i64, memory: i64, bandwidth: i64, storage: i64) -> Option<ResourceMetrics> {
    Some(ResourceMetrics {
        cpu_percent: cpu,
        memory_mb: memory,
        bandwidth_mbps: bandwidth,
        storage_gb: storage,
        uptime_seconds: 60,
    })
}

fn earned(name: &str, amount: i64) -> Option<EarningsData> {
    Some(EarningsData {
        timestamp: 1,
        amount_usd: amount,
        protocol_id: name.to_string(),
        metrics: Ledger::new(),
    })
}

fn allocated(percent: i64) -> Option<AllocationStrategy> {
    Some(AllocationStrategy {
        cpu_cores: 2,
        memory_gb: 4_000_000,
        storage_gb: 50_000_000,
        bandwidth_mbps: 100_000_000,
        allocation_percent: percent,
    })
}

fn reading(name: &str, earnings: i64, allocation: i64) -> ProviderReading {
    ProviderReading {
        name: name.to_string(),
        earnings: earned(name, earnings),
        allocation: allocated(allocation),
        resources: usage(50_000_000, 60_000_000, 40_000_000, 30_000_000),
        health: healthy(),
    }
}

fn coordinator_of(names: &[&str], capacity: usize) -> ProtocolCoordinator {
    let mut coordinator = ProtocolCoordinator::new(capacity);
    for name in names {
        coordinator.register_adapter(name.to_string());
    }
    coordinator
}

#[test]
fn test_coordinator_creation() {
    let coordinator = ProtocolCoordinator::new(1000);
    assert_eq!(coordinator.registered_protocols().len(), 0);
}

#[test]
fn test_coordinator_max_history() {
    let coordinator = ProtocolCoordinator::new(5);
    assert_eq!(coordinator.max_history_size(), 5);
}

#[test]
fn test_empty_metrics() {
    let coordinator = ProtocolCoordinator::new(1000);
    let metrics = coordinator.get_current_metrics().unwrap();
    assert!(metrics.is_none());
}

#[test]
fn test_registered_protocols() {
    let coordinator = ProtocolCoordinator::new(1000);
    let protocols = coordinator.registered_protocols();
    assert_eq!(protocols.len(), 0);
}

#[test]
fn test_metrics_history_limit() {
    let coordinator = ProtocolCoordinator::new(3);
    let history = coordinator.get_metrics_history();
    assert!(history.len() <= 3);
}

#[test]
fn registering_twice_keeps_one_entry() {
    let mut coordinator = coordinator_of(&["streamr", "storj"], 10);
    coordinator.register_adapter("streamr".to_string());
    assert_eq!(coordinator.registered_protocols(), vec!["streamr".to_string(), "storj".to_string()]);
    assert!(coordinator.is_registered(&"storj".to_string()));
    assert!(!coordinator.is_registered(&"golem".to_string()));
}

#[test]
fn total_is_the_sum_of_the_earnings_collected() {
    let mut coordinator = coordinator_of(&["streamr", "storj", "golem"], 10);
    let readings = vec![
        reading("streamr", 3_000_000, 30_000_000),
        reading("storj", 4_000_000, 40_000_000),
        reading("golem", 2_500_000, 30_000_000),
    ];
    let metrics = coordinator.poll_all_at(1000, &readings).unwrap();
    assert_eq!(metrics.timestamp, 1000);
    assert_eq!(metrics.total_earnings_per_hour, 9_500_000);
    assert_eq!(metrics.earnings_by_protocol.total(), 9_500_000);
    assert_eq!(metrics.earnings_by_protocol.len(), 3);
    assert_eq!(metrics.allocation_by_protocol.get(&"storj".to_string()), Some(40_000_000));
    assert_eq!(metrics.connection_status.get(&"golem".to_string()), Some(true));
    assert_eq!(metrics.resource_utilization.cpu_percent, 50_000_000);
    assert_eq!(metrics.resource_utilization.memory_percent, 60_000_000);
    assert_eq!(metrics.resource_utilization.bandwidth_percent, 40_000_000);
    assert_eq!(metrics.resource_utilization.storage_percent, 30_000_000);
    assert_eq!(coordinator.get_last_update(), Some(1000));
}

#[test]
fn a_failed_call_is_left_out_of_its_map() {
    let mut coordinator = coordinator_of(&["a", "b"], 10);
    let readings = vec![
        ProviderReading {
            name: "a".to_string(),
            earnings: None,
            allocation: allocated(60_000_000),
            resources: None,
            health: None,
        },
        reading("b", 5_000_000, 40_000_000),
    ];
    let metrics = coordinator.poll_all_at(7, &readings).unwrap();
    assert_eq!(metrics.earnings_by_protocol.len(), 1);
    assert_eq!(metrics.earnings_by_protocol.get(&"a".to_string()), None);
    assert_eq!(metrics.total_earnings_per_hour, 5_000_000);
    assert_eq!(metrics.allocation_by_protocol.len(), 2);
    // a failed health check leaves the provider out of the status
    assert_eq!(metrics.connection_status.len(), 1);
    assert_eq!(metrics.connection_status.get(&"a".to_string()), None);
    assert!(!metrics.connection_status.contains_key(&"a".to_string()));
    assert_eq!(metrics.connection_status.get(&"b".to_string()), Some(true));
    // the mean is over those that responded
    assert_eq!(metrics.resource_utilization.cpu_percent, 50_000_000);
}

#[test]
fn unhealthy_or_unconnected_providers_count_as_disconnected() {
    let mut coordinator = coordinator_of(&["a", "b"], 10);
    let mut first = reading("a", 1, 1);
    first.health = Some(HealthStatus {
        is_healthy: true,
        connection_status: ConnectionStatus::Reconnecting,
        last_operation: None,
        error_message: None,
    });
    let mut second = reading("b", 1, 1);
    second.health = Some(HealthStatus {
        is_healthy: false,
        connection_status: ConnectionStatus::Connected,
        last_operation: None,
        error_message: Some("sick".to_string()),
    });
    let metrics = coordinator.poll_all_at(7, &vec![first, second]).unwrap();
    assert_eq!(metrics.connection_status.get(&"a".to_string()), Some(false));
    assert_eq!(metrics.connection_status.get(&"b".to_string()), Some(false));
}

#[test]
fn readings_of_unregistered_providers_are_ignored() {
    let mut coordinator = coordinator_of(&["a"], 10);
    let readings = vec![reading("a", 2_000_000, 100_000_000), reading("ghost", 9_000_000, 50_000_000)];
    let metrics = coordinator.poll_all_at(7, &readings).unwrap();
    assert_eq!(metrics.total_earnings_per_hour, 2_000_000);
    assert_eq!(metrics.earnings_by_protocol.len(), 1);
    assert_eq!(metrics.connection_status.len(), 1);
    assert_eq!(metrics.allocation_by_protocol.get(&"ghost".to_string()), None);
}

#[test]
fn utilization_is_zero_when_nobody_responded() {
    let mut coordinator = coordinator_of(&["a"], 10);
    let metrics = coordinator.poll_all_at(7, &Vec::new()).unwrap();
    assert_eq!(metrics.total_earnings_per_hour, 0);
    assert_eq!(metrics.resource_utilization.cpu_percent, 0);
    assert_eq!(metrics.resource_utilization.memory_percent, 0);
    assert_eq!(metrics.resource_utilization.bandwidth_percent, 0);
    assert_eq!(metrics.resource_utilization.storage_percent, 0);
    assert_eq!(metrics.connection_status.len(), 0);
}

#[test]
fn utilization_is_the_mean_capped_at_one_hundred() {
    let mut coordinator = coordinator_of(&["a", "b", "c"], 10);
    let mut a = reading("a", 0, 0);
    a.resources = usage(10_000_000, 16_384_000_000, 75_000_000, 1);
    let mut b = reading("b", 0, 0);
    b.resources = usage(20_000_000, 8_192_000_000, 200_000_000, 1);
    let mut c = reading("c", 0, 0);
    c.resources = usage(40_000_001, 1, 26_000_000, 2);
    let metrics = coordinator.poll_all_at(7, &vec![a, b, c]).unwrap();
    // 70.000001 / 3, rounded toward zero
    assert_eq!(metrics.resource_utilization.cpu_percent, 23_333_333);
    assert_eq!(metrics.resource_utilization.memory_percent, 100_000_000);
    // 301 / 3 is above one hundred
    assert_eq!(metrics.resource_utilization.bandwidth_percent, 100_000_000);
    assert_eq!(metrics.resource_utilization.storage_percent, 1);
}

#[test]
fn a_negative_mean_is_rounded_toward_zero() {
    let mut coordinator = coordinator_of(&["a", "b"], 10);
    let mut a = reading("a", 0, 0);
    a.resources = usage(-3, i64::MIN, i64::MAX, 0);
    let mut b = reading("b", 0, 0);
    b.resources = usage(0, i64::MIN, i64::MAX, 0);
    let metrics = coordinator.poll_all_at(7, &vec![a, b]).unwrap();
    assert_eq!(metrics.resource_utilization.cpu_percent, -1);
    assert_eq!(metrics.resource_utilization.memory_percent, i64::MIN);
    assert_eq!(metrics.resource_utilization.bandwidth_percent, 100_000_000);
}

#[test]
fn the_oldest_snapshot_is_evicted_beyond_the_capacity() {
    let mut coordinator = coordinator_of(&["a"], 3);
    for t in 1..=5 {
        coordinator.poll_all_at(t, &vec![reading("a", t, 100_000_000)]).unwrap();
    }
    let history = coordinator.get_metrics_history();
    assert_eq!(history.len(), 3);
    assert_eq!(history[0].timestamp, 3);
    assert_eq!(history[1].timestamp, 4);
    assert_eq!(history[2].timestamp, 5);
    assert_eq!(coordinator.get_current_metrics().unwrap().unwrap().timestamp, 5);
    assert_eq!(coordinator.calculate_total_earnings().unwrap(), 12);
}

#[test]
fn a_capacity_of_zero_keeps_nothing() {
    let mut coordinator = coordinator_of(&["a"], 0);
    let metrics = coordinator.poll_all_at(1, &vec![reading("a", 1, 1)]).unwrap();
    assert_eq!(metrics.total_earnings_per_hour, 1);
    assert_eq!(coordinator.get_metrics_history().len(), 0);
    assert!(coordinator.get_current_metrics().unwrap().is_none());
    assert_eq!(coordinator.get_last_update(), Some(1));
}

#[test]
fn current_metrics_are_the_same_when_asked_twice() {
    let mut coordinator = coordinator_of(&["a", "b"], 10);
    coordinator.poll_all_at(1, &vec![reading("a", 3, 50), reading("b", 4, 50)]).unwrap();
    let first = coordinator.get_current_metrics().unwrap().unwrap();
    let second = coordinator.get_current_metrics().unwrap().unwrap();
    assert_eq!(first.timestamp, second.timestamp);
    assert_eq!(first.total_earnings_per_hour, second.total_earnings_per_hour);
    assert_eq!(first.earnings_by_protocol.len(), second.earnings_by_protocol.len());
    assert_eq!(first.earnings_by_protocol.get(&"a".to_string()),
        second.earnings_by_protocol.get(&"a".to_string()));
    assert_eq!(first.allocation_by_protocol.get(&"b".to_string()),
        second.allocation_by_protocol.get(&"b".to_string()));
    assert_eq!(first.resource_utilization, second.resource_utilization);
    assert_eq!(first.connection_status.get(&"a".to_string()),
        second.connection_status.get(&"a".to_string()));
}

#[test]
fn metrics_for_a_period_include_both_ends() {
    let mut coordinator = coordinator_of(&["a"], 10);
    for t in [10, 20, 30, 40] {
        coordinator.poll_all_at(t, &vec![reading("a", t, 1)]).unwrap();
    }
    let inside = coordinator.get_metrics_for_period(20, 30).unwrap();
    assert_eq!(inside.len(), 2);
    assert_eq!(inside[0].timestamp, 20);
    assert_eq!(inside[1].timestamp, 30);
    assert_eq!(coordinator.get_metrics_for_period(21, 29).unwrap().len(), 0);
    assert_eq!(coordinator.get_metrics_for_period(40, 10).unwrap().len(), 0);
    assert_eq!(coordinator.get_metrics_for_period(i64::MIN, i64::MAX).unwrap().len(), 4);
}

#[test]
fn earnings_that_take_the_total_out_of_range_are_left_out() {
    let mut coordinator = coordinator_of(&["a", "b", "c"], 10);
    coordinator.poll_all_at(1, &vec![reading("a", 1, 1)]).unwrap();
    let readings = vec![reading("a", i64::MAX, 1), reading("b", 1, 1), reading("c", -5, 1)];
    let metrics = coordinator.poll_all_at(2, &readings).unwrap();
    assert_eq!(metrics.earnings_by_protocol.get(&"a".to_string()), Some(i64::MAX));
    assert_eq!(metrics.earnings_by_protocol.get(&"b".to_string()), None);
    assert_eq!(metrics.earnings_by_protocol.get(&"c".to_string()), Some(-5));
    assert_eq!(metrics.total_earnings_per_hour, i64::MAX - 5);
    // the rest of the reading is kept
    assert_eq!(metrics.allocation_by_protocol.get(&"b".to_string()), Some(1));
    assert_eq!(metrics.connection_status.get(&"b".to_string()), Some(true));
    assert_eq!(coordinator.get_metrics_history().len(), 2);
    assert_eq!(coordinator.get_last_update(), Some(2));
    // one below the limit is held
    let readings = vec![reading("a", i64::MAX - 1, 1), reading("b", 1, 1)];
    assert_eq!(coordinator.poll_all_at(3, &readings).unwrap().total_earnings_per_hour, i64::MAX);
    // a second reading of a provider replaces the first, and the total follows
    let readings = vec![reading("a", i64::MAX, 1), reading("a", 2, 1), reading("b", 3, 1)];
    let metrics = coordinator.poll_all_at(4, &readings).unwrap();
    assert_eq!(metrics.earnings_by_protocol.len(), 2);
    assert_eq!(metrics.total_earnings_per_hour, 5);
}

#[test]
fn the_total_is_the_sum_of_the_earnings_in_every_poll() {
    let mut coordinator = coordinator_of(&["a", "b", "c"], 10);
    let polls = vec![
        vec![],
        vec![reading("a", 3_000_000, 1)],
        vec![reading("a", i64::MAX, 1), reading("b", i64::MAX, 1), reading("c", i64::MIN, 1)],
        vec![reading("a", i64::MIN, 1), reading("b", -1, 1), reading("c", 7, 1)],
    ];
    for (now, readings) in polls.iter().enumerate() {
        let metrics = coordinator.poll_all_at(now as i64, readings).unwrap();
        let earnings = &metrics.earnings_by_protocol;
        let sum: i128 = (0..earnings.len()).map(|i| earnings.value_at(i) as i128).sum();
        assert_eq!(metrics.total_earnings_per_hour as i128, sum);
    }
}

#[test]
fn total_earnings_over_the_history() {
    let mut coordinator = coordinator_of(&["a"], 10);
    assert_eq!(coordinator.calculate_total_earnings().unwrap(), 0);
    coordinator.poll_all_at(1, &vec![reading("a", i64::MAX, 1)]).unwrap();
    assert_eq!(coordinator.calculate_total_earnings().unwrap(), i64::MAX);
    coordinator.poll_all_at(2, &vec![reading("a", 1, 1)]).unwrap();
    assert!(matches!(
        coordinator.calculate_total_earnings(),
        Err(OrchestrationError::CalculationError(_))
    ));
    coordinator.poll_all_at(3, &vec![reading("a", -1, 1)]).unwrap();
    assert_eq!(coordinator.calculate_total_earnings().unwrap(), i64::MAX);
}

#[test]
fn clearing_the_history_keeps_the_registry() {
    let mut coordinator = coordinator_of(&["a"], 10);
    coordinator.poll_all_at(1, &vec![reading("a", 1, 1)]).unwrap();
    coordinator.clear_history();
    assert_eq!(coordinator.get_metrics_history().len(), 0);
    assert!(coordinator.get_current_metrics().unwrap().is_none());
    assert_eq!(coordinator.registered_protocols().len(), 1);
    assert_eq!(coordinator.get_last_update(), Some(1));
}

#[test]
fn polling_is_stamped_with_the_clock() {
    let mut coordinator = coordinator_of(&["a"], 10);
    assert_eq!(coordinator.get_last_update(), None);
    let metrics = coordinator.poll_all(&vec![reading("a", 1, 1)]).unwrap();
    // some instant after the year 2020
    assert!(metrics.timestamp > 1_577_836_800_000);
    assert_eq!(coordinator.get_last_update(), Some(metrics.timestamp));
}

#[test]
fn status_of_a_registered_provider() {
    let coordinator = coordinator_of(&["a"], 10);
    let status = coordinator.get_protocol_status(&"a".to_string(), &reading("a", 3, 4)).unwrap();
    assert_eq!(status.protocol_name, "a");
    assert_eq!(status.earnings_per_hour, 3);
    assert_eq!(status.allocation_percent, 4);
    assert!(status.resources.is_some());
    assert!(status.health_status.unwrap().is_healthy);
    let silent = ProviderReading {
        name: "a".to_string(),
        earnings: None,
        allocation: None,
        resources: None,
        health: None,
    };
    let status = coordinator.get_protocol_status(&"a".to_string(), &silent).unwrap();
    assert_eq!(status.earnings_per_hour, 0);
    assert_eq!(status.allocation_percent, 0);
    assert!(status.resources.is_none());
    assert!(status.health_status.is_none());
}

#[test]
fn status_of_an_unregistered_provider_is_a_coordination_error() {
    let coordinator = coordinator_of(&["a"], 10);
    match coordinator.get_protocol_status(&"ghost".to_string(), &reading("ghost", 3, 4)) {
        Err(OrchestrationError::CoordinationError(m)) => {
            assert_eq!(m, "Protocol ghost not registered")
        },
        _ => panic!("a coordination error"),
    }
}
