use depin_orcha::orchestration::reallocation::ProviderCall;
use depin_orcha::protocols::{
    check_allocation, AdapterState, AllocationLimits, AllocationStrategy, ConnectionStatus,
    ProtocolError,
};
use depin_orcha::text::{render_plain, render_tenths};

fn strategy(percent: i64) -> AllocationStrategy {
    AllocationStrategy {
        cpu_cores: 4,
        memory_gb: 8_000_000,
        storage_gb: 100_000_000,
        bandwidth_mbps: 200_000_000,
        allocation_percent: percent,
    }
}

fn open_limits(min: i64, max: i64) -> AllocationLimits {
    AllocationLimits {
        min_allocation_percent: min,
        max_allocation_percent: max,
        max_cpu_cores: None,
        max_memory_gb: None,
        max_storage_gb: None,
        max_bandwidth_mbps: None,
    }
}

fn refusal(limits: &AllocationLimits, strategy: &AllocationStrategy) -> String {
    match check_allocation(limits, strategy) {
        Err(ProtocolError::AllocationError(m)) => m,
        Err(e) => panic!("an allocation error, not {}", e.to_string()),
        Ok(()) => String::new(),
    }
}

#[test]
fn an_allocation_within_the_limits_is_taken() {
    // between five and thirty percent
    let mut adapter = AdapterState::new(strategy(20_000_000), open_limits(5_000_000, 30_000_000));

    assert!(adapter.apply_allocation(strategy(25_000_000)).is_ok());

    let current = adapter.get_current_allocation();
    assert_eq!(current.allocation_percent, 25_000_000);
}

#[test]
fn allocations_beyond_range_or_cores_are_refused() {
    // between ten and forty percent, eight cores, sixteen gigabytes
    let limits = AllocationLimits {
        max_cpu_cores: Some(8),
        max_memory_gb: Some(16_000_000),
        ..open_limits(10_000_000, 40_000_000)
    };
    let mut adapter = AdapterState::new(strategy(30_000_000), limits);

    // Valid allocation
    assert!(adapter.apply_allocation(strategy(25_000_000)).is_ok());

    // Invalid: too high allocation
    assert!(adapter.apply_allocation(strategy(50_000_000)).is_err());

    // Invalid: too many CPU cores
    let greedy = AllocationStrategy { cpu_cores: 16, ..strategy(25_000_000) };
    assert!(adapter.apply_allocation(greedy).is_err());

    // what was refused has changed nothing
    assert_eq!(adapter.get_current_allocation(), strategy(25_000_000));
}

#[test]
fn allocations_beyond_range_or_bandwidth_are_refused() {
    // between twenty and one hundred percent, a thousand megabits
    let limits = AllocationLimits {
        max_bandwidth_mbps: Some(1_000_000_000),
        ..open_limits(20_000_000, 100_000_000)
    };
    let mut adapter = AdapterState::new(strategy(75_000_000), limits);

    let valid = AllocationStrategy { bandwidth_mbps: 800_000_000, ..strategy(80_000_000) };
    assert!(adapter.apply_allocation(valid).is_ok());

    // Invalid: too low allocation
    assert!(adapter.apply_allocation(strategy(10_000_000)).is_err());

    // Invalid: bandwidth too high
    let wide = AllocationStrategy { bandwidth_mbps: 1_500_000_000, ..strategy(80_000_000) };
    assert!(adapter.apply_allocation(wide).is_err());
    assert_eq!(adapter.get_current_allocation(), valid);
}

#[test]
fn allocations_beyond_range_or_storage_are_refused() {
    // between ten and fifty percent, a thousand gigabytes
    let limits =
        AllocationLimits { max_storage_gb: Some(1_000_000_000), ..open_limits(10_000_000, 50_000_000) };
    let mut adapter = AdapterState::new(strategy(30_000_000), limits);

    assert!(adapter.apply_allocation(strategy(40_000_000)).is_ok());
    assert!(adapter.apply_allocation(strategy(60_000_000)).is_err());
    let full = AllocationStrategy { storage_gb: 1_000_000_001, ..strategy(40_000_000) };
    assert!(adapter.apply_allocation(full).is_err());
    assert_eq!(adapter.get_current_allocation(), strategy(40_000_000));
}

#[test]
fn refusals_name_their_reason_in_order() {
    let limits = AllocationLimits {
        min_allocation_percent: 10_000_000,
        max_allocation_percent: 40_500_000,
        max_cpu_cores: Some(2),
        max_memory_gb: Some(1),
        max_storage_gb: Some(1),
        max_bandwidth_mbps: Some(1),
    };
    assert_eq!(
        refusal(&limits, &strategy(9_999_999)),
        "Allocation must be between 10 and 40.5%"
    );
    assert_eq!(
        refusal(&limits, &strategy(40_500_001)),
        "Allocation must be between 10 and 40.5%"
    );
    assert_eq!(refusal(&limits, &strategy(10_000_000)), "CPU cores allocation exceeds available");
    let fewer_cores = AllocationStrategy { cpu_cores: 2, ..strategy(40_500_000) };
    assert_eq!(refusal(&limits, &fewer_cores), "Memory allocation exceeds available");
    let less_memory = AllocationStrategy { memory_gb: 1, ..fewer_cores };
    assert_eq!(refusal(&limits, &less_memory), "Storage allocation exceeds limit");
    let less_storage = AllocationStrategy { storage_gb: 1, ..less_memory };
    assert_eq!(refusal(&limits, &less_storage), "Bandwidth allocation exceeds maximum");
    let modest = AllocationStrategy { bandwidth_mbps: 1, ..less_storage };
    assert!(check_allocation(&limits, &modest).is_ok());
    assert!(check_allocation(&open_limits(i64::MIN, i64::MAX), &strategy(0)).is_ok());
}

#[test]
fn connecting_and_disconnecting_keep_the_allocation() {
    let mut adapter = AdapterState::new(strategy(20_000_000), open_limits(5_000_000, 30_000_000));
    assert_eq!(adapter.status, ConnectionStatus::Disconnected);
    assert_eq!(adapter.connected_at, None);
    adapter.begin_connect();
    assert_eq!(adapter.status, ConnectionStatus::Connecting);
    adapter.connect_at(1000);
    assert_eq!(adapter.status, ConnectionStatus::Connected);
    assert_eq!(adapter.connected_at, Some(1000));
    adapter.disconnect();
    assert_eq!(adapter.status, ConnectionStatus::Disconnected);
    assert_eq!(adapter.connected_at, None);
    // disconnecting again changes nothing
    let before = adapter;
    adapter.disconnect();
    assert_eq!(adapter, before);
    // the allocation is kept throughout
    assert_eq!(adapter.get_current_allocation(), strategy(20_000_000));
}

#[test]
fn a_provider_is_healthy_exactly_when_connected() {
    let mut adapter = AdapterState::new(strategy(20_000_000), open_limits(5_000_000, 30_000_000));
    let health = adapter.health_check_at(5, "Streamr");
    assert!(!health.is_healthy);
    assert_eq!(health.connection_status, ConnectionStatus::Disconnected);
    assert_eq!(health.last_operation, Some(5));
    assert_eq!(health.error_message, Some("Not connected to Streamr".to_string()));
    assert!(!health.is_connected());
    adapter.begin_connect();
    assert!(!adapter.health_check_at(5, "Streamr").is_healthy);
    adapter.connect_at(6);

    let health = adapter.health_check_at(7, "Streamr");
    assert!(health.is_healthy);
    assert_eq!(health.error_message, None);
    assert_eq!(health.last_operation, Some(7));
    assert!(health.is_connected());
}

#[test]
fn uptime_counts_whole_seconds_since_the_connection() {
    let mut adapter = AdapterState::new(strategy(20_000_000), open_limits(5_000_000, 30_000_000));
    assert_eq!(adapter.uptime_seconds_at(10_000), 0);
    adapter.connect_at(10_000);
    assert_eq!(adapter.uptime_seconds_at(10_000), 0);
    assert_eq!(adapter.uptime_seconds_at(10_999), 0);
    assert_eq!(adapter.uptime_seconds_at(11_000), 1);
    assert_eq!(adapter.uptime_seconds_at(3_610_000), 3600);
    // a clock that went back
    assert_eq!(adapter.uptime_seconds_at(9_000), 0);
    adapter.connect_at(i64::MIN);
    assert_eq!(adapter.uptime_seconds_at(i64::MAX), 18_446_744_073_709_551);
    adapter.disconnect();
    assert_eq!(adapter.uptime_seconds_at(i64::MAX), 0);
}

#[test]
fn a_call_carries_the_resources_of_a_reallocation() {
    let call = ProviderCall { provider: "a".to_string(), allocation_percent: 33_000_000, restoring: false };
    assert_eq!(
        call.strategy(),
        AllocationStrategy {
            cpu_cores: 4,
            memory_gb: 8_000_000,
            storage_gb: 100_000_000,
            bandwidth_mbps: 200_000_000,
            allocation_percent: 33_000_000,
        }
    );
}

#[test]
fn plain_rendering_has_as_many_decimals_as_needed() {
    assert_eq!(render_plain(0), "0");
    assert_eq!(render_plain(5_000_000), "5");
    assert_eq!(render_plain(12_500_000), "12.5");
    assert_eq!(render_plain(100_000_000), "100");
    assert_eq!(render_plain(33_333_333), "33.333333");
    assert_eq!(render_plain(1), "0.000001");
    assert_eq!(render_plain(-1), "-0.000001");
    assert_eq!(render_plain(-40_500_000), "-40.5");
    assert_eq!(render_plain(1_000_100), "1.0001");
    assert_eq!(render_plain(10), "0.00001");
    assert_eq!(render_plain(i64::MIN as i128), "-9223372036854.775808");
    assert_eq!(render_plain(i128::MIN), "-170141183460469231731687303715884.105728");
}

#[test]
fn tenths_rendering_has_one_decimal() {
    assert_eq!(render_tenths(0), "0.0");
    assert_eq!(render_tenths(94_560_000), "94.5");
    assert_eq!(render_tenths(90_000_000), "90.0");
    assert_eq!(render_tenths(-1_250_000), "-1.2");
    assert_eq!(render_tenths(99_999), "0.0");
    assert_eq!(render_tenths(i64::MIN), "-9223372036854.7");
}
