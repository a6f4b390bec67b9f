use depin_orcha::protocols::golem::{GolemAdapter, GolemConfig};
use depin_orcha::protocols::grass::{GrassAdapter, GrassConfig};
use depin_orcha::protocols::storj::{StorjAdapter, StorjConfig};
use depin_orcha::protocols::streamr::{StreamrAdapter, StreamrConfig};
use depin_orcha::clock::HOUR_MILLIS;
use depin_orcha::protocols::{
    earnings_history, hours_in_seconds, AllocationStrategy, ConnectionStatus, ProtocolError, Trend,
};

const NOW: i64 = 1_700_000_000_000;

fn strategy(cores: u32, memory: i64, storage: i64, bandwidth: i64, percent: i64) -> AllocationStrategy {
    AllocationStrategy {
        cpu_cores: cores,
        memory_gb: memory,
        storage_gb: storage,
        bandwidth_mbps: bandwidth,
        allocation_percent: percent,
    }
}

fn streamr() -> StreamrAdapter {
    StreamrAdapter::new(StreamrConfig { private_key: "test_key".to_string(), ..Default::default() })
}

fn storj() -> StorjAdapter {
    StorjAdapter::new(StorjConfig {
        node_id: "test_node".to_string(),
        wallet_address: "0x123...".to_string(),
        ..Default::default()
    })
}

fn golem() -> GolemAdapter {
    GolemAdapter::new(GolemConfig { eth_wallet: "0x123...".to_string(), ..Default::default() })
}

fn grass() -> GrassAdapter {
    GrassAdapter::new(GrassConfig {
        auth_token: "test_token".to_string(),
        email: "test@example.com".to_string(),
        ..Default::default()
    })
}

#[test]
fn test_streamr_creation() {
    let adapter = streamr();
    assert_eq!(adapter.protocol_name(), "Streamr Network");
}

#[test]
fn test_streamr_connect_disconnect() {
    let mut adapter = streamr();

    assert!(adapter.connect_at(NOW).is_ok());
    assert!(adapter.disconnect().is_ok());
}

#[test]
fn test_streamr_earnings() {
    let mut adapter = streamr();
    adapter.connect_at(NOW).unwrap();

    let earnings = adapter.get_current_earnings_at(NOW).unwrap();
    assert_eq!(earnings.protocol_id, "streamr");
    assert!(earnings.amount_usd >= 0);
}

#[test]
fn test_streamr_allocation() {
    let mut adapter = streamr();

    let strategy = strategy(4, 8_000_000, 100_000_000, 200_000_000, 25_000_000);

    assert!(adapter.apply_allocation(strategy).is_ok());

    let current = adapter.get_current_allocation().unwrap();
    assert_eq!(current.allocation_percent, 25_000_000);
}

#[test]
fn test_streamr_health_check() {
    let mut adapter = streamr();
    adapter.connect_at(NOW).unwrap();

    let health = adapter.health_check_at(NOW).unwrap();
    assert!(health.is_healthy);
}

#[test]
fn streamr_defaults_and_start() {
    let config = StreamrConfig::default();
    assert_eq!(config.api_endpoint, "https://core.streamr.network/api/v1");
    assert!(config.private_key.is_empty());
    assert!(config.streams.is_empty());
    assert_eq!(config.publish_interval_seconds, 60);
    assert_eq!(config.min_allocation_percent, 5_000_000);
    assert_eq!(config.max_allocation_percent, 30_000_000);
    let adapter = StreamrAdapter::new(config);
    assert_eq!(adapter.connection_status(), ConnectionStatus::Disconnected);
    assert_eq!(
        adapter.get_current_allocation().unwrap(),
        strategy(2, 4_000_000, 50_000_000, 100_000_000, 20_000_000)
    );
    assert_eq!(adapter.connection_uptime_seconds, 0);
    assert_eq!(adapter.health_figures().len(), 0);
}

#[test]
fn streamr_cannot_connect_without_a_key() {
    let mut adapter = StreamrAdapter::new(StreamrConfig::default());
    match adapter.connect_at(NOW) {
        Err(ProtocolError::AuthenticationError(m)) => assert_eq!(m, "Private key not configured"),
        _ => panic!("an authentication error"),
    }
    assert_eq!(adapter.connection_status(), ConnectionStatus::Disconnected);
    let mut adapter = streamr();
    assert!(adapter.begin_connect().is_ok());
    assert_eq!(adapter.connection_status(), ConnectionStatus::Connecting);
    adapter.complete_connect_at(NOW);
    assert_eq!(adapter.connection_status(), ConnectionStatus::Connected);
    assert_eq!(adapter.state.connected_at, Some(NOW));
}

#[test]
fn streamr_earns_half_a_unit_an_hour_at_full_allocation() {
    let mut adapter = streamr();
    adapter.connect_at(NOW).unwrap();
    // nothing is earned before the uptime is brought up to date
    assert_eq!(adapter.get_current_earnings_at(NOW + 2 * HOUR_MILLIS).unwrap().amount_usd, 0);
    let usage = adapter.get_resource_usage_at(NOW + 2 * HOUR_MILLIS).unwrap();
    assert_eq!(usage.uptime_seconds, 7200);
    assert_eq!(usage.cpu_percent, 25_000_000);
    assert_eq!(usage.memory_mb, 512_000_000);
    assert_eq!(usage.bandwidth_mbps, 45_000_000);
    assert_eq!(usage.storage_gb, 2_500_000);
    // 0.5 * 20 / 100 * 2 hours
    let earnings = adapter.get_current_earnings_at(NOW + 2 * HOUR_MILLIS).unwrap();
    assert_eq!(earnings.amount_usd, 200_000);
    assert_eq!(earnings.timestamp, NOW + 2 * HOUR_MILLIS);
    assert_eq!(earnings.metrics.get(&"allocation_percent".to_string()), Some(20_000_000));
    assert_eq!(earnings.metrics.get(&"cpu_cores".to_string()), Some(2_000_000));
    assert!(adapter.apply_allocation(strategy(1, 1, 1, 1, 30_000_000)).is_ok());
    assert_eq!(adapter.calculate_current_earnings().unwrap(), 300_000);
    // one second at five percent: 0.025 / 3600, cut off
    assert!(adapter.apply_allocation(strategy(1, 1, 1, 1, 5_000_000)).is_ok());
    adapter.connection_uptime_seconds = 1;
    assert_eq!(adapter.calculate_current_earnings().unwrap(), 6);
    assert!(adapter.apply_allocation(strategy(1, 1, 1, 1, 4_999_999)).is_err());
}

#[test]
fn streamr_earnings_fade_into_the_past() {
    let mut adapter = streamr();
    adapter.connect_at(NOW).unwrap();
    adapter.update_uptime_at(NOW + 10 * HOUR_MILLIS);
    assert_eq!(adapter.calculate_current_earnings().unwrap(), 1_000_000);
    let history = adapter.get_historical_earnings_at(NOW, 4).unwrap();
    assert_eq!(history.len(), 4);
    let amounts: Vec<i64> = history.iter().map(|e| e.amount_usd).collect();
    // 1 - (i / 4) * 0.3
    assert_eq!(amounts, vec![1_000_000, 925_000, 850_000, 775_000]);
    let instants: Vec<i64> = history.iter().map(|e| e.timestamp).collect();
    assert_eq!(instants, vec![NOW, NOW - HOUR_MILLIS, NOW - 2 * HOUR_MILLIS, NOW - 3 * HOUR_MILLIS]);
    assert!(history.iter().all(|e| e.protocol_id == "streamr" && e.metrics.len() == 0));
    assert_eq!(adapter.get_historical_earnings_at(NOW, 0).unwrap().len(), 0);
}

#[test]
fn earnings_that_cannot_be_held_are_a_data_error() {
    let mut adapter = StreamrAdapter::new(StreamrConfig {
        private_key: "k".to_string(),
        max_allocation_percent: i64::MAX,
        ..Default::default()
    });
    assert!(adapter.apply_allocation(strategy(1, 1, 1, 1, i64::MAX)).is_ok());
    adapter.connection_uptime_seconds = u64::MAX;
    match adapter.calculate_current_earnings() {
        Err(ProtocolError::DataError(m)) => assert_eq!(m, "Earnings out of range"),
        _ => panic!("a data error"),
    }
    assert!(matches!(adapter.get_current_earnings_at(NOW), Err(ProtocolError::DataError(_))));
    assert!(matches!(adapter.get_historical_earnings_at(NOW, 1), Err(ProtocolError::DataError(_))));
    // an instant before the beginning of time
    assert!(matches!(
        earnings_history(Trend::Fading, i64::MIN, 2, 5, "x"),
        Err(ProtocolError::DataError(_))
    ));
    assert_eq!(earnings_history(Trend::Fading, i64::MIN, 1, 5, "x").unwrap()[0].timestamp, i64::MIN);
}

#[test]
fn trends_weigh_the_past() {
    let amounts = |trend: Trend, hours: u32| -> Vec<i64> {
        earnings_history(trend, NOW, hours, 1_000_000, "x").unwrap().iter().map(|e| e.amount_usd).collect()
    };
    assert_eq!(amounts(Trend::Fading, 2), vec![1_000_000, 850_000]);
    assert_eq!(amounts(Trend::Settling, 2), vec![1_000_000, 900_000]);
    // 1 / (1 + (i / 2) * 0.5)
    assert_eq!(amounts(Trend::Growing, 2), vec![1_000_000, 800_000]);
    // 0.8 + ((i % 20) / 20) * 0.4
    let wavering = amounts(Trend::Wavering, 22);
    assert_eq!(wavering[0], 800_000);
    assert_eq!(wavering[1], 820_000);
    assert_eq!(wavering[19], 1_180_000);
    assert_eq!(wavering[20], 800_000);
    assert_eq!(wavering[21], 820_000);
    // a negative amount is cut off toward zero
    let history = earnings_history(Trend::Fading, NOW, 3, -10, "x").unwrap();
    assert_eq!(history[1].amount_usd, -9);
    assert_eq!(history[2].amount_usd, -8);
}

#[test]
fn test_storj_creation() {
    let adapter = storj();
    assert_eq!(adapter.protocol_name(), "Storj Network");
}

#[test]
fn test_storj_connect_requires_config() {
    let config = StorjConfig::default();
    let mut adapter = StorjAdapter::new(config);
    assert!(adapter.connect_at(NOW).is_err());
}

#[test]
fn test_storj_connect_disconnect() {
    let mut adapter = storj();

    assert!(adapter.connect_at(NOW).is_ok());
    assert!(adapter.disconnect().is_ok());
}

#[test]
fn test_storj_earnings() {
    let mut adapter = storj();
    adapter.connect_at(NOW).unwrap();

    let earnings = adapter.get_current_earnings_at(NOW).unwrap();
    assert_eq!(earnings.protocol_id, "storj");
    assert!(earnings.amount_usd >= 0);
}

#[test]
fn test_storj_allocation_validation() {
    let config = StorjConfig {
        node_id: "test_node".to_string(),
        wallet_address: "0x123...".to_string(),
        allocated_storage_gb: 100_000_000,
        ..Default::default()
    };
    let mut adapter = StorjAdapter::new(config);

    // Valid allocation
    let valid = strategy(1, 2_000_000, 50_000_000, 50_000_000, 30_000_000);
    assert!(adapter.apply_allocation(valid).is_ok());

    // Storage exceeds allocation
    let invalid = strategy(1, 2_000_000, 150_000_000, 50_000_000, 30_000_000);
    assert!(adapter.apply_allocation(invalid).is_err());
    assert_eq!(adapter.get_current_allocation().unwrap(), valid);
}

#[test]
fn storj_defaults_and_start() {
    let config = StorjConfig::default();
    assert_eq!(config.api_endpoint, "https://satellite.storj.io/api");
    assert_eq!(config.allocated_storage_gb, 1_000_000_000);
    assert_eq!(config.min_allocation_percent, 10_000_000);
    assert_eq!(config.max_allocation_percent, 50_000_000);
    let adapter = StorjAdapter::new(config);
    assert_eq!(
        adapter.get_current_allocation().unwrap(),
        strategy(1, 2_000_000, 1_000_000_000, 50_000_000, 30_000_000)
    );
    assert_eq!(adapter.storage_used_gb, 0);
    assert_eq!(adapter.connection_status(), ConnectionStatus::Disconnected);
}

#[test]
fn storj_cannot_connect_without_identifier_or_wallet() {
    let mut adapter = StorjAdapter::new(StorjConfig::default());
    match adapter.begin_connect() {
        Err(ProtocolError::AuthenticationError(m)) => assert_eq!(m, "Node ID not configured"),
        _ => panic!("an authentication error"),
    }
    let mut adapter =
        StorjAdapter::new(StorjConfig { node_id: "n".to_string(), ..Default::default() });
    match adapter.begin_connect() {
        Err(ProtocolError::ConfigurationError(m)) => assert_eq!(m, "Wallet address not configured"),
        _ => panic!("a configuration error"),
    }
    assert_eq!(adapter.connection_status(), ConnectionStatus::Disconnected);
}

#[test]
fn storj_earns_by_the_storage_it_fills() {
    let mut adapter = storj();
    adapter.connect_at(NOW).unwrap();
    assert_eq!(adapter.storage_used_gb, 50_000_000);
    let usage = adapter.get_resource_usage_at(NOW + 3 * HOUR_MILLIS + 59 * 60_000).unwrap();
    assert_eq!(adapter.uptime_hours, 3);
    assert_eq!(usage.uptime_seconds, 3 * 3600);
    assert_eq!(usage.storage_gb, 50_000_000);
    assert_eq!(usage.cpu_percent, 10_000_000);
    assert_eq!(usage.memory_mb, 256_000_000);
    assert_eq!(usage.bandwidth_mbps, 25_000_000);
    // 0.3 * (50 / 1000) * 30 / 100 per hour, for three hours
    let earnings = adapter.get_current_earnings_at(NOW).unwrap();
    assert_eq!(earnings.amount_usd, 13_500);
    assert_eq!(earnings.metrics.get(&"storage_used_gb".to_string()), Some(50_000_000));
    assert_eq!(earnings.metrics.get(&"uptime_hours".to_string()), Some(3_000_000));
    assert_eq!(earnings.metrics.get(&"repair_count".to_string()), Some(0));
    let figures = adapter.health_figures().unwrap();
    assert_eq!(figures.get(&"uptime_hours".to_string()), Some(3_000_000));
    assert_eq!(figures.get(&"storage_used_gb".to_string()), Some(50_000_000));
    let history = adapter.get_historical_earnings_at(NOW, 5).unwrap();
    // 1 - (i / 5) * 0.2
    assert_eq!(history[0].amount_usd, 13_500);
    assert_eq!(history[4].amount_usd, 11_340);
    assert!(history.iter().all(|e| e.protocol_id == "storj"));
    let health = adapter.health_check_at(NOW).unwrap();
    assert!(health.is_healthy);
    adapter.disconnect().unwrap();
    let health = adapter.health_check_at(NOW).unwrap();
    assert_eq!(health.error_message, Some("Not connected to Storj".to_string()));
}

#[test]
fn a_store_without_size_earns_an_error() {
    let mut adapter = StorjAdapter::new(StorjConfig {
        node_id: "n".to_string(),
        wallet_address: "w".to_string(),
        allocated_storage_gb: 0,
        ..Default::default()
    });
    adapter.connect_at(NOW).unwrap();
    assert!(matches!(adapter.calculate_current_earnings(), Err(ProtocolError::DataError(_))));
    adapter.uptime_hours = u64::MAX;
    assert!(matches!(adapter.health_figures(), Err(ProtocolError::DataError(_))));
    assert_eq!(hours_in_seconds(u64::MAX), u64::MAX);
    assert_eq!(hours_in_seconds(u64::MAX / 3600), u64::MAX / 3600 * 3600);
    assert_eq!(hours_in_seconds(u64::MAX / 3600 + 1), u64::MAX);
}

#[test]
fn test_golem_creation() {
    let adapter = golem();
    assert_eq!(adapter.protocol_name(), "Golem Network");
}

#[test]
fn test_golem_connect_requires_wallet() {
    let config = GolemConfig::default();
    let mut adapter = GolemAdapter::new(config);
    assert!(adapter.connect_at(NOW).is_err());
}

#[test]
fn test_golem_connect_disconnect() {
    let mut adapter = golem();

    assert!(adapter.connect_at(NOW).is_ok());
    assert!(adapter.disconnect().is_ok());
}

#[test]
fn test_golem_earnings() {
    let mut adapter = golem();
    adapter.connect_at(NOW).unwrap();

    let earnings = adapter.get_current_earnings_at(NOW).unwrap();
    assert_eq!(earnings.protocol_id, "golem");
    assert!(earnings.amount_usd >= 0);
}

#[test]
fn test_golem_allocation_validation() {
    let config = GolemConfig {
        eth_wallet: "0x123...".to_string(),
        cpu_cores: 8,
        memory_gb: 16_000_000,
        ..Default::default()
    };
    let mut adapter = GolemAdapter::new(config);

    // Valid allocation
    let valid = strategy(4, 8_000_000, 20_000_000, 100_000_000, 25_000_000);
    assert!(adapter.apply_allocation(valid).is_ok());

    // CPU exceeds allocation
    let invalid = strategy(16, 8_000_000, 20_000_000, 100_000_000, 25_000_000);
    assert!(adapter.apply_allocation(invalid).is_err());
}

#[test]
fn test_golem_resource_usage() {
    let config = GolemConfig {
        eth_wallet: "0x123...".to_string(),
        cpu_cores: 8,
        memory_gb: 16_000_000,
        gpu_enabled: true,
        ..Default::default()
    };
    let mut adapter = GolemAdapter::new(config);
    adapter.connect_at(NOW).unwrap();

    let resources = adapter.get_resource_usage_at(NOW).unwrap();
    assert!(resources.cpu_percent > 0);
    assert!(resources.memory_mb > 0);
}

#[test]
fn golem_defaults_and_start() {
    let config = GolemConfig::default();
    assert_eq!(config.provider_node_url, "http://localhost:5001");
    assert_eq!(config.cpu_cores, 8);
    assert_eq!(config.memory_gb, 16_000_000);
    assert!(!config.gpu_enabled);
    assert_eq!(config.min_allocation_percent, 10_000_000);
    assert_eq!(config.max_allocation_percent, 40_000_000);
    let adapter = GolemAdapter::new(GolemConfig { cpu_cores: 7, memory_gb: 15, ..config });
    // half the cores and half the memory, cut off
    assert_eq!(
        adapter.get_current_allocation().unwrap(),
        strategy(3, 7, 20_000_000, 100_000_000, 30_000_000)
    );
    let mut adapter = GolemAdapter::new(GolemConfig::default());
    match adapter.connect_at(NOW) {
        Err(ProtocolError::AuthenticationError(m)) => assert_eq!(m, "ETH wallet not configured"),
        _ => panic!("an authentication error"),
    }
}

#[test]
fn golem_earns_by_the_hour_and_more_with_a_gpu() {
    let mut adapter = golem();
    adapter.connect_at(NOW).unwrap();
    adapter.tasks_completed = 65;
    adapter.tasks_failed = 2;
    // 1.2 * 2.5 hours * 30 / 100
    let earnings = adapter.get_current_earnings_at(NOW + 2 * HOUR_MILLIS + 30 * 60_000).unwrap();
    assert_eq!(earnings.amount_usd, 900_000);
    assert_eq!(adapter.compute_seconds, 9000);
    assert_eq!(earnings.metrics.get(&"tasks_completed".to_string()), Some(65_000_000));
    assert_eq!(earnings.metrics.get(&"tasks_failed".to_string()), Some(2_000_000));
    assert_eq!(earnings.metrics.get(&"cpu_cores_allocated".to_string()), Some(4_000_000));
    assert_eq!(earnings.metrics.get(&"memory_gb_allocated".to_string()), Some(8_000_000));
    // 45 + 65 % 30
    assert_eq!(adapter.cpu_utilization_percent, 50_000_000);
    assert_eq!(adapter.gpu_utilization_percent, 0);
    let usage = adapter.get_resource_usage_at(NOW + HOUR_MILLIS).unwrap();
    assert_eq!(usage.cpu_percent, 50_000_000);
    // 16 * 1024 * 0.4
    assert_eq!(usage.memory_mb, 6_553_600_000);
    assert_eq!(usage.bandwidth_mbps, 75_000_000);
    assert_eq!(usage.storage_gb, 15_000_000);
    assert_eq!(usage.uptime_seconds, 3600);
    let mut with_gpu = GolemAdapter::new(GolemConfig {
        eth_wallet: "w".to_string(),
        gpu_enabled: true,
        ..Default::default()
    });
    with_gpu.connect_at(NOW).unwrap();
    with_gpu.tasks_completed = 65;
    let earnings = with_gpu.get_current_earnings_at(NOW + 2 * HOUR_MILLIS + 30 * 60_000).unwrap();
    assert_eq!(earnings.amount_usd, 2_250_000);
    // 30 + 65 % 20
    assert_eq!(with_gpu.gpu_utilization_percent, 35_000_000);
    let figures = with_gpu.health_figures();
    assert_eq!(figures.get(&"tasks_completed".to_string()), Some(65_000_000));
    assert_eq!(figures.get(&"cpu_utilization".to_string()), Some(50_000_000));
    assert_eq!(figures.get(&"gpu_utilization".to_string()), Some(35_000_000));
    let history = with_gpu.get_historical_earnings_at(NOW, 2).unwrap();
    assert_eq!(history[0].amount_usd, 2_250_000);
    assert_eq!(history[1].amount_usd, 1_800_000);
    assert!(history.iter().all(|e| e.protocol_id == "golem"));
}

#[test]
fn test_grass_creation() {
    let adapter = grass();
    assert_eq!(adapter.protocol_name(), "Grass Network");
}

#[test]
fn test_grass_connect_requires_token() {
    let config = GrassConfig::default();
    let mut adapter = GrassAdapter::new(config);
    assert!(adapter.connect_at(NOW).is_err());
}

#[test]
fn test_grass_connect_disconnect() {
    let mut adapter = grass();

    assert!(adapter.connect_at(NOW).is_ok());
    assert!(adapter.disconnect().is_ok());
}

#[test]
fn test_grass_earnings() {
    let mut adapter = grass();
    adapter.connect_at(NOW).unwrap();

    let earnings = adapter.get_current_earnings_at(NOW).unwrap();
    assert_eq!(earnings.protocol_id, "grass");
    assert!(earnings.amount_usd >= 0);
}

#[test]
fn test_grass_allocation_validation() {
    let mut adapter = grass();

    // Valid allocation
    let valid = strategy(1, 1_000_000, 10_000_000, 500_000_000, 75_000_000);
    assert!(adapter.apply_allocation(valid).is_ok());

    // Exceeds min allocation
    let invalid = strategy(1, 1_000_000, 10_000_000, 500_000_000, 10_000_000);
    assert!(adapter.apply_allocation(invalid).is_err());
}

#[test]
fn test_grass_historical_earnings() {
    let mut adapter = grass();
    adapter.connect_at(NOW).unwrap();

    let history = adapter.get_historical_earnings_at(NOW, 24).unwrap();
    assert_eq!(history.len(), 24);
    assert!(history.iter().all(|e| e.protocol_id == "grass"));
}

#[test]
fn grass_defaults_and_start() {
    let config = GrassConfig::default();
    assert_eq!(config.api_endpoint, "https://api.grassnet.io");
    assert_eq!(config.min_allocation_percent, 20_000_000);
    assert_eq!(config.max_allocation_percent, 100_000_000);
    let mut adapter = GrassAdapter::new(config);
    assert_eq!(adapter.user_rank, 100_000);
    assert_eq!(
        adapter.get_current_allocation().unwrap(),
        strategy(1, 1_000_000, 10_000_000, 500_000_000, 75_000_000)
    );
    match adapter.begin_connect() {
        Err(ProtocolError::AuthenticationError(m)) => {
            assert_eq!(m, "Authentication token not configured")
        },
        _ => panic!("an authentication error"),
    }
    let mut adapter =
        GrassAdapter::new(GrassConfig { auth_token: "t".to_string(), ..Default::default() });
    match adapter.begin_connect() {
        Err(ProtocolError::ConfigurationError(m)) => assert_eq!(m, "Email not configured"),
        _ => panic!("a configuration error"),
    }
    // more than a thousand megabits are refused
    let mut adapter = grass();
    assert!(adapter.apply_allocation(strategy(1, 1, 1, 1_000_000_000, 75_000_000)).is_ok());
    match adapter.apply_allocation(strategy(1, 1, 1, 1_000_000_001, 75_000_000)) {
        Err(ProtocolError::AllocationError(m)) => assert_eq!(m, "Bandwidth allocation exceeds maximum"),
        _ => panic!("an allocation error"),
    }
}

#[test]
fn grass_earns_by_bandwidth_and_rank() {
    let mut adapter = grass();
    adapter.connect_at(NOW).unwrap();
    assert_eq!(adapter.user_rank, 50_000);
    // ten hours share fifteen gigabytes, worth 0.3; rank 50000 doubles it;
    // at seventy-five percent
    let earnings = adapter.get_current_earnings_at(NOW + 10 * HOUR_MILLIS).unwrap();
    assert_eq!(adapter.connection_uptime_hours, 10);
    assert_eq!(earnings.amount_usd, 450_000);
    assert_eq!(earnings.metrics.get(&"bandwidth_shared_gb".to_string()), Some(15_000_000));
    assert_eq!(earnings.metrics.get(&"data_points_shared".to_string()), Some(100_000_000));
    assert_eq!(earnings.metrics.get(&"user_rank".to_string()), Some(50_000_000_000));
    assert_eq!(earnings.metrics.get(&"bandwidth_mbps_allocated".to_string()), Some(500_000_000));
    // the best ranks earn three times as much, and no more
    adapter.user_rank = 1;
    assert_eq!(adapter.calculate_current_earnings().unwrap(), 675_000);
    adapter.user_rank = 33_333;
    assert_eq!(adapter.calculate_current_earnings().unwrap(), 675_000);
    adapter.user_rank = 33_334;
    // 100000 / 33334 = 2.999940, cut off
    assert_eq!(adapter.calculate_current_earnings().unwrap(), 674_986);
    adapter.user_rank = 100_000;
    assert_eq!(adapter.calculate_current_earnings().unwrap(), 225_000);
    let usage = adapter.get_resource_usage_at(NOW + 10 * HOUR_MILLIS).unwrap();
    assert_eq!(usage.cpu_percent, 5_000_000);
    assert_eq!(usage.memory_mb, 128_000_000);
    // fifteen gigabytes over an hour, in megabits
    assert_eq!(usage.bandwidth_mbps, 4_166_666);
    assert_eq!(usage.storage_gb, 1_000_000);
    assert_eq!(usage.uptime_seconds, 36_000);
    let figures = adapter.health_figures().unwrap();
    assert_eq!(figures.get(&"bandwidth_shared_gb".to_string()), Some(15_000_000));
    assert_eq!(figures.get(&"uptime_hours".to_string()), Some(10_000_000));
    assert_eq!(figures.get(&"user_rank".to_string()), Some(100_000_000_000));
    let history = adapter.get_historical_earnings_at(NOW, 2).unwrap();
    assert_eq!(history[0].amount_usd, 180_000);
    assert_eq!(history[1].amount_usd, 184_500);
    adapter.connection_uptime_hours = u64::MAX;
    assert!(matches!(adapter.calculate_current_earnings(), Err(ProtocolError::DataError(_))));
    assert!(matches!(adapter.health_figures(), Err(ProtocolError::DataError(_))));
    // a node that is not connected keeps the uptime it has
    adapter.disconnect().unwrap();
    assert!(matches!(adapter.get_resource_usage_at(NOW), Err(ProtocolError::DataError(_))));
}
