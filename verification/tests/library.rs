use depin_orcha::config::Config;
use depin_orcha::error::OrchError;
use depin_orcha::fixed::{distance, integer_root, mul_div, narrow, HUNDRED, SCALE};
use depin_orcha::ledger::{listed, Ledger, StatusMap};
use depin_orcha::text::{join, join3, join4, render_amount, render_decimal};

#[test]
fn test_module_imports() {
    // Verify all modules are accessible
    let _ = "orchestration module loaded";
}

#[test]
fn config_load_gives_the_built_in_settings() {
    let config = Config::load().unwrap();
    assert_eq!(config.api_port, 6701);
    assert_eq!(config.database_url, "sqlite:///data/depin-orcha.db");
    assert_eq!(config.ml_api_url, "http://localhost:6702");
    assert_eq!(config.optimization_interval, 900);
}

#[test]
fn orch_error_is_displayed_with_its_heading() {
    assert_eq!(OrchError::ProtocolError("x".to_string()).to_string(), "Protocol error: x");
    assert_eq!(OrchError::DatabaseError("x".to_string()).to_string(), "Database error: x");
    assert_eq!(OrchError::ConfigError("x".to_string()).to_string(), "Configuration error: x");
    assert_eq!(OrchError::MLServiceError("x".to_string()).to_string(), "ML service error: x");
    assert_eq!(OrchError::OptimizationError("x".to_string()).to_string(), "Optimization failed: x");
    assert_eq!(OrchError::Internal("x".to_string()).to_string(), "Internal error: x");
}

#[test]
fn fixed_point_constants() {
    assert_eq!(SCALE, 1_000_000);
    assert_eq!(HUNDRED, 100 * SCALE);
}

#[test]
fn narrow_keeps_what_fits() {
    assert_eq!(narrow(0), Some(0));
    assert_eq!(narrow(i64::MAX as i128), Some(i64::MAX));
    assert_eq!(narrow(i64::MIN as i128), Some(i64::MIN));
    assert_eq!(narrow(i64::MAX as i128 + 1), None);
    assert_eq!(narrow(i64::MIN as i128 - 1), None);
}

#[test]
fn distance_is_symmetric_and_wide() {
    assert_eq!(distance(3, 10), 7);
    assert_eq!(distance(10, 3), 7);
    assert_eq!(distance(i64::MIN, i64::MAX), u64::MAX as i128);
}

#[test]
fn mul_div_rounds_toward_zero() {
    assert_eq!(mul_div(3_000_000, 50_000_000, HUNDRED), 1_500_000);
    assert_eq!(mul_div(7, 1, 2), 3);
    assert_eq!(mul_div(-7, 1, 2), -3);
    assert_eq!(mul_div(i64::MAX, i64::MAX, 1), (i64::MAX as i128) * (i64::MAX as i128));
}

#[test]
fn integer_root_of_squares_and_between() {
    assert_eq!(integer_root(0), 0);
    assert_eq!(integer_root(1), 1);
    assert_eq!(integer_root(15), 3);
    assert_eq!(integer_root(16), 4);
    assert_eq!(integer_root(17), 4);
    assert_eq!(integer_root(1_000_000_000_000), 1_000_000);
    assert_eq!(integer_root(u128::MAX), u64::MAX as u128);
}

#[test]
fn decimal_rendering() {
    assert_eq!(render_decimal(0), "0");
    assert_eq!(render_decimal(7), "7");
    assert_eq!(render_decimal(10), "10");
    assert_eq!(render_decimal(1234567890), "1234567890");
    assert_eq!(render_decimal(u128::MAX), "340282366920938463463374607431768211455");
}

#[test]
fn amount_rendering_has_two_decimals() {
    assert_eq!(render_amount(0), "0.00");
    assert_eq!(render_amount(3_256_000), "3.25");
    assert_eq!(render_amount(-500_000), "-0.50");
    assert_eq!(render_amount(7_000_000), "7.00");
    assert_eq!(render_amount(100_009_999), "100.00");
    assert_eq!(render_amount(1_050_000), "1.05");
}

#[test]
fn joining_texts() {
    assert_eq!(join("a", "b"), "ab");
    assert_eq!(join3("a", "", "c"), "ac");
    assert_eq!(join4("1", "2", "3", "4"), "1234");
}

#[test]
fn ledger_keeps_insertion_order_and_replaces_in_place() {
    let mut ledger = Ledger::new();
    assert_eq!(ledger.len(), 0);
    ledger.insert("streamr".to_string(), 3);
    ledger.insert("storj".to_string(), 4);
    ledger.insert("streamr".to_string(), 5);
    assert_eq!(ledger.len(), 2);
    assert_eq!(ledger.name_at(0), "streamr");
    assert_eq!(ledger.value_at(0), 5);
    assert_eq!(ledger.name_at(1), "storj");
    assert_eq!(ledger.get(&"storj".to_string()), Some(4));
    assert_eq!(ledger.get(&"golem".to_string()), None);
    assert_eq!(ledger.find(&"storj".to_string()), Some(1));
    assert!(ledger.contains_key(&"streamr".to_string()));
    assert!(!ledger.contains_key(&"grass".to_string()));
    assert_eq!(ledger.total(), 9);
    let copy = ledger.clone();
    ledger.clear();
    assert_eq!(ledger.len(), 0);
    assert_eq!(copy.len(), 2);
    assert_eq!(copy.total(), 9);
}

#[test]
fn ledger_total_does_not_overflow() {
    let mut ledger = Ledger::new();
    ledger.insert("a".to_string(), i64::MAX);
    ledger.insert("b".to_string(), i64::MAX);
    assert_eq!(ledger.total(), 2 * (i64::MAX as i128));
}

#[test]
fn status_map_holds_flags() {
    let mut status = StatusMap::new();
    status.insert("a".to_string(), true);
    status.insert("b".to_string(), false);
    assert_eq!(status.get(&"a".to_string()), Some(true));
    assert_eq!(status.get(&"b".to_string()), Some(false));
    assert_eq!(status.get(&"c".to_string()), None);
}

#[test]
fn listed_finds_names() {
    let names = vec!["a".to_string(), "b".to_string()];
    assert!(listed(&names, &"b".to_string()));
    assert!(!listed(&names, &"c".to_string()));
    assert!(!listed(&Vec::new(), &"a".to_string()));
}
