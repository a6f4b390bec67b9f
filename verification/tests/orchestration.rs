use depin_orcha::ledger::{Ledger, StatusMap};
use depin_orcha::orchestration::ResourceUtilization;
use depin_orcha::{AggregatedMetrics, Alert, AlertType, AllocationPlan, OrchestrationError};

#[test]
fn test_aggregated_metrics_creation() {
    let metrics = AggregatedMetrics {
        timestamp: 1_700_000_000_000,
        total_earnings_per_hour: 10_500_000,
        earnings_by_protocol: Ledger::new(),
        allocation_by_protocol: Ledger::new(),
        resource_utilization: ResourceUtilization {
            cpu_percent: 50_000_000,
            memory_percent: 60_000_000,
            bandwidth_percent: 40_000_000,
            storage_percent: 30_000_000,
        },
        connection_status: StatusMap::new(),
    };

    assert_eq!(metrics.total_earnings_per_hour, 10_500_000);
}

#[test]
fn test_allocation_plan_creation() {
    let plan = AllocationPlan {
        allocation: Ledger::new(),
        estimated_improvement: 1_500_000,
        estimated_cost: 200_000,
        net_benefit: 1_300_000,
        roi_percent: 650_000_000,
        confidence: 950_000,
        created_at: 1_700_000_000_000,
    };

    assert_eq!(plan.net_benefit, 1_300_000);
    assert!(plan.confidence > 900_000);
}

#[test]
fn test_alert_creation() {
    let alert = Alert {
        timestamp: 1_700_000_000_000,
        alert_type: AlertType::LowEarnings { current_rate: 5_000_000, threshold: 8_000_000 },
        severity: 600_000,
        message: "Earnings below threshold".to_string(),
        acknowledged: false,
    };

    assert!(!alert.acknowledged);
    assert_eq!(alert.severity, 600_000);
}

#[test]
fn orchestration_error_is_displayed_with_its_heading() {
    let m = || "x".to_string();
    assert_eq!(OrchestrationError::CoordinationError(m()).to_string(), "Coordination error: x");
    assert_eq!(OrchestrationError::OptimizationError(m()).to_string(), "Optimization error: x");
    assert_eq!(OrchestrationError::ReallocationError(m()).to_string(), "Reallocation error: x");
    assert_eq!(OrchestrationError::MonitoringError(m()).to_string(), "Monitoring error: x");
    assert_eq!(OrchestrationError::ProtocolError(m()).to_string(), "Protocol error: x");
    assert_eq!(OrchestrationError::ConfigurationError(m()).to_string(), "Configuration error: x");
    assert_eq!(OrchestrationError::DataError(m()).to_string(), "Data error: x");
    assert_eq!(OrchestrationError::CalculationError(m()).to_string(), "Calculation error: x");
}

#[test]
fn clones_keep_every_field() {
    let mut earnings = Ledger::new();
    earnings.insert("a".to_string(), 7);
    let mut status = StatusMap::new();
    status.insert("a".to_string(), true);
    let metrics = AggregatedMetrics {
        timestamp: 5,
        total_earnings_per_hour: 7,
        earnings_by_protocol: earnings,
        allocation_by_protocol: Ledger::new(),
        resource_utilization: ResourceUtilization {
            cpu_percent: 1,
            memory_percent: 2,
            bandwidth_percent: 3,
            storage_percent: 4,
        },
        connection_status: status,
    };
    let copy = metrics.clone();
    assert_eq!(copy.timestamp, 5);
    assert_eq!(copy.total_earnings_per_hour, 7);
    assert_eq!(copy.earnings_by_protocol.get(&"a".to_string()), Some(7));
    assert_eq!(copy.connection_status.get(&"a".to_string()), Some(true));
    assert_eq!(copy.resource_utilization, metrics.resource_utilization);
    let alert = Alert {
        timestamp: 9,
        alert_type: AlertType::ResourceContention { resource: "CPU".to_string() },
        severity: 800_000,
        message: "m".to_string(),
        acknowledged: true,
    };
    let alert_copy = alert.clone();
    assert_eq!(alert_copy.timestamp, 9);
    assert_eq!(alert_copy.message, "m");
    assert!(alert_copy.acknowledged);
    assert!(matches!(alert_copy.alert_type, AlertType::ResourceContention { resource } if resource == "CPU"));
}
