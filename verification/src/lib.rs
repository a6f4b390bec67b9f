//! Orchestration core for a fleet of independent resource-earning providers:
//! metrics aggregation, opportunity analysis, constrained reallocation and
//! alerting, in fixed-point arithmetic.

pub mod api;
pub mod clock;
pub mod config;
pub mod db;
pub mod error;
pub mod fixed;
pub mod ledger;
pub mod orchestration;
pub mod protocols;
pub mod scheduler;
pub mod text;

pub use orchestration::coordinator::{ProtocolCoordinator, ProtocolStatus, ProviderReading};
pub use orchestration::monitor::{MonitorConfig, RealtimeMonitor};
pub use orchestration::optimizer::{EarningsOptimizer, OptimizerConfig};
pub use orchestration::reallocation::{
    Progress, ProviderCall, ProviderReply, ReallocationConfig, ReallocationEngine, ReallocationRun,
};
pub use orchestration::{
    AggregatedMetrics, Alert, AlertType, AllocationChange, AllocationPlan, DashboardSnapshot,
    OptimizationOpportunity, OrchestrationError, OrchestrationResult, PerformanceReport,
    ResourceUtilization,
};
