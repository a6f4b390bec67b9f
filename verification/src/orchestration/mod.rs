//! The orchestration engine: data shared by the coordinator, the optimizer,
//! the reallocation engine and the monitor.
//!
//! Amounts are millionths of their unit (currency per hour, percent, a
//! fraction of one); instants are milliseconds since the Unix epoch.

pub mod confidence;
pub mod coordinator;
pub mod monitor;
pub mod optimizer;
pub mod reallocation;
pub mod rollback;

use crate::ledger::{Ledger, StatusMap};
use crate::text::join;
use vstd::prelude::*;
use vstd::string::*;

verus! {

/// What went wrong in the orchestration engine, with a detail text.
#[derive(Debug)]
pub enum OrchestrationError {
    CoordinationError(String),
    OptimizationError(String),
    ReallocationError(String),
    MonitoringError(String),
    ProtocolError(String),
    ConfigurationError(String),
    DataError(String),
    CalculationError(String),
}

pub type OrchestrationResult<T> = Result<T, OrchestrationError>;

/// The kinds of error of the orchestration engine.
#[derive(Debug, Clone, Copy, PartialEq, Eq, Structural)]
pub enum ErrorKind {
    Coordination,
    Optimization,
    Reallocation,
    Monitoring,
    Protocol,
    Configuration,
    Data,
    Calculation,
}

/// The mathematical content of an `OrchestrationError`.
pub struct ErrorView {
    pub kind: ErrorKind,
    pub detail: Seq<char>,
}

impl View for OrchestrationError {
    type V = ErrorView;

    open spec fn view(&self) -> ErrorView {
        ErrorView { kind: self.kind(), detail: self.detail() }
    }
}

impl OrchestrationError {
    /// The kind of the error.
    pub open spec fn kind(self) -> ErrorKind {
        match self {
            OrchestrationError::CoordinationError(_) => ErrorKind::Coordination,
            OrchestrationError::OptimizationError(_) => ErrorKind::Optimization,
            OrchestrationError::ReallocationError(_) => ErrorKind::Reallocation,
            OrchestrationError::MonitoringError(_) => ErrorKind::Monitoring,
            OrchestrationError::ProtocolError(_) => ErrorKind::Protocol,
            OrchestrationError::ConfigurationError(_) => ErrorKind::Configuration,
            OrchestrationError::DataError(_) => ErrorKind::Data,
            OrchestrationError::CalculationError(_) => ErrorKind::Calculation,
        }
    }

    /// The detail text carried by the error.
    pub open spec fn detail(self) -> Seq<char> {
        match self {
            OrchestrationError::CoordinationError(m) => m@,
            OrchestrationError::OptimizationError(m) => m@,
            OrchestrationError::ReallocationError(m) => m@,
            OrchestrationError::MonitoringError(m) => m@,
            OrchestrationError::ProtocolError(m) => m@,
            OrchestrationError::ConfigurationError(m) => m@,
            OrchestrationError::DataError(m) => m@,
            OrchestrationError::CalculationError(m) => m@,
        }
    }

    /// The words that introduce the detail when the error is displayed.
    pub open spec fn heading(self) -> Seq<char> {
        match self {
            OrchestrationError::CoordinationError(_) => "Coordination error: "@,
            OrchestrationError::OptimizationError(_) => "Optimization error: "@,
            OrchestrationError::ReallocationError(_) => "Reallocation error: "@,
            OrchestrationError::MonitoringError(_) => "Monitoring error: "@,
            OrchestrationError::ProtocolError(_) => "Protocol error: "@,
            OrchestrationError::ConfigurationError(_) => "Configuration error: "@,
            OrchestrationError::DataError(_) => "Data error: "@,
            OrchestrationError::CalculationError(_) => "Calculation error: "@,
        }
    }

    /// The error as shown to a reader: heading, then detail.
    pub fn to_string(&self) -> (r: String)
        ensures
            r@ == self.heading() + self.detail(),
    {
        match self {
            OrchestrationError::CoordinationError(m) => join("Coordination error: ", m.as_str()),
            OrchestrationError::OptimizationError(m) => join("Optimization error: ", m.as_str()),
            OrchestrationError::ReallocationError(m) => join("Reallocation error: ", m.as_str()),
            OrchestrationError::MonitoringError(m) => join("Monitoring error: ", m.as_str()),
            OrchestrationError::ProtocolError(m) => join("Protocol error: ", m.as_str()),
            OrchestrationError::ConfigurationError(m) => join("Configuration error: ", m.as_str()),
            OrchestrationError::DataError(m) => join("Data error: ", m.as_str()),
            OrchestrationError::CalculationError(m) => join("Calculation error: ", m.as_str()),
        }
    }
}

/// Mean resource use across the providers that answered, in millionths of a percent.
#[derive(Debug, Clone, Copy, PartialEq, Eq, Structural)]
pub struct ResourceUtilization {
    pub cpu_percent: i64,
    pub memory_percent: i64,
    pub bandwidth_percent: i64,
    pub storage_percent: i64,
}

/// One snapshot of all providers, produced by one poll.
#[derive(Debug)]
pub struct AggregatedMetrics {
    pub timestamp: i64,
    pub total_earnings_per_hour: i64,
    pub earnings_by_protocol: Ledger,
    pub allocation_by_protocol: Ledger,
    pub resource_utilization: ResourceUtilization,
    pub connection_status: StatusMap,
}

/// The mathematical content of an `AggregatedMetrics`.
pub struct MetricsView {
    pub timestamp: i64,
    pub total_earnings_per_hour: i64,
    pub earnings: Seq<(Seq<char>, i64)>,
    pub allocation: Seq<(Seq<char>, i64)>,
    pub utilization: ResourceUtilization,
    pub status: Seq<(Seq<char>, bool)>,
}

impl View for AggregatedMetrics {
    type V = MetricsView;

    open spec fn view(&self) -> MetricsView {
        MetricsView {
            timestamp: self.timestamp,
            total_earnings_per_hour: self.total_earnings_per_hour,
            earnings: self.earnings_by_protocol@,
            allocation: self.allocation_by_protocol@,
            utilization: self.resource_utilization,
            status: self.connection_status@,
        }
    }
}

impl Clone for AggregatedMetrics {
    fn clone(&self) -> (r: Self)
        ensures
            r@ == self@,
    {
        AggregatedMetrics {
            timestamp: self.timestamp,
            total_earnings_per_hour: self.total_earnings_per_hour,
            earnings_by_protocol: self.earnings_by_protocol.clone(),
            allocation_by_protocol: self.allocation_by_protocol.clone(),
            resource_utilization: self.resource_utilization,
            connection_status: self.connection_status.clone(),
        }
    }
}

/// A proposal to move allocation from one provider to another.
#[derive(Debug)]
pub struct OptimizationOpportunity {
    pub from_protocol: String,
    pub to_protocol: String,
    pub current_rate: i64,
    pub projected_rate: i64,
    pub earnings_improvement: i64,
    pub confidence: i64,
    pub complexity: i64,
}

/// The mathematical content of an `OptimizationOpportunity`.
pub struct OpportunityView {
    pub from_protocol: Seq<char>,
    pub to_protocol: Seq<char>,
    pub current_rate: i64,
    pub projected_rate: i64,
    pub earnings_improvement: i64,
    pub confidence: i64,
    pub complexity: i64,
}

impl View for OptimizationOpportunity {
    type V = OpportunityView;

    open spec fn view(&self) -> OpportunityView {
        OpportunityView {
            from_protocol: self.from_protocol@,
            to_protocol: self.to_protocol@,
            current_rate: self.current_rate,
            projected_rate: self.projected_rate,
            earnings_improvement: self.earnings_improvement,
            confidence: self.confidence,
            complexity: self.complexity,
        }
    }
}

impl Clone for OptimizationOpportunity {
    fn clone(&self) -> (r: Self)
        ensures
            r@ == self@,
    {
        OptimizationOpportunity {
            from_protocol: self.from_protocol.clone(),
            to_protocol: self.to_protocol.clone(),
            current_rate: self.current_rate,
            projected_rate: self.projected_rate,
            earnings_improvement: self.earnings_improvement,
            confidence: self.confidence,
            complexity: self.complexity,
        }
    }
}

/// A full target allocation with its estimated cost and benefit.
#[derive(Debug)]
pub struct AllocationPlan {
    pub allocation: Ledger,
    pub estimated_improvement: i64,
    pub estimated_cost: i64,
    pub net_benefit: i64,
    pub roi_percent: i64,
    pub confidence: i64,
    pub created_at: i64,
}

/// The mathematical content of an `AllocationPlan`.
pub struct PlanView {
    pub allocation: Seq<(Seq<char>, i64)>,
    pub estimated_improvement: i64,
    pub estimated_cost: i64,
    pub net_benefit: i64,
    pub roi_percent: i64,
    pub confidence: i64,
    pub created_at: i64,
}

impl View for AllocationPlan {
    type V = PlanView;

    open spec fn view(&self) -> PlanView {
        PlanView {
            allocation: self.allocation@,
            estimated_improvement: self.estimated_improvement,
            estimated_cost: self.estimated_cost,
            net_benefit: self.net_benefit,
            roi_percent: self.roi_percent,
            confidence: self.confidence,
            created_at: self.created_at,
        }
    }
}

impl Clone for AllocationPlan {
    fn clone(&self) -> (r: Self)
        ensures
            r@ == self@,
    {
        AllocationPlan {
            allocation: self.allocation.clone(),
            estimated_improvement: self.estimated_improvement,
            estimated_cost: self.estimated_cost,
            net_benefit: self.net_benefit,
            roi_percent: self.roi_percent,
            confidence: self.confidence,
            created_at: self.created_at,
        }
    }
}

/// The audit record of one provider's allocation having changed.
#[derive(Debug)]
pub struct AllocationChange {
    pub timestamp: i64,
    pub protocol: String,
    pub old_allocation: i64,
    pub new_allocation: i64,
    pub reason: String,
    pub earnings_impact: i64,
}

/// The mathematical content of an `AllocationChange`.
pub struct ChangeView {
    pub timestamp: i64,
    pub protocol: Seq<char>,
    pub old_allocation: i64,
    pub new_allocation: i64,
    pub reason: Seq<char>,
    pub earnings_impact: i64,
}

impl View for AllocationChange {
    type V = ChangeView;

    open spec fn view(&self) -> ChangeView {
        ChangeView {
            timestamp: self.timestamp,
            protocol: self.protocol@,
            old_allocation: self.old_allocation,
            new_allocation: self.new_allocation,
            reason: self.reason@,
            earnings_impact: self.earnings_impact,
        }
    }
}

impl Clone for AllocationChange {
    fn clone(&self) -> (r: Self)
        ensures
            r@ == self@,
    {
        AllocationChange {
            timestamp: self.timestamp,
            protocol: self.protocol.clone(),
            old_allocation: self.old_allocation,
            new_allocation: self.new_allocation,
            reason: self.reason.clone(),
            earnings_impact: self.earnings_impact,
        }
    }
}

/// What an alert is about.
#[derive(Debug)]
pub enum AlertType {
    LowEarnings { current_rate: i64, threshold: i64 },
    ProtocolDisconnected { protocol: String },
    ReallocationOpportunity { opportunity: OptimizationOpportunity },
    ResourceContention { resource: String },
    OptimizationPotential { potential_improvement: i64 },
}

/// The mathematical content of an `AlertType`.
pub enum AlertTypeView {
    LowEarnings { current_rate: i64, threshold: i64 },
    ProtocolDisconnected { protocol: Seq<char> },
    ReallocationOpportunity { opportunity: OpportunityView },
    ResourceContention { resource: Seq<char> },
    OptimizationPotential { potential_improvement: i64 },
}

impl View for AlertType {
    type V = AlertTypeView;

    open spec fn view(&self) -> AlertTypeView {
        match self {
            AlertType::LowEarnings { current_rate, threshold } => AlertTypeView::LowEarnings {
                current_rate: *current_rate,
                threshold: *threshold,
            },
            AlertType::ProtocolDisconnected { protocol } => AlertTypeView::ProtocolDisconnected {
                protocol: protocol@,
            },
            AlertType::ReallocationOpportunity {
                opportunity,
            } => AlertTypeView::ReallocationOpportunity { opportunity: opportunity@ },
            AlertType::ResourceContention { resource } => AlertTypeView::ResourceContention {
                resource: resource@,
            },
            AlertType::OptimizationPotential {
                potential_improvement,
            } => AlertTypeView::OptimizationPotential {
                potential_improvement: *potential_improvement,
            },
        }
    }
}

impl Clone for AlertType {
    fn clone(&self) -> (r: Self)
        ensures
            r@ == self@,
    {
        match self {
            AlertType::LowEarnings { current_rate, threshold } => AlertType::LowEarnings {
                current_rate: *current_rate,
                threshold: *threshold,
            },
            AlertType::ProtocolDisconnected { protocol } => AlertType::ProtocolDisconnected {
                protocol: protocol.clone(),
            },
            AlertType::ReallocationOpportunity {
                opportunity,
            } => AlertType::ReallocationOpportunity { opportunity: opportunity.clone() },
            AlertType::ResourceContention { resource } => AlertType::ResourceContention {
                resource: resource.clone(),
            },
            AlertType::OptimizationPotential {
                potential_improvement,
            } => AlertType::OptimizationPotential { potential_improvement: *potential_improvement },
        }
    }
}

/// A condition worth an operator's attention.
#[derive(Debug)]
pub struct Alert {
    pub timestamp: i64,
    pub alert_type: AlertType,
    pub severity: i64,
    pub message: String,
    pub acknowledged: bool,
}

/// The mathematical content of an `Alert`.
pub struct AlertView {
    pub timestamp: i64,
    pub alert_type: AlertTypeView,
    pub severity: i64,
    pub message: Seq<char>,
    pub acknowledged: bool,
}

impl View for Alert {
    type V = AlertView;

    open spec fn view(&self) -> AlertView {
        AlertView {
            timestamp: self.timestamp,
            alert_type: self.alert_type@,
            severity: self.severity,
            message: self.message@,
            acknowledged: self.acknowledged,
        }
    }
}

impl Clone for Alert {
    fn clone(&self) -> (r: Self)
        ensures
            r@ == self@,
    {
        Alert {
            timestamp: self.timestamp,
            alert_type: self.alert_type.clone(),
            severity: self.severity,
            message: self.message.clone(),
            acknowledged: self.acknowledged,
        }
    }
}

/// What a dashboard shows at one instant.
#[derive(Debug)]
pub struct DashboardSnapshot {
    pub timestamp: i64,
    pub total_earnings_per_hour: i64,
    pub earnings_by_protocol: Ledger,
    pub current_allocation: Ledger,
    pub optimal_allocation: Ledger,
    /// The best opportunity, if there is one.
    pub optimization_opportunity: Option<OptimizationOpportunity>,
    /// In how many seconds the next reallocation is suggested.
    pub next_reallocation_in: Option<u64>,
    pub connection_status: StatusMap,
    pub recent_changes: Vec<AllocationChange>,
}

/// The mathematical content of a `DashboardSnapshot`.
pub struct DashboardView {
    pub timestamp: i64,
    pub total_earnings_per_hour: i64,
    pub earnings: Seq<(Seq<char>, i64)>,
    pub current_allocation: Seq<(Seq<char>, i64)>,
    pub optimal_allocation: Seq<(Seq<char>, i64)>,
    pub opportunity: Option<OpportunityView>,
    pub next_reallocation_in: Option<u64>,
    pub status: Seq<(Seq<char>, bool)>,
    pub recent_changes: Seq<ChangeView>,
}

impl View for DashboardSnapshot {
    type V = DashboardView;

    open spec fn view(&self) -> DashboardView {
        DashboardView {
            timestamp: self.timestamp,
            total_earnings_per_hour: self.total_earnings_per_hour,
            earnings: self.earnings_by_protocol@,
            current_allocation: self.current_allocation@,
            optimal_allocation: self.optimal_allocation@,
            opportunity: match self.optimization_opportunity {
                Some(o) => Some(o@),
                None => None,
            },
            next_reallocation_in: self.next_reallocation_in,
            status: self.connection_status@,
            recent_changes: views(self.recent_changes@),
        }
    }
}

/// How the providers did over a period.
#[derive(Debug)]
pub struct PerformanceReport {
    pub period_start: i64,
    pub period_end: i64,
    /// The sum of the total earnings of the period's snapshots.
    pub total_earnings: i64,
    pub average_hourly_earnings: i64,
    /// The sum of each provider's earnings over the period's snapshots.
    pub earnings_by_protocol: Ledger,
    pub allocation_changes: Vec<AllocationChange>,
    pub total_improvement: i64,
    pub successful_optimizations: u32,
    /// The share of snapshots in which every provider was connected, in
    /// millionths of a percent.
    pub uptime_percent: i64,
}

/// The mathematical content of a `PerformanceReport`.
pub struct ReportView {
    pub period_start: i64,
    pub period_end: i64,
    pub total_earnings: i64,
    pub average_hourly_earnings: i64,
    pub earnings: Seq<(Seq<char>, i64)>,
    pub allocation_changes: Seq<ChangeView>,
    pub total_improvement: i64,
    pub successful_optimizations: u32,
    pub uptime_percent: i64,
}

impl View for PerformanceReport {
    type V = ReportView;

    open spec fn view(&self) -> ReportView {
        ReportView {
            period_start: self.period_start,
            period_end: self.period_end,
            total_earnings: self.total_earnings,
            average_hourly_earnings: self.average_hourly_earnings,
            earnings: self.earnings_by_protocol@,
            allocation_changes: views(self.allocation_changes@),
            total_improvement: self.total_improvement,
            successful_optimizations: self.successful_optimizations,
            uptime_percent: self.uptime_percent,
        }
    }
}

/// The views of the elements of a sequence.
pub open spec fn views<T: View>(s: Seq<T>) -> Seq<T::V> {
    s.map_values(|t: T| t@)
}

/// `history` with `x` appended, the oldest entry evicted if that exceeds `capacity`.
pub open spec fn push_bounded<T>(history: Seq<T>, x: T, capacity: int) -> Seq<T> {
    if history.len() + 1 > capacity {
        history.push(x).drop_first()
    } else {
        history.push(x)
    }
}

/// A copy of a list of snapshots.
pub fn copy_metrics(list: &Vec<AggregatedMetrics>) -> (r: Vec<AggregatedMetrics>)
    ensures
        views(r@) == views(list@),
{
    let mut r: Vec<AggregatedMetrics> = Vec::new();
    let mut i: usize = 0;
    while i < list.len()
        invariant
            i <= list@.len(),
            r@.len() == i,
            forall|j: int| 0 <= j < i ==> (#[trigger] r@[j])@ == list@[j]@,
        decreases list@.len() - i,
    {
        r.push(list[i].clone());
        i += 1;
    }
    assert(views(r@) =~= views(list@));
    r
}

/// A copy of a list of changes.
pub fn copy_changes(list: &Vec<AllocationChange>) -> (r: Vec<AllocationChange>)
    ensures
        views(r@) == views(list@),
{
    let mut r: Vec<AllocationChange> = Vec::new();
    let mut i: usize = 0;
    while i < list.len()
        invariant
            i <= list@.len(),
            r@.len() == i,
            forall|j: int| 0 <= j < i ==> (#[trigger] r@[j])@ == list@[j]@,
        decreases list@.len() - i,
    {
        r.push(list[i].clone());
        i += 1;
    }
    assert(views(r@) =~= views(list@));
    r
}

/// A copy of a list of alerts.
pub fn copy_alerts(list: &Vec<Alert>) -> (r: Vec<Alert>)
    ensures
        views(r@) == views(list@),
{
    let mut r: Vec<Alert> = Vec::new();
    let mut i: usize = 0;
    while i < list.len()
        invariant
            i <= list@.len(),
            r@.len() == i,
            forall|j: int| 0 <= j < i ==> (#[trigger] r@[j])@ == list@[j]@,
        decreases list@.len() - i,
    {
        r.push(list[i].clone());
        i += 1;
    }
    assert(views(r@) =~= views(list@));
    r
}

} // verus!
