//! The records that are stored: snapshots, the providers' part in them,
//! reallocations and alerts. Instants are stored as text, written by RFC 3339.

use crate::clock::{now_millis, rfc3339, rfc3339_text};
use vstd::prelude::*;
use vstd::string::*;

verus! {

/// A snapshot as it is stored.
#[derive(Debug, Clone)]
pub struct MetricsRecord {
    pub id: Option<i64>,
    pub timestamp: String,
    /// Millionths of the currency unit per hour.
    pub total_earnings_per_hour: i64,
    /// Millionths of a percent.
    pub cpu_percent: Option<i64>,
    pub memory_percent: Option<i64>,
    pub bandwidth_percent: Option<i64>,
    pub storage_percent: Option<i64>,
    /// When the record was made, in milliseconds since the epoch.
    pub created_at: Option<i64>,
}

impl MetricsRecord {
    /// A record, not stored yet, of a snapshot whose instant is written `timestamp`.
    pub fn with_timestamp(
        created_at: i64,
        timestamp: String,
        total_earnings: i64,
        cpu: i64,
        memory: i64,
        bandwidth: i64,
        storage: i64,
    ) -> (r: Self)
        ensures
            r.id is None,
            r.timestamp == timestamp,
            r.total_earnings_per_hour == total_earnings,
            r.cpu_percent == Some(cpu),
            r.memory_percent == Some(memory),
            r.bandwidth_percent == Some(bandwidth),
            r.storage_percent == Some(storage),
            r.created_at == Some(created_at),
    {
        MetricsRecord {
            id: None,
            timestamp,
            total_earnings_per_hour: total_earnings,
            cpu_percent: Some(cpu),
            memory_percent: Some(memory),
            bandwidth_percent: Some(bandwidth),
            storage_percent: Some(storage),
            created_at: Some(created_at),
        }
    }

    /// A record of the snapshot taken at `timestamp`, made now; none if the
    /// calendar cannot hold the instant.
    pub fn new(
        timestamp: i64,
        total_earnings: i64,
        cpu: i64,
        memory: i64,
        bandwidth: i64,
        storage: i64,
    ) -> (r: Option<Self>)
        ensures
            r is Some <==> rfc3339_text(timestamp) is Some,
            r is Some ==> {
                &&& r->0.id is None
                &&& Some(r->0.timestamp@) == rfc3339_text(timestamp)
                &&& r->0.total_earnings_per_hour == total_earnings
                &&& r->0.cpu_percent == Some(cpu)
                &&& r->0.memory_percent == Some(memory)
                &&& r->0.bandwidth_percent == Some(bandwidth)
                &&& r->0.storage_percent == Some(storage)
                &&& r->0.created_at is Some
            },
    {
        match rfc3339(timestamp) {
            Some(text) => Some(
                Self::with_timestamp(
                    now_millis(),
                    text,
                    total_earnings,
                    cpu,
                    memory,
                    bandwidth,
                    storage,
                ),
            ),
            None => None,
        }
    }
}

/// One provider's part in a stored snapshot.
#[derive(Debug, Clone)]
pub struct ProtocolMetricsRecord {
    pub id: Option<i64>,
    pub metrics_id: i64,
    pub protocol_name: String,
    /// Millionths of the currency unit per hour.
    pub earnings_per_hour: i64,
    /// Millionths of a percent.
    pub allocation_percent: i64,
    pub connected: Option<bool>,
}

impl ProtocolMetricsRecord {
    /// A record, not stored yet, of one provider's part in the snapshot
    /// stored as `metrics_id`.
    pub fn new(
        metrics_id: i64,
        protocol_name: String,
        earnings: i64,
        allocation: i64,
        connected: bool,
    ) -> (r: Self)
        ensures
            r.id is None,
            r.metrics_id == metrics_id,
            r.protocol_name == protocol_name,
            r.earnings_per_hour == earnings,
            r.allocation_percent == allocation,
            r.connected == Some(connected),
    {
        ProtocolMetricsRecord {
            id: None,
            metrics_id,
            protocol_name,
            earnings_per_hour: earnings,
            allocation_percent: allocation,
            connected: Some(connected),
        }
    }
}

/// A reallocation as it is stored.
#[derive(Debug, Clone)]
pub struct ReallocationRecord {
    pub id: Option<i64>,
    pub timestamp: String,
    pub protocol_name: String,
    /// Millionths of a percent.
    pub old_allocation: i64,
    pub new_allocation: i64,
    /// Millionths of the currency unit per hour.
    pub earnings_impact: Option<i64>,
    pub reason: Option<String>,
}

impl ReallocationRecord {
    /// A record, not stored yet, of a reallocation whose instant is written `timestamp`.
    pub fn with_timestamp(
        timestamp: String,
        protocol_name: String,
        old_allocation: i64,
        new_allocation: i64,
        earnings_impact: Option<i64>,
        reason: Option<String>,
    ) -> (r: Self)
        ensures
            r.id is None,
            r.timestamp == timestamp,
            r.protocol_name == protocol_name,
            r.old_allocation == old_allocation,
            r.new_allocation == new_allocation,
            r.earnings_impact == earnings_impact,
            r.reason == reason,
    {
        ReallocationRecord {
            id: None,
            timestamp,
            protocol_name,
            old_allocation,
            new_allocation,
            earnings_impact,
            reason,
        }
    }

    /// A record of the reallocation made at `timestamp`; none if the
    /// calendar cannot hold the instant.
    pub fn new(
        timestamp: i64,
        protocol_name: String,
        old_allocation: i64,
        new_allocation: i64,
        earnings_impact: Option<i64>,
        reason: Option<String>,
    ) -> (r: Option<Self>)
        ensures
            r is Some <==> rfc3339_text(timestamp) is Some,
            r is Some ==> {
                &&& r->0.id is None
                &&& Some(r->0.timestamp@) == rfc3339_text(timestamp)
                &&& r->0.protocol_name == protocol_name
                &&& r->0.old_allocation == old_allocation
                &&& r->0.new_allocation == new_allocation
                &&& r->0.earnings_impact == earnings_impact
                &&& r->0.reason == reason
            },
    {
        match rfc3339(timestamp) {
            Some(text) => Some(
                Self::with_timestamp(
                    text,
                    protocol_name,
                    old_allocation,
                    new_allocation,
                    earnings_impact,
                    reason,
                ),
            ),
            None => None,
        }
    }
}

/// An alert as it is stored.
#[derive(Debug, Clone)]
pub struct AlertRecord {
    pub id: Option<i64>,
    pub timestamp: String,
    pub alert_type: String,
    /// Millionths.
    pub severity: i64,
    pub message: String,
    pub acknowledged: Option<bool>,
}

impl AlertRecord {
    /// A record, not stored yet and not acknowledged, of an alert whose
    /// instant is written `timestamp`.
    pub fn with_timestamp(timestamp: String, alert_type: String, severity: i64, message: String) -> (r:
        Self)
        ensures
            r.id is None,
            r.timestamp == timestamp,
            r.alert_type == alert_type,
            r.severity == severity,
            r.message == message,
            r.acknowledged == Some(false),
    {
        AlertRecord { id: None, timestamp, alert_type, severity, message, acknowledged: Some(false) }
    }

    /// A record of the alert raised at `timestamp`; none if the calendar
    /// cannot hold the instant.
    pub fn new(timestamp: i64, alert_type: String, severity: i64, message: String) -> (r: Option<
        Self,
    >)
        ensures
            r is Some <==> rfc3339_text(timestamp) is Some,
            r is Some ==> {
                &&& r->0.id is None
                &&& Some(r->0.timestamp@) == rfc3339_text(timestamp)
                &&& r->0.alert_type == alert_type
                &&& r->0.severity == severity
                &&& r->0.message == message
                &&& r->0.acknowledged == Some(false)
            },
    {
        match rfc3339(timestamp) {
            Some(text) => Some(Self::with_timestamp(text, alert_type, severity, message)),
            None => None,
        }
    }
}

} // verus!
