//! The shapes of requests to the API and of its answers.

use crate::clock::now_millis;
use crate::orchestration::reallocation::ReallocationConfig;
use vstd::prelude::*;

verus! {

/// A request for the opportunities, at most `limit` of them.
#[derive(Debug, Clone, Copy, PartialEq, Eq, Structural)]
pub struct OpportunitiesRequest {
    pub limit: Option<usize>,
}

/// A request for the snapshots of the last `hours` hours, at most `limit` of them.
#[derive(Debug, Clone, Copy, PartialEq, Eq, Structural)]
pub struct MetricsHistoryRequest {
    pub hours: Option<i64>,
    pub limit: Option<usize>,
}

/// The constraints on reallocation as the API shows them.
#[derive(Debug, Clone, Copy, PartialEq, Eq, Structural)]
pub struct ReallocationConfigDto {
    pub min_hold_duration_seconds: u64,
    pub max_per_hour: u32,
    pub auto_rollback: bool,
}

impl ReallocationConfigDto {
    /// The constraints of `config` as the API shows them: the hold in whole
    /// seconds, zero for a negative hold.
    pub fn of(config: &ReallocationConfig) -> (r: Self)
        ensures
            r.min_hold_duration_seconds == (if config.min_hold_duration < 0 {
                0
            } else {
                config.min_hold_duration as int / 1000
            }),
            r.max_per_hour == config.max_per_hour,
            r.auto_rollback == config.auto_rollback,
    {
        ReallocationConfigDto {
            min_hold_duration_seconds: if config.min_hold_duration < 0 {
                0
            } else {
                (config.min_hold_duration / 1000) as u64
            },
            max_per_hour: config.max_per_hour,
            auto_rollback: config.auto_rollback,
        }
    }
}

/// The answer to a request that failed.
#[derive(Debug, Clone)]
pub struct ErrorResponse {
    /// A short code for the kind of failure.
    pub error: String,
    pub message: String,
    /// When the answer was made, in milliseconds since the epoch.
    pub timestamp: i64,
}

impl ErrorResponse {
    /// The answer made at `now`.
    pub fn new_at(now: i64, error: String, message: String) -> (r: Self)
        ensures
            r.error == error,
            r.message == message,
            r.timestamp == now,
    {
        ErrorResponse { error, message, timestamp: now }
    }

    /// The answer made at the present instant.
    pub fn new(error: String, message: String) -> (r: Self)
        ensures
            r.error == error,
            r.message == message,
    {
        Self::new_at(now_millis(), error, message)
    }
}

/// The answer to a request that succeeded.
#[derive(Debug, Clone)]
pub struct SuccessResponse<T> {
    pub success: bool,
    pub data: T,
    /// When the answer was made, in milliseconds since the epoch.
    pub timestamp: i64,
}

impl<T> SuccessResponse<T> {
    /// The answer that carries `data`, made at `now`.
    pub fn new_at(now: i64, data: T) -> (r: Self)
        ensures
            r.success,
            r.data == data,
            r.timestamp == now,
    {
        SuccessResponse { success: true, data, timestamp: now }
    }

    /// The answer that carries `data`, made at the present instant.
    pub fn new(data: T) -> (r: Self)
        ensures
            r.success,
            r.data == data,
    {
        Self::new_at(now_millis(), data)
    }
}

} // verus!
