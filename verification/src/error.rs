//! The errors of the orchestrator process.

use crate::text::join;
use vstd::prelude::*;
use vstd::string::*;

verus! {

/// What went wrong in the orchestrator, with a detail text.
#[derive(Debug)]
pub enum OrchError {
    ProtocolError(String),
    DatabaseError(String),
    ConfigError(String),
    MLServiceError(String),
    OptimizationError(String),
    Internal(String),
}

pub type OrchResult<T> = Result<T, OrchError>;

impl OrchError {
    /// The detail text carried by the error.
    pub open spec fn detail(self) -> Seq<char> {
        match self {
            OrchError::ProtocolError(m) => m@,
            OrchError::DatabaseError(m) => m@,
            OrchError::ConfigError(m) => m@,
            OrchError::MLServiceError(m) => m@,
            OrchError::OptimizationError(m) => m@,
            OrchError::Internal(m) => m@,
        }
    }

    /// The words that introduce the detail when the error is displayed.
    pub open spec fn heading(self) -> Seq<char> {
        match self {
            OrchError::ProtocolError(_) => "Protocol error: "@,
            OrchError::DatabaseError(_) => "Database error: "@,
            OrchError::ConfigError(_) => "Configuration error: "@,
            OrchError::MLServiceError(_) => "ML service error: "@,
            OrchError::OptimizationError(_) => "Optimization failed: "@,
            OrchError::Internal(_) => "Internal error: "@,
        }
    }

    /// The error as shown to a reader: heading, then detail.
    pub fn to_string(&self) -> (r: String)
        ensures
            r@ == self.heading() + self.detail(),
    {
        match self {
            OrchError::ProtocolError(m) => join("Protocol error: ", m.as_str()),
            OrchError::DatabaseError(m) => join("Database error: ", m.as_str()),
            OrchError::ConfigError(m) => join("Configuration error: ", m.as_str()),
            OrchError::MLServiceError(m) => join("ML service error: ", m.as_str()),
            OrchError::OptimizationError(m) => join("Optimization failed: ", m.as_str()),
            OrchError::Internal(m) => join("Internal error: ", m.as_str()),
        }
    }
}

} // verus!
