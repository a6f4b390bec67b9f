//! The settings of the orchestrator process.

use crate::error::OrchError;
use vstd::prelude::*;
use vstd::string::*;

verus! {

/// The settings of the orchestrator process.
#[derive(Debug, Clone)]
pub struct Config {
    pub api_port: u16,
    pub database_url: String,
    pub ml_api_url: String,
    /// Seconds between two optimization runs.
    pub optimization_interval: u64,
}

impl Config {
    /// The built-in settings: the API on port 6701, the database in
    /// `/data/depin-orcha.db`, the model service on port 6702 of this host,
    /// an optimization run every fifteen minutes. Loading them cannot fail.
    pub fn load() -> (r: Result<Config, OrchError>)
        ensures
            r is Ok,
            r->Ok_0.api_port == 6701,
            r->Ok_0.database_url@ == "sqlite:///data/depin-orcha.db"@,
            r->Ok_0.ml_api_url@ == "http://localhost:6702"@,
            r->Ok_0.optimization_interval == 900,
    {
        Ok(
            Config {
                api_port: 6701,
                database_url: String::from_str("sqlite:///data/depin-orcha.db"),
                ml_api_url: String::from_str("http://localhost:6702"),
                optimization_interval: 900,
            },
        )
    }
}

} // verus!
