//! What the orchestration core shares with its HTTP interface: the server's
//! settings, the shapes of requests, and the errors of request checking.

pub mod auth;
pub mod handlers;
pub mod middleware;
pub mod models;
pub mod websocket;

use vstd::prelude::*;
use vstd::string::*;

verus! {

/// The settings of the API server.
#[derive(Debug, Clone)]
pub struct ApiConfig {
    pub host: String,
    pub port: u16,
    pub workers: usize,
    /// Seconds after which a request times out.
    pub request_timeout: u64,
}

impl Default for ApiConfig {
    fn default() -> (r: Self)
        ensures
            r.host@ == "127.0.0.1"@,
            r.port == 8080,
            r.workers == 4,
            r.request_timeout == 30,
    {
        ApiConfig { host: String::from_str("127.0.0.1"), port: 8080, workers: 4, request_timeout: 30 }
    }
}

} // verus!
