//! The settings of the database connection, and the records it stores.

pub mod models;

use vstd::prelude::*;
use vstd::string::*;

verus! {

/// How to connect to the database.
#[derive(Debug, Clone)]
pub struct DbConfig {
    pub database_url: String,
    pub max_connections: u32,
    pub min_connections: u32,
    /// Seconds to wait for a connection.
    pub connect_timeout: u64,
}

impl Default for DbConfig {
    fn default() -> (r: Self)
        ensures
            r.database_url@ == "sqlite:depin-orcha.db"@,
            r.max_connections == 10,
            r.min_connections == 2,
            r.connect_timeout == 30,
    {
        DbConfig {
            database_url: String::from_str("sqlite:depin-orcha.db"),
            max_connections: 10,
            min_connections: 2,
            connect_timeout: 30,
        }
    }
}

} // verus!
