//! A simulated node of the Streamr network, which pays for publishing data:
//! half a currency unit per hour at full allocation.

use super::{
    earnings_history, history_fits, hours_before, out_of_range, past_amount, AdapterState,
    AllocationLimits, AllocationStrategy, ConnectionStatus, EarningsData, HealthStatus,
    ProtocolError, ProtocolResult, ResourceMetrics, Trend,
};
use crate::fixed::{fits_i64, mul_div, narrow, quotient, HUNDRED, SCALE};
use crate::ledger::{put, Ledger};
use vstd::prelude::*;
use vstd::string::*;

verus! {

/// The settings of a Streamr node.
#[derive(Debug, Clone)]
pub struct StreamrConfig {
    pub api_endpoint: String,
    /// The key that authenticates the node; without it the node cannot connect.
    pub private_key: String,
    /// The streams to subscribe to.
    pub streams: Vec<String>,
    pub publish_interval_seconds: u64,
    /// The least allocation, in millionths of a percent.
    pub min_allocation_percent: i64,
    /// The greatest allocation, in millionths of a percent.
    pub max_allocation_percent: i64,
}

impl Default for StreamrConfig {
    fn default() -> (r: Self)
        ensures
            r.api_endpoint@ == "https://core.streamr.network/api/v1"@,
            r.private_key@.len() == 0,
            r.streams@.len() == 0,
            r.publish_interval_seconds == 60,
            r.min_allocation_percent == 5_000_000,
            r.max_allocation_percent == 30_000_000,
    {
        StreamrConfig {
            api_endpoint: String::from_str("https://core.streamr.network/api/v1"),
            private_key: String::new(),
            streams: Vec::new(),
            publish_interval_seconds: 60,
            min_allocation_percent: 5_000_000,
            max_allocation_percent: 30_000_000,
        }
    }
}

/// The allocation a node starts with: two cores, four gigabytes of memory,
/// fifty of storage, a hundred megabits, twenty percent.
pub open spec fn initial_allocation() -> AllocationStrategy {
    AllocationStrategy {
        cpu_cores: 2,
        memory_gb: 4_000_000,
        storage_gb: 50_000_000,
        bandwidth_mbps: 100_000_000,
        allocation_percent: 20_000_000,
    }
}

/// What a node with these settings accepts: an allocation within its range.
pub open spec fn limits_of(config: StreamrConfig) -> AllocationLimits {
    AllocationLimits {
        min_allocation_percent: config.min_allocation_percent,
        max_allocation_percent: config.max_allocation_percent,
        max_cpu_cores: None,
        max_memory_gb: None,
        max_storage_gb: None,
        max_bandwidth_mbps: None,
    }
}

/// What a node earns per hour at an allocation: half a unit at one hundred percent.
pub open spec fn hourly_rate(allocation_percent: i64) -> int {
    quotient(500_000 * allocation_percent, HUNDRED as int)
}

/// What a node has earned after `uptime_seconds` at an allocation.
pub open spec fn earned(allocation_percent: i64, uptime_seconds: u64) -> int {
    quotient(hourly_rate(allocation_percent) * uptime_seconds, 3600)
}

/// What a node uses of the machine: a quarter of a processor, 512 megabytes
/// of memory, 45 megabits, two and a half gigabytes of storage.
pub open spec fn usage(uptime_seconds: u64) -> ResourceMetrics {
    ResourceMetrics {
        cpu_percent: 25_000_000,
        memory_mb: 512_000_000,
        bandwidth_mbps: 45_000_000,
        storage_gb: 2_500_000,
        uptime_seconds,
    }
}

/// A simulated node of the Streamr network.
#[derive(Debug, Clone)]
pub struct StreamrAdapter {
    pub config: StreamrConfig,
    pub state: AdapterState,
    /// For how long the node was connected when its uptime was last updated.
    pub connection_uptime_seconds: u64,
}

impl StreamrAdapter {
    /// A disconnected node with its initial allocation.
    pub fn new(config: StreamrConfig) -> (r: Self)
        ensures
            r.config == config,
            r.state == AdapterState::initial(initial_allocation(), limits_of(config)),
            r.connection_uptime_seconds == 0,
    {
        let allocation = AllocationStrategy {
            cpu_cores: 2,
            memory_gb: 4_000_000,
            storage_gb: 50_000_000,
            bandwidth_mbps: 100_000_000,
            allocation_percent: 20_000_000,
        };
        let limits = AllocationLimits {
            min_allocation_percent: config.min_allocation_percent,
            max_allocation_percent: config.max_allocation_percent,
            max_cpu_cores: None,
            max_memory_gb: None,
            max_storage_gb: None,
            max_bandwidth_mbps: None,
        };
        StreamrAdapter {
            config,
            state: AdapterState::new(allocation, limits),
            connection_uptime_seconds: 0,
        }
    }

    /// The name of the network.
    pub fn protocol_name(&self) -> (r: &'static str)
        ensures
            r@ == "Streamr Network"@,
    {
        "Streamr Network"
    }

    /// Starts to connect. A node without a private key cannot, and stays as it is.
    pub fn begin_connect(&mut self) -> (r: ProtocolResult<()>)
        ensures
            r is Ok <==> old(self).config.private_key@.len() > 0,
            r is Ok ==> *final(self) == (StreamrAdapter {
                state: AdapterState { status: ConnectionStatus::Connecting, ..old(self).state },
                ..*old(self)
            }),
            r is Err ==> *final(self) == *old(self) && r->Err_0 is AuthenticationError
                && r->Err_0.detail() == "Private key not configured"@,
    {
        if self.config.private_key.as_str().is_empty() {
            return Err(
                ProtocolError::AuthenticationError(String::from_str("Private key not configured")),
            );
        }
        self.state.begin_connect();
        Ok(())
    }

    /// The connection stands, from `now` on; the uptime starts anew.
    pub fn complete_connect_at(&mut self, now: i64)
        ensures
            *final(self) == (StreamrAdapter {
                state: AdapterState {
                    status: ConnectionStatus::Connected,
                    connected_at: Some(now),
                    ..old(self).state
                },
                connection_uptime_seconds: 0,
                ..*old(self)
            }),
    {
        self.state.connect_at(now);
        self.connection_uptime_seconds = 0;
    }

    /// Connects at once: starts to connect and, if the node can, completes
    /// the connection at `now`.
    pub fn connect_at(&mut self, now: i64) -> (r: ProtocolResult<()>)
        ensures
            r is Ok <==> old(self).config.private_key@.len() > 0,
            r is Ok ==> *final(self) == (StreamrAdapter {
                state: AdapterState {
                    status: ConnectionStatus::Connected,
                    connected_at: Some(now),
                    ..old(self).state
                },
                connection_uptime_seconds: 0,
                ..*old(self)
            }),
            r is Err ==> *final(self) == *old(self) && (r->Err_0 is AuthenticationError
                || r->Err_0 is ConfigurationError),
    {
        match self.begin_connect() {
            Ok(_) => {
                self.complete_connect_at(now);
                Ok(())
            },
            Err(e) => Err(e),
        }
    }

    /// Disconnects; nothing changes if the node is disconnected.
    pub fn disconnect(&mut self) -> (r: ProtocolResult<()>)
        ensures
            r is Ok,
            *final(self) == (StreamrAdapter {
                state: if old(self).state.status == ConnectionStatus::Disconnected {
                    old(self).state
                } else {
                    AdapterState {
                        status: ConnectionStatus::Disconnected,
                        connected_at: None,
                        ..old(self).state
                    }
                },
                ..*old(self)
            }),
    {
        self.state.disconnect();
        Ok(())
    }

    /// The state of the connection.
    pub fn connection_status(&self) -> (r: ConnectionStatus)
        ensures
            r == self.state.status,
    {
        self.state.status
    }

    /// Brings the uptime up to `now`, if the node is connected.
    pub fn update_uptime_at(&mut self, now: i64)
        ensures
            *final(self) == (StreamrAdapter {
                connection_uptime_seconds: if old(self).state.connected_at is Some {
                    old(self).state.uptime_at(now)
                } else {
                    old(self).connection_uptime_seconds
                },
                ..*old(self)
            }),
    {
        if self.state.connected_at.is_some() {
            self.connection_uptime_seconds = self.state.uptime_seconds_at(now);
        }
    }

    /// What the node has earned at its allocation over its uptime; an error
    /// if that cannot be held.
    pub fn calculate_current_earnings(&self) -> (r: ProtocolResult<i64>)
        ensures
            r is Ok <==> fits_i64(
                earned(self.state.allocation.allocation_percent, self.connection_uptime_seconds),
            ),
            r is Ok ==> r->Ok_0 == earned(
                self.state.allocation.allocation_percent,
                self.connection_uptime_seconds,
            ),
            r is Err ==> r->Err_0 is DataError,
    {
        let rate: i128 = mul_div(500_000, self.state.allocation.allocation_percent, HUNDRED);
        assert(-0x8000_0000_0000_0000 <= rate <= 0x8000_0000_0000_0000) by {
            let a = self.state.allocation.allocation_percent as int;
            assert(rate == quotient(500_000 * a, 100_000_000));
            if a >= 0 {
                assert((500_000 * a) / 100_000_000 <= a) by (nonlinear_arith)
                    requires
                        a >= 0,
                ;
            } else {
                assert((-(500_000 * a)) / 100_000_000 <= -a) by (nonlinear_arith)
                    requires
                        a < 0,
                ;
            }
        }
        assert(-0x7fff_ffff_ffff_ffff_ffff_ffff_ffff_ffff <= rate * self.connection_uptime_seconds
            <= 0x7fff_ffff_ffff_ffff_ffff_ffff_ffff_ffff) by (nonlinear_arith)
            requires
                -0x8000_0000_0000_0000 <= rate <= 0x8000_0000_0000_0000,
                0 <= self.connection_uptime_seconds <= 0xffff_ffff_ffff_ffff,
        ;
        let total: i128 = (rate * (self.connection_uptime_seconds as i128)) / 3600;
        match narrow(total) {
            Some(t) => Ok(t),
            None => Err(out_of_range()),
        }
    }

    /// What the node earns at `now`: its earnings over its uptime, with the
    /// allocation and the cores it runs on.
    pub fn get_current_earnings_at(&self, now: i64) -> (r: ProtocolResult<EarningsData>)
        ensures
            r is Ok <==> fits_i64(
                earned(self.state.allocation.allocation_percent, self.connection_uptime_seconds),
            ),
            r is Ok ==> {
                &&& r->Ok_0.timestamp == now
                &&& r->Ok_0.amount_usd == earned(
                    self.state.allocation.allocation_percent,
                    self.connection_uptime_seconds,
                )
                &&& r->Ok_0.protocol_id@ == "streamr"@
                &&& r->Ok_0.metrics@ == put(
                    put(
                        Seq::empty(),
                        "allocation_percent"@,
                        self.state.allocation.allocation_percent,
                    ),
                    "cpu_cores"@,
                    (self.state.allocation.cpu_cores * SCALE) as i64,
                )
            },
            r is Err ==> r->Err_0 is DataError,
    {
        let amount_usd = match self.calculate_current_earnings() {
            Ok(a) => a,
            Err(e) => {
                return Err(e);
            },
        };
        let mut metrics = Ledger::new();
        metrics.insert(
            String::from_str("allocation_percent"),
            self.state.allocation.allocation_percent,
        );
        metrics.insert(String::from_str("cpu_cores"), (self.state.allocation.cpu_cores as i64) * SCALE);
        Ok(
            EarningsData {
                timestamp: now,
                amount_usd,
                protocol_id: String::from_str("streamr"),
                metrics,
            },
        )
    }

    /// What the node is taken to have earned in each of the last `hours`
    /// hours before `now`, the latest first and fading the further back; an
    /// error if a number cannot be held.
    pub fn get_historical_earnings_at(&self, now: i64, hours: u32) -> (r: ProtocolResult<
        Vec<EarningsData>,
    >)
        ensures
            ({
                let current = earned(
                    self.state.allocation.allocation_percent,
                    self.connection_uptime_seconds,
                );
                &&& r is Ok <==> fits_i64(current) && history_fits(
                    Trend::Fading,
                    now,
                    hours,
                    current as i64,
                )
                &&& r is Ok ==> r->Ok_0@.len() == hours && forall|i: int|
                    0 <= i < hours ==> {
                        &&& (#[trigger] r->Ok_0@[i]).timestamp == hours_before(now, i)
                        &&& r->Ok_0@[i].amount_usd == past_amount(
                            Trend::Fading,
                            current as i64,
                            i,
                            hours as int,
                        )
                        &&& r->Ok_0@[i].protocol_id@ == "streamr"@
                        &&& r->Ok_0@[i].metrics@.len() == 0
                    }
            }),
            r is Err ==> r->Err_0 is DataError,
    {
        match self.calculate_current_earnings() {
            Ok(current) => earnings_history(Trend::Fading, now, hours, current, "streamr"),
            Err(e) => Err(e),
        }
    }

    /// What the node uses of the machine at `now`; the uptime is brought up to date.
    pub fn get_resource_usage_at(&mut self, now: i64) -> (r: ProtocolResult<ResourceMetrics>)
        ensures
            r is Ok,
            r->Ok_0 == usage(final(self).connection_uptime_seconds),
            *final(self) == (StreamrAdapter {
                connection_uptime_seconds: if old(self).state.connected_at is Some {
                    old(self).state.uptime_at(now)
                } else {
                    old(self).connection_uptime_seconds
                },
                ..*old(self)
            }),
    {
        self.update_uptime_at(now);
        Ok(
            ResourceMetrics {
                cpu_percent: 25_000_000,
                memory_mb: 512_000_000,
                bandwidth_mbps: 45_000_000,
                storage_gb: 2_500_000,
                uptime_seconds: self.connection_uptime_seconds,
            },
        )
    }

    /// Takes `strategy` as the allocation if it is within the node's range,
    /// and changes nothing if it is not.
    pub fn apply_allocation(&mut self, strategy: AllocationStrategy) -> (r: ProtocolResult<()>)
        ensures
            r is Ok <==> super::refusal(old(self).state.limits, strategy) is None,
            r is Ok ==> *final(self) == (StreamrAdapter {
                state: AdapterState { allocation: strategy, ..old(self).state },
                ..*old(self)
            }),
            r is Err ==> *final(self) == *old(self) && r->Err_0 is AllocationError && Some(
                r->Err_0.detail(),
            ) == super::refusal(old(self).state.limits, strategy),
    {
        self.state.apply_allocation(strategy)
    }

    /// The allocation the node holds.
    pub fn get_current_allocation(&self) -> (r: ProtocolResult<AllocationStrategy>)
        ensures
            r == Ok::<AllocationStrategy, ProtocolError>(self.state.allocation),
    {
        Ok(self.state.get_current_allocation())
    }

    /// The node's health at `now`: healthy exactly when it is connected.
    pub fn health_check_at(&self, now: i64) -> (r: ProtocolResult<HealthStatus>)
        ensures
            r is Ok,
            r->Ok_0.is_healthy == (self.state.status == ConnectionStatus::Connected),
            r->Ok_0.connection_status == self.state.status,
            r->Ok_0.last_operation == Some(now),
            r->Ok_0.error_message is None == r->Ok_0.is_healthy,
            r->Ok_0.error_message is Some ==> r->Ok_0.error_message->0@
                == "Not connected to Streamr"@,
    {
        proof {
            reveal_strlit("Not connected to ");
            reveal_strlit("Streamr");
            reveal_strlit("Not connected to Streamr");
        }
        let h = self.state.health_check_at(now, "Streamr");
        assert(h.error_message is Some ==> h.error_message->0@ =~= "Not connected to Streamr"@);
        Ok(h)
    }

    /// The figures that go with the health: a Streamr node has none.
    pub fn health_figures(&self) -> (r: Ledger)
        ensures
            r@.len() == 0,
    {
        Ledger::new()
    }
}

} // verus!
