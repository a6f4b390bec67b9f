//! A simulated node of the Storj network, which pays for storage: three
//! tenths of a currency unit per hour for a full store at full allocation.

use super::{
    earnings_history, history_fits, hours_before, hours_in_seconds, out_of_range, past_amount,
    whole_hours_in_seconds, AdapterState,
    AllocationLimits, AllocationStrategy, ConnectionStatus, EarningsData, HealthStatus,
    ProtocolError, ProtocolResult, ResourceMetrics, Trend,
};
use crate::fixed::{held, lemma_product_bound, narrow, quotient, HUNDRED, SCALE};
use crate::ledger::{put, Ledger};
use vstd::prelude::*;
use vstd::string::*;

verus! {

/// The settings of a Storj node.
#[derive(Debug, Clone)]
pub struct StorjConfig {
    pub api_endpoint: String,
    /// The identifier that authorizes the node; without it the node cannot connect.
    pub node_id: String,
    /// The wallet that is paid; without it the node cannot connect.
    pub wallet_address: String,
    /// The storage set aside for the network, in millionths of a gigabyte.
    pub allocated_storage_gb: i64,
    /// The least allocation, in millionths of a percent.
    pub min_allocation_percent: i64,
    /// The greatest allocation, in millionths of a percent.
    pub max_allocation_percent: i64,
}

impl Default for StorjConfig {
    fn default() -> (r: Self)
        ensures
            r.api_endpoint@ == "https://satellite.storj.io/api"@,
            r.node_id@.len() == 0,
            r.wallet_address@.len() == 0,
            r.allocated_storage_gb == 1_000_000_000,
            r.min_allocation_percent == 10_000_000,
            r.max_allocation_percent == 50_000_000,
    {
        StorjConfig {
            api_endpoint: String::from_str("https://satellite.storj.io/api"),
            node_id: String::new(),
            wallet_address: String::new(),
            allocated_storage_gb: 1_000_000_000,
            min_allocation_percent: 10_000_000,
            max_allocation_percent: 50_000_000,
        }
    }
}

/// The allocation a node starts with: one core, two gigabytes of memory, the
/// storage set aside, fifty megabits, thirty percent.
pub open spec fn initial_allocation(config: StorjConfig) -> AllocationStrategy {
    AllocationStrategy {
        cpu_cores: 1,
        memory_gb: 2_000_000,
        storage_gb: config.allocated_storage_gb,
        bandwidth_mbps: 50_000_000,
        allocation_percent: 30_000_000,
    }
}

/// What a node with these settings accepts: an allocation within its range
/// that asks for no more storage than is set aside.
pub open spec fn limits_of(config: StorjConfig) -> AllocationLimits {
    AllocationLimits {
        min_allocation_percent: config.min_allocation_percent,
        max_allocation_percent: config.max_allocation_percent,
        max_cpu_cores: None,
        max_memory_gb: None,
        max_storage_gb: Some(config.allocated_storage_gb),
        max_bandwidth_mbps: None,
    }
}

/// What a node has earned: three tenths of a unit per hour, times the part
/// of the store that is filled, times the allocation, for every hour of
/// uptime. `None` if the store has no size or a number cannot be held.
pub open spec fn earned(
    storage_used_gb: i64,
    allocated_storage_gb: i64,
    allocation_percent: i64,
    uptime_hours: u64,
) -> Option<i64> {
    if allocated_storage_gb <= 0 {
        None
    } else {
        match held(quotient(storage_used_gb * SCALE, allocated_storage_gb as int)) {
            None => None,
            Some(filled) => match held(
                quotient(quotient(300_000 * filled, SCALE as int) * allocation_percent, HUNDRED as int),
            ) {
                None => None,
                Some(rate) => held(rate * uptime_hours),
            },
        }
    }
}

/// What a node uses of the machine: a tenth of a processor, 256 megabytes of
/// memory, 25 megabits, and the storage it has filled.
pub open spec fn usage(storage_used_gb: i64, uptime_hours: u64) -> ResourceMetrics {
    ResourceMetrics {
        cpu_percent: 10_000_000,
        memory_mb: 256_000_000,
        bandwidth_mbps: 25_000_000,
        storage_gb: storage_used_gb,
        uptime_seconds: whole_hours_in_seconds(uptime_hours),
    }
}

/// A simulated node of the Storj network.
#[derive(Debug, Clone)]
pub struct StorjAdapter {
    pub config: StorjConfig,
    pub state: AdapterState,
    /// The storage filled, in millionths of a gigabyte.
    pub storage_used_gb: i64,
    /// For how many whole hours the node was connected when its uptime was last updated.
    pub uptime_hours: u64,
    pub repair_count: u32,
}

impl StorjAdapter {
    /// A disconnected node with its initial allocation and an empty store.
    pub fn new(config: StorjConfig) -> (r: Self)
        ensures
            r.config == config,
            r.state == AdapterState::initial(initial_allocation(config), limits_of(config)),
            r.storage_used_gb == 0,
            r.uptime_hours == 0,
            r.repair_count == 0,
    {
        let allocation = AllocationStrategy {
            cpu_cores: 1,
            memory_gb: 2_000_000,
            storage_gb: config.allocated_storage_gb,
            bandwidth_mbps: 50_000_000,
            allocation_percent: 30_000_000,
        };
        let limits = AllocationLimits {
            min_allocation_percent: config.min_allocation_percent,
            max_allocation_percent: config.max_allocation_percent,
            max_cpu_cores: None,
            max_memory_gb: None,
            max_storage_gb: Some(config.allocated_storage_gb),
            max_bandwidth_mbps: None,
        };
        StorjAdapter {
            config,
            state: AdapterState::new(allocation, limits),
            storage_used_gb: 0,
            uptime_hours: 0,
            repair_count: 0,
        }
    }

    /// The name of the network.
    pub fn protocol_name(&self) -> (r: &'static str)
        ensures
            r@ == "Storj Network"@,
    {
        "Storj Network"
    }

    /// Starts to connect. A node without an identifier cannot, which is a
    /// failure of authentication; nor can one without a wallet, which is a
    /// failure of configuration; either stays as it is.
    pub fn begin_connect(&mut self) -> (r: ProtocolResult<()>)
        ensures
            r is Ok <==> old(self).config.node_id@.len() > 0 && old(self).config.wallet_address@.len()
                > 0,
            r is Ok ==> *final(self) == (StorjAdapter {
                state: AdapterState { status: ConnectionStatus::Connecting, ..old(self).state },
                ..*old(self)
            }),
            r is Err ==> *final(self) == *old(self),
            old(self).config.node_id@.len() == 0 ==> r is Err && r->Err_0 is AuthenticationError
                && r->Err_0.detail() == "Node ID not configured"@,
            old(self).config.node_id@.len() > 0 && old(self).config.wallet_address@.len() == 0
                ==> r is Err && r->Err_0 is ConfigurationError && r->Err_0.detail()
                == "Wallet address not configured"@,
    {
        if self.config.node_id.as_str().is_empty() {
            return Err(ProtocolError::AuthenticationError(String::from_str("Node ID not configured")));
        }
        if self.config.wallet_address.as_str().is_empty() {
            return Err(
                ProtocolError::ConfigurationError(String::from_str("Wallet address not configured")),
            );
        }
        self.state.begin_connect();
        Ok(())
    }

    /// The connection stands, from `now` on; the uptime starts anew, with
    /// fifty gigabytes in the store.
    pub fn complete_connect_at(&mut self, now: i64)
        ensures
            *final(self) == (StorjAdapter {
                state: AdapterState {
                    status: ConnectionStatus::Connected,
                    connected_at: Some(now),
                    ..old(self).state
                },
                uptime_hours: 0,
                storage_used_gb: 50_000_000,
                ..*old(self)
            }),
    {
        self.state.connect_at(now);
        self.uptime_hours = 0;
        self.storage_used_gb = 50_000_000;
    }

    /// Connects at once: starts to connect and, if the node can, completes
    /// the connection at `now`.
    pub fn connect_at(&mut self, now: i64) -> (r: ProtocolResult<()>)
        ensures
            r is Ok <==> old(self).config.node_id@.len() > 0 && old(self).config.wallet_address@.len()
                > 0,
            r is Ok ==> *final(self) == (StorjAdapter {
                state: AdapterState {
                    status: ConnectionStatus::Connected,
                    connected_at: Some(now),
                    ..old(self).state
                },
                uptime_hours: 0,
                storage_used_gb: 50_000_000,
                ..*old(self)
            }),
            r is Err ==> *final(self) == *old(self) && (r->Err_0 is AuthenticationError
                || r->Err_0 is ConfigurationError),
    {
        match self.begin_connect() {
            Ok(_) => {
                self.complete_connect_at(now);
                Ok(())
            },
            Err(e) => Err(e),
        }
    }

    /// Disconnects; nothing changes if the node is disconnected.
    pub fn disconnect(&mut self) -> (r: ProtocolResult<()>)
        ensures
            r is Ok,
            *final(self) == (StorjAdapter {
                state: if old(self).state.status == ConnectionStatus::Disconnected {
                    old(self).state
                } else {
                    AdapterState {
                        status: ConnectionStatus::Disconnected,
                        connected_at: None,
                        ..old(self).state
                    }
                },
                ..*old(self)
            }),
    {
        self.state.disconnect();
        Ok(())
    }

    /// The state of the connection.
    pub fn connection_status(&self) -> (r: ConnectionStatus)
        ensures
            r == self.state.status,
    {
        self.state.status
    }

    /// Brings the uptime up to `now`, if the node is connected.
    pub fn update_uptime_at(&mut self, now: i64)
        ensures
            *final(self) == (StorjAdapter {
                uptime_hours: if old(self).state.connected_at is Some {
                    old(self).state.uptime_at(now) / 3600
                } else {
                    old(self).uptime_hours
                },
                ..*old(self)
            }),
    {
        if self.state.connected_at.is_some() {
            self.uptime_hours = self.state.uptime_seconds_at(now) / 3600;
        }
    }

    /// What the node has earned; an error if the store has no size or a
    /// number cannot be held.
    pub fn calculate_current_earnings(&self) -> (r: ProtocolResult<i64>)
        ensures
            r is Ok <==> earned(
                self.storage_used_gb,
                self.config.allocated_storage_gb,
                self.state.allocation.allocation_percent,
                self.uptime_hours,
            ) is Some,
            r is Ok ==> Some(r->Ok_0) == earned(
                self.storage_used_gb,
                self.config.allocated_storage_gb,
                self.state.allocation.allocation_percent,
                self.uptime_hours,
            ),
            r is Err ==> r->Err_0 is DataError,
    {
        if self.config.allocated_storage_gb <= 0 {
            return Err(out_of_range());
        }
        proof {
            lemma_product_bound(self.storage_used_gb as int, SCALE as int);
        }
        let filled = match narrow(
            ((self.storage_used_gb as i128) * (SCALE as i128)) / (
            self.config.allocated_storage_gb as i128),
        ) {
            Some(f) => f,
            None => {
                return Err(out_of_range());
            },
        };
        proof {
            lemma_product_bound(300_000, filled as int);
        }
        let full_rate: i128 = (300_000 * (filled as i128)) / (SCALE as i128);
        assert(-0x8000_0000_0000_0000 <= full_rate <= 0x8000_0000_0000_0000) by {
            let f = filled as int;
            if f >= 0 {
                assert((300_000 * f) / 1_000_000 <= f) by (nonlinear_arith)
                    requires
                        f >= 0,
                ;
            } else {
                assert((-(300_000 * f)) / 1_000_000 <= -f) by (nonlinear_arith)
                    requires
                        f < 0,
                ;
            }
        }
        proof {
            lemma_product_bound(full_rate as int, self.state.allocation.allocation_percent as int);
        }
        let rate = match narrow(
            (full_rate * (self.state.allocation.allocation_percent as i128)) / (HUNDRED as i128),
        ) {
            Some(r) => r,
            None => {
                return Err(out_of_range());
            },
        };
        assert(-0x7fff_ffff_ffff_ffff_ffff_ffff_ffff_ffff <= rate * self.uptime_hours
            <= 0x7fff_ffff_ffff_ffff_ffff_ffff_ffff_ffff) by (nonlinear_arith)
            requires
                -0x8000_0000_0000_0000 <= rate <= 0x7fff_ffff_ffff_ffff,
                0 <= self.uptime_hours <= 0xffff_ffff_ffff_ffff,
        ;
        match narrow((rate as i128) * (self.uptime_hours as i128)) {
            Some(t) => Ok(t),
            None => Err(out_of_range()),
        }
    }

    /// The figures that go with the earnings: the storage filled, the hours
    /// of uptime and the repairs, where they can be held.
    pub open spec fn figures(self) -> Option<Seq<(Seq<char>, i64)>> {
        match held(self.uptime_hours * SCALE) {
            None => None,
            Some(hours) => Some(
                put(
                    put(put(Seq::empty(), "storage_used_gb"@, self.storage_used_gb), "uptime_hours"@, hours),
                    "repair_count"@,
                    (self.repair_count * SCALE) as i64,
                ),
            ),
        }
    }

    /// What the node earns at `now`, with its figures.
    pub fn get_current_earnings_at(&self, now: i64) -> (r: ProtocolResult<EarningsData>)
        ensures
            ({
                let amount = earned(
                    self.storage_used_gb,
                    self.config.allocated_storage_gb,
                    self.state.allocation.allocation_percent,
                    self.uptime_hours,
                );
                &&& r is Ok <==> amount is Some && self.figures() is Some
                &&& r is Ok ==> {
                    &&& r->Ok_0.timestamp == now
                    &&& Some(r->Ok_0.amount_usd) == amount
                    &&& r->Ok_0.protocol_id@ == "storj"@
                    &&& Some(r->Ok_0.metrics@) == self.figures()
                }
            }),
            r is Err ==> r->Err_0 is DataError,
    {
        let amount_usd = match self.calculate_current_earnings() {
            Ok(a) => a,
            Err(e) => {
                return Err(e);
            },
        };
        assert(0 <= self.uptime_hours * SCALE <= 0x7fff_ffff_ffff_ffff_ffff_ffff_ffff_ffff)
            by (nonlinear_arith)
            requires
                0 <= self.uptime_hours <= 0xffff_ffff_ffff_ffff,
                SCALE == 1_000_000,
        ;
        let hours = match narrow((self.uptime_hours as i128) * (SCALE as i128)) {
            Some(h) => h,
            None => {
                return Err(out_of_range());
            },
        };
        let mut metrics = Ledger::new();
        metrics.insert(String::from_str("storage_used_gb"), self.storage_used_gb);
        metrics.insert(String::from_str("uptime_hours"), hours);
        metrics.insert(String::from_str("repair_count"), (self.repair_count as i64) * SCALE);
        Ok(EarningsData { timestamp: now, amount_usd, protocol_id: String::from_str("storj"), metrics })
    }

    /// What the node is taken to have earned in each of the last `hours`
    /// hours before `now`, the latest first and settling the further back;
    /// an error if a number cannot be held.
    pub fn get_historical_earnings_at(&self, now: i64, hours: u32) -> (r: ProtocolResult<
        Vec<EarningsData>,
    >)
        ensures
            ({
                let current = earned(
                    self.storage_used_gb,
                    self.config.allocated_storage_gb,
                    self.state.allocation.allocation_percent,
                    self.uptime_hours,
                );
                &&& r is Ok <==> current is Some && history_fits(
                    Trend::Settling,
                    now,
                    hours,
                    current->0,
                )
                &&& r is Ok ==> r->Ok_0@.len() == hours && forall|i: int|
                    0 <= i < hours ==> {
                        &&& (#[trigger] r->Ok_0@[i]).timestamp == hours_before(now, i)
                        &&& r->Ok_0@[i].amount_usd == past_amount(
                            Trend::Settling,
                            current->0,
                            i,
                            hours as int,
                        )
                        &&& r->Ok_0@[i].protocol_id@ == "storj"@
                        &&& r->Ok_0@[i].metrics@.len() == 0
                    }
            }),
            r is Err ==> r->Err_0 is DataError,
    {
        match self.calculate_current_earnings() {
            Ok(current) => earnings_history(Trend::Settling, now, hours, current, "storj"),
            Err(e) => Err(e),
        }
    }

    /// What the node uses of the machine at `now`; the uptime is brought up to date.
    pub fn get_resource_usage_at(&mut self, now: i64) -> (r: ProtocolResult<ResourceMetrics>)
        ensures
            r is Ok,
            r->Ok_0 == usage(final(self).storage_used_gb, final(self).uptime_hours),
            *final(self) == (StorjAdapter {
                uptime_hours: if old(self).state.connected_at is Some {
                    old(self).state.uptime_at(now) / 3600
                } else {
                    old(self).uptime_hours
                },
                ..*old(self)
            }),
    {
        self.update_uptime_at(now);
        Ok(
            ResourceMetrics {
                cpu_percent: 10_000_000,
                memory_mb: 256_000_000,
                bandwidth_mbps: 25_000_000,
                storage_gb: self.storage_used_gb,
                uptime_seconds: hours_in_seconds(self.uptime_hours),
            },
        )
    }

    /// Takes `strategy` as the allocation if the node's limits allow it, and
    /// changes nothing if they do not.
    pub fn apply_allocation(&mut self, strategy: AllocationStrategy) -> (r: ProtocolResult<()>)
        ensures
            r is Ok <==> super::refusal(old(self).state.limits, strategy) is None,
            r is Ok ==> *final(self) == (StorjAdapter {
                state: AdapterState { allocation: strategy, ..old(self).state },
                ..*old(self)
            }),
            r is Err ==> *final(self) == *old(self) && r->Err_0 is AllocationError && Some(
                r->Err_0.detail(),
            ) == super::refusal(old(self).state.limits, strategy),
    {
        self.state.apply_allocation(strategy)
    }

    /// The allocation the node holds.
    pub fn get_current_allocation(&self) -> (r: ProtocolResult<AllocationStrategy>)
        ensures
            r == Ok::<AllocationStrategy, ProtocolError>(self.state.allocation),
    {
        Ok(self.state.get_current_allocation())
    }

    /// The node's health at `now`: healthy exactly when it is connected.
    pub fn health_check_at(&self, now: i64) -> (r: ProtocolResult<HealthStatus>)
        ensures
            r is Ok,
            r->Ok_0.is_healthy == (self.state.status == ConnectionStatus::Connected),
            r->Ok_0.connection_status == self.state.status,
            r->Ok_0.last_operation == Some(now),
            r->Ok_0.error_message is None == r->Ok_0.is_healthy,
            r->Ok_0.error_message is Some ==> r->Ok_0.error_message->0@
                == "Not connected to Storj"@,
    {
        proof {
            reveal_strlit("Not connected to ");
            reveal_strlit("Storj");
            reveal_strlit("Not connected to Storj");
        }
        let h = self.state.health_check_at(now, "Storj");
        assert(h.error_message is Some ==> h.error_message->0@ =~= "Not connected to Storj"@);
        Ok(h)
    }

    /// The figures that go with the health: the storage filled and the hours
    /// of uptime; an error if the hours cannot be held.
    pub fn health_figures(&self) -> (r: ProtocolResult<Ledger>)
        ensures
            r is Ok <==> held(self.uptime_hours * SCALE) is Some,
            r is Ok ==> r->Ok_0@ == put(
                put(Seq::empty(), "storage_used_gb"@, self.storage_used_gb),
                "uptime_hours"@,
                (self.uptime_hours * SCALE) as i64,
            ),
            r is Err ==> r->Err_0 is DataError,
    {
        assert(0 <= self.uptime_hours * SCALE <= 0x7fff_ffff_ffff_ffff_ffff_ffff_ffff_ffff)
            by (nonlinear_arith)
            requires
                0 <= self.uptime_hours <= 0xffff_ffff_ffff_ffff,
                SCALE == 1_000_000,
        ;
        let hours = match narrow((self.uptime_hours as i128) * (SCALE as i128)) {
            Some(h) => h,
            None => {
                return Err(out_of_range());
            },
        };
        let mut figures = Ledger::new();
        figures.insert(String::from_str("storage_used_gb"), self.storage_used_gb);
        figures.insert(String::from_str("uptime_hours"), hours);
        Ok(figures)
    }
}

} // verus!
