//! A simulated node of the Grass network, which pays for sharing bandwidth:
//! two hundredths of a currency unit per gigabyte at full allocation, up to
//! three times as much for a user of good rank.

use super::{
    earnings_history, history_fits, hours_before, hours_in_seconds, out_of_range, past_amount,
    whole_hours_in_seconds, AdapterState, AllocationLimits, AllocationStrategy, ConnectionStatus,
    EarningsData, HealthStatus, ProtocolError, ProtocolResult, ResourceMetrics, Trend,
};
use crate::fixed::{held, least, lemma_product_bound, narrow, quotient, HUNDRED, SCALE};
use crate::ledger::{put, Ledger};
use vstd::prelude::*;
use vstd::string::*;

verus! {

/// The settings of a Grass node.
#[derive(Debug, Clone)]
pub struct GrassConfig {
    pub api_endpoint: String,
    /// The token that authenticates the user; without it the node cannot connect.
    pub auth_token: String,
    /// The account; without it the node cannot connect.
    pub email: String,
    /// The least allocation, in millionths of a percent.
    pub min_allocation_percent: i64,
    /// The greatest allocation, in millionths of a percent.
    pub max_allocation_percent: i64,
}

impl Default for GrassConfig {
    fn default() -> (r: Self)
        ensures
            r.api_endpoint@ == "https://api.grassnet.io"@,
            r.auth_token@.len() == 0,
            r.email@.len() == 0,
            r.min_allocation_percent == 20_000_000,
            r.max_allocation_percent == 100_000_000,
    {
        GrassConfig {
            api_endpoint: String::from_str("https://api.grassnet.io"),
            auth_token: String::new(),
            email: String::new(),
            min_allocation_percent: 20_000_000,
            max_allocation_percent: 100_000_000,
        }
    }
}

/// The rank a user has before the first connection.
pub const UNRANKED: u32 = 100_000;

/// The rank a user has on connecting.
pub const STARTING_RANK: u32 = 50_000;

/// The allocation a node starts with: one core, one gigabyte of memory, ten
/// of storage, five hundred megabits, seventy-five percent.
pub open spec fn initial_allocation() -> AllocationStrategy {
    AllocationStrategy {
        cpu_cores: 1,
        memory_gb: 1_000_000,
        storage_gb: 10_000_000,
        bandwidth_mbps: 500_000_000,
        allocation_percent: 75_000_000,
    }
}

/// What a node with these settings accepts: an allocation within its range
/// that asks for no more than a thousand megabits.
pub open spec fn limits_of(config: GrassConfig) -> AllocationLimits {
    AllocationLimits {
        min_allocation_percent: config.min_allocation_percent,
        max_allocation_percent: config.max_allocation_percent,
        max_cpu_cores: None,
        max_memory_gb: None,
        max_storage_gb: None,
        max_bandwidth_mbps: Some(1_000_000_000),
    }
}

/// The bandwidth a node has shared after `uptime_hours` hours, in millionths
/// of a gigabyte: one and a half gigabytes an hour.
pub open spec fn bandwidth_shared(uptime_hours: u64) -> int {
    uptime_hours * 1_500_000
}

/// The data points a node has shared after `uptime_hours` hours: ten an hour.
pub open spec fn data_points_shared(uptime_hours: u64) -> int {
    uptime_hours * 10
}

/// By how much the earnings of a user of rank `user_rank` are multiplied:
/// a hundred thousand over the rank, the rank taken as at least a hundred,
/// and at most three.
pub open spec fn rank_multiplier(user_rank: u32) -> int {
    least(
        quotient(
            100_000 * SCALE,
            if user_rank < 100 {
                100
            } else {
                user_rank as int
            },
        ),
        3 * SCALE,
    )
}

/// What a node has earned after `uptime_hours` hours at a rank and an
/// allocation. `None` if a number cannot be held.
pub open spec fn earned(uptime_hours: u64, user_rank: u32, allocation_percent: i64) -> Option<i64> {
    match held(quotient(bandwidth_shared(uptime_hours) * 20_000, SCALE as int)) {
        None => None,
        Some(for_bandwidth) => match held(
            quotient(for_bandwidth * rank_multiplier(user_rank), SCALE as int),
        ) {
            None => None,
            Some(ranked) => held(quotient(ranked * allocation_percent, HUNDRED as int)),
        },
    }
}

/// The bandwidth a node uses, in millionths of a megabit per second: what it
/// has shared, spread over an hour.
pub open spec fn bandwidth_used(uptime_hours: u64) -> int {
    quotient(bandwidth_shared(uptime_hours) * 1000, 3600)
}

/// A simulated node of the Grass network.
#[derive(Debug, Clone)]
pub struct GrassAdapter {
    pub config: GrassConfig,
    pub state: AdapterState,
    /// For how many whole hours the node was connected when its uptime was last updated.
    pub connection_uptime_hours: u64,
    pub user_rank: u32,
}

impl GrassAdapter {
    /// A disconnected node with its initial allocation, without uptime or rank.
    pub fn new(config: GrassConfig) -> (r: Self)
        ensures
            r.config == config,
            r.state == AdapterState::initial(initial_allocation(), limits_of(config)),
            r.connection_uptime_hours == 0,
            r.user_rank == UNRANKED,
    {
        let allocation = AllocationStrategy {
            cpu_cores: 1,
            memory_gb: 1_000_000,
            storage_gb: 10_000_000,
            bandwidth_mbps: 500_000_000,
            allocation_percent: 75_000_000,
        };
        let limits = AllocationLimits {
            min_allocation_percent: config.min_allocation_percent,
            max_allocation_percent: config.max_allocation_percent,
            max_cpu_cores: None,
            max_memory_gb: None,
            max_storage_gb: None,
            max_bandwidth_mbps: Some(1_000_000_000),
        };
        GrassAdapter {
            config,
            state: AdapterState::new(allocation, limits),
            connection_uptime_hours: 0,
            user_rank: UNRANKED,
        }
    }

    /// The name of the network.
    pub fn protocol_name(&self) -> (r: &'static str)
        ensures
            r@ == "Grass Network"@,
    {
        "Grass Network"
    }

    /// Starts to connect. A node without a token cannot, which is a failure
    /// of authentication; nor can one without an account, which is a failure
    /// of configuration; either stays as it is.
    pub fn begin_connect(&mut self) -> (r: ProtocolResult<()>)
        ensures
            r is Ok <==> old(self).config.auth_token@.len() > 0 && old(self).config.email@.len() > 0,
            r is Ok ==> *final(self) == (GrassAdapter {
                state: AdapterState { status: ConnectionStatus::Connecting, ..old(self).state },
                ..*old(self)
            }),
            r is Err ==> *final(self) == *old(self),
            old(self).config.auth_token@.len() == 0 ==> r is Err && r->Err_0 is AuthenticationError
                && r->Err_0.detail() == "Authentication token not configured"@,
            old(self).config.auth_token@.len() > 0 && old(self).config.email@.len() == 0 ==> r is Err
                && r->Err_0 is ConfigurationError && r->Err_0.detail()
                == "Email not configured"@,
    {
        if self.config.auth_token.as_str().is_empty() {
            return Err(
                ProtocolError::AuthenticationError(
                    String::from_str("Authentication token not configured"),
                ),
            );
        }
        if self.config.email.as_str().is_empty() {
            return Err(ProtocolError::ConfigurationError(String::from_str("Email not configured")));
        }
        self.state.begin_connect();
        Ok(())
    }

    /// The connection stands, from `now` on; the uptime starts anew, and the
    /// user with a decent rank.
    pub fn complete_connect_at(&mut self, now: i64)
        ensures
            *final(self) == (GrassAdapter {
                state: AdapterState {
                    status: ConnectionStatus::Connected,
                    connected_at: Some(now),
                    ..old(self).state
                },
                connection_uptime_hours: 0,
                user_rank: STARTING_RANK,
                ..*old(self)
            }),
    {
        self.state.connect_at(now);
        self.connection_uptime_hours = 0;
        self.user_rank = STARTING_RANK;
    }

    /// Connects at once: starts to connect and, if the node can, completes
    /// the connection at `now`.
    pub fn connect_at(&mut self, now: i64) -> (r: ProtocolResult<()>)
        ensures
            r is Ok <==> old(self).config.auth_token@.len() > 0 && old(self).config.email@.len() > 0,
            r is Ok ==> *final(self) == (GrassAdapter {
                state: AdapterState {
                    status: ConnectionStatus::Connected,
                    connected_at: Some(now),
                    ..old(self).state
                },
                connection_uptime_hours: 0,
                user_rank: STARTING_RANK,
                ..*old(self)
            }),
            r is Err ==> *final(self) == *old(self) && (r->Err_0 is AuthenticationError
                || r->Err_0 is ConfigurationError),
    {
        match self.begin_connect() {
            Ok(_) => {
                self.complete_connect_at(now);
                Ok(())
            },
            Err(e) => Err(e),
        }
    }

    /// Disconnects; nothing changes if the node is disconnected.
    pub fn disconnect(&mut self) -> (r: ProtocolResult<()>)
        ensures
            r is Ok,
            *final(self) == (GrassAdapter {
                state: if old(self).state.status == ConnectionStatus::Disconnected {
                    old(self).state
                } else {
                    AdapterState {
                        status: ConnectionStatus::Disconnected,
                        connected_at: None,
                        ..old(self).state
                    }
                },
                ..*old(self)
            }),
    {
        self.state.disconnect();
        Ok(())
    }

    /// The state of the connection.
    pub fn connection_status(&self) -> (r: ConnectionStatus)
        ensures
            r == self.state.status,
    {
        self.state.status
    }

    /// Brings the uptime up to `now`, if the node is connected.
    pub fn update_uptime_at(&mut self, now: i64)
        ensures
            *final(self) == (GrassAdapter {
                connection_uptime_hours: if old(self).state.connected_at is Some {
                    old(self).state.uptime_at(now) / 3600
                } else {
                    old(self).connection_uptime_hours
                },
                ..*old(self)
            }),
    {
        if self.state.connected_at.is_some() {
            self.connection_uptime_hours = self.state.uptime_seconds_at(now) / 3600;
        }
    }

    /// What the node has earned; an error if a number cannot be held.
    pub fn calculate_current_earnings(&self) -> (r: ProtocolResult<i64>)
        ensures
            r is Ok <==> earned(
                self.connection_uptime_hours,
                self.user_rank,
                self.state.allocation.allocation_percent,
            ) is Some,
            r is Ok ==> Some(r->Ok_0) == earned(
                self.connection_uptime_hours,
                self.user_rank,
                self.state.allocation.allocation_percent,
            ),
            r is Err ==> r->Err_0 is DataError,
    {
        assert(0 <= self.connection_uptime_hours * 1_500_000 * 20_000
            <= 0x7fff_ffff_ffff_ffff_ffff_ffff_ffff_ffff) by (nonlinear_arith)
            requires
                0 <= self.connection_uptime_hours <= 0xffff_ffff_ffff_ffff,
        ;
        let shared: i128 = (self.connection_uptime_hours as i128) * 1_500_000;
        let for_bandwidth = match narrow((shared * 20_000) / (SCALE as i128)) {
            Some(b) => b,
            None => {
                return Err(out_of_range());
            },
        };
        let rank: i128 = if self.user_rank < 100 {
            100
        } else {
            self.user_rank as i128
        };
        let by_rank: i128 = (100_000 * (SCALE as i128)) / rank;
        let multiplier: i64 = if by_rank > 3 * (SCALE as i128) {
            3 * SCALE
        } else {
            assert(0 <= by_rank) by (nonlinear_arith)
                requires
                    by_rank == 100_000_000_000int / (rank as int),
                    rank >= 100,
            ;
            by_rank as i64
        };
        proof {
            lemma_product_bound(for_bandwidth as int, multiplier as int);
        }
        let ranked = match narrow(((for_bandwidth as i128) * (multiplier as i128)) / (SCALE as i128)) {
            Some(r) => r,
            None => {
                return Err(out_of_range());
            },
        };
        proof {
            lemma_product_bound(ranked as int, self.state.allocation.allocation_percent as int);
        }
        match narrow(
            ((ranked as i128) * (self.state.allocation.allocation_percent as i128)) / (
            HUNDRED as i128),
        ) {
            Some(t) => Ok(t),
            None => Err(out_of_range()),
        }
    }

    /// The figures that go with the earnings: the bandwidth and the data
    /// points shared, the rank, and the bandwidth allocated, where they can
    /// be held.
    pub open spec fn figures(self) -> Option<Seq<(Seq<char>, i64)>> {
        match held(bandwidth_shared(self.connection_uptime_hours)) {
            None => None,
            Some(shared) => match held(data_points_shared(self.connection_uptime_hours) * SCALE) {
                None => None,
                Some(points) => Some(
                    put(
                        put(
                            put(
                                put(Seq::empty(), "bandwidth_shared_gb"@, shared),
                                "data_points_shared"@,
                                points,
                            ),
                            "user_rank"@,
                            (self.user_rank * SCALE) as i64,
                        ),
                        "bandwidth_mbps_allocated"@,
                        self.state.allocation.bandwidth_mbps,
                    ),
                ),
            },
        }
    }

    /// What the node earns at `now`, with its figures; the uptime is brought
    /// up to date first.
    pub fn get_current_earnings_at(&mut self, now: i64) -> (r: ProtocolResult<EarningsData>)
        ensures
            *final(self) == (GrassAdapter {
                connection_uptime_hours: if old(self).state.connected_at is Some {
                    old(self).state.uptime_at(now) / 3600
                } else {
                    old(self).connection_uptime_hours
                },
                ..*old(self)
            }),
            ({
                let amount = earned(
                    final(self).connection_uptime_hours,
                    final(self).user_rank,
                    final(self).state.allocation.allocation_percent,
                );
                &&& r is Ok <==> amount is Some && final(self).figures() is Some
                &&& r is Ok ==> {
                    &&& r->Ok_0.timestamp == now
                    &&& Some(r->Ok_0.amount_usd) == amount
                    &&& r->Ok_0.protocol_id@ == "grass"@
                    &&& Some(r->Ok_0.metrics@) == final(self).figures()
                }
            }),
            r is Err ==> r->Err_0 is DataError,
    {
        self.update_uptime_at(now);
        let amount_usd = match self.calculate_current_earnings() {
            Ok(a) => a,
            Err(e) => {
                return Err(e);
            },
        };
        assert(0 <= self.connection_uptime_hours * 1_500_000
            <= 0x7fff_ffff_ffff_ffff_ffff_ffff_ffff_ffff && 0 <= self.connection_uptime_hours * 10
            * SCALE <= 0x7fff_ffff_ffff_ffff_ffff_ffff_ffff_ffff) by (nonlinear_arith)
            requires
                0 <= self.connection_uptime_hours <= 0xffff_ffff_ffff_ffff,
                SCALE == 1_000_000,
        ;
        let shared = match narrow((self.connection_uptime_hours as i128) * 1_500_000) {
            Some(s) => s,
            None => {
                return Err(out_of_range());
            },
        };
        let points = match narrow((self.connection_uptime_hours as i128) * 10 * (SCALE as i128)) {
            Some(p) => p,
            None => {
                return Err(out_of_range());
            },
        };
        let mut metrics = Ledger::new();
        metrics.insert(String::from_str("bandwidth_shared_gb"), shared);
        metrics.insert(String::from_str("data_points_shared"), points);
        metrics.insert(String::from_str("user_rank"), (self.user_rank as i64) * SCALE);
        metrics.insert(
            String::from_str("bandwidth_mbps_allocated"),
            self.state.allocation.bandwidth_mbps,
        );
        Ok(EarningsData { timestamp: now, amount_usd, protocol_id: String::from_str("grass"), metrics })
    }

    /// What the node is taken to have earned in each of the last `hours`
    /// hours before `now`, the latest first and wavering about what it
    /// earns now; an error if a number cannot be held.
    pub fn get_historical_earnings_at(&self, now: i64, hours: u32) -> (r: ProtocolResult<
        Vec<EarningsData>,
    >)
        ensures
            ({
                let current = earned(
                    self.connection_uptime_hours,
                    self.user_rank,
                    self.state.allocation.allocation_percent,
                );
                &&& r is Ok <==> current is Some && history_fits(
                    Trend::Wavering,
                    now,
                    hours,
                    current->0,
                )
                &&& r is Ok ==> r->Ok_0@.len() == hours && forall|i: int|
                    0 <= i < hours ==> {
                        &&& (#[trigger] r->Ok_0@[i]).timestamp == hours_before(now, i)
                        &&& r->Ok_0@[i].amount_usd == past_amount(
                            Trend::Wavering,
                            current->0,
                            i,
                            hours as int,
                        )
                        &&& r->Ok_0@[i].protocol_id@ == "grass"@
                        &&& r->Ok_0@[i].metrics@.len() == 0
                    }
            }),
            r is Err ==> r->Err_0 is DataError,
    {
        match self.calculate_current_earnings() {
            Ok(current) => earnings_history(Trend::Wavering, now, hours, current, "grass"),
            Err(e) => Err(e),
        }
    }

    /// What the node uses of the machine at `now`: a twentieth of a
    /// processor, 128 megabytes of memory, the bandwidth it shares and one
    /// gigabyte of storage; the uptime is brought up to date first. An error
    /// if the bandwidth cannot be held.
    pub fn get_resource_usage_at(&mut self, now: i64) -> (r: ProtocolResult<ResourceMetrics>)
        ensures
            *final(self) == (GrassAdapter {
                connection_uptime_hours: if old(self).state.connected_at is Some {
                    old(self).state.uptime_at(now) / 3600
                } else {
                    old(self).connection_uptime_hours
                },
                ..*old(self)
            }),
            r is Ok <==> held(bandwidth_used(final(self).connection_uptime_hours)) is Some,
            r is Ok ==> r->Ok_0 == (ResourceMetrics {
                cpu_percent: 5_000_000,
                memory_mb: 128_000_000,
                bandwidth_mbps: bandwidth_used(final(self).connection_uptime_hours) as i64,
                storage_gb: 1_000_000,
                uptime_seconds: whole_hours_in_seconds(final(self).connection_uptime_hours),
            }),
            r is Err ==> r->Err_0 is DataError,
    {
        self.update_uptime_at(now);
        assert(0 <= self.connection_uptime_hours * 1_500_000 * 1000
            <= 0x7fff_ffff_ffff_ffff_ffff_ffff_ffff_ffff) by (nonlinear_arith)
            requires
                0 <= self.connection_uptime_hours <= 0xffff_ffff_ffff_ffff,
        ;
        let shared: i128 = (self.connection_uptime_hours as i128) * 1_500_000;
        let bandwidth_mbps = match narrow((shared * 1000) / 3600) {
            Some(b) => b,
            None => {
                return Err(out_of_range());
            },
        };
        Ok(
            ResourceMetrics {
                cpu_percent: 5_000_000,
                memory_mb: 128_000_000,
                bandwidth_mbps,
                storage_gb: 1_000_000,
                uptime_seconds: hours_in_seconds(self.connection_uptime_hours),
            },
        )
    }

    /// Takes `strategy` as the allocation if the node's limits allow it, and
    /// changes nothing if they do not.
    pub fn apply_allocation(&mut self, strategy: AllocationStrategy) -> (r: ProtocolResult<()>)
        ensures
            r is Ok <==> super::refusal(old(self).state.limits, strategy) is None,
            r is Ok ==> *final(self) == (GrassAdapter {
                state: AdapterState { allocation: strategy, ..old(self).state },
                ..*old(self)
            }),
            r is Err ==> *final(self) == *old(self) && r->Err_0 is AllocationError && Some(
                r->Err_0.detail(),
            ) == super::refusal(old(self).state.limits, strategy),
    {
        self.state.apply_allocation(strategy)
    }

    /// The allocation the node holds.
    pub fn get_current_allocation(&self) -> (r: ProtocolResult<AllocationStrategy>)
        ensures
            r == Ok::<AllocationStrategy, ProtocolError>(self.state.allocation),
    {
        Ok(self.state.get_current_allocation())
    }

    /// The node's health at `now`: healthy exactly when it is connected.
    pub fn health_check_at(&self, now: i64) -> (r: ProtocolResult<HealthStatus>)
        ensures
            r is Ok,
            r->Ok_0.is_healthy == (self.state.status == ConnectionStatus::Connected),
            r->Ok_0.connection_status == self.state.status,
            r->Ok_0.last_operation == Some(now),
            r->Ok_0.error_message is None == r->Ok_0.is_healthy,
            r->Ok_0.error_message is Some ==> r->Ok_0.error_message->0@
                == "Not connected to Grass"@,
    {
        proof {
            reveal_strlit("Not connected to ");
            reveal_strlit("Grass");
            reveal_strlit("Not connected to Grass");
        }
        let h = self.state.health_check_at(now, "Grass");
        assert(h.error_message is Some ==> h.error_message->0@ =~= "Not connected to Grass"@);
        Ok(h)
    }

    /// The figures that go with the health: the bandwidth shared, the hours
    /// of uptime and the rank; an error if one cannot be held.
    pub fn health_figures(&self) -> (r: ProtocolResult<Ledger>)
        ensures
            r is Ok <==> held(bandwidth_shared(self.connection_uptime_hours)) is Some,
            r is Ok ==> r->Ok_0@ == put(
                put(
                    put(
                        Seq::empty(),
                        "bandwidth_shared_gb"@,
                        bandwidth_shared(self.connection_uptime_hours) as i64,
                    ),
                    "uptime_hours"@,
                    (self.connection_uptime_hours * SCALE) as i64,
                ),
                "user_rank"@,
                (self.user_rank * SCALE) as i64,
            ),
            r is Err ==> r->Err_0 is DataError,
    {
        assert(0 <= self.connection_uptime_hours * 1_500_000
            <= 0x7fff_ffff_ffff_ffff_ffff_ffff_ffff_ffff) by (nonlinear_arith)
            requires
                0 <= self.connection_uptime_hours <= 0xffff_ffff_ffff_ffff,
        ;
        let shared = match narrow((self.connection_uptime_hours as i128) * 1_500_000) {
            Some(s) => s,
            None => {
                return Err(out_of_range());
            },
        };
        let mut figures = Ledger::new();
        figures.insert(String::from_str("bandwidth_shared_gb"), shared);
        figures.insert(String::from_str("uptime_hours"), (self.connection_uptime_hours as i64) * SCALE);
        figures.insert(String::from_str("user_rank"), (self.user_rank as i64) * SCALE);
        Ok(figures)
    }
}

} // verus!
