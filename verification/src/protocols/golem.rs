//! A simulated provider node of the Golem network, which pays for
//! computing: one and two tenths of a currency unit per hour at full
//! allocation, two and a half times as much with a GPU.

use super::{
    earnings_history, history_fits, hours_before, out_of_range, past_amount, AdapterState,
    AllocationLimits, AllocationStrategy, ConnectionStatus, EarningsData, HealthStatus,
    ProtocolError, ProtocolResult, ResourceMetrics, Trend,
};
use crate::fixed::{held, lemma_product_bound, narrow, quotient, HUNDRED, SCALE};
use crate::ledger::{put, Ledger};
use vstd::prelude::*;
use vstd::string::*;

verus! {

/// The settings of a Golem node.
#[derive(Debug, Clone)]
pub struct GolemConfig {
    pub provider_node_url: String,
    /// The wallet that is paid; without it the node cannot connect.
    pub eth_wallet: String,
    /// The processor cores of the machine.
    pub cpu_cores: u32,
    /// The memory of the machine, in millionths of a gigabyte.
    pub memory_gb: i64,
    pub gpu_enabled: bool,
    /// The least allocation, in millionths of a percent.
    pub min_allocation_percent: i64,
    /// The greatest allocation, in millionths of a percent.
    pub max_allocation_percent: i64,
}

impl Default for GolemConfig {
    fn default() -> (r: Self)
        ensures
            r.provider_node_url@ == "http://localhost:5001"@,
            r.eth_wallet@.len() == 0,
            r.cpu_cores == 8,
            r.memory_gb == 16_000_000,
            !r.gpu_enabled,
            r.min_allocation_percent == 10_000_000,
            r.max_allocation_percent == 40_000_000,
    {
        GolemConfig {
            provider_node_url: String::from_str("http://localhost:5001"),
            eth_wallet: String::new(),
            cpu_cores: 8,
            memory_gb: 16_000_000,
            gpu_enabled: false,
            min_allocation_percent: 10_000_000,
            max_allocation_percent: 40_000_000,
        }
    }
}

/// The allocation a node starts with: half the cores and half the memory
/// of the machine, twenty gigabytes of storage, a hundred megabits, thirty
/// percent.
pub open spec fn initial_allocation(config: GolemConfig) -> AllocationStrategy {
    AllocationStrategy {
        cpu_cores: config.cpu_cores / 2,
        memory_gb: quotient(config.memory_gb as int, 2) as i64,
        storage_gb: 20_000_000,
        bandwidth_mbps: 100_000_000,
        allocation_percent: 30_000_000,
    }
}

/// What a node with these settings accepts: an allocation within its range
/// that asks for no more cores and memory than the machine has.
pub open spec fn limits_of(config: GolemConfig) -> AllocationLimits {
    AllocationLimits {
        min_allocation_percent: config.min_allocation_percent,
        max_allocation_percent: config.max_allocation_percent,
        max_cpu_cores: Some(config.cpu_cores),
        max_memory_gb: Some(config.memory_gb),
        max_storage_gb: None,
        max_bandwidth_mbps: None,
    }
}

/// What a node has earned after computing for `compute_seconds` at an
/// allocation, with or without a GPU. `None` if a number cannot be held.
pub open spec fn earned(compute_seconds: u64, allocation_percent: i64, gpu_enabled: bool) -> Option<
    i64,
> {
    match held(quotient(1_200_000 * compute_seconds, 3600)) {
        None => None,
        Some(base) => match held(quotient(base * allocation_percent, HUNDRED as int)) {
            None => None,
            Some(allocated) => if gpu_enabled {
                held(quotient(allocated * 5, 2))
            } else {
                Some(allocated)
            },
        },
    }
}

/// How busy the processor is after `tasks_completed` tasks: between 45 and
/// 74 percent.
pub open spec fn cpu_utilization(tasks_completed: u32) -> i64 {
    ((45 + tasks_completed % 30) * SCALE) as i64
}

/// How busy the GPU is after `tasks_completed` tasks: between 30 and 49 percent.
pub open spec fn gpu_utilization(tasks_completed: u32) -> i64 {
    ((30 + tasks_completed % 20) * SCALE) as i64
}

/// The memory a node uses, in millionths of a megabyte: four tenths of the
/// machine's.
pub open spec fn memory_used(memory_gb: i64) -> int {
    quotient(memory_gb * 4096, 10)
}

/// A simulated provider node of the Golem network.
#[derive(Debug, Clone)]
pub struct GolemAdapter {
    pub config: GolemConfig,
    pub state: AdapterState,
    pub tasks_completed: u32,
    pub tasks_failed: u32,
    /// For how long the node had computed when its figures were last updated.
    pub compute_seconds: u64,
    /// Millionths of a percent.
    pub cpu_utilization_percent: i64,
    /// Millionths of a percent.
    pub gpu_utilization_percent: i64,
}

impl GolemAdapter {
    /// A disconnected node with its initial allocation and idle figures.
    pub fn new(config: GolemConfig) -> (r: Self)
        ensures
            r.config == config,
            r.state == AdapterState::initial(initial_allocation(config), limits_of(config)),
            r.tasks_completed == 0,
            r.tasks_failed == 0,
            r.compute_seconds == 0,
            r.cpu_utilization_percent == 0,
            r.gpu_utilization_percent == 0,
    {
        let allocation = AllocationStrategy {
            cpu_cores: config.cpu_cores / 2,
            memory_gb: config.memory_gb / 2,
            storage_gb: 20_000_000,
            bandwidth_mbps: 100_000_000,
            allocation_percent: 30_000_000,
        };
        let limits = AllocationLimits {
            min_allocation_percent: config.min_allocation_percent,
            max_allocation_percent: config.max_allocation_percent,
            max_cpu_cores: Some(config.cpu_cores),
            max_memory_gb: Some(config.memory_gb),
            max_storage_gb: None,
            max_bandwidth_mbps: None,
        };
        GolemAdapter {
            config,
            state: AdapterState::new(allocation, limits),
            tasks_completed: 0,
            tasks_failed: 0,
            compute_seconds: 0,
            cpu_utilization_percent: 0,
            gpu_utilization_percent: 0,
        }
    }

    /// The name of the network.
    pub fn protocol_name(&self) -> (r: &'static str)
        ensures
            r@ == "Golem Network"@,
    {
        "Golem Network"
    }

    /// Starts to connect. A node without a wallet cannot, and stays as it is.
    pub fn begin_connect(&mut self) -> (r: ProtocolResult<()>)
        ensures
            r is Ok <==> old(self).config.eth_wallet@.len() > 0,
            r is Ok ==> *final(self) == (GolemAdapter {
                state: AdapterState { status: ConnectionStatus::Connecting, ..old(self).state },
                ..*old(self)
            }),
            r is Err ==> *final(self) == *old(self) && r->Err_0 is AuthenticationError
                && r->Err_0.detail() == "ETH wallet not configured"@,
    {
        if self.config.eth_wallet.as_str().is_empty() {
            return Err(
                ProtocolError::AuthenticationError(String::from_str("ETH wallet not configured")),
            );
        }
        self.state.begin_connect();
        Ok(())
    }

    /// The connection stands, from `now` on; the count of tasks starts anew.
    pub fn complete_connect_at(&mut self, now: i64)
        ensures
            *final(self) == (GolemAdapter {
                state: AdapterState {
                    status: ConnectionStatus::Connected,
                    connected_at: Some(now),
                    ..old(self).state
                },
                tasks_completed: 0,
                tasks_failed: 0,
                ..*old(self)
            }),
    {
        self.state.connect_at(now);
        self.tasks_completed = 0;
        self.tasks_failed = 0;
    }

    /// Connects at once: starts to connect and, if the node can, completes
    /// the connection at `now`.
    pub fn connect_at(&mut self, now: i64) -> (r: ProtocolResult<()>)
        ensures
            r is Ok <==> old(self).config.eth_wallet@.len() > 0,
            r is Ok ==> *final(self) == (GolemAdapter {
                state: AdapterState {
                    status: ConnectionStatus::Connected,
                    connected_at: Some(now),
                    ..old(self).state
                },
                tasks_completed: 0,
                tasks_failed: 0,
                ..*old(self)
            }),
            r is Err ==> *final(self) == *old(self) && (r->Err_0 is AuthenticationError
                || r->Err_0 is ConfigurationError),
    {
        match self.begin_connect() {
            Ok(_) => {
                self.complete_connect_at(now);
                Ok(())
            },
            Err(e) => Err(e),
        }
    }

    /// Disconnects; nothing changes if the node is disconnected.
    pub fn disconnect(&mut self) -> (r: ProtocolResult<()>)
        ensures
            r is Ok,
            *final(self) == (GolemAdapter {
                state: if old(self).state.status == ConnectionStatus::Disconnected {
                    old(self).state
                } else {
                    AdapterState {
                        status: ConnectionStatus::Disconnected,
                        connected_at: None,
                        ..old(self).state
                    }
                },
                ..*old(self)
            }),
    {
        self.state.disconnect();
        Ok(())
    }

    /// The state of the connection.
    pub fn connection_status(&self) -> (r: ConnectionStatus)
        ensures
            r == self.state.status,
    {
        self.state.status
    }

    /// Brings the figures up to `now`: the time computed, if the node is
    /// connected, and how busy the processor is, and the GPU if there is one.
    pub fn update_metrics_at(&mut self, now: i64)
        ensures
            *final(self) == (GolemAdapter {
                compute_seconds: if old(self).state.connected_at is Some {
                    old(self).state.uptime_at(now)
                } else {
                    old(self).compute_seconds
                },
                cpu_utilization_percent: cpu_utilization(old(self).tasks_completed),
                gpu_utilization_percent: if old(self).config.gpu_enabled {
                    gpu_utilization(old(self).tasks_completed)
                } else {
                    old(self).gpu_utilization_percent
                },
                ..*old(self)
            }),
    {
        if self.state.connected_at.is_some() {
            self.compute_seconds = self.state.uptime_seconds_at(now);
        }
        self.cpu_utilization_percent = (45 + (self.tasks_completed % 30) as i64) * SCALE;
        if self.config.gpu_enabled {
            self.gpu_utilization_percent = (30 + (self.tasks_completed % 20) as i64) * SCALE;
        }
    }

    /// What the node has earned; an error if a number cannot be held.
    pub fn calculate_current_earnings(&self) -> (r: ProtocolResult<i64>)
        ensures
            r is Ok <==> earned(
                self.compute_seconds,
                self.state.allocation.allocation_percent,
                self.config.gpu_enabled,
            ) is Some,
            r is Ok ==> Some(r->Ok_0) == earned(
                self.compute_seconds,
                self.state.allocation.allocation_percent,
                self.config.gpu_enabled,
            ),
            r is Err ==> r->Err_0 is DataError,
    {
        assert(0 <= 1_200_000 * self.compute_seconds <= 0x7fff_ffff_ffff_ffff_ffff_ffff_ffff_ffff)
            by (nonlinear_arith)
            requires
                0 <= self.compute_seconds <= 0xffff_ffff_ffff_ffff,
        ;
        let base = match narrow((1_200_000 * (self.compute_seconds as i128)) / 3600) {
            Some(b) => b,
            None => {
                return Err(out_of_range());
            },
        };
        proof {
            lemma_product_bound(base as int, self.state.allocation.allocation_percent as int);
        }
        let allocated = match narrow(
            ((base as i128) * (self.state.allocation.allocation_percent as i128)) / (
            HUNDRED as i128),
        ) {
            Some(a) => a,
            None => {
                return Err(out_of_range());
            },
        };
        if self.config.gpu_enabled {
            match narrow(((allocated as i128) * 5) / 2) {
                Some(t) => Ok(t),
                None => Err(out_of_range()),
            }
        } else {
            Ok(allocated)
        }
    }

    /// The figures that go with the earnings: the tasks completed and
    /// failed, and the cores and the memory allocated.
    pub open spec fn figures(self) -> Seq<(Seq<char>, i64)> {
        put(
            put(
                put(
                    put(Seq::empty(), "tasks_completed"@, (self.tasks_completed * SCALE) as i64),
                    "tasks_failed"@,
                    (self.tasks_failed * SCALE) as i64,
                ),
                "cpu_cores_allocated"@,
                (self.state.allocation.cpu_cores * SCALE) as i64,
            ),
            "memory_gb_allocated"@,
            self.state.allocation.memory_gb,
        )
    }

    /// What the node earns at `now`, with its figures; the figures are
    /// brought up to date first.
    pub fn get_current_earnings_at(&mut self, now: i64) -> (r: ProtocolResult<EarningsData>)
        ensures
            final(self).config == old(self).config,
            final(self).state == old(self).state,
            final(self).tasks_completed == old(self).tasks_completed,
            final(self).tasks_failed == old(self).tasks_failed,
            final(self).compute_seconds == (if old(self).state.connected_at is Some {
                old(self).state.uptime_at(now)
            } else {
                old(self).compute_seconds
            }),
            ({
                let amount = earned(
                    final(self).compute_seconds,
                    final(self).state.allocation.allocation_percent,
                    final(self).config.gpu_enabled,
                );
                &&& r is Ok <==> amount is Some
                &&& r is Ok ==> {
                    &&& r->Ok_0.timestamp == now
                    &&& Some(r->Ok_0.amount_usd) == amount
                    &&& r->Ok_0.protocol_id@ == "golem"@
                    &&& r->Ok_0.metrics@ == final(self).figures()
                }
            }),
            r is Err ==> r->Err_0 is DataError,
    {
        self.update_metrics_at(now);
        let amount_usd = match self.calculate_current_earnings() {
            Ok(a) => a,
            Err(e) => {
                return Err(e);
            },
        };
        let mut metrics = Ledger::new();
        metrics.insert(String::from_str("tasks_completed"), (self.tasks_completed as i64) * SCALE);
        metrics.insert(String::from_str("tasks_failed"), (self.tasks_failed as i64) * SCALE);
        metrics.insert(
            String::from_str("cpu_cores_allocated"),
            (self.state.allocation.cpu_cores as i64) * SCALE,
        );
        metrics.insert(String::from_str("memory_gb_allocated"), self.state.allocation.memory_gb);
        Ok(EarningsData { timestamp: now, amount_usd, protocol_id: String::from_str("golem"), metrics })
    }

    /// What the node is taken to have earned in each of the last `hours`
    /// hours before `now`, the latest first and growing up to now; an error
    /// if a number cannot be held.
    pub fn get_historical_earnings_at(&self, now: i64, hours: u32) -> (r: ProtocolResult<
        Vec<EarningsData>,
    >)
        ensures
            ({
                let current = earned(
                    self.compute_seconds,
                    self.state.allocation.allocation_percent,
                    self.config.gpu_enabled,
                );
                &&& r is Ok <==> current is Some && history_fits(
                    Trend::Growing,
                    now,
                    hours,
                    current->0,
                )
                &&& r is Ok ==> r->Ok_0@.len() == hours && forall|i: int|
                    0 <= i < hours ==> {
                        &&& (#[trigger] r->Ok_0@[i]).timestamp == hours_before(now, i)
                        &&& r->Ok_0@[i].amount_usd == past_amount(
                            Trend::Growing,
                            current->0,
                            i,
                            hours as int,
                        )
                        &&& r->Ok_0@[i].protocol_id@ == "golem"@
                        &&& r->Ok_0@[i].metrics@.len() == 0
                    }
            }),
            r is Err ==> r->Err_0 is DataError,
    {
        match self.calculate_current_earnings() {
            Ok(current) => earnings_history(Trend::Growing, now, hours, current, "golem"),
            Err(e) => Err(e),
        }
    }

    /// What the node uses of the machine at `now`: the processor as busy as
    /// it is, four tenths of the memory, 75 megabits and fifteen gigabytes of
    /// storage; the figures are brought up to date first. An error if the
    /// memory cannot be held.
    pub fn get_resource_usage_at(&mut self, now: i64) -> (r: ProtocolResult<ResourceMetrics>)
        ensures
            *final(self) == (GolemAdapter {
                compute_seconds: if old(self).state.connected_at is Some {
                    old(self).state.uptime_at(now)
                } else {
                    old(self).compute_seconds
                },
                cpu_utilization_percent: cpu_utilization(old(self).tasks_completed),
                gpu_utilization_percent: if old(self).config.gpu_enabled {
                    gpu_utilization(old(self).tasks_completed)
                } else {
                    old(self).gpu_utilization_percent
                },
                ..*old(self)
            }),
            r is Ok <==> held(memory_used(old(self).config.memory_gb)) is Some,
            r is Ok ==> r->Ok_0 == (ResourceMetrics {
                cpu_percent: final(self).cpu_utilization_percent,
                memory_mb: memory_used(old(self).config.memory_gb) as i64,
                bandwidth_mbps: 75_000_000,
                storage_gb: 15_000_000,
                uptime_seconds: final(self).compute_seconds,
            }),
            r is Err ==> r->Err_0 is DataError,
    {
        self.update_metrics_at(now);
        proof {
            lemma_product_bound(self.config.memory_gb as int, 4096);
        }
        let memory_mb = match narrow(((self.config.memory_gb as i128) * 4096) / 10) {
            Some(m) => m,
            None => {
                return Err(out_of_range());
            },
        };
        Ok(
            ResourceMetrics {
                cpu_percent: self.cpu_utilization_percent,
                memory_mb,
                bandwidth_mbps: 75_000_000,
                storage_gb: 15_000_000,
                uptime_seconds: self.compute_seconds,
            },
        )
    }

    /// Takes `strategy` as the allocation if the node's limits allow it, and
    /// changes nothing if they do not.
    pub fn apply_allocation(&mut self, strategy: AllocationStrategy) -> (r: ProtocolResult<()>)
        ensures
            r is Ok <==> super::refusal(old(self).state.limits, strategy) is None,
            r is Ok ==> *final(self) == (GolemAdapter {
                state: AdapterState { allocation: strategy, ..old(self).state },
                ..*old(self)
            }),
            r is Err ==> *final(self) == *old(self) && r->Err_0 is AllocationError && Some(
                r->Err_0.detail(),
            ) == super::refusal(old(self).state.limits, strategy),
    {
        self.state.apply_allocation(strategy)
    }

    /// The allocation the node holds.
    pub fn get_current_allocation(&self) -> (r: ProtocolResult<AllocationStrategy>)
        ensures
            r == Ok::<AllocationStrategy, ProtocolError>(self.state.allocation),
    {
        Ok(self.state.get_current_allocation())
    }

    /// The node's health at `now`: healthy exactly when it is connected.
    pub fn health_check_at(&self, now: i64) -> (r: ProtocolResult<HealthStatus>)
        ensures
            r is Ok,
            r->Ok_0.is_healthy == (self.state.status == ConnectionStatus::Connected),
            r->Ok_0.connection_status == self.state.status,
            r->Ok_0.last_operation == Some(now),
            r->Ok_0.error_message is None == r->Ok_0.is_healthy,
            r->Ok_0.error_message is Some ==> r->Ok_0.error_message->0@
                == "Not connected to Golem"@,
    {
        proof {
            reveal_strlit("Not connected to ");
            reveal_strlit("Golem");
            reveal_strlit("Not connected to Golem");
        }
        let h = self.state.health_check_at(now, "Golem");
        assert(h.error_message is Some ==> h.error_message->0@ =~= "Not connected to Golem"@);
        Ok(h)
    }

    /// The figures that go with the health: the tasks completed, and how
    /// busy processor and GPU are.
    pub fn health_figures(&self) -> (r: Ledger)
        ensures
            r@ == put(
                put(
                    put(Seq::empty(), "tasks_completed"@, (self.tasks_completed * SCALE) as i64),
                    "cpu_utilization"@,
                    self.cpu_utilization_percent,
                ),
                "gpu_utilization"@,
                self.gpu_utilization_percent,
            ),
    {
        let mut figures = Ledger::new();
        figures.insert(String::from_str("tasks_completed"), (self.tasks_completed as i64) * SCALE);
        figures.insert(String::from_str("cpu_utilization"), self.cpu_utilization_percent);
        figures.insert(String::from_str("gpu_utilization"), self.gpu_utilization_percent);
        figures
    }
}

} // verus!
