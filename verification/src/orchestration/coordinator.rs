//! The coordinator: the registry of providers, the aggregation of one poll
//! into a snapshot, and the bounded history of snapshots.
//!
//! Polling itself is the driver's work. For every registered provider the
//! driver asks for earnings, allocation, resource use and health, and hands
//! the answers over as one `ProviderReading` each; a call that failed is a
//! `None` in the reading.

use super::{
    copy_metrics, push_bounded, views, AggregatedMetrics, MetricsView, OrchestrationError,
    OrchestrationResult, ResourceUtilization,
};
use crate::clock::now_millis;
use crate::fixed::{fits_i64, least, narrow, quotient, HUNDRED};
use crate::ledger::{
    copy_names, distinct_names, has_name, lemma_put_other, lemma_put_total, listed, names, put,
    total, Ledger, StatusMap,
};
use crate::protocols::{AllocationStrategy, EarningsData, HealthStatus, ResourceMetrics};
use crate::text::join3;
use vstd::prelude::*;
use vstd::string::*;

verus! {

/// What one provider answered in one poll: its current earnings, its
/// current allocation, its resource usage and its health. Each part is `None`
/// if that call failed.
#[derive(Debug, Clone)]
pub struct ProviderReading {
    pub name: String,
    pub earnings: Option<EarningsData>,
    pub allocation: Option<AllocationStrategy>,
    pub resources: Option<ResourceMetrics>,
    pub health: Option<HealthStatus>,
}

/// What a poll takes from a `ProviderReading`.
pub struct ReadingView {
    pub name: Seq<char>,
    /// The amount earned per hour, in millionths of the currency unit.
    pub earnings: Option<i64>,
    /// The allocation, in millionths of a percent.
    pub allocation: Option<i64>,
    pub resources: Option<ResourceMetrics>,
    /// Whether the health report, if there was one, counts the provider as connected.
    pub connected: Option<bool>,
}

impl View for ProviderReading {
    type V = ReadingView;

    open spec fn view(&self) -> ReadingView {
        ReadingView {
            name: self.name@,
            earnings: match self.earnings {
                Some(e) => Some(e.amount_usd),
                None => None,
            },
            allocation: match self.allocation {
                Some(a) => Some(a.allocation_percent),
                None => None,
            },
            resources: self.resources,
            connected: match self.health {
                Some(h) => Some(h.connected()),
                None => None,
            },
        }
    }
}

/// One provider's state as last reported.
#[derive(Debug, Clone)]
pub struct ProtocolStatus {
    pub protocol_name: String,
    pub earnings_per_hour: i64,
    pub allocation_percent: i64,
    pub resources: Option<ResourceMetrics>,
    pub health_status: Option<HealthStatus>,
}

/// The running aggregate of a poll.
pub struct Tally {
    pub earnings: Seq<(Seq<char>, i64)>,
    pub allocation: Seq<(Seq<char>, i64)>,
    pub status: Seq<(Seq<char>, bool)>,
    pub cpu: int,
    pub memory: int,
    pub bandwidth: int,
    pub storage: int,
    /// How many providers reported their resource use.
    pub responders: nat,
}

/// The aggregate before any reading.
pub open spec fn tally_start() -> Tally {
    Tally {
        earnings: Seq::empty(),
        allocation: Seq::empty(),
        status: Seq::empty(),
        cpu: 0,
        memory: 0,
        bandwidth: 0,
        storage: 0,
        responders: 0,
    }
}

/// The earnings `earnings` with the amount `e` of the provider `name`, if
/// their sum can then still be held; an amount that would take the sum out
/// of range is left out like one that could not be read.
pub open spec fn with_earnings(earnings: Seq<(Seq<char>, i64)>, name: Seq<char>, e: i64) -> Seq<
    (Seq<char>, i64),
> {
    if fits_i64(total(put(earnings, name, e))) {
        put(earnings, name, e)
    } else {
        earnings
    }
}

/// The aggregate `t` with one more reading: a reading of an unregistered
/// provider changes nothing, and a part that failed is left out of its map.
pub open spec fn tally_with(t: Tally, registry: Seq<Seq<char>>, r: ReadingView) -> Tally {
    if !registry.contains(r.name) {
        t
    } else {
        Tally {
            earnings: match r.earnings {
                Some(e) => with_earnings(t.earnings, r.name, e),
                None => t.earnings,
            },
            allocation: match r.allocation {
                Some(a) => put(t.allocation, r.name, a),
                None => t.allocation,
            },
            status: match r.connected {
                Some(c) => put(t.status, r.name, c),
                None => t.status,
            },
            cpu: match r.resources {
                Some(u) => t.cpu + u.cpu_percent,
                None => t.cpu,
            },
            memory: match r.resources {
                Some(u) => t.memory + u.memory_mb,
                None => t.memory,
            },
            bandwidth: match r.resources {
                Some(u) => t.bandwidth + u.bandwidth_mbps,
                None => t.bandwidth,
            },
            storage: match r.resources {
                Some(u) => t.storage + u.storage_gb,
                None => t.storage,
            },
            responders: match r.resources {
                Some(_) => t.responders + 1,
                None => t.responders,
            },
        }
    }
}

/// The aggregate of a whole poll.
pub open spec fn tally(registry: Seq<Seq<char>>, readings: Seq<ReadingView>) -> Tally
    decreases readings.len(),
{
    if readings.len() == 0 {
        tally_start()
    } else {
        tally_with(tally(registry, readings.drop_last()), registry, readings.last())
    }
}

/// The mean of `responders` values that sum to `sum`, capped at one hundred
/// percent; zero when nobody responded.
pub open spec fn capped_mean(sum: int, responders: nat) -> int {
    if responders == 0 {
        0
    } else {
        least(quotient(sum, responders as int), HUNDRED as int)
    }
}

/// The snapshot that a poll with aggregate `t` produces at `now`.
pub open spec fn snapshot(now: i64, t: Tally) -> MetricsView {
    MetricsView {
        timestamp: now,
        total_earnings_per_hour: total(t.earnings) as i64,
        earnings: t.earnings,
        allocation: t.allocation,
        utilization: ResourceUtilization {
            cpu_percent: capped_mean(t.cpu, t.responders) as i64,
            memory_percent: capped_mean(t.memory, t.responders) as i64,
            bandwidth_percent: capped_mean(t.bandwidth, t.responders) as i64,
            storage_percent: capped_mean(t.storage, t.responders) as i64,
        },
        status: t.status,
    }
}

/// Whether every provider that the snapshot names is in `registry`.
pub open spec fn within_registry(m: MetricsView, registry: Seq<Seq<char>>) -> bool {
    &&& forall|i: int| 0 <= i < m.earnings.len() ==> registry.contains(#[trigger] m.earnings[i].0)
    &&& forall|i: int| 0 <= i < m.allocation.len() ==> registry.contains(#[trigger] m.allocation[i].0)
    &&& forall|i: int| 0 <= i < m.status.len() ==> registry.contains(#[trigger] m.status[i].0)
}

/// The snapshots of `history` taken from `start` to `end`, both included, in order.
pub open spec fn in_period(history: Seq<MetricsView>, start: i64, end: i64) -> Seq<MetricsView> {
    history.filter(|m: MetricsView| start <= m.timestamp && m.timestamp <= end)
}

/// The sum of the total earnings of all snapshots in `history`.
pub open spec fn earnings_sum(history: Seq<MetricsView>) -> int
    decreases history.len(),
{
    if history.len() == 0 {
        0
    } else {
        earnings_sum(history.drop_last()) + history.last().total_earnings_per_hour
    }
}

/// The sum of `n` totals lies within `n` times the range of one.
pub proof fn lemma_earnings_sum_bound(history: Seq<MetricsView>)
    ensures
        history.len() * i64::MIN <= earnings_sum(history) <= history.len() * i64::MAX,
    decreases history.len(),
{
    if history.len() > 0 {
        lemma_earnings_sum_bound(history.drop_last());
        assert((history.len() - 1) * i64::MIN + i64::MIN == history.len() * i64::MIN)
            by (nonlinear_arith);
        assert((history.len() - 1) * i64::MAX + i64::MAX == history.len() * i64::MAX)
            by (nonlinear_arith);
    }
}

/// Every name in the maps of a poll's aggregate is a registered provider,
/// no name occurs twice in a map, the sum of the earnings can be held, and
/// the resource sums stay within the range of as many values as there were
/// responders.
pub proof fn lemma_tally(registry: Seq<Seq<char>>, readings: Seq<ReadingView>)
    ensures
        ({
            let t = tally(registry, readings);
            &&& forall|i: int| 0 <= i < t.earnings.len() ==> registry.contains(#[trigger] t.earnings[i].0)
            &&& forall|i: int|
                0 <= i < t.allocation.len() ==> registry.contains(#[trigger] t.allocation[i].0)
            &&& forall|i: int| 0 <= i < t.status.len() ==> registry.contains(#[trigger] t.status[i].0)
            &&& distinct_names(t.earnings)
            &&& distinct_names(t.allocation)
            &&& distinct_names(t.status)
            &&& fits_i64(total(t.earnings))
            &&& t.responders <= readings.len()
            &&& t.responders * i64::MIN <= t.cpu <= t.responders * i64::MAX
            &&& t.responders * i64::MIN <= t.memory <= t.responders * i64::MAX
            &&& t.responders * i64::MIN <= t.bandwidth <= t.responders * i64::MAX
            &&& t.responders * i64::MIN <= t.storage <= t.responders * i64::MAX
        }),
    decreases readings.len(),
{
    if readings.len() > 0 {
        let before = tally(registry, readings.drop_last());
        let r = readings.last();
        let t = tally(registry, readings);
        lemma_tally(registry, readings.drop_last());
        if registry.contains(r.name) {
            if let Some(e) = r.earnings {
                crate::ledger::lemma_put_distinct(before.earnings, r.name, e);
                crate::ledger::lemma_position(before.earnings, r.name);
            }
            if let Some(a) = r.allocation {
                crate::ledger::lemma_put_distinct(before.allocation, r.name, a);
                crate::ledger::lemma_position(before.allocation, r.name);
            }
            if let Some(c) = r.connected {
                crate::ledger::lemma_put_distinct(before.status, r.name, c);
                crate::ledger::lemma_position(before.status, r.name);
            }
            let n = before.responders as int;
            assert(n * i64::MIN + i64::MIN == (n + 1) * i64::MIN) by (nonlinear_arith);
            assert(n * i64::MAX + i64::MAX == (n + 1) * i64::MAX) by (nonlinear_arith);
        }
    }
}

/// A provider that failed to give a part in every one of its readings is
/// left out of the map of that part: of the earnings, of the allocations, of
/// the connection status.
pub proof fn lemma_failed_parts_are_left_out(
    registry: Seq<Seq<char>>,
    readings: Seq<ReadingView>,
    name: Seq<char>,
)
    ensures
        (forall|i: int|
            0 <= i < readings.len() && (#[trigger] readings[i]).name == name
                ==> readings[i].earnings is None) ==> !has_name(
            tally(registry, readings).earnings,
            name,
        ),
        (forall|i: int|
            0 <= i < readings.len() && (#[trigger] readings[i]).name == name
                ==> readings[i].allocation is None) ==> !has_name(
            tally(registry, readings).allocation,
            name,
        ),
        (forall|i: int|
            0 <= i < readings.len() && (#[trigger] readings[i]).name == name
                ==> readings[i].connected is None) ==> !has_name(
            tally(registry, readings).status,
            name,
        ),
    decreases readings.len(),
{
    if readings.len() > 0 {
        let rest = readings.drop_last();
        let before = tally(registry, rest);
        let r = readings.last();
        lemma_failed_parts_are_left_out(registry, rest, name);
        assert forall|i: int| 0 <= i < rest.len() implies rest[i] == readings[i] by {}
        if registry.contains(r.name) && r.name != name {
            if let Some(e) = r.earnings {
                lemma_put_other(before.earnings, r.name, e, name);
            }
            if let Some(a) = r.allocation {
                lemma_put_other(before.allocation, r.name, a, name);
            }
            if let Some(c) = r.connected {
                lemma_put_other(before.status, r.name, c, name);
            }
        }
        if forall|i: int|
            0 <= i < readings.len() && (#[trigger] readings[i]).name == name
                ==> readings[i].earnings is None {
            assert forall|i: int| 0 <= i < rest.len() && (#[trigger] rest[i]).name == name implies rest[i].earnings is None by {
                assert(readings[i].name == name);
            }
            assert(r.name == name ==> r.earnings is None) by {
                assert(readings[readings.len() - 1] == r);
            }
        }
        if forall|i: int|
            0 <= i < readings.len() && (#[trigger] readings[i]).name == name
                ==> readings[i].allocation is None {
            assert forall|i: int| 0 <= i < rest.len() && (#[trigger] rest[i]).name == name implies rest[i].allocation is None by {
                assert(readings[i].name == name);
            }
            assert(r.name == name ==> r.allocation is None) by {
                assert(readings[readings.len() - 1] == r);
            }
        }
        if forall|i: int|
            0 <= i < readings.len() && (#[trigger] readings[i]).name == name
                ==> readings[i].connected is None {
            assert forall|i: int| 0 <= i < rest.len() && (#[trigger] rest[i]).name == name implies rest[i].connected is None by {
                assert(readings[i].name == name);
            }
            assert(r.name == name ==> r.connected is None) by {
                assert(readings[readings.len() - 1] == r);
            }
        }
    }
}

/// The registry of providers and the bounded history of their snapshots.
pub struct ProtocolCoordinator {
    adapters: Vec<String>,
    metrics_history: Vec<AggregatedMetrics>,
    last_update: Option<i64>,
    max_history_size: usize,
}

impl ProtocolCoordinator {
    #[verifier::type_invariant]
    spec fn bounded(self) -> bool {
        &&& self.metrics_history@.len() <= self.max_history_size
        &&& names(self.adapters@).no_duplicates()
    }

    /// The names of the registered providers, in the order of registration.
    pub closed spec fn registry(&self) -> Seq<Seq<char>> {
        names(self.adapters@)
    }

    /// The snapshots kept, oldest first.
    pub closed spec fn history(&self) -> Seq<MetricsView> {
        views(self.metrics_history@)
    }

    /// The largest number of snapshots kept.
    pub closed spec fn capacity(&self) -> usize {
        self.max_history_size
    }

    /// The instant of the last poll.
    pub closed spec fn updated(&self) -> Option<i64> {
        self.last_update
    }

    /// A coordinator without providers or history that keeps at most
    /// `max_history_size` snapshots.
    pub fn new(max_history_size: usize) -> (r: Self)
        ensures
            r.registry() == Seq::<Seq<char>>::empty(),
            r.history() == Seq::<MetricsView>::empty(),
            r.capacity() == max_history_size,
            r.updated() == None::<i64>,
    {
        let r = ProtocolCoordinator {
            adapters: Vec::new(),
            metrics_history: Vec::new(),
            last_update: None,
            max_history_size,
        };
        assert(r.registry() =~= Seq::<Seq<char>>::empty());
        assert(r.history() =~= Seq::<MetricsView>::empty());
        r
    }

    /// The largest number of snapshots kept.
    pub fn max_history_size(&self) -> (r: usize)
        ensures
            r == self.capacity(),
            self.history().len() <= r,
    {
        proof {
            use_type_invariant(self);
        }
        self.max_history_size
    }

    /// Registers a provider. Registering a name again changes nothing here:
    /// the last registration wins with the driver, which holds the provider.
    pub fn register_adapter(&mut self, protocol_name: String)
        ensures
            final(self).registry() == (if old(self).registry().contains(protocol_name@) {
                old(self).registry()
            } else {
                old(self).registry().push(protocol_name@)
            }),
            final(self).history() == old(self).history(),
            final(self).capacity() == old(self).capacity(),
            final(self).updated() == old(self).updated(),
    {
        proof {
            use_type_invariant(&*self);
        }
        if !listed(&self.adapters, &protocol_name) {
            let ghost before = names(self.adapters@);
            let mut adapters: Vec<String> = Vec::new();
            std::mem::swap(&mut adapters, &mut self.adapters);
            assert(names(self.adapters@) =~= Seq::<Seq<char>>::empty());
            adapters.push(protocol_name);
            assert(names(adapters@) =~= before.push(protocol_name@));
            self.adapters = adapters;
        }
    }

    /// The names of the registered providers, in the order of registration.
    pub fn registered_protocols(&self) -> (r: Vec<String>)
        ensures
            names(r@) == self.registry(),
            self.registry().no_duplicates(),
    {
        proof {
            use_type_invariant(self);
        }
        copy_names(&self.adapters)
    }

    /// Whether a provider is registered under `protocol_name`.
    pub fn is_registered(&self, protocol_name: &String) -> (r: bool)
        ensures
            r == self.registry().contains(protocol_name@),
    {
        listed(&self.adapters, protocol_name)
    }

    /// Aggregates the readings of one poll taken at `now` into a snapshot and
    /// appends it to the history, evicting the oldest snapshot beyond the
    /// capacity. A part that a provider failed to give is left out of its
    /// map. The total is the sum of the earnings collected. The poll never
    /// fails.
    pub fn poll_all_at(&mut self, now: i64, readings: &Vec<ProviderReading>) -> (r:
        OrchestrationResult<AggregatedMetrics>)
        ensures
            final(self).registry() == old(self).registry(),
            final(self).capacity() == old(self).capacity(),
            final(self).history().len() <= final(self).capacity(),
            r is Ok,
            r->Ok_0@ == snapshot(now, tally(old(self).registry(), views(readings@))),
            r->Ok_0.total_earnings_per_hour == total(r->Ok_0@.earnings),
            within_registry(r->Ok_0@, old(self).registry()),
            final(self).history() == push_bounded(
                old(self).history(),
                r->Ok_0@,
                old(self).capacity() as int,
            ),
            final(self).updated() == Some(now),
    {
        proof {
            use_type_invariant(&*self);
        }
        let mut earnings = Ledger::new();
        let mut allocation = Ledger::new();
        let mut status = StatusMap::new();
        let mut cpu: i128 = 0;
        let mut memory: i128 = 0;
        let mut bandwidth: i128 = 0;
        let mut storage: i128 = 0;
        let mut responders: usize = 0;
        let mut sum: i64 = 0;
        let ghost registry = self.registry();
        let ghost all = views(readings@);
        let mut i: usize = 0;
        while i < readings.len()
            invariant
                i <= readings@.len(),
                registry == names(self.adapters@),
                all == views(readings@),
                ({
                    let t = tally(registry, all.take(i as int));
                    &&& earnings@ == t.earnings
                    &&& allocation@ == t.allocation
                    &&& status@ == t.status
                    &&& cpu == t.cpu
                    &&& memory == t.memory
                    &&& bandwidth == t.bandwidth
                    &&& storage == t.storage
                    &&& responders == t.responders
                    &&& sum == total(t.earnings)
                }),
            decreases readings@.len() - i,
        {
            proof {
                lemma_tally(registry, all.take(i as int));
                assert(all.take(i + 1).drop_last() == all.take(i as int));
                assert(all.take(i + 1).last() == readings@[i as int]@);
                let n = responders as int;
                assert(n * i64::MIN >= usize::MAX * i64::MIN && n * i64::MAX <= usize::MAX
                    * i64::MAX) by (nonlinear_arith)
                    requires
                        0 <= n <= usize::MAX,
                ;
            }
            let reading = &readings[i];
            if listed(&self.adapters, &reading.name) {
                if let Some(e) = &reading.earnings {
                    let held = match earnings.get(&reading.name) {
                        Some(a) => a,
                        None => 0,
                    };
                    proof {
                        lemma_put_total(earnings@, reading.name@, e.amount_usd);
                    }
                    if let Some(raised) = narrow(sum as i128 - held as i128 + e.amount_usd as i128) {
                        earnings.insert(reading.name.clone(), e.amount_usd);
                        sum = raised;
                    }
                }
                if let Some(a) = reading.allocation {
                    allocation.insert(reading.name.clone(), a.allocation_percent);
                }
                if let Some(u) = reading.resources {
                    cpu = cpu + u.cpu_percent as i128;
                    memory = memory + u.memory_mb as i128;
                    bandwidth = bandwidth + u.bandwidth_mbps as i128;
                    storage = storage + u.storage_gb as i128;
                    responders = responders + 1;
                }
                if let Some(h) = &reading.health {
                    status.insert(reading.name.clone(), h.is_connected());
                }
            }
            i += 1;
        }
        proof {
            assert(all.take(readings@.len() as int) == all);
            lemma_tally(registry, all);
        }
        let metrics = AggregatedMetrics {
            timestamp: now,
            total_earnings_per_hour: sum,
            earnings_by_protocol: earnings,
            allocation_by_protocol: allocation,
            resource_utilization: ResourceUtilization {
                cpu_percent: mean_capped(cpu, responders),
                memory_percent: mean_capped(memory, responders),
                bandwidth_percent: mean_capped(bandwidth, responders),
                storage_percent: mean_capped(storage, responders),
            },
            connection_status: status,
        };
        let ghost before = self.history();
        let capacity = self.max_history_size;
        let mut history: Vec<AggregatedMetrics> = Vec::new();
        std::mem::swap(&mut history, &mut self.metrics_history);
        history.push(metrics.clone());
        if history.len() > capacity {
            history.remove(0);
        }
        assert(views(history@) =~= push_bounded(before, metrics@, capacity as int));
        self.metrics_history = history;
        self.last_update = Some(now);
        Ok(metrics)
    }

    /// Aggregates the readings of one poll, stamped with the current time.
    /// See `poll_all_at`.
    pub fn poll_all(&mut self, readings: &Vec<ProviderReading>) -> (r: OrchestrationResult<
        AggregatedMetrics,
    >)
        ensures
            final(self).registry() == old(self).registry(),
            final(self).capacity() == old(self).capacity(),
            r is Ok,
            r->Ok_0@ == snapshot(
                r->Ok_0.timestamp,
                tally(old(self).registry(), views(readings@)),
            ),
            r->Ok_0.total_earnings_per_hour == total(r->Ok_0@.earnings),
            within_registry(r->Ok_0@, old(self).registry()),
            final(self).history() == push_bounded(
                old(self).history(),
                r->Ok_0@,
                old(self).capacity() as int,
            ),
            final(self).updated() == Some(r->Ok_0.timestamp),
    {
        let now = now_millis();
        self.poll_all_at(now, readings)
    }

    /// The state of one provider as given by `reading`, with zero for
    /// earnings or an allocation that could not be read. Asking for a
    /// provider that is not registered is an error.
    pub fn get_protocol_status(&self, protocol_name: &String, reading: &ProviderReading) -> (r:
        OrchestrationResult<ProtocolStatus>)
        ensures
            r is Ok <==> self.registry().contains(protocol_name@),
            r is Ok ==> {
                let s = r->Ok_0;
                &&& s.protocol_name@ == protocol_name@
                &&& s.earnings_per_hour == (match reading.earnings {
                    Some(e) => e.amount_usd,
                    None => 0,
                })
                &&& s.allocation_percent == (match reading.allocation {
                    Some(a) => a.allocation_percent,
                    None => 0,
                })
                &&& s.resources == reading.resources
                &&& s.health_status is Some == reading.health is Some
                &&& s.health_status is Some ==> {
                    &&& s.health_status->0.is_healthy == reading.health->0.is_healthy
                    &&& s.health_status->0.connection_status == reading.health->0.connection_status
                    &&& s.health_status->0.last_operation == reading.health->0.last_operation
                    &&& s.health_status->0.error_message is Some
                        == reading.health->0.error_message is Some
                    &&& s.health_status->0.error_message is Some
                        ==> s.health_status->0.error_message->0@
                        == reading.health->0.error_message->0@
                }
            },
            r is Err ==> r->Err_0 is CoordinationError && r->Err_0.detail() == "Protocol "@
                + protocol_name@ + " not registered"@,
    {
        if !listed(&self.adapters, protocol_name) {
            return Err(
                OrchestrationError::CoordinationError(
                    join3("Protocol ", protocol_name.as_str(), " not registered"),
                ),
            );
        }
        let health_status = match &reading.health {
            Some(h) => Some(
                HealthStatus {
                    is_healthy: h.is_healthy,
                    connection_status: h.connection_status,
                    last_operation: h.last_operation,
                    error_message: match &h.error_message {
                        Some(m) => Some(m.clone()),
                        None => None,
                    },
                },
            ),
            None => None,
        };
        Ok(
            ProtocolStatus {
                protocol_name: protocol_name.clone(),
                earnings_per_hour: match &reading.earnings {
                    Some(e) => e.amount_usd,
                    None => 0,
                },
                allocation_percent: match reading.allocation {
                    Some(a) => a.allocation_percent,
                    None => 0,
                },
                resources: reading.resources,
                health_status,
            },
        )
    }

    /// The snapshots kept, oldest first.
    pub fn get_metrics_history(&self) -> (r: Vec<AggregatedMetrics>)
        ensures
            views(r@) == self.history(),
            r@.len() <= self.capacity(),
    {
        proof {
            use_type_invariant(self);
        }
        let r = copy_metrics(&self.metrics_history);
        assert(views(r@).len() == r@.len());
        assert(views(self.metrics_history@).len() == self.metrics_history@.len());
        r
    }

    /// The sum of the total earnings of all snapshots kept, zero for an empty
    /// history; an error if the sum cannot be held.
    pub fn calculate_total_earnings(&self) -> (r: OrchestrationResult<i64>)
        ensures
            r is Ok <==> fits_i64(earnings_sum(self.history())),
            r is Ok ==> r->Ok_0 == earnings_sum(self.history()),
            r is Err ==> r->Err_0 is CalculationError,
    {
        let ghost h = self.history();
        let mut sum: i128 = 0;
        let mut i: usize = 0;
        while i < self.metrics_history.len()
            invariant
                i <= self.metrics_history@.len(),
                h == views(self.metrics_history@),
                sum == earnings_sum(h.take(i as int)),
            decreases self.metrics_history@.len() - i,
        {
            proof {
                lemma_earnings_sum_bound(h.take(i as int));
                assert(h.take(i + 1).drop_last() == h.take(i as int));
                assert(i * i64::MIN >= usize::MAX * i64::MIN && i * i64::MAX <= usize::MAX
                    * i64::MAX) by (nonlinear_arith)
                    requires
                        0 <= i <= usize::MAX,
                ;
            }
            sum = sum + self.metrics_history[i].total_earnings_per_hour as i128;
            i += 1;
        }
        assert(h.take(self.metrics_history@.len() as int) == h);
        match narrow(sum) {
            Some(s) => Ok(s),
            None => Err(
                OrchestrationError::CalculationError(String::from_str("Total earnings out of range")),
            ),
        }
    }

    /// Whether `r` is what `get_current_metrics` returns in this state: the
    /// last snapshot, or nothing if there is no data yet.
    pub open spec fn is_current(&self, r: Option<MetricsView>) -> bool {
        r == if self.history().len() == 0 {
            None
        } else {
            Some(self.history().last())
        }
    }

    /// The last snapshot, or `None` if nothing was polled yet.
    pub fn get_current_metrics(&self) -> (r: OrchestrationResult<Option<AggregatedMetrics>>)
        ensures
            r is Ok,
            self.is_current(
                match r->Ok_0 {
                    Some(m) => Some(m@),
                    None => None,
                },
            ),
    {
        let n = self.metrics_history.len();
        if n == 0 {
            Ok(None)
        } else {
            Ok(Some(self.metrics_history[n - 1].clone()))
        }
    }

    /// The snapshots taken from `start` to `end`, both included, oldest first.
    pub fn get_metrics_for_period(&self, start: i64, end: i64) -> (r: OrchestrationResult<
        Vec<AggregatedMetrics>,
    >)
        ensures
            r is Ok,
            views(r->Ok_0@) == in_period(self.history(), start, end),
    {
        Ok(select_period(&self.metrics_history, start, end))
    }

    /// The instant of the last poll, if there was one.
    pub fn get_last_update(&self) -> (r: Option<i64>)
        ensures
            r == self.updated(),
    {
        self.last_update
    }

    /// Forgets all snapshots.
    pub fn clear_history(&mut self)
        ensures
            final(self).history() == Seq::<MetricsView>::empty(),
            final(self).registry() == old(self).registry(),
            final(self).capacity() == old(self).capacity(),
            final(self).updated() == old(self).updated(),
    {
        proof {
            use_type_invariant(&*self);
        }
        self.metrics_history = Vec::new();
        assert(self.history() =~= Seq::<MetricsView>::empty());
    }
}

/// Asking for the current snapshot twice, with nothing polled in between,
/// gives the same answer: the answer is a function of the coordinator's state.
pub proof fn lemma_current_metrics_repeatable(
    coordinator: ProtocolCoordinator,
    first: Option<MetricsView>,
    second: Option<MetricsView>,
)
    requires
        coordinator.is_current(first),
        coordinator.is_current(second),
    ensures
        first == second,
{
}

/// The mean of `responders` values that sum to `sum`, capped at one hundred percent.
fn mean_capped(sum: i128, responders: usize) -> (r: i64)
    requires
        responders * i64::MIN <= sum <= responders * i64::MAX,
    ensures
        r == capped_mean(sum as int, responders as nat),
{
    if responders == 0 {
        0
    } else {
        let n: i128 = responders as i128;
        let q: i128 = sum / n;
        proof {
            let s = sum as int;
            let m = n as int;
            if s >= 0 {
                assert(s / m <= i64::MAX) by (nonlinear_arith)
                    requires
                        0 <= s <= m * i64::MAX,
                        m > 0,
                ;
                assert(s / m >= 0) by (nonlinear_arith)
                    requires
                        0 <= s,
                        m > 0,
                ;
            } else {
                assert((-s) / m <= -(i64::MIN as int)) by (nonlinear_arith)
                    requires
                        0 < -s <= m * (-(i64::MIN as int)),
                        m > 0,
                ;
                assert((-s) / m >= 0) by (nonlinear_arith)
                    requires
                        0 <= -s,
                        m > 0,
                ;
            }
        }
        if q > HUNDRED as i128 {
            HUNDRED
        } else {
            q as i64
        }
    }
}

/// The snapshots of `list` taken from `start` to `end`, both included, in order.
pub fn select_period(list: &Vec<AggregatedMetrics>, start: i64, end: i64) -> (r: Vec<
    AggregatedMetrics,
>)
    ensures
        views(r@) == in_period(views(list@), start, end),
{
    let ghost all = views(list@);
    let ghost keep = |m: MetricsView| start <= m.timestamp && m.timestamp <= end;
    let mut r: Vec<AggregatedMetrics> = Vec::new();
    let mut i: usize = 0;
    assert(all.take(0).filter(keep) =~= Seq::<MetricsView>::empty()) by {
        reveal(Seq::filter);
    }
    while i < list.len()
        invariant
            i <= list@.len(),
            all == views(list@),
            keep == |m: MetricsView| start <= m.timestamp && m.timestamp <= end,
            views(r@) == all.take(i as int).filter(keep),
        decreases list@.len() - i,
    {
        proof {
            reveal(Seq::filter);
            assert(all.take(i + 1).drop_last() == all.take(i as int));
        }
        let ghost before = views(r@);
        if list[i].timestamp >= start && list[i].timestamp <= end {
            r.push(list[i].clone());
            assert(views(r@) =~= before.push(list@[i as int]@));
        }
        i += 1;
    }
    assert(all.take(list@.len() as int) == all);
    r
}

} // verus!
