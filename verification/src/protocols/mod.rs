//! What the orchestration core knows of a provider: the values it reports and
//! the errors it raises.

pub mod golem;
pub mod grass;
pub mod storj;
pub mod streamr;

use crate::clock::{now_millis, HOUR_MILLIS};
use crate::fixed::{fits_i64, lemma_product_bound, narrow, quotient, HUNDRED};
use crate::ledger::Ledger;
use crate::text::{join, join5, plain_text, render_plain};
use vstd::prelude::*;
use vstd::string::*;

verus! {

/// A provider's failure, with a detail text.
#[derive(Debug)]
pub enum ProtocolError {
    ConnectionError(String),
    AuthenticationError(String),
    ApiError(String),
    AllocationError(String),
    ParseError(String),
    ConfigurationError(String),
    ResourceError(String),
    TimeoutError(String),
    NetworkError(String),
    UnsupportedError(String),
    DataError(String),
}

pub type ProtocolResult<T> = Result<T, ProtocolError>;

impl ProtocolError {
    /// The detail text carried by the error.
    pub open spec fn detail(self) -> Seq<char> {
        match self {
            ProtocolError::ConnectionError(m) => m@,
            ProtocolError::AuthenticationError(m) => m@,
            ProtocolError::ApiError(m) => m@,
            ProtocolError::AllocationError(m) => m@,
            ProtocolError::ParseError(m) => m@,
            ProtocolError::ConfigurationError(m) => m@,
            ProtocolError::ResourceError(m) => m@,
            ProtocolError::TimeoutError(m) => m@,
            ProtocolError::NetworkError(m) => m@,
            ProtocolError::UnsupportedError(m) => m@,
            ProtocolError::DataError(m) => m@,
        }
    }

    /// The words that introduce the detail when the error is displayed.
    pub open spec fn heading(self) -> Seq<char> {
        match self {
            ProtocolError::ConnectionError(_) => "Connection error: "@,
            ProtocolError::AuthenticationError(_) => "Authentication error: "@,
            ProtocolError::ApiError(_) => "API error: "@,
            ProtocolError::AllocationError(_) => "Allocation error: "@,
            ProtocolError::ParseError(_) => "Parse error: "@,
            ProtocolError::ConfigurationError(_) => "Configuration error: "@,
            ProtocolError::ResourceError(_) => "Resource error: "@,
            ProtocolError::TimeoutError(_) => "Timeout error: "@,
            ProtocolError::NetworkError(_) => "Network error: "@,
            ProtocolError::UnsupportedError(_) => "Unsupported operation: "@,
            ProtocolError::DataError(_) => "Data error: "@,
        }
    }

    /// The error as shown to a reader: heading, then detail.
    pub fn to_string(&self) -> (r: String)
        ensures
            r@ == self.heading() + self.detail(),
    {
        match self {
            ProtocolError::ConnectionError(m) => join("Connection error: ", m.as_str()),
            ProtocolError::AuthenticationError(m) => join("Authentication error: ", m.as_str()),
            ProtocolError::ApiError(m) => join("API error: ", m.as_str()),
            ProtocolError::AllocationError(m) => join("Allocation error: ", m.as_str()),
            ProtocolError::ParseError(m) => join("Parse error: ", m.as_str()),
            ProtocolError::ConfigurationError(m) => join("Configuration error: ", m.as_str()),
            ProtocolError::ResourceError(m) => join("Resource error: ", m.as_str()),
            ProtocolError::TimeoutError(m) => join("Timeout error: ", m.as_str()),
            ProtocolError::NetworkError(m) => join("Network error: ", m.as_str()),
            ProtocolError::UnsupportedError(m) => join("Unsupported operation: ", m.as_str()),
            ProtocolError::DataError(m) => join("Data error: ", m.as_str()),
        }
    }
}

/// The state of a provider's connection.
#[derive(Debug, Clone, Copy, PartialEq, Eq, Structural)]
pub enum ConnectionStatus {
    /// Disconnected and idle.
    Disconnected,
    /// Connecting to the network.
    Connecting,
    /// Connected and operational.
    Connected,
    /// Temporarily disconnected, trying to reconnect.
    Reconnecting,
    /// The connection failed.
    Failed,
}

impl ConnectionStatus {
    /// The name of the state.
    pub open spec fn label(self) -> Seq<char> {
        match self {
            ConnectionStatus::Disconnected => "Disconnected"@,
            ConnectionStatus::Connecting => "Connecting"@,
            ConnectionStatus::Connected => "Connected"@,
            ConnectionStatus::Reconnecting => "Reconnecting"@,
            ConnectionStatus::Failed => "Failed"@,
        }
    }

    /// The name of the state.
    pub fn to_string(&self) -> (r: String)
        ensures
            r@ == self.label(),
    {
        match self {
            ConnectionStatus::Disconnected => String::from_str("Disconnected"),
            ConnectionStatus::Connecting => String::from_str("Connecting"),
            ConnectionStatus::Connected => String::from_str("Connected"),
            ConnectionStatus::Reconnecting => String::from_str("Reconnecting"),
            ConnectionStatus::Failed => String::from_str("Failed"),
        }
    }
}

/// One earnings record of a provider.
#[derive(Debug, Clone)]
pub struct EarningsData {
    /// When the amount was earned, in milliseconds since the epoch.
    pub timestamp: i64,
    /// The amount per hour, in millionths of the currency unit.
    pub amount_usd: i64,
    /// The provider's own identifier.
    pub protocol_id: String,
    /// Further figures by name, in millionths.
    pub metrics: Ledger,
}

/// What a provider uses of the machine.
#[derive(Debug, Clone, Copy, PartialEq, Eq, Structural)]
pub struct ResourceMetrics {
    /// Millionths of a percent.
    pub cpu_percent: i64,
    /// Millionths of a megabyte.
    pub memory_mb: i64,
    /// Millionths of a megabit per second.
    pub bandwidth_mbps: i64,
    /// Millionths of a gigabyte.
    pub storage_gb: i64,
    pub uptime_seconds: u64,
}

/// The resources a provider is told to use.
#[derive(Debug, Clone, Copy, PartialEq, Eq, Structural)]
pub struct AllocationStrategy {
    pub cpu_cores: u32,
    /// Millionths of a gigabyte.
    pub memory_gb: i64,
    /// Millionths of a gigabyte.
    pub storage_gb: i64,
    /// Millionths of a megabit per second.
    pub bandwidth_mbps: i64,
    /// Millionths of a percent.
    pub allocation_percent: i64,
}

/// A provider's report on its own health.
#[derive(Debug, Clone)]
pub struct HealthStatus {
    pub is_healthy: bool,
    pub connection_status: ConnectionStatus,
    /// When the provider last worked, in milliseconds since the epoch.
    pub last_operation: Option<i64>,
    pub error_message: Option<String>,
}

impl HealthStatus {
    /// Whether the report counts the provider as connected: healthy, and in
    /// the `Connected` state.
    pub open spec fn connected(self) -> bool {
        self.is_healthy && self.connection_status == ConnectionStatus::Connected
    }

    /// Whether the report counts the provider as connected.
    pub fn is_connected(&self) -> (r: bool)
        ensures
            r == self.connected(),
    {
        self.is_healthy && self.connection_status == ConnectionStatus::Connected
    }
}

/// What a provider accepts as an allocation.
#[derive(Debug, Clone, Copy, PartialEq, Eq, Structural)]
pub struct AllocationLimits {
    /// The least allocation, in millionths of a percent.
    pub min_allocation_percent: i64,
    /// The greatest allocation, in millionths of a percent.
    pub max_allocation_percent: i64,
    /// The processor cores available, if they are limited.
    pub max_cpu_cores: Option<u32>,
    /// The memory available, in millionths of a gigabyte, if it is limited.
    pub max_memory_gb: Option<i64>,
    /// The storage available, in millionths of a gigabyte, if it is limited.
    pub max_storage_gb: Option<i64>,
    /// The bandwidth available, in millionths of a megabit per second, if it is limited.
    pub max_bandwidth_mbps: Option<i64>,
}

/// Why a provider with the limits `limits` refuses `strategy`, if it does:
/// the first of these that holds. The allocation is outside the range; more
/// cores, memory, storage or bandwidth are asked for than there are.
pub open spec fn refusal(limits: AllocationLimits, strategy: AllocationStrategy) -> Option<Seq<char>> {
    if strategy.allocation_percent < limits.min_allocation_percent || strategy.allocation_percent
        > limits.max_allocation_percent {
        Some(
            "Allocation must be between "@ + plain_text(limits.min_allocation_percent as int)
                + " and "@ + plain_text(limits.max_allocation_percent as int) + "%"@,
        )
    } else if limits.max_cpu_cores is Some && strategy.cpu_cores > limits.max_cpu_cores->0 {
        Some("CPU cores allocation exceeds available"@)
    } else if limits.max_memory_gb is Some && strategy.memory_gb > limits.max_memory_gb->0 {
        Some("Memory allocation exceeds available"@)
    } else if limits.max_storage_gb is Some && strategy.storage_gb > limits.max_storage_gb->0 {
        Some("Storage allocation exceeds limit"@)
    } else if limits.max_bandwidth_mbps is Some && strategy.bandwidth_mbps
        > limits.max_bandwidth_mbps->0 {
        Some("Bandwidth allocation exceeds maximum"@)
    } else {
        None
    }
}

/// Whether a provider with the limits `limits` accepts `strategy`.
pub fn check_allocation(limits: &AllocationLimits, strategy: &AllocationStrategy) -> (r:
    ProtocolResult<()>)
    ensures
        r is Ok <==> refusal(*limits, *strategy) is None,
        r is Err ==> r->Err_0 is AllocationError && Some(r->Err_0.detail()) == refusal(
            *limits,
            *strategy,
        ),
{
    if strategy.allocation_percent < limits.min_allocation_percent || strategy.allocation_percent
        > limits.max_allocation_percent {
        let low = render_plain(limits.min_allocation_percent as i128);
        let high = render_plain(limits.max_allocation_percent as i128);
        return Err(
            ProtocolError::AllocationError(
                join5("Allocation must be between ", low.as_str(), " and ", high.as_str(), "%"),
            ),
        );
    }
    if let Some(cores) = limits.max_cpu_cores {
        if strategy.cpu_cores > cores {
            return Err(
                ProtocolError::AllocationError(
                    String::from_str("CPU cores allocation exceeds available"),
                ),
            );
        }
    }
    if let Some(memory) = limits.max_memory_gb {
        if strategy.memory_gb > memory {
            return Err(
                ProtocolError::AllocationError(String::from_str("Memory allocation exceeds available")),
            );
        }
    }
    if let Some(storage) = limits.max_storage_gb {
        if strategy.storage_gb > storage {
            return Err(
                ProtocolError::AllocationError(String::from_str("Storage allocation exceeds limit")),
            );
        }
    }
    if let Some(bandwidth) = limits.max_bandwidth_mbps {
        if strategy.bandwidth_mbps > bandwidth {
            return Err(
                ProtocolError::AllocationError(
                    String::from_str("Bandwidth allocation exceeds maximum"),
                ),
            );
        }
    }
    Ok(())
}

/// What every provider keeps: the state of its connection, the instant it
/// connected, and the allocation it holds.
#[derive(Debug, Clone, Copy, PartialEq, Eq, Structural)]
pub struct AdapterState {
    pub status: ConnectionStatus,
    /// When the provider connected, in milliseconds since the epoch.
    pub connected_at: Option<i64>,
    pub allocation: AllocationStrategy,
    pub limits: AllocationLimits,
}

impl AdapterState {
    /// A disconnected provider that holds `allocation`.
    pub open spec fn initial(allocation: AllocationStrategy, limits: AllocationLimits) -> Self {
        AdapterState {
            status: ConnectionStatus::Disconnected,
            connected_at: None,
            allocation,
            limits,
        }
    }

    /// A disconnected provider that holds `allocation`.
    pub fn new(allocation: AllocationStrategy, limits: AllocationLimits) -> (r: Self)
        ensures
            r == Self::initial(allocation, limits),
    {
        AdapterState { status: ConnectionStatus::Disconnected, connected_at: None, allocation, limits }
    }

    /// The provider starts to connect.
    pub fn begin_connect(&mut self)
        ensures
            *final(self) == (AdapterState { status: ConnectionStatus::Connecting, ..*old(self) }),
    {
        self.status = ConnectionStatus::Connecting;
    }

    /// The provider is connected, from `now` on.
    pub fn connect_at(&mut self, now: i64)
        ensures
            *final(self) == (AdapterState {
                status: ConnectionStatus::Connected,
                connected_at: Some(now),
                ..*old(self)
            }),
    {
        self.status = ConnectionStatus::Connected;
        self.connected_at = Some(now);
    }

    /// The provider disconnects; nothing changes if it is disconnected.
    pub fn disconnect(&mut self)
        ensures
            *final(self) == (if old(self).status == ConnectionStatus::Disconnected {
                *old(self)
            } else {
                AdapterState {
                    status: ConnectionStatus::Disconnected,
                    connected_at: None,
                    ..*old(self)
                }
            }),
    {
        if self.status == ConnectionStatus::Disconnected {
            return ;
        }
        self.status = ConnectionStatus::Disconnected;
        self.connected_at = None;
    }

    /// Takes `strategy` as the allocation if the limits allow it, and
    /// changes nothing if they do not.
    pub fn apply_allocation(&mut self, strategy: AllocationStrategy) -> (r: ProtocolResult<()>)
        ensures
            r is Ok <==> refusal(old(self).limits, strategy) is None,
            r is Ok ==> *final(self) == (AdapterState { allocation: strategy, ..*old(self) }),
            r is Err ==> *final(self) == *old(self) && r->Err_0 is AllocationError && Some(
                r->Err_0.detail(),
            ) == refusal(old(self).limits, strategy),
    {
        match check_allocation(&self.limits, &strategy) {
            Ok(_) => {
                self.allocation = strategy;
                Ok(())
            },
            Err(e) => Err(e),
        }
    }

    /// The allocation the provider holds.
    pub fn get_current_allocation(&self) -> (r: AllocationStrategy)
        ensures
            r == self.allocation,
    {
        self.allocation
    }

    /// For how many whole seconds the provider has been connected at `now`:
    /// none if it is not connected or connected later than `now`.
    pub open spec fn uptime_at(self, now: i64) -> u64 {
        match self.connected_at {
            Some(t) => if now >= t {
                ((now - t) / 1000) as u64
            } else {
                0
            },
            None => 0,
        }
    }

    /// For how many whole seconds the provider has been connected at `now`.
    pub fn uptime_seconds_at(&self, now: i64) -> (r: u64)
        ensures
            r == self.uptime_at(now),
    {
        match self.connected_at {
            Some(t) => if now >= t {
                ((now as i128 - t as i128) / 1000) as u64
            } else {
                0
            },
            None => 0,
        }
    }

    /// The provider's health at `now`: healthy exactly when it is connected,
    /// and with a message that names `network` when it is not.
    pub fn health_check_at(&self, now: i64, network: &str) -> (r: HealthStatus)
        ensures
            r.is_healthy == (self.status == ConnectionStatus::Connected),
            r.connection_status == self.status,
            r.last_operation == Some(now),
            r.error_message is None == r.is_healthy,
            r.error_message is Some ==> r.error_message->0@ == "Not connected to "@ + network@,
            r.connected() == (self.status == ConnectionStatus::Connected),
    {
        let is_healthy = self.status == ConnectionStatus::Connected;
        HealthStatus {
            is_healthy,
            connection_status: self.status,
            last_operation: Some(now),
            error_message: if is_healthy {
                None
            } else {
                Some(join("Not connected to ", network))
            },
        }
    }
}

/// How the earnings of a simulated provider are taken to have been in the past.
#[derive(Debug, Clone, Copy, PartialEq, Eq, Structural)]
pub enum Trend {
    /// Less by up to three tenths, the further back.
    Fading,
    /// Less by up to two tenths, the further back.
    Settling,
    /// Less by up to a third, the further back.
    Growing,
    /// Between eight and twelve tenths, in a cycle of twenty hours.
    Wavering,
}

impl Trend {
    /// What fraction of the current earnings the earnings `i` hours ago
    /// were, looking back `hours` hours: numerator and denominator.
    pub open spec fn weight(self, i: int, hours: int) -> (int, int) {
        match self {
            Trend::Fading => (10 * hours - 3 * i, 10 * hours),
            Trend::Settling => (5 * hours - i, 5 * hours),
            Trend::Growing => (2 * hours, 2 * hours + i),
            Trend::Wavering => (40 + i % 20, 50),
        }
    }
}

/// What a provider that earns `current` now is taken to have earned `i`
/// hours ago, looking back `hours` hours.
pub open spec fn past_amount(trend: Trend, current: i64, i: int, hours: int) -> int {
    quotient(current * trend.weight(i, hours).0, trend.weight(i, hours).1)
}

/// The instant `i` hours before `now`.
pub open spec fn hours_before(now: i64, i: int) -> int {
    now - i * HOUR_MILLIS
}

/// Whether every instant and amount of a history of `hours` hours can be held.
pub open spec fn history_fits(trend: Trend, now: i64, hours: u32, current: i64) -> bool {
    forall|i: int|
        0 <= i < hours ==> fits_i64(#[trigger] hours_before(now, i)) && fits_i64(
            past_amount(trend, current, i, hours as int),
        )
}

/// The seconds in `hours` whole hours, or as many as can be held.
pub open spec fn whole_hours_in_seconds(hours: u64) -> u64 {
    if hours * 3600 > u64::MAX {
        u64::MAX
    } else {
        (hours * 3600) as u64
    }
}

/// The seconds in `hours` whole hours, or as many as can be held.
pub fn hours_in_seconds(hours: u64) -> (r: u64)
    ensures
        r == whole_hours_in_seconds(hours),
{
    if hours > 0xffff_ffff_ffff_ffff / 3600 {
        0xffff_ffff_ffff_ffff
    } else {
        hours * 3600
    }
}

/// The error for a number that cannot be held.
pub fn out_of_range() -> (r: ProtocolError)
    ensures
        r is DataError,
        r.detail() == "Earnings out of range"@,
{
    ProtocolError::DataError(String::from_str("Earnings out of range"))
}

/// What a provider that earns `current` at `now` is taken to have earned in
/// each of the last `hours` hours, the latest first; an error if an instant
/// or an amount cannot be held.
pub fn earnings_history(trend: Trend, now: i64, hours: u32, current: i64, protocol_id: &str) -> (r:
    ProtocolResult<Vec<EarningsData>>)
    ensures
        r is Ok <==> history_fits(trend, now, hours, current),
        r is Ok ==> r->Ok_0@.len() == hours && forall|i: int|
            0 <= i < hours ==> {
                &&& (#[trigger] r->Ok_0@[i]).timestamp == hours_before(now, i)
                &&& r->Ok_0@[i].amount_usd == past_amount(trend, current, i, hours as int)
                &&& r->Ok_0@[i].protocol_id@ == protocol_id@
                &&& r->Ok_0@[i].metrics@.len() == 0
            },
        r is Err ==> r->Err_0 is DataError,
{
    let mut earnings: Vec<EarningsData> = Vec::new();
    let mut i: u32 = 0;
    while i < hours
        invariant
            i <= hours,
            earnings@.len() == i,
            forall|j: int|
                0 <= j < i ==> fits_i64(#[trigger] hours_before(now, j)) && fits_i64(
                    past_amount(trend, current, j, hours as int),
                ),
            forall|j: int|
                0 <= j < i ==> {
                    &&& (#[trigger] earnings@[j]).timestamp == hours_before(now, j)
                    &&& earnings@[j].amount_usd == past_amount(trend, current, j, hours as int)
                    &&& earnings@[j].protocol_id@ == protocol_id@
                    &&& earnings@[j].metrics@.len() == 0
                },
        decreases hours - i,
    {
        let timestamp = match narrow(now as i128 - (i as i128) * (HOUR_MILLIS as i128)) {
            Some(t) => t,
            None => {
                assert(!fits_i64(hours_before(now, i as int)));
                return Err(out_of_range());
            },
        };
        let h = hours as i64;
        let k = i as i64;
        let (numerator, denominator): (i64, i64) = match trend {
            Trend::Fading => (10 * h - 3 * k, 10 * h),
            Trend::Settling => (5 * h - k, 5 * h),
            Trend::Growing => (2 * h, 2 * h + k),
            Trend::Wavering => (40 + k % 20, 50),
        };
        proof {
            lemma_product_bound(current as int, numerator as int);
            assert(numerator == trend.weight(i as int, hours as int).0);
            assert(denominator == trend.weight(i as int, hours as int).1);
            assert(denominator > 0);
        }
        let amount: i128 = ((current as i128) * (numerator as i128)) / (denominator as i128);
        assert(amount == past_amount(trend, current, i as int, hours as int));
        let amount_usd = match narrow(amount) {
            Some(a) => a,
            None => {
                assert(!fits_i64(past_amount(trend, current, i as int, hours as int)));
                assert(fits_i64(hours_before(now, i as int)));
                return Err(out_of_range());
            },
        };
        earnings.push(
            EarningsData {
                timestamp,
                amount_usd,
                protocol_id: String::from_str(protocol_id),
                metrics: Ledger::new(),
            },
        );
        i += 1;
    }
    Ok(earnings)
}

/// A health report for `is_healthy` and `connection_status` made at the
/// instant `now`: a healthy provider last worked at `now`, an unhealthy one
/// has no last operation.
pub fn basic_health_status_at(
    now: i64,
    is_healthy: bool,
    connection_status: ConnectionStatus,
    error: Option<String>,
) -> (r: HealthStatus)
    ensures
        r.is_healthy == is_healthy,
        r.connection_status == connection_status,
        r.last_operation == (if is_healthy {
            Some(now)
        } else {
            None
        }),
        r.error_message == error,
{
    HealthStatus {
        is_healthy,
        connection_status,
        last_operation: if is_healthy {
            Some(now)
        } else {
            None
        },
        error_message: error,
    }
}

/// A health report for `is_healthy` and `connection_status`, stamped with the
/// current time if the provider is healthy.
pub fn basic_health_status(
    is_healthy: bool,
    connection_status: ConnectionStatus,
    error: Option<String>,
) -> (r: HealthStatus)
    ensures
        r.is_healthy == is_healthy,
        r.connection_status == connection_status,
        r.last_operation is Some == is_healthy,
        r.error_message == error,
{
    let now = now_millis();
    basic_health_status_at(now, is_healthy, connection_status, error)
}

/// Accepts an allocation between 0 and 100 percent, both included.
pub fn validate_allocation_percent(percent: i64) -> (r: ProtocolResult<()>)
    ensures
        r is Ok <==> 0 <= percent <= HUNDRED,
        r is Err ==> r->Err_0 is AllocationError && r->Err_0.detail()
            == "Allocation percent must be between 0 and 100"@,
{
    if percent < 0 || percent > HUNDRED {
        return Err(
            ProtocolError::AllocationError(
                String::from_str("Allocation percent must be between 0 and 100"),
            ),
        );
    }
    Ok(())
}

} // verus!
