//! The reallocation engine: whether a plan may be executed now, and the
//! execution itself, one provider at a time, with rollback on failure.
//!
//! Talking to providers is the driver's work. The engine decides: it hands
//! the driver one `ProviderCall` at a time, the driver performs it and hands
//! back a `ProviderReply`, and the engine answers with the next call or with
//! the outcome of the whole execution.

use super::{
    copy_changes, views, AllocationChange, AllocationPlan, ChangeView, ErrorKind, ErrorView,
    OrchestrationError, OrchestrationResult, PlanView,
};
use crate::clock::{now_millis, HOUR_MILLIS};
use crate::fixed::{magnitude, HUNDRED, SCALE};
use crate::ledger::{
    amount_or, copy_names, first_where, lemma_first_where_is, listed, names, put, total, Ledger,
};
use crate::protocols::AllocationStrategy;
use crate::text::{amount_text, decimal, join3, join4, render_amount, render_decimal};
use vstd::prelude::*;
use vstd::string::*;

verus! {

/// The constraints on reallocation.
#[derive(Debug, Clone, Copy, PartialEq, Eq, Structural)]
pub struct ReallocationConfig {
    /// The least time between two reallocations, in milliseconds.
    pub min_hold_duration: i64,
    /// The most reallocations within one hour.
    pub max_per_hour: u32,
    /// Whether a failed execution restores what it has changed.
    pub auto_rollback: bool,
    /// Whether an operator must confirm an execution.
    pub require_confirmation: bool,
}

impl Default for ReallocationConfig {
    fn default() -> (r: Self)
        ensures
            r.min_hold_duration == HOUR_MILLIS,
            r.max_per_hour == 4,
            r.auto_rollback,
            !r.require_confirmation,
    {
        ReallocationConfig {
            min_hold_duration: HOUR_MILLIS,
            max_per_hour: 4,
            auto_rollback: true,
            require_confirmation: false,
        }
    }
}

/// What the driver is to do next at one provider.
#[derive(Debug)]
pub struct ProviderCall {
    pub provider: String,
    /// The allocation to apply, in millionths of a percent.
    pub allocation_percent: i64,
    /// `false`: read the provider's current allocation, then apply the new
    /// one. `true`: apply an earlier allocation again, reading nothing.
    pub restoring: bool,
}

impl ProviderCall {
    /// The resources that go with the allocation of a call: four cores,
    /// eight gigabytes of memory, a hundred gigabytes of storage and two
    /// hundred megabits per second.
    pub fn strategy(&self) -> (r: AllocationStrategy)
        ensures
            r == (AllocationStrategy {
                cpu_cores: 4,
                memory_gb: 8_000_000,
                storage_gb: 100_000_000,
                bandwidth_mbps: 200_000_000,
                allocation_percent: self.allocation_percent,
            }),
    {
        AllocationStrategy {
            cpu_cores: 4,
            memory_gb: 8_000_000,
            storage_gb: 100_000_000,
            bandwidth_mbps: 200_000_000,
            allocation_percent: self.allocation_percent,
        }
    }
}

/// The mathematical content of a `ProviderCall`.
pub struct CallView {
    pub provider: Seq<char>,
    pub allocation_percent: i64,
    pub restoring: bool,
}

impl View for ProviderCall {
    type V = CallView;

    open spec fn view(&self) -> CallView {
        CallView {
            provider: self.provider@,
            allocation_percent: self.allocation_percent,
            restoring: self.restoring,
        }
    }
}

/// What the provider answered to a call.
#[derive(Debug)]
pub struct ProviderReply {
    /// The allocation the provider had before the call, if it was asked for
    /// and could be read.
    pub previous: Option<i64>,
    /// Why the allocation could not be applied, if it could not.
    pub failure: Option<String>,
}

/// The mathematical content of a `ProviderReply`.
pub struct ReplyView {
    pub previous: Option<i64>,
    pub failure: Option<Seq<char>>,
}

impl View for ProviderReply {
    type V = ReplyView;

    open spec fn view(&self) -> ReplyView {
        ReplyView {
            previous: self.previous,
            failure: match self.failure {
                Some(f) => Some(f@),
                None => None,
            },
        }
    }
}

/// The mathematical content of a `ReallocationRun`.
pub struct RunView {
    /// The allocation to reach, provider by provider.
    pub targets: Seq<(Seq<char>, i64)>,
    /// The earnings impact that the plan expects.
    pub impact: i64,
    /// The index of the pending call: into `restores` while restoring, into
    /// `targets` otherwise.
    pub index: int,
    pub restoring: bool,
    /// The allocations to apply again while restoring.
    pub restores: Seq<(Seq<char>, i64)>,
    /// The failure that made the run restore, reported once all is restored.
    pub failure: Option<ErrorView>,
    /// The names of the registered providers.
    pub registry: Seq<Seq<char>>,
}

/// The mathematical content of a `Progress`.
pub enum ProgressView {
    /// The driver is to perform the call and hand the reply to `advance`.
    Call(RunView, CallView),
    /// The execution has ended, with the error given or, for `None`, well.
    Finished(Option<ErrorView>),
}

/// The mathematical content of a `ReallocationEngine`.
pub struct EngineView {
    pub config: ReallocationConfig,
    /// The record of all allocation changes made, oldest first.
    pub changes: Seq<ChangeView>,
    /// The instants at which an execution ended well, oldest first.
    pub executions: Seq<i64>,
    /// What each provider had before the last execution changed it.
    pub previous: Seq<(Seq<char>, i64)>,
}

/// How many of the executions at the instants `executions` are less than
/// an hour old at `now`.
pub open spec fn recent_executions(executions: Seq<i64>, now: i64) -> nat
    decreases executions.len(),
{
    if executions.len() == 0 {
        0
    } else {
        recent_executions(executions.drop_last(), now) + if now - executions.last() < HOUR_MILLIS {
            1nat
        } else {
            0nat
        }
    }
}

/// The instant of the last reallocation, if there was one.
pub open spec fn last_execution(e: EngineView) -> Option<i64> {
    if e.executions.len() == 0 {
        None
    } else {
        Some(e.executions.last())
    }
}

/// How long the hold after the last reallocation still lasts at `now`, in
/// milliseconds; not positive if it is over or there was no reallocation.
pub open spec fn hold_remaining(e: EngineView, now: i64) -> int {
    match last_execution(e) {
        Some(t) => e.config.min_hold_duration - (now - t),
        None => 0,
    }
}

/// The error for a reallocation attempted while the hold lasts.
pub open spec fn hold_error(remaining: int) -> ErrorView {
    ErrorView {
        kind: ErrorKind::Reallocation,
        detail: "Minimum hold duration not met. Wait "@ + decimal(remaining as nat) + " ms more"@,
    }
}

/// The error for a reallocation attempted beyond the hourly limit.
pub open spec fn rate_error() -> ErrorView {
    ErrorView { kind: ErrorKind::Reallocation, detail: "Rate limit exceeded for reallocations"@ }
}

/// Why no reallocation may start at `now`, if none may: the hold after the
/// last reallocation must be over, and the reallocations of the last hour
/// must be fewer than the limit.
pub open spec fn gate_error(e: EngineView, now: i64) -> Option<ErrorView> {
    if hold_remaining(e, now) > 0 {
        Some(hold_error(hold_remaining(e, now)))
    } else if recent_executions(e.executions, now) >= e.config.max_per_hour {
        Some(rate_error())
    } else {
        None
    }
}

/// The index of the first provider of `allocation` that is not registered.
pub open spec fn first_unregistered(allocation: Seq<(Seq<char>, i64)>, registry: Seq<Seq<char>>) -> int {
    first_where(allocation, |e: (Seq<char>, i64)| !registry.contains(e.0))
}

/// Why a plan cannot be executed, if it cannot: a provider of the plan is
/// not registered, the allocations do not sum to one hundred percent within
/// one percent, or the net benefit is negative.
pub open spec fn plan_error(plan: PlanView, registry: Seq<Seq<char>>) -> Option<ErrorView> {
    let k = first_unregistered(plan.allocation, registry);
    if k < plan.allocation.len() {
        Some(
            ErrorView {
                kind: ErrorKind::Reallocation,
                detail: "Protocol "@ + plan.allocation[k].0 + " not registered"@,
            },
        )
    } else if magnitude(total(plan.allocation) - HUNDRED) > SCALE {
        Some(
            ErrorView {
                kind: ErrorKind::Reallocation,
                detail: "Total allocation "@ + amount_text(total(plan.allocation)) + " != 100%"@,
            },
        )
    } else if plan.net_benefit < 0 {
        Some(ErrorView { kind: ErrorKind::Reallocation, detail: "Plan has negative net benefit"@ })
    } else {
        None
    }
}

/// The error for a provider that refused its new allocation.
pub open spec fn apply_error(provider: Seq<char>, cause: Seq<char>) -> ErrorView {
    ErrorView {
        kind: ErrorKind::Reallocation,
        detail: "Failed to apply allocation to "@ + provider + ": "@ + cause,
    }
}

/// The error for a provider that refused to take its earlier allocation back.
pub open spec fn restore_error(provider: Seq<char>, cause: Seq<char>) -> ErrorView {
    ErrorView {
        kind: ErrorKind::Protocol,
        detail: "Failed to restore allocation of "@ + provider + ": "@ + cause,
    }
}

/// The error for a provider to restore that is not registered.
pub open spec fn missing_error(provider: Seq<char>) -> ErrorView {
    ErrorView { kind: ErrorKind::Reallocation, detail: "Protocol "@ + provider + " not found"@ }
}

/// The call that a run waits for.
pub open spec fn pending_call(run: RunView) -> CallView {
    if run.restoring {
        CallView {
            provider: run.restores[run.index].0,
            allocation_percent: run.restores[run.index].1,
            restoring: true,
        }
    } else {
        CallView {
            provider: run.targets[run.index].0,
            allocation_percent: run.targets[run.index].1,
            restoring: false,
        }
    }
}

/// Whether a run has a pending call.
pub open spec fn run_pending(run: RunView) -> bool {
    0 <= run.index < (if run.restoring {
        run.restores.len()
    } else {
        run.targets.len()
    })
}

/// How a restoring run goes on at its index: it ends with the failure that
/// started it once everything is restored, it ends with an error at a
/// provider that is not registered, and otherwise it calls the next provider.
pub open spec fn resume_restore(run: RunView) -> ProgressView {
    if run.index >= run.restores.len() {
        ProgressView::Finished(run.failure)
    } else if !run.registry.contains(run.restores[run.index].0) {
        ProgressView::Finished(Some(missing_error(run.restores[run.index].0)))
    } else {
        ProgressView::Call(run, pending_call(run))
    }
}

/// The records of a completed execution: one per provider of the plan, from
/// what the provider had before, or zero if that is unknown, to its target.
pub open spec fn records(
    targets: Seq<(Seq<char>, i64)>,
    previous: Seq<(Seq<char>, i64)>,
    impact: i64,
    now: i64,
) -> Seq<ChangeView> {
    Seq::new(
        targets.len(),
        |j: int|
            ChangeView {
                timestamp: now,
                protocol: targets[j].0,
                old_allocation: amount_or(previous, targets[j].0, 0) as i64,
                new_allocation: targets[j].1,
                reason: "Optimization reallocation"@,
                earnings_impact: impact,
            },
    )
}

/// The start of an execution of `plan` at `now`. A violated constraint or an
/// invalid plan ends it at once and changes nothing. Otherwise the record of
/// previous allocations is cleared and the first provider is called.
pub open spec fn begin(e: EngineView, plan: PlanView, registry: Seq<Seq<char>>, now: i64) -> (
    EngineView,
    ProgressView,
) {
    if gate_error(e, now) is Some {
        (e, ProgressView::Finished(gate_error(e, now)))
    } else if plan_error(plan, registry) is Some {
        (e, ProgressView::Finished(plan_error(plan, registry)))
    } else {
        let run = RunView {
            targets: plan.allocation,
            impact: plan.estimated_improvement,
            index: 0,
            restoring: false,
            restores: Seq::empty(),
            failure: None,
            registry,
        };
        (EngineView { previous: Seq::empty(), ..e }, ProgressView::Call(run, pending_call(run)))
    }
}

/// The start of a rollback: every allocation in the record of previous
/// allocations is applied again, in order.
pub open spec fn begin_rollback(e: EngineView, registry: Seq<Seq<char>>) -> ProgressView {
    resume_restore(
        RunView {
            targets: Seq::empty(),
            impact: 0,
            index: 0,
            restoring: true,
            restores: e.previous,
            failure: None,
            registry,
        },
    )
}

/// One step of an execution: what the engine makes of `reply` to the pending
/// call of `run` at `now`.
///
/// While changing: the allocation read is recorded. If the provider took its
/// target, the next provider is called, or, after the last one, the changes
/// are recorded, the instant is kept and the execution ends well. If it
/// refused, the execution ends with an error, after restoring every recorded
/// allocation if rollback is automatic.
///
/// While restoring: a provider that refuses ends the execution with an error
/// of its own kind; otherwise the run goes on as `resume_restore` says.
pub open spec fn step(e: EngineView, run: RunView, reply: ReplyView, now: i64) -> (
    EngineView,
    ProgressView,
) {
    if run.restoring {
        match reply.failure {
            Some(cause) => (
                e,
                ProgressView::Finished(Some(restore_error(run.restores[run.index].0, cause))),
            ),
            None => (e, resume_restore(RunView { index: run.index + 1, ..run })),
        }
    } else {
        let name = run.targets[run.index].0;
        let previous = match reply.previous {
            Some(a) => put(e.previous, name, a),
            None => e.previous,
        };
        let noted = EngineView { previous, ..e };
        match reply.failure {
            None => if run.index + 1 < run.targets.len() {
                let next = RunView { index: run.index + 1, ..run };
                (noted, ProgressView::Call(next, pending_call(next)))
            } else {
                (
                    EngineView {
                        changes: e.changes + records(run.targets, previous, run.impact, now),
                        executions: e.executions.push(now),
                        ..noted
                    },
                    ProgressView::Finished(None),
                )
            },
            Some(cause) => if e.config.auto_rollback {
                (
                    noted,
                    resume_restore(
                        RunView {
                            index: 0,
                            restoring: true,
                            restores: previous,
                            failure: Some(apply_error(name, cause)),
                            ..run
                        },
                    ),
                )
            } else {
                (noted, ProgressView::Finished(Some(apply_error(name, cause))))
            },
        }
    }
}

/// The changes of `changes` made after `cutoff`, in order.
pub open spec fn changes_after(changes: Seq<ChangeView>, cutoff: int) -> Seq<ChangeView> {
    changes.filter(|c: ChangeView| c.timestamp > cutoff)
}

/// The changes of `changes` made in the last `hours` hours before `now`, in order.
pub open spec fn changes_within(changes: Seq<ChangeView>, now: i64, hours: i64) -> Seq<ChangeView> {
    changes_after(changes, now - hours * HOUR_MILLIS)
}

/// An execution under way: which provider is next, and what to restore.
#[derive(Debug)]
pub struct ReallocationRun {
    targets: Ledger,
    impact: i64,
    index: usize,
    restoring: bool,
    restores: Ledger,
    failure: Option<OrchestrationError>,
    adapters: Vec<String>,
}

impl View for ReallocationRun {
    type V = RunView;

    closed spec fn view(&self) -> RunView {
        RunView {
            targets: self.targets@,
            impact: self.impact,
            index: self.index as int,
            restoring: self.restoring,
            restores: self.restores@,
            failure: match self.failure {
                Some(e) => Some(e@),
                None => None,
            },
            registry: names(self.adapters@),
        }
    }
}

impl ReallocationRun {
    #[verifier::type_invariant]
    spec fn pending(self) -> bool {
        run_pending(self@)
    }

    /// A run always has a pending call.
    pub fn next_call(&self) -> (r: ProviderCall)
        ensures
            run_pending(self@),
            r@ == pending_call(self@),
    {
        proof {
            use_type_invariant(self);
        }
        if self.restoring {
            ProviderCall {
                provider: self.restores.name_at(self.index).clone(),
                allocation_percent: self.restores.value_at(self.index),
                restoring: true,
            }
        } else {
            ProviderCall {
                provider: self.targets.name_at(self.index).clone(),
                allocation_percent: self.targets.value_at(self.index),
                restoring: false,
            }
        }
    }
}

/// Where an execution stands.
#[derive(Debug)]
pub enum Progress {
    /// The driver is to perform the call and hand the reply, with the run, to `advance`.
    Call(ReallocationRun, ProviderCall),
    /// The execution has ended.
    Finished(OrchestrationResult<()>),
}

impl View for Progress {
    type V = ProgressView;

    open spec fn view(&self) -> ProgressView {
        match self {
            Progress::Call(run, call) => ProgressView::Call(run@, call@),
            Progress::Finished(Ok(_)) => ProgressView::Finished(None),
            Progress::Finished(Err(e)) => ProgressView::Finished(Some(e@)),
        }
    }
}

/// Executes allocation plans under timing and rate constraints.
pub struct ReallocationEngine {
    config: ReallocationConfig,
    history: Vec<AllocationChange>,
    executions: Vec<i64>,
    previous_allocation: Ledger,
}

impl View for ReallocationEngine {
    type V = EngineView;

    closed spec fn view(&self) -> EngineView {
        EngineView {
            config: self.config,
            changes: views(self.history@),
            executions: self.executions@,
            previous: self.previous_allocation@,
        }
    }
}

/// Goes on with a restoring run at `index`.
fn restore_from(
    targets: Ledger,
    impact: i64,
    index: usize,
    restores: Ledger,
    failure: Option<OrchestrationError>,
    adapters: Vec<String>,
) -> (r: Progress)
    requires
        index <= restores@.len(),
    ensures
        r@ == resume_restore(
            RunView {
                targets: targets@,
                impact,
                index: index as int,
                restoring: true,
                restores: restores@,
                failure: match failure {
                    Some(e) => Some(e@),
                    None => None,
                },
                registry: names(adapters@),
            },
        ),
{
    if index >= restores.len() {
        match failure {
            Some(e) => Progress::Finished(Err(e)),
            None => Progress::Finished(Ok(())),
        }
    } else if !listed(&adapters, restores.name_at(index)) {
        Progress::Finished(
            Err(
                OrchestrationError::ReallocationError(
                    join3("Protocol ", restores.name_at(index).as_str(), " not found"),
                ),
            ),
        )
    } else {
        let run = ReallocationRun {
            targets,
            impact,
            index,
            restoring: true,
            restores,
            failure,
            adapters,
        };
        let call = run.next_call();
        Progress::Call(run, call)
    }
}

impl ReallocationEngine {
    /// An engine with the given constraints and an empty record.
    pub fn new(config: ReallocationConfig) -> (r: Self)
        ensures
            r@ == (EngineView {
                config,
                changes: Seq::empty(),
                executions: Seq::empty(),
                previous: Seq::empty(),
            }),
    {
        let r = ReallocationEngine {
            config,
            history: Vec::new(),
            executions: Vec::new(),
            previous_allocation: Ledger::new(),
        };
        assert(views(r.history@) =~= Seq::<ChangeView>::empty());
        r
    }

    /// The constraints in force.
    pub fn config(&self) -> (r: ReallocationConfig)
        ensures
            r == self@.config,
    {
        self.config
    }

    /// Why no reallocation may start at `now`, if none may.
    fn gate(&self, now: i64) -> (r: Option<OrchestrationError>)
        ensures
            (match r {
                Some(e) => Some(e@),
                None => None,
            }) == gate_error(self@, now),
    {
        let count = self.executions.len();
        if count > 0 {
            let elapsed: i128 = now as i128 - self.executions[count - 1] as i128;
            if elapsed < self.config.min_hold_duration as i128 {
                let remaining: i128 = self.config.min_hold_duration as i128 - elapsed;
                let number = render_decimal(remaining as u128);
                return Some(
                    OrchestrationError::ReallocationError(
                        join3("Minimum hold duration not met. Wait ", number.as_str(), " ms more"),
                    ),
                );
            }
        }
        let ghost executions = self.executions@;
        let mut recent: usize = 0;
        let mut i: usize = 0;
        while i < count
            invariant
                count == self.executions@.len(),
                i <= count,
                executions == self.executions@,
                recent == recent_executions(executions.take(i as int), now),
                recent <= i,
            decreases count - i,
        {
            proof {
                assert(executions.take(i + 1).drop_last() == executions.take(i as int));
            }
            if (now as i128 - self.executions[i] as i128) < HOUR_MILLIS as i128 {
                recent += 1;
            }
            i += 1;
        }
        assert(executions.take(count as int) == executions);
        if recent >= self.config.max_per_hour as usize {
            return Some(
                OrchestrationError::ReallocationError(
                    String::from_str("Rate limit exceeded for reallocations"),
                ),
            );
        }
        None
    }

    /// Whether a reallocation may start at `now`: only once the hold after
    /// the last one is over, and while the reallocations of the last hour
    /// are fewer than the limit.
    pub fn can_reallocate_at(&self, now: i64) -> (r: OrchestrationResult<()>)
        ensures
            (match r {
                Ok(_) => None,
                Err(e) => Some(e@),
            }) == gate_error(self@, now),
    {
        match self.gate(now) {
            Some(e) => Err(e),
            None => Ok(()),
        }
    }

    /// Whether a reallocation may start now. Before the first reallocation it
    /// may, unless the limit is zero, with which it never may; otherwise the
    /// answer is that of `can_reallocate_at` for the current time.
    pub fn can_reallocate(&self) -> (r: OrchestrationResult<()>)
        ensures
            self@.executions.len() == 0 && self@.config.max_per_hour > 0 ==> r is Ok,
            self@.config.max_per_hour == 0 ==> r is Err,
            exists|now: i64|
                (match r {
                    Ok(_) => None,
                    Err(e) => Some(e@),
                }) == #[trigger] gate_error(self@, now),
    {
        let now = now_millis();
        self.can_reallocate_at(now)
    }

    /// Why `plan` cannot be executed on the providers `adapters`, if it cannot.
    pub fn validate_plan(&self, plan: &AllocationPlan, adapters: &Vec<String>) -> (r:
        OrchestrationResult<()>)
        ensures
            (match r {
                Ok(_) => None,
                Err(e) => Some(e@),
            }) == plan_error(plan@, names(adapters@)),
    {
        let ghost registry = names(adapters@);
        let ghost unregistered = |e: (Seq<char>, i64)| !registry.contains(e.0);
        let n = plan.allocation.len();
        let mut i: usize = 0;
        while i < n
            invariant
                n == plan.allocation@.len(),
                i <= n,
                registry == names(adapters@),
                unregistered == |e: (Seq<char>, i64)| !registry.contains(e.0),
                forall|j: int| 0 <= j < i ==> !unregistered(#[trigger] plan.allocation@[j]),
            decreases n - i,
        {
            if !listed(adapters, plan.allocation.name_at(i)) {
                proof {
                    lemma_first_where_is(plan.allocation@, unregistered, i as int);
                }
                return Err(
                    OrchestrationError::ReallocationError(
                        join3("Protocol ", plan.allocation.name_at(i).as_str(), " not registered"),
                    ),
                );
            }
            i += 1;
        }
        proof {
            lemma_first_where_is(plan.allocation@, unregistered, n as int);
        }
        let sum = plan.allocation.total();
        let off: i128 = if sum >= HUNDRED as i128 {
            sum - HUNDRED as i128
        } else {
            HUNDRED as i128 - sum
        };
        if off > SCALE as i128 {
            let number = render_amount(sum);
            return Err(
                OrchestrationError::ReallocationError(
                    join3("Total allocation ", number.as_str(), " != 100%"),
                ),
            );
        }
        if plan.net_benefit < 0 {
            return Err(
                OrchestrationError::ReallocationError(
                    String::from_str("Plan has negative net benefit"),
                ),
            );
        }
        Ok(())
    }

    /// Starts the execution of `plan` on the providers `adapters` at `now`.
    /// See `begin`.
    pub fn execute_reallocation_at(&mut self, now: i64, plan: &AllocationPlan, adapters: &Vec<String>) -> (r:
        Progress)
        ensures
            (final(self)@, r@) == begin(old(self)@, plan@, names(adapters@), now),
    {
        if let Some(e) = self.gate(now) {
            return Progress::Finished(Err(e));
        }
        if let Err(e) = self.validate_plan(plan, adapters) {
            return Progress::Finished(Err(e));
        }
        self.previous_allocation.clear();
        proof {
            // a plan whose allocations sum to about one hundred percent is not empty
            if plan.allocation@.len() == 0 {
                assert(total(plan.allocation@) == 0);
            }
        }
        let run = ReallocationRun {
            targets: plan.allocation.clone(),
            impact: plan.estimated_improvement,
            index: 0,
            restoring: false,
            restores: Ledger::new(),
            failure: None,
            adapters: copy_names(adapters),
        };
        let call = run.next_call();
        Progress::Call(run, call)
    }

    /// Starts the execution of `plan` now: the constraints are checked
    /// against the current time. Before the first reallocation the outcome is
    /// that of `begin` for every instant.
    pub fn execute_reallocation(&mut self, plan: &AllocationPlan, adapters: &Vec<String>) -> (r:
        Progress)
        ensures
            exists|now: i64|
                (final(self)@, r@) == #[trigger] begin(old(self)@, plan@, names(adapters@), now),
            old(self)@.executions.len() == 0 ==> forall|now: i64|
                (final(self)@, r@) == #[trigger] begin(old(self)@, plan@, names(adapters@), now),
    {
        let now = now_millis();
        self.execute_reallocation_at(now, plan, adapters)
    }

    /// Starts applying the recorded previous allocations again. See `begin_rollback`.
    pub fn rollback_allocation(&self, adapters: &Vec<String>) -> (r: Progress)
        ensures
            r@ == begin_rollback(self@, names(adapters@)),
    {
        restore_from(
            Ledger::new(),
            0,
            0,
            self.previous_allocation.clone(),
            None,
            copy_names(adapters),
        )
    }

    /// Takes the reply to the pending call of `run`, at the instant `now`.
    /// See `step`.
    pub fn advance_at(&mut self, now: i64, run: ReallocationRun, reply: ProviderReply) -> (r:
        Progress)
        ensures
            (final(self)@, r@) == step(old(self)@, run@, reply@, now),
    {
        proof {
            use_type_invariant(&run);
        }
        let index = run.index;
        let impact = run.impact;
        let restoring = run.restoring;
        let targets = run.targets;
        let restores = run.restores;
        let failure = run.failure;
        let adapters = run.adapters;
        let target_count = targets.len();
        if restoring {
            let restore_count = restores.len();
            assert(index < restore_count);
            return match reply.failure {
                Some(cause) => Progress::Finished(
                    Err(
                        OrchestrationError::ProtocolError(
                            join4(
                                "Failed to restore allocation of ",
                                restores.name_at(index).as_str(),
                                ": ",
                                cause.as_str(),
                            ),
                        ),
                    ),
                ),
                None => restore_from(targets, impact, index + 1, restores, failure, adapters),
            };
        }
        if let Some(a) = reply.previous {
            self.previous_allocation.insert(targets.name_at(index).clone(), a);
        }
        match reply.failure {
            None => {
                if index + 1 < target_count {
                    let next = ReallocationRun {
                        targets,
                        impact,
                        index: index + 1,
                        restoring: false,
                        restores,
                        failure,
                        adapters,
                    };
                    let call = next.next_call();
                    Progress::Call(next, call)
                } else {
                    let ghost before = views(self.history@);
                    let ghost previous = self.previous_allocation@;
                    let ghost added = records(targets@, previous, impact, now);
                    let mut j: usize = 0;
                    while j < targets.len()
                        invariant
                            j <= targets@.len(),
                            previous == self.previous_allocation@,
                            added == records(targets@, previous, impact, now),
                            views(self.history@) == before + added.take(j as int),
                            self.config == old(self).config,
                            self.executions == old(self).executions,
                        decreases targets@.len() - j,
                    {
                        let old_allocation = match self.previous_allocation.get(targets.name_at(j)) {
                            Some(a) => a,
                            None => 0,
                        };
                        let change = AllocationChange {
                            timestamp: now,
                            protocol: targets.name_at(j).clone(),
                            old_allocation,
                            new_allocation: targets.value_at(j),
                            reason: String::from_str("Optimization reallocation"),
                            earnings_impact: impact,
                        };
                        let ghost so_far = views(self.history@);
                        self.history.push(change);
                        assert(views(self.history@) =~= so_far.push(change@));
                        assert(added.take(j + 1) =~= added.take(j as int).push(added[j as int]));
                        assert(views(self.history@) =~= before + added.take(j + 1));
                        j += 1;
                    }
                    assert(added.take(targets@.len() as int) == added);
                    self.executions.push(now);
                    Progress::Finished(Ok(()))
                }
            },
            Some(cause) => {
                let error = OrchestrationError::ReallocationError(
                    join4(
                        "Failed to apply allocation to ",
                        targets.name_at(index).as_str(),
                        ": ",
                        cause.as_str(),
                    ),
                );
                if self.config.auto_rollback {
                    restore_from(
                        targets,
                        impact,
                        0,
                        self.previous_allocation.clone(),
                        Some(error),
                        adapters,
                    )
                } else {
                    Progress::Finished(Err(error))
                }
            },
        }
    }

    /// Takes the reply to the pending call of `run`. An execution that ends
    /// well here is stamped with the current time; every other outcome is
    /// that of `step` for every instant.
    pub fn advance(&mut self, run: ReallocationRun, reply: ProviderReply) -> (r: Progress)
        ensures
            exists|now: i64| (final(self)@, r@) == #[trigger] step(old(self)@, run@, reply@, now),
    {
        let now = now_millis();
        self.advance_at(now, run, reply)
    }

    /// The record of all allocation changes made, oldest first.
    pub fn get_reallocation_history(&self) -> (r: Vec<AllocationChange>)
        ensures
            views(r@) == self@.changes,
    {
        copy_changes(&self.history)
    }

    /// The allocation changes made after `cutoff`, oldest first.
    pub fn reallocations_since(&self, cutoff: i128) -> (r: Vec<AllocationChange>)
        ensures
            views(r@) == changes_after(self@.changes, cutoff as int),
    {
        let ghost all = views(self.history@);
        let ghost keep = |c: ChangeView| c.timestamp > cutoff as int;
        let mut r: Vec<AllocationChange> = Vec::new();
        let mut i: usize = 0;
        assert(all.take(0).filter(keep) =~= Seq::<ChangeView>::empty()) by {
            reveal(Seq::filter);
        }
        while i < self.history.len()
            invariant
                i <= self.history@.len(),
                all == views(self.history@),
                keep == |c: ChangeView| c.timestamp > cutoff as int,
                views(r@) == all.take(i as int).filter(keep),
            decreases self.history@.len() - i,
        {
            proof {
                reveal(Seq::filter);
                assert(all.take(i + 1).drop_last() == all.take(i as int));
            }
            let ghost before = views(r@);
            if self.history[i].timestamp as i128 > cutoff {
                r.push(self.history[i].clone());
                assert(views(r@) =~= before.push(self.history@[i as int]@));
            }
            i += 1;
        }
        assert(all.take(self.history@.len() as int) == all);
        r
    }

    /// The allocation changes of the last `hours` hours before `now`, oldest first.
    pub fn get_recent_reallocations_at(&self, now: i64, hours: i64) -> (r: Vec<AllocationChange>)
        ensures
            views(r@) == changes_within(self@.changes, now, hours),
    {
        proof {
            crate::fixed::lemma_product_bound(hours as int, HOUR_MILLIS as int);
        }
        let cutoff: i128 = now as i128 - (hours as i128) * (HOUR_MILLIS as i128);
        self.reallocations_since(cutoff)
    }

    /// The allocation changes of the last `hours` hours, oldest first: what
    /// `get_recent_reallocations_at` gives for the current time.
    pub fn get_recent_reallocations(&self, hours: i64) -> (r: Vec<AllocationChange>)
        ensures
            exists|now: i64| views(r@) == #[trigger] changes_within(self@.changes, now, hours),
    {
        let now = now_millis();
        self.get_recent_reallocations_at(now, hours)
    }

    /// The estimated cost of changing `protocol_count` providers: five
    /// hundredths of the currency unit each.
    pub fn estimate_reallocation_cost(&self, protocol_count: usize) -> (r: i64)
        requires
            50_000 * protocol_count <= i64::MAX,
        ensures
            r == 50_000 * protocol_count,
    {
        50_000 * (protocol_count as i64)
    }
}

} // verus!
