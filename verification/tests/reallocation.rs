use depin_orcha::ledger::Ledger;
use depin_orcha::clock::HOUR_MILLIS;
use depin_orcha::{
    AllocationPlan, OrchestrationError, Progress, ProviderCall, ProviderReply, ReallocationConfig,
    ReallocationEngine,
};
use std::collections::HashMap;

fn ledger(entries: &[(&str, i64)]) -> Ledger {
    let mut ledger = Ledger::new();
    for (name, value) in entries {
        ledger.insert(name.to_string(), *value);
    }
    ledger
}

fn plan(allocation: &[(&str, i64)]) -> AllocationPlan {
    AllocationPlan {
        allocation: ledger(allocation),
        estimated_improvement: 1_500_000,
        estimated_cost: 75_000,
        net_benefit: 1_425_000,
        roi_percent: 1_900_000_000,
        confidence: 850_000,
        created_at: 0,
    }
}

fn names(list: &[&str]) -> Vec<String> {
    list.iter().map(|s| s.to_string()).collect()
}

/// Providers that hold an allocation each and refuse what `refuse` says.
struct World {
    held: HashMap<String, i64>,
    refuse: Box<dyn Fn(&ProviderCall) -> bool>,
    calls: Vec<(String, i64, bool)>,
}

impl World {
    fn new(held: &[(&str, i64)], refuse: Box<dyn Fn(&ProviderCall) -> bool>) -> World {
        World {
            held: held.iter().map(|(n, v)| (n.to_string(), *v)).collect(),
            refuse,
            calls: Vec::new(),
        }
    }

    fn perform(&mut self, call: &ProviderCall) -> ProviderReply {
        self.calls.push((call.provider.clone(), call.allocation_percent, call.restoring));
        let previous = if call.restoring { None } else { self.held.get(&call.provider).copied() };
        if (self.refuse)(call) {
            return ProviderReply { previous, failure: Some("boom".to_string()) };
        }
        self.held.insert(call.provider.clone(), call.allocation_percent);
        ProviderReply { previous, failure: None }
    }

    fn drive(&mut self, engine: &mut ReallocationEngine, start: Progress, now: i64) -> Result<(), OrchestrationError> {
        let mut progress = start;
        loop {
            match progress {
                Progress::Finished(outcome) => return outcome,
                Progress::Call(run, call) => {
                    let reply = self.perform(&call);
                    progress = engine.advance_at(now, run, reply);
                },
            }
        }
    }
}

fn never() -> Box<dyn Fn(&ProviderCall) -> bool> {
    Box::new(|_| false)
}

fn message(outcome: Result<(), OrchestrationError>) -> (String, String) {
    match outcome {
        Err(OrchestrationError::ReallocationError(m)) => ("reallocation".to_string(), m),
        Err(OrchestrationError::ProtocolError(m)) => ("protocol".to_string(), m),
        Err(e) => ("other".to_string(), e.to_string()),
        Ok(()) => ("ok".to_string(), String::new()),
    }
}

fn start_message(progress: Progress) -> (String, String) {
    match progress {
        Progress::Finished(outcome) => message(outcome),
        Progress::Call(_, call) => ("call".to_string(), call.provider),
    }
}

#[test]
fn test_engine_creation() {
    let engine = ReallocationEngine::new(ReallocationConfig::default());
    assert!(engine.get_reallocation_history().is_empty());
}

#[test]
fn test_estimate_cost() {
    let engine = ReallocationEngine::new(ReallocationConfig::default());
    let cost = engine.estimate_reallocation_cost(3);
    assert_eq!(cost, 150_000);
}

#[test]
fn test_can_reallocate_empty_history() {
    let engine = ReallocationEngine::new(ReallocationConfig::default());
    assert!(engine.can_reallocate().is_ok());
}

#[test]
fn test_reallocation_config_defaults() {
    let config = ReallocationConfig::default();
    assert_eq!(config.max_per_hour, 4);
    assert!(config.auto_rollback);
}

#[test]
fn reallocation_config_default_hold_is_one_hour() {
    let config = ReallocationConfig::default();
    assert_eq!(config.min_hold_duration, 3_600_000);
    assert_eq!(config.min_hold_duration, HOUR_MILLIS);
    assert!(!config.require_confirmation);
    assert_eq!(ReallocationEngine::new(config).config(), config);
}

#[test]
fn the_cost_of_changing_no_provider_is_nothing() {
    let engine = ReallocationEngine::new(ReallocationConfig::default());
    assert_eq!(engine.estimate_reallocation_cost(0), 0);
    assert_eq!(engine.estimate_reallocation_cost(1), 50_000);
}

#[test]
fn a_successful_execution_changes_every_provider_and_records_it() {
    let mut engine = ReallocationEngine::new(ReallocationConfig::default());
    let mut world = World::new(&[("a", 50_000_000), ("b", 50_000_000)], never());
    let start = engine.execute_reallocation_at(1000, &plan(&[("a", 45_000_000), ("b", 55_000_000)]), &names(&["a", "b"]));
    assert!(world.drive(&mut engine, start, 2000).is_ok());
    assert_eq!(world.held["a"], 45_000_000);
    assert_eq!(world.held["b"], 55_000_000);
    assert_eq!(
        world.calls,
        vec![("a".to_string(), 45_000_000, false), ("b".to_string(), 55_000_000, false)]
    );
    let history = engine.get_reallocation_history();
    assert_eq!(history.len(), 2);
    assert_eq!(history[0].protocol, "a");
    assert_eq!(history[0].old_allocation, 50_000_000);
    assert_eq!(history[0].new_allocation, 45_000_000);
    assert_eq!(history[0].timestamp, 2000);
    assert_eq!(history[0].reason, "Optimization reallocation");
    assert_eq!(history[0].earnings_impact, 1_500_000);
    assert_eq!(history[1].protocol, "b");
    assert_eq!(history[1].old_allocation, 50_000_000);
    assert_eq!(history[1].new_allocation, 55_000_000);
}

#[test]
fn a_reallocation_right_after_another_is_held_back() {
    let mut engine = ReallocationEngine::new(ReallocationConfig::default());
    let mut world = World::new(&[("a", 50_000_000), ("b", 50_000_000)], never());
    let the_plan = plan(&[("a", 45_000_000), ("b", 55_000_000)]);
    let start = engine.execute_reallocation_at(1000, &the_plan, &names(&["a", "b"]));
    assert!(world.drive(&mut engine, start, 1000).is_ok());
    // one millisecond later
    match engine.can_reallocate_at(1001) {
        Err(OrchestrationError::ReallocationError(m)) => {
            assert_eq!(m, "Minimum hold duration not met. Wait 3599999 ms more")
        },
        _ => panic!("the hold is not over"),
    }
    assert_eq!(
        start_message(engine.execute_reallocation_at(1001, &the_plan, &names(&["a", "b"]))),
        ("reallocation".to_string(), "Minimum hold duration not met. Wait 3599999 ms more".to_string())
    );
    // the last millisecond of the hold, and the first one after it
    assert!(engine.can_reallocate_at(1000 + HOUR_MILLIS - 1).is_err());
    assert!(engine.can_reallocate_at(1000 + HOUR_MILLIS).is_ok());
    // the clock is far past the year 1970
    assert!(engine.can_reallocate().is_ok());
}

#[test]
fn reallocations_are_limited_per_hour() {
    let config = ReallocationConfig { min_hold_duration: 0, max_per_hour: 2, ..ReallocationConfig::default() };
    let mut engine = ReallocationEngine::new(config);
    let mut world = World::new(&[("a", 50_000_000), ("b", 50_000_000)], never());
    let the_plan = plan(&[("a", 45_000_000), ("b", 55_000_000)]);
    let start = engine.execute_reallocation_at(1000, &the_plan, &names(&["a", "b"]));
    assert!(world.drive(&mut engine, start, 1000).is_ok());
    // one reallocation of two providers counts once
    assert_eq!(engine.get_reallocation_history().len(), 2);
    assert!(engine.can_reallocate_at(1001).is_ok());
    let start = engine.execute_reallocation_at(2000, &the_plan, &names(&["a", "b"]));
    assert!(world.drive(&mut engine, start, 2000).is_ok());
    // two reallocations in the last hour reach the limit of two
    match engine.can_reallocate_at(2001) {
        Err(OrchestrationError::ReallocationError(m)) => {
            assert_eq!(m, "Rate limit exceeded for reallocations")
        },
        _ => panic!("the rate is limited"),
    }
    assert_eq!(
        start_message(engine.execute_reallocation_at(2001, &the_plan, &names(&["a", "b"]))),
        ("reallocation".to_string(), "Rate limit exceeded for reallocations".to_string())
    );
    assert!(engine.can_reallocate_at(1000 + HOUR_MILLIS - 1).is_err());
    // an hour after the first one it no longer counts
    assert!(engine.can_reallocate_at(1000 + HOUR_MILLIS).is_ok());
    let higher = ReallocationConfig { max_per_hour: 3, ..config };
    let mut engine = ReallocationEngine::new(higher);
    for now in [1000, 2000] {
        let start = engine.execute_reallocation_at(now, &the_plan, &names(&["a", "b"]));
        assert!(world.drive(&mut engine, start, now).is_ok());
    }
    assert!(engine.can_reallocate_at(2001).is_ok());
}

#[test]
fn a_limit_of_zero_lets_no_reallocation_start() {
    let config = ReallocationConfig { min_hold_duration: 0, max_per_hour: 0, ..ReallocationConfig::default() };
    let mut engine = ReallocationEngine::new(config);
    match engine.can_reallocate_at(0) {
        Err(OrchestrationError::ReallocationError(m)) => {
            assert_eq!(m, "Rate limit exceeded for reallocations")
        },
        _ => panic!("the rate is limited"),
    }
    assert!(engine.can_reallocate().is_err());
    let the_plan = plan(&[("a", 45_000_000), ("b", 55_000_000)]);
    assert_eq!(
        start_message(engine.execute_reallocation_at(5, &the_plan, &names(&["a", "b"]))),
        ("reallocation".to_string(), "Rate limit exceeded for reallocations".to_string())
    );
    assert_eq!(
        start_message(engine.execute_reallocation(&the_plan, &names(&["a", "b"]))),
        ("reallocation".to_string(), "Rate limit exceeded for reallocations".to_string())
    );
    assert!(engine.get_reallocation_history().is_empty());
}

#[test]
fn a_failed_execution_does_not_count_for_the_limit() {
    let config = ReallocationConfig { min_hold_duration: 0, max_per_hour: 1, ..ReallocationConfig::default() };
    let mut engine = ReallocationEngine::new(config);
    let mut world = World::new(
        &[("a", 50_000_000), ("b", 50_000_000)],
        Box::new(|call: &ProviderCall| call.provider == "b" && !call.restoring),
    );
    let the_plan = plan(&[("a", 45_000_000), ("b", 55_000_000)]);
    let start = engine.execute_reallocation_at(1000, &the_plan, &names(&["a", "b"]));
    assert!(world.drive(&mut engine, start, 1000).is_err());
    assert!(engine.can_reallocate_at(1001).is_ok());
}

#[test]
fn a_plan_is_validated_before_anything_changes() {
    let mut engine = ReallocationEngine::new(ReallocationConfig::default());
    let registered = names(&["a", "b"]);
    let unregistered = plan(&[("a", 50_000_000), ("ghost", 25_000_000), ("phantom", 25_000_000)]);
    assert_eq!(
        message(engine.validate_plan(&unregistered, &registered)),
        ("reallocation".to_string(), "Protocol ghost not registered".to_string())
    );
    let short = plan(&[("a", 50_000_000), ("b", 48_999_999)]);
    assert_eq!(
        message(engine.validate_plan(&short, &registered)),
        ("reallocation".to_string(), "Total allocation 98.99 != 100%".to_string())
    );
    let long = plan(&[("a", 50_000_000), ("b", 51_000_001)]);
    assert_eq!(
        message(engine.validate_plan(&long, &registered)),
        ("reallocation".to_string(), "Total allocation 101.00 != 100%".to_string())
    );
    assert!(engine.validate_plan(&plan(&[("a", 50_000_000), ("b", 49_000_000)]), &registered).is_ok());
    assert!(engine.validate_plan(&plan(&[("a", 50_000_000), ("b", 51_000_000)]), &registered).is_ok());
    let mut costly = plan(&[("a", 50_000_000), ("b", 50_000_000)]);
    costly.net_benefit = -1;
    assert_eq!(
        message(engine.validate_plan(&costly, &registered)),
        ("reallocation".to_string(), "Plan has negative net benefit".to_string())
    );
    costly.net_benefit = 0;
    assert!(engine.validate_plan(&costly, &registered).is_ok());
    assert_eq!(
        message(engine.validate_plan(&plan(&[]), &registered)),
        ("reallocation".to_string(), "Total allocation 0.00 != 100%".to_string())
    );
    // an invalid plan starts nothing
    assert_eq!(
        start_message(engine.execute_reallocation_at(5, &unregistered, &registered)),
        ("reallocation".to_string(), "Protocol ghost not registered".to_string())
    );
    assert!(engine.get_reallocation_history().is_empty());
    assert!(engine.can_reallocate_at(6).is_ok());
}

#[test]
fn a_failure_without_rollback_leaves_what_was_applied() {
    let config = ReallocationConfig { auto_rollback: false, ..ReallocationConfig::default() };
    let mut engine = ReallocationEngine::new(config);
    let mut world = World::new(
        &[("a", 10_000_000), ("b", 20_000_000), ("c", 70_000_000)],
        Box::new(|call| call.provider == "b"),
    );
    let the_plan = plan(&[("a", 30_000_000), ("b", 30_000_000), ("c", 40_000_000)]);
    let start = engine.execute_reallocation_at(1000, &the_plan, &names(&["a", "b", "c"]));
    assert_eq!(
        message(world.drive(&mut engine, start, 2000)),
        ("reallocation".to_string(), "Failed to apply allocation to b: boom".to_string())
    );
    assert_eq!(world.held["a"], 30_000_000);
    assert_eq!(world.held["b"], 20_000_000);
    assert_eq!(world.held["c"], 70_000_000);
    assert_eq!(world.calls.len(), 2);
    // nothing is recorded and no hold begins
    assert!(engine.get_reallocation_history().is_empty());
    assert!(engine.can_reallocate_at(2001).is_ok());
}

#[test]
fn a_failure_with_rollback_restores_every_provider() {
    let mut engine = ReallocationEngine::new(ReallocationConfig::default());
    let origin = [("a", 10_000_000), ("b", 20_000_000), ("c", 30_000_000), ("d", 40_000_000)];
    let mut world = World::new(&origin, Box::new(|call| call.provider == "c" && !call.restoring));
    let the_plan =
        plan(&[("a", 25_000_000), ("b", 25_000_000), ("c", 25_000_000), ("d", 25_000_000)]);
    let start = engine.execute_reallocation_at(1000, &the_plan, &names(&["a", "b", "c", "d"]));
    assert_eq!(
        message(world.drive(&mut engine, start, 2000)),
        ("reallocation".to_string(), "Failed to apply allocation to c: boom".to_string())
    );
    for (name, held) in origin {
        assert_eq!(world.held[name], held);
    }
    assert_eq!(
        world.calls,
        vec![
            ("a".to_string(), 25_000_000, false),
            ("b".to_string(), 25_000_000, false),
            ("c".to_string(), 25_000_000, false),
            ("a".to_string(), 10_000_000, true),
            ("b".to_string(), 20_000_000, true),
            ("c".to_string(), 30_000_000, true),
        ]
    );
    assert!(engine.get_reallocation_history().is_empty());
    assert!(engine.can_reallocate_at(2001).is_ok());
}

#[test]
fn a_failure_at_the_first_provider_restores_it_alone() {
    let mut engine = ReallocationEngine::new(ReallocationConfig::default());
    let mut world = World::new(
        &[("a", 10_000_000), ("b", 90_000_000)],
        Box::new(|call| call.provider == "a" && !call.restoring),
    );
    let start = engine.execute_reallocation_at(0, &plan(&[("a", 50_000_000), ("b", 50_000_000)]), &names(&["a", "b"]));
    assert!(world.drive(&mut engine, start, 0).is_err());
    assert_eq!(world.held["a"], 10_000_000);
    assert_eq!(world.held["b"], 90_000_000);
    assert_eq!(
        world.calls,
        vec![("a".to_string(), 50_000_000, false), ("a".to_string(), 10_000_000, true)]
    );
}

#[test]
fn the_changed_providers_are_restored_whatever_the_refusing_one_does() {
    // c refuses its new allocation and then its restore as well
    let mut engine = ReallocationEngine::new(ReallocationConfig::default());
    let origin = [("a", 10_000_000), ("b", 20_000_000), ("c", 70_000_000)];
    let mut world = World::new(&origin, Box::new(|call| call.provider == "c"));
    let the_plan = plan(&[("a", 30_000_000), ("b", 30_000_000), ("c", 40_000_000)]);
    let start = engine.execute_reallocation_at(0, &the_plan, &names(&["a", "b", "c"]));
    assert_eq!(
        message(world.drive(&mut engine, start, 0)),
        ("protocol".to_string(), "Failed to restore allocation of c: boom".to_string())
    );
    assert_eq!(world.held["a"], 10_000_000);
    assert_eq!(world.held["b"], 20_000_000);
    // c reports an allocation that it does not hold: the others are restored all the same
    let mut engine = ReallocationEngine::new(ReallocationConfig::default());
    let mut progress = engine.execute_reallocation_at(0, &the_plan, &names(&["a", "b", "c"]));
    let mut held: HashMap<String, i64> = origin.iter().map(|(n, v)| (n.to_string(), *v)).collect();
    let outcome = loop {
        match progress {
            Progress::Finished(outcome) => break outcome,
            Progress::Call(run, call) => {
                let reply = if call.provider == "c" && !call.restoring {
                    ProviderReply { previous: Some(1), failure: Some("boom".to_string()) }
                } else {
                    let previous = if call.restoring { None } else { Some(held[&call.provider]) };
                    held.insert(call.provider.clone(), call.allocation_percent);
                    ProviderReply { previous, failure: None }
                };
                progress = engine.advance_at(0, run, reply);
            },
        }
    };
    assert_eq!(
        message(outcome),
        ("reallocation".to_string(), "Failed to apply allocation to c: boom".to_string())
    );
    assert_eq!(held["a"], 10_000_000);
    assert_eq!(held["b"], 20_000_000);
    assert_eq!(held["c"], 1);
}

#[test]
fn a_refused_restore_is_an_error_of_its_own_kind() {
    let mut engine = ReallocationEngine::new(ReallocationConfig::default());
    let mut world = World::new(
        &[("a", 10_000_000), ("b", 90_000_000)],
        Box::new(|call| call.provider == "b" || call.restoring),
    );
    let start = engine.execute_reallocation_at(0, &plan(&[("a", 50_000_000), ("b", 50_000_000)]), &names(&["a", "b"]));
    assert_eq!(
        message(world.drive(&mut engine, start, 0)),
        ("protocol".to_string(), "Failed to restore allocation of a: boom".to_string())
    );
    // a is left with what was applied
    assert_eq!(world.held["a"], 50_000_000);
}

#[test]
fn a_provider_that_cannot_be_read_is_recorded_from_zero_and_not_restored() {
    let mut engine = ReallocationEngine::new(ReallocationConfig::default());
    let start = engine.execute_reallocation_at(0, &plan(&[("a", 50_000_000), ("b", 50_000_000)]), &names(&["a", "b"]));
    let run = match start {
        Progress::Call(run, call) => {
            assert_eq!(call.provider, "a");
            assert!(!call.restoring);
            run
        },
        _ => panic!("a call"),
    };
    let next = engine.advance_at(5, run, ProviderReply { previous: None, failure: None });
    let run = match next {
        Progress::Call(run, call) => {
            assert_eq!(call.provider, "b");
            assert_eq!(run.next_call().provider, "b");
            run
        },
        _ => panic!("a call"),
    };
    let end = engine.advance_at(6, run, ProviderReply { previous: Some(7), failure: None });
    assert!(matches!(end, Progress::Finished(Ok(()))));
    let history = engine.get_reallocation_history();
    assert_eq!(history[0].old_allocation, 0);
    assert_eq!(history[1].old_allocation, 7);
    assert_eq!(history[0].timestamp, 6);
    // the rollback knows only b
    let mut world = World::new(&[("a", 50_000_000), ("b", 50_000_000)], never());
    let rollback = engine.rollback_allocation(&names(&["a", "b"]));
    assert!(world.drive(&mut engine, rollback, 7).is_ok());
    assert_eq!(world.calls, vec![("b".to_string(), 7, true)]);
}

#[test]
fn an_operator_rollback_applies_the_previous_allocations_again() {
    let config = ReallocationConfig { min_hold_duration: 0, max_per_hour: 100, ..ReallocationConfig::default() };
    let mut engine = ReallocationEngine::new(config);
    let mut world = World::new(&[("a", 10_000_000), ("b", 90_000_000)], never());
    // nothing to roll back yet
    assert!(matches!(engine.rollback_allocation(&names(&["a", "b"])), Progress::Finished(Ok(()))));
    let start = engine.execute_reallocation_at(0, &plan(&[("a", 50_000_000), ("b", 50_000_000)]), &names(&["a", "b"]));
    assert!(world.drive(&mut engine, start, 0).is_ok());
    world.calls.clear();
    let rollback = engine.rollback_allocation(&names(&["a", "b"]));
    assert!(world.drive(&mut engine, rollback, 1).is_ok());
    assert_eq!(world.held["a"], 10_000_000);
    assert_eq!(world.held["b"], 90_000_000);
    assert_eq!(
        world.calls,
        vec![("a".to_string(), 10_000_000, true), ("b".to_string(), 90_000_000, true)]
    );
    // the record of changes is not touched by a rollback
    assert_eq!(engine.get_reallocation_history().len(), 2);
    // a provider that is gone ends the rollback where it stands
    world.calls.clear();
    let rollback = engine.rollback_allocation(&names(&["a"]));
    assert_eq!(
        message(world.drive(&mut engine, rollback, 2)),
        ("reallocation".to_string(), "Protocol b not found".to_string())
    );
    assert_eq!(world.calls, vec![("a".to_string(), 10_000_000, true)]);
    assert_eq!(
        start_message(engine.rollback_allocation(&names(&["b"]))),
        ("reallocation".to_string(), "Protocol a not found".to_string())
    );
}

#[test]
fn each_execution_records_the_previous_allocations_anew() {
    let config = ReallocationConfig { min_hold_duration: 0, max_per_hour: 100, ..ReallocationConfig::default() };
    let mut engine = ReallocationEngine::new(config);
    let mut world = World::new(&[("a", 10_000_000), ("b", 90_000_000), ("c", 0)], never());
    let start = engine.execute_reallocation_at(0, &plan(&[("a", 50_000_000), ("b", 50_000_000)]), &names(&["a", "b", "c"]));
    assert!(world.drive(&mut engine, start, 0).is_ok());
    let start = engine.execute_reallocation_at(1, &plan(&[("c", 100_000_000)]), &names(&["a", "b", "c"]));
    assert!(world.drive(&mut engine, start, 1).is_ok());
    world.calls.clear();
    let rollback = engine.rollback_allocation(&names(&["a", "b", "c"]));
    assert!(world.drive(&mut engine, rollback, 2).is_ok());
    assert_eq!(world.calls, vec![("c".to_string(), 0, true)]);
    assert_eq!(engine.get_reallocation_history().len(), 3);
}

#[test]
fn recent_reallocations_are_those_after_the_cutoff() {
    let config = ReallocationConfig { min_hold_duration: 0, max_per_hour: 100, ..ReallocationConfig::default() };
    let mut engine = ReallocationEngine::new(config);
    let mut world = World::new(&[("a", 10_000_000)], never());
    for now in [HOUR_MILLIS, 2 * HOUR_MILLIS, 3 * HOUR_MILLIS] {
        let start = engine.execute_reallocation_at(now, &plan(&[("a", 100_000_000)]), &names(&["a"]));
        assert!(world.drive(&mut engine, start, now).is_ok());
    }
    assert_eq!(engine.get_reallocation_history().len(), 3);
    // strictly after the cutoff
    let recent = engine.get_recent_reallocations_at(3 * HOUR_MILLIS, 1);
    assert_eq!(recent.len(), 1);
    assert_eq!(recent[0].timestamp, 3 * HOUR_MILLIS);
    assert_eq!(engine.get_recent_reallocations_at(3 * HOUR_MILLIS, 2).len(), 2);
    assert_eq!(engine.get_recent_reallocations_at(3 * HOUR_MILLIS, 3).len(), 3);
    assert_eq!(engine.get_recent_reallocations_at(3 * HOUR_MILLIS, 0).len(), 0);
    assert_eq!(engine.get_recent_reallocations_at(3 * HOUR_MILLIS, -1).len(), 0);
    assert_eq!(engine.get_recent_reallocations_at(i64::MAX, i64::MAX).len(), 3);
    assert_eq!(engine.reallocations_since(2 * HOUR_MILLIS as i128).len(), 1);
    // by the clock, all of this was long ago
    assert_eq!(engine.get_recent_reallocations(1).len(), 0);
}

#[test]
fn an_execution_by_the_clock_is_stamped_with_it() {
    let mut engine = ReallocationEngine::new(ReallocationConfig::default());
    let start = engine.execute_reallocation(&plan(&[("a", 100_000_000)]), &names(&["a"]));
    let run = match start {
        Progress::Call(run, _) => run,
        _ => panic!("a call"),
    };
    let end = engine.advance(run, ProviderReply { previous: Some(1), failure: None });
    assert!(matches!(end, Progress::Finished(Ok(()))));
    let history = engine.get_reallocation_history();
    // some instant after the year 2020
    assert!(history[0].timestamp > 1_577_836_800_000);
    // and the hold has begun
    assert!(engine.can_reallocate().is_err());
    assert!(matches!(
        engine.execute_reallocation(&plan(&[("a", 100_000_000)]), &names(&["a"])),
        Progress::Finished(Err(OrchestrationError::ReallocationError(_)))
    ));
}
