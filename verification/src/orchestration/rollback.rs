//! What an execution leaves behind at the providers.
//!
//! The providers are modelled by the allocation each of them holds. A call
//! that a provider accepts sets its allocation; a call that it refuses
//! changes nothing. The law of this module: with automatic rollback, an
//! execution that fails leaves every provider that it has changed with the
//! allocation it had before, provided those providers report their
//! allocations truthfully and take their earlier allocations back. Of the
//! provider that refused its new allocation nothing of the kind is asked.

use super::reallocation::{
    begin, first_unregistered, pending_call, run_pending, step, CallView, EngineView, ProgressView,
    ReplyView, RunView,
};
use super::PlanView;
use crate::ledger::{distinct_names, has_name, lemma_first_where, lemma_position_is, put};
use vstd::prelude::*;

verus! {

/// The allocations the providers hold after `call` was answered with
/// `reply`: an accepted call has set the provider's allocation.
pub open spec fn world_after(world: Map<Seq<char>, i64>, call: CallView, reply: ReplyView) -> Map<
    Seq<char>,
    i64,
> {
    if reply.failure is None {
        world.insert(call.provider, call.allocation_percent)
    } else {
        world
    }
}

/// Whether `reply` answers `call` as this law assumes. The provider
/// `spared`, if there is one, refuses every new allocation, and may report
/// anything and refuse to be restored. Every other provider reports the
/// allocation that it holds when it is to change, and accepts when it is to
/// be restored.
pub open spec fn cooperative(
    world: Map<Seq<char>, i64>,
    call: CallView,
    reply: ReplyView,
    spared: Option<Seq<char>>,
) -> bool {
    if spared == Some(call.provider) {
        call.restoring || reply.failure is Some
    } else if call.restoring {
        reply.failure is None
    } else {
        reply.previous == Some(world[call.provider])
    }
}

/// Whether every provider but `spared` holds in `world` what it held at `origin`.
pub open spec fn restored(
    world: Map<Seq<char>, i64>,
    origin: Map<Seq<char>, i64>,
    spared: Option<Seq<char>>,
) -> bool {
    forall|name: Seq<char>|
        origin.dom().contains(name) && spared != Some(name) ==> #[trigger] world[name] == origin[name]
}

/// The engine, the progress and the providers after the replies `events`,
/// each with the instant at which it is taken, were handed to an execution
/// that stands at `p`.
pub open spec fn run_on(
    e: EngineView,
    p: ProgressView,
    world: Map<Seq<char>, i64>,
    events: Seq<(ReplyView, i64)>,
) -> (EngineView, ProgressView, Map<Seq<char>, i64>)
    decreases events.len(),
{
    match p {
        ProgressView::Finished(_) => (e, p, world),
        ProgressView::Call(run, call) => if events.len() == 0 {
            (e, p, world)
        } else {
            let next = step(e, run, events[0].0, events[0].1);
            run_on(next.0, next.1, world_after(world, call, events[0].0), events.drop_first())
        },
    }
}

/// Whether every reply of `events` is cooperative where it is taken.
pub open spec fn all_cooperative(
    e: EngineView,
    p: ProgressView,
    world: Map<Seq<char>, i64>,
    events: Seq<(ReplyView, i64)>,
    spared: Option<Seq<char>>,
) -> bool
    decreases events.len(),
{
    match p {
        ProgressView::Finished(_) => true,
        ProgressView::Call(run, call) => events.len() == 0 || {
            let next = step(e, run, events[0].0, events[0].1);
            &&& cooperative(world, call, events[0].0, spared)
            &&& all_cooperative(
                next.0,
                next.1,
                world_after(world, call, events[0].0),
                events.drop_first(),
                spared,
            )
        },
    }
}

/// The record of changes only grows: whatever a step of an execution does,
/// the changes on record before it stay on record, in their order and as
/// they were.
pub proof fn lemma_record_is_append_only(e: EngineView, run: RunView, reply: ReplyView, now: i64)
    ensures
        e.changes.is_prefix_of(step(e, run, reply, now).0.changes),
{
    let after = step(e, run, reply, now).0.changes;
    assert(after.len() >= e.changes.len());
    assert(e.changes =~= after.subrange(0, e.changes.len() as int));
}

/// The first `count` providers of `targets` with what each held in `world`.
pub open spec fn snapshots(targets: Seq<(Seq<char>, i64)>, world: Map<Seq<char>, i64>, count: int) -> Seq<
    (Seq<char>, i64),
> {
    Seq::new(count as nat, |j: int| (targets[j].0, world[targets[j].0]))
}

/// Whether `name` is the provider of an entry of `s` at an index from `from` up to `to`.
pub open spec fn among(s: Seq<(Seq<char>, i64)>, from: int, to: int, name: Seq<char>) -> bool {
    exists|j: int| from <= j < to && (#[trigger] s[j]).0 == name
}

/// Whether an execution that began with the providers at `origin` is on
/// course. A changing run has passed only providers other than `spared`,
/// has recorded what they held, and has changed no others. A restoring run
/// restores the providers it has passed to what they held, `spared` last if
/// at all, and every provider but `spared` that is not still to be restored
/// holds what it held at `origin`. An execution that has failed has left
/// every provider but `spared` as it was.
pub open spec fn on_course(
    e: EngineView,
    p: ProgressView,
    world: Map<Seq<char>, i64>,
    origin: Map<Seq<char>, i64>,
    spared: Option<Seq<char>>,
) -> bool {
    &&& world.dom() == origin.dom()
    &&& match p {
        ProgressView::Finished(Some(_)) => restored(world, origin, spared),
        ProgressView::Finished(None) => true,
        ProgressView::Call(run, call) => {
            &&& call == pending_call(run)
            &&& run_pending(run)
            &&& e.config.auto_rollback
            &&& distinct_names(run.targets)
            &&& forall|j: int|
                0 <= j < run.targets.len() ==> run.registry.contains((#[trigger] run.targets[j]).0)
                    && origin.dom().contains(run.targets[j].0)
            &&& if run.restoring {
                &&& run.failure is Some
                &&& run.restores.len() <= run.targets.len()
                &&& forall|j: int|
                    0 <= j < run.restores.len() ==> (#[trigger] run.restores[j]).0 == run.targets[j].0
                &&& forall|j: int|
                    0 <= j < run.restores.len() && spared != Some((#[trigger] run.restores[j]).0)
                        ==> run.restores[j].1 == origin[run.targets[j].0]
                &&& forall|j: int|
                    0 <= j < run.restores.len() - 1 ==> spared != Some((#[trigger] run.restores[j]).0)
                &&& forall|name: Seq<char>|
                    origin.dom().contains(name) && spared != Some(name) && !among(
                        run.restores,
                        run.index,
                        run.restores.len() as int,
                        name,
                    ) ==> #[trigger] world[name] == origin[name]
            } else {
                &&& e.previous == snapshots(run.targets, origin, run.index)
                &&& forall|j: int| 0 <= j < run.index ==> spared != Some((#[trigger] run.targets[j]).0)
                &&& forall|name: Seq<char>|
                    origin.dom().contains(name) && !among(run.targets, 0, run.index, name)
                        ==> #[trigger] world[name] == origin[name]
            }
        },
    }
}

/// A cooperative reply keeps an execution on course.
pub proof fn lemma_step_on_course(
    e: EngineView,
    run: RunView,
    call: CallView,
    world: Map<Seq<char>, i64>,
    origin: Map<Seq<char>, i64>,
    reply: ReplyView,
    now: i64,
    spared: Option<Seq<char>>,
)
    requires
        on_course(e, ProgressView::Call(run, call), world, origin, spared),
        cooperative(world, call, reply, spared),
    ensures
        on_course(
            step(e, run, reply, now).0,
            step(e, run, reply, now).1,
            world_after(world, call, reply),
            origin,
            spared,
        ),
{
    let after = world_after(world, call, reply);
    let i = run.index;
    if run.restoring {
        let count = run.restores.len() as int;
        let name = run.restores[i].0;
        assert(name == run.targets[i].0);
        assert(origin.dom().contains(run.targets[i].0));
        assert(after.dom() =~= origin.dom());
        if spared == Some(name) {
            assert(i == count - 1) by {
                if i < count - 1 {
                    assert(spared != Some(run.restores[i].0));
                }
            }
        }
        assert forall|other: Seq<char>|
            origin.dom().contains(other) && spared != Some(other) && !among(
                run.restores,
                i + 1,
                count,
                other,
            ) implies after[other] == origin[other] by {
            if other != name {
                assert(!among(run.restores, i, count, other));
                assert(world[other] == origin[other]);
            }
        }
        if i + 1 >= count || reply.failure is Some {
            assert forall|other: Seq<char>|
                origin.dom().contains(other) && spared != Some(other) implies after[other]
                == origin[other] by {
                assert(!among(run.restores, i + 1, count, other));
            }
        } else {
            assert(run.restores[i + 1].0 == run.targets[i + 1].0);
            assert(run.registry.contains(run.targets[i + 1].0));
        }
    } else {
        let name = run.targets[i].0;
        assert(origin.dom().contains(name) && run.registry.contains(name));
        assert(!among(run.targets, 0, i, name)) by {
            if among(run.targets, 0, i, name) {
                let j = choose|j: int| 0 <= j < i && (#[trigger] run.targets[j]).0 == name;
                assert(run.targets[j].0 != run.targets[i].0);
            }
        }
        assert(world[name] == origin[name]);
        // the provider has no earlier record: its reading is appended
        assert(!has_name(e.previous, name)) by {
            assert forall|j: int| 0 <= j < e.previous.len() implies (#[trigger] e.previous[j]).0
                != name by {
                assert(e.previous[j].0 == run.targets[j].0);
                assert(run.targets[j].0 != run.targets[i].0);
            }
            lemma_position_is(e.previous, name, e.previous.len() as int);
        }
        let noted = step(e, run, reply, now).0.previous;
        assert(after.dom() =~= origin.dom());
        match reply.failure {
            None => {
                assert(spared != Some(name));
                assert(noted =~= snapshots(run.targets, origin, i + 1));
                assert forall|other: Seq<char>|
                    origin.dom().contains(other) && !among(run.targets, 0, i + 1, other) implies after[other]
                    == origin[other] by {
                    assert(other != name) by {
                        if other == name {
                            assert(run.targets[i].0 == other);
                        }
                    }
                    assert(!among(run.targets, 0, i, other)) by {
                        if among(run.targets, 0, i, other) {
                            let j = choose|j: int| 0 <= j < i && (#[trigger] run.targets[j]).0 == other;
                            assert(0 <= j < i + 1 && run.targets[j].0 == other);
                        }
                    }
                    assert(world[other] == origin[other]);
                }
            },
            Some(cause) => {
                let restores = match reply.previous {
                    Some(a) => put(e.previous, name, a),
                    None => e.previous,
                };
                assert(restores == noted);
                assert(restores.len() <= i + 1);
                assert forall|j: int| 0 <= j < restores.len() implies (#[trigger] restores[j]).0
                    == run.targets[j].0 by {
                    if j < i {
                        assert(e.previous[j].0 == run.targets[j].0);
                    }
                }
                assert forall|j: int|
                    0 <= j < restores.len() && spared != Some((#[trigger] restores[j]).0) implies restores[j].1
                    == origin[run.targets[j].0] by {
                    if j < i {
                        assert(e.previous[j].1 == origin[run.targets[j].0]);
                    }
                }
                assert forall|j: int| 0 <= j < restores.len() - 1 implies spared != Some(
                    (#[trigger] restores[j]).0,
                ) by {
                    assert(restores[j].0 == run.targets[j].0);
                }
                assert forall|other: Seq<char>|
                    origin.dom().contains(other) && spared != Some(other) && !among(
                        restores,
                        0,
                        restores.len() as int,
                        other,
                    ) implies after[other] == origin[other] by {
                    assert(!among(run.targets, 0, i, other)) by {
                        if among(run.targets, 0, i, other) {
                            let j = choose|j: int| 0 <= j < i && (#[trigger] run.targets[j]).0 == other;
                            assert(restores[j].0 == other);
                        }
                    }
                    assert(world[other] == origin[other]);
                }
                if restores.len() > 0 {
                    assert(restores[0].0 == run.targets[0].0);
                    assert(run.registry.contains(run.targets[0].0));
                } else {
                    assert forall|other: Seq<char>|
                        origin.dom().contains(other) && spared != Some(other) implies after[other]
                        == origin[other] by {
                        assert(!among(restores, 0, 0, other));
                    }
                }
            },
        }
    }
}

/// With automatic rollback, an execution that fails leaves every provider
/// that it has changed with the allocation it had before: whatever it had
/// changed, it restored. The providers that it changes are taken to report
/// their allocations truthfully and to take their earlier allocations back.
/// One provider, `spared`, may be the one that refuses its new allocation:
/// it may report anything and refuse to be restored, and nothing is said of
/// what it holds in the end. Without such a provider, every provider holds
/// in the end what it held before.
pub proof fn lemma_failed_execution_restores(
    e: EngineView,
    plan: PlanView,
    registry: Seq<Seq<char>>,
    now: i64,
    origin: Map<Seq<char>, i64>,
    events: Seq<(ReplyView, i64)>,
    spared: Option<Seq<char>>,
)
    requires
        e.config.auto_rollback,
        distinct_names(plan.allocation),
        forall|j: int|
            0 <= j < plan.allocation.len() ==> origin.dom().contains((#[trigger] plan.allocation[j]).0),
        all_cooperative(
            begin(e, plan, registry, now).0,
            begin(e, plan, registry, now).1,
            origin,
            events,
            spared,
        ),
    ensures
        ({
            let start = begin(e, plan, registry, now);
            let end = run_on(start.0, start.1, origin, events);
            end.1 is Finished && end.1->Finished_0 is Some ==> {
                &&& restored(end.2, origin, spared)
                &&& spared is None ==> end.2 == origin
            }
        }),
{
    let start = begin(e, plan, registry, now);
    if start.1 is Call {
        let unregistered = |x: (Seq<char>, i64)| !registry.contains(x.0);
        lemma_first_where(plan.allocation, unregistered);
        assert(first_unregistered(plan.allocation, registry) == plan.allocation.len());
        assert forall|j: int| 0 <= j < plan.allocation.len() implies registry.contains(
            (#[trigger] plan.allocation[j]).0,
        ) by {
            assert(!unregistered(plan.allocation[j]));
        }
        assert(start.0.previous =~= snapshots(plan.allocation, origin, 0));
        assert(on_course(start.0, start.1, origin, origin, spared));
    }
    lemma_run_stays_on_course(start.0, start.1, origin, origin, events, spared);
    let end = run_on(start.0, start.1, origin, events);
    if end.1 is Finished && end.1->Finished_0 is Some && spared is None {
        assert(end.2 =~= origin);
    }
}

/// Cooperative replies keep an execution on course to its end.
pub proof fn lemma_run_stays_on_course(
    e: EngineView,
    p: ProgressView,
    world: Map<Seq<char>, i64>,
    origin: Map<Seq<char>, i64>,
    events: Seq<(ReplyView, i64)>,
    spared: Option<Seq<char>>,
)
    requires
        on_course(e, p, world, origin, spared),
        all_cooperative(e, p, world, events, spared),
    ensures
        on_course(
            run_on(e, p, world, events).0,
            run_on(e, p, world, events).1,
            run_on(e, p, world, events).2,
            origin,
            spared,
        ),
    decreases events.len(),
{
    match p {
        ProgressView::Finished(_) => {},
        ProgressView::Call(run, call) => {
            if events.len() > 0 {
                let next = step(e, run, events[0].0, events[0].1);
                lemma_step_on_course(e, run, call, world, origin, events[0].0, events[0].1, spared);
                lemma_run_stays_on_course(
                    next.0,
                    next.1,
                    world_after(world, call, events[0].0),
                    origin,
                    events.drop_first(),
                    spared,
                );
            }
        },
    }
}

} // verus!
