use vstd::prelude::*;
use crate::event::EventView;
use crate::monitor::{started, stopped, Effect};

verus! {

/// Something that the host or the watcher gets to see.
pub enum Observation {
    /// An event delivered to the host.
    Host(EventView),
    /// The shutdown signal, dispatched to the watcher.
    ShutdownSignal,
}

/// The manager together with what surrounds it: the watcher threads that are
/// alive, and everything observed so far, oldest first.
pub struct World<H> {
    pub slot: Option<H>,
    pub watchers: nat,
    pub log: Seq<Observation>,
}

/// One step of a scripted run.
pub enum Step<H> {
    /// A start request, with the outcome of making the native watcher.
    Start(Result<H, Seq<char>>),
    /// A stop request.
    Stop,
    /// The clipboard content changes.
    Change,
    /// The native watcher fails with the given description.
    Fault(Seq<char>),
}

/// The world after the caller has performed one effect. A spawned watcher
/// comes alive; a watcher that is signalled exits.
pub open spec fn perform_one<H>(world: World<H>, effect: Effect<H>) -> World<H> {
    match effect {
        Effect::EmitStatus(running) => World {
            slot: world.slot,
            watchers: world.watchers,
            log: world.log.push(Observation::Host(EventView::Status(running))),
        },
        Effect::Spawn => World {
            slot: world.slot,
            watchers: world.watchers + 1,
            log: world.log,
        },
        Effect::Shutdown(_) => World {
            slot: world.slot,
            watchers: if world.watchers > 0 {
                (world.watchers - 1) as nat
            } else {
                0
            },
            log: world.log.push(Observation::ShutdownSignal),
        },
    }
}

/// The world after the caller has performed the effects in order.
pub open spec fn perform<H>(world: World<H>, effects: Seq<Effect<H>>) -> World<H>
    decreases effects.len(),
{
    if effects.len() == 0 {
        world
    } else {
        perform(perform_one(world, effects.first()), effects.drop_first())
    }
}

/// The world after a lifecycle operation left `slot` and returned `result`.
pub open spec fn after_operation<H>(
    world: World<H>,
    slot: Option<H>,
    result: Result<Seq<Effect<H>>, Seq<char>>,
) -> World<H> {
    let moved = World { slot, watchers: world.watchers, log: world.log };
    match result {
        Ok(effects) => perform(moved, effects),
        Err(_) => moved,
    }
}

/// The world after one step. A change or a fault is noticed only by a watcher
/// that is alive. A fault ends the watcher if the worker stops on errors.
pub open spec fn step<H>(world: World<H>, step: Step<H>, stop_on_error: bool) -> World<H> {
    match step {
        Step::Start(watcher) => {
            let transition = started(world.slot, watcher);
            after_operation(world, transition.slot, transition.result)
        },
        Step::Stop => {
            let transition = stopped(world.slot);
            after_operation(world, transition.slot, transition.result)
        },
        Step::Change => if world.watchers > 0 {
            World {
                slot: world.slot,
                watchers: world.watchers,
                log: world.log.push(Observation::Host(EventView::Update)),
            }
        } else {
            world
        },
        Step::Fault(description) => if world.watchers > 0 {
            World {
                slot: world.slot,
                watchers: if stop_on_error {
                    (world.watchers - 1) as nat
                } else {
                    world.watchers
                },
                log: world.log.push(Observation::Host(EventView::Error(description))),
            }
        } else {
            world
        },
    }
}

/// The world after a whole script, begun with a manager that was never
/// started, no watcher and nothing observed.
pub open spec fn run<H>(script: Seq<Step<H>>, stop_on_error: bool) -> World<H>
    decreases script.len(),
{
    if script.len() == 0 {
        World { slot: None, watchers: 0, log: Seq::empty() }
    } else {
        step(run(script.drop_last(), stop_on_error), script.last(), stop_on_error)
    }
}

/// The host was told that the monitor runs at some point before position `i`.
pub open spec fn announced_before(log: Seq<Observation>, i: int) -> bool {
    exists|j: int| 0 <= j < i && j < log.len() && #[trigger] log[j] == Observation::Host(
        EventView::Status(true),
    )
}

/// What every reachable world satisfies.
spec fn consistent<H>(world: World<H>, stop_on_error: bool) -> bool {
    &&& world.watchers <= 1
    &&& world.slot is None ==> world.watchers == 0
    &&& !stop_on_error && world.slot is Some ==> world.watchers == 1
    &&& world.watchers > 0 ==> announced_before(world.log, world.log.len() as int)
    &&& forall|i: int|
        0 <= i < world.log.len() && #[trigger] world.log[i] == Observation::Host(EventView::Update)
            ==> announced_before(world.log, i)
    &&& forall|i: int|
        0 <= i < world.log.len() && #[trigger] world.log[i] == Observation::ShutdownSignal ==> i > 0
            && world.log[i - 1] == Observation::Host(EventView::Status(false))
}

proof fn lemma_perform_none<H>(world: World<H>)
    ensures
        perform(world, Seq::<Effect<H>>::empty()) == world,
{
}

proof fn lemma_perform_single<H>(world: World<H>, a: Effect<H>)
    ensures
        perform(world, seq![a]) == perform_one(world, a),
{
    reveal_with_fuel(perform, 2);
    assert(seq![a].drop_first() =~= Seq::<Effect<H>>::empty());
}

proof fn lemma_perform_pair<H>(world: World<H>, a: Effect<H>, b: Effect<H>)
    ensures
        perform(world, seq![a, b]) == perform_one(perform_one(world, a), b),
{
    assert(seq![a, b].drop_first() =~= seq![b]);
    lemma_perform_single(perform_one(world, a), b);
}

/// An announcement that precedes a position of a log precedes the same
/// position, and every later one, of each log that extends it.
proof fn lemma_announced_extends(old_log: Seq<Observation>, new_log: Seq<Observation>, i: int, k: int)
    requires
        announced_before(old_log, i),
        old_log.len() <= new_log.len(),
        forall|j: int| 0 <= j < old_log.len() ==> old_log[j] == new_log[j],
        i <= k,
    ensures
        announced_before(new_log, k),
{
    let j = choose|j: int|
        0 <= j < i && j < old_log.len() && #[trigger] old_log[j] == Observation::Host(
            EventView::Status(true),
        );
    assert(new_log[j] == Observation::Host(EventView::Status(true)));
}

/// A step that adds nothing but observations that are neither an update nor a
/// shutdown signal keeps the two orderings of the log.
proof fn lemma_orderings_extend(old_log: Seq<Observation>, new_log: Seq<Observation>)
    requires
        old_log.len() <= new_log.len(),
        forall|j: int| 0 <= j < old_log.len() ==> old_log[j] == new_log[j],
        forall|i: int|
            0 <= i < old_log.len() && #[trigger] old_log[i] == Observation::Host(EventView::Update)
                ==> announced_before(old_log, i),
        forall|i: int|
            0 <= i < old_log.len() && #[trigger] old_log[i] == Observation::ShutdownSignal ==> i > 0
                && old_log[i - 1] == Observation::Host(EventView::Status(false)),
        forall|i: int|
            old_log.len() <= i < new_log.len() && #[trigger] new_log[i] == Observation::Host(
                EventView::Update,
            ) ==> announced_before(new_log, i),
        forall|i: int|
            old_log.len() <= i < new_log.len() && #[trigger] new_log[i]
                == Observation::ShutdownSignal ==> i > 0 && new_log[i - 1] == Observation::Host(
                EventView::Status(false),
            ),
    ensures
        forall|i: int|
            0 <= i < new_log.len() && #[trigger] new_log[i] == Observation::Host(EventView::Update)
                ==> announced_before(new_log, i),
        forall|i: int|
            0 <= i < new_log.len() && #[trigger] new_log[i] == Observation::ShutdownSignal ==> i > 0
                && new_log[i - 1] == Observation::Host(EventView::Status(false)),
{
    assert forall|i: int|
        0 <= i < new_log.len() && #[trigger] new_log[i] == Observation::Host(
            EventView::Update,
        ) implies announced_before(new_log, i) by {
        if i < old_log.len() {
            assert(old_log[i] == new_log[i]);
            lemma_announced_extends(old_log, new_log, i, i);
        }
    }
    assert forall|i: int|
        0 <= i < new_log.len() && #[trigger] new_log[i] == Observation::ShutdownSignal implies i > 0
        && new_log[i - 1] == Observation::Host(EventView::Status(false)) by {
        if i < old_log.len() {
            assert(old_log[i] == new_log[i]);
            assert(old_log[i - 1] == new_log[i - 1]);
        }
    }
}

proof fn lemma_step_consistent<H>(world: World<H>, s: Step<H>, stop_on_error: bool)
    requires
        consistent(world, stop_on_error),
    ensures
        consistent(step(world, s, stop_on_error), stop_on_error),
{
    let next = step(world, s, stop_on_error);
    let n = world.log.len() as int;
    match s {
        Step::Start(watcher) => {
            match world.slot {
                Some(_) => {
                    lemma_perform_none(world);
                    assert(next == world);
                },
                None => match watcher {
                    Ok(handle) => {
                        let moved = World { slot: Some(handle), watchers: world.watchers, log: world.log };
                        lemma_perform_pair(moved, Effect::EmitStatus(true), Effect::Spawn);
                        assert(next.log == world.log.push(Observation::Host(EventView::Status(true))));
                        assert(next.watchers == 1);
                        assert(next.log[n] == Observation::Host(EventView::Status(true)));
                        assert(announced_before(next.log, next.log.len() as int));
                        lemma_orderings_extend(world.log, next.log);
                    },
                    Err(_) => {
                        assert(next == world);
                    },
                },
            }
        },
        Step::Stop => {
            match world.slot {
                Some(handle) => {
                    let moved = World { slot: None::<H>, watchers: world.watchers, log: world.log };
                    lemma_perform_pair(moved, Effect::EmitStatus(false), Effect::Shutdown(handle));
                    assert(next.log == world.log.push(
                        Observation::Host(EventView::Status(false)),
                    ).push(Observation::ShutdownSignal));
                    assert(next.log[n] == Observation::Host(EventView::Status(false)));
                    assert(next.log[n + 1] == Observation::ShutdownSignal);
                    lemma_orderings_extend(world.log, next.log);
                },
                None => {
                    let moved = World { slot: None::<H>, watchers: world.watchers, log: world.log };
                    lemma_perform_single(moved, Effect::EmitStatus(false));
                    assert(next.log == world.log.push(Observation::Host(EventView::Status(false))));
                    lemma_orderings_extend(world.log, next.log);
                },
            }
        },
        Step::Change => {
            if world.watchers > 0 {
                lemma_announced_extends(world.log, next.log, n, n);
                lemma_announced_extends(world.log, next.log, n, n + 1);
                lemma_orderings_extend(world.log, next.log);
            }
        },
        Step::Fault(description) => {
            if world.watchers > 0 {
                lemma_announced_extends(world.log, next.log, n, n + 1);
                lemma_orderings_extend(world.log, next.log);
            }
        },
    }
}

proof fn lemma_run_consistent<H>(script: Seq<Step<H>>, stop_on_error: bool)
    ensures
        consistent(run(script, stop_on_error), stop_on_error),
    decreases script.len(),
{
    if script.len() > 0 {
        lemma_run_consistent(script.drop_last(), stop_on_error);
        lemma_step_consistent(run(script.drop_last(), stop_on_error), script.last(), stop_on_error);
    }
}

/// At most one watcher thread is alive after any script, and none while the
/// monitor is stopped. With a worker that goes on watching after an error,
/// a watcher is alive exactly when a shutdown handle is stored.
pub proof fn lemma_at_most_one_watcher<H>(script: Seq<Step<H>>, stop_on_error: bool)
    ensures
        run(script, stop_on_error).watchers <= 1,
        run(script, stop_on_error).slot is None ==> run(script, stop_on_error).watchers == 0,
        !stop_on_error ==> (run(script, stop_on_error).slot is Some <==> run(
            script,
            stop_on_error,
        ).watchers == 1),
{
    lemma_run_consistent(script, stop_on_error);
}

/// Two start requests in a row, after any script, leave the monitor running
/// with at most one watcher thread, whatever came of making the second
/// watcher; with a worker that goes on watching after an error, with exactly
/// one.
pub proof fn lemma_start_twice_runs_one_watcher<H>(
    script: Seq<Step<H>>,
    stop_on_error: bool,
    first: H,
    second: Result<H, Seq<char>>,
)
    ensures
        run(script.push(Step::Start(Ok(first))), stop_on_error).slot is Some,
        run(script.push(Step::Start(Ok(first))).push(Step::Start(second)), stop_on_error)
            == run(script.push(Step::Start(Ok(first))), stop_on_error),
        run(
            script.push(Step::Start(Ok(first))).push(Step::Start(second)),
            stop_on_error,
        ).watchers <= 1,
        !stop_on_error ==> run(
            script.push(Step::Start(Ok(first))).push(Step::Start(second)),
            stop_on_error,
        ).watchers == 1,
{
    let once = script.push(Step::Start(Ok(first)));
    let twice = once.push(Step::Start(second));
    assert(once.drop_last() =~= script);
    assert(twice.drop_last() =~= once);
    lemma_run_consistent(once, stop_on_error);
    let before = run(script, stop_on_error);
    let middle = run(once, stop_on_error);
    assert(middle == step(before, Step::Start(Ok(first)), stop_on_error));
    assert(middle.slot is Some) by {
        if before.slot is None {
            let moved = World { slot: Some(first), watchers: before.watchers, log: before.log };
            lemma_perform_pair(moved, Effect::EmitStatus(true), Effect::Spawn);
        } else {
            lemma_perform_none(before);
        }
    }
    lemma_perform_none(middle);
    assert(run(twice, stop_on_error) == step(middle, Step::Start(second), stop_on_error));
}

/// A start request that fails leaves everything as it was: the monitor stays
/// stopped, no watcher comes alive and nobody observes anything.
pub proof fn lemma_failed_start_is_invisible<H>(
    script: Seq<Step<H>>,
    stop_on_error: bool,
    description: Seq<char>,
)
    ensures
        run(script.push(Step::Start(Err(description))), stop_on_error) == run(
            script,
            stop_on_error,
        ),
{
    let failed = script.push(Step::<H>::Start(Err(description)));
    assert(failed.drop_last() =~= script);
    lemma_perform_none(run(script, stop_on_error));
}

/// Two stop requests in a row, after any script, leave the monitor stopped
/// with no watcher thread, and the second one signals nobody: it adds the
/// status event to the log and nothing else.
pub proof fn lemma_stop_twice_is_stopped<H>(script: Seq<Step<H>>, stop_on_error: bool)
    ensures
        run(script.push(Step::Stop).push(Step::Stop), stop_on_error).slot is None,
        run(script.push(Step::Stop).push(Step::Stop), stop_on_error).watchers == 0,
        run(script.push(Step::Stop).push(Step::Stop), stop_on_error).log == run(
            script.push(Step::Stop),
            stop_on_error,
        ).log.push(Observation::Host(EventView::Status(false))),
{
    let once = script.push(Step::<H>::Stop);
    let twice = once.push(Step::<H>::Stop);
    assert(once.drop_last() =~= script);
    assert(twice.drop_last() =~= once);
    lemma_run_consistent(once, stop_on_error);
    lemma_run_consistent(twice, stop_on_error);
    let before = run(script, stop_on_error);
    let middle = run(once, stop_on_error);
    assert(middle == step(before, Step::<H>::Stop, stop_on_error));
    assert(middle.slot is None) by {
        let moved = World { slot: None::<H>, watchers: before.watchers, log: before.log };
        match before.slot {
            Some(handle) => {
                lemma_perform_pair(moved, Effect::EmitStatus(false), Effect::Shutdown(handle));
            },
            None => {
                lemma_perform_single(moved, Effect::EmitStatus(false));
            },
        }
    }
    let moved = World { slot: None::<H>, watchers: middle.watchers, log: middle.log };
    lemma_perform_single(moved, Effect::EmitStatus(false));
    assert(run(twice, stop_on_error) == step(middle, Step::<H>::Stop, stop_on_error));
}

/// Every update that the host receives comes after a status event that told
/// it the monitor runs.
pub proof fn lemma_update_follows_started<H>(script: Seq<Step<H>>, stop_on_error: bool, i: int)
    requires
        0 <= i < run(script, stop_on_error).log.len(),
        run(script, stop_on_error).log[i] == Observation::Host(EventView::Update),
    ensures
        announced_before(run(script, stop_on_error).log, i),
{
    lemma_run_consistent(script, stop_on_error);
}

/// Every shutdown signal is dispatched directly after the host was told that
/// the monitor is stopped.
pub proof fn lemma_shutdown_follows_stopped<H>(script: Seq<Step<H>>, stop_on_error: bool, i: int)
    requires
        0 <= i < run(script, stop_on_error).log.len(),
        run(script, stop_on_error).log[i] == Observation::ShutdownSignal,
    ensures
        i > 0,
        run(script, stop_on_error).log[i - 1] == Observation::Host(EventView::Status(false)),
{
    lemma_run_consistent(script, stop_on_error);
}

/// While the monitor is stopped a change of the clipboard reaches nobody: the
/// host receives no update.
pub proof fn lemma_no_update_while_stopped<H>(script: Seq<Step<H>>, stop_on_error: bool)
    requires
        run(script, stop_on_error).slot is None,
    ensures
        run(script.push(Step::Change), stop_on_error) == run(script, stop_on_error),
{
    lemma_run_consistent(script, stop_on_error);
    assert(script.push(Step::<H>::Change).drop_last() =~= script);
}

/// A native error is reported once, with its description, and leaves the
/// stored handle alone: the monitor still counts as running.
pub proof fn lemma_fault_is_reported<H>(
    script: Seq<Step<H>>,
    stop_on_error: bool,
    description: Seq<char>,
)
    requires
        run(script, stop_on_error).watchers > 0,
    ensures
        run(script.push(Step::Fault(description)), stop_on_error).slot == run(
            script,
            stop_on_error,
        ).slot,
        run(script.push(Step::Fault(description)), stop_on_error).slot is Some,
        run(script.push(Step::Fault(description)), stop_on_error).log == run(
            script,
            stop_on_error,
        ).log.push(Observation::Host(EventView::Error(description))),
{
    lemma_run_consistent(script, stop_on_error);
    assert(script.push(Step::<H>::Fault(description)).drop_last() =~= script);
}

} // verus!
