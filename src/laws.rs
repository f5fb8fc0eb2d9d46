use vstd::prelude::*;

use crate::coordinator::{
    apply, consistent, initial, outcome, reap, receive, receive_action, run, CoordinatorView, Phase,
    Step, SIGNAL_WATCHERS,
};
use crate::event::Event;
use crate::exit_status::ExitStatus;
use crate::signal::UnixSignal;

verus! {

/// Whether an input is the completion of a task that reported a fatal error.
pub open spec fn reports_fatal<E, U>(st: Step<E, U>) -> bool {
    st matches Step::Receive(Event::FutureCompleted { exit_status: ExitStatus::FatalError(_), .. })
}

/// Whether an input is a unit that the executor failed to join while draining.
pub open spec fn join_fails<E, U>(st: Step<E, U>) -> bool {
    st matches Step::Drained(Err(_))
}

/// Every input keeps the coordinator's invariant.
pub proof fn lemma_apply_consistent<E, U>(s: CoordinatorView<E>, st: Step<E, U>)
    requires
        consistent(s),
    ensures
        consistent(apply(s, st)),
{
}

/// Every sequence of inputs keeps the coordinator's invariant.
pub proof fn lemma_run_consistent<E, U>(s: CoordinatorView<E>, steps: Seq<Step<E, U>>)
    requires
        consistent(s),
    ensures
        consistent(run(s, steps)),
    decreases steps.len(),
{
    if steps.len() > 0 {
        lemma_apply_consistent(s, steps[0]);
        lemma_run_consistent(apply(s, steps[0]), steps.drop_first());
    }
}

/// Once a fatal error is on record, no later input replaces it: the first
/// one processed is the one returned.
pub proof fn lemma_first_fatal_wins<E, U>(s: CoordinatorView<E>, steps: Seq<Step<E, U>>)
    requires
        s.fatal is Some,
    ensures
        run(s, steps).fatal == s.fatal,
    decreases steps.len(),
{
    if steps.len() > 0 {
        lemma_first_fatal_wins(apply(s, steps[0]), steps.drop_first());
    }
}

/// Once draining, the coordinator stays draining and never holds a shutdown
/// producer again: a resolved token is never re-armed.
pub proof fn lemma_draining_is_final<E, U>(s: CoordinatorView<E>, steps: Seq<Step<E, U>>)
    requires
        consistent(s),
        s.phase == Phase::Draining,
    ensures
        run(s, steps).phase == Phase::Draining,
        run(s, steps).held.len() == 0,
        run(s, steps).fatal == s.fatal,
        (forall|i: int| 0 <= i < steps.len() ==> !join_fails(#[trigger] steps[i]))
            ==> run(s, steps).join_failure == s.join_failure,
    decreases steps.len(),
{
    if steps.len() > 0 {
        let rest = steps.drop_first();
        lemma_draining_is_final(apply(s, steps[0]), rest);
        if forall|i: int| 0 <= i < steps.len() ==> !join_fails(#[trigger] steps[i]) {
            assert(!join_fails(steps[0]));
            assert forall|i: int| 0 <= i < rest.len() implies !join_fails(#[trigger] rest[i]) by {
                assert(rest[i] == steps[i + 1]);
            }
        }
    }
}

/// Without fatal completions and join failures, nothing is ever recorded.
proof fn lemma_nothing_recorded<E, U>(s: CoordinatorView<E>, steps: Seq<Step<E, U>>)
    requires
        consistent(s),
        s.fatal is None,
        s.join_failure is None,
        !(s.pending matches Some(ExitStatus::FatalError(_))),
        forall|i: int| 0 <= i < steps.len() ==> !reports_fatal(#[trigger] steps[i]),
        forall|i: int| 0 <= i < steps.len() ==> !join_fails(#[trigger] steps[i]),
    ensures
        run(s, steps).fatal is None,
        run(s, steps).join_failure is None,
        !(run(s, steps).pending matches Some(ExitStatus::FatalError(_))),
    decreases steps.len(),
{
    if steps.len() > 0 {
        let rest = steps.drop_first();
        assert(!reports_fatal(steps[0]));
        assert(!join_fails(steps[0]));
        assert forall|i: int| 0 <= i < rest.len() implies !reports_fatal(#[trigger] rest[i])
            && !join_fails(rest[i]) by {
            assert(rest[i] == steps[i + 1]);
        }
        lemma_apply_consistent(s, steps[0]);
        lemma_nothing_recorded(apply(s, steps[0]), rest);
    }
}

/// When no task reports a fatal error and every unit is joined, a
/// coordinator that started fresh ends with success.
pub proof fn lemma_success_without_fatal<E, U>(steps: Seq<Step<E, U>>)
    requires
        forall|i: int| 0 <= i < steps.len() ==> !reports_fatal(#[trigger] steps[i]),
        forall|i: int| 0 <= i < steps.len() ==> !join_fails(#[trigger] steps[i]),
    ensures
        outcome(run(initial::<E>(), steps)) == Ok::<Result<(), E>, crate::error::Error>(Ok(())),
{
    lemma_nothing_recorded(initial::<E>(), steps);
}

/// Once the last caller task ends without a fatal error, the coordinator
/// starts draining: only the signal watchers were left.
pub proof fn lemma_last_task_ends_serving<E>(s: CoordinatorView<E>)
    requires
        consistent(s),
        s.phase == Phase::Reaping,
        !(s.pending matches Some(ExitStatus::FatalError(_))),
        s.live <= SIGNAL_WATCHERS + 1,
    ensures
        reap(s, true).phase == Phase::Draining,
        reap(s, true).held.len() == 0,
        reap(s, true).fatal is None,
{
}

/// A fatal error ends the running phase at once once its unit is reaped:
/// every shutdown producer is discarded, and whatever follows, the error is
/// what is returned unless a unit fails to join.
pub proof fn lemma_fatal_error_shuts_down<E, U>(
    s: CoordinatorView<E>,
    e: E,
    steps: Seq<Step<E, U>>,
)
    requires
        consistent(s),
        s.phase == Phase::Reaping,
        s.pending == Some(ExitStatus::FatalError(e)),
    ensures
        reap(s, true).phase == Phase::Draining,
        reap(s, true).held.len() == 0,
        reap(s, true).fatal == Some(e),
        run(reap(s, true), steps).held.len() == 0,
        run(reap(s, true), steps).fatal == Some(e),
        (forall|i: int| 0 <= i < steps.len() ==> !join_fails(#[trigger] steps[i]))
            ==> outcome(run(reap(s, true), steps)) == Ok::<Result<(), E>, crate::error::Error>(Err(e)),
{
    let t = reap(s, true);
    assert(consistent(t));
    lemma_draining_is_final(t, steps);
}

/// A shutdown request while running discards every shutdown producer and
/// stops the event loop, whether or not any task has completed; unless a
/// unit fails to join, the result is success.
pub proof fn lemma_shutdown_stops_everything<E, U>(s: CoordinatorView<E>, steps: Seq<Step<E, U>>)
    requires
        consistent(s),
        s.phase == Phase::Running,
    ensures
        receive_action(Event::<E, U>::Shutdown) is Drain,
        receive(s, Event::<E, U>::Shutdown).held.len() == 0,
        receive(s, Event::<E, U>::Shutdown).live == s.live,
        run(receive(s, Event::<E, U>::Shutdown), steps).phase == Phase::Draining,
        run(receive(s, Event::<E, U>::Shutdown), steps).held.len() == 0,
        (forall|i: int| 0 <= i < steps.len() ==> !join_fails(#[trigger] steps[i]))
            ==> outcome(run(receive(s, Event::<E, U>::Shutdown), steps))
                == Ok::<Result<(), E>, crate::error::Error>(Ok(())),
{
    lemma_draining_is_final(receive(s, Event::<E, U>::Shutdown), steps);
}

/// An operating-system signal has exactly the effect of a shutdown request.
pub proof fn lemma_signal_is_shutdown<E, U>(s: CoordinatorView<E>, sig: UnixSignal)
    ensures
        receive(s, Event::<E, U>::Signal(sig)) == receive(s, Event::<E, U>::Shutdown),
        receive_action(Event::<E, U>::Signal(sig)) == receive_action(Event::<E, U>::Shutdown),
{
}

/// When no task reports a fatal error and every unit is joined, the
/// success of the last caller task (only the signal watchers' units are left
/// beside it) ends the event loop, and the coordinator returns success.
pub proof fn lemma_all_success_serves_ok<E, U>(steps: Seq<Step<E, U>>, rest: Seq<Step<E, U>>)
    requires
        forall|i: int| 0 <= i < steps.len() ==> !reports_fatal(#[trigger] steps[i]),
        forall|i: int| 0 <= i < steps.len() ==> !join_fails(#[trigger] steps[i]),
        forall|i: int| 0 <= i < rest.len() ==> !join_fails(#[trigger] rest[i]),
        run(initial::<E>(), steps).phase == Phase::Reaping,
        run(initial::<E>(), steps).live <= SIGNAL_WATCHERS + 1,
    ensures
        reap(run(initial::<E>(), steps), true).phase == Phase::Draining,
        outcome(run(reap(run(initial::<E>(), steps), true), rest))
            == Ok::<Result<(), E>, crate::error::Error>(Ok(())),
{
    let s = run(initial::<E>(), steps);
    lemma_run_consistent(initial::<E>(), steps);
    lemma_nothing_recorded(initial::<E>(), steps);
    let t = reap(s, true);
    assert(consistent(t));
    lemma_draining_is_final(t, rest);
}

/// A task registered while the loop runs, say from inside another task, is
/// tracked like one registered before: it counts as live, its shutdown
/// producer is held, and every later shutdown decision discards it.
pub proof fn lemma_spawn_while_running_is_tracked<E, U>(
    s: CoordinatorView<E>,
    e: Event<E, U>,
    steps: Seq<Step<E, U>>,
)
    requires
        consistent(s),
        s.phase == Phase::Running,
        e is NewFuture,
    ensures
        receive(s, e).phase == Phase::Running,
        receive(s, e).live == s.live + 1,
        receive(s, e).held == s.held.push(e->NewFuture_name@),
        run(receive(s, e), steps).phase == Phase::Draining ==> run(receive(s, e), steps).held.len() == 0,
{
    lemma_apply_consistent(s, Step::Receive(e));
    lemma_run_consistent(receive(s, e), steps);
}

} // verus!
