//! What holds of every execution, proved from the engine's step function.
//!
//! Each statement is about [`run`] or [`check_run`]: an execution, or a pass
//! over the checks, driven to its end against hooks that behave in a given
//! way. The number of checks and the presence of an error handler are all
//! that an execution reads of a command, so they stand for the command.

use vstd::prelude::*;
use crate::command::{ExecutionResult, ExecutionState, OutputLocation};
use crate::engine::{Action, CheckStep, Event, engine_step};
use crate::run::{
    CheckTrace, Hooks, Trace, all_pass, check_run, check_run_from, positions, run, run_from,
    stops_at,
};

verus! {

/// From the check at `at` on, an execution whose remaining checks all pass
/// invokes each of them in turn and then comes to the entry point.
proof fn lemma_run_passes<T, E>(
    checks: usize,
    handler: bool,
    hooks: Hooks<T, E>,
    at: int,
    invoked: Seq<usize>,
    calls: nat,
)
    requires
        0 <= at < checks,
        forall|i: int| at <= i < checks ==> (#[trigger] hooks.verdicts[i]) == Ok::<bool, E>(true),
    ensures
        run_from(checks, handler, hooks, Action::RunCheck(at as usize), invoked, calls)
            == run_from(
            checks,
            handler,
            hooks,
            Action::RunEntryPoint,
            invoked + positions(at, checks as int),
            calls,
        ),
    decreases checks - at,
{
    assert(hooks.verdicts[at] == Ok::<bool, E>(true));
    if at + 1 < checks {
        lemma_run_passes(checks, handler, hooks, at + 1, invoked.push(at as usize), calls);
        assert(invoked.push(at as usize) + positions(at + 1, checks as int) =~= invoked
            + positions(at, checks as int));
    } else {
        assert(invoked.push(at as usize) =~= invoked + positions(at, checks as int));
    }
}

/// From the check at `at` on, an execution whose checks pass up to the one
/// at `stop` invokes them in turn up to that one, and the engine then
/// answers the verdict of that one.
proof fn lemma_run_stops<T, E>(
    checks: usize,
    handler: bool,
    hooks: Hooks<T, E>,
    at: int,
    stop: int,
    invoked: Seq<usize>,
    calls: nat,
)
    requires
        0 <= at <= stop < checks,
        forall|i: int| at <= i < stop ==> (#[trigger] hooks.verdicts[i]) == Ok::<bool, E>(true),
    ensures
        run_from(checks, handler, hooks, Action::RunCheck(at as usize), invoked, calls)
            == run_from(
            checks,
            handler,
            hooks,
            engine_step(
                checks,
                handler,
                Event::CheckReturned(stop as usize, hooks.verdicts[stop]),
            ),
            invoked + positions(at, stop + 1),
            calls,
        ),
    decreases stop - at,
{
    if at < stop {
        assert(hooks.verdicts[at] == Ok::<bool, E>(true));
        lemma_run_stops(checks, handler, hooks, at + 1, stop, invoked.push(at as usize), calls);
        assert(invoked.push(at as usize) + positions(at + 1, stop + 1) =~= invoked + positions(
            at,
            stop + 1,
        ));
    } else {
        assert(invoked.push(at as usize) =~= invoked + positions(at, stop + 1));
    }
}

/// The same as `lemma_run_passes`, of a pass over the checks alone.
proof fn lemma_check_run_passes<E>(
    checks: usize,
    verdicts: Seq<Result<bool, E>>,
    at: int,
    invoked: Seq<usize>,
)
    requires
        0 <= at < checks,
        forall|i: int| at <= i < checks ==> (#[trigger] verdicts[i]) == Ok::<bool, E>(true),
    ensures
        check_run_from(checks, verdicts, CheckStep::Invoke(at as usize), invoked) == (CheckTrace {
            checks: invoked + positions(at, checks as int),
            verdict: Ok::<bool, E>(true),
        }),
    decreases checks - at,
{
    assert(verdicts[at] == Ok::<bool, E>(true));
    if at + 1 < checks {
        lemma_check_run_passes(checks, verdicts, at + 1, invoked.push(at as usize));
        assert(invoked.push(at as usize) + positions(at + 1, checks as int) =~= invoked
            + positions(at, checks as int));
    } else {
        assert(invoked.push(at as usize) =~= invoked + positions(at, checks as int));
        reveal_with_fuel(check_run_from, 2);
    }
}

/// The same as `lemma_run_stops`, of a pass over the checks alone.
proof fn lemma_check_run_stops<E>(
    checks: usize,
    verdicts: Seq<Result<bool, E>>,
    at: int,
    stop: int,
    invoked: Seq<usize>,
)
    requires
        0 <= at <= stop < checks,
        forall|i: int| at <= i < stop ==> (#[trigger] verdicts[i]) == Ok::<bool, E>(true),
        verdicts[stop] != Ok::<bool, E>(true),
    ensures
        check_run_from(checks, verdicts, CheckStep::Invoke(at as usize), invoked) == (CheckTrace {
            checks: invoked + positions(at, stop + 1),
            verdict: verdicts[stop],
        }),
    decreases stop - at,
{
    if at < stop {
            assert(verdicts[at] == Ok::<bool, E>(true));
        lemma_check_run_stops(checks, verdicts, at + 1, stop, invoked.push(at as usize));
        assert(invoked.push(at as usize) + positions(at + 1, stop + 1) =~= invoked + positions(
            at,
            stop + 1,
        ));
    } else {
        assert(invoked.push(at as usize) =~= invoked + positions(at, stop + 1));
        reveal_with_fuel(check_run_from, 2);
    }
}

/// Finds the first of the checks before `upto` that does not return `true`,
/// and gives `upto` if they all do.
proof fn lemma_first_stop<E>(verdicts: Seq<Result<bool, E>>, upto: int) -> (at: int)
    requires
        0 <= upto <= verdicts.len(),
    ensures
        0 <= at <= upto,
        at == upto ==> all_pass(verdicts, upto),
        at < upto ==> stops_at(verdicts, at),
    decreases upto,
{
    if upto == 0 {
        0
    } else {
        let at = lemma_first_stop(verdicts, upto - 1);
        if at < upto - 1 {
            at
        } else if verdicts[upto - 1] == Ok::<bool, E>(true) {
            upto
        } else {
            upto - 1
        }
    }
}

/// When every check returns `true`, the execution invokes all the checks in
/// the order of their declaration, then the entry point, once. A success is
/// the output that the caller gets, with or without an error handler. A
/// failure goes to the error handler if there is one, and is the output
/// that the caller gets if there is none.
pub proof fn passing_checks_reach_the_entry_point<T, E>(
    checks: usize,
    handler: bool,
    hooks: Hooks<T, E>,
)
    requires
        hooks.verdicts.len() == checks,
        all_pass(hooks.verdicts, checks as int),
    ensures
        run(checks, handler, hooks).checks == positions(0, checks as int),
        run(checks, handler, hooks).entry_point_calls == 1,
        hooks.output matches Ok(value) ==> run(checks, handler, hooks) == (Trace::<T, E> {
            checks: positions(0, checks as int),
            entry_point_calls: 1,
            handled: Seq::<E>::empty(),
            result: ExecutionResult::<T, E> {
                state: ExecutionState::CommandFinished,
                output: OutputLocation::Present(Ok(value)),
            },
        }),
        hooks.output matches Err(why) ==> run(checks, handler, hooks) == (Trace::<T, E> {
            checks: positions(0, checks as int),
            entry_point_calls: 1,
            handled: if handler {
                seq![why]
            } else {
                Seq::<E>::empty()
            },
            result: ExecutionResult::<T, E> {
                state: ExecutionState::CommandErrored,
                output: if handler {
                    OutputLocation::TakenByErrorHandlerHook
                } else {
                    OutputLocation::Present(Err(why))
                },
            },
        }),
{
    reveal_with_fuel(run_from, 3);
    if checks > 0 {
        lemma_run_passes(checks, handler, hooks, 0, Seq::empty(), 0);
        assert(Seq::<usize>::empty() + positions(0, checks as int) =~= positions(0, checks as int));
    } else {
        assert(Seq::<usize>::empty() =~= positions(0, checks as int));
    }
}

/// When the check at `stop` is the first that does not return `true`, the
/// execution invokes the checks up to that one, in the order of their
/// declaration, and neither a later check nor the entry point. If that
/// check returned `false`, the command counts as not executed and the error
/// handler is not invoked. If it failed, the failure goes to the error
/// handler if there is one, and is the output that the caller gets if there
/// is none.
pub proof fn first_stopping_check_decides<T, E>(
    checks: usize,
    handler: bool,
    hooks: Hooks<T, E>,
    stop: int,
)
    requires
        hooks.verdicts.len() == checks,
        stops_at(hooks.verdicts, stop),
    ensures
        run(checks, handler, hooks).checks == positions(0, stop + 1),
        run(checks, handler, hooks).entry_point_calls == 0,
        hooks.verdicts[stop] matches Ok(_) ==> run(checks, handler, hooks) == (Trace::<T, E> {
            checks: positions(0, stop + 1),
            entry_point_calls: 0,
            handled: Seq::<E>::empty(),
            result: ExecutionResult::<T, E> {
                state: ExecutionState::CheckFailed,
                output: OutputLocation::NotExecuted,
            },
        }),
        hooks.verdicts[stop] matches Err(why) ==> run(checks, handler, hooks) == (Trace::<T, E> {
            checks: positions(0, stop + 1),
            entry_point_calls: 0,
            handled: if handler {
                seq![why]
            } else {
                Seq::<E>::empty()
            },
            result: ExecutionResult::<T, E> {
                state: ExecutionState::CheckErrored,
                output: if handler {
                    OutputLocation::TakenByErrorHandlerHook
                } else {
                    OutputLocation::Present(Err(why))
                },
            },
        }),
{
    reveal_with_fuel(run_from, 2);
    lemma_run_stops(checks, handler, hooks, 0, stop, Seq::empty(), 0);
    assert(Seq::<usize>::empty() + positions(0, stop + 1) =~= positions(0, stop + 1));
}

/// A command without checks has its entry point invoked exactly once by
/// every execution, and nothing before it.
pub proof fn empty_check_list_runs_the_entry_point_once<T, E>(handler: bool, hooks: Hooks<T, E>)
    requires
        hooks.verdicts.len() == 0,
    ensures
        run(0, handler, hooks).entry_point_calls == 1,
        run(0, handler, hooks).checks.len() == 0,
{
    passing_checks_reach_the_entry_point(0, handler, hooks);
}

/// The checks short-circuit: when the check at `stop` is the first to return
/// `false` or to fail, the checks up to it are invoked, each once and in the
/// order of their declaration, and no check after it is ever invoked. This
/// holds of an execution and of a pass over the checks alone.
pub proof fn checks_short_circuit<T, E>(checks: usize, handler: bool, hooks: Hooks<T, E>, stop: int)
    requires
        hooks.verdicts.len() == checks,
        stops_at(hooks.verdicts, stop),
    ensures
        run(checks, handler, hooks).checks == positions(0, stop + 1),
        check_run(checks, hooks.verdicts).checks == positions(0, stop + 1),
        forall|later: usize|
            stop < later ==> !(#[trigger] run(checks, handler, hooks).checks.contains(later)),
        forall|later: usize|
            stop < later ==> !(#[trigger] check_run(checks, hooks.verdicts).checks.contains(later)),
{
    first_stopping_check_decides(checks, handler, hooks, stop);
    first_stopping_check_settles(checks, hooks.verdicts, stop);
    let invoked = positions(0, stop + 1);
    assert forall|later: usize| stop < later implies !(#[trigger] invoked.contains(later)) by {
        if invoked.contains(later) {
            let i = choose|i: int| 0 <= i < invoked.len() && invoked[i] == later;
            assert(invoked[i] == i as usize);
        }
    }
}

/// A failure of a check is consumed exactly once. With an error handler, the
/// handler is invoked once, with that failure, and the output is marked as
/// taken by it. Without one, no handler is invoked and the failure is the
/// output that the caller gets.
pub proof fn check_failure_is_consumed_once<T, E>(
    checks: usize,
    handler: bool,
    hooks: Hooks<T, E>,
    stop: int,
    why: E,
)
    requires
        hooks.verdicts.len() == checks,
        stops_at(hooks.verdicts, stop),
        hooks.verdicts[stop] == Err::<bool, E>(why),
    ensures
        run(checks, handler, hooks).result.state == ExecutionState::CheckErrored,
        handler ==> {
            &&& run(checks, handler, hooks).handled == seq![why]
            &&& run(checks, handler, hooks).result.output
                == OutputLocation::<T, E>::TakenByErrorHandlerHook
        },
        !handler ==> {
            &&& run(checks, handler, hooks).handled.len() == 0
            &&& run(checks, handler, hooks).result.output == OutputLocation::<T, E>::Present(
                Err(why),
            )
        },
{
    first_stopping_check_decides(checks, handler, hooks, stop);
}

/// A check that returns `false` is no error: the command counts as not
/// executed, and neither the entry point nor the error handler is invoked.
pub proof fn rejection_is_not_an_error<T, E>(
    checks: usize,
    handler: bool,
    hooks: Hooks<T, E>,
    stop: int,
)
    requires
        hooks.verdicts.len() == checks,
        stops_at(hooks.verdicts, stop),
        hooks.verdicts[stop] == Ok::<bool, E>(false),
    ensures
        run(checks, handler, hooks).result == (ExecutionResult::<T, E> {
            state: ExecutionState::CheckFailed,
            output: OutputLocation::NotExecuted,
        }),
        run(checks, handler, hooks).entry_point_calls == 0,
        run(checks, handler, hooks).handled.len() == 0,
{
    first_stopping_check_decides(checks, handler, hooks, stop);
}

/// A success of the entry point is the output that the caller gets, whether
/// or not the command has an error handler, and the handler is not invoked.
pub proof fn success_is_never_handled<T, E>(
    checks: usize,
    handler: bool,
    hooks: Hooks<T, E>,
    value: T,
)
    requires
        hooks.verdicts.len() == checks,
        all_pass(hooks.verdicts, checks as int),
        hooks.output == Ok::<T, E>(value),
    ensures
        run(checks, handler, hooks).result == (ExecutionResult::<T, E> {
            state: ExecutionState::CommandFinished,
            output: OutputLocation::Present(Ok(value)),
        }),
        run(checks, handler, hooks).handled.len() == 0,
{
    passing_checks_reach_the_entry_point(checks, handler, hooks);
}

/// A failure of the entry point is consumed exactly once: either the error
/// handler is invoked with it and the output is marked as taken, or there
/// is no handler and the failure is the output that the caller gets. The
/// first holds with an error handler, the second without one, and never
/// both.
pub proof fn entry_point_failure_is_consumed_once<T, E>(
    checks: usize,
    handler: bool,
    hooks: Hooks<T, E>,
    why: E,
)
    requires
        hooks.verdicts.len() == checks,
        all_pass(hooks.verdicts, checks as int),
        hooks.output == Err::<T, E>(why),
    ensures
        run(checks, handler, hooks).result.state == ExecutionState::CommandErrored,
        ({
            let trace = run(checks, handler, hooks);
            let taken = trace.handled == seq![why] && trace.result.output
                == OutputLocation::<T, E>::TakenByErrorHandlerHook;
            let present = trace.handled.len() == 0 && trace.result.output
                == OutputLocation::<T, E>::Present(Err(why));
            &&& taken != present
            &&& taken == handler
        }),
{
    passing_checks_reach_the_entry_point(checks, handler, hooks);
    let trace = run(checks, handler, hooks);
    if handler {
        assert(trace.handled.len() == 1);
    }
}

/// No execution invokes the entry point more than once, or the error
/// handler more than once.
pub proof fn entry_point_runs_at_most_once<T, E>(checks: usize, handler: bool, hooks: Hooks<T, E>)
    requires
        hooks.verdicts.len() == checks,
    ensures
        run(checks, handler, hooks).entry_point_calls <= 1,
        run(checks, handler, hooks).handled.len() <= 1,
{
    let stop = lemma_first_stop(hooks.verdicts, checks as int);
    if stop < checks {
        first_stopping_check_decides(checks, handler, hooks, stop);
    } else {
        passing_checks_reach_the_entry_point(checks, handler, hooks);
    }
}

/// The state of a result of an execution tells where its output is: the two
/// agree as [`ExecutionResult::consistent`] says. In particular an
/// execution ends as finished exactly if the caller gets a success. The
/// output is marked as taken by the error handler exactly if the handler was
/// invoked, which takes a command that has one. The entry point was invoked
/// exactly if the command finished or failed.
pub proof fn result_is_consistent<T, E>(checks: usize, handler: bool, hooks: Hooks<T, E>)
    requires
        hooks.verdicts.len() == checks,
    ensures
        ({
            let trace = run(checks, handler, hooks);
            let state = trace.result.state;
            let output = trace.result.output;
            &&& trace.result.consistent()
            &&& state == ExecutionState::CommandFinished <==> (output matches OutputLocation::Present(
                Ok(_),
            ))
            &&& output is TakenByErrorHandlerHook <==> trace.handled.len() == 1
            &&& output is TakenByErrorHandlerHook ==> handler
            &&& (state == ExecutionState::CommandFinished || state
                == ExecutionState::CommandErrored) <==> trace.entry_point_calls == 1
        }),
{
    let stop = lemma_first_stop(hooks.verdicts, checks as int);
    if stop < checks {
        first_stopping_check_decides(checks, handler, hooks, stop);
    } else {
        passing_checks_reach_the_entry_point(checks, handler, hooks);
    }
}

/// When every check returns `true`, a pass over the checks invokes them all,
/// in the order of their declaration, and its verdict is `true`.
pub proof fn passing_checks_settle_true<E>(checks: usize, verdicts: Seq<Result<bool, E>>)
    requires
        verdicts.len() == checks,
        all_pass(verdicts, checks as int),
    ensures
        check_run(checks, verdicts) == (CheckTrace {
            checks: positions(0, checks as int),
            verdict: Ok::<bool, E>(true),
        }),
{
    if checks > 0 {
        lemma_check_run_passes(checks, verdicts, 0, Seq::empty());
        assert(Seq::<usize>::empty() + positions(0, checks as int) =~= positions(0, checks as int));
    } else {
        assert(Seq::<usize>::empty() =~= positions(0, checks as int));
    }
}

/// When the check at `stop` is the first that does not return `true`, a pass
/// over the checks invokes the checks up to that one, in the order of their
/// declaration, and its verdict is the verdict of that one: `false`, or the
/// failure.
pub proof fn first_stopping_check_settles<E>(
    checks: usize,
    verdicts: Seq<Result<bool, E>>,
    stop: int,
)
    requires
        verdicts.len() == checks,
        stops_at(verdicts, stop),
    ensures
        check_run(checks, verdicts) == (CheckTrace {
            checks: positions(0, stop + 1),
            verdict: verdicts[stop],
        }),
{
    lemma_check_run_stops(checks, verdicts, 0, stop, Seq::empty());
    assert(Seq::<usize>::empty() + positions(0, stop + 1) =~= positions(0, stop + 1));
}

/// An execution invokes the checks that a pass over the checks alone
/// invokes, in the same order, and goes on to the entry point exactly if
/// the verdict of that pass is `true`.
pub proof fn execution_begins_with_a_pass_over_the_checks<T, E>(
    checks: usize,
    handler: bool,
    hooks: Hooks<T, E>,
)
    requires
        hooks.verdicts.len() == checks,
    ensures
        run(checks, handler, hooks).checks == check_run(checks, hooks.verdicts).checks,
        run(checks, handler, hooks).entry_point_calls == 1 <==> check_run(
            checks,
            hooks.verdicts,
        ).verdict == Ok::<bool, E>(true),
{
    let stop = lemma_first_stop(hooks.verdicts, checks as int);
    if stop < checks {
        first_stopping_check_decides(checks, handler, hooks, stop);
        first_stopping_check_settles(checks, hooks.verdicts, stop);
    } else {
        passing_checks_reach_the_entry_point(checks, handler, hooks);
        passing_checks_settle_true(checks, hooks.verdicts);
    }
}

} // verus!
