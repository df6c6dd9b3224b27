//! What a whole execution amounts to.
//!
//! The engine decides one step at a time. This module says, in spec
//! functions, what comes of driving it from [`Event::Begin`] to the end when
//! the hooks behave in a given way: which hooks are invoked, how often, in
//! which order, and with which result. The statements proved of it are in
//! [`laws`](crate::laws).

use vstd::prelude::*;
use crate::command::ExecutionResult;
use crate::engine::{Action, CheckStep, Event, check_step, engine_step};

verus! {

/// How the hooks of a command behave in one invocation: what each of them
/// returns if it is invoked.
pub struct Hooks<T, E> {
    /// The verdict of each check, by its position among the checks.
    pub verdicts: Seq<Result<bool, E>>,
    /// The output of the entry point.
    pub output: Result<T, E>,
}

/// What one execution did, as far as it can be seen from outside.
pub struct Trace<T, E> {
    /// The positions of the checks invoked, in the order of their invocation.
    pub checks: Seq<usize>,
    /// How often the entry point was invoked.
    pub entry_point_calls: nat,
    /// The failures that the error handler was invoked with, in order.
    pub handled: Seq<E>,
    /// The result that the caller of the execution gets.
    pub result: ExecutionResult<T, E>,
}

/// What one pass over the checks did.
pub struct CheckTrace<E> {
    /// The positions of the checks invoked, in the order of their invocation.
    pub checks: Seq<usize>,
    /// The verdict of the checks taken together.
    pub verdict: Result<bool, E>,
}

/// The positions from `from` up to, and without, `to`, in rising order.
pub open spec fn positions(from: int, to: int) -> Seq<usize> {
    Seq::new((to - from) as nat, |i: int| (from + i) as usize)
}

/// Every check before position `upto` returns `true`.
pub open spec fn all_pass<E>(verdicts: Seq<Result<bool, E>>, upto: int) -> bool {
    forall|i: int| 0 <= i < upto ==> (#[trigger] verdicts[i]) == Ok::<bool, E>(true)
}

/// The check at position `at` is the first that does not return `true`.
pub open spec fn stops_at<E>(verdicts: Seq<Result<bool, E>>, at: int) -> bool {
    &&& 0 <= at < verdicts.len()
    &&& all_pass(verdicts, at)
    &&& verdicts[at] != Ok::<bool, E>(true)
}

/// The event that the driver reports once it has performed `action`, one of
/// the two actions that ask for a report.
pub open spec fn reported<T, E>(hooks: Hooks<T, E>, action: Action<T, E>) -> Event<T, E>
    recommends
        action is RunCheck || action is RunEntryPoint,
{
    match action {
        Action::RunCheck(at) => Event::CheckReturned(at, hooks.verdicts[at as int]),
        _ => Event::EntryPointReturned(hooks.output),
    }
}

/// A bound on the number of actions that follow `action` in an execution.
pub open spec fn actions_left<T, E>(checks: usize, action: Action<T, E>) -> nat {
    match action {
        Action::RunCheck(at) => if at < checks {
            (checks - at + 1) as nat
        } else {
            2
        },
        Action::RunEntryPoint => 1,
        _ => 0,
    }
}

/// The trace of the execution that has invoked the checks at `invoked` and
/// the entry point `calls` times, and whose driver was just given `action`.
///
/// The driver performs each action and reports what the hook returned; the
/// engine answers with the next action. The two actions that carry a result
/// end the execution, the first of them after one call of the error handler.
pub open spec fn run_from<T, E>(
    checks: usize,
    handler: bool,
    hooks: Hooks<T, E>,
    action: Action<T, E>,
    invoked: Seq<usize>,
    calls: nat,
) -> Trace<T, E>
    decreases actions_left(checks, action),
{
    match action {
        Action::RunCheck(at) => run_from(
            checks,
            handler,
            hooks,
            engine_step(checks, handler, reported(hooks, action)),
            invoked.push(at),
            calls,
        ),
        Action::RunEntryPoint => run_from(
            checks,
            handler,
            hooks,
            engine_step(checks, handler, reported(hooks, action)),
            invoked,
            calls + 1,
        ),
        Action::RunErrorHandler(why, result) => Trace {
            checks: invoked,
            entry_point_calls: calls,
            handled: seq![why],
            result,
        },
        Action::Finish(result) => Trace {
            checks: invoked,
            entry_point_calls: calls,
            handled: Seq::empty(),
            result,
        },
    }
}

/// The trace of one execution of a command with `checks` checks, and with an
/// error handler if `handler` holds, whose hooks behave as `hooks` says.
pub open spec fn run<T, E>(checks: usize, handler: bool, hooks: Hooks<T, E>) -> Trace<T, E> {
    run_from(
        checks,
        handler,
        hooks,
        engine_step(checks, handler, Event::Begin),
        Seq::empty(),
        0,
    )
}

/// A bound on the number of steps that follow `step` in a pass over the checks.
pub open spec fn checks_left<E>(checks: usize, step: CheckStep<E>) -> nat {
    match step {
        CheckStep::Invoke(at) => if at < checks {
            (checks - at) as nat
        } else {
            1
        },
        CheckStep::Settled(_) => 0,
    }
}

/// The trace of the pass over the checks that has invoked the checks at
/// `invoked` and whose driver was just given `step`.
pub open spec fn check_run_from<E>(
    checks: usize,
    verdicts: Seq<Result<bool, E>>,
    step: CheckStep<E>,
    invoked: Seq<usize>,
) -> CheckTrace<E>
    decreases checks_left(checks, step),
{
    match step {
        CheckStep::Invoke(at) => check_run_from(
            checks,
            verdicts,
            check_step(checks, Some((at, verdicts[at as int]))),
            invoked.push(at),
        ),
        CheckStep::Settled(verdict) => CheckTrace { checks: invoked, verdict },
    }
}

/// The trace of one pass over the `checks` checks of a command that return
/// `verdicts`.
pub open spec fn check_run<E>(checks: usize, verdicts: Seq<Result<bool, E>>) -> CheckTrace<E> {
    check_run_from(checks, verdicts, check_step(checks, None), Seq::empty())
}

} // verus!
