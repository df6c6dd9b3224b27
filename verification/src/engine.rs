//! The protocol between the execution engine and the code that drives it.
//!
//! The engine never calls a hook. It hands out an [`Action`], the driver
//! performs it and reports what came of it as an [`Event`], and the engine
//! answers with the next action, until an action ends the execution. The
//! engine keeps nothing between two steps: an event names the check that
//! returned, and that is all the engine needs to know of what went before.
//!
//! The spec functions of this module say which action answers which event;
//! the executable functions on [`Command`](crate::command::Command) compute
//! them.

use vstd::prelude::*;
use crate::command::{ExecutionResult, ExecutionState, OutputLocation};

verus! {

/// Where a pass over the checks of a command stands.
#[derive(Debug, PartialEq, Eq)]
pub enum CheckStep<E> {
    /// The check at this position has to be invoked next.
    Invoke(usize),
    /// No further check is to be invoked: this is the verdict of the checks
    /// taken together.
    Settled(Result<bool, E>),
}

/// What the driver of an execution reports to the engine.
#[derive(Debug, PartialEq, Eq)]
pub enum Event<T, E> {
    /// An execution was asked for and nothing has been invoked yet.
    Begin,
    /// The check at the given position was invoked and returned this verdict.
    CheckReturned(usize, Result<bool, E>),
    /// The entry point was invoked and returned this output.
    EntryPointReturned(Result<T, E>),
}

/// What the engine asks the driver of an execution to do.
#[derive(Debug, PartialEq, Eq)]
pub enum Action<T, E> {
    /// Invoke the check at this position and report its verdict.
    RunCheck(usize),
    /// Invoke the entry point and report its output.
    RunEntryPoint,
    /// Invoke the error handler with this failure. Whatever it returns, the
    /// execution then ends with the result given here.
    RunErrorHandler(E, ExecutionResult<T, E>),
    /// Invoke nothing more: the execution ends with this result.
    Finish(ExecutionResult<T, E>),
}

/// The step that follows once every check before position `from` has
/// returned `true`: the check at `from` if there is one, and else the
/// verdict that all checks passed.
pub open spec fn check_from<E>(checks: usize, from: int) -> CheckStep<E> {
    if 0 <= from < checks {
        CheckStep::Invoke(from as usize)
    } else {
        CheckStep::Settled(Ok(true))
    }
}

/// The step of a pass over `checks` checks that follows `last`, the
/// position and verdict of the check invoked last, or `None` at the start.
///
/// A check that fails or returns `false` settles the pass with its own
/// verdict, whatever checks come after it.
pub open spec fn check_step<E>(checks: usize, last: Option<(usize, Result<bool, E>)>) -> CheckStep<E> {
    match last {
        None => check_from(checks, 0),
        Some((at, Ok(true))) => check_from(checks, at + 1),
        Some((_, verdict)) => CheckStep::Settled(verdict),
    }
}

/// How a failure leaves the engine. With an error handler the failure goes
/// to the handler and the result only records that; without one the failure
/// is the output that the caller gets.
pub open spec fn surfaced<T, E>(handler: bool, state: ExecutionState, why: E) -> Action<T, E> {
    if handler {
        Action::RunErrorHandler(
            why,
            ExecutionResult { state, output: OutputLocation::TakenByErrorHandlerHook },
        )
    } else {
        Action::Finish(ExecutionResult { state, output: OutputLocation::Present(Err(why)) })
    }
}

/// The action that a step of the pass over the checks calls for.
pub open spec fn guarded<T, E>(handler: bool, step: CheckStep<E>) -> Action<T, E> {
    match step {
        CheckStep::Invoke(at) => Action::RunCheck(at),
        CheckStep::Settled(Ok(true)) => Action::RunEntryPoint,
        CheckStep::Settled(Ok(false)) => Action::Finish(
            ExecutionResult {
                state: ExecutionState::CheckFailed,
                output: OutputLocation::NotExecuted,
            },
        ),
        CheckStep::Settled(Err(why)) => surfaced(handler, ExecutionState::CheckErrored, why),
    }
}

/// The action with which the engine of a command with `checks` checks, and
/// with an error handler if `handler` holds, answers `event`.
pub open spec fn engine_step<T, E>(checks: usize, handler: bool, event: Event<T, E>) -> Action<T, E> {
    match event {
        Event::Begin => guarded(handler, check_step(checks, None)),
        Event::CheckReturned(at, verdict) => guarded(
            handler,
            check_step(checks, Some((at, verdict))),
        ),
        Event::EntryPointReturned(Ok(value)) => Action::Finish(
            ExecutionResult {
                state: ExecutionState::CommandFinished,
                output: OutputLocation::Present(Ok(value)),
            },
        ),
        Event::EntryPointReturned(Err(why)) => surfaced(
            handler,
            ExecutionState::CommandErrored,
            why,
        ),
    }
}

} // verus!
