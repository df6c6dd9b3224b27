//! Command definitions and the outcome of executing one.

use vstd::prelude::*;
use twilight_model::guild::Permissions;
use crate::engine::{Action, CheckStep, Event, check_from, check_step, engine_step, guarded, surfaced};

verus! {

/// Information about the execution state of a command.
#[non_exhaustive]
#[derive(Clone, Copy, Debug, PartialEq, Eq, Structural)]
pub enum ExecutionState {
    /// A check had an error.
    CheckErrored,
    /// A check returned `false` and the command didn't execute.
    CheckFailed,
    /// The command finished executing without errors.
    CommandFinished,
    /// The command raised an error.
    CommandErrored,
    /// The `before` hook returned `false` and the command didn't execute.
    ///
    /// That hook belongs to the surrounding framework: the engine of this
    /// crate never ends in this state.
    BeforeHookFailed,
}

/// The location of the output of the command.
#[non_exhaustive]
#[derive(Debug, PartialEq, Eq)]
pub enum OutputLocation<T, E> {
    /// The command was not executed, thus there is not any output.
    NotExecuted,
    /// The output has not been taken by any hook.
    Present(Result<T, E>),
    /// The output has been forwarded to the `after` hook.
    TakenByAfterHook,
    /// The output has been taken by the `error_handler` hook.
    TakenByErrorHandlerHook,
}

/// Information about the command execution and its output.
#[derive(Debug, PartialEq, Eq)]
pub struct ExecutionResult<T, E> {
    /// The execution state of the command.
    pub state: ExecutionState,
    /// The output of the command.
    pub output: OutputLocation<T, E>,
}

impl<T, E> ExecutionResult<T, E> {
    /// Whether the state and the output of this result agree, as they do in
    /// every result of the engine: a finished command has left a success to
    /// the caller, a command stopped by a check that returned `false` has
    /// no output, and a failure of a check or of the command is either with
    /// the caller or was taken by the error handler.
    ///
    /// A result in the state [`ExecutionState::BeforeHookFailed`], or with
    /// the output [`OutputLocation::TakenByAfterHook`], comes from the hooks
    /// of the surrounding framework, never from the engine.
    pub open spec fn consistent(&self) -> bool {
        match self.state {
            ExecutionState::CommandFinished => self.output matches OutputLocation::Present(Ok(_)),
            ExecutionState::CheckFailed => self.output is NotExecuted,
            ExecutionState::CheckErrored | ExecutionState::CommandErrored => {
                ||| self.output is TakenByErrorHandlerHook
                ||| self.output matches OutputLocation::Present(Err(_))
            },
            ExecutionState::BeforeHookFailed => false,
        }
    }
}

/// A command executed by the framework.
///
/// `A` is the type of an argument descriptor, `F` that of the entry point,
/// `C` that of a check hook and `H` that of the error handler hook. The
/// definition only stores them: it is built once, by the methods below, and
/// read by every execution.
pub struct Command<A, F, C, H> {
    /// The name of the command.
    pub name: &'static str,
    /// The description of the command.
    pub description: &'static str,
    /// All the arguments the command requires, in the order of their declaration.
    pub arguments: Vec<A>,
    /// The entry point of the command.
    pub fun: F,
    /// The required permissions to use this command.
    pub required_permissions: Option<Permissions>,
    /// The checks to pass before the entry point is invoked, in the order in
    /// which they are invoked.
    pub checks: Vec<C>,
    /// The hook that takes the failures of the checks and of the entry point.
    pub error_handler: Option<H>,
}

/// A command definition as the contracts speak of it: its texts and lists as
/// sequences, the rest as it is.
pub struct CommandView<A, F, C, H> {
    /// The name of the command.
    pub name: Seq<char>,
    /// The description of the command.
    pub description: Seq<char>,
    /// The arguments, in the order of their declaration.
    pub arguments: Seq<A>,
    /// The entry point.
    pub fun: F,
    /// The required permissions, if any were set.
    pub required_permissions: Option<Permissions>,
    /// The checks, in the order in which they are invoked.
    pub checks: Seq<C>,
    /// The error handler, if one was set.
    pub error_handler: Option<H>,
}

impl<A, F, C, H> View for Command<A, F, C, H> {
    type V = CommandView<A, F, C, H>;

    open spec fn view(&self) -> CommandView<A, F, C, H> {
        CommandView {
            name: self.name@,
            description: self.description@,
            arguments: self.arguments@,
            fun: self.fun,
            required_permissions: self.required_permissions,
            checks: self.checks@,
            error_handler: self.error_handler,
        }
    }
}

impl<A, F, C, H> Command<A, F, C, H> {
    /// Creates a new command around its entry point: without a name or a
    /// description, without arguments, checks or error handler, and with no
    /// permissions required.
    pub fn new(fun: F) -> (command: Self)
        ensures
            command@ == (CommandView::<A, F, C, H> {
                name: Seq::empty(),
                description: Seq::empty(),
                arguments: Seq::empty(),
                fun,
                required_permissions: None,
                checks: Seq::empty(),
                error_handler: None,
            }),
    {
        proof {
            reveal_strlit("");
            assert(""@ =~= Seq::<char>::empty());
        }
        Command {
            name: "",
            description: "",
            arguments: Vec::new(),
            fun,
            required_permissions: None,
            checks: Vec::new(),
            error_handler: None,
        }
    }

    /// Sets the command name.
    pub fn name(self, name: &'static str) -> (command: Self)
        ensures
            command@ == (CommandView { name: name@, ..self@ }),
    {
        Command { name, ..self }
    }

    /// Sets the command description.
    pub fn description(self, description: &'static str) -> (command: Self)
        ensures
            command@ == (CommandView { description: description@, ..self@ }),
    {
        Command { description, ..self }
    }

    /// Adds an argument to the command, behind those it has.
    pub fn add_argument(self, arg: A) -> (command: Self)
        ensures
            command@ == (CommandView { arguments: self@.arguments.push(arg), ..self@ }),
    {
        let mut command = self;
        command.arguments.push(arg);
        command
    }

    /// Sets the checks of the command, in place of those it had.
    pub fn checks(self, checks: Vec<C>) -> (command: Self)
        ensures
            command@ == (CommandView { checks: checks@, ..self@ }),
    {
        Command { checks, ..self }
    }

    /// Sets the error handler of the command, in place of the one it had.
    pub fn error_handler(self, hook: H) -> (command: Self)
        ensures
            command@ == (CommandView { error_handler: Some(hook), ..self@ }),
    {
        Command { error_handler: Some(hook), ..self }
    }

    /// Sets the permissions required to use the command.
    pub fn required_permissions(self, permissions: Permissions) -> (command: Self)
        ensures
            command@ == (CommandView { required_permissions: Some(permissions), ..self@ }),
    {
        Command { required_permissions: Some(permissions), ..self }
    }

    /// Advances a pass over the checks of the command by one step.
    ///
    /// `last` is `None` to begin the pass. After that it holds the position
    /// of the check that the previous step asked for, and the verdict that
    /// this check returned.
    pub fn run_checks<E>(&self, last: Option<(usize, Result<bool, E>)>) -> (step: CheckStep<E>)
        ensures
            step == check_step(self.checks.len(), last),
    {
        match last {
            None => self.check_at(0),
            Some((at, Ok(true))) => {
                if at < self.checks.len() {
                    self.check_at(at + 1)
                } else {
                    CheckStep::Settled(Ok(true))
                }
            },
            Some((_, verdict)) => CheckStep::Settled(verdict),
        }
    }

    /// The step that asks for the check at position `from`, if there is one.
    fn check_at<E>(&self, from: usize) -> (step: CheckStep<E>)
        ensures
            step == check_from::<E>(self.checks.len(), from as int),
    {
        if from < self.checks.len() {
            CheckStep::Invoke(from)
        } else {
            CheckStep::Settled(Ok(true))
        }
    }

    /// Advances an execution of the command by one step: takes what the
    /// driver reports and returns what it has to do next.
    ///
    /// An execution starts with [`Event::Begin`]. The driver then performs
    /// each action it is given and reports the matching event, until it is
    /// given [`Action::RunErrorHandler`] or [`Action::Finish`], which carry
    /// the result of the execution.
    pub fn execute<T, E>(&self, event: Event<T, E>) -> (action: Action<T, E>)
        ensures
            action == engine_step(self.checks.len(), self.error_handler is Some, event),
            action matches Action::Finish(result) ==> result.consistent(),
            action matches Action::RunErrorHandler(_, result) ==> {
                &&& self.error_handler is Some
                &&& result.consistent()
                &&& result.output is TakenByErrorHandlerHook
            },
    {
        match event {
            Event::Begin => self.guard(self.run_checks(None)),
            Event::CheckReturned(at, verdict) => self.guard(self.run_checks(Some((at, verdict)))),
            Event::EntryPointReturned(Ok(value)) => Action::Finish(
                ExecutionResult {
                    state: ExecutionState::CommandFinished,
                    output: OutputLocation::Present(Ok(value)),
                },
            ),
            Event::EntryPointReturned(Err(why)) => self.surface(
                ExecutionState::CommandErrored,
                why,
            ),
        }
    }

    /// Turns a step of the pass over the checks into an action.
    fn guard<T, E>(&self, step: CheckStep<E>) -> (action: Action<T, E>)
        ensures
            action == guarded::<T, E>(self.error_handler is Some, step),
    {
        match step {
            CheckStep::Invoke(at) => Action::RunCheck(at),
            CheckStep::Settled(Ok(true)) => Action::RunEntryPoint,
            CheckStep::Settled(Ok(false)) => Action::Finish(
                ExecutionResult {
                    state: ExecutionState::CheckFailed,
                    output: OutputLocation::NotExecuted,
                },
            ),
            CheckStep::Settled(Err(why)) => self.surface(ExecutionState::CheckErrored, why),
        }
    }

    /// Hands a failure to the error handler if there is one, and to the
    /// caller if there is none.
    fn surface<T, E>(&self, state: ExecutionState, why: E) -> (action: Action<T, E>)
        ensures
            action == surfaced::<T, E>(self.error_handler is Some, state, why),
    {
        if self.error_handler.is_some() {
            Action::RunErrorHandler(
                why,
                ExecutionResult { state, output: OutputLocation::TakenByErrorHandlerHook },
            )
        } else {
            Action::Finish(ExecutionResult { state, output: OutputLocation::Present(Err(why)) })
        }
    }
}

} // verus!
