//! Single steps of the engine and of a pass over the checks.

use zephyrus::command::{Command, ExecutionResult, ExecutionState, OutputLocation};
use zephyrus::engine::{Action, CheckStep, Event};

type Plain = Command<u8, u8, u8, u8>;

fn with_checks(count: usize) -> Plain {
    Command::new(0).checks(vec![0; count])
}

#[test]
fn beginning_without_checks_asks_for_the_entry_point() {
    assert_eq!(with_checks(0).execute::<i32, String>(Event::Begin), Action::RunEntryPoint);
}

#[test]
fn beginning_with_checks_asks_for_the_first_check() {
    assert_eq!(with_checks(3).execute::<i32, String>(Event::Begin), Action::RunCheck(0));
}

#[test]
fn a_passing_check_asks_for_the_next_one() {
    let command = with_checks(3);
    assert_eq!(
        command.execute::<i32, String>(Event::CheckReturned(0, Ok(true))),
        Action::RunCheck(1)
    );
    assert_eq!(
        command.execute::<i32, String>(Event::CheckReturned(1, Ok(true))),
        Action::RunCheck(2)
    );
}

#[test]
fn the_last_passing_check_asks_for_the_entry_point() {
    assert_eq!(
        with_checks(3).execute::<i32, String>(Event::CheckReturned(2, Ok(true))),
        Action::RunEntryPoint
    );
}

#[test]
fn a_position_beyond_the_checks_asks_for_the_entry_point() {
    assert_eq!(
        with_checks(3).execute::<i32, String>(Event::CheckReturned(usize::MAX, Ok(true))),
        Action::RunEntryPoint
    );
    assert_eq!(
        with_checks(0).run_checks::<String>(Some((usize::MAX, Ok(true)))),
        CheckStep::Settled(Ok(true))
    );
}

#[test]
fn a_rejecting_check_finishes_as_check_failed() {
    let expected: Action<i32, String> = Action::Finish(ExecutionResult {
        state: ExecutionState::CheckFailed,
        output: OutputLocation::NotExecuted,
    });
    assert_eq!(with_checks(3).execute(Event::CheckReturned(0, Ok(false))), expected);
    assert_eq!(with_checks(3).error_handler(1).execute(Event::CheckReturned(0, Ok(false))), expected);
}

#[test]
fn a_failing_check_is_surfaced_as_check_errored() {
    let without: Action<i32, String> = with_checks(2)
        .execute(Event::CheckReturned(1, Err(String::from("rate-limited"))));
    assert_eq!(
        without,
        Action::Finish(ExecutionResult {
            state: ExecutionState::CheckErrored,
            output: OutputLocation::Present(Err(String::from("rate-limited"))),
        })
    );
    let with: Action<i32, String> = with_checks(2)
        .error_handler(1)
        .execute(Event::CheckReturned(1, Err(String::from("rate-limited"))));
    assert_eq!(
        with,
        Action::RunErrorHandler(
            String::from("rate-limited"),
            ExecutionResult {
                state: ExecutionState::CheckErrored,
                output: OutputLocation::TakenByErrorHandlerHook,
            }
        )
    );
}

#[test]
fn a_successful_entry_point_finishes_the_command() {
    let expected: Action<i32, String> = Action::Finish(ExecutionResult {
        state: ExecutionState::CommandFinished,
        output: OutputLocation::Present(Ok(42)),
    });
    assert_eq!(with_checks(1).execute(Event::EntryPointReturned(Ok(42))), expected);
    assert_eq!(with_checks(1).error_handler(1).execute(Event::EntryPointReturned(Ok(42))), expected);
}

#[test]
fn a_failing_entry_point_is_surfaced_as_command_errored() {
    let without: Action<i32, String> =
        with_checks(0).execute(Event::EntryPointReturned(Err(String::from("db-timeout"))));
    assert_eq!(
        without,
        Action::Finish(ExecutionResult {
            state: ExecutionState::CommandErrored,
            output: OutputLocation::Present(Err(String::from("db-timeout"))),
        })
    );
    let with: Action<i32, String> = with_checks(0)
        .error_handler(1)
        .execute(Event::EntryPointReturned(Err(String::from("db-timeout"))));
    assert_eq!(
        with,
        Action::RunErrorHandler(
            String::from("db-timeout"),
            ExecutionResult {
                state: ExecutionState::CommandErrored,
                output: OutputLocation::TakenByErrorHandlerHook,
            }
        )
    );
}

#[test]
fn a_pass_over_no_checks_settles_at_once() {
    assert_eq!(with_checks(0).run_checks::<String>(None), CheckStep::Settled(Ok(true)));
}

#[test]
fn a_pass_over_the_checks_visits_them_in_order() {
    let command = with_checks(2);
    assert_eq!(command.run_checks::<String>(None), CheckStep::Invoke(0));
    assert_eq!(command.run_checks::<String>(Some((0, Ok(true)))), CheckStep::Invoke(1));
    assert_eq!(command.run_checks::<String>(Some((1, Ok(true)))), CheckStep::Settled(Ok(true)));
}

#[test]
fn a_pass_over_the_checks_stops_at_a_rejection() {
    assert_eq!(
        with_checks(4).run_checks::<String>(Some((1, Ok(false)))),
        CheckStep::Settled(Ok(false))
    );
}

#[test]
fn a_pass_over_the_checks_stops_at_an_error() {
    assert_eq!(
        with_checks(4).run_checks(Some((0, Err("rate-limited")))),
        CheckStep::Settled(Err("rate-limited"))
    );
}

#[test]
fn a_pass_over_the_checks_ignores_the_error_handler() {
    assert_eq!(
        with_checks(1).error_handler(9).run_checks(Some((0, Err("rate-limited")))),
        CheckStep::Settled(Err("rate-limited"))
    );
}
