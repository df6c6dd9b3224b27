//! Building a command definition, and the values of a result.

use twilight_model::guild::Permissions;
use zephyrus::command::{Command, ExecutionResult, ExecutionState, OutputLocation};

type Plain = Command<&'static str, u8, u8, u8>;

#[test]
fn a_new_command_holds_its_entry_point_and_nothing_else() {
    let command: Plain = Command::new(7);
    assert_eq!(command.fun, 7);
    assert_eq!(command.name, "");
    assert_eq!(command.description, "");
    assert!(command.arguments.is_empty());
    assert!(command.checks.is_empty());
    assert_eq!(command.error_handler, None);
    assert_eq!(command.required_permissions, None);
}

#[test]
fn name_and_description_are_set() {
    let command: Plain = Command::new(7).name("ping").description("Answers with pong");
    assert_eq!(command.name, "ping");
    assert_eq!(command.description, "Answers with pong");
    assert_eq!(command.fun, 7);
}

#[test]
fn a_name_is_not_validated() {
    let command: Plain = Command::new(7).name("ping").name("");
    assert_eq!(command.name, "");
}

#[test]
fn arguments_keep_the_order_of_their_insertion() {
    let command: Plain =
        Command::new(7).add_argument("user").add_argument("reason").add_argument("user");
    assert_eq!(command.arguments, vec!["user", "reason", "user"]);
}

#[test]
fn checks_replace_the_previous_list() {
    let command: Plain = Command::new(7).checks(vec![1, 2, 3]).checks(vec![4, 5]);
    assert_eq!(command.checks, vec![4, 5]);
}

#[test]
fn the_last_error_handler_wins() {
    let command: Plain = Command::new(7).error_handler(1).error_handler(2);
    assert_eq!(command.error_handler, Some(2));
}

#[test]
fn required_permissions_are_carried() {
    let permissions = Permissions::BAN_MEMBERS | Permissions::KICK_MEMBERS;
    let command: Plain = Command::new(7).required_permissions(permissions);
    assert_eq!(command.required_permissions, Some(permissions));
    assert_ne!(command.required_permissions, Some(Permissions::ADMINISTRATOR));
}

#[test]
fn a_setter_leaves_the_other_fields_alone() {
    let command: Plain = Command::new(7)
        .name("ban")
        .description("Bans a user")
        .add_argument("user")
        .checks(vec![1])
        .error_handler(2)
        .required_permissions(Permissions::BAN_MEMBERS)
        .add_argument("reason");
    assert_eq!(command.name, "ban");
    assert_eq!(command.description, "Bans a user");
    assert_eq!(command.arguments, vec!["user", "reason"]);
    assert_eq!(command.fun, 7);
    assert_eq!(command.checks, vec![1]);
    assert_eq!(command.error_handler, Some(2));
    assert_eq!(command.required_permissions, Some(Permissions::BAN_MEMBERS));
}

#[test]
fn the_states_of_the_surrounding_framework_are_representable() {
    let result: ExecutionResult<i32, String> = ExecutionResult {
        state: ExecutionState::BeforeHookFailed,
        output: OutputLocation::NotExecuted,
    };
    assert_eq!(result.state, ExecutionState::BeforeHookFailed);
    let taken: OutputLocation<i32, String> = OutputLocation::TakenByAfterHook;
    assert_ne!(taken, OutputLocation::TakenByErrorHandlerHook);
    assert_ne!(taken, result.output);
}

#[test]
fn an_execution_state_is_copied_and_compared() {
    let state = ExecutionState::CheckErrored;
    let copy = state;
    assert_eq!(state, copy);
    assert_ne!(state, ExecutionState::CheckFailed);
    assert_eq!(format!("{:?}", ExecutionState::CommandFinished), "CommandFinished");
}
