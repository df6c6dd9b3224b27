//! The execution pipeline of a command-dispatch framework, without the I/O.
//!
//! A [`Command`](command::Command) describes one invocable operation: its
//! entry point, its guard hooks ("checks") and its optional error handler.
//! The hooks themselves are asynchronous and belong to the caller, so the
//! engine never calls them. Instead it is a step function: the caller reports
//! what a hook returned, and the engine answers with what has to happen next
//! ([`engine`]). What a whole execution amounts to is stated in [`run`], and
//! what holds of every execution is proved in [`laws`].

pub mod command;
pub mod engine;
pub mod laws;
pub mod run;
pub mod twilight;
