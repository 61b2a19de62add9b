//! The core of a prefork process supervisor: a parent process that keeps a fleet of
//! identical workers alive, with or without a preloader that loads the code once and forks
//! the workers.
//!
//! The crate holds the decisions, each with its contract, and leaves the waiting to its
//! caller:
//!
//! - [`worker_set`] is the state machine of the fleet, over the index of the workers in
//!   [`workers`]; [`laws`] states what holds of it on every input.
//! - [`supervisor`] is the loop that feeds the machine: it says what to wait for and takes
//!   what came back.
//! - [`fork_exec`] and [`preloader`] are the two process controllers, [`process_control`]
//!   what both tell the supervisor, and [`worker_ack`] the control channel.
//! - [`reaper`] says what to make of a look for terminated children, and [`health`] what the
//!   probe answers.
//!
//! Times are readings of a clock that the caller keeps ([`time`]); nothing in here reads a
//! clock.

pub mod configuration;
pub mod fork_exec;
pub mod health;
pub mod laws;
pub mod pid;
pub mod preloader;
pub mod process_control;
pub mod reaper;
pub mod supervisor;
pub mod text;
pub mod time;
pub mod worker;
pub mod worker_ack;
pub mod worker_set;
pub mod workers;
