//! An in-process message bus for a fixed set of long-lived components.
//!
//! Components exchange values by publishing and subscribing on message
//! types; the framework owns their lifecycle. This crate holds the
//! decisions of that framework, each with its contract:
//!
//! - `syntax`, `parse`, `analyze`, `collect`, `msgs`: reading the
//!   declarations of a component and reporting the wrong ones;
//! - `emit_ret`, `emit_run`, `codegen`: what is done with the value a
//!   method returns, and the run of a component as a program of steps;
//! - `bus`, `routing`: the typed fan-out over bounded channels, the
//!   sealing of the bus, and which index a message type has;
//! - `component`, `startup`: the stop flag, the startup barrier, the
//!   steps of the workers, and what the barrier guarantees to all
//!   components together;
//! - `config`, `config_registry`, `registry`: configuration values and
//!   the registrations of component types;
//! - `app`: the controller that starts and stops the application.
//!
//! Waiting, spawning and locking are left to the caller: where the
//! framework has to wait, a function here says what to wait for and is
//! told what happened.

pub mod analyze;
pub mod app;
pub mod bus;
pub mod codegen;
pub mod collect;
pub mod component;
pub mod config;
pub mod config_registry;
pub mod emit_ret;
pub mod emit_run;
pub mod error;
pub mod msgs;
pub mod parse;
pub mod registry;
pub mod routing;
pub mod startup;
pub mod syntax;
