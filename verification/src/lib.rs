//! Core of a "hello world" demonstration runner: a resolver that classifies a
//! language identifier into an execution strategy, and a dispatcher that turns
//! the strategy into a concrete launch plan and normalizes the outcome of the
//! spawned process into a structured result or a descriptive error message.
//!
//! The process spawn itself and the wall-clock measurement are I/O and live in
//! the surrounding application; this crate holds and verifies everything that
//! can be decided from plain values: the strategy table, the path and error
//! message construction, and the normalization of a spawn outcome.

pub mod outcome;
pub mod plan;
pub mod resolver;
pub mod text;
