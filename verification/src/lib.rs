//! A command-driven client workflow for a single CQL table of users.
//!
//! The crate decides which statements a command issues, in which order, and
//! what is reported for each outcome. It performs no input or output itself:
//! a caller connects, submits each statement and hands back what happened.
//!
//! - [`command`], [`config`], [`user`], [`statement`], [`error`]: the data.
//! - [`decimal`], [`report`]: the lines that are printed.
//! - [`workflow`]: the decisions of a command, step by step; [`trace`]: what
//!   holds of them over any sequence of events.
//! - [`reply`]: the rows of a reply, taken from the driver's iterator.
//! - [`cluster`], [`driver`]: a cluster held in memory, and a command run
//!   against it to its end; [`laws`]: what holds of such runs.

pub mod cluster;
pub mod command;
pub mod config;
pub mod decimal;
pub mod driver;
pub mod error;
pub mod laws;
pub mod reply;
pub mod report;
pub mod statement;
pub mod trace;
pub mod user;
pub mod workflow;
