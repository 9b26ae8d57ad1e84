//! A cooperative scheduler for sandboxed programs: each program instance runs behind a harness
//! that is advanced by hand, one bounded step at a time, so that many of them share one thread
//! and none can starve the others.
//!
//! [`pollable`] drives a suspended computation without an event loop; [`state`] holds what a
//! program can reach of its host; [`harness`] makes harnesses from modules and steps them;
//! [`scheduler`] runs a set of harnesses round by round; [`hello`] is the logic of a sample
//! program; [`engine`] is the interface to the execution engine and [`error`] what can go wrong.

pub mod engine;
pub mod error;
pub mod harness;
pub mod hello;
pub mod pollable;
pub mod scheduler;
pub mod state;
