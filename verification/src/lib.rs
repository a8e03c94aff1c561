//! Verified core of a tool that builds a Docker image, runs it as a
//! container, probes its health-check endpoint and cleans up afterwards.
//!
//! The library decides; the program around it performs the I/O.  Each
//! long-running procedure is a state machine whose `step` takes the outcome
//! of the last outside operation and returns the lines to print and the next
//! operation to perform.
pub mod text;
pub mod report;
pub mod command;
pub mod health;
pub mod cleanup;
pub mod plan;
pub mod resources;
pub mod session;
