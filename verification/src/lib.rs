//! Command orchestration for a time-tracking command-line client.
//!
//! The heart of the crate is a state machine per command (`commands`): each
//! command is a fixed sequence of remote calls and picker interactions, and
//! the machine decides, from the replies, which call comes next and what the
//! final outcome is. The surrounding process performs the calls and feeds the
//! replies back in; everything it must decide is decided here.

pub mod commands;
pub mod error;
pub mod laws;
pub mod models;
pub mod picker;
pub mod remote;
