//! Client-side runtime for an on-device telemetry and remote-control agent.
//!
//! The crate holds the verified core of the agent: the CAN signal decoder,
//! the per-bus frame processing with duplicate suppression and multiplexing,
//! the bounded-batch send queue, the reply dispatcher with its exponential
//! back-off, and the remote-control session state machine.  All I/O (sockets,
//! GPIO lines, the RPC transport, files) lives outside the crate; the
//! functions here compute, from plain values, what the surrounding program
//! must do.

pub mod can;
pub mod config;
pub mod dbc;
pub mod gpio;
pub mod net;
pub mod strmap;
pub mod text;
pub mod utils;
pub mod values;

use vstd::prelude::*;

verus! {

/// Distinguished process exit codes understood by the supervising
/// service manager.
pub enum ExitCodes {
    /// No such file or directory: a required file could not be loaded.
    Enoent,
    /// The retry sleep exceeded its configured maximum.
    Etime,
    /// A software upgrade was triggered successfully.
    SwUpdate,
}

impl ExitCodes {
    /// The OS exit code each variant stands for.
    pub fn code(&self) -> (c: i32)
        ensures
            c == match *self {
                ExitCodes::Enoent => 2i32,
                ExitCodes::Etime => 62i32,
                ExitCodes::SwUpdate => 100i32,
            },
    {
        match self {
            ExitCodes::Enoent => 2,
            ExitCodes::Etime => 62,
            ExitCodes::SwUpdate => 100,
        }
    }
}

} // verus!
