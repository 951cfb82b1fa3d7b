//! Verified core of the network benchmark service: its configuration, the
//! circular record of sent requests, the replies and reports it computes for
//! incoming messages, and the decisions of its service loops.

pub mod config;
pub mod messages;
pub mod network;
pub mod send_log;
pub mod service;
pub mod testcases;

pub use config::BenchmarkConfig;
pub use messages::{BenchmarkDataReply, BenchmarkDataSend, BenchmarkMessage};
pub use network::ConnectionType;
pub use send_log::{BenchmarkSharedState, SendRecord};
pub use testcases::PartialNodesDown;

use vstd::prelude::*;

verus! {

/// Adds two sizes.
pub fn add(left: usize, right: usize) -> (sum: usize)
    requires
        left + right <= usize::MAX,
    ensures
        sum == left + right,
{
    left + right
}

} // verus!
