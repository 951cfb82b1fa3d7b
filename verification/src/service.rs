//! The decisions of the benchmark service's loops: how many workers it runs,
//! how much work may wait for them, and what each network event leads to.

use vstd::prelude::*;

verus! {

/// The kinds of event that the network hands the service.
#[derive(Clone, Copy, Debug, PartialEq, Eq)]
pub enum NetworkEventKind {
    /// A direct send from a peer.
    Message,
    /// An RPC request from a peer.
    RpcRequest,
    NewPeer,
    LostPeer,
}

/// What a service loop does next.
#[derive(Clone, Copy, Debug, PartialEq, Eq)]
pub enum ServiceStep {
    /// Handle the message as a direct send.
    HandleDirect,
    /// Handle the message as an RPC request and answer through its sender.
    HandleRpc,
    /// Wait for the next event.
    Ignore,
    /// The source of events is closed: the loop ends.
    Stop,
}

/// The step for the next event, `None` when the source of events is closed.
pub open spec fn step_spec(event: Option<NetworkEventKind>) -> ServiceStep {
    match event {
        None => ServiceStep::Stop,
        Some(NetworkEventKind::Message) => ServiceStep::HandleDirect,
        Some(NetworkEventKind::RpcRequest) => ServiceStep::HandleRpc,
        Some(NetworkEventKind::NewPeer) => ServiceStep::Ignore,
        Some(NetworkEventKind::LostPeer) => ServiceStep::Ignore,
    }
}

/// What a service loop does with the next event it receives; peers that come
/// and go are of no interest.
pub fn next_step(event: Option<NetworkEventKind>) -> (step: ServiceStep)
    ensures
        step == step_spec(event),
{
    match event {
        None => ServiceStep::Stop,
        Some(NetworkEventKind::Message) => ServiceStep::HandleDirect,
        Some(NetworkEventKind::RpcRequest) => ServiceStep::HandleRpc,
        Some(NetworkEventKind::NewPeer) => ServiceStep::Ignore,
        Some(NetworkEventKind::LostPeer) => ServiceStep::Ignore,
    }
}

/// The number of worker threads: as configured; otherwise the parallelism that
/// the machine reports; otherwise one.
pub fn worker_threads(configured: Option<usize>, available: Option<usize>) -> (threads: usize)
    ensures
        threads == (match configured {
            Some(x) => x,
            None => match available {
                Some(a) => a,
                None => 1,
            },
        }),
{
    match configured {
        Some(x) => x,
        None => match available {
            Some(val) => val,
            None => 1,
        },
    }
}

/// How many events may wait for the workers: two for each.
pub fn work_queue_capacity(threads: usize) -> (capacity: usize)
    requires
        threads * 2 <= usize::MAX,
    ensures
        capacity == threads * 2,
{
    threads * 2
}

} // verus!
