//! What the network layer knows of a peer's role.

use vstd::prelude::*;

verus! {

/// The role of a peer on the other end of a connection.
#[derive(Clone, Copy, Debug, PartialEq, Eq)]
pub enum ConnectionType {
    Unknown,
    Validator,
    VFN,
    PFN,
    Other,
}

} // verus!
