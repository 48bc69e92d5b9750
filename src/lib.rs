//! The core of a peer-to-peer node for a beacon chain: its identity key and
//! signed node record, the routing of host messages into swarm commands, and
//! the reporting of swarm events back to the host.

use vstd::prelude::*;

pub mod api;
pub mod bytes;
pub mod identity;
pub mod message;
pub mod network;
pub mod peer;
pub mod record;
pub mod service;

verus! {

} // verus!
