use vstd::prelude::*;
use vstd::string::StringExecFns;
use crate::message::{
    gossip, gossip_tag, is_publish, is_rpc_send, names_a_peer, rpc_request, rpc_response,
    rpc_tag, Message, NetworkMessage, RouteError, GOSSIP, RPC,
};
use crate::network::{call_of, SwarmCall};

verus! {

/// The interval between heartbeat events, in seconds.
pub const HEARTBEAT_INTERVAL_SECONDS: u64 = 10;

/// A warning is logged whenever the peer count is at or below this value.
pub const WARN_PEER_COUNT: usize = 1;

/// Whether a heartbeat with this many connected peers logs a warning.
pub fn peer_count_is_low(connected_peer_count: usize) -> (r: bool)
    ensures
        r == (connected_peer_count <= WARN_PEER_COUNT),
{
    connected_peer_count <= WARN_PEER_COUNT
}

/// The command, if any, that a host message asks for.
pub open spec fn routes_to(m: Message, r: Result<Option<NetworkMessage>, RouteError>) -> bool {
    if m@.category == gossip_tag() {
        r matches Ok(Some(c)) && is_publish(c, m@.command, m@.value)
    } else if m@.category == rpc_tag() {
        if names_a_peer(m@.peer) {
            r matches Ok(Some(c)) && is_rpc_send(c, m@.peer, m.req_resp != 0, m@.value)
        } else {
            r == Err::<Option<NetworkMessage>, RouteError>(RouteError::MalformedPeer)
        }
    } else {
        r matches Ok(None)
    }
}

/// Turns a message from the host into a command for the event loop: gossip is
/// published on the topic named by `command`; an RPC message goes to the peer
/// named by `peer`, as a request where `req_resp` is 0 and as a successful
/// response otherwise. Other categories ask for nothing.
pub fn route_host_message(m: Message) -> (r: Result<Option<NetworkMessage>, RouteError>)
    ensures
        routes_to(m, r),
{
    proof {
        reveal_strlit("GOSSIP");
        reveal_strlit("RPC");
    }
    let gossip_category = String::from_str(GOSSIP);
    let rpc_category = String::from_str(RPC);
    assert(gossip_category@ =~= gossip_tag());
    assert(rpc_category@ =~= rpc_tag());
    if m.category == gossip_category {
        Ok(Some(gossip(m.command, m.value)))
    } else if m.category == rpc_category {
        let cmd = if m.req_resp == 0 {
            rpc_request(&m.peer, m.value)?
        } else {
            rpc_response(&m.peer, m.value)?
        };
        Ok(Some(cmd))
    } else {
        Ok(None)
    }
}

/// A gossip message from the host reaches the swarm as exactly one publication,
/// on the one topic named by its command and with its value as the message.
pub proof fn lemma_gossip_reaches_swarm(m: Message, r: Result<Option<NetworkMessage>, RouteError>)
    requires
        m@.category == gossip_tag(),
        routes_to(m, r),
    ensures
        r matches Ok(Some(c)) && (call_of(c) matches SwarmCall::Publish { topics, message }
            && topics@.len() == 1 && topics@[0]@ == m@.command && message@ == m@.value),
{
}

} // verus!
