use vstd::prelude::*;
use vstd::string::StringExecFns;
use crate::message::{
    discovery_tag, gossip_tag, hello_tag, rpc_tag, Libp2pEvent, Message, MessageView,
    NetworkMessage, OutgoingMessage, RPCErrorResponse, RPCEvent, RPCRequest, RPCResponse,
    DISCOVERY, GOSSIP, HELLO, RPC,
};
use crate::peer::{base58_of, PeerId};

verus! {

/// A call that the event loop makes on the swarm.
pub enum SwarmCall {
    /// Hand an RPC event to a peer.
    SendRpc(PeerId, RPCEvent),
    /// Publish a message on gossip topics.
    Publish { topics: Vec<String>, message: Vec<u8> },
}

/// The swarm call that carries out a command.
pub open spec fn call_of(cmd: NetworkMessage) -> SwarmCall {
    match cmd {
        NetworkMessage::Send(p, OutgoingMessage::RPC(e)) => SwarmCall::SendRpc(p, e),
        NetworkMessage::Publish { topics, message } => SwarmCall::Publish { topics, message },
    }
}

/// The host message that reports an RPC request or response from a peer.
pub open spec fn rpc_message(peer: PeerId, req_resp: u8, data: Seq<u8>) -> MessageView {
    MessageView {
        category: rpc_tag(),
        command: hello_tag(),
        req_resp,
        peer: base58_of(peer@),
        value: data,
    }
}

/// The host message, if any, that reports a swarm event. Failed RPC responses,
/// RPC errors and disconnections are not reported.
pub open spec fn event_message(e: Libp2pEvent) -> Option<MessageView> {
    match e {
        Libp2pEvent::RPC(p, RPCEvent::Request(_, RPCRequest::Message(d))) =>
            Some(rpc_message(p, 0, d@)),
        Libp2pEvent::RPC(p, RPCEvent::Response(_, RPCErrorResponse::Success(r))) =>
            match r {
                RPCResponse::Message(d) => Some(rpc_message(p, 1, d@)),
            },
        Libp2pEvent::RPC(_, _) => None,
        Libp2pEvent::PeerDialed(p) => Some(
            MessageView {
                category: discovery_tag(),
                command: Seq::empty(),
                req_resp: 0,
                peer: base58_of(p@),
                value: Seq::empty(),
            },
        ),
        Libp2pEvent::PeerDisconnected(_) => None,
        Libp2pEvent::PubsubMessage { source: _, topics, message } => Some(
            MessageView {
                category: gossip_tag(),
                command: if topics@.len() > 0 { topics@[0]@ } else { Seq::empty() },
                req_resp: 0,
                peer: Seq::empty(),
                value: message@,
            },
        ),
    }
}

/// The host messages that report a run of swarm events, in order.
pub open spec fn forwarded(es: Seq<Libp2pEvent>) -> Seq<MessageView>
    decreases es.len(),
{
    if es.len() == 0 {
        Seq::empty()
    } else {
        let rest = forwarded(es.drop_last());
        match event_message(es.last()) {
            Some(m) => rest.push(m),
            None => rest,
        }
    }
}

/// The views of a run of host messages.
pub open spec fn views(ms: Seq<Message>) -> Seq<MessageView> {
    ms.map_values(|m: Message| m@)
}

fn rpc_host_message(peer: &PeerId, req_resp: u8, data: Vec<u8>) -> (r: Message)
    ensures
        r@ == rpc_message(*peer, req_resp, data@),
{
    proof {
        reveal_strlit("RPC");
        reveal_strlit("HELLO");
    }
    let category = String::from_str(RPC);
    let command = String::from_str(HELLO);
    assert(category@ =~= rpc_tag());
    assert(command@ =~= hello_tag());
    Message { category, command, req_resp, peer: peer.to_base58(), value: data }
}

/// Turns a swarm event into the host message that reports it, if any.
pub fn report_event(event: Libp2pEvent) -> (r: Option<Message>)
    ensures
        match r {
            Some(m) => event_message(event) == Some(m@),
            None => event_message(event) is None,
        },
{
    match event {
        Libp2pEvent::RPC(peer, rpc_event) => match rpc_event {
            RPCEvent::Request(_, RPCRequest::Message(data)) => Some(
                rpc_host_message(&peer, 0, data),
            ),
            RPCEvent::Response(_, err_response) => match err_response {
                RPCErrorResponse::Success(RPCResponse::Message(data)) => Some(
                    rpc_host_message(&peer, 1, data),
                ),
                _ => None,
            },
            RPCEvent::Error(_, _) => None,
        },
        Libp2pEvent::PeerDialed(peer) => {
            proof {
                reveal_strlit("DISCOVERY");
            }
            let category = String::from_str(DISCOVERY);
            assert(category@ =~= discovery_tag());
            Some(
                Message {
                    category,
                    command: String::new(),
                    req_resp: 0,
                    peer: peer.to_base58(),
                    value: Vec::new(),
                },
            )
        },
        Libp2pEvent::PeerDisconnected(_) => None,
        Libp2pEvent::PubsubMessage { source: _, topics, message } => {
            proof {
                reveal_strlit("GOSSIP");
            }
            let category = String::from_str(GOSSIP);
            assert(category@ =~= gossip_tag());
            let command = if topics.len() > 0 {
                topics[0].clone()
            } else {
                String::new()
            };
            Some(Message { category, command, req_resp: 0, peer: String::new(), value: message })
        },
    }
}

/// Turns the swarm events drained in one wake into the host messages to
/// enqueue: every reportable event gives one message, in the order of the events.
pub fn forward_events(events: Vec<Libp2pEvent>) -> (r: Vec<Message>)
    ensures
        views(r@) == forwarded(events@),
        r@.len() == forwarded(events@).len(),
{
    let ghost input = events@;
    let ghost n = events@.len();
    let mut pending = events;
    let mut rest: Vec<Libp2pEvent> = Vec::new();
    while pending.len() > 0
        invariant
            n == input.len(),
            pending@ == input.subrange(0, pending@.len() as int),
            rest@.len() == n - pending@.len(),
            forall|j: int| 0 <= j < rest@.len() ==> rest@[j] == input[n - 1 - j],
        decreases pending@.len(),
    {
        let event = pending.pop().unwrap();
        rest.push(event);
    }
    let mut out: Vec<Message> = Vec::new();
    while rest.len() > 0
        invariant
            n == input.len(),
            rest@.len() <= n,
            forall|j: int| 0 <= j < rest@.len() ==> rest@[j] == input[n - 1 - j],
            views(out@) == forwarded(input.subrange(0, n - rest@.len())),
        decreases rest@.len(),
    {
        let ghost done = n - rest@.len();
        let event = rest.pop().unwrap();
        assert(event == input[done]);
        assert(input.subrange(0, done + 1).drop_last() =~= input.subrange(0, done));
        let ghost before = out@;
        match report_event(event) {
            Some(m) => {
                out.push(m);
                assert(views(out@) =~= views(before).push(m@));
            },
            None => {},
        }
    }
    assert(input.subrange(0, n as int) =~= input);
    assert(views(out@).len() == out@.len());
    out
}


/// Why the event loop stops.
#[derive(PartialEq, Eq, Structural, Debug)]
pub enum NetworkError {
    /// The channel of commands was closed.
    ChannelClosed,
}

/// The swarm call that carries out a command.
pub fn command_call(cmd: NetworkMessage) -> (r: SwarmCall)
    ensures
        r == call_of(cmd),
{
    match cmd {
        NetworkMessage::Send(p, OutgoingMessage::RPC(e)) => SwarmCall::SendRpc(p, e),
        NetworkMessage::Publish { topics, message } => SwarmCall::Publish { topics, message },
    }
}

/// Turns the commands drained in one wake into swarm calls, one for each command
/// and in the same order. Where the channel was found closed, the calls are still
/// made and the loop then stops with an error, before it polls the swarm.
pub fn dispatch_commands(commands: Vec<NetworkMessage>, channel_closed: bool) -> (r: (
    Vec<SwarmCall>,
    Result<(), NetworkError>,
))
    ensures
        r.0@ == commands@.map_values(|c: NetworkMessage| call_of(c)),
        r.1 is Err <==> channel_closed,
        r.1 is Err ==> r.1 == Err::<(), NetworkError>(NetworkError::ChannelClosed),
{
    let ghost input = commands@;
    let ghost n = commands@.len();
    let mut pending = commands;
    let mut rest: Vec<NetworkMessage> = Vec::new();
    while pending.len() > 0
        invariant
            n == input.len(),
            pending@ == input.subrange(0, pending@.len() as int),
            rest@.len() == n - pending@.len(),
            forall|j: int| 0 <= j < rest@.len() ==> rest@[j] == input[n - 1 - j],
        decreases pending@.len(),
    {
        let cmd = pending.pop().unwrap();
        rest.push(cmd);
    }
    let mut calls: Vec<SwarmCall> = Vec::new();
    while rest.len() > 0
        invariant
            n == input.len(),
            rest@.len() <= n,
            forall|j: int| 0 <= j < rest@.len() ==> rest@[j] == input[n - 1 - j],
            calls@ == input.subrange(0, n - rest@.len()).map_values(|c: NetworkMessage| call_of(c)),
        decreases rest@.len(),
    {
        let ghost done = n - rest@.len();
        let cmd = rest.pop().unwrap();
        assert(cmd == input[done]);
        calls.push(command_call(cmd));
        assert(calls@ =~= input.subrange(0, done + 1).map_values(|c: NetworkMessage| call_of(c)));
    }
    assert(input.subrange(0, n as int) =~= input);
    if channel_closed {
        (calls, Err(NetworkError::ChannelClosed))
    } else {
        (calls, Ok(()))
    }
}

/// Events of successive wakes are reported in the order of the wakes: the
/// messages for a longer run are those of its parts, one after the other.
pub proof fn lemma_forwarded_concat(a: Seq<Libp2pEvent>, b: Seq<Libp2pEvent>)
    ensures
        forwarded(a + b) == forwarded(a) + forwarded(b),
    decreases b.len(),
{
    if b.len() == 0 {
        assert(a + b =~= a);
        assert(forwarded(b) =~= Seq::<MessageView>::empty());
        assert(forwarded(a) + forwarded(b) =~= forwarded(a));
    } else {
        lemma_forwarded_concat(a, b.drop_last());
        assert((a + b).drop_last() =~= a + b.drop_last());
        assert((a + b).last() == b.last());
        match event_message(b.last()) {
            Some(m) => {
                assert(forwarded(a) + forwarded(b.drop_last()).push(m) =~= (forwarded(a)
                    + forwarded(b.drop_last())).push(m));
            },
            None => {},
        }
    }
}

/// No reportable event is dropped: each one that the swarm emits gives a host
/// message, and the run reports exactly as many messages as it has reportable events.
pub proof fn lemma_forwarded_len(es: Seq<Libp2pEvent>)
    ensures
        forwarded(es).len() == es.filter(|e: Libp2pEvent| event_message(e) is Some).len(),
    decreases es.len(),
{
    reveal(Seq::filter);
    if es.len() > 0 {
        lemma_forwarded_len(es.drop_last());
    }
}

} // verus!
