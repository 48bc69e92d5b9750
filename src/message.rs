use vstd::prelude::*;
use crate::peer::{base58_of, is_peer_id_bytes, PeerId};

verus! {

/// Category of a host message carrying gossip.
pub const GOSSIP: &'static str = "GOSSIP";
/// Category of a host message carrying an RPC request or response.
pub const RPC: &'static str = "RPC";
/// Category of a host message reporting a newly dialed peer.
pub const DISCOVERY: &'static str = "DISCOVERY";
/// Method tag given to every inbound RPC message.
pub const HELLO: &'static str = "HELLO";

/// The text of `GOSSIP`.
pub open spec fn gossip_tag() -> Seq<char> {
    seq!['G', 'O', 'S', 'S', 'I', 'P']
}

/// The text of `RPC`.
pub open spec fn rpc_tag() -> Seq<char> {
    seq!['R', 'P', 'C']
}

/// The text of `DISCOVERY`.
pub open spec fn discovery_tag() -> Seq<char> {
    seq!['D', 'I', 'S', 'C', 'O', 'V', 'E', 'R', 'Y']
}

/// The text of `HELLO`.
pub open spec fn hello_tag() -> Seq<char> {
    seq!['H', 'E', 'L', 'L', 'O']
}

/// A flat message exchanged with the host application.
pub struct Message {
    pub category: String,
    pub command: String,
    pub req_resp: u8,
    pub peer: String,
    pub value: Vec<u8>,
}

/// The mathematical value of a host message.
pub struct MessageView {
    pub category: Seq<char>,
    pub command: Seq<char>,
    pub req_resp: u8,
    pub peer: Seq<char>,
    pub value: Seq<u8>,
}

impl View for Message {
    type V = MessageView;

    open spec fn view(&self) -> MessageView {
        MessageView {
            category: self.category@,
            command: self.command@,
            req_resp: self.req_resp,
            peer: self.peer@,
            value: self.value@,
        }
    }
}

impl Message {
    pub fn new(category: String, command: String, req_resp: u8, peer: String, value: Vec<u8>) -> (r: Message)
        ensures
            r@ == (MessageView {
                category: category@,
                command: command@,
                req_resp,
                peer: peer@,
                value: value@,
            }),
    {
        Message { category, command, req_resp, peer, value }
    }
}

/// The body of an RPC request.
pub enum RPCRequest {
    Message(Vec<u8>),
}

/// The body of a successful RPC response.
pub enum RPCResponse {
    Message(Vec<u8>),
}

/// An RPC response as a peer sends it: a success or one of its error kinds.
pub enum RPCErrorResponse {
    Success(RPCResponse),
    InvalidRequest(String),
    ServerError(String),
    Unknown(String),
}

/// An event of the RPC protocol, tagged with its correlation id.
pub enum RPCEvent {
    Request(usize, RPCRequest),
    Response(usize, RPCErrorResponse),
    Error(usize, String),
}

/// What the event loop hands to a peer.
pub enum OutgoingMessage {
    RPC(RPCEvent),
}

/// A command for the event loop.
pub enum NetworkMessage {
    /// Send a message to a peer.
    Send(PeerId, OutgoingMessage),
    /// Publish a message on gossip topics.
    Publish { topics: Vec<String>, message: Vec<u8> },
}

/// An event that the swarm reports.
pub enum Libp2pEvent {
    /// An RPC request or response has been received.
    RPC(PeerId, RPCEvent),
    /// A connection to a new peer has been initiated.
    PeerDialed(PeerId),
    /// A peer has disconnected.
    PeerDisconnected(PeerId),
    /// A gossip message has been received.
    PubsubMessage { source: PeerId, topics: Vec<String>, message: Vec<u8> },
}

/// Why a host message could not be turned into a command.
#[derive(PartialEq, Eq, Structural, Debug)]
pub enum RouteError {
    /// The peer field is not the base58 text of a peer id.
    MalformedPeer,
}

/// The correlation id used for every RPC event this node creates.
pub const DEFAULT_REQUEST_ID: usize = 0;

/// Whether `p` is the one peer id whose base58 text is `s`.
pub open spec fn decodes_to_peer(s: Seq<char>, p: Seq<u8>) -> bool {
    &&& base58_of(p) == s
    &&& is_peer_id_bytes(p)
    &&& forall|b: Seq<u8>| #[trigger] base58_of(b) == s && is_peer_id_bytes(b) ==> b == p
}

/// Whether `s` is the base58 text of some peer id.
pub open spec fn names_a_peer(s: Seq<char>) -> bool {
    exists|b: Seq<u8>| #[trigger] base58_of(b) == s && is_peer_id_bytes(b)
}

/// `r` publishes `data` on the single topic `topic`.
pub open spec fn is_publish(r: NetworkMessage, topic: Seq<char>, data: Seq<u8>) -> bool {
    match r {
        NetworkMessage::Publish { topics, message } =>
            topics@.len() == 1 && topics@[0]@ == topic && message@ == data,
        _ => false,
    }
}

/// `r` sends to the peer named by `peer` an RPC request (or, where `response`
/// holds, a successful response) with correlation id 0 and body `data`.
pub open spec fn is_rpc_send(r: NetworkMessage, peer: Seq<char>, response: bool, data: Seq<u8>) -> bool {
    match r {
        NetworkMessage::Send(p, OutgoingMessage::RPC(e)) =>
            decodes_to_peer(peer, p@) && p.wf() && rpc_carries(e, response, data),
        _ => false,
    }
}

/// `e` is a request (or, where `response` holds, a successful response) with
/// correlation id 0 and body `data`.
pub open spec fn rpc_carries(e: RPCEvent, response: bool, data: Seq<u8>) -> bool {
    match e {
        RPCEvent::Request(id, RPCRequest::Message(d)) => !response && id == 0 && d@ == data,
        RPCEvent::Response(id, RPCErrorResponse::Success(RPCResponse::Message(d))) =>
            response && id == 0 && d@ == data,
        _ => false,
    }
}

/// Builds the command that publishes `data` on `topic`.
pub fn gossip(topic: String, data: Vec<u8>) -> (r: NetworkMessage)
    ensures
        is_publish(r, topic@, data@),
{
    let mut topics: Vec<String> = Vec::new();
    topics.push(topic);
    NetworkMessage::Publish { topics, message: data }
}

fn peer_from_text(peer: &String) -> (r: Result<PeerId, RouteError>)
    ensures
        r is Ok <==> names_a_peer(peer@),
        r matches Ok(p) ==> decodes_to_peer(peer@, p@) && p.wf(),
        r is Err ==> r == Err::<PeerId, RouteError>(RouteError::MalformedPeer),
{
    match PeerId::from_base58(peer) {
        Some(p) => {
            proof {
                PeerId::lemma_wf(&p);
            }
            Ok(p)
        },
        None => Err(RouteError::MalformedPeer),
    }
}

/// Builds the command that sends an RPC request with body `data` to the peer
/// whose base58 text is `peer`.
pub fn rpc_request(peer: &String, data: Vec<u8>) -> (r: Result<NetworkMessage, RouteError>)
    ensures
        r is Ok <==> names_a_peer(peer@),
        r matches Ok(m) ==> is_rpc_send(m, peer@, false, data@),
        r is Err ==> r == Err::<NetworkMessage, RouteError>(RouteError::MalformedPeer),
{
    let p = peer_from_text(peer)?;
    let event = RPCEvent::Request(DEFAULT_REQUEST_ID, RPCRequest::Message(data));
    Ok(NetworkMessage::Send(p, OutgoingMessage::RPC(event)))
}

/// Builds the command that sends a successful RPC response with body `data` to
/// the peer whose base58 text is `peer`.
pub fn rpc_response(peer: &String, data: Vec<u8>) -> (r: Result<NetworkMessage, RouteError>)
    ensures
        r is Ok <==> names_a_peer(peer@),
        r matches Ok(m) ==> is_rpc_send(m, peer@, true, data@),
        r is Err ==> r == Err::<NetworkMessage, RouteError>(RouteError::MalformedPeer),
{
    let p = peer_from_text(peer)?;
    let event = RPCEvent::Response(
        DEFAULT_REQUEST_ID,
        RPCErrorResponse::Success(RPCResponse::Message(data)),
    );
    Ok(NetworkMessage::Send(p, OutgoingMessage::RPC(event)))
}

} // verus!
