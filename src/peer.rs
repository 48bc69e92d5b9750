use vstd::prelude::*;
use crate::bytes::big_endian_value;

verus! {

/// The Bitcoin base58 alphabet.
pub open spec fn base58_alphabet() -> Seq<char> {
    seq!['1', '2', '3', '4', '5', '6', '7', '8', '9', 'A', 'B', 'C', 'D', 'E', 'F', 'G', 'H', 'J', 'K', 'L', 'M', 'N', 'P', 'Q', 'R', 'S', 'T', 'U', 'V', 'W', 'X', 'Y', 'Z', 'a', 'b', 'c', 'd', 'e', 'f', 'g', 'h', 'i', 'j', 'k', 'm', 'n', 'o', 'p', 'q', 'r', 's', 't', 'u', 'v', 'w', 'x', 'y', 'z']
}

/// The number of zero bytes that a byte string starts with.
pub open spec fn leading_zeros(b: Seq<u8>) -> nat
    decreases b.len(),
{
    if b.len() == 0 || b[0] != 0 {
        0
    } else {
        1 + leading_zeros(b.drop_first())
    }
}

/// The base58 digits of a number, most significant first, without leading zeros.
pub open spec fn base58_digits(v: nat) -> Seq<char>
    decreases v,
{
    if v == 0 {
        Seq::empty()
    } else {
        base58_digits(v / 58).push(base58_alphabet()[(v % 58) as int])
    }
}

/// The base58 text of a byte string: one '1' for each leading zero byte, then
/// the base58 digits of the bytes read as a big-endian number.
pub open spec fn base58_of(b: Seq<u8>) -> Seq<char> {
    Seq::new(leading_zeros(b), |i: int| '1') + base58_digits(big_endian_value(b))
}

/// Whether bytes are the multihash of a peer id that libp2p accepts.
pub uninterp spec fn is_peer_id_bytes(b: Seq<u8>) -> bool;

/// Whether a decoding gave the bytes `b`.
pub open spec fn decoded_as(r: Option<Vec<u8>>, b: Seq<u8>) -> bool {
    r matches Some(v) && v@ == b
}

/// Relies on `bs58::encode(..).into_string()`: the base58 text of the bytes.
#[verifier::external_body]
fn encode_base58(b: &Vec<u8>) -> (r: String)
    ensures
        r@ == base58_of(b@),
{
    bs58::encode(b).into_string()
}

/// Relies on `bs58::decode(..).into_vec()`: it succeeds exactly on base58 text,
/// and gives back the bytes whose encoding the text is.
#[verifier::external_body]
fn decode_base58(s: &String) -> (r: Option<Vec<u8>>)
    ensures
        r matches Some(v) ==> base58_of(v@) == s@,
        forall|b: Seq<u8>| base58_of(b) == s@ ==> decoded_as(r, b),
{
    bs58::decode(s.as_str()).into_vec().ok()
}

/// Relies on `libp2p::PeerId::from_bytes`: whether the bytes parse as a peer id.
#[verifier::external_body]
fn parses_as_peer_id(b: &Vec<u8>) -> (r: bool)
    ensures
        r == is_peer_id_bytes(b@),
{
    libp2p::PeerId::from_bytes(b.as_slice()).is_ok()
}

/// The identifier of a remote peer, held as its multihash bytes.
pub struct PeerId {
    bytes: Vec<u8>,
}

impl View for PeerId {
    type V = Seq<u8>;

    closed spec fn view(&self) -> Seq<u8> {
        self.bytes@
    }
}

impl PeerId {
    /// Every peer id holds bytes that libp2p accepts.
    pub closed spec fn wf(&self) -> bool {
        is_peer_id_bytes(self.bytes@)
    }

    pub broadcast proof fn lemma_wf(p: &PeerId)
        ensures
            #[trigger] p.wf() == is_peer_id_bytes(p@),
    {
    }

    /// Parses a peer id from its multihash bytes.
    pub fn from_bytes(bytes: Vec<u8>) -> (r: Option<PeerId>)
        ensures
            r is Some <==> is_peer_id_bytes(bytes@),
            r matches Some(p) ==> p@ == bytes@ && p.wf(),
    {
        if parses_as_peer_id(&bytes) {
            Some(PeerId { bytes })
        } else {
            None
        }
    }

    /// The multihash bytes of the peer id.
    pub fn to_bytes(&self) -> (r: Vec<u8>)
        ensures
            r@ == self@,
    {
        crate::bytes::copy_bytes(&self.bytes)
    }

    /// The base58 text of the peer id, as hosts see it.
    pub fn to_base58(&self) -> (r: String)
        ensures
            r@ == base58_of(self@),
    {
        encode_base58(&self.bytes)
    }

    /// Parses a peer id from its base58 text. Text that some peer id encodes to
    /// gives back exactly that peer id.
    pub fn from_base58(s: &String) -> (r: Option<PeerId>)
        ensures
            r matches Some(p) ==> base58_of(p@) == s@ && p.wf(),
            (exists|b: Seq<u8>| #[trigger] base58_of(b) == s@ && is_peer_id_bytes(b)) ==> r is Some,
            forall|b: Seq<u8>|
                #[trigger] base58_of(b) == s@ && is_peer_id_bytes(b) ==> (r matches Some(p) && p@ == b),
    {
        match decode_base58(s) {
            Some(bytes) => PeerId::from_bytes(bytes),
            None => None,
        }
    }
}

} // verus!
