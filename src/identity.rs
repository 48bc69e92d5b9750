use vstd::prelude::*;
use crate::bytes::big_endian_value;

verus! {

/// Length of a secp256k1 secret key as it is stored on disk.
pub const SECRET_KEY_LENGTH: usize = 32;

/// The order of the secp256k1 group.
pub open spec fn secp256k1_order() -> nat {
    0xFFFFFFFFFFFFFFFFFFFFFFFFFFFFFFFEBAAEDCE6AF48A03BBFD25E8CD0364141nat
}

/// Whether bytes are a secp256k1 secret key: 24 to 32 bytes whose big-endian
/// value is a non-zero scalar below the group order.
pub open spec fn secp256k1_accepts(b: Seq<u8>) -> bool {
    &&& MIN_SECRET_KEY_LENGTH <= b.len() <= SECRET_KEY_LENGTH
    &&& 0 < big_endian_value(b) < secp256k1_order()
}

/// Shortest secret key that is accepted; shorter keys are zero-padded on the left.
pub const MIN_SECRET_KEY_LENGTH: usize = 24;

/// A secret key of at most 32 bytes, zero-padded on the left to 32 bytes.
pub open spec fn padded_secret(b: Seq<u8>) -> Seq<u8> {
    Seq::new((SECRET_KEY_LENGTH - b.len()) as nat, |i: int| 0u8) + b
}

/// Relies on `libp2p::identity::secp256k1::SecretKey::try_from_bytes` and
/// `SecretKey::to_bytes`: the key parses where libp2p accepts the bytes, which
/// takes 24 to 32 of them; it is then written as the input zero-padded on the
/// left to 32 bytes, which parse back.
#[verifier::external_body]
fn parse_secret_key(b: &Vec<u8>) -> (r: Option<Vec<u8>>)
    ensures
        r is Some <==> secp256k1_accepts(b@),
        r matches Some(v) ==> v@.len() == SECRET_KEY_LENGTH && secp256k1_accepts(v@),
        r is Some ==> MIN_SECRET_KEY_LENGTH <= b@.len() <= SECRET_KEY_LENGTH,
        r matches Some(v) ==> v@ == padded_secret(b@),
{
    let mut copy = b.clone();
    libp2p::identity::secp256k1::SecretKey::try_from_bytes(&mut copy).ok().map(|k| k.to_bytes().to_vec())
}

/// Relies on `libp2p::identity::secp256k1::SecretKey::generate`: a random
/// non-zero scalar, written as 32 bytes that parse back as a key.
#[verifier::external_body]
fn generate_secret_key() -> (r: Vec<u8>)
    ensures
        r@.len() == SECRET_KEY_LENGTH,
        secp256k1_accepts(r@),
{
    libp2p::identity::secp256k1::SecretKey::generate().to_bytes().to_vec()
}

/// The node's secret key, and whether it was generated and still has to be saved.
pub struct LoadedKey {
    pub secret: Vec<u8>,
    pub generated: bool,
}

/// Chooses the node's secret key from the content of the key file, if it could
/// be read: a valid key there is kept; otherwise a fresh key is generated.
pub fn load_private_key(key_file: Option<Vec<u8>>) -> (r: LoadedKey)
    ensures
        r.secret@.len() == SECRET_KEY_LENGTH,
        secp256k1_accepts(r.secret@),
        r.generated <==> !(key_file matches Some(b) && secp256k1_accepts(b@)),
        key_file is Some && secp256k1_accepts(key_file.unwrap()@)
            ==> r.secret@ == padded_secret(key_file.unwrap()@),
        ({
            &&& key_file is Some
            &&& secp256k1_accepts(key_file.unwrap()@)
            &&& key_file.unwrap()@.len() == SECRET_KEY_LENGTH
        }) ==> r.secret@ == key_file.unwrap()@,
{
    if let Some(bytes) = key_file {
        if let Some(secret) = parse_secret_key(&bytes) {
            proof {
                if bytes@.len() == SECRET_KEY_LENGTH {
                    assert(padded_secret(bytes@) =~= bytes@);
                }
            }
            return LoadedKey { secret, generated: false };
        }
    }
    LoadedKey { secret: generate_secret_key(), generated: true }
}

} // verus!
