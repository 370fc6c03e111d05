use vstd::prelude::*;

use vstd::string::StringSliceAdditionalSpecFns;

verus! {

/// Name for the SHA-1 digest of a message: a function of the message alone.
pub uninterp spec fn sha1_of(msg: Seq<u8>) -> Seq<u8>;

/// Name for the standard base64 encoding, with padding, of a byte sequence:
/// a function of the bytes alone.
pub uninterp spec fn base64_std(bytes: Seq<u8>) -> Seq<char>;

/// Relies on sha1::Sha1 through digest::Digest::digest: the SHA-1 digest of
/// the message, always 20 bytes and a function of the message alone.
#[verifier::external_body]
fn sha1_digest(msg: &Vec<u8>) -> (r: Vec<u8>)
    ensures
        r@ == sha1_of(msg@),
        r@.len() == 20,
{
    let digest = <sha1::Sha1 as sha1::Digest>::digest(msg.as_slice());
    digest.to_vec()
}

/// Relies on base64::engine::general_purpose::STANDARD through
/// base64::Engine::encode: standard-alphabet base64 with padding, a function
/// of the input bytes alone, four output characters per started triple.
#[verifier::external_body]
fn base64_encode(bytes: &Vec<u8>) -> (r: String)
    ensures
        r@ == base64_std(bytes@),
        r@.len() == 4 * ((bytes@.len() + 2) / 3),
{
    base64::Engine::encode(&base64::engine::general_purpose::STANDARD, bytes.as_slice())
}

/// The fixed GUID the WebSocket protocol appends to the client key before
/// hashing.
pub open spec fn ws_guid_bytes() -> Seq<u8> {
    "258EAFA5-E914-47DA-95CA-C5AB0DC85B11".spec_bytes()
}

/// The accept token owed to a client key: standard base64 of the SHA-1 digest
/// of the key, as given, followed by the fixed GUID.
pub open spec fn accept_token_spec(key: Seq<u8>) -> Seq<char> {
    base64_std(sha1_of(key + ws_guid_bytes()))
}

/// Appends every byte of `src` to `dst`.
fn push_bytes(dst: &mut Vec<u8>, src: &[u8])
    ensures
        final(dst)@ == old(dst)@ + src@,
{
    let ghost start = dst@;
    let mut i: usize = 0;
    while i < src.len()
        invariant
            i <= src@.len(),
            dst@ == start + src@.subrange(0, i as int),
        decreases src@.len() - i,
    {
        dst.push(src[i]);
        proof {
            assert(start + src@.subrange(0, i + 1 as int) =~= (start + src@.subrange(
                0,
                i as int,
            )).push(src@[i as int]));
        }
        i = i + 1;
    }
    proof {
        assert(src@.subrange(0, src@.len() as int) =~= src@);
    }
}

/// Computes the WebSocket accept token for a client-supplied key, taken as
/// given and not decoded.
pub fn compute_accept_token(key: &[u8]) -> (r: String)
    ensures
        r@ == accept_token_spec(key@),
{
    let mut msg: Vec<u8> = Vec::new();
    push_bytes(&mut msg, key);
    let guid: &str = "258EAFA5-E914-47DA-95CA-C5AB0DC85B11";
    push_bytes(&mut msg, guid.as_bytes());
    assert(msg@ =~= key@ + ws_guid_bytes());
    let digest = sha1_digest(&msg);
    base64_encode(&digest)
}

} // verus!
