//! The digest that links a message to its predecessor.

use sha2::{Digest, Sha256};
use vstd::prelude::*;
use vstd::string::*;
use vstd::utf8::encode_utf8;

verus! {

/// The SHA-256 digest of a byte string.
pub uninterp spec fn sha256_digest(data: Seq<u8>) -> Seq<u8>;

/// The URL-safe Base64 text, without padding, of a byte string.
pub uninterp spec fn base64_url_text(data: Seq<u8>) -> Seq<char>;

/// The link that binds message `message_id` to `previous_or_seed`: the
/// URL-safe text of the digest of the two, taken as UTF-8 bytes one after the
/// other.  The seed of a process's first message is the process id; every
/// later message is linked to the link before it.
pub open spec fn hash_chain_link(previous_or_seed: Seq<char>, message_id: Seq<char>) -> Seq<char> {
    base64_url_text(sha256_digest(encode_utf8(previous_or_seed) + encode_utf8(message_id)))
}

/// `sha2::Sha256::digest`, the one-shot form of the hasher.  Trusted: the
/// bytes that come back are the SHA-256 digest of `data`, a function of
/// `data` alone.
#[verifier::external_body]
fn sha256(data: &Vec<u8>) -> (out: Vec<u8>)
    ensures
        out@ == sha256_digest(data@),
{
    Sha256::digest(data).to_vec()
}

/// `base64_url::encode`.  Trusted: the string that comes back is the
/// URL-safe, unpadded Base64 text of `data`, a function of `data` alone.
#[verifier::external_body]
fn base64_url_encode(data: &Vec<u8>) -> (out: String)
    ensures
        out@ == base64_url_text(data@),
{
    base64_url::encode(data)
}

/// Computes the link for `message_id` after `previous_or_seed`.
pub fn gen_hash_chain(previous_or_seed: &str, message_id: &str) -> (link: String)
    ensures
        link@ == hash_chain_link(previous_or_seed@, message_id@),
{
    let mut input: Vec<u8> = previous_or_seed.as_bytes_vec();
    let mut tail: Vec<u8> = message_id.as_bytes_vec();
    input.append(&mut tail);
    let digest = sha256(&input);
    base64_url_encode(&digest)
}

} // verus!
