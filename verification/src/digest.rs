//! Content fingerprints: the SHA3-256 digest of a text, spelled in base 58.

use vstd::prelude::*;
use vstd::string::*;
use vstd::utf8::encode_utf8;
use rust_base58::ToBase58;
use sha3::Digest;

verus! {

/// The SHA3-256 digest of `data`.
pub uninterp spec fn sha3_256(data: Seq<u8>) -> Seq<u8>;

/// The base-58 spelling of `data` in the Bitcoin alphabet.
pub uninterp spec fn base58(data: Seq<u8>) -> Seq<char>;

/// `sha3::Sha3_256::digest`: the digest depends on the bytes alone.
#[verifier::external_body]
fn sha3_256_digest(data: &[u8]) -> (digest: Vec<u8>)
    ensures
        digest@ == sha3_256(data@),
{
    sha3::Sha3_256::digest(data).to_vec()
}

/// `rust_base58::ToBase58::to_base58` on a byte slice: the spelling depends
/// on the bytes alone.
#[verifier::external_body]
fn base58_encode(data: &[u8]) -> (text: String)
    ensures
        text@ == base58(data@),
{
    data.to_base58()
}

/// The fingerprint of a text: its UTF-8 bytes digested and spelled out.
pub open spec fn fingerprint(text: Seq<char>) -> Seq<char> {
    base58(sha3_256(encode_utf8(text)))
}

/// The spelling of a text's own UTF-8 bytes, usable as a file name.
pub open spec fn spelled(text: Seq<char>) -> Seq<char> {
    base58(encode_utf8(text))
}

/// Computes the fingerprint of `text`. Equal texts have equal fingerprints.
pub fn content_hash(text: &str) -> (hash: String)
    ensures
        hash@ == fingerprint(text@),
{
    let digest = sha3_256_digest(text.as_bytes());
    base58_encode(digest.as_slice())
}

/// Spells the bytes of `text` in base 58.
pub fn spell(text: &str) -> (name: String)
    ensures
        name@ == spelled(text@),
{
    base58_encode(text.as_bytes())
}

} // verus!
