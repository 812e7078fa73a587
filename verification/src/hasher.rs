//! Content addressing: a payload's identifier is the text-safe encoding of
//! its cryptographic digest. The identifier doubles as the storage key and
//! as the value the state oracle is expected to hold, so it must be a
//! deterministic function of the payload bytes alone.

use base64::Engine;
use sha2::Digest;
use vstd::prelude::*;

verus! {

/// The digest of a byte sequence, as computed by SHA-256. The result is a
/// function of the input bytes alone.
pub uninterp spec fn sha256_of(bytes: Seq<u8>) -> Seq<u8>;

/// The standard base64 encoding (with padding) of a byte sequence. The
/// result is a function of the input bytes alone.
pub uninterp spec fn base64_of(bytes: Seq<u8>) -> Seq<char>;

/// The content identifier of a payload: its SHA-256 digest, rendered as
/// base64 text so it can serve as a storage key and URL path segment.
pub open spec fn id_of(bytes: Seq<u8>) -> Seq<char> {
    base64_of(sha256_of(bytes))
}

/// Relies on sha2::Sha256: the digest is 32 bytes and depends on the input
/// bytes alone.
#[verifier::external_body]
fn sha256(bytes: &[u8]) -> (digest: Vec<u8>)
    ensures
        digest@ == sha256_of(bytes@),
        digest@.len() == 32,
{
    sha2::Sha256::digest(bytes).to_vec()
}

/// Relies on base64's standard engine: the encoding depends on the input
/// bytes alone, and encoding nothing yields the empty string.
#[verifier::external_body]
fn base64_encode(bytes: &[u8]) -> (encoded: String)
    ensures
        encoded@ == base64_of(bytes@),
        bytes@.len() == 0 ==> encoded@.len() == 0,
{
    base64::engine::general_purpose::STANDARD.encode(bytes)
}

/// Computes the content identifier of a payload. Deterministic: the result
/// is fixed by the payload bytes, so repeated calls on equal payloads agree.
pub fn digest(bytes: &[u8]) -> (id: String)
    ensures
        id@ == id_of(bytes@),
{
    let raw = sha256(bytes);
    base64_encode(raw.as_slice())
}

/// Determinism law: the identifier is a function of the payload bytes alone,
/// so any two results of `digest` on equal payloads are equal, across
/// repeated calls and across process restarts.
pub proof fn lemma_digest_deterministic(bytes: Seq<u8>, id1: Seq<char>, id2: Seq<char>)
    requires
        id1 == id_of(bytes),
        id2 == id_of(bytes),
    ensures
        id1 == id2,
{
}

} // verus!
