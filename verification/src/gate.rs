//! The write gate and the read path.
//!
//! A write runs: hash the payload, ask the state oracle whether the computed
//! identifier is the currently recorded value of the requested field, and
//! only on an exact match persist the payload under that identifier. Any
//! mismatch, including an unset field or a missing entity, is a defined
//! denial, not an error, and leaves the store untouched. Reads are a direct
//! pass-through to the store; no verification is performed on reads.

use crate::bytes_dao::BytesDao;
use crate::errors::store_error_to_put_error;
use crate::errors::PutError;
use crate::errors::StoreError;
use crate::hasher::digest;
use crate::hasher::id_of;
use vstd::prelude::*;

verus! {

/// Which recorded field of the entity a payload is verified against.
#[derive(Clone, Copy, Debug, PartialEq, Eq, Structural)]
pub enum Field {
    ImageHash,
    DescriptionHash,
}

/// One question to the state oracle: is `expected_hash` the currently
/// recorded value of `field` on the entity named `entity_id`?
pub struct VerificationQuery {
    pub entity_id: String,
    pub field: Field,
    pub expected_hash: String,
}

/// Builds the verification query for a payload: the expected hash is the
/// payload's content identifier.
pub fn verification_query(entity_id: String, field: Field, bytes: &[u8]) -> (q: VerificationQuery)
    ensures
        q.entity_id == entity_id,
        q.field == field,
        q.expected_hash@ == id_of(bytes@),
{
    let expected_hash = digest(bytes);
    VerificationQuery { entity_id, field, expected_hash }
}

/// The state oracle's answer for the queried field.
pub enum OracleAnswer {
    /// The field currently holds this value.
    Recorded(String),
    /// The entity exists but the field is unset: a defined mismatch.
    Unset,
    /// The entity is unknown to the oracle: a defined mismatch.
    EntityNotFound,
    /// The oracle could not be reached; nothing is known.
    Unavailable,
}

/// Whether the oracle's answer authorizes storing the payload: it must
/// hold a recorded value exactly equal to the payload's content
/// identifier. No normalization is applied.
pub open spec fn gate_allows(bytes: Seq<u8>, answer: OracleAnswer) -> bool {
    answer matches OracleAnswer::Recorded(value) && value@ == id_of(bytes)
}

/// What the write gate decided for a single write.
pub enum GateDecision {
    /// The oracle confirmed the identifier: persist under it.
    Granted(String),
    /// The oracle returned something else: do not persist.
    Denied,
    /// The oracle could not be reached: do not persist, surface an error.
    Unavailable,
}

/// Decides one write request from the payload and the oracle's answer:
/// grants exactly when the recorded value equals the payload's content
/// identifier.
pub fn gate_step(bytes: &[u8], answer: &OracleAnswer) -> (d: GateDecision)
    ensures
        match d {
            GateDecision::Granted(id) => id@ == id_of(bytes@) && gate_allows(bytes@, *answer),
            GateDecision::Denied => !gate_allows(bytes@, *answer) && !(*answer
                is Unavailable),
            GateDecision::Unavailable => *answer is Unavailable,
        },
{
    match answer {
        OracleAnswer::Recorded(value) => {
            let id = digest(bytes);
            if *value == id {
                GateDecision::Granted(id)
            } else {
                GateDecision::Denied
            }
        },
        OracleAnswer::Unset => GateDecision::Denied,
        OracleAnswer::EntityNotFound => GateDecision::Denied,
        OracleAnswer::Unavailable => GateDecision::Unavailable,
    }
}

/// A gated write: persists `bytes` under its content identifier exactly when
/// the oracle's answer grants it.
///
/// Returns `Ok(Some(id))` on a granted and persisted write, `Ok(None)` on a
/// denial (nothing persisted), and an error when the oracle or the backend
/// failed (nothing persisted either way).
pub fn put<D: BytesDao>(dao: &mut D, bytes: Vec<u8>, answer: &OracleAnswer) -> (r: Result<
    Option<String>,
    PutError,
>)
    ensures
        match r {
            Ok(Some(id)) => gate_allows(bytes@, *answer) && id@ == id_of(bytes@)
                && final(dao).contents() == old(dao).contents().insert(id_of(bytes@), bytes@),
            Ok(None) => !gate_allows(bytes@, *answer) && !(*answer is Unavailable)
                && final(dao).contents() == old(dao).contents(),
            Err(PutError::OracleUnavailable) => *answer is Unavailable && final(dao).contents()
                == old(dao).contents(),
            Err(_) => gate_allows(bytes@, *answer) && !D::infallible() && final(dao).contents()
                == old(dao).contents(),
        },
        // Gate soundness: without a granting answer nothing is persisted.
        !gate_allows(bytes@, *answer) ==> final(dao).contents() == old(dao).contents() && !(
        r matches Ok(Some(_))),
        // Gate completeness: a granting answer and a backend that cannot
        // fail yield the identifier.
        gate_allows(bytes@, *answer) && D::infallible() ==> (r matches Ok(Some(id)) && id@
            == id_of(bytes@)),
{
    match gate_step(bytes.as_slice(), answer) {
        GateDecision::Granted(id) => {
            match dao.save_bytes(id.as_str(), bytes) {
                Ok(()) => Ok(Some(id)),
                Err(e) => Err(store_error_to_put_error(e)),
            }
        },
        GateDecision::Denied => Ok(None),
        GateDecision::Unavailable => Err(PutError::OracleUnavailable),
    }
}

/// The read path: looks the identifier up in the store. Absence is
/// `Ok(None)`, never an error; no verification is performed.
pub fn get<D: BytesDao>(dao: &D, id: &str) -> (r: Result<Option<Vec<u8>>, StoreError>)
    ensures
        r matches Ok(Some(bytes)) ==> dao.contents().contains_key(id@) && bytes@
            == dao.contents()[id@],
        r matches Ok(None) ==> !dao.contents().contains_key(id@),
        D::infallible() ==> r is Ok,
        // Not-found distinction: an unknown identifier reads as `Ok(None)`.
        D::infallible() && !dao.contents().contains_key(id@) ==> r == Ok::<
            Option<Vec<u8>>,
            StoreError,
        >(None),
{
    dao.load_bytes(id)
}

/// Round-trip law: after a granted put of a payload, a get of the returned
/// identifier yields exactly that payload.
pub proof fn lemma_round_trip(
    contents: Map<Seq<char>, Seq<u8>>,
    bytes: Seq<u8>,
    answer: OracleAnswer,
)
    requires
        gate_allows(bytes, answer),
    ensures
        contents.insert(id_of(bytes), bytes).contains_key(id_of(bytes)),
        contents.insert(id_of(bytes), bytes)[id_of(bytes)] == bytes,
{
}

/// Idempotence law: a second granted put of the same payload changes
/// nothing; the store keeps one logical entry for the identifier, and both
/// puts return the same identifier, `id_of(bytes)`.
pub proof fn lemma_put_idempotent(contents: Map<Seq<char>, Seq<u8>>, bytes: Seq<u8>)
    ensures
        contents.insert(id_of(bytes), bytes).insert(id_of(bytes), bytes) == contents.insert(
            id_of(bytes),
            bytes,
        ),
{
    assert(contents.insert(id_of(bytes), bytes).insert(id_of(bytes), bytes) =~= contents.insert(
        id_of(bytes),
        bytes,
    ));
}

} // verus!
