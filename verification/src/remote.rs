//! Interpretation of remote object-store outcomes.
//!
//! The remote backend observes two error shapes for a key it cannot serve:
//! a structured "no such key" error, and an unstructured service error whose
//! printed text carries an "access denied" code (the shape actually returned
//! for an absent key). Both read as "not found", `Ok(None)`, never as a hard
//! failure: a caller cannot tell a truly missing object from one its
//! credentials cannot see. Every other failure is `BackendUnavailable`. This
//! mapping is a deliberate policy; it is stated and tested here rather than
//! left implicit in the transport code.

use crate::errors::StoreError;
use vstd::prelude::*;

verus! {

/// Whether `needle` occurs as a contiguous run inside `hay`.
pub open spec fn contains_seq(hay: Seq<u8>, needle: Seq<u8>) -> bool {
    exists|i: int|
        0 <= i && i + needle.len() <= hay.len() && #[trigger] hay.subrange(
            i,
            i + needle.len() as int,
        ) == needle
}

/// Whether `needle` occurs in `hay` starting at position `i`.
fn matches_at(hay: &[u8], needle: &[u8], i: usize) -> (m: bool)
    requires
        i + needle@.len() <= hay@.len(),
    ensures
        m == (hay@.subrange(i as int, i as int + needle@.len() as int) == needle@),
{
    let n = needle.len();
    let h = hay.len();
    let mut j: usize = 0;
    while j < n
        invariant
            j <= n,
            n == needle@.len(),
            h == hay@.len(),
            i + n <= h,
            forall|t: int| 0 <= t < j ==> hay@[i + t] == needle@[t],
        decreases n - j,
    {
        if hay[i + j] != needle[j] {
            assert(hay@.subrange(i as int, i as int + needle@.len() as int)[j as int] == hay@[i
                + j]);
            return false;
        }
        j = j + 1;
    }
    assert(hay@.subrange(i as int, i as int + needle@.len() as int) =~= needle@);
    true
}

/// Verified substring search over bytes.
pub fn contains_subslice(hay: &[u8], needle: &[u8]) -> (found: bool)
    ensures
        found == contains_seq(hay@, needle@),
{
    let n = needle.len();
    let h = hay.len();
    if n == 0 {
        assert(contains_seq(hay@, needle@)) by {
            assert(hay@.subrange(0, 0 + needle@.len() as int) =~= needle@);
        }
        return true;
    }
    if n > h {
        assert(!contains_seq(hay@, needle@)) by {
            if contains_seq(hay@, needle@) {
                let i = choose|i: int|
                    0 <= i && i + needle@.len() <= hay@.len() && #[trigger] hay@.subrange(
                        i,
                        i + needle@.len() as int,
                    ) == needle@;
                assert(i + needle@.len() <= hay@.len());
            }
        }
        return false;
    }
    let mut i: usize = 0;
    while i <= h - n
        invariant
            0 < n <= h,
            n == needle@.len(),
            h == hay@.len(),
            i <= h - n + 1,
            forall|k: int|
                0 <= k < i ==> #[trigger] hay@.subrange(k, k + needle@.len() as int) != needle@,
        decreases h - n + 1 - i,
    {
        if matches_at(hay, needle, i) {
            assert(contains_seq(hay@, needle@)) by {
                assert(hay@.subrange(i as int, i as int + needle@.len() as int) == needle@);
            }
            return true;
        }
        i = i + 1;
    }
    assert(!contains_seq(hay@, needle@)) by {
        if contains_seq(hay@, needle@) {
            let k = choose|k: int|
                0 <= k && k + needle@.len() <= hay@.len() && #[trigger] hay@.subrange(
                    k,
                    k + needle@.len() as int,
                ) == needle@;
            assert(0 <= k < i);
        }
    }
    false
}

/// The code by which the remote service's unstructured "access denied" error
/// is recognized in its printed text.
pub open spec fn access_denied_marker() -> Seq<u8> {
    seq![
        'c' as u8,
        'o' as u8,
        'd' as u8,
        'e' as u8,
        ':' as u8,
        ' ' as u8,
        '"' as u8,
        'A' as u8,
        'c' as u8,
        'c' as u8,
        'e' as u8,
        's' as u8,
        's' as u8,
        'D' as u8,
        'e' as u8,
        'n' as u8,
        'i' as u8,
        'e' as u8,
        'd' as u8,
        '"' as u8,
    ]
}

/// Builds the marker as bytes for the executable search.
pub fn access_denied_marker_bytes() -> (marker: Vec<u8>)
    ensures
        marker@ == access_denied_marker(),
{
    let marker: Vec<u8> = vec![
        'c' as u8,
        'o' as u8,
        'd' as u8,
        'e' as u8,
        ':' as u8,
        ' ' as u8,
        '"' as u8,
        'A' as u8,
        'c' as u8,
        'c' as u8,
        'e' as u8,
        's' as u8,
        's' as u8,
        'D' as u8,
        'e' as u8,
        'n' as u8,
        'i' as u8,
        'e' as u8,
        'd' as u8,
        '"' as u8,
    ];
    assert(marker@ =~= access_denied_marker());
    marker
}

/// Whether an unstructured service error's printed text reports an access
/// denial.
pub fn is_access_denied_text(text: &[u8]) -> (denied: bool)
    ensures
        denied == contains_seq(text@, access_denied_marker()),
{
    let marker = access_denied_marker_bytes();
    contains_subslice(text, marker.as_slice())
}

/// How one remote download attempt ended, as handed back by the transport.
pub enum FetchOutcome {
    /// The object was served; its bytes.
    Fetched(Vec<u8>),
    /// The service refused with an unstructured error; its printed text.
    ServiceUnhandled(Vec<u8>),
    /// The service reported that no such key exists.
    ServiceNoSuchKey,
    /// The service refused in some other structured way.
    ServiceOther,
    /// The request did not reach the service, or failed in transport.
    Transport,
}

/// The view of a load result: payload bytes become a byte sequence.
pub open spec fn loaded_view(r: Result<Option<Vec<u8>>, StoreError>) -> Result<
    Option<Seq<u8>>,
    StoreError,
> {
    match r {
        Ok(Some(bytes)) => Ok(Some(bytes@)),
        Ok(None) => Ok(None),
        Err(e) => Err(e),
    }
}

/// What a download outcome means at the store interface: served bytes are
/// the payload; "no such key" and the unstructured "access denied" text both
/// mean absence; everything else is a transient backend failure.
pub open spec fn download_meaning(outcome: FetchOutcome) -> Result<Option<Seq<u8>>, StoreError> {
    match outcome {
        FetchOutcome::Fetched(bytes) => Ok(Some(bytes@)),
        FetchOutcome::ServiceUnhandled(text) => if contains_seq(text@, access_denied_marker()) {
            Ok(None)
        } else {
            Err(StoreError::BackendUnavailable)
        },
        FetchOutcome::ServiceNoSuchKey => Ok(None),
        FetchOutcome::ServiceOther => Err(StoreError::BackendUnavailable),
        FetchOutcome::Transport => Err(StoreError::BackendUnavailable),
    }
}

/// Translates a remote download outcome into the store's load result.
pub fn interpret_download(outcome: FetchOutcome) -> (r: Result<Option<Vec<u8>>, StoreError>)
    ensures
        loaded_view(r) == download_meaning(outcome),
{
    match outcome {
        FetchOutcome::Fetched(bytes) => Ok(Some(bytes)),
        FetchOutcome::ServiceUnhandled(text) => {
            if is_access_denied_text(text.as_slice()) {
                Ok(None)
            } else {
                Err(StoreError::BackendUnavailable)
            }
        },
        FetchOutcome::ServiceNoSuchKey => Ok(None),
        FetchOutcome::ServiceOther => Err(StoreError::BackendUnavailable),
        FetchOutcome::Transport => Err(StoreError::BackendUnavailable),
    }
}

/// How one remote upload attempt ended, as handed back by the transport.
pub enum StoreAttemptOutcome {
    /// The object was stored.
    Stored,
    /// The service refused the write for quota or policy reasons.
    Refused,
    /// The request did not reach the service, or failed in transport.
    Transport,
}

/// What an upload outcome means at the store interface.
pub open spec fn upload_meaning(outcome: StoreAttemptOutcome) -> Result<(), StoreError> {
    match outcome {
        StoreAttemptOutcome::Stored => Ok(()),
        StoreAttemptOutcome::Refused => Err(StoreError::BackendRejected),
        StoreAttemptOutcome::Transport => Err(StoreError::BackendUnavailable),
    }
}

/// Translates a remote upload outcome into the store's save result.
pub fn interpret_upload(outcome: StoreAttemptOutcome) -> (r: Result<(), StoreError>)
    ensures
        r == upload_meaning(outcome),
{
    match outcome {
        StoreAttemptOutcome::Stored => Ok(()),
        StoreAttemptOutcome::Refused => Err(StoreError::BackendRejected),
        StoreAttemptOutcome::Transport => Err(StoreError::BackendUnavailable),
    }
}

} // verus!
