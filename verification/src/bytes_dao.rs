//! The blob-store capability: durable key/value persistence for opaque byte
//! payloads, keyed by the textual content identifier. Backends are
//! interchangeable behind the `BytesDao` trait; the in-memory backend is the
//! verified one and serves tests and local development.

use crate::errors::StoreError;
use crate::kv::kv_map;
use crate::kv::lemma_kv_map_push;
use crate::kv::lemma_kv_map_take_all;
use crate::kv::lemma_kv_map_take_step;
use vstd::prelude::*;

verus! {

/// Durable key/value persistence for opaque byte payloads.
///
/// `contents` is the backend's abstract state: the map from identifiers to
/// stored payloads. `infallible` says whether the backend can fail at all;
/// an in-process backend cannot, a remote one can.
pub trait BytesDao: Sized {
    /// The stored payloads, keyed by identifier.
    spec fn contents(&self) -> Map<Seq<char>, Seq<u8>>;

    /// Whether save and load are guaranteed to succeed.
    spec fn infallible() -> bool;

    /// Persists `bytes` under `id`. On success the store maps `id` to
    /// `bytes`; on failure the store is unchanged.
    fn save_bytes(&mut self, id: &str, bytes: Vec<u8>) -> (r: Result<(), StoreError>)
        ensures
            r is Ok ==> final(self).contents() == old(self).contents().insert(id@, bytes@),
            r is Err ==> final(self).contents() == old(self).contents(),
            Self::infallible() ==> r is Ok,
    ;

    /// Looks up the payload stored under `id`. Absence is a defined
    /// outcome, `Ok(None)`, never an error.
    fn load_bytes(&self, id: &str) -> (r: Result<Option<Vec<u8>>, StoreError>)
        ensures
            r matches Ok(Some(bytes)) ==> self.contents().contains_key(id@) && bytes@
                == self.contents()[id@],
            r matches Ok(None) ==> !self.contents().contains_key(id@),
            Self::infallible() ==> r is Ok,
    ;
}

/// The in-memory backend: an owned list of entries in which the newest entry
/// for a key wins. No persistence across process restarts; save and load
/// never fail.
pub struct MemBytesDaoImpl {
    /// The stored entries, oldest first.
    pub state: Vec<(String, Vec<u8>)>,
}

impl BytesDao for MemBytesDaoImpl {
    open spec fn contents(&self) -> Map<Seq<char>, Seq<u8>> {
        kv_map(self.state@)
    }

    open spec fn infallible() -> bool {
        true
    }

    fn save_bytes(&mut self, id: &str, bytes: Vec<u8>) -> (r: Result<(), StoreError>) {
        let key = id.to_owned();
        let ghost entries = self.state@;
        let ghost entry = (key, bytes);
        self.state.push((key, bytes));
        proof {
            lemma_kv_map_push(entries, entry);
        }
        Ok(())
    }

    fn load_bytes(&self, id: &str) -> (r: Result<Option<Vec<u8>>, StoreError>) {
        let key = id.to_owned();
        let ghost entries = self.state@;
        let mut i: usize = self.state.len();
        proof {
            lemma_kv_map_take_all(entries);
        }
        while i > 0
            invariant
                i <= entries.len(),
                entries == self.state@,
                key@ == id@,
                kv_map(entries).contains_key(id@) == kv_map(entries.take(i as int)).contains_key(
                    id@,
                ),
                kv_map(entries).contains_key(id@) ==> kv_map(entries)[id@] == kv_map(
                    entries.take(i as int),
                )[id@],
            decreases i,
        {
            i = i - 1;
            proof {
                lemma_kv_map_take_step(entries, i as int + 1);
            }
            if self.state[i].0 == key {
                return Ok(Some(vstd::slice::slice_to_vec(self.state[i].1.as_slice())));
            }
        }
        assert(entries.take(0) =~= Seq::<(String, Vec<u8>)>::empty());
        Ok(None)
    }
}

} // verus!
