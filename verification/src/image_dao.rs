//! The image store capability: the same save/load contract as the byte
//! store, kept as its own trait so image persistence can be backed and
//! swapped independently. The in-memory backend is the verified one.

use crate::errors::StoreError;
use crate::kv::kv_map;
use crate::kv::lemma_kv_map_push;
use crate::kv::lemma_kv_map_take_all;
use crate::kv::lemma_kv_map_take_step;
use vstd::prelude::*;

verus! {

/// Durable key/value persistence for image payloads.
pub trait ImageDao: Sized {
    /// The stored images, keyed by identifier.
    spec fn contents(&self) -> Map<Seq<char>, Seq<u8>>;

    /// Whether save and load are guaranteed to succeed.
    spec fn infallible() -> bool;

    /// Persists `image` under `id`. On success the store maps `id` to
    /// `image`; on failure the store is unchanged.
    fn save_image(&mut self, id: &str, image: Vec<u8>) -> (r: Result<(), StoreError>)
        ensures
            r is Ok ==> final(self).contents() == old(self).contents().insert(id@, image@),
            r is Err ==> final(self).contents() == old(self).contents(),
            Self::infallible() ==> r is Ok,
    ;

    /// Looks up the image stored under `id`. Absence is a defined outcome,
    /// `Ok(None)`, never an error.
    fn load_image(&self, id: &str) -> (r: Result<Option<Vec<u8>>, StoreError>)
        ensures
            r matches Ok(Some(image)) ==> self.contents().contains_key(id@) && image@
                == self.contents()[id@],
            r matches Ok(None) ==> !self.contents().contains_key(id@),
            Self::infallible() ==> r is Ok,
    ;
}

/// The in-memory image backend: an owned list of entries in which the newest
/// entry for a key wins. No persistence across process restarts; save and
/// load never fail.
pub struct MemImageDaoImpl {
    /// The stored entries, oldest first.
    pub state: Vec<(String, Vec<u8>)>,
}

impl ImageDao for MemImageDaoImpl {
    open spec fn contents(&self) -> Map<Seq<char>, Seq<u8>> {
        kv_map(self.state@)
    }

    open spec fn infallible() -> bool {
        true
    }

    fn save_image(&mut self, id: &str, image: Vec<u8>) -> (r: Result<(), StoreError>) {
        let key = id.to_owned();
        let ghost entries = self.state@;
        let ghost entry = (key, image);
        self.state.push((key, image));
        proof {
            lemma_kv_map_push(entries, entry);
        }
        Ok(())
    }

    fn load_image(&self, id: &str) -> (r: Result<Option<Vec<u8>>, StoreError>) {
        let key = id.to_owned();
        let ghost entries = self.state@;
        let mut i: usize = self.state.len();
        proof {
            lemma_kv_map_take_all(entries);
        }
        while i > 0
            invariant
                i <= entries.len(),
                entries == self.state@,
                key@ == id@,
                kv_map(entries).contains_key(id@) == kv_map(entries.take(i as int)).contains_key(
                    id@,
                ),
                kv_map(entries).contains_key(id@) ==> kv_map(entries)[id@] == kv_map(
                    entries.take(i as int),
                )[id@],
            decreases i,
        {
            i = i - 1;
            proof {
                lemma_kv_map_take_step(entries, i as int + 1);
            }
            if self.state[i].0 == key {
                return Ok(Some(vstd::slice::slice_to_vec(self.state[i].1.as_slice())));
            }
        }
        assert(entries.take(0) =~= Seq::<(String, Vec<u8>)>::empty());
        Ok(None)
    }
}

} // verus!
