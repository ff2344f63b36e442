//! A store that keeps its objects in memory.

use crate::models::id::Uuid;
use crate::storage::{
    delete_meets, contains_meets, get_meets, put_meets, LocalStorage, Objects, StorageError,
};
use std::collections::HashMap;
use vstd::prelude::*;
use vstd::slice::slice_to_vec;

verus! {

/// A blob store in memory. Its medium cannot fail, so it never reports `Io`:
/// it shows what a store owes where nothing goes wrong.
pub struct MemoryStorage {
    objects: HashMap<u128, Vec<u8>>,
}

impl MemoryStorage {
    /// A store with no objects.
    pub fn new() -> (store: MemoryStorage)
        ensures
            store.objects() == Map::<u128, Seq<u8>>::empty(),
    {
        let store = MemoryStorage { objects: HashMap::new() };
        assert(store.objects() =~= Map::<u128, Seq<u8>>::empty());
        store
    }
}

impl LocalStorage for MemoryStorage {
    closed spec fn objects(&self) -> Objects {
        self.objects@.map_values(|data: Vec<u8>| data@)
    }

    fn put(&mut self, key: Uuid, data: Vec<u8>) -> (res: Result<(), StorageError>)
        ensures
            res is Ok,
    {
        broadcast use vstd::std_specs::hash::group_hash_axioms;

        self.objects.insert(key.0, data);
        assert(self.objects() =~= old(self).objects().insert(key@, data@));
        Ok(())
    }

    fn get(&self, key: Uuid) -> (res: Result<Vec<u8>, StorageError>)
        ensures
            res is Ok <==> self.objects().contains_key(key@),
            !(res is Err && res->Err_0 is Io),
    {
        broadcast use vstd::std_specs::hash::group_hash_axioms;

        match self.objects.get(&key.0) {
            Some(data) => Ok(slice_to_vec(data.as_slice())),
            None => Err(StorageError::NotFound(key)),
        }
    }

    fn delete(&mut self, key: Uuid) -> (res: Result<(), StorageError>)
        ensures
            res is Ok <==> old(self).objects().contains_key(key@),
            !(res is Err && res->Err_0 is Io),
    {
        broadcast use vstd::std_specs::hash::group_hash_axioms;

        match self.objects.remove(&key.0) {
            Some(_) => {
                assert(self.objects() =~= old(self).objects().remove(key@));
                Ok(())
            },
            None => {
                assert(self.objects() =~= old(self).objects());
                Err(StorageError::NotFound(key))
            },
        }
    }

    fn contains(&self, key: Uuid) -> (res: Result<bool, StorageError>)
        ensures
            res is Ok,
    {
        broadcast use vstd::std_specs::hash::group_hash_axioms;

        Ok(self.objects.contains_key(&key.0))
    }
}

} // verus!
