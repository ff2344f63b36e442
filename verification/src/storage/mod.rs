//! The blob store: whole objects under opaque keys.
//!
//! A store knows four operations and two errors. An object is written and
//! replaced as a whole: there is no appending and no partial update. A store
//! does not order writes to one key that race each other; a caller that needs
//! that mints a fresh key for each write.

use crate::models::id::Uuid;
use vstd::prelude::*;

pub mod filesystem;
pub mod memory;

verus! {

/// Why a store operation failed.
#[derive(Clone, Debug, PartialEq, Eq)]
pub enum StorageError {
    /// There is no object under the key. For `get` and `delete` this is an
    /// ordinary answer.
    NotFound(Uuid),
    /// The medium failed; the text says how.
    Io(String),
}

/// The objects of a store: each key that is present, with the bytes under it.
pub type Objects = Map<u128, Seq<u8>>;

/// Whether two stores hold the same objects under every key but `key`.
pub open spec fn same_elsewhere(before: Objects, after: Objects, key: u128) -> bool {
    before.remove(key) == after.remove(key)
}

/// What `put` owes. Where it succeeds, the object under `key` is `data` and
/// nothing else has changed. Where the medium fails, the other objects are
/// untouched. It never reports `NotFound`.
pub open spec fn put_meets(
    before: Objects,
    key: u128,
    data: Seq<u8>,
    res: Result<(), StorageError>,
    after: Objects,
) -> bool {
    match res {
        Ok(_) => after == before.insert(key, data),
        Err(StorageError::Io(_)) => same_elsewhere(before, after, key),
        Err(StorageError::NotFound(_)) => false,
    }
}

/// What `get` owes. Bytes are those of the object under `key`; `NotFound`
/// names `key` and comes only where no object is under it.
pub open spec fn get_meets(objects: Objects, key: u128, res: Result<Vec<u8>, StorageError>) -> bool {
    match res {
        Ok(data) => objects.contains_key(key) && data@ == objects[key],
        Err(StorageError::NotFound(missing)) => missing@ == key && !objects.contains_key(key),
        Err(StorageError::Io(_)) => true,
    }
}

/// What `delete` owes. Where it succeeds, there was an object under `key`, and
/// it is gone and nothing else has changed. `NotFound` names `key`, comes only
/// where no object was under it, and leaves the store as it was. Where the
/// medium fails, the other objects are untouched.
pub open spec fn delete_meets(
    before: Objects,
    key: u128,
    res: Result<(), StorageError>,
    after: Objects,
) -> bool {
    match res {
        Ok(_) => before.contains_key(key) && after == before.remove(key),
        Err(StorageError::NotFound(missing)) => {
            &&& missing@ == key
            &&& !before.contains_key(key)
            &&& after == before
        },
        Err(StorageError::Io(_)) => same_elsewhere(before, after, key),
    }
}

/// What `contains` owes. An answer says whether an object is under `key`. It
/// never reports `NotFound`: an absent object is the answer `false`.
pub open spec fn contains_meets(objects: Objects, key: u128, res: Result<bool, StorageError>) -> bool {
    match res {
        Ok(present) => present == objects.contains_key(key),
        Err(StorageError::Io(_)) => true,
        Err(StorageError::NotFound(_)) => false,
    }
}

/// A blob store, whatever keeps its objects.
pub trait LocalStorage {
    /// The objects that the store holds.
    spec fn objects(&self) -> Objects;

    /// Writes `data` under `key`, in place of what was there.
    fn put(&mut self, key: Uuid, data: Vec<u8>) -> (res: Result<(), StorageError>)
        ensures
            put_meets(old(self).objects(), key@, data@, res, final(self).objects()),
    ;

    /// Reads the object under `key`.
    fn get(&self, key: Uuid) -> (res: Result<Vec<u8>, StorageError>)
        ensures
            get_meets(self.objects(), key@, res),
    ;

    /// Removes the object under `key`.
    fn delete(&mut self, key: Uuid) -> (res: Result<(), StorageError>)
        ensures
            delete_meets(old(self).objects(), key@, res, final(self).objects()),
    ;

    /// Whether there is an object under `key`.
    fn contains(&self, key: Uuid) -> (res: Result<bool, StorageError>)
        ensures
            contains_meets(self.objects(), key@, res),
    ;
}

/// What was put is what is read: after a `put` that succeeded, a `get` of the
/// same key that the medium does not fail returns those bytes, and `contains`
/// answers `true`.
pub proof fn lemma_put_then_get(
    before: Objects,
    key: u128,
    data: Seq<u8>,
    after: Objects,
    got: Result<Vec<u8>, StorageError>,
    probed: Result<bool, StorageError>,
)
    requires
        put_meets(before, key, data, Ok(()), after),
        get_meets(after, key, got),
        contains_meets(after, key, probed),
    ensures
        got matches Ok(bytes) ==> bytes@ == data,
        !(got is Err && got->Err_0 is NotFound),
        probed matches Ok(present) ==> present,
{
}

/// A second `put` replaces the object: of two writes to one key, a later `get`
/// sees the second only.
pub proof fn lemma_put_overwrites(
    before: Objects,
    key: u128,
    first: Seq<u8>,
    between: Objects,
    second: Seq<u8>,
    after: Objects,
    got: Result<Vec<u8>, StorageError>,
)
    requires
        put_meets(before, key, first, Ok(()), between),
        put_meets(between, key, second, Ok(()), after),
        get_meets(after, key, got),
    ensures
        after == before.insert(key, second),
        got matches Ok(bytes) ==> bytes@ == second,
{
}

/// What was deleted is gone: after a `delete` that succeeded, a `get` of the
/// same key that the medium does not fail reports `NotFound` with that key,
/// and `contains` answers `false`.
pub proof fn lemma_delete_then_get(
    before: Objects,
    key: u128,
    after: Objects,
    got: Result<Vec<u8>, StorageError>,
    probed: Result<bool, StorageError>,
)
    requires
        delete_meets(before, key, Ok(()), after),
        get_meets(after, key, got),
        contains_meets(after, key, probed),
    ensures
        got is Err,
        got matches Err(StorageError::NotFound(missing)) ==> missing@ == key,
        probed matches Ok(present) ==> !present,
{
}

/// A key that nothing was put under is absent: in a store without an object
/// under `key`, `contains` answers `false` and `get` reports `NotFound`.
pub proof fn lemma_absent_before_put(
    objects: Objects,
    key: u128,
    got: Result<Vec<u8>, StorageError>,
    probed: Result<bool, StorageError>,
)
    requires
        !objects.contains_key(key),
        get_meets(objects, key, got),
        contains_meets(objects, key, probed),
    ensures
        got is Err,
        probed matches Ok(present) ==> !present,
{
}

/// A write or a removal under one key leaves every other key as it was,
/// whether it succeeds or not.
pub proof fn lemma_other_keys_untouched(
    before: Objects,
    key: u128,
    data: Seq<u8>,
    res: Result<(), StorageError>,
    after: Objects,
    other: u128,
)
    requires
        put_meets(before, key, data, res, after) || delete_meets(before, key, res, after),
        other != key,
    ensures
        before.contains_key(other) == after.contains_key(other),
        before.contains_key(other) ==> before[other] == after[other],
{
    if !(res is Ok) {
        assert(before.remove(key).contains_key(other) == after.remove(key).contains_key(other));
        assert(before.remove(key)[other] == after.remove(key)[other]);
    }
}

} // verus!
