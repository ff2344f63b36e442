//! The store on a file system: one file for each object, named by the
//! canonical text of its key, in one directory.
//!
//! The file operations themselves are the caller's. Here is what does not
//! need the medium: which file in which directory holds an object, and what a
//! reply of the medium means for the store's caller.

use crate::models::id::{
    hyphenated, is_canonical_char, lemma_hyphenated_injective, lemma_hyphenated_shape, uuid_text,
    Uuid,
};
use crate::storage::StorageError;
use vstd::prelude::*;

verus! {

/// What the medium reported when an operation failed.
#[derive(Clone, Debug, PartialEq, Eq)]
pub struct Fault {
    /// Whether the medium reported that the file does not exist.
    pub not_found: bool,
    /// The medium's own words.
    pub message: String,
}

/// How reading a file went.
#[derive(Clone, Debug, PartialEq, Eq)]
pub enum ReadOutcome {
    /// The file could not be opened.
    NotOpened(Fault),
    /// The file was opened and reading it failed.
    Interrupted(Fault),
    /// The file was read to its end.
    Complete(Vec<u8>),
}

/// Whether `name` can be one component of a path on every platform: it is not
/// empty and holds lower-case hexadecimal digits and hyphens only, so no
/// separator, no dot and no drive letter's colon.
pub open spec fn is_plain_component(name: Seq<char>) -> bool {
    name.len() > 0 && forall|i: int| 0 <= i < name.len() ==> is_canonical_char(#[trigger] name[i])
}

/// The blob store on a file system.
#[derive(Clone, Debug)]
pub struct FilesystemStorage {
    root: String,
}

impl FilesystemStorage {
    /// The directory that holds the files.
    pub closed spec fn root(&self) -> Seq<char> {
        self.root@
    }

    /// A store in the directory `root`.
    pub fn new(root: String) -> (store: FilesystemStorage)
        ensures
            store.root() == root@,
    {
        FilesystemStorage { root }
    }

    /// The directory that holds the files.
    pub fn root_dir(&self) -> (root: &str)
        ensures
            root@ == self.root(),
    {
        self.root.as_str()
    }

    /// The name of the file that holds the object under `key`, inside the
    /// root directory: the canonical text of the key, and so never text that a
    /// user supplied.
    pub fn file_name(&self, key: Uuid) -> (name: String)
        ensures
            name@ == hyphenated(key@),
    {
        uuid_text(key)
    }

    /// What `put` answers, given how creating, writing and flushing the file
    /// went. Any fault is a failure of the medium, also one that says that a
    /// file does not exist.
    pub fn put(&self, written: Result<(), Fault>) -> (res: Result<(), StorageError>)
        ensures
            res == match written {
                Ok(_) => Ok::<(), StorageError>(()),
                Err(fault) => Err(StorageError::Io(fault.message)),
            },
    {
        match written {
            Ok(_) => Ok(()),
            Err(fault) => Err(StorageError::Io(fault.message)),
        }
    }

    /// What `get` answers, given how reading the file went. A file that is not
    /// there when it is opened means `NotFound`; every other fault is a
    /// failure of the medium.
    pub fn get(&self, key: Uuid, read: ReadOutcome) -> (res: Result<Vec<u8>, StorageError>)
        ensures
            res == match read {
                ReadOutcome::Complete(data) => Ok::<Vec<u8>, StorageError>(data),
                ReadOutcome::NotOpened(fault) => if fault.not_found {
                    Err(StorageError::NotFound(key))
                } else {
                    Err(StorageError::Io(fault.message))
                },
                ReadOutcome::Interrupted(fault) => Err(StorageError::Io(fault.message)),
            },
    {
        match read {
            ReadOutcome::Complete(data) => Ok(data),
            ReadOutcome::NotOpened(fault) => {
                if fault.not_found {
                    Err(StorageError::NotFound(key))
                } else {
                    Err(StorageError::Io(fault.message))
                }
            },
            ReadOutcome::Interrupted(fault) => Err(StorageError::Io(fault.message)),
        }
    }

    /// What `delete` answers, given how removing the file went. A file that is
    /// not there means `NotFound`; every other fault is a failure of the
    /// medium.
    pub fn delete(&self, key: Uuid, removed: Result<(), Fault>) -> (res: Result<(), StorageError>)
        ensures
            res == match removed {
                Ok(_) => Ok::<(), StorageError>(()),
                Err(fault) => if fault.not_found {
                    Err(StorageError::NotFound(key))
                } else {
                    Err(StorageError::Io(fault.message))
                },
            },
    {
        match removed {
            Ok(_) => Ok(()),
            Err(fault) => {
                if fault.not_found {
                    Err(StorageError::NotFound(key))
                } else {
                    Err(StorageError::Io(fault.message))
                }
            },
        }
    }

    /// What `contains` answers, given how asking for the file's metadata went.
    /// A file that is not there is the answer `false`, never an error.
    pub fn contains(&self, probed: Result<(), Fault>) -> (res: Result<bool, StorageError>)
        ensures
            res == match probed {
                Ok(_) => Ok::<bool, StorageError>(true),
                Err(fault) => if fault.not_found {
                    Ok(false)
                } else {
                    Err(StorageError::Io(fault.message))
                },
            },
    {
        match probed {
            Ok(_) => Ok(true),
            Err(fault) => {
                if fault.not_found {
                    Ok(false)
                } else {
                    Err(StorageError::Io(fault.message))
                }
            },
        }
    }
}

/// Two keys never share a file: where the file names are the same, so are
/// the keys.
pub proof fn lemma_files_apart(a: Uuid, b: Uuid)
    requires
        hyphenated(a@) == hyphenated(b@),
    ensures
        a == b,
{
    lemma_hyphenated_injective(a@, b@);
}

/// The name of an object's file is safe as one component of a path: it holds
/// neither a separator nor a dot.
pub proof fn lemma_file_name_is_plain(key: Uuid)
    ensures
        is_plain_component(hyphenated(key@)),
        !hyphenated(key@).contains('/'),
        !hyphenated(key@).contains('\\'),
        !hyphenated(key@).contains('.'),
{
    lemma_hyphenated_shape(key@);
}

} // verus!
