//! The upload of a plugin: from an identity and a form to a stored object and
//! a catalog entry.
//!
//! Reading the form, writing the object and recording it in the catalog are
//! the caller's to perform: an [`Upload`] says what is needed next, and
//! [`Upload::step`] takes the answer.

use crate::auth::extractor::AuthenticatedEntity;
use crate::auth::permissions::{HasPermissions, Permission};
use crate::errors::Rejection;
use crate::models::id::{fresh_uuid, is_version_7, Uuid};
use vstd::prelude::*;

verus! {

/// What a plugin is catalogued under.
#[derive(Clone, Debug, PartialEq, Eq)]
pub struct PluginMetadata {
    pub artifact_id: String,
    pub group_id: String,
    pub version: String,
}

/// What the uploader is told: the key that the plugin was stored under, and
/// its metadata.
#[derive(Clone, Debug, PartialEq, Eq)]
pub struct PluginUploadResponse {
    pub id: Uuid,
    pub artifact_id: String,
    pub group_id: String,
    pub version: String,
}

/// What a field of the upload form is for.
#[derive(Clone, Copy, Debug, PartialEq, Eq, Structural)]
pub enum FieldKind {
    /// The field named `file`: the plugin's bytes.
    File,
    /// The field named `metadata`: the plugin's metadata.
    Metadata,
    /// Any other field. The form may hold such fields; they are passed over.
    Other,
}

/// The name `file`.
pub open spec fn file_name() -> Seq<u8> {
    seq![0x66u8, 0x69u8, 0x6cu8, 0x65u8]
}

/// The name `metadata`.
pub open spec fn metadata_name() -> Seq<u8> {
    seq![0x6du8, 0x65u8, 0x74u8, 0x61u8, 0x64u8, 0x61u8, 0x74u8, 0x61u8]
}

/// What the field with the given name is for.
pub open spec fn kind_of(name: Seq<u8>) -> FieldKind {
    if name == file_name() {
        FieldKind::File
    } else if name == metadata_name() {
        FieldKind::Metadata
    } else {
        FieldKind::Other
    }
}

/// Whether two byte strings are the same.
fn same_bytes(a: &[u8], b: &[u8]) -> (same: bool)
    ensures
        same == (a@ == b@),
{
    if a.len() != b.len() {
        return false;
    }
    let mut i: usize = 0;
    while i < a.len()
        invariant
            i <= a.len(),
            a.len() == b.len(),
            forall|j: int| 0 <= j < i ==> a@[j] == b@[j],
        decreases a.len() - i,
    {
        if a[i] != b[i] {
            return false;
        }
        i += 1;
    }
    assert(a@ =~= b@);
    true
}

impl FieldKind {
    /// What the field with the given name is for. Names are compared byte for
    /// byte.
    pub fn of(name: &[u8]) -> (kind: FieldKind)
        ensures
            kind == kind_of(name@),
    {
        let file: [u8; 4] = [0x66, 0x69, 0x6c, 0x65];
        let metadata: [u8; 8] = [0x6d, 0x65, 0x74, 0x61, 0x64, 0x61, 0x74, 0x61];
        assert(file@ =~= file_name());
        assert(metadata@ =~= metadata_name());
        if same_bytes(name, file.as_slice()) {
            FieldKind::File
        } else if same_bytes(name, metadata.as_slice()) {
            FieldKind::Metadata
        } else {
            FieldKind::Other
        }
    }
}

/// One thing read from the upload form.
#[derive(Clone, Debug, PartialEq, Eq)]
pub enum Part {
    /// The content of a `file` field.
    File(Vec<u8>),
    /// The content of a `metadata` field, read as metadata.
    Metadata(PluginMetadata),
    /// A field that is for nothing.
    Ignored,
    /// A part that could not be read: the form broke off, a field has no name,
    /// its content did not arrive, or a `metadata` field holds no metadata.
    Broken,
    /// The form has no more fields.
    End,
}

/// An answer from outside: each one answers what an [`Upload`] asked for.
#[derive(Clone, Debug, PartialEq, Eq)]
pub enum UploadEvent {
    /// The next part of the form.
    Part(Part),
    /// The object is in the store.
    Stored,
    /// The store failed.
    StoreFailed,
    /// The plugin is in the catalog.
    Recorded,
    /// The catalog failed.
    RecordFailed,
}

/// How far an upload has come, and what it needs next.
#[derive(PartialEq, Eq)]
pub enum Upload {
    /// Read the next part of the form. What has been read so far waits here:
    /// of two `file` fields, or two `metadata` fields, the later one counts.
    Reading { file: Option<Vec<u8>>, metadata: Option<PluginMetadata> },
    /// Put `data` into the store under `id`.
    NeedStore { id: Uuid, data: Vec<u8>, metadata: PluginMetadata },
    /// Record the plugin in the catalog under `id`.
    NeedRecord { id: Uuid, metadata: PluginMetadata },
    /// The upload has ended.
    Done(Result<PluginUploadResponse, Rejection>),
}

/// What the uploader is told about a plugin stored under `id`.
pub open spec fn response(id: Uuid, metadata: PluginMetadata) -> PluginUploadResponse {
    PluginUploadResponse {
        id,
        artifact_id: metadata.artifact_id,
        group_id: metadata.group_id,
        version: metadata.version,
    }
}

impl Upload {
    /// Where an upload by `entity` starts: with the form, if the entity may
    /// upload, and at its end otherwise.
    pub open spec fn start(entity: AuthenticatedEntity) -> Upload {
        if entity.may(Permission::UploadPlugin) {
            Upload::Reading { file: None, metadata: None }
        } else {
            Upload::Done(Err(Rejection::Forbidden))
        }
    }

    /// The state that follows `self` when `event` comes in, where `fresh` is
    /// the key that is minted if the form ends here.
    ///
    /// A part that cannot be read ends the upload as a bad request, and so
    /// does a form that ends without a file, with an empty file, or without
    /// metadata. A complete form is stored under the fresh key and then
    /// recorded; a store or a catalog that fails ends the upload as
    /// `Internal`. An answer that was not asked for ends it as `Internal` too,
    /// and an upload that has ended stays as it is.
    pub open spec fn after(self, event: UploadEvent, fresh: Uuid) -> Upload {
        match self {
            Upload::Reading { file, metadata } => match event {
                UploadEvent::Part(Part::File(data)) => Upload::Reading {
                    file: Some(data),
                    metadata,
                },
                UploadEvent::Part(Part::Metadata(read)) => Upload::Reading {
                    file,
                    metadata: Some(read),
                },
                UploadEvent::Part(Part::Ignored) => Upload::Reading { file, metadata },
                UploadEvent::Part(Part::Broken) => Upload::Done(Err(Rejection::BadRequest)),
                UploadEvent::Part(Part::End) => match (file, metadata) {
                    (Some(data), Some(metadata)) => if data@.len() == 0 {
                        Upload::Done(Err(Rejection::BadRequest))
                    } else {
                        Upload::NeedStore { id: fresh, data, metadata }
                    },
                    _ => Upload::Done(Err(Rejection::BadRequest)),
                },
                _ => Upload::Done(Err(Rejection::Internal)),
            },
            Upload::NeedStore { id, data, metadata } => match event {
                UploadEvent::Stored => Upload::NeedRecord { id, metadata },
                _ => Upload::Done(Err(Rejection::Internal)),
            },
            Upload::NeedRecord { id, metadata } => match event {
                UploadEvent::Recorded => Upload::Done(Ok(response(id, metadata))),
                _ => Upload::Done(Err(Rejection::Internal)),
            },
            Upload::Done(result) => Upload::Done(result),
        }
    }

    /// Starts an upload by `entity`. An entity without the permission to
    /// upload is turned away before anything of the form is read.
    pub fn begin(entity: &AuthenticatedEntity) -> (state: Upload)
        ensures
            state == Upload::start(*entity),
    {
        if entity.has_permission(Permission::UploadPlugin) {
            Upload::Reading { file: None, metadata: None }
        } else {
            Upload::Done(Err(Rejection::Forbidden))
        }
    }

    /// Takes an answer and moves on, with `fresh` as the key for the object if
    /// the form ends here.
    pub fn advance(self, event: UploadEvent, fresh: Uuid) -> (next: Upload)
        ensures
            next == self.after(event, fresh),
    {
        match self {
            Upload::Reading { file, metadata } => match event {
                UploadEvent::Part(Part::File(data)) => Upload::Reading {
                    file: Some(data),
                    metadata,
                },
                UploadEvent::Part(Part::Metadata(read)) => Upload::Reading {
                    file,
                    metadata: Some(read),
                },
                UploadEvent::Part(Part::Ignored) => Upload::Reading { file, metadata },
                UploadEvent::Part(Part::Broken) => Upload::Done(Err(Rejection::BadRequest)),
                UploadEvent::Part(Part::End) => match (file, metadata) {
                    (Some(data), Some(metadata)) => {
                        if data.len() == 0 {
                            Upload::Done(Err(Rejection::BadRequest))
                        } else {
                            Upload::NeedStore { id: fresh, data, metadata }
                        }
                    },
                    _ => Upload::Done(Err(Rejection::BadRequest)),
                },
                _ => Upload::Done(Err(Rejection::Internal)),
            },
            Upload::NeedStore { id, data, metadata } => match event {
                UploadEvent::Stored => Upload::NeedRecord { id, metadata },
                _ => Upload::Done(Err(Rejection::Internal)),
            },
            Upload::NeedRecord { id, metadata } => match event {
                UploadEvent::Recorded => Upload::Done(
                    Ok(
                        PluginUploadResponse {
                            id,
                            artifact_id: metadata.artifact_id,
                            group_id: metadata.group_id,
                            version: metadata.version,
                        },
                    ),
                ),
                _ => Upload::Done(Err(Rejection::Internal)),
            },
            Upload::Done(result) => Upload::Done(result),
        }
    }

    /// Whether a key is minted when `event` comes in: the form ends here, with
    /// metadata and a file that is not empty.
    pub open spec fn mints(self, event: UploadEvent) -> bool {
        &&& self matches Upload::Reading { file: Some(data), metadata: Some(_) }
        &&& data@.len() > 0
        &&& event == UploadEvent::Part(Part::End)
    }

    /// Whether a key is minted when `event` comes in.
    pub fn will_mint(&self, event: &UploadEvent) -> (yes: bool)
        ensures
            yes == self.mints(*event),
    {
        match self {
            Upload::Reading { file: Some(data), metadata: Some(_) } => match event {
                UploadEvent::Part(Part::End) => data.len() > 0,
                _ => false,
            },
            _ => false,
        }
    }

    /// Takes an answer and moves on. If the form ends here and is complete,
    /// the key for the object is minted now: a fresh time-ordered identifier,
    /// never one that the uploader chose. No key is minted otherwise.
    pub fn step(self, event: UploadEvent) -> (next: Upload)
        ensures
            self.mints(event) ==> exists|fresh: Uuid|
                is_version_7(fresh@) && next == self.after(event, fresh),
            !self.mints(event) ==> forall|any: Uuid| next == self.after(event, any),
    {
        if self.will_mint(&event) {
            let fresh = fresh_uuid();
            self.advance(event, fresh)
        } else {
            self.advance(event, Uuid(0))
        }
    }
}

/// An object is stored before it is catalogued, both under the key that was
/// minted for it, and the uploader is told that key.
pub proof fn lemma_complete_upload(
    data: Vec<u8>,
    metadata: PluginMetadata,
    fresh: Uuid,
    other: Uuid,
)
    requires
        data@.len() > 0,
    ensures
        ({
            let read = Upload::Reading { file: Some(data), metadata: Some(metadata) };
            let store = read.after(UploadEvent::Part(Part::End), fresh);
            let record = store.after(UploadEvent::Stored, other);
            let done = record.after(UploadEvent::Recorded, other);
            &&& store == Upload::NeedStore { id: fresh, data, metadata }
            &&& record == Upload::NeedRecord { id: fresh, metadata }
            &&& done == Upload::Done(Ok(response(fresh, metadata)))
        }),
{
}

/// An upload that fails in the store is never catalogued, and one that fails
/// in either is `Internal`.
pub proof fn lemma_failed_upload(id: Uuid, data: Vec<u8>, metadata: PluginMetadata, other: Uuid)
    ensures
        (Upload::NeedStore { id, data, metadata }).after(UploadEvent::StoreFailed, other)
            == Upload::Done(Err(Rejection::Internal)),
        (Upload::NeedRecord { id, metadata }).after(UploadEvent::RecordFailed, other)
            == Upload::Done(Err(Rejection::Internal)),
{
}

} // verus!
