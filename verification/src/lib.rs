//! Identity resolution, authorization and blob storage for a private artifact
//! host.
//!
//! A request is resolved to one identity, a logged-in user or a machine key
//! ([`auth::extractor`]), and the permission model says what that identity may
//! do ([`auth::permissions`]). Artifacts are uploaded ([`upload`]) into a
//! key-addressed blob store ([`storage`]).
//!
//! Whatever needs the network, the database or the file system is left to the
//! caller, who hands the outcomes in as values: the library decides, and the
//! caller acts on it.

pub mod auth;
pub mod errors;
pub mod files;
pub mod models;
pub mod storage;
pub mod upload;
