//! The records that identity resolution works on.

pub mod auth;
pub mod id;
