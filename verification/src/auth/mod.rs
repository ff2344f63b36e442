//! Who is asking, and what may they do.

pub mod backend;
pub mod basic;
pub mod extractor;
pub mod login;
pub mod password;
pub mod permissions;
