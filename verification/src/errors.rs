//! How a request is turned away.

use vstd::prelude::*;

verus! {

/// The ways in which a request is turned away. Each stays apart from the
/// others, all the way to the caller.
#[derive(Clone, Copy, Debug, PartialEq, Eq, Structural)]
pub enum Rejection {
    /// The request is malformed.
    BadRequest,
    /// No identity could be made out. Every failure to resolve credentials ends
    /// here, whatever its cause, so that a caller learns nothing from it.
    Unauthorized,
    /// The identity is known and lacks the permission.
    Forbidden,
    /// A service that the core relies on failed: a lookup, the verifier's
    /// worker, the store.
    Internal,
}

impl Rejection {
    /// The HTTP status that stands for the rejection.
    pub open spec fn code(self) -> int {
        match self {
            Rejection::BadRequest => 400,
            Rejection::Unauthorized => 401,
            Rejection::Forbidden => 403,
            Rejection::Internal => 500,
        }
    }

    /// The HTTP status to answer with.
    pub fn status_code(self) -> (code: u16)
        ensures
            code == self.code(),
    {
        match self {
            Rejection::BadRequest => 400,
            Rejection::Unauthorized => 401,
            Rejection::Forbidden => 403,
            Rejection::Internal => 500,
        }
    }
}

} // verus!
