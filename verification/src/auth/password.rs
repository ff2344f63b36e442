//! The credential verifier: does a secret match a stored hash?

use vstd::prelude::*;

verus! {

/// Whether `secret` verifies against the stored password hash `hash`. A hash
/// that cannot be read verifies nothing.
pub uninterp spec fn password_verifies(secret: Seq<u8>, hash: Seq<char>) -> bool;

/// Calls `password_auth::verify_password` and reports whether it accepted the
/// secret. The outcome depends on the two arguments alone, and the contract
/// only gives it a name. The hash is expected to come from the record store:
/// its cost parameters decide how long the call runs.
#[verifier::external_body]
fn verify_password(secret: &[u8], hash: &str) -> (ok: bool)
    ensures
        ok == password_verifies(secret@, hash@),
{
    password_auth::verify_password(secret, hash).is_ok()
}

/// Checks a candidate secret against a stored hash. A malformed hash is no
/// error: the answer is then `false`.
///
/// The comparison is costly. A caller that serves requests runs it on a worker
/// and reports a worker that died as its own failure, never as a mismatch.
pub fn verify(candidate_secret: &[u8], stored_hash: &str) -> (ok: bool)
    ensures
        ok == password_verifies(candidate_secret@, stored_hash@),
{
    verify_password(candidate_secret, stored_hash)
}

} // verus!
