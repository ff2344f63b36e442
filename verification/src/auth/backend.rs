//! The user session backend: logging in with a name and a password.
//!
//! Looking the user up by name is the caller's part. What was found comes in
//! here, and what comes out is the user or nothing. A lookup that failed never
//! gets here: the caller reports it as its own error.

use crate::auth::password::{password_verifies, verify};
use crate::models::auth::{User, UserCredentials};
use vstd::prelude::*;
use vstd::utf8::encode_utf8;

verus! {

/// Whether the credentials open the account of `user`: their password, as
/// bytes, verifies against the user's password hash.
pub open spec fn opens(credentials: UserCredentials, user: User) -> bool {
    password_verifies(encode_utf8(credentials.password@), user.password_hash@)
}

/// What a login yields once the verifier has answered: the user where the
/// password verified, and nothing where it did not.
pub fn accept(user: User, verified: bool) -> (res: Option<User>)
    ensures
        res == if verified {
            Some(user)
        } else {
            None
        },
{
    if verified {
        Some(user)
    } else {
        None
    }
}

/// Authenticates a login. `found` is the user that the lookup by
/// `credentials.username` gave, if it gave one.
///
/// The result is the user where there is one and the password is right, and
/// nothing otherwise. Nothing tells an unknown name from a wrong password, and
/// neither is an error.
pub fn authenticate(found: Option<User>, credentials: &UserCredentials) -> (res: Option<User>)
    ensures
        found matches Some(user) ==> opens(*credentials, user) ==> res == Some(user),
        found matches Some(user) ==> !opens(*credentials, user) ==> res is None,
        found is None ==> res is None,
{
    match found {
        Some(user) => {
            let verified = verify(
                credentials.password.as_str().as_bytes(),
                user.password_hash.as_str(),
            );
            accept(user, verified)
        },
        None => None,
    }
}

} // verus!
