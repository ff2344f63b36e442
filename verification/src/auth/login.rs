//! What a login attempt is answered with.
//!
//! Authenticating and establishing the session are the caller's to perform.
//! What each of them gave comes in here as a value, and what comes out is
//! what to do next.

use crate::models::auth::{User, UserCredentials};
use vstd::prelude::*;
use vstd::string::StringExecFns;

verus! {

impl UserCredentials {
    /// Where a login that succeeded leads: the target that came with the
    /// credentials, or the front page.
    pub open spec fn landing(&self) -> Seq<char> {
        match self.next {
            Some(next) => next@,
            None => "/"@,
        }
    }

    /// Where a login that was turned away leads: back to the login page, which
    /// keeps the target if there was one.
    pub open spec fn retry(&self) -> Seq<char> {
        match self.next {
            Some(next) => "/login"@ + "?next="@ + next@,
            None => "/login"@,
        }
    }

    /// The address to go to after a successful login.
    pub fn landing_url(&self) -> (url: String)
        ensures
            url@ == self.landing(),
    {
        match &self.next {
            Some(next) => next.clone(),
            None => String::from_str("/"),
        }
    }

    /// The address to go to after a login that was turned away.
    pub fn retry_url(&self) -> (url: String)
        ensures
            url@ == self.retry(),
    {
        let mut url = String::from_str("/login");
        match &self.next {
            Some(next) => {
                url.append("?next=");
                url.append(next.as_str());
            },
            None => {},
        }
        url
    }
}

/// How authenticating a login went.
#[derive(Clone, PartialEq, Eq)]
pub enum Attempt {
    /// The credentials open the account of this user.
    Accepted(User),
    /// There is no such user, or the password is wrong.
    Refused,
    /// The lookup or the verifier failed.
    Failed,
}

/// A message for the next page that the user sees.
#[derive(Clone, Debug, PartialEq, Eq)]
pub enum Notice {
    Error(String),
    Success(String),
}

/// What a login attempt is answered with.
#[derive(Clone, Debug, PartialEq, Eq)]
pub enum LoginReply {
    /// Send the browser to `to`, and show `notice` there.
    Redirect { to: String, notice: Notice },
    /// Something failed that is not the user's fault.
    Internal,
}

/// What follows an authentication.
#[derive(Clone, PartialEq, Eq)]
pub enum LoginStep {
    /// Establish the session for this user, then call [`established`].
    Establish(User),
    /// Answer with this reply.
    Reply(LoginReply),
}

/// The reply to credentials that were refused: back to the login page, with
/// one message for an unknown name and a wrong password alike.
pub open spec fn refusal(credentials: UserCredentials, reply: LoginReply) -> bool {
    reply matches LoginReply::Redirect { to, notice: Notice::Error(message) } && to@
        == credentials.retry() && message@ == "Invalid credentials"@
}

/// The reply to a login that succeeded: on to the landing page, with a
/// greeting by name.
pub open spec fn welcome(credentials: UserCredentials, user: User, reply: LoginReply) -> bool {
    reply matches LoginReply::Redirect { to, notice: Notice::Success(message) } && to@
        == credentials.landing() && message@ == "Successfully logged in as "@ + user.username@
}

/// What follows an authentication: a session for the user it accepted, the
/// refusal where it accepted none, and `Internal` where it failed.
pub fn authenticated(credentials: &UserCredentials, attempt: Attempt) -> (step: LoginStep)
    ensures
        match attempt {
            Attempt::Accepted(user) => step == LoginStep::Establish(user),
            Attempt::Refused => step matches LoginStep::Reply(reply) && refusal(
                *credentials,
                reply,
            ),
            Attempt::Failed => step == LoginStep::Reply(LoginReply::Internal),
        },
{
    match attempt {
        Attempt::Accepted(user) => LoginStep::Establish(user),
        Attempt::Refused => LoginStep::Reply(
            LoginReply::Redirect {
                to: credentials.retry_url(),
                notice: Notice::Error(String::from_str("Invalid credentials")),
            },
        ),
        Attempt::Failed => LoginStep::Reply(LoginReply::Internal),
    }
}

/// The reply once the session layer has answered: the welcome where the
/// session stands, and `Internal` where it could not be established.
pub fn established(credentials: &UserCredentials, user: &User, session_stands: bool) -> (reply:
    LoginReply)
    ensures
        session_stands ==> welcome(*credentials, *user, reply),
        !session_stands ==> reply == LoginReply::Internal,
{
    if session_stands {
        let mut message = String::from_str("Successfully logged in as ");
        message.append(user.username.as_str());
        LoginReply::Redirect { to: credentials.landing_url(), notice: Notice::Success(message) }
    } else {
        LoginReply::Internal
    }
}

} // verus!
