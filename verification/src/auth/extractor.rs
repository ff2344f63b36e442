//! Identity resolution: from what a request carries to one identity, or to a
//! rejection.
//!
//! The session is asked first. Only where it knows no user is the machine key
//! looked up and its secret verified. The lookups and the verification are the
//! caller's to perform: a [`Resolution`] says what is needed next, and
//! [`Resolution::step`] takes the answer.

use crate::auth::basic::{basic_credentials, MachineCredentials};
use crate::auth::permissions::{HasPermissions, Permission};
use crate::errors::Rejection;
use crate::models::auth::{MachineKey, User};
use vstd::prelude::*;

verus! {

/// The identity behind a request: a user or a machine, never both.
#[derive(Clone, PartialEq, Eq)]
pub enum AuthenticatedEntity {
    User(User),
    Machine(MachineKey),
}

impl HasPermissions for AuthenticatedEntity {
    open spec fn may(&self, permission: Permission) -> bool {
        match self {
            AuthenticatedEntity::User(user) => user.may(permission),
            AuthenticatedEntity::Machine(machine) => machine.may(permission),
        }
    }

    open spec fn label(&self) -> Seq<char> {
        match self {
            AuthenticatedEntity::User(user) => user.label(),
            AuthenticatedEntity::Machine(machine) => machine.label(),
        }
    }

    fn has_permission(&self, permission: Permission) -> (allowed: bool) {
        match self {
            AuthenticatedEntity::User(user) => user.has_permission(permission),
            AuthenticatedEntity::Machine(machine) => machine.has_permission(permission),
        }
    }

    fn identifier(&self) -> (label: String) {
        match self {
            AuthenticatedEntity::User(user) => user.identifier(),
            AuthenticatedEntity::Machine(machine) => machine.identifier(),
        }
    }
}

/// What the session layer knows of a request.
#[derive(Clone, PartialEq, Eq)]
pub enum SessionOutcome {
    /// The request has no usable session.
    Unavailable,
    /// There is a session and nobody is logged in, or the user it was made for
    /// is gone.
    Anonymous,
    /// The session belongs to this user.
    LoggedIn(User),
}

/// An answer from outside: each one answers what a [`Resolution`] asked for.
#[derive(Clone, PartialEq, Eq)]
pub enum Event {
    /// The session layer has answered.
    Session(SessionOutcome),
    /// The machine key lookup has answered: the record, or none under that
    /// identifier.
    MachineKey(Option<MachineKey>),
    /// The machine key lookup failed.
    LookupFailed,
    /// The verifier has answered: whether the secret matches the hash.
    Verified(bool),
    /// The verifier's worker died before it answered.
    VerifierFailed,
}

/// How far the resolution of one request has come, and what it needs next.
#[derive(PartialEq, Eq)]
pub enum Resolution {
    /// Ask the session layer. The credentials of the `Authorization` header
    /// wait here in case the session knows no user.
    NeedSession { credentials: Option<MachineCredentials> },
    /// Look up the machine key with the identifier `credentials.id`.
    NeedMachineKey { credentials: MachineCredentials },
    /// Verify `secret` against `machine.key_hash`.
    NeedVerdict { machine: MachineKey, secret: Vec<u8> },
    /// The request is resolved.
    Done(Result<AuthenticatedEntity, Rejection>),
}

/// The credentials that a request carries in its `Authorization` header, if it
/// has the header and the header carries any.
pub open spec fn header_credentials(authorization: Option<&[u8]>) -> Option<(u128, Seq<u8>)> {
    match authorization {
        Some(header) => basic_credentials(header@),
        None => None,
    }
}

impl Resolution {
    /// The state that follows `self` when `event` comes in.
    ///
    /// A logged-in user ends the resolution at once. Without one, the machine
    /// key is looked up and then verified; a missing header, an unknown key
    /// and a wrong secret all end in `Unauthorized`, a failed lookup and a dead
    /// worker in `Internal`. An answer that was not asked for ends in
    /// `Internal` too, and a resolution that is done stays as it is.
    pub open spec fn after(self, event: Event) -> Resolution {
        match self {
            Resolution::NeedSession { credentials } => match event {
                Event::Session(SessionOutcome::LoggedIn(user)) => Resolution::Done(
                    Ok(AuthenticatedEntity::User(user)),
                ),
                Event::Session(_) => match credentials {
                    Some(credentials) => Resolution::NeedMachineKey { credentials },
                    None => Resolution::Done(Err(Rejection::Unauthorized)),
                },
                _ => Resolution::Done(Err(Rejection::Internal)),
            },
            Resolution::NeedMachineKey { credentials } => match event {
                Event::MachineKey(Some(machine)) => Resolution::NeedVerdict {
                    machine,
                    secret: credentials.secret,
                },
                Event::MachineKey(None) => Resolution::Done(Err(Rejection::Unauthorized)),
                _ => Resolution::Done(Err(Rejection::Internal)),
            },
            Resolution::NeedVerdict { machine, secret } => match event {
                Event::Verified(true) => Resolution::Done(Ok(AuthenticatedEntity::Machine(machine))),
                Event::Verified(false) => Resolution::Done(Err(Rejection::Unauthorized)),
                _ => Resolution::Done(Err(Rejection::Internal)),
            },
            Resolution::Done(result) => Resolution::Done(result),
        }
    }

    /// Starts the resolution of a request with the given `Authorization`
    /// header, if it has one. The session is to be asked first.
    pub fn begin(authorization: Option<&[u8]>) -> (state: Resolution)
        ensures
            state matches Resolution::NeedSession { credentials } && match credentials {
                Some(c) => header_credentials(authorization) == Some(c@),
                None => header_credentials(authorization) is None,
            },
    {
        let credentials = match authorization {
            Some(header) => MachineCredentials::from_header(header),
            None => None,
        };
        Resolution::NeedSession { credentials }
    }

    /// Takes an answer and moves on.
    pub fn step(self, event: Event) -> (next: Resolution)
        ensures
            next == self.after(event),
    {
        match self {
            Resolution::NeedSession { credentials } => match event {
                Event::Session(SessionOutcome::LoggedIn(user)) => Resolution::Done(
                    Ok(AuthenticatedEntity::User(user)),
                ),
                Event::Session(_) => match credentials {
                    Some(credentials) => Resolution::NeedMachineKey { credentials },
                    None => Resolution::Done(Err(Rejection::Unauthorized)),
                },
                _ => Resolution::Done(Err(Rejection::Internal)),
            },
            Resolution::NeedMachineKey { credentials } => match event {
                Event::MachineKey(Some(machine)) => Resolution::NeedVerdict {
                    machine,
                    secret: credentials.secret,
                },
                Event::MachineKey(None) => Resolution::Done(Err(Rejection::Unauthorized)),
                _ => Resolution::Done(Err(Rejection::Internal)),
            },
            Resolution::NeedVerdict { machine, secret } => match event {
                Event::Verified(true) => Resolution::Done(Ok(AuthenticatedEntity::Machine(machine))),
                Event::Verified(false) => Resolution::Done(Err(Rejection::Unauthorized)),
                _ => Resolution::Done(Err(Rejection::Internal)),
            },
            Resolution::Done(result) => Resolution::Done(result),
        }
    }
}

/// The session comes first: a logged-in user is the identity, whatever the
/// header holds, and no machine key is asked for.
pub proof fn lemma_session_wins(credentials: Option<MachineCredentials>, user: User)
    ensures
        (Resolution::NeedSession { credentials }).after(
            Event::Session(SessionOutcome::LoggedIn(user)),
        ) == Resolution::Done(Ok(AuthenticatedEntity::User(user))),
{
}

/// Without a logged-in user, credentials with a known key identifier and the
/// right secret resolve to that machine. On the way the key is looked up under
/// the identifier of the credentials, and their secret is what is verified.
pub proof fn lemma_machine_key_resolves(
    credentials: MachineCredentials,
    session: SessionOutcome,
    machine: MachineKey,
)
    requires
        !(session is LoggedIn),
    ensures
        ({
            let asked = Resolution::NeedSession { credentials: Some(credentials) }.after(
                Event::Session(session),
            );
            let found = asked.after(Event::MachineKey(Some(machine)));
            &&& asked == Resolution::NeedMachineKey { credentials }
            &&& found == Resolution::NeedVerdict { machine, secret: credentials.secret }
            &&& found.after(Event::Verified(true)) == Resolution::Done(
                Ok(AuthenticatedEntity::Machine(machine)),
            )
        }),
{
}

/// Without a logged-in user, a request is turned away as `Unauthorized` where
/// its header carries no credentials, where no key has their identifier, and
/// where the secret does not match: one answer for all three.
pub proof fn lemma_failures_are_unauthorized(
    credentials: MachineCredentials,
    session: SessionOutcome,
    machine: MachineKey,
)
    requires
        !(session is LoggedIn),
    ensures
        ({
            let unauthorized = Resolution::Done(Err(Rejection::Unauthorized));
            let asked = Resolution::NeedSession { credentials: Some(credentials) }.after(
                Event::Session(session),
            );
            &&& Resolution::NeedSession { credentials: None }.after(Event::Session(session))
                == unauthorized
            &&& asked.after(Event::MachineKey(None)) == unauthorized
            &&& asked.after(Event::MachineKey(Some(machine))).after(Event::Verified(false))
                == unauthorized
        }),
{
}

/// A lookup that failed and a worker that died are `Internal`, never
/// `Unauthorized`.
pub proof fn lemma_faults_are_internal(
    credentials: MachineCredentials,
    machine: MachineKey,
    secret: Vec<u8>,
)
    ensures
        (Resolution::NeedMachineKey { credentials }).after(Event::LookupFailed)
            == Resolution::Done(Err(Rejection::Internal)),
        (Resolution::NeedVerdict { machine, secret }).after(Event::VerifierFailed)
            == Resolution::Done(Err(Rejection::Internal)),
{
}

/// A resolution that is done stays done: no later answer changes the result.
pub proof fn lemma_done_is_final(result: Result<AuthenticatedEntity, Rejection>, event: Event)
    ensures
        Resolution::Done(result).after(event) == Resolution::Done(result),
{
}

} // verus!
