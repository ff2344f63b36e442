//! Roles, users, machine keys and login credentials.

use crate::models::id::{hyphenated, parse_uuid, uuid_from_text, uuid_text, Uuid};
use vstd::prelude::*;
use vstd::string::StringExecFns;
use vstd::utf8::{decode_utf8, encode_utf8, encode_utf8_decode_utf8};

verus! {

/// The privilege level of a user, from least to most.
#[derive(Clone, Copy, Debug, PartialEq, Eq, Structural)]
pub enum Role {
    Guest,
    User,
    Admin,
}

impl Role {
    /// The integer under which the role is stored: 0, 1 or 2, rising with
    /// privilege.
    pub open spec fn level(self) -> int {
        match self {
            Role::Guest => 0,
            Role::User => 1,
            Role::Admin => 2,
        }
    }

    /// Decodes a stored role. Any integer but 0, 1 and 2 is refused: nothing is
    /// clamped or defaulted.
    pub fn from_i64(v: i64) -> (role: Option<Role>)
        ensures
            0 <= v <= 2 <==> role is Some,
            role matches Some(r) ==> r.level() == v,
    {
        if v == 0 {
            Some(Role::Guest)
        } else if v == 1 {
            Some(Role::User)
        } else if v == 2 {
            Some(Role::Admin)
        } else {
            None
        }
    }

    /// The integer under which the role is stored.
    pub fn to_i64(self) -> (v: i64)
        ensures
            v == self.level(),
    {
        match self {
            Role::Guest => 0,
            Role::User => 1,
            Role::Admin => 2,
        }
    }

    /// The role's name in lower case.
    pub open spec fn label(self) -> Seq<char> {
        match self {
            Role::Guest => "guest"@,
            Role::User => "user"@,
            Role::Admin => "admin"@,
        }
    }

    /// The role's name in lower case, as it is shown to people.
    pub fn name(self) -> (name: &'static str)
        ensures
            name@ == self.label(),
    {
        match self {
            Role::Guest => "guest",
            Role::User => "user",
            Role::Admin => "admin",
        }
    }
}

/// Storing a role and decoding it again gives the role back.
pub proof fn lemma_role_level_decides(a: Role, b: Role)
    ensures
        0 <= a.level() <= 2,
        a.level() == b.level() <==> a == b,
{
}

/// What a login form carries: a name, a password and, optionally, where to go
/// after the login. It is never stored, and it has no debug form that could
/// show the password.
#[derive(Clone, PartialEq, Eq)]
pub struct UserCredentials {
    pub username: String,
    pub password: String,
    pub next: Option<String>,
}

/// A user record.
///
/// The type has no derived debug form, so the password hash cannot reach a log
/// by accident: what may be logged is [`User::debug_text`].
#[derive(Clone, PartialEq, Eq)]
pub struct User {
    pub id: Uuid,
    pub username: String,
    pub email: String,
    pub password_hash: String,
    pub role: Role,
}

/// A machine key record: a service account with a hashed secret.
#[derive(Clone, PartialEq, Eq)]
pub struct MachineKey {
    pub id: Uuid,
    pub description: String,
    pub group_id: Uuid,
    pub key_hash: String,
}

/// A row of the users table as it is stored: the identifier as text and the
/// role as a small integer.
pub struct UserRow {
    pub id: String,
    pub username: String,
    pub email: String,
    pub password_hash: String,
    pub role: i64,
}

/// A row of the machine keys table as it is stored.
pub struct MachineKeyRow {
    pub id: String,
    pub description: String,
    pub group_id: Uuid,
    pub key_hash: String,
}

/// Why a stored row is no record.
#[derive(Clone, Copy, Debug, PartialEq, Eq, Structural)]
pub enum RowError {
    /// The `id` column holds no identifier.
    Id,
    /// The `role` column holds an integer that is no role.
    Role,
}

impl RowError {
    /// The name of the column that could not be decoded.
    pub fn column(self) -> (name: &'static str)
        ensures
            name@ == match self {
                RowError::Id => "id"@,
                RowError::Role => "role"@,
            },
    {
        match self {
            RowError::Id => "id",
            RowError::Role => "role",
        }
    }
}

/// What the debug form of a text is: the text in double quotes, with what
/// cannot be printed written as an escape.
pub uninterp spec fn quoted(text: Seq<char>) -> Seq<char>;

/// Formats a text with `{:?}`, that is through the `Debug` of `str`. The
/// contract only gives the outcome a name: it depends on the text alone.
#[verifier::external_body]
fn quote(text: &str) -> (res: String)
    ensures
        res@ == quoted(text@),
{
    format!("{:?}", text)
}

/// A user as it may appear in a log, made of the canonical text of its
/// identifier, the debug forms of its name and its address, and its role. In
/// the place of the password hash stands the word `[redacted]`.
pub open spec fn redacted_form(
    id: Seq<char>,
    username: Seq<char>,
    role: Role,
    email: Seq<char>,
) -> Seq<char> {
    "User { id: "@ + id + ", username: "@ + username + ", password: \"[redacted]\", role: "@
        + role.label() + ", email: "@ + email + " }"@
}

/// Sets the log line of a user out of its parts.
pub fn redacted(id: &str, username: &str, role: Role, email: &str) -> (text: String)
    ensures
        text@ == redacted_form(id@, username@, role, email@),
{
    let mut text = String::from_str("User { id: ");
    text.append(id);
    text.append(", username: ");
    text.append(username);
    text.append(", password: \"[redacted]\", role: ");
    text.append(role.name());
    text.append(", email: ");
    text.append(email);
    text.append(" }");
    text
}

impl User {
    /// The user as it may appear in a log: every field but the password hash.
    pub open spec fn debug_form(&self) -> Seq<char> {
        redacted_form(
            hyphenated(self.id@),
            quoted(self.username@),
            self.role,
            quoted(self.email@),
        )
    }

    /// The user as it may appear in a log.
    pub fn debug_text(&self) -> (text: String)
        ensures
            text@ == self.debug_form(),
    {
        let id = uuid_text(self.id);
        let username = quote(self.username.as_str());
        let email = quote(self.email.as_str());
        redacted(id.as_str(), username.as_str(), self.role, email.as_str())
    }

    /// The value that binds a session to this user's credentials: the bytes of
    /// the password hash.
    pub open spec fn binding(&self) -> Seq<u8> {
        encode_utf8(self.password_hash@)
    }

    /// Makes a user of a stored row and of what reading its `id` column as an
    /// identifier gave. A row without identifier is refused first, then one
    /// whose role is out of range; the other columns are taken as they are.
    pub fn with_id(id: Option<Uuid>, row: UserRow) -> (res: Result<User, RowError>)
        ensures
            match res {
                Ok(user) => {
                    &&& id == Some(user.id)
                    &&& user.role.level() == row.role
                    &&& user.username == row.username
                    &&& user.email == row.email
                    &&& user.password_hash == row.password_hash
                },
                Err(RowError::Id) => id is None,
                Err(RowError::Role) => id is Some && !(0 <= row.role <= 2),
            },
    {
        let id = match id {
            Some(id) => id,
            None => {
                return Err(RowError::Id);
            },
        };
        let role = match Role::from_i64(row.role) {
            Some(role) => role,
            None => {
                return Err(RowError::Role);
            },
        };
        Ok(
            User {
                id,
                username: row.username,
                email: row.email,
                password_hash: row.password_hash,
                role,
            },
        )
    }

    /// Decodes a stored row. The identifier is read first, then the role; the
    /// other columns are taken as they are.
    pub fn from_row(row: UserRow) -> (res: Result<User, RowError>)
        ensures
            match res {
                Ok(user) => {
                    &&& uuid_from_text(encode_utf8(row.id@)) == Some(user.id@)
                    &&& user.role.level() == row.role
                    &&& user.username == row.username
                    &&& user.email == row.email
                    &&& user.password_hash == row.password_hash
                },
                Err(RowError::Id) => uuid_from_text(encode_utf8(row.id@)) is None,
                Err(RowError::Role) => {
                    &&& uuid_from_text(encode_utf8(row.id@)) is Some
                    &&& !(0 <= row.role <= 2)
                },
            },
    {
        let id = parse_uuid(row.id.as_str().as_bytes());
        User::with_id(id, row)
    }

    /// The user's identifier.
    pub fn id(&self) -> (id: Uuid)
        ensures
            id == self.id,
    {
        self.id
    }

    /// The session binding value. A session holds the value it was made with
    /// and ends when the user's value is no longer that one.
    pub fn session_auth_hash(&self) -> (binding: &[u8])
        ensures
            binding@ == self.binding(),
    {
        self.password_hash.as_str().as_bytes()
    }
}

/// The debug form does not depend on the password hash: two users that differ
/// in nothing else look the same in a log.
pub proof fn lemma_debug_form_hides_hash(a: User, b: User)
    requires
        a.id == b.id,
        a.username == b.username,
        a.email == b.email,
        a.role == b.role,
    ensures
        a.debug_form() == b.debug_form(),
{
}

/// The binding value changes exactly when the password hash does: a new
/// password ends every session of the account, and nothing else does.
pub proof fn lemma_binding_follows_hash(a: User, b: User)
    ensures
        a.binding() == b.binding() <==> a.password_hash@ == b.password_hash@,
{
    encode_utf8_decode_utf8(a.password_hash@);
    encode_utf8_decode_utf8(b.password_hash@);
    assert(decode_utf8(a.binding()) == a.password_hash@);
    assert(decode_utf8(b.binding()) == b.password_hash@);
}

impl MachineKey {
    /// Makes a machine key of a stored row and of what reading its `id` column
    /// as an identifier gave. The other columns are taken as they are.
    pub fn with_id(id: Option<Uuid>, row: MachineKeyRow) -> (res: Result<MachineKey, RowError>)
        ensures
            match res {
                Ok(key) => {
                    &&& id == Some(key.id)
                    &&& key.description == row.description
                    &&& key.group_id == row.group_id
                    &&& key.key_hash == row.key_hash
                },
                Err(e) => e == RowError::Id && id is None,
            },
    {
        match id {
            Some(id) => Ok(
                MachineKey {
                    id,
                    description: row.description,
                    group_id: row.group_id,
                    key_hash: row.key_hash,
                },
            ),
            None => Err(RowError::Id),
        }
    }

    /// Decodes a stored row: the identifier is read from its text, the other
    /// columns are taken as they are.
    pub fn from_row(row: MachineKeyRow) -> (res: Result<MachineKey, RowError>)
        ensures
            match res {
                Ok(key) => {
                    &&& uuid_from_text(encode_utf8(row.id@)) == Some(key.id@)
                    &&& key.description == row.description
                    &&& key.group_id == row.group_id
                    &&& key.key_hash == row.key_hash
                },
                Err(e) => e == RowError::Id && uuid_from_text(encode_utf8(row.id@)) is None,
            },
    {
        let id = parse_uuid(row.id.as_str().as_bytes());
        MachineKey::with_id(id, row)
    }
}

} // verus!
