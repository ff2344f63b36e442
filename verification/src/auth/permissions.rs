//! The permission model: a fixed table from identity and capability to allow
//! or deny.

use crate::models::auth::{MachineKey, Role, User};
use vstd::prelude::*;
use vstd::string::StringExecFns;

verus! {

/// A capability that an identity may or may not have. The set is closed: a new
/// capability needs a new line in the policy of every kind of identity.
#[derive(Clone, Copy, Debug, PartialEq, Eq, Structural)]
pub enum Permission {
    UploadPlugin,
    DeletePlugin,
    ManageUsers,
}

/// The policy for users: an administrator may do everything, an ordinary user
/// may upload, a guest may do nothing.
pub open spec fn user_may(role: Role, permission: Permission) -> bool {
    match permission {
        Permission::UploadPlugin => role == Role::Admin || role == Role::User,
        Permission::DeletePlugin => role == Role::Admin,
        Permission::ManageUsers => role == Role::Admin,
    }
}

/// The policy for machine keys: every key may upload, and nothing else.
pub open spec fn machine_may(permission: Permission) -> bool {
    match permission {
        Permission::UploadPlugin => true,
        Permission::DeletePlugin => false,
        Permission::ManageUsers => false,
    }
}

/// What every kind of identity answers: whether it has a capability, and the
/// label under which it appears in the audit log.
pub trait HasPermissions {
    /// Whether the policy allows `permission` to this identity.
    spec fn may(&self, permission: Permission) -> bool;

    /// The audit label of this identity.
    spec fn label(&self) -> Seq<char>;

    /// Whether this identity has the capability. Every combination has an
    /// answer.
    fn has_permission(&self, permission: Permission) -> (allowed: bool)
        ensures
            allowed == self.may(permission),
    ;

    /// A stable label with the kind of identity in front. It is for the audit
    /// log only: no decision rests on it.
    fn identifier(&self) -> (label: String)
        ensures
            label@ == self.label(),
    ;
}

impl HasPermissions for User {
    open spec fn may(&self, permission: Permission) -> bool {
        user_may(self.role, permission)
    }

    open spec fn label(&self) -> Seq<char> {
        "user:"@ + self.username@
    }

    fn has_permission(&self, permission: Permission) -> (allowed: bool) {
        match permission {
            Permission::UploadPlugin => self.role == Role::Admin || self.role == Role::User,
            Permission::DeletePlugin => self.role == Role::Admin,
            Permission::ManageUsers => self.role == Role::Admin,
        }
    }

    fn identifier(&self) -> (label: String) {
        let mut label = String::from_str("user:");
        label.append(self.username.as_str());
        label
    }
}

impl HasPermissions for MachineKey {
    open spec fn may(&self, permission: Permission) -> bool {
        machine_may(permission)
    }

    open spec fn label(&self) -> Seq<char> {
        "machine:"@ + self.description@
    }

    fn has_permission(&self, permission: Permission) -> (allowed: bool) {
        match permission {
            Permission::UploadPlugin => true,
            Permission::DeletePlugin => false,
            Permission::ManageUsers => false,
        }
    }

    fn identifier(&self) -> (label: String) {
        let mut label = String::from_str("machine:");
        label.append(self.description.as_str());
        label
    }
}

/// Privilege grows with the role: what a role may do, every role above it may
/// do too.
pub proof fn lemma_privilege_grows(lower: Role, higher: Role, permission: Permission)
    requires
        lower.level() <= higher.level(),
        user_may(lower, permission),
    ensures
        user_may(higher, permission),
{
}

/// Labels keep the kinds of identity apart: no user bears the label of a
/// machine, whatever their names.
pub proof fn lemma_labels_apart(user: User, machine: MachineKey)
    ensures
        user.label() != machine.label(),
{
    reveal_strlit("user:");
    reveal_strlit("machine:");
    assert(user.label()[0] == 'u');
    assert(machine.label()[0] == 'm');
}

/// A label stands for one name: two users bear the same label exactly when
/// they bear the same name.
pub proof fn lemma_label_keeps_name(a: User, b: User)
    ensures
        a.label() == b.label() <==> a.username@ == b.username@,
{
    reveal_strlit("user:");
    if a.label() == b.label() {
        assert(a.username@ =~= a.label().skip(5));
        assert(b.username@ =~= b.label().skip(5));
    }
}

/// The whole policy table, line by line.
pub proof fn lemma_policy_table()
    ensures
        user_may(Role::Admin, Permission::UploadPlugin),
        user_may(Role::Admin, Permission::DeletePlugin),
        user_may(Role::Admin, Permission::ManageUsers),
        user_may(Role::User, Permission::UploadPlugin),
        !user_may(Role::User, Permission::DeletePlugin),
        !user_may(Role::User, Permission::ManageUsers),
        !user_may(Role::Guest, Permission::UploadPlugin),
        !user_may(Role::Guest, Permission::DeletePlugin),
        !user_may(Role::Guest, Permission::ManageUsers),
        machine_may(Permission::UploadPlugin),
        !machine_may(Permission::DeletePlugin),
        !machine_may(Permission::ManageUsers),
{
}

} // verus!
