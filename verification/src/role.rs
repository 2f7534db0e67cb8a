//! The fixed set of roles, their cardinality, their delay policy and their
//! names.

use vstd::prelude::*;
use crate::errors::AccessControlError;

verus! {

/// A privilege slot of the contract.
#[derive(Clone, Copy, Debug, PartialEq, Eq, Structural, Hash)]
pub enum Role {
    Admin,
    EmergencyAdmin,
    RewardsAdmin,
    OperationsAdmin,
    PauseAdmin,
    EmergencyPauseAdmin,
}

/// How many addresses a role holds.
#[derive(Clone, Copy, Debug, PartialEq, Eq, Structural)]
pub enum Cardinality {
    /// At most one address.
    Single,
    /// A list of addresses.
    Multi,
}

impl Role {
    /// Whether the role is held by a list of addresses.
    pub open spec fn spec_has_many_users(&self) -> bool {
        *self == Role::EmergencyPauseAdmin
    }

    /// Whether the role's holder changes only through a delayed transfer.
    pub open spec fn spec_is_transfer_delayed(&self) -> bool {
        *self == Role::Admin || *self == Role::EmergencyAdmin
    }

    /// The role's cardinality.
    pub open spec fn spec_cardinality(&self) -> Cardinality {
        if self.spec_has_many_users() {
            Cardinality::Multi
        } else {
            Cardinality::Single
        }
    }

    /// The name under which callers refer to the role.
    pub open spec fn symbol(self) -> Seq<char> {
        match self {
            Role::Admin => "Admin"@,
            Role::EmergencyAdmin => "EmergencyAdmin"@,
            Role::RewardsAdmin => "RewardsAdmin"@,
            Role::OperationsAdmin => "OperationsAdmin"@,
            Role::PauseAdmin => "PauseAdmin"@,
            Role::EmergencyPauseAdmin => "EmergencyPauseAdmin"@,
        }
    }

    /// The role that a name stands for, or `UnknownRole`.
    pub open spec fn resolve(name: Seq<char>) -> Result<Role, AccessControlError> {
        if name == Role::Admin.symbol() {
            Ok(Role::Admin)
        } else if name == Role::EmergencyAdmin.symbol() {
            Ok(Role::EmergencyAdmin)
        } else if name == Role::RewardsAdmin.symbol() {
            Ok(Role::RewardsAdmin)
        } else if name == Role::OperationsAdmin.symbol() {
            Ok(Role::OperationsAdmin)
        } else if name == Role::PauseAdmin.symbol() {
            Ok(Role::PauseAdmin)
        } else if name == Role::EmergencyPauseAdmin.symbol() {
            Ok(Role::EmergencyPauseAdmin)
        } else {
            Err(AccessControlError::UnknownRole)
        }
    }

    #[verifier::when_used_as_spec(spec_has_many_users)]
    pub fn has_many_users(&self) -> (many: bool)
        ensures
            many == self.spec_has_many_users(),
    {
        match self {
            Role::EmergencyPauseAdmin => true,
            _ => false,
        }
    }

    #[verifier::when_used_as_spec(spec_is_transfer_delayed)]
    pub fn is_transfer_delayed(&self) -> (delayed: bool)
        ensures
            delayed == self.spec_is_transfer_delayed(),
    {
        match self {
            Role::Admin => true,
            Role::EmergencyAdmin => true,
            _ => false,
        }
    }

    #[verifier::when_used_as_spec(spec_cardinality)]
    pub fn cardinality(&self) -> (cardinality: Cardinality)
        ensures
            cardinality == self.spec_cardinality(),
    {
        if self.has_many_users() {
            Cardinality::Multi
        } else {
            Cardinality::Single
        }
    }

    /// The name under which callers refer to the role.
    pub fn as_symbol(&self) -> (name: &'static str)
        ensures
            name@ == self.symbol(),
    {
        match self {
            Role::Admin => "Admin",
            Role::EmergencyAdmin => "EmergencyAdmin",
            Role::RewardsAdmin => "RewardsAdmin",
            Role::OperationsAdmin => "OperationsAdmin",
            Role::PauseAdmin => "PauseAdmin",
            Role::EmergencyPauseAdmin => "EmergencyPauseAdmin",
        }
    }

    /// Resolves a name to the role it stands for.
    pub fn from_symbol(name: &str) -> (resolved: Result<Role, AccessControlError>)
        ensures
            resolved == Role::resolve(name@),
    {
        if same_text(name, "Admin") {
            Ok(Role::Admin)
        } else if same_text(name, "EmergencyAdmin") {
            Ok(Role::EmergencyAdmin)
        } else if same_text(name, "RewardsAdmin") {
            Ok(Role::RewardsAdmin)
        } else if same_text(name, "OperationsAdmin") {
            Ok(Role::OperationsAdmin)
        } else if same_text(name, "PauseAdmin") {
            Ok(Role::PauseAdmin)
        } else if same_text(name, "EmergencyPauseAdmin") {
            Ok(Role::EmergencyPauseAdmin)
        } else {
            Err(AccessControlError::UnknownRole)
        }
    }
}

/// Whether two pieces of text hold the same characters.
fn same_text(left: &str, right: &str) -> (same: bool)
    ensures
        same == (left@ == right@),
{
    let left_owned = left.to_owned();
    let right_owned = right.to_owned();
    left_owned == right_owned
}

/// No role is both held by a list of addresses and subject to delayed
/// transfer.
pub proof fn law_delayed_roles_are_single(role: Role)
    ensures
        !(role.has_many_users() && role.is_transfer_delayed()),
        role.is_transfer_delayed() ==> role.cardinality() == Cardinality::Single,
{
}

/// Distinct roles have distinct names.
pub proof fn law_symbols_are_distinct(first: Role, second: Role)
    ensures
        first.symbol() == second.symbol() <==> first == second,
{
    reveal_strlit("Admin");
    reveal_strlit("EmergencyAdmin");
    reveal_strlit("RewardsAdmin");
    reveal_strlit("OperationsAdmin");
    reveal_strlit("PauseAdmin");
    reveal_strlit("EmergencyPauseAdmin");
    assert(Role::Admin.symbol().len() == 5);
    assert(Role::EmergencyAdmin.symbol().len() == 14);
    assert(Role::RewardsAdmin.symbol().len() == 12);
    assert(Role::OperationsAdmin.symbol().len() == 15);
    assert(Role::PauseAdmin.symbol().len() == 10);
    assert(Role::EmergencyPauseAdmin.symbol().len() == 19);
}

/// Every role is resolved from its own name.
pub proof fn law_roles_resolve_from_their_symbols(role: Role)
    ensures
        Role::resolve(role.symbol()) == Ok::<Role, AccessControlError>(role),
{
    law_symbols_are_distinct(role, Role::Admin);
    law_symbols_are_distinct(role, Role::EmergencyAdmin);
    law_symbols_are_distinct(role, Role::RewardsAdmin);
    law_symbols_are_distinct(role, Role::OperationsAdmin);
    law_symbols_are_distinct(role, Role::PauseAdmin);
    law_symbols_are_distinct(role, Role::EmergencyPauseAdmin);
}

/// A name is resolved to a role exactly when it is that role's name.
pub proof fn law_resolve_is_exact(name: Seq<char>, role: Role)
    ensures
        Role::resolve(name) == Ok::<Role, AccessControlError>(role) <==> name == role.symbol(),
{
    law_roles_resolve_from_their_symbols(role);
}

} // verus!
