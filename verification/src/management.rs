//! Reading and assigning the holders of roles.

use vstd::prelude::*;
use crate::access::{copy_addresses, mirrors, AccessControl, AccessControlView, AddressView};
use crate::address::Address;
use crate::errors::AccessControlError;
use crate::role::Role;

verus! {

impl AccessControlView {
    /// What `get_role_safe` answers: the holder of a single-address role,
    /// `None` where it was never assigned.
    pub open spec fn get_role_safe(self, role: Role) -> Result<
        Option<AddressView>,
        AccessControlError,
    > {
        if role.has_many_users() {
            Err(AccessControlError::BadRoleUsage)
        } else {
            Ok(self.holder(role))
        }
    }

    /// What `get_role_addresses` answers: the holders of a role held by a
    /// list, none where it was never assigned.
    pub open spec fn get_role_addresses(self, role: Role) -> Result<
        Seq<AddressView>,
        AccessControlError,
    > {
        if !role.has_many_users() {
            Err(AccessControlError::BadRoleUsage)
        } else {
            Ok(self.holders(role))
        }
    }

    /// What `get_role` answers: only `Admin` may be asked for, and it must
    /// have a holder.
    pub open spec fn get_role(self, role: Role) -> Result<AddressView, AccessControlError> {
        if role != Role::Admin {
            Err(AccessControlError::BadRoleUsage)
        } else {
            match self.holder(role) {
                Some(address) => Ok(address),
                None => Err(AccessControlError::RoleNotFound),
            }
        }
    }

    /// The store after `set_role_address`, or the error with which it refuses:
    /// a role held by a list is refused, and so is a delayed role that has a
    /// holder already.
    pub open spec fn set_role_address(self, role: Role, address: AddressView) -> Result<
        AccessControlView,
        AccessControlError,
    > {
        if role.has_many_users() {
            Err(AccessControlError::BadRoleUsage)
        } else if self.holder(role) is Some && role.is_transfer_delayed() {
            Err(AccessControlError::BadRoleUsage)
        } else {
            Ok(self.with_holder(role, address))
        }
    }

    /// The store after `set_role_addresses`, or the error with which it
    /// refuses: a single-address role and a delayed role are refused.
    pub open spec fn set_role_addresses(self, role: Role, addresses: Seq<AddressView>) -> Result<
        AccessControlView,
        AccessControlError,
    > {
        if !role.has_many_users() || role.is_transfer_delayed() {
            Err(AccessControlError::BadRoleUsage)
        } else {
            Ok(self.with_holders(role, addresses))
        }
    }
}

/// Reading and assigning the single-address roles.
pub trait SingleAddressManagementTrait: View<V = AccessControlView> {
    /// The holder of a single-address role, `None` if it was never assigned;
    /// `BadRoleUsage` for a role held by a list.
    fn get_role_safe(&self, role: &Role) -> (holder: Result<Option<Address>, AccessControlError>)
        ensures
            mirrors(holder, self@.get_role_safe(*role)),
    ;

    /// The holder of `Admin`, the one role that is sure to be assigned once
    /// the contract is set up; `BadRoleUsage` for any other role, and
    /// `RoleNotFound` while `Admin` has no holder.
    fn get_role(&self, role: &Role) -> (holder: Result<Address, AccessControlError>)
        ensures
            mirrors(holder, self@.get_role(*role)),
    ;

    /// Assigns a single-address role.
    ///
    /// A delayed role is assigned this way only while it has no holder: once
    /// it has one, only a transfer replaces it. A refused call changes
    /// nothing.
    fn set_role_address(&mut self, role: &Role, address: &Address) -> (outcome: Result<
        (),
        AccessControlError,
    >)
        ensures
            old(self)@.leads_to(
                old(self)@.set_role_address(*role, address@),
                outcome,
                final(self)@,
            ),
    ;
}

/// Reading and assigning the roles held by a list of addresses.
pub trait MultipleAddressesManagementTrait: View<V = AccessControlView> {
    /// The holders of a role held by a list, empty if it was never assigned;
    /// `BadRoleUsage` for a single-address role.
    fn get_role_addresses(&self, role: &Role) -> (holders: Result<
        Vec<Address>,
        AccessControlError,
    >)
        ensures
            mirrors(holders, self@.get_role_addresses(*role)),
    ;

    /// Assigns a role held by a list. A refused call changes nothing.
    fn set_role_addresses(&mut self, role: &Role, addresses: &Vec<Address>) -> (outcome: Result<
        (),
        AccessControlError,
    >)
        ensures
            old(self)@.leads_to(
                old(self)@.set_role_addresses(*role, addresses.deep_view()),
                outcome,
                final(self)@,
            ),
    ;
}

impl SingleAddressManagementTrait for AccessControl {
    fn get_role_safe(&self, role: &Role) -> (holder: Result<Option<Address>, AccessControlError>) {
        if role.has_many_users() {
            return Err(AccessControlError::BadRoleUsage);
        }
        match self.holder_slot(role) {
            Some(address) => Ok(Some(address.clone())),
            None => Ok(None),
        }
    }

    fn get_role(&self, role: &Role) -> (holder: Result<Address, AccessControlError>) {
        match role {
            Role::Admin => {},
            _ => {
                return Err(AccessControlError::BadRoleUsage);
            },
        }
        match self.holder_slot(role) {
            Some(address) => Ok(address.clone()),
            None => Err(AccessControlError::RoleNotFound),
        }
    }

    fn set_role_address(&mut self, role: &Role, address: &Address) -> (outcome: Result<
        (),
        AccessControlError,
    >) {
        if role.has_many_users() {
            return Err(AccessControlError::BadRoleUsage);
        }
        if self.holder_slot(role).is_some() && role.is_transfer_delayed() {
            return Err(AccessControlError::BadRoleUsage);
        }
        self.put_holder(role, address.clone());
        Ok(())
    }
}

impl MultipleAddressesManagementTrait for AccessControl {
    fn get_role_addresses(&self, role: &Role) -> (holders: Result<
        Vec<Address>,
        AccessControlError,
    >) {
        if !role.has_many_users() {
            return Err(AccessControlError::BadRoleUsage);
        }
        Ok(copy_addresses(&self.emergency_pause_admins))
    }

    fn set_role_addresses(&mut self, role: &Role, addresses: &Vec<Address>) -> (outcome: Result<
        (),
        AccessControlError,
    >) {
        if !role.has_many_users() || role.is_transfer_delayed() {
            return Err(AccessControlError::BadRoleUsage);
        }
        self.emergency_pause_admins = copy_addresses(addresses);
        Ok(())
    }
}

impl AccessControl {
    /// Writes the holder of a single-address role.
    pub(crate) fn put_holder(&mut self, role: &Role, address: Address)
        ensures
            final(self)@ == old(self)@.with_holder(*role, address@),
    {
        match role {
            Role::Admin => {
                self.admin = Some(address);
            },
            Role::EmergencyAdmin => {
                self.emergency_admin = Some(address);
            },
            Role::RewardsAdmin => {
                self.rewards_admin = Some(address);
            },
            Role::OperationsAdmin => {
                self.operations_admin = Some(address);
            },
            Role::PauseAdmin => {
                self.pause_admin = Some(address);
            },
            Role::EmergencyPauseAdmin => {},
        }
    }
}

} // verus!
