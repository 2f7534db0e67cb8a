//! The contract as a whole: the role store and the upgrade lane side by side,
//! the roles by number, and the operations that span both.

use vstd::prelude::*;
use crate::access::{
    copy_addresses, copy_slot, mirrors, AccessControl, AccessControlView, AddressView,
};
use crate::address::Address;
use crate::emergency::{get_emergency_mode, set_emergency_mode};
use crate::errors::AccessControlError;
use crate::management::{MultipleAddressesManagementTrait, SingleAddressManagementTrait};
use crate::role::{law_roles_resolve_from_their_symbols, Role};
use crate::storage::{get_future_deadline_key, get_future_key, get_key, DataKey};
use crate::transfer::TransferOwnershipTrait;
use crate::upgrade::{
    apply_upgrade, commit_upgrade, get_future_wasm, get_upgrade_deadline, put_future_wasm,
    put_upgrade_deadline, revert_upgrade, Upgrade, WasmHash,
};
use crate::utils::{
    require_operations_admin_or_owner, require_pause_admin_or_owner,
    require_pause_or_emergency_pause_admin_or_owner, require_rewards_admin_or_owner,
};

verus! {

/// The persistent state of the contract.
#[derive(Debug, PartialEq, Eq)]
pub struct FeesCollector {
    /// The role store, with the emergency mode flag.
    pub access_control: AccessControl,
    /// The upgrade lane.
    pub upgrade: Upgrade,
}

/// The mathematical value of the contract's state.
pub struct SystemState {
    pub access_control: AccessControlView,
    pub upgrade: Upgrade,
}

impl View for FeesCollector {
    type V = SystemState;

    open spec fn view(&self) -> SystemState {
        SystemState { access_control: self.access_control@, upgrade: self.upgrade }
    }
}

impl Clone for FeesCollector {
    fn clone(&self) -> (copy: FeesCollector)
        ensures
            copy@ == self@,
    {
        FeesCollector { access_control: self.access_control.clone(), upgrade: self.upgrade }
    }
}

impl FeesCollector {
    /// The number that stands for `Admin`.
    pub const ROLE_ID_ADMIN: u32 = 1;

    /// The number that stands for `EmergencyAdmin`.
    pub const ROLE_ID_EMERGENCY_ADMIN: u32 = 2;

    /// The number that stands for `RewardsAdmin`.
    pub const ROLE_ID_REWARDS_ADMIN: u32 = 3;

    /// The number that stands for `OperationsAdmin`.
    pub const ROLE_ID_OPERATIONS_ADMIN: u32 = 4;

    /// The number that stands for `PauseAdmin`.
    pub const ROLE_ID_PAUSE_ADMIN: u32 = 5;

    /// The number that stands for `EmergencyPauseAdmin`.
    pub const ROLE_ID_EMERGENCY_PAUSE_ADMIN: u32 = 6;

    /// Whether a number stands for a role.
    pub open spec fn spec_is_role_id(role_id: u32) -> bool {
        Self::ROLE_ID_ADMIN <= role_id <= Self::ROLE_ID_EMERGENCY_PAUSE_ADMIN
    }

    /// Whether a number stands for a role.
    #[verifier::when_used_as_spec(spec_is_role_id)]
    pub fn is_role_id(role_id: u32) -> (valid: bool)
        ensures
            valid == Self::spec_is_role_id(role_id),
    {
        Self::ROLE_ID_ADMIN <= role_id && role_id <= Self::ROLE_ID_EMERGENCY_PAUSE_ADMIN
    }

    /// The role that a number stands for.
    pub open spec fn spec_role_from_id(role_id: u32) -> Role
        recommends
            Self::is_role_id(role_id),
    {
        if role_id == Self::ROLE_ID_ADMIN {
            Role::Admin
        } else if role_id == Self::ROLE_ID_EMERGENCY_ADMIN {
            Role::EmergencyAdmin
        } else if role_id == Self::ROLE_ID_REWARDS_ADMIN {
            Role::RewardsAdmin
        } else if role_id == Self::ROLE_ID_OPERATIONS_ADMIN {
            Role::OperationsAdmin
        } else if role_id == Self::ROLE_ID_PAUSE_ADMIN {
            Role::PauseAdmin
        } else {
            Role::EmergencyPauseAdmin
        }
    }

    /// The role that a number from 1 to 6 stands for.
    #[verifier::when_used_as_spec(spec_role_from_id)]
    pub fn role_from_id(role_id: u32) -> (role: Role)
        requires
            Self::is_role_id(role_id),
        ensures
            role == Self::spec_role_from_id(role_id),
    {
        if role_id == Self::ROLE_ID_ADMIN {
            Role::Admin
        } else if role_id == Self::ROLE_ID_EMERGENCY_ADMIN {
            Role::EmergencyAdmin
        } else if role_id == Self::ROLE_ID_REWARDS_ADMIN {
            Role::RewardsAdmin
        } else if role_id == Self::ROLE_ID_OPERATIONS_ADMIN {
            Role::OperationsAdmin
        } else if role_id == Self::ROLE_ID_PAUSE_ADMIN {
            Role::PauseAdmin
        } else {
            assert(role_id == Self::ROLE_ID_EMERGENCY_PAUSE_ADMIN);
            Role::EmergencyPauseAdmin
        }
    }

    /// The name of the role that a number from 1 to 6 stands for.
    pub fn role_id_to_symbol(role_id: u32) -> (name: &'static str)
        requires
            Self::is_role_id(role_id),
        ensures
            name@ == Self::role_from_id(role_id).symbol(),
    {
        let role = Self::role_from_id(role_id);
        role.as_symbol()
    }

    /// The code of the slot that holds the holder, or the holders, of the
    /// role with the given name; `UnknownRole` for a name that stands for no
    /// role.
    pub fn h_get_storage_key(role_name: &str) -> (code: Result<u32, AccessControlError>)
        ensures
            code == for_role_named(
                role_name@,
                |role: Role| Ok::<u32, AccessControlError>(DataKey::of_role(role).code()),
            ),
    {
        match Role::from_symbol(role_name) {
            Ok(role) => Ok(get_key(&role).code()),
            Err(error) => Err(error),
        }
    }

    /// The code of the slot that holds the future holder of the role with the
    /// given name; `UnknownRole` for a name that stands for no role,
    /// `BadRoleUsage` for a role that is not delayed.
    pub fn h_get_future_storage_key(role_name: &str) -> (code: Result<u32, AccessControlError>)
        ensures
            code == for_role_named(role_name@, |role: Role| code_of(DataKey::of_future(role))),
    {
        match Role::from_symbol(role_name) {
            Ok(role) => key_code(get_future_key(&role)),
            Err(error) => Err(error),
        }
    }

    /// The code of the slot that holds the transfer deadline of the role with
    /// the given name; `UnknownRole` for a name that stands for no role,
    /// `BadRoleUsage` for a role that is not delayed.
    pub fn h_get_future_deadline_key(role_name: &str) -> (code: Result<u32, AccessControlError>)
        ensures
            code == for_role_named(
                role_name@,
                |role: Role| code_of(DataKey::of_future_deadline(role)),
            ),
    {
        match Role::from_symbol(role_name) {
            Ok(role) => key_code(get_future_deadline_key(&role)),
            Err(error) => Err(error),
        }
    }

    /// The code of the slot that holds the holder, or the holders, of the
    /// role with the given number.
    pub fn h_get_storage_key_by_id(role_id: u32) -> (code: u32)
        requires
            Self::is_role_id(role_id),
        ensures
            code == DataKey::of_role(Self::role_from_id(role_id)).code(),
    {
        let role = Self::role_from_id(role_id);
        get_key(&role).code()
    }

    /// The code of the slot that holds the future holder of the role with the
    /// given number; `BadRoleUsage` for a role that is not delayed.
    pub fn h_get_future_storage_key_by_id(role_id: u32) -> (code: Result<u32, AccessControlError>)
        requires
            Self::is_role_id(role_id),
        ensures
            code == code_of(DataKey::of_future(Self::role_from_id(role_id))),
    {
        let role = Self::role_from_id(role_id);
        key_code(get_future_key(&role))
    }

    /// The code of the slot that holds the transfer deadline of the role with
    /// the given number; `BadRoleUsage` for a role that is not delayed.
    pub fn h_get_future_deadline_key_by_id(role_id: u32) -> (code: Result<
        u32,
        AccessControlError,
    >)
        requires
            Self::is_role_id(role_id),
        ensures
            code == code_of(DataKey::of_future_deadline(Self::role_from_id(role_id))),
    {
        let role = Self::role_from_id(role_id);
        key_code(get_future_deadline_key(&role))
    }

    /// The state of a contract in which nothing was written yet. Transfers
    /// and upgrades wait the same delay.
    pub fn new(delay: u64) -> (contract: FeesCollector)
        ensures
            contract@ == SystemState::empty(delay),
    {
        FeesCollector { access_control: AccessControl::new(delay), upgrade: Upgrade::new(delay) }
    }

    /// Assigns every role at once, as the first step in the life of a
    /// contract.
    ///
    /// `BadRoleUsage` where `Admin` or `EmergencyAdmin` has a holder already;
    /// then nothing is assigned.
    pub fn h_init_all_roles(
        &mut self,
        admin: &Address,
        emergency_admin: &Address,
        rewards_admin: &Address,
        operations_admin: &Address,
        pause_admin: &Address,
        emergency_pause_admins: &Vec<Address>,
    ) -> (outcome: Result<(), AccessControlError>)
        ensures
            match old(self)@.access_control.init_all_roles(
                admin@,
                emergency_admin@,
                rewards_admin@,
                operations_admin@,
                pause_admin@,
                emergency_pause_admins.deep_view(),
            ) {
                Ok(next) => outcome is Ok && final(self)@.access_control == next,
                Err(error) => outcome == Err::<(), AccessControlError>(error)
                    && final(self)@.access_control == old(self)@.access_control,
            },
            final(self)@.upgrade == old(self)@.upgrade,
    {
        if self.access_control.holder_slot(&Role::Admin).is_some() {
            return Err(AccessControlError::BadRoleUsage);
        }
        if self.access_control.holder_slot(&Role::EmergencyAdmin).is_some() {
            return Err(AccessControlError::BadRoleUsage);
        }
        self.access_control.put_holder(&Role::Admin, admin.clone());
        self.access_control.put_holder(&Role::EmergencyAdmin, emergency_admin.clone());
        self.h_set_privileged_addrs(
            rewards_admin,
            operations_admin,
            pause_admin,
            emergency_pause_admins,
        );
        Ok(())
    }

    /// Assigns the roles that are not delayed: the rewards, operations and
    /// pause admins and the list of emergency pause admins.
    pub fn h_set_privileged_addrs(
        &mut self,
        rewards_admin: &Address,
        operations_admin: &Address,
        pause_admin: &Address,
        emergency_pause_admins: &Vec<Address>,
    )
        ensures
            final(self)@.access_control == old(self)@.access_control.set_privileged_addrs(
                rewards_admin@,
                operations_admin@,
                pause_admin@,
                emergency_pause_admins.deep_view(),
            ),
            final(self)@.upgrade == old(self)@.upgrade,
    {
        self.access_control.put_holder(&Role::RewardsAdmin, rewards_admin.clone());
        self.access_control.put_holder(&Role::OperationsAdmin, operations_admin.clone());
        self.access_control.put_holder(&Role::PauseAdmin, pause_admin.clone());
        self.access_control.emergency_pause_admins = copy_addresses(emergency_pause_admins);
    }

    /// The holder of the single-address role with the given name.
    ///
    /// `UnknownRole` for a name that stands for no role.
    pub fn h_get_role_safe(&self, role_name: &str) -> (holder: Result<
        Option<Address>,
        AccessControlError,
    >)
        ensures
            mirrors(holder, self@.get_role_safe(role_name@)),
    {
        let role = match Role::from_symbol(role_name) {
            Ok(role) => role,
            Err(error) => {
                return Err(error);
            },
        };
        self.access_control.get_role_safe(&role)
    }

    /// The holder of `Admin`, asked for by name; any other role is refused.
    ///
    /// `UnknownRole` for a name that stands for no role.
    pub fn h_get_role(&self, role_name: &str) -> (holder: Result<Address, AccessControlError>)
        ensures
            mirrors(holder, self@.get_role(role_name@)),
    {
        let role = match Role::from_symbol(role_name) {
            Ok(role) => role,
            Err(error) => {
                return Err(error);
            },
        };
        self.access_control.get_role(&role)
    }

    /// Assigns the single-address role with the given name.
    ///
    /// `UnknownRole` for a name that stands for no role.
    pub fn h_set_role_address(&mut self, role_name: &str, address: &Address) -> (outcome: Result<
        (),
        AccessControlError,
    >)
        ensures
            old(self)@.leads_to(
                old(self)@.set_role_address(role_name@, address@),
                outcome,
                final(self)@,
            ),
    {
        let role = match Role::from_symbol(role_name) {
            Ok(role) => role,
            Err(error) => {
                return Err(error);
            },
        };
        self.access_control.set_role_address(&role, address)
    }

    /// The holders of the role with the given name, for a role held by a
    /// list.
    ///
    /// `UnknownRole` for a name that stands for no role.
    pub fn h_get_role_addresses(&self, role_name: &str) -> (holders: Result<
        Vec<Address>,
        AccessControlError,
    >)
        ensures
            mirrors(holders, self@.get_role_addresses(role_name@)),
    {
        let role = match Role::from_symbol(role_name) {
            Ok(role) => role,
            Err(error) => {
                return Err(error);
            },
        };
        self.access_control.get_role_addresses(&role)
    }

    /// Assigns the role with the given name, for a role held by a list.
    ///
    /// `UnknownRole` for a name that stands for no role.
    pub fn h_set_role_addresses(
        &mut self,
        role_name: &str,
        addresses: &Vec<Address>,
    ) -> (outcome: Result<(), AccessControlError>)
        ensures
            old(self)@.leads_to(
                old(self)@.set_role_addresses(role_name@, addresses.deep_view()),
                outcome,
                final(self)@,
            ),
    {
        let role = match Role::from_symbol(role_name) {
            Ok(role) => role,
            Err(error) => {
                return Err(error);
            },
        };
        self.access_control.set_role_addresses(&role, addresses)
    }

    /// Whether `address` holds the role with the given name.
    ///
    /// `UnknownRole` for a name that stands for no role.
    pub fn h_address_has_role(&self, address: &Address, role_name: &str) -> (has: Result<
        bool,
        AccessControlError,
    >)
        ensures
            has == self@.address_has_role(address@, role_name@),
    {
        let role = match Role::from_symbol(role_name) {
            Ok(role) => role,
            Err(error) => {
                return Err(error);
            },
        };
        Ok(self.access_control.address_has_role(address, &role))
    }

    /// `Unauthorized` unless `address` holds the role with the given name.
    ///
    /// `UnknownRole` for a name that stands for no role.
    pub fn h_assert_address_has_role(&self, address: &Address, role_name: &str) -> (outcome: Result<
        (),
        AccessControlError,
    >)
        ensures
            outcome == self@.assert_address_has_role(address@, role_name@),
    {
        let role = match Role::from_symbol(role_name) {
            Ok(role) => role,
            Err(error) => {
                return Err(error);
            },
        };
        self.access_control.assert_address_has_role(address, &role)
    }

    /// Commits a transfer of the role with the given name. Where the call is
    /// not refused, the deadline must fit in `u64`.
    ///
    /// `UnknownRole` for a name that stands for no role.
    pub fn h_commit_transfer_ownership(
        &mut self,
        role_name: &str,
        future_address: &Address,
        now: u64,
    ) -> (outcome: Result<(), AccessControlError>)
        requires
            Role::resolve(role_name@) matches Ok(role) ==> (old(
                self,
            )@.access_control.accepts_commit(role) ==> old(self)@.access_control.deadline_from(
                now,
            ) <= u64::MAX),
        ensures
            old(self)@.leads_to(
                old(self)@.commit_transfer_ownership(role_name@, future_address@, now),
                outcome,
                final(self)@,
            ),
    {
        let role = match Role::from_symbol(role_name) {
            Ok(role) => role,
            Err(error) => {
                return Err(error);
            },
        };
        self.access_control.commit_transfer_ownership(&role, future_address, now)
    }

    /// Applies the pending transfer of the role with the given name, and
    /// returns the new holder.
    ///
    /// `UnknownRole` for a name that stands for no role.
    pub fn h_apply_transfer_ownership(&mut self, role_name: &str, now: u64) -> (outcome: Result<
        Address,
        AccessControlError,
    >)
        ensures
            old(self)@.leads_to(
                old(self)@.apply_transfer_ownership(role_name@, now),
                outcome,
                final(self)@,
            ),
            outcome is Ok ==> mirrors(outcome, old(self)@.get_future_address(role_name@)),
    {
        let role = match Role::from_symbol(role_name) {
            Ok(role) => role,
            Err(error) => {
                return Err(error);
            },
        };
        self.access_control.apply_transfer_ownership(&role, now)
    }

    /// Cancels the pending transfer of the role with the given name.
    ///
    /// `UnknownRole` for a name that stands for no role.
    pub fn h_revert_transfer_ownership(&mut self, role_name: &str) -> (outcome: Result<
        (),
        AccessControlError,
    >)
        ensures
            old(self)@.leads_to(
                old(self)@.revert_transfer_ownership(role_name@),
                outcome,
                final(self)@,
            ),
    {
        let role = match Role::from_symbol(role_name) {
            Ok(role) => role,
            Err(error) => {
                return Err(error);
            },
        };
        self.access_control.revert_transfer_ownership(&role)
    }

    /// The transfer deadline of the role with the given name.
    ///
    /// `UnknownRole` for a name that stands for no role.
    pub fn h_get_transfer_ownership_dl(&self, role_name: &str) -> (deadline: Result<
        u64,
        AccessControlError,
    >)
        ensures
            deadline == self@.get_transfer_ownership_deadline(role_name@),
    {
        let role = match Role::from_symbol(role_name) {
            Ok(role) => role,
            Err(error) => {
                return Err(error);
            },
        };
        self.access_control.get_transfer_ownership_deadline(&role)
    }

    /// The address that the last committed transfer of the role with the
    /// given name named.
    ///
    /// `UnknownRole` for a name that stands for no role.
    pub fn h_get_future_address(&self, role_name: &str) -> (future: Result<
        Address,
        AccessControlError,
    >)
        ensures
            mirrors(future, self@.get_future_address(role_name@)),
    {
        let role = match Role::from_symbol(role_name) {
            Ok(role) => role,
            Err(error) => {
                return Err(error);
            },
        };
        self.access_control.get_future_address(&role)
    }

    /// Whether the role with the given name is held by a list of addresses.
    ///
    /// `UnknownRole` for a name that stands for no role.
    pub fn h_role_has_many_users(role_name: &str) -> (many: Result<bool, AccessControlError>)
        ensures
            many == for_role_named(
                role_name@,
                |role: Role| Ok::<bool, AccessControlError>(role.has_many_users()),
            ),
    {
        let role = match Role::from_symbol(role_name) {
            Ok(role) => role,
            Err(error) => {
                return Err(error);
            },
        };
        Ok(role.has_many_users())
    }

    /// Whether the holder of the role with the given name changes only
    /// through a delayed transfer.
    ///
    /// `UnknownRole` for a name that stands for no role.
    pub fn h_role_is_transfer_delayed(role_name: &str) -> (delayed: Result<
        bool,
        AccessControlError,
    >)
        ensures
            delayed == for_role_named(
                role_name@,
                |role: Role| Ok::<bool, AccessControlError>(role.is_transfer_delayed()),
            ),
    {
        let role = match Role::from_symbol(role_name) {
            Ok(role) => role,
            Err(error) => {
                return Err(error);
            },
        };
        Ok(role.is_transfer_delayed())
    }

    /// The holder of `Admin`, asked for by number; any other role is refused.
    pub fn h_get_role_by_id(&self, role_id: u32) -> (holder: Result<Address, AccessControlError>)
        requires
            Self::is_role_id(role_id),
        ensures
            mirrors(holder, self@.access_control.get_role(Self::role_from_id(role_id))),
    {
        let role = Self::role_from_id(role_id);
        self.access_control.get_role(&role)
    }

    /// The holder of the single-address role with the given number.
    pub fn h_get_role_safe_by_id(&self, role_id: u32) -> (holder: Result<
        Option<Address>,
        AccessControlError,
    >)
        requires
            Self::is_role_id(role_id),
        ensures
            mirrors(holder, self@.access_control.get_role_safe(Self::role_from_id(role_id))),
    {
        let role = Self::role_from_id(role_id);
        self.access_control.get_role_safe(&role)
    }

    /// Assigns the single-address role with the given number.
    pub fn h_set_role_address_by_id(&mut self, role_id: u32, address: &Address) -> (outcome: Result<
        (),
        AccessControlError,
    >)
        requires
            Self::is_role_id(role_id),
        ensures
            old(self)@.leads_to(
                old(self)@.lift(
                    old(self)@.access_control.set_role_address(
                        Self::role_from_id(role_id),
                        address@,
                    ),
                ),
                outcome,
                final(self)@,
            ),
    {
        let role = Self::role_from_id(role_id);
        self.access_control.set_role_address(&role, address)
    }

    /// The holders of the role with the given number, for a role held by a
    /// list.
    pub fn h_get_role_addresses_by_id(&self, role_id: u32) -> (holders: Result<
        Vec<Address>,
        AccessControlError,
    >)
        requires
            Self::is_role_id(role_id),
        ensures
            mirrors(holders, self@.access_control.get_role_addresses(Self::role_from_id(role_id))),
    {
        let role = Self::role_from_id(role_id);
        self.access_control.get_role_addresses(&role)
    }

    /// Assigns the role with the given number, for a role held by a list.
    pub fn h_set_role_addresses_by_id(
        &mut self,
        role_id: u32,
        addresses: &Vec<Address>,
    ) -> (outcome: Result<(), AccessControlError>)
        requires
            Self::is_role_id(role_id),
        ensures
            old(self)@.leads_to(
                old(self)@.lift(
                    old(self)@.access_control.set_role_addresses(
                        Self::role_from_id(role_id),
                        addresses.deep_view(),
                    ),
                ),
                outcome,
                final(self)@,
            ),
    {
        let role = Self::role_from_id(role_id);
        self.access_control.set_role_addresses(&role, addresses)
    }

    /// The holder of `Admin`; `RoleNotFound` while there is none.
    pub fn h_get_admin_role(&self) -> (holder: Result<Address, AccessControlError>)
        ensures
            mirrors(holder, self@.access_control.get_role(Role::Admin)),
    {
        self.access_control.get_role(&Role::Admin)
    }

    /// The holder of `EmergencyAdmin`, if there is one.
    pub fn h_get_emergency_admin_safe(&self) -> (holder: Option<Address>)
        ensures
            holder.deep_view() == self@.access_control.holder(Role::EmergencyAdmin),
    {
        copy_slot(&self.access_control.emergency_admin)
    }

    /// The holder of `RewardsAdmin`, if there is one.
    pub fn h_get_rewards_admin_safe(&self) -> (holder: Option<Address>)
        ensures
            holder.deep_view() == self@.access_control.holder(Role::RewardsAdmin),
    {
        copy_slot(&self.access_control.rewards_admin)
    }

    /// The holder of `OperationsAdmin`, if there is one.
    pub fn h_get_operations_admin_safe(&self) -> (holder: Option<Address>)
        ensures
            holder.deep_view() == self@.access_control.holder(Role::OperationsAdmin),
    {
        copy_slot(&self.access_control.operations_admin)
    }

    /// The holder of `PauseAdmin`, if there is one.
    pub fn h_get_pause_admin_safe(&self) -> (holder: Option<Address>)
        ensures
            holder.deep_view() == self@.access_control.holder(Role::PauseAdmin),
    {
        copy_slot(&self.access_control.pause_admin)
    }

    /// Assigns `Admin`; `BadRoleUsage` where it has a holder already.
    pub fn h_set_admin_address(&mut self, address: &Address) -> (outcome: Result<
        (),
        AccessControlError,
    >)
        ensures
            old(self)@.leads_to(
                old(self)@.lift(old(self)@.access_control.set_role_address(Role::Admin, address@)),
                outcome,
                final(self)@,
            ),
    {
        self.access_control.set_role_address(&Role::Admin, address)
    }

    /// Assigns `EmergencyAdmin`; `BadRoleUsage` where it has a holder already.
    pub fn h_set_emergency_admin_address(&mut self, address: &Address) -> (outcome: Result<
        (),
        AccessControlError,
    >)
        ensures
            old(self)@.leads_to(
                old(self)@.lift(
                    old(self)@.access_control.set_role_address(Role::EmergencyAdmin, address@),
                ),
                outcome,
                final(self)@,
            ),
    {
        self.access_control.set_role_address(&Role::EmergencyAdmin, address)
    }

    /// Assigns `RewardsAdmin`.
    pub fn h_set_rewards_admin_address(&mut self, address: &Address)
        ensures
            final(self)@ == old(self)@.with_access_control(
                old(self)@.access_control.with_holder(Role::RewardsAdmin, address@),
            ),
    {
        self.access_control.put_holder(&Role::RewardsAdmin, address.clone());
    }

    /// Assigns `OperationsAdmin`.
    pub fn h_set_operations_admin_address(&mut self, address: &Address)
        ensures
            final(self)@ == old(self)@.with_access_control(
                old(self)@.access_control.with_holder(Role::OperationsAdmin, address@),
            ),
    {
        self.access_control.put_holder(&Role::OperationsAdmin, address.clone());
    }

    /// Assigns `PauseAdmin`.
    pub fn h_set_pause_admin_address(&mut self, address: &Address)
        ensures
            final(self)@ == old(self)@.with_access_control(
                old(self)@.access_control.with_holder(Role::PauseAdmin, address@),
            ),
    {
        self.access_control.put_holder(&Role::PauseAdmin, address.clone());
    }

    /// `Unauthorized` unless `address` is the owner or the rewards admin.
    pub fn h_require_rewards_admin_or_owner(&self, address: &Address) -> (outcome: Result<
        (),
        AccessControlError,
    >)
        ensures
            outcome is Ok <==> self@.access_control.is_owner_or(address@, Role::RewardsAdmin),
            outcome is Err ==> outcome->Err_0 == AccessControlError::Unauthorized,
    {
        require_rewards_admin_or_owner(&self.access_control, address)
    }

    /// `Unauthorized` unless `address` is the owner or the operations admin.
    pub fn h_require_operations_admin_owner(&self, address: &Address) -> (outcome: Result<
        (),
        AccessControlError,
    >)
        ensures
            outcome is Ok <==> self@.access_control.is_owner_or(address@, Role::OperationsAdmin),
            outcome is Err ==> outcome->Err_0 == AccessControlError::Unauthorized,
    {
        require_operations_admin_or_owner(&self.access_control, address)
    }

    /// `Unauthorized` unless `address` is the owner, the pause admin or one
    /// of the emergency pause admins.
    pub fn h_require_pause_emergency_admin(&self, address: &Address) -> (outcome: Result<
        (),
        AccessControlError,
    >)
        ensures
            outcome is Ok <==> self@.access_control.is_owner_or(address@, Role::PauseAdmin)
                || self@.access_control.has_role(address@, Role::EmergencyPauseAdmin),
            outcome is Err ==> outcome->Err_0 == AccessControlError::Unauthorized,
    {
        require_pause_or_emergency_pause_admin_or_owner(&self.access_control, address)
    }

    /// `Unauthorized` unless `address` is the owner or the pause admin.
    pub fn h_require_pause_admin_or_owner(&self, address: &Address) -> (outcome: Result<
        (),
        AccessControlError,
    >)
        ensures
            outcome is Ok <==> self@.access_control.is_owner_or(address@, Role::PauseAdmin),
            outcome is Err ==> outcome->Err_0 == AccessControlError::Unauthorized,
    {
        require_pause_admin_or_owner(&self.access_control, address)
    }

    /// Overwrites the emergency mode flag.
    pub fn h_set_emergency_mode_direct(&mut self, value: bool)
        ensures
            final(self)@ == old(self)@.with_access_control(
                old(self)@.access_control.with_emergency_mode(value),
            ),
    {
        set_emergency_mode(&mut self.access_control, &value);
    }

    /// Whether emergency mode is on.
    pub fn h_get_emergency_mode_direct(&self) -> (mode: bool)
        ensures
            mode == self@.access_control.emergency_mode,
    {
        get_emergency_mode(&self.access_control)
    }

    /// The deadline of the pending upgrade, 0 while none is pending.
    pub fn h_get_upgrade_deadline(&self) -> (deadline: u64)
        ensures
            deadline == self@.upgrade.upgrade_deadline,
    {
        get_upgrade_deadline(&self.upgrade)
    }

    /// Writes the deadline of the upgrade lane as it is given.
    pub fn h_put_upgrade_deadline(&mut self, value: u64)
        ensures
            final(self)@ == (SystemState {
                upgrade: Upgrade { upgrade_deadline: value, ..old(self)@.upgrade },
                ..old(self)@
            }),
    {
        put_upgrade_deadline(&mut self.upgrade, &value);
    }

    /// The hash that is stored for the pending upgrade, if any.
    pub fn h_get_future_wasm(&self) -> (hash: Option<WasmHash>)
        ensures
            hash == self@.upgrade.future_wasm,
    {
        get_future_wasm(&self.upgrade)
    }

    /// Stores the hash of the upgrade lane as it is given.
    pub fn h_put_future_wasm(&mut self, value: WasmHash)
        ensures
            final(self)@ == (SystemState {
                upgrade: Upgrade { future_wasm: Some(value), ..old(self)@.upgrade },
                ..old(self)@
            }),
    {
        put_future_wasm(&mut self.upgrade, &value);
    }

    /// Schedules the upgrade to `new_wasm_hash`, with the deadline
    /// `now + delay`.
    ///
    /// `AnotherActionActive` while an upgrade is pending; a refused call
    /// changes nothing. Where the call is not refused, the deadline must fit
    /// in `u64`.
    pub fn commit_upgrade(&mut self, new_wasm_hash: &WasmHash, now: u64) -> (outcome: Result<
        (),
        AccessControlError,
    >)
        requires
            !old(self).upgrade.pending() ==> old(self).upgrade.deadline_from(now) <= u64::MAX,
        ensures
            old(self)@.leads_to(
                old(self)@.commit_upgrade(*new_wasm_hash, now),
                outcome,
                final(self)@,
            ),
    {
        commit_upgrade(&mut self.upgrade, new_wasm_hash, now)
    }

    /// Ends the wait of the pending upgrade and hands out the hash of the
    /// code to install. While the emergency mode flag of the role store is
    /// set, the deadline is not looked at.
    ///
    /// `NoActionActive` while no upgrade is pending; outside emergency mode,
    /// `ActionNotReadyYet` while `now` is before the deadline. A refused call
    /// changes nothing.
    pub fn apply_upgrade(&mut self, now: u64) -> (outcome: Result<WasmHash, AccessControlError>)
        ensures
            old(self)@.leads_to(old(self)@.apply_upgrade(now), outcome, final(self)@),
            outcome is Ok ==> Some(outcome->Ok_0) == old(self)@.upgrade.future_wasm,
    {
        let emergency_mode = get_emergency_mode(&self.access_control);
        apply_upgrade(&mut self.upgrade, emergency_mode, now)
    }

    /// Cancels the pending upgrade, if there is one.
    pub fn revert_upgrade(&mut self)
        ensures
            final(self)@ == old(self)@.revert_upgrade(),
    {
        revert_upgrade(&mut self.upgrade)
    }
}

impl SystemState {
    /// The state in which nothing was ever written.
    pub open spec fn empty(delay: u64) -> SystemState {
        SystemState {
            access_control: AccessControlView::empty(delay),
            upgrade: Upgrade::empty(delay),
        }
    }

    /// The state with another role store.
    pub open spec fn with_access_control(self, access_control: AccessControlView) -> SystemState {
        SystemState { access_control, ..self }
    }

    /// Whether a call did what is expected of it: it succeeded and left the
    /// expected state, or it refused with the expected error and left the
    /// state as it was.
    pub open spec fn leads_to<T>(
        self,
        expected: Result<SystemState, AccessControlError>,
        outcome: Result<T, AccessControlError>,
        after: SystemState,
    ) -> bool {
        match expected {
            Ok(next) => outcome is Ok && after == next,
            Err(error) => outcome is Err && outcome->Err_0 == error && after == self,
        }
    }

    /// The state that follows from a change of the role store, or the error
    /// with which the change was refused.
    pub open spec fn lift(self, changed: Result<AccessControlView, AccessControlError>) -> Result<
        SystemState,
        AccessControlError,
    > {
        match changed {
            Ok(access_control) => Ok(self.with_access_control(access_control)),
            Err(error) => Err(error),
        }
    }

    /// What `h_get_role_safe` answers.
    pub open spec fn get_role_safe(self, role_name: Seq<char>) -> Result<
        Option<AddressView>,
        AccessControlError,
    > {
        for_role_named(role_name, |role: Role| self.access_control.get_role_safe(role))
    }

    /// What `h_get_role` answers.
    pub open spec fn get_role(self, role_name: Seq<char>) -> Result<
        AddressView,
        AccessControlError,
    > {
        for_role_named(role_name, |role: Role| self.access_control.get_role(role))
    }

    /// The state after `h_set_role_address`, or the error with which it
    /// refuses.
    pub open spec fn set_role_address(self, role_name: Seq<char>, address: AddressView) -> Result<
        SystemState,
        AccessControlError,
    > {
        self.lift(
            for_role_named(
                role_name,
                |role: Role| self.access_control.set_role_address(role, address),
            ),
        )
    }

    /// What `h_get_role_addresses` answers.
    pub open spec fn get_role_addresses(self, role_name: Seq<char>) -> Result<
        Seq<AddressView>,
        AccessControlError,
    > {
        for_role_named(role_name, |role: Role| self.access_control.get_role_addresses(role))
    }

    /// The state after `h_set_role_addresses`, or the error with which it
    /// refuses.
    pub open spec fn set_role_addresses(
        self,
        role_name: Seq<char>,
        addresses: Seq<AddressView>,
    ) -> Result<SystemState, AccessControlError> {
        self.lift(
            for_role_named(
                role_name,
                |role: Role| self.access_control.set_role_addresses(role, addresses),
            ),
        )
    }

    /// What `h_address_has_role` answers.
    pub open spec fn address_has_role(self, address: AddressView, role_name: Seq<char>) -> Result<
        bool,
        AccessControlError,
    > {
        for_role_named(
            role_name,
            |role: Role|
                Ok::<bool, AccessControlError>(self.access_control.has_role(address, role)),
        )
    }

    /// What `h_assert_address_has_role` answers.
    pub open spec fn assert_address_has_role(
        self,
        address: AddressView,
        role_name: Seq<char>,
    ) -> Result<(), AccessControlError> {
        for_role_named(role_name, |role: Role| self.access_control.assert_has_role(address, role))
    }

    /// The state after `h_commit_transfer_ownership` at the time `now`, or the
    /// error with which it refuses.
    pub open spec fn commit_transfer_ownership(
        self,
        role_name: Seq<char>,
        future_address: AddressView,
        now: u64,
    ) -> Result<SystemState, AccessControlError> {
        self.lift(
            for_role_named(
                role_name,
                |role: Role|
                    self.access_control.commit_transfer_ownership(role, future_address, now),
            ),
        )
    }

    /// The state after `h_apply_transfer_ownership` at the time `now`, or the
    /// error with which it refuses.
    pub open spec fn apply_transfer_ownership(self, role_name: Seq<char>, now: u64) -> Result<
        SystemState,
        AccessControlError,
    > {
        self.lift(
            for_role_named(
                role_name,
                |role: Role| self.access_control.apply_transfer_ownership(role, now),
            ),
        )
    }

    /// The state after `h_revert_transfer_ownership`, or the error with which
    /// it refuses.
    pub open spec fn revert_transfer_ownership(self, role_name: Seq<char>) -> Result<
        SystemState,
        AccessControlError,
    > {
        self.lift(
            for_role_named(
                role_name,
                |role: Role| self.access_control.revert_transfer_ownership(role),
            ),
        )
    }

    /// What `h_get_transfer_ownership_dl` answers.
    pub open spec fn get_transfer_ownership_deadline(self, role_name: Seq<char>) -> Result<
        u64,
        AccessControlError,
    > {
        for_role_named(
            role_name,
            |role: Role| self.access_control.get_transfer_ownership_deadline(role),
        )
    }

    /// What `h_get_future_address` answers.
    pub open spec fn get_future_address(self, role_name: Seq<char>) -> Result<
        AddressView,
        AccessControlError,
    > {
        for_role_named(role_name, |role: Role| self.access_control.get_future_address(role))
    }

    /// The state after `commit_upgrade` at the time `now`, or the error with
    /// which it refuses.
    pub open spec fn commit_upgrade(self, new_wasm_hash: WasmHash, now: u64) -> Result<
        SystemState,
        AccessControlError,
    > {
        match self.upgrade.commit(new_wasm_hash, now) {
            Ok(upgrade) => Ok(SystemState { upgrade, ..self }),
            Err(error) => Err(error),
        }
    }

    /// The state after `apply_upgrade` at the time `now`, or the error with
    /// which it refuses: the emergency mode flag decides whether the upgrade
    /// waits for its deadline.
    pub open spec fn apply_upgrade(self, now: u64) -> Result<SystemState, AccessControlError> {
        match self.upgrade.apply(self.access_control.emergency_mode, now) {
            Ok(upgrade) => Ok(SystemState { upgrade, ..self }),
            Err(error) => Err(error),
        }
    }

    /// The state after `revert_upgrade`.
    pub open spec fn revert_upgrade(self) -> SystemState {
        SystemState { upgrade: self.upgrade.cleared(), ..self }
    }
}

impl AccessControlView {
    /// The store after `h_set_privileged_addrs`.
    pub open spec fn set_privileged_addrs(
        self,
        rewards_admin: AddressView,
        operations_admin: AddressView,
        pause_admin: AddressView,
        emergency_pause_admins: Seq<AddressView>,
    ) -> AccessControlView {
        AccessControlView {
            rewards_admin: Some(rewards_admin),
            operations_admin: Some(operations_admin),
            pause_admin: Some(pause_admin),
            emergency_pause_admins,
            ..self
        }
    }

    /// The store after `h_init_all_roles`, or the error with which it
    /// refuses.
    pub open spec fn init_all_roles(
        self,
        admin: AddressView,
        emergency_admin: AddressView,
        rewards_admin: AddressView,
        operations_admin: AddressView,
        pause_admin: AddressView,
        emergency_pause_admins: Seq<AddressView>,
    ) -> Result<AccessControlView, AccessControlError> {
        if self.admin is Some || self.emergency_admin is Some {
            Err(AccessControlError::BadRoleUsage)
        } else {
            Ok(
                AccessControlView {
                    admin: Some(admin),
                    emergency_admin: Some(emergency_admin),
                    ..self.set_privileged_addrs(
                        rewards_admin,
                        operations_admin,
                        pause_admin,
                        emergency_pause_admins,
                    )
                },
            )
        }
    }
}

/// What an operation answers for the role with the given name:
/// `UnknownRole` where the name stands for no role.
pub open spec fn for_role_named<T>(
    role_name: Seq<char>,
    answer: spec_fn(Role) -> Result<T, AccessControlError>,
) -> Result<T, AccessControlError> {
    match Role::resolve(role_name) {
        Ok(role) => answer(role),
        Err(error) => Err(error),
    }
}

/// Asked for by its own name, a role is answered for; asked for by a name of
/// no role, `UnknownRole` is the answer.
pub proof fn law_names_select_roles<T>(
    role: Role,
    role_name: Seq<char>,
    answer: spec_fn(Role) -> Result<T, AccessControlError>,
)
    ensures
        for_role_named(role.symbol(), answer) == answer(role),
        (forall|named: Role| role_name != named.symbol()) ==> for_role_named(role_name, answer)
            == Err::<T, AccessControlError>(AccessControlError::UnknownRole),
{
    law_roles_resolve_from_their_symbols(role);
    if forall|named: Role| role_name != named.symbol() {
        assert(role_name != Role::Admin.symbol());
        assert(role_name != Role::EmergencyAdmin.symbol());
        assert(role_name != Role::RewardsAdmin.symbol());
        assert(role_name != Role::OperationsAdmin.symbol());
        assert(role_name != Role::PauseAdmin.symbol());
        assert(role_name != Role::EmergencyPauseAdmin.symbol());
    }
}

/// Each number from 1 to 6 stands for a role of its own, and each role has
/// its number.
pub proof fn law_role_ids_number_the_roles(role: Role)
    ensures
        exists|role_id: u32|
            FeesCollector::is_role_id(role_id) && #[trigger] FeesCollector::role_from_id(role_id)
                == role,
        forall|first: u32, second: u32|
            FeesCollector::is_role_id(first) && FeesCollector::is_role_id(second)
                && #[trigger] FeesCollector::role_from_id(first)
                == #[trigger] FeesCollector::role_from_id(second) ==> first == second,
{
    assert(FeesCollector::role_from_id(1) == Role::Admin);
    assert(FeesCollector::role_from_id(2) == Role::EmergencyAdmin);
    assert(FeesCollector::role_from_id(3) == Role::RewardsAdmin);
    assert(FeesCollector::role_from_id(4) == Role::OperationsAdmin);
    assert(FeesCollector::role_from_id(5) == Role::PauseAdmin);
    assert(FeesCollector::role_from_id(6) == Role::EmergencyPauseAdmin);
}

/// The code of a slot, where there is one.
pub open spec fn code_of(key: Result<DataKey, AccessControlError>) -> Result<
    u32,
    AccessControlError,
> {
    match key {
        Ok(key) => Ok(key.code()),
        Err(error) => Err(error),
    }
}

fn key_code(key: Result<DataKey, AccessControlError>) -> (code: Result<u32, AccessControlError>)
    ensures
        code == code_of(key),
{
    match key {
        Ok(key) => Ok(key.code()),
        Err(error) => Err(error),
    }
}

} // verus!
