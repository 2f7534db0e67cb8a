//! The storage slots of the role store and the slot that belongs to each role.

use vstd::prelude::*;
use crate::errors::AccessControlError;
use crate::role::Role;

verus! {

/// A slot of the contract's persistent storage.
#[derive(Clone, Copy, Debug, PartialEq, Eq, Structural, Hash)]
pub enum DataKey {
    /// The holder of `Admin`.
    Admin,
    /// The holder of `EmergencyAdmin`.
    EmergencyAdmin,
    /// The holder of `RewardsAdmin`.
    Operator,
    /// The holder of `OperationsAdmin`.
    OperationsAdmin,
    /// The holder of `PauseAdmin`.
    PauseAdmin,
    /// The holders of `EmergencyPauseAdmin`.
    EmPauseAdmins,
    /// The address that a pending transfer of `Admin` names.
    FutureAdmin,
    /// The address that a pending transfer of `EmergencyAdmin` names.
    FutureEmergencyAdmin,
    /// The deadline of a pending transfer of `Admin`.
    TransferOwnershipDeadline,
    /// The deadline of a pending transfer of `EmergencyAdmin`.
    EmAdminTransferOwnershipDeadline,
    /// The emergency mode flag.
    EmergencyMode,
}

impl DataKey {
    /// The slot that holds the holder, or the holders, of `role`.
    pub open spec fn of_role(role: Role) -> DataKey {
        match role {
            Role::Admin => DataKey::Admin,
            Role::EmergencyAdmin => DataKey::EmergencyAdmin,
            Role::RewardsAdmin => DataKey::Operator,
            Role::OperationsAdmin => DataKey::OperationsAdmin,
            Role::PauseAdmin => DataKey::PauseAdmin,
            Role::EmergencyPauseAdmin => DataKey::EmPauseAdmins,
        }
    }

    /// The slot that holds the future holder of `role`, for a role that is
    /// subject to delayed transfer.
    pub open spec fn of_future(role: Role) -> Result<DataKey, AccessControlError> {
        match role {
            Role::Admin => Ok(DataKey::FutureAdmin),
            Role::EmergencyAdmin => Ok(DataKey::FutureEmergencyAdmin),
            _ => Err(AccessControlError::BadRoleUsage),
        }
    }

    /// The slot that holds the transfer deadline of `role`, for a role that is
    /// subject to delayed transfer.
    pub open spec fn of_future_deadline(role: Role) -> Result<DataKey, AccessControlError> {
        match role {
            Role::Admin => Ok(DataKey::TransferOwnershipDeadline),
            Role::EmergencyAdmin => Ok(DataKey::EmAdminTransferOwnershipDeadline),
            _ => Err(AccessControlError::BadRoleUsage),
        }
    }

    /// The number that stands for the slot, from 1 for `Admin` to 11 for
    /// `EmergencyMode`, in the order of the variants.
    pub open spec fn spec_code(&self) -> u32 {
        match self {
            DataKey::Admin => 1,
            DataKey::EmergencyAdmin => 2,
            DataKey::Operator => 3,
            DataKey::OperationsAdmin => 4,
            DataKey::PauseAdmin => 5,
            DataKey::EmPauseAdmins => 6,
            DataKey::FutureAdmin => 7,
            DataKey::FutureEmergencyAdmin => 8,
            DataKey::TransferOwnershipDeadline => 9,
            DataKey::EmAdminTransferOwnershipDeadline => 10,
            DataKey::EmergencyMode => 11,
        }
    }

    #[verifier::when_used_as_spec(spec_code)]
    pub fn code(&self) -> (code: u32)
        ensures
            code == self.spec_code(),
    {
        match self {
            DataKey::Admin => 1,
            DataKey::EmergencyAdmin => 2,
            DataKey::Operator => 3,
            DataKey::OperationsAdmin => 4,
            DataKey::PauseAdmin => 5,
            DataKey::EmPauseAdmins => 6,
            DataKey::FutureAdmin => 7,
            DataKey::FutureEmergencyAdmin => 8,
            DataKey::TransferOwnershipDeadline => 9,
            DataKey::EmAdminTransferOwnershipDeadline => 10,
            DataKey::EmergencyMode => 11,
        }
    }
}

/// The slot that holds the holder, or the holders, of `role`.
pub fn get_key(role: &Role) -> (key: DataKey)
    ensures
        key == DataKey::of_role(*role),
{
    match role {
        Role::Admin => DataKey::Admin,
        Role::EmergencyAdmin => DataKey::EmergencyAdmin,
        Role::RewardsAdmin => DataKey::Operator,
        Role::OperationsAdmin => DataKey::OperationsAdmin,
        Role::PauseAdmin => DataKey::PauseAdmin,
        Role::EmergencyPauseAdmin => DataKey::EmPauseAdmins,
    }
}

/// The slot that holds the future holder of `role`; `BadRoleUsage` for a role
/// that is not subject to delayed transfer.
pub fn get_future_key(role: &Role) -> (key: Result<DataKey, AccessControlError>)
    ensures
        key == DataKey::of_future(*role),
        key is Ok <==> role.is_transfer_delayed(),
{
    match role {
        Role::Admin => Ok(DataKey::FutureAdmin),
        Role::EmergencyAdmin => Ok(DataKey::FutureEmergencyAdmin),
        _ => Err(AccessControlError::BadRoleUsage),
    }
}

/// The slot that holds the transfer deadline of `role`; `BadRoleUsage` for a
/// role that is not subject to delayed transfer.
pub fn get_future_deadline_key(role: &Role) -> (key: Result<DataKey, AccessControlError>)
    ensures
        key == DataKey::of_future_deadline(*role),
        key is Ok <==> role.is_transfer_delayed(),
{
    match role {
        Role::Admin => Ok(DataKey::TransferOwnershipDeadline),
        Role::EmergencyAdmin => Ok(DataKey::EmAdminTransferOwnershipDeadline),
        _ => Err(AccessControlError::BadRoleUsage),
    }
}

/// No two slots share a code.
pub proof fn law_codes_are_distinct(first: DataKey, second: DataKey)
    ensures
        first.code() == second.code() <==> first == second,
        1 <= first.code() <= 11,
{
}

/// No slot serves two purposes: the holder slots of distinct roles differ,
/// and the future-holder and deadline slots of the delayed roles differ from
/// each other, from every holder slot and from the emergency mode flag.
pub proof fn law_slots_are_disjoint(first: Role, second: Role)
    ensures
        DataKey::of_role(first) == DataKey::of_role(second) <==> first == second,
        DataKey::of_role(first) != DataKey::EmergencyMode,
        DataKey::of_future(first) matches Ok(future) ==> {
            &&& future != DataKey::of_role(second)
            &&& future != DataKey::EmergencyMode
            &&& DataKey::of_future(second) is Ok && DataKey::of_future(second)->Ok_0 == future
                ==> first == second
            &&& DataKey::of_future_deadline(second) is Ok ==> DataKey::of_future_deadline(
                second,
            )->Ok_0 != future
        },
        DataKey::of_future_deadline(first) matches Ok(deadline) ==> {
            &&& deadline != DataKey::of_role(second)
            &&& deadline != DataKey::EmergencyMode
            &&& DataKey::of_future_deadline(second) is Ok && DataKey::of_future_deadline(
                second,
            )->Ok_0 == deadline ==> first == second
        },
{
}

} // verus!
