//! The guards of privileged entry points that admit the owner beside the
//! holder of a lesser role. The owner is the holder of `Admin`.

use vstd::prelude::*;
use crate::access::{AccessControl, AccessControlView, AddressView};
use crate::address::Address;
use crate::errors::AccessControlError;
use crate::role::Role;

verus! {

impl AccessControlView {
    /// Whether `address` is the owner or holds `role`.
    pub open spec fn is_owner_or(self, address: AddressView, role: Role) -> bool {
        self.has_role(address, Role::Admin) || self.has_role(address, role)
    }
}

/// `Unauthorized` unless the condition holds.
fn require(allowed: bool) -> (outcome: Result<(), AccessControlError>)
    ensures
        outcome is Ok <==> allowed,
        outcome is Err ==> outcome == Err::<(), AccessControlError>(
            AccessControlError::Unauthorized,
        ),
{
    if allowed {
        Ok(())
    } else {
        Err(AccessControlError::Unauthorized)
    }
}

/// `Unauthorized` unless `address` is the owner or the rewards admin.
pub fn require_rewards_admin_or_owner(e: &AccessControl, address: &Address) -> (outcome: Result<
    (),
    AccessControlError,
>)
    ensures
        outcome is Ok <==> e@.is_owner_or(address@, Role::RewardsAdmin),
        outcome is Err ==> outcome == Err::<(), AccessControlError>(
            AccessControlError::Unauthorized,
        ),
{
    require(
        e.address_has_role(address, &Role::Admin) || e.address_has_role(
            address,
            &Role::RewardsAdmin,
        ),
    )
}

/// `Unauthorized` unless `address` is the owner or the operations admin.
pub fn require_operations_admin_or_owner(e: &AccessControl, address: &Address) -> (outcome: Result<
    (),
    AccessControlError,
>)
    ensures
        outcome is Ok <==> e@.is_owner_or(address@, Role::OperationsAdmin),
        outcome is Err ==> outcome == Err::<(), AccessControlError>(
            AccessControlError::Unauthorized,
        ),
{
    require(
        e.address_has_role(address, &Role::Admin) || e.address_has_role(
            address,
            &Role::OperationsAdmin,
        ),
    )
}

/// `Unauthorized` unless `address` is the owner, the pause admin or one of the
/// emergency pause admins.
pub fn require_pause_or_emergency_pause_admin_or_owner(
    e: &AccessControl,
    address: &Address,
) -> (outcome: Result<(), AccessControlError>)
    ensures
        outcome is Ok <==> e@.is_owner_or(address@, Role::PauseAdmin) || e@.has_role(
            address@,
            Role::EmergencyPauseAdmin,
        ),
        outcome is Err ==> outcome == Err::<(), AccessControlError>(
            AccessControlError::Unauthorized,
        ),
{
    require(
        e.address_has_role(address, &Role::Admin) || e.address_has_role(address, &Role::PauseAdmin)
            || e.address_has_role(address, &Role::EmergencyPauseAdmin),
    )
}

/// `Unauthorized` unless `address` is the owner or the pause admin.
pub fn require_pause_admin_or_owner(e: &AccessControl, address: &Address) -> (outcome: Result<
    (),
    AccessControlError,
>)
    ensures
        outcome is Ok <==> e@.is_owner_or(address@, Role::PauseAdmin),
        outcome is Err ==> outcome == Err::<(), AccessControlError>(
            AccessControlError::Unauthorized,
        ),
{
    require(
        e.address_has_role(address, &Role::Admin) || e.address_has_role(address, &Role::PauseAdmin),
    )
}

} // verus!
