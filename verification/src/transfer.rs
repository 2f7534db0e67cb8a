//! The delayed transfer of a role: commit, apply, revert.
//!
//! Each delayed role has a lane of its own. A lane is idle while its deadline
//! is 0 and pending otherwise. `commit_transfer_ownership` names the future
//! holder and starts the wait, `apply_transfer_ownership` hands the role over
//! once the deadline is reached, `revert_transfer_ownership` cancels.

use vstd::prelude::*;
use crate::access::{mirrors, AccessControl, AccessControlView, AddressView};
use crate::address::Address;
use crate::errors::AccessControlError;
use crate::role::Role;

verus! {

impl AccessControlView {
    /// What `get_transfer_ownership_deadline` answers: the deadline of a
    /// delayed role's lane.
    pub open spec fn get_transfer_ownership_deadline(self, role: Role) -> Result<
        u64,
        AccessControlError,
    > {
        if !role.is_transfer_delayed() {
            Err(AccessControlError::BadRoleUsage)
        } else {
            Ok(self.deadline(role))
        }
    }

    /// The store after `put_transfer_ownership_deadline`, or the error with
    /// which it refuses.
    pub open spec fn put_transfer_ownership_deadline(self, role: Role, value: u64) -> Result<
        AccessControlView,
        AccessControlError,
    > {
        if !role.is_transfer_delayed() {
            Err(AccessControlError::BadRoleUsage)
        } else {
            Ok(self.with_deadline(role, value))
        }
    }

    /// What `get_future_address` answers: the address that the last committed
    /// transfer of a delayed role named.
    pub open spec fn get_future_address(self, role: Role) -> Result<
        AddressView,
        AccessControlError,
    > {
        if !role.is_transfer_delayed() || role.has_many_users() {
            Err(AccessControlError::BadRoleUsage)
        } else {
            match self.future_holder(role) {
                Some(address) => Ok(address),
                None => Err(AccessControlError::NoActionActive),
            }
        }
    }

    /// The deadline of a transfer committed at the time `now`.
    pub open spec fn deadline_from(self, now: u64) -> int {
        now + self.delay
    }

    /// Whether a commit on `role` would be accepted: the role is delayed and
    /// its lane is idle.
    pub open spec fn accepts_commit(self, role: Role) -> bool {
        role.is_transfer_delayed() && !self.pending(role)
    }

    /// The store after `commit_transfer_ownership` at the time `now`, or the
    /// error with which it refuses: a role that is not delayed is refused,
    /// and so is a lane that is pending.
    pub open spec fn commit_transfer_ownership(
        self,
        role: Role,
        future_address: AddressView,
        now: u64,
    ) -> Result<AccessControlView, AccessControlError>
        recommends
            self.deadline_from(now) <= u64::MAX,
    {
        if !role.is_transfer_delayed() || role.has_many_users() {
            Err(AccessControlError::BadRoleUsage)
        } else if self.deadline(role) != 0 {
            Err(AccessControlError::AnotherActionActive)
        } else {
            Ok(
                self.with_deadline(role, self.deadline_from(now) as u64).with_future_holder(
                    role,
                    future_address,
                ),
            )
        }
    }

    /// The store after `apply_transfer_ownership` at the time `now`, or the
    /// error with which it refuses.
    ///
    /// The wait is enforced only where a holder is replaced: a role without a
    /// holder is handed over at any time. At the deadline itself the transfer
    /// is ready. A lane whose deadline is set while no future holder was ever
    /// named holds no transfer that could be applied.
    pub open spec fn apply_transfer_ownership(self, role: Role, now: u64) -> Result<
        AccessControlView,
        AccessControlError,
    > {
        if !role.is_transfer_delayed() {
            Err(AccessControlError::BadRoleUsage)
        } else if self.holder(role) is Some && now < self.deadline(role) {
            Err(AccessControlError::ActionNotReadyYet)
        } else if self.deadline(role) == 0 {
            Err(AccessControlError::NoActionActive)
        } else {
            match self.future_holder(role) {
                Some(address) => Ok(self.with_deadline(role, 0).with_holder(role, address)),
                None => Err(AccessControlError::NoActionActive),
            }
        }
    }

    /// The store after `revert_transfer_ownership`, or the error with which it
    /// refuses: the lane is idle again; the holder and the address that the
    /// cancelled transfer named stay as they are.
    pub open spec fn revert_transfer_ownership(self, role: Role) -> Result<
        AccessControlView,
        AccessControlError,
    > {
        self.put_transfer_ownership_deadline(role, 0)
    }
}

/// The lanes of the delayed roles: their deadlines, the addresses they name,
/// and the three steps of a transfer.
pub trait TransferOwnershipTrait: View<V = AccessControlView> {
    /// The deadline of the lane of a delayed role, 0 while it is idle;
    /// `BadRoleUsage` for a role that is not delayed.
    fn get_transfer_ownership_deadline(&self, role: &Role) -> (deadline: Result<
        u64,
        AccessControlError,
    >)
        ensures
            deadline == self@.get_transfer_ownership_deadline(*role),
    ;

    /// Writes the deadline of the lane of a delayed role as it is given;
    /// `BadRoleUsage` for a role that is not delayed. A refused call changes
    /// nothing.
    fn put_transfer_ownership_deadline(&mut self, role: &Role, value: u64) -> (outcome: Result<
        (),
        AccessControlError,
    >)
        ensures
            old(self)@.leads_to(
                old(self)@.put_transfer_ownership_deadline(*role, value),
                outcome,
                final(self)@,
            ),
    ;

    /// The address that the last committed transfer of a delayed role named.
    ///
    /// `BadRoleUsage` for a role that is not delayed, `NoActionActive` where
    /// no transfer was ever committed. The address stays readable after the
    /// transfer was applied or reverted.
    fn get_future_address(&self, role: &Role) -> (future: Result<Address, AccessControlError>)
        ensures
            mirrors(future, self@.get_future_address(*role)),
    ;

    /// Schedules `future_address` as the next holder of a delayed role, with
    /// the deadline `now + delay`.
    ///
    /// `BadRoleUsage` for a role that is not delayed, `AnotherActionActive`
    /// while a transfer of the role is pending. A refused call changes
    /// nothing. Where the call is not refused, the deadline must fit in
    /// `u64`.
    fn commit_transfer_ownership(
        &mut self,
        role: &Role,
        future_address: &Address,
        now: u64,
    ) -> (outcome: Result<(), AccessControlError>)
        requires
            old(self)@.accepts_commit(*role) ==> old(self)@.deadline_from(now) <= u64::MAX,
        ensures
            old(self)@.leads_to(
                old(self)@.commit_transfer_ownership(*role, future_address@, now),
                outcome,
                final(self)@,
            ),
            old(self)@.wf() ==> final(self)@.wf(),
    ;

    /// Hands a delayed role over to the address that the pending transfer
    /// names, and returns that address.
    ///
    /// `BadRoleUsage` for a role that is not delayed, `ActionNotReadyYet`
    /// while the role has a holder and `now` is before the deadline,
    /// `NoActionActive` while no transfer is pending. A refused call changes
    /// nothing.
    fn apply_transfer_ownership(&mut self, role: &Role, now: u64) -> (outcome: Result<
        Address,
        AccessControlError,
    >)
        ensures
            old(self)@.leads_to(
                old(self)@.apply_transfer_ownership(*role, now),
                outcome,
                final(self)@,
            ),
            outcome is Ok ==> Some(outcome->Ok_0@) == old(self)@.future_holder(*role),
            old(self)@.wf() ==> final(self)@.wf(),
    ;

    /// Cancels the pending transfer of a delayed role, if there is one. The
    /// holder stays, and so does the address that the transfer named.
    ///
    /// `BadRoleUsage` for a role that is not delayed; for a delayed role the
    /// call always succeeds.
    fn revert_transfer_ownership(&mut self, role: &Role) -> (outcome: Result<
        (),
        AccessControlError,
    >)
        ensures
            old(self)@.leads_to(old(self)@.revert_transfer_ownership(*role), outcome, final(self)@),
            old(self)@.wf() ==> final(self)@.wf(),
    ;
}

impl TransferOwnershipTrait for AccessControl {
    fn get_transfer_ownership_deadline(&self, role: &Role) -> (deadline: Result<
        u64,
        AccessControlError,
    >) {
        match role {
            Role::Admin => Ok(self.admin_transfer_deadline),
            Role::EmergencyAdmin => Ok(self.em_admin_transfer_deadline),
            _ => Err(AccessControlError::BadRoleUsage),
        }
    }

    fn put_transfer_ownership_deadline(&mut self, role: &Role, value: u64) -> (outcome: Result<
        (),
        AccessControlError,
    >) {
        match role {
            Role::Admin => {
                self.admin_transfer_deadline = value;
                Ok(())
            },
            Role::EmergencyAdmin => {
                self.em_admin_transfer_deadline = value;
                Ok(())
            },
            _ => Err(AccessControlError::BadRoleUsage),
        }
    }

    fn get_future_address(&self, role: &Role) -> (future: Result<Address, AccessControlError>) {
        if !role.is_transfer_delayed() || role.has_many_users() {
            return Err(AccessControlError::BadRoleUsage);
        }
        match self.future_slot(role) {
            Some(address) => Ok(address.clone()),
            None => Err(AccessControlError::NoActionActive),
        }
    }

    fn commit_transfer_ownership(
        &mut self,
        role: &Role,
        future_address: &Address,
        now: u64,
    ) -> (outcome: Result<(), AccessControlError>) {
        if !role.is_transfer_delayed() || role.has_many_users() {
            return Err(AccessControlError::BadRoleUsage);
        }
        match self.get_transfer_ownership_deadline(role) {
            Ok(0) => {},
            Ok(_) => {
                return Err(AccessControlError::AnotherActionActive);
            },
            Err(error) => {
                return Err(error);
            },
        }
        let deadline: u64 = now + self.delay;
        let _ = self.put_transfer_ownership_deadline(role, deadline);
        self.put_future(role, future_address.clone());
        Ok(())
    }

    fn apply_transfer_ownership(&mut self, role: &Role, now: u64) -> (outcome: Result<
        Address,
        AccessControlError,
    >) {
        let deadline = match self.get_transfer_ownership_deadline(role) {
            Ok(deadline) => deadline,
            Err(error) => {
                return Err(error);
            },
        };
        if self.holder_slot(role).is_some() && now < deadline {
            return Err(AccessControlError::ActionNotReadyYet);
        }
        if deadline == 0 {
            return Err(AccessControlError::NoActionActive);
        }
        let future_address = match self.future_slot(role) {
            Some(address) => address.clone(),
            None => {
                return Err(AccessControlError::NoActionActive);
            },
        };
        let _ = self.put_transfer_ownership_deadline(role, 0);
        self.put_holder(role, future_address.clone());
        Ok(future_address)
    }

    fn revert_transfer_ownership(&mut self, role: &Role) -> (outcome: Result<
        (),
        AccessControlError,
    >) {
        let outcome = self.put_transfer_ownership_deadline(role, 0);
        outcome
    }
}

impl AccessControl {
    /// Whether `commit_transfer_ownership` may be called for `role` at the
    /// time `now`: where it would set a deadline, the deadline fits in `u64`.
    pub fn commit_fits(&self, role: &Role, now: u64) -> (fits: bool)
        ensures
            fits == (self@.accepts_commit(*role) ==> self@.deadline_from(now) <= u64::MAX),
    {
        match self.get_transfer_ownership_deadline(role) {
            Ok(0) => now <= u64::MAX - self.delay,
            _ => true,
        }
    }

    /// The future holder of a delayed role, as it is stored.
    pub(crate) fn future_slot(&self, role: &Role) -> (slot: Option<&Address>)
        ensures
            slot.deep_view() == self@.future_holder(*role),
    {
        match role {
            Role::Admin => self.future_admin.as_ref(),
            Role::EmergencyAdmin => self.future_em_admin.as_ref(),
            _ => None,
        }
    }

    /// Writes the future holder of a delayed role.
    pub(crate) fn put_future(&mut self, role: &Role, address: Address)
        ensures
            final(self)@ == old(self)@.with_future_holder(*role, address@),
    {
        match role {
            Role::Admin => {
                self.future_admin = Some(address);
            },
            Role::EmergencyAdmin => {
                self.future_em_admin = Some(address);
            },
            _ => {},
        }
    }
}

} // verus!
