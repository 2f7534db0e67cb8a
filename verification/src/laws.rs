//! What holds of the operations together: of sequences of calls, and of every
//! operation at once.
//!
//! The laws speak of the spec functions that the operations' contracts are
//! stated with. An operation that refuses a call leaves the state as it was,
//! so a law that shows a refusal shows that nothing changed.

use vstd::prelude::*;
use crate::access::{AccessControlView, AddressView};
use crate::errors::AccessControlError;
use crate::fees_collector::SystemState;
use crate::role::Role;
use crate::upgrade::{Upgrade, WasmHash};

verus! {

/// Reverting a delayed role always succeeds and leaves its lane idle. Where
/// no transfer is pending it changes nothing, and a second revert changes
/// nothing after the first.
pub proof fn law_revert_is_idempotent(store: AccessControlView, role: Role)
    requires
        role.is_transfer_delayed(),
    ensures
        store.revert_transfer_ownership(role) matches Ok(reverted) && {
            &&& reverted.deadline(role) == 0
            &&& reverted.holder(role) == store.holder(role)
            &&& reverted.future_holder(role) == store.future_holder(role)
            &&& !store.pending(role) ==> reverted == store
            &&& reverted.revert_transfer_ownership(role) == Ok::<
                AccessControlView,
                AccessControlError,
            >(reverted)
        },
{
}

/// A transfer committed on an idle lane at the time `now` has the deadline
/// `now + delay`, and applied at the deadline or later it makes the named
/// address the holder and leaves the lane idle.
///
/// A deadline of 0 would read as an idle lane, so the law speaks of the
/// commits whose deadline is not 0.
pub proof fn law_commit_apply_round_trip(
    store: AccessControlView,
    role: Role,
    future_address: AddressView,
    now: u64,
    later: u64,
)
    requires
        role.is_transfer_delayed(),
        store.deadline(role) == 0,
        0 < store.deadline_from(now) <= u64::MAX,
        later >= store.deadline_from(now),
    ensures
        store.commit_transfer_ownership(role, future_address, now) matches Ok(committed) && {
            &&& committed.deadline(role) == store.deadline_from(now)
            &&& committed.future_holder(role) == Some(future_address)
            &&& committed.holder(role) == store.holder(role)
            &&& committed.apply_transfer_ownership(role, later) matches Ok(applied) && {
                &&& applied.holder(role) == Some(future_address)
                &&& applied.deadline(role) == 0
            }
        },
{
}

/// While the role has a holder, a committed transfer cannot be applied
/// before its deadline: the call is refused with `ActionNotReadyYet`, and
/// the holder and the deadline are as they were.
pub proof fn law_apply_before_deadline_is_refused(
    store: AccessControlView,
    role: Role,
    future_address: AddressView,
    now: u64,
    early: u64,
)
    requires
        role.is_transfer_delayed(),
        store.deadline(role) == 0,
        store.holder(role) is Some,
        store.deadline_from(now) <= u64::MAX,
        early < store.deadline_from(now),
    ensures
        store.commit_transfer_ownership(role, future_address, now) matches Ok(committed) && {
            let refused = committed.apply_transfer_ownership(role, early);
            &&& refused == Err::<AccessControlView, AccessControlError>(
                AccessControlError::ActionNotReadyYet,
            )
            &&& committed.settled(refused) == committed
            &&& committed.settled(refused).holder(role) == store.holder(role)
            &&& committed.settled(refused).deadline(role) == store.deadline_from(now)
        },
{
}

/// A role that has no holder yet is handed over at any time: the wait
/// protects a holder from being replaced, not the first assignment.
pub proof fn law_first_assignment_does_not_wait(
    store: AccessControlView,
    role: Role,
    future_address: AddressView,
    now: u64,
    at: u64,
)
    requires
        role.is_transfer_delayed(),
        store.deadline(role) == 0,
        store.holder(role) is None,
        0 < store.deadline_from(now) <= u64::MAX,
    ensures
        store.commit_transfer_ownership(role, future_address, now) matches Ok(committed)
            && committed.apply_transfer_ownership(role, at) matches Ok(applied) && applied.holder(
            role,
        ) == Some(future_address),
{
}

/// While a transfer of a role is pending, a second commit on the same role
/// is refused with `AnotherActionActive`, whatever it names and whenever it
/// comes.
pub proof fn law_pending_transfer_excludes_commit(
    store: AccessControlView,
    role: Role,
    second_address: AddressView,
    at: u64,
)
    requires
        role.is_transfer_delayed(),
        store.pending(role),
    ensures
        store.commit_transfer_ownership(role, second_address, at) == Err::<
            AccessControlView,
            AccessControlError,
        >(AccessControlError::AnotherActionActive),
{
}

/// Two commits in a row on one role: where the first has a deadline other
/// than 0, the second is refused with `AnotherActionActive`.
pub proof fn law_second_commit_is_refused(
    store: AccessControlView,
    role: Role,
    first_address: AddressView,
    second_address: AddressView,
    now: u64,
    at: u64,
)
    requires
        role.is_transfer_delayed(),
        store.deadline(role) == 0,
        0 < store.deadline_from(now) <= u64::MAX,
    ensures
        store.commit_transfer_ownership(role, first_address, now) matches Ok(committed)
            && committed.commit_transfer_ownership(role, second_address, at) == Err::<
            AccessControlView,
            AccessControlError,
        >(AccessControlError::AnotherActionActive),
{
}

/// The lanes of the delayed roles are independent: a pending transfer of one
/// role does not stand in the way of a commit on another, and the commit
/// leaves the first lane as it was.
pub proof fn law_lanes_are_independent(
    store: AccessControlView,
    role: Role,
    other: Role,
    future_address: AddressView,
    now: u64,
)
    requires
        role.is_transfer_delayed(),
        other.is_transfer_delayed(),
        role != other,
        store.deadline(role) == 0,
        store.deadline_from(now) <= u64::MAX,
    ensures
        store.commit_transfer_ownership(role, future_address, now) matches Ok(committed) && {
            &&& committed.deadline(other) == store.deadline(other)
            &&& committed.future_holder(other) == store.future_holder(other)
            &&& committed.holder(other) == store.holder(other)
        },
{
}

/// Once a delayed role has a holder, assigning it directly is refused with
/// `BadRoleUsage`.
pub proof fn law_direct_overwrite_is_refused(
    store: AccessControlView,
    role: Role,
    address: AddressView,
)
    requires
        role.is_transfer_delayed(),
        store.holder(role) is Some,
    ensures
        store.set_role_address(role, address) == Err::<AccessControlView, AccessControlError>(
            AccessControlError::BadRoleUsage,
        ),
{
}

/// A role that has no holder is assigned directly, delayed or not; a role
/// that is not delayed is assigned directly at any time.
pub proof fn law_direct_assignment(store: AccessControlView, role: Role, address: AddressView)
    requires
        !role.has_many_users(),
        store.holder(role) is None || !role.is_transfer_delayed(),
    ensures
        store.set_role_address(role, address) matches Ok(assigned) && {
            &&& assigned.holder(role) == Some(address)
            &&& assigned.has_role(address, role)
            &&& assigned == store.with_holder(role, address)
        },
{
}

/// An operation for single-address roles refuses a role held by a list, an
/// operation for roles held by a list refuses a single-address role, each
/// with `BadRoleUsage`.
pub proof fn law_cardinality_is_guarded(
    store: AccessControlView,
    role: Role,
    address: AddressView,
    addresses: Seq<AddressView>,
)
    ensures
        role.has_many_users() ==> store.set_role_address(role, address) == Err::<
            AccessControlView,
            AccessControlError,
        >(AccessControlError::BadRoleUsage),
        !role.has_many_users() ==> store.set_role_addresses(role, addresses) == Err::<
            AccessControlView,
            AccessControlError,
        >(AccessControlError::BadRoleUsage),
        role.has_many_users() ==> (store.set_role_addresses(role, addresses) matches Ok(assigned)
            && assigned.holders(role) == addresses),
{
}

/// An upgrade committed at the time `now` has the deadline `now + delay`. In
/// emergency mode it is applied at any time. Outside emergency mode it is
/// refused with `ActionNotReadyYet` before the deadline and applied from the
/// deadline on. Applied, it leaves the lane idle with no hash stored.
///
/// A deadline of 0 would read as an idle lane, so the law speaks of the
/// commits whose deadline is not 0.
pub proof fn law_emergency_mode_bypasses_the_wait(
    state: Upgrade,
    new_wasm_hash: WasmHash,
    now: u64,
    at: u64,
)
    requires
        !state.pending(),
        0 < state.deadline_from(now) <= u64::MAX,
    ensures
        state.commit(new_wasm_hash, now) matches Ok(committed) && {
            &&& committed.upgrade_deadline == state.deadline_from(now)
            &&& committed.future_wasm == Some(new_wasm_hash)
            &&& committed.apply(true, at) == Ok::<Upgrade, AccessControlError>(
                committed.cleared(),
            )
            &&& at < committed.upgrade_deadline ==> committed.apply(false, at) == Err::<
                Upgrade,
                AccessControlError,
            >(AccessControlError::ActionNotReadyYet)
            &&& at >= committed.upgrade_deadline ==> committed.apply(false, at) == Ok::<
                Upgrade,
                AccessControlError,
            >(committed.cleared())
            &&& !committed.cleared().pending()
            &&& committed.cleared().future_wasm is None
        },
{
}

/// While an upgrade is pending, a second commit is refused with
/// `AnotherActionActive`.
pub proof fn law_pending_upgrade_excludes_commit(state: Upgrade, new_wasm_hash: WasmHash, at: u64)
    requires
        state.pending(),
    ensures
        state.commit(new_wasm_hash, at) == Err::<Upgrade, AccessControlError>(
            AccessControlError::AnotherActionActive,
        ),
{
}

/// Emergency mode lifts the wait of upgrades only: a transfer of a role
/// waits for its deadline whatever the flag says.
pub proof fn law_emergency_mode_does_not_touch_transfers(
    store: AccessControlView,
    role: Role,
    value: bool,
    at: u64,
)
    ensures
        store.with_emergency_mode(value).apply_transfer_ownership(role, at) matches Ok(applied)
            ==> (store.apply_transfer_ownership(role, at) matches Ok(plain) && applied
            == plain.with_emergency_mode(value)),
        store.with_emergency_mode(value).apply_transfer_ownership(role, at) matches Err(error)
            ==> store.apply_transfer_ownership(role, at) == Err::<
            AccessControlView,
            AccessControlError,
        >(error),
{
}

/// A call of one of the operations that change the contract's state.
///
/// The writes of single slots (`put_transfer_ownership_deadline`,
/// `put_upgrade_deadline`, `put_future_wasm`) are no operations of the
/// protocol and do not occur here.
pub enum Operation {
    SetRoleAddress { role: Role, address: AddressView },
    SetRoleAddresses { role: Role, addresses: Seq<AddressView> },
    InitAllRoles {
        admin: AddressView,
        emergency_admin: AddressView,
        rewards_admin: AddressView,
        operations_admin: AddressView,
        pause_admin: AddressView,
        emergency_pause_admins: Seq<AddressView>,
    },
    SetPrivilegedAddrs {
        rewards_admin: AddressView,
        operations_admin: AddressView,
        pause_admin: AddressView,
        emergency_pause_admins: Seq<AddressView>,
    },
    CommitTransferOwnership { role: Role, future_address: AddressView, now: u64 },
    ApplyTransferOwnership { role: Role, now: u64 },
    RevertTransferOwnership { role: Role },
    SetEmergencyMode { value: bool },
    CommitUpgrade { new_wasm_hash: WasmHash, now: u64 },
    ApplyUpgrade { now: u64 },
    RevertUpgrade,
}

impl Operation {
    /// Whether the operation is a commit, an apply or a revert on `role`.
    pub open spec fn is_transfer_of(self, role: Role) -> bool {
        match self {
            Operation::CommitTransferOwnership { role: lane, .. } => lane == role,
            Operation::ApplyTransferOwnership { role: lane, .. } => lane == role,
            Operation::RevertTransferOwnership { role: lane } => lane == role,
            _ => false,
        }
    }

    /// Whether the deadline that the operation would set fits in `u64`: what
    /// the commits ask of their callers.
    pub open spec fn in_range(self, state: SystemState) -> bool {
        match self {
            Operation::CommitTransferOwnership { now, .. } => state.access_control.deadline_from(
                now,
            ) <= u64::MAX,
            Operation::CommitUpgrade { now, .. } => state.upgrade.deadline_from(now) <= u64::MAX,
            _ => true,
        }
    }
}

impl SystemState {
    /// The state after the operation, or the error with which it refuses.
    pub open spec fn step(self, operation: Operation) -> Result<SystemState, AccessControlError> {
        let store = self.access_control;
        match operation {
            Operation::SetRoleAddress { role, address } => self.lift(
                store.set_role_address(role, address),
            ),
            Operation::SetRoleAddresses { role, addresses } => self.lift(
                store.set_role_addresses(role, addresses),
            ),
            Operation::InitAllRoles {
                admin,
                emergency_admin,
                rewards_admin,
                operations_admin,
                pause_admin,
                emergency_pause_admins,
            } => self.lift(
                store.init_all_roles(
                    admin,
                    emergency_admin,
                    rewards_admin,
                    operations_admin,
                    pause_admin,
                    emergency_pause_admins,
                ),
            ),
            Operation::SetPrivilegedAddrs {
                rewards_admin,
                operations_admin,
                pause_admin,
                emergency_pause_admins,
            } => Ok(
                self.with_access_control(
                    store.set_privileged_addrs(
                        rewards_admin,
                        operations_admin,
                        pause_admin,
                        emergency_pause_admins,
                    ),
                ),
            ),
            Operation::CommitTransferOwnership { role, future_address, now } => self.lift(
                store.commit_transfer_ownership(role, future_address, now),
            ),
            Operation::ApplyTransferOwnership { role, now } => self.lift(
                store.apply_transfer_ownership(role, now),
            ),
            Operation::RevertTransferOwnership { role } => self.lift(
                store.revert_transfer_ownership(role),
            ),
            Operation::SetEmergencyMode { value } => Ok(
                self.with_access_control(store.with_emergency_mode(value)),
            ),
            Operation::CommitUpgrade { new_wasm_hash, now } => self.commit_upgrade(
                new_wasm_hash,
                now,
            ),
            Operation::ApplyUpgrade { now } => self.apply_upgrade(now),
            Operation::RevertUpgrade => Ok(self.revert_upgrade()),
        }
    }

    /// The state in which the operation leaves the contract: the state itself
    /// where the operation refuses.
    pub open spec fn after(self, operation: Operation) -> SystemState {
        match self.step(operation) {
            Ok(next) => next,
            Err(_) => self,
        }
    }

    /// The state after an operation that stands behind the guard of a role,
    /// or the error with which the call is refused: `Unauthorized` unless the
    /// caller holds the role, and the operation's own answer otherwise.
    ///
    /// This is what an entry point does that calls `assert_address_has_role`
    /// first and the operation next.
    pub open spec fn step_behind_guard(
        self,
        caller: AddressView,
        guard: Role,
        operation: Operation,
    ) -> Result<SystemState, AccessControlError> {
        match self.access_control.assert_has_role(caller, guard) {
            Ok(_) => self.step(operation),
            Err(error) => Err(error),
        }
    }

    /// The state in which a sequence of operations leaves the contract, each
    /// applied to the state that the one before left.
    pub open spec fn after_all(self, operations: Seq<Operation>) -> SystemState
        decreases operations.len(),
    {
        if operations.len() == 0 {
            self
        } else {
            self.after_all(operations.drop_last()).after(operations.last())
        }
    }

    /// Every pending transfer names its future holder, and a pending upgrade
    /// names its hash.
    pub open spec fn wf(self) -> bool {
        self.access_control.wf() && self.upgrade.wf()
    }
}

/// In a well-formed store the lane of every role is idle or names its future
/// holder.
pub proof fn law_well_formed_lanes_are_sound(store: AccessControlView, role: Role)
    requires
        store.wf(),
    ensures
        store.lane_is_sound(role),
        store.pending(role) ==> store.get_future_address(role) is Ok,
{
}

/// No operation leaves a pending transfer without its future holder, or a
/// pending upgrade without its hash.
pub proof fn law_operations_keep_state_well_formed(state: SystemState, operation: Operation)
    requires
        state.wf(),
    ensures
        state.after(operation).wf(),
{
}

/// No operation takes a role from its holder without giving it to another:
/// a single-address role that has a holder has one ever after.
pub proof fn law_assigned_roles_stay_assigned(
    state: SystemState,
    operation: Operation,
    role: Role,
)
    requires
        state.access_control.holder(role) is Some,
    ensures
        state.after(operation).access_control.holder(role) is Some,
{
}

/// Whatever operations a contract has seen since it was set up, every
/// pending transfer names its future holder and a pending upgrade names its
/// hash.
pub proof fn law_every_reachable_state_is_well_formed(delay: u64, operations: Seq<Operation>)
    ensures
        SystemState::empty(delay).after_all(operations).wf(),
    decreases operations.len(),
{
    if operations.len() > 0 {
        law_every_reachable_state_is_well_formed(delay, operations.drop_last());
        law_operations_keep_state_well_formed(
            SystemState::empty(delay).after_all(operations.drop_last()),
            operations.last(),
        );
    }
}

/// A single-address role that has a holder has one after any sequence of
/// operations.
pub proof fn law_assigned_roles_stay_assigned_for_good(
    state: SystemState,
    operations: Seq<Operation>,
    role: Role,
)
    requires
        state.access_control.holder(role) is Some,
    ensures
        state.after_all(operations).access_control.holder(role) is Some,
    decreases operations.len(),
{
    if operations.len() > 0 {
        law_assigned_roles_stay_assigned_for_good(state, operations.drop_last(), role);
        law_assigned_roles_stay_assigned(
            state.after_all(operations.drop_last()),
            operations.last(),
            role,
        );
    }
}

/// The holder of a delayed role, once there is one, changes in one way only:
/// a transfer of that role is applied, at its deadline or later, and makes
/// the address that it named the holder.
pub proof fn law_delayed_holder_changes_by_transfer_only(
    state: SystemState,
    operation: Operation,
    role: Role,
)
    requires
        role.is_transfer_delayed(),
        state.access_control.holder(role) is Some,
        state.after(operation).access_control.holder(role) != state.access_control.holder(role),
    ensures
        operation matches Operation::ApplyTransferOwnership { role: applied, now } && {
            &&& applied == role
            &&& state.access_control.pending(role)
            &&& now >= state.access_control.deadline(role)
            &&& state.after(operation).access_control.deadline(role) == 0
            &&& state.after(operation).access_control.holder(role)
                == state.access_control.future_holder(role)
        },
{
}

/// The deadline of a delayed role's lane goes from 0 to `now + delay` by a
/// commit on that role, which names the future holder; it goes back to 0 by
/// an apply or a revert on that role; and it never goes from one deadline to
/// another.
pub proof fn law_transfer_deadline_lifecycle(
    state: SystemState,
    operation: Operation,
    role: Role,
)
    requires
        role.is_transfer_delayed(),
        operation.in_range(state),
    ensures
        ({
            let before = state.access_control;
            let after = state.after(operation).access_control;
            &&& !before.pending(role) && after.pending(role) ==> (operation
                matches Operation::CommitTransferOwnership { role: committed, future_address, now }
                && {
                &&& committed == role
                &&& after.deadline(role) == before.deadline_from(now)
                &&& after.future_holder(role) == Some(future_address)
                &&& after.holder(role) == before.holder(role)
            })
            &&& before.pending(role) && !after.pending(role) ==> {
                ||| operation == (Operation::RevertTransferOwnership { role }) && after.holder(role)
                    == before.holder(role)
                ||| (operation matches Operation::ApplyTransferOwnership { role: applied, now } && {
                    &&& applied == role
                    &&& before.holder(role) is Some ==> now >= before.deadline(role)
                    &&& after.holder(role) == before.future_holder(role)
                })
            }
            &&& before.pending(role) && after.pending(role) ==> {
                &&& after.deadline(role) == before.deadline(role)
                &&& after.future_holder(role) == before.future_holder(role)
                &&& after.holder(role) == before.holder(role) || before.holder(role) is None
            }
        }),
{
}

/// The address that a lane names changes only by a commit on that role, on
/// an idle lane.
pub proof fn law_named_address_changes_by_commit_only(
    state: SystemState,
    operation: Operation,
    role: Role,
)
    requires
        state.after(operation).access_control.future_holder(role)
            != state.access_control.future_holder(role),
    ensures
        operation matches Operation::CommitTransferOwnership { role: committed, future_address, .. }
            && {
            &&& committed == role
            &&& role.is_transfer_delayed()
            &&& !state.access_control.pending(role)
            &&& state.after(operation).access_control.future_holder(role) == Some(future_address)
        },
{
}

/// An operation on one delayed role leaves the lane and the holder of the
/// other as they were.
pub proof fn law_transfer_operations_are_confined_to_their_role(
    state: SystemState,
    operation: Operation,
    role: Role,
    other: Role,
)
    requires
        role != other,
        operation.is_transfer_of(role),
    ensures
        ({
            let before = state.access_control;
            let after = state.after(operation).access_control;
            &&& after.holder(other) == before.holder(other)
            &&& after.holders(other) == before.holders(other)
            &&& after.deadline(other) == before.deadline(other)
            &&& after.future_holder(other) == before.future_holder(other)
            &&& after.emergency_mode == before.emergency_mode
        }),
{
}

/// The emergency mode flag changes only by its setter, and the delay never
/// changes.
pub proof fn law_emergency_mode_changes_by_its_setter_only(
    state: SystemState,
    operation: Operation,
)
    ensures
        state.after(operation).access_control.emergency_mode != state.access_control.emergency_mode
            ==> operation == (Operation::SetEmergencyMode {
            value: state.after(operation).access_control.emergency_mode,
        }),
        state.after(operation).access_control.delay == state.access_control.delay,
        state.after(operation).upgrade.delay == state.upgrade.delay,
{
}

/// The upgrade lane goes from idle to pending by a commit, with the deadline
/// `now + delay` and the hash of the commit; it goes back to idle by a
/// revert, or by an apply that comes at the deadline or later or in emergency
/// mode, and then holds no hash; and a pending upgrade is never replaced by
/// another. The operations of the role store leave the lane alone.
pub proof fn law_upgrade_deadline_lifecycle(state: SystemState, operation: Operation)
    requires
        operation.in_range(state),
    ensures
        ({
            let before = state.upgrade;
            let after = state.after(operation).upgrade;
            &&& !before.pending() && after.pending() ==> (operation
                matches Operation::CommitUpgrade { new_wasm_hash, now } && {
                &&& after.upgrade_deadline == before.deadline_from(now)
                &&& after.future_wasm == Some(new_wasm_hash)
            })
            &&& before.pending() && !after.pending() ==> {
                &&& after.future_wasm is None
                &&& {
                    ||| operation == Operation::RevertUpgrade
                    ||| (operation matches Operation::ApplyUpgrade { now } && (
                    state.access_control.emergency_mode || now >= before.upgrade_deadline))
                }
            }
            &&& before.pending() && after.pending() ==> after == before
            &&& after != before ==> {
                ||| operation is CommitUpgrade
                ||| operation is ApplyUpgrade
                ||| operation is RevertUpgrade
            }
        }),
{
}

/// The operations of the upgrade lane leave the role store alone.
pub proof fn law_upgrade_operations_leave_roles_alone(state: SystemState, operation: Operation)
    requires
        operation is CommitUpgrade || operation is ApplyUpgrade || operation is RevertUpgrade,
    ensures
        state.after(operation).access_control == state.access_control,
{
}

/// With the emergency mode flag set in the role store, a committed upgrade
/// is applied at any time; with the flag cleared it waits for its deadline.
pub proof fn law_emergency_flag_decides_the_wait(
    state: SystemState,
    new_wasm_hash: WasmHash,
    now: u64,
    at: u64,
)
    requires
        !state.upgrade.pending(),
        0 < state.upgrade.deadline_from(now) <= u64::MAX,
    ensures
        state.commit_upgrade(new_wasm_hash, now) matches Ok(committed) && {
            let raised = committed.with_access_control(
                committed.access_control.with_emergency_mode(true),
            );
            let lowered = committed.with_access_control(
                committed.access_control.with_emergency_mode(false),
            );
            &&& raised.apply_upgrade(at) == Ok::<SystemState, AccessControlError>(
                raised.revert_upgrade(),
            )
            &&& at < state.upgrade.deadline_from(now) ==> lowered.apply_upgrade(at) == Err::<
                SystemState,
                AccessControlError,
            >(AccessControlError::ActionNotReadyYet)
            &&& at >= state.upgrade.deadline_from(now) ==> lowered.apply_upgrade(at) == Ok::<
                SystemState,
                AccessControlError,
            >(lowered.revert_upgrade())
        },
{
}

/// Assigning every role at once is assigning them one after the other, and
/// afterwards each role is held as it was given.
pub proof fn law_init_all_roles_assigns_each_role(
    store: AccessControlView,
    admin: AddressView,
    emergency_admin: AddressView,
    rewards_admin: AddressView,
    operations_admin: AddressView,
    pause_admin: AddressView,
    emergency_pause_admins: Seq<AddressView>,
)
    requires
        store.holder(Role::Admin) is None,
        store.holder(Role::EmergencyAdmin) is None,
    ensures
        store.init_all_roles(
            admin,
            emergency_admin,
            rewards_admin,
            operations_admin,
            pause_admin,
            emergency_pause_admins,
        ) matches Ok(assigned) && {
            &&& assigned.holder(Role::Admin) == Some(admin)
            &&& assigned.holder(Role::EmergencyAdmin) == Some(emergency_admin)
            &&& assigned.holder(Role::RewardsAdmin) == Some(rewards_admin)
            &&& assigned.holder(Role::OperationsAdmin) == Some(operations_admin)
            &&& assigned.holder(Role::PauseAdmin) == Some(pause_admin)
            &&& assigned.holders(Role::EmergencyPauseAdmin) == emergency_pause_admins
            &&& store.set_role_address(Role::Admin, admin) matches Ok(first)
            &&& first.set_role_address(Role::EmergencyAdmin, emergency_admin) matches Ok(second)
            &&& second.set_role_address(Role::RewardsAdmin, rewards_admin) matches Ok(third)
            &&& third.set_role_address(Role::OperationsAdmin, operations_admin) matches Ok(fourth)
            &&& fourth.set_role_address(Role::PauseAdmin, pause_admin) matches Ok(fifth)
            &&& fifth.set_role_addresses(Role::EmergencyPauseAdmin, emergency_pause_admins)
                == Ok::<AccessControlView, AccessControlError>(assigned)
        },
{
}

/// Behind the guard of a role an operation is carried out for the holders of
/// the role only: any other caller is refused with `Unauthorized`, and
/// nothing changes. Behind the guard of a single-address role the caller is
/// the holder, and while the role has no holder every caller is refused.
pub proof fn law_guard_admits_holders_only(
    state: SystemState,
    caller: AddressView,
    guard: Role,
    operation: Operation,
)
    ensures
        state.step_behind_guard(caller, guard, operation) is Ok ==> state.access_control.has_role(
            caller,
            guard,
        ),
        !state.access_control.has_role(caller, guard) ==> state.step_behind_guard(
            caller,
            guard,
            operation,
        ) == Err::<SystemState, AccessControlError>(AccessControlError::Unauthorized),
        state.access_control.has_role(caller, guard) ==> state.step_behind_guard(
            caller,
            guard,
            operation,
        ) == state.step(operation),
        !guard.has_many_users() && state.step_behind_guard(caller, guard, operation) is Ok
            ==> state.access_control.holder(guard) == Some(caller),
{
}

/// Nobody holds a role that was never assigned: the guard refuses every
/// address with `Unauthorized`.
pub proof fn law_unassigned_role_admits_nobody(
    store: AccessControlView,
    role: Role,
    address: AddressView,
)
    requires
        store.holder(role) is None,
        store.holders(role).len() == 0,
    ensures
        !store.has_role(address, role),
        store.assert_has_role(address, role) == Err::<(), AccessControlError>(
            AccessControlError::Unauthorized,
        ),
{
}

/// After a role was assigned to an address, that address holds it and no
/// other address does.
pub proof fn law_assigned_address_alone_has_the_role(
    store: AccessControlView,
    role: Role,
    address: AddressView,
    other: AddressView,
)
    requires
        store.set_role_address(role, address) is Ok,
    ensures
        store.set_role_address(role, address) matches Ok(assigned) && (assigned.has_role(
            other,
            role,
        ) <==> other == address),
{
}

} // verus!
