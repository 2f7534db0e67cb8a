//! The role store: who holds each role, the pending transfers of the delayed
//! roles, and the emergency mode flag.

use vstd::prelude::*;
use crate::address::Address;
use crate::errors::AccessControlError;
use crate::role::Role;

verus! {

/// The mathematical value of an address.
pub type AddressView = Seq<char>;

/// Whether an answer is the expected one, with the addresses in it taken by
/// their values.
pub open spec fn mirrors<T: DeepView>(
    answer: Result<T, AccessControlError>,
    expected: Result<T::V, AccessControlError>,
) -> bool {
    match answer {
        Ok(value) => expected == Ok::<T::V, AccessControlError>(value.deep_view()),
        Err(error) => expected == Err::<T::V, AccessControlError>(error),
    }
}

/// The persistent state of access control.
///
/// A slot that was never written reads as `None`, as the empty list, as the
/// deadline 0 or as `false`.
#[derive(Debug, PartialEq, Eq)]
pub struct AccessControl {
    /// The holder of `Admin`.
    pub admin: Option<Address>,
    /// The holder of `EmergencyAdmin`.
    pub emergency_admin: Option<Address>,
    /// The holder of `RewardsAdmin`.
    pub rewards_admin: Option<Address>,
    /// The holder of `OperationsAdmin`.
    pub operations_admin: Option<Address>,
    /// The holder of `PauseAdmin`.
    pub pause_admin: Option<Address>,
    /// The holders of `EmergencyPauseAdmin`.
    pub emergency_pause_admins: Vec<Address>,
    /// The deadline of the pending transfer of `Admin`; 0 when none is pending.
    pub admin_transfer_deadline: u64,
    /// The deadline of the pending transfer of `EmergencyAdmin`; 0 when none
    /// is pending.
    pub em_admin_transfer_deadline: u64,
    /// The address that the last committed transfer of `Admin` named.
    pub future_admin: Option<Address>,
    /// The address that the last committed transfer of `EmergencyAdmin` named.
    pub future_em_admin: Option<Address>,
    /// The emergency mode flag.
    pub emergency_mode: bool,
    /// The time that passes between the commit of a transfer and its deadline.
    pub delay: u64,
}

/// The mathematical value of the role store.
pub struct AccessControlView {
    pub admin: Option<AddressView>,
    pub emergency_admin: Option<AddressView>,
    pub rewards_admin: Option<AddressView>,
    pub operations_admin: Option<AddressView>,
    pub pause_admin: Option<AddressView>,
    pub emergency_pause_admins: Seq<AddressView>,
    pub admin_transfer_deadline: u64,
    pub em_admin_transfer_deadline: u64,
    pub future_admin: Option<AddressView>,
    pub future_em_admin: Option<AddressView>,
    pub emergency_mode: bool,
    pub delay: u64,
}

impl View for AccessControl {
    type V = AccessControlView;

    open spec fn view(&self) -> AccessControlView {
        AccessControlView {
            admin: self.admin.deep_view(),
            emergency_admin: self.emergency_admin.deep_view(),
            rewards_admin: self.rewards_admin.deep_view(),
            operations_admin: self.operations_admin.deep_view(),
            pause_admin: self.pause_admin.deep_view(),
            emergency_pause_admins: self.emergency_pause_admins.deep_view(),
            admin_transfer_deadline: self.admin_transfer_deadline,
            em_admin_transfer_deadline: self.em_admin_transfer_deadline,
            future_admin: self.future_admin.deep_view(),
            future_em_admin: self.future_em_admin.deep_view(),
            emergency_mode: self.emergency_mode,
            delay: self.delay,
        }
    }
}

impl Clone for AccessControl {
    fn clone(&self) -> (copy: AccessControl)
        ensures
            copy@ == self@,
    {
        AccessControl {
            admin: copy_slot(&self.admin),
            emergency_admin: copy_slot(&self.emergency_admin),
            rewards_admin: copy_slot(&self.rewards_admin),
            operations_admin: copy_slot(&self.operations_admin),
            pause_admin: copy_slot(&self.pause_admin),
            emergency_pause_admins: copy_addresses(&self.emergency_pause_admins),
            admin_transfer_deadline: self.admin_transfer_deadline,
            em_admin_transfer_deadline: self.em_admin_transfer_deadline,
            future_admin: copy_slot(&self.future_admin),
            future_em_admin: copy_slot(&self.future_em_admin),
            emergency_mode: self.emergency_mode,
            delay: self.delay,
        }
    }
}

impl AccessControlView {
    /// The store in which nothing was ever written.
    pub open spec fn empty(delay: u64) -> AccessControlView {
        AccessControlView {
            admin: None,
            emergency_admin: None,
            rewards_admin: None,
            operations_admin: None,
            pause_admin: None,
            emergency_pause_admins: Seq::empty(),
            admin_transfer_deadline: 0,
            em_admin_transfer_deadline: 0,
            future_admin: None,
            future_em_admin: None,
            emergency_mode: false,
            delay,
        }
    }

    /// The holder of a single-address role; `None` for a role that was never
    /// assigned and for a role held by a list.
    pub open spec fn holder(self, role: Role) -> Option<AddressView> {
        match role {
            Role::Admin => self.admin,
            Role::EmergencyAdmin => self.emergency_admin,
            Role::RewardsAdmin => self.rewards_admin,
            Role::OperationsAdmin => self.operations_admin,
            Role::PauseAdmin => self.pause_admin,
            Role::EmergencyPauseAdmin => None,
        }
    }

    /// The holders of a role held by a list; empty for a single-address role.
    pub open spec fn holders(self, role: Role) -> Seq<AddressView> {
        match role {
            Role::EmergencyPauseAdmin => self.emergency_pause_admins,
            _ => Seq::empty(),
        }
    }

    /// The store with `address` as the holder of a single-address role.
    pub open spec fn with_holder(self, role: Role, address: AddressView) -> AccessControlView {
        match role {
            Role::Admin => AccessControlView { admin: Some(address), ..self },
            Role::EmergencyAdmin => AccessControlView { emergency_admin: Some(address), ..self },
            Role::RewardsAdmin => AccessControlView { rewards_admin: Some(address), ..self },
            Role::OperationsAdmin => AccessControlView { operations_admin: Some(address), ..self },
            Role::PauseAdmin => AccessControlView { pause_admin: Some(address), ..self },
            Role::EmergencyPauseAdmin => self,
        }
    }

    /// The store with `addresses` as the holders of a role held by a list.
    pub open spec fn with_holders(
        self,
        role: Role,
        addresses: Seq<AddressView>,
    ) -> AccessControlView {
        match role {
            Role::EmergencyPauseAdmin => AccessControlView {
                emergency_pause_admins: addresses,
                ..self
            },
            _ => self,
        }
    }

    /// The transfer deadline of a delayed role; 0 when no transfer is pending
    /// and for a role that is not delayed.
    pub open spec fn deadline(self, role: Role) -> u64 {
        match role {
            Role::Admin => self.admin_transfer_deadline,
            Role::EmergencyAdmin => self.em_admin_transfer_deadline,
            _ => 0,
        }
    }

    /// The store with `deadline` as the transfer deadline of a delayed role.
    pub open spec fn with_deadline(self, role: Role, deadline: u64) -> AccessControlView {
        match role {
            Role::Admin => AccessControlView { admin_transfer_deadline: deadline, ..self },
            Role::EmergencyAdmin => AccessControlView {
                em_admin_transfer_deadline: deadline,
                ..self
            },
            _ => self,
        }
    }

    /// The address that the last committed transfer of a delayed role named;
    /// `None` when none was ever committed and for a role that is not delayed.
    pub open spec fn future_holder(self, role: Role) -> Option<AddressView> {
        match role {
            Role::Admin => self.future_admin,
            Role::EmergencyAdmin => self.future_em_admin,
            _ => None,
        }
    }

    /// The store with `address` as the future holder of a delayed role.
    pub open spec fn with_future_holder(
        self,
        role: Role,
        address: AddressView,
    ) -> AccessControlView {
        match role {
            Role::Admin => AccessControlView { future_admin: Some(address), ..self },
            Role::EmergencyAdmin => AccessControlView { future_em_admin: Some(address), ..self },
            _ => self,
        }
    }

    /// Whether a transfer of `role` is pending.
    pub open spec fn pending(self, role: Role) -> bool {
        self.deadline(role) != 0
    }

    /// Whether `address` holds `role`: it is the holder of a single-address
    /// role, or it is in the list of a role held by a list.
    pub open spec fn has_role(self, address: AddressView, role: Role) -> bool {
        if role.has_many_users() {
            self.holders(role).contains(address)
        } else {
            self.holder(role) == Some(address)
        }
    }

    /// Whether a call did what is expected of it: it succeeded and left the
    /// expected store, or it refused with the expected error and left the
    /// store as it was.
    pub open spec fn leads_to<T>(
        self,
        expected: Result<AccessControlView, AccessControlError>,
        outcome: Result<T, AccessControlError>,
        after: AccessControlView,
    ) -> bool {
        match expected {
            Ok(next) => outcome is Ok && after == next,
            Err(error) => outcome is Err && outcome->Err_0 == error && after == self,
        }
    }

    /// The store that an operation leaves behind: the store that it arrived
    /// at, or the store as it was where the operation refused.
    pub open spec fn settled(
        self,
        outcome: Result<AccessControlView, AccessControlError>,
    ) -> AccessControlView {
        match outcome {
            Ok(next) => next,
            Err(_) => self,
        }
    }

    /// What `assert_address_has_role` answers: `Unauthorized` unless
    /// `address` holds `role`.
    pub open spec fn assert_has_role(self, address: AddressView, role: Role) -> Result<
        (),
        AccessControlError,
    > {
        if self.has_role(address, role) {
            Ok(())
        } else {
            Err(AccessControlError::Unauthorized)
        }
    }

    /// Whether the lane of `role` is idle or names its future holder.
    pub open spec fn lane_is_sound(self, role: Role) -> bool {
        self.pending(role) ==> self.future_holder(role) is Some
    }

    /// Every pending transfer names its future holder.
    pub open spec fn wf(self) -> bool {
        self.lane_is_sound(Role::Admin) && self.lane_is_sound(Role::EmergencyAdmin)
    }
}

impl AccessControl {
    /// The store of a contract in which nothing was written yet, with the
    /// delay that its transfers will wait.
    pub fn new(delay: u64) -> (store: AccessControl)
        ensures
            store@ == AccessControlView::empty(delay),
            store@.wf(),
    {
        let store = AccessControl {
            admin: None,
            emergency_admin: None,
            rewards_admin: None,
            operations_admin: None,
            pause_admin: None,
            emergency_pause_admins: Vec::new(),
            admin_transfer_deadline: 0,
            em_admin_transfer_deadline: 0,
            future_admin: None,
            future_em_admin: None,
            emergency_mode: false,
            delay,
        };
        assert(store@.emergency_pause_admins =~= Seq::empty());
        store
    }

    /// Whether every pending transfer names its future holder.
    pub fn is_well_formed(&self) -> (well_formed: bool)
        ensures
            well_formed == self@.wf(),
    {
        let admin_lane = self.admin_transfer_deadline == 0 || self.future_admin.is_some();
        let em_admin_lane = self.em_admin_transfer_deadline == 0 || self.future_em_admin.is_some();
        admin_lane && em_admin_lane
    }

    /// The holder of a single-address role, as it is stored.
    pub(crate) fn holder_slot(&self, role: &Role) -> (slot: Option<&Address>)
        ensures
            slot.deep_view() == self@.holder(*role),
    {
        match role {
            Role::Admin => self.admin.as_ref(),
            Role::EmergencyAdmin => self.emergency_admin.as_ref(),
            Role::RewardsAdmin => self.rewards_admin.as_ref(),
            Role::OperationsAdmin => self.operations_admin.as_ref(),
            Role::PauseAdmin => self.pause_admin.as_ref(),
            Role::EmergencyPauseAdmin => None,
        }
    }

    /// Whether `address` holds `role`.
    pub fn address_has_role(&self, address: &Address, role: &Role) -> (has: bool)
        ensures
            has == self@.has_role(address@, *role),
    {
        if role.has_many_users() {
            contains_address(&self.emergency_pause_admins, address)
        } else {
            match self.holder_slot(role) {
                Some(holder) => holder.same(address),
                None => false,
            }
        }
    }

    /// The guard of a privileged entry point: `Unauthorized` unless `address`
    /// holds `role`.
    pub fn assert_address_has_role(&self, address: &Address, role: &Role) -> (outcome: Result<
        (),
        AccessControlError,
    >)
        ensures
            outcome == self@.assert_has_role(address@, *role),
    {
        if self.address_has_role(address, role) {
            Ok(())
        } else {
            Err(AccessControlError::Unauthorized)
        }
    }
}

/// A slot with the same address, or as empty.
pub(crate) fn copy_slot(slot: &Option<Address>) -> (copy: Option<Address>)
    ensures
        copy.deep_view() == slot.deep_view(),
{
    match slot {
        Some(address) => Some(address.clone()),
        None => None,
    }
}

/// A list with the same addresses in the same order.
pub(crate) fn copy_addresses(list: &Vec<Address>) -> (copy: Vec<Address>)
    ensures
        copy.deep_view() == list.deep_view(),
{
    let mut copy: Vec<Address> = Vec::new();
    let mut index: usize = 0;
    while index < list.len()
        invariant
            index <= list.len(),
            copy.len() == index,
            forall|earlier: int| 0 <= earlier < index ==> copy[earlier]@ == list[earlier]@,
        decreases list.len() - index,
    {
        copy.push(list[index].clone());
        index += 1;
    }
    assert(copy.deep_view() =~= list.deep_view());
    copy
}

/// Whether `address` occurs in `list`.
pub(crate) fn contains_address(list: &Vec<Address>, address: &Address) -> (found: bool)
    ensures
        found == list.deep_view().contains(address@),
{
    let mut index: usize = 0;
    while index < list.len()
        invariant
            index <= list.len(),
            forall|earlier: int| 0 <= earlier < index ==> list.deep_view()[earlier] != address@,
        decreases list.len() - index,
    {
        if list[index].same(address) {
            assert(list.deep_view()[index as int] == address@);
            return true;
        }
        index += 1;
    }
    false
}

} // verus!
