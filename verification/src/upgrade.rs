//! The delayed upgrade of the contract's code: commit, apply, revert.
//!
//! There is one lane. It is idle while its deadline is 0 and pending
//! otherwise. In emergency mode a pending upgrade is applied without waiting
//! for its deadline.

use vstd::prelude::*;
use crate::errors::AccessControlError;

verus! {

/// The hash of the code that an upgrade installs.
pub type WasmHash = [u8; 32];

/// The persistent state of the upgrade lifecycle.
///
/// A slot that was never written reads as the deadline 0 or as `None`.
#[derive(Clone, Copy, Debug, PartialEq, Eq)]
pub struct Upgrade {
    /// The deadline of the pending upgrade; 0 when none is pending.
    pub upgrade_deadline: u64,
    /// The hash that the pending upgrade installs.
    pub future_wasm: Option<WasmHash>,
    /// The time that passes between the commit of an upgrade and its deadline.
    pub delay: u64,
}

impl Upgrade {
    /// The state in which nothing was ever written.
    pub open spec fn empty(delay: u64) -> Upgrade {
        Upgrade { upgrade_deadline: 0, future_wasm: None, delay }
    }

    /// Whether an upgrade is pending.
    pub open spec fn pending(self) -> bool {
        self.upgrade_deadline != 0
    }

    /// A pending upgrade names the hash that it installs.
    pub open spec fn wf(self) -> bool {
        self.pending() ==> self.future_wasm is Some
    }

    /// The deadline of an upgrade committed at the time `now`.
    pub open spec fn deadline_from(self, now: u64) -> int {
        now + self.delay
    }

    /// Whether a call did what is expected of it: it succeeded and left the
    /// expected state, or it refused with the expected error and left the
    /// state as it was.
    pub open spec fn leads_to<T>(
        self,
        expected: Result<Upgrade, AccessControlError>,
        outcome: Result<T, AccessControlError>,
        after: Upgrade,
    ) -> bool {
        match expected {
            Ok(next) => outcome is Ok && after == next,
            Err(error) => outcome is Err && outcome->Err_0 == error && after == self,
        }
    }

    /// The state with no upgrade pending and no hash stored.
    pub open spec fn cleared(self) -> Upgrade {
        Upgrade { upgrade_deadline: 0, future_wasm: None, ..self }
    }

    /// The state after `commit_upgrade` at the time `now`, or the error with
    /// which it refuses.
    pub open spec fn commit(self, new_wasm_hash: WasmHash, now: u64) -> Result<
        Upgrade,
        AccessControlError,
    >
        recommends
            self.deadline_from(now) <= u64::MAX,
    {
        if self.pending() {
            Err(AccessControlError::AnotherActionActive)
        } else {
            Ok(
                Upgrade {
                    upgrade_deadline: self.deadline_from(now) as u64,
                    future_wasm: Some(new_wasm_hash),
                    ..self
                },
            )
        }
    }

    /// The state after `apply_upgrade` at the time `now`, or the error with
    /// which it refuses. In emergency mode the deadline is not looked at. A
    /// lane whose deadline is set while no hash is stored holds no upgrade
    /// that could be applied.
    pub open spec fn apply(self, emergency_mode: bool, now: u64) -> Result<
        Upgrade,
        AccessControlError,
    > {
        if !self.pending() {
            Err(AccessControlError::NoActionActive)
        } else if !emergency_mode && now < self.upgrade_deadline {
            Err(AccessControlError::ActionNotReadyYet)
        } else if self.future_wasm is None {
            Err(AccessControlError::NoActionActive)
        } else {
            Ok(self.cleared())
        }
    }

    /// The state of a contract in which nothing was written yet, with the
    /// delay that its upgrades will wait.
    pub fn new(delay: u64) -> (state: Upgrade)
        ensures
            state == Upgrade::empty(delay),
            state.wf(),
    {
        Upgrade { upgrade_deadline: 0, future_wasm: None, delay }
    }

    /// Whether `commit_upgrade` may be called at the time `now`: where it
    /// would set a deadline, the deadline fits in `u64`.
    pub fn commit_fits(&self, now: u64) -> (fits: bool)
        ensures
            fits == (!self.pending() ==> self.deadline_from(now) <= u64::MAX),
    {
        self.upgrade_deadline != 0 || now <= u64::MAX - self.delay
    }

    /// Whether a pending upgrade names the hash that it installs.
    pub fn is_well_formed(&self) -> (well_formed: bool)
        ensures
            well_formed == self.wf(),
    {
        self.upgrade_deadline == 0 || self.future_wasm.is_some()
    }
}

/// The deadline of the pending upgrade, 0 while none is pending.
pub fn get_upgrade_deadline(e: &Upgrade) -> (deadline: u64)
    ensures
        deadline == e.upgrade_deadline,
{
    e.upgrade_deadline
}

/// Writes the deadline as it is given.
pub fn put_upgrade_deadline(e: &mut Upgrade, value: &u64)
    ensures
        *final(e) == (Upgrade { upgrade_deadline: *value, ..*old(e) }),
{
    e.upgrade_deadline = *value;
}

/// The hash that is stored for the pending upgrade, if any.
pub fn get_future_wasm(e: &Upgrade) -> (hash: Option<WasmHash>)
    ensures
        hash == e.future_wasm,
{
    e.future_wasm
}

/// Stores the hash as it is given.
pub fn put_future_wasm(e: &mut Upgrade, value: &WasmHash)
    ensures
        *final(e) == (Upgrade { future_wasm: Some(*value), ..*old(e) }),
{
    e.future_wasm = Some(*value);
}

/// Schedules the upgrade to `new_wasm_hash`, with the deadline `now + delay`.
///
/// `AnotherActionActive` while an upgrade is pending; a refused call changes
/// nothing. Where the call is not refused, the deadline must fit in `u64`.
pub fn commit_upgrade(e: &mut Upgrade, new_wasm_hash: &WasmHash, now: u64) -> (outcome: Result<
    (),
    AccessControlError,
>)
    requires
        !old(e).pending() ==> old(e).deadline_from(now) <= u64::MAX,
    ensures
        old(e).leads_to(old(e).commit(*new_wasm_hash, now), outcome, *final(e)),
        old(e).wf() ==> final(e).wf(),
{
    if get_upgrade_deadline(e) != 0 {
        return Err(AccessControlError::AnotherActionActive);
    }
    let deadline: u64 = now + e.delay;
    put_upgrade_deadline(e, &deadline);
    put_future_wasm(e, new_wasm_hash);
    Ok(())
}

/// Ends the wait of the pending upgrade and hands out the hash of the code to
/// install; the lane is idle afterwards and holds no hash.
///
/// `NoActionActive` while no upgrade is pending. Outside emergency mode,
/// `ActionNotReadyYet` while `now` is before the deadline; in emergency mode
/// the upgrade is applied at any time. A refused call changes nothing.
pub fn apply_upgrade(e: &mut Upgrade, emergency_mode: bool, now: u64) -> (outcome: Result<
    WasmHash,
    AccessControlError,
>)
    ensures
        old(e).leads_to(old(e).apply(emergency_mode, now), outcome, *final(e)),
        outcome is Ok ==> Some(outcome->Ok_0) == old(e).future_wasm,
        old(e).wf() ==> final(e).wf(),
{
    let deadline = get_upgrade_deadline(e);
    if deadline == 0 {
        return Err(AccessControlError::NoActionActive);
    }
    if !emergency_mode && now < deadline {
        return Err(AccessControlError::ActionNotReadyYet);
    }
    let new_wasm_hash = match get_future_wasm(e) {
        Some(hash) => hash,
        None => {
            return Err(AccessControlError::NoActionActive);
        },
    };
    e.upgrade_deadline = 0;
    e.future_wasm = None;
    Ok(new_wasm_hash)
}

/// Cancels the pending upgrade, if there is one: the lane is idle afterwards
/// and holds no hash.
pub fn revert_upgrade(e: &mut Upgrade)
    ensures
        *final(e) == old(e).cleared(),
        final(e).wf(),
{
    e.upgrade_deadline = 0;
    e.future_wasm = None;
}

} // verus!
