//! The emergency mode flag.
//!
//! The flag is a plain boolean with no guard of its own: setting it is an
//! overwrite. An entry point that lets only the emergency admin set it calls
//! `assert_address_has_role` with `Role::EmergencyAdmin` first. While that
//! role has no holder the guard refuses every address, so behind the guard
//! the flag stays as it is until an emergency admin is assigned.

use vstd::prelude::*;
use crate::access::{AccessControl, AccessControlView};

verus! {

impl AccessControlView {
    /// The store with the emergency mode flag set to `value`.
    pub open spec fn with_emergency_mode(self, value: bool) -> AccessControlView {
        AccessControlView { emergency_mode: value, ..self }
    }
}

/// Whether emergency mode is on; `false` in a store in which it was never set.
pub fn get_emergency_mode(e: &AccessControl) -> (mode: bool)
    ensures
        mode == e@.emergency_mode,
{
    e.emergency_mode
}

/// Overwrites the emergency mode flag.
pub fn set_emergency_mode(e: &mut AccessControl, value: &bool)
    ensures
        final(e)@ == old(e)@.with_emergency_mode(*value),
{
    e.emergency_mode = *value;
}

} // verus!
