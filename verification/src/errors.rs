//! The errors with which an operation refuses a call.

use vstd::prelude::*;

verus! {

/// Why an operation refused a call. A refused call changes nothing.
#[derive(Clone, Copy, Debug, PartialEq, Eq, Structural)]
pub enum AccessControlError {
    /// The role's cardinality or delay policy does not admit the operation,
    /// or a delayed role that has a holder was to be overwritten directly.
    BadRoleUsage,
    /// The role was never assigned.
    RoleNotFound,
    /// The address does not hold the role that the operation asks for.
    Unauthorized,
    /// A transfer or upgrade is already pending in this lane.
    AnotherActionActive,
    /// No transfer or upgrade is pending in this lane.
    NoActionActive,
    /// The pending transfer or upgrade has not reached its deadline.
    ActionNotReadyYet,
    /// The name stands for no role.
    UnknownRole,
}

} // verus!
