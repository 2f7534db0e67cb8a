//! Role-based access control with delayed, revocable ownership transfers and a
//! delayed upgrade lifecycle with an emergency bypass.
//!
//! The persistent state of a contract is held in explicit structs that every
//! operation takes as a parameter; the ledger time is an argument of the
//! operations that depend on it. An operation that refuses a call returns an
//! error and leaves the state as it was.
//!
//! - `role`: the fixed set of roles, their cardinality, delay policy and names.
//! - `storage`: the storage slot that belongs to each role.
//! - `access`: the role store and the guard `assert_address_has_role`.
//! - `management`: reading and assigning the holders of roles.
//! - `transfer`: commit, apply and revert of a delayed role's transfer.
//! - `emergency`: the emergency mode flag.
//! - `upgrade`: commit, apply and revert of the contract's upgrade.
//! - `utils`: the guards that admit the owner beside a lesser role.
//! - `fees_collector`: the contract as a whole, by role name and number.
//! - `laws`: what holds of the operations together.

pub mod access;
pub mod address;
pub mod emergency;
pub mod errors;
pub mod fees_collector;
pub mod laws;
pub mod management;
pub mod role;
pub mod storage;
pub mod transfer;
pub mod upgrade;
pub mod utils;
