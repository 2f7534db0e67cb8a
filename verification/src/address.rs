//! Addresses of accounts and contracts.

use vstd::prelude::*;

verus! {

/// The identity of an account or of a contract, held as its textual form.
///
/// The library never looks inside an address: it stores addresses and
/// compares them for equality.
#[derive(Debug, PartialEq, Eq, Hash)]
pub struct Address {
    id: String,
}

impl View for Address {
    type V = Seq<char>;

    closed spec fn view(&self) -> Seq<char> {
        self.id@
    }
}

impl DeepView for Address {
    type V = Seq<char>;

    open spec fn deep_view(&self) -> Seq<char> {
        self@
    }
}

impl Address {
    /// The address with the textual form `id`.
    pub fn new(id: &str) -> (address: Address)
        ensures
            address@ == id@,
    {
        Address { id: id.to_owned() }
    }

    /// The textual form of the address.
    pub fn as_str(&self) -> (id: &str)
        ensures
            id@ == self@,
    {
        self.id.as_str()
    }

    /// Whether two addresses are the same identity.
    pub fn same(&self, other: &Address) -> (same: bool)
        ensures
            same == (self@ == other@),
    {
        self.id == other.id
    }
}

impl Clone for Address {
    fn clone(&self) -> (copy: Address)
        ensures
            copy@ == self@,
    {
        Address { id: self.id.clone() }
    }
}

} // verus!
