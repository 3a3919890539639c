use vstd::prelude::*;
use crate::table::Key;

verus! {

/// Identity of an account or contract on the settlement chain, held as the
/// text of its key. Two addresses name the same party exactly when their
/// texts are equal.
#[derive(Debug, PartialEq, Eq)]
pub struct Address {
    pub strkey: String,
}

impl View for Address {
    type V = Seq<char>;

    open spec fn view(&self) -> Seq<char> {
        self.strkey@
    }
}

impl Address {
    /// The address whose key reads `strkey`.
    pub fn new(strkey: String) -> (address: Address)
        ensures
            address@ == strkey@,
    {
        Address { strkey }
    }
}

impl Key for Address {
    fn same(&self, other: &Address) -> (equal: bool) {
        self.strkey == other.strkey
    }
}

impl Clone for Address {
    fn clone(&self) -> (copy: Address)
        ensures
            copy@ == self@,
    {
        Address { strkey: self.strkey.clone() }
    }
}

} // verus!
