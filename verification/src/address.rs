//! Identities: administrators, owners and token ledgers.

use vstd::prelude::*;

verus! {

/// An identity, named by its key text.
///
/// The ledger never looks inside the text: two addresses are the same
/// identity exactly when their texts are equal. The view of an address is its
/// text as a sequence of characters.
#[derive(Debug)]
pub struct Address {
    key: String,
}

impl View for Address {
    type V = Seq<char>;

    closed spec fn view(&self) -> Seq<char> {
        self.key@
    }
}

impl Clone for Address {
    fn clone(&self) -> (r: Self)
        ensures
            r == *self,
    {
        Address { key: self.key.clone() }
    }
}

impl PartialEq for Address {
    fn eq(&self, other: &Address) -> (r: bool) {
        self.key == other.key
    }
}

impl vstd::std_specs::cmp::PartialEqSpecImpl for Address {
    open spec fn obeys_eq_spec() -> bool {
        true
    }

    open spec fn eq_spec(&self, other: &Address) -> bool {
        self@ == other@
    }
}

impl Eq for Address {}

impl Address {
    /// The identity whose key text is `strkey`.
    pub fn from_str(strkey: &str) -> (r: Address)
        ensures
            r@ == strkey@,
    {
        Address { key: strkey.to_owned() }
    }

    /// The key text of this identity.
    pub fn as_str(&self) -> (r: &str)
        ensures
            r@ == self@,
    {
        self.key.as_str()
    }
}

/// The view of an identity that may be absent.
pub open spec fn view_of(a: Option<Address>) -> Option<Seq<char>> {
    match a {
        Some(a) => Some(a@),
        None => None,
    }
}

} // verus!
