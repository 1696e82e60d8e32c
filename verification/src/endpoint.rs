//! A candidate service location: a fully-qualified network address.
use vstd::prelude::*;

verus! {

/// A network address a locally running service is bound to, compared by
/// value. Its view is the character sequence of the address text.
#[derive(Debug)]
pub struct Endpoint {
    address: String,
}

impl View for Endpoint {
    type V = Seq<char>;

    closed spec fn view(&self) -> Seq<char> {
        self.address@
    }
}

impl DeepView for Endpoint {
    type V = Seq<char>;

    open spec fn deep_view(&self) -> Seq<char> {
        self.view()
    }
}

impl Endpoint {
    pub fn new(address: String) -> (e: Endpoint)
        ensures
            e@ == address@,
    {
        Endpoint { address }
    }

    /// The text of the address.
    pub fn address(&self) -> (a: &String)
        ensures
            a@ == self@,
    {
        &self.address
    }
}

impl Clone for Endpoint {
    fn clone(&self) -> (c: Self)
        ensures
            c@ == self@,
    {
        Endpoint { address: self.address.clone() }
    }
}

impl PartialEq for Endpoint {
    fn eq(&self, other: &Self) -> bool {
        self.address == other.address
    }
}

impl vstd::std_specs::cmp::PartialEqSpecImpl for Endpoint {
    open spec fn obeys_eq_spec() -> bool {
        true
    }

    open spec fn eq_spec(&self, other: &Self) -> bool {
        self@ == other@
    }
}

impl Eq for Endpoint {

}

} // verus!
