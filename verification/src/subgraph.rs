//! The name under which a background task is registered.
use vstd::prelude::*;

verus! {

/// An opaque, equality-comparable identifier for a logical unit of work.
/// Its view is the character sequence of the name.
#[derive(Debug)]
pub struct SubgraphName {
    raw: String,
}

impl View for SubgraphName {
    type V = Seq<char>;

    closed spec fn view(&self) -> Seq<char> {
        self.raw@
    }
}

impl DeepView for SubgraphName {
    type V = Seq<char>;

    open spec fn deep_view(&self) -> Seq<char> {
        self.view()
    }
}

impl SubgraphName {
    pub fn new(raw: String) -> (name: SubgraphName)
        ensures
            name@ == raw@,
    {
        SubgraphName { raw }
    }

    /// The text of the name, for display and for the notification channel.
    pub fn text(&self) -> (t: &String)
        ensures
            t@ == self@,
    {
        &self.raw
    }
}

impl Clone for SubgraphName {
    fn clone(&self) -> (c: Self)
        ensures
            c@ == self@,
    {
        SubgraphName { raw: self.raw.clone() }
    }
}

impl PartialEq for SubgraphName {
    fn eq(&self, other: &Self) -> bool {
        self.raw == other.raw
    }
}

impl vstd::std_specs::cmp::PartialEqSpecImpl for SubgraphName {
    open spec fn obeys_eq_spec() -> bool {
        true
    }

    open spec fn eq_spec(&self, other: &Self) -> bool {
        self@ == other@
    }
}

impl Eq for SubgraphName {

}

} // verus!
