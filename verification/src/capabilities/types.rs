//! Resources, capabilities and the error of a failed check.

use crate::text::{clone_strings, views};
use vstd::prelude::*;
use vstd::string::*;

verus! {

/// What is being acted upon: a dot-segmented domain and the pointers that
/// narrow the scope within it.
#[derive(Debug)]
pub struct Resource {
    pub domain: String,
    pub pointers: Vec<String>,
}

/// The mathematical value of a [`Resource`].
pub struct ResourceView {
    pub domain: Seq<char>,
    pub pointers: Seq<Seq<char>>,
}

impl View for Resource {
    type V = ResourceView;

    open spec fn view(&self) -> ResourceView {
        ResourceView { domain: self.domain@, pointers: views(self.pointers@) }
    }
}

impl Clone for Resource {
    fn clone(&self) -> (out: Self)
        ensures
            out@ == self@,
    {
        Resource { domain: self.domain.clone(), pointers: clone_strings(&self.pointers) }
    }
}

/// A grant of the listed actions on the described resource.
#[derive(Debug)]
pub struct Capability {
    pub with: Resource,
    pub can: Vec<String>,
}

/// The mathematical value of a [`Capability`].
pub struct CapabilityView {
    pub with: ResourceView,
    pub can: Seq<Seq<char>>,
}

impl View for Capability {
    type V = CapabilityView;

    open spec fn view(&self) -> CapabilityView {
        CapabilityView { with: self.with@, can: views(self.can@) }
    }
}

impl Clone for Capability {
    fn clone(&self) -> (out: Self)
        ensures
            out@ == self@,
    {
        Capability { with: self.with.clone(), can: clone_strings(&self.can) }
    }
}

/// A capability check that failed: no granted capability covers `action` on
/// the resource of `domain`.
#[derive(Debug)]
pub struct Unauthorized {
    pub domain: String,
    pub action: String,
}

impl Unauthorized {
    /// The text shown to the caller.
    pub fn message(&self) -> (out: String)
        ensures
            out@ == "Capability is not matched, you have no permission for "@ + self.action@
                + " on "@ + self.domain@,
    {
        let mut out = String::from_str("Capability is not matched, you have no permission for ");
        out.append(self.action.as_str());
        out.append(" on ");
        out.append(self.domain.as_str());
        out
    }
}

} // verus!
