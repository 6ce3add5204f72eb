//! The matching rule and the authorisation check built on it.

use crate::capabilities::types::{Capability, CapabilityView, Resource, ResourceView, Unauthorized};
use crate::text::{contains_str, str_eq, views};
use vstd::prelude::*;
use vstd::string::*;

verus! {

/// The token that matches anything, in a domain, a pointer list or an action list.
pub const WILD_CARD: &'static str = "*";

/// Whether a granted list covers one wanted entry: it holds the wildcard or
/// the entry itself.
pub open spec fn grants(granted: Seq<Seq<char>>, wanted: Seq<char>) -> bool {
    granted.contains(WILD_CARD@) || granted.contains(wanted)
}

/// Whether a granted pointer list covers the requested pointers.
///
/// A list that holds the wildcard covers every request. Otherwise a request
/// that names pointers is covered by a list that holds each of them, and a
/// request that names no pointer is covered only by a list that is empty
/// too: an empty list is valid and restricts nothing, but it grants no
/// pointer either, and a list of pointers grants those pointers and no
/// request beside them.
pub open spec fn covers_pointers(granted: Seq<Seq<char>>, wanted: Seq<Seq<char>>) -> bool {
    granted.contains(WILD_CARD@) || (if wanted.len() == 0 {
        granted.len() == 0
    } else {
        forall|i: int| 0 <= i < wanted.len() ==> granted.contains(#[trigger] wanted[i])
    })
}

/// Whether the capability's domain admits the requested domain.
pub open spec fn domain_admits(granted: Seq<char>, wanted: Seq<char>) -> bool {
    granted == WILD_CARD@ || granted == wanted
}

/// The matching rule: `capability` authorises `action` on `resource`.
pub open spec fn spec_matches(
    capability: CapabilityView,
    resource: ResourceView,
    action: Seq<char>,
) -> bool {
    &&& domain_admits(capability.with.domain, resource.domain)
    &&& covers_pointers(capability.with.pointers, resource.pointers)
    &&& grants(capability.can, action)
}

/// Whether any capability of the granted set matches the request.
pub open spec fn spec_authorized(
    granted: Seq<CapabilityView>,
    resource: ResourceView,
    action: Seq<char>,
) -> bool {
    exists|i: int| 0 <= i < granted.len() && spec_matches(#[trigger] granted[i], resource, action)
}

/// Whether every action that `required` lists is authorised on its resource.
pub open spec fn spec_satisfies(granted: Seq<CapabilityView>, required: CapabilityView) -> bool {
    forall|i: int|
        0 <= i < required.can.len() ==> spec_authorized(
            granted,
            required.with,
            #[trigger] required.can[i],
        )
}

fn pointers_covered(granted: &Vec<String>, wanted: &Vec<String>) -> (covered: bool)
    ensures
        covered == covers_pointers(views(granted@), views(wanted@)),
{
    if contains_str(granted, WILD_CARD) {
        return true;
    }
    if wanted.len() == 0 {
        assert(views(wanted@).len() == 0);
        assert(views(granted@).len() == granted.len());
        return granted.len() == 0;
    }
    let mut i: usize = 0;
    while i < wanted.len()
        invariant
            i <= wanted.len(),
            wanted.len() > 0,
            !views(granted@).contains(WILD_CARD@),
            forall|k: int| 0 <= k < i ==> views(granted@).contains(#[trigger] views(wanted@)[k]),
        decreases wanted.len() - i,
    {
        if !contains_str(granted, wanted[i].as_str()) {
            assert(!views(granted@).contains(views(wanted@)[i as int]));
            return false;
        }
        i += 1;
    }
    true
}

/// Whether `capability` authorises `action` on `resource`.
pub fn matches(capability: &Capability, resource: &Resource, action: &str) -> (matched: bool)
    ensures
        matched == spec_matches(capability@, resource@, action@),
{
    let domain_ok = str_eq(capability.with.domain.as_str(), WILD_CARD) || str_eq(
        capability.with.domain.as_str(),
        resource.domain.as_str(),
    );
    if !domain_ok {
        return false;
    }
    if !pointers_covered(&capability.with.pointers, &resource.pointers) {
        return false;
    }
    contains_str(&capability.can, WILD_CARD) || contains_str(&capability.can, action)
}

/// Checks a request against a granted capability set. The request passes if
/// any granted capability matches it; otherwise the error names the domain
/// and the action that were asked for.
pub fn authorize(granted: &Vec<Capability>, resource: &Resource, action: &str) -> (outcome: Result<
    (),
    Unauthorized,
>)
    ensures
        outcome is Ok <==> spec_authorized(views(granted@), resource@, action@),
        outcome matches Err(e) ==> e.domain@ == resource.domain@ && e.action@ == action@,
{
    let mut i: usize = 0;
    while i < granted.len()
        invariant
            i <= granted.len(),
            forall|k: int|
                0 <= k < i ==> !spec_matches(#[trigger] views(granted@)[k], resource@, action@),
        decreases granted.len() - i,
    {
        if matches(&granted[i], resource, action) {
            assert(views(granted@)[i as int] == granted@[i as int]@);
            return Ok(());
        }
        i += 1;
    }
    Err(Unauthorized { domain: resource.domain.clone(), action: String::from_str(action) })
}

/// Checks a granted capability set against a required capability: every
/// action that `required` lists must be authorised on its resource. The error
/// names the first listed action that is not.
pub fn check_capability(granted: &Vec<Capability>, required: &Capability) -> (outcome: Result<
    (),
    Unauthorized,
>)
    ensures
        outcome is Ok <==> spec_satisfies(views(granted@), required@),
        outcome matches Err(e) ==> {
            &&& e.domain@ == required.with.domain@
            &&& exists|i: int|
                {
                    &&& 0 <= i < required.can.len()
                    &&& e.action@ == #[trigger] required@.can[i]
                    &&& !spec_authorized(views(granted@), required@.with, required@.can[i])
                    &&& forall|k: int|
                        0 <= k < i ==> spec_authorized(
                            views(granted@),
                            required@.with,
                            #[trigger] required@.can[k],
                        )
                }
        },
{
    let mut i: usize = 0;
    while i < required.can.len()
        invariant
            i <= required.can.len(),
            forall|k: int|
                0 <= k < i ==> spec_authorized(
                    views(granted@),
                    required@.with,
                    #[trigger] required@.can[k],
                ),
        decreases required.can.len() - i,
    {
        assert(required@.can[i as int] == required.can@[i as int]@);
        match authorize(granted, &required.with, required.can[i].as_str()) {
            Ok(()) => {},
            Err(e) => {
                return Err(e);
            },
        }
        i += 1;
    }
    Ok(())
}

/// A capability that holds the wildcard as domain, pointer and action
/// authorises every action on every resource, alone or among others.
pub proof fn law_wildcard_authorizes_everything(
    granted: Seq<CapabilityView>,
    index: int,
    resource: ResourceView,
    action: Seq<char>,
)
    requires
        0 <= index < granted.len(),
        granted[index].with.domain == WILD_CARD@,
        granted[index].with.pointers.contains(WILD_CARD@),
        granted[index].can.contains(WILD_CARD@),
    ensures
        spec_authorized(granted, resource, action),
{
    assert(spec_matches(granted[index], resource, action));
}

/// A capability scoped to one pointer does not authorise a request for
/// another pointer, whatever the domain and the action, unless its pointer is
/// the wildcard.
pub proof fn law_other_pointer_is_denied(
    domain: Seq<char>,
    granted_pointer: Seq<char>,
    wanted_pointer: Seq<char>,
    actions: Seq<Seq<char>>,
    action: Seq<char>,
)
    requires
        granted_pointer != wanted_pointer,
        granted_pointer != WILD_CARD@,
    ensures
        !spec_authorized(
            seq![
                CapabilityView {
                    with: ResourceView { domain, pointers: seq![granted_pointer] },
                    can: actions,
                },
            ],
            ResourceView { domain, pointers: seq![wanted_pointer] },
            action,
        ),
{
    let wanted = seq![wanted_pointer];
    let held = seq![granted_pointer];
    assert(wanted[0] == wanted_pointer);
    assert(!held.contains(wanted[0]));
    assert(!covers_pointers(held, wanted));
}

} // verus!
