use ad4m_core::capabilities::check;
use ad4m_core::capabilities::check::{authorize, check_capability};
use ad4m_core::capabilities::types::{Capability, Resource};

fn strings(items: &[&str]) -> Vec<String> {
    items.iter().map(|s| s.to_string()).collect()
}

fn resource(domain: &str, pointers: &[&str]) -> Resource {
    Resource { domain: domain.to_string(), pointers: strings(pointers) }
}

fn capability(domain: &str, pointers: &[&str], can: &[&str]) -> Capability {
    Capability { with: resource(domain, pointers), can: strings(can) }
}

#[test]
fn wildcard_capability_authorizes_any_request() {
    let granted = vec![capability("*", &["*"], &["*"])];
    assert!(authorize(&granted, &resource("perspective", &["abc"]), "READ").is_ok());
    assert!(authorize(&granted, &resource("runtime.friends", &[]), "DELETE").is_ok());
    assert!(authorize(&granted, &resource("", &["x", "y"]), "").is_ok());
}

#[test]
fn other_pointer_is_not_authorized() {
    let granted = vec![capability("perspective", &["X"], &["READ"])];
    let denied = authorize(&granted, &resource("perspective", &["Y"]), "READ");
    let error = denied.unwrap_err();
    assert_eq!(error.domain, "perspective");
    assert_eq!(error.action, "READ");
    assert!(authorize(&granted, &resource("perspective", &["X"]), "READ").is_ok());
}

#[test]
fn wildcard_pointer_covers_other_pointer() {
    let granted = vec![capability("perspective", &["*"], &["READ"])];
    assert!(authorize(&granted, &resource("perspective", &["Y"]), "READ").is_ok());
}

#[test]
fn empty_capability_set_authorizes_nothing() {
    let granted: Vec<Capability> = vec![];
    let error = authorize(&granted, &resource("perspective", &["*"]), "SUBSCRIBE").unwrap_err();
    assert_eq!(error.domain, "perspective");
    assert_eq!(error.action, "SUBSCRIBE");
    assert_eq!(
        error.message(),
        "Capability is not matched, you have no permission for SUBSCRIBE on perspective"
    );
}

#[test]
fn request_without_pointer_needs_an_empty_or_wildcard_list() {
    let narrowed = capability("agent", &["X"], &["READ"]);
    assert!(!check::matches(&narrowed, &resource("agent", &[]), "READ"));
    let bare = capability("agent", &[], &["READ"]);
    assert!(check::matches(&bare, &resource("agent", &[]), "READ"));
    assert!(!check::matches(&bare, &resource("agent", &["X"]), "READ"));
    let wild = capability("agent", &["X", "*"], &["READ"]);
    assert!(check::matches(&wild, &resource("agent", &[]), "READ"));
    assert!(check::matches(&wild, &resource("agent", &["Y"]), "READ"));
}

#[test]
fn domain_and_action_must_match() {
    let cap = capability("agent", &["*"], &["READ"]);
    assert!(check::matches(&cap, &resource("agent", &["a"]), "READ"));
    assert!(!check::matches(&cap, &resource("agents", &["a"]), "READ"));
    assert!(!check::matches(&cap, &resource("agent", &["a"]), "UPDATE"));
    assert!(!check::matches(&cap, &resource("agent", &["a"]), "read"));
}

#[test]
fn any_capability_of_the_set_may_match() {
    let granted = vec![
        capability("agent", &["*"], &["READ"]),
        capability("perspective", &["p1", "p2"], &["READ", "UPDATE"]),
    ];
    assert!(authorize(&granted, &resource("perspective", &["p2"]), "UPDATE").is_ok());
    assert!(authorize(&granted, &resource("perspective", &["p1", "p2"]), "READ").is_ok());
    assert!(authorize(&granted, &resource("perspective", &["p1", "p3"]), "READ").is_err());
    assert!(authorize(&granted, &resource("agent", &["p1"]), "UPDATE").is_err());
}

#[test]
fn required_capability_names_first_missing_action() {
    let granted = vec![capability("perspective", &["*"], &["READ"])];
    let required = capability("perspective", &["*"], &["READ", "UPDATE", "DELETE"]);
    let error = check_capability(&granted, &required).unwrap_err();
    assert_eq!(error.domain, "perspective");
    assert_eq!(error.action, "UPDATE");
    let read_only = capability("perspective", &["*"], &["READ"]);
    assert!(check_capability(&granted, &read_only).is_ok());
    let nothing = capability("perspective", &["*"], &[]);
    assert!(check_capability(&granted, &nothing).is_ok());
}
