use ad4m_core::perspective_proxy::store::{LinkQuery, Request, RequestRun, StoreError};
use ad4m_core::perspective_proxy::{PerspectiveProxy, SingleTargetError};
use ad4m_core::types::{ExpressionProof, Link, LinkExpression};

fn stored(source: &str, predicate: Option<&str>, target: &str, timestamp: &str) -> LinkExpression {
    LinkExpression {
        author: "did:key:me".to_string(),
        timestamp: timestamp.to_string(),
        data: Link {
            source: source.to_string(),
            predicate: predicate.map(|p| p.to_string()),
            target: target.to_string(),
        },
        proof: ExpressionProof { key: "k".to_string(), signature: "s".to_string() },
        status: None,
    }
}

/// A link store in memory: it serves requests as the link store does.
struct Store {
    links: Vec<LinkExpression>,
}

impl Store {
    fn serve(&mut self, request: Request) -> Vec<LinkExpression> {
        match request {
            Request::AddLink { source, target, predicate, .. } => {
                let link = Link { source, predicate, target }.normalize();
                self.links.push(LinkExpression {
                    author: "did:key:me".to_string(),
                    timestamp: format!("t{}", self.links.len()),
                    data: link,
                    proof: ExpressionProof { key: "k".to_string(), signature: "s".to_string() },
                    status: None,
                });
                Vec::new()
            }
            Request::RemoveLink { link, .. } => {
                self.links.retain(|l| *l != link);
                Vec::new()
            }
            Request::QueryLinks { query, .. } => self
                .links
                .iter()
                .filter(|l| query.source.as_ref().map_or(true, |s| *s == l.data.source))
                .filter(|l| query.predicate.as_ref().map_or(true, |p| Some(p) == l.data.predicate.as_ref()))
                .filter(|l| query.target.as_ref().map_or(true, |t| *t == l.data.target))
                .cloned()
                .collect(),
            Request::Infer { .. } => Vec::new(),
        }
    }
}

#[test]
fn requests_carry_the_perspective() {
    let proxy = PerspectiveProxy::new("uuid-1".to_string());
    assert_eq!(proxy.perspective_uuid, "uuid-1");
    assert_eq!(
        proxy.add_link("s".to_string(), "t".to_string(), Some("p".to_string()), None),
        Request::AddLink {
            perspective_uuid: "uuid-1".to_string(),
            source: "s".to_string(),
            target: "t".to_string(),
            predicate: Some("p".to_string()),
            status: None,
        }
    );
    assert_eq!(
        proxy.infer("subject_class(X, _)".to_string()),
        Request::Infer {
            perspective_uuid: "uuid-1".to_string(),
            prolog_query: "subject_class(X, _)".to_string()
        }
    );
    let query = LinkQuery {
        source: None,
        target: Some("t".to_string()),
        predicate: None,
        from_date: Some("2023-01-01T00:00:00Z".to_string()),
        until_date: None,
        limit: Some(10),
    };
    match proxy.get(query) {
        Request::QueryLinks { perspective_uuid, query } => {
            assert_eq!(perspective_uuid, "uuid-1");
            assert_eq!(query.target, Some("t".to_string()));
            assert_eq!(query.limit, Some(10));
        }
        other => panic!("{:?}", other),
    }
}

#[test]
fn single_target_query_names_source_and_predicate() {
    let proxy = PerspectiveProxy::new("uuid-1".to_string());
    assert_eq!(
        proxy.single_target_query("s".to_string(), "p".to_string()),
        Request::QueryLinks {
            perspective_uuid: "uuid-1".to_string(),
            query: LinkQuery {
                source: Some("s".to_string()),
                target: None,
                predicate: Some("p".to_string()),
                from_date: None,
                until_date: None,
                limit: None,
            },
        }
    );
}

#[test]
fn single_target_needs_exactly_one_link() {
    let proxy = PerspectiveProxy::new("u".to_string());
    assert_eq!(proxy.get_single_target(&Vec::new()), Err(SingleTargetError::NotFound));
    assert_eq!(
        proxy.get_single_target(&vec![stored("s", Some("p"), "t", "1")]),
        Ok("t".to_string())
    );
    assert_eq!(
        proxy.get_single_target(&vec![stored("s", Some("p"), "t", "1"), stored("s", Some("p"), "t", "2")]),
        Err(SingleTargetError::Ambiguous)
    );
    assert_eq!(SingleTargetError::NotFound.message(), "No links found");
    assert_eq!(SingleTargetError::Ambiguous.message(), "Multiple links found");
}

#[test]
fn set_single_target_removes_then_adds_shared() {
    let proxy = PerspectiveProxy::new("u".to_string());
    let existing = vec![stored("s", Some("p"), "old1", "1"), stored("s", Some("p"), "old2", "2")];
    let requests =
        proxy.set_single_target(&existing, "s".to_string(), "p".to_string(), "new".to_string());
    assert_eq!(
        requests,
        vec![
            Request::RemoveLink {
                perspective_uuid: "u".to_string(),
                link: stored("s", Some("p"), "old1", "1")
            },
            Request::RemoveLink {
                perspective_uuid: "u".to_string(),
                link: stored("s", Some("p"), "old2", "2")
            },
            Request::AddLink {
                perspective_uuid: "u".to_string(),
                source: "s".to_string(),
                target: "new".to_string(),
                predicate: Some("p".to_string()),
                status: Some("shared".to_string()),
            },
        ]
    );
}

#[test]
fn single_target_is_the_target_that_was_set() {
    let proxy = PerspectiveProxy::new("u".to_string());
    let mut store = Store {
        links: vec![
            stored("s", Some("p"), "old1", "a"),
            stored("s", Some("q"), "keep", "b"),
            stored("s", Some("p"), "old2", "c"),
            stored("x", Some("p"), "keep", "d"),
        ],
    };
    let existing = store.serve(proxy.single_target_query("s".to_string(), "p".to_string()));
    assert_eq!(proxy.get_single_target(&existing), Err(SingleTargetError::Ambiguous));
    for request in
        proxy.set_single_target(&existing, "s".to_string(), "p".to_string(), "new".to_string())
    {
        store.serve(request);
    }
    let answer = store.serve(proxy.single_target_query("s".to_string(), "p".to_string()));
    assert_eq!(proxy.get_single_target(&answer), Ok("new".to_string()));
    assert_eq!(store.links.len(), 3);
}

#[test]
fn single_target_on_an_empty_store() {
    let proxy = PerspectiveProxy::new("u".to_string());
    let mut store = Store { links: Vec::new() };
    let existing = store.serve(proxy.single_target_query("s".to_string(), "p".to_string()));
    assert_eq!(proxy.get_single_target(&existing), Err(SingleTargetError::NotFound));
    for request in proxy.set_single_target(&existing, "s".to_string(), "p".to_string(), "t".to_string()) {
        store.serve(request);
    }
    let answer = store.serve(proxy.single_target_query("s".to_string(), "p".to_string()));
    assert_eq!(proxy.get_single_target(&answer), Ok("t".to_string()));
}

#[test]
fn empty_predicate_is_not_found_again() {
    let proxy = PerspectiveProxy::new("u".to_string());
    let mut store = Store { links: Vec::new() };
    for request in proxy.set_single_target(&Vec::new(), "s".to_string(), "".to_string(), "t".to_string()) {
        store.serve(request);
    }
    let answer = store.serve(proxy.single_target_query("s".to_string(), "".to_string()));
    assert_eq!(proxy.get_single_target(&answer), Err(SingleTargetError::NotFound));
}

fn failure(reason: &str) -> StoreError {
    StoreError { reason: reason.to_string() }
}

#[test]
fn run_sends_every_request_in_order() {
    let proxy = PerspectiveProxy::new("u".to_string());
    let existing = vec![stored("s", Some("p"), "old1", "1"), stored("s", Some("p"), "old2", "2")];
    let requests =
        proxy.set_single_target(&existing, "s".to_string(), "p".to_string(), "new".to_string());
    let mut run = proxy.set_single_target_run(
        Ok(existing),
        "s".to_string(),
        "p".to_string(),
        "new".to_string(),
    );
    let mut sent = Vec::new();
    while let Some(request) = run.next() {
        assert_eq!(run.result(), None);
        sent.push(request);
        run.record(Ok(()));
    }
    assert_eq!(sent, requests);
    assert_eq!(run.served(), 3);
    assert_eq!(run.result(), Some(Ok(())));
    run.record(Err(failure("too late")));
    assert_eq!(run.result(), Some(Ok(())));
}

#[test]
fn failed_query_sends_nothing() {
    let proxy = PerspectiveProxy::new("u".to_string());
    let run = proxy.set_single_target_run(
        Err(failure("no connection")),
        "s".to_string(),
        "p".to_string(),
        "t".to_string(),
    );
    assert_eq!(run.next(), None);
    assert_eq!(run.result(), Some(Err(failure("no connection"))));
    assert_eq!(run.served(), 0);
    let dna = proxy.set_dna_run(Err(failure("no connection")), "dna".to_string());
    assert_eq!(dna.next(), None);
    assert_eq!(dna.result(), Some(Err(failure("no connection"))));
}

#[test]
fn failed_removal_ends_the_run_before_the_addition() {
    let proxy = PerspectiveProxy::new("u".to_string());
    let existing = vec![
        stored("s", Some("p"), "old1", "1"),
        stored("s", Some("p"), "old2", "2"),
        stored("s", Some("p"), "old3", "3"),
    ];
    let mut store = Store { links: existing.clone() };
    let mut run = proxy.set_single_target_run(
        Ok(existing),
        "s".to_string(),
        "p".to_string(),
        "new".to_string(),
    );
    let first = run.next().unwrap();
    store.serve(first);
    run.record(Ok(()));
    let second = run.next().unwrap();
    assert!(matches!(second, Request::RemoveLink { .. }));
    run.record(Err(failure("disk full")));
    assert_eq!(run.next(), None);
    assert_eq!(run.result(), Some(Err(failure("disk full"))));
    assert_eq!(run.served(), 1);
    run.record(Ok(()));
    assert_eq!(run.next(), None);
    assert_eq!(run.served(), 1);
    // The first removal stays done; nothing else happened to the store.
    assert_eq!(store.links.len(), 2);
    assert!(store.links.iter().all(|l| l.data.target != "new" && l.data.target != "old1"));
}

#[test]
fn failed_addition_is_the_result() {
    let proxy = PerspectiveProxy::new("u".to_string());
    let mut run =
        proxy.set_single_target_run(Ok(Vec::new()), "s".to_string(), "p".to_string(), "t".to_string());
    assert!(matches!(run.next(), Some(Request::AddLink { .. })));
    run.record(Err(failure("refused")));
    assert_eq!(run.next(), None);
    assert_eq!(run.result(), Some(Err(failure("refused"))));
    let empty = RequestRun::new(Vec::new());
    assert_eq!(empty.next(), None);
    assert_eq!(empty.result(), Some(Ok(())));
}
