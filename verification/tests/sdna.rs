use ad4m_core::graphql_types::LinkStatus;
use ad4m_core::perspectives::library::{DECLARATIONS, PREAMBLE};
use ad4m_core::perspectives::sdna::{
    definition_of, engine_facts, generic_link_fact, init_engine_facts, is_rfc3339, is_sdna_link,
    link_fact, link_fact_at, record_class, subject_classes, triple_fact, try_generic_link_fact,
    try_init_engine_facts, try_link_fact, SubjectClass,
};
use ad4m_core::types::{DecoratedExpressionProof, DecoratedLinkExpression, Link};

const ME: &str = "did:key:me";
const STAMP: &str = "2023-01-01T00:00:00.000Z";
const FIXED_LINES: usize = 216;

fn decorated(
    source: &str,
    predicate: Option<&str>,
    target: &str,
    author: &str,
    timestamp: &str,
    valid: Option<bool>,
) -> DecoratedLinkExpression {
    DecoratedLinkExpression {
        author: author.to_string(),
        timestamp: timestamp.to_string(),
        data: Link {
            source: source.to_string(),
            predicate: predicate.map(|p| p.to_string()),
            target: target.to_string(),
        },
        proof: DecoratedExpressionProof {
            key: "k".to_string(),
            signature: "s".to_string(),
            valid,
            invalid: valid.map(|v| !v),
        },
        status: Some(LinkStatus::Shared),
    }
}

fn plain(source: &str, predicate: Option<&str>, target: &str) -> DecoratedLinkExpression {
    decorated(source, predicate, target, ME, STAMP, Some(true))
}

fn class_link(name: &str, code: &str, author: &str, timestamp: &str) -> DecoratedLinkExpression {
    decorated(
        &format!("literal://string:{}", name),
        Some("ad4m://sdna"),
        &format!("literal://string:{}", code),
        author,
        timestamp,
        Some(true),
    )
}

#[test]
fn triple_fact_quotes_the_three_parts() {
    assert_eq!(triple_fact(&plain("a", Some("b"), "c")), "triple(\"a\", \"b\", \"c\")");
    assert_eq!(triple_fact(&plain("a", None, "c")), "triple(\"a\", \"\", \"c\")");
    assert_eq!(triple_fact(&plain("", Some(""), "")), "triple(\"\", \"\", \"\")");
}

#[test]
fn link_fact_carries_milliseconds_and_author() {
    let l = plain("a", Some("b"), "c");
    assert_eq!(
        link_fact(&l),
        "link(\"a\", \"b\", \"c\", 1672531200000, \"did:key:me\")"
    );
    assert_eq!(
        generic_link_fact("other", &l),
        "other(\"a\", \"b\", \"c\", 1672531200000, \"did:key:me\")"
    );
    assert_eq!(link_fact_at("link", &l, -5), "link(\"a\", \"b\", \"c\", -5, \"did:key:me\")");
}

#[test]
fn rfc3339_offsets_and_fractions_count() {
    let l = decorated("a", None, "c", ME, "1970-01-01T01:00:01.444+01:00", Some(true));
    assert_eq!(try_link_fact(&l).unwrap(), "link(\"a\", \"\", \"c\", 1444, \"did:key:me\")");
    let before = decorated("a", None, "c", ME, "1969-12-31T23:59:59Z", Some(true));
    assert_eq!(
        try_generic_link_fact("link", &before).unwrap(),
        "link(\"a\", \"\", \"c\", -1000, \"did:key:me\")"
    );
}

#[test]
fn unreadable_timestamp_gives_no_link_fact() {
    let l = decorated("a", None, "c", ME, "yesterday", Some(true));
    assert_eq!(try_link_fact(&l), None);
    assert_eq!(try_generic_link_fact("link", &l), None);
    assert!(!is_rfc3339("yesterday"));
    assert!(!is_rfc3339("1672531200000"));
    assert!(is_rfc3339(STAMP));
}

#[test]
fn sdna_links_are_told_by_source_and_predicate() {
    let yes = |p: &str| Link {
        source: "ad4m://self".to_string(),
        predicate: Some(p.to_string()),
        target: "x".to_string(),
    };
    assert!(is_sdna_link(&yes("ad4m://has_subject_class")));
    assert!(is_sdna_link(&yes("ad4m://has_flow")));
    assert!(is_sdna_link(&yes("ad4m://has_custom_sdna")));
    assert!(!is_sdna_link(&yes("ad4m://sdna")));
    assert!(!is_sdna_link(&yes("")));
    assert!(!is_sdna_link(&Link {
        source: "ad4m://self".to_string(),
        predicate: None,
        target: "x".to_string()
    }));
    assert!(!is_sdna_link(&Link {
        source: "ad4m://other".to_string(),
        predicate: Some("ad4m://has_flow".to_string()),
        target: "x".to_string()
    }));
}

#[test]
fn fact_base_without_links_is_the_fixed_text() {
    let lines = init_engine_facts(Vec::new(), None, ME);
    assert_eq!(lines.len(), FIXED_LINES);
    assert_eq!(lines[0], ":- discontiguous(triple/3).");
    assert_eq!(lines[1], ":- discontiguous(link/5).");
    assert_eq!(lines[2], ":- dynamic(triple/3).");
    assert_eq!(lines[3], ":- dynamic(link/5).");
    assert_eq!(lines[4], ":- discontiguous(reachable/2).");
    assert_eq!(lines[5], "reachable(A,B) :- triple(A,_,B).");
    assert_eq!(lines[6], "reachable(A,B) :- triple(A,_,X), reachable(X,B).");
    assert_eq!(lines[36], ":- use_module(library(dif)).");
    assert_eq!(lines[37], "");
    assert_eq!(lines[38], ":- discontiguous(paginate/4).");
    assert_eq!(lines[61], "    ");
    assert_eq!(lines[62], "");
    assert_eq!(lines[63], "% Main predicate to remove HTML tags");
    assert_eq!(lines[214], "");
    assert_eq!(lines[215], "agent_did(\"did:key:me\").");
    assert_eq!(PREAMBLE.split('\n').count(), 4);
    assert_eq!(DECLARATIONS.split('\n').count(), 33);
}

#[test]
fn fact_base_lists_triples_then_links() {
    let links = vec![
        plain("a", Some("p"), "b"),
        plain("ad4m://self", Some("ad4m://has_subject_class"), "literal://string:Todo"),
        decorated("c", None, "d", "did:key:other", "1970-01-01T00:00:01Z", None),
    ];
    let lines = init_engine_facts(links, None, ME);
    assert_eq!(lines.len(), FIXED_LINES + 4);
    assert_eq!(lines[4], "triple(\"a\", \"p\", \"b\").");
    assert_eq!(lines[5], "triple(\"c\", \"\", \"d\").");
    assert_eq!(lines[6], "link(\"a\", \"p\", \"b\", 1672531200000, \"did:key:me\").");
    assert_eq!(lines[7], "link(\"c\", \"\", \"d\", 1000, \"did:key:other\").");
    assert_eq!(lines[8], ":- discontiguous(reachable/2).");
}

#[test]
fn engine_facts_uses_the_given_stamps() {
    let links = vec![plain("a", None, "b"), plain("ad4m://self", Some("ad4m://has_flow"), "x")];
    let lines = engine_facts(&links, &vec![17, 99], &None, ME);
    assert_eq!(lines[4], "triple(\"a\", \"\", \"b\").");
    assert_eq!(lines[5], "link(\"a\", \"\", \"b\", 17, \"did:key:me\").");
    assert_eq!(lines.len(), FIXED_LINES + 2);
}

#[test]
fn unreadable_timestamp_gives_no_fact_base() {
    let links = vec![plain("a", None, "b"), decorated("c", None, "d", ME, "soon", Some(true))];
    assert_eq!(try_init_engine_facts(links, None, ME), None);
    let sdna_only =
        vec![decorated("ad4m://self", Some("ad4m://has_flow"), "x", ME, "soon", Some(true))];
    assert_eq!(try_init_engine_facts(sdna_only, None, ME).unwrap().len(), FIXED_LINES);
}

#[test]
fn class_code_follows_the_agent_line() {
    let links = vec![class_link("Todo", "line%20one%0Aline%20two", ME, STAMP)];
    let lines = init_engine_facts(links, None, ME);
    assert_eq!(lines.len(), FIXED_LINES + 2 + 2);
    let n = lines.len();
    assert_eq!(lines[n - 3], "agent_did(\"did:key:me\").");
    assert_eq!(lines[n - 2], "line one");
    assert_eq!(lines[n - 1], "line two");
}

const OLDER: &str = "2024-01-01T00:00:00Z";
const NEWER: &str = "2024-01-02T00:00:00Z";

#[test]
fn newer_class_definition_wins() {
    let older = class_link("Todo", "old", ME, OLDER);
    let newer = class_link("Todo", "new", ME, NEWER);
    let classes = subject_classes(&vec![older, newer], ME, &None);
    assert_eq!(classes.len(), 1);
    assert_eq!(classes[0].code, "new");
    assert_eq!(classes[0].timestamp, NEWER);

    let newer_first =
        vec![class_link("Todo", "new", ME, NEWER), class_link("Todo", "old", ME, OLDER)];
    let classes = subject_classes(&newer_first, ME, &None);
    assert_eq!(classes.len(), 1);
    assert_eq!(classes[0].code, "new");
}

#[test]
fn fact_base_holds_the_newer_code_only_older_link_first() {
    let links = vec![
        class_link("Todo", "old%20one%0Aold%20two", ME, OLDER),
        class_link("Todo", "new%20one%0Anew%20two", ME, NEWER),
    ];
    let lines = try_init_engine_facts(links, None, ME).unwrap();
    let n = lines.len();
    assert_eq!(n, FIXED_LINES + 4 + 2);
    assert_eq!(lines[n - 3], "agent_did(\"did:key:me\").");
    assert_eq!(lines[n - 2], "new one");
    assert_eq!(lines[n - 1], "new two");
    assert!(!lines.iter().any(|l| l == "old one" || l == "old two"));
}

#[test]
fn fact_base_holds_the_newer_code_only_newer_link_first() {
    let links = vec![
        class_link("Todo", "new%20one%0Anew%20two", ME, NEWER),
        class_link("Todo", "old%20one%0Aold%20two", ME, OLDER),
    ];
    let lines = try_init_engine_facts(links, None, ME).unwrap();
    let n = lines.len();
    assert_eq!(n, FIXED_LINES + 4 + 2);
    assert_eq!(lines[n - 3], "agent_did(\"did:key:me\").");
    assert_eq!(lines[n - 2], "new one");
    assert_eq!(lines[n - 1], "new two");
    assert!(!lines.iter().any(|l| l == "old one" || l == "old two"));
}

#[test]
fn instants_are_compared_not_texts() {
    // The same instant written in two offsets, and a later instant that
    // sorts earlier as text.
    let links = vec![
        class_link("Todo", "first", ME, "2024-01-01T12:00:00+02:00"),
        class_link("Todo", "same", ME, "2024-01-01T10:00:00Z"),
    ];
    assert_eq!(subject_classes(&links, ME, &None)[0].code, "first");
    let links = vec![
        class_link("Todo", "earlier", ME, "2024-01-01T23:00:00+00:00"),
        class_link("Todo", "later", ME, "2024-01-01T22:30:00-01:00"),
    ];
    assert_eq!(subject_classes(&links, ME, &None)[0].code, "later");
}

#[test]
fn newest_of_many_definitions_wins() {
    let links = vec![
        class_link("Todo", "b", ME, "2024-01-02T00:00:00Z"),
        plain("x", Some("p"), "y"),
        class_link("Todo", "c", ME, "2024-01-03T00:00:00Z"),
        class_link("Other", "o", ME, "2024-01-09T00:00:00Z"),
        class_link("Todo", "a", ME, "2024-01-01T00:00:00Z"),
    ];
    let lines = try_init_engine_facts(links, None, ME).unwrap();
    let n = lines.len();
    assert_eq!(lines[n - 2], "c");
    assert_eq!(lines[n - 1], "o");
    assert_eq!(lines[n - 3], "agent_did(\"did:key:me\").");
}

#[test]
fn equal_or_unreadable_timestamps_keep_the_first_definition() {
    let same = vec![class_link("Todo", "first", ME, OLDER), class_link("Todo", "second", ME, OLDER)];
    assert_eq!(subject_classes(&same, ME, &None)[0].code, "first");
    let unreadable =
        vec![class_link("Todo", "first", ME, "100"), class_link("Todo", "second", ME, NEWER)];
    assert_eq!(subject_classes(&unreadable, ME, &None)[0].code, "first");
    let later_unreadable =
        vec![class_link("Todo", "first", ME, OLDER), class_link("Todo", "second", ME, "later")];
    assert_eq!(subject_classes(&later_unreadable, ME, &None)[0].code, "first");
}

#[test]
fn classes_keep_the_order_of_first_definition() {
    let links = vec![
        class_link("B", "b1", ME, OLDER),
        class_link("A", "a1", ME, OLDER),
        class_link("B", "b2", ME, NEWER),
    ];
    let classes = subject_classes(&links, ME, &None);
    assert_eq!(classes.len(), 2);
    assert_eq!(classes[0].name, "B");
    assert_eq!(classes[0].code, "b2");
    assert_eq!(classes[1].name, "A");
    assert_eq!(classes[1].code, "a1");
}

#[test]
fn only_valid_links_of_trusted_authors_define_classes() {
    let stranger = class_link("Todo", "x", "did:key:stranger", "1");
    assert_eq!(definition_of(&stranger, ME, &None), None);
    assert!(definition_of(&stranger, ME, &Some("did:key:stranger".to_string())).is_some());
    let mut invalid = class_link("Todo", "x", ME, "1");
    invalid.proof.valid = Some(false);
    assert_eq!(definition_of(&invalid, ME, &None), None);
    invalid.proof.valid = None;
    assert_eq!(definition_of(&invalid, ME, &None), None);
    let other_predicate = plain("literal://string:Todo", Some("ad4m://other"), "literal://string:x");
    assert_eq!(definition_of(&other_predicate, ME, &None), None);
}

#[test]
fn undecodable_literal_is_skipped() {
    let bad_name = decorated("Todo", Some("ad4m://sdna"), "literal://string:x", ME, "1", Some(true));
    assert_eq!(definition_of(&bad_name, ME, &None), None);
    let bad_code =
        decorated("literal://string:Todo", Some("ad4m://sdna"), "literal://string:%", ME, "1", Some(true));
    assert_eq!(definition_of(&bad_code, ME, &None), None);
    let good = class_link("Todo", "code", ME, "1");
    let classes = subject_classes(&vec![bad_name, bad_code, good], ME, &None);
    assert_eq!(classes.len(), 1);
    assert_eq!(classes[0].code, "code");
}

#[test]
fn record_class_replaces_only_by_greater_timestamp() {
    let class = |code: &str, ts: &str| SubjectClass {
        name: "N".to_string(),
        code: code.to_string(),
        timestamp: ts.to_string(),
    };
    let mut classes = Vec::new();
    let (t4, t5, t6) = ("2024-01-04T00:00:00Z", "2024-01-05T00:00:00Z", "2024-01-06T00:00:00Z");
    record_class(&mut classes, class("a", t5));
    record_class(&mut classes, class("b", t4));
    assert_eq!(classes, vec![class("a", t5)]);
    record_class(&mut classes, class("c", t6));
    assert_eq!(classes, vec![class("c", t6)]);
    record_class(&mut classes, class("d", "7"));
    assert_eq!(classes, vec![class("c", t6)]);
}
