use ad4m_core::graphql_types::LinkStatus;
use ad4m_core::literal::{encode_text, Literal, LiteralKind};
use ad4m_core::perspective_proxy::store::{LinkQuery, Request};
use ad4m_core::perspective_proxy::subjects::{
    answers, bound_text, Binding, DnaError, InferResult, InferRow, SubjectError,
};
use ad4m_core::perspective_proxy::PerspectiveProxy;
use ad4m_core::perspectives::sdna::{node_facts, nodes_of};
use ad4m_core::types::{
    DecoratedExpressionProof, DecoratedLinkExpression, ExpressionProof, Link, LinkExpression,
};

fn binding(name: &str, text: Option<&str>) -> Binding {
    Binding { name: name.to_string(), text: text.map(|t| t.to_string()) }
}

fn rows(names: &[&str]) -> InferResult {
    InferResult::Rows(
        names.iter().map(|n| InferRow::Object(vec![binding("C", Some("c1")), binding("X", Some(n))])).collect(),
    )
}

fn held(target: &str) -> LinkExpression {
    LinkExpression {
        author: "did:key:me".to_string(),
        timestamp: "t".to_string(),
        data: Link {
            source: "ad4m://self".to_string(),
            predicate: Some("ad4m://has_zome".to_string()),
            target: target.to_string(),
        },
        proof: ExpressionProof { key: "k".to_string(), signature: "s".to_string() },
        status: None,
    }
}

fn decorated(source: &str, predicate: Option<&str>, target: &str) -> DecoratedLinkExpression {
    DecoratedLinkExpression {
        author: "did:key:me".to_string(),
        timestamp: "t".to_string(),
        data: Link {
            source: source.to_string(),
            predicate: predicate.map(|p| p.to_string()),
            target: target.to_string(),
        },
        proof: DecoratedExpressionProof {
            key: "k".to_string(),
            signature: "s".to_string(),
            valid: Some(true),
            invalid: Some(false),
        },
        status: Some(LinkStatus::Shared),
    }
}

#[test]
fn percent_encoding_keeps_unreserved_characters() {
    assert_eq!(encode_text("AZaz09-_.~"), "AZaz09-_.~");
    assert_eq!(encode_text("a b"), "a%20b");
    assert_eq!(encode_text("100%"), "100%25");
    assert_eq!(encode_text("é"), "%C3%A9");
    assert_eq!(encode_text("a\nb"), "a%0Ab");
    assert_eq!(encode_text(""), "");
    assert_eq!(encode_text("subject_class(\"Todo\", c)."), "subject_class%28%22Todo%22%2C%20c%29.");
}

#[test]
fn literal_url_round_trip() {
    for (kind, value) in [
        (LiteralKind::Text, "Hello, World! 100% ünïcödé\n\"quoted\""),
        (LiteralKind::Text, ""),
        (LiteralKind::Number, "42.5"),
        (LiteralKind::Json, "{\"a\": [1, 2, {\"b\": null}]}"),
    ] {
        let literal = Literal { kind, value: value.to_string() };
        let url = literal.to_url();
        assert_eq!(Literal::from_url(&url), Some(literal));
    }
    assert_eq!(Literal::from_string("a b".to_string()).to_url(), "literal://string:a%20b");
    assert_eq!(
        Literal { kind: LiteralKind::Number, value: "7".to_string() }.to_url(),
        "literal://number:7"
    );
    assert_eq!(
        Literal { kind: LiteralKind::Json, value: "[]".to_string() }.to_url(),
        "literal://json:%5B%5D"
    );
}

#[test]
fn set_dna_sets_the_single_zome() {
    let proxy = PerspectiveProxy::new("u".to_string());
    assert_eq!(
        proxy.dna_query(),
        Request::QueryLinks {
            perspective_uuid: "u".to_string(),
            query: LinkQuery {
                source: Some("ad4m://self".to_string()),
                target: None,
                predicate: Some("ad4m://has_zome".to_string()),
                from_date: None,
                until_date: None,
                limit: None,
            },
        }
    );
    let requests = proxy.set_dna(&vec![held("literal://string:old")], "new dna.".to_string());
    assert_eq!(
        requests,
        vec![
            Request::RemoveLink { perspective_uuid: "u".to_string(), link: held("literal://string:old") },
            Request::AddLink {
                perspective_uuid: "u".to_string(),
                source: "ad4m://self".to_string(),
                target: "literal://string:new%20dna.".to_string(),
                predicate: Some("ad4m://has_zome".to_string()),
                status: Some("shared".to_string()),
            },
        ]
    );
}

#[test]
fn get_dna_reads_every_text_literal() {
    let proxy = PerspectiveProxy::new("u".to_string());
    assert_eq!(proxy.get_dna(&Vec::new()), Ok(Vec::new()));
    assert_eq!(
        proxy.get_dna(&vec![held("literal://string:a%20b"), held("literal://string:c")]),
        Ok(vec!["a b".to_string(), "c".to_string()])
    );
    assert_eq!(
        proxy.get_dna(&vec![held("literal://string:a"), held("literal://number:1")]),
        Err(DnaError::NotAStringLiteral)
    );
    assert_eq!(
        proxy.get_dna(&vec![held("ad4m://self"), held("literal://number:1")]),
        Err(DnaError::NotALiteral)
    );
    assert_eq!(DnaError::NotAStringLiteral.message(), "Not a string literal");
}

#[test]
fn answers_collect_the_texts_of_a_variable() {
    assert_eq!(answers(&rows(&["A", "B"]), "X"), vec!["A".to_string(), "B".to_string()]);
    assert_eq!(answers(&rows(&["A", "B"]), "Y"), Vec::<String>::new());
    assert_eq!(answers(&InferResult::Bool(true), "X"), Vec::<String>::new());
    assert_eq!(answers(&InferResult::Text("X".to_string()), "X"), Vec::<String>::new());
    let mixed = InferResult::Rows(vec![
        InferRow::Other,
        InferRow::Object(vec![binding("X", None)]),
        InferRow::Object(vec![binding("X", Some("kept")), binding("X", Some("shadowed"))]),
        InferRow::Object(Vec::new()),
    ]);
    assert_eq!(answers(&mixed, "X"), vec!["kept".to_string()]);
    assert_eq!(bound_text(&InferRow::Other, "X"), None);
}

#[test]
fn class_queries_and_their_answers() {
    let proxy = PerspectiveProxy::new("u".to_string());
    assert_eq!(proxy.subject_classes_query(), "subject_class(X, _)");
    assert_eq!(
        proxy.subject_class_properties_query("Todo"),
        "subject_class(\"Todo\", C), property(C, X)"
    );
    assert_eq!(
        proxy.subject_class_collections_query("Todo"),
        "subject_class(\"Todo\", C), collection(C, X)"
    );
    assert_eq!(
        proxy.constructor_query("Todo"),
        "subject_class(\"Todo\", C), constructor(C, Action)"
    );
    assert_eq!(
        proxy.is_subject_instance_query("Todo", "todo://1"),
        "subject_class(\"Todo\", C), instance(C, \"todo://1\")"
    );
    assert_eq!(
        proxy.get_subject_classes_query("todo://1"),
        "instance(C, \"todo://1\"), subject_class(Classname, C)"
    );
    assert_eq!(proxy.subject_classes(&rows(&["Todo"])), vec!["Todo".to_string()]);
    assert_eq!(proxy.subject_class_properties(&rows(&["state", "title"])).len(), 2);
    assert_eq!(proxy.subject_class_collections(&rows(&[])), Vec::<String>::new());
    let classes = InferResult::Rows(vec![InferRow::Object(vec![binding("Classname", Some("Todo"))])]);
    assert_eq!(proxy.get_subject_classes(&classes), vec!["Todo".to_string()]);
}

#[test]
fn instance_answers() {
    let proxy = PerspectiveProxy::new("u".to_string());
    assert!(proxy.is_subject_instance(&rows(&["x"])));
    assert!(!proxy.is_subject_instance(&rows(&[])));
    assert!(proxy.is_subject_instance(&InferResult::Bool(true)));
    assert!(!proxy.is_subject_instance(&InferResult::Bool(false)));
    assert!(!proxy.is_subject_instance(&InferResult::Text("true".to_string())));
    assert!(!proxy.is_subject_instance(&InferResult::Other));
    assert_eq!(proxy.get_subject("Todo", "todo://1", &InferResult::Bool(true)), Ok(()));
    let error = proxy.get_subject("Todo", "todo://1", &InferResult::Bool(false)).unwrap_err();
    assert_eq!(
        error.message(),
        "Expression todo://1 is not a subject instance of class: Todo"
    );
}

#[test]
fn constructor_action_of_the_first_answer() {
    let proxy = PerspectiveProxy::new("u".to_string());
    let action = InferResult::Rows(vec![
        InferRow::Object(vec![binding("C", Some("c")), binding("Action", Some("[{action: \"addLink\"}]"))]),
        InferRow::Object(vec![binding("Action", Some("second"))]),
    ]);
    assert_eq!(proxy.create_subject("Todo", &Some(action)), Ok("[{action: \"addLink\"}]".to_string()));
    let unbound = InferResult::Rows(vec![InferRow::Object(vec![binding("C", Some("c"))])]);
    assert_eq!(proxy.create_subject("Todo", &Some(unbound)), Err(SubjectError::UnboundAction));
    let no_text = InferResult::Rows(vec![InferRow::Object(vec![binding("Action", None)])]);
    let missing = SubjectError::NoConstructor("Todo".to_string());
    assert_eq!(proxy.create_subject("Todo", &Some(no_text)), Err(SubjectError::NoConstructor("Todo".to_string())));
    assert_eq!(proxy.create_subject("Todo", &Some(rows(&[]))), Err(SubjectError::NoConstructor("Todo".to_string())));
    assert_eq!(proxy.create_subject("Todo", &Some(InferResult::Bool(true))), Err(SubjectError::NoConstructor("Todo".to_string())));
    assert_eq!(proxy.create_subject("Todo", &None), Err(SubjectError::NoConstructor("Todo".to_string())));
    assert_eq!(missing.message(), "No constructor found for class: Todo");
    assert_eq!(SubjectError::UnboundAction.message(), "Unbound variable Action is not set");
}

#[test]
fn nodes_are_the_distinct_non_empty_texts() {
    let links = vec![
        decorated("a://1", Some("p://x"), "b://2"),
        decorated("b://2", Some(""), "a://1"),
        decorated("", None, "did:key:z"),
    ];
    assert_eq!(
        nodes_of(&links),
        vec!["a://1".to_string(), "p://x".to_string(), "b://2".to_string(), "did:key:z".to_string()]
    );
}

#[test]
fn node_facts_describe_every_expression() {
    let links = vec![
        decorated("Qm1://expr", Some("true"), "literal://string:x"),
        decorated("plain text", Some("false"), "did:key:z"),
    ];
    assert_eq!(
        node_facts(&links),
        vec![
            ":- discontiguous(languageAddress/2).".to_string(),
            "languageAddress(\"Qm1://expr\", \"Qm1\").".to_string(),
            "languageAddress(\"literal://string:x\", \"literal\").".to_string(),
            "languageAddress(\"did:key:z\", \"did\").".to_string(),
            ":- discontiguous(languageName/2).".to_string(),
            "languageName(\"Qm1://expr\", \"unknown\").".to_string(),
            "languageName(\"literal://string:x\", \"literal\").".to_string(),
            "languageName(\"did:key:z\", \"unknown\").".to_string(),
            ":- discontiguous(expressionAddress/2).".to_string(),
            "expressionAddress(\"Qm1://expr\", \"expr\").".to_string(),
            "expressionAddress(\"literal://string:x\", \"string:x\").".to_string(),
            "expressionAddress(\"did:key:z\", \"did:key:z\").".to_string(),
        ]
    );
    assert_eq!(node_facts(&Vec::new()).len(), 3);
}
