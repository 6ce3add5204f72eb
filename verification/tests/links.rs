use ad4m_core::graphql_types::{
    ExpressionProofInput, LinkExpressionInput, LinkInput, LinkStatus, NotificationInput,
    PerspectiveInput,
};
use ad4m_core::types::{
    DecoratedExpressionProof, DecoratedLinkExpression, Expression, ExpressionProof, ExpressionRef,
    LanguageRef, Link, LinkExpression, Notification, Perspective, PerspectiveDiff,
    ProofInputError, VerifiedExpression, VerifyError,
};

fn link(source: &str, predicate: Option<&str>, target: &str) -> Link {
    Link {
        source: source.to_string(),
        predicate: predicate.map(|p| p.to_string()),
        target: target.to_string(),
    }
}

fn signed() -> ExpressionProof {
    ExpressionProof { key: "key".to_string(), signature: "sig".to_string() }
}

fn expression(data: Link) -> LinkExpression {
    LinkExpression {
        author: "did:key:alice".to_string(),
        timestamp: "2023-01-01T00:00:00.000Z".to_string(),
        data,
        proof: signed(),
        status: None,
    }
}

fn input(predicate: Option<&str>, key: Option<&str>, signature: Option<&str>) -> LinkExpressionInput {
    LinkExpressionInput {
        author: "did:key:alice".to_string(),
        data: LinkInput {
            source: "s".to_string(),
            predicate: predicate.map(|p| p.to_string()),
            target: "t".to_string(),
        },
        proof: ExpressionProofInput {
            invalid: None,
            key: key.map(|k| k.to_string()),
            signature: signature.map(|s| s.to_string()),
            valid: None,
        },
        timestamp: "now".to_string(),
        status: Some(LinkStatus::Local),
    }
}

#[test]
fn normalize_drops_empty_predicate() {
    assert_eq!(link("s", Some(""), "t").normalize(), link("s", None, "t"));
    assert_eq!(link("s", None, "t").normalize(), link("s", None, "t"));
    assert_eq!(link("s", Some("p"), "t").normalize(), link("s", Some("p"), "t"));
    assert_eq!(link("", Some(" "), "").normalize(), link("", Some(" "), ""));
}

#[test]
fn normalize_is_idempotent() {
    for l in [link("s", Some(""), "t"), link("s", None, "t"), link("s", Some("p"), "t")] {
        let once = l.normalize();
        assert_eq!(once.normalize(), once);
        let had_none = l.predicate.is_none() || l.predicate.as_deref() == Some("");
        assert_eq!(once.predicate.is_none(), had_none);
    }
}

#[test]
fn link_from_input_keeps_fields() {
    let made = Link::from(LinkInput {
        source: "s".to_string(),
        predicate: Some("".to_string()),
        target: "t".to_string(),
    });
    assert_eq!(made, link("s", Some(""), "t"));
}

#[test]
fn link_expression_from_complete_input() {
    let made = LinkExpression::try_from(input(Some(""), Some("k"), Some("g"))).unwrap();
    assert_eq!(made.author, "did:key:alice");
    assert_eq!(made.timestamp, "now");
    assert_eq!(made.data, link("s", None, "t"));
    assert_eq!(made.proof, ExpressionProof { key: "k".to_string(), signature: "g".to_string() });
    assert_eq!(made.status, Some(LinkStatus::Local));
}

#[test]
fn link_expression_needs_key_and_signature() {
    let no_key = LinkExpression::try_from(input(None, None, Some("g"))).unwrap_err();
    assert_eq!(no_key, ProofInputError::KeyRequired);
    assert_eq!(no_key.message(), "Key is required");
    let no_signature = LinkExpression::try_from(input(None, Some("k"), None)).unwrap_err();
    assert_eq!(no_signature, ProofInputError::SignatureRequired);
    assert_eq!(no_signature.message(), "Key is required");
    let neither = LinkExpression::try_from(input(None, None, None)).unwrap_err();
    assert_eq!(neither, ProofInputError::KeyRequired);
}

#[test]
fn link_expression_without_proof_has_empty_proof() {
    let made = LinkExpression::from_input_without_proof(input(Some(""), Some("k"), Some("g")));
    assert_eq!(made.data, link("s", None, "t"));
    assert_eq!(made.proof, ExpressionProof { key: String::new(), signature: String::new() });
    assert_eq!(made.status, Some(LinkStatus::Local));
    assert_eq!(made.author, "did:key:alice");
}

#[test]
fn envelope_round_trip_normalizes() {
    let envelope = expression(link("s", Some(""), "t")).into_expression();
    assert_eq!(envelope.data, link("s", Some(""), "t"));
    let back = LinkExpression::from_expression(envelope);
    assert_eq!(back.data, link("s", None, "t"));
    assert_eq!(back.status, None);
    assert_eq!(back.proof, signed());
}

#[test]
fn valid_signature_is_stamped_valid() {
    let decorated =
        DecoratedLinkExpression::decorate(expression(link("s", Some("p"), "t")), LinkStatus::Shared, Ok(true));
    assert_eq!(decorated.proof.valid, Some(true));
    assert_eq!(decorated.proof.invalid, Some(false));
    assert_eq!(decorated.status, Some(LinkStatus::Shared));
    assert_eq!(decorated.proof.key, "key");
    assert_eq!(decorated.proof.signature, "sig");
    assert_eq!(decorated.data, link("s", Some("p"), "t"));
}

#[test]
fn failed_or_broken_signature_is_stamped_invalid() {
    for verdict in [Ok(false), Err(VerifyError::UnparseableDid), Err(VerifyError::CorruptKey)] {
        let decorated = DecoratedLinkExpression::decorate(
            expression(link("s", Some(""), "t")),
            LinkStatus::Local,
            verdict,
        );
        assert_eq!(decorated.proof.valid, Some(false));
        assert_eq!(decorated.proof.invalid, Some(true));
        assert_eq!(decorated.data, link("s", None, "t"));
    }
}

#[test]
fn verify_signature_stamps_only_the_proof() {
    let mut decorated = DecoratedLinkExpression {
        author: "did:key:alice".to_string(),
        timestamp: "ts".to_string(),
        data: link("s", Some(""), "t"),
        proof: DecoratedExpressionProof {
            key: "k".to_string(),
            signature: "g".to_string(),
            valid: None,
            invalid: None,
        },
        status: Some(LinkStatus::Shared),
    };
    let subject = decorated.signed_subject();
    assert_eq!(
        subject,
        Expression {
            author: "did:key:alice".to_string(),
            timestamp: "ts".to_string(),
            data: link("s", None, "t"),
            proof: ExpressionProof { key: "k".to_string(), signature: "g".to_string() },
        }
    );
    decorated.verify_signature(Ok(true));
    assert_eq!(decorated.proof.valid, Some(true));
    assert_eq!(decorated.proof.invalid, Some(false));
    assert_eq!(decorated.data, link("s", Some(""), "t"));
    assert_eq!(decorated.status, Some(LinkStatus::Shared));
    decorated.verify_signature(Err(VerifyError::CorruptKey));
    assert_eq!(decorated.proof.valid, Some(false));
    assert_eq!(decorated.proof.invalid, Some(true));
}

#[test]
fn verified_expression_keeps_the_payload() {
    let verified = VerifiedExpression::from_verdict(
        Expression {
            author: "a".to_string(),
            timestamp: "t".to_string(),
            data: 7u8,
            proof: signed(),
        },
        Ok(false),
    );
    assert_eq!(verified.data, 7u8);
    assert_eq!(verified.proof.valid, Some(false));
    assert_eq!(verified.proof.invalid, Some(true));
}

#[test]
fn decorated_back_to_link_expression() {
    let decorated =
        DecoratedLinkExpression::decorate(expression(link("s", Some("p"), "t")), LinkStatus::Shared, Ok(true));
    let plain = LinkExpression::from_decorated(decorated);
    assert_eq!(plain.proof, signed());
    assert_eq!(plain.status, Some(LinkStatus::Shared));
    assert_eq!(plain.data, link("s", Some("p"), "t"));
}

#[test]
fn link_status_wire_names() {
    assert_eq!(LinkStatus::Shared.to_string(), "shared");
    assert_eq!(LinkStatus::Local.to_string(), "local");
}

#[test]
fn perspective_keeps_complete_links_only() {
    let made = Perspective::from_input(PerspectiveInput {
        links: vec![
            input(Some("a"), Some("k"), Some("g")),
            input(Some("b"), None, Some("g")),
            input(Some(""), Some("k"), Some("g")),
            input(Some("d"), Some("k"), None),
        ],
    });
    assert_eq!(made.links.len(), 2);
    assert_eq!(made.links[0].data, link("s", Some("a"), "t"));
    assert_eq!(made.links[1].data, link("s", None, "t"));
}

#[test]
fn perspective_diff_constructors() {
    let a = vec![expression(link("a", None, "b"))];
    let r = vec![expression(link("c", None, "d"))];
    let additions = PerspectiveDiff::from_additions(vec![expression(link("a", None, "b"))]);
    assert_eq!(additions.additions, a);
    assert!(additions.removals.is_empty());
    let removals = PerspectiveDiff::from_removals(vec![expression(link("c", None, "d"))]);
    assert!(removals.additions.is_empty());
    assert_eq!(removals.removals, r);
    let both = PerspectiveDiff::from(
        vec![expression(link("a", None, "b"))],
        vec![expression(link("c", None, "d"))],
    );
    assert_eq!(both.additions, a);
    assert_eq!(both.removals, r);
}

#[test]
fn notification_from_input_is_not_granted() {
    let made = Notification::from_input_and_id(
        "id-1".to_string(),
        NotificationInput {
            description: "d".to_string(),
            app_name: "n".to_string(),
            app_url: "u".to_string(),
            app_icon_path: "i".to_string(),
            trigger: "t".to_string(),
            perspective_ids: vec!["p1".to_string(), "p2".to_string()],
            webhook_url: "w".to_string(),
            webhook_auth: "a".to_string(),
        },
    );
    assert_eq!(made.id, "id-1");
    assert!(!made.granted);
    assert_eq!(made.description, "d");
    assert_eq!(made.app_name, "n");
    assert_eq!(made.app_url, "u");
    assert_eq!(made.app_icon_path, "i");
    assert_eq!(made.trigger, "t");
    assert_eq!(made.perspective_ids, vec!["p1".to_string(), "p2".to_string()]);
    assert_eq!(made.webhook_url, "w");
    assert_eq!(made.webhook_auth, "a");
}

fn reference(address: &str, name: &str, expression: &str) -> ExpressionRef {
    ExpressionRef {
        language: LanguageRef { name: name.to_string(), address: address.to_string() },
        expression: expression.to_string(),
    }
}

#[test]
fn expression_ref_of_literal() {
    let parsed = ExpressionRef::try_from("literal://string:abc".to_string()).unwrap();
    assert_eq!(parsed, reference("literal", "literal", "string:abc"));
    let empty = ExpressionRef::try_from("literal://".to_string()).unwrap();
    assert_eq!(empty, reference("literal", "literal", ""));
    assert_eq!(parsed.to_string(), "literal://string:abc");
}

#[test]
fn expression_ref_of_url() {
    let parsed = ExpressionRef::try_from("Qm123://some expression\nmore".to_string()).unwrap();
    assert_eq!(parsed, reference("Qm123", "", "some expression\nmore"));
    assert_eq!(parsed.to_string(), "Qm123://some expression\nmore");
    let nested = ExpressionRef::try_from("a://b://c".to_string()).unwrap();
    assert_eq!(nested, reference("a", "", "b://c"));
}

#[test]
fn expression_ref_of_did() {
    let parsed = ExpressionRef::try_from("did:key:z6Mk".to_string()).unwrap();
    assert_eq!(parsed, reference("did", "", "did:key:z6Mk"));
    assert_eq!(parsed.to_string(), "did:key:z6Mk");
}

#[test]
fn expression_ref_refuses_other_text() {
    for text in ["", "abc", "://x", "a://", "a b://c", "a^b://c", "did:", "did:a b", "a:b://c", " a://b"] {
        let error = ExpressionRef::try_from(text.to_string()).unwrap_err();
        assert_eq!(error.value, text);
    }
    let error = ExpressionRef::try_from("abc".to_string()).unwrap_err();
    assert_eq!(error.message(), "Couldn't parse string as expression URL or DID: abc");
}
