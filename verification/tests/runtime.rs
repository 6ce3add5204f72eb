use ad4m_core::capabilities::defs::{
    agent_subscribe_capability, all_capability, perspective_delete_capability,
    perspective_query_capability, perspective_subscribe_capability,
    perspective_update_capability, runtime_exception_subscribe_capability,
    runtime_quit_capability,
};
use ad4m_core::graphql_types::{ExpressionProof, Perspective, PerspectiveExpression, SentMessage};
use ad4m_core::runtime_service::{BootstrapSeed, RuntimeService, RuntimeWrite};

fn strings(items: &[&str]) -> Vec<String> {
    items.iter().map(|s| s.to_string()).collect()
}

fn seed() -> BootstrapSeed {
    BootstrapSeed {
        trusted_agents: strings(&["did:key:seed2", "did:key:seed1"]),
        known_link_languages: strings(&["QmLang2", "QmLang1"]),
        direct_message_language: "dm".to_string(),
        agent_language: "agent".to_string(),
        perspective_language: "perspective".to_string(),
        neighbourhood_language: "neighbourhood".to_string(),
        language_language_bundle: "bundle".to_string(),
    }
}

fn message(recipient: &str) -> SentMessage {
    SentMessage {
        message: PerspectiveExpression {
            author: "did:key:me".to_string(),
            data: Perspective { links: Vec::new() },
            proof: ExpressionProof { invalid: None, key: None, signature: None, valid: None },
            timestamp: "t".to_string(),
        },
        recipient: recipient.to_string(),
    }
}

#[test]
fn trusted_agents_are_sorted_and_unique() {
    let runtime = RuntimeService::new(seed());
    assert_eq!(
        runtime.get_trusted_agents("did:key:me", Ok(Vec::new())),
        strings(&["did:key:me", "did:key:seed1", "did:key:seed2"])
    );
    assert_eq!(
        runtime.get_trusted_agents(
            "did:key:me",
            Ok(strings(&["did:key:zed", "did:key:seed1", "did:key:abc", "did:key:zed"]))
        ),
        strings(&["did:key:abc", "did:key:me", "did:key:seed1", "did:key:seed2", "did:key:zed"])
    );
    assert_eq!(
        runtime.get_trusted_agents("did:key:seed2", Ok(strings(&["did:key:abc"]))),
        strings(&["did:key:abc", "did:key:seed1", "did:key:seed2"])
    );
}

#[test]
fn failed_read_counts_as_nothing_stored() {
    let runtime = RuntimeService::new(seed());
    assert_eq!(
        runtime.get_trusted_agents("did:key:me", Err("database is locked".to_string())),
        strings(&["did:key:me", "did:key:seed1", "did:key:seed2"])
    );
    assert_eq!(
        runtime.get_know_link_languages(Err("database is locked".to_string())),
        strings(&["QmLang1", "QmLang2"])
    );
    assert!(runtime.get_friends(Err("database is locked".to_string())).is_empty());
    assert!(runtime.get_outbox(Err("database is locked".to_string())).is_empty());
}

#[test]
fn known_link_languages_are_sorted_and_unique() {
    let runtime = RuntimeService::new(seed());
    assert_eq!(runtime.get_know_link_languages(Ok(Vec::new())), strings(&["QmLang1", "QmLang2"]));
    assert_eq!(
        runtime.get_know_link_languages(Ok(strings(&["QmA", "QmLang2", "QmA"]))),
        strings(&["QmA", "QmLang1", "QmLang2"])
    );
}

#[test]
fn friends_and_outbox_are_what_the_store_returned() {
    let runtime = RuntimeService::new(seed());
    assert_eq!(
        runtime.get_friends(Ok(strings(&["did:key:z", "did:key:a", "did:key:z"]))),
        strings(&["did:key:z", "did:key:a", "did:key:z"])
    );
    let outbox = runtime.get_outbox(Ok(vec![message("did:key:bob"), message("did:key:carol")]));
    assert_eq!(outbox.len(), 2);
    assert_eq!(outbox[0], message("did:key:bob"));
    assert_eq!(outbox[1].recipient, "did:key:carol");
}

#[test]
fn writes_name_the_table_and_carry_the_values() {
    let runtime = RuntimeService::new(seed());
    assert_eq!(runtime.seed, seed());
    assert_eq!(
        runtime.add_trusted_agent(strings(&["a", "b"])),
        RuntimeWrite::AddTrustedAgents(strings(&["a", "b"]))
    );
    assert_eq!(
        runtime.remove_trusted_agent(strings(&["a"])),
        RuntimeWrite::RemoveTrustedAgents(strings(&["a"]))
    );
    assert_eq!(
        runtime.add_know_link_language(strings(&["l"])),
        RuntimeWrite::AddKnownLinkLanguages(strings(&["l"]))
    );
    assert_eq!(
        runtime.remove_know_link_language(strings(&["l"])),
        RuntimeWrite::RemoveKnownLinkLanguages(strings(&["l"]))
    );
    assert_eq!(runtime.add_friend(strings(&["f"])), RuntimeWrite::AddFriends(strings(&["f"])));
    assert_eq!(runtime.remove_friend(strings(&["f"])), RuntimeWrite::RemoveFriends(strings(&["f"])));
    assert_eq!(
        runtime.add_message_to_outbox(message("did:key:bob")),
        RuntimeWrite::AddToOutbox(message("did:key:bob"))
    );
}

#[test]
fn well_known_capabilities() {
    let all = all_capability();
    assert_eq!(all.with.domain, "*");
    assert_eq!(all.with.pointers, strings(&["*"]));
    assert_eq!(all.can, strings(&["*"]));
    let subscribe = perspective_subscribe_capability();
    assert_eq!(subscribe.with.domain, "perspective");
    assert_eq!(subscribe.with.pointers, strings(&["*"]));
    assert_eq!(subscribe.can, strings(&["SUBSCRIBE"]));
    assert_eq!(agent_subscribe_capability().with.domain, "agent");
    assert_eq!(runtime_exception_subscribe_capability().with.domain, "runtime.exception");
    assert_eq!(runtime_quit_capability().can, strings(&["QUIT"]));
    assert_eq!(runtime_quit_capability().with.domain, "runtime");
}

#[test]
fn perspective_capabilities_keep_their_pointers() {
    let query = perspective_query_capability(strings(&["p1", "p2"]));
    assert_eq!(query.with.domain, "perspective");
    assert_eq!(query.with.pointers, strings(&["p1", "p2"]));
    assert_eq!(query.can, strings(&["READ"]));
    assert_eq!(perspective_update_capability(Vec::new()).can, strings(&["UPDATE"]));
    assert!(perspective_update_capability(Vec::new()).with.pointers.is_empty());
    assert_eq!(perspective_delete_capability(strings(&["p"])).can, strings(&["DELETE"]));
}
