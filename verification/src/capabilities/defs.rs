//! The well-known capabilities.

use crate::capabilities::check::WILD_CARD;
use crate::capabilities::types::{Capability, CapabilityView, Resource, ResourceView};
use crate::text::views;
use vstd::prelude::*;
use vstd::string::*;

verus! {

/// The action to read.
pub const READ: &'static str = "READ";

/// The action to create.
pub const CREATE: &'static str = "CREATE";

/// The action to update.
pub const UPDATE: &'static str = "UPDATE";

/// The action to delete.
pub const DELETE: &'static str = "DELETE";

/// The action to subscribe to events.
pub const SUBSCRIBE: &'static str = "SUBSCRIBE";

/// The domain of the local agent.
pub const AGENT: &'static str = "agent";

/// The domain of expressions.
pub const EXPRESSION: &'static str = "expression";

/// The domain of languages.
pub const LANGUAGE: &'static str = "language";

/// The domain of perspectives.
pub const PERSPECTIVE: &'static str = "perspective";

/// The domain of neighbourhoods.
pub const NEIGHBOURHOOD: &'static str = "neighbourhood";

/// The domain of the runtime itself.
pub const RUNTIME: &'static str = "runtime";

/// The domain of the agents that the runtime trusts.
pub const RUNTIME_TRUSTED_AGENTS: &'static str = "runtime.trusted_agents";

/// The domain of the link languages that the runtime knows.
pub const RUNTIME_KNOWN_LINK_LANGUAGES: &'static str = "runtime.known_link_languages";

/// The domain of the friends of the local agent.
pub const RUNTIME_FRIENDS: &'static str = "runtime.friends";

/// The domain of the messages between agents.
pub const RUNTIME_MESSAGES: &'static str = "runtime.messages";

/// The capability that grants one action on a resource.
pub open spec fn spec_capability(
    domain: Seq<char>,
    pointers: Seq<Seq<char>>,
    action: Seq<char>,
) -> CapabilityView {
    CapabilityView { with: ResourceView { domain, pointers }, can: seq![action] }
}

/// The capability that grants one action on everything within a domain.
pub open spec fn spec_domain_capability(domain: Seq<char>, action: Seq<char>) -> CapabilityView {
    spec_capability(domain, seq![WILD_CARD@], action)
}

/// The capability that grants `action` on the resource of `domain` that
/// `pointers` narrow.
pub fn capability(domain: &str, pointers: Vec<String>, action: &str) -> (out: Capability)
    ensures
        out@ == spec_capability(domain@, views(pointers@), action@),
{
    let mut can: Vec<String> = Vec::new();
    can.push(String::from_str(action));
    let out = Capability { with: Resource { domain: String::from_str(domain), pointers }, can };
    assert(views(out.can@) =~= seq![action@]);
    out
}

/// The capability that grants `action` on everything within `domain`.
pub fn domain_capability(domain: &str, action: &str) -> (out: Capability)
    ensures
        out@ == spec_domain_capability(domain@, action@),
{
    let mut pointers: Vec<String> = Vec::new();
    pointers.push(String::from_str(WILD_CARD));
    assert(views(pointers@) =~= seq![WILD_CARD@]);
    capability(domain, pointers, action)
}

/// Everything: any action on any resource.
pub fn all_capability() -> (out: Capability)
    ensures
        out@ == spec_domain_capability(WILD_CARD@, WILD_CARD@),
{
    domain_capability(WILD_CARD, WILD_CARD)
}

/// `AUTHENTICATE` on everything within `agent`.
pub fn agent_auth_capability() -> (out: Capability)
    ensures
        out@ == spec_domain_capability(AGENT@, "AUTHENTICATE"@),
{
    domain_capability(AGENT, "AUTHENTICATE")
}

/// `READ` on everything within `agent`.
pub fn agent_read_capability() -> (out: Capability)
    ensures
        out@ == spec_domain_capability(AGENT@, READ@),
{
    domain_capability(AGENT, READ)
}

/// `CREATE` on everything within `agent`.
pub fn agent_create_capability() -> (out: Capability)
    ensures
        out@ == spec_domain_capability(AGENT@, CREATE@),
{
    domain_capability(AGENT, CREATE)
}

/// `UPDATE` on everything within `agent`.
pub fn agent_update_capability() -> (out: Capability)
    ensures
        out@ == spec_domain_capability(AGENT@, UPDATE@),
{
    domain_capability(AGENT, UPDATE)
}

/// `LOCK` on everything within `agent`.
pub fn agent_lock_capability() -> (out: Capability)
    ensures
        out@ == spec_domain_capability(AGENT@, "LOCK"@),
{
    domain_capability(AGENT, "LOCK")
}

/// `UNLOCK` on everything within `agent`.
pub fn agent_unlock_capability() -> (out: Capability)
    ensures
        out@ == spec_domain_capability(AGENT@, "UNLOCK"@),
{
    domain_capability(AGENT, "UNLOCK")
}

/// `PERMIT` on everything within `agent`.
pub fn agent_permit_capability() -> (out: Capability)
    ensures
        out@ == spec_domain_capability(AGENT@, "PERMIT"@),
{
    domain_capability(AGENT, "PERMIT")
}

/// `SUBSCRIBE` on everything within `agent`.
pub fn agent_subscribe_capability() -> (out: Capability)
    ensures
        out@ == spec_domain_capability(AGENT@, SUBSCRIBE@),
{
    domain_capability(AGENT, SUBSCRIBE)
}

/// `SIGN` on everything within `agent`.
pub fn agent_sign_capability() -> (out: Capability)
    ensures
        out@ == spec_domain_capability(AGENT@, "SIGN"@),
{
    domain_capability(AGENT, "SIGN")
}

/// `READ` on everything within `expression`.
pub fn expression_read_capability() -> (out: Capability)
    ensures
        out@ == spec_domain_capability(EXPRESSION@, READ@),
{
    domain_capability(EXPRESSION, READ)
}

/// `CREATE` on everything within `expression`.
pub fn expression_create_capability() -> (out: Capability)
    ensures
        out@ == spec_domain_capability(EXPRESSION@, CREATE@),
{
    domain_capability(EXPRESSION, CREATE)
}

/// `UPDATE` on everything within `expression`.
pub fn expression_update_capability() -> (out: Capability)
    ensures
        out@ == spec_domain_capability(EXPRESSION@, UPDATE@),
{
    domain_capability(EXPRESSION, UPDATE)
}

/// `READ` on everything within `language`.
pub fn language_read_capability() -> (out: Capability)
    ensures
        out@ == spec_domain_capability(LANGUAGE@, READ@),
{
    domain_capability(LANGUAGE, READ)
}

/// `CREATE` on everything within `language`.
pub fn language_create_capability() -> (out: Capability)
    ensures
        out@ == spec_domain_capability(LANGUAGE@, CREATE@),
{
    domain_capability(LANGUAGE, CREATE)
}

/// `UPDATE` on everything within `language`.
pub fn language_update_capability() -> (out: Capability)
    ensures
        out@ == spec_domain_capability(LANGUAGE@, UPDATE@),
{
    domain_capability(LANGUAGE, UPDATE)
}

/// `DELETE` on everything within `language`.
pub fn language_delete_capability() -> (out: Capability)
    ensures
        out@ == spec_domain_capability(LANGUAGE@, DELETE@),
{
    domain_capability(LANGUAGE, DELETE)
}

/// `CREATE` on everything within `perspective`.
pub fn perspective_create_capability() -> (out: Capability)
    ensures
        out@ == spec_domain_capability(PERSPECTIVE@, CREATE@),
{
    domain_capability(PERSPECTIVE, CREATE)
}

/// `SUBSCRIBE` on everything within `perspective`.
pub fn perspective_subscribe_capability() -> (out: Capability)
    ensures
        out@ == spec_domain_capability(PERSPECTIVE@, SUBSCRIBE@),
{
    domain_capability(PERSPECTIVE, SUBSCRIBE)
}

/// `CREATE` on everything within `neighbourhood`.
pub fn neighbourhood_create_capability() -> (out: Capability)
    ensures
        out@ == spec_domain_capability(NEIGHBOURHOOD@, CREATE@),
{
    domain_capability(NEIGHBOURHOOD, CREATE)
}

/// `READ` on everything within `neighbourhood`.
pub fn neighbourhood_read_capability() -> (out: Capability)
    ensures
        out@ == spec_domain_capability(NEIGHBOURHOOD@, READ@),
{
    domain_capability(NEIGHBOURHOOD, READ)
}

/// `UPDATE` on everything within `neighbourhood`.
pub fn neighbourhood_update_capability() -> (out: Capability)
    ensures
        out@ == spec_domain_capability(NEIGHBOURHOOD@, UPDATE@),
{
    domain_capability(NEIGHBOURHOOD, UPDATE)
}

/// `READ` on everything within `runtime.trusted_agents`.
pub fn runtime_trusted_agents_read_capability() -> (out: Capability)
    ensures
        out@ == spec_domain_capability(RUNTIME_TRUSTED_AGENTS@, READ@),
{
    domain_capability(RUNTIME_TRUSTED_AGENTS, READ)
}

/// `CREATE` on everything within `runtime.trusted_agents`.
pub fn runtime_trusted_agents_create_capability() -> (out: Capability)
    ensures
        out@ == spec_domain_capability(RUNTIME_TRUSTED_AGENTS@, CREATE@),
{
    domain_capability(RUNTIME_TRUSTED_AGENTS, CREATE)
}

/// `DELETE` on everything within `runtime.trusted_agents`.
pub fn runtime_trusted_agents_delete_capability() -> (out: Capability)
    ensures
        out@ == spec_domain_capability(RUNTIME_TRUSTED_AGENTS@, DELETE@),
{
    domain_capability(RUNTIME_TRUSTED_AGENTS, DELETE)
}

/// `READ` on everything within `runtime.known_link_languages`.
pub fn runtime_known_link_languages_read_capability() -> (out: Capability)
    ensures
        out@ == spec_domain_capability(RUNTIME_KNOWN_LINK_LANGUAGES@, READ@),
{
    domain_capability(RUNTIME_KNOWN_LINK_LANGUAGES, READ)
}

/// `CREATE` on everything within `runtime.known_link_languages`.
pub fn runtime_known_link_languages_create_capability() -> (out: Capability)
    ensures
        out@ == spec_domain_capability(RUNTIME_KNOWN_LINK_LANGUAGES@, CREATE@),
{
    domain_capability(RUNTIME_KNOWN_LINK_LANGUAGES, CREATE)
}

/// `DELETE` on everything within `runtime.known_link_languages`.
pub fn runtime_known_link_languages_delete_capability() -> (out: Capability)
    ensures
        out@ == spec_domain_capability(RUNTIME_KNOWN_LINK_LANGUAGES@, DELETE@),
{
    domain_capability(RUNTIME_KNOWN_LINK_LANGUAGES, DELETE)
}

/// `READ` on everything within `runtime.friends`.
pub fn runtime_friends_read_capability() -> (out: Capability)
    ensures
        out@ == spec_domain_capability(RUNTIME_FRIENDS@, READ@),
{
    domain_capability(RUNTIME_FRIENDS, READ)
}

/// `CREATE` on everything within `runtime.friends`.
pub fn runtime_friends_create_capability() -> (out: Capability)
    ensures
        out@ == spec_domain_capability(RUNTIME_FRIENDS@, CREATE@),
{
    domain_capability(RUNTIME_FRIENDS, CREATE)
}

/// `DELETE` on everything within `runtime.friends`.
pub fn runtime_friends_delete_capability() -> (out: Capability)
    ensures
        out@ == spec_domain_capability(RUNTIME_FRIENDS@, DELETE@),
{
    domain_capability(RUNTIME_FRIENDS, DELETE)
}

/// `READ` on everything within `runtime.friend_status`.
pub fn runtime_friend_status_read_capability() -> (out: Capability)
    ensures
        out@ == spec_domain_capability("runtime.friend_status"@, READ@),
{
    domain_capability("runtime.friend_status", READ)
}

/// `UPDATE` on everything within `runtime.my_status`.
pub fn runtime_my_status_update_capability() -> (out: Capability)
    ensures
        out@ == spec_domain_capability("runtime.my_status"@, UPDATE@),
{
    domain_capability("runtime.my_status", UPDATE)
}

/// `READ` on everything within `runtime.hc_agent_info`.
pub fn runtime_hc_agent_info_read_capability() -> (out: Capability)
    ensures
        out@ == spec_domain_capability("runtime.hc_agent_info"@, READ@),
{
    domain_capability("runtime.hc_agent_info", READ)
}

/// `CREATE` on everything within `runtime.hc_agent_info`.
pub fn runtime_hc_agent_info_create_capability() -> (out: Capability)
    ensures
        out@ == spec_domain_capability("runtime.hc_agent_info"@, CREATE@),
{
    domain_capability("runtime.hc_agent_info", CREATE)
}

/// `READ` on everything within `runtime.messages`.
pub fn runtime_messages_read_capability() -> (out: Capability)
    ensures
        out@ == spec_domain_capability(RUNTIME_MESSAGES@, READ@),
{
    domain_capability(RUNTIME_MESSAGES, READ)
}

/// `CREATE` on everything within `runtime.messages`.
pub fn runtime_messages_create_capability() -> (out: Capability)
    ensures
        out@ == spec_domain_capability(RUNTIME_MESSAGES@, CREATE@),
{
    domain_capability(RUNTIME_MESSAGES, CREATE)
}

/// `SUBSCRIBE` on everything within `runtime.messages`.
pub fn runtime_messages_subscribe_capability() -> (out: Capability)
    ensures
        out@ == spec_domain_capability(RUNTIME_MESSAGES@, SUBSCRIBE@),
{
    domain_capability(RUNTIME_MESSAGES, SUBSCRIBE)
}

/// `QUIT` on everything within `runtime`.
pub fn runtime_quit_capability() -> (out: Capability)
    ensures
        out@ == spec_domain_capability(RUNTIME@, "QUIT"@),
{
    domain_capability(RUNTIME, "QUIT")
}

/// `SUBSCRIBE` on everything within `runtime.exception`.
pub fn runtime_exception_subscribe_capability() -> (out: Capability)
    ensures
        out@ == spec_domain_capability("runtime.exception"@, SUBSCRIBE@),
{
    domain_capability("runtime.exception", SUBSCRIBE)
}

/// The capability to read the perspectives that `pointers` name.
pub fn perspective_query_capability(pointers: Vec<String>) -> (out: Capability)
    ensures
        out@ == spec_capability(PERSPECTIVE@, views(pointers@), READ@),
{
    capability(PERSPECTIVE, pointers, READ)
}

/// The capability to update the perspectives that `pointers` name.
pub fn perspective_update_capability(pointers: Vec<String>) -> (out: Capability)
    ensures
        out@ == spec_capability(PERSPECTIVE@, views(pointers@), UPDATE@),
{
    capability(PERSPECTIVE, pointers, UPDATE)
}

/// The capability to delete the perspectives that `pointers` name.
pub fn perspective_delete_capability(pointers: Vec<String>) -> (out: Capability)
    ensures
        out@ == spec_capability(PERSPECTIVE@, views(pointers@), DELETE@),
{
    capability(PERSPECTIVE, pointers, DELETE)
}

} // verus!
