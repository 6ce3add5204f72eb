//! The wire-level records exchanged with API callers.

use vstd::prelude::*;
use vstd::string::*;

verus! {

/// Replication state of a link.
#[derive(Debug, Clone, Copy, PartialEq, Eq, Structural)]
pub enum LinkStatus {
    Shared,
    Local,
}

/// The wire name of a link status.
pub open spec fn spec_status_name(status: LinkStatus) -> Seq<char> {
    match status {
        LinkStatus::Shared => "shared"@,
        LinkStatus::Local => "local"@,
    }
}

impl LinkStatus {
    /// The wire name of the status: `shared` or `local`.
    pub fn to_string(&self) -> (out: String)
        ensures
            out@ == spec_status_name(*self),
    {
        match self {
            LinkStatus::Shared => String::from_str("shared"),
            LinkStatus::Local => String::from_str("local"),
        }
    }
}

/// A link as a caller writes it.
#[derive(Debug, PartialEq, Eq)]
pub struct LinkInput {
    pub predicate: Option<String>,
    pub source: String,
    pub target: String,
}

/// A proof as a caller writes it; every part may be missing.
#[derive(Debug, PartialEq, Eq)]
pub struct ExpressionProofInput {
    pub invalid: Option<bool>,
    pub key: Option<String>,
    pub signature: Option<String>,
    pub valid: Option<bool>,
}

/// A link expression as a caller writes it.
#[derive(Debug, PartialEq, Eq)]
pub struct LinkExpressionInput {
    pub author: String,
    pub data: LinkInput,
    pub proof: ExpressionProofInput,
    pub timestamp: String,
    pub status: Option<LinkStatus>,
}

/// A perspective as a caller writes it.
#[derive(Debug, PartialEq, Eq)]
pub struct PerspectiveInput {
    pub links: Vec<LinkExpressionInput>,
}

/// A request to install a notification.
#[derive(Debug, PartialEq, Eq)]
pub struct NotificationInput {
    pub description: String,
    pub app_name: String,
    pub app_url: String,
    pub app_icon_path: String,
    pub trigger: String,
    pub perspective_ids: Vec<String>,
    pub webhook_url: String,
    pub webhook_auth: String,
}



/// What comes with every request: the caller's capability token.
#[derive(Debug, Clone, PartialEq, Eq)]
pub struct RequestContext {
    pub capability: String,
}

/// A resource on the wire.
#[derive(Debug, Clone, PartialEq, Eq)]
pub struct Resource {
    pub domain: String,
    pub pointers: Vec<String>,
}

/// A resource as a caller writes it.
#[derive(Debug, Clone, PartialEq, Eq)]
pub struct ResourceInput {
    pub domain: String,
    pub pointers: Vec<String>,
}

/// A capability on the wire.
#[derive(Debug, Clone, PartialEq, Eq)]
pub struct Capability {
    pub can: Vec<String>,
    pub with: Resource,
}

/// A capability as a caller writes it.
#[derive(Debug, Clone, PartialEq, Eq)]
pub struct CapabilityInput {
    pub can: Vec<String>,
    pub with: ResourceInput,
}

impl Capability {
    /// The capability of the capability model that this record describes.
    pub fn into_capability(self) -> (out: crate::capabilities::types::Capability)
        ensures
            out.can == self.can,
            out.with.domain == self.with.domain,
            out.with.pointers == self.with.pointers,
    {
        crate::capabilities::types::Capability {
            with: crate::capabilities::types::Resource {
                domain: self.with.domain,
                pointers: self.with.pointers,
            },
            can: self.can,
        }
    }
}

impl CapabilityInput {
    /// The capability of the capability model that this input describes.
    pub fn into_capability(self) -> (out: crate::capabilities::types::Capability)
        ensures
            out.can == self.can,
            out.with.domain == self.with.domain,
            out.with.pointers == self.with.pointers,
    {
        crate::capabilities::types::Capability {
            with: crate::capabilities::types::Resource {
                domain: self.with.domain,
                pointers: self.with.pointers,
            },
            can: self.can,
        }
    }
}

/// A proof on the wire; every part may be missing.
#[derive(Debug, Clone, PartialEq, Eq)]
pub struct ExpressionProof {
    pub invalid: Option<bool>,
    pub key: Option<String>,
    pub signature: Option<String>,
    pub valid: Option<bool>,
}

/// A link on the wire.
#[derive(Debug, Clone, PartialEq, Eq)]
pub struct Link {
    pub predicate: Option<String>,
    pub source: String,
    pub target: String,
}

/// A link expression on the wire.
#[derive(Debug, Clone, PartialEq, Eq)]
pub struct LinkExpression {
    pub author: String,
    pub data: Link,
    pub proof: ExpressionProof,
    pub timestamp: String,
    pub status: Option<LinkStatus>,
}

/// The links that a mutation added and removed.
#[derive(Debug, Clone, PartialEq, Eq)]
pub struct LinkExpressionMutations {
    pub additions: Vec<LinkExpression>,
    pub removals: Vec<LinkExpression>,
}

/// A link before and after an update.
#[derive(Debug, Clone, PartialEq, Eq)]
pub struct LinkExpressionUpdated {
    pub new_link: LinkExpression,
    pub old_link: LinkExpression,
}

/// A link before and after an update, as subscribers see it.
#[derive(Debug, Clone, PartialEq, Eq)]
pub struct LinkUpdated {
    pub new_link: LinkExpression,
    pub old_link: LinkExpression,
}

/// The links to add and to remove in one mutation.
#[derive(Debug, PartialEq, Eq)]
pub struct LinkMutations {
    pub additions: Vec<LinkInput>,
    pub removals: Vec<LinkExpressionInput>,
}

/// A perspective on the wire.
#[derive(Debug, Clone, PartialEq, Eq)]
pub struct Perspective {
    pub links: Vec<LinkExpression>,
}

/// A signed perspective on the wire.
#[derive(Debug, Clone, PartialEq, Eq)]
pub struct PerspectiveExpression {
    pub author: String,
    pub data: Perspective,
    pub proof: ExpressionProof,
    pub timestamp: String,
}

/// A perspective of unsigned links, as a caller writes it.
#[derive(Debug, PartialEq, Eq)]
pub struct PerspectiveUnsignedInput {
    pub links: Vec<LinkInput>,
}

/// A neighbourhood on the wire.
#[derive(Debug, Clone, PartialEq, Eq)]
pub struct Neighbourhood {
    pub link_language: String,
    pub meta: Perspective,
}

/// A perspective as the runtime lists it.
#[derive(Debug, Clone, PartialEq, Eq)]
pub struct PerspectiveHandle {
    pub name: Option<String>,
    pub neighbourhood: Option<Neighbourhood>,
    pub shared_url: Option<String>,
    pub state: String,
    pub uuid: String,
}

/// An agent.
#[derive(Debug, Clone, PartialEq, Eq)]
pub struct Agent {
    pub did: String,
    pub direct_message_language: Option<String>,
    pub perspective: Option<Perspective>,
}

/// A signature with the key that made it.
#[derive(Debug, Clone, PartialEq, Eq)]
pub struct AgentSignature {
    pub public_key: String,
    pub signature: String,
}

/// The state of the local agent.
#[derive(Debug, Clone, PartialEq, Eq)]
pub struct AgentStatus {
    pub did: Option<String>,
    pub did_document: Option<String>,
    pub error: Option<String>,
    pub is_initialized: bool,
    pub is_unlocked: bool,
}

/// What an application asked for when it authenticated.
#[derive(Debug, Clone, PartialEq, Eq)]
pub struct AuthInfo {
    pub app_desc: String,
    pub app_icon_path: Option<String>,
    pub app_name: String,
    pub app_url: String,
    pub capabilities: Vec<Capability>,
}

/// What an application asks for when it authenticates.
#[derive(Debug, Clone, PartialEq, Eq)]
pub struct AuthInfoInput {
    pub app_desc: String,
    pub app_domain: String,
    pub app_icon_path: Option<String>,
    pub app_name: String,
    pub app_url: Option<String>,
    pub capabilities: Option<Vec<CapabilityInput>>,
}

/// An authenticated application.
#[derive(Debug, Clone, PartialEq, Eq)]
pub struct Apps {
    pub auth: AuthInfo,
    pub request_id: String,
    pub revoked: Option<bool>,
    pub token: String,
}

/// The proof that a device key and a DID belong together.
#[derive(Debug, Clone, PartialEq, Eq)]
pub struct EntanglementProof {
    pub device_key: String,
    pub device_key_signed_by_did: String,
    pub device_key_type: String,
    pub did: String,
    pub did_signed_by_device_key: Option<String>,
    pub did_signing_key_id: String,
}

/// An entanglement proof as a caller writes it.
#[derive(Debug, Clone, PartialEq, Eq)]
pub struct EntanglementProofInput {
    pub device_key: String,
    pub device_key_signed_by_did: String,
    pub device_key_type: String,
    pub did: String,
    pub did_signed_by_device_key: String,
    pub did_signing_key_id: String,
}

/// An exception that the runtime reports. The kind of exception is a code.
#[derive(Debug, Clone, PartialEq, Eq)]
pub struct ExceptionInfo {
    pub addon: Option<String>,
    pub message: String,
    pub title: String,
    pub exception_type: i64,
}

/// The code of an icon.
#[derive(Debug, Clone, PartialEq, Eq)]
pub struct Icon {
    pub code: Option<String>,
}

/// A language, by address and name.
#[derive(Debug, Clone, PartialEq, Eq)]
pub struct LanguageRef {
    pub address: String,
    pub name: String,
}

/// An expression as its language renders it.
#[derive(Debug, Clone, PartialEq, Eq)]
pub struct ExpressionRendered {
    pub author: String,
    pub data: String,
    pub icon: Icon,
    pub language: LanguageRef,
    pub proof: ExpressionProof,
    pub timestamp: String,
}

/// A call of an interaction, its parameters as text.
#[derive(Debug, Clone, PartialEq, Eq)]
pub struct InteractionCall {
    pub name: String,
    pub parameters_stringified: String,
}

/// One parameter of an interaction.
#[derive(Debug, Clone, PartialEq, Eq)]
pub struct InteractionParameter {
    pub name: String,
    pub type_: String,
}

/// What an interaction is called and what it takes.
#[derive(Debug, Clone, PartialEq, Eq)]
pub struct InteractionMeta {
    pub label: String,
    pub name: String,
    pub parameters: Vec<InteractionParameter>,
}

/// An installed language.
#[derive(Debug, Clone, PartialEq, Eq)]
pub struct LanguageHandle {
    pub address: String,
    pub constructor_icon: Option<Icon>,
    pub icon: Option<Icon>,
    pub name: String,
    pub settings: Option<String>,
    pub settings_icon: Option<Icon>,
}

/// What is known of a language.
#[derive(Debug, Clone, PartialEq, Eq)]
pub struct LanguageMeta {
    pub address: String,
    pub author: String,
    pub description: Option<String>,
    pub name: String,
    pub possible_template_params: Option<Vec<String>>,
    pub source_code_link: Option<String>,
    pub template_applied_params: Option<String>,
    pub template_source_language_address: Option<String>,
    pub templated: Option<bool>,
}

/// What a publisher says of a language.
#[derive(Debug, Clone, PartialEq, Eq)]
pub struct LanguageMetaInput {
    pub description: String,
    pub name: String,
    pub possible_template_params: Option<Vec<String>>,
    pub source_code_link: Option<String>,
}

/// An agent that is online, with its status.
#[derive(Debug, Clone, PartialEq, Eq)]
pub struct OnlineAgent {
    pub did: String,
    pub status: PerspectiveExpression,
}

/// Version and state of the runtime.
#[derive(Debug, Clone, PartialEq, Eq)]
pub struct RuntimeInfo {
    pub ad4m_executor_version: String,
    pub is_initialized: bool,
    pub is_unlocked: bool,
}

/// A message that was sent, with its recipient.
#[derive(Debug, Clone, PartialEq, Eq)]
pub struct SentMessage {
    pub message: PerspectiveExpression,
    pub recipient: String,
}

/// A signal received in a neighbourhood, with the perspective it belongs to.
#[derive(Debug, Clone, PartialEq, Eq)]
pub struct NeighbourhoodSignalFilter {
    pub perspective: PerspectiveHandle,
    pub signal: PerspectiveExpression,
}

/// A link added to or removed from a perspective, with that perspective.
#[derive(Debug, Clone, PartialEq, Eq)]
pub struct PerspectiveLinkFilter {
    pub perspective: PerspectiveHandle,
    pub link: LinkExpression,
}

/// A link updated in a perspective, with that perspective.
#[derive(Debug, Clone, PartialEq, Eq)]
pub struct PerspectiveLinkUpdatedFilter {
    pub new_link: LinkExpression,
    pub old_link: LinkExpression,
    pub perspective: PerspectiveHandle,
}

/// The new sync state of a perspective, with that perspective.
#[derive(Debug, Clone, PartialEq, Eq)]
pub struct PerspectiveStateFilter {
    pub state: String,
    pub perspective: PerspectiveHandle,
}

/// What a call into the script engine came back with.
#[derive(Debug, Clone, PartialEq, Eq)]
pub enum JsResultType<T> {
    Value(T),
    Error(String),
}

impl<T> JsResultType<T> {
    /// The outcome as a result: the value, or the error text.
    pub fn get_graphql_result(self) -> (out: Result<T, String>)
        ensures
            out == (match self {
                JsResultType::Value(value) => Ok::<T, String>(value),
                JsResultType::Error(error) => Err::<T, String>(error),
            }),
    {
        match self {
            JsResultType::Value(result) => Ok(result),
            JsResultType::Error(error) => Err(error),
        }
    }
}

/// What a subscriber gets of an event.
pub trait GetValue: Sized {
    type Value;

    /// The part of the event that subscribers get.
    spec fn value(self) -> Self::Value;

    /// Takes the part of the event that subscribers get.
    fn get_value(self) -> (out: Self::Value)
        ensures
            out == self.value(),
    ;
}

/// The key by which subscribers may filter an event.
pub trait GetFilter {
    /// The filter key of the event, none where events of this kind have no
    /// filter.
    spec fn filter_key(&self) -> Option<String>;

    /// The filter key of the event.
    fn get_filter(&self) -> (out: Option<String>)
        ensures
            out == self.filter_key(),
    ;
}

impl GetValue for Option<Apps> {
    type Value = Option<Apps>;

    open spec fn value(self) -> Option<Apps> {
        self
    }

    fn get_value(self) -> (out: Option<Apps>) {
        self
    }
}

impl GetFilter for Option<Apps> {
    open spec fn filter_key(&self) -> Option<String> {
        None
    }

    fn get_filter(&self) -> (out: Option<String>) {
        None
    }
}

impl GetValue for NeighbourhoodSignalFilter {
    type Value = PerspectiveExpression;

    open spec fn value(self) -> PerspectiveExpression {
        self.signal
    }

    fn get_value(self) -> (out: PerspectiveExpression) {
        self.signal
    }
}

impl GetFilter for NeighbourhoodSignalFilter {
    open spec fn filter_key(&self) -> Option<String> {
        Some(self.perspective.uuid)
    }

    fn get_filter(&self) -> (out: Option<String>) {
        Some(self.perspective.uuid.clone())
    }
}

impl GetValue for PerspectiveLinkFilter {
    type Value = LinkExpression;

    open spec fn value(self) -> LinkExpression {
        self.link
    }

    fn get_value(self) -> (out: LinkExpression) {
        self.link
    }
}

impl GetFilter for PerspectiveLinkFilter {
    open spec fn filter_key(&self) -> Option<String> {
        Some(self.perspective.uuid)
    }

    fn get_filter(&self) -> (out: Option<String>) {
        Some(self.perspective.uuid.clone())
    }
}

impl GetValue for PerspectiveLinkUpdatedFilter {
    type Value = LinkUpdated;

    open spec fn value(self) -> LinkUpdated {
        LinkUpdated { new_link: self.new_link, old_link: self.old_link }
    }

    fn get_value(self) -> (out: LinkUpdated) {
        LinkUpdated { new_link: self.new_link, old_link: self.old_link }
    }
}

impl GetFilter for PerspectiveLinkUpdatedFilter {
    open spec fn filter_key(&self) -> Option<String> {
        Some(self.perspective.uuid)
    }

    fn get_filter(&self) -> (out: Option<String>) {
        Some(self.perspective.uuid.clone())
    }
}

impl GetValue for PerspectiveStateFilter {
    type Value = String;

    open spec fn value(self) -> String {
        self.state
    }

    fn get_value(self) -> (out: String) {
        self.state
    }
}

impl GetFilter for PerspectiveStateFilter {
    open spec fn filter_key(&self) -> Option<String> {
        Some(self.perspective.uuid)
    }

    fn get_filter(&self) -> (out: Option<String>) {
        Some(self.perspective.uuid.clone())
    }
}

impl GetValue for AgentStatus {
    type Value = AgentStatus;

    open spec fn value(self) -> AgentStatus {
        self
    }

    fn get_value(self) -> (out: AgentStatus) {
        self
    }
}

impl GetFilter for AgentStatus {
    open spec fn filter_key(&self) -> Option<String> {
        None
    }

    fn get_filter(&self) -> (out: Option<String>) {
        None
    }
}

impl GetValue for Agent {
    type Value = Agent;

    open spec fn value(self) -> Agent {
        self
    }

    fn get_value(self) -> (out: Agent) {
        self
    }
}

impl GetFilter for Agent {
    open spec fn filter_key(&self) -> Option<String> {
        None
    }

    fn get_filter(&self) -> (out: Option<String>) {
        None
    }
}

impl GetValue for ExceptionInfo {
    type Value = ExceptionInfo;

    open spec fn value(self) -> ExceptionInfo {
        self
    }

    fn get_value(self) -> (out: ExceptionInfo) {
        self
    }
}

impl GetFilter for ExceptionInfo {
    open spec fn filter_key(&self) -> Option<String> {
        None
    }

    fn get_filter(&self) -> (out: Option<String>) {
        None
    }
}

impl GetValue for PerspectiveHandle {
    type Value = PerspectiveHandle;

    open spec fn value(self) -> PerspectiveHandle {
        self
    }

    fn get_value(self) -> (out: PerspectiveHandle) {
        self
    }
}

impl GetFilter for PerspectiveHandle {
    open spec fn filter_key(&self) -> Option<String> {
        None
    }

    fn get_filter(&self) -> (out: Option<String>) {
        None
    }
}

impl GetValue for String {
    type Value = String;

    open spec fn value(self) -> String {
        self
    }

    fn get_value(self) -> (out: String) {
        self
    }
}

impl GetFilter for String {
    open spec fn filter_key(&self) -> Option<String> {
        None
    }

    fn get_filter(&self) -> (out: Option<String>) {
        None
    }
}

impl GetValue for PerspectiveExpression {
    type Value = PerspectiveExpression;

    open spec fn value(self) -> PerspectiveExpression {
        self
    }

    fn get_value(self) -> (out: PerspectiveExpression) {
        self
    }
}

impl GetFilter for PerspectiveExpression {
    open spec fn filter_key(&self) -> Option<String> {
        None
    }

    fn get_filter(&self) -> (out: Option<String>) {
        None
    }
}

} // verus!
