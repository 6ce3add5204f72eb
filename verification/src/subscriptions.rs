//! The subscription gateway: the authorisation in front of the event
//! bus, and what a subscriber gets of each message.
//!
//! Opening a subscription takes three steps, all before the first item: the
//! caller's capabilities are resolved, they are checked against what the
//! kind of subscription requires (every kind requires one capability), and
//! only then a subscriber is registered
//! on the bus. A failure of the first or the second step is the only item of
//! the subscription; no subscriber is registered.

use crate::capabilities::check::{check_capability, spec_authorized, spec_satisfies};
use crate::capabilities::defs::{
    capability, domain_capability, spec_capability, spec_domain_capability, AGENT, PERSPECTIVE,
    RUNTIME_MESSAGES, SUBSCRIBE,
};
use crate::capabilities::types::{Capability, CapabilityView, Unauthorized};
use crate::graphql_types::{GetFilter, GetValue};
use crate::pubsub::{
    PubSub, SinkView, AGENT_STATUS_CHANGED_TOPIC, AGENT_UPDATED_TOPIC, APPS_CHANGED,
    EXCEPTION_OCCURRED_TOPIC, NEIGHBOURHOOD_SIGNAL_TOPIC, PERSPECTIVE_ADDED_TOPIC,
    PERSPECTIVE_LINK_ADDED_TOPIC, PERSPECTIVE_LINK_REMOVED_TOPIC, PERSPECTIVE_LINK_UPDATED_TOPIC,
    PERSPECTIVE_REMOVED_TOPIC, PERSPECTIVE_SYNC_STATE_CHANGE_TOPIC, PERSPECTIVE_UPDATED_TOPIC,
    RUNTIME_MESSAGED_RECEIVED_TOPIC,
};
use crate::text::{opt_view, str_eq, views};
use vstd::prelude::*;
use vstd::string::*;

verus! {

/// The domain of the capability to subscribe to runtime exceptions.
pub const RUNTIME_EXCEPTION: &'static str = "runtime.exception";

/// The kinds of subscription.
#[derive(Debug, Clone, Copy, PartialEq, Eq, Structural)]
pub enum SubscriptionKind {
    AgentStatusChanged,
    AgentAppsChanged,
    AgentUpdated,
    ExceptionOccurred,
    NeighbourhoodSignal,
    PerspectiveAdded,
    PerspectiveLinkAdded,
    PerspectiveLinkRemoved,
    PerspectiveLinkUpdated,
    PerspectiveRemoved,
    PerspectiveSyncStateChange,
    PerspectiveUpdated,
    RuntimeMessageReceived,
}

/// The topic that a kind of subscription listens to.
pub open spec fn spec_topic(kind: SubscriptionKind) -> Seq<char> {
    match kind {
        SubscriptionKind::AgentStatusChanged => AGENT_STATUS_CHANGED_TOPIC@,
        SubscriptionKind::AgentAppsChanged => APPS_CHANGED@,
        SubscriptionKind::AgentUpdated => AGENT_UPDATED_TOPIC@,
        SubscriptionKind::ExceptionOccurred => EXCEPTION_OCCURRED_TOPIC@,
        SubscriptionKind::NeighbourhoodSignal => NEIGHBOURHOOD_SIGNAL_TOPIC@,
        SubscriptionKind::PerspectiveAdded => PERSPECTIVE_ADDED_TOPIC@,
        SubscriptionKind::PerspectiveLinkAdded => PERSPECTIVE_LINK_ADDED_TOPIC@,
        SubscriptionKind::PerspectiveLinkRemoved => PERSPECTIVE_LINK_REMOVED_TOPIC@,
        SubscriptionKind::PerspectiveLinkUpdated => PERSPECTIVE_LINK_UPDATED_TOPIC@,
        SubscriptionKind::PerspectiveRemoved => PERSPECTIVE_REMOVED_TOPIC@,
        SubscriptionKind::PerspectiveSyncStateChange => PERSPECTIVE_SYNC_STATE_CHANGE_TOPIC@,
        SubscriptionKind::PerspectiveUpdated => PERSPECTIVE_UPDATED_TOPIC@,
        SubscriptionKind::RuntimeMessageReceived => RUNTIME_MESSAGED_RECEIVED_TOPIC@,
    }
}

/// The capability to subscribe to the events of a perspective: of the one
/// that the filter key names, of all where there is no filter key.
pub open spec fn spec_perspective_subscription(filter: Option<Seq<char>>) -> CapabilityView {
    match filter {
        Some(uuid) => spec_capability(PERSPECTIVE@, seq![uuid], SUBSCRIBE@),
        None => spec_domain_capability(PERSPECTIVE@, SUBSCRIBE@),
    }
}

/// The capability that a kind of subscription requires: to subscribe on
/// the domain of what the events are about.
pub open spec fn spec_required(kind: SubscriptionKind, filter: Option<Seq<char>>) -> CapabilityView {
    match kind {
        SubscriptionKind::AgentStatusChanged => spec_domain_capability(AGENT@, SUBSCRIBE@),
        SubscriptionKind::AgentAppsChanged => spec_domain_capability(AGENT@, SUBSCRIBE@),
        SubscriptionKind::AgentUpdated => spec_domain_capability(AGENT@, SUBSCRIBE@),
        SubscriptionKind::ExceptionOccurred => spec_domain_capability(
            RUNTIME_EXCEPTION@,
            SUBSCRIBE@,
        ),
        SubscriptionKind::NeighbourhoodSignal => spec_domain_capability(
            RUNTIME_MESSAGES@,
            SUBSCRIBE@,
        ),
        SubscriptionKind::PerspectiveLinkAdded => spec_perspective_subscription(filter),
        SubscriptionKind::PerspectiveLinkRemoved => spec_perspective_subscription(filter),
        SubscriptionKind::PerspectiveLinkUpdated => spec_perspective_subscription(filter),
        SubscriptionKind::PerspectiveSyncStateChange => spec_perspective_subscription(filter),
        SubscriptionKind::PerspectiveAdded => spec_domain_capability(PERSPECTIVE@, SUBSCRIBE@),
        SubscriptionKind::PerspectiveRemoved => spec_domain_capability(PERSPECTIVE@, SUBSCRIBE@),
        SubscriptionKind::PerspectiveUpdated => spec_domain_capability(PERSPECTIVE@, SUBSCRIBE@),
        SubscriptionKind::RuntimeMessageReceived => spec_domain_capability(
            PERSPECTIVE@,
            SUBSCRIBE@,
        ),
    }
}

impl SubscriptionKind {
    /// The topic that this kind of subscription listens to.
    pub fn topic(&self) -> (out: &'static str)
        ensures
            out@ == spec_topic(*self),
    {
        match self {
            SubscriptionKind::AgentStatusChanged => AGENT_STATUS_CHANGED_TOPIC,
            SubscriptionKind::AgentAppsChanged => APPS_CHANGED,
            SubscriptionKind::AgentUpdated => AGENT_UPDATED_TOPIC,
            SubscriptionKind::ExceptionOccurred => EXCEPTION_OCCURRED_TOPIC,
            SubscriptionKind::NeighbourhoodSignal => NEIGHBOURHOOD_SIGNAL_TOPIC,
            SubscriptionKind::PerspectiveAdded => PERSPECTIVE_ADDED_TOPIC,
            SubscriptionKind::PerspectiveLinkAdded => PERSPECTIVE_LINK_ADDED_TOPIC,
            SubscriptionKind::PerspectiveLinkRemoved => PERSPECTIVE_LINK_REMOVED_TOPIC,
            SubscriptionKind::PerspectiveLinkUpdated => PERSPECTIVE_LINK_UPDATED_TOPIC,
            SubscriptionKind::PerspectiveRemoved => PERSPECTIVE_REMOVED_TOPIC,
            SubscriptionKind::PerspectiveSyncStateChange => PERSPECTIVE_SYNC_STATE_CHANGE_TOPIC,
            SubscriptionKind::PerspectiveUpdated => PERSPECTIVE_UPDATED_TOPIC,
            SubscriptionKind::RuntimeMessageReceived => RUNTIME_MESSAGED_RECEIVED_TOPIC,
        }
    }

    /// The capability that this kind of subscription requires.
    pub fn required_capability(&self, filter: &Option<String>) -> (out: Capability)
        ensures
            out@ == spec_required(*self, opt_view(*filter)),
    {
        match self {
            SubscriptionKind::AgentStatusChanged => domain_capability(AGENT, SUBSCRIBE),
            SubscriptionKind::AgentAppsChanged => domain_capability(AGENT, SUBSCRIBE),
            SubscriptionKind::AgentUpdated => domain_capability(AGENT, SUBSCRIBE),
            SubscriptionKind::ExceptionOccurred => domain_capability(RUNTIME_EXCEPTION, SUBSCRIBE),
            SubscriptionKind::NeighbourhoodSignal => domain_capability(RUNTIME_MESSAGES, SUBSCRIBE),
            SubscriptionKind::PerspectiveLinkAdded => perspective_subscription(filter),
            SubscriptionKind::PerspectiveLinkRemoved => perspective_subscription(filter),
            SubscriptionKind::PerspectiveLinkUpdated => perspective_subscription(filter),
            SubscriptionKind::PerspectiveSyncStateChange => perspective_subscription(filter),
            SubscriptionKind::PerspectiveAdded => domain_capability(PERSPECTIVE, SUBSCRIBE),
            SubscriptionKind::PerspectiveRemoved => domain_capability(PERSPECTIVE, SUBSCRIBE),
            SubscriptionKind::PerspectiveUpdated => domain_capability(PERSPECTIVE, SUBSCRIBE),
            SubscriptionKind::RuntimeMessageReceived => domain_capability(PERSPECTIVE, SUBSCRIBE),
        }
    }
}

fn perspective_subscription(filter: &Option<String>) -> (out: Capability)
    ensures
        out@ == spec_perspective_subscription(opt_view(*filter)),
{
    match filter {
        Some(uuid) => {
            let mut pointers: Vec<String> = Vec::new();
            pointers.push(uuid.clone());
            assert(views(pointers@) =~= seq![uuid@]);
            capability(PERSPECTIVE, pointers, SUBSCRIBE)
        },
        None => domain_capability(PERSPECTIVE, SUBSCRIBE),
    }
}

/// Why a subscription yields an error.
#[derive(Debug)]
pub enum SubscriptionError {
    /// The caller's capabilities could not be resolved.
    CapabilityResolution(String),
    /// The caller's capabilities do not cover what the subscription requires.
    Unauthorized(Unauthorized),
    /// A message of the bus could not be read as an event.
    Serialization(String),
}

/// The mathematical value of a [`SubscriptionError`].
pub enum SubscriptionErrorView {
    CapabilityResolution(Seq<char>),
    Unauthorized { domain: Seq<char>, action: Seq<char> },
    Serialization(Seq<char>),
}

impl View for SubscriptionError {
    type V = SubscriptionErrorView;

    open spec fn view(&self) -> SubscriptionErrorView {
        match self {
            SubscriptionError::CapabilityResolution(reason) => {
                SubscriptionErrorView::CapabilityResolution(reason@)
            },
            SubscriptionError::Unauthorized(e) => SubscriptionErrorView::Unauthorized {
                domain: e.domain@,
                action: e.action@,
            },
            SubscriptionError::Serialization(reason) => SubscriptionErrorView::Serialization(
                reason@,
            ),
        }
    }
}

/// Whether a subscription may be opened: the capabilities resolved, and
/// they satisfy what the kind requires. Otherwise, the error that is the
/// subscription's only item.
pub open spec fn spec_may_open(
    granted: Result<Seq<CapabilityView>, Seq<char>>,
    kind: SubscriptionKind,
    filter: Option<Seq<char>>,
) -> Result<(), SubscriptionErrorView> {
    match granted {
        Err(reason) => Err(SubscriptionErrorView::CapabilityResolution(reason)),
        Ok(capabilities) => if spec_satisfies(capabilities, spec_required(kind, filter)) {
            Ok(())
        } else {
            Err(
                SubscriptionErrorView::Unauthorized {
                    domain: spec_required(kind, filter).with.domain,
                    action: SUBSCRIBE@,
                },
            )
        },
    }
}

/// The resolved capabilities, or the reason why they did not resolve, as
/// mathematical values.
pub open spec fn spec_granted(granted: Result<Vec<Capability>, String>) -> Result<
    Seq<CapabilityView>,
    Seq<char>,
> {
    match granted {
        Ok(capabilities) => Ok(views(capabilities@)),
        Err(reason) => Err(reason@),
    }
}

/// Every requirement of a subscription lists exactly the action to
/// subscribe.
pub proof fn lemma_required_action(kind: SubscriptionKind, filter: Option<Seq<char>>)
    ensures
        spec_required(kind, filter).can == seq![SUBSCRIBE@],
{
}

/// Whether a subscription of the given kind may be opened.
pub fn may_open(
    granted: &Result<Vec<Capability>, String>,
    kind: SubscriptionKind,
    filter: &Option<String>,
) -> (out: Result<(), SubscriptionError>)
    ensures
        out is Ok <==> spec_may_open(spec_granted(*granted), kind, opt_view(*filter)) is Ok,
        out matches Err(e) ==> e@ == spec_may_open(spec_granted(*granted), kind, opt_view(*filter))->Err_0,
{
    let capabilities = match granted {
        Ok(capabilities) => capabilities,
        Err(reason) => {
            return Err(SubscriptionError::CapabilityResolution(reason.clone()));
        },
    };
    let required = kind.required_capability(filter);
    proof {
        lemma_required_action(kind, opt_view(*filter));
    }
    match check_capability(capabilities, &required) {
        Ok(()) => Ok(()),
        Err(e) => {
            assert(e.action@ == SUBSCRIBE@);
            Err(SubscriptionError::Unauthorized(e))
        },
    }
}

/// A subscriber: its handle on the bus, the filter key it asked for, and
/// whether its sequence has ended.
#[derive(Debug, PartialEq, Eq)]
pub struct Subscriber {
    pub handle: u64,
    pub filter: Option<String>,
    pub ended: bool,
}

/// What a subscriber with the given filter gets of an event. Without a
/// filter it gets the value of every event. With one it gets the value of
/// the events whose filter key is the filter; events with another key, and
/// events of a kind that has no filter key, are dropped.
pub open spec fn spec_yield<T: GetValue + GetFilter>(event: T, filter: Option<String>) -> Option<
    T::Value,
> {
    match filter {
        None => Some(event.value()),
        Some(wanted) => match event.filter_key() {
            Some(key) => if key@ == wanted@ {
                Some(event.value())
            } else {
                None
            },
            None => None,
        },
    }
}

impl Subscriber {
    /// What the subscriber yields for one message taken from the bus,
    /// given what reading the message as an event came to.
    ///
    /// A subscriber whose sequence has ended yields nothing. A message that
    /// could not be read yields one error and ends the sequence. An event
    /// yields its value, if it passes the filter.
    pub fn on_message<T: GetValue + GetFilter>(&mut self, decoded: Result<T, String>) -> (out:
        Option<Result<T::Value, SubscriptionError>>)
        ensures
            final(self).handle == old(self).handle,
            final(self).filter == old(self).filter,
            old(self).ended ==> out is None && final(self).ended,
            !old(self).ended ==> match decoded {
                Err(reason) => {
                    &&& final(self).ended
                    &&& out matches Some(Err(e))
                    &&& e@ == SubscriptionErrorView::Serialization(reason@)
                },
                Ok(event) => {
                    &&& !final(self).ended
                    &&& match spec_yield(event, old(self).filter) {
                        Some(value) => out matches Some(Ok(v)) && v == value,
                        None => out is None,
                    }
                },
            },
    {
        if self.ended {
            return None;
        }
        match decoded {
            Err(reason) => {
                self.ended = true;
                Some(Err(SubscriptionError::Serialization(reason)))
            },
            Ok(event) => {
                match &self.filter {
                    Some(wanted) => {
                        match event.get_filter() {
                            Some(key) => {
                                if !str_eq(key.as_str(), wanted.as_str()) {
                                    return None;
                                }
                            },
                            None => {
                                return None;
                            },
                        }
                    },
                    None => {},
                }
                Some(Ok(event.get_value()))
            },
        }
    }
}

/// Registers a subscriber of `topic` on the bus, with the filter it asked
/// for.
pub fn subscribe_and_process(bus: &mut PubSub, topic: &str, filter: Option<String>) -> (out:
    Subscriber)
    requires
        old(bus).well_formed(),
        old(bus).next_handle() < u64::MAX,
    ensures
        out.handle == old(bus).next_handle(),
        out.filter == filter,
        !out.ended,
        final(bus)@ == old(bus)@.push(SinkView { id: out.handle, topic: topic@, pending: None }),
        final(bus).next_handle() == out.handle + 1,
        final(bus).well_formed(),
{
    let handle = bus.subscribe(topic);
    Subscriber { handle, filter, ended: false }
}

/// What opening a subscription comes to: the refusal and an untouched
/// bus, or a live subscriber registered on the topic of the kind.
pub open spec fn opened(
    before: PubSub,
    after: PubSub,
    granted: Result<Vec<Capability>, String>,
    kind: SubscriptionKind,
    filter: Option<String>,
    out: Result<Subscriber, SubscriptionError>,
) -> bool {
    &&& after.well_formed()
    &&& out is Ok <==> spec_may_open(spec_granted(granted), kind, opt_view(filter)) is Ok
    &&& out matches Err(e) ==> {
        &&& e@ == spec_may_open(spec_granted(granted), kind, opt_view(filter))->Err_0
        &&& after@ == before@
        &&& after.next_handle() == before.next_handle()
    }
    &&& out matches Ok(subscriber) ==> {
        &&& subscriber.handle == before.next_handle()
        &&& subscriber.filter == filter
        &&& !subscriber.ended
        &&& after@ == before@.push(
            SinkView { id: subscriber.handle, topic: spec_topic(kind), pending: None },
        )
        &&& after.next_handle() == subscriber.handle + 1
    }
}

/// Opens a subscription of the given kind for a caller whose capabilities
/// resolved to `granted`. After a refusal the bus is as it was.
pub fn open_subscription(
    bus: &mut PubSub,
    granted: Result<Vec<Capability>, String>,
    kind: SubscriptionKind,
    filter: Option<String>,
) -> (out: Result<Subscriber, SubscriptionError>)
    requires
        old(bus).well_formed(),
        old(bus).next_handle() < u64::MAX,
    ensures
        opened(*old(bus), *final(bus), granted, kind, filter, out),
{
    match may_open(&granted, kind, &filter) {
        Ok(()) => Ok(subscribe_and_process(bus, kind.topic(), filter)),
        Err(e) => Err(e),
    }
}

/// The subscriptions that callers can open, one method for each kind.
pub struct Subscription;

impl Subscription {
    /// Subscribes to the status of the local agent.
    pub fn agent_status_changed(bus: &mut PubSub, granted: Result<Vec<Capability>, String>) -> (out: Result<
        Subscriber,
        SubscriptionError,
    >)
        requires
            old(bus).well_formed(),
            old(bus).next_handle() < u64::MAX,
        ensures
            opened(*old(bus), *final(bus), granted, SubscriptionKind::AgentStatusChanged, None, out),
    {
        open_subscription(bus, granted, SubscriptionKind::AgentStatusChanged, None)
    }

    /// Subscribes to the authenticated applications.
    pub fn agent_apps_changed(bus: &mut PubSub, granted: Result<Vec<Capability>, String>) -> (out: Result<
        Subscriber,
        SubscriptionError,
    >)
        requires
            old(bus).well_formed(),
            old(bus).next_handle() < u64::MAX,
        ensures
            opened(*old(bus), *final(bus), granted, SubscriptionKind::AgentAppsChanged, None, out),
    {
        open_subscription(bus, granted, SubscriptionKind::AgentAppsChanged, None)
    }

    /// Subscribes to the local agent.
    pub fn agent_updated(bus: &mut PubSub, granted: Result<Vec<Capability>, String>) -> (out: Result<
        Subscriber,
        SubscriptionError,
    >)
        requires
            old(bus).well_formed(),
            old(bus).next_handle() < u64::MAX,
        ensures
            opened(*old(bus), *final(bus), granted, SubscriptionKind::AgentUpdated, None, out),
    {
        open_subscription(bus, granted, SubscriptionKind::AgentUpdated, None)
    }

    /// Subscribes to the exceptions of the runtime.
    pub fn exception_occurred(bus: &mut PubSub, granted: Result<Vec<Capability>, String>) -> (out: Result<
        Subscriber,
        SubscriptionError,
    >)
        requires
            old(bus).well_formed(),
            old(bus).next_handle() < u64::MAX,
        ensures
            opened(*old(bus), *final(bus), granted, SubscriptionKind::ExceptionOccurred, None, out),
    {
        open_subscription(bus, granted, SubscriptionKind::ExceptionOccurred, None)
    }

    /// Subscribes to the signals received in the neighbourhood of a perspective, named by `uuid`.
    pub fn neighbourhood_signal(
        bus: &mut PubSub,
        granted: Result<Vec<Capability>, String>,
        uuid: String,
    ) -> (out: Result<Subscriber, SubscriptionError>)
        requires
            old(bus).well_formed(),
            old(bus).next_handle() < u64::MAX,
        ensures
            opened(*old(bus), *final(bus), granted, SubscriptionKind::NeighbourhoodSignal, Some(uuid), out),
    {
        open_subscription(bus, granted, SubscriptionKind::NeighbourhoodSignal, Some(uuid))
    }

    /// Subscribes to the perspectives that are added.
    pub fn perspective_added(bus: &mut PubSub, granted: Result<Vec<Capability>, String>) -> (out: Result<
        Subscriber,
        SubscriptionError,
    >)
        requires
            old(bus).well_formed(),
            old(bus).next_handle() < u64::MAX,
        ensures
            opened(*old(bus), *final(bus), granted, SubscriptionKind::PerspectiveAdded, None, out),
    {
        open_subscription(bus, granted, SubscriptionKind::PerspectiveAdded, None)
    }

    /// Subscribes to the links added to a perspective, named by `uuid`.
    pub fn perspective_link_added(
        bus: &mut PubSub,
        granted: Result<Vec<Capability>, String>,
        uuid: String,
    ) -> (out: Result<Subscriber, SubscriptionError>)
        requires
            old(bus).well_formed(),
            old(bus).next_handle() < u64::MAX,
        ensures
            opened(*old(bus), *final(bus), granted, SubscriptionKind::PerspectiveLinkAdded, Some(uuid), out),
    {
        open_subscription(bus, granted, SubscriptionKind::PerspectiveLinkAdded, Some(uuid))
    }

    /// Subscribes to the links removed from a perspective, named by `uuid`.
    pub fn perspective_link_removed(
        bus: &mut PubSub,
        granted: Result<Vec<Capability>, String>,
        uuid: String,
    ) -> (out: Result<Subscriber, SubscriptionError>)
        requires
            old(bus).well_formed(),
            old(bus).next_handle() < u64::MAX,
        ensures
            opened(*old(bus), *final(bus), granted, SubscriptionKind::PerspectiveLinkRemoved, Some(uuid), out),
    {
        open_subscription(bus, granted, SubscriptionKind::PerspectiveLinkRemoved, Some(uuid))
    }

    /// Subscribes to the links updated in a perspective, named by `uuid`.
    pub fn perspective_link_updated(
        bus: &mut PubSub,
        granted: Result<Vec<Capability>, String>,
        uuid: String,
    ) -> (out: Result<Subscriber, SubscriptionError>)
        requires
            old(bus).well_formed(),
            old(bus).next_handle() < u64::MAX,
        ensures
            opened(*old(bus), *final(bus), granted, SubscriptionKind::PerspectiveLinkUpdated, Some(uuid), out),
    {
        open_subscription(bus, granted, SubscriptionKind::PerspectiveLinkUpdated, Some(uuid))
    }

    /// Subscribes to the perspectives that are removed.
    pub fn perspective_removed(bus: &mut PubSub, granted: Result<Vec<Capability>, String>) -> (out: Result<
        Subscriber,
        SubscriptionError,
    >)
        requires
            old(bus).well_formed(),
            old(bus).next_handle() < u64::MAX,
        ensures
            opened(*old(bus), *final(bus), granted, SubscriptionKind::PerspectiveRemoved, None, out),
    {
        open_subscription(bus, granted, SubscriptionKind::PerspectiveRemoved, None)
    }

    /// Subscribes to the sync state of a perspective, named by `uuid`.
    pub fn perspective_sync_state_change(
        bus: &mut PubSub,
        granted: Result<Vec<Capability>, String>,
        uuid: String,
    ) -> (out: Result<Subscriber, SubscriptionError>)
        requires
            old(bus).well_formed(),
            old(bus).next_handle() < u64::MAX,
        ensures
            opened(*old(bus), *final(bus), granted, SubscriptionKind::PerspectiveSyncStateChange, Some(uuid), out),
    {
        open_subscription(bus, granted, SubscriptionKind::PerspectiveSyncStateChange, Some(uuid))
    }

    /// Subscribes to the perspectives that are updated.
    pub fn perspective_updated(bus: &mut PubSub, granted: Result<Vec<Capability>, String>) -> (out: Result<
        Subscriber,
        SubscriptionError,
    >)
        requires
            old(bus).well_formed(),
            old(bus).next_handle() < u64::MAX,
        ensures
            opened(*old(bus), *final(bus), granted, SubscriptionKind::PerspectiveUpdated, None, out),
    {
        open_subscription(bus, granted, SubscriptionKind::PerspectiveUpdated, None)
    }

    /// Subscribes to the messages that the runtime receives.
    pub fn runtime_message_received(bus: &mut PubSub, granted: Result<Vec<Capability>, String>) -> (out: Result<
        Subscriber,
        SubscriptionError,
    >)
        requires
            old(bus).well_formed(),
            old(bus).next_handle() < u64::MAX,
        ensures
            opened(*old(bus), *final(bus), granted, SubscriptionKind::RuntimeMessageReceived, None, out),
    {
        open_subscription(bus, granted, SubscriptionKind::RuntimeMessageReceived, None)
    }

}

/// A caller without any capability is refused every subscription: the
/// subscription's only item is the error that names the required domain
/// and the action to subscribe.
pub proof fn law_empty_grant_is_unauthorized(kind: SubscriptionKind, filter: Option<Seq<char>>)
    ensures
        spec_may_open(Ok(Seq::<CapabilityView>::empty()), kind, filter) == Err::<
            (),
            SubscriptionErrorView,
        >(
            SubscriptionErrorView::Unauthorized {
                domain: spec_required(kind, filter).with.domain,
                action: SUBSCRIBE@,
            },
        ),
{
    let required = spec_required(kind, filter);
    let nothing = Seq::<CapabilityView>::empty();
    lemma_required_action(kind, filter);
    assert(required.can[0] == SUBSCRIBE@);
    assert(!spec_authorized(nothing, required.with, required.can[0]));
}

/// An event whose filter key differs from the filter of a subscriber is
/// never yielded to it; an event whose filter key is the filter always is.
pub proof fn law_filter_selects_by_key<T: GetValue + GetFilter>(event: T, filter: String)
    ensures
        spec_yield(event, Some(filter)) is Some <==> (event.filter_key() matches Some(key) && key@
            == filter@),
        spec_yield(event, Some(filter)) matches Some(value) ==> value == event.value(),
{
}

} // verus!
