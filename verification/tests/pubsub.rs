use ad4m_core::capabilities::types::{Capability, Resource};
use ad4m_core::graphql_types::{
    AgentStatus, ExpressionProof, GetFilter, GetValue, JsResultType, Link, LinkExpression,
    LinkUpdated, PerspectiveHandle, PerspectiveLinkFilter, PerspectiveLinkUpdatedFilter,
    PerspectiveStateFilter,
};
use ad4m_core::pubsub::{
    PubSub, PERSPECTIVE_LINK_ADDED_TOPIC, PERSPECTIVE_LINK_UPDATED_TOPIC,
    PERSPECTIVE_SYNC_STATE_CHANGE_TOPIC,
};
use ad4m_core::subscriptions::{
    may_open, open_subscription, subscribe_and_process, Subscriber, Subscription,
    SubscriptionError, SubscriptionKind,
};

fn handle(uuid: &str) -> PerspectiveHandle {
    PerspectiveHandle {
        name: None,
        neighbourhood: None,
        shared_url: None,
        state: "Synced".to_string(),
        uuid: uuid.to_string(),
    }
}

fn link(target: &str) -> LinkExpression {
    LinkExpression {
        author: "did:key:me".to_string(),
        data: Link { predicate: None, source: "s".to_string(), target: target.to_string() },
        proof: ExpressionProof { invalid: None, key: None, signature: None, valid: None },
        timestamp: "t".to_string(),
        status: None,
    }
}

fn link_event(uuid: &str, target: &str) -> PerspectiveLinkFilter {
    PerspectiveLinkFilter { perspective: handle(uuid), link: link(target) }
}

fn capability(domain: &str, pointer: &str, action: &str) -> Capability {
    Capability {
        with: Resource { domain: domain.to_string(), pointers: vec![pointer.to_string()] },
        can: vec![action.to_string()],
    }
}

#[test]
fn subscriber_sees_only_the_last_of_many_messages() {
    let mut bus = PubSub::new();
    let id = bus.subscribe("topic");
    for n in 0..5 {
        bus.publish("topic", &format!("message {}", n));
    }
    assert!(bus.has_pending(id));
    assert_eq!(bus.poll(id), Some("message 4".to_string()));
    assert_eq!(bus.poll(id), None);
    assert!(!bus.has_pending(id));
}

#[test]
fn nothing_published_earlier_is_delivered() {
    let mut bus = PubSub::new();
    bus.publish("topic", "early");
    let id = bus.subscribe("topic");
    assert_eq!(bus.poll(id), None);
    bus.publish("topic", "late");
    assert_eq!(bus.poll(id), Some("late".to_string()));
}

#[test]
fn every_subscriber_of_the_topic_gets_the_message() {
    let mut bus = PubSub::new();
    let a = bus.subscribe("one");
    let b = bus.subscribe("one");
    let c = bus.subscribe("two");
    assert_eq!((a, b, c), (0, 1, 2));
    assert_eq!(bus.subscriber_count("one"), 2);
    assert_eq!(bus.subscriber_count("two"), 1);
    assert_eq!(bus.subscriber_count("three"), 0);
    bus.publish("one", "m");
    assert_eq!(bus.poll(a), Some("m".to_string()));
    assert_eq!(bus.poll(c), None);
    assert_eq!(bus.poll(b), Some("m".to_string()));
    bus.publish("three", "nobody listens");
    assert_eq!(bus.poll(a), None);
}

#[test]
fn unsubscribed_sink_is_gone() {
    let mut bus = PubSub::new();
    let a = bus.subscribe("one");
    let b = bus.subscribe("one");
    bus.publish("one", "first");
    bus.unsubscribe(a);
    assert_eq!(bus.subscriber_count("one"), 1);
    assert_eq!(bus.poll(a), None);
    bus.publish("one", "second");
    assert_eq!(bus.poll(b), Some("second".to_string()));
    bus.unsubscribe(99);
    assert_eq!(bus.subscriber_count("one"), 1);
    let c = bus.subscribe("one");
    assert_eq!(c, 2);
    assert!(bus.can_subscribe());
}

#[test]
fn filtered_subscription_yields_only_its_perspective() {
    let mut bus = PubSub::new();
    let mut subscriber = subscribe_and_process(&mut bus, PERSPECTIVE_LINK_ADDED_TOPIC, Some("A".to_string()));
    let events = [("A", "1"), ("B", "2"), ("A", "3"), ("B", "4"), ("B", "5"), ("A", "6")];
    let mut received = Vec::new();
    for (uuid, target) in events {
        bus.publish(PERSPECTIVE_LINK_ADDED_TOPIC, target);
        let message = bus.poll(subscriber.handle).unwrap();
        assert_eq!(message, target);
        if let Some(item) = subscriber.on_message(Ok(link_event(uuid, target))) {
            received.push(item.unwrap());
        }
    }
    assert_eq!(received, vec![link("1"), link("3"), link("6")]);
}

#[test]
fn unfiltered_subscription_yields_everything() {
    let mut subscriber = Subscriber { handle: 0, filter: None, ended: false };
    let item = subscriber.on_message(Ok(link_event("A", "1"))).unwrap().unwrap();
    assert_eq!(item, link("1"));
    let status = AgentStatus {
        did: Some("did:key:me".to_string()),
        did_document: None,
        error: None,
        is_initialized: true,
        is_unlocked: false,
    };
    assert_eq!(subscriber.on_message(Ok(status.clone())).unwrap().unwrap(), status);
}

#[test]
fn event_without_filter_key_is_dropped_under_a_filter() {
    let mut subscriber = Subscriber { handle: 0, filter: Some("A".to_string()), ended: false };
    assert!(subscriber.on_message(Ok("a text".to_string())).is_none());
    assert!(!subscriber.ended);
    assert!(subscriber.on_message(Ok(handle("A"))).is_none());
}

#[test]
fn unreadable_message_is_one_error_and_the_end() {
    let mut subscriber = Subscriber { handle: 3, filter: None, ended: false };
    let item = subscriber
        .on_message::<PerspectiveLinkFilter>(Err("expected value at line 1".to_string()))
        .unwrap();
    match item {
        Err(SubscriptionError::Serialization(reason)) => {
            assert_eq!(reason, "expected value at line 1")
        }
        other => panic!("{:?}", other),
    }
    assert!(subscriber.ended);
    assert!(subscriber.on_message(Ok(link_event("A", "1"))).is_none());
    assert_eq!(subscriber.handle, 3);
}

#[test]
fn values_and_filter_keys_of_events() {
    let updated = PerspectiveLinkUpdatedFilter {
        new_link: link("new"),
        old_link: link("old"),
        perspective: handle("P"),
    };
    assert_eq!(updated.get_filter(), Some("P".to_string()));
    assert_eq!(updated.get_value(), LinkUpdated { new_link: link("new"), old_link: link("old") });
    let state = PerspectiveStateFilter { state: "Synced".to_string(), perspective: handle("Q") };
    assert_eq!(state.get_filter(), Some("Q".to_string()));
    assert_eq!(state.get_value(), "Synced");
    assert_eq!(handle("R").get_filter(), None);
    assert_eq!("text".to_string().get_filter(), None);
    assert_eq!(link_event("S", "t").get_filter(), Some("S".to_string()));
}

#[test]
fn empty_capability_set_is_unauthorized() {
    let mut bus = PubSub::new();
    let refused = Subscription::perspective_link_added(&mut bus, Ok(Vec::new()), "A".to_string());
    match refused {
        Err(SubscriptionError::Unauthorized(e)) => {
            assert_eq!(e.domain, "perspective");
            assert_eq!(e.action, "SUBSCRIBE");
        }
        other => panic!("{:?}", other),
    }
    assert_eq!(bus.subscriber_count(PERSPECTIVE_LINK_ADDED_TOPIC), 0);
    let refused = Subscription::perspective_added(&mut bus, Ok(Vec::new()));
    assert!(matches!(refused, Err(SubscriptionError::Unauthorized(_))));
    let refused = Subscription::agent_updated(&mut bus, Ok(Vec::new()));
    match refused {
        Err(SubscriptionError::Unauthorized(e)) => assert_eq!(e.domain, "agent"),
        other => panic!("{:?}", other),
    }
    let refused = Subscription::exception_occurred(&mut bus, Ok(Vec::new()));
    match refused {
        Err(SubscriptionError::Unauthorized(e)) => assert_eq!(e.domain, "runtime.exception"),
        other => panic!("{:?}", other),
    }
    let refused = Subscription::neighbourhood_signal(&mut bus, Ok(Vec::new()), "A".to_string());
    match refused {
        Err(SubscriptionError::Unauthorized(e)) => assert_eq!(e.domain, "runtime.messages"),
        other => panic!("{:?}", other),
    }
}

#[test]
fn unresolved_capabilities_are_the_only_item() {
    let mut bus = PubSub::new();
    let refused = Subscription::agent_status_changed(&mut bus, Err("token expired".to_string()));
    match refused {
        Err(SubscriptionError::CapabilityResolution(reason)) => assert_eq!(reason, "token expired"),
        other => panic!("{:?}", other),
    }
    assert_eq!(bus.subscriber_count("agent-status-changed-topic"), 0);
}

#[test]
fn agent_subscriptions_require_subscribe_on_agent() {
    let mut bus = PubSub::new();
    for refused in [
        Subscription::agent_status_changed(&mut bus, Ok(Vec::new())),
        Subscription::agent_apps_changed(&mut bus, Ok(Vec::new())),
        Subscription::agent_status_changed(&mut bus, Ok(vec![capability("agent", "*", "READ")])),
        Subscription::agent_apps_changed(&mut bus, Ok(vec![capability("perspective", "*", "SUBSCRIBE")])),
    ] {
        match refused {
            Err(SubscriptionError::Unauthorized(e)) => {
                assert_eq!(e.domain, "agent");
                assert_eq!(e.action, "SUBSCRIBE");
            }
            other => panic!("{:?}", other),
        }
    }
    assert_eq!(bus.subscriber_count("agent-status-changed-topic"), 0);
    let granted = vec![capability("agent", "*", "SUBSCRIBE")];
    let status = Subscription::agent_status_changed(&mut bus, Ok(granted.clone())).unwrap();
    assert_eq!(status.handle, 0);
    assert_eq!(status.filter, None);
    let apps = Subscription::agent_apps_changed(&mut bus, Ok(granted)).unwrap();
    assert_eq!(apps.handle, 1);
    assert_eq!(bus.subscriber_count("agent-status-changed-topic"), 1);
    assert_eq!(bus.subscriber_count("apps-changed"), 1);
}

#[test]
fn perspective_subscription_may_be_scoped_to_the_perspective() {
    let mut bus = PubSub::new();
    let wildcard = vec![capability("perspective", "*", "SUBSCRIBE")];
    let scoped = vec![capability("perspective", "A", "SUBSCRIBE")];
    let everything = vec![capability("*", "*", "*")];
    let opened =
        Subscription::perspective_link_added(&mut bus, Ok(wildcard.clone()), "A".to_string()).unwrap();
    assert_eq!(opened.filter, Some("A".to_string()));
    assert!(!opened.ended);
    assert!(Subscription::perspective_link_removed(&mut bus, Ok(scoped.clone()), "A".to_string()).is_ok());
    assert!(Subscription::perspective_link_removed(&mut bus, Ok(scoped.clone()), "B".to_string()).is_err());
    assert!(Subscription::perspective_sync_state_change(&mut bus, Ok(scoped.clone()), "A".to_string()).is_ok());
    assert!(Subscription::perspective_link_updated(&mut bus, Ok(scoped.clone()), "A".to_string()).is_ok());
    assert!(Subscription::perspective_added(&mut bus, Ok(scoped.clone())).is_err());
    assert!(Subscription::perspective_added(&mut bus, Ok(wildcard.clone())).is_ok());
    assert!(Subscription::perspective_removed(&mut bus, Ok(wildcard.clone())).is_ok());
    assert!(Subscription::perspective_updated(&mut bus, Ok(everything.clone())).is_ok());
    assert!(Subscription::runtime_message_received(&mut bus, Ok(wildcard.clone())).is_ok());
    assert!(Subscription::agent_updated(&mut bus, Ok(wildcard.clone())).is_err());
    assert!(Subscription::agent_updated(&mut bus, Ok(everything.clone())).is_ok());
    assert_eq!(bus.subscriber_count(PERSPECTIVE_LINK_ADDED_TOPIC), 1);
    assert_eq!(bus.subscriber_count(PERSPECTIVE_SYNC_STATE_CHANGE_TOPIC), 1);
    assert_eq!(bus.subscriber_count(PERSPECTIVE_LINK_UPDATED_TOPIC), 1);
}

#[test]
fn wrong_action_does_not_open() {
    let read_only = vec![capability("perspective", "*", "READ")];
    assert!(may_open(&Ok(read_only), SubscriptionKind::PerspectiveAdded, &None).is_err());
    let mut bus = PubSub::new();
    let opened = open_subscription(
        &mut bus,
        Ok(vec![capability("runtime.exception", "*", "SUBSCRIBE")]),
        SubscriptionKind::ExceptionOccurred,
        None,
    )
    .unwrap();
    assert_eq!(opened.handle, 0);
    assert_eq!(SubscriptionKind::ExceptionOccurred.topic(), "exception-occurred-topic");
}

#[test]
fn script_result_becomes_a_result() {
    assert_eq!(JsResultType::Value(3).get_graphql_result(), Ok(3));
    assert_eq!(
        JsResultType::<u8>::Error("boom".to_string()).get_graphql_result(),
        Err("boom".to_string())
    );
}
