//! The event bus: topic-keyed fan-out of messages to subscribers.
//!
//! Delivery is latest value wins. Each subscriber holds at most one pending
//! message; a message published before the pending one was taken replaces
//! it. A subscriber therefore sees the most recent message of its topic, and
//! no message out of order, but not every message. Nothing published before
//! a subscription is ever delivered to it.

use crate::text::str_eq;
use vstd::prelude::*;
use vstd::string::*;

verus! {

/// The status of the local agent changed.
pub const AGENT_STATUS_CHANGED_TOPIC: &'static str = "agent-status-changed-topic";

/// The authenticated applications changed.
pub const APPS_CHANGED: &'static str = "apps-changed";

/// The local agent was updated.
pub const AGENT_UPDATED_TOPIC: &'static str = "agent-updated-topic";

/// The runtime reports an exception.
pub const EXCEPTION_OCCURRED_TOPIC: &'static str = "exception-occurred-topic";

/// A signal was received in a neighbourhood.
pub const NEIGHBOURHOOD_SIGNAL_TOPIC: &'static str = "neighbourhood-signal-received-topic";

/// A perspective was added.
pub const PERSPECTIVE_ADDED_TOPIC: &'static str = "perspective-added-topic";

/// A link was added to a perspective.
pub const PERSPECTIVE_LINK_ADDED_TOPIC: &'static str = "perspective-link-added-topic";

/// A link was removed from a perspective.
pub const PERSPECTIVE_LINK_REMOVED_TOPIC: &'static str = "perspective-link-removed-topic";

/// A link of a perspective was updated.
pub const PERSPECTIVE_LINK_UPDATED_TOPIC: &'static str = "perspective-link-updated-topic";

/// A perspective was removed.
pub const PERSPECTIVE_REMOVED_TOPIC: &'static str = "perspective-removed-topic";

/// A perspective was updated.
pub const PERSPECTIVE_UPDATED_TOPIC: &'static str = "perspective-updated-topic";

/// The sync state of a perspective changed.
pub const PERSPECTIVE_SYNC_STATE_CHANGE_TOPIC: &'static str = "perspective-sync-state-change-topic";

/// The runtime received a message.
pub const RUNTIME_MESSAGED_RECEIVED_TOPIC: &'static str = "runtime-messaged-received-topic";

struct Sink {
    id: u64,
    topic: String,
    pending: Option<String>,
}

/// One subscriber as the bus knows it: its handle, its topic, and the
/// message that waits for it, if one does.
pub struct SinkView {
    pub id: u64,
    pub topic: Seq<char>,
    pub pending: Option<Seq<char>>,
}

impl View for Sink {
    type V = SinkView;

    closed spec fn view(&self) -> SinkView {
        SinkView {
            id: self.id,
            topic: self.topic@,
            pending: match self.pending {
                Some(m) => Some(m@),
                None => None,
            },
        }
    }
}

/// The event bus.
pub struct PubSub {
    sinks: Vec<Sink>,
    next_id: u64,
}

/// The subscribers after a message was published to a topic: it waits for
/// every subscriber of the topic, in place of what waited before; the
/// others are as they were.
pub open spec fn spec_publish(sinks: Seq<SinkView>, topic: Seq<char>, message: Seq<char>) -> Seq<
    SinkView,
> {
    Seq::new(
        sinks.len(),
        |i: int|
            if sinks[i].topic == topic {
                SinkView { pending: Some(message), ..sinks[i] }
            } else {
                sinks[i]
            },
    )
}

/// The subscribers after messages were published to a topic, in order.
pub open spec fn spec_publish_all(
    sinks: Seq<SinkView>,
    topic: Seq<char>,
    messages: Seq<Seq<char>>,
) -> Seq<SinkView>
    decreases messages.len(),
{
    if messages.len() == 0 {
        sinks
    } else {
        spec_publish(spec_publish_all(sinks, topic, messages.drop_last()), topic, messages.last())
    }
}

/// The position of the subscriber with the handle `id`, or the number of
/// subscribers if none has it.
pub open spec fn spec_position(sinks: Seq<SinkView>, id: u64) -> int
    decreases sinks.len(),
{
    if sinks.len() == 0 {
        0
    } else if sinks[0].id == id {
        0
    } else {
        1 + spec_position(sinks.skip(1), id)
    }
}

/// What waits for the subscriber with the handle `id`: nothing if nothing
/// was published since it last took a message, or if no subscriber has the
/// handle.
pub open spec fn spec_pending(sinks: Seq<SinkView>, id: u64) -> Option<Seq<char>> {
    let at = spec_position(sinks, id);
    if 0 <= at < sinks.len() {
        sinks[at].pending
    } else {
        None
    }
}

/// The subscribers after the one with the handle `id` took its message.
pub open spec fn spec_taken(sinks: Seq<SinkView>, id: u64) -> Seq<SinkView> {
    let at = spec_position(sinks, id);
    if 0 <= at < sinks.len() {
        sinks.update(at, SinkView { pending: None, ..sinks[at] })
    } else {
        sinks
    }
}

/// The subscribers without the one with the handle `id`.
pub open spec fn spec_closed(sinks: Seq<SinkView>, id: u64) -> Seq<SinkView> {
    let at = spec_position(sinks, id);
    if 0 <= at < sinks.len() {
        sinks.remove(at)
    } else {
        sinks
    }
}

/// How many subscribers a topic has.
pub open spec fn spec_subscriber_count(sinks: Seq<SinkView>, topic: Seq<char>) -> nat
    decreases sinks.len(),
{
    if sinks.len() == 0 {
        0
    } else if sinks.last().topic == topic {
        spec_subscriber_count(sinks.drop_last(), topic) + 1
    } else {
        spec_subscriber_count(sinks.drop_last(), topic)
    }
}

/// Handles are given out in rising order, each below the next one to give.
pub open spec fn spec_handles_rise(sinks: Seq<SinkView>, next_id: u64) -> bool {
    &&& forall|i: int| 0 <= i < sinks.len() ==> (#[trigger] sinks[i]).id < next_id
    &&& forall|i: int, j: int|
        0 <= i < j < sinks.len() ==> (#[trigger] sinks[i]).id < (#[trigger] sinks[j]).id
}

/// The position of a handle lies within the subscribers or just behind
/// them; no earlier subscriber has the handle, and the one there has it.
pub proof fn lemma_position(sinks: Seq<SinkView>, id: u64)
    ensures
        0 <= spec_position(sinks, id) <= sinks.len(),
        forall|k: int| 0 <= k < spec_position(sinks, id) ==> sinks[k].id != id,
        spec_position(sinks, id) < sinks.len() ==> sinks[spec_position(sinks, id)].id == id,
    decreases sinks.len(),
{
    if sinks.len() > 0 && sinks[0].id != id {
        lemma_position(sinks.skip(1), id);
        assert forall|k: int| 0 <= k < spec_position(sinks, id) implies sinks[k].id != id by {
            if k > 0 {
                assert(sinks[k] == sinks.skip(1)[k - 1]);
            }
        }
    }
}

/// The position of a handle is the first position that holds it.
pub proof fn lemma_position_is(sinks: Seq<SinkView>, id: u64, at: int)
    requires
        0 <= at <= sinks.len(),
        forall|k: int| 0 <= k < at ==> sinks[k].id != id,
        at < sinks.len() ==> sinks[at].id == id,
    ensures
        spec_position(sinks, id) == at,
{
    lemma_position(sinks, id);
}

impl PubSub {
    /// The subscribers, in the order in which they subscribed.
    pub closed spec fn view(&self) -> Seq<SinkView> {
        Seq::new(self.sinks@.len(), |i: int| self.sinks@[i]@)
    }

    /// The handle that the next subscriber gets.
    pub closed spec fn next_handle(&self) -> u64 {
        self.next_id
    }

    /// The bus is sound: handles rise.
    pub open spec fn well_formed(&self) -> bool {
        spec_handles_rise(self@, self.next_handle())
    }

    /// A bus without subscribers.
    pub fn new() -> (out: Self)
        ensures
            out@ == Seq::<SinkView>::empty(),
            out.next_handle() == 0,
            out.well_formed(),
    {
        let out = PubSub { sinks: Vec::new(), next_id: 0 };
        assert(out@ =~= Seq::<SinkView>::empty());
        out
    }

    /// Whether the bus can still give out a handle.
    pub fn can_subscribe(&self) -> (out: bool)
        ensures
            out == (self.next_handle() < u64::MAX),
    {
        self.next_id < u64::MAX
    }

    /// Registers a subscriber of `topic` and returns its handle. Nothing
    /// waits for it: it will get what is published from now on.
    pub fn subscribe(&mut self, topic: &str) -> (id: u64)
        requires
            old(self).well_formed(),
            old(self).next_handle() < u64::MAX,
        ensures
            id == old(self).next_handle(),
            final(self).next_handle() == id + 1,
            final(self)@ == old(self)@.push(SinkView { id, topic: topic@, pending: None }),
            final(self).well_formed(),
    {
        let id = self.next_id;
        self.sinks.push(Sink { id, topic: String::from_str(topic), pending: None });
        self.next_id = id + 1;
        assert(self@ =~= old(self)@.push(SinkView { id, topic: topic@, pending: None }));
        id
    }

    /// Publishes `message` to `topic`: it now waits for every subscriber of
    /// the topic. A topic without subscribers takes the message and drops it.
    pub fn publish(&mut self, topic: &str, message: &str)
        requires
            old(self).well_formed(),
        ensures
            final(self)@ == spec_publish(old(self)@, topic@, message@),
            final(self).next_handle() == old(self).next_handle(),
            final(self).well_formed(),
    {
        let mut i: usize = 0;
        let ghost before = self@;
        while i < self.sinks.len()
            invariant
                i <= self.sinks.len(),
                self.sinks@.len() == before.len(),
                self.next_id == old(self).next_id,
                forall|k: int| 0 <= k < i ==> (#[trigger] self.sinks@[k])@ == spec_publish(
                    before,
                    topic@,
                    message@,
                )[k],
                forall|k: int| i <= k < self.sinks@.len() ==> (#[trigger] self.sinks@[k])@ == before[k],
            decreases self.sinks.len() - i,
        {
            if str_eq(self.sinks[i].topic.as_str(), topic) {
                let ghost old_sinks = self.sinks@;
                let sink = Sink {
                    id: self.sinks[i].id,
                    topic: self.sinks[i].topic.clone(),
                    pending: Some(String::from_str(message)),
                };
                self.sinks.set(i, sink);
                assert(forall|k: int|
                    0 <= k < self.sinks@.len() && k != i ==> self.sinks@[k] == old_sinks[k]);
            }
            i += 1;
        }
        assert(self@ =~= spec_publish(before, topic@, message@));
    }

    fn position(&self, id: u64) -> (at: usize)
        ensures
            at == spec_position(self@, id),
            at <= self.sinks.len(),
            self.sinks.len() == self@.len(),
    {
        let mut i: usize = 0;
        while i < self.sinks.len()
            invariant
                i <= self.sinks.len(),
                self.sinks@.len() == self@.len(),
                forall|k: int| 0 <= k < i ==> self@[k].id != id,
            decreases self.sinks.len() - i,
        {
            if self.sinks[i].id == id {
                proof {
                    assert(self@[i as int] == self.sinks@[i as int]@);
                    lemma_position_is(self@, id, i as int);
                }
                return i;
            }
            assert(self@[i as int] == self.sinks@[i as int]@);
            i += 1;
        }
        proof {
            lemma_position_is(self@, id, i as int);
        }
        i
    }

    /// Takes the message that waits for the subscriber with the handle
    /// `id`. None if nothing was published to its topic since it last took
    /// one, or if no subscriber has the handle.
    pub fn poll(&mut self, id: u64) -> (message: Option<String>)
        requires
            old(self).well_formed(),
        ensures
            crate::text::opt_view(message) == spec_pending(old(self)@, id),
            final(self)@ == spec_taken(old(self)@, id),
            final(self).next_handle() == old(self).next_handle(),
            final(self).well_formed(),
    {
        let at = self.position(id);
        if at >= self.sinks.len() {
            return None;
        }
        proof {
            lemma_position(self@, id);
            assert(self@[at as int] == self.sinks@[at as int]@);
        }
        let ghost old_sinks = self.sinks@;
        let message = crate::text::clone_opt(&self.sinks[at].pending);
        let sink = Sink { id, topic: self.sinks[at].topic.clone(), pending: None };
        self.sinks.set(at, sink);
        assert(forall|k: int|
            0 <= k < self.sinks@.len() && k != at ==> self.sinks@[k] == old_sinks[k]);
        assert(self@ =~= spec_taken(old(self)@, id));
        message
    }

    /// Whether a message waits for the subscriber with the handle `id`.
    pub fn has_pending(&self, id: u64) -> (out: bool)
        ensures
            out == spec_pending(self@, id) is Some,
    {
        let at = self.position(id);
        if at >= self.sinks.len() {
            return false;
        }
        assert(self@[at as int] == self.sinks@[at as int]@);
        self.sinks[at].pending.is_some()
    }

    /// Deregisters the subscriber with the handle `id`. The other
    /// subscribers, and what waits for them, stay as they are.
    pub fn unsubscribe(&mut self, id: u64)
        requires
            old(self).well_formed(),
        ensures
            final(self)@ == spec_closed(old(self)@, id),
            final(self).next_handle() == old(self).next_handle(),
            final(self).well_formed(),
    {
        let at = self.position(id);
        if at < self.sinks.len() {
            let ghost old_sinks = self.sinks@;
            let _ = self.sinks.remove(at);
            assert(self@ =~= spec_closed(old(self)@, id));
        }
    }

    /// How many subscribers `topic` has.
    pub fn subscriber_count(&self, topic: &str) -> (count: usize)
        ensures
            count == spec_subscriber_count(self@, topic@),
    {
        let mut count: usize = 0;
        let mut i: usize = 0;
        proof {
            assert(self@.take(0) =~= Seq::<SinkView>::empty());
        }
        while i < self.sinks.len()
            invariant
                i <= self.sinks.len(),
                self.sinks@.len() == self@.len(),
                count <= i,
                count == spec_subscriber_count(self@.take(i as int), topic@),
            decreases self.sinks.len() - i,
        {
            proof {
                assert(self@.take(i + 1).drop_last() =~= self@.take(i as int));
                assert(self@.take(i + 1).last() == self.sinks@[i as int]@);
            }
            if str_eq(self.sinks[i].topic.as_str(), topic) {
                count += 1;
            }
            i += 1;
        }
        proof {
            assert(self@.take(i as int) =~= self@);
        }
        count
    }
}



/// Publishing changes neither who subscribes nor in which order.
pub proof fn lemma_publish_keeps_position(
    sinks: Seq<SinkView>,
    topic: Seq<char>,
    message: Seq<char>,
    id: u64,
)
    ensures
        spec_position(spec_publish(sinks, topic, message), id) == spec_position(sinks, id),
{
    let after = spec_publish(sinks, topic, message);
    lemma_position(sinks, id);
    let at = spec_position(sinks, id);
    assert forall|k: int| 0 <= k < at implies after[k].id != id by {
        assert(after[k].id == sinks[k].id);
    }
    lemma_position_is(after, id, at);
}

/// However many messages are published to a topic before a subscriber of
/// it takes one, only the last of them waits for the subscriber, and once
/// taken nothing waits.
pub proof fn law_latest_value_wins(
    sinks: Seq<SinkView>,
    id: u64,
    topic: Seq<char>,
    messages: Seq<Seq<char>>,
)
    requires
        0 <= spec_position(sinks, id) < sinks.len(),
        sinks[spec_position(sinks, id)].topic == topic,
        messages.len() > 0,
    ensures
        spec_pending(spec_publish_all(sinks, topic, messages), id) == Some(messages.last()),
        spec_pending(spec_taken(spec_publish_all(sinks, topic, messages), id), id)
            == None::<Seq<char>>,
{
    lemma_published_all(sinks, id, topic, messages);
    let after = spec_publish_all(sinks, topic, messages);
    let at = spec_position(sinks, id);
    let taken = spec_taken(after, id);
    lemma_position(after, id);
    assert forall|k: int| 0 <= k < at implies taken[k].id != id by {
        assert(taken[k] == after[k]);
    }
    lemma_position_is(taken, id, at);
}

/// After messages were published to a topic, a subscriber of it is where it
/// was, on the same topic, and the last message waits for it.
pub proof fn lemma_published_all(
    sinks: Seq<SinkView>,
    id: u64,
    topic: Seq<char>,
    messages: Seq<Seq<char>>,
)
    requires
        0 <= spec_position(sinks, id) < sinks.len(),
        sinks[spec_position(sinks, id)].topic == topic,
    ensures
        spec_publish_all(sinks, topic, messages).len() == sinks.len(),
        spec_position(spec_publish_all(sinks, topic, messages), id) == spec_position(sinks, id),
        spec_publish_all(sinks, topic, messages)[spec_position(sinks, id)].topic == topic,
        messages.len() > 0 ==> spec_publish_all(sinks, topic, messages)[spec_position(
            sinks,
            id,
        )].pending == Some(messages.last()),
    decreases messages.len(),
{
    if messages.len() > 0 {
        lemma_published_all(sinks, id, topic, messages.drop_last());
        let before = spec_publish_all(sinks, topic, messages.drop_last());
        lemma_publish_keeps_position(before, topic, messages.last(), id);
    }
}

/// A message published to one topic leaves what waits for the subscribers
/// of every other topic as it was.
pub proof fn law_other_topics_untouched(
    sinks: Seq<SinkView>,
    id: u64,
    topic: Seq<char>,
    message: Seq<char>,
)
    requires
        0 <= spec_position(sinks, id) < sinks.len(),
        sinks[spec_position(sinks, id)].topic != topic,
    ensures
        spec_pending(spec_publish(sinks, topic, message), id) == spec_pending(sinks, id),
{
    lemma_publish_keeps_position(sinks, topic, message, id);
}

} // verus!
