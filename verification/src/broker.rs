//! The topic registry and the values it routes.
//!
//! A registry maps each topic that has a subscriber to the publish handle of
//! that topic's channel. The first registration for a topic creates the
//! channel; the disposal of the topic's last subscription removes it. The
//! registry is one exclusively borrowed value: whoever shares it between
//! sessions puts it behind one lock, and every operation here is a whole
//! critical section of that lock.

use crate::channel::{close, duplicate, live_consumers, max_depth, open_channel, subscribe};
use crate::channel::{poll, Polled};
use std::hash::Hash;
use tokio::sync::broadcast::{Receiver, Sender};
use vstd::hash_map::StringHashMap;
use vstd::prelude::*;

verus! {

/// The buffer depth of a registry built without an explicit one.
pub const BUFFER_SIZE: usize = 100;

/// A value that can be routed: it names where it came from.
pub trait Routable {
    /// The type of the identifier that a message carries.
    type Key: Eq + Hash + Clone;

    /// The identifier of the message's origin, as contracts see it.
    spec fn origin(&self) -> Self::Key;

    /// The identifier of the message's origin.
    fn key(&self) -> (key: &Self::Key)
        ensures
            *key == self.origin(),
    ;
}

/// The unit of routed data: a payload tagged with the connection that sent it.
#[derive(Clone, Debug, PartialEq, Eq)]
pub struct BrokerMessage {
    pub connection_id: String,
    pub payload: String,
}

impl Routable for BrokerMessage {
    type Key = String;

    open spec fn origin(&self) -> String {
        self.connection_id
    }

    fn key(&self) -> (key: &String) {
        &self.connection_id
    }
}

/// The source of connection identifiers: a counter that starts at one.
pub struct IdSource {
    next: usize,
}

/// The identifier that follows `id`. The counter wraps after `usize::MAX`.
pub open spec fn following(id: usize) -> usize {
    if id == usize::MAX {
        0
    } else {
        (id + 1) as usize
    }
}

/// The identifier handed out `calls` calls after the one that gave `first`.
pub open spec fn id_after(first: usize, calls: nat) -> usize
    decreases calls,
{
    if calls == 0 {
        first
    } else {
        following(id_after(first, (calls - 1) as nat))
    }
}

impl IdSource {
    /// The identifier that the next call of `get_id` returns.
    pub closed spec fn upcoming(&self) -> usize {
        self.next
    }

    /// A source whose first identifier is one.
    pub fn new() -> (source: Self)
        ensures
            source.upcoming() == 1,
    {
        IdSource { next: 1 }
    }
}

/// Hands out the next connection identifier and advances the source.
pub fn get_id(source: &mut IdSource) -> (id: usize)
    ensures
        id == old(source).upcoming(),
        final(source).upcoming() == following(id),
{
    let id: usize = source.next;
    source.next = if id == usize::MAX {
        0
    } else {
        id + 1
    };
    id
}

/// Collects the settings of a registry before it is built.
pub struct BrokerBuilder {
    buffer_size: usize,
}

impl BrokerBuilder {
    /// The buffer depth the built registry will give each topic channel.
    pub closed spec fn depth(&self) -> usize {
        self.buffer_size
    }

    /// Sets the buffer depth of every topic channel.
    pub fn buffer_size(self, buffer_size: usize) -> (builder: Self)
        ensures
            builder.depth() == buffer_size,
    {
        BrokerBuilder { buffer_size }
    }

    /// Whether a registry can be built with the chosen depth: a channel
    /// holds at least one message and at most `usize::MAX / 2`.
    pub fn is_buildable(&self) -> (ok: bool)
        ensures
            ok == (1 <= self.depth() <= max_depth()),
    {
        1 <= self.buffer_size && self.buffer_size <= usize::MAX / 2
    }

    /// Builds an empty registry with the chosen buffer depth.
    pub fn build<M: Routable + Clone>(self) -> (broker: Broker<M>)
        requires
            1 <= self.depth() <= max_depth(),
        ensures
            broker@ == Map::<Seq<char>, Sender<M>>::empty(),
            broker.depth() == self.depth(),
    {
        Broker { topics: StringHashMap::new(), buffer_size: BufferDepth { slots: self.buffer_size } }
    }
}

impl Default for BrokerBuilder {
    fn default() -> (builder: Self)
        ensures
            builder.depth() == BUFFER_SIZE,
    {
        BrokerBuilder { buffer_size: BUFFER_SIZE }
    }
}

/// The registry as it is after a registration for `topic`, where `created`
/// is the publish handle of the channel that the registration would create.
pub open spec fn registered<M>(
    topics: Map<Seq<char>, Sender<M>>,
    topic: Seq<char>,
    created: Sender<M>,
) -> Map<Seq<char>, Sender<M>> {
    if topics.contains_key(topic) {
        topics
    } else {
        topics.insert(topic, created)
    }
}

/// The registry as it is after a disposal on `topic` that found `live`
/// consumer endpoints still alive.
pub open spec fn released<M>(
    topics: Map<Seq<char>, Sender<M>>,
    topic: Seq<char>,
    live: nat,
) -> Map<Seq<char>, Sender<M>> {
    if live == 0 {
        topics.remove(topic)
    } else {
        topics
    }
}

/// A consumer endpoint bound to one topic. It cannot be duplicated, so its
/// disposal is one event.
#[verifier::reject_recursive_types(M)]
pub struct Subscription<M> {
    topic: String,
    receiver: Receiver<M>,
}

impl<M: Clone> Subscription<M> {
    /// The topic this handle is bound to, as contracts see it.
    pub closed spec fn topic_id(&self) -> Seq<char> {
        self.topic@
    }

    /// The consumer endpoint that this handle owns, as contracts see it.
    pub closed spec fn endpoint(&self) -> Receiver<M> {
        self.receiver
    }

    /// The topic this handle is bound to.
    pub fn topic(&self) -> (topic: &String)
        ensures
            topic@ == self.topic_id(),
    {
        &self.topic
    }

    /// Looks for the next message without suspending. The handle stays bound
    /// to its topic whatever was found.
    pub fn try_receive(&mut self) -> (polled: Polled<M>)
        ensures
            final(self).topic_id() == old(self).topic_id(),
            polled matches Polled::Lagged(missed) ==> missed >= 1,
    {
        poll(&mut self.receiver)
    }

    /// The consumer endpoint itself, for a caller that waits on it: a borrow
    /// of the handle's own endpoint. What the caller leaves in it is the
    /// handle's endpoint afterwards, and the topic stays.
    pub fn receiver(&mut self) -> (receiver: &mut Receiver<M>)
        ensures
            *receiver == old(self).endpoint(),
            final(self).endpoint() == *final(receiver),
            final(self).topic_id() == old(self).topic_id(),
    {
        &mut self.receiver
    }
}

/// A buffer depth that a channel can be created with.
struct BufferDepth {
    slots: usize,
}

impl BufferDepth {
    #[verifier::type_invariant]
    spec fn fits(&self) -> bool {
        1 <= self.slots <= max_depth()
    }

    fn get(&self) -> (slots: usize)
        ensures
            slots == self.slots,
            1 <= slots <= max_depth(),
    {
        proof {
            use_type_invariant(self);
        }
        self.slots
    }
}

/// The topic registry: every topic with a subscriber, and its channel.
#[verifier::reject_recursive_types(M)]
pub struct Broker<M: Routable + Clone> {
    topics: StringHashMap<Sender<M>>,
    buffer_size: BufferDepth,
}

impl<M: Routable + Clone> View for Broker<M> {
    type V = Map<Seq<char>, Sender<M>>;

    closed spec fn view(&self) -> Map<Seq<char>, Sender<M>> {
        self.topics@
    }
}

impl<M: Routable + Clone> Broker<M> {
    /// The buffer depth of every channel this registry creates.
    pub closed spec fn depth(&self) -> usize {
        self.buffer_size.slots
    }

    /// The buffer depth of every channel this registry creates.
    pub fn buffer_depth(&self) -> (depth: usize)
        ensures
            depth == self.depth(),
            1 <= depth <= max_depth(),
    {
        self.buffer_size.get()
    }

    /// Whether the registry holds a channel for `topic_id`.
    pub fn has_topic(&self, topic_id: &String) -> (present: bool)
        ensures
            present == self@.contains_key(topic_id@),
    {
        self.topics.contains_key(topic_id.as_str())
    }

    /// The number of topics that have a channel.
    pub fn topic_count(&self) -> (count: usize)
        ensures
            count == self@.len(),
    {
        self.topics.len()
    }

    /// Joins `topic_id`: returns a publish handle of the topic's channel and
    /// a new subscription on it. The channel is the one the registry already
    /// holds for the topic, or else a new one that this call creates and
    /// enters. Either way the handle returned is the registry's entry for
    /// the topic when the call returns.
    pub fn register(&mut self, topic_id: String) -> (handles: (Sender<M>, Subscription<M>))
        ensures
            final(self)@ == registered(old(self)@, topic_id@, handles.0),
            final(self)@.contains_key(topic_id@),
            final(self)@[topic_id@] == handles.0,
            handles.1.topic_id() == topic_id@,
            final(self).depth() == old(self).depth(),
    {
        match self.topics.get(topic_id.as_str()) {
            Some(sender) => {
                let publisher = duplicate(sender);
                let receiver = subscribe(sender);
                (publisher, Subscription { topic: topic_id, receiver })
            },
            None => {
                let (sender, receiver) = open_channel::<M>(self.buffer_size.get());
                let publisher = duplicate(&sender);
                self.topics.insert(topic_id.clone(), sender);
                (publisher, Subscription { topic: topic_id, receiver })
            },
        }
    }

    /// Applies the outcome of a count of live consumers taken for
    /// `topic_id`: with none left the topic's entry goes, otherwise the
    /// registry stays as it is.
    pub fn settle(&mut self, topic_id: &String, live: usize)
        ensures
            final(self)@ == released(old(self)@, topic_id@, live as nat),
            final(self).depth() == old(self).depth(),
    {
        if live == 0 {
            self.topics.remove(topic_id.as_str());
        }
    }

    /// Removes the entry of `topic_id` if its channel has no live consumer.
    /// The count is read from the channel inside this call, so the check
    /// and the removal are one step of the registry.
    pub fn deregister(&mut self, topic_id: &String)
        ensures
            final(self)@ == old(self)@ || final(self)@ == old(self)@.remove(topic_id@),
            !old(self)@.contains_key(topic_id@) ==> final(self)@ == old(self)@,
            final(self).depth() == old(self).depth(),
    {
        let live = match self.topics.get(topic_id.as_str()) {
            Some(sender) => Some(live_consumers(sender)),
            None => None,
        };
        if let Some(count) = live {
            self.settle(topic_id, count);
        }
    }

    /// Disposes a subscription: its consumer endpoint is closed first, then
    /// the entry of its topic is removed if no other consumer is alive.
    pub fn dispose(&mut self, subscription: Subscription<M>)
        ensures
            final(self)@ == old(self)@ || final(self)@ == old(self)@.remove(
                subscription.topic_id(),
            ),
            !old(self)@.contains_key(subscription.topic_id()) ==> final(self)@ == old(self)@,
            final(self).depth() == old(self).depth(),
    {
        let Subscription { topic, receiver } = subscription;
        close(receiver);
        self.deregister(&topic);
    }
}

/// Two registrations for one topic share one channel: the second creates
/// nothing and is handed the publish handle that the first was handed.
/// `first` and `second` are the handles returned, `once` and `twice` the
/// registry after each call, as `register` relates them.
pub proof fn law_one_channel_per_topic<M>(
    topics: Map<Seq<char>, Sender<M>>,
    topic: Seq<char>,
    first: Sender<M>,
    once: Map<Seq<char>, Sender<M>>,
    second: Sender<M>,
    twice: Map<Seq<char>, Sender<M>>,
)
    requires
        once == registered(topics, topic, first),
        once[topic] == first,
        twice == registered(once, topic, second),
        twice[topic] == second,
    ensures
        twice == once,
        second == first,
{
}

/// Topics do not touch each other: a registration or a disposal on one
/// topic leaves the entry of every other topic as it was, and two
/// registrations on different topics come to the same registry in either
/// order.
pub proof fn law_topics_are_independent<M>(
    topics: Map<Seq<char>, Sender<M>>,
    topic: Seq<char>,
    other: Seq<char>,
    created: Sender<M>,
    created_other: Sender<M>,
    live: nat,
)
    requires
        topic != other,
    ensures
        registered(topics, topic, created).contains_key(other) == topics.contains_key(other),
        registered(topics, topic, created)[other] == topics[other],
        released(topics, topic, live).contains_key(other) == topics.contains_key(other),
        released(topics, topic, live)[other] == topics[other],
        registered(registered(topics, topic, created), other, created_other) == registered(
            registered(topics, other, created_other),
            topic,
            created,
        ),
{
    assert(registered(registered(topics, topic, created), other, created_other) =~= registered(
        registered(topics, other, created_other),
        topic,
        created,
    ));
}

/// The disposal that finds no live consumer removes the topic's entry and
/// no other, and the next registration for the topic enters the channel
/// that it creates itself.
pub proof fn law_last_disposal_removes_the_topic<M>(
    topics: Map<Seq<char>, Sender<M>>,
    topic: Seq<char>,
    created: Sender<M>,
)
    ensures
        !released(topics, topic, 0).contains_key(topic),
        released(topics, topic, 0) == topics.remove(topic),
        registered(released(topics, topic, 0), topic, created) == topics.remove(topic).insert(
            topic,
            created,
        ),
        registered(released(topics, topic, 0), topic, created)[topic] == created,
{
}

/// A disposal never removes a topic that still has a live consumer.
pub proof fn law_live_topic_is_kept<M>(topics: Map<Seq<char>, Sender<M>>, topic: Seq<char>, live: nat)
    requires
        live >= 1,
    ensures
        released(topics, topic, live) == topics,
{
}

/// The last disposal and a new registration for one topic, in either order,
/// leave the topic with an entry, and the newcomer holds the handle of that
/// entry. If the disposal comes first, the entry is the channel that the
/// registration created; if the registration comes first, the disposal
/// counts the newcomer (`live` is at least one) and the old entry stays.
pub proof fn law_disposal_and_registration_do_not_cross<M>(
    topics: Map<Seq<char>, Sender<M>>,
    topic: Seq<char>,
    created: Sender<M>,
    live: nat,
)
    requires
        topics.contains_key(topic),
        live >= 1,
    ensures
        registered(released(topics, topic, 0), topic, created).contains_key(topic),
        registered(released(topics, topic, 0), topic, created)[topic] == created,
        released(registered(topics, topic, created), topic, live).contains_key(topic),
        released(registered(topics, topic, created), topic, live)[topic] == topics[topic],
        registered(topics, topic, created)[topic] == topics[topic],
{
}

/// The identifier handed out `calls` calls after `first` is `first + calls`,
/// counted round the range of `usize`.
pub proof fn lemma_id_after_counts(first: usize, calls: nat)
    ensures
        id_after(first, calls) == (first + calls) % (usize::MAX + 1),
    decreases calls,
{
    if calls > 0 {
        lemma_id_after_counts(first, (calls - 1) as nat);
        let modulus = usize::MAX + 1;
        let before = first + calls - 1;
        assert((before % modulus + 1) % modulus == (before + 1) % modulus) by {
            vstd::arithmetic::div_mod::lemma_add_mod_noop(before, 1, modulus);
            vstd::arithmetic::div_mod::lemma_mod_twice(before, modulus);
            vstd::arithmetic::div_mod::lemma_add_mod_noop(before % modulus, 1, modulus);
        }
        if id_after(first, (calls - 1) as nat) == usize::MAX {
            assert((usize::MAX + 1) % modulus == 0) by {
                vstd::arithmetic::div_mod::lemma_mod_self_0(modulus);
            }
        } else {
            vstd::arithmetic::div_mod::lemma_small_mod((before % modulus + 1) as nat, modulus as nat);
        }
    } else {
        vstd::arithmetic::div_mod::lemma_small_mod(first as nat, (usize::MAX + 1) as nat);
    }
}

/// No identifier is handed out twice within `usize::MAX + 1` calls: two
/// calls that lie less than that apart give different identifiers.
pub proof fn law_ids_are_not_reused(first: usize, earlier: nat, later: nat)
    requires
        earlier < later,
        later - earlier <= usize::MAX,
    ensures
        id_after(first, earlier) != id_after(first, later),
{
    lemma_id_after_counts(first, earlier);
    lemma_id_after_counts(first, later);
    let modulus = usize::MAX + 1;
    if id_after(first, earlier) == id_after(first, later) {
        vstd::arithmetic::div_mod::lemma_mod_equivalence(first + later, first + earlier, modulus);
        let gap = later - earlier;
        assert(gap % modulus == 0);
        vstd::arithmetic::div_mod::lemma_small_mod(gap as nat, modulus as nat);
    }
}


} // verus!
