//! Latencies from the publication of messages to their reception, per subscriber
//! and publisher.
use vstd::prelude::*;

use crate::known::{known_to_option, known_view, Known};
use crate::model::{
    publication_time, receive_time, NodeRef, ObjectStore, ObjectStoreView, PartiallyKnown,
    PublisherRef, SubscriberRef, SubscriptionMessageRef, SubscriptionMessageView, Time,
};
use crate::processed_events::{ros2, Event, FullEvent};

use super::describe::owned;
use super::keyed::{lemma_series_push, position_of, series_of, series_push, KeyedList};
use super::text_order::{
    compare_known_text, known_text_order, lemma_lex_order_antisymmetric, lemma_lex_order_zero,
    ordering_of,
};

use std::cmp::Ordering;

use super::{AnalysisState, EventAnalysis};

verus! {

broadcast use crate::model::store::lemma_view_fits;

/// The key of the latencies of a subscriber and, when known, the publisher of the messages.
pub open spec fn latency_key(subscriber: SubscriberRef, publisher: Option<PublisherRef>) -> u128 {
    let code: u64 = match publisher {
        Some(p) => (p.0 + 1) as u64,
        None => 0,
    };
    (subscriber.0 as u128) | ((code as u128) << 64u128)
}

/// Distinct subscribers or publishers have distinct keys.
pub proof fn lemma_latency_key_injective(s1: SubscriberRef, p1: Option<PublisherRef>, s2: SubscriberRef, p2: Option<PublisherRef>)
    requires
        p1 matches Some(p) ==> p.0 < usize::MAX,
        p2 matches Some(p) ==> p.0 < usize::MAX,
    ensures
        latency_key(s1, p1) == latency_key(s2, p2) ==> s1 == s2 && p1 == p2,
{
    let c1: u64 = match p1 {
        Some(p) => (p.0 + 1) as u64,
        None => 0,
    };
    let c2: u64 = match p2 {
        Some(p) => (p.0 + 1) as u64,
        None => 0,
    };
    let (a, b) = (s1.0 as u64, s2.0 as u64);
    assert(((a as u128) | ((c1 as u128) << 64u128)) == ((b as u128) | ((c2 as u128) << 64u128)) ==> a == b && c1 == c2)
        by (bit_vector);
}

/// The key of the latencies of a subscriber and a publisher, computed.
fn latency_key_of(subscriber: SubscriberRef, publisher: Option<PublisherRef>) -> (r: u128)
    requires
        publisher matches Some(p) ==> p.0 < usize::MAX,
    ensures
        r == latency_key(subscriber, publisher),
{
    let code: u64 = match publisher {
        Some(p) => (p.0 + 1) as u64,
        None => 0,
    };
    (subscriber.0 as u128) | ((code as u128) << 64u128)
}

/// When a received message was sent: the publication time of its publication, or
/// else its sender timestamp.
pub open spec fn sent_time(store: ObjectStoreView, m: SubscriptionMessageView) -> Option<Time> {
    match m.message {
        PartiallyKnown::Fully(p) => publication_time(store.publication_messages[p.0 as int]),
        PartiallyKnown::Partially(t) => Some(t),
        PartiallyKnown::Unknown => None,
    }
}

/// The publisher of a received message, when its publication is known.
pub open spec fn sender_publisher(store: ObjectStoreView, m: SubscriptionMessageView) -> Option<PublisherRef> {
    match m.message {
        PartiallyKnown::Fully(p) => known_to_option(store.publication_messages[p.0 as int].publisher),
        _ => None,
    }
}

/// The latency of a received message, in nanoseconds, when it is known when the
/// message was sent.
pub open spec fn latency_of(store: ObjectStoreView, m: SubscriptionMessageView) -> Option<i64> {
    match sent_time(store, m) {
        Some(s) => Some((receive_time(m)->Some_0.nanos() - s.nanos()) as i64),
        None => None,
    }
}

/// Whether the latency of a received message can be measured: it has been received,
/// its publication has been published, it was not received before it was sent, the
/// latency fits 64 bits, and a message of a known subscriber has a known sending time.
pub open spec fn can_measure(store: ObjectStoreView, message: SubscriptionMessageRef) -> bool {
    let m = store.subscription_messages[message.0 as int];
    &&& store.valid_subscription_message(message)
    &&& receive_time(m) is Some
    &&& (m.message matches PartiallyKnown::Fully(p) ==> publication_time(store.publication_messages[p.0 as int]) is Some)
    &&& (sent_time(store, m) matches Some(s) ==> {
        let r = receive_time(m)->Some_0.nanos();
        s.nanos() <= r && r - s.nanos() <= i64::MAX
    })
    &&& (m.subscriber is Known ==> sent_time(store, m) is Some)
}

/// Collects the latency of every received message.
pub struct MessageLatency {
    messages: Vec<SubscriptionMessageRef>,
    latencies: KeyedList<Vec<i64>>,
    series: Vec<(SubscriberRef, Option<PublisherRef>)>,
}

/// The abstract state of a [`MessageLatency`].
pub struct MessageLatencyView {
    /// Received messages whose latency is not recorded yet, in order of reception.
    pub messages: Seq<SubscriptionMessageRef>,
    /// The keys of the series of latencies, in order of first latency.
    pub keys: Seq<u128>,
    /// The latencies of each series.
    pub latencies: Seq<Seq<i64>>,
    /// The subscriber and publisher of each series.
    pub series: Seq<(SubscriberRef, Option<PublisherRef>)>,
}

impl View for MessageLatency {
    type V = MessageLatencyView;

    closed spec fn view(&self) -> MessageLatencyView {
        MessageLatencyView {
            messages: self.messages@,
            keys: self.latencies.keys(),
            latencies: self.latencies.series(),
            series: self.series@,
        }
    }
}

/// The analysis before any event.
pub open spec fn empty_message_latency() -> MessageLatencyView {
    MessageLatencyView { messages: Seq::empty(), keys: Seq::empty(), latencies: Seq::empty(), series: Seq::empty() }
}

/// The analysis once a message is received: it is remembered unless it already is.
pub open spec fn with_message(a: MessageLatencyView, m: SubscriptionMessageRef) -> MessageLatencyView {
    MessageLatencyView { messages: if a.messages.contains(m) { a.messages } else { a.messages.push(m) }, ..a }
}

/// The analysis once the latency of a message is recorded in the series of its
/// subscriber and publisher; a message without a known subscriber is not recorded.
pub open spec fn record_latency(a: MessageLatencyView, store: ObjectStoreView, message: SubscriptionMessageRef) -> MessageLatencyView {
    let m = store.subscription_messages[message.0 as int];
    match m.subscriber {
        Known::Known(s) => {
            let publisher = sender_publisher(store, m);
            let k = latency_key(s, publisher);
            let (keys, latencies) = series_push(a.keys, a.latencies, k, latency_of(store, m)->Some_0);
            MessageLatencyView {
                keys,
                latencies,
                series: if a.keys.contains(k) { a.series } else { a.series.push((s, publisher)) },
                ..a
            }
        },
        Known::Unknown => a,
    }
}

/// The analysis once a message has been taken by rclcpp: if it was waiting, it stops
/// waiting and its latency is recorded.
pub open spec fn remove_message_spec(a: MessageLatencyView, store: ObjectStoreView, m: SubscriptionMessageRef) -> MessageLatencyView {
    if a.messages.contains(m) {
        record_latency(MessageLatencyView { messages: a.messages.remove(a.messages.index_of(m)), ..a }, store, m)
    } else {
        a
    }
}

/// Whether the analysis can take the event: a message taken again by rcl or rclcpp
/// was received before, and the latency of a message taken by rclcpp can be measured.
pub open spec fn message_latency_accepts(a: MessageLatencyView, e: FullEvent, store: ObjectStoreView) -> bool {
    match e.event {
        Event::Ros2(ros2::Event::RclTake(x)) => !x.is_new ==> a.messages.contains(x.message),
        Event::Ros2(ros2::Event::RclCppTake(x)) => {
            &&& !x.is_new ==> a.messages.contains(x.message)
            &&& can_measure(store, x.message)
        },
        _ => true,
    }
}

/// The analysis after an event: messages are remembered when received and recorded
/// when taken by rclcpp.
pub open spec fn message_latency_step(a: MessageLatencyView, e: FullEvent, store: ObjectStoreView) -> MessageLatencyView {
    match e.event {
        Event::Ros2(ros2::Event::RmwTake(x)) => with_message(a, x.message),
        Event::Ros2(ros2::Event::RclTake(x)) => if x.is_new { with_message(a, x.message) } else { a },
        Event::Ros2(ros2::Event::RclCppTake(x)) => remove_message_spec(
            if x.is_new { with_message(a, x.message) } else { a },
            store,
            x.message,
        ),
        _ => a,
    }
}

/// The analysis once the latencies of the messages still waiting are recorded, in
/// order of reception.
pub open spec fn finalize_message_latency(a: MessageLatencyView, store: ObjectStoreView) -> MessageLatencyView {
    a.messages.fold_left(
        MessageLatencyView { messages: Seq::empty(), ..a },
        |acc: MessageLatencyView, m: SubscriptionMessageRef| record_latency(acc, store, m),
    )
}

/// The latencies, in order, of the messages among `ms` that have a known subscriber and
/// belong to the series `k` of their subscriber and publisher: each its receive time
/// minus its send time.
pub open spec fn waiting_latencies(ms: Seq<SubscriptionMessageRef>, store: ObjectStoreView, k: u128) -> Seq<i64>
    decreases ms.len(),
{
    if ms.len() == 0 {
        Seq::empty()
    } else {
        let prev = waiting_latencies(ms.drop_last(), store, k);
        let m = store.subscription_messages[ms.last().0 as int];
        if m.subscriber is Known && latency_key(m.subscriber->Known_0, sender_publisher(store, m)) == k {
            prev.push((receive_time(m)->Some_0.nanos() - sent_time(store, m)->Some_0.nanos()) as i64)
        } else {
            prev
        }
    }
}

/// Recording the messages `ms` one by one appends to each series exactly the latencies
/// of the messages of that series, in order.
proof fn lemma_record_all(ms: Seq<SubscriptionMessageRef>, b: MessageLatencyView, store: ObjectStoreView)
    requires
        b.keys.no_duplicates(),
        b.keys.len() == b.latencies.len(),
        forall|i: int| 0 <= i < ms.len() ==> can_measure(store, #[trigger] ms[i]),
    ensures
        ({
            let f = ms.fold_left(b, |acc: MessageLatencyView, m: SubscriptionMessageRef| record_latency(acc, store, m));
            &&& f.messages == b.messages
            &&& f.keys.no_duplicates()
            &&& f.keys.len() == f.latencies.len()
            &&& forall|k: u128| #[trigger] series_of(f.keys, f.latencies, k) == series_of(b.keys, b.latencies, k)
                + waiting_latencies(ms, store, k)
        }),
    decreases ms.len(),
{
    let g = |acc: MessageLatencyView, m: SubscriptionMessageRef| record_latency(acc, store, m);
    if ms.len() == 0 {
        assert forall|k: u128| #[trigger] series_of(b.keys, b.latencies, k) == series_of(b.keys, b.latencies, k)
            + waiting_latencies(ms, store, k) by {
            assert(series_of(b.keys, b.latencies, k) + Seq::<i64>::empty() =~= series_of(b.keys, b.latencies, k));
        }
    } else {
        let prefix = ms.drop_last();
        assert forall|i: int| 0 <= i < prefix.len() implies can_measure(store, #[trigger] prefix[i]) by {
            assert(prefix[i] == ms[i]);
        }
        lemma_record_all(prefix, b, store);
        let acc = prefix.fold_left(b, g);
        let last = ms.last();
        assert(can_measure(store, ms[ms.len() - 1]));
        let m = store.subscription_messages[last.0 as int];
        assert(ms.fold_left(b, g) == g(acc, last));
        match m.subscriber {
            Known::Known(sub) => {
                let key = latency_key(sub, sender_publisher(store, m));
                let v = latency_of(store, m)->Some_0;
                assert(v == (receive_time(m)->Some_0.nanos() - sent_time(store, m)->Some_0.nanos()) as i64);
                lemma_series_push(acc.keys, acc.latencies, key, v);
                let f = record_latency(acc, store, last);
                assert forall|k: u128| #[trigger] series_of(f.keys, f.latencies, k) == series_of(b.keys, b.latencies, k)
                    + waiting_latencies(ms, store, k) by {
                    if k == key {
                        assert((series_of(b.keys, b.latencies, k) + waiting_latencies(prefix, store, k)).push(v)
                            =~= series_of(b.keys, b.latencies, k) + waiting_latencies(prefix, store, k).push(v));
                    }
                }
            },
            Known::Unknown => {},
        }
    }
}

/// A message taken by rclcpp that was waiting (or is new) has its latency, its receive
/// time minus its send time, appended to the series of its subscriber and publisher when
/// its subscriber is known; every other series stays as it was.
pub proof fn law_take_records_latency(a: MessageLatencyView, e: FullEvent, store: ObjectStoreView, x: ros2::RclCppTake)
    requires
        a.keys.no_duplicates(),
        a.keys.len() == a.latencies.len(),
        e.event == Event::Ros2(ros2::Event::RclCppTake(x)),
        message_latency_accepts(a, e, store),
    ensures
        ({
            let b = message_latency_step(a, e, store);
            let recorded = if x.is_new || a.messages.contains(x.message) { seq![x.message] } else { Seq::empty() };
            &&& b.keys.no_duplicates()
            &&& b.keys.len() == b.latencies.len()
            &&& forall|k: u128| #[trigger] series_of(b.keys, b.latencies, k) == series_of(a.keys, a.latencies, k)
                + waiting_latencies(recorded, store, k)
        }),
{
    let c = if x.is_new { with_message(a, x.message) } else { a };
    let g = |acc: MessageLatencyView, m: SubscriptionMessageRef| record_latency(acc, store, m);
    if x.is_new && !a.messages.contains(x.message) {
        assert(a.messages.push(x.message)[a.messages.len() as int] == x.message);
    }
    if c.messages.contains(x.message) {
        let c2 = MessageLatencyView { messages: c.messages.remove(c.messages.index_of(x.message)), ..c };
        let one = seq![x.message];
        assert(can_measure(store, one[0]));
        lemma_record_all(one, c2, store);
        assert(one.drop_last() =~= Seq::<SubscriptionMessageRef>::empty());
        reveal_with_fuel(Seq::fold_left, 2);
        assert(one.fold_left(c2, g) == g(c2, x.message));
        assert(x.is_new || a.messages.contains(x.message));
    } else {
        assert(!a.messages.contains(x.message) && !x.is_new);
        assert forall|k: u128| #[trigger] series_of(a.keys, a.latencies, k) == series_of(a.keys, a.latencies, k)
            + waiting_latencies(Seq::empty(), store, k) by {
            assert(series_of(a.keys, a.latencies, k) + Seq::<i64>::empty() =~= series_of(a.keys, a.latencies, k));
        }
    }
}

/// Finalizing records the latency of every message still waiting: each series gets,
/// after its earlier latencies, the latencies of its waiting messages with a known
/// subscriber, in order, and no message waits any more.
pub proof fn law_finalize_records_waiting_messages(a: MessageLatencyView, store: ObjectStoreView)
    requires
        a.keys.no_duplicates(),
        a.keys.len() == a.latencies.len(),
        forall|i: int| 0 <= i < a.messages.len() ==> can_measure(store, #[trigger] a.messages[i]),
    ensures
        ({
            let f = finalize_message_latency(a, store);
            &&& f.messages.len() == 0
            &&& f.keys.no_duplicates()
            &&& f.keys.len() == f.latencies.len()
            &&& forall|k: u128| #[trigger] series_of(f.keys, f.latencies, k) == series_of(a.keys, a.latencies, k)
                + waiting_latencies(a.messages, store, k)
        }),
{
    lemma_record_all(a.messages, MessageLatencyView { messages: Seq::empty(), ..a }, store);
}

/// The latencies between a subscriber and, when known, a publisher.
#[derive(Debug, Clone)]
pub struct MessageLatencyStats {
    topic: Known<String>,
    subscriber: SubscriberRef,
    publisher: Option<PublisherRef>,
    latencies: Vec<i64>,
    node: Known<NodeRef>,
    node_name: Known<String>,
}

/// The abstract value of a [`MessageLatencyStats`].
pub struct MessageLatencyStatsView {
    /// The topic of the subscriber.
    pub topic: Known<Seq<char>>,
    pub subscriber: SubscriberRef,
    pub publisher: Option<PublisherRef>,
    pub latencies: Seq<i64>,
    /// The node of the subscriber.
    pub node: Known<NodeRef>,
    /// The name of that node.
    pub node_name: Known<Seq<char>>,
}

impl View for MessageLatencyStats {
    type V = MessageLatencyStatsView;

    closed spec fn view(&self) -> MessageLatencyStatsView {
        MessageLatencyStatsView {
            topic: known_view(self.topic),
            subscriber: self.subscriber,
            publisher: self.publisher,
            latencies: self.latencies@,
            node: self.node,
            node_name: known_view(self.node_name),
        }
    }
}

impl MessageLatencyStats {
    pub fn topic(&self) -> (r: Known<&str>)
        ensures
            match r {
                Known::Known(s) => self@.topic == Known::Known(s@),
                Known::Unknown => self@.topic is Unknown,
            },
    {
        self.topic.as_deref()
    }

    /// Orders two statistics (see [`stats_order`]).
    pub fn partial_cmp(&self, other: &Self) -> (r: Option<Ordering>)
        ensures
            r == stats_order(self@, other@),
    {
        let by_topic = compare_known_text(&self.topic, &other.topic);
        match by_topic {
            Ordering::Equal => {},
            _ => return Some(by_topic),
        }
        if self.subscriber.0 == other.subscriber.0 {
            return Some(Ordering::Equal);
        }
        match (self.node, other.node) {
            (Known::Known(_), Known::Unknown) => Some(Ordering::Greater),
            (Known::Unknown, Known::Known(_)) => Some(Ordering::Less),
            (Known::Unknown, Known::Unknown) => None,
            (Known::Known(n1), Known::Known(n2)) => {
                if n1.0 == n2.0 {
                    Some(Ordering::Equal)
                } else if self.node_name.is_unknown() && other.node_name.is_unknown() {
                    None
                } else {
                    Some(compare_known_text(&self.node_name, &other.node_name))
                }
            },
        }
    }

    pub fn subscriber(&self) -> (r: SubscriberRef)
        ensures
            r == self@.subscriber,
    {
        self.subscriber
    }

    pub fn publisher(&self) -> (r: Option<PublisherRef>)
        ensures
            r == self@.publisher,
    {
        self.publisher
    }

    pub fn latencies(&self) -> (r: &[i64])
        ensures
            r@ == self@.latencies,
    {
        self.latencies.as_slice()
    }

    pub fn node(&self) -> (r: Known<NodeRef>)
        ensures
            r == self@.node,
    {
        self.node
    }

    pub fn node_name(&self) -> (r: Known<&str>)
        ensures
            match r {
                Known::Known(s) => self@.node_name == Known::Known(s@),
                Known::Unknown => self@.node_name is Unknown,
            },
    {
        self.node_name.as_deref()
    }
}

/// The statistics that a series of latencies gives, with what the store knows of its
/// subscriber.
pub open spec fn stats_of(store: ObjectStoreView, series: (SubscriberRef, Option<PublisherRef>), latencies: Seq<i64>) -> MessageLatencyStatsView {
    let sv = store.subscribers[series.0.0 as int];
    MessageLatencyStatsView {
        topic: sv.topic_name,
        subscriber: series.0,
        publisher: series.1,
        latencies,
        node: sv.node,
        node_name: match sv.node {
            Known::Known(n) => match store.nodes[n.0 as int].full_name {
                Known::Known(name) => Known::Known(name.1),
                Known::Unknown => Known::Unknown,
            },
            Known::Unknown => Known::Unknown,
        },
    }
}

/// How two statistics are ordered: by topic, then (for distinct subscribers) by
/// whether the subscriber's node is known, then (for distinct nodes) by the node's
/// name. `None` where neither the nodes nor their names tell them apart.
pub open spec fn stats_order(a: MessageLatencyStatsView, b: MessageLatencyStatsView) -> Option<Ordering> {
    let by_topic = known_text_order(a.topic, b.topic);
    if by_topic != Ordering::Equal {
        Some(by_topic)
    } else if a.subscriber == b.subscriber {
        Some(Ordering::Equal)
    } else {
        match (a.node, b.node) {
            (Known::Known(_), Known::Unknown) => Some(Ordering::Greater),
            (Known::Unknown, Known::Known(_)) => Some(Ordering::Less),
            (Known::Unknown, Known::Unknown) => None,
            (Known::Known(n1), Known::Known(n2)) => {
                if n1 == n2 {
                    Some(Ordering::Equal)
                } else if a.node_name is Unknown && b.node_name is Unknown {
                    None
                } else {
                    Some(known_text_order(a.node_name, b.node_name))
                }
            },
        }
    }
}

/// The ordering with its two sides swapped.
pub open spec fn reversed(o: Option<Ordering>) -> Option<Ordering> {
    match o {
        Some(Ordering::Less) => Some(Ordering::Greater),
        Some(Ordering::Greater) => Some(Ordering::Less),
        _ => o,
    }
}

/// Comparing two statistics the other way round gives the reversed ordering, so
/// sorting by it is consistent.
pub proof fn law_stats_order_antisymmetric(a: MessageLatencyStatsView, b: MessageLatencyStatsView)
    ensures
        stats_order(b, a) == reversed(stats_order(a, b)),
{
    lemma_known_text_order_antisymmetric(a.topic, b.topic);
    lemma_known_text_order_antisymmetric(a.node_name, b.node_name);
}

/// Swapping two possibly unknown texts reverses their order.
proof fn lemma_known_text_order_antisymmetric(a: Known<Seq<char>>, b: Known<Seq<char>>)
    ensures
        Some(known_text_order(b, a)) == reversed(Some(known_text_order(a, b))),
        known_text_order(a, b) == Ordering::Equal <==> a == b,
{
    if let (Known::Known(x), Known::Known(y)) = (a, b) {
        lemma_lex_order_antisymmetric(x, y);
        lemma_lex_order_zero(x, y);
    }
}

/// A statistic is in order `Equal` with itself.
pub proof fn law_stats_order_reflexive(a: MessageLatencyStatsView)
    ensures
        stats_order(a, a) == Some(Ordering::Equal),
{
    lemma_known_text_order_antisymmetric(a.topic, a.topic);
}

impl MessageLatency {
    /// The series are aligned with their keys, and no message waits twice.
    pub closed spec fn wf(&self) -> bool {
        &&& self.latencies.wf()
        &&& self.messages@.no_duplicates()
        &&& self.series@.len() == self.latencies.keys().len()
        &&& forall|i: int| 0 <= i < self.series@.len() ==> #[trigger] self.latencies.keys()[i] == latency_key(self.series@[i].0, self.series@[i].1)
    }

    /// No (subscriber, publisher) pair has two series of latencies.
    pub proof fn lemma_series_distinct(&self)
        requires
            self.wf(),
        ensures
            self@.series.no_duplicates(),
            self@.series.len() == self@.latencies.len(),
    {
        self.latencies.lemma_keys_distinct();
        assert forall|i: int, j: int| 0 <= i < self@.series.len() && 0 <= j < self@.series.len() && i != j
            implies self@.series[i] != self@.series[j] by {
            assert(self@.keys[i] == latency_key(self@.series[i].0, self@.series[i].1));
            assert(self@.keys[j] == latency_key(self@.series[j].0, self@.series[j].1));
        }
    }

    pub fn new() -> (r: Self)
        ensures
            r.wf(),
            r@ == empty_message_latency(),
    {
        let r = Self { messages: Vec::new(), latencies: KeyedList::new(), series: Vec::new() };
        assert(r@.latencies =~= Seq::<Seq<i64>>::empty());
        assert(r@.messages =~= Seq::<SubscriptionMessageRef>::empty());
        assert(r@.series =~= Seq::<(SubscriberRef, Option<PublisherRef>)>::empty());
        r
    }

    /// Forgets everything.
    pub fn initialize(&mut self)
        ensures
            final(self).wf(),
            final(self)@ == empty_message_latency(),
    {
        self.messages.clear();
        self.latencies.clear();
        self.series.clear();
        assert(self@.latencies =~= Seq::<Seq<i64>>::empty());
    }

    /// The position of a waiting message.
    fn find_message(&self, message: SubscriptionMessageRef) -> (r: Option<usize>)
        requires
            self.wf(),
        ensures
            r is None <==> !self@.messages.contains(message),
            r matches Some(i) ==> i < self@.messages.len() && self@.messages.index_of(message) == i
                && self@.messages[i as int] == message,
    {
        let mut i: usize = 0;
        while i < self.messages.len() && !self.messages[i].same(&message)
            invariant
                i <= self.messages@.len(),
                forall|j: int| 0 <= j < i ==> self.messages@[j] != message,
            decreases self.messages@.len() - i,
        {
            i += 1;
        }
        if i < self.messages.len() {
            proof {
                let j = self@.messages.index_of(message);
                assert(self@.messages[i as int] == message);
                assert(self@.messages[j] == message);
                assert(self.messages@.no_duplicates());
            }
            Some(i)
        } else {
            None
        }
    }

    fn add_message(&mut self, message: SubscriptionMessageRef)
        requires
            old(self).wf(),
        ensures
            final(self).wf(),
            final(self)@ == with_message(old(self)@, message),
    {
        if self.find_message(message).is_none() {
            self.messages.push(message);
            proof {
                assert forall|a: int, b: int| 0 <= a < self@.messages.len() && 0 <= b < self@.messages.len() && a != b
                    implies self@.messages[a] != self@.messages[b] by {
                    if a == self@.messages.len() - 1 {
                        assert(old(self)@.messages[b] != message);
                    }
                    if b == self@.messages.len() - 1 {
                        assert(old(self)@.messages[a] != message);
                    }
                }
            }
        }
    }

    /// The latency of a received message and its publisher, when known.
    fn calculate_latency_and_get_publisher(objects: &ObjectStore, message: SubscriptionMessageRef) -> (r: (Option<i64>, Option<PublisherRef>))
        requires
            objects@.wf(),
            can_measure(objects@, message),
        ensures
            r.0 == latency_of(objects@, objects@.subscription_messages[message.0 as int]),
            r.1 == sender_publisher(objects@, objects@.subscription_messages[message.0 as int]),
    {
        let m = objects.subscription_message(message);
        proof {
            assert(objects@.subscription_message_ok(objects@.subscription_messages[message.0 as int]));
        }
        let receive = m.get_receive_time().unwrap();
        let (send, publisher) = match m.get_publication_message() {
            Some(p) => {
                let publication = objects.publication_message(p);
                (Some(publication.get_publication_time().unwrap()), publication.get_publisher())
            },
            None => match m.get_sender_timestamp() {
                Some(t) => (Some(t), None),
                None => (None, None),
            },
        };
        let latency = match send {
            Some(s) => Some(receive.timestamp_nanos() - s.timestamp_nanos()),
            None => None,
        };
        (latency, publisher)
    }

    /// Records the latency of a message in the series of its subscriber and publisher.
    fn record(&mut self, objects: &ObjectStore, message: SubscriptionMessageRef)
        requires
            old(self).wf(),
            objects@.wf(),
            can_measure(objects@, message),
        ensures
            final(self).wf(),
            final(self)@ == record_latency(old(self)@, objects@, message),
    {
        let (latency, publisher) = Self::calculate_latency_and_get_publisher(objects, message);
        let subscriber = match objects.subscription_message(message).get_subscriber() {
            Some(s) => s,
            None => {
                return;
            },
        };
        proof {
            let mv = objects@.subscription_messages[message.0 as int];
            assert(objects@.subscription_message_ok(mv));
            if let PartiallyKnown::Fully(p) = mv.message {
                assert(objects@.publication_message_ok(objects@.publication_messages[p.0 as int]));
            }
        }
        let key = latency_key_of(subscriber, publisher);
        let known = self.latencies.position(key).is_some();
        self.latencies.append(key, latency.unwrap());
        if !known {
            self.series.push((subscriber, publisher));
        }
        proof {
            assert forall|i: int| 0 <= i < self.series@.len() implies #[trigger] self.latencies.keys()[i] == latency_key(self.series@[i].0, self.series@[i].1) by {
                if i < old(self).series@.len() {
                    assert(old(self).latencies.keys()[i] == latency_key(old(self).series@[i].0, old(self).series@[i].1));
                }
            }
        }
    }

    fn remove_message(&mut self, objects: &ObjectStore, message: SubscriptionMessageRef)
        requires
            old(self).wf(),
            objects@.wf(),
            can_measure(objects@, message),
        ensures
            final(self).wf(),
            final(self)@ == remove_message_spec(old(self)@, objects@, message),
    {
        match self.find_message(message) {
            Some(i) => {
                self.messages.remove(i);
                proof {
                    let s = self@.messages;
                    assert forall|a: int, b: int| 0 <= a < s.len() && 0 <= b < s.len() && a != b implies s[a] != s[b] by {
                        let oa = if a < i { a } else { a + 1 };
                        let ob = if b < i { b } else { b + 1 };
                        assert(s[a] == old(self)@.messages[oa]);
                        assert(s[b] == old(self)@.messages[ob]);
                    }
                }
                self.record(objects, message);
            },
            None => {},
        }
    }

    /// Follows received messages from their reception to their take by rclcpp.
    pub fn process_event(&mut self, full_event: &FullEvent, objects: &ObjectStore)
        requires
            old(self).wf(),
            objects@.wf(),
            message_latency_accepts(old(self)@, *full_event, objects@),
        ensures
            final(self).wf(),
            final(self)@ == message_latency_step(old(self)@, *full_event, objects@),
    {
        match &full_event.event {
            Event::Ros2(ros2::Event::RmwTake(event)) => {
                self.add_message(event.message);
            },
            Event::Ros2(ros2::Event::RclTake(event)) => {
                if event.is_new {
                    self.add_message(event.message);
                }
            },
            Event::Ros2(ros2::Event::RclCppTake(event)) => {
                if event.is_new {
                    self.add_message(event.message);
                }
                self.remove_message(objects, event.message);
            },
            _ => {},
        }
    }

    /// Records the latencies of the messages that rclcpp never took.
    pub fn finalize(&mut self, objects: &ObjectStore)
        requires
            old(self).wf(),
            objects@.wf(),
            forall|i: int| 0 <= i < old(self)@.messages.len() ==> can_measure(objects@, #[trigger] old(self)@.messages[i]),
        ensures
            final(self).wf(),
            final(self)@ == finalize_message_latency(old(self)@, objects@),
            final(self)@.messages.len() == 0,
            forall|k: u128| #[trigger] series_of(final(self)@.keys, final(self)@.latencies, k) == series_of(
                old(self)@.keys,
                old(self)@.latencies,
                k,
            ) + waiting_latencies(old(self)@.messages, objects@, k),
    {
        proof {
            self.latencies.lemma_keys_distinct();
            law_finalize_records_waiting_messages(self@, objects@);
        }
        let mut messages: Vec<SubscriptionMessageRef> = Vec::new();
        std::mem::swap(&mut messages, &mut self.messages);
        let ghost start = MessageLatencyView { messages: Seq::empty(), ..old(self)@ };
        proof {
            assert(self@ == start);
            assert(self@.messages =~= Seq::<SubscriptionMessageRef>::empty());
            assert(self.messages@.no_duplicates());
            assert(messages@ == old(self)@.messages);
        }
        let mut i: usize = 0;
        while i < messages.len()
            invariant
                self.wf(),
                objects@.wf(),
                messages@ == old(self)@.messages,
                i <= messages@.len(),
                forall|j: int| 0 <= j < messages@.len() ==> can_measure(objects@, #[trigger] messages@[j]),
                self@ == messages@.subrange(0, i as int).fold_left(
                    start,
                    |acc: MessageLatencyView, m: SubscriptionMessageRef| record_latency(acc, objects@, m),
                ),
            decreases messages@.len() - i,
        {
            let m = messages[i];
            self.record(objects, m);
            proof {
                let prefix = messages@.subrange(0, i as int + 1);
                assert(prefix.drop_last() =~= messages@.subrange(0, i as int));
            }
            i += 1;
        }
        proof {
            assert(messages@.subrange(0, i as int) =~= messages@);
        }
    }

    /// Whether [`Self::calculate_stats`] can describe every series: the subscriber of
    /// each is in the store.
    pub fn can_calculate_stats(&self, objects: &ObjectStore) -> (r: bool)
        ensures
            r == forall|i: int| 0 <= i < self@.series.len() ==> objects@.valid_subscriber(#[trigger] self@.series[i].0),
    {
        let mut i: usize = 0;
        while i < self.series.len()
            invariant
                i <= self@.series.len(),
                forall|j: int| 0 <= j < i ==> objects@.valid_subscriber(#[trigger] self@.series[j].0),
            decreases self@.series.len() - i,
        {
            if self.series[i].0.0 >= objects.subscriber_count() {
                assert(!objects@.valid_subscriber(self@.series[i as int].0));
                return false;
            }
            i += 1;
        }
        true
    }

    /// The latencies of every series, with what the store knows of its subscriber, in
    /// order of first latency.
    pub fn calculate_stats(&self, objects: &ObjectStore) -> (r: Vec<MessageLatencyStats>)
        requires
            self.wf(),
            objects@.wf(),
            forall|i: int| 0 <= i < self@.series.len() ==> objects@.valid_subscriber(#[trigger] self@.series[i].0),
        ensures
            r@.len() == self@.series.len(),
            forall|i: int| 0 <= i < r@.len() ==> #[trigger] r@[i]@ == stats_of(objects@, self@.series[i], self@.latencies[i]),
            forall|i: int, j: int| 0 <= i < r@.len() && 0 <= j < r@.len() && i != j ==>
                (#[trigger] r@[i]@.subscriber, r@[i]@.publisher) != (#[trigger] r@[j]@.subscriber, r@[j]@.publisher),
    {
        proof {
            self.lemma_series_distinct();
        }
        let mut r: Vec<MessageLatencyStats> = Vec::new();
        let mut i: usize = 0;
        while i < self.series.len()
            invariant
                self.wf(),
                objects@.wf(),
                forall|j: int| 0 <= j < self@.series.len() ==> objects@.valid_subscriber(#[trigger] self@.series[j].0),
                i <= self@.series.len(),
                r@.len() == i,
                forall|j: int| 0 <= j < i ==> #[trigger] r@[j]@ == stats_of(objects@, self@.series[j], self@.latencies[j]),
            decreases self@.series.len() - i,
        {
            let (subscriber, publisher) = self.series[i];
            let _ = self.latencies.key(i);
            let latencies = self.latencies.value(i).clone();
            assert(latencies@ == self@.latencies[i as int]);
            let sub = objects.subscriber(subscriber);
            proof {
                assert(objects@.subscriber_ok(objects@.subscribers[subscriber.0 as int]));
            }
            let node = sub.get_node();
            let node_name = match node {
                Known::Known(n) => owned(objects.node(n).get_name()),
                Known::Unknown => Known::Unknown,
            };
            r.push(MessageLatencyStats {
                topic: owned(sub.get_topic()),
                subscriber,
                publisher,
                latencies,
                node,
                node_name,
            });
            i += 1;
        }
        r
    }
}


/// Whether the latency of a received message can be measured (see [`can_measure`]).
pub fn can_measure_message(objects: &ObjectStore, message: SubscriptionMessageRef) -> (r: bool)
    requires
        objects@.wf(),
    ensures
        r == can_measure(objects@, message),
{
    if message.0 >= objects.subscription_message_count() {
        return false;
    }
    proof {
        assert(objects@.subscription_message_ok(objects@.subscription_messages[message.0 as int]));
    }
    let m = objects.subscription_message(message);
    let receive = match m.get_receive_time() {
        Some(t) => t,
        None => {
            return false;
        },
    };
    let send = match m.get_publication_message() {
        Some(p) => match objects.publication_message(p).get_publication_time() {
            Some(t) => Some(t),
            None => {
                return false;
            },
        },
        None => m.get_sender_timestamp(),
    };
    match send {
        Some(s) => s.timestamp_nanos() <= receive.timestamp_nanos()
            && receive.timestamp_nanos().checked_sub(s.timestamp_nanos()).is_some(),
        None => m.get_subscriber().is_none(),
    }
}

impl MessageLatency {
    /// Whether [`Self::process_event`] can take the event.
    pub fn accepts(&self, full_event: &FullEvent, objects: &ObjectStore) -> (r: bool)
        requires
            self.wf(),
            objects@.wf(),
        ensures
            r == message_latency_accepts(self@, *full_event, objects@),
    {
        match &full_event.event {
            Event::Ros2(ros2::Event::RclTake(event)) => event.is_new || self.find_message(event.message).is_some(),
            Event::Ros2(ros2::Event::RclCppTake(event)) => {
                (event.is_new || self.find_message(event.message).is_some()) && can_measure_message(objects, event.message)
            },
            _ => true,
        }
    }

    /// Whether [`Self::finalize`] can measure every message still waiting.
    pub fn can_finalize(&self, objects: &ObjectStore) -> (r: bool)
        requires
            self.wf(),
            objects@.wf(),
        ensures
            r == (forall|i: int| 0 <= i < self@.messages.len() ==> can_measure(objects@, #[trigger] self@.messages[i])),
    {
        let mut i: usize = 0;
        while i < self.messages.len()
            invariant
                objects@.wf(),
                i <= self@.messages.len(),
                self@.messages == self.messages@,
                forall|j: int| 0 <= j < i ==> can_measure(objects@, #[trigger] self@.messages[j]),
            decreases self@.messages.len() - i,
        {
            if !can_measure_message(objects, self.messages[i]) {
                return false;
            }
            i += 1;
        }
        true
    }
}


impl EventAnalysis for MessageLatency {
    open spec fn consistent(&self) -> bool {
        self.wf()
    }

    open spec fn takes(&self, e: FullEvent, store: ObjectStoreView) -> bool {
        message_latency_accepts(self@, e, store)
    }

    open spec fn finishes(&self, store: ObjectStoreView) -> bool {
        forall|i: int| 0 <= i < self@.messages.len() ==> can_measure(store, #[trigger] self@.messages[i])
    }

    open spec fn state(&self) -> AnalysisState {
        AnalysisState::MessageLatency(self@)
    }

    open spec fn initial_state(&self) -> AnalysisState {
        AnalysisState::MessageLatency(empty_message_latency())
    }

    open spec fn state_after(&self, e: FullEvent, store: ObjectStoreView) -> AnalysisState {
        AnalysisState::MessageLatency(message_latency_step(self@, e, store))
    }

    open spec fn finished_state(&self, store: ObjectStoreView) -> AnalysisState {
        AnalysisState::MessageLatency(finalize_message_latency(self@, store))
    }

    fn initialize(&mut self) {
        MessageLatency::initialize(self);
    }

    fn accepts(&self, e: &FullEvent, objects: &ObjectStore) -> (r: bool) {
        MessageLatency::accepts(self, e, objects)
    }

    fn process_event(&mut self, e: &FullEvent, objects: &ObjectStore) {
        MessageLatency::process_event(self, e, objects);
    }

    fn can_finalize(&self, objects: &ObjectStore) -> (r: bool) {
        MessageLatency::can_finalize(self, objects)
    }

    fn finalize(&mut self, objects: &ObjectStore) {
        MessageLatency::finalize(self, objects);
    }
}

} // verus!
