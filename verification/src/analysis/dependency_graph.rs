//! The graph of how publishers, subscribers, timers and callbacks activate each other,
//! with the delays between activations and the latencies along each edge.
use vstd::prelude::*;

use crate::events_common::{Context, ContextView, Time};
use crate::known::Known;
use crate::model::{
    publication_time, CallbackInstanceRef, CallbackRef, CallbackTrigger, NodeRef, ObjectStore,
    ObjectStoreView, PartiallyKnown, PublisherRef, SubscriberRef, TimerRef,
};
use crate::processed_events::{r2r, ros2, Event, FullEvent};

use super::describe::{callback_node, get_callback_node};
use super::keyed::KeyedList;
use super::threads::{thread_of, RunningCallbacks};

use super::{AnalysisState, EventAnalysis};

verus! {

broadcast use crate::model::store::lemma_view_fits;

/// The latency recorded when no spin wake-up of the node is known.
pub const LATENCY_INVALID: i64 = 9223372036854775807i64;

/// The key under which an object is kept: its position in the store.
pub open spec fn key_of(index: usize) -> u128 {
    index as u128
}

/// Whether a number of nanoseconds fits an `i64`.
pub open spec fn fits_i64(x: int) -> bool {
    i64::MIN <= x <= i64::MAX
}

/// The nanoseconds from `earlier` to `later`.
pub open spec fn since(later: Time, earlier: Time) -> i64 {
    (later.nanos() - earlier.nanos()) as i64
}

/// Whether the delay from the last activation, if any, to `t` fits an `i64`.
pub open spec fn delay_fits(last: Option<Time>, t: Time) -> bool {
    last matches Some(p) ==> fits_i64(t.nanos() - p.nanos())
}

/// The delays once an activation at `t` follows the last one, if any.
pub open spec fn delays_after(delays: Seq<i64>, last: Option<Time>, t: Time) -> Seq<i64> {
    match last {
        Some(p) => delays.push(since(t, p)),
        None => delays,
    }
}

/// A vertex of the dependency graph.
#[derive(Debug, Clone, Copy)]
pub enum Node {
    Publisher(PublisherRef),
    Subscriber(SubscriberRef),
    Timer(TimerRef),
    Callback(CallbackRef),
}

/// An edge of the dependency graph.
#[derive(Debug, Clone, Copy)]
pub enum Edge {
    /// The publisher published while the callback ran.
    PublicationInCallback(PublisherRef, CallbackRef),
    /// A message of the subscriber triggered the callback.
    SubscriberCallbackInvocation(SubscriberRef, CallbackRef),
    /// A service request triggered the (service) callback.
    ServiceCallbackInvocation(CallbackRef, CallbackRef),
    /// The timer triggered the callback.
    TimerCallbackInvocation(TimerRef, CallbackRef),
    /// The subscriber took a message of the publisher.
    PublisherSubscriberCommunication(PublisherRef, SubscriberRef),
}

/// Where an edge starts.
pub open spec fn edge_source(e: Edge) -> Node {
    match e {
        Edge::PublicationInCallback(_, c) => Node::Callback(c),
        Edge::SubscriberCallbackInvocation(s, _) => Node::Subscriber(s),
        Edge::ServiceCallbackInvocation(c, _) => Node::Callback(c),
        Edge::TimerCallbackInvocation(t, _) => Node::Timer(t),
        Edge::PublisherSubscriberCommunication(p, _) => Node::Publisher(p),
    }
}

/// Where an edge ends.
pub open spec fn edge_target(e: Edge) -> Node {
    match e {
        Edge::PublicationInCallback(p, _) => Node::Publisher(p),
        Edge::SubscriberCallbackInvocation(_, c) => Node::Callback(c),
        Edge::ServiceCallbackInvocation(_, c) => Node::Callback(c),
        Edge::TimerCallbackInvocation(_, c) => Node::Callback(c),
        Edge::PublisherSubscriberCommunication(_, s) => Node::Subscriber(s),
    }
}

impl Edge {
    pub fn source(&self) -> (r: Node)
        ensures
            r == edge_source(*self),
    {
        match self {
            Edge::PublicationInCallback(_publisher, callback) => Node::Callback(*callback),
            Edge::SubscriberCallbackInvocation(subscriber, _callback) => Node::Subscriber(*subscriber),
            Edge::ServiceCallbackInvocation(callback, _service) => Node::Callback(*callback),
            Edge::TimerCallbackInvocation(timer, _callback) => Node::Timer(*timer),
            Edge::PublisherSubscriberCommunication(publisher, _subscriber) => Node::Publisher(*publisher),
        }
    }

    pub fn target(&self) -> (r: Node)
        ensures
            r == edge_target(*self),
    {
        match self {
            Edge::PublicationInCallback(publisher, _callback) => Node::Publisher(*publisher),
            Edge::SubscriberCallbackInvocation(_subscriber, callback) => Node::Callback(*callback),
            Edge::ServiceCallbackInvocation(_callback, callback) => Node::Callback(*callback),
            Edge::TimerCallbackInvocation(_timer, callback) => Node::Callback(*callback),
            Edge::PublisherSubscriberCommunication(_publisher, subscriber) => Node::Subscriber(*subscriber),
        }
    }

    /// Whether two edges are the same.
    pub fn same(&self, other: &Edge) -> (r: bool)
        ensures
            r == (*self == *other),
    {
        match (self, other) {
            (Edge::PublicationInCallback(a, b), Edge::PublicationInCallback(c, d)) => a.0 == c.0 && b.0 == d.0,
            (Edge::SubscriberCallbackInvocation(a, b), Edge::SubscriberCallbackInvocation(c, d)) => a.0 == c.0 && b.0 == d.0,
            (Edge::ServiceCallbackInvocation(a, b), Edge::ServiceCallbackInvocation(c, d)) => a.0 == c.0 && b.0 == d.0,
            (Edge::TimerCallbackInvocation(a, b), Edge::TimerCallbackInvocation(c, d)) => a.0 == c.0 && b.0 == d.0,
            (Edge::PublisherSubscriberCommunication(a, b), Edge::PublisherSubscriberCommunication(c, d)) => a.0 == c.0 && b.0 == d.0,
            _ => false,
        }
    }
}

/// The delay from `last`, if any, to `t`, appended to `delays`.
fn push_delay(delays: &mut Vec<i64>, last: Option<Time>, t: Time)
    requires
        delay_fits(last, t),
    ensures
        final(delays)@ == delays_after(old(delays)@, last, t),
        last matches Some(p) ==> final(delays)@ == old(delays)@.push((t.nanos() - p.nanos()) as i64),
        last is None ==> final(delays)@ == old(delays)@,
{
    if let Some(p) = last {
        delays.push(t.timestamp_nanos() - p.timestamp_nanos());
    }
}

/// The activity of a publisher.
#[derive(Debug, Clone)]
pub struct PublisherNode {
    /// Time between two consecutive publications.
    publication_delay: Vec<i64>,
    /// Time of the last publication.
    last_publication: Option<Time>,
}

pub struct PublisherNodeView {
    pub publication_delay: Seq<i64>,
    pub last_publication: Option<Time>,
}

impl View for PublisherNode {
    type V = PublisherNodeView;

    closed spec fn view(&self) -> PublisherNodeView {
        PublisherNodeView { publication_delay: self.publication_delay@, last_publication: self.last_publication }
    }
}

/// A publisher that has not published yet.
pub open spec fn new_publisher_node() -> PublisherNodeView {
    PublisherNodeView { publication_delay: Seq::empty(), last_publication: None }
}

/// A publisher after a publication at `t`.
pub open spec fn publisher_published(n: PublisherNodeView, t: Time) -> PublisherNodeView {
    PublisherNodeView {
        publication_delay: delays_after(n.publication_delay, n.last_publication, t),
        last_publication: Some(t),
    }
}

impl PublisherNode {
    pub fn new() -> (r: Self)
        ensures
            r@ == new_publisher_node(),
    {
        let r = PublisherNode { publication_delay: Vec::new(), last_publication: None };
        assert(r@.publication_delay =~= Seq::<i64>::empty());
        r
    }

    fn activate(&mut self, t: Time)
        requires
            delay_fits(old(self)@.last_publication, t),
        ensures
            final(self)@ == publisher_published(old(self)@, t),
    {
        push_delay(&mut self.publication_delay, self.last_publication, t);
        self.last_publication = Some(t);
    }

    /// Time between two consecutive publications.
    pub fn publication_delay(&self) -> (r: &[i64])
        ensures
            r@ == self@.publication_delay,
    {
        self.publication_delay.as_slice()
    }

    /// Time of the last publication.
    pub fn last_publication(&self) -> (r: Option<Time>)
        ensures
            r == self@.last_publication,
    {
        self.last_publication
    }
}

/// The activity of a subscriber.
#[derive(Debug, Clone)]
pub struct SubscriberNode {
    /// Time between two consecutive take events.
    take_delay: Vec<i64>,
    /// Time of the last take event.
    last_take: Option<Time>,
}

pub struct SubscriberNodeView {
    pub take_delay: Seq<i64>,
    pub last_take: Option<Time>,
}

impl View for SubscriberNode {
    type V = SubscriberNodeView;

    closed spec fn view(&self) -> SubscriberNodeView {
        SubscriberNodeView { take_delay: self.take_delay@, last_take: self.last_take }
    }
}

/// A subscriber that has taken nothing yet.
pub open spec fn new_subscriber_node() -> SubscriberNodeView {
    SubscriberNodeView { take_delay: Seq::empty(), last_take: None }
}

/// A subscriber after taking a message at `t`.
pub open spec fn subscriber_took(n: SubscriberNodeView, t: Time) -> SubscriberNodeView {
    SubscriberNodeView { take_delay: delays_after(n.take_delay, n.last_take, t), last_take: Some(t) }
}

impl SubscriberNode {
    pub fn new() -> (r: Self)
        ensures
            r@ == new_subscriber_node(),
    {
        let r = SubscriberNode { take_delay: Vec::new(), last_take: None };
        assert(r@.take_delay =~= Seq::<i64>::empty());
        r
    }

    fn activate(&mut self, t: Time)
        requires
            delay_fits(old(self)@.last_take, t),
        ensures
            final(self)@ == subscriber_took(old(self)@, t),
    {
        push_delay(&mut self.take_delay, self.last_take, t);
        self.last_take = Some(t);
    }

    /// Time between two consecutive take events.
    pub fn take_delay(&self) -> (r: &[i64])
        ensures
            r@ == self@.take_delay,
    {
        self.take_delay.as_slice()
    }

    /// Time of the last take event.
    pub fn last_take(&self) -> (r: Option<Time>)
        ensures
            r == self@.last_take,
    {
        self.last_take
    }
}

/// The activity of a timer.
#[derive(Debug, Clone)]
pub struct TimerNode {
    /// Time between two consecutive timer activations.
    activation_delay: Vec<i64>,
    /// Last activation time.
    last_activation: Option<Time>,
}

pub struct TimerNodeView {
    pub activation_delay: Seq<i64>,
    pub last_activation: Option<Time>,
}

impl View for TimerNode {
    type V = TimerNodeView;

    closed spec fn view(&self) -> TimerNodeView {
        TimerNodeView { activation_delay: self.activation_delay@, last_activation: self.last_activation }
    }
}

/// A timer that has not fired yet.
pub open spec fn new_timer_node() -> TimerNodeView {
    TimerNodeView { activation_delay: Seq::empty(), last_activation: None }
}

/// A timer after firing at `t`.
pub open spec fn timer_fired(n: TimerNodeView, t: Time) -> TimerNodeView {
    TimerNodeView { activation_delay: delays_after(n.activation_delay, n.last_activation, t), last_activation: Some(t) }
}

impl TimerNode {
    pub fn new() -> (r: Self)
        ensures
            r@ == new_timer_node(),
    {
        let r = TimerNode { activation_delay: Vec::new(), last_activation: None };
        assert(r@.activation_delay =~= Seq::<i64>::empty());
        r
    }

    fn activate(&mut self, t: Time)
        requires
            delay_fits(old(self)@.last_activation, t),
        ensures
            final(self)@ == timer_fired(old(self)@, t),
    {
        push_delay(&mut self.activation_delay, self.last_activation, t);
        self.last_activation = Some(t);
    }

    /// Time between two consecutive timer activations.
    pub fn activation_delay(&self) -> (r: &[i64])
        ensures
            r@ == self@.activation_delay,
    {
        self.activation_delay.as_slice()
    }

    /// Last activation time.
    pub fn last_activation(&self) -> (r: Option<Time>)
        ensures
            r == self@.last_activation,
    {
        self.last_activation
    }
}

/// The activity of a callback.
#[derive(Debug, Clone)]
pub struct CallbackNode {
    /// Time between the starts of two consecutive executions.
    activation_delay: Vec<i64>,
    /// Time from the start to the end of each execution.
    durations: Vec<i64>,
    /// Start of the last execution.
    last_activation: Option<Time>,
}

pub struct CallbackNodeView {
    pub activation_delay: Seq<i64>,
    pub durations: Seq<i64>,
    pub last_activation: Option<Time>,
}

impl View for CallbackNode {
    type V = CallbackNodeView;

    closed spec fn view(&self) -> CallbackNodeView {
        CallbackNodeView {
            activation_delay: self.activation_delay@,
            durations: self.durations@,
            last_activation: self.last_activation,
        }
    }
}

/// A callback that has not run yet.
pub open spec fn new_callback_node() -> CallbackNodeView {
    CallbackNodeView { activation_delay: Seq::empty(), durations: Seq::empty(), last_activation: None }
}

/// A callback after an execution started at `t`.
pub open spec fn callback_started(n: CallbackNodeView, t: Time) -> CallbackNodeView {
    CallbackNodeView {
        activation_delay: delays_after(n.activation_delay, n.last_activation, t),
        last_activation: Some(t),
        ..n
    }
}

/// A callback after its last execution ended at `t`.
pub open spec fn callback_ended(n: CallbackNodeView, t: Time) -> CallbackNodeView {
    CallbackNodeView { durations: n.durations.push(since(t, n.last_activation->Some_0)), ..n }
}

impl CallbackNode {
    pub fn new() -> (r: Self)
        ensures
            r@ == new_callback_node(),
    {
        let r = CallbackNode { activation_delay: Vec::new(), durations: Vec::new(), last_activation: None };
        assert(r@.activation_delay =~= Seq::<i64>::empty());
        assert(r@.durations =~= Seq::<i64>::empty());
        r
    }

    fn start(&mut self, t: Time)
        requires
            delay_fits(old(self)@.last_activation, t),
        ensures
            final(self)@ == callback_started(old(self)@, t),
    {
        push_delay(&mut self.activation_delay, self.last_activation, t);
        self.last_activation = Some(t);
    }

    fn end(&mut self, t: Time)
        requires
            old(self)@.last_activation is Some,
            delay_fits(old(self)@.last_activation, t),
        ensures
            final(self)@ == callback_ended(old(self)@, t),
    {
        let start = self.last_activation.unwrap();
        self.durations.push(t.timestamp_nanos() - start.timestamp_nanos());
    }

    /// Time between the starts of two consecutive executions.
    pub fn activation_delay(&self) -> (r: &[i64])
        ensures
            r@ == self@.activation_delay,
    {
        self.activation_delay.as_slice()
    }

    /// Time from the start to the end of each execution.
    pub fn durations(&self) -> (r: &[i64])
        ensures
            r@ == self@.durations,
    {
        self.durations.as_slice()
    }

    /// Start of the last execution.
    pub fn last_activation(&self) -> (r: Option<Time>)
        ensures
            r == self@.last_activation,
    {
        self.last_activation
    }
}

/// The activity along an edge.
#[derive(Debug, Clone)]
pub struct EdgeData {
    /// Time between two consecutive activations of the edge.
    activation_delay: Vec<i64>,
    /// The latency of each activation.
    latencies: Vec<i64>,
    /// Last activation time.
    last_activation: Option<Time>,
}

pub struct EdgeDataView {
    pub activation_delay: Seq<i64>,
    pub latencies: Seq<i64>,
    pub last_activation: Option<Time>,
}

impl View for EdgeData {
    type V = EdgeDataView;

    closed spec fn view(&self) -> EdgeDataView {
        EdgeDataView {
            activation_delay: self.activation_delay@,
            latencies: self.latencies@,
            last_activation: self.last_activation,
        }
    }
}

/// An edge that was never activated.
pub open spec fn new_edge_data() -> EdgeDataView {
    EdgeDataView { activation_delay: Seq::empty(), latencies: Seq::empty(), last_activation: None }
}

/// An edge after an activation at `t` with the given latency.
pub open spec fn edge_activated(d: EdgeDataView, t: Time, latency: i64) -> EdgeDataView {
    EdgeDataView {
        activation_delay: delays_after(d.activation_delay, d.last_activation, t),
        latencies: d.latencies.push(latency),
        last_activation: Some(t),
    }
}

impl EdgeData {
    pub fn new() -> (r: Self)
        ensures
            r@ == new_edge_data(),
    {
        let r = EdgeData { activation_delay: Vec::new(), latencies: Vec::new(), last_activation: None };
        assert(r@.activation_delay =~= Seq::<i64>::empty());
        assert(r@.latencies =~= Seq::<i64>::empty());
        r
    }

    fn activate(&mut self, t: Time, latency: i64)
        requires
            delay_fits(old(self)@.last_activation, t),
        ensures
            final(self)@ == edge_activated(old(self)@, t, latency),
    {
        push_delay(&mut self.activation_delay, self.last_activation, t);
        self.latencies.push(latency);
        self.last_activation = Some(t);
    }

    /// Time between two consecutive activations of the edge.
    pub fn activation_delay(&self) -> (r: &[i64])
        ensures
            r@ == self@.activation_delay,
    {
        self.activation_delay.as_slice()
    }

    /// The latency of each activation.
    pub fn latencies(&self) -> (r: &[i64])
        ensures
            r@ == self@.latencies,
    {
        self.latencies.as_slice()
    }

    /// Last activation time.
    pub fn last_activation(&self) -> (r: Option<Time>)
        ensures
            r == self@.last_activation,
    {
        self.last_activation
    }
}


/// The dependency graph of a traced application, built event by event.
#[derive(Debug)]
pub struct DependencyGraph {
    ros_nodes: Vec<NodeRef>,
    edges: Vec<Edge>,
    edge_data: Vec<EdgeData>,
    publisher_nodes: KeyedList<PublisherNode>,
    subscriber_nodes: KeyedList<SubscriberNode>,
    timer_nodes: KeyedList<TimerNode>,
    callback_nodes: KeyedList<CallbackNode>,
    last_spin_wake_up_time_for_node: KeyedList<Time>,
    running_callbacks: RunningCallbacks,
}

/// The abstract state of a [`DependencyGraph`]. Publishers, subscribers, timers,
/// callbacks and nodes are keyed by [`key_of`] their position in the store.
pub struct DependencyGraphView {
    /// The nodes initialized so far, in order.
    pub ros_nodes: Seq<NodeRef>,
    /// The activity along each edge activated so far.
    pub edges: Map<Edge, EdgeDataView>,
    pub publisher_nodes: Map<u128, PublisherNodeView>,
    pub subscriber_nodes: Map<u128, SubscriberNodeView>,
    pub timer_nodes: Map<u128, TimerNodeView>,
    pub callback_nodes: Map<u128, CallbackNodeView>,
    /// The last spin wake-up of each node.
    pub last_spin_wake: Map<u128, Time>,
    /// The callback execution running on each thread.
    pub running_callbacks: Map<(u32, Seq<char>), CallbackInstanceRef>,
}

impl View for DependencyGraph {
    type V = DependencyGraphView;

    closed spec fn view(&self) -> DependencyGraphView {
        DependencyGraphView {
            ros_nodes: self.ros_nodes@,
            edges: Map::new(
                |e: Edge| self.edges@.contains(e),
                |e: Edge| self.edge_data@[self.edges@.index_of(e)]@,
            ),
            publisher_nodes: self.publisher_nodes.map().map_values(|n: PublisherNode| n@),
            subscriber_nodes: self.subscriber_nodes.map().map_values(|n: SubscriberNode| n@),
            timer_nodes: self.timer_nodes.map().map_values(|n: TimerNode| n@),
            callback_nodes: self.callback_nodes.map().map_values(|n: CallbackNode| n@),
            last_spin_wake: self.last_spin_wake_up_time_for_node.map(),
            running_callbacks: self.running_callbacks@,
        }
    }
}

/// The graph before any event.
pub open spec fn empty_dependency_graph() -> DependencyGraphView {
    DependencyGraphView {
        ros_nodes: Seq::empty(),
        edges: Map::empty(),
        publisher_nodes: Map::empty(),
        subscriber_nodes: Map::empty(),
        timer_nodes: Map::empty(),
        callback_nodes: Map::empty(),
        last_spin_wake: Map::empty(),
        running_callbacks: Map::empty(),
    }
}

/// The value under `k`, or `d` when there is none.
pub open spec fn entry_or<K, V>(m: Map<K, V>, k: K, d: V) -> V {
    if m.dom().contains(k) {
        m[k]
    } else {
        d
    }
}

/// The activity along `e` so far.
pub open spec fn edge_data_of(g: DependencyGraphView, e: Edge) -> EdgeDataView {
    entry_or(g.edges, e, new_edge_data())
}

/// The graph after an activation of `e` at `t` with the given latency.
pub open spec fn with_edge_activation(g: DependencyGraphView, e: Edge, t: Time, latency: i64) -> DependencyGraphView {
    DependencyGraphView { edges: g.edges.insert(e, edge_activated(edge_data_of(g, e), t, latency)), ..g }
}

/// The latency of a timer or service callback that starts at `t` in `node`: the time
/// since the node's last spin wake-up, or [`LATENCY_INVALID`] when none is known.
pub open spec fn wake_latency(g: DependencyGraphView, node: NodeRef, t: Time) -> i64 {
    if g.last_spin_wake.dom().contains(key_of(node.0)) {
        since(t, g.last_spin_wake[key_of(node.0)])
    } else {
        LATENCY_INVALID
    }
}

/// Whether the time since the node's last spin wake-up, if known, fits an `i64`.
pub open spec fn wake_fits(g: DependencyGraphView, node: NodeRef, t: Time) -> bool {
    g.last_spin_wake.dom().contains(key_of(node.0)) ==> fits_i64(t.nanos() - g.last_spin_wake[key_of(node.0)].nanos())
}

/// Whether an execution of `callback` that `trigger` started at `t` can be recorded:
/// the objects it names exist and are known as far as the record needs, and every
/// delay and latency fits an `i64`.
pub open spec fn edge_to_callback_ok(g: DependencyGraphView, store: ObjectStoreView, callback: CallbackRef, trigger: CallbackTrigger, t: Time) -> bool {
    match trigger {
        CallbackTrigger::SubscriptionMessage(m) => {
            let mv = store.subscription_messages[m.0 as int];
            &&& store.valid_subscription_message(m)
            &&& mv.subscriber is Known
            &&& mv.rmw_receive_time is Known
            &&& fits_i64(t.nanos() - mv.rmw_receive_time->Known_0.nanos())
            &&& delay_fits(edge_data_of(g, Edge::SubscriberCallbackInvocation(mv.subscriber->Known_0, callback)).last_activation, t)
        },
        CallbackTrigger::Timer(tm) => {
            let tv = store.timers[tm.0 as int];
            &&& store.valid_timer(tm)
            &&& tv.node is Known
            &&& delay_fits(entry_or(g.timer_nodes, key_of(tm.0), new_timer_node()).last_activation, t)
            &&& delay_fits(edge_data_of(g, Edge::TimerCallbackInvocation(tm, callback)).last_activation, t)
            &&& wake_fits(g, tv.node->Known_0, t)
        },
        CallbackTrigger::Service(s) => {
            let sv = store.services[s.0 as int];
            &&& store.valid_service(s)
            &&& sv.node is Known
            &&& delay_fits(edge_data_of(g, Edge::ServiceCallbackInvocation(callback, callback)).last_activation, t)
            &&& wake_fits(g, sv.node->Known_0, t)
        },
    }
}

/// The graph after `trigger` started an execution of `callback` at `t`: the edge into
/// the callback is activated (a timer also fires).
pub open spec fn edge_to_callback(g: DependencyGraphView, store: ObjectStoreView, callback: CallbackRef, trigger: CallbackTrigger, t: Time) -> DependencyGraphView {
    match trigger {
        CallbackTrigger::SubscriptionMessage(m) => {
            let mv = store.subscription_messages[m.0 as int];
            with_edge_activation(
                g,
                Edge::SubscriberCallbackInvocation(mv.subscriber->Known_0, callback),
                t,
                since(t, mv.rmw_receive_time->Known_0),
            )
        },
        CallbackTrigger::Timer(tm) => {
            let fired = DependencyGraphView {
                timer_nodes: g.timer_nodes.insert(key_of(tm.0), timer_fired(entry_or(g.timer_nodes, key_of(tm.0), new_timer_node()), t)),
                ..g
            };
            with_edge_activation(
                fired,
                Edge::TimerCallbackInvocation(tm, callback),
                t,
                wake_latency(g, store.timers[tm.0 as int].node->Known_0, t),
            )
        },
        CallbackTrigger::Service(s) => with_edge_activation(
            g,
            Edge::ServiceCallbackInvocation(callback, callback),
            t,
            wake_latency(g, store.services[s.0 as int].node->Known_0, t),
        ),
    }
}

/// Whether a callback execution can start: its thread runs none, and its record fits.
pub open spec fn callback_start_ok(g: DependencyGraphView, store: ObjectStoreView, instance: CallbackInstanceRef, t: Time, context: ContextView) -> bool {
    let iv = store.callback_instances[instance.0 as int];
    &&& store.valid_callback_instance(instance)
    &&& !g.running_callbacks.dom().contains(thread_of(context))
    &&& delay_fits(entry_or(g.callback_nodes, key_of(iv.callback.0), new_callback_node()).last_activation, t)
    &&& edge_to_callback_ok(g, store, iv.callback, iv.trigger, t)
}

/// The graph after an execution started at `t`.
pub open spec fn callback_start(g: DependencyGraphView, store: ObjectStoreView, instance: CallbackInstanceRef, t: Time, context: ContextView) -> DependencyGraphView {
    let iv = store.callback_instances[instance.0 as int];
    let k = key_of(iv.callback.0);
    let started = DependencyGraphView {
        running_callbacks: g.running_callbacks.insert(thread_of(context), instance),
        callback_nodes: g.callback_nodes.insert(k, callback_started(entry_or(g.callback_nodes, k, new_callback_node()), t)),
        ..g
    };
    edge_to_callback(started, store, iv.callback, iv.trigger, t)
}

/// Whether a callback execution can end: no other execution runs on its thread, and
/// its callback has started and its duration fits an `i64`.
pub open spec fn callback_end_ok(g: DependencyGraphView, store: ObjectStoreView, instance: CallbackInstanceRef, t: Time, context: ContextView) -> bool {
    let k = key_of(store.callback_instances[instance.0 as int].callback.0);
    &&& store.valid_callback_instance(instance)
    &&& (g.running_callbacks.dom().contains(thread_of(context)) ==> g.running_callbacks[thread_of(context)] == instance)
    &&& g.callback_nodes.dom().contains(k)
    &&& g.callback_nodes[k].last_activation is Some
    &&& delay_fits(g.callback_nodes[k].last_activation, t)
}

/// The graph after an execution ended at `t`.
pub open spec fn callback_end(g: DependencyGraphView, store: ObjectStoreView, instance: CallbackInstanceRef, t: Time, context: ContextView) -> DependencyGraphView {
    let k = key_of(store.callback_instances[instance.0 as int].callback.0);
    DependencyGraphView {
        running_callbacks: g.running_callbacks.remove(thread_of(context)),
        callback_nodes: g.callback_nodes.insert(k, callback_ended(g.callback_nodes[k], t)),
        ..g
    }
}

/// Whether a take at `t` can be recorded: a taken message has a known subscriber,
/// the publication it carries (if known) has a known publisher and publication time,
/// and every delay and latency fits an `i64`.
pub open spec fn rmw_take_ok(g: DependencyGraphView, store: ObjectStoreView, x: ros2::RmwTake, t: Time) -> bool {
    let mv = store.subscription_messages[x.message.0 as int];
    let sub = mv.subscriber->Known_0;
    x.taken ==> {
        &&& store.valid_subscription_message(x.message)
        &&& mv.subscriber is Known
        &&& delay_fits(entry_or(g.subscriber_nodes, key_of(sub.0), new_subscriber_node()).last_take, t)
        &&& (mv.message matches PartiallyKnown::Fully(pm) ==> {
            let pv = store.publication_messages[pm.0 as int];
            &&& pv.publisher is Known
            &&& publication_time(pv) is Some
            &&& fits_i64(t.nanos() - publication_time(pv)->Some_0.nanos())
            &&& delay_fits(edge_data_of(g, Edge::PublisherSubscriberCommunication(pv.publisher->Known_0, sub)).last_activation, t)
        })
    }
}

/// The graph after a take at `t`: a taken message activates its subscriber and,
/// when its publication is known, the edge from the publisher.
pub open spec fn rmw_take(g: DependencyGraphView, store: ObjectStoreView, x: ros2::RmwTake, t: Time) -> DependencyGraphView {
    let mv = store.subscription_messages[x.message.0 as int];
    let sub = mv.subscriber->Known_0;
    if !x.taken {
        g
    } else {
        let took = DependencyGraphView {
            subscriber_nodes: g.subscriber_nodes.insert(key_of(sub.0), subscriber_took(entry_or(g.subscriber_nodes, key_of(sub.0), new_subscriber_node()), t)),
            ..g
        };
        match mv.message {
            PartiallyKnown::Fully(pm) => {
                let pv = store.publication_messages[pm.0 as int];
                with_edge_activation(
                    took,
                    Edge::PublisherSubscriberCommunication(pv.publisher->Known_0, sub),
                    t,
                    since(t, publication_time(pv)->Some_0),
                )
            },
            _ => took,
        }
    }
}

/// Whether a publication at `t` can be recorded: its publisher is known and every
/// delay and latency fits an `i64`.
pub open spec fn publication_ok(g: DependencyGraphView, store: ObjectStoreView, x: ros2::RclPublish, t: Time, context: ContextView) -> bool {
    let pv = store.publication_messages[x.message.0 as int];
    let p = pv.publisher->Known_0;
    let th = thread_of(context);
    &&& store.valid_publication_message(x.message)
    &&& pv.publisher is Known
    &&& delay_fits(entry_or(g.publisher_nodes, key_of(p.0), new_publisher_node()).last_publication, t)
    &&& (g.running_callbacks.dom().contains(th) ==> {
        let iv = store.callback_instances[g.running_callbacks[th].0 as int];
        &&& store.valid_callback_instance(g.running_callbacks[th])
        &&& fits_i64(t.nanos() - iv.start_time.nanos())
        &&& delay_fits(edge_data_of(g, Edge::PublicationInCallback(p, iv.callback)).last_activation, t)
    })
}

/// The graph after a publication at `t`: the publisher is activated and, when a
/// callback runs on the same thread, the edge from that callback.
pub open spec fn publication(g: DependencyGraphView, store: ObjectStoreView, x: ros2::RclPublish, t: Time, context: ContextView) -> DependencyGraphView {
    let p = store.publication_messages[x.message.0 as int].publisher->Known_0;
    let th = thread_of(context);
    let published = DependencyGraphView {
        publisher_nodes: g.publisher_nodes.insert(key_of(p.0), publisher_published(entry_or(g.publisher_nodes, key_of(p.0), new_publisher_node()), t)),
        ..g
    };
    if g.running_callbacks.dom().contains(th) {
        let iv = store.callback_instances[g.running_callbacks[th].0 as int];
        with_edge_activation(published, Edge::PublicationInCallback(p, iv.callback), t, since(t, iv.start_time))
    } else {
        published
    }
}

/// Whether the graph can take the event.
pub open spec fn dependency_graph_accepts(g: DependencyGraphView, e: FullEvent, store: ObjectStoreView) -> bool {
    match e.event {
        Event::Ros2(ros2::Event::CallbackStart(x)) => callback_start_ok(g, store, x.callback, e.time, e.context@),
        Event::Ros2(ros2::Event::CallbackEnd(x)) => callback_end_ok(g, store, x.callback, e.time, e.context@),
        Event::Ros2(ros2::Event::RmwTake(x)) => rmw_take_ok(g, store, x, e.time),
        Event::Ros2(ros2::Event::RclPublish(x)) => publication_ok(g, store, x, e.time, e.context@),
        _ => true,
    }
}

/// The graph after an event.
pub open spec fn dependency_graph_step(g: DependencyGraphView, e: FullEvent, store: ObjectStoreView) -> DependencyGraphView {
    match e.event {
        Event::Ros2(ros2::Event::RclNodeInit(x)) => DependencyGraphView { ros_nodes: g.ros_nodes.push(x.node), ..g },
        Event::Ros2(ros2::Event::CallbackStart(x)) => callback_start(g, store, x.callback, e.time, e.context@),
        Event::Ros2(ros2::Event::CallbackEnd(x)) => callback_end(g, store, x.callback, e.time, e.context@),
        Event::Ros2(ros2::Event::RmwTake(x)) => rmw_take(g, store, x, e.time),
        Event::Ros2(ros2::Event::RclPublish(x)) => publication(g, store, x, e.time, e.context@),
        Event::R2r(r2r::Event::SpinWake(x)) => DependencyGraphView { last_spin_wake: g.last_spin_wake.insert(key_of(x.node.0), e.time), ..g },
        _ => g,
    }
}


impl DependencyGraph {
    /// The tables are aligned and indexed, and no edge occurs twice.
    pub closed spec fn wf(&self) -> bool {
        &&& self.edges@.len() == self.edge_data@.len()
        &&& self.edges@.no_duplicates()
        &&& self.publisher_nodes.wf()
        &&& self.subscriber_nodes.wf()
        &&& self.timer_nodes.wf()
        &&& self.callback_nodes.wf()
        &&& forall|i: int| 0 <= i < self.publisher_nodes.keys().len() ==> #[trigger] self.publisher_nodes.keys()[i] <= usize::MAX
        &&& forall|i: int| 0 <= i < self.subscriber_nodes.keys().len() ==> #[trigger] self.subscriber_nodes.keys()[i] <= usize::MAX
        &&& forall|i: int| 0 <= i < self.timer_nodes.keys().len() ==> #[trigger] self.timer_nodes.keys()[i] <= usize::MAX
        &&& forall|i: int| 0 <= i < self.callback_nodes.keys().len() ==> #[trigger] self.callback_nodes.keys()[i] <= usize::MAX
        &&& self.last_spin_wake_up_time_for_node.wf()
        &&& self.running_callbacks.wf()
    }

    pub fn new() -> (r: Self)
        ensures
            r.wf(),
            r@ == empty_dependency_graph(),
    {
        let r = DependencyGraph {
            ros_nodes: Vec::new(),
            edges: Vec::new(),
            edge_data: Vec::new(),
            publisher_nodes: KeyedList::new(),
            subscriber_nodes: KeyedList::new(),
            timer_nodes: KeyedList::new(),
            callback_nodes: KeyedList::new(),
            last_spin_wake_up_time_for_node: KeyedList::new(),
            running_callbacks: RunningCallbacks::new(),
        };
        proof {
            assert(r@.ros_nodes =~= Seq::<NodeRef>::empty());
            assert(r@.edges =~= Map::<Edge, EdgeDataView>::empty());
            assert(r@.publisher_nodes =~= Map::<u128, PublisherNodeView>::empty());
            assert(r@.subscriber_nodes =~= Map::<u128, SubscriberNodeView>::empty());
            assert(r@.timer_nodes =~= Map::<u128, TimerNodeView>::empty());
            assert(r@.callback_nodes =~= Map::<u128, CallbackNodeView>::empty());
        }
        r
    }

    /// Forgets everything.
    pub fn initialize(&mut self)
        ensures
            final(self).wf(),
            final(self)@ == empty_dependency_graph(),
    {
        *self = Self::new();
    }

    /// The position of `e` in the edge table.
    fn find_edge(&self, e: &Edge) -> (r: Option<usize>)
        requires
            self.wf(),
        ensures
            r is None <==> !self.edges@.contains(*e),
            r matches Some(i) ==> i < self.edges@.len() && self.edges@[i as int] == *e && self.edges@.index_of(*e) == i,
    {
        let mut i: usize = 0;
        while i < self.edges.len()
            invariant
                self.wf(),
                i <= self.edges@.len(),
                forall|j: int| 0 <= j < i ==> self.edges@[j] != *e,
            decreases self.edges@.len() - i,
        {
            if self.edges[i].same(e) {
                proof {
                    let k = self.edges@.index_of(*e);
                    assert(self.edges@.contains(*e));
                    assert(0 <= k < self.edges@.len() && self.edges@[k] == *e);
                }
                return Some(i);
            }
            i += 1;
        }
        proof {
            if self.edges@.contains(*e) {
                let k = choose|k: int| 0 <= k < self.edges@.len() && self.edges@[k] == *e;
                assert(self.edges@[k] != *e);
            }
        }
        None
    }

    /// Activates `e` at `t` with the given latency.
    fn activate_edge(&mut self, e: Edge, t: Time, latency: i64)
        requires
            old(self).wf(),
            delay_fits(edge_data_of(old(self)@, e).last_activation, t),
        ensures
            final(self).wf(),
            final(self)@ == with_edge_activation(old(self)@, e, t, latency),
    {
        let ghost g = self@;
        let ghost es = self.edges@;
        match self.find_edge(&e) {
            Some(i) => {
                assert(g.edges.dom().contains(e));
                assert(edge_data_of(g, e) == self.edge_data@[i as int]@);
                self.edge_data[i].activate(t, latency);
                let ghost dv = self.edge_data@[i as int]@;
                proof {
                    assert(self.edges@ == es);
                    assert forall|x: Edge| #[trigger] self@.edges.dom().contains(x) implies self@.edges[x] == g.edges.insert(e, dv)[x] by {
                        let k = es.index_of(x);
                        assert(es.contains(x));
                        assert(0 <= k < es.len() && es[k] == x);
                        if x == e {
                            assert(k == i);
                        } else {
                            assert(k != i);
                        }
                    }
                    assert(self@.edges =~= g.edges.insert(e, dv));
                }
            },
            None => {
                let mut d = EdgeData::new();
                d.activate(t, latency);
                let ghost dv = d@;
                self.edges.push(e);
                self.edge_data.push(d);
                proof {
                    let ns = self.edges@;
                    assert(ns =~= es.push(e));
                    assert forall|a: int, b: int| 0 <= a < ns.len() && 0 <= b < ns.len() && a != b implies ns[a] != ns[b] by {
                        if a == ns.len() - 1 {
                            assert(ns[b] == es[b]);
                        } else if b == ns.len() - 1 {
                            assert(ns[a] == es[a]);
                        }
                    }
                    assert forall|x: Edge| #[trigger] self@.edges.dom().contains(x) <==> g.edges.insert(e, dv).dom().contains(x) by {
                        if x != e && ns.contains(x) {
                            let k = choose|k: int| 0 <= k < ns.len() && ns[k] == x;
                            assert(es[k] == x);
                        }
                        if es.contains(x) {
                            let k = choose|k: int| 0 <= k < es.len() && es[k] == x;
                            assert(ns[k] == x);
                        }
                        if x == e {
                            assert(ns[ns.len() - 1] == e);
                        }
                    }
                    assert forall|x: Edge| #[trigger] self@.edges.dom().contains(x) implies self@.edges[x] == g.edges.insert(e, dv)[x] by {
                        let k = ns.index_of(x);
                        assert(ns.contains(x));
                        assert(0 <= k < ns.len() && ns[k] == x);
                        if x == e {
                            assert(k == ns.len() - 1);
                        } else {
                            assert(k != ns.len() - 1);
                            let ko = es.index_of(x);
                            assert(es.contains(x));
                            assert(0 <= ko < es.len() && es[ko] == x);
                            assert(ns[ko] == x);
                        }
                    }
                    assert(self@.edges =~= g.edges.insert(e, dv));
                }
            },
        }
    }
}


impl DependencyGraph {
    /// Records an activation of the publisher at `t`.
    fn publisher_published_at(&mut self, publisher: PublisherRef, t: Time)
        requires
            old(self).wf(),
            delay_fits(entry_or(old(self)@.publisher_nodes, key_of(publisher.0), new_publisher_node()).last_publication, t),
        ensures
            final(self).wf(),
            final(self)@ == (DependencyGraphView {
                publisher_nodes: old(self)@.publisher_nodes.insert(key_of(publisher.0), publisher_published(entry_or(old(self)@.publisher_nodes, key_of(publisher.0), new_publisher_node()), t)),
                ..old(self)@
            }),
    {
        let k = publisher.0 as u128;
        let ghost m0 = self.publisher_nodes.map();
        let i = match self.publisher_nodes.position(k) {
            Some(i) => {
                proof {
                    self.publisher_nodes.lemma_index_of_key(i as int);
                    assert(m0.dom().contains(k));
                }
                i
            },
            None => {
                let n = PublisherNode::new();
                let ghost nv = n@;
                let i = self.publisher_nodes.push(k, n);
                proof {
                    self.publisher_nodes.lemma_index_of_key(i as int);
                    assert(!m0.dom().contains(k));
                    assert(self.publisher_nodes.values()[i as int]@ == nv);
                }
                i
            },
        };
        assert(self.publisher_nodes.values()[i as int]@ == entry_or(old(self)@.publisher_nodes, k, new_publisher_node()));
        let ghost m1 = self.publisher_nodes.map();
        self.publisher_nodes.value_mut(i).activate(t);
        proof {
            let m2 = self.publisher_nodes.map();
            assert(m2 == m1.insert(k, m2[k]));
            assert(m1 == m0 || m1 == m0.insert(k, m1[k]));
            assert(self@.publisher_nodes =~= old(self)@.publisher_nodes.insert(k, m2[k]@));
        }
    }
}

impl DependencyGraph {
    /// Records an activation of the subscriber at `t`.
    fn subscriber_took_at(&mut self, subscriber: SubscriberRef, t: Time)
        requires
            old(self).wf(),
            delay_fits(entry_or(old(self)@.subscriber_nodes, key_of(subscriber.0), new_subscriber_node()).last_take, t),
        ensures
            final(self).wf(),
            final(self)@ == (DependencyGraphView {
                subscriber_nodes: old(self)@.subscriber_nodes.insert(key_of(subscriber.0), subscriber_took(entry_or(old(self)@.subscriber_nodes, key_of(subscriber.0), new_subscriber_node()), t)),
                ..old(self)@
            }),
    {
        let k = subscriber.0 as u128;
        let ghost m0 = self.subscriber_nodes.map();
        let i = match self.subscriber_nodes.position(k) {
            Some(i) => {
                proof {
                    self.subscriber_nodes.lemma_index_of_key(i as int);
                    assert(m0.dom().contains(k));
                }
                i
            },
            None => {
                let n = SubscriberNode::new();
                let ghost nv = n@;
                let i = self.subscriber_nodes.push(k, n);
                proof {
                    self.subscriber_nodes.lemma_index_of_key(i as int);
                    assert(!m0.dom().contains(k));
                    assert(self.subscriber_nodes.values()[i as int]@ == nv);
                }
                i
            },
        };
        assert(self.subscriber_nodes.values()[i as int]@ == entry_or(old(self)@.subscriber_nodes, k, new_subscriber_node()));
        let ghost m1 = self.subscriber_nodes.map();
        self.subscriber_nodes.value_mut(i).activate(t);
        proof {
            let m2 = self.subscriber_nodes.map();
            assert(m2 == m1.insert(k, m2[k]));
            assert(m1 == m0 || m1 == m0.insert(k, m1[k]));
            assert(self@.subscriber_nodes =~= old(self)@.subscriber_nodes.insert(k, m2[k]@));
        }
    }
}

impl DependencyGraph {
    /// Records an activation of the timer at `t`.
    fn process_timer_invocation(&mut self, timer: TimerRef, t: Time)
        requires
            old(self).wf(),
            delay_fits(entry_or(old(self)@.timer_nodes, key_of(timer.0), new_timer_node()).last_activation, t),
        ensures
            final(self).wf(),
            final(self)@ == (DependencyGraphView {
                timer_nodes: old(self)@.timer_nodes.insert(key_of(timer.0), timer_fired(entry_or(old(self)@.timer_nodes, key_of(timer.0), new_timer_node()), t)),
                ..old(self)@
            }),
    {
        let k = timer.0 as u128;
        let ghost m0 = self.timer_nodes.map();
        let i = match self.timer_nodes.position(k) {
            Some(i) => {
                proof {
                    self.timer_nodes.lemma_index_of_key(i as int);
                    assert(m0.dom().contains(k));
                }
                i
            },
            None => {
                let n = TimerNode::new();
                let ghost nv = n@;
                let i = self.timer_nodes.push(k, n);
                proof {
                    self.timer_nodes.lemma_index_of_key(i as int);
                    assert(!m0.dom().contains(k));
                    assert(self.timer_nodes.values()[i as int]@ == nv);
                }
                i
            },
        };
        assert(self.timer_nodes.values()[i as int]@ == entry_or(old(self)@.timer_nodes, k, new_timer_node()));
        let ghost m1 = self.timer_nodes.map();
        self.timer_nodes.value_mut(i).activate(t);
        proof {
            let m2 = self.timer_nodes.map();
            assert(m2 == m1.insert(k, m2[k]));
            assert(m1 == m0 || m1 == m0.insert(k, m1[k]));
            assert(self@.timer_nodes =~= old(self)@.timer_nodes.insert(k, m2[k]@));
        }
    }
}

impl DependencyGraph {
    /// Records an activation of the callback's start at `t`.
    fn callback_started_at(&mut self, callback: CallbackRef, t: Time)
        requires
            old(self).wf(),
            delay_fits(entry_or(old(self)@.callback_nodes, key_of(callback.0), new_callback_node()).last_activation, t),
        ensures
            final(self).wf(),
            final(self)@ == (DependencyGraphView {
                callback_nodes: old(self)@.callback_nodes.insert(key_of(callback.0), callback_started(entry_or(old(self)@.callback_nodes, key_of(callback.0), new_callback_node()), t)),
                ..old(self)@
            }),
    {
        let k = callback.0 as u128;
        let ghost m0 = self.callback_nodes.map();
        let i = match self.callback_nodes.position(k) {
            Some(i) => {
                proof {
                    self.callback_nodes.lemma_index_of_key(i as int);
                    assert(m0.dom().contains(k));
                }
                i
            },
            None => {
                let n = CallbackNode::new();
                let ghost nv = n@;
                let i = self.callback_nodes.push(k, n);
                proof {
                    self.callback_nodes.lemma_index_of_key(i as int);
                    assert(!m0.dom().contains(k));
                    assert(self.callback_nodes.values()[i as int]@ == nv);
                }
                i
            },
        };
        assert(self.callback_nodes.values()[i as int]@ == entry_or(old(self)@.callback_nodes, k, new_callback_node()));
        let ghost m1 = self.callback_nodes.map();
        self.callback_nodes.value_mut(i).start(t);
        proof {
            let m2 = self.callback_nodes.map();
            assert(m2 == m1.insert(k, m2[k]));
            assert(m1 == m0 || m1 == m0.insert(k, m1[k]));
            assert(self@.callback_nodes =~= old(self)@.callback_nodes.insert(k, m2[k]@));
        }
    }
}


/// Whether the nanoseconds from `earlier` to `later` fit an `i64`.
fn difference_fits(later: Time, earlier: Time) -> (r: bool)
    ensures
        r == fits_i64(later.nanos() - earlier.nanos()),
{
    later.timestamp_nanos().checked_sub(earlier.timestamp_nanos()).is_some()
}

/// Whether the delay from `last`, if any, to `t` fits an `i64`.
fn delay_fits_exec(last: Option<Time>, t: Time) -> (r: bool)
    ensures
        r == delay_fits(last, t),
{
    match last {
        Some(p) => difference_fits(t, p),
        None => true,
    }
}

impl DependencyGraph {
    /// Records the end, at `t`, of the running execution of `callback`.
    fn callback_ended_at(&mut self, callback: CallbackRef, t: Time)
        requires
            old(self).wf(),
            old(self)@.callback_nodes.dom().contains(key_of(callback.0)),
            old(self)@.callback_nodes[key_of(callback.0)].last_activation is Some,
            delay_fits(old(self)@.callback_nodes[key_of(callback.0)].last_activation, t),
        ensures
            final(self).wf(),
            final(self)@ == (DependencyGraphView {
                callback_nodes: old(self)@.callback_nodes.insert(
                    key_of(callback.0),
                    callback_ended(old(self)@.callback_nodes[key_of(callback.0)], t),
                ),
                ..old(self)@
            }),
    {
        let k = callback.0 as u128;
        let ghost m0 = self.callback_nodes.map();
        let i = match self.callback_nodes.position(k) {
            Some(i) => i,
            None => {
                assert(m0.dom().contains(k));
                vstd::pervasive::unreached()
            },
        };
        proof {
            self.callback_nodes.lemma_index_of_key(i as int);
        }
        self.callback_nodes.value_mut(i).end(t);
        proof {
            let m2 = self.callback_nodes.map();
            assert(m2 == m0.insert(k, m2[k]));
            assert(self@.callback_nodes =~= old(self)@.callback_nodes.insert(k, m2[k]@));
        }
    }

    /// Records a spin wake-up of `node` at `t`.
    fn spin_woke_at(&mut self, node: NodeRef, t: Time)
        requires
            old(self).wf(),
        ensures
            final(self).wf(),
            final(self)@ == (DependencyGraphView {
                last_spin_wake: old(self)@.last_spin_wake.insert(key_of(node.0), t),
                ..old(self)@
            }),
    {
        let k = node.0 as u128;
        match self.last_spin_wake_up_time_for_node.position(k) {
            Some(i) => {
                *self.last_spin_wake_up_time_for_node.value_mut(i) = t;
            },
            None => {
                self.last_spin_wake_up_time_for_node.push(k, t);
            },
        }
    }

    /// The latency of a timer or service callback of `node` starting at `t`.
    fn wake_latency_of(&self, node: NodeRef, t: Time) -> (r: i64)
        requires
            self.wf(),
            wake_fits(self@, node, t),
        ensures
            r == wake_latency(self@, node, t),
    {
        match self.last_spin_wake_up_time_for_node.get(node.0 as u128) {
            Some(w) => t.timestamp_nanos() - w.timestamp_nanos(),
            None => LATENCY_INVALID,
        }
    }

    /// Records that `trigger` started an execution of `callback` at `t`.
    fn process_edge_to_callback(&mut self, objects: &ObjectStore, callback: CallbackRef, trigger: CallbackTrigger, t: Time)
        requires
            old(self).wf(),
            objects@.wf(),
            edge_to_callback_ok(old(self)@, objects@, callback, trigger, t),
        ensures
            final(self).wf(),
            final(self)@ == edge_to_callback(old(self)@, objects@, callback, trigger, t),
    {
        match trigger {
            CallbackTrigger::SubscriptionMessage(m) => {
                let message = objects.subscription_message(m);
                let subscriber = message.get_subscriber().unwrap();
                let receive_time = message.get_rmw_receive_time().unwrap();
                let latency = t.timestamp_nanos() - receive_time.timestamp_nanos();
                self.activate_edge(Edge::SubscriberCallbackInvocation(subscriber, callback), t, latency);
            },
            CallbackTrigger::Timer(timer) => {
                let node = objects.timer(timer).get_node().unwrap();
                let latency = self.wake_latency_of(node, t);
                self.process_timer_invocation(timer, t);
                self.activate_edge(Edge::TimerCallbackInvocation(timer, callback), t, latency);
            },
            CallbackTrigger::Service(service) => {
                let node = objects.service(service).get_node().unwrap();
                let latency = self.wake_latency_of(node, t);
                self.activate_edge(Edge::ServiceCallbackInvocation(callback, callback), t, latency);
            },
        }
    }

    /// Records the start of an execution at `t` (see [`callback_start`]).
    fn process_callback_start(&mut self, objects: &ObjectStore, instance: CallbackInstanceRef, t: Time, context: &Context)
        requires
            old(self).wf(),
            objects@.wf(),
            callback_start_ok(old(self)@, objects@, instance, t, context@),
        ensures
            final(self).wf(),
            final(self)@ == callback_start(old(self)@, objects@, instance, t, context@),
    {
        self.running_callbacks.insert(context, instance);
        let callback_instance = objects.callback_instance(instance);
        let callback = callback_instance.get_callback();
        self.callback_started_at(callback, t);
        let trigger = *callback_instance.get_trigger();
        self.process_edge_to_callback(objects, callback, trigger, t);
    }

    /// Records the end of an execution at `t` (see [`callback_end`]).
    fn process_callback_end(&mut self, objects: &ObjectStore, instance: CallbackInstanceRef, t: Time, context: &Context)
        requires
            old(self).wf(),
            objects@.wf(),
            callback_end_ok(old(self)@, objects@, instance, t, context@),
        ensures
            final(self).wf(),
            final(self)@ == callback_end(old(self)@, objects@, instance, t, context@),
    {
        let _ = self.running_callbacks.remove(context);
        let callback = objects.callback_instance(instance).get_callback();
        self.callback_ended_at(callback, t);
    }

    /// Records a take at `t` (see [`rmw_take`]).
    fn process_rmw_take(&mut self, objects: &ObjectStore, event: &ros2::RmwTake, t: Time)
        requires
            old(self).wf(),
            objects@.wf(),
            rmw_take_ok(old(self)@, objects@, *event, t),
        ensures
            final(self).wf(),
            final(self)@ == rmw_take(old(self)@, objects@, *event, t),
    {
        if !event.taken {
            return;
        }
        let message = objects.subscription_message(event.message);
        proof {
            assert(objects@.subscription_message_ok(objects@.subscription_messages[event.message.0 as int]));
        }
        let subscriber = message.get_subscriber().unwrap();
        self.subscriber_took_at(subscriber, t);
        let publication_message = match message.get_publication_message() {
            Some(m) => m,
            None => {
                return;
            },
        };
        let publication = objects.publication_message(publication_message);
        let publisher = publication.get_publisher().unwrap();
        let publication_time = publication.get_publication_time().unwrap();
        let latency = t.timestamp_nanos() - publication_time.timestamp_nanos();
        self.activate_edge(Edge::PublisherSubscriberCommunication(publisher, subscriber), t, latency);
    }

    /// Records a publication at `t` (see [`publication`]).
    fn process_publication(&mut self, objects: &ObjectStore, event: &ros2::RclPublish, t: Time, context: &Context)
        requires
            old(self).wf(),
            objects@.wf(),
            publication_ok(old(self)@, objects@, *event, t, context@),
        ensures
            final(self).wf(),
            final(self)@ == publication(old(self)@, objects@, *event, t, context@),
    {
        let publisher = objects.publication_message(event.message).get_publisher().unwrap();
        self.publisher_published_at(publisher, t);
        if let Some(instance) = self.running_callbacks.get(context) {
            let callback_instance = objects.callback_instance(instance);
            let latency = t.timestamp_nanos() - callback_instance.get_start_time().timestamp_nanos();
            self.activate_edge(Edge::PublicationInCallback(publisher, callback_instance.get_callback()), t, latency);
        }
    }

    /// Takes one event (see [`dependency_graph_step`]).
    pub fn process_event(&mut self, full_event: &FullEvent, objects: &ObjectStore)
        requires
            old(self).wf(),
            objects@.wf(),
            dependency_graph_accepts(old(self)@, *full_event, objects@),
        ensures
            final(self).wf(),
            final(self)@ == dependency_graph_step(old(self)@, *full_event, objects@),
    {
        let t = full_event.time;
        match &full_event.event {
            Event::Ros2(ros2::Event::RclNodeInit(event)) => {
                self.ros_nodes.push(event.node);
            },
            Event::Ros2(ros2::Event::CallbackStart(event)) => {
                self.process_callback_start(objects, event.callback, t, &full_event.context);
            },
            Event::Ros2(ros2::Event::CallbackEnd(event)) => {
                self.process_callback_end(objects, event.callback, t, &full_event.context);
            },
            Event::Ros2(ros2::Event::RmwTake(event)) => {
                self.process_rmw_take(objects, event, t);
            },
            Event::Ros2(ros2::Event::RclPublish(event)) => {
                self.process_publication(objects, event, t, &full_event.context);
            },
            Event::R2r(r2r::Event::SpinWake(event)) => {
                self.spin_woke_at(event.node, t);
            },
            _ => {},
        }
    }

    /// Forgets the executions still running.
    pub fn finalize(&mut self)
        requires
            old(self).wf(),
        ensures
            final(self).wf(),
            final(self)@ == (DependencyGraphView { running_callbacks: Map::empty(), ..old(self)@ }),
    {
        self.running_callbacks.clear();
    }
}


impl DependencyGraph {
    /// The last activation of `e`, if any.
    fn edge_last_activation(&self, e: &Edge) -> (r: Option<Time>)
        requires
            self.wf(),
        ensures
            r == edge_data_of(self@, *e).last_activation,
    {
        match self.find_edge(e) {
            Some(i) => self.edge_data[i].last_activation(),
            None => None,
        }
    }

    /// The last publication of `publisher`, if any.
    fn publisher_last(&self, publisher: PublisherRef) -> (r: Option<Time>)
        requires
            self.wf(),
        ensures
            r == entry_or(self@.publisher_nodes, key_of(publisher.0), new_publisher_node()).last_publication,
    {
        match self.publisher_nodes.get(publisher.0 as u128) {
            Some(n) => n.last_publication(),
            None => None,
        }
    }

    /// The last take of `subscriber`, if any.
    fn subscriber_last(&self, subscriber: SubscriberRef) -> (r: Option<Time>)
        requires
            self.wf(),
        ensures
            r == entry_or(self@.subscriber_nodes, key_of(subscriber.0), new_subscriber_node()).last_take,
    {
        match self.subscriber_nodes.get(subscriber.0 as u128) {
            Some(n) => n.last_take(),
            None => None,
        }
    }

    /// The last activation of `timer`, if any.
    fn timer_last(&self, timer: TimerRef) -> (r: Option<Time>)
        requires
            self.wf(),
        ensures
            r == entry_or(self@.timer_nodes, key_of(timer.0), new_timer_node()).last_activation,
    {
        match self.timer_nodes.get(timer.0 as u128) {
            Some(n) => n.last_activation(),
            None => None,
        }
    }

    /// The start of the last execution of `callback`, if any.
    fn callback_last(&self, callback: CallbackRef) -> (r: Option<Time>)
        requires
            self.wf(),
        ensures
            r == entry_or(self@.callback_nodes, key_of(callback.0), new_callback_node()).last_activation,
    {
        match self.callback_nodes.get(callback.0 as u128) {
            Some(n) => n.last_activation(),
            None => None,
        }
    }

    /// Whether the time since the last spin wake-up of `node`, if any, fits an `i64`.
    fn wake_fits_exec(&self, node: NodeRef, t: Time) -> (r: bool)
        requires
            self.wf(),
        ensures
            r == wake_fits(self@, node, t),
    {
        match self.last_spin_wake_up_time_for_node.get(node.0 as u128) {
            Some(w) => difference_fits(t, *w),
            None => true,
        }
    }

    /// Whether the record of an execution that `trigger` started can be made.
    fn edge_to_callback_accepts(&self, objects: &ObjectStore, callback: CallbackRef, trigger: CallbackTrigger, t: Time) -> (r: bool)
        requires
            self.wf(),
            objects@.wf(),
        ensures
            r == edge_to_callback_ok(self@, objects@, callback, trigger, t),
    {
        match trigger {
            CallbackTrigger::SubscriptionMessage(m) => {
                if m.0 >= objects.subscription_message_count() {
                    return false;
                }
                let message = objects.subscription_message(m);
                let subscriber = match message.get_subscriber() {
                    Some(s) => s,
                    None => {
                        return false;
                    },
                };
                let receive_time = match message.get_rmw_receive_time() {
                    Some(r) => r,
                    None => {
                        return false;
                    },
                };
                difference_fits(t, receive_time)
                    && delay_fits_exec(self.edge_last_activation(&Edge::SubscriberCallbackInvocation(subscriber, callback)), t)
            },
            CallbackTrigger::Timer(timer) => {
                if timer.0 >= objects.timer_count() {
                    return false;
                }
                let node = match objects.timer(timer).get_node() {
                    Known::Known(n) => n,
                    Known::Unknown => {
                        return false;
                    },
                };
                delay_fits_exec(self.timer_last(timer), t)
                    && delay_fits_exec(self.edge_last_activation(&Edge::TimerCallbackInvocation(timer, callback)), t)
                    && self.wake_fits_exec(node, t)
            },
            CallbackTrigger::Service(service) => {
                if service.0 >= objects.service_count() {
                    return false;
                }
                let node = match objects.service(service).get_node() {
                    Known::Known(n) => n,
                    Known::Unknown => {
                        return false;
                    },
                };
                delay_fits_exec(self.edge_last_activation(&Edge::ServiceCallbackInvocation(callback, callback)), t)
                    && self.wake_fits_exec(node, t)
            },
        }
    }

    /// Whether [`Self::process_event`] can take the event.
    pub fn accepts(&self, full_event: &FullEvent, objects: &ObjectStore) -> (r: bool)
        requires
            self.wf(),
            objects@.wf(),
        ensures
            r == dependency_graph_accepts(self@, *full_event, objects@),
    {
        let t = full_event.time;
        let context = &full_event.context;
        match &full_event.event {
            Event::Ros2(ros2::Event::CallbackStart(event)) => {
                if event.callback.0 >= objects.callback_instance_count() {
                    return false;
                }
                if self.running_callbacks.get(context).is_some() {
                    return false;
                }
                let instance = objects.callback_instance(event.callback);
                let callback = instance.get_callback();
                delay_fits_exec(self.callback_last(callback), t)
                    && self.edge_to_callback_accepts(objects, callback, *instance.get_trigger(), t)
            },
            Event::Ros2(ros2::Event::CallbackEnd(event)) => {
                if event.callback.0 >= objects.callback_instance_count() {
                    return false;
                }
                if let Some(running) = self.running_callbacks.get(context) {
                    if running.0 != event.callback.0 {
                        return false;
                    }
                }
                let callback = objects.callback_instance(event.callback).get_callback();
                match self.callback_nodes.get(callback.0 as u128) {
                    Some(n) => match n.last_activation() {
                        Some(start) => difference_fits(t, start),
                        None => false,
                    },
                    None => false,
                }
            },
            Event::Ros2(ros2::Event::RmwTake(event)) => {
                if !event.taken {
                    return true;
                }
                if event.message.0 >= objects.subscription_message_count() {
                    return false;
                }
                let message = objects.subscription_message(event.message);
                proof {
                    assert(objects@.subscription_message_ok(objects@.subscription_messages[event.message.0 as int]));
                }
                let subscriber = match message.get_subscriber() {
                    Some(s) => s,
                    None => {
                        return false;
                    },
                };
                if !delay_fits_exec(self.subscriber_last(subscriber), t) {
                    return false;
                }
                match message.get_publication_message() {
                    Some(m) => {
                        let publication = objects.publication_message(m);
                        let publisher = match publication.get_publisher() {
                            Some(p) => p,
                            None => {
                                return false;
                            },
                        };
                        match publication.get_publication_time() {
                            Some(pt) => difference_fits(t, pt)
                                && delay_fits_exec(self.edge_last_activation(&Edge::PublisherSubscriberCommunication(publisher, subscriber)), t),
                            None => false,
                        }
                    },
                    None => true,
                }
            },
            Event::Ros2(ros2::Event::RclPublish(event)) => {
                if event.message.0 >= objects.publication_message_count() {
                    return false;
                }
                let publisher = match objects.publication_message(event.message).get_publisher() {
                    Some(p) => p,
                    None => {
                        return false;
                    },
                };
                if !delay_fits_exec(self.publisher_last(publisher), t) {
                    return false;
                }
                match self.running_callbacks.get(context) {
                    Some(instance) => {
                        if instance.0 >= objects.callback_instance_count() {
                            return false;
                        }
                        let callback_instance = objects.callback_instance(instance);
                        difference_fits(t, callback_instance.get_start_time())
                            && delay_fits_exec(
                                self.edge_last_activation(&Edge::PublicationInCallback(publisher, callback_instance.get_callback())),
                                t,
                            )
                    },
                    None => true,
                }
            },
            _ => true,
        }
    }
}


/// Whether `n` is a vertex of the graph.
pub open spec fn is_graph_node(g: DependencyGraphView, n: Node) -> bool {
    match n {
        Node::Publisher(p) => g.publisher_nodes.dom().contains(key_of(p.0)),
        Node::Subscriber(s) => g.subscriber_nodes.dom().contains(key_of(s.0)),
        Node::Timer(t) => g.timer_nodes.dom().contains(key_of(t.0)),
        Node::Callback(c) => g.callback_nodes.dom().contains(key_of(c.0)),
    }
}

/// Whether the object of a vertex is in the store.
pub open spec fn node_in_store(store: ObjectStoreView, n: Node) -> bool {
    match n {
        Node::Publisher(p) => store.valid_publisher(p),
        Node::Subscriber(s) => store.valid_subscriber(s),
        Node::Timer(t) => store.valid_timer(t),
        Node::Callback(c) => store.valid_callback(c),
    }
}

/// The ROS node that a vertex belongs to, when known.
pub open spec fn owner_of(store: ObjectStoreView, n: Node) -> Known<NodeRef> {
    match n {
        Node::Publisher(p) => store.publishers[p.0 as int].node,
        Node::Subscriber(s) => store.subscribers[s.0 as int].node,
        Node::Timer(t) => store.timers[t.0 as int].node,
        Node::Callback(c) => callback_node(store, c),
    }
}

/// Whether the graph can be laid out: its vertices are in the store, timers and
/// callbacks belong to a known node, and every edge joins two vertices.
pub open spec fn can_display(g: DependencyGraphView, store: ObjectStoreView) -> bool {
    &&& forall|n: Node| #[trigger] is_graph_node(g, n) ==> node_in_store(store, n)
    &&& forall|n: Node| #[trigger] is_graph_node(g, n) && (n is Timer || n is Callback) ==> owner_of(store, n) is Known
    &&& forall|e: Edge| #[trigger] g.edges.dom().contains(e) ==> is_graph_node(g, edge_source(e)) && is_graph_node(g, edge_target(e))
}

spec fn publisher_vertices(keys: Seq<u128>) -> Seq<Node> {
    keys.map_values(|k: u128| Node::Publisher(PublisherRef(k as usize)))
}

spec fn subscriber_vertices(keys: Seq<u128>) -> Seq<Node> {
    keys.map_values(|k: u128| Node::Subscriber(SubscriberRef(k as usize)))
}

spec fn timer_vertices(keys: Seq<u128>) -> Seq<Node> {
    keys.map_values(|k: u128| Node::Timer(TimerRef(k as usize)))
}

spec fn callback_vertices(keys: Seq<u128>) -> Seq<Node> {
    keys.map_values(|k: u128| Node::Callback(CallbackRef(k as usize)))
}

/// The layout of a dependency graph: its vertices with their nodes, and its edges
/// between vertex positions.
#[derive(Debug)]
pub struct DisplayAsDot {
    nodes: Vec<Node>,
    owners: Vec<Known<NodeRef>>,
    ros_nodes: Vec<NodeRef>,
    edges: Vec<(usize, usize, Edge)>,
}

/// The abstract value of a [`DisplayAsDot`].
pub struct DisplayAsDotView {
    /// Every vertex once; the vertex at position `i` has the id `i + 1`.
    pub nodes: Seq<Node>,
    /// The node of each vertex, when known.
    pub owners: Seq<Known<NodeRef>>,
    /// Every known node of a vertex, once.
    pub ros_nodes: Seq<NodeRef>,
    /// Every edge once, with the positions of its source and target.
    pub edges: Seq<(usize, usize, Edge)>,
}

impl View for DisplayAsDot {
    type V = DisplayAsDotView;

    closed spec fn view(&self) -> DisplayAsDotView {
        DisplayAsDotView { nodes: self.nodes@, owners: self.owners@, ros_nodes: self.ros_nodes@, edges: self.edges@ }
    }
}

/// Whether `d` lays out the graph `g` of the objects of `store`.
pub open spec fn lays_out(d: DisplayAsDotView, g: DependencyGraphView, store: ObjectStoreView) -> bool {
    &&& d.nodes.no_duplicates()
    &&& forall|n: Node| #[trigger] d.nodes.contains(n) <==> is_graph_node(g, n)
    &&& d.owners.len() == d.nodes.len()
    &&& forall|i: int| 0 <= i < d.nodes.len() ==> #[trigger] d.owners[i] == owner_of(store, d.nodes[i])
    &&& d.ros_nodes.no_duplicates()
    &&& forall|r: NodeRef| #[trigger] d.ros_nodes.contains(r) <==> d.owners.contains(Known::Known(r))
    &&& d.edges.map_values(|x: (usize, usize, Edge)| x.2).no_duplicates()
    &&& forall|e: Edge| #[trigger] g.edges.dom().contains(e) <==> d.edges.map_values(|x: (usize, usize, Edge)| x.2).contains(e)
    &&& forall|i: int| 0 <= i < d.edges.len() ==> {
        let (a, b, e) = #[trigger] d.edges[i];
        &&& a < d.nodes.len() && d.nodes[a as int] == edge_source(e)
        &&& b < d.nodes.len() && d.nodes[b as int] == edge_target(e)
    }
}

/// Whether two vertices are the same.
fn same_node(a: &Node, b: &Node) -> (r: bool)
    ensures
        r == (*a == *b),
{
    match (a, b) {
        (Node::Publisher(x), Node::Publisher(y)) => x.0 == y.0,
        (Node::Subscriber(x), Node::Subscriber(y)) => x.0 == y.0,
        (Node::Timer(x), Node::Timer(y)) => x.0 == y.0,
        (Node::Callback(x), Node::Callback(y)) => x.0 == y.0,
        _ => false,
    }
}

/// The position of `n` among `nodes`.
fn position_of_node(nodes: &Vec<Node>, n: &Node) -> (r: Option<usize>)
    ensures
        r is None <==> !nodes@.contains(*n),
        r matches Some(i) ==> i < nodes@.len() && nodes@[i as int] == *n,
{
    let mut i: usize = 0;
    while i < nodes.len()
        invariant
            i <= nodes@.len(),
            forall|j: int| 0 <= j < i ==> nodes@[j] != *n,
        decreases nodes@.len() - i,
    {
        if same_node(&nodes[i], n) {
            return Some(i);
        }
        i += 1;
    }
    None
}

impl DisplayAsDot {
    /// Lays out the graph (see [`lays_out`]).
    pub fn new(graph: &DependencyGraph, objects: &ObjectStore) -> (r: Self)
        requires
            graph.wf(),
            objects@.wf(),
            can_display(graph@, objects@),
        ensures
            lays_out(r@, graph@, objects@),
    {
        let mut nodes: Vec<Node> = Vec::new();
        let mut owners: Vec<Known<NodeRef>> = Vec::new();

        let ghost before = nodes@;
        let mut i: usize = 0;
        while i < graph.publisher_nodes.len()
            invariant
                graph.wf(),
                objects@.wf(),
                can_display(graph@, objects@),
                i <= graph.publisher_nodes.keys().len(),
                nodes@ == before + publisher_vertices(graph.publisher_nodes.keys().subrange(0, i as int)),
                owners@.len() == nodes@.len(),
                forall|j: int| 0 <= j < nodes@.len() ==> #[trigger] owners@[j] == owner_of(objects@, nodes@[j]),
            decreases graph.publisher_nodes.keys().len() - i,
        {
            let k = graph.publisher_nodes.key(i);
            let r = PublisherRef(k as usize);
            proof {
                assert(graph.publisher_nodes.map().dom().contains(k));
                assert(is_graph_node(graph@, Node::Publisher(r)));
            }
            nodes.push(Node::Publisher(r));
            owners.push(objects.publisher(r).get_node());
            i += 1;
            proof {
                let ks = graph.publisher_nodes.keys();
                assert(ks.subrange(0, i as int) =~= ks.subrange(0, i - 1).push(k));
                assert(publisher_vertices(ks.subrange(0, i as int)) =~= publisher_vertices(ks.subrange(0, i - 1)).push(Node::Publisher(r)));
                assert(nodes@ =~= before + publisher_vertices(ks.subrange(0, i as int)));
            }
        }
        proof {
            assert(graph.publisher_nodes.keys().subrange(0, i as int) =~= graph.publisher_nodes.keys());
        }

        let ghost before = nodes@;
        let mut i: usize = 0;
        while i < graph.subscriber_nodes.len()
            invariant
                graph.wf(),
                objects@.wf(),
                can_display(graph@, objects@),
                i <= graph.subscriber_nodes.keys().len(),
                nodes@ == before + subscriber_vertices(graph.subscriber_nodes.keys().subrange(0, i as int)),
                owners@.len() == nodes@.len(),
                forall|j: int| 0 <= j < nodes@.len() ==> #[trigger] owners@[j] == owner_of(objects@, nodes@[j]),
            decreases graph.subscriber_nodes.keys().len() - i,
        {
            let k = graph.subscriber_nodes.key(i);
            let r = SubscriberRef(k as usize);
            proof {
                assert(graph.subscriber_nodes.map().dom().contains(k));
                assert(is_graph_node(graph@, Node::Subscriber(r)));
            }
            nodes.push(Node::Subscriber(r));
            owners.push(objects.subscriber(r).get_node());
            i += 1;
            proof {
                let ks = graph.subscriber_nodes.keys();
                assert(ks.subrange(0, i as int) =~= ks.subrange(0, i - 1).push(k));
                assert(subscriber_vertices(ks.subrange(0, i as int)) =~= subscriber_vertices(ks.subrange(0, i - 1)).push(Node::Subscriber(r)));
                assert(nodes@ =~= before + subscriber_vertices(ks.subrange(0, i as int)));
            }
        }
        proof {
            assert(graph.subscriber_nodes.keys().subrange(0, i as int) =~= graph.subscriber_nodes.keys());
        }

        let ghost before = nodes@;
        let mut i: usize = 0;
        while i < graph.timer_nodes.len()
            invariant
                graph.wf(),
                objects@.wf(),
                can_display(graph@, objects@),
                i <= graph.timer_nodes.keys().len(),
                nodes@ == before + timer_vertices(graph.timer_nodes.keys().subrange(0, i as int)),
                owners@.len() == nodes@.len(),
                forall|j: int| 0 <= j < nodes@.len() ==> #[trigger] owners@[j] == owner_of(objects@, nodes@[j]),
            decreases graph.timer_nodes.keys().len() - i,
        {
            let k = graph.timer_nodes.key(i);
            let r = TimerRef(k as usize);
            proof {
                assert(graph.timer_nodes.map().dom().contains(k));
                assert(is_graph_node(graph@, Node::Timer(r)));
            }
            nodes.push(Node::Timer(r));
            owners.push(objects.timer(r).get_node());
            i += 1;
            proof {
                let ks = graph.timer_nodes.keys();
                assert(ks.subrange(0, i as int) =~= ks.subrange(0, i - 1).push(k));
                assert(timer_vertices(ks.subrange(0, i as int)) =~= timer_vertices(ks.subrange(0, i - 1)).push(Node::Timer(r)));
                assert(nodes@ =~= before + timer_vertices(ks.subrange(0, i as int)));
            }
        }
        proof {
            assert(graph.timer_nodes.keys().subrange(0, i as int) =~= graph.timer_nodes.keys());
        }

        let ghost before = nodes@;
        let mut i: usize = 0;
        while i < graph.callback_nodes.len()
            invariant
                graph.wf(),
                objects@.wf(),
                can_display(graph@, objects@),
                i <= graph.callback_nodes.keys().len(),
                nodes@ == before + callback_vertices(graph.callback_nodes.keys().subrange(0, i as int)),
                owners@.len() == nodes@.len(),
                forall|j: int| 0 <= j < nodes@.len() ==> #[trigger] owners@[j] == owner_of(objects@, nodes@[j]),
            decreases graph.callback_nodes.keys().len() - i,
        {
            let k = graph.callback_nodes.key(i);
            let r = CallbackRef(k as usize);
            proof {
                assert(graph.callback_nodes.map().dom().contains(k));
                assert(is_graph_node(graph@, Node::Callback(r)));
            }
            nodes.push(Node::Callback(r));
            owners.push(get_callback_node(objects, r));
            i += 1;
            proof {
                let ks = graph.callback_nodes.keys();
                assert(ks.subrange(0, i as int) =~= ks.subrange(0, i - 1).push(k));
                assert(callback_vertices(ks.subrange(0, i as int)) =~= callback_vertices(ks.subrange(0, i - 1)).push(Node::Callback(r)));
                assert(nodes@ =~= before + callback_vertices(ks.subrange(0, i as int)));
            }
        }
        proof {
            assert(graph.callback_nodes.keys().subrange(0, i as int) =~= graph.callback_nodes.keys());
        }

        proof {
            lemma_vertices(graph, nodes@);
        }
        let mut ros_nodes: Vec<NodeRef> = Vec::new();
        let mut i: usize = 0;
        while i < owners.len()
            invariant
                i <= owners@.len(),
                ros_nodes@.no_duplicates(),
                forall|r: NodeRef| #[trigger] ros_nodes@.contains(r) <==> owners@.subrange(0, i as int).contains(Known::Known(r)),
            decreases owners@.len() - i,
        {
            let ghost prefix = owners@.subrange(0, i as int);
            let ghost old_ros = ros_nodes@;
            if let Known::Known(n) = owners[i] {
                let mut j: usize = 0;
                let mut seen = false;
                while j < ros_nodes.len()
                    invariant
                        j <= ros_nodes@.len(),
                        seen ==> ros_nodes@.contains(n),
                        !seen ==> forall|k: int| 0 <= k < j ==> ros_nodes@[k] != n,
                    decreases ros_nodes@.len() - j,
                {
                    if ros_nodes[j].0 == n.0 {
                        seen = true;
                    }
                    j += 1;
                }
                if !seen {
                    ros_nodes.push(n);
                    proof {
                        assert forall|a: int, b: int| 0 <= a < ros_nodes@.len() && 0 <= b < ros_nodes@.len() && a != b
                            implies ros_nodes@[a] != ros_nodes@[b] by {
                            if a == old_ros.len() {
                                assert(old_ros[b] != n);
                            }
                            if b == old_ros.len() {
                                assert(old_ros[a] != n);
                            }
                        }
                    }
                }
                proof {
                    assert forall|r: NodeRef| #[trigger] ros_nodes@.contains(r) <==> (old_ros.contains(r) || r == n) by {
                        if ros_nodes@.contains(r) && r != n {
                            let k = choose|k: int| 0 <= k < ros_nodes@.len() && ros_nodes@[k] == r;
                            assert(k < old_ros.len());
                            assert(old_ros[k] == r);
                        }
                        if old_ros.contains(r) {
                            let k = choose|k: int| 0 <= k < old_ros.len() && old_ros[k] == r;
                            assert(ros_nodes@[k] == r);
                        }
                        if r == n && !seen {
                            assert(ros_nodes@[old_ros.len() as int] == n);
                        }
                    }
                }
            }
            i += 1;
            proof {
                let next = owners@.subrange(0, i as int);
                assert(next =~= prefix.push(owners@[i - 1]));
                assert forall|r: NodeRef| #[trigger] ros_nodes@.contains(r) <==> next.contains(Known::Known(r)) by {
                    if next.contains(Known::Known(r)) && !prefix.contains(Known::Known(r)) {
                        assert(owners@[i - 1] == Known::Known(r));
                    }
                    if prefix.contains(Known::Known(r)) {
                        let k = choose|k: int| 0 <= k < prefix.len() && prefix[k] == Known::Known(r);
                        assert(next[k] == Known::Known(r));
                    }
                    if owners@[i - 1] == Known::Known(r) {
                        assert(next[i - 1] == Known::Known(r));
                    }
                }
            }
        }
        proof {
            assert(owners@.subrange(0, i as int) =~= owners@);
        }
        let mut edges: Vec<(usize, usize, Edge)> = Vec::new();
        let mut i: usize = 0;
        while i < graph.edges.len()
            invariant
                graph.wf(),
                can_display(graph@, objects@),
                forall|n: Node| #[trigger] nodes@.contains(n) <==> is_graph_node(graph@, n),
                i <= graph.edges@.len(),
                edges@.map_values(|x: (usize, usize, Edge)| x.2) == graph.edges@.subrange(0, i as int),
                forall|j: int| 0 <= j < edges@.len() ==> {
                    let (a, b, e) = #[trigger] edges@[j];
                    &&& a < nodes@.len() && nodes@[a as int] == edge_source(e)
                    &&& b < nodes@.len() && nodes@[b as int] == edge_target(e)
                },
            decreases graph.edges@.len() - i,
        {
            let e = graph.edges[i];
            proof {
                assert(graph@.edges.dom().contains(e));
            }
            let a = match position_of_node(&nodes, &e.source()) {
                Some(a) => a,
                None => {
                    assert(is_graph_node(graph@, edge_source(e)));
                    vstd::pervasive::unreached()
                },
            };
            let b = match position_of_node(&nodes, &e.target()) {
                Some(b) => b,
                None => {
                    assert(is_graph_node(graph@, edge_target(e)));
                    vstd::pervasive::unreached()
                },
            };
            let ghost before = edges@;
            edges.push((a, b, e));
            i += 1;
            proof {
                assert(edges@.map_values(|x: (usize, usize, Edge)| x.2) =~= before.map_values(|x: (usize, usize, Edge)| x.2).push(e));
                assert(graph.edges@.subrange(0, i as int) =~= graph.edges@.subrange(0, i - 1).push(e));
            }
        }
        proof {
            assert(graph.edges@.subrange(0, i as int) =~= graph.edges@);
            assert forall|e: Edge| #[trigger] graph@.edges.dom().contains(e) <==> edges@.map_values(|x: (usize, usize, Edge)| x.2).contains(e) by {}
        }
        DisplayAsDot { nodes, owners, ros_nodes, edges }
    }

    /// Every vertex once; the vertex at position `i` has the id `i + 1`.
    pub fn nodes(&self) -> (r: &[Node])
        ensures
            r@ == self@.nodes,
    {
        self.nodes.as_slice()
    }

    /// The node of each vertex, when known.
    pub fn owners(&self) -> (r: &[Known<NodeRef>])
        ensures
            r@ == self@.owners,
    {
        self.owners.as_slice()
    }

    /// Every known node of a vertex, once.
    pub fn ros_nodes(&self) -> (r: &[NodeRef])
        ensures
            r@ == self@.ros_nodes,
    {
        self.ros_nodes.as_slice()
    }

    /// Every edge once, with the positions of its source and target.
    pub fn edges(&self) -> (r: &[(usize, usize, Edge)])
        ensures
            r@ == self@.edges,
    {
        self.edges.as_slice()
    }
}


/// The publisher vertices of distinct keys are distinct, and are those of the keys.
proof fn lemma_publisher_vertices(keys: Seq<u128>)
    requires
        keys.no_duplicates(),
        forall|i: int| 0 <= i < keys.len() ==> #[trigger] keys[i] <= usize::MAX,
    ensures
        publisher_vertices(keys).no_duplicates(),
        forall|x: PublisherRef| #[trigger] publisher_vertices(keys).contains(Node::Publisher(x)) <==> keys.contains(key_of(x.0)),
        forall|i: int| 0 <= i < keys.len() ==> #[trigger] publisher_vertices(keys)[i] is Publisher,
{
    let v = publisher_vertices(keys);
    assert forall|a: int, b: int| 0 <= a < v.len() && 0 <= b < v.len() && a != b implies v[a] != v[b] by {
        assert(keys[a] != keys[b]);
    }
    assert forall|x: PublisherRef| #[trigger] v.contains(Node::Publisher(x)) <==> keys.contains(key_of(x.0)) by {
        if v.contains(Node::Publisher(x)) {
            let j = choose|j: int| 0 <= j < v.len() && v[j] == Node::Publisher(x);
            assert(keys[j] <= usize::MAX);
            assert(keys[j] == key_of(x.0));
        }
        if keys.contains(key_of(x.0)) {
            let j = choose|j: int| 0 <= j < keys.len() && keys[j] == key_of(x.0);
            assert(v[j] == Node::Publisher(x));
        }
    }
}

/// The subscriber vertices of distinct keys are distinct, and are those of the keys.
proof fn lemma_subscriber_vertices(keys: Seq<u128>)
    requires
        keys.no_duplicates(),
        forall|i: int| 0 <= i < keys.len() ==> #[trigger] keys[i] <= usize::MAX,
    ensures
        subscriber_vertices(keys).no_duplicates(),
        forall|x: SubscriberRef| #[trigger] subscriber_vertices(keys).contains(Node::Subscriber(x)) <==> keys.contains(key_of(x.0)),
        forall|i: int| 0 <= i < keys.len() ==> #[trigger] subscriber_vertices(keys)[i] is Subscriber,
{
    let v = subscriber_vertices(keys);
    assert forall|a: int, b: int| 0 <= a < v.len() && 0 <= b < v.len() && a != b implies v[a] != v[b] by {
        assert(keys[a] != keys[b]);
    }
    assert forall|x: SubscriberRef| #[trigger] v.contains(Node::Subscriber(x)) <==> keys.contains(key_of(x.0)) by {
        if v.contains(Node::Subscriber(x)) {
            let j = choose|j: int| 0 <= j < v.len() && v[j] == Node::Subscriber(x);
            assert(keys[j] <= usize::MAX);
            assert(keys[j] == key_of(x.0));
        }
        if keys.contains(key_of(x.0)) {
            let j = choose|j: int| 0 <= j < keys.len() && keys[j] == key_of(x.0);
            assert(v[j] == Node::Subscriber(x));
        }
    }
}

/// The timer vertices of distinct keys are distinct, and are those of the keys.
proof fn lemma_timer_vertices(keys: Seq<u128>)
    requires
        keys.no_duplicates(),
        forall|i: int| 0 <= i < keys.len() ==> #[trigger] keys[i] <= usize::MAX,
    ensures
        timer_vertices(keys).no_duplicates(),
        forall|x: TimerRef| #[trigger] timer_vertices(keys).contains(Node::Timer(x)) <==> keys.contains(key_of(x.0)),
        forall|i: int| 0 <= i < keys.len() ==> #[trigger] timer_vertices(keys)[i] is Timer,
{
    let v = timer_vertices(keys);
    assert forall|a: int, b: int| 0 <= a < v.len() && 0 <= b < v.len() && a != b implies v[a] != v[b] by {
        assert(keys[a] != keys[b]);
    }
    assert forall|x: TimerRef| #[trigger] v.contains(Node::Timer(x)) <==> keys.contains(key_of(x.0)) by {
        if v.contains(Node::Timer(x)) {
            let j = choose|j: int| 0 <= j < v.len() && v[j] == Node::Timer(x);
            assert(keys[j] <= usize::MAX);
            assert(keys[j] == key_of(x.0));
        }
        if keys.contains(key_of(x.0)) {
            let j = choose|j: int| 0 <= j < keys.len() && keys[j] == key_of(x.0);
            assert(v[j] == Node::Timer(x));
        }
    }
}

/// The callback vertices of distinct keys are distinct, and are those of the keys.
proof fn lemma_callback_vertices(keys: Seq<u128>)
    requires
        keys.no_duplicates(),
        forall|i: int| 0 <= i < keys.len() ==> #[trigger] keys[i] <= usize::MAX,
    ensures
        callback_vertices(keys).no_duplicates(),
        forall|x: CallbackRef| #[trigger] callback_vertices(keys).contains(Node::Callback(x)) <==> keys.contains(key_of(x.0)),
        forall|i: int| 0 <= i < keys.len() ==> #[trigger] callback_vertices(keys)[i] is Callback,
{
    let v = callback_vertices(keys);
    assert forall|a: int, b: int| 0 <= a < v.len() && 0 <= b < v.len() && a != b implies v[a] != v[b] by {
        assert(keys[a] != keys[b]);
    }
    assert forall|x: CallbackRef| #[trigger] v.contains(Node::Callback(x)) <==> keys.contains(key_of(x.0)) by {
        if v.contains(Node::Callback(x)) {
            let j = choose|j: int| 0 <= j < v.len() && v[j] == Node::Callback(x);
            assert(keys[j] <= usize::MAX);
            assert(keys[j] == key_of(x.0));
        }
        if keys.contains(key_of(x.0)) {
            let j = choose|j: int| 0 <= j < keys.len() && keys[j] == key_of(x.0);
            assert(v[j] == Node::Callback(x));
        }
    }
}

/// Two sequences without duplicates and without common elements join into one without
/// duplicates.
proof fn lemma_concat_distinct(a: Seq<Node>, b: Seq<Node>)
    requires
        a.no_duplicates(),
        b.no_duplicates(),
        forall|i: int, j: int| 0 <= i < a.len() && 0 <= j < b.len() ==> a[i] != b[j],
    ensures
        (a + b).no_duplicates(),
{
    let c = a + b;
    assert forall|x: int, y: int| 0 <= x < c.len() && 0 <= y < c.len() && x != y implies c[x] != c[y] by {
        if x < a.len() && y >= a.len() {
            assert(a[x] != b[y - a.len()]);
        } else if x >= a.len() && y < a.len() {
            assert(a[y] != b[x - a.len()]);
        }
    }
}

/// The vertices gathered from the four tables are the graph's, each once.
proof fn lemma_vertices(graph: &DependencyGraph, nodes: Seq<Node>)
    requires
        graph.wf(),
        nodes == Seq::<Node>::empty() + publisher_vertices(graph.publisher_nodes.keys())
            + subscriber_vertices(graph.subscriber_nodes.keys()) + timer_vertices(graph.timer_nodes.keys())
            + callback_vertices(graph.callback_nodes.keys()),
    ensures
        nodes.no_duplicates(),
        forall|n: Node| #[trigger] nodes.contains(n) <==> is_graph_node(graph@, n),
{
    graph.publisher_nodes.lemma_keys_distinct();
    graph.subscriber_nodes.lemma_keys_distinct();
    graph.timer_nodes.lemma_keys_distinct();
    graph.callback_nodes.lemma_keys_distinct();
    let pk = graph.publisher_nodes.keys();
    let sk = graph.subscriber_nodes.keys();
    let tk = graph.timer_nodes.keys();
    let ck = graph.callback_nodes.keys();
    lemma_publisher_vertices(pk);
    lemma_subscriber_vertices(sk);
    lemma_timer_vertices(tk);
    lemma_callback_vertices(ck);
    let p = publisher_vertices(pk);
    let s = subscriber_vertices(sk);
    let t = timer_vertices(tk);
    let c = callback_vertices(ck);
    assert(Seq::<Node>::empty() + p =~= p);
    lemma_concat_distinct(p, s);
    let ps = p + s;
    assert forall|i: int, j: int| 0 <= i < ps.len() && 0 <= j < t.len() implies ps[i] != t[j] by {
        assert(t[j] is Timer);
        if i < p.len() {
            assert(p[i] is Publisher);
        } else {
            assert(s[i - p.len()] is Subscriber);
        }
    }
    lemma_concat_distinct(ps, t);
    let pst = ps + t;
    assert forall|i: int, j: int| 0 <= i < pst.len() && 0 <= j < c.len() implies pst[i] != c[j] by {
        assert(c[j] is Callback);
        if i < p.len() {
            assert(p[i] is Publisher);
        } else if i < ps.len() {
            assert(s[i - p.len()] is Subscriber);
        } else {
            assert(t[i - ps.len()] is Timer);
        }
    }
    lemma_concat_distinct(pst, c);
    assert(nodes =~= pst + c);
    assert forall|n: Node| #[trigger] nodes.contains(n) <==> is_graph_node(graph@, n) by {
        if nodes.contains(n) {
            let k = choose|k: int| 0 <= k < nodes.len() && nodes[k] == n;
            if k < p.len() {
                assert(p.contains(n));
            } else if k < ps.len() {
                assert(s[k - p.len()] == n);
                assert(s.contains(n));
            } else if k < pst.len() {
                assert(t[k - ps.len()] == n);
                assert(t.contains(n));
            } else {
                assert(c[k - pst.len()] == n);
                assert(c.contains(n));
            }
        }
        if is_graph_node(graph@, n) {
            match n {
                Node::Publisher(x) => {
                    assert(pk.contains(key_of(x.0)));
                    assert(p.contains(n));
                    let k = choose|k: int| 0 <= k < p.len() && p[k] == n;
                    assert(nodes[k] == n);
                },
                Node::Subscriber(x) => {
                    assert(sk.contains(key_of(x.0)));
                    assert(s.contains(n));
                    let k = choose|k: int| 0 <= k < s.len() && s[k] == n;
                    assert(nodes[p.len() + k] == n);
                },
                Node::Timer(x) => {
                    assert(tk.contains(key_of(x.0)));
                    assert(t.contains(n));
                    let k = choose|k: int| 0 <= k < t.len() && t[k] == n;
                    assert(nodes[ps.len() + k] == n);
                },
                Node::Callback(x) => {
                    assert(ck.contains(key_of(x.0)));
                    assert(c.contains(n));
                    let k = choose|k: int| 0 <= k < c.len() && c[k] == n;
                    assert(nodes[pst.len() + k] == n);
                },
            }
        }
    }
}

impl DependencyGraph {
    /// Lays the graph out (see [`DisplayAsDot::new`]).
    pub fn display_as_dot(&self, objects: &ObjectStore) -> (r: DisplayAsDot)
        requires
            self.wf(),
            objects@.wf(),
            can_display(self@, objects@),
        ensures
            lays_out(r@, self@, objects@),
    {
        DisplayAsDot::new(self, objects)
    }
}


/// Every edge and vertex of the graph has been activated, and every edge has one
/// latency more than delays between its activations.
pub open spec fn graph_consistent(g: DependencyGraphView) -> bool {
    &&& forall|e: Edge| #[trigger] g.edges.dom().contains(e) ==> {
        &&& g.edges[e].last_activation is Some
        &&& g.edges[e].latencies.len() == g.edges[e].activation_delay.len() + 1
    }
    &&& forall|k: u128| #[trigger] g.publisher_nodes.dom().contains(k) ==> g.publisher_nodes[k].last_publication is Some
    &&& forall|k: u128| #[trigger] g.subscriber_nodes.dom().contains(k) ==> g.subscriber_nodes[k].last_take is Some
    &&& forall|k: u128| #[trigger] g.timer_nodes.dom().contains(k) ==> g.timer_nodes[k].last_activation is Some
    &&& forall|k: u128| #[trigger] g.callback_nodes.dom().contains(k) ==> g.callback_nodes[k].last_activation is Some
}

/// An activation of an edge keeps the graph consistent.
proof fn lemma_edge_activation_consistent(g: DependencyGraphView, e: Edge, t: Time, latency: i64)
    requires
        graph_consistent(g),
    ensures
        graph_consistent(with_edge_activation(g, e, t, latency)),
{
    let g2 = with_edge_activation(g, e, t, latency);
    assert forall|x: Edge| #[trigger] g2.edges.dom().contains(x) implies {
        &&& g2.edges[x].last_activation is Some
        &&& g2.edges[x].latencies.len() == g2.edges[x].activation_delay.len() + 1
    } by {
        if x == e && !g.edges.dom().contains(e) {
            assert(edge_data_of(g, e) == new_edge_data());
        }
    }
}

/// An execution that `trigger` starts keeps the graph consistent.
proof fn lemma_edge_to_callback_consistent(g: DependencyGraphView, store: ObjectStoreView, callback: CallbackRef, trigger: CallbackTrigger, t: Time)
    requires
        graph_consistent(g),
    ensures
        graph_consistent(edge_to_callback(g, store, callback, trigger, t)),
{
    match trigger {
        CallbackTrigger::SubscriptionMessage(m) => {
            let mv = store.subscription_messages[m.0 as int];
            lemma_edge_activation_consistent(g, Edge::SubscriberCallbackInvocation(mv.subscriber->Known_0, callback), t, since(t, mv.rmw_receive_time->Known_0));
        },
        CallbackTrigger::Timer(tm) => {
            let fired = DependencyGraphView {
                timer_nodes: g.timer_nodes.insert(key_of(tm.0), timer_fired(entry_or(g.timer_nodes, key_of(tm.0), new_timer_node()), t)),
                ..g
            };
            lemma_edge_activation_consistent(fired, Edge::TimerCallbackInvocation(tm, callback), t, wake_latency(g, store.timers[tm.0 as int].node->Known_0, t));
        },
        CallbackTrigger::Service(s) => {
            lemma_edge_activation_consistent(g, Edge::ServiceCallbackInvocation(callback, callback), t, wake_latency(g, store.services[s.0 as int].node->Known_0, t));
        },
    }
}

/// The graph is consistent before any event, and every event it takes keeps it
/// consistent: an edge or vertex exists only once activated, and each edge holds one
/// latency per activation and one delay between each two consecutive activations.
pub proof fn law_graph_stays_consistent(g: DependencyGraphView, e: FullEvent, store: ObjectStoreView)
    requires
        graph_consistent(g),
        dependency_graph_accepts(g, e, store),
    ensures
        graph_consistent(empty_dependency_graph()),
        graph_consistent(dependency_graph_step(g, e, store)),
{
    match e.event {
        Event::Ros2(ros2::Event::CallbackStart(x)) => {
            let iv = store.callback_instances[x.callback.0 as int];
            let k = key_of(iv.callback.0);
            let started = DependencyGraphView {
                running_callbacks: g.running_callbacks.insert(thread_of(e.context@), x.callback),
                callback_nodes: g.callback_nodes.insert(k, callback_started(entry_or(g.callback_nodes, k, new_callback_node()), e.time)),
                ..g
            };
            lemma_edge_to_callback_consistent(started, store, iv.callback, iv.trigger, e.time);
        },
        Event::Ros2(ros2::Event::RmwTake(x)) => {
            let mv = store.subscription_messages[x.message.0 as int];
            let sub = mv.subscriber->Known_0;
            if x.taken {
                let took = DependencyGraphView {
                    subscriber_nodes: g.subscriber_nodes.insert(key_of(sub.0), subscriber_took(entry_or(g.subscriber_nodes, key_of(sub.0), new_subscriber_node()), e.time)),
                    ..g
                };
                if let PartiallyKnown::Fully(pm) = mv.message {
                    let pv = store.publication_messages[pm.0 as int];
                    lemma_edge_activation_consistent(took, Edge::PublisherSubscriberCommunication(pv.publisher->Known_0, sub), e.time, since(e.time, publication_time(pv)->Some_0));
                }
            }
        },
        Event::Ros2(ros2::Event::RclPublish(x)) => {
            let p = store.publication_messages[x.message.0 as int].publisher->Known_0;
            let th = thread_of(e.context@);
            let published = DependencyGraphView {
                publisher_nodes: g.publisher_nodes.insert(key_of(p.0), publisher_published(entry_or(g.publisher_nodes, key_of(p.0), new_publisher_node()), e.time)),
                ..g
            };
            if g.running_callbacks.dom().contains(th) {
                let iv = store.callback_instances[g.running_callbacks[th].0 as int];
                lemma_edge_activation_consistent(published, Edge::PublicationInCallback(p, iv.callback), e.time, since(e.time, iv.start_time));
            }
        },
        _ => {},
    }
}


/// An activation at `t` appends to the delays of a timer, a callback, a publisher, a
/// subscriber or an edge the time since its previous activation, `t` minus the time of
/// that activation, or nothing when there was none; earlier delays stay as they were,
/// an edge also records the activation's latency, and `t` becomes the last activation.
pub proof fn law_activation_delay(
    t: Time,
    timer: TimerNodeView,
    callback: CallbackNodeView,
    publisher: PublisherNodeView,
    subscriber: SubscriberNodeView,
    edge: EdgeDataView,
    latency: i64,
)
    ensures
        timer.last_activation matches Some(p) ==> timer_fired(timer, t).activation_delay == timer.activation_delay.push(
            (t.nanos() - p.nanos()) as i64,
        ),
        timer.last_activation is None ==> timer_fired(timer, t).activation_delay == timer.activation_delay,
        timer_fired(timer, t).last_activation == Some(t),
        callback.last_activation matches Some(p) ==> callback_started(callback, t).activation_delay
            == callback.activation_delay.push((t.nanos() - p.nanos()) as i64),
        callback.last_activation is None ==> callback_started(callback, t).activation_delay == callback.activation_delay,
        callback_started(callback, t).last_activation == Some(t),
        callback_started(callback, t).durations == callback.durations,
        publisher.last_publication matches Some(p) ==> publisher_published(publisher, t).publication_delay
            == publisher.publication_delay.push((t.nanos() - p.nanos()) as i64),
        publisher.last_publication is None ==> publisher_published(publisher, t).publication_delay == publisher.publication_delay,
        publisher_published(publisher, t).last_publication == Some(t),
        subscriber.last_take matches Some(p) ==> subscriber_took(subscriber, t).take_delay == subscriber.take_delay.push(
            (t.nanos() - p.nanos()) as i64,
        ),
        subscriber.last_take is None ==> subscriber_took(subscriber, t).take_delay == subscriber.take_delay,
        subscriber_took(subscriber, t).last_take == Some(t),
        edge.last_activation matches Some(p) ==> edge_activated(edge, t, latency).activation_delay == edge.activation_delay.push(
            (t.nanos() - p.nanos()) as i64,
        ),
        edge.last_activation is None ==> edge_activated(edge, t, latency).activation_delay == edge.activation_delay,
        edge_activated(edge, t, latency).latencies == edge.latencies.push(latency),
        edge_activated(edge, t, latency).last_activation == Some(t),
{
}

/// When an execution starts and then ends, the graph records as the callback's last
/// duration the time from the start to the end, and no execution runs any more on the
/// thread where it ended.
pub proof fn law_execution_duration(g: DependencyGraphView, start: FullEvent, end: FullEvent, store: ObjectStoreView, instance: CallbackInstanceRef)
    requires
        start.event matches Event::Ros2(ros2::Event::CallbackStart(x)) && x.callback == instance,
        end.event matches Event::Ros2(ros2::Event::CallbackEnd(y)) && y.callback == instance,
        dependency_graph_accepts(g, start, store),
        dependency_graph_accepts(dependency_graph_step(g, start, store), end, store),
    ensures
        ({
            let g2 = dependency_graph_step(dependency_graph_step(g, start, store), end, store);
            let k = key_of(store.callback_instances[instance.0 as int].callback.0);
            &&& g2.callback_nodes.dom().contains(k)
            &&& g2.callback_nodes[k].durations.last() == since(end.time, start.time)
            &&& !g2.running_callbacks.dom().contains(thread_of(end.context@))
        }),
{
    let iv = store.callback_instances[instance.0 as int];
    let k = key_of(iv.callback.0);
    let started = DependencyGraphView {
        running_callbacks: g.running_callbacks.insert(thread_of(start.context@), instance),
        callback_nodes: g.callback_nodes.insert(k, callback_started(entry_or(g.callback_nodes, k, new_callback_node()), start.time)),
        ..g
    };
    lemma_edge_to_callback_keeps_callbacks(started, store, iv.callback, iv.trigger, start.time);
}

/// Recording what started an execution leaves the callbacks' activity alone.
proof fn lemma_edge_to_callback_keeps_callbacks(g: DependencyGraphView, store: ObjectStoreView, callback: CallbackRef, trigger: CallbackTrigger, t: Time)
    ensures
        edge_to_callback(g, store, callback, trigger, t).callback_nodes == g.callback_nodes,
        edge_to_callback(g, store, callback, trigger, t).running_callbacks == g.running_callbacks,
{
}


impl DependencyGraph {
    /// Whether every publisher vertex is in the store.
    fn publishers_in_store(&self, objects: &ObjectStore) -> (r: bool)
        requires
            self.wf(),
            objects@.wf(),
        ensures
            r == (forall|x: PublisherRef| #[trigger] self@.publisher_nodes.dom().contains(key_of(x.0)) ==> objects@.valid_publisher(x)),
    {
        let mut i: usize = 0;
        while i < self.publisher_nodes.len()
            invariant
                self.wf(),
                objects@.wf(),
                i <= self.publisher_nodes.keys().len(),
                forall|j: int| 0 <= j < i ==> {
                    let x = PublisherRef(#[trigger] self.publisher_nodes.keys()[j] as usize);
                    objects@.valid_publisher(x)
                },
            decreases self.publisher_nodes.keys().len() - i,
        {
            let k = self.publisher_nodes.key(i);
            let x = PublisherRef(k as usize);
            proof {
                assert(self.publisher_nodes.keys()[i as int] <= usize::MAX);
                assert(key_of(x.0) == k);
                assert(self.publisher_nodes.map().dom().contains(k));
            }
            if !(x.0 < objects.publisher_count()) {
                assert(self@.publisher_nodes.dom().contains(key_of(x.0)));
                return false;
            }
            i += 1;
        }
        proof {
            assert forall|x: PublisherRef| #[trigger] self@.publisher_nodes.dom().contains(key_of(x.0)) implies objects@.valid_publisher(x) by {
                let ks = self.publisher_nodes.keys();
                assert(ks.contains(key_of(x.0)));
                let j = choose|j: int| 0 <= j < ks.len() && ks[j] == key_of(x.0);
                assert(PublisherRef(ks[j] as usize) == x);
            }
        }
        true
    }

    /// Whether every subscriber vertex is in the store.
    fn subscribers_in_store(&self, objects: &ObjectStore) -> (r: bool)
        requires
            self.wf(),
            objects@.wf(),
        ensures
            r == (forall|x: SubscriberRef| #[trigger] self@.subscriber_nodes.dom().contains(key_of(x.0)) ==> objects@.valid_subscriber(x)),
    {
        let mut i: usize = 0;
        while i < self.subscriber_nodes.len()
            invariant
                self.wf(),
                objects@.wf(),
                i <= self.subscriber_nodes.keys().len(),
                forall|j: int| 0 <= j < i ==> {
                    let x = SubscriberRef(#[trigger] self.subscriber_nodes.keys()[j] as usize);
                    objects@.valid_subscriber(x)
                },
            decreases self.subscriber_nodes.keys().len() - i,
        {
            let k = self.subscriber_nodes.key(i);
            let x = SubscriberRef(k as usize);
            proof {
                assert(self.subscriber_nodes.keys()[i as int] <= usize::MAX);
                assert(key_of(x.0) == k);
                assert(self.subscriber_nodes.map().dom().contains(k));
            }
            if !(x.0 < objects.subscriber_count()) {
                assert(self@.subscriber_nodes.dom().contains(key_of(x.0)));
                return false;
            }
            i += 1;
        }
        proof {
            assert forall|x: SubscriberRef| #[trigger] self@.subscriber_nodes.dom().contains(key_of(x.0)) implies objects@.valid_subscriber(x) by {
                let ks = self.subscriber_nodes.keys();
                assert(ks.contains(key_of(x.0)));
                let j = choose|j: int| 0 <= j < ks.len() && ks[j] == key_of(x.0);
                assert(SubscriberRef(ks[j] as usize) == x);
            }
        }
        true
    }

    /// Whether every timer vertex is in the store and belongs to a known node.
    fn timers_in_store(&self, objects: &ObjectStore) -> (r: bool)
        requires
            self.wf(),
            objects@.wf(),
        ensures
            r == (forall|x: TimerRef| #[trigger] self@.timer_nodes.dom().contains(key_of(x.0)) ==> objects@.valid_timer(x) && objects@.timers[x.0 as int].node is Known),
    {
        let mut i: usize = 0;
        while i < self.timer_nodes.len()
            invariant
                self.wf(),
                objects@.wf(),
                i <= self.timer_nodes.keys().len(),
                forall|j: int| 0 <= j < i ==> {
                    let x = TimerRef(#[trigger] self.timer_nodes.keys()[j] as usize);
                    objects@.valid_timer(x) && objects@.timers[x.0 as int].node is Known
                },
            decreases self.timer_nodes.keys().len() - i,
        {
            let k = self.timer_nodes.key(i);
            let x = TimerRef(k as usize);
            proof {
                assert(self.timer_nodes.keys()[i as int] <= usize::MAX);
                assert(key_of(x.0) == k);
                assert(self.timer_nodes.map().dom().contains(k));
            }
            if !(x.0 < objects.timer_count() && objects.timer(x).get_node().is_known()) {
                assert(self@.timer_nodes.dom().contains(key_of(x.0)));
                return false;
            }
            i += 1;
        }
        proof {
            assert forall|x: TimerRef| #[trigger] self@.timer_nodes.dom().contains(key_of(x.0)) implies objects@.valid_timer(x) && objects@.timers[x.0 as int].node is Known by {
                let ks = self.timer_nodes.keys();
                assert(ks.contains(key_of(x.0)));
                let j = choose|j: int| 0 <= j < ks.len() && ks[j] == key_of(x.0);
                assert(TimerRef(ks[j] as usize) == x);
            }
        }
        true
    }

    /// Whether every callback vertex is in the store and belongs to a known node.
    fn callbacks_in_store(&self, objects: &ObjectStore) -> (r: bool)
        requires
            self.wf(),
            objects@.wf(),
        ensures
            r == (forall|x: CallbackRef| #[trigger] self@.callback_nodes.dom().contains(key_of(x.0)) ==> objects@.valid_callback(x) && callback_node(objects@, x) is Known),
    {
        let mut i: usize = 0;
        while i < self.callback_nodes.len()
            invariant
                self.wf(),
                objects@.wf(),
                i <= self.callback_nodes.keys().len(),
                forall|j: int| 0 <= j < i ==> {
                    let x = CallbackRef(#[trigger] self.callback_nodes.keys()[j] as usize);
                    objects@.valid_callback(x) && callback_node(objects@, x) is Known
                },
            decreases self.callback_nodes.keys().len() - i,
        {
            let k = self.callback_nodes.key(i);
            let x = CallbackRef(k as usize);
            proof {
                assert(self.callback_nodes.keys()[i as int] <= usize::MAX);
                assert(key_of(x.0) == k);
                assert(self.callback_nodes.map().dom().contains(k));
            }
            if !(x.0 < objects.callback_count() && get_callback_node(objects, x).is_known()) {
                assert(self@.callback_nodes.dom().contains(key_of(x.0)));
                return false;
            }
            i += 1;
        }
        proof {
            assert forall|x: CallbackRef| #[trigger] self@.callback_nodes.dom().contains(key_of(x.0)) implies objects@.valid_callback(x) && callback_node(objects@, x) is Known by {
                let ks = self.callback_nodes.keys();
                assert(ks.contains(key_of(x.0)));
                let j = choose|j: int| 0 <= j < ks.len() && ks[j] == key_of(x.0);
                assert(CallbackRef(ks[j] as usize) == x);
            }
        }
        true
    }

    /// Whether `n` is a vertex of the graph.
    fn has_node(&self, n: &Node) -> (r: bool)
        requires
            self.wf(),
        ensures
            r == is_graph_node(self@, *n),
    {
        match n {
            Node::Publisher(x) => self.publisher_nodes.get(x.0 as u128).is_some(),
            Node::Subscriber(x) => self.subscriber_nodes.get(x.0 as u128).is_some(),
            Node::Timer(x) => self.timer_nodes.get(x.0 as u128).is_some(),
            Node::Callback(x) => self.callback_nodes.get(x.0 as u128).is_some(),
        }
    }

    /// Whether every edge joins two vertices.
    fn edges_join_vertices(&self) -> (r: bool)
        requires
            self.wf(),
        ensures
            r == (forall|e: Edge| #[trigger] self@.edges.dom().contains(e) ==> is_graph_node(self@, edge_source(e)) && is_graph_node(self@, edge_target(e))),
    {
        let mut i: usize = 0;
        while i < self.edges.len()
            invariant
                self.wf(),
                i <= self.edges@.len(),
                forall|j: int| 0 <= j < i ==> is_graph_node(self@, edge_source(#[trigger] self.edges@[j])) && is_graph_node(self@, edge_target(self.edges@[j])),
            decreases self.edges@.len() - i,
        {
            let e = self.edges[i];
            if !(self.has_node(&e.source()) && self.has_node(&e.target())) {
                assert(self@.edges.dom().contains(e));
                return false;
            }
            i += 1;
        }
        proof {
            assert forall|e: Edge| #[trigger] self@.edges.dom().contains(e) implies is_graph_node(self@, edge_source(e)) && is_graph_node(self@, edge_target(e)) by {
                let j = choose|j: int| 0 <= j < self.edges@.len() && self.edges@[j] == e;
            }
        }
        true
    }

    /// Whether [`DisplayAsDot::new`] can lay the graph out (see [`can_display`]).
    pub fn can_display(&self, objects: &ObjectStore) -> (r: bool)
        requires
            self.wf(),
            objects@.wf(),
        ensures
            r == can_display(self@, objects@),
    {
        let r = self.publishers_in_store(objects) && self.subscribers_in_store(objects) && self.timers_in_store(objects)
            && self.callbacks_in_store(objects) && self.edges_join_vertices();
        proof {
            let g = self@;
            if r {
                assert forall|n: Node| #[trigger] is_graph_node(g, n) implies node_in_store(objects@, n) by {
                    match n {
                        Node::Publisher(x) => {},
                        Node::Subscriber(x) => {},
                        Node::Timer(x) => {},
                        Node::Callback(x) => {},
                    }
                }
                assert forall|n: Node| #[trigger] is_graph_node(g, n) && (n is Timer || n is Callback) implies owner_of(objects@, n) is Known by {
                    match n {
                        Node::Timer(x) => {},
                        Node::Callback(x) => {},
                        _ => {},
                    }
                }
            } else if can_display(g, objects@) {
                assert forall|x: PublisherRef| #[trigger] g.publisher_nodes.dom().contains(key_of(x.0)) implies objects@.valid_publisher(x) by {
                    assert(is_graph_node(g, Node::Publisher(x)));
                }
                assert forall|x: SubscriberRef| #[trigger] g.subscriber_nodes.dom().contains(key_of(x.0)) implies objects@.valid_subscriber(x) by {
                    assert(is_graph_node(g, Node::Subscriber(x)));
                }
                assert forall|x: TimerRef| #[trigger] g.timer_nodes.dom().contains(key_of(x.0)) implies objects@.valid_timer(x) && objects@.timers[x.0 as int].node is Known by {
                    assert(is_graph_node(g, Node::Timer(x)));
                }
                assert forall|x: CallbackRef| #[trigger] g.callback_nodes.dom().contains(key_of(x.0)) implies objects@.valid_callback(x) && callback_node(objects@, x) is Known by {
                    assert(is_graph_node(g, Node::Callback(x)));
                }
            }
        }
        r
    }
}


impl DependencyGraph {
    /// The activity of a publisher, if it has been active.
    pub fn publisher_node(&self, x: PublisherRef) -> (r: Option<&PublisherNode>)
        requires
            self.wf(),
        ensures
            r is Some <==> self@.publisher_nodes.dom().contains(key_of(x.0)),
            r matches Some(n) ==> n@ == self@.publisher_nodes[key_of(x.0)],
    {
        self.publisher_nodes.get(x.0 as u128)
    }

    /// The activity of a subscriber, if it has been active.
    pub fn subscriber_node(&self, x: SubscriberRef) -> (r: Option<&SubscriberNode>)
        requires
            self.wf(),
        ensures
            r is Some <==> self@.subscriber_nodes.dom().contains(key_of(x.0)),
            r matches Some(n) ==> n@ == self@.subscriber_nodes[key_of(x.0)],
    {
        self.subscriber_nodes.get(x.0 as u128)
    }

    /// The activity of a timer, if it has been active.
    pub fn timer_node(&self, x: TimerRef) -> (r: Option<&TimerNode>)
        requires
            self.wf(),
        ensures
            r is Some <==> self@.timer_nodes.dom().contains(key_of(x.0)),
            r matches Some(n) ==> n@ == self@.timer_nodes[key_of(x.0)],
    {
        self.timer_nodes.get(x.0 as u128)
    }

    /// The activity of a callback, if it has been active.
    pub fn callback_node(&self, x: CallbackRef) -> (r: Option<&CallbackNode>)
        requires
            self.wf(),
        ensures
            r is Some <==> self@.callback_nodes.dom().contains(key_of(x.0)),
            r matches Some(n) ==> n@ == self@.callback_nodes[key_of(x.0)],
    {
        self.callback_nodes.get(x.0 as u128)
    }

    /// The activity along an edge, if it has been activated.
    pub fn edge_data(&self, e: &Edge) -> (r: Option<&EdgeData>)
        requires
            self.wf(),
        ensures
            r is Some <==> self@.edges.dom().contains(*e),
            r matches Some(d) ==> d@ == self@.edges[*e],
    {
        match self.find_edge(e) {
            Some(i) => Some(&self.edge_data[i]),
            None => None,
        }
    }

    /// The nodes initialized so far, in order.
    pub fn ros_nodes(&self) -> (r: &[NodeRef])
        ensures
            r@ == self@.ros_nodes,
    {
        self.ros_nodes.as_slice()
    }
}


impl EventAnalysis for DependencyGraph {
    open spec fn consistent(&self) -> bool {
        self.wf()
    }

    open spec fn takes(&self, e: FullEvent, store: ObjectStoreView) -> bool {
        dependency_graph_accepts(self@, e, store)
    }

    open spec fn finishes(&self, store: ObjectStoreView) -> bool {
        true
    }

    open spec fn state(&self) -> AnalysisState {
        AnalysisState::DependencyGraph(self@)
    }

    open spec fn initial_state(&self) -> AnalysisState {
        AnalysisState::DependencyGraph(empty_dependency_graph())
    }

    open spec fn state_after(&self, e: FullEvent, store: ObjectStoreView) -> AnalysisState {
        AnalysisState::DependencyGraph(dependency_graph_step(self@, e, store))
    }

    open spec fn finished_state(&self, store: ObjectStoreView) -> AnalysisState {
        AnalysisState::DependencyGraph(DependencyGraphView { running_callbacks: Map::empty(), ..self@ })
    }

    fn initialize(&mut self) {
        DependencyGraph::initialize(self);
    }

    fn accepts(&self, e: &FullEvent, objects: &ObjectStore) -> (r: bool) {
        DependencyGraph::accepts(self, e, objects)
    }

    fn process_event(&mut self, e: &FullEvent, objects: &ObjectStore) {
        DependencyGraph::process_event(self, e, objects);
    }

    fn can_finalize(&self, objects: &ObjectStore) -> (r: bool) {
        true
    }

    fn finalize(&mut self, objects: &ObjectStore) {
        DependencyGraph::finalize(self);
    }
}

} // verus!
