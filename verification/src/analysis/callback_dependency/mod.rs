//! Which callbacks trigger which: a callback that publishes on a topic leads to the
//! subscription callbacks of that topic.
use vstd::prelude::*;

use crate::known::Known;
use crate::model::{CallbackCaller, CallbackRef, CallbackType, ObjectStore, ObjectStoreView, PublisherRef};
use crate::processed_events::{ros2, Event, FullEvent};

use super::publication_in_callback::{
    empty_publication_in_callback, publication_in_callback_accepts, publication_in_callback_step,
    PublicationInCallback, PublicationInCallbackView,
};
use super::text_order::same_text;

pub mod dot;
pub mod graph;

use graph::{Graph, GraphView};

use super::{AnalysisState, EventAnalysis};

verus! {

broadcast use crate::model::store::lemma_view_fits;

/// Collects the timer and subscription callbacks as they are registered, and which
/// callbacks publish with which publishers; once finalized, the callback graph.
#[derive(Debug)]
pub struct CallbackDependency {
    timer_driven_callbacks: Vec<CallbackRef>,
    message_driven_callbacks: Vec<CallbackRef>,
    publication_in_callback: PublicationInCallback,
    graph: Option<Graph>,
}

/// The abstract state of a [`CallbackDependency`].
pub struct CallbackDependencyView {
    /// The timer callbacks, in order of registration.
    pub timer_driven: Seq<CallbackRef>,
    /// The subscription callbacks, in order of registration.
    pub message_driven: Seq<CallbackRef>,
    pub publication_in_callback: PublicationInCallbackView,
    pub graph: Option<GraphView>,
}

impl View for CallbackDependency {
    type V = CallbackDependencyView;

    closed spec fn view(&self) -> CallbackDependencyView {
        CallbackDependencyView {
            timer_driven: self.timer_driven_callbacks@,
            message_driven: self.message_driven_callbacks@,
            publication_in_callback: self.publication_in_callback@,
            graph: match self.graph {
                Some(g) => Some(g@),
                None => None,
            },
        }
    }
}

/// The analysis before any event.
pub open spec fn empty_callback_dependency() -> CallbackDependencyView {
    CallbackDependencyView {
        timer_driven: Seq::empty(),
        message_driven: Seq::empty(),
        publication_in_callback: empty_publication_in_callback(),
        graph: None,
    }
}

/// Whether the analysis can take the event: the publication analysis can, and a
/// registered callback is in the store with a known caller.
pub open spec fn callback_dependency_accepts(a: CallbackDependencyView, e: FullEvent, store: ObjectStoreView) -> bool {
    &&& publication_in_callback_accepts(a.publication_in_callback, e, store)
    &&& (e.event matches Event::Ros2(ros2::Event::RclcppCallbackRegister(x)) ==> {
        &&& store.valid_callback(x.callback)
        &&& store.callbacks[x.callback.0 as int].caller is Known
    })
}

/// The analysis after an event: a registered timer or subscription callback joins
/// its list (a service callback is left out).
pub open spec fn callback_dependency_step(a: CallbackDependencyView, e: FullEvent, store: ObjectStoreView) -> CallbackDependencyView {
    let p = publication_in_callback_step(a.publication_in_callback, e, store);
    match e.event {
        Event::Ros2(ros2::Event::RclcppCallbackRegister(x)) => match store.callbacks[x.callback.0 as int].caller->Known_0 {
            CallbackCaller::Timer(_) => CallbackDependencyView { timer_driven: a.timer_driven.push(x.callback), publication_in_callback: p, ..a },
            CallbackCaller::Subscription(_) => CallbackDependencyView { message_driven: a.message_driven.push(x.callback), publication_in_callback: p, ..a },
            CallbackCaller::Service(_) => CallbackDependencyView { publication_in_callback: p, ..a },
        },
        _ => CallbackDependencyView { publication_in_callback: p, ..a },
    }
}

/// The topic of the subscription of a subscription callback.
pub open spec fn subscription_topic(store: ObjectStoreView, c: CallbackRef) -> Seq<char> {
    match store.callbacks[c.0 as int].caller {
        Known::Known(CallbackCaller::Subscription(s)) => store.subscribers[s.0 as int].topic_name->Known_0,
        _ => Seq::empty(),
    }
}

/// The position of the last occurrence of `c`, or -1.
pub open spec fn last_index(s: Seq<CallbackRef>, c: CallbackRef) -> int
    decreases s.len(),
{
    if s.len() == 0 {
        -1
    } else if s.last() == c {
        s.len() - 1
    } else {
        last_index(s.drop_last(), c)
    }
}

/// The positions, shifted by `offset`, of the topics equal to `t`, in order.
pub open spec fn matching_topics(topics: Seq<Seq<char>>, t: Seq<char>, offset: int) -> Seq<int>
    decreases topics.len(),
{
    if topics.len() == 0 {
        Seq::empty()
    } else if topics.last() == t {
        matching_topics(topics.drop_last(), t, offset).push(offset + topics.len() - 1)
    } else {
        matching_topics(topics.drop_last(), t, offset)
    }
}

/// The edges for each (publisher, callback) pair in order: from the vertex of the
/// callback to each subscription vertex of the publisher's topic.
pub open spec fn dependency_edges(
    deps: Seq<(PublisherRef, CallbackRef)>,
    nodes: Seq<CallbackRef>,
    topics: Seq<Seq<char>>,
    offset: int,
    store: ObjectStoreView,
) -> Seq<(usize, usize)>
    decreases deps.len(),
{
    if deps.len() == 0 {
        Seq::empty()
    } else {
        let d = deps.last();
        let src = last_index(nodes, d.1) as usize;
        dependency_edges(deps.drop_last(), nodes, topics, offset, store) + matching_topics(
            topics,
            store.publishers[d.0.0 as int].topic_name->Known_0,
            offset,
        ).map_values(|m: int| (src, m as usize))
    }
}

/// The topic of each subscription callback.
pub open spec fn message_topics(a: CallbackDependencyView, store: ObjectStoreView) -> Seq<Seq<char>> {
    a.message_driven.map_values(|c: CallbackRef| subscription_topic(store, c))
}

/// The callback graph: the timer callbacks, then the subscription callbacks; the
/// timer callbacks are the sources.
pub open spec fn callback_graph(a: CallbackDependencyView, store: ObjectStoreView) -> GraphView {
    let nodes = a.timer_driven + a.message_driven;
    GraphView {
        nodes,
        edges: dependency_edges(
            a.publication_in_callback.dependency,
            nodes,
            message_topics(a, store),
            a.timer_driven.len() as int,
            store,
        ),
        sources: Seq::new(a.timer_driven.len(), |i: int| i as usize),
    }
}

/// Whether the graph can be built: every subscription callback has a subscription
/// with a known topic, every publisher that published in a callback has a known
/// topic, and a callback that publishes on a topic with subscriptions was registered.
pub open spec fn can_construct_graph(a: CallbackDependencyView, store: ObjectStoreView) -> bool {
    let nodes = a.timer_driven + a.message_driven;
    let topics = message_topics(a, store);
    &&& forall|i: int| 0 <= i < a.message_driven.len() ==> {
        let c = #[trigger] a.message_driven[i];
        &&& store.valid_callback(c)
        &&& store.callbacks[c.0 as int].caller matches Known::Known(CallbackCaller::Subscription(s))
        &&& store.valid_subscriber(s)
        &&& store.subscribers[s.0 as int].topic_name is Known
    }
    &&& forall|i: int| 0 <= i < a.publication_in_callback.dependency.len() ==> {
        let d = #[trigger] a.publication_in_callback.dependency[i];
        &&& store.valid_publisher(d.0)
        &&& store.publishers[d.0.0 as int].topic_name is Known
        &&& (matching_topics(topics, store.publishers[d.0.0 as int].topic_name->Known_0, a.timer_driven.len() as int).len() > 0
            ==> nodes.contains(d.1))
    }
}


/// The topic of the subscription of a subscription callback, copied.
fn subscription_topic_of(objects: &ObjectStore, c: CallbackRef) -> (r: String)
    requires
        objects@.valid_callback(c),
        objects@.callbacks[c.0 as int].caller matches Known::Known(CallbackCaller::Subscription(s))
            && objects@.valid_subscriber(s) && objects@.subscribers[s.0 as int].topic_name is Known,
    ensures
        r@ == subscription_topic(objects@, c),
{
    match objects.callback(c).get_caller() {
        Some(CallbackCaller::Subscription(s)) => match objects.subscriber(*s).get_topic() {
            Known::Known(t) => t.to_string(),
            Known::Unknown => vstd::pervasive::unreached(),
        },
        _ => vstd::pervasive::unreached(),
    }
}

/// A topic equal to `t` makes the matching positions non-empty.
proof fn lemma_matching_nonempty(topics: Seq<Seq<char>>, t: Seq<char>, offset: int, j: int)
    requires
        0 <= j < topics.len(),
        topics[j] == t,
    ensures
        matching_topics(topics, t, offset).len() > 0,
    decreases topics.len(),
{
    if topics.last() != t {
        assert(j < topics.len() - 1);
        assert(topics.drop_last()[j] == t);
        lemma_matching_nonempty(topics.drop_last(), t, offset, j);
    }
}

/// The position of the last vertex of `c`, if there is one.
fn last_index_of(nodes: &Vec<graph::Node>, c: CallbackRef) -> (r: Option<usize>)
    ensures
        match r {
            Some(i) => i == last_index(nodes@.map_values(|n: graph::Node| n@), c) && i < nodes@.len(),
            None => last_index(nodes@.map_values(|n: graph::Node| n@), c) == -1,
        },
{
    let ghost s = nodes@.map_values(|n: graph::Node| n@);
    let mut i: usize = nodes.len();
    assert(s.subrange(0, i as int) =~= s);
    while i > 0
        invariant
            i <= nodes@.len(),
            s == nodes@.map_values(|n: graph::Node| n@),
            last_index(s, c) == last_index(s.subrange(0, i as int), c),
        decreases i,
    {
        let ghost prefix = s.subrange(0, i as int);
        assert(prefix.drop_last() =~= s.subrange(0, i - 1));
        if nodes[i - 1].callback().0 == c.0 {
            assert(prefix.last() == c);
            return Some(i - 1);
        }
        i -= 1;
    }
    assert(s.subrange(0, 0) =~= Seq::<CallbackRef>::empty());
    None
}

impl CallbackDependency {
    /// The lists hold what the publication analysis needs.
    pub closed spec fn wf(&self) -> bool {
        self.publication_in_callback.wf()
    }

    pub fn new() -> (r: Self)
        ensures
            r.wf(),
            r@ == empty_callback_dependency(),
    {
        let r = CallbackDependency {
            timer_driven_callbacks: Vec::new(),
            message_driven_callbacks: Vec::new(),
            publication_in_callback: PublicationInCallback::new(),
            graph: None,
        };
        assert(r@.timer_driven =~= Seq::<CallbackRef>::empty());
        assert(r@.message_driven =~= Seq::<CallbackRef>::empty());
        r
    }

    /// Forgets everything.
    pub fn initialize(&mut self)
        ensures
            final(self).wf(),
            final(self)@ == empty_callback_dependency(),
    {
        *self = Self::new();
    }

    /// Adds a registered callback to the list of its kind.
    fn add_callback(&mut self, objects: &ObjectStore, callback: CallbackRef)
        requires
            objects@.valid_callback(callback),
            objects@.callbacks[callback.0 as int].caller is Known,
        ensures
            final(self).publication_in_callback == old(self).publication_in_callback,
            final(self).graph == old(self).graph,
            match objects@.callbacks[callback.0 as int].caller->Known_0 {
                CallbackCaller::Timer(_) => final(self)@.timer_driven == old(self)@.timer_driven.push(callback)
                    && final(self)@.message_driven == old(self)@.message_driven,
                CallbackCaller::Subscription(_) => final(self)@.message_driven == old(self)@.message_driven.push(callback)
                    && final(self)@.timer_driven == old(self)@.timer_driven,
                CallbackCaller::Service(_) => final(self)@.message_driven == old(self)@.message_driven
                    && final(self)@.timer_driven == old(self)@.timer_driven,
            },
    {
        match objects.callback(callback).get_type() {
            Known::Known(CallbackType::Timer) => {
                self.timer_driven_callbacks.push(callback);
            },
            Known::Known(CallbackType::Subscription) => {
                self.message_driven_callbacks.push(callback);
            },
            Known::Known(CallbackType::Service) => {},
            Known::Unknown => {},
        }
    }

    /// Takes one event (see [`callback_dependency_step`]).
    pub fn process_event(&mut self, full_event: &FullEvent, objects: &ObjectStore)
        requires
            old(self).wf(),
            objects@.wf(),
            callback_dependency_accepts(old(self)@, *full_event, objects@),
        ensures
            final(self).wf(),
            final(self)@ == callback_dependency_step(old(self)@, *full_event, objects@),
    {
        self.publication_in_callback.process_event(full_event, objects);
        if let Event::Ros2(ros2::Event::RclcppCallbackRegister(event)) = &full_event.event {
            self.add_callback(objects, event.callback);
        }
    }

    /// Whether [`Self::process_event`] can take the event.
    pub fn accepts(&self, full_event: &FullEvent, objects: &ObjectStore) -> (r: bool)
        requires
            self.wf(),
        ensures
            r == callback_dependency_accepts(self@, *full_event, objects@),
    {
        if !self.publication_in_callback.accepts(full_event, objects) {
            return false;
        }
        match &full_event.event {
            Event::Ros2(ros2::Event::RclcppCallbackRegister(event)) => {
                event.callback.0 < objects.callback_count() && objects.callback(event.callback).get_caller().is_some()
            },
            _ => true,
        }
    }

    /// Builds the callback graph.
    pub fn finalize(&mut self, objects: &ObjectStore)
        requires
            old(self).wf(),
            objects@.wf(),
            can_construct_graph(old(self)@, objects@),
        ensures
            final(self).wf(),
            final(self)@ == (CallbackDependencyView { graph: Some(callback_graph(old(self)@, objects@)), ..old(self)@ }),
    {
        self.construct_callback_graph(objects);
    }

    fn construct_callback_graph(&mut self, objects: &ObjectStore)
        requires
            old(self).wf(),
            objects@.wf(),
            can_construct_graph(old(self)@, objects@),
        ensures
            final(self).wf(),
            final(self)@ == (CallbackDependencyView { graph: Some(callback_graph(old(self)@, objects@)), ..old(self)@ }),
    {
        let ghost a = self@;
        let mut nodes: Vec<graph::Node> = Vec::new();
        let mut sources: Vec<usize> = Vec::new();
        let mut i: usize = 0;
        while i < self.timer_driven_callbacks.len()
            invariant
                self@ == a,
                i <= a.timer_driven.len(),
                nodes@.len() == i,
                nodes@.map_values(|n: graph::Node| n@) == a.timer_driven.subrange(0, i as int),
                sources@ == Seq::new(i as nat, |k: int| k as usize),
            decreases a.timer_driven.len() - i,
        {
            let id = nodes.len();
            nodes.push(graph::Node::new(self.timer_driven_callbacks[i]));
            sources.push(id);
            i += 1;
            assert(nodes@.map_values(|n: graph::Node| n@) =~= a.timer_driven.subrange(0, i as int));
            assert(sources@ =~= Seq::new(i as nat, |k: int| k as usize));
        }
        let offset = nodes.len();
        let mut topics: Vec<String> = Vec::new();
        let mut i: usize = 0;
        while i < self.message_driven_callbacks.len()
            invariant
                self@ == a,
                objects@.wf(),
                can_construct_graph(a, objects@),
                offset == a.timer_driven.len(),
                i <= a.message_driven.len(),
                nodes@.map_values(|n: graph::Node| n@) == a.timer_driven + a.message_driven.subrange(0, i as int),
                topics@.map_values(|t: String| t@) == message_topics(a, objects@).subrange(0, i as int),
            decreases a.message_driven.len() - i,
        {
            let c = self.message_driven_callbacks[i];
            let ghost old_nodes = nodes@;
            let ghost old_topics = topics@;
            assert(a.message_driven[i as int] == c);
            nodes.push(graph::Node::new(c));
            let topic = subscription_topic_of(objects, c);
            topics.push(topic);
            proof {
                assert(nodes@.map_values(|n: graph::Node| n@) =~= old_nodes.map_values(|n: graph::Node| n@).push(c));
                assert(topics@.map_values(|t: String| t@) =~= old_topics.map_values(|t: String| t@).push(subscription_topic(objects@, c)));
                assert(a.message_driven.subrange(0, i as int + 1) =~= a.message_driven.subrange(0, i as int).push(c));
                assert(message_topics(a, objects@)[i as int] == subscription_topic(objects@, c));
            }
            i += 1;
            assert(nodes@.map_values(|n: graph::Node| n@) =~= a.timer_driven + a.message_driven.subrange(0, i as int));
            assert(topics@.map_values(|t: String| t@) =~= message_topics(a, objects@).subrange(0, i as int));
        }
        proof {
            assert(a.message_driven.subrange(0, i as int) =~= a.message_driven);
            assert(message_topics(a, objects@).subrange(0, i as int) =~= message_topics(a, objects@));
        }
        let ghost nv = nodes@.map_values(|n: graph::Node| n@);
        let ghost tv = topics@.map_values(|t: String| t@);
        let total = nodes.len();
        let deps = self.publication_in_callback.get_dependency();
        let mut edges: Vec<(usize, usize)> = Vec::new();
        let mut i: usize = 0;
        while i < deps.len()
            invariant
                self@ == a,
                objects@.wf(),
                can_construct_graph(a, objects@),
                deps@ == a.publication_in_callback.dependency,
                nv == nodes@.map_values(|n: graph::Node| n@),
                nv == a.timer_driven + a.message_driven,
                tv == topics@.map_values(|t: String| t@),
                tv == message_topics(a, objects@),
                offset == a.timer_driven.len(),
                nodes@.len() == offset + topics@.len(),
                nodes@.len() == total,
                i <= deps@.len(),
                edges@ == dependency_edges(deps@.subrange(0, i as int), nv, tv, offset as int, objects@),
            decreases deps@.len() - i,
        {
            let (publisher, callback) = deps[i];
            let topic = match objects.publisher(publisher).get_topic() {
                Known::Known(t) => t,
                Known::Unknown => vstd::pervasive::unreached(),
            };
            let ghost pt = topic@;
            let src = last_index_of(&nodes, callback);
            let ghost before = edges@;
            let ghost srcv = last_index(nv, callback) as usize;
            let mut j: usize = 0;
            while j < topics.len()
                invariant
                    tv == topics@.map_values(|t: String| t@),
                    nv == nodes@.map_values(|n: graph::Node| n@),
                    pt == topic@,
                    j <= topics@.len(),
                    offset as int + topics@.len() <= total,
                    matching_topics(tv, pt, offset as int).len() > 0 ==> nv.contains(callback),
                    match src {
                        Some(x) => x == last_index(nv, callback),
                        None => last_index(nv, callback) == -1,
                    },
                    srcv == last_index(nv, callback) as usize,
                    edges@ == before + matching_topics(tv.subrange(0, j as int), pt, offset as int).map_values(|m: int| (srcv, m as usize)),
                decreases topics@.len() - j,
            {
                let ghost sub = tv.subrange(0, j as int + 1);
                let ghost m_old = matching_topics(tv.subrange(0, j as int), pt, offset as int);
                assert(sub.drop_last() =~= tv.subrange(0, j as int));
                assert(tv[j as int] == topics@[j as int]@);
                assert(sub.last() == tv[j as int]);
                let here = topics[j].as_str();
                assert(here@ == topics@[j as int]@);
                if same_text(here, topic) {
                    proof {
                        lemma_matching_nonempty(tv, pt, offset as int, j as int);
                        let k = choose|k: int| 0 <= k < nv.len() && nv[k] == callback;
                        lemma_last_index_found(nv, callback, k);
                    }
                    let s = match src {
                        Some(x) => x,
                        None => vstd::pervasive::unreached(),
                    };
                    edges.push((s, offset + j));
                    assert(matching_topics(sub, pt, offset as int) == m_old.push(offset + j));
                    assert(m_old.push(offset + j).map_values(|m: int| (srcv, m as usize))
                        =~= m_old.map_values(|m: int| (srcv, m as usize)).push((s, (offset + j) as usize)));
                    assert(edges@ =~= before + matching_topics(sub, pt, offset as int).map_values(|m: int| (srcv, m as usize)));
                } else {
                    assert(edges@ =~= before + matching_topics(sub, pt, offset as int).map_values(|m: int| (srcv, m as usize)));
                }
                j += 1;
            }
            proof {
                assert(tv.subrange(0, j as int) =~= tv);
                let next = deps@.subrange(0, i as int + 1);
                assert(next.drop_last() =~= deps@.subrange(0, i as int));
                assert(next.last() == (publisher, callback));
            }
            i += 1;
        }
        proof {
            assert(deps@.subrange(0, i as int) =~= deps@);
        }
        self.graph = Some(Graph::new(nodes, edges, sources));
    }

    /// The callback graph, once built.
    pub fn get_graph(&self) -> (r: Option<&Graph>)
        ensures
            match r {
                Some(g) => self@.graph == Some(g@),
                None => self@.graph is None,
            },
    {
        match &self.graph {
            Some(g) => Some(g),
            None => None,
        }
    }

    /// The analysis of which publishers publish within which callbacks.
    pub fn get_publication_in_callback_analysis(&self) -> (r: &PublicationInCallback)
        ensures
            r@ == self@.publication_in_callback,
    {
        &self.publication_in_callback
    }
}

/// When `c` occurs, its last position is a position of `c`.
proof fn lemma_last_index_found(s: Seq<CallbackRef>, c: CallbackRef, k: int)
    requires
        0 <= k < s.len(),
        s[k] == c,
    ensures
        0 <= last_index(s, c) < s.len(),
        s[last_index(s, c)] == c,
    decreases s.len(),
{
    if s.last() != c {
        assert(k < s.len() - 1);
        assert(s.drop_last()[k] == c);
        lemma_last_index_found(s.drop_last(), c, k);
    }
}


/// Without a topic equal to `t`, no position matches.
proof fn lemma_matching_empty(topics: Seq<Seq<char>>, t: Seq<char>, offset: int)
    requires
        forall|j: int| 0 <= j < topics.len() ==> topics[j] != t,
    ensures
        matching_topics(topics, t, offset).len() == 0,
    decreases topics.len(),
{
    if topics.len() > 0 {
        assert(topics.last() != t);
        lemma_matching_empty(topics.drop_last(), t, offset);
    }
}

impl CallbackDependency {
    /// Whether every subscription callback has a subscription with a known topic.
    fn subscriptions_known(&self, objects: &ObjectStore) -> (r: bool)
        requires
            objects@.wf(),
        ensures
            r == (forall|i: int| 0 <= i < self@.message_driven.len() ==> {
                let c = #[trigger] self@.message_driven[i];
                &&& objects@.valid_callback(c)
                &&& objects@.callbacks[c.0 as int].caller matches Known::Known(CallbackCaller::Subscription(s))
                &&& objects@.valid_subscriber(s)
                &&& objects@.subscribers[s.0 as int].topic_name is Known
            }),
    {
        let mut i: usize = 0;
        while i < self.message_driven_callbacks.len()
            invariant
                objects@.wf(),
                i <= self@.message_driven.len(),
                self@.message_driven == self.message_driven_callbacks@,
                forall|j: int| 0 <= j < i ==> {
                    let c = #[trigger] self@.message_driven[j];
                    &&& objects@.valid_callback(c)
                    &&& objects@.callbacks[c.0 as int].caller matches Known::Known(CallbackCaller::Subscription(s))
                    &&& objects@.valid_subscriber(s)
                    &&& objects@.subscribers[s.0 as int].topic_name is Known
                },
            decreases self@.message_driven.len() - i,
        {
            let c = self.message_driven_callbacks[i];
            if c.0 >= objects.callback_count() {
                return false;
            }
            let ok = match objects.callback(c).get_caller() {
                Some(CallbackCaller::Subscription(s)) => s.0 < objects.subscriber_count() && objects.subscriber(*s).get_topic().is_known(),
                _ => false,
            };
            if !ok {
                return false;
            }
            i += 1;
        }
        true
    }

    /// Whether [`Self::finalize`] can build the graph (see [`can_construct_graph`]).
    pub fn can_finalize(&self, objects: &ObjectStore) -> (r: bool)
        requires
            self.wf(),
            objects@.wf(),
        ensures
            r == can_construct_graph(self@, objects@),
    {
        let ghost a = self@;
        if !self.subscriptions_known(objects) {
            return false;
        }
        let mut topics: Vec<String> = Vec::new();
        let mut nodes: Vec<CallbackRef> = Vec::new();
        let mut i: usize = 0;
        while i < self.timer_driven_callbacks.len()
            invariant
                self@ == a,
                i <= a.timer_driven.len(),
                nodes@ == a.timer_driven.subrange(0, i as int),
            decreases a.timer_driven.len() - i,
        {
            nodes.push(self.timer_driven_callbacks[i]);
            i += 1;
            assert(nodes@ =~= a.timer_driven.subrange(0, i as int));
        }
        let mut i: usize = 0;
        while i < self.message_driven_callbacks.len()
            invariant
                self@ == a,
                objects@.wf(),
                forall|k: int| 0 <= k < a.message_driven.len() ==> {
                    let c = #[trigger] a.message_driven[k];
                    &&& objects@.valid_callback(c)
                    &&& objects@.callbacks[c.0 as int].caller matches Known::Known(CallbackCaller::Subscription(s))
                    &&& objects@.valid_subscriber(s)
                    &&& objects@.subscribers[s.0 as int].topic_name is Known
                },
                i <= a.message_driven.len(),
                nodes@ == a.timer_driven + a.message_driven.subrange(0, i as int),
                topics@.map_values(|t: String| t@) == message_topics(a, objects@).subrange(0, i as int),
            decreases a.message_driven.len() - i,
        {
            let c = self.message_driven_callbacks[i];
            let ghost old_topics = topics@;
            assert(a.message_driven[i as int] == c);
            nodes.push(c);
            topics.push(subscription_topic_of(objects, c));
            proof {
                assert(topics@.map_values(|t: String| t@) =~= old_topics.map_values(|t: String| t@).push(subscription_topic(objects@, c)));
            }
            i += 1;
            assert(nodes@ =~= a.timer_driven + a.message_driven.subrange(0, i as int));
            assert(topics@.map_values(|t: String| t@) =~= message_topics(a, objects@).subrange(0, i as int));
        }
        proof {
            assert(a.message_driven.subrange(0, i as int) =~= a.message_driven);
            assert(message_topics(a, objects@).subrange(0, i as int) =~= message_topics(a, objects@));
        }
        let ghost tv = topics@.map_values(|t: String| t@);
        let deps = self.publication_in_callback.get_dependency();
        let mut i: usize = 0;
        while i < deps.len()
            invariant
                self@ == a,
                objects@.wf(),
                deps@ == a.publication_in_callback.dependency,
                nodes@ == a.timer_driven + a.message_driven,
                tv == topics@.map_values(|t: String| t@),
                tv == message_topics(a, objects@),
                i <= deps@.len(),
                forall|k: int| 0 <= k < i ==> {
                    let d = #[trigger] a.publication_in_callback.dependency[k];
                    &&& objects@.valid_publisher(d.0)
                    &&& objects@.publishers[d.0.0 as int].topic_name is Known
                    &&& (matching_topics(tv, objects@.publishers[d.0.0 as int].topic_name->Known_0, a.timer_driven.len() as int).len() > 0
                        ==> nodes@.contains(d.1))
                },
            decreases deps@.len() - i,
        {
            let (publisher, callback) = deps[i];
            if publisher.0 >= objects.publisher_count() {
                return false;
            }
            let topic = match objects.publisher(publisher).get_topic() {
                Known::Known(t) => t,
                Known::Unknown => {
                    return false;
                },
            };
            let mut matched = false;
            let mut j: usize = 0;
            while j < topics.len()
                invariant
                    tv == topics@.map_values(|t: String| t@),
                    j <= topics@.len(),
                    matched <==> exists|k: int| 0 <= k < j && tv[k] == topic@,
                decreases topics@.len() - j,
            {
                let here = topics[j].as_str();
                assert(tv[j as int] == here@);
                if same_text(here, topic) {
                    matched = true;
                }
                j += 1;
            }
            proof {
                let t = topic@;
                let o = a.timer_driven.len() as int;
                if matched {
                    let k = choose|k: int| 0 <= k < tv.len() && tv[k] == t;
                    lemma_matching_nonempty(tv, t, o, k);
                } else {
                    lemma_matching_empty(tv, t, o);
                }
            }
            if matched {
                let mut found = false;
                let mut k: usize = 0;
                while k < nodes.len()
                    invariant
                        k <= nodes@.len(),
                        found <==> exists|x: int| 0 <= x < k && nodes@[x] == callback,
                    decreases nodes@.len() - k,
                {
                    if nodes[k].0 == callback.0 {
                        found = true;
                    }
                    k += 1;
                }
                if !found {
                    assert(!nodes@.contains(callback));
                    return false;
                }
            }
            i += 1;
        }
        true
    }
}


impl EventAnalysis for CallbackDependency {
    open spec fn consistent(&self) -> bool {
        self.wf()
    }

    open spec fn takes(&self, e: FullEvent, store: ObjectStoreView) -> bool {
        callback_dependency_accepts(self@, e, store)
    }

    open spec fn finishes(&self, store: ObjectStoreView) -> bool {
        can_construct_graph(self@, store)
    }

    open spec fn state(&self) -> AnalysisState {
        AnalysisState::CallbackDependency(self@)
    }

    open spec fn initial_state(&self) -> AnalysisState {
        AnalysisState::CallbackDependency(empty_callback_dependency())
    }

    open spec fn state_after(&self, e: FullEvent, store: ObjectStoreView) -> AnalysisState {
        AnalysisState::CallbackDependency(callback_dependency_step(self@, e, store))
    }

    open spec fn finished_state(&self, store: ObjectStoreView) -> AnalysisState {
        AnalysisState::CallbackDependency(CallbackDependencyView { graph: Some(callback_graph(self@, store)), ..self@ })
    }

    fn initialize(&mut self) {
        CallbackDependency::initialize(self);
    }

    fn accepts(&self, e: &FullEvent, objects: &ObjectStore) -> (r: bool) {
        CallbackDependency::accepts(self, e, objects)
    }

    fn process_event(&mut self, e: &FullEvent, objects: &ObjectStore) {
        CallbackDependency::process_event(self, e, objects);
    }

    fn can_finalize(&self, objects: &ObjectStore) -> (r: bool) {
        CallbackDependency::can_finalize(self, objects)
    }

    fn finalize(&mut self, objects: &ObjectStore) {
        CallbackDependency::finalize(self, objects);
    }
}


/// Every matching position lies within the topics, shifted by `offset`, at a topic
/// equal to `t`.
proof fn lemma_matching_positions(topics: Seq<Seq<char>>, t: Seq<char>, offset: int)
    ensures
        forall|k: int| 0 <= k < matching_topics(topics, t, offset).len() ==> {
            let m = #[trigger] matching_topics(topics, t, offset)[k];
            &&& offset <= m < offset + topics.len()
            &&& topics[m - offset] == t
        },
    decreases topics.len(),
{
    if topics.len() > 0 {
        lemma_matching_positions(topics.drop_last(), t, offset);
        let rest = matching_topics(topics.drop_last(), t, offset);
        assert forall|k: int| 0 <= k < matching_topics(topics, t, offset).len() implies {
            let m = #[trigger] matching_topics(topics, t, offset)[k];
            &&& offset <= m < offset + topics.len()
            &&& topics[m - offset] == t
        } by {
            if k < rest.len() {
                let m = rest[k];
                assert(topics.drop_last()[m - offset] == t);
            }
        }
    }
}

/// The edges of the pairs `deps` go from the last vertex of each pair's callback to
/// subscription vertices of the pair's publisher's topic.
proof fn lemma_dependency_edges(
    deps: Seq<(PublisherRef, CallbackRef)>,
    nodes: Seq<CallbackRef>,
    topics: Seq<Seq<char>>,
    offset: int,
    store: ObjectStoreView,
)
    requires
        0 <= offset,
        offset + topics.len() == nodes.len(),
        nodes.len() <= usize::MAX,
        forall|i: int| 0 <= i < deps.len() ==> {
            let d = #[trigger] deps[i];
            matching_topics(topics, store.publishers[d.0.0 as int].topic_name->Known_0, offset).len() > 0 ==> nodes.contains(d.1)
        },
    ensures
        forall|k: int| 0 <= k < dependency_edges(deps, nodes, topics, offset, store).len() ==> {
            let (src, dst) = #[trigger] dependency_edges(deps, nodes, topics, offset, store)[k];
            &&& src < nodes.len()
            &&& offset <= dst < nodes.len()
            &&& exists|j: int| 0 <= j < deps.len() && nodes[src as int] == (#[trigger] deps[j]).1
                && topics[dst - offset] == store.publishers[deps[j].0.0 as int].topic_name->Known_0
        },
    decreases deps.len(),
{
    if deps.len() > 0 {
        let front = deps.drop_last();
        assert forall|i: int| 0 <= i < front.len() implies {
            let d = #[trigger] front[i];
            matching_topics(topics, store.publishers[d.0.0 as int].topic_name->Known_0, offset).len() > 0 ==> nodes.contains(d.1)
        } by {
            assert(front[i] == deps[i]);
        }
        lemma_dependency_edges(front, nodes, topics, offset, store);
        let d = deps.last();
        let t = store.publishers[d.0.0 as int].topic_name->Known_0;
        let ms = matching_topics(topics, t, offset);
        lemma_matching_positions(topics, t, offset);
        let src = last_index(nodes, d.1) as usize;
        let head = dependency_edges(front, nodes, topics, offset, store);
        let tail = ms.map_values(|m: int| (src, m as usize));
        let all = dependency_edges(deps, nodes, topics, offset, store);
        assert(all == head + tail);
        if ms.len() > 0 {
            assert(deps[deps.len() - 1] == d);
            assert(nodes.contains(d.1));
            let w = choose|w: int| 0 <= w < nodes.len() && nodes[w] == d.1;
            lemma_last_index_found(nodes, d.1, w);
        }
        assert forall|k: int| 0 <= k < all.len() implies {
            let (s2, t2) = #[trigger] all[k];
            &&& s2 < nodes.len()
            &&& offset <= t2 < nodes.len()
            &&& exists|j: int| 0 <= j < deps.len() && nodes[s2 as int] == (#[trigger] deps[j]).1
                && topics[t2 - offset] == store.publishers[deps[j].0.0 as int].topic_name->Known_0
        } by {
            if k < head.len() {
                let (s2, t2) = head[k];
                let j = choose|j: int| 0 <= j < front.len() && nodes[s2 as int] == (#[trigger] front[j]).1
                    && topics[t2 - offset] == store.publishers[front[j].0.0 as int].topic_name->Known_0;
                assert(deps[j] == front[j]);
            } else {
                let q = k - head.len();
                let m = ms[q];
                assert(tail[q] == (src, m as usize));
                assert(deps[deps.len() - 1] == d);
            }
        }
    }
}

/// Every edge of the callback graph goes from a registered callback that published
/// on a topic to a subscription callback of that topic.
pub proof fn law_edges_follow_topics(a: CallbackDependencyView, store: ObjectStoreView)
    requires
        can_construct_graph(a, store),
        a.timer_driven.len() + a.message_driven.len() <= usize::MAX,
    ensures
        ({
            let g = callback_graph(a, store);
            let deps = a.publication_in_callback.dependency;
            forall|k: int| 0 <= k < g.edges.len() ==> {
                let (src, dst) = #[trigger] g.edges[k];
                &&& src < g.nodes.len()
                &&& a.timer_driven.len() <= dst < g.nodes.len()
                &&& exists|j: int| 0 <= j < deps.len() && g.nodes[src as int] == (#[trigger] deps[j]).1
                    && subscription_topic(store, g.nodes[dst as int]) == store.publishers[deps[j].0.0 as int].topic_name->Known_0
            }
        }),
{
    let nodes = a.timer_driven + a.message_driven;
    let topics = message_topics(a, store);
    let offset = a.timer_driven.len() as int;
    let deps = a.publication_in_callback.dependency;
    lemma_dependency_edges(deps, nodes, topics, offset, store);
    let g = callback_graph(a, store);
    assert forall|k: int| 0 <= k < g.edges.len() implies {
        let (src, dst) = #[trigger] g.edges[k];
        &&& src < g.nodes.len()
        &&& a.timer_driven.len() <= dst < g.nodes.len()
        &&& exists|j: int| 0 <= j < deps.len() && g.nodes[src as int] == (#[trigger] deps[j]).1
            && subscription_topic(store, g.nodes[dst as int]) == store.publishers[deps[j].0.0 as int].topic_name->Known_0
    } by {
        let (src, dst) = g.edges[k];
        assert(nodes[dst as int] == a.message_driven[dst - offset]);
        assert(topics[dst - offset] == subscription_topic(store, a.message_driven[dst - offset]));
    }
}

} // verus!
