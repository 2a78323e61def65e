//! End-to-end latencies along chains of publications, receptions and callback
//! executions.
use vstd::prelude::*;

use crate::events_common::{Context, Time};
use crate::known::Known;
use crate::model::{
    publication_time, receive_time, CallbackInstanceRef, CallbackRef, CallbackTrigger, ObjectStore,
    ObjectStoreView, PartiallyKnown, PublicationMessageRef, PublisherRef, SubscriberRef,
    SubscriptionMessageRef,
};
use crate::processed_events::{ros2, Event, FullEvent};

use super::dependency_graph::{fits_i64, key_of, since};
use super::keyed::{keyed_set, position_of, KeyedList};
use super::text_order::same_text;
use super::threads::{thread_of, RunningCallbacks};

use super::{AnalysisState, EventAnalysis};

verus! {

broadcast use crate::model::store::lemma_view_fits;

/// What a chain passes through.
#[derive(Debug, Clone, Copy)]
pub enum Thing {
    Publisher(PublisherRef),
    Subscriber(SubscriberRef),
    Callback(CallbackRef),
}

/// Whether two things are the same.
fn same_thing(a: &Thing, b: &Thing) -> (r: bool)
    ensures
        r == (*a == *b),
{
    match (a, b) {
        (Thing::Publisher(x), Thing::Publisher(y)) => x.0 == y.0,
        (Thing::Subscriber(x), Thing::Subscriber(y)) => x.0 == y.0,
        (Thing::Callback(x), Thing::Callback(y)) => x.0 == y.0,
        _ => false,
    }
}

/// One link of a chain.
#[derive(Debug, Clone, Copy)]
pub enum ChainLink {
    MessagePublication(PublicationMessageRef),
    MessageReception(SubscriptionMessageRef),
    CallbackInvocation(CallbackInstanceRef),
}

/// A link, the position of the link before it, and whether a later link follows it.
#[derive(Debug, Clone, Copy)]
pub struct ChainPart {
    pub link: ChainLink,
    pub previous: Option<usize>,
    pub extended: bool,
}

/// Follows messages from their publication to their reception, to the callback they
/// trigger, to what that callback publishes; once finalized, the latency of each
/// complete chain, per pair of first and last thing.
#[derive(Debug)]
pub struct EndToEndAnalysis {
    parts: Vec<ChainPart>,
    message_publication: KeyedList<usize>,
    message_reception: KeyedList<usize>,
    callback_invocation: KeyedList<usize>,
    running_callbacks: RunningCallbacks,
    reduction_keys: Vec<(Thing, Thing)>,
    reductions: Vec<Vec<i64>>,
}

/// The abstract state of an [`EndToEndAnalysis`]. Publications, receptions and
/// executions are keyed by [`key_of`] their position in the store; each key leads to
/// the position of its latest link.
pub struct EndToEndView {
    pub parts: Seq<ChainPart>,
    pub publication_keys: Seq<u128>,
    pub publication_parts: Seq<usize>,
    pub reception_keys: Seq<u128>,
    pub reception_parts: Seq<usize>,
    pub invocation_keys: Seq<u128>,
    pub invocation_parts: Seq<usize>,
    pub running_callbacks: Map<(u32, Seq<char>), CallbackInstanceRef>,
    /// The (first, last) thing of the chains seen, each once, in order of first chain.
    pub reduction_keys: Seq<(Thing, Thing)>,
    /// The latencies of the chains of each pair.
    pub reductions: Seq<Seq<i64>>,
}

impl View for EndToEndAnalysis {
    type V = EndToEndView;

    closed spec fn view(&self) -> EndToEndView {
        EndToEndView {
            parts: self.parts@,
            publication_keys: self.message_publication.keys(),
            publication_parts: self.message_publication.values(),
            reception_keys: self.message_reception.keys(),
            reception_parts: self.message_reception.values(),
            invocation_keys: self.callback_invocation.keys(),
            invocation_parts: self.callback_invocation.values(),
            running_callbacks: self.running_callbacks@,
            reduction_keys: self.reduction_keys@,
            reductions: self.reductions@.map_values(|v: Vec<i64>| v@),
        }
    }
}

/// The analysis before any event.
pub open spec fn empty_end_to_end() -> EndToEndView {
    EndToEndView {
        parts: Seq::empty(),
        publication_keys: Seq::empty(),
        publication_parts: Seq::empty(),
        reception_keys: Seq::empty(),
        reception_parts: Seq::empty(),
        invocation_keys: Seq::empty(),
        invocation_parts: Seq::empty(),
        running_callbacks: Map::empty(),
        reduction_keys: Seq::empty(),
        reductions: Seq::empty(),
    }
}

/// The value under `k`, if there is one.
pub open spec fn lookup_part(keys: Seq<u128>, parts: Seq<usize>, k: u128) -> Option<usize> {
    match position_of(keys, k) {
        Some(i) => Some(parts[i]),
        None => None,
    }
}

/// The links once `link` follows the link at `previous`, if any, which is then
/// extended.
pub open spec fn extend(parts: Seq<ChainPart>, previous: Option<usize>, link: ChainLink) -> Seq<ChainPart> {
    let marked = match previous {
        Some(p) => parts.update(p as int, ChainPart { extended: true, ..parts[p as int] }),
        None => parts,
    };
    marked.push(ChainPart { link, previous, extended: false })
}

/// Whether the analysis can take the event: an execution starts on a thread that runs
/// none and is in the store, ends on the thread where it runs or on one that runs
/// none, and a taken message is in the store.
pub open spec fn end_to_end_accepts(a: EndToEndView, e: FullEvent, store: ObjectStoreView) -> bool {
    let t = thread_of(e.context@);
    match e.event {
        Event::Ros2(ros2::Event::CallbackStart(x)) => !a.running_callbacks.dom().contains(t) && store.valid_callback_instance(x.callback),
        Event::Ros2(ros2::Event::CallbackEnd(x)) => a.running_callbacks.dom().contains(t) ==> a.running_callbacks[t] == x.callback,
        Event::Ros2(ros2::Event::RmwTake(x)) => x.taken ==> store.valid_subscription_message(x.message),
        _ => true,
    }
}

/// The analysis after an event: each execution, reception or publication becomes a
/// link that follows the link of what led to it, when known.
pub open spec fn end_to_end_step(a: EndToEndView, e: FullEvent, store: ObjectStoreView) -> EndToEndView {
    let t = thread_of(e.context@);
    let next = a.parts.len() as usize;
    match e.event {
        Event::Ros2(ros2::Event::CallbackStart(x)) => {
            let previous = match store.callback_instances[x.callback.0 as int].trigger {
                CallbackTrigger::SubscriptionMessage(m) => lookup_part(a.reception_keys, a.reception_parts, key_of(m.0)),
                _ => None,
            };
            let (invocation_keys, invocation_parts) = keyed_set(a.invocation_keys, a.invocation_parts, key_of(x.callback.0), next);
            EndToEndView {
                parts: extend(a.parts, previous, ChainLink::CallbackInvocation(x.callback)),
                invocation_keys,
                invocation_parts,
                running_callbacks: a.running_callbacks.insert(t, x.callback),
                ..a
            }
        },
        Event::Ros2(ros2::Event::CallbackEnd(x)) => EndToEndView { running_callbacks: a.running_callbacks.remove(t), ..a },
        Event::Ros2(ros2::Event::RmwTake(x)) => if !x.taken {
            a
        } else {
            let previous = match store.subscription_messages[x.message.0 as int].message {
                PartiallyKnown::Fully(pm) => lookup_part(a.publication_keys, a.publication_parts, key_of(pm.0)),
                _ => None,
            };
            let (reception_keys, reception_parts) = keyed_set(a.reception_keys, a.reception_parts, key_of(x.message.0), next);
            EndToEndView {
                parts: extend(a.parts, previous, ChainLink::MessageReception(x.message)),
                reception_keys,
                reception_parts,
                ..a
            }
        },
        Event::Ros2(ros2::Event::RmwPublish(x)) => {
            let previous = if a.running_callbacks.dom().contains(t) {
                lookup_part(a.invocation_keys, a.invocation_parts, key_of(a.running_callbacks[t].0))
            } else {
                None
            };
            let (publication_keys, publication_parts) = keyed_set(a.publication_keys, a.publication_parts, key_of(x.message.0), next);
            EndToEndView {
                parts: extend(a.parts, previous, ChainLink::MessagePublication(x.message)),
                publication_keys,
                publication_parts,
                ..a
            }
        },
        _ => a,
    }
}


/// Whether every position among `values` is a position of a link.
pub open spec fn parts_in_range(values: Seq<usize>, n: nat) -> bool {
    forall|j: int| 0 <= j < values.len() ==> #[trigger] values[j] < n
}

impl EndToEndAnalysis {
    /// Every link comes after the link before it, every key leads to a link, and no
    /// pair of things occurs twice.
    pub closed spec fn wf(&self) -> bool {
        &&& forall|i: int| 0 <= i < self.parts@.len() ==> (#[trigger] self.parts@[i]).previous matches Some(p) && p < i
            || self.parts@[i].previous is None
        &&& self.message_publication.wf()
        &&& self.message_reception.wf()
        &&& self.callback_invocation.wf()
        &&& parts_in_range(self.message_publication.values(), self.parts@.len())
        &&& parts_in_range(self.message_reception.values(), self.parts@.len())
        &&& parts_in_range(self.callback_invocation.values(), self.parts@.len())
        &&& self.running_callbacks.wf()
        &&& self.reduction_keys@.len() == self.reductions@.len()
        &&& self.reduction_keys@.no_duplicates()
    }

    pub fn new() -> (r: Self)
        ensures
            r.wf(),
            r@ == empty_end_to_end(),
    {
        let r = EndToEndAnalysis {
            parts: Vec::new(),
            message_publication: KeyedList::new(),
            message_reception: KeyedList::new(),
            callback_invocation: KeyedList::new(),
            running_callbacks: RunningCallbacks::new(),
            reduction_keys: Vec::new(),
            reductions: Vec::new(),
        };
        assert(r@.parts =~= Seq::<ChainPart>::empty());
        assert(r@.reduction_keys =~= Seq::<(Thing, Thing)>::empty());
        assert(r@.reductions =~= Seq::<Seq<i64>>::empty());
        r
    }

    /// Forgets everything.
    pub fn initialize(&mut self)
        ensures
            final(self).wf(),
            final(self)@ == empty_end_to_end(),
    {
        *self = Self::new();
    }

    /// Adds a link after the one at `previous`, if any, and returns its position.
    fn add_part(&mut self, previous: Option<usize>, link: ChainLink) -> (r: usize)
        requires
            old(self).wf(),
            previous matches Some(p) ==> p < old(self).parts@.len(),
        ensures
            final(self).wf(),
            r == old(self).parts@.len(),
            final(self)@ == (EndToEndView { parts: extend(old(self)@.parts, previous, link), ..old(self)@ }),
    {
        if let Some(p) = previous {
            let mut part = self.parts[p];
            part.extended = true;
            self.parts.set(p, part);
        }
        let r = self.parts.len();
        self.parts.push(ChainPart { link, previous, extended: false });
        proof {
            assert(self.parts@ =~= extend(old(self)@.parts, previous, link));
            assert forall|i: int| 0 <= i < self.parts@.len() implies (#[trigger] self.parts@[i]).previous matches Some(p) && p < i
                || self.parts@[i].previous is None by {
                if i < old(self).parts@.len() {
                    assert(self.parts@[i].previous == old(self).parts@[i].previous);
                }
            }
            assert forall|j: int| 0 <= j < self.message_publication.values().len() implies #[trigger] self.message_publication.values()[j] < self.parts@.len() by {
                assert(old(self).message_publication.values()[j] < old(self).parts@.len());
            }
            assert forall|j: int| 0 <= j < self.message_reception.values().len() implies #[trigger] self.message_reception.values()[j] < self.parts@.len() by {
                assert(old(self).message_reception.values()[j] < old(self).parts@.len());
            }
            assert forall|j: int| 0 <= j < self.callback_invocation.values().len() implies #[trigger] self.callback_invocation.values()[j] < self.parts@.len() by {
                assert(old(self).callback_invocation.values()[j] < old(self).parts@.len());
            }
        }
        r
    }

    /// The latest link under `k` in a table.
    fn lookup(table: &KeyedList<usize>, k: u128, n: Ghost<nat>) -> (r: Option<usize>)
        requires
            table.wf(),
            parts_in_range(table.values(), n@),
        ensures
            r == lookup_part(table.keys(), table.values(), k),
            r matches Some(p) ==> p < n@,
    {
        match table.position(k) {
            Some(i) => Some(*table.value(i)),
            None => None,
        }
    }
}


/// Setting a key to a position within range keeps every position within range.
proof fn lemma_set_in_range(keys: Seq<u128>, values: Seq<usize>, k: u128, v: usize, n: nat)
    requires
        parts_in_range(values, n),
        v < n,
        keys.len() == values.len(),
    ensures
        parts_in_range(keyed_set(keys, values, k, v).1, n),
{
    let nv = keyed_set(keys, values, k, v).1;
    assert forall|j: int| 0 <= j < nv.len() implies #[trigger] nv[j] < n by {
        match position_of(keys, k) {
            Some(i) => {
                assert(keys.contains(k));
                assert(0 <= i < keys.len());
                if j != i {
                    assert(nv[j] == values[j]);
                }
            },
            None => {
                if j < values.len() {
                    assert(nv[j] == values[j]);
                }
            },
        }
    }
}

impl EndToEndAnalysis {
    fn process_callback_start(&mut self, objects: &ObjectStore, instance: CallbackInstanceRef, context: &Context)
        requires
            old(self).wf(),
            objects@.wf(),
            !old(self)@.running_callbacks.dom().contains(thread_of(context@)),
            objects@.valid_callback_instance(instance),
        ensures
            final(self).wf(),
            ({
                let a = old(self)@;
                let previous = match objects@.callback_instances[instance.0 as int].trigger {
                    CallbackTrigger::SubscriptionMessage(m) => lookup_part(a.reception_keys, a.reception_parts, key_of(m.0)),
                    _ => None,
                };
                let (invocation_keys, invocation_parts) = keyed_set(a.invocation_keys, a.invocation_parts, key_of(instance.0), a.parts.len() as usize);
                final(self)@ == EndToEndView {
                    parts: extend(a.parts, previous, ChainLink::CallbackInvocation(instance)),
                    invocation_keys,
                    invocation_parts,
                    running_callbacks: a.running_callbacks.insert(thread_of(context@), instance),
                    ..a
                }
            }),
    {
        self.running_callbacks.insert(context, instance);
        let previous = match objects.callback_instance(instance).get_trigger() {
            CallbackTrigger::SubscriptionMessage(m) => Self::lookup(&self.message_reception, m.0 as u128, Ghost(self.parts@.len())),
            _ => None,
        };
        let r = self.add_part(previous, ChainLink::CallbackInvocation(instance));
        let ghost before = self.callback_invocation;
        self.callback_invocation.set(instance.0 as u128, r);
        proof {
            before.lemma_keys_distinct();
            lemma_set_in_range(before.keys(), before.values(), instance.0 as u128, r, self.parts@.len());
        }
    }

    fn process_rmw_take(&mut self, objects: &ObjectStore, event: &ros2::RmwTake)
        requires
            old(self).wf(),
            objects@.wf(),
            event.taken ==> objects@.valid_subscription_message(event.message),
        ensures
            final(self).wf(),
            !event.taken ==> final(self)@ == old(self)@,
            event.taken ==> ({
                let a = old(self)@;
                let previous = match objects@.subscription_messages[event.message.0 as int].message {
                    PartiallyKnown::Fully(pm) => lookup_part(a.publication_keys, a.publication_parts, key_of(pm.0)),
                    _ => None,
                };
                let (reception_keys, reception_parts) = keyed_set(a.reception_keys, a.reception_parts, key_of(event.message.0), a.parts.len() as usize);
                final(self)@ == EndToEndView {
                    parts: extend(a.parts, previous, ChainLink::MessageReception(event.message)),
                    reception_keys,
                    reception_parts,
                    ..a
                }
            }),
    {
        if !event.taken {
            return;
        }
        let previous = match objects.subscription_message(event.message).get_publication_message() {
            Some(pm) => Self::lookup(&self.message_publication, pm.0 as u128, Ghost(self.parts@.len())),
            None => None,
        };
        let r = self.add_part(previous, ChainLink::MessageReception(event.message));
        let ghost before = self.message_reception;
        self.message_reception.set(event.message.0 as u128, r);
        proof {
            before.lemma_keys_distinct();
            lemma_set_in_range(before.keys(), before.values(), event.message.0 as u128, r, self.parts@.len());
        }
    }

    fn process_publication(&mut self, message: PublicationMessageRef, context: &Context)
        requires
            old(self).wf(),
        ensures
            final(self).wf(),
            ({
                let a = old(self)@;
                let t = thread_of(context@);
                let previous = if a.running_callbacks.dom().contains(t) {
                    lookup_part(a.invocation_keys, a.invocation_parts, key_of(a.running_callbacks[t].0))
                } else {
                    None
                };
                let (publication_keys, publication_parts) = keyed_set(a.publication_keys, a.publication_parts, key_of(message.0), a.parts.len() as usize);
                final(self)@ == EndToEndView {
                    parts: extend(a.parts, previous, ChainLink::MessagePublication(message)),
                    publication_keys,
                    publication_parts,
                    ..a
                }
            }),
    {
        let previous = match self.running_callbacks.get(context) {
            Some(instance) => Self::lookup(&self.callback_invocation, instance.0 as u128, Ghost(self.parts@.len())),
            None => None,
        };
        let r = self.add_part(previous, ChainLink::MessagePublication(message));
        let ghost before = self.message_publication;
        self.message_publication.set(message.0 as u128, r);
        proof {
            before.lemma_keys_distinct();
            lemma_set_in_range(before.keys(), before.values(), message.0 as u128, r, self.parts@.len());
        }
    }

    /// Takes one event (see [`end_to_end_step`]).
    pub fn process_event(&mut self, full_event: &FullEvent, objects: &ObjectStore)
        requires
            old(self).wf(),
            objects@.wf(),
            end_to_end_accepts(old(self)@, *full_event, objects@),
        ensures
            final(self).wf(),
            final(self)@ == end_to_end_step(old(self)@, *full_event, objects@),
    {
        match &full_event.event {
            Event::Ros2(ros2::Event::CallbackStart(event)) => {
                self.process_callback_start(objects, event.callback, &full_event.context);
            },
            Event::Ros2(ros2::Event::CallbackEnd(_event)) => {
                let _ = self.running_callbacks.remove(&full_event.context);
            },
            Event::Ros2(ros2::Event::RmwTake(event)) => {
                self.process_rmw_take(objects, event);
            },
            Event::Ros2(ros2::Event::RmwPublish(event)) => {
                self.process_publication(event.message, &full_event.context);
            },
            _ => {},
        }
    }

    /// Whether [`Self::process_event`] can take the event.
    pub fn accepts(&self, full_event: &FullEvent, objects: &ObjectStore) -> (r: bool)
        requires
            self.wf(),
        ensures
            r == end_to_end_accepts(self@, *full_event, objects@),
    {
        match &full_event.event {
            Event::Ros2(ros2::Event::CallbackStart(event)) => {
                self.running_callbacks.get(&full_event.context).is_none() && event.callback.0 < objects.callback_instance_count()
            },
            Event::Ros2(ros2::Event::CallbackEnd(event)) => match self.running_callbacks.get(&full_event.context) {
                Some(i) => i.0 == event.callback.0,
                None => true,
            },
            Event::Ros2(ros2::Event::RmwTake(event)) => !event.taken || event.message.0 < objects.subscription_message_count(),
            _ => true,
        }
    }
}


/// The topic whose publications never begin a chain: walking back stops before them.
pub open spec fn skipped_topic() -> Seq<char> {
    "/carla/ego_vehicle/imu"@
}

/// The publisher of a published message.
pub open spec fn publisher_of(store: ObjectStoreView, pm: PublicationMessageRef) -> PublisherRef {
    store.publication_messages[pm.0 as int].publisher->Known_0
}

/// Whether walking back stops before the link at `p`: a publication on the skipped
/// topic.
pub open spec fn stops_before(parts: Seq<ChainPart>, store: ObjectStoreView, p: int) -> bool {
    parts[p].link matches ChainLink::MessagePublication(pm)
        && store.publishers[publisher_of(store, pm).0 as int].topic_name == Known::Known(skipped_topic())
}

/// Where the chain that ends at `i` begins: walking back over the links before it
/// until there is none or the next is a publication on the skipped topic.
pub open spec fn chain_beginning(parts: Seq<ChainPart>, store: ObjectStoreView, i: int) -> int
    decreases i,
{
    if 0 <= i < parts.len() {
        match parts[i].previous {
            Some(p) => if p < i && !stops_before(parts, store, p as int) {
                chain_beginning(parts, store, p as int)
            } else {
                i
            },
            None => i,
        }
    } else {
        i
    }
}

/// Whether walking back from `i` meets only publications with a known publisher.
pub open spec fn walk_ok(parts: Seq<ChainPart>, store: ObjectStoreView, i: int) -> bool
    decreases i,
{
    if 0 <= i < parts.len() {
        match parts[i].previous {
            Some(p) => if p < i {
                &&& (parts[p as int].link matches ChainLink::MessagePublication(pm) ==> {
                    &&& store.valid_publication_message(pm)
                    &&& store.publication_messages[pm.0 as int].publisher is Known
                })
                &&& (!stops_before(parts, store, p as int) ==> walk_ok(parts, store, p as int))
            } else {
                true
            },
            None => true,
        }
    } else {
        true
    }
}

/// Whether the time and thing of a link are known.
pub open spec fn link_known(store: ObjectStoreView, link: ChainLink) -> bool {
    match link {
        ChainLink::MessagePublication(pm) => {
            let pv = store.publication_messages[pm.0 as int];
            store.valid_publication_message(pm) && pv.publisher is Known && publication_time(pv) is Some
        },
        ChainLink::MessageReception(m) => {
            let mv = store.subscription_messages[m.0 as int];
            store.valid_subscription_message(m) && mv.subscriber is Known && receive_time(mv) is Some
        },
        ChainLink::CallbackInvocation(c) => store.valid_callback_instance(c),
    }
}

/// When and where a chain begins at a link: the publication, the reception, or the
/// start of the execution.
pub open spec fn start_of(store: ObjectStoreView, link: ChainLink) -> (Time, Thing) {
    match link {
        ChainLink::MessagePublication(pm) => {
            let pv = store.publication_messages[pm.0 as int];
            (publication_time(pv)->Some_0, Thing::Publisher(pv.publisher->Known_0))
        },
        ChainLink::MessageReception(m) => {
            let mv = store.subscription_messages[m.0 as int];
            (receive_time(mv)->Some_0, Thing::Subscriber(mv.subscriber->Known_0))
        },
        ChainLink::CallbackInvocation(c) => {
            let iv = store.callback_instances[c.0 as int];
            (iv.start_time, Thing::Callback(iv.callback))
        },
    }
}

/// When and where a chain ends at a link: as it would begin there, except that an
/// execution ends at its end, when known.
pub open spec fn end_of(store: ObjectStoreView, link: ChainLink) -> (Time, Thing) {
    match link {
        ChainLink::CallbackInvocation(c) => {
            let iv = store.callback_instances[c.0 as int];
            (
                match iv.end_time {
                    Known::Known(t) => t,
                    Known::Unknown => iv.start_time,
                },
                Thing::Callback(iv.callback),
            )
        },
        _ => start_of(store, link),
    }
}

/// The series once `x` joins the series of `k`.
pub open spec fn pair_push(keys: Seq<(Thing, Thing)>, series: Seq<Seq<i64>>, k: (Thing, Thing), x: i64) -> (Seq<(Thing, Thing)>, Seq<Seq<i64>>) {
    if keys.contains(k) {
        let i = keys.index_of(k);
        (keys, series.update(i, series[i].push(x)))
    } else {
        (keys.push(k), series.push(seq![x]))
    }
}

/// The latencies once the chain that ends at `i`, unless extended or beginning and
/// ending at the same thing, adds its latency.
pub open spec fn reduce_one(acc: (Seq<(Thing, Thing)>, Seq<Seq<i64>>), parts: Seq<ChainPart>, store: ObjectStoreView, i: usize) -> (Seq<(Thing, Thing)>, Seq<Seq<i64>>) {
    if parts[i as int].extended {
        acc
    } else {
        let (ts, s) = start_of(store, parts[chain_beginning(parts, store, i as int)].link);
        let (te, e) = end_of(store, parts[i as int].link);
        if s == e {
            acc
        } else {
            pair_push(acc.0, acc.1, (s, e), since(te, ts))
        }
    }
}

/// Whether the chain that ends at `i` can be measured.
pub open spec fn reduce_ok(parts: Seq<ChainPart>, store: ObjectStoreView, i: usize) -> bool {
    let b = chain_beginning(parts, store, i as int);
    &&& walk_ok(parts, store, i as int)
    &&& link_known(store, parts[b].link)
    &&& link_known(store, parts[i as int].link)
    &&& fits_i64(end_of(store, parts[i as int].link).0.nanos() - start_of(store, parts[b].link).0.nanos())
}

/// The latest link of each publication, then of each reception, then of each
/// execution.
pub open spec fn candidates(a: EndToEndView) -> Seq<usize> {
    a.publication_parts + a.reception_parts + a.invocation_parts
}

/// The latencies once every chain is measured.
pub open spec fn reduce_all(a: EndToEndView, store: ObjectStoreView) -> (Seq<(Thing, Thing)>, Seq<Seq<i64>>) {
    candidates(a).fold_left(
        (a.reduction_keys, a.reductions),
        |acc: (Seq<(Thing, Thing)>, Seq<Seq<i64>>), i: usize| reduce_one(acc, a.parts, store, i),
    )
}

/// Whether every chain that is not extended can be measured.
pub open spec fn can_reduce(a: EndToEndView, store: ObjectStoreView) -> bool {
    forall|j: int| 0 <= j < candidates(a).len() ==> {
        let i = #[trigger] candidates(a)[j];
        !a.parts[i as int].extended ==> reduce_ok(a.parts, store, i)
    }
}


/// When and where a chain begins at a link.
fn start_of_link(objects: &ObjectStore, link: ChainLink) -> (r: (Time, Thing))
    requires
        link_known(objects@, link),
    ensures
        r == start_of(objects@, link),
{
    match link {
        ChainLink::MessagePublication(pm) => {
            let message = objects.publication_message(pm);
            (message.get_publication_time().unwrap(), Thing::Publisher(message.get_publisher().unwrap()))
        },
        ChainLink::MessageReception(m) => {
            let message = objects.subscription_message(m);
            (message.get_receive_time().unwrap(), Thing::Subscriber(message.get_subscriber().unwrap()))
        },
        ChainLink::CallbackInvocation(c) => {
            let instance = objects.callback_instance(c);
            (instance.get_start_time(), Thing::Callback(instance.get_callback()))
        },
    }
}

/// When and where a chain ends at a link.
fn end_of_link(objects: &ObjectStore, link: ChainLink) -> (r: (Time, Thing))
    requires
        link_known(objects@, link),
    ensures
        r == end_of(objects@, link),
{
    match link {
        ChainLink::CallbackInvocation(c) => {
            let instance = objects.callback_instance(c);
            let time = match instance.get_end_time() {
                Some(t) => t,
                None => instance.get_start_time(),
            };
            (time, Thing::Callback(instance.get_callback()))
        },
        _ => start_of_link(objects, link),
    }
}

impl EndToEndAnalysis {
    /// Whether walking back stops before the link at `p`.
    fn stops(&self, objects: &ObjectStore, p: usize) -> (r: bool)
        requires
            objects@.wf(),
            p < self.parts@.len(),
            self.parts@[p as int].link matches ChainLink::MessagePublication(pm) ==> {
                &&& objects@.valid_publication_message(pm)
                &&& objects@.publication_messages[pm.0 as int].publisher is Known
            },
        ensures
            r == stops_before(self.parts@, objects@, p as int),
    {
        match self.parts[p].link {
            ChainLink::MessagePublication(pm) => {
                proof {
                    assert(objects@.publication_message_ok(objects@.publication_messages[pm.0 as int]));
                }
                let publisher = objects.publication_message(pm).get_publisher().unwrap();
                match objects.publisher(publisher).get_topic() {
                    Known::Known(t) => same_text(t, "/carla/ego_vehicle/imu"),
                    Known::Unknown => false,
                }
            },
            _ => false,
        }
    }

    /// Where the chain that ends at `i` begins.
    fn walk_back(&self, objects: &ObjectStore, i: usize) -> (b: usize)
        requires
            self.wf(),
            objects@.wf(),
            i < self.parts@.len(),
            walk_ok(self.parts@, objects@, i as int),
        ensures
            b == chain_beginning(self.parts@, objects@, i as int),
            b < self.parts@.len(),
    {
        let mut b = i;
        loop
            invariant
                self.wf(),
                objects@.wf(),
                b < self.parts@.len(),
                walk_ok(self.parts@, objects@, b as int),
                chain_beginning(self.parts@, objects@, i as int) == chain_beginning(self.parts@, objects@, b as int),
            ensures
                b < self.parts@.len(),
                chain_beginning(self.parts@, objects@, i as int) == b,
            decreases b,
        {
            match self.parts[b].previous {
                None => {
                    break;
                },
                Some(p) => {
                    assert(p < b);
                    if self.stops(objects, p) {
                        break;
                    }
                    b = p;
                },
            }
        }
        b
    }

    /// Adds `x` to the latencies of the pair `k`.
    fn push_reduction(&mut self, k: (Thing, Thing), x: i64)
        requires
            old(self).wf(),
        ensures
            final(self).wf(),
            final(self)@ == (EndToEndView {
                reduction_keys: pair_push(old(self)@.reduction_keys, old(self)@.reductions, k, x).0,
                reductions: pair_push(old(self)@.reduction_keys, old(self)@.reductions, k, x).1,
                ..old(self)@
            }),
    {
        let ghost keys = self.reduction_keys@;
        let ghost series = self@.reductions;
        let mut i: usize = 0;
        while i < self.reduction_keys.len()
            invariant
                self.wf(),
                self@ == old(self)@,
                keys == old(self)@.reduction_keys,
                series == old(self)@.reductions,
                i <= self.reduction_keys@.len(),
                forall|j: int| 0 <= j < i ==> self.reduction_keys@[j] != k,
            decreases self.reduction_keys@.len() - i,
        {
            let (a, b) = self.reduction_keys[i];
            if same_thing(&a, &k.0) && same_thing(&b, &k.1) {
                proof {
                    assert(keys[i as int] == k);
                    assert(keys.contains(k));
                    let j = keys.index_of(k);
                    assert(0 <= j < keys.len() && keys[j] == k);
                }
                self.reductions[i].push(x);
                proof {
                    assert(self@.reductions =~= series.update(i as int, series[i as int].push(x)));
                }
                return;
            }
            i += 1;
        }
        proof {
            if keys.contains(k) {
                let j = choose|j: int| 0 <= j < keys.len() && keys[j] == k;
                assert(keys[j] != k);
            }
        }
        self.reduction_keys.push(k);
        let mut v: Vec<i64> = Vec::new();
        v.push(x);
        self.reductions.push(v);
        proof {
            assert(self@.reductions =~= series.push(seq![x]));
            let nk = self.reduction_keys@;
            assert forall|a: int, b: int| 0 <= a < nk.len() && 0 <= b < nk.len() && a != b implies nk[a] != nk[b] by {
                if a == keys.len() {
                    assert(keys[b] != k);
                }
                if b == keys.len() {
                    assert(keys[a] != k);
                }
            }
        }
    }

    /// Measures the chain that ends at `i`.
    fn reduce_part(&mut self, objects: &ObjectStore, i: usize)
        requires
            old(self).wf(),
            objects@.wf(),
            i < old(self).parts@.len(),
            !old(self)@.parts[i as int].extended ==> reduce_ok(old(self)@.parts, objects@, i),
        ensures
            final(self).wf(),
            ({
                let r = reduce_one((old(self)@.reduction_keys, old(self)@.reductions), old(self)@.parts, objects@, i);
                final(self)@ == EndToEndView { reduction_keys: r.0, reductions: r.1, ..old(self)@ }
            }),
    {
        if self.parts[i].extended {
            return;
        }
        let b = self.walk_back(objects, i);
        let (start_time, start_thing) = start_of_link(objects, self.parts[b].link);
        let (end_time, end_thing) = end_of_link(objects, self.parts[i].link);
        if same_thing(&start_thing, &end_thing) {
            return;
        }
        let duration = end_time.timestamp_nanos() - start_time.timestamp_nanos();
        self.push_reduction((start_thing, end_thing), duration);
    }

    /// The latest link of each publication, then of each reception, then of each
    /// execution (see [`candidates`]).
    fn chain_ends(&self) -> (ends: Vec<usize>)
        requires
            self.wf(),
        ensures
            ends@ == candidates(self@),
            forall|j: int| 0 <= j < ends@.len() ==> #[trigger] ends@[j] < self@.parts.len(),
    {
        let ghost a = self@;
        let mut ends: Vec<usize> = Vec::new();
        let mut j: usize = 0;
        while j < self.message_publication.len()
            invariant
                self.wf(),
                self@ == a,
                j <= a.publication_parts.len(),
                ends@ == a.publication_parts.subrange(0, j as int),
            decreases a.publication_parts.len() - j,
        {
            proof {
                self.message_publication.lemma_keys_distinct();
            }
            ends.push(*self.message_publication.value(j));
            j += 1;
            assert(ends@ =~= a.publication_parts.subrange(0, j as int));
        }
        proof {
            self.message_publication.lemma_keys_distinct();
            assert(a.publication_parts.subrange(0, j as int) =~= a.publication_parts);
        }
        let mut j: usize = 0;
        while j < self.message_reception.len()
            invariant
                self.wf(),
                self@ == a,
                j <= a.reception_parts.len(),
                ends@ == a.publication_parts + a.reception_parts.subrange(0, j as int),
            decreases a.reception_parts.len() - j,
        {
            proof {
                self.message_reception.lemma_keys_distinct();
            }
            ends.push(*self.message_reception.value(j));
            j += 1;
            assert(ends@ =~= a.publication_parts + a.reception_parts.subrange(0, j as int));
        }
        proof {
            self.message_reception.lemma_keys_distinct();
            assert(a.reception_parts.subrange(0, j as int) =~= a.reception_parts);
        }
        let mut j: usize = 0;
        while j < self.callback_invocation.len()
            invariant
                self.wf(),
                self@ == a,
                j <= a.invocation_parts.len(),
                ends@ == a.publication_parts + a.reception_parts + a.invocation_parts.subrange(0, j as int),
            decreases a.invocation_parts.len() - j,
        {
            proof {
                self.callback_invocation.lemma_keys_distinct();
            }
            ends.push(*self.callback_invocation.value(j));
            j += 1;
            assert(ends@ =~= a.publication_parts + a.reception_parts + a.invocation_parts.subrange(0, j as int));
        }
        proof {
            self.callback_invocation.lemma_keys_distinct();
            assert(a.invocation_parts.subrange(0, j as int) =~= a.invocation_parts);
            assert(ends@ == candidates(a));
        }
        proof {
            assert forall|j: int| 0 <= j < ends@.len() implies #[trigger] ends@[j] < self@.parts.len() by {
                let pp = a.publication_parts + a.reception_parts;
                if j < a.publication_parts.len() {
                    assert(ends@[j] == a.publication_parts[j]);
                } else if j < pp.len() {
                    assert(ends@[j] == a.reception_parts[j - a.publication_parts.len()]);
                } else {
                    assert(ends@[j] == a.invocation_parts[j - pp.len()]);
                }
            }
        }
        ends
    }

    /// Whether walking back from `i` meets only publications with a known publisher.
    fn walk_ok_at(&self, objects: &ObjectStore, i: usize) -> (r: bool)
        requires
            self.wf(),
            objects@.wf(),
            i < self.parts@.len(),
        ensures
            r == walk_ok(self.parts@, objects@, i as int),
    {
        let mut b = i;
        loop
            invariant
                self.wf(),
                objects@.wf(),
                b < self.parts@.len(),
                walk_ok(self.parts@, objects@, i as int) == walk_ok(self.parts@, objects@, b as int),
            decreases b,
        {
            match self.parts[b].previous {
                None => {
                    return true;
                },
                Some(p) => {
                    assert(p < b);
                    if let ChainLink::MessagePublication(pm) = self.parts[p].link {
                        if pm.0 >= objects.publication_message_count() {
                            return false;
                        }
                        if objects.publication_message(pm).get_publisher().is_none() {
                            return false;
                        }
                    }
                    if self.stops(objects, p) {
                        return true;
                    }
                    b = p;
                },
            }
        }
    }

    /// Whether the time and thing of a link are known.
    fn link_known_at(objects: &ObjectStore, link: ChainLink) -> (r: bool)
        ensures
            r == link_known(objects@, link),
    {
        match link {
            ChainLink::MessagePublication(pm) => {
                pm.0 < objects.publication_message_count() && objects.publication_message(pm).get_publisher().is_some()
                    && objects.publication_message(pm).get_publication_time().is_some()
            },
            ChainLink::MessageReception(m) => {
                m.0 < objects.subscription_message_count() && objects.subscription_message(m).get_subscriber().is_some()
                    && objects.subscription_message(m).get_receive_time().is_some()
            },
            ChainLink::CallbackInvocation(c) => c.0 < objects.callback_instance_count(),
        }
    }

    /// Whether the chain that ends at `i` can be measured.
    fn reduce_ok_at(&self, objects: &ObjectStore, i: usize) -> (r: bool)
        requires
            self.wf(),
            objects@.wf(),
            i < self.parts@.len(),
        ensures
            r == reduce_ok(self.parts@, objects@, i),
    {
        if !self.walk_ok_at(objects, i) {
            return false;
        }
        let b = self.walk_back(objects, i);
        if !(Self::link_known_at(objects, self.parts[b].link) && Self::link_known_at(objects, self.parts[i].link)) {
            return false;
        }
        let (start_time, _) = start_of_link(objects, self.parts[b].link);
        let (end_time, _) = end_of_link(objects, self.parts[i].link);
        end_time.timestamp_nanos().checked_sub(start_time.timestamp_nanos()).is_some()
    }

    /// Whether [`Self::finalize`] can measure every chain (see [`can_reduce`]).
    pub fn can_finalize(&self, objects: &ObjectStore) -> (r: bool)
        requires
            self.wf(),
            objects@.wf(),
        ensures
            r == can_reduce(self@, objects@),
    {
        let ends = self.chain_ends();
        let mut j: usize = 0;
        while j < ends.len()
            invariant
                self.wf(),
                objects@.wf(),
                ends@ == candidates(self@),
                forall|k: int| 0 <= k < ends@.len() ==> #[trigger] ends@[k] < self@.parts.len(),
                j <= ends@.len(),
                forall|k: int| 0 <= k < j ==> {
                    let i = #[trigger] ends@[k];
                    !self@.parts[i as int].extended ==> reduce_ok(self@.parts, objects@, i)
                },
            decreases ends@.len() - j,
        {
            let i = ends[j];
            if !self.parts[i].extended && !self.reduce_ok_at(objects, i) {
                assert(candidates(self@)[j as int] == i);
                return false;
            }
            j += 1;
        }
        true
    }

    /// The number of (first, last) pairs with a latency.
    pub fn reduction_count(&self) -> (r: usize)
        requires
            self.wf(),
        ensures
            r == self@.reduction_keys.len(),
    {
        self.reduction_keys.len()
    }

    /// The `i`-th pair of things, in order of first chain, and the latencies of its
    /// chains.
    pub fn reduction(&self, i: usize) -> (r: ((Thing, Thing), &[i64]))
        requires
            self.wf(),
            i < self@.reduction_keys.len(),
        ensures
            r.0 == self@.reduction_keys[i as int],
            r.1@ == self@.reductions[i as int],
    {
        (self.reduction_keys[i], self.reductions[i].as_slice())
    }

    /// Measures every chain that is not extended (see [`reduce_all`]).
    pub fn finalize(&mut self, objects: &ObjectStore)
        requires
            old(self).wf(),
            objects@.wf(),
            can_reduce(old(self)@, objects@),
        ensures
            final(self).wf(),
            ({
                let r = reduce_all(old(self)@, objects@);
                final(self)@ == EndToEndView { reduction_keys: r.0, reductions: r.1, ..old(self)@ }
            }),
    {
        let ghost a = self@;
        let ends = self.chain_ends();
        let mut j: usize = 0;
        while j < ends.len()
            invariant
                self.wf(),
                objects@.wf(),
                can_reduce(a, objects@),
                ends@ == candidates(a),
                j <= ends@.len(),
                self@.parts == a.parts,
                ({
                    let r = ends@.subrange(0, j as int).fold_left(
                        (a.reduction_keys, a.reductions),
                        |acc: (Seq<(Thing, Thing)>, Seq<Seq<i64>>), i: usize| reduce_one(acc, a.parts, objects@, i),
                    );
                    self@ == EndToEndView { reduction_keys: r.0, reductions: r.1, ..a }
                }),
            decreases ends@.len() - j,
        {
            let i = ends[j];
            proof {
                assert(candidates(a)[j as int] == i);
                let part_ranges = a.publication_parts + a.reception_parts;
                if (j as int) < a.publication_parts.len() {
                    assert(a.publication_parts[j as int] == i);
                } else if (j as int) < part_ranges.len() {
                    assert(a.reception_parts[j - a.publication_parts.len()] == i);
                } else {
                    assert(a.invocation_parts[j - part_ranges.len()] == i);
                }
            }
            self.reduce_part(objects, i);
            proof {
                let next = ends@.subrange(0, j as int + 1);
                assert(next.drop_last() =~= ends@.subrange(0, j as int));
            }
            j += 1;
        }
        proof {
            assert(ends@.subrange(0, j as int) =~= ends@);
        }
    }
}


impl EventAnalysis for EndToEndAnalysis {
    open spec fn consistent(&self) -> bool {
        self.wf()
    }

    open spec fn takes(&self, e: FullEvent, store: ObjectStoreView) -> bool {
        end_to_end_accepts(self@, e, store)
    }

    open spec fn finishes(&self, store: ObjectStoreView) -> bool {
        can_reduce(self@, store)
    }

    open spec fn state(&self) -> AnalysisState {
        AnalysisState::EndToEnd(self@)
    }

    open spec fn initial_state(&self) -> AnalysisState {
        AnalysisState::EndToEnd(empty_end_to_end())
    }

    open spec fn state_after(&self, e: FullEvent, store: ObjectStoreView) -> AnalysisState {
        AnalysisState::EndToEnd(end_to_end_step(self@, e, store))
    }

    open spec fn finished_state(&self, store: ObjectStoreView) -> AnalysisState {
        ({
            let r = reduce_all(self@, store);
            AnalysisState::EndToEnd(EndToEndView { reduction_keys: r.0, reductions: r.1, ..self@ })
        })
    }

    fn initialize(&mut self) {
        EndToEndAnalysis::initialize(self);
    }

    fn accepts(&self, e: &FullEvent, objects: &ObjectStore) -> (r: bool) {
        EndToEndAnalysis::accepts(self, e, objects)
    }

    fn process_event(&mut self, e: &FullEvent, objects: &ObjectStore) {
        EndToEndAnalysis::process_event(self, e, objects);
    }

    fn can_finalize(&self, objects: &ObjectStore) -> (r: bool) {
        EndToEndAnalysis::can_finalize(self, objects)
    }

    fn finalize(&mut self, objects: &ObjectStore) {
        EndToEndAnalysis::finalize(self, objects);
    }
}


/// A chain begins no later than where it ends: walking back only reaches earlier
/// links.
pub proof fn law_chain_begins_before_it_ends(parts: Seq<ChainPart>, store: ObjectStoreView, i: int)
    requires
        0 <= i,
    ensures
        chain_beginning(parts, store, i) <= i,
        0 <= chain_beginning(parts, store, i),
    decreases i,
{
    if 0 <= i < parts.len() {
        if let Some(p) = parts[i].previous {
            if p < i && !stops_before(parts, store, p as int) {
                law_chain_begins_before_it_ends(parts, store, p as int);
            }
        }
    }
}

} // verus!
