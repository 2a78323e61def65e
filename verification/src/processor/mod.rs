//! Links raw trace events to the objects they concern, creating and updating
//! those objects in an [`ObjectStore`].
use vstd::prelude::*;

use std::collections::HashMap;

use crate::events_common::{Context, ContextView, Time};
use crate::interner::{distinct_strings, id_in, interned, StringTable};
use crate::model::{
    empty_store, CallbackRef, ClientRef, NodeRef, ObjectStore, ObjectStoreView, PublicationMessageRef,
    PublisherRef, ServiceRef, SubscriberRef, SubscriptionMessageRef, TimerRef,
};
use crate::processed_events::ros2 as processed;
use crate::raw_events::ros2 as raw;
use crate::{processed_events, raw_events};
use error::{failure_of, Failure};

pub mod checks;
pub mod error;
pub mod laws;
pub mod r2r;
pub mod ros2;

verus! {

broadcast use {vstd::std_specs::hash::group_hash_axioms, crate::model::store::lemma_view_fits};

/// The result of processing a raw event: either the processed event, or the raw
/// event itself when its kind is not supported.
#[derive(Debug)]
pub enum MaybeProcessed<P, R> {
    Processed(P),
    Raw(R),
}

impl MaybeProcessed<processed_events::Event, raw_events::Event> {
    /// Attaches the context and time of the event.
    pub fn into_full_event(self, context: Context, time: Time) -> (r: MaybeProcessed<processed_events::FullEvent, raw_events::FullEvent>)
        ensures
            match self {
                MaybeProcessed::Processed(e) => r matches MaybeProcessed::Processed(f) && f.event == e && f.context == context && f.time == time,
                MaybeProcessed::Raw(e) => r matches MaybeProcessed::Raw(f) && f.event == e && f.context == context && f.time == time,
            },
    {
        match self {
            Self::Processed(event) => MaybeProcessed::Processed(processed_events::FullEvent { context, time, event }),
            Self::Raw(event) => MaybeProcessed::Raw(raw_events::FullEvent { context, time, event }),
        }
    }
}

/// Either the event is not supported, or processing it failed.
#[derive(Debug)]
pub enum UnsupportedOrError<EVENT> {
    Unsupported(EVENT),
    Error(error::ProcessorError),
}

/// The process an event comes from: its virtual PID and the id of its host.
#[derive(Debug, Clone, Copy, PartialEq, Eq, Hash)]
pub struct ContextId {
    pub vpid: u32,
    pub host_id: u32,
}

impl ContextId {
    pub fn new(vpid: u32, host_id: u32) -> (r: Self)
        ensures
            r == (ContextId { vpid, host_id }),
    {
        Self { vpid, host_id }
    }
}

/// A handle, qualified by the process it belongs to: handles are addresses, so
/// they are unique only within one process.
#[derive(Debug, Clone, Copy, PartialEq, Eq, Hash)]
pub struct Id<T> {
    pub id: T,
    pub context: ContextId,
}

/// The hash-map key of a handle in a process: the handle in the low 64 bits,
/// then the virtual PID and the host id.
pub open spec fn id_key(id: u64, context: ContextId) -> u128 {
    (id as u128) | ((context.vpid as u128) << 64u128) | ((context.host_id as u128) << 96u128)
}

/// Distinct handles or processes have distinct keys.
pub proof fn lemma_id_key_injective(a: u64, ca: ContextId, b: u64, cb: ContextId)
    ensures
        id_key(a, ca) == id_key(b, cb) ==> a == b && ca == cb,
{
    let (av, ah, bv, bh) = (ca.vpid, ca.host_id, cb.vpid, cb.host_id);
    assert(((a as u128) | ((av as u128) << 64u128) | ((ah as u128) << 96u128))
        == ((b as u128) | ((bv as u128) << 64u128) | ((bh as u128) << 96u128)) ==> a == b && av == bv && ah == bh)
        by (bit_vector);
}

impl Id<u64> {
    pub fn new(id: u64, context: ContextId) -> (r: Self)
        ensures
            r == (Id { id, context }),
    {
        Id { id, context }
    }

    pub fn key(&self) -> (r: u128)
        ensures
            r == id_key(self.id, self.context),
    {
        (self.id as u128) | ((self.context.vpid as u128) << 64u128) | ((self.context.host_id as u128) << 96u128)
    }
}

/// The key of a published message: its source timestamp and the code of its topic
/// (0 when the topic is unknown, else one more than the topic's id).
pub open spec fn publication_key(timestamp: i64, topic_code: u64) -> u128 {
    ((timestamp as u64) as u128) | ((topic_code as u128) << 64u128)
}

/// The key of a published message, computed.
pub fn publication_key_of(timestamp: i64, topic_code: u64) -> (r: u128)
    ensures
        r == publication_key(timestamp, topic_code),
{
    ((timestamp as u64) as u128) | ((topic_code as u128) << 64u128)
}

/// Distinct timestamps or topics have distinct keys.
pub proof fn lemma_publication_key_injective(a: i64, ta: u64, b: i64, tb: u64)
    ensures
        publication_key(a, ta) == publication_key(b, tb) ==> a == b && ta == tb,
{
    assert(((((a as u64) as u128) | ((ta as u128) << 64u128)) == (((b as u64) as u128) | ((tb as u128) << 64u128))) ==> a == b && ta == tb)
        by (bit_vector);
}

/// Builds the objects of a traced application from its events.
#[derive(Debug)]
pub struct Processor {
    hostname_to_host_id: StringTable,
    topics: StringTable,
    objects: ObjectStore,

    nodes_by_rcl: HashMap<u128, NodeRef>,

    subscribers_by_rmw: HashMap<u128, SubscriberRef>,
    subscribers_by_rcl: HashMap<u128, SubscriberRef>,
    subscribers_by_rclcpp: HashMap<u128, SubscriberRef>,

    publishers_by_rmw: HashMap<u128, PublisherRef>,
    publishers_by_rcl: HashMap<u128, PublisherRef>,

    services_by_rcl: HashMap<u128, ServiceRef>,

    clients_by_rcl: HashMap<u128, ClientRef>,

    timers_by_rcl: HashMap<u128, TimerRef>,

    callbacks_by_id: HashMap<u128, CallbackRef>,

    /// By source timestamp and topic.
    published_messages: HashMap<u128, PublicationMessageRef>,
    /// By message address.
    received_messages: HashMap<u128, SubscriptionMessageRef>,

    /// Messages published by rclcpp and not yet by rcl, by message address.
    published_messages_by_rclcpp: HashMap<u128, PublicationMessageRef>,
    /// Messages published by rcl and not yet by rmw, by message address.
    published_messages_by_rcl: HashMap<u128, PublicationMessageRef>,
}

/// The abstract state of a [`Processor`].
#[verifier::ext_equal]
pub struct ProcessorView {
    /// Hostnames; a host's id is its position.
    pub hosts: Seq<Seq<char>>,
    /// Topic names of published messages; a topic's id is its position.
    pub topics: Seq<Seq<char>>,
    pub objects: ObjectStoreView,
    pub nodes_by_rcl: Map<u128, NodeRef>,
    pub subscribers_by_rmw: Map<u128, SubscriberRef>,
    pub subscribers_by_rcl: Map<u128, SubscriberRef>,
    pub subscribers_by_rclcpp: Map<u128, SubscriberRef>,
    pub publishers_by_rmw: Map<u128, PublisherRef>,
    pub publishers_by_rcl: Map<u128, PublisherRef>,
    pub services_by_rcl: Map<u128, ServiceRef>,
    pub clients_by_rcl: Map<u128, ClientRef>,
    pub timers_by_rcl: Map<u128, TimerRef>,
    pub callbacks_by_id: Map<u128, CallbackRef>,
    pub published_messages: Map<u128, PublicationMessageRef>,
    pub received_messages: Map<u128, SubscriptionMessageRef>,
    pub published_messages_by_rclcpp: Map<u128, PublicationMessageRef>,
    pub published_messages_by_rcl: Map<u128, PublicationMessageRef>,
}

impl View for Processor {
    type V = ProcessorView;

    closed spec fn view(&self) -> ProcessorView {
        ProcessorView {
            hosts: self.hostname_to_host_id@,
            topics: self.topics@,
            objects: self.objects@,
            nodes_by_rcl: self.nodes_by_rcl@,
            subscribers_by_rmw: self.subscribers_by_rmw@,
            subscribers_by_rcl: self.subscribers_by_rcl@,
            subscribers_by_rclcpp: self.subscribers_by_rclcpp@,
            publishers_by_rmw: self.publishers_by_rmw@,
            publishers_by_rcl: self.publishers_by_rcl@,
            services_by_rcl: self.services_by_rcl@,
            clients_by_rcl: self.clients_by_rcl@,
            timers_by_rcl: self.timers_by_rcl@,
            callbacks_by_id: self.callbacks_by_id@,
            published_messages: self.published_messages@,
            received_messages: self.received_messages@,
            published_messages_by_rclcpp: self.published_messages_by_rclcpp@,
            published_messages_by_rcl: self.published_messages_by_rcl@,
        }
    }
}

impl ProcessorView {
    /// The processor's invariant: the object graph is closed, every lookup table
    /// points into the store, and hosts and topics are listed once each.
    pub open spec fn wf(self) -> bool {
        let o = self.objects;
        &&& o.wf()
        &&& o.fits()
        &&& distinct_strings(self.hosts)
        &&& self.hosts.len() <= u32::MAX + 1
        &&& distinct_strings(self.topics)
        &&& self.topics.len() < u64::MAX
        &&& forall|k: u128| #[trigger] self.nodes_by_rcl.contains_key(k) ==> o.valid_node(self.nodes_by_rcl[k])
        &&& forall|k: u128| #[trigger] self.subscribers_by_rmw.contains_key(k) ==> o.valid_subscriber(self.subscribers_by_rmw[k])
        &&& forall|k: u128| #[trigger] self.subscribers_by_rcl.contains_key(k) ==> o.valid_subscriber(self.subscribers_by_rcl[k])
        &&& forall|k: u128| #[trigger] self.subscribers_by_rclcpp.contains_key(k) ==> o.valid_subscriber(self.subscribers_by_rclcpp[k])
        &&& forall|k: u128| #[trigger] self.publishers_by_rmw.contains_key(k) ==> o.valid_publisher(self.publishers_by_rmw[k])
        &&& forall|k: u128| #[trigger] self.publishers_by_rcl.contains_key(k) ==> o.valid_publisher(self.publishers_by_rcl[k])
        &&& forall|k: u128| #[trigger] self.services_by_rcl.contains_key(k) ==> o.valid_service(self.services_by_rcl[k])
        &&& forall|k: u128| #[trigger] self.clients_by_rcl.contains_key(k) ==> o.valid_client(self.clients_by_rcl[k])
        &&& forall|k: u128| #[trigger] self.timers_by_rcl.contains_key(k) ==> o.valid_timer(self.timers_by_rcl[k])
        &&& forall|k: u128| #[trigger] self.callbacks_by_id.contains_key(k) ==> o.valid_callback(self.callbacks_by_id[k])
        &&& forall|k: u128| #[trigger] self.published_messages.contains_key(k) ==> o.valid_publication_message(self.published_messages[k])
        &&& forall|k: u128| #[trigger] self.received_messages.contains_key(k) ==> o.valid_subscription_message(self.received_messages[k])
        &&& forall|k: u128| #[trigger] self.published_messages_by_rclcpp.contains_key(k) ==> o.valid_publication_message(self.published_messages_by_rclcpp[k])
        &&& forall|k: u128| #[trigger] self.published_messages_by_rcl.contains_key(k) ==> o.valid_publication_message(self.published_messages_by_rcl[k])
    }

    /// The id a hostname gets.
    pub open spec fn host_id(self, hostname: Seq<char>) -> int {
        id_in(self.hosts, hostname)
    }

    /// The process id of an event's context.
    pub open spec fn context_id(self, context: crate::events_common::ContextView) -> ContextId {
        ContextId { vpid: context.vpid, host_id: self.host_id(context.hostname) as u32 }
    }

    /// Whether processing an event of `context` can record its host: a new host
    /// needs a free 32-bit id.
    pub open spec fn host_fits(self, context: crate::events_common::ContextView) -> bool {
        self.hosts.contains(context.hostname) || self.hosts.len() <= u32::MAX
    }

    /// The code of a topic in the published-message keys.
    pub open spec fn topic_code(self, topic: crate::known::Known<Seq<char>>) -> u64 {
        match topic {
            crate::known::Known::Known(t) => (id_in(self.topics, t) + 1) as u64,
            crate::known::Known::Unknown => 0,
        }
    }

    /// The state whose tables are those of `self`, over the store `objects`.
    pub open spec fn with_objects(self, objects: ObjectStoreView) -> ProcessorView {
        ProcessorView { objects, ..self }
    }
}

/// The state of a processor that has seen no event.
pub open spec fn empty_processor() -> ProcessorView {
    ProcessorView {
        hosts: Seq::empty(),
        topics: Seq::empty(),
        objects: empty_store(),
        nodes_by_rcl: Map::empty(),
        subscribers_by_rmw: Map::empty(),
        subscribers_by_rcl: Map::empty(),
        subscribers_by_rclcpp: Map::empty(),
        publishers_by_rmw: Map::empty(),
        publishers_by_rcl: Map::empty(),
        services_by_rcl: Map::empty(),
        clients_by_rcl: Map::empty(),
        timers_by_rcl: Map::empty(),
        callbacks_by_id: Map::empty(),
        published_messages: Map::empty(),
        received_messages: Map::empty(),
        published_messages_by_rclcpp: Map::empty(),
        published_messages_by_rcl: Map::empty(),
    }
}

/// All tables that point into a store stay valid when the store grows.
pub proof fn lemma_tables_grow(p: ProcessorView, objects: ObjectStoreView)
    requires
        p.wf(),
        p.objects.le(objects),
        objects.wf(),
        objects.fits(),
    ensures
        p.with_objects(objects).wf(),
{
}

impl Processor {
    pub fn new() -> (r: Self)
        ensures
            r@.wf(),
            r@ == empty_processor(),
    {
        Self {
            hostname_to_host_id: StringTable::new(),
            topics: StringTable::new(),
            objects: ObjectStore::new(),
            nodes_by_rcl: HashMap::new(),
            subscribers_by_rmw: HashMap::new(),
            subscribers_by_rcl: HashMap::new(),
            subscribers_by_rclcpp: HashMap::new(),
            publishers_by_rmw: HashMap::new(),
            publishers_by_rcl: HashMap::new(),
            services_by_rcl: HashMap::new(),
            clients_by_rcl: HashMap::new(),
            timers_by_rcl: HashMap::new(),
            callbacks_by_id: HashMap::new(),
            published_messages: HashMap::new(),
            received_messages: HashMap::new(),
            published_messages_by_rclcpp: HashMap::new(),
            published_messages_by_rcl: HashMap::new(),
        }
    }

    /// The objects built so far.
    pub fn objects(&self) -> (r: &ObjectStore)
        ensures
            r@ == self@.objects,
    {
        &self.objects
    }

    /// The id of a host, assigning the next free id to a host seen for the first time.
    fn host_to_host_id(&mut self, hostname: &str) -> (r: u32)
        requires
            old(self)@.wf(),
            old(self)@.hosts.contains(hostname@) || old(self)@.hosts.len() <= u32::MAX,
        ensures
            final(self)@.wf(),
            final(self)@ == (ProcessorView { hosts: interned(old(self)@.hosts, hostname@), ..old(self)@ }),
            r == old(self)@.host_id(hostname@),
    {
        let id = self.hostname_to_host_id.intern(hostname);
        id as u32
    }

    /// The process id of an event's context.
    fn context_id(&mut self, context: &Context) -> (r: ContextId)
        requires
            old(self)@.wf(),
            old(self)@.host_fits(context@),
        ensures
            final(self)@.wf(),
            final(self)@ == (ProcessorView { hosts: interned(old(self)@.hosts, context@.hostname), ..old(self)@ }),
            r == old(self)@.context_id(context@),
    {
        let host_id = self.host_to_host_id(context.hostname());
        ContextId::new(context.vpid(), host_id)
    }

    /// All nodes, in order of creation.
    pub fn get_all_nodes(&self) -> (r: Vec<NodeRef>)
        ensures
            r@.len() == self@.objects.nodes.len(),
            forall|i: int| 0 <= i < r@.len() ==> #[trigger] r@[i] == NodeRef(i as usize),
    {
        let n = self.objects.node_count();
        let mut r: Vec<NodeRef> = Vec::new();
        let mut i: usize = 0;
        while i < n
            invariant
                i <= n,
                n == self@.objects.nodes.len(),
                r@.len() == i,
                forall|j: int| 0 <= j < i ==> #[trigger] r@[j] == NodeRef(j as usize),
            decreases n - i,
        {
            r.push(NodeRef(i));
            i += 1;
        }
        r
    }
}


/// Why an event was not turned into a processed event.
pub enum Rejection<E> {
    /// The processor does not handle events of this kind; the event is handed back.
    Unsupported(E),
    /// Processing the event failed.
    Failed(Failure),
}

/// The outcome of dispatching an event, its error reduced to the failure it reports.
pub open spec fn dispatch_outcome<T, E>(r: Result<T, UnsupportedOrError<E>>) -> Result<T, Rejection<E>> {
    match r {
        Ok(v) => Ok(v),
        Err(UnsupportedOrError::Unsupported(e)) => Err(Rejection::Unsupported(e)),
        Err(UnsupportedOrError::Error(e)) => Err(Rejection::Failed(failure_of(e))),
    }
}

/// The state once the host of an event's context has an id.
pub open spec fn with_host(p: ProcessorView, ctx: ContextView) -> ProcessorView {
    ProcessorView { hosts: interned(p.hosts, ctx.hostname), ..p }
}

/// Processing a ROS 2 event in the process `cid`, by kind; `rcl_init` events are not supported.
pub open spec fn ros2_step(p: ProcessorView, event: raw::Event, time: Time, ctx: ContextView, cid: ContextId) -> (ProcessorView, Result<processed::Event, Rejection<raw::Event>>) {
    match event {
        raw::Event::RclNodeInit(e) => {
            let (f, r) = ros2::rcl_node_init(p, e, cid);
            (f, Ok(processed::Event::RclNodeInit(r)))
        },
        raw::Event::RmwPublisherInit(e) => {
            let (f, r) = ros2::rmw_publisher_init(p, e, cid);
            (f, Ok(processed::Event::RmwPublisherInit(r)))
        },
        raw::Event::RclPublisherInit(e) => {
            let (f, r) = ros2::rcl_publisher_init(p, e, cid);
            (f, Ok(processed::Event::RclPublisherInit(r)))
        },
        raw::Event::RclcppPublish(e) => {
            let (f, r) = ros2::rclcpp_publish(p, e, time, cid);
            (f, Ok(processed::Event::RclcppPublish(r)))
        },
        raw::Event::RclcppIntraPublish(e) => {
            let (f, r) = ros2::rclcpp_intra_publish(p, e, time, cid);
            (f, match r {
                Ok(x) => Ok(processed::Event::RclcppIntraPublish(x)),
                Err(failure) => Err(Rejection::Failed(failure)),
            })
        },
        raw::Event::RclPublish(e) => {
            let (f, r) = ros2::rcl_publish(p, e, time, cid);
            (f, Ok(processed::Event::RclPublish(r)))
        },
        raw::Event::RmwPublish(e) => {
            let (f, r) = ros2::rmw_publish(p, e, time, cid);
            (f, Ok(processed::Event::RmwPublish(r)))
        },
        raw::Event::RmwSubscriptionInit(e) => {
            let (f, r) = ros2::rmw_subscription_init(p, e, cid);
            (f, Ok(processed::Event::RmwSubscriptionInit(r)))
        },
        raw::Event::RclSubscriptionInit(e) => {
            let (f, r) = ros2::rcl_subscription_init(p, e, time, cid);
            (f, match r {
                Ok(x) => Ok(processed::Event::RclSubscriptionInit(x)),
                Err(failure) => Err(Rejection::Failed(failure)),
            })
        },
        raw::Event::RclcppSubscriptionInit(e) => {
            let (f, r) = ros2::rclcpp_subscription_init(p, e, time, cid);
            (f, match r {
                Ok(x) => Ok(processed::Event::RclcppSubscriptionInit(x)),
                Err(failure) => Err(Rejection::Failed(failure)),
            })
        },
        raw::Event::RclcppSubscriptionCallbackAdded(e) => {
            let (f, r) = ros2::rclcpp_subscription_callback_added(p, e, time, ctx, cid);
            (f, match r {
                Ok(x) => Ok(processed::Event::RclcppSubscriptionCallbackAdded(x)),
                Err(failure) => Err(Rejection::Failed(failure)),
            })
        },
        raw::Event::RmwTake(e) => {
            let (f, r) = ros2::rmw_take(p, e, time, cid);
            (f, match r {
                Ok(x) => Ok(processed::Event::RmwTake(x)),
                Err(failure) => Err(Rejection::Failed(failure)),
            })
        },
        raw::Event::RclTake(e) => {
            let (f, r) = ros2::rcl_take(p, e, time, cid);
            (f, Ok(processed::Event::RclTake(r)))
        },
        raw::Event::RclcppTake(e) => {
            let (f, r) = ros2::rclcpp_take(p, e, time, cid);
            (f, Ok(processed::Event::RclCppTake(r)))
        },
        raw::Event::RclServiceInit(e) => {
            let (f, r) = ros2::rcl_service_init(p, e, cid);
            (f, match r {
                Ok(x) => Ok(processed::Event::RclServiceInit(x)),
                Err(failure) => Err(Rejection::Failed(failure)),
            })
        },
        raw::Event::RclcppServiceCallbackAdded(e) => {
            let (f, r) = ros2::rclcpp_service_callback_added(p, e, time, ctx, cid);
            (f, match r {
                Ok(x) => Ok(processed::Event::RclCppServiceCallbackAdded(x)),
                Err(failure) => Err(Rejection::Failed(failure)),
            })
        },
        raw::Event::RclClientInit(e) => {
            let (f, r) = ros2::rcl_client_init(p, e, time, cid);
            (f, match r {
                Ok(x) => Ok(processed::Event::RclClientInit(x)),
                Err(failure) => Err(Rejection::Failed(failure)),
            })
        },
        raw::Event::RclTimerInit(e) => {
            let (f, r) = ros2::rcl_timer_init(p, e, cid);
            (f, Ok(processed::Event::RclTimerInit(r)))
        },
        raw::Event::RclcppTimerCallbackAdded(e) => {
            let (f, r) = ros2::rclcpp_timer_callback_added(p, e, time, ctx, cid);
            (f, match r {
                Ok(x) => Ok(processed::Event::RclcppTimerCallbackAdded(x)),
                Err(failure) => Err(Rejection::Failed(failure)),
            })
        },
        raw::Event::RclcppTimerLinkNode(e) => {
            let (f, r) = ros2::rclcpp_timer_link_node(p, e, time, cid);
            (f, match r {
                Ok(x) => Ok(processed::Event::RclcppTimerLinkNode(x)),
                Err(failure) => Err(Rejection::Failed(failure)),
            })
        },
        raw::Event::RclcppCallbackRegister(e) => {
            let (f, r) = ros2::rclcpp_callback_register(p, e, time, cid);
            (f, match r {
                Ok(x) => Ok(processed::Event::RclcppCallbackRegister(x)),
                Err(failure) => Err(Rejection::Failed(failure)),
            })
        },
        raw::Event::CallbackStart(e) => {
            let (f, r) = ros2::process_callback_start_spec(p, e, time, cid);
            (f, match r {
                Ok(x) => Ok(processed::Event::CallbackStart(x)),
                Err(failure) => Err(Rejection::Failed(failure)),
            })
        },
        raw::Event::CallbackEnd(e) => {
            let (f, r) = ros2::process_callback_end_spec(p, e, time, cid);
            (f, match r {
                Ok(x) => Ok(processed::Event::CallbackEnd(x)),
                Err(failure) => Err(Rejection::Failed(failure)),
            })
        },
        raw::Event::RclInit(_) => (p, Err(Rejection::Unsupported(event))),
    }
}

/// Whether a ROS 2 event of the process `cid` can be processed without violating
/// an expectation of the trace (see the `_ok` predicate of each kind).
pub open spec fn ros2_step_ok(p: ProcessorView, event: raw::Event, ctx: ContextView, cid: ContextId) -> bool {
    match event {
        raw::Event::RclNodeInit(e) => ros2::rcl_node_init_ok(p, e, cid),
        raw::Event::RmwPublisherInit(e) => ros2::rmw_publisher_init_ok(p, e, cid),
        raw::Event::RclPublisherInit(e) => ros2::rcl_publisher_init_ok(p, e, cid),
        raw::Event::RclcppIntraPublish(e) => ros2::rclcpp_intra_publish_ok(p, e, cid),
        raw::Event::RclPublish(e) => ros2::rcl_publish_ok(p, e, cid),
        raw::Event::RmwPublish(e) => ros2::rmw_publish_ok(p, e, cid),
        raw::Event::RmwSubscriptionInit(e) => ros2::rmw_subscription_init_ok(p, e, cid),
        raw::Event::RclSubscriptionInit(e) => ros2::rcl_subscription_init_ok(p, e, cid),
        raw::Event::RclcppSubscriptionInit(e) => ros2::rclcpp_subscription_init_ok(p, e, cid),
        raw::Event::RclcppSubscriptionCallbackAdded(e) => ros2::rclcpp_subscription_callback_added_ok(p, e, ctx, cid),
        raw::Event::RmwTake(e) => ros2::rmw_take_ok(p, e, cid),
        raw::Event::RclServiceInit(e) => ros2::rcl_service_init_ok(p, e, cid),
        raw::Event::RclcppServiceCallbackAdded(e) => ros2::rclcpp_service_callback_added_ok(p, e, ctx, cid),
        raw::Event::RclClientInit(e) => ros2::rcl_client_init_ok(p, e, cid),
        raw::Event::RclTimerInit(e) => ros2::rcl_timer_init_ok(p, e, cid),
        raw::Event::RclcppTimerCallbackAdded(e) => ros2::rclcpp_timer_callback_added_ok(p, e, ctx, cid),
        raw::Event::RclcppTimerLinkNode(e) => ros2::rclcpp_timer_link_node_ok(p, e, cid),
        raw::Event::RclcppCallbackRegister(e) => ros2::rclcpp_callback_register_ok(p, e, cid),
        raw::Event::CallbackStart(e) => ros2::callback_start_ok(p, e, cid),
        raw::Event::CallbackEnd(e) => ros2::callback_end_ok(p, e, cid),
        _ => true,
    }
}

/// Processing a ROS 2 event recorded in `ctx` at `time`: the event's host gets an id
/// if it has none, then the event is processed in its process.
pub open spec fn process_ros2(p: ProcessorView, event: raw::Event, ctx: ContextView, time: Time) -> (ProcessorView, Result<processed::Event, Rejection<raw::Event>>) {
    ros2_step(with_host(p, ctx), event, time, ctx, p.context_id(ctx))
}

/// Whether a ROS 2 event recorded in `ctx` can be processed: its host can get an id
/// and the event meets the expectations of its kind.
pub open spec fn ros2_ok(p: ProcessorView, event: raw::Event, ctx: ContextView) -> bool {
    p.host_fits(ctx) && ros2_step_ok(with_host(p, ctx), event, ctx, p.context_id(ctx))
}

impl Processor {
    /// Processes an event of the ROS 2 tracepoint provider.
    pub fn process_raw_ros2_event(
        &mut self,
        event: raw::Event,
        context: &Context,
        time: Time,
    ) -> (r: Result<processed::Event, UnsupportedOrError<raw::Event>>)
        requires
            old(self)@.wf(),
            ros2_ok(old(self)@, event, context@),
        ensures
            final(self)@.wf(),
            old(self)@.objects.le(final(self)@.objects),
            (final(self)@, dispatch_outcome(r)) == process_ros2(old(self)@, event, context@, time),
    {
        let context_id = self.context_id(context);
        match event {
            raw::Event::RclNodeInit(e) => Ok(processed::Event::RclNodeInit(self.process_rcl_node_init(&e, time, context_id, context))),
            raw::Event::RmwPublisherInit(e) => Ok(processed::Event::RmwPublisherInit(self.process_rmw_publisher_init(&e, time, context_id, context))),
            raw::Event::RclPublisherInit(e) => Ok(processed::Event::RclPublisherInit(self.process_rcl_publisher_init(&e, time, context_id, context))),
            raw::Event::RclcppPublish(e) => Ok(processed::Event::RclcppPublish(self.process_rclcpp_publish(&e, time, context_id, context))),
            raw::Event::RclcppIntraPublish(e) => match self.process_rclcpp_intra_publish(&e, time, context_id, context) {
                Ok(x) => Ok(processed::Event::RclcppIntraPublish(x)),
                Err(err) => Err(UnsupportedOrError::Error(err)),
            },
            raw::Event::RclPublish(e) => Ok(processed::Event::RclPublish(self.process_rcl_publish(&e, time, context_id, context))),
            raw::Event::RmwPublish(e) => Ok(processed::Event::RmwPublish(self.process_rmw_publish(&e, time, context_id, context))),
            raw::Event::RmwSubscriptionInit(e) => Ok(processed::Event::RmwSubscriptionInit(self.process_rmw_subscription_init(&e, time, context_id, context))),
            raw::Event::RclSubscriptionInit(e) => match self.process_rcl_subscription_init(&e, time, context_id, context) {
                Ok(x) => Ok(processed::Event::RclSubscriptionInit(x)),
                Err(err) => Err(UnsupportedOrError::Error(err)),
            },
            raw::Event::RclcppSubscriptionInit(e) => match self.process_rclcpp_subscription_init(&e, time, context_id, context) {
                Ok(x) => Ok(processed::Event::RclcppSubscriptionInit(x)),
                Err(err) => Err(UnsupportedOrError::Error(err)),
            },
            raw::Event::RclcppSubscriptionCallbackAdded(e) => match self.process_rclcpp_subscription_callback_added(&e, time, context_id, context) {
                Ok(x) => Ok(processed::Event::RclcppSubscriptionCallbackAdded(x)),
                Err(err) => Err(UnsupportedOrError::Error(err)),
            },
            raw::Event::RmwTake(e) => match self.process_rmw_take(&e, time, context_id, context) {
                Ok(x) => Ok(processed::Event::RmwTake(x)),
                Err(err) => Err(UnsupportedOrError::Error(err)),
            },
            raw::Event::RclTake(e) => Ok(processed::Event::RclTake(self.process_rcl_take(&e, time, context_id, context))),
            raw::Event::RclcppTake(e) => Ok(processed::Event::RclCppTake(self.process_rclcpp_take(&e, time, context_id, context))),
            raw::Event::RclServiceInit(e) => match self.process_rcl_service_init(&e, time, context_id, context) {
                Ok(x) => Ok(processed::Event::RclServiceInit(x)),
                Err(err) => Err(UnsupportedOrError::Error(err)),
            },
            raw::Event::RclcppServiceCallbackAdded(e) => match self.process_rclcpp_service_callback_added(&e, time, context_id, context) {
                Ok(x) => Ok(processed::Event::RclCppServiceCallbackAdded(x)),
                Err(err) => Err(UnsupportedOrError::Error(err)),
            },
            raw::Event::RclClientInit(e) => match self.process_rcl_client_init(&e, time, context_id, context) {
                Ok(x) => Ok(processed::Event::RclClientInit(x)),
                Err(err) => Err(UnsupportedOrError::Error(err)),
            },
            raw::Event::RclTimerInit(e) => Ok(processed::Event::RclTimerInit(self.process_rcl_timer_init(&e, time, context_id, context))),
            raw::Event::RclcppTimerCallbackAdded(e) => match self.process_rclcpp_timer_callback_added(&e, context_id, context, time) {
                Ok(x) => Ok(processed::Event::RclcppTimerCallbackAdded(x)),
                Err(err) => Err(UnsupportedOrError::Error(err)),
            },
            raw::Event::RclcppTimerLinkNode(e) => match self.process_rclcpp_timer_link_node(&e, time, context_id, context) {
                Ok(x) => Ok(processed::Event::RclcppTimerLinkNode(x)),
                Err(err) => Err(UnsupportedOrError::Error(err)),
            },
            raw::Event::RclcppCallbackRegister(e) => match self.process_rclcpp_callback_register(&e, time, context_id, context) {
                Ok(x) => Ok(processed::Event::RclcppCallbackRegister(x)),
                Err(err) => Err(UnsupportedOrError::Error(err)),
            },
            raw::Event::CallbackStart(e) => match self.process_callback_start(&e, time, context_id, context) {
                Ok(x) => Ok(processed::Event::CallbackStart(x)),
                Err(err) => Err(UnsupportedOrError::Error(err)),
            },
            raw::Event::CallbackEnd(e) => match self.process_callback_end(&e, time, context_id, context) {
                Ok(x) => Ok(processed::Event::CallbackEnd(x)),
                Err(err) => Err(UnsupportedOrError::Error(err)),
            },
            raw::Event::RclInit(e) => Err(UnsupportedOrError::Unsupported(raw::Event::RclInit(e))),
        }
    }
}


/// A processed or raw event with where and when it was recorded.
pub open spec fn full_event(m: MaybeProcessed<processed_events::Event, raw_events::Event>, context: Context, time: Time) -> MaybeProcessed<processed_events::FullEvent, raw_events::FullEvent> {
    match m {
        MaybeProcessed::Processed(event) => MaybeProcessed::Processed(processed_events::FullEvent { context, time, event }),
        MaybeProcessed::Raw(event) => MaybeProcessed::Raw(raw_events::FullEvent { context, time, event }),
    }
}

/// Processing a recorded event: a supported event becomes a processed event, an
/// unsupported one is handed back raw, and a failure is an error.
pub open spec fn process_event(p: ProcessorView, fe: raw_events::FullEvent) -> (ProcessorView, Result<MaybeProcessed<processed_events::FullEvent, raw_events::FullEvent>, Failure>) {
    match fe.event {
        raw_events::Event::Ros2(e) => {
            let (f, r) = process_ros2(p, e, fe.context@, fe.time);
            (f, match r {
                Ok(x) => Ok(full_event(MaybeProcessed::Processed(processed_events::Event::Ros2(x)), fe.context, fe.time)),
                Err(Rejection::Unsupported(e)) => Ok(full_event(MaybeProcessed::Raw(raw_events::Event::Ros2(e)), fe.context, fe.time)),
                Err(Rejection::Failed(failure)) => Err(failure),
            })
        },
        raw_events::Event::R2r(e) => {
            let (f, r) = r2r::process_r2r(p, e, fe.context@, fe.time);
            (f, match r {
                Ok(x) => Ok(full_event(MaybeProcessed::Processed(processed_events::Event::R2r(x)), fe.context, fe.time)),
                Err(Rejection::Unsupported(e)) => Ok(full_event(MaybeProcessed::Raw(raw_events::Event::R2r(e)), fe.context, fe.time)),
                Err(Rejection::Failed(failure)) => Err(failure),
            })
        },
    }
}

/// Whether a recorded event can be processed without violating an expectation of
/// the trace.
pub open spec fn event_ok(p: ProcessorView, fe: raw_events::FullEvent) -> bool {
    match fe.event {
        raw_events::Event::Ros2(e) => ros2_ok(p, e, fe.context@),
        raw_events::Event::R2r(e) => r2r::r2r_ok(p, e, fe.context@),
    }
}

impl Processor {
    /// Processes a recorded event.
    pub fn process_raw_event(&mut self, full_event: raw_events::FullEvent) -> (r: Result<MaybeProcessed<processed_events::FullEvent, raw_events::FullEvent>, error::ProcessorError>)
        requires
            old(self)@.wf(),
            event_ok(old(self)@, full_event),
        ensures
            final(self)@.wf(),
            old(self)@.objects.le(final(self)@.objects),
            (final(self)@, error::outcome(r)) == process_event(old(self)@, full_event),
    {
        let raw_events::FullEvent { context, time, event } = full_event;
        let processed = match event {
            raw_events::Event::Ros2(e) => match self.process_raw_ros2_event(e, &context, time) {
                Ok(p) => MaybeProcessed::Processed(processed_events::Event::Ros2(p)),
                Err(UnsupportedOrError::Unsupported(raw)) => MaybeProcessed::Raw(raw_events::Event::Ros2(raw)),
                Err(UnsupportedOrError::Error(err)) => {
                    return Err(err);
                },
            },
            raw_events::Event::R2r(e) => match self.process_raw_r2r_event(e, &context, time) {
                Ok(p) => MaybeProcessed::Processed(processed_events::Event::R2r(p)),
                Err(UnsupportedOrError::Unsupported(raw)) => MaybeProcessed::Raw(raw_events::Event::R2r(raw)),
                Err(UnsupportedOrError::Error(err)) => {
                    return Err(err);
                },
            },
        };
        Ok(processed.into_full_event(context, time))
    }
}

} // verus!
