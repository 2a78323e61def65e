use vstd::prelude::*;

use crate::known::Known;
use crate::model::{
    CallbackCaller, CallbackTrigger, Callback, CallbackInstance, Client, Node, PartiallyKnown,
    PublicationMessage, Publisher, Service, SpinInstance, Subscriber, SubscriptionMessage, Timer,
    NodeRef, SubscriberRef, PublisherRef, ServiceRef, ClientRef, TimerRef, CallbackRef,
    PublicationMessageRef, SubscriptionMessageRef, CallbackInstanceRef, SpinInstanceRef, Time,
    NodeView, SubscriberView, PublisherView, ServiceView, ClientView, TimerView, CallbackView,
    PublicationMessageView, SubscriptionMessageView, CallbackInstanceView, SpinInstanceView,
};

verus! {

/// Owner of every object reconstructed from a trace.
///
/// Objects refer to each other by their position in the store, so the object
/// graph may hold cycles (a node lists its subscribers, a subscriber names its
/// node). Objects are never removed: an object replaced by a newer one with the
/// same handle is only marked removed.
#[derive(Debug)]
pub struct ObjectStore {
    nodes: Vec<Node>,
    subscribers: Vec<Subscriber>,
    publishers: Vec<Publisher>,
    services: Vec<Service>,
    clients: Vec<Client>,
    timers: Vec<Timer>,
    callbacks: Vec<Callback>,
    publication_messages: Vec<PublicationMessage>,
    subscription_messages: Vec<SubscriptionMessage>,
    callback_instances: Vec<CallbackInstance>,
    spin_instances: Vec<SpinInstance>,
}

/// The abstract state of an [`ObjectStore`]: the objects in order of creation.
#[verifier::ext_equal]
pub struct ObjectStoreView {
    pub nodes: Seq<NodeView>,
    pub subscribers: Seq<SubscriberView>,
    pub publishers: Seq<PublisherView>,
    pub services: Seq<ServiceView>,
    pub clients: Seq<ClientView>,
    pub timers: Seq<TimerView>,
    pub callbacks: Seq<CallbackView>,
    pub publication_messages: Seq<PublicationMessageView>,
    pub subscription_messages: Seq<SubscriptionMessageView>,
    pub callback_instances: Seq<CallbackInstanceView>,
    pub spin_instances: Seq<SpinInstanceView>,
}

impl View for ObjectStore {
    type V = ObjectStoreView;

    closed spec fn view(&self) -> ObjectStoreView {
        ObjectStoreView {
            nodes: self.nodes@.map_values(|o: Node| o@),
            subscribers: self.subscribers@.map_values(|o: Subscriber| o@),
            publishers: self.publishers@.map_values(|o: Publisher| o@),
            services: self.services@.map_values(|o: Service| o@),
            clients: self.clients@.map_values(|o: Client| o@),
            timers: self.timers@.map_values(|o: Timer| o@),
            callbacks: self.callbacks@.map_values(|o: Callback| o@),
            publication_messages: self.publication_messages@.map_values(|o: PublicationMessage| o@),
            subscription_messages: self.subscription_messages@.map_values(|o: SubscriptionMessage| o@),
            callback_instances: self.callback_instances@.map_values(|o: CallbackInstance| o@),
            spin_instances: self.spin_instances@.map_values(|o: SpinInstance| o@),
        }
    }
}

/// The store that holds no object.
pub open spec fn empty_store() -> ObjectStoreView {
    ObjectStoreView {
        nodes: Seq::empty(),
        subscribers: Seq::empty(),
        publishers: Seq::empty(),
        services: Seq::empty(),
        clients: Seq::empty(),
        timers: Seq::empty(),
        callbacks: Seq::empty(),
        publication_messages: Seq::empty(),
        subscription_messages: Seq::empty(),
        callback_instances: Seq::empty(),
        spin_instances: Seq::empty(),
    }
}

impl ObjectStoreView {
    pub open spec fn valid_node(self, r: NodeRef) -> bool {
        r.0 < self.nodes.len()
    }

    pub open spec fn known_node(self, k: Known<NodeRef>) -> bool {
        k matches Known::Known(r) ==> self.valid_node(r)
    }

    /// The store with the node at `r` replaced by `o`.
    pub open spec fn set_node(self, r: NodeRef, o: NodeView) -> ObjectStoreView {
        ObjectStoreView { nodes: self.nodes.update(r.0 as int, o), ..self }
    }

    /// The store with `o` added as its last node.
    pub open spec fn push_node(self, o: NodeView) -> ObjectStoreView {
        ObjectStoreView { nodes: self.nodes.push(o), ..self }
    }

    /// The reference that the next node added gets.
    pub open spec fn next_node(self) -> NodeRef {
        NodeRef(self.nodes.len() as usize)
    }

    pub open spec fn valid_subscriber(self, r: SubscriberRef) -> bool {
        r.0 < self.subscribers.len()
    }

    pub open spec fn known_subscriber(self, k: Known<SubscriberRef>) -> bool {
        k matches Known::Known(r) ==> self.valid_subscriber(r)
    }

    /// The store with the subscriber at `r` replaced by `o`.
    pub open spec fn set_subscriber(self, r: SubscriberRef, o: SubscriberView) -> ObjectStoreView {
        ObjectStoreView { subscribers: self.subscribers.update(r.0 as int, o), ..self }
    }

    /// The store with `o` added as its last subscriber.
    pub open spec fn push_subscriber(self, o: SubscriberView) -> ObjectStoreView {
        ObjectStoreView { subscribers: self.subscribers.push(o), ..self }
    }

    /// The reference that the next subscriber added gets.
    pub open spec fn next_subscriber(self) -> SubscriberRef {
        SubscriberRef(self.subscribers.len() as usize)
    }

    pub open spec fn valid_publisher(self, r: PublisherRef) -> bool {
        r.0 < self.publishers.len()
    }

    pub open spec fn known_publisher(self, k: Known<PublisherRef>) -> bool {
        k matches Known::Known(r) ==> self.valid_publisher(r)
    }

    /// The store with the publisher at `r` replaced by `o`.
    pub open spec fn set_publisher(self, r: PublisherRef, o: PublisherView) -> ObjectStoreView {
        ObjectStoreView { publishers: self.publishers.update(r.0 as int, o), ..self }
    }

    /// The store with `o` added as its last publisher.
    pub open spec fn push_publisher(self, o: PublisherView) -> ObjectStoreView {
        ObjectStoreView { publishers: self.publishers.push(o), ..self }
    }

    /// The reference that the next publisher added gets.
    pub open spec fn next_publisher(self) -> PublisherRef {
        PublisherRef(self.publishers.len() as usize)
    }

    pub open spec fn valid_service(self, r: ServiceRef) -> bool {
        r.0 < self.services.len()
    }

    pub open spec fn known_service(self, k: Known<ServiceRef>) -> bool {
        k matches Known::Known(r) ==> self.valid_service(r)
    }

    /// The store with the service at `r` replaced by `o`.
    pub open spec fn set_service(self, r: ServiceRef, o: ServiceView) -> ObjectStoreView {
        ObjectStoreView { services: self.services.update(r.0 as int, o), ..self }
    }

    /// The store with `o` added as its last service.
    pub open spec fn push_service(self, o: ServiceView) -> ObjectStoreView {
        ObjectStoreView { services: self.services.push(o), ..self }
    }

    /// The reference that the next service added gets.
    pub open spec fn next_service(self) -> ServiceRef {
        ServiceRef(self.services.len() as usize)
    }

    pub open spec fn valid_client(self, r: ClientRef) -> bool {
        r.0 < self.clients.len()
    }

    pub open spec fn known_client(self, k: Known<ClientRef>) -> bool {
        k matches Known::Known(r) ==> self.valid_client(r)
    }

    /// The store with the client at `r` replaced by `o`.
    pub open spec fn set_client(self, r: ClientRef, o: ClientView) -> ObjectStoreView {
        ObjectStoreView { clients: self.clients.update(r.0 as int, o), ..self }
    }

    /// The store with `o` added as its last client.
    pub open spec fn push_client(self, o: ClientView) -> ObjectStoreView {
        ObjectStoreView { clients: self.clients.push(o), ..self }
    }

    /// The reference that the next client added gets.
    pub open spec fn next_client(self) -> ClientRef {
        ClientRef(self.clients.len() as usize)
    }

    pub open spec fn valid_timer(self, r: TimerRef) -> bool {
        r.0 < self.timers.len()
    }

    pub open spec fn known_timer(self, k: Known<TimerRef>) -> bool {
        k matches Known::Known(r) ==> self.valid_timer(r)
    }

    /// The store with the timer at `r` replaced by `o`.
    pub open spec fn set_timer(self, r: TimerRef, o: TimerView) -> ObjectStoreView {
        ObjectStoreView { timers: self.timers.update(r.0 as int, o), ..self }
    }

    /// The store with `o` added as its last timer.
    pub open spec fn push_timer(self, o: TimerView) -> ObjectStoreView {
        ObjectStoreView { timers: self.timers.push(o), ..self }
    }

    /// The reference that the next timer added gets.
    pub open spec fn next_timer(self) -> TimerRef {
        TimerRef(self.timers.len() as usize)
    }

    pub open spec fn valid_callback(self, r: CallbackRef) -> bool {
        r.0 < self.callbacks.len()
    }

    pub open spec fn known_callback(self, k: Known<CallbackRef>) -> bool {
        k matches Known::Known(r) ==> self.valid_callback(r)
    }

    /// The store with the callback at `r` replaced by `o`.
    pub open spec fn set_callback(self, r: CallbackRef, o: CallbackView) -> ObjectStoreView {
        ObjectStoreView { callbacks: self.callbacks.update(r.0 as int, o), ..self }
    }

    /// The store with `o` added as its last callback.
    pub open spec fn push_callback(self, o: CallbackView) -> ObjectStoreView {
        ObjectStoreView { callbacks: self.callbacks.push(o), ..self }
    }

    /// The reference that the next callback added gets.
    pub open spec fn next_callback(self) -> CallbackRef {
        CallbackRef(self.callbacks.len() as usize)
    }

    pub open spec fn valid_publication_message(self, r: PublicationMessageRef) -> bool {
        r.0 < self.publication_messages.len()
    }

    pub open spec fn known_publication_message(self, k: Known<PublicationMessageRef>) -> bool {
        k matches Known::Known(r) ==> self.valid_publication_message(r)
    }

    /// The store with the publication_message at `r` replaced by `o`.
    pub open spec fn set_publication_message(self, r: PublicationMessageRef, o: PublicationMessageView) -> ObjectStoreView {
        ObjectStoreView { publication_messages: self.publication_messages.update(r.0 as int, o), ..self }
    }

    /// The store with `o` added as its last publication_message.
    pub open spec fn push_publication_message(self, o: PublicationMessageView) -> ObjectStoreView {
        ObjectStoreView { publication_messages: self.publication_messages.push(o), ..self }
    }

    /// The reference that the next publication_message added gets.
    pub open spec fn next_publication_message(self) -> PublicationMessageRef {
        PublicationMessageRef(self.publication_messages.len() as usize)
    }

    pub open spec fn valid_subscription_message(self, r: SubscriptionMessageRef) -> bool {
        r.0 < self.subscription_messages.len()
    }

    pub open spec fn known_subscription_message(self, k: Known<SubscriptionMessageRef>) -> bool {
        k matches Known::Known(r) ==> self.valid_subscription_message(r)
    }

    /// The store with the subscription_message at `r` replaced by `o`.
    pub open spec fn set_subscription_message(self, r: SubscriptionMessageRef, o: SubscriptionMessageView) -> ObjectStoreView {
        ObjectStoreView { subscription_messages: self.subscription_messages.update(r.0 as int, o), ..self }
    }

    /// The store with `o` added as its last subscription_message.
    pub open spec fn push_subscription_message(self, o: SubscriptionMessageView) -> ObjectStoreView {
        ObjectStoreView { subscription_messages: self.subscription_messages.push(o), ..self }
    }

    /// The reference that the next subscription_message added gets.
    pub open spec fn next_subscription_message(self) -> SubscriptionMessageRef {
        SubscriptionMessageRef(self.subscription_messages.len() as usize)
    }

    pub open spec fn valid_callback_instance(self, r: CallbackInstanceRef) -> bool {
        r.0 < self.callback_instances.len()
    }

    pub open spec fn known_callback_instance(self, k: Known<CallbackInstanceRef>) -> bool {
        k matches Known::Known(r) ==> self.valid_callback_instance(r)
    }

    /// The store with the callback_instance at `r` replaced by `o`.
    pub open spec fn set_callback_instance(self, r: CallbackInstanceRef, o: CallbackInstanceView) -> ObjectStoreView {
        ObjectStoreView { callback_instances: self.callback_instances.update(r.0 as int, o), ..self }
    }

    /// The store with `o` added as its last callback_instance.
    pub open spec fn push_callback_instance(self, o: CallbackInstanceView) -> ObjectStoreView {
        ObjectStoreView { callback_instances: self.callback_instances.push(o), ..self }
    }

    /// The reference that the next callback_instance added gets.
    pub open spec fn next_callback_instance(self) -> CallbackInstanceRef {
        CallbackInstanceRef(self.callback_instances.len() as usize)
    }

    pub open spec fn valid_spin_instance(self, r: SpinInstanceRef) -> bool {
        r.0 < self.spin_instances.len()
    }

    pub open spec fn known_spin_instance(self, k: Known<SpinInstanceRef>) -> bool {
        k matches Known::Known(r) ==> self.valid_spin_instance(r)
    }

    /// The store with the spin_instance at `r` replaced by `o`.
    pub open spec fn set_spin_instance(self, r: SpinInstanceRef, o: SpinInstanceView) -> ObjectStoreView {
        ObjectStoreView { spin_instances: self.spin_instances.update(r.0 as int, o), ..self }
    }

    /// The store with `o` added as its last spin_instance.
    pub open spec fn push_spin_instance(self, o: SpinInstanceView) -> ObjectStoreView {
        ObjectStoreView { spin_instances: self.spin_instances.push(o), ..self }
    }

    /// The reference that the next spin_instance added gets.
    pub open spec fn next_spin_instance(self) -> SpinInstanceRef {
        SpinInstanceRef(self.spin_instances.len() as usize)
    }

    pub open spec fn caller_ok(self, c: CallbackCaller) -> bool {
        match c {
            CallbackCaller::Subscription(s) => self.valid_subscriber(s),
            CallbackCaller::Service(s) => self.valid_service(s),
            CallbackCaller::Timer(t) => self.valid_timer(t),
        }
    }

    pub open spec fn trigger_ok(self, t: CallbackTrigger) -> bool {
        match t {
            CallbackTrigger::SubscriptionMessage(m) => self.valid_subscription_message(m),
            CallbackTrigger::Service(s) => self.valid_service(s),
            CallbackTrigger::Timer(t) => self.valid_timer(t),
        }
    }

    /// Every reference held by the node points into the store.
    pub open spec fn node_ok(self, n: NodeView) -> bool {
        &&& forall|i: int| 0 <= i < n.subscribers.len() ==> self.valid_subscriber(#[trigger] n.subscribers[i])
        &&& forall|i: int| 0 <= i < n.publishers.len() ==> self.valid_publisher(#[trigger] n.publishers[i])
        &&& forall|i: int| 0 <= i < n.services.len() ==> self.valid_service(#[trigger] n.services[i])
        &&& forall|i: int| 0 <= i < n.clients.len() ==> self.valid_client(#[trigger] n.clients[i])
        &&& forall|i: int| 0 <= i < n.timers.len() ==> self.valid_timer(#[trigger] n.timers[i])
        &&& (n.spin_instance matches Some(s) ==> self.valid_spin_instance(s))
    }

    pub open spec fn subscriber_ok(self, s: SubscriberView) -> bool {
        &&& self.known_node(s.node)
        &&& self.known_callback(s.callback)
        &&& forall|i: int| 0 <= i < s.taken_message.len() ==> self.valid_subscription_message(#[trigger] s.taken_message[i])
    }

    pub open spec fn publisher_ok(self, p: PublisherView) -> bool {
        self.known_node(p.node)
    }

    pub open spec fn service_ok(self, s: ServiceView) -> bool {
        self.known_node(s.node) && self.known_callback(s.callback)
    }

    pub open spec fn client_ok(self, c: ClientView) -> bool {
        self.known_node(c.node)
    }

    pub open spec fn timer_ok(self, t: TimerView) -> bool {
        self.known_node(t.node) && self.known_callback(t.callback)
    }

    pub open spec fn callback_ok(self, c: CallbackView) -> bool {
        &&& (c.caller matches Known::Known(caller) ==> self.caller_ok(caller))
        &&& (c.running_instance matches Some(i) ==> self.valid_callback_instance(i))
    }

    pub open spec fn publication_message_ok(self, m: PublicationMessageView) -> bool {
        self.known_publisher(m.publisher)
    }

    pub open spec fn subscription_message_ok(self, m: SubscriptionMessageView) -> bool {
        &&& (m.message matches PartiallyKnown::Fully(p) ==> self.valid_publication_message(p))
        &&& self.known_subscriber(m.subscriber)
    }

    pub open spec fn callback_instance_ok(self, c: CallbackInstanceView) -> bool {
        self.valid_callback(c.callback) && self.trigger_ok(c.trigger)
    }

    pub open spec fn spin_instance_ok(self, s: SpinInstanceView) -> bool {
        self.valid_node(s.node)
    }

    /// Every kind of object is at least as numerous in `other` as in `self`.
    pub open spec fn le(self, other: ObjectStoreView) -> bool {
        &&& self.nodes.len() <= other.nodes.len()
        &&& self.subscribers.len() <= other.subscribers.len()
        &&& self.publishers.len() <= other.publishers.len()
        &&& self.services.len() <= other.services.len()
        &&& self.clients.len() <= other.clients.len()
        &&& self.timers.len() <= other.timers.len()
        &&& self.callbacks.len() <= other.callbacks.len()
        &&& self.publication_messages.len() <= other.publication_messages.len()
        &&& self.subscription_messages.len() <= other.subscription_messages.len()
        &&& self.callback_instances.len() <= other.callback_instances.len()
        &&& self.spin_instances.len() <= other.spin_instances.len()
    }

    /// An object whose references point into a store still does so once the store has grown.
    pub proof fn lemma_ok_grows(self, other: ObjectStoreView)
        requires
            self.le(other),
        ensures
            forall|o: NodeView| self.node_ok(o) ==> #[trigger] other.node_ok(o),
            forall|o: SubscriberView| self.subscriber_ok(o) ==> #[trigger] other.subscriber_ok(o),
            forall|o: PublisherView| self.publisher_ok(o) ==> #[trigger] other.publisher_ok(o),
            forall|o: ServiceView| self.service_ok(o) ==> #[trigger] other.service_ok(o),
            forall|o: ClientView| self.client_ok(o) ==> #[trigger] other.client_ok(o),
            forall|o: TimerView| self.timer_ok(o) ==> #[trigger] other.timer_ok(o),
            forall|o: CallbackView| self.callback_ok(o) ==> #[trigger] other.callback_ok(o),
            forall|o: PublicationMessageView| self.publication_message_ok(o) ==> #[trigger] other.publication_message_ok(o),
            forall|o: SubscriptionMessageView| self.subscription_message_ok(o) ==> #[trigger] other.subscription_message_ok(o),
            forall|o: CallbackInstanceView| self.callback_instance_ok(o) ==> #[trigger] other.callback_instance_ok(o),
            forall|o: SpinInstanceView| self.spin_instance_ok(o) ==> #[trigger] other.spin_instance_ok(o),
    {
        assert forall|o: NodeView| self.node_ok(o) implies #[trigger] other.node_ok(o) by {
            assert forall|i: int| 0 <= i < o.subscribers.len() implies other.valid_subscriber(#[trigger] o.subscribers[i]) by {
                assert(self.valid_subscriber(o.subscribers[i]));
            }
            assert forall|i: int| 0 <= i < o.publishers.len() implies other.valid_publisher(#[trigger] o.publishers[i]) by {
                assert(self.valid_publisher(o.publishers[i]));
            }
            assert forall|i: int| 0 <= i < o.services.len() implies other.valid_service(#[trigger] o.services[i]) by {
                assert(self.valid_service(o.services[i]));
            }
            assert forall|i: int| 0 <= i < o.clients.len() implies other.valid_client(#[trigger] o.clients[i]) by {
                assert(self.valid_client(o.clients[i]));
            }
            assert forall|i: int| 0 <= i < o.timers.len() implies other.valid_timer(#[trigger] o.timers[i]) by {
                assert(self.valid_timer(o.timers[i]));
            }
        }
        assert forall|o: SubscriberView| self.subscriber_ok(o) implies #[trigger] other.subscriber_ok(o) by {
            assert forall|i: int| 0 <= i < o.taken_message.len() implies other.valid_subscription_message(#[trigger] o.taken_message[i]) by {
                assert(self.valid_subscription_message(o.taken_message[i]));
            }
        }
    }

    /// No kind of object is more numerous than a `usize` can count, so the next
    /// reference of each kind is the number of objects of that kind.
    pub open spec fn fits(self) -> bool {
        &&& self.nodes.len() <= usize::MAX
        &&& self.subscribers.len() <= usize::MAX
        &&& self.publishers.len() <= usize::MAX
        &&& self.services.len() <= usize::MAX
        &&& self.clients.len() <= usize::MAX
        &&& self.timers.len() <= usize::MAX
        &&& self.callbacks.len() <= usize::MAX
        &&& self.publication_messages.len() <= usize::MAX
        &&& self.subscription_messages.len() <= usize::MAX
        &&& self.callback_instances.len() <= usize::MAX
        &&& self.spin_instances.len() <= usize::MAX
    }

    /// The object graph is closed: every reference points at an object of the store.
    pub open spec fn wf(self) -> bool {
        &&& forall|i: int| 0 <= i < self.nodes.len() ==> self.node_ok(#[trigger] self.nodes[i])
        &&& forall|i: int| 0 <= i < self.subscribers.len() ==> self.subscriber_ok(#[trigger] self.subscribers[i])
        &&& forall|i: int| 0 <= i < self.publishers.len() ==> self.publisher_ok(#[trigger] self.publishers[i])
        &&& forall|i: int| 0 <= i < self.services.len() ==> self.service_ok(#[trigger] self.services[i])
        &&& forall|i: int| 0 <= i < self.clients.len() ==> self.client_ok(#[trigger] self.clients[i])
        &&& forall|i: int| 0 <= i < self.timers.len() ==> self.timer_ok(#[trigger] self.timers[i])
        &&& forall|i: int| 0 <= i < self.callbacks.len() ==> self.callback_ok(#[trigger] self.callbacks[i])
        &&& forall|i: int| 0 <= i < self.publication_messages.len() ==> self.publication_message_ok(#[trigger] self.publication_messages[i])
        &&& forall|i: int| 0 <= i < self.subscription_messages.len() ==> self.subscription_message_ok(#[trigger] self.subscription_messages[i])
        &&& forall|i: int| 0 <= i < self.callback_instances.len() ==> self.callback_instance_ok(#[trigger] self.callback_instances[i])
        &&& forall|i: int| 0 <= i < self.spin_instances.len() ==> self.spin_instance_ok(#[trigger] self.spin_instances[i])
    }
}

/// The objects of a store are never more numerous than a `usize` can count.
pub broadcast proof fn lemma_view_fits(s: &ObjectStore)
    ensures
        (#[trigger] s@).fits(),
{
    vstd::std_specs::vec::axiom_spec_len(&s.nodes);
    vstd::std_specs::vec::axiom_spec_len(&s.subscribers);
    vstd::std_specs::vec::axiom_spec_len(&s.publishers);
    vstd::std_specs::vec::axiom_spec_len(&s.services);
    vstd::std_specs::vec::axiom_spec_len(&s.clients);
    vstd::std_specs::vec::axiom_spec_len(&s.timers);
    vstd::std_specs::vec::axiom_spec_len(&s.callbacks);
    vstd::std_specs::vec::axiom_spec_len(&s.publication_messages);
    vstd::std_specs::vec::axiom_spec_len(&s.subscription_messages);
    vstd::std_specs::vec::axiom_spec_len(&s.callback_instances);
    vstd::std_specs::vec::axiom_spec_len(&s.spin_instances);
}

impl ObjectStore {
    /// No kind of object is more numerous than a `usize` can count.
    pub proof fn lemma_lens_fit(&self)
        ensures
            self@.nodes.len() <= usize::MAX,
            self@.subscribers.len() <= usize::MAX,
            self@.publishers.len() <= usize::MAX,
            self@.services.len() <= usize::MAX,
            self@.clients.len() <= usize::MAX,
            self@.timers.len() <= usize::MAX,
            self@.callbacks.len() <= usize::MAX,
            self@.publication_messages.len() <= usize::MAX,
            self@.subscription_messages.len() <= usize::MAX,
            self@.callback_instances.len() <= usize::MAX,
            self@.spin_instances.len() <= usize::MAX,
    {
        vstd::std_specs::vec::axiom_spec_len(&self.nodes);
        vstd::std_specs::vec::axiom_spec_len(&self.subscribers);
        vstd::std_specs::vec::axiom_spec_len(&self.publishers);
        vstd::std_specs::vec::axiom_spec_len(&self.services);
        vstd::std_specs::vec::axiom_spec_len(&self.clients);
        vstd::std_specs::vec::axiom_spec_len(&self.timers);
        vstd::std_specs::vec::axiom_spec_len(&self.callbacks);
        vstd::std_specs::vec::axiom_spec_len(&self.publication_messages);
        vstd::std_specs::vec::axiom_spec_len(&self.subscription_messages);
        vstd::std_specs::vec::axiom_spec_len(&self.callback_instances);
        vstd::std_specs::vec::axiom_spec_len(&self.spin_instances);
    }

    pub fn new() -> (r: Self)
        ensures
            r@ == empty_store(),
    {
        let r = ObjectStore {
            nodes: Vec::new(),
            subscribers: Vec::new(),
            publishers: Vec::new(),
            services: Vec::new(),
            clients: Vec::new(),
            timers: Vec::new(),
            callbacks: Vec::new(),
            publication_messages: Vec::new(),
            subscription_messages: Vec::new(),
            callback_instances: Vec::new(),
            spin_instances: Vec::new(),
        };
        assert(r@ =~= empty_store());
        r
    }

    pub fn node(&self, r: NodeRef) -> (o: &Node)
        requires
            self@.valid_node(r),
        ensures
            o@ == self@.nodes[r.0 as int],
    {
        &self.nodes[r.0]
    }

    pub fn node_mut(&mut self, r: NodeRef) -> (o: &mut Node)
        requires
            old(self)@.valid_node(r),
        ensures
            o@ == old(self)@.nodes[r.0 as int],
            final(self)@ == old(self)@.set_node(r, final(o)@),
    {
        &mut self.nodes[r.0]
    }

    pub fn add_node(&mut self, o: Node) -> (r: NodeRef)
        ensures
            r == old(self)@.next_node(),
            r.0 == old(self)@.nodes.len(),
            final(self)@ == old(self)@.push_node(o@),
    {
        let r = NodeRef(self.nodes.len());
        self.nodes.push(o);
        r
    }

    pub fn node_count(&self) -> (c: usize)
        ensures
            c == self@.nodes.len(),
    {
        self.nodes.len()
    }

    pub fn subscriber(&self, r: SubscriberRef) -> (o: &Subscriber)
        requires
            self@.valid_subscriber(r),
        ensures
            o@ == self@.subscribers[r.0 as int],
    {
        &self.subscribers[r.0]
    }

    pub fn subscriber_mut(&mut self, r: SubscriberRef) -> (o: &mut Subscriber)
        requires
            old(self)@.valid_subscriber(r),
        ensures
            o@ == old(self)@.subscribers[r.0 as int],
            final(self)@ == old(self)@.set_subscriber(r, final(o)@),
    {
        &mut self.subscribers[r.0]
    }

    pub fn add_subscriber(&mut self, o: Subscriber) -> (r: SubscriberRef)
        ensures
            r == old(self)@.next_subscriber(),
            r.0 == old(self)@.subscribers.len(),
            final(self)@ == old(self)@.push_subscriber(o@),
    {
        let r = SubscriberRef(self.subscribers.len());
        self.subscribers.push(o);
        r
    }

    pub fn subscriber_count(&self) -> (c: usize)
        ensures
            c == self@.subscribers.len(),
    {
        self.subscribers.len()
    }

    pub fn publisher(&self, r: PublisherRef) -> (o: &Publisher)
        requires
            self@.valid_publisher(r),
        ensures
            o@ == self@.publishers[r.0 as int],
    {
        &self.publishers[r.0]
    }

    pub fn publisher_mut(&mut self, r: PublisherRef) -> (o: &mut Publisher)
        requires
            old(self)@.valid_publisher(r),
        ensures
            o@ == old(self)@.publishers[r.0 as int],
            final(self)@ == old(self)@.set_publisher(r, final(o)@),
    {
        &mut self.publishers[r.0]
    }

    pub fn add_publisher(&mut self, o: Publisher) -> (r: PublisherRef)
        ensures
            r == old(self)@.next_publisher(),
            r.0 == old(self)@.publishers.len(),
            final(self)@ == old(self)@.push_publisher(o@),
    {
        let r = PublisherRef(self.publishers.len());
        self.publishers.push(o);
        r
    }

    pub fn publisher_count(&self) -> (c: usize)
        ensures
            c == self@.publishers.len(),
    {
        self.publishers.len()
    }

    pub fn service(&self, r: ServiceRef) -> (o: &Service)
        requires
            self@.valid_service(r),
        ensures
            o@ == self@.services[r.0 as int],
    {
        &self.services[r.0]
    }

    pub fn service_mut(&mut self, r: ServiceRef) -> (o: &mut Service)
        requires
            old(self)@.valid_service(r),
        ensures
            o@ == old(self)@.services[r.0 as int],
            final(self)@ == old(self)@.set_service(r, final(o)@),
    {
        &mut self.services[r.0]
    }

    pub fn add_service(&mut self, o: Service) -> (r: ServiceRef)
        ensures
            r == old(self)@.next_service(),
            r.0 == old(self)@.services.len(),
            final(self)@ == old(self)@.push_service(o@),
    {
        let r = ServiceRef(self.services.len());
        self.services.push(o);
        r
    }

    pub fn service_count(&self) -> (c: usize)
        ensures
            c == self@.services.len(),
    {
        self.services.len()
    }

    pub fn client(&self, r: ClientRef) -> (o: &Client)
        requires
            self@.valid_client(r),
        ensures
            o@ == self@.clients[r.0 as int],
    {
        &self.clients[r.0]
    }

    pub fn client_mut(&mut self, r: ClientRef) -> (o: &mut Client)
        requires
            old(self)@.valid_client(r),
        ensures
            o@ == old(self)@.clients[r.0 as int],
            final(self)@ == old(self)@.set_client(r, final(o)@),
    {
        &mut self.clients[r.0]
    }

    pub fn add_client(&mut self, o: Client) -> (r: ClientRef)
        ensures
            r == old(self)@.next_client(),
            r.0 == old(self)@.clients.len(),
            final(self)@ == old(self)@.push_client(o@),
    {
        let r = ClientRef(self.clients.len());
        self.clients.push(o);
        r
    }

    pub fn client_count(&self) -> (c: usize)
        ensures
            c == self@.clients.len(),
    {
        self.clients.len()
    }

    pub fn timer(&self, r: TimerRef) -> (o: &Timer)
        requires
            self@.valid_timer(r),
        ensures
            o@ == self@.timers[r.0 as int],
    {
        &self.timers[r.0]
    }

    pub fn timer_mut(&mut self, r: TimerRef) -> (o: &mut Timer)
        requires
            old(self)@.valid_timer(r),
        ensures
            o@ == old(self)@.timers[r.0 as int],
            final(self)@ == old(self)@.set_timer(r, final(o)@),
    {
        &mut self.timers[r.0]
    }

    pub fn add_timer(&mut self, o: Timer) -> (r: TimerRef)
        ensures
            r == old(self)@.next_timer(),
            r.0 == old(self)@.timers.len(),
            final(self)@ == old(self)@.push_timer(o@),
    {
        let r = TimerRef(self.timers.len());
        self.timers.push(o);
        r
    }

    pub fn timer_count(&self) -> (c: usize)
        ensures
            c == self@.timers.len(),
    {
        self.timers.len()
    }

    pub fn callback(&self, r: CallbackRef) -> (o: &Callback)
        requires
            self@.valid_callback(r),
        ensures
            o@ == self@.callbacks[r.0 as int],
    {
        &self.callbacks[r.0]
    }

    pub fn callback_mut(&mut self, r: CallbackRef) -> (o: &mut Callback)
        requires
            old(self)@.valid_callback(r),
        ensures
            o@ == old(self)@.callbacks[r.0 as int],
            final(self)@ == old(self)@.set_callback(r, final(o)@),
    {
        &mut self.callbacks[r.0]
    }

    pub fn add_callback(&mut self, o: Callback) -> (r: CallbackRef)
        ensures
            r == old(self)@.next_callback(),
            r.0 == old(self)@.callbacks.len(),
            final(self)@ == old(self)@.push_callback(o@),
    {
        let r = CallbackRef(self.callbacks.len());
        self.callbacks.push(o);
        r
    }

    pub fn callback_count(&self) -> (c: usize)
        ensures
            c == self@.callbacks.len(),
    {
        self.callbacks.len()
    }

    pub fn publication_message(&self, r: PublicationMessageRef) -> (o: &PublicationMessage)
        requires
            self@.valid_publication_message(r),
        ensures
            o@ == self@.publication_messages[r.0 as int],
    {
        &self.publication_messages[r.0]
    }

    pub fn publication_message_mut(&mut self, r: PublicationMessageRef) -> (o: &mut PublicationMessage)
        requires
            old(self)@.valid_publication_message(r),
        ensures
            o@ == old(self)@.publication_messages[r.0 as int],
            final(self)@ == old(self)@.set_publication_message(r, final(o)@),
    {
        &mut self.publication_messages[r.0]
    }

    pub fn add_publication_message(&mut self, o: PublicationMessage) -> (r: PublicationMessageRef)
        ensures
            r == old(self)@.next_publication_message(),
            r.0 == old(self)@.publication_messages.len(),
            final(self)@ == old(self)@.push_publication_message(o@),
    {
        let r = PublicationMessageRef(self.publication_messages.len());
        self.publication_messages.push(o);
        r
    }

    pub fn publication_message_count(&self) -> (c: usize)
        ensures
            c == self@.publication_messages.len(),
    {
        self.publication_messages.len()
    }

    pub fn subscription_message(&self, r: SubscriptionMessageRef) -> (o: &SubscriptionMessage)
        requires
            self@.valid_subscription_message(r),
        ensures
            o@ == self@.subscription_messages[r.0 as int],
    {
        &self.subscription_messages[r.0]
    }

    pub fn subscription_message_mut(&mut self, r: SubscriptionMessageRef) -> (o: &mut SubscriptionMessage)
        requires
            old(self)@.valid_subscription_message(r),
        ensures
            o@ == old(self)@.subscription_messages[r.0 as int],
            final(self)@ == old(self)@.set_subscription_message(r, final(o)@),
    {
        &mut self.subscription_messages[r.0]
    }

    pub fn add_subscription_message(&mut self, o: SubscriptionMessage) -> (r: SubscriptionMessageRef)
        ensures
            r == old(self)@.next_subscription_message(),
            r.0 == old(self)@.subscription_messages.len(),
            final(self)@ == old(self)@.push_subscription_message(o@),
    {
        let r = SubscriptionMessageRef(self.subscription_messages.len());
        self.subscription_messages.push(o);
        r
    }

    pub fn subscription_message_count(&self) -> (c: usize)
        ensures
            c == self@.subscription_messages.len(),
    {
        self.subscription_messages.len()
    }

    pub fn callback_instance(&self, r: CallbackInstanceRef) -> (o: &CallbackInstance)
        requires
            self@.valid_callback_instance(r),
        ensures
            o@ == self@.callback_instances[r.0 as int],
    {
        &self.callback_instances[r.0]
    }

    pub fn callback_instance_mut(&mut self, r: CallbackInstanceRef) -> (o: &mut CallbackInstance)
        requires
            old(self)@.valid_callback_instance(r),
        ensures
            o@ == old(self)@.callback_instances[r.0 as int],
            final(self)@ == old(self)@.set_callback_instance(r, final(o)@),
    {
        &mut self.callback_instances[r.0]
    }

    pub fn add_callback_instance(&mut self, o: CallbackInstance) -> (r: CallbackInstanceRef)
        ensures
            r == old(self)@.next_callback_instance(),
            r.0 == old(self)@.callback_instances.len(),
            final(self)@ == old(self)@.push_callback_instance(o@),
    {
        let r = CallbackInstanceRef(self.callback_instances.len());
        self.callback_instances.push(o);
        r
    }

    pub fn callback_instance_count(&self) -> (c: usize)
        ensures
            c == self@.callback_instances.len(),
    {
        self.callback_instances.len()
    }

    pub fn spin_instance(&self, r: SpinInstanceRef) -> (o: &SpinInstance)
        requires
            self@.valid_spin_instance(r),
        ensures
            o@ == self@.spin_instances[r.0 as int],
    {
        &self.spin_instances[r.0]
    }

    pub fn spin_instance_mut(&mut self, r: SpinInstanceRef) -> (o: &mut SpinInstance)
        requires
            old(self)@.valid_spin_instance(r),
        ensures
            o@ == old(self)@.spin_instances[r.0 as int],
            final(self)@ == old(self)@.set_spin_instance(r, final(o)@),
    {
        &mut self.spin_instances[r.0]
    }

    pub fn add_spin_instance(&mut self, o: SpinInstance) -> (r: SpinInstanceRef)
        ensures
            r == old(self)@.next_spin_instance(),
            r.0 == old(self)@.spin_instances.len(),
            final(self)@ == old(self)@.push_spin_instance(o@),
    {
        let r = SpinInstanceRef(self.spin_instances.len());
        self.spin_instances.push(o);
        r
    }

    pub fn spin_instance_count(&self) -> (c: usize)
        ensures
            c == self@.spin_instances.len(),
    {
        self.spin_instances.len()
    }
}

/// The trigger of an execution of a callback: the oldest message taken by its
/// subscriber, or its service or timer.
pub open spec fn trigger_of(store: ObjectStoreView, caller: CallbackCaller) -> CallbackTrigger {
    match caller {
        CallbackCaller::Subscription(s) => CallbackTrigger::SubscriptionMessage(store.subscribers[s.0 as int].taken_message[0]),
        CallbackCaller::Service(s) => CallbackTrigger::Service(s),
        CallbackCaller::Timer(t) => CallbackTrigger::Timer(t),
    }
}

/// Whether an execution of the callback can start: it is not running, its caller is
/// known and, for a subscription, a taken message waits for it.
pub open spec fn can_start(store: ObjectStoreView, callback: CallbackRef) -> bool {
    let cb = store.callbacks[callback.0 as int];
    &&& cb.running_instance is None
    &&& cb.caller is Known
    &&& (cb.caller->Known_0 matches CallbackCaller::Subscription(s) ==> store.subscribers[s.0 as int].taken_message.len() > 0)
}

/// The store after an execution of `callback` starts at `start_time`, and the new execution.
///
/// A subscription callback consumes the oldest message taken by its subscriber;
/// the execution becomes the running instance of the callback.
pub open spec fn callback_start(store: ObjectStoreView, callback: CallbackRef, start_time: Time) -> (ObjectStoreView, CallbackInstanceRef) {
    let cb = store.callbacks[callback.0 as int];
    let caller = cb.caller->Known_0;
    let r = store.next_callback_instance();
    let consumed = match caller {
        CallbackCaller::Subscription(s) => store.set_subscriber(
            s,
            SubscriberView { taken_message: store.subscribers[s.0 as int].taken_message.drop_first(), ..store.subscribers[s.0 as int] },
        ),
        _ => store,
    };
    let added = consumed.push_callback_instance(
        CallbackInstanceView { start_time, end_time: Known::Unknown, callback, trigger: trigger_of(store, caller) },
    );
    (added.set_callback(callback, CallbackView { running_instance: Some(r), ..cb }), r)
}

impl CallbackInstance {
    /// Starts an execution of `callback` at `start_time`.
    ///
    /// A subscription callback consumes the oldest message taken by its subscriber.
    pub fn new(store: &mut ObjectStore, callback: CallbackRef, start_time: Time) -> (r: CallbackInstanceRef)
        requires
            old(store)@.wf(),
            old(store)@.valid_callback(callback),
            can_start(old(store)@, callback),
        ensures
            final(store)@.wf(),
            old(store)@.le(final(store)@),
            (final(store)@, r) == callback_start(old(store)@, callback, start_time),
    {
        let ghost o = store@;
        let caller = *store.callback(callback).get_caller().unwrap();
        let trigger = match caller {
            CallbackCaller::Subscription(s) => {
                let m = store.subscriber_mut(s).take_message();
                CallbackTrigger::SubscriptionMessage(m.unwrap())
            },
            CallbackCaller::Service(s) => CallbackTrigger::Service(s),
            CallbackCaller::Timer(t) => CallbackTrigger::Timer(t),
        };
        let ghost mid = store@;
        proof {
            if caller is Subscription {
                let s = caller->Subscription_0;
                assert(o.subscriber_ok(o.subscribers[s.0 as int]));
                assert forall|i: int| 0 <= i < mid.subscribers[s.0 as int].taken_message.len()
                    implies mid.valid_subscription_message(#[trigger] mid.subscribers[s.0 as int].taken_message[i]) by {
                    assert(o.subscribers[s.0 as int].taken_message[i + 1] == mid.subscribers[s.0 as int].taken_message[i]);
                }
                assert(mid.subscriber_ok(mid.subscribers[s.0 as int]));
            }
            assert(mid.trigger_ok(trigger));
            assert(mid.wf());
        }
        let instance = CallbackInstance::started(callback, start_time, trigger);
        let r = store.add_callback_instance(instance);
        let ghost added = store@;
        proof {
            mid.lemma_ok_grows(added);
            assert(added.callback_instance_ok(added.callback_instances[r.0 as int]));
            assert(added.wf());
        }
        store.callback_mut(callback).set_running_instance(r);
        proof {
            let f = store@;
            assert(f.callback_ok(f.callbacks[callback.0 as int]));
            assert(f.wf());
        }
        r
    }
}

} // verus!
