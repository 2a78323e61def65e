use vstd::prelude::*;

use crate::known::{known_view, Known};
use crate::model::{
    full_name_of, ClientRef, Name, PublisherRef, ServiceRef, SpinInstanceRef, SubscriberRef,
    TimerRef,
};

verus! {

/// A ROS node and the objects it owns.
#[derive(Debug)]
pub struct Node {
    rcl_handle: u64,
    rmw_handle: Known<u64>,
    full_name: Known<Name>,
    subscribers: Vec<SubscriberRef>,
    publishers: Vec<PublisherRef>,
    services: Vec<ServiceRef>,
    clients: Vec<ClientRef>,
    timers: Vec<TimerRef>,
    spin_instance: Option<SpinInstanceRef>,
}

/// The abstract state of a [`Node`].
pub struct NodeView {
    pub rcl_handle: u64,
    pub rmw_handle: Known<u64>,
    /// The namespace and the name.
    pub full_name: Known<(Seq<char>, Seq<char>)>,
    pub subscribers: Seq<SubscriberRef>,
    pub publishers: Seq<PublisherRef>,
    pub services: Seq<ServiceRef>,
    pub clients: Seq<ClientRef>,
    pub timers: Seq<TimerRef>,
    pub spin_instance: Option<SpinInstanceRef>,
}

/// The state of a node that only its RCL handle identifies.
pub open spec fn fresh_node_view(rcl_handle: u64) -> NodeView {
    NodeView {
        rcl_handle,
        rmw_handle: Known::Unknown,
        full_name: Known::Unknown,
        subscribers: Seq::empty(),
        publishers: Seq::empty(),
        services: Seq::empty(),
        clients: Seq::empty(),
        timers: Seq::empty(),
        spin_instance: None,
    }
}

impl View for Node {
    type V = NodeView;

    closed spec fn view(&self) -> NodeView {
        NodeView {
            rcl_handle: self.rcl_handle,
            rmw_handle: self.rmw_handle,
            full_name: known_view(self.full_name),
            subscribers: self.subscribers@,
            publishers: self.publishers@,
            services: self.services@,
            clients: self.clients@,
            timers: self.timers@,
            spin_instance: self.spin_instance,
        }
    }
}

impl Node {
    pub fn new(rcl_handle: u64) -> (r: Self)
        ensures
            r@ == fresh_node_view(rcl_handle),
    {
        let r = Self {
            rcl_handle,
            rmw_handle: Known::Unknown,
            full_name: Known::Unknown,
            subscribers: Vec::new(),
            publishers: Vec::new(),
            services: Vec::new(),
            clients: Vec::new(),
            timers: Vec::new(),
            spin_instance: None,
        };
        assert(r@.subscribers =~= Seq::empty());
        r
    }

    pub fn add_subscriber(&mut self, subscriber: SubscriberRef)
        ensures
            final(self)@ == (NodeView { subscribers: old(self)@.subscribers.push(subscriber), ..old(self)@ }),
    {
        self.subscribers.push(subscriber);
    }

    pub fn add_publisher(&mut self, publisher: PublisherRef)
        ensures
            final(self)@ == (NodeView { publishers: old(self)@.publishers.push(publisher), ..old(self)@ }),
    {
        self.publishers.push(publisher);
    }

    pub fn add_service(&mut self, service: ServiceRef)
        ensures
            final(self)@ == (NodeView { services: old(self)@.services.push(service), ..old(self)@ }),
    {
        self.services.push(service);
    }

    pub fn add_client(&mut self, client: ClientRef)
        ensures
            final(self)@ == (NodeView { clients: old(self)@.clients.push(client), ..old(self)@ }),
    {
        self.clients.push(client);
    }

    pub fn add_timer(&mut self, timer: TimerRef)
        ensures
            final(self)@ == (NodeView { timers: old(self)@.timers.push(timer), ..old(self)@ }),
    {
        self.timers.push(timer);
    }

    /// Whether `rcl_init` has not been applied yet: the handle and name are both unknown.
    pub open spec fn spec_is_uninitialized(&self) -> bool {
        self@.rmw_handle is Unknown && self@.full_name is Unknown
    }

    /// Records the RMW handle and the name given by the `rcl_node_init` event.
    ///
    /// A node is initialized once: calling this on an initialized node is a bug in the trace.
    pub fn rcl_init(&mut self, rmw_handle: u64, name: &str, namespace: &str)
        requires
            old(self).spec_is_uninitialized(),
        ensures
            final(self)@ == (NodeView {
                rmw_handle: Known::Known(rmw_handle),
                full_name: Known::Known((namespace@, name@)),
                ..old(self)@
            }),
    {
        self.rmw_handle = Known::new(rmw_handle);
        self.full_name = Known::new(Name::new(namespace, name));
    }

    /// Whether `rcl_init` has not been applied yet.
    pub fn is_uninitialized(&self) -> (b: bool)
        ensures
            b == self.spec_is_uninitialized(),
    {
        self.rmw_handle.is_unknown() && self.full_name.is_unknown()
    }

    pub fn get_rcl_handle(&self) -> (r: u64)
        ensures
            r == self@.rcl_handle,
    {
        self.rcl_handle
    }

    pub fn get_rmw_handle(&self) -> (r: Known<u64>)
        ensures
            r == self@.rmw_handle,
    {
        self.rmw_handle
    }

    pub fn get_full_name(&self) -> (r: Known<&str>)
        ensures
            match r {
                Known::Known(s) => self@.full_name is Known && s@ == full_name_of(self@.full_name->Known_0),
                Known::Unknown => self@.full_name is Unknown,
            },
    {
        match &self.full_name {
            Known::Known(n) => Known::Known(n.get_full_name()),
            Known::Unknown => Known::Unknown,
        }
    }

    pub fn get_namespace(&self) -> (r: Known<&str>)
        ensures
            match r {
                Known::Known(s) => self@.full_name is Known && s@ == self@.full_name->Known_0.0,
                Known::Unknown => self@.full_name is Unknown,
            },
    {
        match &self.full_name {
            Known::Known(n) => Known::Known(n.get_namespace()),
            Known::Unknown => Known::Unknown,
        }
    }

    pub fn get_name(&self) -> (r: Known<&str>)
        ensures
            match r {
                Known::Known(s) => self@.full_name is Known && s@ == self@.full_name->Known_0.1,
                Known::Unknown => self@.full_name is Unknown,
            },
    {
        match &self.full_name {
            Known::Known(n) => Known::Known(n.get_name()),
            Known::Unknown => Known::Unknown,
        }
    }

    pub fn timers(&self) -> (r: &[TimerRef])
        ensures
            r@ == self@.timers,
    {
        self.timers.as_slice()
    }

    pub fn subscribers(&self) -> (r: &[SubscriberRef])
        ensures
            r@ == self@.subscribers,
    {
        self.subscribers.as_slice()
    }

    pub fn publishers(&self) -> (r: &[PublisherRef])
        ensures
            r@ == self@.publishers,
    {
        self.publishers.as_slice()
    }

    pub fn services(&self) -> (r: &[ServiceRef])
        ensures
            r@ == self@.services,
    {
        self.services.as_slice()
    }

    pub fn clients(&self) -> (r: &[ClientRef])
        ensures
            r@ == self@.clients,
    {
        self.clients.as_slice()
    }

    pub fn take_spin_instance(&mut self) -> (r: Option<SpinInstanceRef>)
        ensures
            r == old(self)@.spin_instance,
            final(self)@ == (NodeView { spin_instance: None, ..old(self)@ }),
    {
        self.spin_instance.take()
    }

    pub fn replace_spin_instance(&mut self, spin_instance: SpinInstanceRef) -> (r: Option<SpinInstanceRef>)
        ensures
            r == old(self)@.spin_instance,
            final(self)@ == (NodeView { spin_instance: Some(spin_instance), ..old(self)@ }),
    {
        let old = self.spin_instance;
        self.spin_instance = Some(spin_instance);
        old
    }

    pub fn borrow_spin_instance(&self) -> (r: Option<&SpinInstanceRef>)
        ensures
            match r {
                Some(s) => self@.spin_instance == Some(*s),
                None => self@.spin_instance is None,
            },
    {
        self.spin_instance.as_ref()
    }
}

} // verus!
