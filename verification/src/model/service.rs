use vstd::prelude::*;

use crate::known::{unknown_or_eq, known_view, Known};
use crate::model::{AlreadyInitializedError, AlreadySetError, CallbackRef, NodeRef};

verus! {

/// A ROS service server.
#[derive(Debug)]
pub struct Service {
    rmw_handle: Known<u64>,
    rcl_handle: u64,
    rclcpp_handle: Known<u64>,
    name: Known<String>,
    node: Known<NodeRef>,
    callback: Known<CallbackRef>,
    removed: bool,
}

/// The abstract state of a [`Service`].
pub struct ServiceView {
    pub rmw_handle: Known<u64>,
    pub rcl_handle: u64,
    pub rclcpp_handle: Known<u64>,
    pub name: Known<Seq<char>>,
    pub node: Known<NodeRef>,
    pub callback: Known<CallbackRef>,
    pub removed: bool,
}

impl View for Service {
    type V = ServiceView;

    closed spec fn view(&self) -> ServiceView {
        ServiceView {
            rmw_handle: self.rmw_handle,
            rcl_handle: self.rcl_handle,
            rclcpp_handle: self.rclcpp_handle,
            name: known_view(self.name),
            node: self.node,
            callback: self.callback,
            removed: self.removed,
        }
    }
}

/// The state of a service that only its RCL handle identifies.
pub open spec fn fresh_service_view(rcl_handle: u64) -> ServiceView {
    ServiceView {
        rmw_handle: Known::Unknown,
        rcl_handle,
        rclcpp_handle: Known::Unknown,
        name: Known::Unknown,
        node: Known::Unknown,
        callback: Known::Unknown,
        removed: false,
    }
}

impl Service {
    pub fn new(rcl_handle: u64) -> (r: Self)
        ensures
            r@ == fresh_service_view(rcl_handle),
    {
        Self {
            rmw_handle: Known::Unknown,
            rcl_handle,
            rclcpp_handle: Known::Unknown,
            name: Known::Unknown,
            node: Known::Unknown,
            callback: Known::Unknown,
            removed: false,
        }
    }

    /// The condition under which `rcl_init` succeeds.
    pub open spec fn spec_can_rcl_init(&self, rmw_handle: u64) -> bool {
        self@.name is Unknown && self@.node is Unknown && unknown_or_eq(self@.rmw_handle, rmw_handle)
    }

    /// Records the data of the `rcl_service_init` event.
    pub fn rcl_init(&mut self, rmw_handle: u64, name: String, node: NodeRef) -> (r: Result<(), AlreadyInitializedError>)
        requires
            !old(self)@.removed,
        ensures
            r is Ok <==> old(self).spec_can_rcl_init(rmw_handle),
            r is Ok ==> final(self)@ == (ServiceView {
                rmw_handle: Known::Known(rmw_handle),
                name: Known::Known(name@),
                node: Known::Known(node),
                ..old(self)@
            }),
            r matches Err(e) ==> final(self)@ == old(self)@ && e == AlreadyInitializedError::spec_new("Service", "rcl_service_init"),
    {
        if !self.name.is_unknown() || !self.node.is_unknown() || !self.rmw_handle.is_unknown_or_eq(&rmw_handle) {
            return Err(AlreadyInitializedError::new("Service", "rcl_service_init"));
        }
        self.rmw_handle = Known::new(rmw_handle);
        self.name = Known::new(name);
        self.node = Known::new(node);
        Ok(())
    }

    /// Links the callback; succeeds when no callback is linked yet.
    pub fn set_callback(&mut self, callback: CallbackRef) -> (r: Result<(), AlreadySetError<&Self, CallbackRef>>)
        requires
            !old(self)@.removed,
        ensures
            r is Ok <==> old(self)@.callback is Unknown,
            r is Ok ==> final(self)@ == (ServiceView { callback: Known::Known(callback), ..old(self)@ }),
            r matches Err(e) ==> final(self)@ == old(self)@ && e.spec_new_value() == callback
                && *e.spec_object() == *old(self) && e.spec_msg()@ == "callback already set"@,
    {
        if !self.callback.is_unknown() {
            return Err(AlreadySetError::new(&*self, callback, "callback already set"));
        }
        self.callback = Known::new(callback);
        Ok(())
    }

    pub fn get_node(&self) -> (r: Known<NodeRef>)
        ensures
            r == self@.node,
    {
        self.node
    }

    pub fn get_name(&self) -> (r: Known<&str>)
        ensures
            match r {
                Known::Known(s) => self@.name == Known::Known(s@),
                Known::Unknown => self@.name is Unknown,
            },
    {
        self.name.as_deref()
    }

    pub fn get_rmw_handle(&self) -> (r: Known<u64>)
        ensures
            r == self@.rmw_handle,
    {
        self.rmw_handle
    }

    pub fn get_rcl_handle(&self) -> (r: u64)
        ensures
            r == self@.rcl_handle,
    {
        self.rcl_handle
    }

    pub fn get_callback(&self) -> (r: Known<CallbackRef>)
        ensures
            r == self@.callback,
    {
        self.callback
    }

    pub fn mark_removed(&mut self)
        ensures
            final(self)@ == (ServiceView { removed: true, ..old(self)@ }),
    {
        self.removed = true;
    }

    pub fn is_removed(&self) -> (b: bool)
        ensures
            b == self@.removed,
    {
        self.removed
    }
}

/// A ROS service client.
#[derive(Debug)]
pub struct Client {
    rcl_handle: u64,
    rmw_handle: Known<u64>,
    node: Known<NodeRef>,
    service_name: Known<String>,
    removed: bool,
}

/// The abstract state of a [`Client`].
pub struct ClientView {
    pub rcl_handle: u64,
    pub rmw_handle: Known<u64>,
    pub node: Known<NodeRef>,
    pub service_name: Known<Seq<char>>,
    pub removed: bool,
}

impl View for Client {
    type V = ClientView;

    closed spec fn view(&self) -> ClientView {
        ClientView {
            rcl_handle: self.rcl_handle,
            rmw_handle: self.rmw_handle,
            node: self.node,
            service_name: known_view(self.service_name),
            removed: self.removed,
        }
    }
}

/// The state of a client that only its RCL handle identifies.
pub open spec fn fresh_client_view(rcl_handle: u64) -> ClientView {
    ClientView {
        rcl_handle,
        rmw_handle: Known::Unknown,
        node: Known::Unknown,
        service_name: Known::Unknown,
        removed: false,
    }
}

impl Default for Client {
    fn default() -> (r: Self)
        ensures
            r@ == fresh_client_view(0),
    {
        Self::new(0)
    }
}

impl Client {
    pub fn new(id: u64) -> (r: Self)
        ensures
            r@ == fresh_client_view(id),
    {
        Self {
            rcl_handle: id,
            rmw_handle: Known::Unknown,
            node: Known::Unknown,
            service_name: Known::Unknown,
            removed: false,
        }
    }

    /// The condition under which `rcl_init` succeeds.
    pub open spec fn spec_can_rcl_init(&self) -> bool {
        self@.rmw_handle is Unknown && self@.node is Unknown && self@.service_name is Unknown
    }

    /// Records the data of the `rcl_client_init` event.
    pub fn rcl_init(&mut self, rmw_handle: u64, service_name: String, node: NodeRef) -> (r: Result<(), AlreadyInitializedError>)
        requires
            !old(self)@.removed,
        ensures
            r is Ok <==> old(self).spec_can_rcl_init(),
            r is Ok ==> final(self)@ == (ClientView {
                rmw_handle: Known::Known(rmw_handle),
                node: Known::Known(node),
                service_name: Known::Known(service_name@),
                ..old(self)@
            }),
            r matches Err(e) ==> final(self)@ == old(self)@ && e == AlreadyInitializedError::spec_new("Client", "rcl_client_init"),
    {
        if !self.rmw_handle.is_unknown() || !self.node.is_unknown() || !self.service_name.is_unknown() {
            return Err(AlreadyInitializedError::new("Client", "rcl_client_init"));
        }
        self.rmw_handle = Known::new(rmw_handle);
        self.node = Known::new(node);
        self.service_name = Known::new(service_name);
        Ok(())
    }

    pub fn get_rcl_handle(&self) -> (r: u64)
        ensures
            r == self@.rcl_handle,
    {
        self.rcl_handle
    }

    pub fn get_rmw_handle(&self) -> (r: Known<u64>)
        ensures
            r == self@.rmw_handle,
    {
        self.rmw_handle
    }

    pub fn get_node(&self) -> (r: Known<NodeRef>)
        ensures
            r == self@.node,
    {
        self.node
    }

    pub fn get_service_name(&self) -> (r: Known<&str>)
        ensures
            match r {
                Known::Known(s) => self@.service_name == Known::Known(s@),
                Known::Unknown => self@.service_name is Unknown,
            },
    {
        self.service_name.as_deref()
    }

    pub fn mark_removed(&mut self)
        ensures
            final(self)@ == (ClientView { removed: true, ..old(self)@ }),
    {
        self.removed = true;
    }

    pub fn is_removed(&self) -> (b: bool)
        ensures
            b == self@.removed,
    {
        self.removed
    }
}

} // verus!
