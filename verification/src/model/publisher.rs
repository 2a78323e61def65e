use vstd::prelude::*;

use crate::known::{known_view, unknown_or_eq, Known};
use crate::model::{AlreadyInitializedError, AlreadySetError, NodeRef, RmwGid, RMW_GID_SIZE};

verus! {

/// A ROS publisher.
#[derive(Debug)]
pub struct Publisher {
    rmw_handle: Known<u64>,
    rcl_handle: Known<u64>,
    rclcpp_handle: Known<u64>,
    rmw_gid: Known<RmwGid>,
    topic_name: Known<String>,
    node: Known<NodeRef>,
    queue_depth: Known<usize>,
    removed: bool,
}

/// The abstract state of a [`Publisher`].
pub struct PublisherView {
    pub rmw_handle: Known<u64>,
    pub rcl_handle: Known<u64>,
    pub rclcpp_handle: Known<u64>,
    pub rmw_gid: Known<Seq<u8>>,
    pub topic_name: Known<Seq<char>>,
    pub node: Known<NodeRef>,
    pub queue_depth: Known<usize>,
    pub removed: bool,
}

/// The state of a publisher that no event has initialized yet.
pub open spec fn fresh_publisher_view() -> PublisherView {
    PublisherView {
        rmw_handle: Known::Unknown,
        rcl_handle: Known::Unknown,
        rclcpp_handle: Known::Unknown,
        rmw_gid: Known::Unknown,
        topic_name: Known::Unknown,
        node: Known::Unknown,
        queue_depth: Known::Unknown,
        removed: false,
    }
}

/// A stub publisher has not been initialized by any init method.
pub open spec fn publisher_is_stub(p: PublisherView) -> bool {
    p.rmw_gid is Unknown && p.topic_name is Unknown && p.node is Unknown && p.queue_depth is Unknown
}

impl View for Publisher {
    type V = PublisherView;

    closed spec fn view(&self) -> PublisherView {
        PublisherView {
            rmw_handle: self.rmw_handle,
            rcl_handle: self.rcl_handle,
            rclcpp_handle: self.rclcpp_handle,
            rmw_gid: known_view(self.rmw_gid),
            topic_name: known_view(self.topic_name),
            node: self.node,
            queue_depth: self.queue_depth,
            removed: self.removed,
        }
    }
}

impl Default for Publisher {
    fn default() -> (r: Self)
        ensures
            r@ == fresh_publisher_view(),
    {
        Self {
            rmw_handle: Known::Unknown,
            rcl_handle: Known::Unknown,
            rclcpp_handle: Known::Unknown,
            rmw_gid: Known::Unknown,
            topic_name: Known::Unknown,
            node: Known::Unknown,
            queue_depth: Known::Unknown,
            removed: false,
        }
    }
}

impl Publisher {
    /// Records the RMW handle and GID of the `rmw_publisher_init` event.
    pub fn rmw_init(&mut self, rmw_handle: u64, gid: [u8; RMW_GID_SIZE]) -> (r: Result<(), AlreadyInitializedError>)
        requires
            !old(self)@.removed,
        ensures
            r is Ok <==> unknown_or_eq(old(self)@.rmw_handle, rmw_handle) && unknown_or_eq(old(self)@.rmw_gid, gid@),
            r is Ok ==> final(self)@ == (PublisherView {
                rmw_handle: Known::Known(rmw_handle),
                rmw_gid: Known::Known(gid@),
                ..old(self)@
            }),
            r matches Err(e) ==> final(self)@ == old(self)@ && e == AlreadyInitializedError::spec_new("Publisher", "rmw_init_publisher"),
    {
        let new_gid = RmwGid::new(gid);
        if self.rmw_handle.is_unknown_or_eq(&rmw_handle) && self.rmw_gid.is_unknown_or_same(&new_gid) {
            self.rmw_handle = Known::new(rmw_handle);
            self.rmw_gid = Known::new(new_gid);
            Ok(())
        } else {
            Err(AlreadyInitializedError::new("Publisher", "rmw_init_publisher"))
        }
    }

    /// Records the data of the `rcl_publisher_init` event; succeeds when the RCL
    /// handle is still unknown.
    pub fn rcl_init(&mut self, rcl_handle: u64, topic_name: String, queue_depth: usize, node: NodeRef) -> (r: Result<(), AlreadyInitializedError>)
        requires
            !old(self)@.removed,
        ensures
            r is Ok <==> old(self)@.rcl_handle is Unknown,
            r is Ok ==> final(self)@ == (PublisherView {
                rcl_handle: Known::Known(rcl_handle),
                topic_name: Known::Known(topic_name@),
                queue_depth: Known::Known(queue_depth),
                node: Known::Known(node),
                ..old(self)@
            }),
            r matches Err(e) ==> final(self)@ == old(self)@ && e == AlreadyInitializedError::spec_new("Publisher", "rcl_publisher_init"),
    {
        if self.rcl_handle.is_unknown() {
            self.rcl_handle = Known::new(rcl_handle);
            self.topic_name = Known::new(topic_name);
            self.queue_depth = Known::new(queue_depth);
            self.node = Known::new(node);
            Ok(())
        } else {
            Err(AlreadyInitializedError::new("Publisher", "rcl_publisher_init"))
        }
    }

    /// Records the RMW handle; succeeds when it is unknown or already equal.
    pub fn set_rmw_handle(&mut self, rmw_publisher_handle: u64) -> (r: Result<(), AlreadySetError<&Self, u64>>)
        requires
            !old(self)@.removed,
        ensures
            r is Ok <==> unknown_or_eq(old(self)@.rmw_handle, rmw_publisher_handle),
            r is Ok ==> final(self)@ == (PublisherView { rmw_handle: Known::Known(rmw_publisher_handle), ..old(self)@ }),
            r matches Err(e) ==> final(self)@ == old(self)@ && e.spec_new_value() == rmw_publisher_handle
                && *e.spec_object() == *old(self) && e.spec_msg()@ == "rmw_handle already set"@,
    {
        if self.rmw_handle.is_unknown_or_eq(&rmw_publisher_handle) {
            self.rmw_handle = Known::new(rmw_publisher_handle);
            Ok(())
        } else {
            Err(AlreadySetError::new(&*self, rmw_publisher_handle, "rmw_handle already set"))
        }
    }

    /// Records the RCL handle; succeeds when it is unknown or already equal.
    pub fn set_rcl_handle(&mut self, rcl_publisher_handle: u64) -> (r: Result<(), AlreadySetError<&Self, u64>>)
        requires
            !old(self)@.removed,
        ensures
            r is Ok <==> unknown_or_eq(old(self)@.rcl_handle, rcl_publisher_handle),
            r is Ok ==> final(self)@ == (PublisherView { rcl_handle: Known::Known(rcl_publisher_handle), ..old(self)@ }),
            r matches Err(e) ==> final(self)@ == old(self)@ && e.spec_new_value() == rcl_publisher_handle
                && *e.spec_object() == *old(self) && e.spec_msg()@ == "rcl_handle already set"@,
    {
        if self.rcl_handle.is_unknown_or_eq(&rcl_publisher_handle) {
            self.rcl_handle = Known::new(rcl_publisher_handle);
            Ok(())
        } else {
            Err(AlreadySetError::new(&*self, rcl_publisher_handle, "rcl_handle already set"))
        }
    }

    pub fn get_rmw_handle(&self) -> (r: Known<u64>)
        ensures
            r == self@.rmw_handle,
    {
        self.rmw_handle
    }

    pub fn get_rcl_handle(&self) -> (r: Known<u64>)
        ensures
            r == self@.rcl_handle,
    {
        self.rcl_handle
    }

    pub fn get_rclcpp_handle(&self) -> (r: Known<u64>)
        ensures
            r == self@.rclcpp_handle,
    {
        self.rclcpp_handle
    }

    pub fn get_queue_depth(&self) -> (r: Known<usize>)
        ensures
            r == self@.queue_depth,
    {
        self.queue_depth
    }

    pub fn get_topic(&self) -> (r: Known<&str>)
        ensures
            match r {
                Known::Known(s) => self@.topic_name == Known::Known(s@),
                Known::Unknown => self@.topic_name is Unknown,
            },
    {
        self.topic_name.as_deref()
    }

    pub fn get_node(&self) -> (r: Known<NodeRef>)
        ensures
            r == self@.node,
    {
        self.node
    }

    pub fn mark_removed(&mut self)
        ensures
            final(self)@ == (PublisherView { removed: true, ..old(self)@ }),
    {
        self.removed = true;
    }

    /// Returns whether the publisher is a stub.
    ///
    /// A stub publisher is a publisher that has not been initialized by any init method.
    pub fn is_stub(&self) -> (b: bool)
        ensures
            b == publisher_is_stub(self@),
    {
        self.rmw_gid.is_unknown() && self.topic_name.is_unknown() && self.node.is_unknown()
            && self.queue_depth.is_unknown()
    }

    pub fn change_rcl_handle(&mut self, rcl_handle: u64)
        ensures
            final(self)@ == (PublisherView { rcl_handle: Known::Known(rcl_handle), ..old(self)@ }),
    {
        self.rcl_handle = Known::new(rcl_handle);
    }

    pub fn is_removed(&self) -> (b: bool)
        ensures
            b == self@.removed,
    {
        self.removed
    }
}

} // verus!
