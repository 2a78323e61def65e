use vstd::prelude::*;

use std::collections::VecDeque;

use crate::known::{known_view, unknown_or_eq, Known};
use crate::model::{
    AlreadyInitializedError, AlreadySetError, CallbackRef, NodeRef, RmwGid,
    SubscriptionMessageRef, RMW_GID_SIZE,
};

verus! {

/// The most messages a subscriber keeps between taking them and running its callback.
///
/// R2R's channels hold as many messages.
pub const TAKEN_MESSAGES_MAX: usize = 11;

/// A ROS subscription.
#[derive(Debug)]
pub struct Subscriber {
    rmw_handle: Known<u64>,
    rcl_handle: Known<u64>,
    rclcpp_handle: Known<u64>,
    rmw_gid: Known<RmwGid>,
    topic_name: Known<String>,
    node: Known<NodeRef>,
    queue_depth: Known<usize>,
    callback: Known<CallbackRef>,
    taken_message: VecDeque<SubscriptionMessageRef>,
    removed: bool,
}

/// The abstract state of a [`Subscriber`].
pub struct SubscriberView {
    pub rmw_handle: Known<u64>,
    pub rcl_handle: Known<u64>,
    pub rclcpp_handle: Known<u64>,
    pub rmw_gid: Known<Seq<u8>>,
    pub topic_name: Known<Seq<char>>,
    pub node: Known<NodeRef>,
    pub queue_depth: Known<usize>,
    pub callback: Known<CallbackRef>,
    /// Messages taken but not yet handed to the callback, oldest first.
    pub taken_message: Seq<SubscriptionMessageRef>,
    pub removed: bool,
}

/// The state of a subscriber that no event has initialized yet.
pub open spec fn fresh_subscriber_view() -> SubscriberView {
    SubscriberView {
        rmw_handle: Known::Unknown,
        rcl_handle: Known::Unknown,
        rclcpp_handle: Known::Unknown,
        rmw_gid: Known::Unknown,
        topic_name: Known::Unknown,
        node: Known::Unknown,
        queue_depth: Known::Unknown,
        callback: Known::Unknown,
        taken_message: Seq::empty(),
        removed: false,
    }
}

/// The queue of taken messages after one more message is taken: the oldest
/// message makes room when the queue is full.
pub open spec fn taken_after_push(q: Seq<SubscriptionMessageRef>, m: SubscriptionMessageRef) -> Seq<SubscriptionMessageRef> {
    if q.len() >= TAKEN_MESSAGES_MAX {
        q.drop_first().push(m)
    } else {
        q.push(m)
    }
}

impl View for Subscriber {
    type V = SubscriberView;

    closed spec fn view(&self) -> SubscriberView {
        SubscriberView {
            rmw_handle: self.rmw_handle,
            rcl_handle: self.rcl_handle,
            rclcpp_handle: self.rclcpp_handle,
            rmw_gid: known_view(self.rmw_gid),
            topic_name: known_view(self.topic_name),
            node: self.node,
            queue_depth: self.queue_depth,
            callback: self.callback,
            taken_message: self.taken_message@,
            removed: self.removed,
        }
    }
}

impl Default for Subscriber {
    fn default() -> (r: Self)
        ensures
            r@ == fresh_subscriber_view(),
    {
        let r = Self {
            rmw_handle: Known::Unknown,
            rcl_handle: Known::Unknown,
            rclcpp_handle: Known::Unknown,
            rmw_gid: Known::Unknown,
            topic_name: Known::Unknown,
            node: Known::Unknown,
            queue_depth: Known::Unknown,
            callback: Known::Unknown,
            taken_message: VecDeque::new(),
            removed: false,
        };
        assert(r@.taken_message =~= Seq::empty());
        r
    }
}

impl Subscriber {
    /// Records the RMW handle and GID of the `rmw_init_subscription` event.
    ///
    /// Succeeds when both are unknown or already equal to the given ones.
    pub fn rmw_init(&mut self, rmw_handle: u64, gid: [u8; RMW_GID_SIZE]) -> (r: Result<(), AlreadyInitializedError>)
        requires
            !old(self)@.removed,
        ensures
            r is Ok <==> unknown_or_eq(old(self)@.rmw_handle, rmw_handle) && unknown_or_eq(old(self)@.rmw_gid, gid@),
            r is Ok ==> final(self)@ == (SubscriberView {
                rmw_handle: Known::Known(rmw_handle),
                rmw_gid: Known::Known(gid@),
                ..old(self)@
            }),
            r matches Err(e) ==> final(self)@ == old(self)@ && e == AlreadyInitializedError::spec_new("Subscriber", "rmw_init_subscription"),
    {
        let new_gid = RmwGid::new(gid);
        if self.rmw_handle.is_unknown_or_eq(&rmw_handle) && self.rmw_gid.is_unknown_or_same(&new_gid) {
            self.rmw_handle = Known::new(rmw_handle);
            self.rmw_gid = Known::new(new_gid);
            Ok(())
        } else {
            Err(AlreadyInitializedError::new("Subscriber", "rmw_init_subscription"))
        }
    }

    /// Records the data of the `rcl_subscription_init` event; succeeds when the
    /// RCL handle is still unknown.
    pub fn rcl_init(&mut self, rcl_handle: u64, topic_name: String, queue_depth: usize, node: NodeRef) -> (r: Result<(), AlreadyInitializedError>)
        requires
            !old(self)@.removed,
        ensures
            r is Ok <==> old(self)@.rcl_handle is Unknown,
            r is Ok ==> final(self)@ == (SubscriberView {
                rcl_handle: Known::Known(rcl_handle),
                topic_name: Known::Known(topic_name@),
                queue_depth: Known::Known(queue_depth),
                node: Known::Known(node),
                ..old(self)@
            }),
            r matches Err(e) ==> final(self)@ == old(self)@ && e == AlreadyInitializedError::spec_new("Subscriber", "rcl_subscription_init"),
    {
        if self.rcl_handle.is_unknown() {
            self.rcl_handle = Known::new(rcl_handle);
            self.topic_name = Known::new(topic_name);
            self.queue_depth = Known::new(queue_depth);
            self.node = Known::new(node);
            Ok(())
        } else {
            Err(AlreadyInitializedError::new("Subscriber", "rcl_subscription_init"))
        }
    }

    /// Records the rclcpp handle; succeeds when it is still unknown.
    pub fn rclcpp_init(&mut self, rclcpp_handle: u64) -> (r: Result<(), AlreadyInitializedError>)
        requires
            !old(self)@.removed,
        ensures
            r is Ok <==> old(self)@.rclcpp_handle is Unknown,
            r is Ok ==> final(self)@ == (SubscriberView { rclcpp_handle: Known::Known(rclcpp_handle), ..old(self)@ }),
            r matches Err(e) ==> final(self)@ == old(self)@ && e == AlreadyInitializedError::spec_new("Subscriber", "rclcpp_subscription_init"),
    {
        if self.rclcpp_handle.is_unknown() {
            self.rclcpp_handle = Known::new(rclcpp_handle);
            Ok(())
        } else {
            Err(AlreadyInitializedError::new("Subscriber", "rclcpp_subscription_init"))
        }
    }

    /// Records the RMW handle; succeeds when it is unknown or already equal.
    pub fn set_rmw_handle(&mut self, rmw_subscription_handle: u64) -> (r: Result<(), AlreadySetError<&Self, u64>>)
        requires
            !old(self)@.removed,
        ensures
            r is Ok <==> unknown_or_eq(old(self)@.rmw_handle, rmw_subscription_handle),
            r is Ok ==> final(self)@ == (SubscriberView { rmw_handle: Known::Known(rmw_subscription_handle), ..old(self)@ }),
            r matches Err(e) ==> final(self)@ == old(self)@ && e.spec_new_value() == rmw_subscription_handle
                && *e.spec_object() == *old(self) && e.spec_msg()@ == "rmw_handle already set"@,
    {
        if self.rmw_handle.is_unknown_or_eq(&rmw_subscription_handle) {
            self.rmw_handle = Known::new(rmw_subscription_handle);
            Ok(())
        } else {
            Err(AlreadySetError::new(&*self, rmw_subscription_handle, "rmw_handle already set"))
        }
    }

    /// Links the callback; succeeds when no callback is linked yet.
    pub fn set_callback(&mut self, callback: CallbackRef) -> (r: Result<(), AlreadySetError<&Self, CallbackRef>>)
        requires
            !old(self)@.removed,
        ensures
            r is Ok <==> old(self)@.callback is Unknown,
            r is Ok ==> final(self)@ == (SubscriberView { callback: Known::Known(callback), ..old(self)@ }),
            r matches Err(e) ==> final(self)@ == old(self)@ && e.spec_new_value() == callback
                && *e.spec_object() == *old(self) && e.spec_msg()@ == "callback already set"@,
    {
        if self.callback.is_unknown() {
            self.callback = Known::new(callback);
            Ok(())
        } else {
            Err(AlreadySetError::new(&*self, callback, "callback already set"))
        }
    }

    /// Stores a taken message for the callback; when the queue is full the
    /// oldest message is dropped and returned.
    pub fn replace_taken_message(&mut self, message: SubscriptionMessageRef) -> (r: Option<SubscriptionMessageRef>)
        requires
            !old(self)@.removed,
        ensures
            final(self)@ == (SubscriberView {
                taken_message: taken_after_push(old(self)@.taken_message, message),
                ..old(self)@
            }),
            r == (if old(self)@.taken_message.len() >= TAKEN_MESSAGES_MAX {
                Some(old(self)@.taken_message[0])
            } else {
                None
            }),
    {
        let ret = if self.taken_message.len() >= TAKEN_MESSAGES_MAX {
            self.taken_message.pop_front()
        } else {
            None
        };
        self.taken_message.push_back(message);
        ret
    }

    pub fn get_rmw_handle(&self) -> (r: Known<u64>)
        ensures
            r == self@.rmw_handle,
    {
        self.rmw_handle
    }

    pub fn get_rcl_handle(&self) -> (r: Known<u64>)
        ensures
            r == self@.rcl_handle,
    {
        self.rcl_handle
    }

    pub fn get_rclcpp_handle(&self) -> (r: Known<u64>)
        ensures
            r == self@.rclcpp_handle,
    {
        self.rclcpp_handle
    }

    pub fn get_queue_depth(&self) -> (r: Known<usize>)
        ensures
            r == self@.queue_depth,
    {
        self.queue_depth
    }

    /// The number of taken messages waiting for the callback.
    pub fn taken_message_count(&self) -> (r: usize)
        ensures
            r == self@.taken_message.len(),
    {
        self.taken_message.len()
    }

    /// Hands the oldest taken message to its callback.
    pub fn take_message(&mut self) -> (r: Option<SubscriptionMessageRef>)
        ensures
            old(self)@.taken_message.len() == 0 ==> r is None && final(self)@ == old(self)@,
            old(self)@.taken_message.len() > 0 ==> r == Some(old(self)@.taken_message[0])
                && final(self)@ == (SubscriberView { taken_message: old(self)@.taken_message.drop_first(), ..old(self)@ }),
    {
        self.taken_message.pop_front()
    }

    pub fn get_topic(&self) -> (r: Known<&str>)
        ensures
            match r {
                Known::Known(s) => self@.topic_name == Known::Known(s@),
                Known::Unknown => self@.topic_name is Unknown,
            },
    {
        self.topic_name.as_deref()
    }

    pub fn get_node(&self) -> (r: Known<NodeRef>)
        ensures
            r == self@.node,
    {
        self.node
    }

    pub fn get_callback(&self) -> (r: Known<CallbackRef>)
        ensures
            r == self@.callback,
    {
        self.callback
    }

    pub fn mark_removed(&mut self)
        ensures
            final(self)@ == (SubscriberView { removed: true, ..old(self)@ }),
    {
        self.removed = true;
    }

    pub fn is_removed(&self) -> (b: bool)
        ensures
            b == self@.removed,
    {
        self.removed
    }
}

} // verus!
