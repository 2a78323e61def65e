//! ROS 2 events linked to the objects they concern.
use vstd::prelude::*;

use crate::model::{
    CallbackInstanceRef, CallbackRef, ClientRef, NodeRef, PublicationMessageRef, PublisherRef,
    ServiceRef, SubscriberRef, SubscriptionMessageRef, TimerRef,
};

verus! {

#[derive(Debug, Clone)]
pub struct RclInit {
    pub context_handle: u64,
    pub version: String,
}

#[derive(Debug, Clone)]
pub struct RclNodeInit {
    pub node: NodeRef,
}

#[derive(Debug, Clone)]
pub struct RmwPublisherInit {
    pub publisher: PublisherRef,
}

#[derive(Debug, Clone)]
pub struct RclPublisherInit {
    pub publisher: PublisherRef,
}

#[derive(Debug, Clone)]
pub struct RclcppPublish {
    pub message: PublicationMessageRef,
}

#[derive(Debug, Clone)]
pub struct RclcppIntraPublish {
    pub message: PublicationMessageRef,
}

#[derive(Debug, Clone)]
pub struct RclPublish {
    pub message: PublicationMessageRef,
}

#[derive(Debug, Clone)]
pub struct RmwPublish {
    pub message: PublicationMessageRef,
}

#[derive(Debug, Clone)]
pub struct RmwSubscriptionInit {
    pub subscription: SubscriberRef,
}

#[derive(Debug, Clone)]
pub struct RclSubscriptionInit {
    pub subscription: SubscriberRef,
}

#[derive(Debug, Clone)]
pub struct RclcppSubscriptionInit {
    pub subscription: SubscriberRef,
}

#[derive(Debug, Clone)]
pub struct RclcppSubscriptionCallbackAdded {
    pub callback: CallbackRef,
}

#[derive(Debug, Clone)]
pub struct RmwTake {
    pub message: SubscriptionMessageRef,
    pub taken: bool,
}

#[derive(Debug, Clone)]
pub struct RclTake {
    pub message: SubscriptionMessageRef,
    pub is_new: bool,
}

#[derive(Debug, Clone)]
pub struct RclCppTake {
    pub message: SubscriptionMessageRef,
    pub is_new: bool,
}

#[derive(Debug, Clone)]
pub struct RclServiceInit {
    pub service: ServiceRef,
}

#[derive(Debug, Clone)]
pub struct RclCppServiceCallbackAdded {
    pub callback: CallbackRef,
}

#[derive(Debug, Clone)]
pub struct RclClientInit {
    pub client: ClientRef,
}

#[derive(Debug, Clone)]
pub struct RclTimerInit {
    pub timer: TimerRef,
}

#[derive(Debug, Clone)]
pub struct RclcppTimerCallbackAdded {
    pub callback: CallbackRef,
}

#[derive(Debug, Clone)]
pub struct RclcppTimerLinkNode {
    pub timer: TimerRef,
}

#[derive(Debug, Clone)]
pub struct RclcppCallbackRegister {
    pub callback: CallbackRef,
}

#[derive(Debug, Clone)]
pub struct CallbackStart {
    pub is_intra_process: bool,
    pub callback: CallbackInstanceRef,
}

#[derive(Debug, Clone)]
pub struct CallbackEnd {
    pub callback: CallbackInstanceRef,
}

#[derive(Debug, Clone)]
pub enum Event {
    RclInit(RclInit),
    RclNodeInit(RclNodeInit),
    RmwPublisherInit(RmwPublisherInit),
    RclPublisherInit(RclPublisherInit),
    RclcppPublish(RclcppPublish),
    RclcppIntraPublish(RclcppIntraPublish),
    RclPublish(RclPublish),
    RmwPublish(RmwPublish),
    RmwSubscriptionInit(RmwSubscriptionInit),
    RclSubscriptionInit(RclSubscriptionInit),
    RclcppSubscriptionInit(RclcppSubscriptionInit),
    RclcppSubscriptionCallbackAdded(RclcppSubscriptionCallbackAdded),
    RmwTake(RmwTake),
    RclTake(RclTake),
    RclCppTake(RclCppTake),
    RclServiceInit(RclServiceInit),
    RclCppServiceCallbackAdded(RclCppServiceCallbackAdded),
    RclClientInit(RclClientInit),
    RclTimerInit(RclTimerInit),
    RclcppTimerCallbackAdded(RclcppTimerCallbackAdded),
    RclcppTimerLinkNode(RclcppTimerLinkNode),
    RclcppCallbackRegister(RclcppCallbackRegister),
    CallbackStart(CallbackStart),
    CallbackEnd(CallbackEnd),
}

} // verus!
