//! Events of the ROS 2 tracepoint provider.
use vstd::prelude::*;

use crate::model::RMW_GID_SIZE;

verus! {

#[derive(Debug, Clone)]
pub struct RclInit {
    pub context_handle: u64,
    pub version: String,
}

#[derive(Debug, Clone)]
pub struct RclNodeInit {
    pub node_handle: u64,
    pub rmw_handle: u64,
    pub node_name: String,
    pub namespace: String,
}

#[derive(Debug, Clone)]
pub struct RmwPublisherInit {
    pub rmw_publisher_handle: u64,
    pub gid: [u8; RMW_GID_SIZE],
}

#[derive(Debug, Clone)]
pub struct RclPublisherInit {
    pub publisher_handle: u64,
    pub node_handle: u64,
    pub rmw_publisher_handle: u64,
    pub topic_name: String,
    pub queue_depth: usize,
}

#[derive(Debug, Clone)]
pub struct RclcppPublish {
    pub message: u64,
}

#[derive(Debug, Clone)]
pub struct RclcppIntraPublish {
    pub publisher_handle: u64,
    pub message: u64,
}

#[derive(Debug, Clone)]
pub struct RclPublish {
    pub publisher_handle: u64,
    pub message: u64,
}

#[derive(Debug, Clone)]
pub struct RmwPublish {
    pub rmw_publisher_handle: Option<u64>,
    pub message: u64,
    pub timestamp: Option<i64>,
}

#[derive(Debug, Clone)]
pub struct RmwSubscriptionInit {
    pub rmw_subscription_handle: u64,
    pub gid: [u8; RMW_GID_SIZE],
}

#[derive(Debug, Clone)]
pub struct RclSubscriptionInit {
    pub subscription_handle: u64,
    pub node_handle: u64,
    pub rmw_subscription_handle: u64,
    pub topic_name: String,
    pub queue_depth: usize,
}

#[derive(Debug, Clone)]
pub struct RclcppSubscriptionInit {
    pub subscription_handle: u64,
    pub subscription: u64,
}

#[derive(Debug, Clone)]
pub struct RclcppSubscriptionCallbackAdded {
    pub subscription: u64,
    pub callback: u64,
}

#[derive(Debug, Clone)]
pub struct RmwTake {
    pub rmw_subscription_handle: u64,
    pub message: u64,
    pub source_timestamp: i64,
    pub taken: bool,
}

#[derive(Debug, Clone)]
pub struct RclTake {
    pub message: u64,
}

#[derive(Debug, Clone)]
pub struct RclcppTake {
    pub message: u64,
}

#[derive(Debug, Clone)]
pub struct RclServiceInit {
    pub service_handle: u64,
    pub node_handle: u64,
    pub rmw_service_handle: u64,
    pub service_name: String,
}

#[derive(Debug, Clone)]
pub struct RclcppServiceCallbackAdded {
    pub service_handle: u64,
    pub callback: u64,
}

#[derive(Debug, Clone)]
pub struct RclClientInit {
    pub client_handle: u64,
    pub node_handle: u64,
    pub rmw_client_handle: u64,
    pub service_name: String,
}

#[derive(Debug, Clone)]
pub struct RclTimerInit {
    pub timer_handle: u64,
    pub period: i64,
}

#[derive(Debug, Clone)]
pub struct RclcppTimerCallbackAdded {
    pub timer_handle: u64,
    pub callback: u64,
}

#[derive(Debug, Clone)]
pub struct RclcppTimerLinkNode {
    pub timer_handle: u64,
    pub node_handle: u64,
}

#[derive(Debug, Clone)]
pub struct RclcppCallbackRegister {
    pub callback: u64,
    pub symbol: String,
}

#[derive(Debug, Clone)]
pub struct CallbackStart {
    pub callback: u64,
    pub is_intra_process: bool,
}

#[derive(Debug, Clone)]
pub struct CallbackEnd {
    pub callback: u64,
}

#[derive(Debug, Clone)]
pub enum Event {
    RclInit(RclInit),
    RclNodeInit(RclNodeInit),
    RmwPublisherInit(RmwPublisherInit),
    RclPublisherInit(RclPublisherInit),
    RclcppPublish(RclcppPublish),
    RclcppIntraPublish(RclcppIntraPublish),
    RclPublish(RclPublish),
    RmwPublish(RmwPublish),
    RmwSubscriptionInit(RmwSubscriptionInit),
    RclSubscriptionInit(RclSubscriptionInit),
    RclcppSubscriptionInit(RclcppSubscriptionInit),
    RclcppSubscriptionCallbackAdded(RclcppSubscriptionCallbackAdded),
    RmwTake(RmwTake),
    RclTake(RclTake),
    RclcppTake(RclcppTake),
    RclServiceInit(RclServiceInit),
    RclcppServiceCallbackAdded(RclcppServiceCallbackAdded),
    RclClientInit(RclClientInit),
    RclTimerInit(RclTimerInit),
    RclcppTimerCallbackAdded(RclcppTimerCallbackAdded),
    RclcppTimerLinkNode(RclcppTimerLinkNode),
    RclcppCallbackRegister(RclcppCallbackRegister),
    CallbackStart(CallbackStart),
    CallbackEnd(CallbackEnd),
}

} // verus!
