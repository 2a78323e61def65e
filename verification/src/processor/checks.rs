//! Whether an event can be processed: a trace that breaks an expectation of the
//! processor (an object initialized twice, a callback ending that never started)
//! cannot be processed.
use vstd::prelude::*;

use crate::events_common::{Context, ContextView};
use crate::known::Known;
use crate::model::{fresh_callback_view, fresh_service_view, CallbackCaller, CallbackRef, CallbackView, ObjectStoreView, ServiceView};
use crate::raw_events;
use crate::raw_events::r2r as raw_r2r;
use crate::raw_events::ros2 as raw;

use super::r2r::r2r_step_ok;
use super::ros2::{
    callback_end_ok, callback_start_ok, has_live_caller, rcl_client_init_ok, rcl_node_init_ok,
    rcl_publish_ok, rcl_publisher_init_ok, rcl_service_init_ok, rcl_subscription_init_ok,
    rcl_timer_init_ok, rclcpp_callback_register_ok, rclcpp_intra_publish_ok,
    rclcpp_service_callback_added_ok, rclcpp_subscription_callback_added_ok,
    rclcpp_subscription_init_ok, rclcpp_timer_callback_added_ok, rclcpp_timer_link_node_ok,
    rmw_event_publisher, rmw_publish_link, rmw_publish_message, rmw_publish_ok,
    rmw_publisher_init_ok, rmw_subscription_init_ok, rmw_take_ok, service_lookup,
};
use super::{event_ok, id_key, ros2_step_ok, with_host, ContextId, Id, Processor, ProcessorView};

verus! {

broadcast use {vstd::std_specs::hash::group_hash_axioms, crate::model::store::lemma_view_fits};

/// Adding a callback or a service leaves unchanged whether an existing callback has a
/// live caller.
proof fn lemma_live_caller_after_push(o: ObjectStoreView, old: CallbackRef, c: CallbackView, s: ServiceView)
    requires
        o.wf(),
        o.valid_callback(old),
    ensures
        has_live_caller(o.push_callback(c), old) == has_live_caller(o, old),
        has_live_caller(o.push_service(s), old) == has_live_caller(o, old),
        has_live_caller(o.push_service(s).push_callback(c), old) == has_live_caller(o, old),
{
    assert(o.callback_ok(o.callbacks[old.0 as int]));
}

/// Whether an `rmw_publish` event can be processed does not depend on the hosts known.
proof fn lemma_rmw_publish_ok_ignores_hosts(p: ProcessorView, ctx: ContextView, e: raw::RmwPublish, cid: ContextId)
    ensures
        rmw_publish_ok(with_host(p, ctx), e, cid) == rmw_publish_ok(p, e, cid),
{
    let q = with_host(p, ctx);
    let (p1, m) = rmw_publish_message(p, e, cid);
    let (q1, mq) = rmw_publish_message(q, e, cid);
    assert(q1 == with_host(p1, ctx));
    assert(mq == m);
    let ep = rmw_event_publisher(p1, e.rmw_publisher_handle, cid);
    assert(rmw_event_publisher(q1, e.rmw_publisher_handle, cid) == ep);
    let (p2, t) = rmw_publish_link(p1, m, ep, cid);
    let (q2, tq) = rmw_publish_link(q1, m, ep, cid);
    assert(tq == t);
    assert(q2.topics == p2.topics);
}

impl Processor {
    /// The process id that an event of `context` gets, without recording its host;
    /// `None` when a new host could not get an id.
    fn peek_context_id(&self, context: &Context) -> (r: Option<ContextId>)
        requires
            self@.wf(),
        ensures
            r is Some <==> self@.host_fits(context@),
            r matches Some(cid) ==> cid == self@.context_id(context@),
    {
        let host_id = match self.hostname_to_host_id.find(context.hostname()) {
            Some(i) => i,
            None => {
                let n = self.hostname_to_host_id.len();
                if n > 4294967295usize {
                    return None;
                }
                n
            },
        };
        Some(ContextId::new(context.vpid(), host_id as u32))
    }

    /// Whether the callback that had an id would conflict with a new one: its caller
    /// is known and has not been removed.
    fn conflicts(&self, old: Option<&CallbackRef>) -> (b: bool)
        requires
            self@.wf(),
            old matches Some(c) ==> self@.objects.valid_callback(*c),
        ensures
            b == (old matches Some(c) && has_live_caller(self@.objects, *c)),
    {
        match old {
            Some(c) => self.filter_out_removed_callers(*c).is_some(),
            None => false,
        }
    }

    /// Whether a ROS 2 event of the process `cid` can be processed.
    fn ros2_event_can_be_processed(&self, event: &raw::Event, context: &Context, cid: ContextId) -> (b: bool)
        requires
            self@.wf(),
        ensures
            b == ros2_step_ok(with_host(self@, context@), *event, context@, cid),
    {
        let ghost p = self@;
        match event {
            raw::Event::RclNodeInit(e) => self.rcl_node_init_can_be_processed(e, cid),
            raw::Event::RmwPublisherInit(e) => self.rmw_publisher_init_can_be_processed(e, cid),
            raw::Event::RclPublisherInit(e) => self.rcl_publisher_init_can_be_processed(e, cid),
            raw::Event::RclcppIntraPublish(e) => self.rclcpp_intra_publish_can_be_processed(e, cid),
            raw::Event::RclPublish(e) => self.rcl_publish_can_be_processed(e, cid),
            raw::Event::RmwPublish(e) => {
                let b = self.rmw_publish_can_be_processed(e, cid);
                proof {
                    lemma_rmw_publish_ok_ignores_hosts(p, context@, *e, cid);
                }
                b
            },
            raw::Event::RmwSubscriptionInit(e) => self.rmw_subscription_init_can_be_processed(e, cid),
            raw::Event::RclSubscriptionInit(e) => self.rcl_subscription_init_can_be_processed(e, cid),
            raw::Event::RclcppSubscriptionInit(e) => self.rclcpp_subscription_init_can_be_processed(e, cid),
            raw::Event::RclcppSubscriptionCallbackAdded(e) => {
                let b = self.rclcpp_subscription_callback_added_can_be_processed(e, context, cid);
                proof {
                    assert(rclcpp_subscription_callback_added_ok(with_host(p, context@), *e, context@, cid)
                        == rclcpp_subscription_callback_added_ok(p, *e, context@, cid));
                }
                b
            },
            raw::Event::RmwTake(e) => self.rmw_take_can_be_processed(e, cid),
            raw::Event::RclServiceInit(e) => self.rcl_service_init_can_be_processed(e, cid),
            raw::Event::RclcppServiceCallbackAdded(e) => {
                let b = self.rclcpp_service_callback_added_can_be_processed(e, context, cid);
                proof {
                    assert(rclcpp_service_callback_added_ok(with_host(p, context@), *e, context@, cid)
                        == rclcpp_service_callback_added_ok(p, *e, context@, cid));
                }
                b
            },
            raw::Event::RclClientInit(e) => self.rcl_client_init_can_be_processed(e, cid),
            raw::Event::RclTimerInit(e) => self.rcl_timer_init_can_be_processed(e, cid),
            raw::Event::RclcppTimerCallbackAdded(e) => {
                let b = self.rclcpp_timer_callback_added_can_be_processed(e, context, cid);
                proof {
                    assert(rclcpp_timer_callback_added_ok(with_host(p, context@), *e, context@, cid)
                        == rclcpp_timer_callback_added_ok(p, *e, context@, cid));
                }
                b
            },
            raw::Event::RclcppTimerLinkNode(e) => self.rclcpp_timer_link_node_can_be_processed(e, cid),
            raw::Event::RclcppCallbackRegister(e) => self.rclcpp_callback_register_can_be_processed(e, cid),
            raw::Event::CallbackStart(e) => self.callback_start_can_be_processed(e, cid),
            raw::Event::CallbackEnd(e) => self.callback_end_can_be_processed(e, cid),
            _ => true,
        }
    }

    fn rcl_node_init_can_be_processed(&self, e: &raw::RclNodeInit, cid: ContextId) -> (b: bool)
        requires
            self@.wf(),
        ensures
            b == rcl_node_init_ok(self@, *e, cid),
    {
        let ghost p = self@;
        match self.nodes_by_rcl.get(&Id::new(e.node_handle, cid).key()) {
            Some(n) => {
                proof { assert(p.nodes_by_rcl.contains_key(id_key(e.node_handle, cid))); }
                self.objects.node(*n).is_uninitialized()
            },
            None => true,
        }
    }

    fn rmw_publisher_init_can_be_processed(&self, e: &raw::RmwPublisherInit, cid: ContextId) -> (b: bool)
        requires
            self@.wf(),
        ensures
            b == rmw_publisher_init_ok(self@, *e, cid),
    {
        let ghost p = self@;
        match self.publishers_by_rmw.get(&Id::new(e.rmw_publisher_handle, cid).key()) {
            Some(r) => {
                proof { assert(p.publishers_by_rmw.contains_key(id_key(e.rmw_publisher_handle, cid))); }
                !self.objects.publisher(*r).is_removed()
            },
            None => true,
        }
    }

    fn rcl_publisher_init_can_be_processed(&self, e: &raw::RclPublisherInit, cid: ContextId) -> (b: bool)
        requires
            self@.wf(),
        ensures
            b == rcl_publisher_init_ok(self@, *e, cid),
    {
        let ghost p = self@;
        let node_ok = match self.nodes_by_rcl.get(&Id::new(e.node_handle, cid).key()) {
            Some(_) => true,
            None => {
                let rosout = "/rosout".to_owned();
                e.topic_name == rosout
            },
        };
        let publisher_ok = match self.publishers_by_rmw.get(&Id::new(e.rmw_publisher_handle, cid).key()) {
            Some(r) => {
                proof { assert(p.publishers_by_rmw.contains_key(id_key(e.rmw_publisher_handle, cid))); }
                !self.objects.publisher(*r).is_removed()
            },
            None => true,
        };
        node_ok && publisher_ok
    }

    fn rclcpp_intra_publish_can_be_processed(&self, e: &raw::RclcppIntraPublish, cid: ContextId) -> (b: bool)
        requires
            self@.wf(),
        ensures
            b == rclcpp_intra_publish_ok(self@, *e, cid),
    {
        let ghost p = self@;
        match self.published_messages_by_rclcpp.get(&Id::new(e.message, cid).key()) {
            Some(m) => {
                proof { assert(p.published_messages_by_rclcpp.contains_key(id_key(e.message, cid))); }
                match self.publishers_by_rcl.get(&Id::new(e.publisher_handle, cid).key()) {
                    Some(_) => self.objects.publication_message(*m).get_publisher().is_none(),
                    None => true,
                }
            },
            None => true,
        }
    }

    fn rcl_publish_can_be_processed(&self, e: &raw::RclPublish, cid: ContextId) -> (b: bool)
        requires
            self@.wf(),
        ensures
            b == rcl_publish_ok(self@, *e, cid),
    {
        let ghost p = self@;
        match self.published_messages_by_rclcpp.get(&Id::new(e.message, cid).key()) {
            Some(m) => {
                proof { assert(p.published_messages_by_rclcpp.contains_key(id_key(e.message, cid))); }
                let message = self.objects.publication_message(*m);
                message.get_publisher().is_none() && message.get_rcl_publication_time().is_none()
            },
            None => true,
        }
    }

    fn rmw_subscription_init_can_be_processed(&self, e: &raw::RmwSubscriptionInit, cid: ContextId) -> (b: bool)
        requires
            self@.wf(),
        ensures
            b == rmw_subscription_init_ok(self@, *e, cid),
    {
        let ghost p = self@;
        match self.subscribers_by_rmw.get(&Id::new(e.rmw_subscription_handle, cid).key()) {
            Some(r) => {
                proof { assert(p.subscribers_by_rmw.contains_key(id_key(e.rmw_subscription_handle, cid))); }
                !self.objects.subscriber(*r).is_removed()
            },
            None => true,
        }
    }

    fn rcl_subscription_init_can_be_processed(&self, e: &raw::RclSubscriptionInit, cid: ContextId) -> (b: bool)
        requires
            self@.wf(),
        ensures
            b == rcl_subscription_init_ok(self@, *e, cid),
    {
        let ghost p = self@;
        match self.subscribers_by_rmw.get(&Id::new(e.rmw_subscription_handle, cid).key()) {
            Some(r) => {
                proof { assert(p.subscribers_by_rmw.contains_key(id_key(e.rmw_subscription_handle, cid))); }
                match self.nodes_by_rcl.get(&Id::new(e.node_handle, cid).key()) {
                    Some(_) => !self.objects.subscriber(*r).is_removed(),
                    None => true,
                }
            },
            None => true,
        }
    }

    fn rclcpp_subscription_init_can_be_processed(&self, e: &raw::RclcppSubscriptionInit, cid: ContextId) -> (b: bool)
        requires
            self@.wf(),
        ensures
            b == rclcpp_subscription_init_ok(self@, *e, cid),
    {
        let ghost p = self@;
        match self.subscribers_by_rcl.get(&Id::new(e.subscription_handle, cid).key()) {
            Some(r) => {
                proof { assert(p.subscribers_by_rcl.contains_key(id_key(e.subscription_handle, cid))); }
                !self.objects.subscriber(*r).is_removed()
            },
            None => true,
        }
    }

    /// The callback registered under an id, if any.
    fn callback_by_id(&self, id: u64, cid: ContextId) -> (r: Option<&CallbackRef>)
        requires
            self@.wf(),
        ensures
            r matches Some(c) ==> self@.callbacks_by_id.contains_key(id_key(id, cid)) && *c == self@.callbacks_by_id[id_key(id, cid)]
                && self@.objects.valid_callback(*c),
            r is None ==> !self@.callbacks_by_id.contains_key(id_key(id, cid)),
    {
        let ghost p = self@;
        let r = self.callbacks_by_id.get(&Id::new(id, cid).key());
        proof {
            if r is Some {
                assert(p.callbacks_by_id.contains_key(id_key(id, cid)));
            }
        }
        r
    }

    fn rclcpp_subscription_callback_added_can_be_processed(&self, e: &raw::RclcppSubscriptionCallbackAdded, context: &Context, cid: ContextId) -> (b: bool)
        requires
            self@.wf(),
        ensures
            b == rclcpp_subscription_callback_added_ok(self@, *e, context@, cid),
    {
        let ghost p = self@;
        match self.subscribers_by_rclcpp.get(&Id::new(e.subscription, cid).key()) {
            Some(s) => {
                proof { assert(p.subscribers_by_rclcpp.contains_key(id_key(e.subscription, cid))); }
                let old = self.callback_by_id(e.callback, cid);
                proof {
                    if old is Some {
                        lemma_live_caller_after_push(
                            p.objects,
                            *old->Some_0,
                            fresh_callback_view(e.callback, CallbackCaller::Subscription(*s), context@.hostname),
                            fresh_service_view(0),
                        );
                    }
                }
                self.conflicts(old) || !self.objects.subscriber(*s).is_removed()
            },
            None => true,
        }
    }

    fn rmw_take_can_be_processed(&self, e: &raw::RmwTake, cid: ContextId) -> (b: bool)
        requires
            self@.wf(),
        ensures
            b == rmw_take_ok(self@, *e, cid),
    {
        let ghost p = self@;
        match self.subscribers_by_rmw.get(&Id::new(e.rmw_subscription_handle, cid).key()) {
            Some(s) => {
                proof { assert(p.subscribers_by_rmw.contains_key(id_key(e.rmw_subscription_handle, cid))); }
                !e.taken || !self.objects.subscriber(*s).is_removed()
            },
            None => true,
        }
    }

    fn rcl_service_init_can_be_processed(&self, e: &raw::RclServiceInit, cid: ContextId) -> (b: bool)
        requires
            self@.wf(),
        ensures
            b == rcl_service_init_ok(self@, *e, cid),
    {
        let ghost p = self@;
        match self.services_by_rcl.get(&Id::new(e.service_handle, cid).key()) {
            Some(s) => {
                proof { assert(p.services_by_rcl.contains_key(id_key(e.service_handle, cid))); }
                match self.nodes_by_rcl.get(&Id::new(e.node_handle, cid).key()) {
                    Some(_) => !self.objects.service(*s).is_removed(),
                    None => true,
                }
            },
            None => true,
        }
    }

    fn rclcpp_service_callback_added_can_be_processed(&self, e: &raw::RclcppServiceCallbackAdded, context: &Context, cid: ContextId) -> (b: bool)
        requires
            self@.wf(),
        ensures
            b == rclcpp_service_callback_added_ok(self@, *e, context@, cid),
    {
        let ghost p = self@;
        proof {
            self.objects.lemma_lens_fit();
        }
        let old = self.callback_by_id(e.callback, cid);
        proof {
            if old is Some {
                let (_, service) = service_lookup(p, e.service_handle, cid);
                lemma_live_caller_after_push(
                    p.objects,
                    *old->Some_0,
                    fresh_callback_view(e.callback, CallbackCaller::Service(service), context@.hostname),
                    fresh_service_view(e.service_handle),
                );
            }
        }
        if self.conflicts(old) {
            return true;
        }
        match self.services_by_rcl.get(&Id::new(e.service_handle, cid).key()) {
            Some(s) => {
                proof { assert(p.services_by_rcl.contains_key(id_key(e.service_handle, cid))); }
                !self.objects.service(*s).is_removed()
            },
            None => true,
        }
    }

    fn rcl_client_init_can_be_processed(&self, e: &raw::RclClientInit, cid: ContextId) -> (b: bool)
        requires
            self@.wf(),
        ensures
            b == rcl_client_init_ok(self@, *e, cid),
    {
        let ghost p = self@;
        match self.clients_by_rcl.get(&Id::new(e.client_handle, cid).key()) {
            Some(c) => {
                proof { assert(p.clients_by_rcl.contains_key(id_key(e.client_handle, cid))); }
                match self.nodes_by_rcl.get(&Id::new(e.node_handle, cid).key()) {
                    Some(_) => !self.objects.client(*c).is_removed(),
                    None => true,
                }
            },
            None => true,
        }
    }

    fn rcl_timer_init_can_be_processed(&self, e: &raw::RclTimerInit, cid: ContextId) -> (b: bool)
        requires
            self@.wf(),
        ensures
            b == rcl_timer_init_ok(self@, *e, cid),
    {
        let ghost p = self@;
        match self.timers_by_rcl.get(&Id::new(e.timer_handle, cid).key()) {
            Some(t) => {
                proof { assert(p.timers_by_rcl.contains_key(id_key(e.timer_handle, cid))); }
                !self.objects.timer(*t).is_removed()
            },
            None => true,
        }
    }

    fn rclcpp_timer_callback_added_can_be_processed(&self, e: &raw::RclcppTimerCallbackAdded, context: &Context, cid: ContextId) -> (b: bool)
        requires
            self@.wf(),
        ensures
            b == rclcpp_timer_callback_added_ok(self@, *e, context@, cid),
    {
        let ghost p = self@;
        match self.timers_by_rcl.get(&Id::new(e.timer_handle, cid).key()) {
            Some(t) => {
                proof { assert(p.timers_by_rcl.contains_key(id_key(e.timer_handle, cid))); }
                let old = self.callback_by_id(e.callback, cid);
                proof {
                    if old is Some {
                        lemma_live_caller_after_push(
                            p.objects,
                            *old->Some_0,
                            fresh_callback_view(e.callback, CallbackCaller::Timer(*t), context@.hostname),
                            fresh_service_view(0),
                        );
                    }
                }
                self.conflicts(old) || !self.objects.timer(*t).is_removed()
            },
            None => true,
        }
    }

    fn rclcpp_timer_link_node_can_be_processed(&self, e: &raw::RclcppTimerLinkNode, cid: ContextId) -> (b: bool)
        requires
            self@.wf(),
        ensures
            b == rclcpp_timer_link_node_ok(self@, *e, cid),
    {
        let ghost p = self@;
        match self.timers_by_rcl.get(&Id::new(e.timer_handle, cid).key()) {
            Some(t) => {
                proof { assert(p.timers_by_rcl.contains_key(id_key(e.timer_handle, cid))); }
                match self.nodes_by_rcl.get(&Id::new(e.node_handle, cid).key()) {
                    Some(_) => !self.objects.timer(*t).is_removed(),
                    None => true,
                }
            },
            None => true,
        }
    }

    fn rclcpp_callback_register_can_be_processed(&self, e: &raw::RclcppCallbackRegister, cid: ContextId) -> (b: bool)
        requires
            self@.wf(),
        ensures
            b == rclcpp_callback_register_ok(self@, *e, cid),
    {
        match self.callback_by_id(e.callback, cid) {
            Some(c) => !self.objects.callback(*c).is_removed(),
            None => true,
        }
    }

    fn callback_start_can_be_processed(&self, e: &raw::CallbackStart, cid: ContextId) -> (b: bool)
        requires
            self@.wf(),
        ensures
            b == callback_start_ok(self@, *e, cid),
    {
        let ghost p = self@;
        match self.callback_by_id(e.callback, cid) {
            Some(c) => {
                proof {
                    assert(p.objects.callback_ok(p.objects.callbacks[c.0 as int]));
                }
                let callback = self.objects.callback(*c);
                callback.get_running_instance().is_none() && match callback.get_caller() {
                    Some(CallbackCaller::Subscription(s)) => self.objects.subscriber(*s).taken_message_count() > 0,
                    Some(_) => true,
                    None => false,
                }
            },
            None => true,
        }
    }

    fn callback_end_can_be_processed(&self, e: &raw::CallbackEnd, cid: ContextId) -> (b: bool)
        requires
            self@.wf(),
        ensures
            b == callback_end_ok(self@, *e, cid),
    {
        let ghost p = self@;
        match self.callback_by_id(e.callback, cid) {
            Some(c) => {
                proof {
                    assert(p.objects.callback_ok(p.objects.callbacks[c.0 as int]));
                }
                match self.objects.callback(*c).get_running_instance() {
                    Some(i) => self.objects.callback_instance(i).get_end_time().is_none(),
                    None => false,
                }
            },
            None => true,
        }
    }

    /// Whether an `rmw_publish` event of the process `cid` can be processed.
    fn rmw_publish_can_be_processed(&self, e: &raw::RmwPublish, cid: ContextId) -> (b: bool)
        requires
            self@.wf(),
        ensures
            b == rmw_publish_ok(self@, *e, cid),
    {
        let ghost p = self@;
        proof {
            self.objects.lemma_lens_fit();
        }
        let waiting = match self.published_messages_by_rcl.get(&Id::new(e.message, cid).key()) {
            Some(m) => {
                proof { assert(p.published_messages_by_rcl.contains_key(id_key(e.message, cid))); }
                Some(*m)
            },
            None => None,
        };
        let (published_by_rmw, has_sender_timestamp, message_publisher) = match waiting {
            Some(m) => {
                let message = self.objects.publication_message(m);
                (
                    message.get_rmw_publication_time().is_some(),
                    message.get_sender_timestamp().is_some(),
                    message.get_publisher(),
                )
            },
            None => (false, false, None),
        };
        if published_by_rmw || (e.timestamp.is_some() && has_sender_timestamp) {
            return false;
        }
        let event_publisher = match e.rmw_publisher_handle {
            Some(h) => match self.publishers_by_rmw.get(&Id::new(h, cid).key()) {
                Some(r) => {
                    proof { assert(p.publishers_by_rmw.contains_key(id_key(h, cid))); }
                    Some(*r)
                },
                None => None,
            },
            None => None,
        };
        proof {
            if waiting is Some {
                assert(p.objects.publication_message_ok(p.objects.publication_messages[waiting->Some_0.0 as int]));
            }
        }
        let topic: Known<&str> = match (event_publisher, message_publisher) {
            (Some(ep), Some(mp)) => {
                if ep.same(&mp) {
                    self.objects.publisher(mp).get_topic()
                } else if self.objects.publisher(mp).is_stub() {
                    if self.objects.publisher(mp).get_rcl_handle().is_unknown() {
                        return false;
                    }
                    self.objects.publisher(ep).get_topic()
                } else {
                    Known::Unknown
                }
            },
            (Some(ep), None) => self.objects.publisher(ep).get_topic(),
            (None, Some(mp)) => self.objects.publisher(mp).get_topic(),
            (None, None) => Known::Unknown,
        };
        match (e.timestamp, topic) {
            (Some(_), Known::Known(t)) => match self.topics.find(t) {
                Some(_) => true,
                None => (self.topics.len() as u64) < 18446744073709551614u64,
            },
            _ => true,
        }
    }

    /// Whether an R2R event of the process `cid` can be processed.
    fn r2r_event_can_be_processed(&self, event: &raw_r2r::Event, context: &Context, cid: ContextId) -> (b: bool)
        requires
            self@.wf(),
        ensures
            b == r2r_step_ok(with_host(self@, context@), *event, cid),
    {
        let ghost p = self@;
        let node_handle = match event {
            raw_r2r::Event::SpinStart(e) => {
                return e.timeout_s <= u64::MAX - (e.timeout_ns / 1_000_000_000) as u64;
            },
            raw_r2r::Event::UpdateTime(_) => {
                return true;
            },
            raw_r2r::Event::SpinEnd(e) => e.node_handle,
            raw_r2r::Event::SpinWake(e) => e.node_handle,
            raw_r2r::Event::SpinTimeout(e) => e.node_handle,
        };
        let spin = match self.nodes_by_rcl.get(&Id::new(node_handle, cid).key()) {
            Some(n) => {
                proof {
                    assert(p.nodes_by_rcl.contains_key(id_key(node_handle, cid)));
                    assert(p.objects.node_ok(p.objects.nodes[n.0 as int]));
                }
                match self.objects.node(*n).borrow_spin_instance() {
                    Some(s) => self.objects.spin_instance(*s),
                    None => {
                        return true;
                    },
                }
            },
            None => {
                return true;
            },
        };
        match event {
            raw_r2r::Event::SpinEnd(_) => spin.can_end(),
            raw_r2r::Event::SpinWake(_) => spin.get_wake_time().is_none(),
            _ => spin.get_timeouted().is_unknown(),
        }
    }

    /// Whether a recorded event can be processed: processing one that cannot breaks an
    /// expectation of the processor about the trace.
    pub fn can_process_raw_event(&self, full_event: &raw_events::FullEvent) -> (b: bool)
        requires
            self@.wf(),
        ensures
            b == event_ok(self@, *full_event),
    {
        let cid = match self.peek_context_id(&full_event.context) {
            Some(cid) => cid,
            None => {
                return false;
            },
        };
        match &full_event.event {
            raw_events::Event::Ros2(e) => self.ros2_event_can_be_processed(e, &full_event.context, cid),
            raw_events::Event::R2r(e) => self.r2r_event_can_be_processed(e, &full_event.context, cid),
        }
    }
}

} // verus!
