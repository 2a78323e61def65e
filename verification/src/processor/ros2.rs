//! Processing of the events of the ROS 2 tracepoint provider.
use vstd::prelude::*;

use crate::events_common::{Context, Time};
use crate::known::Known;
use crate::interner::interned;
use crate::known::{known_view, unknown_or_eq};
use crate::model::{
    fresh_callback_view, fresh_node_view, fresh_publication_view, fresh_publisher_view,
    fresh_subscriber_view, fresh_subscription_view, publisher_is_stub, taken_after_push,
    AlreadyInitializedError, Callback, CallbackCaller, CallbackRef, Node, NodeRef, NodeView,
    ObjectStoreView, PartiallyKnown, PublicationMessage, PublicationMessageRef,
    PublicationMessageView, Publisher, PublisherRef, PublisherView, Subscriber, SubscriberView,
    SubscriptionMessage, SubscriptionMessageView, fresh_service_view, fresh_client_view,
    fresh_timer_view, Service, ServiceView, Client, ClientView, Timer, TimerView, CallbackView,
    CallbackInstance, CallbackInstanceView, callback_start, can_start,
};
use crate::events_common::ContextView;
use crate::processed_events::ros2 as processed;
use crate::raw_events::ros2 as raw;

use super::error::{
    not_found, outcome, AlreadyExists, Causes, Failure, NotFound, Object, ObjectMissingDependency,
    ObjectType, ProcessorError,
};
use super::{
    id_key, lemma_tables_grow, publication_key, publication_key_of, ContextId, Id, Processor,
    ProcessorView,
};

verus! {

broadcast use {vstd::std_specs::hash::group_hash_axioms, crate::model::store::lemma_view_fits};

/// A node after the `rcl_node_init` event: its RMW handle and its name are known.
pub open spec fn node_after_rcl_init(n: NodeView, e: raw::RclNodeInit) -> NodeView {
    NodeView {
        rmw_handle: Known::Known(e.rmw_handle),
        full_name: Known::Known((e.namespace@, e.node_name@)),
        ..n
    }
}

/// `rcl_node_init` can be processed: a node already known by its handle has not
/// been initialized yet.
pub open spec fn rcl_node_init_ok(p: ProcessorView, e: raw::RclNodeInit, cid: ContextId) -> bool {
    let k = id_key(e.node_handle, cid);
    p.nodes_by_rcl.contains_key(k) ==> {
        let n = p.objects.nodes[p.nodes_by_rcl[k].0 as int];
        n.rmw_handle is Unknown && n.full_name is Unknown
    }
}

/// `rcl_node_init`: the node known by the handle, or else a new node created with
/// the RMW handle as its handle, is initialized.
pub open spec fn rcl_node_init(p: ProcessorView, e: raw::RclNodeInit, cid: ContextId) -> (ProcessorView, processed::RclNodeInit) {
    let k = id_key(e.node_handle, cid);
    if p.nodes_by_rcl.contains_key(k) {
        let n = p.nodes_by_rcl[k];
        (
            ProcessorView { objects: p.objects.set_node(n, node_after_rcl_init(p.objects.nodes[n.0 as int], e)), ..p },
            processed::RclNodeInit { node: n },
        )
    } else {
        let n = p.objects.next_node();
        (
            ProcessorView {
                objects: p.objects.push_node(node_after_rcl_init(fresh_node_view(e.rmw_handle), e)),
                nodes_by_rcl: p.nodes_by_rcl.insert(k, n),
                ..p
            },
            processed::RclNodeInit { node: n },
        )
    }
}

impl Processor {
    /// Creates or initializes the node of an `rcl_node_init` event.
    pub fn process_rcl_node_init(
        &mut self,
        event: &raw::RclNodeInit,
        _time: Time,
        context_id: ContextId,
        _context: &Context,
    ) -> (r: processed::RclNodeInit)
        requires
            old(self)@.wf(),
            rcl_node_init_ok(old(self)@, *event, context_id),
        ensures
            final(self)@.wf(),
            old(self)@.objects.le(final(self)@.objects),
            (final(self)@, r) == rcl_node_init(old(self)@, *event, context_id),
    {
        let ghost o = self@;
        let key = Id::new(event.node_handle, context_id).key();
        let node = match self.nodes_by_rcl.get(&key) {
            Some(n) => *n,
            None => {
                let n = self.objects.add_node(Node::new(event.rmw_handle));
                self.nodes_by_rcl.insert(key, n);
                n
            },
        };
        let ghost mid = self@;
        proof {
            o.objects.lemma_ok_grows(mid.objects);
        }
        self.objects.node_mut(node).rcl_init(event.rmw_handle, &event.node_name, &event.namespace);
        proof {
            let f = self@;
            assert(f.objects.node_ok(f.objects.nodes[node.0 as int]));
            lemma_tables_grow(o, f.objects);
            assert forall|k: u128| #[trigger] f.nodes_by_rcl.contains_key(k) implies f.objects.valid_node(f.nodes_by_rcl[k]) by {
                if k != key {
                    assert(o.nodes_by_rcl.contains_key(k));
                }
            }
        }
        processed::RclNodeInit { node }
    }
}

/// A publisher after `rmw_init`: its RMW handle and GID are known.
pub open spec fn publisher_after_rmw_init(p: PublisherView, handle: u64, gid: Seq<u8>) -> PublisherView {
    PublisherView { rmw_handle: Known::Known(handle), rmw_gid: Known::Known(gid), ..p }
}

/// Whether `rmw_init` accepts the handle and GID: each is unknown or already equal.
pub open spec fn publisher_accepts_rmw_init(p: PublisherView, handle: u64, gid: Seq<u8>) -> bool {
    unknown_or_eq(p.rmw_handle, handle) && unknown_or_eq(p.rmw_gid, gid)
}

/// `rmw_publisher_init` can be processed: a publisher already known by the handle
/// has not been removed.
pub open spec fn rmw_publisher_init_ok(p: ProcessorView, e: raw::RmwPublisherInit, cid: ContextId) -> bool {
    let k = id_key(e.rmw_publisher_handle, cid);
    p.publishers_by_rmw.contains_key(k) ==> !p.objects.publishers[p.publishers_by_rmw[k].0 as int].removed
}

/// `rmw_publisher_init`: the publisher known by the RMW handle records the handle and
/// GID; when it has other ones already it is marked removed and a new publisher
/// takes its place, as does a new publisher when none is known.
pub open spec fn rmw_publisher_init(p: ProcessorView, e: raw::RmwPublisherInit, cid: ContextId) -> (ProcessorView, processed::RmwPublisherInit) {
    let k = id_key(e.rmw_publisher_handle, cid);
    let initialized = publisher_after_rmw_init(fresh_publisher_view(), e.rmw_publisher_handle, e.gid@);
    let r = p.objects.next_publisher();
    if !p.publishers_by_rmw.contains_key(k) {
        (
            ProcessorView {
                objects: p.objects.push_publisher(initialized),
                publishers_by_rmw: p.publishers_by_rmw.insert(k, r),
                ..p
            },
            processed::RmwPublisherInit { publisher: r },
        )
    } else {
        let old = p.publishers_by_rmw[k];
        let ov = p.objects.publishers[old.0 as int];
        if publisher_accepts_rmw_init(ov, e.rmw_publisher_handle, e.gid@) {
            (
                ProcessorView {
                    objects: p.objects.set_publisher(old, publisher_after_rmw_init(ov, e.rmw_publisher_handle, e.gid@)),
                    ..p
                },
                processed::RmwPublisherInit { publisher: old },
            )
        } else {
            (
                ProcessorView {
                    objects: p.objects.set_publisher(old, PublisherView { removed: true, ..ov }).push_publisher(initialized),
                    publishers_by_rmw: p.publishers_by_rmw.insert(k, r),
                    ..p
                },
                processed::RmwPublisherInit { publisher: r },
            )
        }
    }
}

/// A publisher after `rcl_init`: its RCL handle, topic, queue depth and node are known.
pub open spec fn publisher_after_rcl_init(p: PublisherView, e: raw::RclPublisherInit, node: NodeRef) -> PublisherView {
    PublisherView {
        rcl_handle: Known::Known(e.publisher_handle),
        topic_name: Known::Known(e.topic_name@),
        queue_depth: Known::Known(e.queue_depth),
        node: Known::Known(node),
        ..p
    }
}

/// `rcl_publisher_init` can be processed: the node is known unless the topic is
/// `/rosout` (whose publisher may come first), and a publisher already known by
/// the RMW handle has not been removed.
pub open spec fn rcl_publisher_init_ok(p: ProcessorView, e: raw::RclPublisherInit, cid: ContextId) -> bool {
    let kr = id_key(e.rmw_publisher_handle, cid);
    let kn = id_key(e.node_handle, cid);
    &&& !p.nodes_by_rcl.contains_key(kn) ==> e.topic_name@ == "/rosout"@
    &&& p.publishers_by_rmw.contains_key(kr) ==> !p.objects.publishers[p.publishers_by_rmw[kr].0 as int].removed
}

/// `rcl_publisher_init`, in order: the publisher known by the RMW handle (a new one
/// when missing) and the node (a new one when missing) are looked up; the publisher
/// records the event's data, or, when it already has an RCL handle, is marked
/// removed and replaced by a new publisher; the publisher takes the place of any
/// other publisher with its RCL handle, which is marked removed; the node lists it.
pub open spec fn rcl_publisher_init(p: ProcessorView, e: raw::RclPublisherInit, cid: ContextId) -> (ProcessorView, processed::RclPublisherInit) {
    let kr = id_key(e.rmw_publisher_handle, cid);
    let kn = id_key(e.node_handle, cid);
    let kp = id_key(e.publisher_handle, cid);
    let p1 = if p.publishers_by_rmw.contains_key(kr) {
        p
    } else {
        ProcessorView {
            objects: p.objects.push_publisher(PublisherView { rmw_handle: Known::Known(e.rmw_publisher_handle), ..fresh_publisher_view() }),
            publishers_by_rmw: p.publishers_by_rmw.insert(kr, p.objects.next_publisher()),
            ..p
        }
    };
    let candidate = p1.publishers_by_rmw[kr];
    let p2 = if p1.nodes_by_rcl.contains_key(kn) {
        p1
    } else {
        ProcessorView {
            objects: p1.objects.push_node(fresh_node_view(e.node_handle)),
            nodes_by_rcl: p1.nodes_by_rcl.insert(kn, p1.objects.next_node()),
            ..p1
        }
    };
    let node = p2.nodes_by_rcl[kn];
    let cv = p2.objects.publishers[candidate.0 as int];
    let replaced = !(cv.rcl_handle is Unknown);
    let publisher = if replaced { p2.objects.next_publisher() } else { candidate };
    let p3 = if !replaced {
        ProcessorView { objects: p2.objects.set_publisher(candidate, publisher_after_rcl_init(cv, e, node)), ..p2 }
    } else {
        ProcessorView {
            objects: p2.objects.set_publisher(candidate, PublisherView { removed: true, ..cv })
                .push_publisher(publisher_after_rcl_init(fresh_publisher_view(), e, node)),
            publishers_by_rmw: p2.publishers_by_rmw.insert(kr, publisher),
            ..p2
        }
    };
    let p4 = ProcessorView {
        objects: if p3.publishers_by_rcl.contains_key(kp) {
            let old = p3.publishers_by_rcl[kp];
            p3.objects.set_publisher(old, PublisherView { removed: true, ..p3.objects.publishers[old.0 as int] })
        } else {
            p3.objects
        },
        publishers_by_rcl: p3.publishers_by_rcl.insert(kp, publisher),
        ..p3
    };
    let nv = p4.objects.nodes[node.0 as int];
    (
        ProcessorView { objects: p4.objects.set_node(node, NodeView { publishers: nv.publishers.push(publisher), ..nv }), ..p4 },
        processed::RclPublisherInit { publisher },
    )
}

impl Processor {
    /// Initializes the publisher of an `rmw_publisher_init` event, replacing a
    /// publisher that was initialized with another handle or GID.
    pub fn process_rmw_publisher_init(
        &mut self,
        event: &raw::RmwPublisherInit,
        _time: Time,
        context_id: ContextId,
        _context: &Context,
    ) -> (r: processed::RmwPublisherInit)
        requires
            old(self)@.wf(),
            rmw_publisher_init_ok(old(self)@, *event, context_id),
        ensures
            final(self)@.wf(),
            old(self)@.objects.le(final(self)@.objects),
            (final(self)@, r) == rmw_publisher_init(old(self)@, *event, context_id),
    {
        let ghost o = self@;
        let key = Id::new(event.rmw_publisher_handle, context_id).key();
        let found = match self.publishers_by_rmw.get(&key) {
            Some(p) => Some(*p),
            None => None,
        };
        let publisher = match found {
            None => {
                let mut fresh = Publisher::default();
                let _ = fresh.rmw_init(event.rmw_publisher_handle, event.gid);
                let r = self.objects.add_publisher(fresh);
                self.publishers_by_rmw.insert(key, r);
                r
            },
            Some(existing) => {
                match self.objects.publisher_mut(existing).rmw_init(event.rmw_publisher_handle, event.gid) {
                    Ok(()) => existing,
                    Err(_) => {
                        self.objects.publisher_mut(existing).mark_removed();
                        let mut fresh = Publisher::default();
                        let _ = fresh.rmw_init(event.rmw_publisher_handle, event.gid);
                        let r = self.objects.add_publisher(fresh);
                        self.publishers_by_rmw.insert(key, r);
                        r
                    },
                }
            },
        };
        proof {
            let f = self@;
            o.objects.lemma_ok_grows(f.objects);
            assert(f.objects.publisher_ok(f.objects.publishers[publisher.0 as int]));
            lemma_tables_grow(o, f.objects);
            assert forall|k: u128| #[trigger] f.publishers_by_rmw.contains_key(k) implies f.objects.valid_publisher(f.publishers_by_rmw[k]) by {
                if k != key {
                    assert(o.publishers_by_rmw.contains_key(k));
                }
            }
        }
        processed::RmwPublisherInit { publisher }
    }

    /// Initializes the publisher of an `rcl_publisher_init` event and links it to its node.
    pub fn process_rcl_publisher_init(
        &mut self,
        event: &raw::RclPublisherInit,
        _time: Time,
        context_id: ContextId,
        _context: &Context,
    ) -> (r: processed::RclPublisherInit)
        requires
            old(self)@.wf(),
            rcl_publisher_init_ok(old(self)@, *event, context_id),
        ensures
            final(self)@.wf(),
            old(self)@.objects.le(final(self)@.objects),
            (final(self)@, r) == rcl_publisher_init(old(self)@, *event, context_id),
    {
        let ghost o = self@;
        let kr = Id::new(event.rmw_publisher_handle, context_id).key();
        let kn = Id::new(event.node_handle, context_id).key();
        let kp = Id::new(event.publisher_handle, context_id).key();
        let found = match self.publishers_by_rmw.get(&kr) {
            Some(p) => Some(*p),
            None => None,
        };
        let candidate = match found {
            Some(p) => p,
            None => {
                let mut fresh = Publisher::default();
                let _ = fresh.set_rmw_handle(event.rmw_publisher_handle);
                let r = self.objects.add_publisher(fresh);
                self.publishers_by_rmw.insert(kr, r);
                r
            },
        };
        let ghost p1 = self@;
        let found_node = match self.nodes_by_rcl.get(&kn) {
            Some(n) => Some(*n),
            None => None,
        };
        let node = match found_node {
            Some(n) => n,
            None => {
                let r = self.objects.add_node(Node::new(event.node_handle));
                self.nodes_by_rcl.insert(kn, r);
                r
            },
        };
        let ghost p2 = self@;
        proof {
            o.objects.lemma_ok_grows(p2.objects);
            lemma_tables_grow(o, p2.objects);
        }
        let publisher = match self.objects.publisher_mut(candidate).rcl_init(
            event.publisher_handle,
            event.topic_name.clone(),
            event.queue_depth,
            node,
        ) {
            Ok(()) => candidate,
            Err(_) => {
                self.objects.publisher_mut(candidate).mark_removed();
                let mut fresh = Publisher::default();
                let _ = fresh.rcl_init(event.publisher_handle, event.topic_name.clone(), event.queue_depth, node);
                let r = self.objects.add_publisher(fresh);
                self.publishers_by_rmw.insert(kr, r);
                r
            },
        };
        let ghost p3 = self@;
        match self.publishers_by_rcl.insert(kp, publisher) {
            Some(old) => {
                self.objects.publisher_mut(old).mark_removed();
            },
            None => {},
        }
        let ghost p4 = self@;
        self.objects.node_mut(node).add_publisher(publisher);
        proof {
            let f = self@;
            p2.objects.lemma_ok_grows(f.objects);
            assert(f.objects.node_ok(f.objects.nodes[node.0 as int]));
            assert(f.objects.publisher_ok(f.objects.publishers[publisher.0 as int]));
            lemma_tables_grow(o, f.objects);
            assert forall|k: u128| #[trigger] f.publishers_by_rmw.contains_key(k) implies f.objects.valid_publisher(f.publishers_by_rmw[k]) by {
                if k != kr {
                    assert(o.publishers_by_rmw.contains_key(k));
                }
            }
            assert forall|k: u128| #[trigger] f.publishers_by_rcl.contains_key(k) implies f.objects.valid_publisher(f.publishers_by_rcl[k]) by {
                if k != kp {
                    assert(o.publishers_by_rcl.contains_key(k));
                }
            }
            assert forall|k: u128| #[trigger] f.nodes_by_rcl.contains_key(k) implies f.objects.valid_node(f.nodes_by_rcl[k]) by {
                if k != kn {
                    assert(o.nodes_by_rcl.contains_key(k));
                }
            }
        }
        processed::RclPublisherInit { publisher }
    }
}

/// `rclcpp_publish`: a new message, published by rclcpp at `time`, waits for rcl
/// under its address.
pub open spec fn rclcpp_publish(p: ProcessorView, e: raw::RclcppPublish, time: Time, cid: ContextId) -> (ProcessorView, processed::RclcppPublish) {
    let m = p.objects.next_publication_message();
    (
        ProcessorView {
            objects: p.objects.push_publication_message(
                PublicationMessageView { rclcpp_publish_time: Known::Known(time), ..fresh_publication_view(e.message) },
            ),
            published_messages_by_rclcpp: p.published_messages_by_rclcpp.insert(id_key(e.message, cid), m),
            ..p
        },
        processed::RclcppPublish { message: m },
    )
}

/// `rcl_publish` can be processed: a message waiting for rcl under the address has
/// no publisher and no rcl publication yet.
pub open spec fn rcl_publish_ok(p: ProcessorView, e: raw::RclPublish, cid: ContextId) -> bool {
    let k = id_key(e.message, cid);
    p.published_messages_by_rclcpp.contains_key(k) ==> {
        let mv = p.objects.publication_messages[p.published_messages_by_rclcpp[k].0 as int];
        mv.publisher is Unknown && mv.rcl_publish_time is Unknown
    }
}

/// `rcl_publish`: the message waiting for rcl under the address (a new one when none
/// waits) now waits for rmw; it is linked to the publisher known by the RCL handle
/// (a new one when none is known) and published by rcl at `time`.
pub open spec fn rcl_publish(p: ProcessorView, e: raw::RclPublish, time: Time, cid: ContextId) -> (ProcessorView, processed::RclPublish) {
    let k = id_key(e.message, cid);
    let kp = id_key(e.publisher_handle, cid);
    let waiting = p.published_messages_by_rclcpp.contains_key(k);
    let m = if waiting { p.published_messages_by_rclcpp[k] } else { p.objects.next_publication_message() };
    let p1 = if waiting {
        ProcessorView { published_messages_by_rclcpp: p.published_messages_by_rclcpp.remove(k), ..p }
    } else {
        ProcessorView { objects: p.objects.push_publication_message(fresh_publication_view(e.message)), ..p }
    };
    let p2 = ProcessorView { published_messages_by_rcl: p1.published_messages_by_rcl.insert(k, m), ..p1 };
    let known = p2.publishers_by_rcl.contains_key(kp);
    let publisher = if known { p2.publishers_by_rcl[kp] } else { p2.objects.next_publisher() };
    let p3 = if known {
        p2
    } else {
        ProcessorView {
            objects: p2.objects.push_publisher(PublisherView { rcl_handle: Known::Known(e.publisher_handle), ..fresh_publisher_view() }),
            publishers_by_rcl: p2.publishers_by_rcl.insert(kp, publisher),
            ..p2
        }
    };
    let mv = p3.objects.publication_messages[m.0 as int];
    (
        ProcessorView {
            objects: p3.objects.set_publication_message(
                m,
                PublicationMessageView { publisher: Known::Known(publisher), rcl_publish_time: Known::Known(time), ..mv },
            ),
            ..p3
        },
        processed::RclPublish { message: m },
    )
}

/// The publisher that an `rmw_publish` event names, when the processor knows it.
pub open spec fn rmw_event_publisher(p: ProcessorView, handle: Option<u64>, cid: ContextId) -> Option<PublisherRef> {
    match handle {
        Some(h) => if p.publishers_by_rmw.contains_key(id_key(h, cid)) {
            Some(p.publishers_by_rmw[id_key(h, cid)])
        } else {
            None
        },
        None => None,
    }
}

/// The message of an `rmw_publish` event: the one waiting for rmw under the address,
/// or a new one.
pub open spec fn rmw_publish_message(p: ProcessorView, e: raw::RmwPublish, cid: ContextId) -> (ProcessorView, crate::model::PublicationMessageRef) {
    let k = id_key(e.message, cid);
    if p.published_messages_by_rcl.contains_key(k) {
        (ProcessorView { published_messages_by_rcl: p.published_messages_by_rcl.remove(k), ..p }, p.published_messages_by_rcl[k])
    } else {
        (
            ProcessorView { objects: p.objects.push_publication_message(fresh_publication_view(e.message)), ..p },
            p.objects.next_publication_message(),
        )
    }
}

/// Links the message of an `rmw_publish` event to its publisher, and gives the topic
/// the message is published on.
///
/// When both the event and the message name a publisher: the same one gives its
/// topic; a stub publisher of the message gives way to the event's publisher,
/// which takes over the stub's RCL handle; other publishers leave the topic unknown.
pub open spec fn rmw_publish_link(p: ProcessorView, m: crate::model::PublicationMessageRef, ep: Option<PublisherRef>, cid: ContextId) -> (ProcessorView, Known<Seq<char>>) {
    let mv = p.objects.publication_messages[m.0 as int];
    match (ep, mv.publisher) {
        (Some(ep), Known::Known(mp)) => {
            let mpv = p.objects.publishers[mp.0 as int];
            if ep == mp {
                (p, mpv.topic_name)
            } else if publisher_is_stub(mpv) {
                let handle = mpv.rcl_handle->Known_0;
                let epv = p.objects.publishers[ep.0 as int];
                (
                    ProcessorView {
                        objects: p.objects
                            .set_publication_message(m, PublicationMessageView { publisher: Known::Known(ep), ..mv })
                            .set_publisher(ep, PublisherView { rcl_handle: Known::Known(handle), ..epv }),
                        publishers_by_rcl: p.publishers_by_rcl.insert(id_key(handle, cid), ep),
                        ..p
                    },
                    epv.topic_name,
                )
            } else {
                (p, Known::Unknown)
            }
        },
        (Some(ep), Known::Unknown) => (
            ProcessorView {
                objects: p.objects.set_publication_message(m, PublicationMessageView { publisher: Known::Known(ep), ..mv }),
                ..p
            },
            p.objects.publishers[ep.0 as int].topic_name,
        ),
        (None, Known::Known(mp)) => (p, p.objects.publishers[mp.0 as int].topic_name),
        (None, Known::Unknown) => (p, Known::Unknown),
    }
}

/// `rmw_publish` can be processed: the message has not been published by rmw yet
/// (nor given a sender timestamp, when the event has one); a stub publisher that
/// gives way has an RCL handle; a new topic still gets an id.
pub open spec fn rmw_publish_ok(p: ProcessorView, e: raw::RmwPublish, cid: ContextId) -> bool {
    let (p1, m) = rmw_publish_message(p, e, cid);
    let mv = p1.objects.publication_messages[m.0 as int];
    let ep = rmw_event_publisher(p1, e.rmw_publisher_handle, cid);
    let (p2, topic) = rmw_publish_link(p1, m, ep, cid);
    &&& mv.rmw_publish_time is Unknown
    &&& (e.timestamp is Some ==> mv.sender_timestamp is Unknown)
    &&& match (ep, mv.publisher) {
        (Some(ep), Known::Known(mp)) => ep != mp && publisher_is_stub(p1.objects.publishers[mp.0 as int])
            ==> p1.objects.publishers[mp.0 as int].rcl_handle is Known,
        _ => true,
    }
    &&& match (e.timestamp, topic) {
        (Some(_), Known::Known(t)) => !p2.topics.contains(t) ==> p2.topics.len() + 1 < u64::MAX,
        _ => true,
    }
}

/// `rmw_publish`: the message is linked to its publisher and published by rmw at
/// `time`; with a sender timestamp it becomes findable under that timestamp and
/// its topic, replacing any message found there before.
pub open spec fn rmw_publish(p: ProcessorView, e: raw::RmwPublish, time: Time, cid: ContextId) -> (ProcessorView, processed::RmwPublish) {
    let (p1, m) = rmw_publish_message(p, e, cid);
    let ep = rmw_event_publisher(p1, e.rmw_publisher_handle, cid);
    let (p2, topic) = rmw_publish_link(p1, m, ep, cid);
    let mv = p2.objects.publication_messages[m.0 as int];
    match e.timestamp {
        Some(ts) => (
            ProcessorView {
                topics: match topic {
                    Known::Known(t) => interned(p2.topics, t),
                    Known::Unknown => p2.topics,
                },
                objects: p2.objects.set_publication_message(
                    m,
                    PublicationMessageView {
                        rmw_publish_time: Known::Known(time),
                        sender_timestamp: Known::Known(Time::from_nanos_spec(ts)),
                        ..mv
                    },
                ),
                published_messages: p2.published_messages.insert(publication_key(ts, p2.topic_code(topic)), m),
                ..p2
            },
            processed::RmwPublish { message: m },
        ),
        None => (
            ProcessorView {
                objects: p2.objects.set_publication_message(m, PublicationMessageView { rmw_publish_time: Known::Known(time), ..mv }),
                ..p2
            },
            processed::RmwPublish { message: m },
        ),
    }
}

/// `rclcpp_intra_publish` can be processed: the message it names has no publisher yet.
pub open spec fn rclcpp_intra_publish_ok(p: ProcessorView, e: raw::RclcppIntraPublish, cid: ContextId) -> bool {
    let k = id_key(e.message, cid);
    p.published_messages_by_rclcpp.contains_key(k) && p.publishers_by_rcl.contains_key(id_key(e.publisher_handle, cid))
        ==> p.objects.publication_messages[p.published_messages_by_rclcpp[k].0 as int].publisher is Unknown
}

/// `rclcpp_intra_publish`: the message waiting for rcl under the address is linked to
/// the publisher known by the RCL handle; either missing is an error.
pub open spec fn rclcpp_intra_publish(p: ProcessorView, e: raw::RclcppIntraPublish, time: Time, cid: ContextId) -> (ProcessorView, Result<processed::RclcppIntraPublish, Failure>) {
    let k = id_key(e.message, cid);
    let kp = id_key(e.publisher_handle, cid);
    if !p.published_messages_by_rclcpp.contains_key(k) {
        (p, Err(not_found(e.message, "address", ObjectType::PublishedMessage, time)))
    } else if !p.publishers_by_rcl.contains_key(kp) {
        (p, Err(not_found(e.publisher_handle, "rcl_handle", ObjectType::Publisher, time)))
    } else {
        let m = p.published_messages_by_rclcpp[k];
        let mv = p.objects.publication_messages[m.0 as int];
        (
            ProcessorView {
                objects: p.objects.set_publication_message(m, PublicationMessageView { publisher: Known::Known(p.publishers_by_rcl[kp]), ..mv }),
                ..p
            },
            Ok(processed::RclcppIntraPublish { message: m }),
        )
    }
}

/// The topic of a publisher, copied.
fn owned_topic(publisher: &Publisher) -> (r: Known<String>)
    ensures
        known_view(r) == publisher@.topic_name,
{
    match publisher.get_topic() {
        Known::Known(t) => Known::Known(t.to_owned()),
        Known::Unknown => Known::Unknown,
    }
}

impl Processor {
    /// Records a message published by rclcpp.
    pub fn process_rclcpp_publish(
        &mut self,
        event: &raw::RclcppPublish,
        time: Time,
        context_id: ContextId,
        _context: &Context,
    ) -> (r: processed::RclcppPublish)
        requires
            old(self)@.wf(),
        ensures
            final(self)@.wf(),
            old(self)@.objects.le(final(self)@.objects),
            (final(self)@, r) == rclcpp_publish(old(self)@, *event, time, context_id),
    {
        let ghost o = self@;
        let key = Id::new(event.message, context_id).key();
        let mut message = PublicationMessage::new(event.message);
        message.rclcpp_publish(time);
        let m = self.objects.add_publication_message(message);
        self.published_messages_by_rclcpp.insert(key, m);
        proof {
            let f = self@;
            o.objects.lemma_ok_grows(f.objects);
            lemma_tables_grow(o, f.objects);
            assert forall|k: u128| #[trigger] f.published_messages_by_rclcpp.contains_key(k)
                implies f.objects.valid_publication_message(f.published_messages_by_rclcpp[k]) by {
                if k != key {
                    assert(o.published_messages_by_rclcpp.contains_key(k));
                }
            }
        }
        processed::RclcppPublish { message: m }
    }

    /// Records the rcl publication of a message and links it to its publisher.
    pub fn process_rcl_publish(
        &mut self,
        event: &raw::RclPublish,
        time: Time,
        context_id: ContextId,
        _context: &Context,
    ) -> (r: processed::RclPublish)
        requires
            old(self)@.wf(),
            rcl_publish_ok(old(self)@, *event, context_id),
        ensures
            final(self)@.wf(),
            old(self)@.objects.le(final(self)@.objects),
            (final(self)@, r) == rcl_publish(old(self)@, *event, time, context_id),
    {
        let ghost o = self@;
        let key = Id::new(event.message, context_id).key();
        let kp = Id::new(event.publisher_handle, context_id).key();
        let message = match self.published_messages_by_rclcpp.remove(&key) {
            Some(m) => m,
            None => self.objects.add_publication_message(PublicationMessage::new(event.message)),
        };
        self.published_messages_by_rcl.insert(key, message);
        let found = match self.publishers_by_rcl.get(&kp) {
            Some(p) => Some(*p),
            None => None,
        };
        let publisher = match found {
            Some(p) => p,
            None => {
                let mut fresh = Publisher::default();
                let _ = fresh.set_rcl_handle(event.publisher_handle);
                let r = self.objects.add_publisher(fresh);
                self.publishers_by_rcl.insert(kp, r);
                r
            },
        };
        let ghost p3 = self@;
        proof {
            o.objects.lemma_ok_grows(p3.objects);
        }
        self.objects.publication_message_mut(message).set_publisher(publisher);
        self.objects.publication_message_mut(message).rcl_publish(time);
        proof {
            let f = self@;
            o.objects.lemma_ok_grows(f.objects);
            assert(f.objects.publication_message_ok(f.objects.publication_messages[message.0 as int]));
            lemma_tables_grow(o, f.objects);
            assert forall|k: u128| #[trigger] f.published_messages_by_rclcpp.contains_key(k)
                implies f.objects.valid_publication_message(f.published_messages_by_rclcpp[k]) by {
                assert(o.published_messages_by_rclcpp.contains_key(k));
            }
            assert forall|k: u128| #[trigger] f.published_messages_by_rcl.contains_key(k)
                implies f.objects.valid_publication_message(f.published_messages_by_rcl[k]) by {
                if k != key {
                    assert(o.published_messages_by_rcl.contains_key(k));
                }
            }
            assert forall|k: u128| #[trigger] f.publishers_by_rcl.contains_key(k) implies f.objects.valid_publisher(f.publishers_by_rcl[k]) by {
                if k != kp {
                    assert(o.publishers_by_rcl.contains_key(k));
                }
            }
        }
        processed::RclPublish { message }
    }

    /// Records the rmw publication of a message, links it to its publisher and makes
    /// it findable by the subscriptions that receive it.
    pub fn process_rmw_publish(
        &mut self,
        event: &raw::RmwPublish,
        time: Time,
        context_id: ContextId,
        _context: &Context,
    ) -> (r: processed::RmwPublish)
        requires
            old(self)@.wf(),
            rmw_publish_ok(old(self)@, *event, context_id),
        ensures
            final(self)@.wf(),
            old(self)@.objects.le(final(self)@.objects),
            (final(self)@, r) == rmw_publish(old(self)@, *event, time, context_id),
    {
        let ghost o = self@;
        let key = Id::new(event.message, context_id).key();
        let message = match self.published_messages_by_rcl.remove(&key) {
            Some(m) => m,
            None => self.objects.add_publication_message(PublicationMessage::new(event.message)),
        };
        let ghost p1 = self@;
        proof {
            assert((p1, message) == rmw_publish_message(o, *event, context_id));
        }
        let event_publisher = match event.rmw_publisher_handle {
            Some(h) => match self.publishers_by_rmw.get(&Id::new(h, context_id).key()) {
                Some(p) => Some(*p),
                None => None,
            },
            None => None,
        };
        proof {
            o.objects.lemma_ok_grows(p1.objects);
            lemma_tables_grow(o, p1.objects);
            assert(event_publisher == rmw_event_publisher(p1, event.rmw_publisher_handle, context_id));
        }
        let message_publisher = self.objects.publication_message(message).get_publisher();
        let topic: Known<String> = match (event_publisher, message_publisher) {
            (Some(ep), Some(mp)) => {
                if ep.same(&mp) {
                    owned_topic(self.objects.publisher(mp))
                } else if self.objects.publisher(mp).is_stub() {
                    let handle = self.objects.publisher(mp).get_rcl_handle().unwrap();
                    self.objects.publication_message_mut(message).replace_publisher(ep);
                    self.publishers_by_rcl.insert(Id::new(handle, context_id).key(), ep);
                    self.objects.publisher_mut(ep).change_rcl_handle(handle);
                    owned_topic(self.objects.publisher(ep))
                } else {
                    Known::Unknown
                }
            },
            (Some(ep), None) => {
                self.objects.publication_message_mut(message).set_publisher(ep);
                owned_topic(self.objects.publisher(ep))
            },
            (None, Some(mp)) => owned_topic(self.objects.publisher(mp)),
            (None, None) => Known::Unknown,
        };
        let ghost p2 = self@;
        proof {
            assert((p2, known_view(topic)) == rmw_publish_link(p1, message, event_publisher, context_id));
            p1.objects.lemma_ok_grows(p2.objects);
            assert(p2.objects.publication_message_ok(p2.objects.publication_messages[message.0 as int]));
            assert(p2.objects.wf());
            assert forall|k: u128| #[trigger] p2.publishers_by_rcl.contains_key(k) implies p2.objects.valid_publisher(p2.publishers_by_rcl[k]) by {
                if p2.publishers_by_rcl != p1.publishers_by_rcl {
                    assert(p1.publishers_by_rcl.contains_key(k) || p2.publishers_by_rcl[k] == event_publisher->Some_0);
                }
            }
            assert(p2.wf());
        }
        match event.timestamp {
            Some(ts) => {
                self.objects.publication_message_mut(message).rmw_publish(time, ts);
                let code: u64 = match &topic {
                    Known::Known(t) => (self.topics.intern(t.as_str()) as u64) + 1,
                    Known::Unknown => 0,
                };
                self.published_messages.insert(publication_key_of(ts, code), message);
            },
            None => {
                self.objects.publication_message_mut(message).rmw_publish_old(time);
            },
        }
        proof {
            let f = self@;
            p2.objects.lemma_ok_grows(f.objects);
            assert(f.objects.publication_message_ok(f.objects.publication_messages[message.0 as int]));
            lemma_tables_grow(p2, f.objects);
            assert forall|k: u128| #[trigger] f.published_messages.contains_key(k)
                implies f.objects.valid_publication_message(f.published_messages[k]) by {
                if f.published_messages[k] != message {
                    assert(p2.published_messages.contains_key(k));
                }
            }
        }
        processed::RmwPublish { message }
    }

    /// Links a message published within the process to its publisher.
    pub fn process_rclcpp_intra_publish(
        &mut self,
        event: &raw::RclcppIntraPublish,
        time: Time,
        context_id: ContextId,
        context: &Context,
    ) -> (r: Result<processed::RclcppIntraPublish, ProcessorError>)
        requires
            old(self)@.wf(),
            rclcpp_intra_publish_ok(old(self)@, *event, context_id),
        ensures
            final(self)@.wf(),
            old(self)@.objects.le(final(self)@.objects),
            (final(self)@, outcome(r)) == rclcpp_intra_publish(old(self)@, *event, time, context_id),
    {
        let ghost o = self@;
        let key = Id::new(event.message, context_id).key();
        let message = match self.published_messages_by_rclcpp.get(&key) {
            Some(m) => *m,
            None => {
                let e = NotFound::published_message(event.message);
                return Err(ProcessorError::Event(e.with_ros2_event(raw::Event::RclcppIntraPublish(event.clone()), time, context)));
            },
        };
        let publisher = match self.publishers_by_rcl.get(&Id::new(event.publisher_handle, context_id).key()) {
            Some(p) => *p,
            None => {
                let e = NotFound::publisher(event.publisher_handle, "rcl_handle");
                return Err(ProcessorError::Event(e.with_ros2_event(raw::Event::RclcppIntraPublish(event.clone()), time, context)));
            },
        };
        self.objects.publication_message_mut(message).set_publisher(publisher);
        proof {
            let f = self@;
            o.objects.lemma_ok_grows(f.objects);
            assert(f.objects.publication_message_ok(f.objects.publication_messages[message.0 as int]));
            lemma_tables_grow(o, f.objects);
        }
        Ok(processed::RclcppIntraPublish { message })
    }
}

/// A subscriber after `rmw_init`: its RMW handle and GID are known.
pub open spec fn subscriber_after_rmw_init(s: SubscriberView, handle: u64, gid: Seq<u8>) -> SubscriberView {
    SubscriberView { rmw_handle: Known::Known(handle), rmw_gid: Known::Known(gid), ..s }
}

/// Whether `rmw_init` accepts the handle and GID: each is unknown or already equal.
pub open spec fn subscriber_accepts_rmw_init(s: SubscriberView, handle: u64, gid: Seq<u8>) -> bool {
    unknown_or_eq(s.rmw_handle, handle) && unknown_or_eq(s.rmw_gid, gid)
}

/// `rmw_subscription_init` can be processed: a subscriber already known by the
/// handle has not been removed.
pub open spec fn rmw_subscription_init_ok(p: ProcessorView, e: raw::RmwSubscriptionInit, cid: ContextId) -> bool {
    let k = id_key(e.rmw_subscription_handle, cid);
    p.subscribers_by_rmw.contains_key(k) ==> !p.objects.subscribers[p.subscribers_by_rmw[k].0 as int].removed
}

/// `rmw_subscription_init`: the subscriber known by the RMW handle records the handle
/// and GID; when it has other ones already it is marked removed and a new subscriber
/// takes its place, as does a new subscriber when none is known.
pub open spec fn rmw_subscription_init(p: ProcessorView, e: raw::RmwSubscriptionInit, cid: ContextId) -> (ProcessorView, processed::RmwSubscriptionInit) {
    let k = id_key(e.rmw_subscription_handle, cid);
    let initialized = subscriber_after_rmw_init(fresh_subscriber_view(), e.rmw_subscription_handle, e.gid@);
    let r = p.objects.next_subscriber();
    if !p.subscribers_by_rmw.contains_key(k) {
        (
            ProcessorView {
                objects: p.objects.push_subscriber(initialized),
                subscribers_by_rmw: p.subscribers_by_rmw.insert(k, r),
                ..p
            },
            processed::RmwSubscriptionInit { subscription: r },
        )
    } else {
        let old = p.subscribers_by_rmw[k];
        let ov = p.objects.subscribers[old.0 as int];
        if subscriber_accepts_rmw_init(ov, e.rmw_subscription_handle, e.gid@) {
            (
                ProcessorView {
                    objects: p.objects.set_subscriber(old, subscriber_after_rmw_init(ov, e.rmw_subscription_handle, e.gid@)),
                    ..p
                },
                processed::RmwSubscriptionInit { subscription: old },
            )
        } else {
            (
                ProcessorView {
                    objects: p.objects.set_subscriber(old, SubscriberView { removed: true, ..ov }).push_subscriber(initialized),
                    subscribers_by_rmw: p.subscribers_by_rmw.insert(k, r),
                    ..p
                },
                processed::RmwSubscriptionInit { subscription: r },
            )
        }
    }
}

/// A subscriber after `rcl_init`: its RCL handle, topic, queue depth and node are known.
pub open spec fn subscriber_after_rcl_init(s: SubscriberView, e: raw::RclSubscriptionInit, node: NodeRef) -> SubscriberView {
    SubscriberView {
        rcl_handle: Known::Known(e.subscription_handle),
        topic_name: Known::Known(e.topic_name@),
        queue_depth: Known::Known(e.queue_depth),
        node: Known::Known(node),
        ..s
    }
}

/// The state after the subscriber known by the RMW handle of an
/// `rcl_subscription_init` event is looked up, a new one being created when missing.
pub open spec fn rcl_subscription_lookup(p: ProcessorView, e: raw::RclSubscriptionInit, cid: ContextId) -> ProcessorView {
    let kr = id_key(e.rmw_subscription_handle, cid);
    if p.subscribers_by_rmw.contains_key(kr) {
        p
    } else {
        ProcessorView {
            objects: p.objects.push_subscriber(SubscriberView { rmw_handle: Known::Known(e.rmw_subscription_handle), ..fresh_subscriber_view() }),
            subscribers_by_rmw: p.subscribers_by_rmw.insert(kr, p.objects.next_subscriber()),
            ..p
        }
    }
}

/// `rcl_subscription_init` can be processed: a subscriber already known by the RMW
/// handle has not been removed when its node is known.
pub open spec fn rcl_subscription_init_ok(p: ProcessorView, e: raw::RclSubscriptionInit, cid: ContextId) -> bool {
    let kr = id_key(e.rmw_subscription_handle, cid);
    p.subscribers_by_rmw.contains_key(kr) && p.nodes_by_rcl.contains_key(id_key(e.node_handle, cid))
        ==> !p.objects.subscribers[p.subscribers_by_rmw[kr].0 as int].removed
}

/// `rcl_subscription_init`, in order: the subscriber known by the RMW handle (a new
/// one when missing) is looked up; a missing node is an error; the subscriber
/// records the event's data, or, when it already has an RCL handle, is marked
/// removed and replaced by a new subscriber with the RMW handle; the subscriber takes
/// the place of any other subscriber with its RCL handle, which is marked removed;
/// the node lists it.
pub open spec fn rcl_subscription_init(p: ProcessorView, e: raw::RclSubscriptionInit, time: Time, cid: ContextId) -> (ProcessorView, Result<processed::RclSubscriptionInit, Failure>) {
    let kr = id_key(e.rmw_subscription_handle, cid);
    let kn = id_key(e.node_handle, cid);
    let ks = id_key(e.subscription_handle, cid);
    let p1 = rcl_subscription_lookup(p, e, cid);
    let candidate = p1.subscribers_by_rmw[kr];
    if !p1.nodes_by_rcl.contains_key(kn) {
        (
            p1,
            Err(Failure::Event(
                Causes::ObjectMissingDependency(ObjectMissingDependency::spec_new(
                    Object::Subscriber(candidate),
                    NotFound::spec_new(e.node_handle, "rcl_handle", ObjectType::Node),
                )),
                time,
            )),
        )
    } else {
        let node = p1.nodes_by_rcl[kn];
        let cv = p1.objects.subscribers[candidate.0 as int];
        let replaced = !(cv.rcl_handle is Unknown);
        let subscriber = if replaced { p1.objects.next_subscriber() } else { candidate };
        let p3 = if !replaced {
            ProcessorView { objects: p1.objects.set_subscriber(candidate, subscriber_after_rcl_init(cv, e, node)), ..p1 }
        } else {
            ProcessorView {
                objects: p1.objects.set_subscriber(candidate, SubscriberView { removed: true, ..cv }).push_subscriber(
                    subscriber_after_rcl_init(SubscriberView { rmw_handle: Known::Known(e.rmw_subscription_handle), ..fresh_subscriber_view() }, e, node),
                ),
                subscribers_by_rmw: p1.subscribers_by_rmw.insert(kr, subscriber),
                ..p1
            }
        };
        let p4 = ProcessorView {
            objects: if p3.subscribers_by_rcl.contains_key(ks) {
                let old = p3.subscribers_by_rcl[ks];
                p3.objects.set_subscriber(old, SubscriberView { removed: true, ..p3.objects.subscribers[old.0 as int] })
            } else {
                p3.objects
            },
            subscribers_by_rcl: p3.subscribers_by_rcl.insert(ks, subscriber),
            ..p3
        };
        let nv = p4.objects.nodes[node.0 as int];
        (
            ProcessorView { objects: p4.objects.set_node(node, NodeView { subscribers: nv.subscribers.push(subscriber), ..nv }), ..p4 },
            Ok(processed::RclSubscriptionInit { subscription: subscriber }),
        )
    }
}

/// `rclcpp_subscription_init` can be processed: the subscriber known by the RCL handle
/// has not been removed.
pub open spec fn rclcpp_subscription_init_ok(p: ProcessorView, e: raw::RclcppSubscriptionInit, cid: ContextId) -> bool {
    let ks = id_key(e.subscription_handle, cid);
    p.subscribers_by_rcl.contains_key(ks) ==> !p.objects.subscribers[p.subscribers_by_rcl[ks].0 as int].removed
}

/// `rclcpp_subscription_init`: the subscriber known by the RCL handle records its
/// rclcpp handle and takes the place of any other subscriber with that handle, which
/// is marked removed. A missing subscriber, or one that has an rclcpp handle already,
/// is an error.
pub open spec fn rclcpp_subscription_init(p: ProcessorView, e: raw::RclcppSubscriptionInit, time: Time, cid: ContextId) -> (ProcessorView, Result<processed::RclcppSubscriptionInit, Failure>) {
    let ks = id_key(e.subscription_handle, cid);
    let kc = id_key(e.subscription, cid);
    if !p.subscribers_by_rcl.contains_key(ks) {
        (p, Err(not_found(e.subscription_handle, "rcl_handle", ObjectType::Subscriber, time)))
    } else {
        let s = p.subscribers_by_rcl[ks];
        let sv = p.objects.subscribers[s.0 as int];
        if sv.rclcpp_handle is Known {
            (
                p,
                Err(Failure::Cause(Causes::AlreadyInitialized(
                    AlreadyInitializedError::spec_new("Subscriber", "rclcpp_subscription_init"),
                    Object::Subscriber(s),
                ))),
            )
        } else {
            let p1 = ProcessorView { objects: p.objects.set_subscriber(s, SubscriberView { rclcpp_handle: Known::Known(e.subscription), ..sv }), ..p };
            (
                ProcessorView {
                    objects: if p1.subscribers_by_rclcpp.contains_key(kc) {
                        let old = p1.subscribers_by_rclcpp[kc];
                        p1.objects.set_subscriber(old, SubscriberView { removed: true, ..p1.objects.subscribers[old.0 as int] })
                    } else {
                        p1.objects
                    },
                    subscribers_by_rclcpp: p1.subscribers_by_rclcpp.insert(kc, s),
                    ..p1
                },
                Ok(processed::RclcppSubscriptionInit { subscription: s }),
            )
        }
    }
}

/// Whether the object that invokes a callback has been marked removed.
pub open spec fn caller_removed(o: ObjectStoreView, caller: CallbackCaller) -> bool {
    match caller {
        CallbackCaller::Subscription(s) => o.subscribers[s.0 as int].removed,
        CallbackCaller::Service(s) => o.services[s.0 as int].removed,
        CallbackCaller::Timer(t) => o.timers[t.0 as int].removed,
    }
}

/// Whether a callback still belongs to a live caller, so that another callback with
/// its id conflicts with it.
pub open spec fn has_live_caller(o: ObjectStoreView, callback: CallbackRef) -> bool {
    o.callbacks[callback.0 as int].caller matches Known::Known(c) && !caller_removed(o, c)
}

/// The state after a new callback with the event's id and caller is registered by
/// its id, and the callback that had the id before, if any.
pub open spec fn register_callback(p: ProcessorView, id: u64, caller: CallbackCaller, host: Seq<char>, cid: ContextId) -> (ProcessorView, Option<CallbackRef>) {
    let k = id_key(id, cid);
    (
        ProcessorView {
            objects: p.objects.push_callback(fresh_callback_view(id, caller, host)),
            callbacks_by_id: p.callbacks_by_id.insert(k, p.objects.next_callback()),
            ..p
        },
        if p.callbacks_by_id.contains_key(k) { Some(p.callbacks_by_id[k]) } else { None },
    )
}

/// The failure of a callback whose id a callback of a live caller already has.
pub open spec fn callback_exists(id: u64, old: CallbackRef, new: CallbackRef, time: Time) -> Failure {
    Failure::Event(
        Causes::AlreadyExists(AlreadyExists::spec_new(id, "id", Object::Callback(old), Object::Callback(new))),
        time,
    )
}

/// `rclcpp_subscription_callback_added` can be processed: the subscriber gets the
/// callback only when it has not been removed.
pub open spec fn rclcpp_subscription_callback_added_ok(p: ProcessorView, e: raw::RclcppSubscriptionCallbackAdded, ctx: ContextView, cid: ContextId) -> bool {
    let kc = id_key(e.subscription, cid);
    p.subscribers_by_rclcpp.contains_key(kc) ==> {
        let s = p.subscribers_by_rclcpp[kc];
        let (p1, old) = register_callback(p, e.callback, CallbackCaller::Subscription(s), ctx.hostname, cid);
        !(old matches Some(o) && has_live_caller(p1.objects, o)) ==> !p1.objects.subscribers[s.0 as int].removed
    }
}

/// `rclcpp_subscription_callback_added`: a new callback of the subscriber known by
/// the rclcpp handle is registered by its id. An error follows when the subscriber is
/// missing, when the id belonged to a callback of a live caller, or when the
/// subscriber has a callback already; otherwise the subscriber gets the callback.
pub open spec fn rclcpp_subscription_callback_added(p: ProcessorView, e: raw::RclcppSubscriptionCallbackAdded, time: Time, ctx: ContextView, cid: ContextId) -> (ProcessorView, Result<processed::RclcppSubscriptionCallbackAdded, Failure>) {
    let kc = id_key(e.subscription, cid);
    if !p.subscribers_by_rclcpp.contains_key(kc) {
        (p, Err(not_found(e.subscription, "rclcpp_handle", ObjectType::Subscriber, time)))
    } else {
        let s = p.subscribers_by_rclcpp[kc];
        let cb = p.objects.next_callback();
        let (p1, old) = register_callback(p, e.callback, CallbackCaller::Subscription(s), ctx.hostname, cid);
        if old matches Some(o) && has_live_caller(p1.objects, o) {
            (p1, Err(callback_exists(e.callback, old->Some_0, cb, time)))
        } else {
            let sv = p1.objects.subscribers[s.0 as int];
            if sv.callback is Known {
                (p1, Err(Failure::AlreadySet(Object::Subscriber(s), "Subscription was already initialized by rclcpp_subscription_init event")))
            } else {
                (
                    ProcessorView { objects: p1.objects.set_subscriber(s, SubscriberView { callback: Known::Known(cb), ..sv }), ..p1 },
                    Ok(processed::RclcppSubscriptionCallbackAdded { callback: cb }),
                )
            }
        }
    }
}

impl Processor {
    /// Initializes the subscriber of an `rmw_subscription_init` event, replacing a
    /// subscriber that was initialized with another handle or GID.
    pub fn process_rmw_subscription_init(
        &mut self,
        event: &raw::RmwSubscriptionInit,
        _time: Time,
        context_id: ContextId,
        _context: &Context,
    ) -> (r: processed::RmwSubscriptionInit)
        requires
            old(self)@.wf(),
            rmw_subscription_init_ok(old(self)@, *event, context_id),
        ensures
            final(self)@.wf(),
            old(self)@.objects.le(final(self)@.objects),
            (final(self)@, r) == rmw_subscription_init(old(self)@, *event, context_id),
    {
        let ghost o = self@;
        let key = Id::new(event.rmw_subscription_handle, context_id).key();
        let found = match self.subscribers_by_rmw.get(&key) {
            Some(p) => Some(*p),
            None => None,
        };
        let subscription = match found {
            None => {
                let mut fresh = Subscriber::default();
                let _ = fresh.rmw_init(event.rmw_subscription_handle, event.gid);
                let r = self.objects.add_subscriber(fresh);
                self.subscribers_by_rmw.insert(key, r);
                r
            },
            Some(existing) => {
                match self.objects.subscriber_mut(existing).rmw_init(event.rmw_subscription_handle, event.gid) {
                    Ok(()) => existing,
                    Err(_) => {
                        self.objects.subscriber_mut(existing).mark_removed();
                        let mut fresh = Subscriber::default();
                        let _ = fresh.rmw_init(event.rmw_subscription_handle, event.gid);
                        let r = self.objects.add_subscriber(fresh);
                        self.subscribers_by_rmw.insert(key, r);
                        r
                    },
                }
            },
        };
        proof {
            let f = self@;
            o.objects.lemma_ok_grows(f.objects);
            assert(f.objects.subscriber_ok(f.objects.subscribers[subscription.0 as int]));
            lemma_tables_grow(o, f.objects);
            assert forall|k: u128| #[trigger] f.subscribers_by_rmw.contains_key(k) implies f.objects.valid_subscriber(f.subscribers_by_rmw[k]) by {
                if k != key {
                    assert(o.subscribers_by_rmw.contains_key(k));
                }
            }
        }
        processed::RmwSubscriptionInit { subscription }
    }

    /// Initializes the subscriber of an `rcl_subscription_init` event and links it to
    /// its node.
    pub fn process_rcl_subscription_init(
        &mut self,
        event: &raw::RclSubscriptionInit,
        time: Time,
        context_id: ContextId,
        context: &Context,
    ) -> (r: Result<processed::RclSubscriptionInit, ProcessorError>)
        requires
            old(self)@.wf(),
            rcl_subscription_init_ok(old(self)@, *event, context_id),
        ensures
            final(self)@.wf(),
            old(self)@.objects.le(final(self)@.objects),
            (final(self)@, outcome(r)) == rcl_subscription_init(old(self)@, *event, time, context_id),
    {
        let ghost o = self@;
        let kr = Id::new(event.rmw_subscription_handle, context_id).key();
        let kn = Id::new(event.node_handle, context_id).key();
        let ks = Id::new(event.subscription_handle, context_id).key();
        let found = match self.subscribers_by_rmw.get(&kr) {
            Some(p) => Some(*p),
            None => None,
        };
        let candidate = match found {
            Some(p) => p,
            None => {
                let mut fresh = Subscriber::default();
                let _ = fresh.set_rmw_handle(event.rmw_subscription_handle);
                let r = self.objects.add_subscriber(fresh);
                self.subscribers_by_rmw.insert(kr, r);
                r
            },
        };
        let ghost p1 = self@;
        proof {
            o.objects.lemma_ok_grows(p1.objects);
            lemma_tables_grow(o, p1.objects);
            assert forall|k: u128| #[trigger] p1.subscribers_by_rmw.contains_key(k) implies p1.objects.valid_subscriber(p1.subscribers_by_rmw[k]) by {
                if k != kr {
                    assert(o.subscribers_by_rmw.contains_key(k));
                }
            }
            assert(p1 == rcl_subscription_lookup(o, *event, context_id));
        }
        let node = match self.nodes_by_rcl.get(&kn) {
            Some(n) => *n,
            None => {
                let e = NotFound::node(event.node_handle).dependent_object(Object::Subscriber(candidate));
                return Err(ProcessorError::Event(e.with_ros2_event(raw::Event::RclSubscriptionInit(event.clone()), time, context)));
            },
        };
        let subscription = match self.objects.subscriber_mut(candidate).rcl_init(
            event.subscription_handle,
            event.topic_name.clone(),
            event.queue_depth,
            node,
        ) {
            Ok(()) => candidate,
            Err(_) => {
                self.objects.subscriber_mut(candidate).mark_removed();
                let mut fresh = Subscriber::default();
                let _ = fresh.set_rmw_handle(event.rmw_subscription_handle);
                let _ = fresh.rcl_init(event.subscription_handle, event.topic_name.clone(), event.queue_depth, node);
                let r = self.objects.add_subscriber(fresh);
                self.subscribers_by_rmw.insert(kr, r);
                r
            },
        };
        match self.subscribers_by_rcl.insert(ks, subscription) {
            Some(old) => {
                self.objects.subscriber_mut(old).mark_removed();
            },
            None => {},
        }
        self.objects.node_mut(node).add_subscriber(subscription);
        proof {
            let f = self@;
            p1.objects.lemma_ok_grows(f.objects);
            assert(f.objects.node_ok(f.objects.nodes[node.0 as int]));
            assert(f.objects.subscriber_ok(f.objects.subscribers[subscription.0 as int]));
            lemma_tables_grow(p1, f.objects);
            assert forall|k: u128| #[trigger] f.subscribers_by_rmw.contains_key(k) implies f.objects.valid_subscriber(f.subscribers_by_rmw[k]) by {
                if k != kr {
                    assert(p1.subscribers_by_rmw.contains_key(k));
                }
            }
            assert forall|k: u128| #[trigger] f.subscribers_by_rcl.contains_key(k) implies f.objects.valid_subscriber(f.subscribers_by_rcl[k]) by {
                if k != ks {
                    assert(p1.subscribers_by_rcl.contains_key(k));
                }
            }
        }
        Ok(processed::RclSubscriptionInit { subscription })
    }

    /// Records the rclcpp handle of a subscriber.
    pub fn process_rclcpp_subscription_init(
        &mut self,
        event: &raw::RclcppSubscriptionInit,
        time: Time,
        context_id: ContextId,
        context: &Context,
    ) -> (r: Result<processed::RclcppSubscriptionInit, ProcessorError>)
        requires
            old(self)@.wf(),
            rclcpp_subscription_init_ok(old(self)@, *event, context_id),
        ensures
            final(self)@.wf(),
            old(self)@.objects.le(final(self)@.objects),
            (final(self)@, outcome(r)) == rclcpp_subscription_init(old(self)@, *event, time, context_id),
    {
        let ghost o = self@;
        let ks = Id::new(event.subscription_handle, context_id).key();
        let kc = Id::new(event.subscription, context_id).key();
        let subscription = match self.subscribers_by_rcl.get(&ks) {
            Some(s) => *s,
            None => {
                let e = NotFound::subscriber(event.subscription_handle, "rcl_handle");
                return Err(ProcessorError::Event(e.with_ros2_event(raw::Event::RclcppSubscriptionInit(event.clone()), time, context)));
            },
        };
        match self.objects.subscriber_mut(subscription).rclcpp_init(event.subscription) {
            Ok(()) => {},
            Err(e) => {
                return Err(ProcessorError::Cause(Causes::AlreadyInitialized(e, Object::Subscriber(subscription))));
            },
        }
        match self.subscribers_by_rclcpp.insert(kc, subscription) {
            Some(old) => {
                self.objects.subscriber_mut(old).mark_removed();
            },
            None => {},
        }
        proof {
            let f = self@;
            o.objects.lemma_ok_grows(f.objects);
            lemma_tables_grow(o, f.objects);
            assert forall|k: u128| #[trigger] f.subscribers_by_rclcpp.contains_key(k) implies f.objects.valid_subscriber(f.subscribers_by_rclcpp[k]) by {
                if k != kc {
                    assert(o.subscribers_by_rclcpp.contains_key(k));
                }
            }
        }
        Ok(processed::RclcppSubscriptionInit { subscription })
    }

    /// The callback that had an id before a new one took it, kept only when its
    /// caller is known and has not been removed.
    pub(super) fn filter_out_removed_callers(&self, old: CallbackRef) -> (r: Option<CallbackRef>)
        requires
            self@.wf(),
            self@.objects.valid_callback(old),
        ensures
            r == (if has_live_caller(self@.objects, old) { Some(old) } else { None }),
    {
        let removed = match self.objects.callback(old).get_caller() {
            Some(CallbackCaller::Subscription(s)) => self.objects.subscriber(*s).is_removed(),
            Some(CallbackCaller::Service(s)) => self.objects.service(*s).is_removed(),
            Some(CallbackCaller::Timer(t)) => self.objects.timer(*t).is_removed(),
            None => true,
        };
        if removed {
            None
        } else {
            Some(old)
        }
    }

    /// Registers a new callback by its id, returning it and the callback that had
    /// the id before.
    fn register_callback(&mut self, id: u64, caller: CallbackCaller, context: &Context, context_id: ContextId) -> (r: (CallbackRef, Option<CallbackRef>))
        requires
            old(self)@.wf(),
            old(self)@.objects.caller_ok(caller),
        ensures
            final(self)@.wf(),
            old(self)@.objects.le(final(self)@.objects),
            r.0 == old(self)@.objects.next_callback(),
            (final(self)@, r.1) == register_callback(old(self)@, id, caller, context@.hostname, context_id),
    {
        let ghost o = self@;
        let callback = Callback::new(id, caller, context.hostname().to_owned());
        let cb = self.objects.add_callback(callback);
        let old = self.callbacks_by_id.insert(Id::new(id, context_id).key(), cb);
        proof {
            let f = self@;
            o.objects.lemma_ok_grows(f.objects);
            assert(f.objects.callback_ok(f.objects.callbacks[cb.0 as int]));
            lemma_tables_grow(o, f.objects);
            assert forall|k: u128| #[trigger] f.callbacks_by_id.contains_key(k) implies f.objects.valid_callback(f.callbacks_by_id[k]) by {
                if k != id_key(id, context_id) {
                    assert(o.callbacks_by_id.contains_key(k));
                }
            }
        }
        (cb, old)
    }

    /// Registers the callback of a subscriber.
    pub fn process_rclcpp_subscription_callback_added(
        &mut self,
        event: &raw::RclcppSubscriptionCallbackAdded,
        time: Time,
        context_id: ContextId,
        context: &Context,
    ) -> (r: Result<processed::RclcppSubscriptionCallbackAdded, ProcessorError>)
        requires
            old(self)@.wf(),
            rclcpp_subscription_callback_added_ok(old(self)@, *event, context@, context_id),
        ensures
            final(self)@.wf(),
            old(self)@.objects.le(final(self)@.objects),
            (final(self)@, outcome(r)) == rclcpp_subscription_callback_added(old(self)@, *event, time, context@, context_id),
    {
        let ghost o = self@;
        let subscription = match self.subscribers_by_rclcpp.get(&Id::new(event.subscription, context_id).key()) {
            Some(s) => *s,
            None => {
                let e = NotFound::subscriber(event.subscription, "rclcpp_handle");
                return Err(ProcessorError::Event(e.with_ros2_event(raw::Event::RclcppSubscriptionCallbackAdded(event.clone()), time, context)));
            },
        };
        let (callback, old) = self.register_callback(event.callback, CallbackCaller::Subscription(subscription), context, context_id);
        let ghost p1 = self@;
        if let Some(old) = old {
            if let Some(old) = self.filter_out_removed_callers(old) {
                let e = AlreadyExists::with_id(event.callback, Object::Callback(callback), Object::Callback(old));
                return Err(ProcessorError::Event(e.with_ros2_event(raw::Event::RclcppSubscriptionCallbackAdded(event.clone()), time, context)));
            }
        }
        match self.objects.subscriber_mut(subscription).set_callback(callback) {
            Ok(()) => {},
            Err(_) => {
                return Err(ProcessorError::AlreadySet {
                    object: Object::Subscriber(subscription),
                    message: "Subscription was already initialized by rclcpp_subscription_init event",
                });
            },
        }
        proof {
            let f = self@;
            p1.objects.lemma_ok_grows(f.objects);
            assert(f.objects.subscriber_ok(f.objects.subscribers[subscription.0 as int]));
            lemma_tables_grow(p1, f.objects);
        }
        Ok(processed::RclcppSubscriptionCallbackAdded { callback })
    }
}

/// The published message that a message taken with `source_timestamp` by a subscriber
/// on `topic` matches: the one published with that timestamp on that topic, else one
/// published with that timestamp on an unknown topic. A zero timestamp matches nothing.
pub open spec fn matched_publication(p: ProcessorView, source_timestamp: i64, topic: Known<Seq<char>>) -> Option<PublicationMessageRef> {
    let on_topic = publication_key(source_timestamp, p.topic_code(topic));
    let on_unknown = publication_key(source_timestamp, 0);
    if source_timestamp == 0 {
        None
    } else if (topic matches Known::Known(t) && p.topics.contains(t)) && p.published_messages.contains_key(on_topic) {
        Some(p.published_messages[on_topic])
    } else if p.published_messages.contains_key(on_unknown) {
        Some(p.published_messages[on_unknown])
    } else {
        None
    }
}

/// A message taken by rmw for `subscriber` at `time`, matched with its publication
/// or else carrying only the sender timestamp.
pub open spec fn taken_message(ptr: u64, subscriber: crate::model::SubscriberRef, matched: Option<PublicationMessageRef>, source_timestamp: i64, time: Time) -> SubscriptionMessageView {
    SubscriptionMessageView {
        subscriber: Known::Known(subscriber),
        message: match matched {
            Some(m) => PartiallyKnown::Fully(m),
            None => PartiallyKnown::Partially(Time::from_nanos_spec(source_timestamp)),
        },
        rmw_receive_time: Known::Known(time),
        ..fresh_subscription_view(ptr)
    }
}

/// `rmw_take` can be processed: a taken message goes to a subscriber that has not
/// been removed.
pub open spec fn rmw_take_ok(p: ProcessorView, e: raw::RmwTake, cid: ContextId) -> bool {
    let ks = id_key(e.rmw_subscription_handle, cid);
    p.subscribers_by_rmw.contains_key(ks) && e.taken ==> !p.objects.subscribers[p.subscribers_by_rmw[ks].0 as int].removed
}

/// `rmw_take`: a new received message of the subscriber known by the RMW handle,
/// matched with its publication. When it was taken it is queued for the
/// subscriber's callback and becomes findable by its address. A missing subscriber
/// is an error.
pub open spec fn rmw_take(p: ProcessorView, e: raw::RmwTake, time: Time, cid: ContextId) -> (ProcessorView, Result<processed::RmwTake, Failure>) {
    let ks = id_key(e.rmw_subscription_handle, cid);
    if !p.subscribers_by_rmw.contains_key(ks) {
        (p, Err(not_found(e.rmw_subscription_handle, "rmw_handle", ObjectType::Subscriber, time)))
    } else {
        let s = p.subscribers_by_rmw[ks];
        let sv = p.objects.subscribers[s.0 as int];
        let matched = matched_publication(p, e.source_timestamp, sv.topic_name);
        let m = p.objects.next_subscription_message();
        let p1 = ProcessorView {
            objects: p.objects.push_subscription_message(taken_message(e.message, s, matched, e.source_timestamp, time)),
            ..p
        };
        (
            if e.taken {
                ProcessorView {
                    objects: p1.objects.set_subscriber(s, SubscriberView { taken_message: taken_after_push(sv.taken_message, m), ..sv }),
                    received_messages: p1.received_messages.insert(id_key(e.message, cid), m),
                    ..p1
                }
            } else {
                p1
            },
            Ok(processed::RmwTake { message: m, taken: e.taken }),
        )
    }
}

/// `rcl_take`: the message received under the address gets its rcl receive time;
/// when there is none, or it has that time already, a new message does and replaces
/// it under the address.
pub open spec fn rcl_take(p: ProcessorView, e: raw::RclTake, time: Time, cid: ContextId) -> (ProcessorView, processed::RclTake) {
    let k = id_key(e.message, cid);
    if p.received_messages.contains_key(k)
        && p.objects.subscription_messages[p.received_messages[k].0 as int].rcl_receive_time is Unknown {
        let m = p.received_messages[k];
        let mv = p.objects.subscription_messages[m.0 as int];
        (
            ProcessorView { objects: p.objects.set_subscription_message(m, SubscriptionMessageView { rcl_receive_time: Known::Known(time), ..mv }), ..p },
            processed::RclTake { message: m, is_new: false },
        )
    } else {
        let m = p.objects.next_subscription_message();
        (
            ProcessorView {
                objects: p.objects.push_subscription_message(SubscriptionMessageView { rcl_receive_time: Known::Known(time), ..fresh_subscription_view(e.message) }),
                received_messages: p.received_messages.insert(k, m),
                ..p
            },
            processed::RclTake { message: m, is_new: true },
        )
    }
}

/// `rclcpp_take`: the message received under the address gets its rclcpp receive
/// time; when there is none, or it has that time already, a new message does and
/// replaces it under the address.
pub open spec fn rclcpp_take(p: ProcessorView, e: raw::RclcppTake, time: Time, cid: ContextId) -> (ProcessorView, processed::RclCppTake) {
    let k = id_key(e.message, cid);
    if p.received_messages.contains_key(k)
        && p.objects.subscription_messages[p.received_messages[k].0 as int].rclcpp_receive_time is Unknown {
        let m = p.received_messages[k];
        let mv = p.objects.subscription_messages[m.0 as int];
        (
            ProcessorView { objects: p.objects.set_subscription_message(m, SubscriptionMessageView { rclcpp_receive_time: Known::Known(time), ..mv }), ..p },
            processed::RclCppTake { message: m, is_new: false },
        )
    } else {
        let m = p.objects.next_subscription_message();
        (
            ProcessorView {
                objects: p.objects.push_subscription_message(SubscriptionMessageView { rclcpp_receive_time: Known::Known(time), ..fresh_subscription_view(e.message) }),
                received_messages: p.received_messages.insert(k, m),
                ..p
            },
            processed::RclCppTake { message: m, is_new: true },
        )
    }
}

impl Processor {
    /// The published message that a message taken with `source_timestamp` by a
    /// subscriber on `topic` matches.
    fn find_publication(&self, source_timestamp: i64, topic: Known<&str>) -> (r: Option<PublicationMessageRef>)
        requires
            self@.wf(),
        ensures
            r == matched_publication(self@, source_timestamp, known_view(topic)),
    {
        if source_timestamp == 0 {
            return None;
        }
        let on_topic = match topic {
            Known::Known(t) => match self.topics.find(t) {
                Some(i) => match self.published_messages.get(&publication_key_of(source_timestamp, (i as u64) + 1)) {
                    Some(m) => Some(*m),
                    None => None,
                },
                None => None,
            },
            Known::Unknown => None,
        };
        match on_topic {
            Some(m) => Some(m),
            None => match self.published_messages.get(&publication_key_of(source_timestamp, 0)) {
                Some(m) => Some(*m),
                None => None,
            },
        }
    }

    /// Records a message received by rmw and matches it with its publication.
    pub fn process_rmw_take(
        &mut self,
        event: &raw::RmwTake,
        time: Time,
        context_id: ContextId,
        context: &Context,
    ) -> (r: Result<processed::RmwTake, ProcessorError>)
        requires
            old(self)@.wf(),
            rmw_take_ok(old(self)@, *event, context_id),
        ensures
            final(self)@.wf(),
            old(self)@.objects.le(final(self)@.objects),
            (final(self)@, outcome(r)) == rmw_take(old(self)@, *event, time, context_id),
    {
        let ghost o = self@;
        let subscriber = match self.subscribers_by_rmw.get(&Id::new(event.rmw_subscription_handle, context_id).key()) {
            Some(s) => *s,
            None => {
                let e = NotFound::subscriber(event.rmw_subscription_handle, "rmw_handle");
                return Err(ProcessorError::Event(e.with_ros2_event(raw::Event::RmwTake(event.clone()), time, context)));
            },
        };
        let matched = self.find_publication(event.source_timestamp, self.objects.subscriber(subscriber).get_topic());
        let mut message = SubscriptionMessage::new(event.message);
        match matched {
            Some(published) => message.rmw_take_matched(subscriber, published, time),
            None => message.rmw_take_unmatched(subscriber, event.source_timestamp, time),
        }
        let m = self.objects.add_subscription_message(message);
        let ghost p1 = self@;
        proof {
            o.objects.lemma_ok_grows(p1.objects);
            assert(p1.objects.subscription_message_ok(p1.objects.subscription_messages[m.0 as int]));
        }
        if event.taken {
            let _ = self.objects.subscriber_mut(subscriber).replace_taken_message(m);
            self.received_messages.insert(Id::new(event.message, context_id).key(), m);
        }
        proof {
            let f = self@;
            p1.objects.lemma_ok_grows(f.objects);
            let sv = f.objects.subscribers[subscriber.0 as int];
            assert forall|i: int| 0 <= i < sv.taken_message.len() implies f.objects.valid_subscription_message(#[trigger] sv.taken_message[i]) by {
                let q = p1.objects.subscribers[subscriber.0 as int].taken_message;
                assert(p1.objects.subscriber_ok(p1.objects.subscribers[subscriber.0 as int]));
                if event.taken && i < sv.taken_message.len() - 1 {
                    if q.len() >= crate::model::TAKEN_MESSAGES_MAX {
                        assert(sv.taken_message[i] == q[i + 1]);
                    } else {
                        assert(sv.taken_message[i] == q[i]);
                    }
                }
            }
            assert(f.objects.subscriber_ok(sv));
            lemma_tables_grow(o, f.objects);
            assert forall|k: u128| #[trigger] f.received_messages.contains_key(k)
                implies f.objects.valid_subscription_message(f.received_messages[k]) by {
                if f.received_messages[k] != m {
                    assert(o.received_messages.contains_key(k));
                }
            }
        }
        Ok(processed::RmwTake { message: m, taken: event.taken })
    }

    /// Records the rcl take of a received message.
    pub fn process_rcl_take(
        &mut self,
        event: &raw::RclTake,
        time: Time,
        context_id: ContextId,
        _context: &Context,
    ) -> (r: processed::RclTake)
        requires
            old(self)@.wf(),
        ensures
            final(self)@.wf(),
            old(self)@.objects.le(final(self)@.objects),
            (final(self)@, r) == rcl_take(old(self)@, *event, time, context_id),
    {
        let ghost o = self@;
        let key = Id::new(event.message, context_id).key();
        let found = match self.received_messages.get(&key) {
            Some(m) => Some(*m),
            None => None,
        };
        proof {
            if found is Some {
                assert(o.received_messages.contains_key(key));
            }
        }
        let existing = match found {
            Some(m) => match self.objects.subscription_message_mut(m).rcl_take(time) {
                Ok(()) => Some(m),
                Err(_) => None,
            },
            None => None,
        };
        let r = match existing {
            Some(m) => processed::RclTake { message: m, is_new: false },
            None => {
                let mut message = SubscriptionMessage::new(event.message);
                let _ = message.rcl_take(time);
                let m = self.objects.add_subscription_message(message);
                self.received_messages.insert(key, m);
                processed::RclTake { message: m, is_new: true }
            },
        };
        proof {
            let f = self@;
            o.objects.lemma_ok_grows(f.objects);
            assert(f.objects.subscription_message_ok(f.objects.subscription_messages[r.message.0 as int]));
            lemma_tables_grow(o, f.objects);
            assert forall|k: u128| #[trigger] f.received_messages.contains_key(k)
                implies f.objects.valid_subscription_message(f.received_messages[k]) by {
                if k != key {
                    assert(o.received_messages.contains_key(k));
                }
            }
        }
        r
    }

    /// Records the rclcpp take of a received message.
    pub fn process_rclcpp_take(
        &mut self,
        event: &raw::RclcppTake,
        time: Time,
        context_id: ContextId,
        _context: &Context,
    ) -> (r: processed::RclCppTake)
        requires
            old(self)@.wf(),
        ensures
            final(self)@.wf(),
            old(self)@.objects.le(final(self)@.objects),
            (final(self)@, r) == rclcpp_take(old(self)@, *event, time, context_id),
    {
        let ghost o = self@;
        let key = Id::new(event.message, context_id).key();
        let found = match self.received_messages.get(&key) {
            Some(m) => Some(*m),
            None => None,
        };
        proof {
            if found is Some {
                assert(o.received_messages.contains_key(key));
            }
        }
        let existing = match found {
            Some(m) => match self.objects.subscription_message_mut(m).rclcpp_take(time) {
                Ok(()) => Some(m),
                Err(_) => None,
            },
            None => None,
        };
        let r = match existing {
            Some(m) => processed::RclCppTake { message: m, is_new: false },
            None => {
                let mut message = SubscriptionMessage::new(event.message);
                let _ = message.rclcpp_take(time);
                let m = self.objects.add_subscription_message(message);
                self.received_messages.insert(key, m);
                processed::RclCppTake { message: m, is_new: true }
            },
        };
        proof {
            let f = self@;
            o.objects.lemma_ok_grows(f.objects);
            assert(f.objects.subscription_message_ok(f.objects.subscription_messages[r.message.0 as int]));
            lemma_tables_grow(o, f.objects);
            assert forall|k: u128| #[trigger] f.received_messages.contains_key(k)
                implies f.objects.valid_subscription_message(f.received_messages[k]) by {
                if k != key {
                    assert(o.received_messages.contains_key(k));
                }
            }
        }
        r
    }
}

/// A service after `rcl_init`: its RMW handle, name and node are known.
pub open spec fn service_after_rcl_init(s: ServiceView, e: raw::RclServiceInit, node: NodeRef) -> ServiceView {
    ServiceView { rmw_handle: Known::Known(e.rmw_service_handle), name: Known::Known(e.service_name@), node: Known::Known(node), ..s }
}

/// Whether `rcl_init` accepts a service: it has no name and no node yet, and its RMW
/// handle is unknown or the same.
pub open spec fn service_accepts_rcl_init(s: ServiceView, rmw_handle: u64) -> bool {
    s.name is Unknown && s.node is Unknown && unknown_or_eq(s.rmw_handle, rmw_handle)
}

/// The state after the service known by the RCL handle is looked up, a new one being
/// created when missing, and that service.
pub open spec fn service_lookup(p: ProcessorView, service_handle: u64, cid: ContextId) -> (ProcessorView, crate::model::ServiceRef) {
    let k = id_key(service_handle, cid);
    if p.services_by_rcl.contains_key(k) {
        (p, p.services_by_rcl[k])
    } else {
        let r = p.objects.next_service();
        (
            ProcessorView { objects: p.objects.push_service(fresh_service_view(service_handle)), services_by_rcl: p.services_by_rcl.insert(k, r), ..p },
            r,
        )
    }
}

/// `rcl_service_init` can be processed: a service already known by the handle has
/// not been removed when the node is known.
pub open spec fn rcl_service_init_ok(p: ProcessorView, e: raw::RclServiceInit, cid: ContextId) -> bool {
    let k = id_key(e.service_handle, cid);
    p.services_by_rcl.contains_key(k) && p.nodes_by_rcl.contains_key(id_key(e.node_handle, cid))
        ==> !p.objects.services[p.services_by_rcl[k].0 as int].removed
}

/// `rcl_service_init`: the service known by the RCL handle (a new one when missing)
/// records the event's data, or, when it was initialized already, is marked removed
/// and replaced by a new service; the node lists it. A missing node is an error.
pub open spec fn rcl_service_init(p: ProcessorView, e: raw::RclServiceInit, cid: ContextId) -> (ProcessorView, Result<processed::RclServiceInit, Failure>) {
    let ks = id_key(e.service_handle, cid);
    let kn = id_key(e.node_handle, cid);
    let (p1, candidate) = service_lookup(p, e.service_handle, cid);
    if !p1.nodes_by_rcl.contains_key(kn) {
        (
            p1,
            Err(Failure::Cause(Causes::ObjectMissingDependency(ObjectMissingDependency::spec_new(
                Object::Service(candidate),
                NotFound::spec_new(e.node_handle, "rcl_handle", ObjectType::Node),
            )))),
        )
    } else {
        let node = p1.nodes_by_rcl[kn];
        let cv = p1.objects.services[candidate.0 as int];
        let accepted = service_accepts_rcl_init(cv, e.rmw_service_handle);
        let service = if accepted { candidate } else { p1.objects.next_service() };
        let p2 = if accepted {
            ProcessorView { objects: p1.objects.set_service(candidate, service_after_rcl_init(cv, e, node)), ..p1 }
        } else {
            ProcessorView {
                objects: p1.objects.set_service(candidate, ServiceView { removed: true, ..cv })
                    .push_service(service_after_rcl_init(fresh_service_view(e.service_handle), e, node)),
                services_by_rcl: p1.services_by_rcl.insert(ks, service),
                ..p1
            }
        };
        let nv = p2.objects.nodes[node.0 as int];
        (
            ProcessorView { objects: p2.objects.set_node(node, NodeView { services: nv.services.push(service), ..nv }), ..p2 },
            Ok(processed::RclServiceInit { service }),
        )
    }
}

/// `rclcpp_service_callback_added` can be processed: the service gets the callback
/// only when it has not been removed.
pub open spec fn rclcpp_service_callback_added_ok(p: ProcessorView, e: raw::RclcppServiceCallbackAdded, ctx: ContextView, cid: ContextId) -> bool {
    let (p1, s) = service_lookup(p, e.service_handle, cid);
    let (p2, old) = register_callback(p1, e.callback, CallbackCaller::Service(s), ctx.hostname, cid);
    !(old matches Some(o) && has_live_caller(p2.objects, o)) ==> !p2.objects.services[s.0 as int].removed
}

/// `rclcpp_service_callback_added`: a new callback of the service known by the RCL
/// handle (a new service when missing) is registered by its id. An error follows when
/// the id belonged to a callback of a live caller, or when the service has a
/// callback already; otherwise the service gets the callback.
pub open spec fn rclcpp_service_callback_added(p: ProcessorView, e: raw::RclcppServiceCallbackAdded, time: Time, ctx: ContextView, cid: ContextId) -> (ProcessorView, Result<processed::RclCppServiceCallbackAdded, Failure>) {
    let (p1, s) = service_lookup(p, e.service_handle, cid);
    let cb = p1.objects.next_callback();
    let (p2, old) = register_callback(p1, e.callback, CallbackCaller::Service(s), ctx.hostname, cid);
    if old matches Some(o) && has_live_caller(p2.objects, o) {
        (p2, Err(callback_exists(e.callback, old->Some_0, cb, time)))
    } else {
        let sv = p2.objects.services[s.0 as int];
        if sv.callback is Known {
            (p2, Err(Failure::AlreadySet(Object::Service(s), "Service was already initialized by rclcpp_service_init event")))
        } else {
            (
                ProcessorView { objects: p2.objects.set_service(s, ServiceView { callback: Known::Known(cb), ..sv }), ..p2 },
                Ok(processed::RclCppServiceCallbackAdded { callback: cb }),
            )
        }
    }
}

/// A client after `rcl_init`: its RMW handle, service name and node are known.
pub open spec fn client_after_rcl_init(c: ClientView, e: raw::RclClientInit, node: NodeRef) -> ClientView {
    ClientView { rmw_handle: Known::Known(e.rmw_client_handle), service_name: Known::Known(e.service_name@), node: Known::Known(node), ..c }
}

/// Whether `rcl_init` accepts a client: none of its data is known yet.
pub open spec fn client_accepts_rcl_init(c: ClientView) -> bool {
    c.rmw_handle is Unknown && c.node is Unknown && c.service_name is Unknown
}

/// `rcl_client_init` can be processed: a client already known by the handle has not
/// been removed when the node is known.
pub open spec fn rcl_client_init_ok(p: ProcessorView, e: raw::RclClientInit, cid: ContextId) -> bool {
    let k = id_key(e.client_handle, cid);
    p.clients_by_rcl.contains_key(k) && p.nodes_by_rcl.contains_key(id_key(e.node_handle, cid))
        ==> !p.objects.clients[p.clients_by_rcl[k].0 as int].removed
}

/// `rcl_client_init`: the client known by the RCL handle (a new one when missing)
/// records the event's data, or, when it was initialized already, is marked removed
/// and replaced by a new client; the node lists it. A missing node is an error.
pub open spec fn rcl_client_init(p: ProcessorView, e: raw::RclClientInit, time: Time, cid: ContextId) -> (ProcessorView, Result<processed::RclClientInit, Failure>) {
    let kc = id_key(e.client_handle, cid);
    let kn = id_key(e.node_handle, cid);
    let p1 = if p.clients_by_rcl.contains_key(kc) {
        p
    } else {
        ProcessorView {
            objects: p.objects.push_client(fresh_client_view(e.client_handle)),
            clients_by_rcl: p.clients_by_rcl.insert(kc, p.objects.next_client()),
            ..p
        }
    };
    let candidate = p1.clients_by_rcl[kc];
    if !p1.nodes_by_rcl.contains_key(kn) {
        (
            p1,
            Err(Failure::Event(
                Causes::ObjectMissingDependency(ObjectMissingDependency::spec_new(
                    Object::Client(candidate),
                    NotFound::spec_new(e.node_handle, "rcl_handle", ObjectType::Node),
                )),
                time,
            )),
        )
    } else {
        let node = p1.nodes_by_rcl[kn];
        let cv = p1.objects.clients[candidate.0 as int];
        let accepted = client_accepts_rcl_init(cv);
        let client = if accepted { candidate } else { p1.objects.next_client() };
        let p2 = if accepted {
            ProcessorView { objects: p1.objects.set_client(candidate, client_after_rcl_init(cv, e, node)), ..p1 }
        } else {
            ProcessorView {
                objects: p1.objects.set_client(candidate, ClientView { removed: true, ..cv })
                    .push_client(client_after_rcl_init(fresh_client_view(e.client_handle), e, node)),
                clients_by_rcl: p1.clients_by_rcl.insert(kc, client),
                ..p1
            }
        };
        let nv = p2.objects.nodes[node.0 as int];
        (
            ProcessorView { objects: p2.objects.set_node(node, NodeView { clients: nv.clients.push(client), ..nv }), ..p2 },
            Ok(processed::RclClientInit { client }),
        )
    }
}

/// `rcl_timer_init` can be processed: a timer already known by the handle has not been
/// removed.
pub open spec fn rcl_timer_init_ok(p: ProcessorView, e: raw::RclTimerInit, cid: ContextId) -> bool {
    let k = id_key(e.timer_handle, cid);
    p.timers_by_rcl.contains_key(k) ==> !p.objects.timers[p.timers_by_rcl[k].0 as int].removed
}

/// `rcl_timer_init`: the timer known by the RCL handle (a new one when missing)
/// records its period, or, when it has one already, is marked removed and replaced
/// by a new timer.
pub open spec fn rcl_timer_init(p: ProcessorView, e: raw::RclTimerInit, cid: ContextId) -> (ProcessorView, processed::RclTimerInit) {
    let k = id_key(e.timer_handle, cid);
    let initialized = TimerView { period: Known::Known(e.period), ..fresh_timer_view(e.timer_handle) };
    let r = p.objects.next_timer();
    if !p.timers_by_rcl.contains_key(k) {
        (
            ProcessorView { objects: p.objects.push_timer(initialized), timers_by_rcl: p.timers_by_rcl.insert(k, r), ..p },
            processed::RclTimerInit { timer: r },
        )
    } else {
        let t = p.timers_by_rcl[k];
        let tv = p.objects.timers[t.0 as int];
        if tv.period is Unknown {
            (
                ProcessorView { objects: p.objects.set_timer(t, TimerView { period: Known::Known(e.period), ..tv }), ..p },
                processed::RclTimerInit { timer: t },
            )
        } else {
            (
                ProcessorView {
                    objects: p.objects.set_timer(t, TimerView { removed: true, ..tv }).push_timer(initialized),
                    timers_by_rcl: p.timers_by_rcl.insert(k, r),
                    ..p
                },
                processed::RclTimerInit { timer: r },
            )
        }
    }
}

/// `rclcpp_timer_callback_added` can be processed: the timer gets the callback only
/// when it has not been removed.
pub open spec fn rclcpp_timer_callback_added_ok(p: ProcessorView, e: raw::RclcppTimerCallbackAdded, ctx: ContextView, cid: ContextId) -> bool {
    let kt = id_key(e.timer_handle, cid);
    p.timers_by_rcl.contains_key(kt) ==> {
        let t = p.timers_by_rcl[kt];
        let (p1, old) = register_callback(p, e.callback, CallbackCaller::Timer(t), ctx.hostname, cid);
        !(old matches Some(o) && has_live_caller(p1.objects, o)) ==> !p1.objects.timers[t.0 as int].removed
    }
}

/// `rclcpp_timer_callback_added`: a new callback of the timer known by the RCL handle
/// is registered by its id. An error follows when the timer is missing, when the id
/// belonged to a callback of a live caller, or when the timer has a callback
/// already; otherwise the timer gets the callback.
pub open spec fn rclcpp_timer_callback_added(p: ProcessorView, e: raw::RclcppTimerCallbackAdded, time: Time, ctx: ContextView, cid: ContextId) -> (ProcessorView, Result<processed::RclcppTimerCallbackAdded, Failure>) {
    let kt = id_key(e.timer_handle, cid);
    if !p.timers_by_rcl.contains_key(kt) {
        (p, Err(not_found(e.timer_handle, "rcl_handle", ObjectType::Timer, time)))
    } else {
        let t = p.timers_by_rcl[kt];
        let cb = p.objects.next_callback();
        let (p1, old) = register_callback(p, e.callback, CallbackCaller::Timer(t), ctx.hostname, cid);
        if old matches Some(o) && has_live_caller(p1.objects, o) {
            (p1, Err(callback_exists(e.callback, old->Some_0, cb, time)))
        } else {
            let tv = p1.objects.timers[t.0 as int];
            if tv.callback is Known {
                (p1, Err(Failure::AlreadySet(Object::Timer(t), "Timer already has a callback")))
            } else {
                (
                    ProcessorView { objects: p1.objects.set_timer(t, TimerView { callback: Known::Known(cb), ..tv }), ..p1 },
                    Ok(processed::RclcppTimerCallbackAdded { callback: cb }),
                )
            }
        }
    }
}

/// `rclcpp_timer_link_node` can be processed: the timer has not been removed.
pub open spec fn rclcpp_timer_link_node_ok(p: ProcessorView, e: raw::RclcppTimerLinkNode, cid: ContextId) -> bool {
    let kt = id_key(e.timer_handle, cid);
    p.timers_by_rcl.contains_key(kt) && p.nodes_by_rcl.contains_key(id_key(e.node_handle, cid))
        ==> !p.objects.timers[p.timers_by_rcl[kt].0 as int].removed
}

/// `rclcpp_timer_link_node`: the timer known by the RCL handle gets the node known by
/// its handle, and the node lists it. A missing timer or node, or a timer linked
/// already, is an error.
pub open spec fn rclcpp_timer_link_node(p: ProcessorView, e: raw::RclcppTimerLinkNode, time: Time, cid: ContextId) -> (ProcessorView, Result<processed::RclcppTimerLinkNode, Failure>) {
    let kt = id_key(e.timer_handle, cid);
    let kn = id_key(e.node_handle, cid);
    if !p.timers_by_rcl.contains_key(kt) {
        (p, Err(not_found(e.timer_handle, "rcl_handle", ObjectType::Timer, time)))
    } else if !p.nodes_by_rcl.contains_key(kn) {
        (
            p,
            Err(Failure::Event(
                Causes::ObjectMissingDependency(ObjectMissingDependency::spec_new(
                    Object::Timer(p.timers_by_rcl[kt]),
                    NotFound::spec_new(e.node_handle, "rcl_handle", ObjectType::Node),
                )),
                time,
            )),
        )
    } else {
        let t = p.timers_by_rcl[kt];
        let n = p.nodes_by_rcl[kn];
        let tv = p.objects.timers[t.0 as int];
        if tv.node is Known {
            (p, Err(Failure::AlreadySet(Object::Timer(t), "Timer already linked to a node")))
        } else {
            let nv = p.objects.nodes[n.0 as int];
            (
                ProcessorView {
                    objects: p.objects.set_timer(t, TimerView { node: Known::Known(n), ..tv })
                        .set_node(n, NodeView { timers: nv.timers.push(t), ..nv }),
                    ..p
                },
                Ok(processed::RclcppTimerLinkNode { timer: t }),
            )
        }
    }
}

/// `rclcpp_callback_register` can be processed: the callback has not been removed.
pub open spec fn rclcpp_callback_register_ok(p: ProcessorView, e: raw::RclcppCallbackRegister, cid: ContextId) -> bool {
    let k = id_key(e.callback, cid);
    p.callbacks_by_id.contains_key(k) ==> !p.objects.callbacks[p.callbacks_by_id[k].0 as int].is_removed
}

/// `rclcpp_callback_register`: the callback known by its id gets its symbol name. A
/// missing callback, or one named already, is an error.
pub open spec fn rclcpp_callback_register(p: ProcessorView, e: raw::RclcppCallbackRegister, time: Time, cid: ContextId) -> (ProcessorView, Result<processed::RclcppCallbackRegister, Failure>) {
    let k = id_key(e.callback, cid);
    if !p.callbacks_by_id.contains_key(k) {
        (p, Err(not_found(e.callback, "id", ObjectType::Callback, time)))
    } else {
        let cb = p.callbacks_by_id[k];
        let cv = p.objects.callbacks[cb.0 as int];
        if cv.name is Known {
            (p, Err(Failure::AlreadySet(Object::Callback(cb), "Callback already registered with a name")))
        } else {
            (
                ProcessorView { objects: p.objects.set_callback(cb, CallbackView { name: Known::Known(e.symbol@), ..cv }), ..p },
                Ok(processed::RclcppCallbackRegister { callback: cb }),
            )
        }
    }
}

/// `callback_start` can be processed: the callback can start (see [`can_start`]).
pub open spec fn callback_start_ok(p: ProcessorView, e: raw::CallbackStart, cid: ContextId) -> bool {
    let k = id_key(e.callback, cid);
    p.callbacks_by_id.contains_key(k) ==> can_start(p.objects, p.callbacks_by_id[k])
}

/// `callback_start`: an execution of the callback known by its id starts (see
/// [`callback_start`](crate::model::callback_start)). A missing callback is an error.
pub open spec fn process_callback_start_spec(p: ProcessorView, e: raw::CallbackStart, time: Time, cid: ContextId) -> (ProcessorView, Result<processed::CallbackStart, Failure>) {
    let k = id_key(e.callback, cid);
    if !p.callbacks_by_id.contains_key(k) {
        (p, Err(not_found(e.callback, "id", ObjectType::Callback, time)))
    } else {
        let (objects, instance) = callback_start(p.objects, p.callbacks_by_id[k], time);
        (
            ProcessorView { objects, ..p },
            Ok(processed::CallbackStart { callback: instance, is_intra_process: e.is_intra_process }),
        )
    }
}

/// `callback_end` can be processed: the callback runs an execution that has not ended.
pub open spec fn callback_end_ok(p: ProcessorView, e: raw::CallbackEnd, cid: ContextId) -> bool {
    let k = id_key(e.callback, cid);
    p.callbacks_by_id.contains_key(k) ==> {
        let cv = p.objects.callbacks[p.callbacks_by_id[k].0 as int];
        &&& cv.running_instance is Some
        &&& p.objects.callback_instances[cv.running_instance->Some_0.0 as int].end_time is Unknown
    }
}

/// `callback_end`: the running execution of the callback known by its id ends at
/// `time` and the callback no longer runs. A missing callback is an error.
pub open spec fn process_callback_end_spec(p: ProcessorView, e: raw::CallbackEnd, time: Time, cid: ContextId) -> (ProcessorView, Result<processed::CallbackEnd, Failure>) {
    let k = id_key(e.callback, cid);
    if !p.callbacks_by_id.contains_key(k) {
        (p, Err(not_found(e.callback, "id", ObjectType::Callback, time)))
    } else {
        let cb = p.callbacks_by_id[k];
        let cv = p.objects.callbacks[cb.0 as int];
        let i = cv.running_instance->Some_0;
        let iv = p.objects.callback_instances[i.0 as int];
        (
            ProcessorView {
                objects: p.objects.set_callback(cb, CallbackView { running_instance: None, ..cv })
                    .set_callback_instance(i, CallbackInstanceView { end_time: Known::Known(time), ..iv }),
                ..p
            },
            Ok(processed::CallbackEnd { callback: i }),
        )
    }
}

impl Processor {
    /// The service known by the RCL handle, created when missing.
    fn lookup_service(&mut self, service_handle: u64, context_id: ContextId) -> (r: crate::model::ServiceRef)
        requires
            old(self)@.wf(),
        ensures
            final(self)@.wf(),
            old(self)@.objects.le(final(self)@.objects),
            (final(self)@, r) == service_lookup(old(self)@, service_handle, context_id),
            !old(self)@.services_by_rcl.contains_key(id_key(service_handle, context_id))
                ==> r.0 == old(self)@.objects.services.len(),
    {
        let ghost o = self@;
        let key = Id::new(service_handle, context_id).key();
        let found = match self.services_by_rcl.get(&key) {
            Some(s) => Some(*s),
            None => None,
        };
        match found {
            Some(s) => s,
            None => {
                let r = self.objects.add_service(Service::new(service_handle));
                self.services_by_rcl.insert(key, r);
                proof {
                    let f = self@;
                    o.objects.lemma_ok_grows(f.objects);
                    lemma_tables_grow(o, f.objects);
                    assert forall|k: u128| #[trigger] f.services_by_rcl.contains_key(k) implies f.objects.valid_service(f.services_by_rcl[k]) by {
                        if k != key {
                            assert(o.services_by_rcl.contains_key(k));
                        }
                    }
                }
                r
            },
        }
    }

    /// Initializes the service of an `rcl_service_init` event and links it to its node.
    pub fn process_rcl_service_init(
        &mut self,
        event: &raw::RclServiceInit,
        _time: Time,
        context_id: ContextId,
        _context: &Context,
    ) -> (r: Result<processed::RclServiceInit, ProcessorError>)
        requires
            old(self)@.wf(),
            rcl_service_init_ok(old(self)@, *event, context_id),
        ensures
            final(self)@.wf(),
            old(self)@.objects.le(final(self)@.objects),
            (final(self)@, outcome(r)) == rcl_service_init(old(self)@, *event, context_id),
    {
        let ghost o = self@;
        let ks = Id::new(event.service_handle, context_id).key();
        let kn = Id::new(event.node_handle, context_id).key();
        let candidate = self.lookup_service(event.service_handle, context_id);
        let ghost p1 = self@;
        let node = match self.nodes_by_rcl.get(&kn) {
            Some(n) => *n,
            None => {
                let e = NotFound::node(event.node_handle).dependent_object(Object::Service(candidate));
                return Err(ProcessorError::Cause(Causes::ObjectMissingDependency(e)));
            },
        };
        proof {
            assert(o.nodes_by_rcl.contains_key(kn));
            if o.services_by_rcl.contains_key(ks) {
                assert(candidate == o.services_by_rcl[ks]);
                assert(!o.objects.services[candidate.0 as int].removed);
            } else {
                assert(p1.objects.services[candidate.0 as int] == fresh_service_view(event.service_handle));
            }
        }
        let service = match self.objects.service_mut(candidate).rcl_init(event.rmw_service_handle, event.service_name.clone(), node) {
            Ok(()) => candidate,
            Err(_) => {
                self.objects.service_mut(candidate).mark_removed();
                let mut fresh = Service::new(event.service_handle);
                let _ = fresh.rcl_init(event.rmw_service_handle, event.service_name.clone(), node);
                let r = self.objects.add_service(fresh);
                self.services_by_rcl.insert(ks, r);
                r
            },
        };
        self.objects.node_mut(node).add_service(service);
        proof {
            let f = self@;
            p1.objects.lemma_ok_grows(f.objects);
            assert(f.objects.node_ok(f.objects.nodes[node.0 as int]));
            assert(f.objects.service_ok(f.objects.services[service.0 as int]));
            lemma_tables_grow(p1, f.objects);
            assert forall|k: u128| #[trigger] f.services_by_rcl.contains_key(k) implies f.objects.valid_service(f.services_by_rcl[k]) by {
                if k != ks {
                    assert(p1.services_by_rcl.contains_key(k));
                }
            }
        }
        Ok(processed::RclServiceInit { service })
    }

    /// Registers the callback of a service.
    pub fn process_rclcpp_service_callback_added(
        &mut self,
        event: &raw::RclcppServiceCallbackAdded,
        time: Time,
        context_id: ContextId,
        context: &Context,
    ) -> (r: Result<processed::RclCppServiceCallbackAdded, ProcessorError>)
        requires
            old(self)@.wf(),
            rclcpp_service_callback_added_ok(old(self)@, *event, context@, context_id),
        ensures
            final(self)@.wf(),
            old(self)@.objects.le(final(self)@.objects),
            (final(self)@, outcome(r)) == rclcpp_service_callback_added(old(self)@, *event, time, context@, context_id),
    {
        let ghost o = self@;
        let service = self.lookup_service(event.service_handle, context_id);
        let (callback, old) = self.register_callback(event.callback, CallbackCaller::Service(service), context, context_id);
        let ghost p2 = self@;
        if let Some(old) = old {
            if let Some(old) = self.filter_out_removed_callers(old) {
                let e = AlreadyExists::with_id(event.callback, Object::Callback(callback), Object::Callback(old));
                return Err(ProcessorError::Event(e.with_ros2_event(raw::Event::RclcppServiceCallbackAdded(event.clone()), time, context)));
            }
        }
        match self.objects.service_mut(service).set_callback(callback) {
            Ok(()) => {},
            Err(_) => {
                return Err(ProcessorError::AlreadySet {
                    object: Object::Service(service),
                    message: "Service was already initialized by rclcpp_service_init event",
                });
            },
        }
        proof {
            let f = self@;
            p2.objects.lemma_ok_grows(f.objects);
            assert(f.objects.service_ok(f.objects.services[service.0 as int]));
            lemma_tables_grow(p2, f.objects);
        }
        Ok(processed::RclCppServiceCallbackAdded { callback })
    }

    /// Initializes the client of an `rcl_client_init` event and links it to its node.
    pub fn process_rcl_client_init(
        &mut self,
        event: &raw::RclClientInit,
        time: Time,
        context_id: ContextId,
        context: &Context,
    ) -> (r: Result<processed::RclClientInit, ProcessorError>)
        requires
            old(self)@.wf(),
            rcl_client_init_ok(old(self)@, *event, context_id),
        ensures
            final(self)@.wf(),
            old(self)@.objects.le(final(self)@.objects),
            (final(self)@, outcome(r)) == rcl_client_init(old(self)@, *event, time, context_id),
    {
        let ghost o = self@;
        let kc = Id::new(event.client_handle, context_id).key();
        let found = match self.clients_by_rcl.get(&kc) {
            Some(c) => Some(*c),
            None => None,
        };
        let candidate = match found {
            Some(c) => c,
            None => {
                let r = self.objects.add_client(Client::new(event.client_handle));
                self.clients_by_rcl.insert(kc, r);
                r
            },
        };
        let ghost p1 = self@;
        proof {
            o.objects.lemma_ok_grows(p1.objects);
            lemma_tables_grow(o, p1.objects);
            assert forall|k: u128| #[trigger] p1.clients_by_rcl.contains_key(k) implies p1.objects.valid_client(p1.clients_by_rcl[k]) by {
                if k != kc {
                    assert(o.clients_by_rcl.contains_key(k));
                }
            }
        }
        let node = match self.nodes_by_rcl.get(&Id::new(event.node_handle, context_id).key()) {
            Some(n) => *n,
            None => {
                let e = NotFound::node(event.node_handle).dependent_object(Object::Client(candidate));
                return Err(ProcessorError::Event(e.with_ros2_event(raw::Event::RclClientInit(event.clone()), time, context)));
            },
        };
        let client = match self.objects.client_mut(candidate).rcl_init(event.rmw_client_handle, event.service_name.clone(), node) {
            Ok(()) => candidate,
            Err(_) => {
                self.objects.client_mut(candidate).mark_removed();
                let mut fresh = Client::new(event.client_handle);
                let _ = fresh.rcl_init(event.rmw_client_handle, event.service_name.clone(), node);
                let r = self.objects.add_client(fresh);
                self.clients_by_rcl.insert(kc, r);
                r
            },
        };
        self.objects.node_mut(node).add_client(client);
        proof {
            let f = self@;
            p1.objects.lemma_ok_grows(f.objects);
            assert(f.objects.node_ok(f.objects.nodes[node.0 as int]));
            assert(f.objects.client_ok(f.objects.clients[client.0 as int]));
            lemma_tables_grow(p1, f.objects);
            assert forall|k: u128| #[trigger] f.clients_by_rcl.contains_key(k) implies f.objects.valid_client(f.clients_by_rcl[k]) by {
                if k != kc {
                    assert(p1.clients_by_rcl.contains_key(k));
                }
            }
        }
        Ok(processed::RclClientInit { client })
    }

    /// Initializes the timer of an `rcl_timer_init` event, replacing a timer that
    /// already has a period.
    pub fn process_rcl_timer_init(
        &mut self,
        event: &raw::RclTimerInit,
        _time: Time,
        context_id: ContextId,
        _context: &Context,
    ) -> (r: processed::RclTimerInit)
        requires
            old(self)@.wf(),
            rcl_timer_init_ok(old(self)@, *event, context_id),
        ensures
            final(self)@.wf(),
            old(self)@.objects.le(final(self)@.objects),
            (final(self)@, r) == rcl_timer_init(old(self)@, *event, context_id),
    {
        let ghost o = self@;
        let key = Id::new(event.timer_handle, context_id).key();
        let found = match self.timers_by_rcl.get(&key) {
            Some(t) => Some(*t),
            None => None,
        };
        let timer = match found {
            None => {
                let mut fresh = Timer::new(event.timer_handle);
                let _ = fresh.rcl_init(event.period);
                let r = self.objects.add_timer(fresh);
                self.timers_by_rcl.insert(key, r);
                r
            },
            Some(existing) => {
                match self.objects.timer_mut(existing).rcl_init(event.period) {
                    Ok(()) => existing,
                    Err(_) => {
                        self.objects.timer_mut(existing).mark_removed();
                        let mut fresh = Timer::new(event.timer_handle);
                        let _ = fresh.rcl_init(event.period);
                        let r = self.objects.add_timer(fresh);
                        self.timers_by_rcl.insert(key, r);
                        r
                    },
                }
            },
        };
        proof {
            let f = self@;
            o.objects.lemma_ok_grows(f.objects);
            assert(f.objects.timer_ok(f.objects.timers[timer.0 as int]));
            lemma_tables_grow(o, f.objects);
            assert forall|k: u128| #[trigger] f.timers_by_rcl.contains_key(k) implies f.objects.valid_timer(f.timers_by_rcl[k]) by {
                if k != key {
                    assert(o.timers_by_rcl.contains_key(k));
                }
            }
        }
        processed::RclTimerInit { timer }
    }

    /// Registers the callback of a timer.
    pub fn process_rclcpp_timer_callback_added(
        &mut self,
        event: &raw::RclcppTimerCallbackAdded,
        context_id: ContextId,
        context: &Context,
        time: Time,
    ) -> (r: Result<processed::RclcppTimerCallbackAdded, ProcessorError>)
        requires
            old(self)@.wf(),
            rclcpp_timer_callback_added_ok(old(self)@, *event, context@, context_id),
        ensures
            final(self)@.wf(),
            old(self)@.objects.le(final(self)@.objects),
            (final(self)@, outcome(r)) == rclcpp_timer_callback_added(old(self)@, *event, time, context@, context_id),
    {
        let ghost o = self@;
        let timer = match self.timers_by_rcl.get(&Id::new(event.timer_handle, context_id).key()) {
            Some(t) => *t,
            None => {
                let e = NotFound::timer(event.timer_handle);
                return Err(ProcessorError::Event(e.with_ros2_event(raw::Event::RclcppTimerCallbackAdded(event.clone()), time, context)));
            },
        };
        let (callback, old) = self.register_callback(event.callback, CallbackCaller::Timer(timer), context, context_id);
        let ghost p1 = self@;
        if let Some(old) = old {
            if let Some(old) = self.filter_out_removed_callers(old) {
                let e = AlreadyExists::with_id(event.callback, Object::Callback(callback), Object::Callback(old));
                return Err(ProcessorError::Event(e.with_ros2_event(raw::Event::RclcppTimerCallbackAdded(event.clone()), time, context)));
            }
        }
        match self.objects.timer_mut(timer).set_callback(callback) {
            Ok(()) => {},
            Err(_) => {
                return Err(ProcessorError::AlreadySet { object: Object::Timer(timer), message: "Timer already has a callback" });
            },
        }
        proof {
            let f = self@;
            p1.objects.lemma_ok_grows(f.objects);
            assert(f.objects.timer_ok(f.objects.timers[timer.0 as int]));
            lemma_tables_grow(p1, f.objects);
        }
        Ok(processed::RclcppTimerCallbackAdded { callback })
    }

    /// Links a timer to its node.
    pub fn process_rclcpp_timer_link_node(
        &mut self,
        event: &raw::RclcppTimerLinkNode,
        time: Time,
        context_id: ContextId,
        context: &Context,
    ) -> (r: Result<processed::RclcppTimerLinkNode, ProcessorError>)
        requires
            old(self)@.wf(),
            rclcpp_timer_link_node_ok(old(self)@, *event, context_id),
        ensures
            final(self)@.wf(),
            old(self)@.objects.le(final(self)@.objects),
            (final(self)@, outcome(r)) == rclcpp_timer_link_node(old(self)@, *event, time, context_id),
    {
        let ghost o = self@;
        let timer = match self.timers_by_rcl.get(&Id::new(event.timer_handle, context_id).key()) {
            Some(t) => *t,
            None => {
                let e = NotFound::timer(event.timer_handle);
                return Err(ProcessorError::Event(e.with_ros2_event(raw::Event::RclcppTimerLinkNode(event.clone()), time, context)));
            },
        };
        let node = match self.nodes_by_rcl.get(&Id::new(event.node_handle, context_id).key()) {
            Some(n) => *n,
            None => {
                let e = NotFound::node(event.node_handle).dependent_object(Object::Timer(timer));
                return Err(ProcessorError::Event(e.with_ros2_event(raw::Event::RclcppTimerLinkNode(event.clone()), time, context)));
            },
        };
        match self.objects.timer_mut(timer).link_node(node) {
            Ok(()) => {},
            Err(_) => {
                return Err(ProcessorError::AlreadySet { object: Object::Timer(timer), message: "Timer already linked to a node" });
            },
        }
        self.objects.node_mut(node).add_timer(timer);
        proof {
            let f = self@;
            o.objects.lemma_ok_grows(f.objects);
            assert(f.objects.timer_ok(f.objects.timers[timer.0 as int]));
            assert(f.objects.node_ok(f.objects.nodes[node.0 as int]));
            lemma_tables_grow(o, f.objects);
        }
        Ok(processed::RclcppTimerLinkNode { timer })
    }

    /// Records the symbol name of a callback.
    pub fn process_rclcpp_callback_register(
        &mut self,
        event: &raw::RclcppCallbackRegister,
        time: Time,
        context_id: ContextId,
        context: &Context,
    ) -> (r: Result<processed::RclcppCallbackRegister, ProcessorError>)
        requires
            old(self)@.wf(),
            rclcpp_callback_register_ok(old(self)@, *event, context_id),
        ensures
            final(self)@.wf(),
            old(self)@.objects.le(final(self)@.objects),
            (final(self)@, outcome(r)) == rclcpp_callback_register(old(self)@, *event, time, context_id),
    {
        let ghost o = self@;
        let callback = match self.callbacks_by_id.get(&Id::new(event.callback, context_id).key()) {
            Some(c) => *c,
            None => {
                let e = NotFound::callback(event.callback);
                return Err(ProcessorError::Event(e.with_ros2_event(raw::Event::RclcppCallbackRegister(event.clone()), time, context)));
            },
        };
        match self.objects.callback_mut(callback).set_name(event.symbol.clone()) {
            Ok(()) => {},
            Err(_) => {
                return Err(ProcessorError::AlreadySet {
                    object: Object::Callback(callback),
                    message: "Callback already registered with a name",
                });
            },
        }
        proof {
            let f = self@;
            o.objects.lemma_ok_grows(f.objects);
            assert(f.objects.callback_ok(f.objects.callbacks[callback.0 as int]));
            lemma_tables_grow(o, f.objects);
        }
        Ok(processed::RclcppCallbackRegister { callback })
    }

    /// Starts an execution of a callback.
    pub fn process_callback_start(
        &mut self,
        event: &raw::CallbackStart,
        time: Time,
        context_id: ContextId,
        context: &Context,
    ) -> (r: Result<processed::CallbackStart, ProcessorError>)
        requires
            old(self)@.wf(),
            callback_start_ok(old(self)@, *event, context_id),
        ensures
            final(self)@.wf(),
            old(self)@.objects.le(final(self)@.objects),
            (final(self)@, outcome(r)) == process_callback_start_spec(old(self)@, *event, time, context_id),
    {
        let ghost o = self@;
        let callback = match self.callbacks_by_id.get(&Id::new(event.callback, context_id).key()) {
            Some(c) => *c,
            None => {
                let e = NotFound::callback(event.callback);
                return Err(ProcessorError::Event(e.with_ros2_event(raw::Event::CallbackStart(event.clone()), time, context)));
            },
        };
        let instance = CallbackInstance::new(&mut self.objects, callback, time);
        proof {
            lemma_tables_grow(o, self@.objects);
        }
        Ok(processed::CallbackStart { callback: instance, is_intra_process: event.is_intra_process })
    }

    /// Ends the running execution of a callback.
    pub fn process_callback_end(
        &mut self,
        event: &raw::CallbackEnd,
        time: Time,
        context_id: ContextId,
        context: &Context,
    ) -> (r: Result<processed::CallbackEnd, ProcessorError>)
        requires
            old(self)@.wf(),
            callback_end_ok(old(self)@, *event, context_id),
        ensures
            final(self)@.wf(),
            old(self)@.objects.le(final(self)@.objects),
            (final(self)@, outcome(r)) == process_callback_end_spec(old(self)@, *event, time, context_id),
    {
        let ghost o = self@;
        let callback = match self.callbacks_by_id.get(&Id::new(event.callback, context_id).key()) {
            Some(c) => *c,
            None => {
                let e = NotFound::callback(event.callback);
                return Err(ProcessorError::Event(e.with_ros2_event(raw::Event::CallbackEnd(event.clone()), time, context)));
            },
        };
        let instance = self.objects.callback_mut(callback).take_running_instance().unwrap();
        proof {
            assert(o.objects.callback_ok(o.objects.callbacks[callback.0 as int]));
        }
        self.objects.callback_instance_mut(instance).end(time);
        proof {
            let f = self@;
            o.objects.lemma_ok_grows(f.objects);
            assert(f.objects.callback_ok(f.objects.callbacks[callback.0 as int]));
            assert(f.objects.callback_instance_ok(f.objects.callback_instances[instance.0 as int]));
            lemma_tables_grow(o, f.objects);
        }
        Ok(processed::CallbackEnd { callback: instance })
    }
}

} // verus!
