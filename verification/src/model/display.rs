//! The names and parameters of objects, read through references to them.
use vstd::prelude::*;

use super::{full_name_of, CallbackCaller, NodeRef, ObjectStore, ServiceRef, SubscriberRef, TimerRef};
use crate::text::{i64_text, int_text};
use crate::known::{reached, weak_known_view, Known, WeakKnown};

verus! {

/// A copy of a borrowed text, when it is known.
fn owned_text(k: Known<&str>) -> (r: Known<String>)
    ensures
        match (r, k) {
            (Known::Known(a), Known::Known(b)) => a@ == b@,
            (Known::Unknown, Known::Unknown) => true,
            _ => false,
        },
{
    match k {
        Known::Known(s) => Known::Known(s.to_owned()),
        Known::Unknown => Known::Unknown,
    }
}

/// The full name of the node that `node` refers to: `Droped` when no node of the
/// store has that reference.
pub fn get_node_name_from_weak(objects: &ObjectStore, node: NodeRef) -> (r: WeakKnown<String>)
    ensures
        weak_known_view(r) == (if objects@.valid_node(node) {
            match objects@.nodes[node.0 as int].full_name {
                Known::Known(n) => WeakKnown::Known(full_name_of(n)),
                Known::Unknown => WeakKnown::Unknown,
            }
        } else {
            WeakKnown::Droped
        }),
{
    if node.0 < objects.node_count() {
        let name = owned_text(objects.node(node).get_full_name());
        WeakKnown::from_known(name)
    } else {
        WeakKnown::Droped
    }
}

/// The topic of the subscriber that `subscriber` refers to: `Droped` when no
/// subscriber of the store has that reference.
pub fn get_subscriber_topic_from_weak(objects: &ObjectStore, subscriber: SubscriberRef) -> (r: WeakKnown<String>)
    ensures
        weak_known_view(r) == (if objects@.valid_subscriber(subscriber) {
            reached(objects@.subscribers[subscriber.0 as int].topic_name)
        } else {
            WeakKnown::Droped
        }),
{
    if subscriber.0 < objects.subscriber_count() {
        let topic = owned_text(objects.subscriber(subscriber).get_topic());
        WeakKnown::from_known(topic)
    } else {
        WeakKnown::Droped
    }
}

/// The name of the service that `service` refers to: `Droped` when no service of
/// the store has that reference.
pub fn get_service_name_from_weak(objects: &ObjectStore, service: ServiceRef) -> (r: WeakKnown<String>)
    ensures
        weak_known_view(r) == (if objects@.valid_service(service) {
            reached(objects@.services[service.0 as int].name)
        } else {
            WeakKnown::Droped
        }),
{
    if service.0 < objects.service_count() {
        let name = owned_text(objects.service(service).get_name());
        WeakKnown::from_known(name)
    } else {
        WeakKnown::Droped
    }
}

/// The period, in nanoseconds, of the timer that `timer` refers to: `Droped` when no
/// timer of the store has that reference.
pub fn get_timer_period_from_weak(objects: &ObjectStore, timer: TimerRef) -> (r: WeakKnown<i64>)
    ensures
        r == (if objects@.valid_timer(timer) {
            reached(objects@.timers[timer.0 as int].period)
        } else {
            WeakKnown::Droped
        }),
{
    if timer.0 < objects.timer_count() {
        WeakKnown::from_known(objects.timer(timer).get_period())
    } else {
        WeakKnown::Droped
    }
}

/// The main parameter of a caller as text: a subscription's topic, a service's name or
/// a timer's period in nanoseconds; `Droped` when the caller is not in the store.
pub open spec fn caller_text(store: super::ObjectStoreView, caller: CallbackCaller) -> WeakKnown<Seq<char>> {
    match caller {
        CallbackCaller::Subscription(s) => if store.valid_subscriber(s) {
            reached(store.subscribers[s.0 as int].topic_name)
        } else {
            WeakKnown::Droped
        },
        CallbackCaller::Service(s) => if store.valid_service(s) {
            reached(store.services[s.0 as int].name)
        } else {
            WeakKnown::Droped
        },
        CallbackCaller::Timer(t) => if store.valid_timer(t) {
            match store.timers[t.0 as int].period {
                Known::Known(p) => WeakKnown::Known(int_text(p as int)),
                Known::Unknown => WeakKnown::Unknown,
            }
        } else {
            WeakKnown::Droped
        },
    }
}

/// Whether a caller has been marked removed; `None` when it is not in the store.
pub open spec fn caller_removed(store: super::ObjectStoreView, caller: CallbackCaller) -> Option<bool> {
    match caller {
        CallbackCaller::Subscription(s) => if store.valid_subscriber(s) { Some(store.subscribers[s.0 as int].removed) } else { None },
        CallbackCaller::Service(s) => if store.valid_service(s) { Some(store.services[s.0 as int].removed) } else { None },
        CallbackCaller::Timer(t) => if store.valid_timer(t) { Some(store.timers[t.0 as int].removed) } else { None },
    }
}

impl CallbackCaller {
    /// The main parameter of the caller as text (see [`caller_text`]).
    pub fn get_caller_as_string(&self, objects: &ObjectStore) -> (r: WeakKnown<String>)
        ensures
            weak_known_view(r) == caller_text(objects@, *self),
    {
        match self {
            CallbackCaller::Subscription(s) => get_subscriber_topic_from_weak(objects, *s),
            CallbackCaller::Service(s) => get_service_name_from_weak(objects, *s),
            CallbackCaller::Timer(t) => match get_timer_period_from_weak(objects, *t) {
                WeakKnown::Known(p) => WeakKnown::Known(i64_text(p)),
                WeakKnown::Unknown => WeakKnown::Unknown,
                WeakKnown::Droped => WeakKnown::Droped,
            },
        }
    }

    /// Whether the caller has been marked removed (see [`caller_removed`]).
    pub fn is_removed(&self, objects: &ObjectStore) -> (r: Option<bool>)
        ensures
            r == caller_removed(objects@, *self),
    {
        match self {
            CallbackCaller::Subscription(s) => if s.0 < objects.subscriber_count() {
                Some(objects.subscriber(*s).is_removed())
            } else {
                None
            },
            CallbackCaller::Service(s) => if s.0 < objects.service_count() {
                Some(objects.service(*s).is_removed())
            } else {
                None
            },
            CallbackCaller::Timer(t) => if t.0 < objects.timer_count() {
                Some(objects.timer(*t).is_removed())
            } else {
                None
            },
        }
    }
}

} // verus!
