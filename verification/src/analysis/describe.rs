//! What the analyses report of the objects they count by: the node of a callback,
//! the name of a node, the main parameter of a callback's caller.
use vstd::prelude::*;

use crate::known::{known_view, Known};
use crate::model::{full_name_of, CallbackCaller, CallbackRef, NodeRef, ObjectStore, ObjectStoreView};

verus! {

/// The node of the object that invokes a callback.
pub open spec fn caller_node(store: ObjectStoreView, caller: CallbackCaller) -> Known<NodeRef> {
    match caller {
        CallbackCaller::Subscription(s) => store.subscribers[s.0 as int].node,
        CallbackCaller::Service(s) => store.services[s.0 as int].node,
        CallbackCaller::Timer(t) => store.timers[t.0 as int].node,
    }
}

/// The node of a callback, when its caller and the caller's node are known.
pub open spec fn callback_node(store: ObjectStoreView, callback: CallbackRef) -> Known<NodeRef> {
    match store.callbacks[callback.0 as int].caller {
        Known::Known(caller) => caller_node(store, caller),
        Known::Unknown => Known::Unknown,
    }
}

/// The full name of a node, when it is known.
pub open spec fn node_full_name(store: ObjectStoreView, node: Known<NodeRef>) -> Known<Seq<char>> {
    match node {
        Known::Known(n) => match store.nodes[n.0 as int].full_name {
            Known::Known(name) => Known::Known(full_name_of(name)),
            Known::Unknown => Known::Unknown,
        },
        Known::Unknown => Known::Unknown,
    }
}

/// The main parameter of the object that invokes a callback.
#[derive(Debug, Clone)]
pub enum CallerParam {
    /// The topic of a subscription.
    Topic(Known<String>),
    /// The name of a service.
    ServiceName(Known<String>),
    /// The period of a timer, in nanoseconds.
    TimerPeriod(Known<i64>),
}

/// The abstract value of a [`CallerParam`].
pub enum CallerParamView {
    Topic(Known<Seq<char>>),
    ServiceName(Known<Seq<char>>),
    TimerPeriod(Known<i64>),
}

impl View for CallerParam {
    type V = CallerParamView;

    open spec fn view(&self) -> CallerParamView {
        match self {
            CallerParam::Topic(t) => CallerParamView::Topic(known_view(*t)),
            CallerParam::ServiceName(n) => CallerParamView::ServiceName(known_view(*n)),
            CallerParam::TimerPeriod(p) => CallerParamView::TimerPeriod(*p),
        }
    }
}

/// The main parameter of a caller: a subscription's topic, a service's name or a
/// timer's period.
pub open spec fn caller_param(store: ObjectStoreView, caller: CallbackCaller) -> CallerParamView {
    match caller {
        CallbackCaller::Subscription(s) => CallerParamView::Topic(store.subscribers[s.0 as int].topic_name),
        CallbackCaller::Service(s) => CallerParamView::ServiceName(store.services[s.0 as int].name),
        CallbackCaller::Timer(t) => CallerParamView::TimerPeriod(store.timers[t.0 as int].period),
    }
}

/// A string copied out of a known borrowed one.
pub fn owned(s: Known<&str>) -> (r: Known<String>)
    ensures
        known_view(r) == match s {
            Known::Known(x) => Known::Known(x@),
            Known::Unknown => Known::Unknown,
        },
{
    match s {
        Known::Known(x) => Known::Known(x.to_owned()),
        Known::Unknown => Known::Unknown,
    }
}

/// The node of the object that invokes a callback.
pub fn get_caller_node(objects: &ObjectStore, caller: &CallbackCaller) -> (r: Known<NodeRef>)
    requires
        objects@.caller_ok(*caller),
    ensures
        r == caller_node(objects@, *caller),
{
    match caller {
        CallbackCaller::Subscription(s) => objects.subscriber(*s).get_node(),
        CallbackCaller::Service(s) => objects.service(*s).get_node(),
        CallbackCaller::Timer(t) => objects.timer(*t).get_node(),
    }
}

/// The node of a callback.
pub fn get_callback_node(objects: &ObjectStore, callback: CallbackRef) -> (r: Known<NodeRef>)
    requires
        objects@.wf(),
        objects@.valid_callback(callback),
    ensures
        r == callback_node(objects@, callback),
{
    proof {
        assert(objects@.callback_ok(objects@.callbacks[callback.0 as int]));
    }
    match objects.callback(callback).get_caller() {
        Some(caller) => get_caller_node(objects, caller),
        None => Known::Unknown,
    }
}

/// The full name of a node, when it is known.
pub fn get_node_full_name(objects: &ObjectStore, node: Known<NodeRef>) -> (r: Known<String>)
    requires
        objects@.known_node(node),
    ensures
        known_view(r) == node_full_name(objects@, node),
{
    match node {
        Known::Known(n) => owned(objects.node(n).get_full_name()),
        Known::Unknown => Known::Unknown,
    }
}

/// The main parameter of the object that invokes a callback.
pub fn get_caller_param(objects: &ObjectStore, caller: &CallbackCaller) -> (r: CallerParam)
    requires
        objects@.caller_ok(*caller),
    ensures
        r@ == caller_param(objects@, *caller),
{
    match caller {
        CallbackCaller::Subscription(s) => CallerParam::Topic(owned(objects.subscriber(*s).get_topic())),
        CallbackCaller::Service(s) => CallerParam::ServiceName(owned(objects.service(*s).get_name())),
        CallbackCaller::Timer(t) => CallerParam::TimerPeriod(objects.timer(*t).get_period()),
    }
}

} // verus!
