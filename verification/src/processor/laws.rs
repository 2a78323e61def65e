//! Properties of event processing that span several events.
use vstd::prelude::*;

use crate::events_common::Time;
use crate::interner::lemma_interned_ids;
use crate::known::Known;
use crate::model::{
    CallbackCaller, CallbackTrigger, PartiallyKnown, TAKEN_MESSAGES_MAX,
};
use crate::raw_events::ros2 as raw;

use super::ros2::{
    matched_publication, process_callback_end_spec, process_callback_start_spec, rcl_node_init,
    rcl_timer_init, rmw_event_publisher, rmw_publish, rmw_publish_link, rmw_publish_message,
    rmw_take, rmw_subscription_init, subscriber_after_rmw_init,
};
use super::{id_key, publication_key, ContextId, ProcessorView};

verus! {

broadcast use vstd::std_specs::hash::group_hash_axioms;

/// The topic that an `rmw_publish` event publishes its message on.
pub open spec fn rmw_publish_topic(p: ProcessorView, e: raw::RmwPublish, cid: ContextId) -> Known<Seq<char>> {
    let (p1, m) = rmw_publish_message(p, e, cid);
    rmw_publish_link(p1, m, rmw_event_publisher(p1, e.rmw_publisher_handle, cid), cid).1
}

/// A message that rmw has just published with a sender timestamp is what a take
/// with that (non-zero) timestamp matches, for a subscriber on the topic it was
/// published on.
pub proof fn law_publication_is_matched(p: ProcessorView, e: raw::RmwPublish, time: Time, cid: ContextId, ts: i64)
    requires
        p.wf(),
        e.timestamp == Some(ts),
        ts != 0,
    ensures
        ({
            let (f, r) = rmw_publish(p, e, time, cid);
            matched_publication(f, ts, rmw_publish_topic(p, e, cid)) == Some(r.message)
        }),
{
    let (p1, m) = rmw_publish_message(p, e, cid);
    let ep = rmw_event_publisher(p1, e.rmw_publisher_handle, cid);
    let (p2, topic) = rmw_publish_link(p1, m, ep, cid);
    let (f, r) = rmw_publish(p, e, time, cid);
    assert(p2.topics == p.topics);
    match topic {
        Known::Known(t) => {
            lemma_interned_ids(p2.topics, t, t);
            assert(f.topic_code(topic) == p2.topic_code(topic));
        },
        Known::Unknown => {},
    }
    assert(f.published_messages.contains_key(publication_key(ts, p2.topic_code(topic))));
}

/// A message taken by a subscriber on the topic of the message that rmw has just
/// published, with the sender timestamp of that message, is linked to it.
pub proof fn law_take_after_publication(
    p: ProcessorView,
    publish: raw::RmwPublish,
    publish_time: Time,
    take: raw::RmwTake,
    take_time: Time,
    cid: ContextId,
)
    requires
        p.wf(),
        publish.timestamp == Some(take.source_timestamp),
        take.source_timestamp != 0,
        ({
            let f = rmw_publish(p, publish, publish_time, cid).0;
            let k = id_key(take.rmw_subscription_handle, cid);
            &&& f.subscribers_by_rmw.contains_key(k)
            &&& f.objects.subscribers[f.subscribers_by_rmw[k].0 as int].topic_name == rmw_publish_topic(p, publish, cid)
        }),
    ensures
        ({
            let (f, published) = rmw_publish(p, publish, publish_time, cid);
            let (g, taken) = rmw_take(f, take, take_time, cid);
            &&& taken matches Ok(t)
            &&& g.objects.subscription_messages[t.message.0 as int].message == PartiallyKnown::<crate::model::PublicationMessageRef, Time>::Fully(published.message)
        }),
{
    law_publication_is_matched(p, publish, publish_time, cid, take.source_timestamp);
    let (f, published) = rmw_publish(p, publish, publish_time, cid);
    lemma_rmw_publish_fits(p, publish, publish_time, cid);
    let (g, taken) = rmw_take(f, take, take_time, cid);
    let m = f.objects.next_subscription_message();
    assert(g.objects.subscription_messages[m.0 as int].message == PartiallyKnown::<crate::model::PublicationMessageRef, Time>::Fully(published.message));
}

/// Publishing with rmw adds at most one message to the store.
proof fn lemma_rmw_publish_fits(p: ProcessorView, e: raw::RmwPublish, time: Time, cid: ContextId)
    requires
        p.wf(),
    ensures
        rmw_publish(p, e, time, cid).0.objects.subscription_messages == p.objects.subscription_messages,
{
}

/// A message taken while its subscriber has no message waiting is the one that
/// triggers the next execution of the subscriber's callback.
pub proof fn law_taken_message_triggers_callback(
    p: ProcessorView,
    take: raw::RmwTake,
    take_time: Time,
    start: raw::CallbackStart,
    start_time: Time,
    cid: ContextId,
)
    requires
        p.wf(),
        take.taken,
        ({
            let ks = id_key(take.rmw_subscription_handle, cid);
            let kc = id_key(start.callback, cid);
            &&& p.subscribers_by_rmw.contains_key(ks)
            &&& p.objects.subscribers[p.subscribers_by_rmw[ks].0 as int].taken_message.len() == 0
            &&& p.callbacks_by_id.contains_key(kc)
            &&& p.objects.callbacks[p.callbacks_by_id[kc].0 as int].caller
                == Known::Known(CallbackCaller::Subscription(p.subscribers_by_rmw[ks]))
            &&& p.objects.callbacks[p.callbacks_by_id[kc].0 as int].running_instance is None
        }),
    ensures
        ({
            let (f, taken) = rmw_take(p, take, take_time, cid);
            let (g, started) = process_callback_start_spec(f, start, start_time, cid);
            &&& taken matches Ok(t)
            &&& started matches Ok(s)
            &&& g.objects.callback_instances[s.callback.0 as int].trigger == CallbackTrigger::SubscriptionMessage(t.message)
            &&& g.objects.subscribers[p.subscribers_by_rmw[id_key(take.rmw_subscription_handle, cid)].0 as int].taken_message.len() == 0
        }),
{
    let (f, taken) = rmw_take(p, take, take_time, cid);
    let s = p.subscribers_by_rmw[id_key(take.rmw_subscription_handle, cid)];
    let m = p.objects.next_subscription_message();
    assert(f.objects.subscribers[s.0 as int].taken_message =~= seq![m]);
}

/// An execution of a callback that starts and then ends spans from the start to the
/// end, and afterwards the callback no longer runs.
pub proof fn law_callback_execution_spans_start_to_end(
    p: ProcessorView,
    start: raw::CallbackStart,
    start_time: Time,
    end: raw::CallbackEnd,
    end_time: Time,
    cid: ContextId,
)
    requires
        p.wf(),
        start.callback == end.callback,
        p.callbacks_by_id.contains_key(id_key(start.callback, cid)),
        crate::model::can_start(p.objects, p.callbacks_by_id[id_key(start.callback, cid)]),
    ensures
        ({
            let cb = p.callbacks_by_id[id_key(start.callback, cid)];
            let (f, started) = process_callback_start_spec(p, start, start_time, cid);
            let (g, ended) = process_callback_end_spec(f, end, end_time, cid);
            &&& started matches Ok(s)
            &&& ended matches Ok(e)
            &&& e.callback == s.callback
            &&& g.objects.callback_instances[e.callback.0 as int].start_time == start_time
            &&& g.objects.callback_instances[e.callback.0 as int].end_time == Known::Known(end_time)
            &&& g.objects.callback_instances[e.callback.0 as int].callback == cb
            &&& g.objects.callbacks[cb.0 as int].running_instance is None
        }),
{
}

/// After `rcl_node_init`, the node known by the event's handle carries the event's
/// namespace and name.
pub proof fn law_node_init_names_node(p: ProcessorView, e: raw::RclNodeInit, cid: ContextId)
    requires
        p.wf(),
    ensures
        ({
            let (f, r) = rcl_node_init(p, e, cid);
            let k = id_key(e.node_handle, cid);
            &&& f.nodes_by_rcl.contains_key(k)
            &&& f.nodes_by_rcl[k] == r.node
            &&& f.objects.nodes[r.node.0 as int].full_name == Known::Known((e.namespace@, e.node_name@))
        }),
{
}

/// After `rcl_timer_init`, the timer known by the event's handle has the event's
/// period; a timer it replaced stays in the store, marked removed.
pub proof fn law_timer_init_records_period(p: ProcessorView, e: raw::RclTimerInit, cid: ContextId)
    requires
        p.wf(),
    ensures
        ({
            let (f, r) = rcl_timer_init(p, e, cid);
            let k = id_key(e.timer_handle, cid);
            &&& f.timers_by_rcl.contains_key(k)
            &&& f.timers_by_rcl[k] == r.timer
            &&& f.objects.timers[r.timer.0 as int].period == Known::Known(e.period)
            &&& (p.timers_by_rcl.contains_key(k) && p.timers_by_rcl[k] != r.timer
                ==> f.objects.timers[p.timers_by_rcl[k].0 as int].removed)
        }),
{
}

/// After `rmw_subscription_init`, the subscriber known by the event's handle has the
/// event's handle and GID; a subscriber it replaced stays in the store, marked removed.
pub proof fn law_subscription_init_records_gid(p: ProcessorView, e: raw::RmwSubscriptionInit, cid: ContextId)
    requires
        p.wf(),
    ensures
        ({
            let (f, r) = rmw_subscription_init(p, e, cid);
            let k = id_key(e.rmw_subscription_handle, cid);
            &&& f.subscribers_by_rmw.contains_key(k)
            &&& f.subscribers_by_rmw[k] == r.subscription
            &&& f.objects.subscribers[r.subscription.0 as int].rmw_handle == Known::Known(e.rmw_subscription_handle)
            &&& f.objects.subscribers[r.subscription.0 as int].rmw_gid == Known::Known(e.gid@)
            &&& (p.subscribers_by_rmw.contains_key(k) && p.subscribers_by_rmw[k] != r.subscription
                ==> f.objects.subscribers[p.subscribers_by_rmw[k].0 as int].removed)
        }),
{
}

/// Taking a message never lets a subscriber hold more than `TAKEN_MESSAGES_MAX`
/// messages for its callback.
pub proof fn law_taken_queue_bounded(p: ProcessorView, e: raw::RmwTake, time: Time, cid: ContextId)
    requires
        p.wf(),
        forall|i: int| 0 <= i < p.objects.subscribers.len() ==> #[trigger] p.objects.subscribers[i].taken_message.len() <= TAKEN_MESSAGES_MAX,
    ensures
        ({
            let f = rmw_take(p, e, time, cid).0;
            forall|i: int| 0 <= i < f.objects.subscribers.len() ==> #[trigger] f.objects.subscribers[i].taken_message.len() <= TAKEN_MESSAGES_MAX
        }),
{
    let f = rmw_take(p, e, time, cid).0;
    assert forall|i: int| 0 <= i < f.objects.subscribers.len() implies #[trigger] f.objects.subscribers[i].taken_message.len() <= TAKEN_MESSAGES_MAX by {
        assert(p.objects.subscribers[i].taken_message.len() <= TAKEN_MESSAGES_MAX);
    }
}

} // verus!
