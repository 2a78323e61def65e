//! The latency from the reception of a message to the start of the callback that
//! handles it, per callback.
use vstd::prelude::*;

use crate::model::{receive_time, CallbackRef, CallbackTrigger, ObjectStore, ObjectStoreView};
use crate::processed_events::{ros2, Event, FullEvent};

use super::dependency_graph::{fits_i64, key_of, since};
use super::keyed::{lemma_series_push, series_of, series_push, KeyedList};

use super::{AnalysisState, EventAnalysis};

verus! {

broadcast use crate::model::store::lemma_view_fits;

/// Collects, per callback, the latency of each execution that a message started.
#[derive(Debug)]
pub struct MessageTakeToCallbackLatency {
    latencies: KeyedList<Vec<i64>>,
}

/// The abstract state of a [`MessageTakeToCallbackLatency`].
pub struct MessageTakeToCallbackLatencyView {
    /// The keys of the callbacks, in order of first execution.
    pub callbacks: Seq<u128>,
    /// The latencies of each callback, in order.
    pub latencies: Seq<Seq<i64>>,
}

impl View for MessageTakeToCallbackLatency {
    type V = MessageTakeToCallbackLatencyView;

    closed spec fn view(&self) -> MessageTakeToCallbackLatencyView {
        MessageTakeToCallbackLatencyView { callbacks: self.latencies.keys(), latencies: self.latencies.series() }
    }
}

/// The analysis before any event.
pub open spec fn empty_take_to_callback() -> MessageTakeToCallbackLatencyView {
    MessageTakeToCallbackLatencyView { callbacks: Seq::empty(), latencies: Seq::empty() }
}

/// Whether the analysis can take the event: an execution that a message started has
/// a known reception time, and the latency fits an `i64`.
pub open spec fn take_to_callback_accepts(e: FullEvent, store: ObjectStoreView) -> bool {
    match e.event {
        Event::Ros2(ros2::Event::CallbackStart(x)) => {
            let iv = store.callback_instances[x.callback.0 as int];
            &&& store.valid_callback_instance(x.callback)
            &&& (iv.trigger matches CallbackTrigger::SubscriptionMessage(m) ==> {
                let received = receive_time(store.subscription_messages[m.0 as int]);
                &&& store.valid_subscription_message(m)
                &&& received is Some
                &&& fits_i64(iv.start_time.nanos() - received->Some_0.nanos())
            })
        },
        _ => true,
    }
}

/// The analysis after an event: an execution that a message started adds its latency
/// to its callback.
pub open spec fn take_to_callback_step(a: MessageTakeToCallbackLatencyView, e: FullEvent, store: ObjectStoreView) -> MessageTakeToCallbackLatencyView {
    match e.event {
        Event::Ros2(ros2::Event::CallbackStart(x)) => {
            let iv = store.callback_instances[x.callback.0 as int];
            match iv.trigger {
                CallbackTrigger::SubscriptionMessage(m) => {
                    let latency = since(iv.start_time, receive_time(store.subscription_messages[m.0 as int])->Some_0);
                    let (callbacks, latencies) = series_push(a.callbacks, a.latencies, key_of(iv.callback.0), latency);
                    MessageTakeToCallbackLatencyView { callbacks, latencies }
                },
                _ => a,
            }
        },
        _ => a,
    }
}

impl MessageTakeToCallbackLatency {
    pub closed spec fn wf(&self) -> bool {
        &&& self.latencies.wf()
        &&& forall|i: int| 0 <= i < self.latencies.keys().len() ==> #[trigger] self.latencies.keys()[i] <= usize::MAX
    }

    pub fn new() -> (r: Self)
        ensures
            r.wf(),
            r@ == empty_take_to_callback(),
    {
        let r = MessageTakeToCallbackLatency { latencies: KeyedList::new() };
        assert(r@.latencies =~= Seq::<Seq<i64>>::empty());
        r
    }

    /// Forgets everything.
    pub fn initialize(&mut self)
        ensures
            final(self).wf(),
            final(self)@ == empty_take_to_callback(),
    {
        self.latencies.clear();
        assert(self@.latencies =~= Seq::<Seq<i64>>::empty());
    }

    /// Takes one event (see [`take_to_callback_step`]).
    pub fn process_event(&mut self, full_event: &FullEvent, objects: &ObjectStore)
        requires
            old(self).wf(),
            objects@.wf(),
            take_to_callback_accepts(*full_event, objects@),
        ensures
            final(self).wf(),
            final(self)@ == take_to_callback_step(old(self)@, *full_event, objects@),
    {
        if let Event::Ros2(ros2::Event::CallbackStart(event)) = &full_event.event {
            let instance = objects.callback_instance(event.callback);
            if let CallbackTrigger::SubscriptionMessage(m) = instance.get_trigger() {
                let receive_time = objects.subscription_message(*m).get_receive_time().unwrap();
                let latency = instance.get_start_time().timestamp_nanos() - receive_time.timestamp_nanos();
                self.latencies.append(instance.get_callback().0 as u128, latency);
            }
        }
    }

    /// Whether [`Self::process_event`] can take the event.
    pub fn accepts(full_event: &FullEvent, objects: &ObjectStore) -> (r: bool)
        ensures
            r == take_to_callback_accepts(*full_event, objects@),
    {
        if let Event::Ros2(ros2::Event::CallbackStart(event)) = &full_event.event {
            if event.callback.0 >= objects.callback_instance_count() {
                return false;
            }
            let instance = objects.callback_instance(event.callback);
            if let CallbackTrigger::SubscriptionMessage(m) = instance.get_trigger() {
                if m.0 >= objects.subscription_message_count() {
                    return false;
                }
                match objects.subscription_message(*m).get_receive_time() {
                    Some(t) => instance.get_start_time().timestamp_nanos().checked_sub(t.timestamp_nanos()).is_some(),
                    None => false,
                }
            } else {
                true
            }
        } else {
            true
        }
    }

    /// The number of callbacks with a latency.
    pub fn len(&self) -> (r: usize)
        requires
            self.wf(),
        ensures
            r == self@.callbacks.len(),
            r == self@.latencies.len(),
    {
        self.latencies.len()
    }

    /// The `i`-th callback, in order of first execution, and its latencies.
    pub fn entry(&self, i: usize) -> (r: (CallbackRef, &[i64]))
        requires
            self.wf(),
            i < self@.callbacks.len(),
        ensures
            key_of(r.0.0) == self@.callbacks[i as int],
            r.1@ == self@.latencies[i as int],
    {
        let k = self.latencies.key(i);
        let v = self.latencies.value(i);
        (CallbackRef(k as usize), v.as_slice())
    }
}


impl EventAnalysis for MessageTakeToCallbackLatency {
    open spec fn consistent(&self) -> bool {
        self.wf()
    }

    open spec fn takes(&self, e: FullEvent, store: ObjectStoreView) -> bool {
        take_to_callback_accepts(e, store)
    }

    open spec fn finishes(&self, store: ObjectStoreView) -> bool {
        true
    }

    open spec fn state(&self) -> AnalysisState {
        AnalysisState::MessageTakeToCallbackLatency(self@)
    }

    open spec fn initial_state(&self) -> AnalysisState {
        AnalysisState::MessageTakeToCallbackLatency(empty_take_to_callback())
    }

    open spec fn state_after(&self, e: FullEvent, store: ObjectStoreView) -> AnalysisState {
        AnalysisState::MessageTakeToCallbackLatency(take_to_callback_step(self@, e, store))
    }

    open spec fn finished_state(&self, store: ObjectStoreView) -> AnalysisState {
        AnalysisState::MessageTakeToCallbackLatency(self@)
    }

    fn initialize(&mut self) {
        MessageTakeToCallbackLatency::initialize(self);
    }

    fn accepts(&self, e: &FullEvent, objects: &ObjectStore) -> (r: bool) {
        MessageTakeToCallbackLatency::accepts(e, objects)
    }

    fn process_event(&mut self, e: &FullEvent, objects: &ObjectStore) {
        MessageTakeToCallbackLatency::process_event(self, e, objects);
    }

    fn can_finalize(&self, objects: &ObjectStore) -> (r: bool) {
        true
    }

    fn finalize(&mut self, objects: &ObjectStore) {
    }
}

/// An execution that a message starts appends to the latencies of its callback the time
/// from the message's reception to the execution's start, and leaves the latencies of
/// every other callback as they were; any other execution changes nothing.
pub proof fn law_start_extends_its_callback(
    a: MessageTakeToCallbackLatencyView,
    e: FullEvent,
    store: ObjectStoreView,
    x: ros2::CallbackStart,
)
    requires
        a.callbacks.no_duplicates(),
        a.callbacks.len() == a.latencies.len(),
        e.event == Event::Ros2(ros2::Event::CallbackStart(x)),
        take_to_callback_accepts(e, store),
    ensures
        ({
            let b = take_to_callback_step(a, e, store);
            let iv = store.callback_instances[x.callback.0 as int];
            &&& b.callbacks.no_duplicates()
            &&& b.callbacks.len() == b.latencies.len()
            &&& iv.trigger matches CallbackTrigger::SubscriptionMessage(m) ==> {
                &&& series_of(b.callbacks, b.latencies, iv.callback.0 as u128) == series_of(a.callbacks, a.latencies, iv.callback.0 as u128).push(
                    (iv.start_time.nanos() - receive_time(store.subscription_messages[m.0 as int])->Some_0.nanos()) as i64,
                )
                &&& forall|k: u128| k != iv.callback.0 as u128 ==> #[trigger] series_of(b.callbacks, b.latencies, k)
                    == series_of(a.callbacks, a.latencies, k)
            }
            &&& !(iv.trigger is SubscriptionMessage) ==> b == a
        }),
{
    let iv = store.callback_instances[x.callback.0 as int];
    if let CallbackTrigger::SubscriptionMessage(m) = iv.trigger {
        let latency = since(iv.start_time, receive_time(store.subscription_messages[m.0 as int])->Some_0);
        lemma_series_push(a.callbacks, a.latencies, key_of(iv.callback.0), latency);
    }
}

} // verus!
