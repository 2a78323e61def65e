//! How long the executions of each callback take, and how often they start.
use vstd::prelude::*;

use crate::events_common::{Context, ContextView, Time};
use crate::known::{known_view, Known};
use crate::model::{caller_type, CallbackInstanceRef, CallbackRef, CallbackType, ObjectStore, ObjectStoreView};
use crate::processed_events::{ros2, Event, FullEvent};

use super::describe::{
    callback_node, caller_param, get_callback_node, get_caller_param, get_node_full_name,
    node_full_name, CallerParam, CallerParamView,
};
use super::keyed::{lemma_series_push, position_of, series_of, series_push, KeyedList};
use super::statistics::{calculate_min_max_avg, max_of, mean_of, min_of};

use super::{AnalysisState, EventAnalysis};

verus! {

broadcast use crate::model::store::lemma_view_fits;

/// One execution of a callback: when it started, how long it ran (in nanoseconds)
/// and on which thread and CPU it ended.
#[derive(Debug, Clone, Copy)]
pub struct ExecutionData {
    pub start_time: Time,
    pub duration: i64,
    pub tid: u32,
    pub cpuid: u32,
}

/// The key under which the executions of a callback are kept.
pub open spec fn callback_key(callback: CallbackRef) -> u128 {
    callback.0 as u128
}

/// Collects the executions of each callback.
#[derive(Debug)]
pub struct CallbackDuration {
    execution_data: KeyedList<Vec<ExecutionData>>,
    started_callbacks: Vec<CallbackInstanceRef>,
    not_ended_callbacks: Vec<CallbackInstanceRef>,
}

/// The abstract state of a [`CallbackDuration`].
pub struct CallbackDurationView {
    /// The keys of the callbacks with an ended execution, in order of first end.
    pub callbacks: Seq<u128>,
    /// The ended executions of each callback, in order of end.
    pub executions: Seq<Seq<ExecutionData>>,
    /// Executions started and not ended yet, in order of start.
    pub started: Seq<CallbackInstanceRef>,
    /// Executions that never ended, once the analysis is finalized.
    pub not_ended: Seq<CallbackInstanceRef>,
}

impl View for CallbackDuration {
    type V = CallbackDurationView;

    closed spec fn view(&self) -> CallbackDurationView {
        CallbackDurationView {
            callbacks: self.execution_data.keys(),
            executions: self.execution_data.series(),
            started: self.started_callbacks@,
            not_ended: self.not_ended_callbacks@,
        }
    }
}

/// The analysis before any event.
pub open spec fn empty_callback_duration() -> CallbackDurationView {
    CallbackDurationView {
        callbacks: Seq::empty(),
        executions: Seq::empty(),
        started: Seq::empty(),
        not_ended: Seq::empty(),
    }
}

/// The execution of a callback instance that ended, as recorded in `ctx`.
pub open spec fn execution_of(store: ObjectStoreView, instance: CallbackInstanceRef, ctx: ContextView) -> ExecutionData {
    let iv = store.callback_instances[instance.0 as int];
    ExecutionData {
        start_time: iv.start_time,
        duration: (iv.end_time->Known_0.nanos() - iv.start_time.nanos()) as i64,
        tid: ctx.vtid,
        cpuid: ctx.cpu_id,
    }
}

/// Whether an execution that ends can be recorded: it was started, has ended no
/// earlier than it started, and its duration fits 64 bits.
pub open spec fn can_end(a: CallbackDurationView, store: ObjectStoreView, instance: CallbackInstanceRef) -> bool {
    let iv = store.callback_instances[instance.0 as int];
    &&& a.started.contains(instance)
    &&& store.valid_callback_instance(instance)
    &&& iv.end_time is Known
    &&& iv.start_time.nanos() <= iv.end_time->Known_0.nanos()
    &&& iv.end_time->Known_0.nanos() - iv.start_time.nanos() <= i64::MAX
}

/// Whether the analysis can take the event.
pub open spec fn callback_duration_accepts(a: CallbackDurationView, e: FullEvent, store: ObjectStoreView) -> bool {
    match e.event {
        Event::Ros2(ros2::Event::CallbackEnd(x)) => can_end(a, store, x.callback),
        _ => true,
    }
}

/// The analysis after an event: a started execution is remembered; an ended one is
/// added to the executions of its callback.
pub open spec fn callback_duration_step(a: CallbackDurationView, e: FullEvent, store: ObjectStoreView) -> CallbackDurationView {
    match e.event {
        Event::Ros2(ros2::Event::CallbackStart(x)) => CallbackDurationView {
            started: if a.started.contains(x.callback) { a.started } else { a.started.push(x.callback) },
            ..a
        },
        Event::Ros2(ros2::Event::CallbackEnd(x)) => {
            let k = callback_key(store.callback_instances[x.callback.0 as int].callback);
            let (callbacks, executions) = series_push(a.callbacks, a.executions, k, execution_of(store, x.callback, e.context@));
            CallbackDurationView {
                callbacks,
                executions,
                started: a.started.remove(a.started.index_of(x.callback)),
                ..a
            }
        },
        _ => a,
    }
}

/// The times between the starts of consecutive executions.
pub open spec fn inter_arrival_times(data: Seq<ExecutionData>) -> Seq<i64> {
    Seq::new((data.len() - 1) as nat, |i: int| (data[i + 1].start_time.nanos() - data[i].start_time.nanos()) as i64)
}

/// An execution that ends is appended to the executions of its own callback, with its
/// start, its duration (end minus start) and the thread it ended on, and the
/// executions of every other callback stay as they were.
pub proof fn law_end_extends_its_callback(a: CallbackDurationView, e: FullEvent, store: ObjectStoreView, x: ros2::CallbackEnd)
    requires
        a.callbacks.no_duplicates(),
        a.callbacks.len() == a.executions.len(),
        e.event == Event::Ros2(ros2::Event::CallbackEnd(x)),
        callback_duration_accepts(a, e, store),
    ensures
        ({
            let b = callback_duration_step(a, e, store);
            let iv = store.callback_instances[x.callback.0 as int];
            let k = iv.callback.0 as u128;
            let after = series_of(b.callbacks, b.executions, k);
            &&& b.callbacks.no_duplicates()
            &&& b.callbacks.len() == b.executions.len()
            &&& after.drop_last() == series_of(a.callbacks, a.executions, k)
            &&& after.last().start_time == iv.start_time
            &&& after.last().duration == iv.end_time->Known_0.nanos() - iv.start_time.nanos()
            &&& after.last().tid == e.context@.vtid
            &&& forall|j: u128| j != k ==> #[trigger] series_of(b.callbacks, b.executions, j) == series_of(a.callbacks, a.executions, j)
        }),
{
    let iv = store.callback_instances[x.callback.0 as int];
    lemma_series_push(a.callbacks, a.executions, callback_key(iv.callback), execution_of(store, x.callback, e.context@));
    let k = iv.callback.0 as u128;
    let b = callback_duration_step(a, e, store);
    assert(series_of(b.callbacks, b.executions, k).drop_last() =~= series_of(a.callbacks, a.executions, k));
}

/// Each inter-arrival time is the start of an execution minus the start of the one
/// just before it, and one more execution appends exactly the gap from the last start
/// to its own.
pub proof fn law_inter_arrival_consecutive(data: Seq<ExecutionData>, x: ExecutionData)
    requires
        data.len() >= 1,
    ensures
        inter_arrival_times(data).len() == data.len() - 1,
        forall|i: int| 0 <= i < data.len() - 1 ==> #[trigger] inter_arrival_times(data)[i] == (data[i + 1].start_time.nanos()
            - data[i].start_time.nanos()) as i64,
        inter_arrival_times(data.push(x)) == inter_arrival_times(data).push(
            (x.start_time.nanos() - data.last().start_time.nanos()) as i64,
        ),
{
    assert(inter_arrival_times(data.push(x)) =~= inter_arrival_times(data).push(
        (x.start_time.nanos() - data.last().start_time.nanos()) as i64,
    ));
}

/// Consecutive executions start in order, at most `i64::MAX` nanoseconds apart.
pub open spec fn starts_in_order(data: Seq<ExecutionData>) -> bool {
    forall|i: int| 0 <= i < data.len() - 1 ==> {
        let d = #[trigger] data[i + 1].start_time.nanos() - data[i].start_time.nanos();
        0 <= d <= i64::MAX
    }
}

/// Whether the executions can be reported: every callback is in the store with a known
/// caller, and its executions start in order.
pub open spec fn can_report(a: CallbackDurationView, store: ObjectStoreView) -> bool {
    &&& forall|i: int| 0 <= i < a.callbacks.len() ==> {
        let k = #[trigger] a.callbacks[i];
        &&& k < store.callbacks.len()
        &&& store.callbacks[k as int].caller is Known
    }
    &&& forall|i: int| 0 <= i < a.executions.len() ==> starts_in_order(#[trigger] a.executions[i])
}

/// The durations of a series of executions.
pub open spec fn durations_of(data: Seq<ExecutionData>) -> Seq<i64> {
    data.map_values(|d: ExecutionData| d.duration)
}

/// What the analysis reports of one callback.
#[derive(Debug, Clone)]
pub struct Record {
    pub node: Known<String>,
    pub caller_type: Known<CallbackType>,
    /// The main parameter of the caller: the topic of a subscription, the period of
    /// a timer or the name of a service.
    pub caller_param: CallerParam,
    pub durations: Vec<i64>,
    pub inter_arrival_times: Vec<i64>,
}

/// The summary statistics of the executions of one callback, in nanoseconds.
#[derive(Debug, Clone, Copy)]
pub struct RecordSummary {
    pub call_count: usize,
    pub max_duration: i64,
    pub min_duration: i64,
    pub avg_duration: i64,
}

/// Whether `r` reports the executions `data` of the callback `callback`.
pub open spec fn reports(r: Record, store: ObjectStoreView, callback: CallbackRef, data: Seq<ExecutionData>) -> bool {
    let cv = store.callbacks[callback.0 as int];
    &&& known_view(r.node) == node_full_name(store, callback_node(store, callback))
    &&& r.caller_type == (match cv.caller {
        Known::Known(c) => Known::Known(caller_type(c)),
        Known::Unknown => Known::Unknown,
    })
    &&& r.caller_param@ == caller_param(store, cv.caller->Known_0)
    &&& r.durations@ == durations_of(data)
    &&& r.inter_arrival_times@ == (if data.len() < 2 { Seq::empty() } else { inter_arrival_times(data) })
}

impl CallbackDuration {
    /// The index of the key holds.
    pub closed spec fn wf(&self) -> bool {
        &&& self.execution_data.wf()
        &&& self@.started.no_duplicates()
    }

    pub fn new() -> (r: Self)
        ensures
            r.wf(),
            r@ == empty_callback_duration(),
    {
        let r = Self { execution_data: KeyedList::new(), started_callbacks: Vec::new(), not_ended_callbacks: Vec::new() };
        assert(r@.started =~= Seq::<CallbackInstanceRef>::empty());
        assert(r@.executions =~= Seq::<Seq<ExecutionData>>::empty());
        r
    }

    /// Forgets everything.
    pub fn initialize(&mut self)
        ensures
            final(self).wf(),
            final(self)@ == empty_callback_duration(),
    {
        self.execution_data.clear();
        self.started_callbacks.clear();
        self.not_ended_callbacks.clear();
        assert(self@.executions =~= Seq::<Seq<ExecutionData>>::empty());
    }

    /// The duration of an execution, when it has ended.
    fn calculate_duration(objects: &ObjectStore, instance: CallbackInstanceRef) -> (r: Option<i64>)
        requires
            objects@.valid_callback_instance(instance),
            ({
                let iv = objects@.callback_instances[instance.0 as int];
                iv.end_time matches Known::Known(end) ==> iv.start_time.nanos() <= end.nanos()
                    && end.nanos() - iv.start_time.nanos() <= i64::MAX
            }),
        ensures
            ({
                let iv = objects@.callback_instances[instance.0 as int];
                match iv.end_time {
                    Known::Known(end) => r == Some((end.nanos() - iv.start_time.nanos()) as i64),
                    Known::Unknown => r is None,
                }
            }),
    {
        let callback = objects.callback_instance(instance);
        let start_time = callback.get_start_time();
        let end_time = match callback.get_end_time() {
            Some(t) => t,
            None => {
                return None;
            },
        };
        Some(end_time.timestamp_nanos() - start_time.timestamp_nanos())
    }

    fn start_callback(&mut self, callback: CallbackInstanceRef)
        requires
            old(self).wf(),
        ensures
            final(self).wf(),
            final(self)@ == (CallbackDurationView {
                started: if old(self)@.started.contains(callback) { old(self)@.started } else { old(self)@.started.push(callback) },
                ..old(self)@
            }),
    {
        let mut i: usize = 0;
        while i < self.started_callbacks.len() && !self.started_callbacks[i].same(&callback)
            invariant
                i <= self.started_callbacks@.len(),
                forall|j: int| 0 <= j < i ==> self.started_callbacks@[j] != callback,
            decreases self.started_callbacks@.len() - i,
        {
            i += 1;
        }
        if i < self.started_callbacks.len() {
            assert(self@.started[i as int] == callback);
            return;
        }
        self.started_callbacks.push(callback);
        proof {
            assert(!old(self)@.started.contains(callback));
            assert forall|a: int, b: int| 0 <= a < self@.started.len() && 0 <= b < self@.started.len() && a != b
                implies self@.started[a] != self@.started[b] by {
                if a == self@.started.len() - 1 {
                    assert(old(self)@.started[b] != callback);
                }
                if b == self@.started.len() - 1 {
                    assert(old(self)@.started[a] != callback);
                }
            }
        }
    }

    fn end_callback(&mut self, objects: &ObjectStore, callback: CallbackInstanceRef, context: &Context)
        requires
            old(self).wf(),
            objects@.wf(),
            can_end(old(self)@, objects@, callback),
        ensures
            final(self).wf(),
            ({
                let k = callback_key(objects@.callback_instances[callback.0 as int].callback);
                let (callbacks, executions) = series_push(old(self)@.callbacks, old(self)@.executions, k, execution_of(objects@, callback, context@));
                final(self)@ == CallbackDurationView {
                    callbacks,
                    executions,
                    started: old(self)@.started.remove(old(self)@.started.index_of(callback)),
                    ..old(self)@
                }
            }),
    {
        let mut i: usize = 0;
        while i < self.started_callbacks.len() && !self.started_callbacks[i].same(&callback)
            invariant
                i <= self.started_callbacks@.len(),
                forall|j: int| 0 <= j < i ==> self.started_callbacks@[j] != callback,
            decreases self.started_callbacks@.len() - i,
        {
            i += 1;
        }
        proof {
            if i == self.started_callbacks@.len() {
                assert(!old(self)@.started.contains(callback));
            }
            assert(self.started_callbacks@[i as int] == callback);
            let j = old(self)@.started.index_of(callback);
            assert(old(self)@.started[j] == callback);
            assert(old(self)@.started.no_duplicates());
            assert(j == i);
        }
        self.started_callbacks.remove(i);
        proof {
            let s = self@.started;
            assert forall|a: int, b: int| 0 <= a < s.len() && 0 <= b < s.len() && a != b implies s[a] != s[b] by {
                let oa = if a < i { a } else { a + 1 };
                let ob = if b < i { b } else { b + 1 };
                assert(s[a] == old(self)@.started[oa]);
                assert(s[b] == old(self)@.started[ob]);
            }
        }
        let duration = Self::calculate_duration(objects, callback).unwrap();
        let instance = objects.callback_instance(callback);
        let data = ExecutionData {
            start_time: instance.get_start_time(),
            duration,
            tid: context.vtid(),
            cpuid: context.cpu_id(),
        };
        let key = instance.get_callback().index() as u128;
        self.execution_data.append(key, data);
    }

    /// Records the executions that start and end.
    pub fn process_event(&mut self, full_event: &FullEvent, objects: &ObjectStore)
        requires
            old(self).wf(),
            objects@.wf(),
            callback_duration_accepts(old(self)@, *full_event, objects@),
        ensures
            final(self).wf(),
            final(self)@ == callback_duration_step(old(self)@, *full_event, objects@),
    {
        match &full_event.event {
            Event::Ros2(ros2::Event::CallbackStart(event)) => {
                self.start_callback(event.callback);
            },
            Event::Ros2(ros2::Event::CallbackEnd(event)) => {
                self.end_callback(objects, event.callback, &full_event.context);
            },
            _ => {},
        }
    }

    /// Keeps the executions that never ended; every started execution must still be
    /// running.
    pub fn finalize(&mut self, objects: &ObjectStore)
        requires
            old(self).wf(),
            old(self)@.not_ended.len() == 0,
            forall|i: int| 0 <= i < old(self)@.started.len() ==> {
                let s = #[trigger] old(self)@.started[i];
                objects@.valid_callback_instance(s) && objects@.callback_instances[s.0 as int].end_time is Unknown
            },
        ensures
            final(self).wf(),
            final(self)@ == (CallbackDurationView { started: Seq::empty(), not_ended: old(self)@.started, ..old(self)@ }),
    {
        let mut started: Vec<CallbackInstanceRef> = Vec::new();
        std::mem::swap(&mut started, &mut self.started_callbacks);
        self.not_ended_callbacks = started;
        assert(self@.started =~= Seq::<CallbackInstanceRef>::empty());
    }

    /// The times between the starts of consecutive executions, or `None` with fewer
    /// than two executions.
    pub fn get_inter_arrival_time_inner(data: &[ExecutionData]) -> (r: Option<Vec<i64>>)
        requires
            starts_in_order(data@),
        ensures
            data@.len() < 2 ==> r is None,
            data@.len() >= 2 ==> (r matches Some(v) && v@ == inter_arrival_times(data@)),
            r matches Some(v) ==> v@.len() == data@.len() - 1 && forall|i: int| 0 <= i < v@.len() ==> #[trigger] v@[i]
                == data@[i + 1].start_time.nanos() - data@[i].start_time.nanos(),
    {
        if data.len() < 2 {
            return None;
        }
        let mut inter_callback_time: Vec<i64> = Vec::new();
        let mut i: usize = 0;
        while i < data.len() - 1
            invariant
                data@.len() >= 2,
                i <= data@.len() - 1,
                starts_in_order(data@),
                inter_callback_time@ == inter_arrival_times(data@).subrange(0, i as int),
            decreases data@.len() - i,
        {
            let first_time = data[i].start_time;
            let second_time = data[i + 1].start_time;
            proof {
                let d = data@[i + 1].start_time.nanos() - data@[i as int].start_time.nanos();
                assert(0 <= d <= i64::MAX);
            }
            inter_callback_time.push(second_time.timestamp_nanos() - first_time.timestamp_nanos());
            i += 1;
            assert(inter_callback_time@ =~= inter_arrival_times(data@).subrange(0, i as int));
        }
        assert(inter_callback_time@ =~= inter_arrival_times(data@));
        Some(inter_callback_time)
    }

    /// The times between the starts of consecutive executions of `callback`, or `None`
    /// with fewer than two executions.
    pub fn get_inter_arrival_time(&self, callback: CallbackRef) -> (r: Option<Vec<i64>>)
        requires
            self.wf(),
            forall|i: int| 0 <= i < self@.executions.len() ==> starts_in_order(#[trigger] self@.executions[i]),
        ensures
            match position_of(self@.callbacks, callback_key(callback)) {
                Some(i) => {
                    let data = self@.executions[i];
                    &&& data.len() < 2 ==> r is None
                    &&& data.len() >= 2 ==> (r matches Some(v) && v@ == inter_arrival_times(data))
                },
                None => r is None,
            },
    {
        match self.execution_data.position(callback.index() as u128) {
            Some(i) => {
                let data = self.execution_data.value(i);
                assert(self@.executions[i as int] == data@);
                Self::get_inter_arrival_time_inner(data.as_slice())
            },
            None => None,
        }
    }

    /// The durations of the executions of `callback`, if it has any.
    pub fn get_durations_for_callback(&self, callback: CallbackRef) -> (r: Option<Vec<i64>>)
        requires
            self.wf(),
        ensures
            match position_of(self@.callbacks, callback_key(callback)) {
                Some(i) => r matches Some(v) && v@ == durations_of(self@.executions[i]),
                None => r is None,
            },
    {
        match self.execution_data.position(callback.index() as u128) {
            Some(i) => {
                let data = self.execution_data.value(i);
                assert(self@.executions[i as int] == data@);
                Some(durations(data.as_slice()))
            },
            None => None,
        }
    }

    /// The number of executions and the smallest, largest and mean duration of the
    /// executions of `callback`, if it has any.
    pub fn calculate_duration_summary(&self, callback: CallbackRef) -> (r: Option<RecordSummary>)
        requires
            self.wf(),
        ensures
            match position_of(self@.callbacks, callback_key(callback)) {
                Some(i) => {
                    let d = durations_of(self@.executions[i]);
                    d.len() > 0 ==> r == Some(RecordSummary {
                        call_count: d.len() as usize,
                        max_duration: max_of(d),
                        min_duration: min_of(d),
                        avg_duration: mean_of(d) as i64,
                    })
                },
                None => r is None,
            },
    {
        let durations = match self.get_durations_for_callback(callback) {
            Some(d) => d,
            None => {
                return None;
            },
        };
        match calculate_min_max_avg(durations.as_slice()) {
            Some((min_duration, max_duration, avg_duration)) => Some(RecordSummary {
                call_count: durations.len(),
                max_duration,
                min_duration,
                avg_duration,
            }),
            None => None,
        }
    }

    /// The number of callbacks with an ended execution.
    pub fn len(&self) -> (r: usize)
        requires
            self.wf(),
        ensures
            r == self@.callbacks.len(),
            r == self@.executions.len(),
    {
        self.execution_data.len()
    }

    /// The key of the `i`-th callback, in order of first ended execution, and its
    /// ended executions.
    pub fn entry(&self, i: usize) -> (r: (u128, &[ExecutionData]))
        requires
            self.wf(),
            i < self@.callbacks.len(),
        ensures
            r.0 == self@.callbacks[i as int],
            r.1@ == self@.executions[i as int],
    {
        (self.execution_data.key(i), self.execution_data.value(i).as_slice())
    }

    /// The callbacks, by the index of their reference, in the order of their first
    /// ended execution.
    pub fn callbacks(&self) -> (r: Vec<CallbackRef>)
        requires
            self.wf(),
            forall|i: int| 0 <= i < self@.callbacks.len() ==> #[trigger] self@.callbacks[i] <= usize::MAX,
        ensures
            r@.len() == self@.callbacks.len(),
            forall|i: int| 0 <= i < r@.len() ==> callback_key(#[trigger] r@[i]) == self@.callbacks[i],
    {
        let mut r: Vec<CallbackRef> = Vec::new();
        let mut i: usize = 0;
        while i < self.execution_data.len()
            invariant
                self.wf(),
                i <= self@.callbacks.len(),
                forall|j: int| 0 <= j < self@.callbacks.len() ==> #[trigger] self@.callbacks[j] <= usize::MAX,
                r@.len() == i,
                forall|j: int| 0 <= j < i ==> callback_key(#[trigger] r@[j]) == self@.callbacks[j],
            decreases self@.callbacks.len() - i,
        {
            let k = self.execution_data.key(i);
            assert(self@.callbacks[i as int] == k);
            r.push(CallbackRef(k as usize));
            i += 1;
        }
        r
    }

    /// Whether [`Self::get_records`] can report the executions (see [`can_report`]).
    pub fn can_get_records(&self, objects: &ObjectStore) -> (r: bool)
        requires
            self.wf(),
        ensures
            r == can_report(self@, objects@),
    {
        let mut i: usize = 0;
        while i < self.execution_data.len()
            invariant
                self.wf(),
                i <= self@.callbacks.len(),
                forall|j: int| 0 <= j < i ==> {
                    let k = #[trigger] self@.callbacks[j];
                    &&& k < objects@.callbacks.len()
                    &&& objects@.callbacks[k as int].caller is Known
                },
                forall|j: int| 0 <= j < i ==> starts_in_order(#[trigger] self@.executions[j]),
            decreases self@.callbacks.len() - i,
        {
            let k = self.execution_data.key(i);
            if k >= objects.callback_count() as u128 {
                assert(self@.callbacks[i as int] == k);
                return false;
            }
            if objects.callback(CallbackRef(k as usize)).get_caller().is_none() {
                assert(self@.callbacks[i as int] == k);
                return false;
            }
            let data = self.execution_data.value(i);
            proof {
                self.execution_data.lemma_keys_distinct();
            }
            assert(self@.executions[i as int] == data@);
            let mut j: usize = 0;
            let n = data.len();
            while n >= 2 && j < n - 1
                invariant
                    n == data@.len(),
                    i < self@.executions.len(),
                    self@.executions[i as int] == data@,
                    n >= 2 ==> j <= n - 1,
                    forall|m: int| 0 <= m < j && m < data@.len() - 1 ==> {
                        let d = #[trigger] data@[m + 1].start_time.nanos() - data@[m].start_time.nanos();
                        0 <= d <= i64::MAX
                    },
                decreases n - j,
            {
                let a = data[j].start_time.timestamp_nanos();
                let b = data[j + 1].start_time.timestamp_nanos();
                if b < a || (b as i128) - (a as i128) > i64::MAX as i128 {
                    proof {
                        let d = data@[j + 1].start_time.nanos() - data@[j as int].start_time.nanos();
                        assert(!(0 <= d <= i64::MAX));
                        assert(!starts_in_order(self@.executions[i as int]));
                    }
                    return false;
                }
                j += 1;
            }
            assert(starts_in_order(data@));
            i += 1;
        }
        proof {
            self.execution_data.lemma_keys_distinct();
        }
        true
    }

    /// The executions of every callback: one record per callback, in the order of
    /// their first ended execution.
    pub fn get_records(&self, objects: &ObjectStore) -> (r: Vec<Record>)
        requires
            self.wf(),
            objects@.wf(),
            can_report(self@, objects@),
        ensures
            r@.len() == self@.callbacks.len(),
            forall|i: int| 0 <= i < r@.len() ==>
                reports(#[trigger] r@[i], objects@, CallbackRef(self@.callbacks[i] as usize), self@.executions[i]),
    {
        let mut records: Vec<Record> = Vec::new();
        let mut i: usize = 0;
        while i < self.execution_data.len()
            invariant
                self.wf(),
                objects@.wf(),
                i <= self@.callbacks.len(),
                forall|j: int| 0 <= j < self@.callbacks.len() ==> {
                    let k = #[trigger] self@.callbacks[j];
                    &&& k < objects@.callbacks.len()
                    &&& objects@.callbacks[k as int].caller is Known
                },
                forall|j: int| 0 <= j < self@.executions.len() ==> starts_in_order(#[trigger] self@.executions[j]),
                records@.len() == i,
                forall|j: int| 0 <= j < i ==>
                    reports(#[trigger] records@[j], objects@, CallbackRef(self@.callbacks[j] as usize), self@.executions[j]),
            decreases self@.callbacks.len() - i,
        {
            let k = self.execution_data.key(i);
            assert(self@.callbacks[i as int] == k);
            let callback = CallbackRef(k as usize);
            let data = self.execution_data.value(i);
            assert(self@.executions[i as int] == data@);
            proof {
                assert(objects@.callback_ok(objects@.callbacks[callback.0 as int]));
            }
            let node = get_node_full_name(objects, get_callback_node(objects, callback));
            let cb = objects.callback(callback);
            let caller_type = cb.get_type();
            let caller = cb.get_caller().unwrap();
            let caller_param = get_caller_param(objects, caller);
            let arrivals = match Self::get_inter_arrival_time_inner(data.as_slice()) {
                Some(v) => v,
                None => Vec::new(),
            };
            let record = Record {
                node,
                caller_type,
                caller_param,
                durations: durations(data.as_slice()),
                inter_arrival_times: arrivals,
            };
            proof {
                assert(record.inter_arrival_times@ == (if data@.len() < 2 { Seq::<i64>::empty() } else { inter_arrival_times(data@) }));
            }
            records.push(record);
            i += 1;
        }
        records
    }
}

/// The durations of a series of executions.
pub fn durations(data: &[ExecutionData]) -> (r: Vec<i64>)
    ensures
        r@ == durations_of(data@),
{
    let mut r: Vec<i64> = Vec::new();
    let mut i: usize = 0;
    while i < data.len()
        invariant
            i <= data@.len(),
            r@ == durations_of(data@.subrange(0, i as int)),
        decreases data@.len() - i,
    {
        r.push(data[i].duration);
        i += 1;
        assert(r@ =~= durations_of(data@.subrange(0, i as int)));
    }
    assert(data@.subrange(0, i as int) =~= data@);
    r
}


impl CallbackDuration {
    /// Whether the execution of `instance` that ends can be recorded (see [`can_end`]).
    fn can_end_exec(&self, objects: &ObjectStore, instance: CallbackInstanceRef) -> (r: bool)
        requires
            self.wf(),
        ensures
            r == can_end(self@, objects@, instance),
    {
        let mut i: usize = 0;
        while i < self.started_callbacks.len() && !self.started_callbacks[i].same(&instance)
            invariant
                i <= self.started_callbacks@.len(),
                forall|j: int| 0 <= j < i ==> self.started_callbacks@[j] != instance,
            decreases self.started_callbacks@.len() - i,
        {
            i += 1;
        }
        if i == self.started_callbacks.len() {
            return false;
        }
        assert(self@.started[i as int] == instance);
        if instance.0 >= objects.callback_instance_count() {
            return false;
        }
        let iv = objects.callback_instance(instance);
        match iv.get_end_time() {
            Some(end) => {
                let start = iv.get_start_time();
                start.timestamp_nanos() <= end.timestamp_nanos() && end.timestamp_nanos().checked_sub(start.timestamp_nanos()).is_some()
            },
            None => false,
        }
    }

    /// Whether [`Self::process_event`] can take the event.
    pub fn accepts(&self, full_event: &FullEvent, objects: &ObjectStore) -> (r: bool)
        requires
            self.wf(),
        ensures
            r == callback_duration_accepts(self@, *full_event, objects@),
    {
        match &full_event.event {
            Event::Ros2(ros2::Event::CallbackEnd(event)) => self.can_end_exec(objects, event.callback),
            _ => true,
        }
    }

    /// Whether [`Self::finalize`] can take the executions that never ended: none is
    /// kept yet, and every started execution is in the store and has not ended.
    pub fn can_finalize(&self, objects: &ObjectStore) -> (r: bool)
        requires
            self.wf(),
        ensures
            r == (self@.not_ended.len() == 0 && forall|i: int| 0 <= i < self@.started.len() ==> {
                let s = #[trigger] self@.started[i];
                objects@.valid_callback_instance(s) && objects@.callback_instances[s.0 as int].end_time is Unknown
            }),
    {
        if self.not_ended_callbacks.len() != 0 {
            return false;
        }
        let mut i: usize = 0;
        while i < self.started_callbacks.len()
            invariant
                i <= self@.started.len(),
                self@.started == self.started_callbacks@,
                forall|j: int| 0 <= j < i ==> {
                    let s = #[trigger] self@.started[j];
                    objects@.valid_callback_instance(s) && objects@.callback_instances[s.0 as int].end_time is Unknown
                },
            decreases self@.started.len() - i,
        {
            let s = self.started_callbacks[i];
            if s.0 >= objects.callback_instance_count() || objects.callback_instance(s).get_end_time().is_some() {
                return false;
            }
            i += 1;
        }
        true
    }
}


impl EventAnalysis for CallbackDuration {
    open spec fn consistent(&self) -> bool {
        self.wf()
    }

    open spec fn takes(&self, e: FullEvent, store: ObjectStoreView) -> bool {
        callback_duration_accepts(self@, e, store)
    }

    open spec fn finishes(&self, store: ObjectStoreView) -> bool {
        self@.not_ended.len() == 0 && forall|i: int| 0 <= i < self@.started.len() ==> {
            let s = #[trigger] self@.started[i];
            store.valid_callback_instance(s) && store.callback_instances[s.0 as int].end_time is Unknown
        }
    }

    open spec fn state(&self) -> AnalysisState {
        AnalysisState::CallbackDuration(self@)
    }

    open spec fn initial_state(&self) -> AnalysisState {
        AnalysisState::CallbackDuration(empty_callback_duration())
    }

    open spec fn state_after(&self, e: FullEvent, store: ObjectStoreView) -> AnalysisState {
        AnalysisState::CallbackDuration(callback_duration_step(self@, e, store))
    }

    open spec fn finished_state(&self, store: ObjectStoreView) -> AnalysisState {
        AnalysisState::CallbackDuration(CallbackDurationView { started: Seq::empty(), not_ended: self@.started, ..self@ })
    }

    fn initialize(&mut self) {
        CallbackDuration::initialize(self);
    }

    fn accepts(&self, e: &FullEvent, objects: &ObjectStore) -> (r: bool) {
        CallbackDuration::accepts(self, e, objects)
    }

    fn process_event(&mut self, e: &FullEvent, objects: &ObjectStore) {
        CallbackDuration::process_event(self, e, objects);
    }

    fn can_finalize(&self, objects: &ObjectStore) -> (r: bool) {
        CallbackDuration::can_finalize(self, objects)
    }

    fn finalize(&mut self, objects: &ObjectStore) {
        CallbackDuration::finalize(self, objects);
    }
}

} // verus!
