//! How long each node works after a spin wakes it up, per node.
use vstd::prelude::*;

use crate::model::{NodeRef, ObjectStore, ObjectStoreView};
use crate::processed_events::{r2r, Event, FullEvent};

use super::dependency_graph::{fits_i64, key_of, since};
use super::keyed::{lemma_series_push, series_of, series_push, KeyedList};

use super::{AnalysisState, EventAnalysis};

verus! {

broadcast use crate::model::store::lemma_view_fits;

/// Collects, per node, the time from each spin wake-up to the end of that spin.
#[derive(Debug)]
pub struct SpinDuration {
    processing_durations: KeyedList<Vec<i64>>,
}

/// The abstract state of a [`SpinDuration`].
pub struct SpinDurationView {
    /// The keys of the nodes, in order of first spin end.
    pub nodes: Seq<u128>,
    /// The processing durations of each node, in order.
    pub durations: Seq<Seq<i64>>,
}

impl View for SpinDuration {
    type V = SpinDurationView;

    closed spec fn view(&self) -> SpinDurationView {
        SpinDurationView { nodes: self.processing_durations.keys(), durations: self.processing_durations.series() }
    }
}

/// The analysis before any event.
pub open spec fn empty_spin_duration() -> SpinDurationView {
    SpinDurationView { nodes: Seq::empty(), durations: Seq::empty() }
}

/// Whether the analysis can take the event: a spin that ends is known, with known
/// wake-up and end times whose difference fits an `i64`.
pub open spec fn spin_duration_accepts(e: FullEvent, store: ObjectStoreView) -> bool {
    match e.event {
        Event::R2r(r2r::Event::SpinEnd(x)) => {
            let sv = store.spin_instances[x.spin->Some_0.0 as int];
            &&& x.spin is Some
            &&& store.valid_spin_instance(x.spin->Some_0)
            &&& sv.wake_time is Known
            &&& sv.end_time is Known
            &&& fits_i64(sv.end_time->Known_0.nanos() - sv.wake_time->Known_0.nanos())
        },
        _ => true,
    }
}

/// The analysis after an event: the end of a spin adds the time from its wake-up to
/// its end to the node's durations.
pub open spec fn spin_duration_step(a: SpinDurationView, e: FullEvent, store: ObjectStoreView) -> SpinDurationView {
    match e.event {
        Event::R2r(r2r::Event::SpinEnd(x)) => {
            let sv = store.spin_instances[x.spin->Some_0.0 as int];
            let (nodes, durations) = series_push(a.nodes, a.durations, key_of(x.node.0), since(sv.end_time->Known_0, sv.wake_time->Known_0));
            SpinDurationView { nodes, durations }
        },
        _ => a,
    }
}

impl SpinDuration {
    pub closed spec fn wf(&self) -> bool {
        &&& self.processing_durations.wf()
        &&& forall|i: int| 0 <= i < self.processing_durations.keys().len() ==> #[trigger] self.processing_durations.keys()[i] <= usize::MAX
    }

    pub fn new() -> (r: Self)
        ensures
            r.wf(),
            r@ == empty_spin_duration(),
    {
        let r = SpinDuration { processing_durations: KeyedList::new() };
        assert(r@.durations =~= Seq::<Seq<i64>>::empty());
        r
    }

    /// Forgets everything.
    pub fn initialize(&mut self)
        ensures
            final(self).wf(),
            final(self)@ == empty_spin_duration(),
    {
        self.processing_durations.clear();
        assert(self@.durations =~= Seq::<Seq<i64>>::empty());
    }

    /// Takes one event (see [`spin_duration_step`]).
    pub fn process_event(&mut self, full_event: &FullEvent, objects: &ObjectStore)
        requires
            old(self).wf(),
            spin_duration_accepts(*full_event, objects@),
        ensures
            final(self).wf(),
            final(self)@ == spin_duration_step(old(self)@, *full_event, objects@),
    {
        if let Event::R2r(r2r::Event::SpinEnd(event)) = &full_event.event {
            let spin = objects.spin_instance(event.spin.unwrap());
            let start_time = spin.get_wake_time().unwrap();
            let end_time = spin.get_end_time().unwrap();
            let duration = end_time.timestamp_nanos() - start_time.timestamp_nanos();
            self.processing_durations.append(event.node.0 as u128, duration);
        }
    }

    /// Whether [`Self::process_event`] can take the event.
    pub fn accepts(full_event: &FullEvent, objects: &ObjectStore) -> (r: bool)
        ensures
            r == spin_duration_accepts(*full_event, objects@),
    {
        if let Event::R2r(r2r::Event::SpinEnd(event)) = &full_event.event {
            let s = match event.spin {
                Some(s) => s,
                None => {
                    return false;
                },
            };
            if s.0 >= objects.spin_instance_count() {
                return false;
            }
            let spin = objects.spin_instance(s);
            match (spin.get_wake_time(), spin.get_end_time()) {
                (Some(w), Some(e)) => e.timestamp_nanos().checked_sub(w.timestamp_nanos()).is_some(),
                _ => false,
            }
        } else {
            true
        }
    }

    /// The number of nodes with a duration.
    pub fn len(&self) -> (r: usize)
        requires
            self.wf(),
        ensures
            r == self@.nodes.len(),
            r == self@.durations.len(),
    {
        self.processing_durations.len()
    }

    /// The `i`-th node, in order of first spin end, and its durations.
    pub fn entry(&self, i: usize) -> (r: (NodeRef, &[i64]))
        requires
            self.wf(),
            i < self@.nodes.len(),
        ensures
            key_of(r.0.0) == self@.nodes[i as int],
            r.1@ == self@.durations[i as int],
    {
        let k = self.processing_durations.key(i);
        let v = self.processing_durations.value(i);
        (NodeRef(k as usize), v.as_slice())
    }
}


impl EventAnalysis for SpinDuration {
    open spec fn consistent(&self) -> bool {
        self.wf()
    }

    open spec fn takes(&self, e: FullEvent, store: ObjectStoreView) -> bool {
        spin_duration_accepts(e, store)
    }

    open spec fn finishes(&self, store: ObjectStoreView) -> bool {
        true
    }

    open spec fn state(&self) -> AnalysisState {
        AnalysisState::SpinDuration(self@)
    }

    open spec fn initial_state(&self) -> AnalysisState {
        AnalysisState::SpinDuration(empty_spin_duration())
    }

    open spec fn state_after(&self, e: FullEvent, store: ObjectStoreView) -> AnalysisState {
        AnalysisState::SpinDuration(spin_duration_step(self@, e, store))
    }

    open spec fn finished_state(&self, store: ObjectStoreView) -> AnalysisState {
        AnalysisState::SpinDuration(self@)
    }

    fn initialize(&mut self) {
        SpinDuration::initialize(self);
    }

    fn accepts(&self, e: &FullEvent, objects: &ObjectStore) -> (r: bool) {
        SpinDuration::accepts(e, objects)
    }

    fn process_event(&mut self, e: &FullEvent, objects: &ObjectStore) {
        SpinDuration::process_event(self, e, objects);
    }

    fn can_finalize(&self, objects: &ObjectStore) -> (r: bool) {
        true
    }

    fn finalize(&mut self, objects: &ObjectStore) {
    }
}

/// The end of a spin of a node appends the spin's duration, its end time minus its
/// wake-up time, to the durations of that node, and leaves the durations of every
/// other node as they were.
pub proof fn law_spin_end_extends_its_node(a: SpinDurationView, e: FullEvent, store: ObjectStoreView, x: r2r::SpinEnd)
    requires
        a.nodes.no_duplicates(),
        a.nodes.len() == a.durations.len(),
        e.event == Event::R2r(r2r::Event::SpinEnd(x)),
        spin_duration_accepts(e, store),
    ensures
        ({
            let b = spin_duration_step(a, e, store);
            let sv = store.spin_instances[x.spin->Some_0.0 as int];
            &&& b.nodes.no_duplicates()
            &&& b.nodes.len() == b.durations.len()
            &&& series_of(b.nodes, b.durations, x.node.0 as u128) == series_of(a.nodes, a.durations, x.node.0 as u128).push(
                (sv.end_time->Known_0.nanos() - sv.wake_time->Known_0.nanos()) as i64,
            )
            &&& forall|k: u128| k != x.node.0 as u128 ==> #[trigger] series_of(b.nodes, b.durations, k) == series_of(
                a.nodes,
                a.durations,
                k,
            )
        }),
{
    let sv = store.spin_instances[x.spin->Some_0.0 as int];
    lemma_series_push(a.nodes, a.durations, key_of(x.node.0), since(sv.end_time->Known_0, sv.wake_time->Known_0));
}

} // verus!
