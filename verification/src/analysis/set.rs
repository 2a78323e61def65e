//! The analyses of a run, each handed every processed event once, in the order in
//! which they were added, and finalized once the events are over.
use vstd::prelude::*;

use super::{AnalysisState, EventAnalysis};
use super::callback_duration::CallbackDuration;
use super::dependency_graph::DependencyGraph;
use super::end_to_end::EndToEndAnalysis;
use super::message_latency::MessageLatency;
use super::message_take_to_callback_latency::MessageTakeToCallbackLatency;
use super::publication_in_callback::PublicationInCallback;
use super::spin_duration::SpinDuration;
use super::callback_dependency::CallbackDependency;
use crate::model::{ObjectStore, ObjectStoreView};
use crate::processed_events::FullEvent;

verus! {

/// One of the analyses of this library.
pub enum AnyAnalysis {
    CallbackDuration(CallbackDuration),
    DependencyGraph(DependencyGraph),
    EndToEnd(EndToEndAnalysis),
    MessageLatency(MessageLatency),
    MessageTakeToCallbackLatency(MessageTakeToCallbackLatency),
    PublicationInCallback(PublicationInCallback),
    SpinDuration(SpinDuration),
    CallbackDependency(CallbackDependency),
}

impl EventAnalysis for AnyAnalysis {
    open spec fn consistent(&self) -> bool {
        match self {
            AnyAnalysis::CallbackDuration(a) => a.consistent(),
            AnyAnalysis::DependencyGraph(a) => a.consistent(),
            AnyAnalysis::EndToEnd(a) => a.consistent(),
            AnyAnalysis::MessageLatency(a) => a.consistent(),
            AnyAnalysis::MessageTakeToCallbackLatency(a) => a.consistent(),
            AnyAnalysis::PublicationInCallback(a) => a.consistent(),
            AnyAnalysis::SpinDuration(a) => a.consistent(),
            AnyAnalysis::CallbackDependency(a) => a.consistent(),
        }
    }

    open spec fn takes(&self, e: FullEvent, store: ObjectStoreView) -> bool {
        match self {
            AnyAnalysis::CallbackDuration(a) => a.takes(e, store),
            AnyAnalysis::DependencyGraph(a) => a.takes(e, store),
            AnyAnalysis::EndToEnd(a) => a.takes(e, store),
            AnyAnalysis::MessageLatency(a) => a.takes(e, store),
            AnyAnalysis::MessageTakeToCallbackLatency(a) => a.takes(e, store),
            AnyAnalysis::PublicationInCallback(a) => a.takes(e, store),
            AnyAnalysis::SpinDuration(a) => a.takes(e, store),
            AnyAnalysis::CallbackDependency(a) => a.takes(e, store),
        }
    }

    open spec fn finishes(&self, store: ObjectStoreView) -> bool {
        match self {
            AnyAnalysis::CallbackDuration(a) => a.finishes(store),
            AnyAnalysis::DependencyGraph(a) => a.finishes(store),
            AnyAnalysis::EndToEnd(a) => a.finishes(store),
            AnyAnalysis::MessageLatency(a) => a.finishes(store),
            AnyAnalysis::MessageTakeToCallbackLatency(a) => a.finishes(store),
            AnyAnalysis::PublicationInCallback(a) => a.finishes(store),
            AnyAnalysis::SpinDuration(a) => a.finishes(store),
            AnyAnalysis::CallbackDependency(a) => a.finishes(store),
        }
    }

    open spec fn state(&self) -> AnalysisState {
        match self {
            AnyAnalysis::CallbackDuration(a) => a.state(),
            AnyAnalysis::DependencyGraph(a) => a.state(),
            AnyAnalysis::EndToEnd(a) => a.state(),
            AnyAnalysis::MessageLatency(a) => a.state(),
            AnyAnalysis::MessageTakeToCallbackLatency(a) => a.state(),
            AnyAnalysis::PublicationInCallback(a) => a.state(),
            AnyAnalysis::SpinDuration(a) => a.state(),
            AnyAnalysis::CallbackDependency(a) => a.state(),
        }
    }

    open spec fn initial_state(&self) -> AnalysisState {
        match self {
            AnyAnalysis::CallbackDuration(a) => a.initial_state(),
            AnyAnalysis::DependencyGraph(a) => a.initial_state(),
            AnyAnalysis::EndToEnd(a) => a.initial_state(),
            AnyAnalysis::MessageLatency(a) => a.initial_state(),
            AnyAnalysis::MessageTakeToCallbackLatency(a) => a.initial_state(),
            AnyAnalysis::PublicationInCallback(a) => a.initial_state(),
            AnyAnalysis::SpinDuration(a) => a.initial_state(),
            AnyAnalysis::CallbackDependency(a) => a.initial_state(),
        }
    }

    open spec fn state_after(&self, e: FullEvent, store: ObjectStoreView) -> AnalysisState {
        match self {
            AnyAnalysis::CallbackDuration(a) => a.state_after(e, store),
            AnyAnalysis::DependencyGraph(a) => a.state_after(e, store),
            AnyAnalysis::EndToEnd(a) => a.state_after(e, store),
            AnyAnalysis::MessageLatency(a) => a.state_after(e, store),
            AnyAnalysis::MessageTakeToCallbackLatency(a) => a.state_after(e, store),
            AnyAnalysis::PublicationInCallback(a) => a.state_after(e, store),
            AnyAnalysis::SpinDuration(a) => a.state_after(e, store),
            AnyAnalysis::CallbackDependency(a) => a.state_after(e, store),
        }
    }

    open spec fn finished_state(&self, store: ObjectStoreView) -> AnalysisState {
        match self {
            AnyAnalysis::CallbackDuration(a) => a.finished_state(store),
            AnyAnalysis::DependencyGraph(a) => a.finished_state(store),
            AnyAnalysis::EndToEnd(a) => a.finished_state(store),
            AnyAnalysis::MessageLatency(a) => a.finished_state(store),
            AnyAnalysis::MessageTakeToCallbackLatency(a) => a.finished_state(store),
            AnyAnalysis::PublicationInCallback(a) => a.finished_state(store),
            AnyAnalysis::SpinDuration(a) => a.finished_state(store),
            AnyAnalysis::CallbackDependency(a) => a.finished_state(store),
        }
    }

    fn initialize(&mut self) {
        match self {
            AnyAnalysis::CallbackDuration(a) => EventAnalysis::initialize(a),
            AnyAnalysis::DependencyGraph(a) => EventAnalysis::initialize(a),
            AnyAnalysis::EndToEnd(a) => EventAnalysis::initialize(a),
            AnyAnalysis::MessageLatency(a) => EventAnalysis::initialize(a),
            AnyAnalysis::MessageTakeToCallbackLatency(a) => EventAnalysis::initialize(a),
            AnyAnalysis::PublicationInCallback(a) => EventAnalysis::initialize(a),
            AnyAnalysis::SpinDuration(a) => EventAnalysis::initialize(a),
            AnyAnalysis::CallbackDependency(a) => EventAnalysis::initialize(a),
        }
    }

    fn accepts(&self, e: &FullEvent, objects: &ObjectStore) -> (r: bool) {
        match self {
            AnyAnalysis::CallbackDuration(a) => EventAnalysis::accepts(a, e, objects),
            AnyAnalysis::DependencyGraph(a) => EventAnalysis::accepts(a, e, objects),
            AnyAnalysis::EndToEnd(a) => EventAnalysis::accepts(a, e, objects),
            AnyAnalysis::MessageLatency(a) => EventAnalysis::accepts(a, e, objects),
            AnyAnalysis::MessageTakeToCallbackLatency(a) => EventAnalysis::accepts(a, e, objects),
            AnyAnalysis::PublicationInCallback(a) => EventAnalysis::accepts(a, e, objects),
            AnyAnalysis::SpinDuration(a) => EventAnalysis::accepts(a, e, objects),
            AnyAnalysis::CallbackDependency(a) => EventAnalysis::accepts(a, e, objects),
        }
    }

    fn process_event(&mut self, e: &FullEvent, objects: &ObjectStore) {
        match self {
            AnyAnalysis::CallbackDuration(a) => EventAnalysis::process_event(a, e, objects),
            AnyAnalysis::DependencyGraph(a) => EventAnalysis::process_event(a, e, objects),
            AnyAnalysis::EndToEnd(a) => EventAnalysis::process_event(a, e, objects),
            AnyAnalysis::MessageLatency(a) => EventAnalysis::process_event(a, e, objects),
            AnyAnalysis::MessageTakeToCallbackLatency(a) => EventAnalysis::process_event(a, e, objects),
            AnyAnalysis::PublicationInCallback(a) => EventAnalysis::process_event(a, e, objects),
            AnyAnalysis::SpinDuration(a) => EventAnalysis::process_event(a, e, objects),
            AnyAnalysis::CallbackDependency(a) => EventAnalysis::process_event(a, e, objects),
        }
    }

    fn can_finalize(&self, objects: &ObjectStore) -> (r: bool) {
        match self {
            AnyAnalysis::CallbackDuration(a) => EventAnalysis::can_finalize(a, objects),
            AnyAnalysis::DependencyGraph(a) => EventAnalysis::can_finalize(a, objects),
            AnyAnalysis::EndToEnd(a) => EventAnalysis::can_finalize(a, objects),
            AnyAnalysis::MessageLatency(a) => EventAnalysis::can_finalize(a, objects),
            AnyAnalysis::MessageTakeToCallbackLatency(a) => EventAnalysis::can_finalize(a, objects),
            AnyAnalysis::PublicationInCallback(a) => EventAnalysis::can_finalize(a, objects),
            AnyAnalysis::SpinDuration(a) => EventAnalysis::can_finalize(a, objects),
            AnyAnalysis::CallbackDependency(a) => EventAnalysis::can_finalize(a, objects),
        }
    }

    fn finalize(&mut self, objects: &ObjectStore) {
        match self {
            AnyAnalysis::CallbackDuration(a) => EventAnalysis::finalize(a, objects),
            AnyAnalysis::DependencyGraph(a) => EventAnalysis::finalize(a, objects),
            AnyAnalysis::EndToEnd(a) => EventAnalysis::finalize(a, objects),
            AnyAnalysis::MessageLatency(a) => EventAnalysis::finalize(a, objects),
            AnyAnalysis::MessageTakeToCallbackLatency(a) => EventAnalysis::finalize(a, objects),
            AnyAnalysis::PublicationInCallback(a) => EventAnalysis::finalize(a, objects),
            AnyAnalysis::SpinDuration(a) => EventAnalysis::finalize(a, objects),
            AnyAnalysis::CallbackDependency(a) => EventAnalysis::finalize(a, objects),
        }
    }
}

/// Whether every analysis is consistent.
pub open spec fn all_consistent(s: Seq<AnyAnalysis>) -> bool {
    forall|i: int| 0 <= i < s.len() ==> #[trigger] s[i].consistent()
}

/// Whether every analysis can take the event.
pub open spec fn all_take(s: Seq<AnyAnalysis>, e: FullEvent, store: ObjectStoreView) -> bool {
    forall|i: int| 0 <= i < s.len() ==> #[trigger] s[i].takes(e, store)
}

/// Whether every analysis can be finalized.
pub open spec fn all_finish(s: Seq<AnyAnalysis>, store: ObjectStoreView) -> bool {
    forall|i: int| 0 <= i < s.len() ==> #[trigger] s[i].finishes(store)
}

/// Whether `after` is `before` once each analysis has taken the event `e`, once.
pub open spec fn each_took(before: Seq<AnyAnalysis>, after: Seq<AnyAnalysis>, e: FullEvent, store: ObjectStoreView) -> bool {
    &&& after.len() == before.len()
    &&& all_consistent(after)
    &&& forall|i: int| 0 <= i < after.len() ==> #[trigger] after[i].state() == before[i].state_after(e, store)
}

/// Whether `after` is `before` once each analysis has been finalized, once.
pub open spec fn each_finished(before: Seq<AnyAnalysis>, after: Seq<AnyAnalysis>, store: ObjectStoreView) -> bool {
    &&& after.len() == before.len()
    &&& all_consistent(after)
    &&& forall|i: int| 0 <= i < after.len() ==> #[trigger] after[i].state() == before[i].finished_state(store)
}

/// The analyses of a run, in the order in which they were added.
pub struct AnalysisSet {
    analyses: Vec<AnyAnalysis>,
}

impl AnalysisSet {
    pub closed spec fn analyses(&self) -> Seq<AnyAnalysis> {
        self.analyses@
    }

    /// No analysis.
    pub fn new() -> (r: Self)
        ensures
            r.analyses() == Seq::<AnyAnalysis>::empty(),
    {
        AnalysisSet { analyses: Vec::new() }
    }

    /// Initializes an analysis and adds it after the others.
    pub fn add(&mut self, analysis: AnyAnalysis)
        requires
            all_consistent(old(self).analyses()),
        ensures
            final(self).analyses().len() == old(self).analyses().len() + 1,
            final(self).analyses().subrange(0, old(self).analyses().len() as int) == old(self).analyses(),
            final(self).analyses().last().state() == analysis.initial_state(),
            all_consistent(final(self).analyses()),
    {
        let mut a = analysis;
        a.initialize();
        self.analyses.push(a);
        assert(self.analyses@.subrange(0, old(self).analyses().len() as int) =~= old(self).analyses());
    }

    /// The number of analyses.
    pub fn len(&self) -> (r: usize)
        ensures
            r == self.analyses().len(),
    {
        self.analyses.len()
    }

    /// The analysis at position `i`.
    pub fn get(&self, i: usize) -> (r: &AnyAnalysis)
        requires
            i < self.analyses().len(),
        ensures
            *r == self.analyses()[i as int],
    {
        &self.analyses[i]
    }

    /// Whether every analysis can take the event.
    pub fn accepts(&self, e: &FullEvent, objects: &ObjectStore) -> (r: bool)
        requires
            all_consistent(self.analyses()),
            objects@.wf(),
        ensures
            r == all_take(self.analyses(), *e, objects@),
    {
        let mut i: usize = 0;
        while i < self.analyses.len()
            invariant
                all_consistent(self.analyses()),
                objects@.wf(),
                i <= self.analyses@.len(),
                forall|j: int| 0 <= j < i ==> #[trigger] self.analyses@[j].takes(*e, objects@),
            decreases self.analyses@.len() - i,
        {
            if !self.analyses[i].accepts(e, objects) {
                return false;
            }
            i += 1;
        }
        true
    }

    /// Hands the event to each analysis once, in order.
    pub fn process_event(&mut self, e: &FullEvent, objects: &ObjectStore)
        requires
            all_consistent(old(self).analyses()),
            objects@.wf(),
            all_take(old(self).analyses(), *e, objects@),
        ensures
            each_took(old(self).analyses(), final(self).analyses(), *e, objects@),
    {
        let ghost before = self.analyses@;
        let mut rest: Vec<AnyAnalysis> = Vec::new();
        std::mem::swap(&mut rest, &mut self.analyses);
        let mut done: Vec<AnyAnalysis> = Vec::new();
        while rest.len() > 0
            invariant
                objects@.wf(),
                done@.len() + rest@.len() == before.len(),
                rest@ == before.subrange(done@.len() as int, before.len() as int),
                all_consistent(before),
                all_take(before, *e, objects@),
                all_consistent(done@),
                forall|i: int| 0 <= i < done@.len() ==> #[trigger] done@[i].state() == before[i].state_after(*e, objects@),
            decreases rest@.len(),
        {
            let ghost k = done@.len() as int;
            assert(rest@[0] == before[k]);
            let mut a = rest.remove(0);
            a.process_event(e, objects);
            done.push(a);
            assert(rest@ =~= before.subrange(done@.len() as int, before.len() as int));
        }
        self.analyses = done;
    }

    /// Whether every analysis can be finalized.
    pub fn can_finalize(&self, objects: &ObjectStore) -> (r: bool)
        requires
            all_consistent(self.analyses()),
            objects@.wf(),
        ensures
            r == all_finish(self.analyses(), objects@),
    {
        let mut i: usize = 0;
        while i < self.analyses.len()
            invariant
                all_consistent(self.analyses()),
                objects@.wf(),
                i <= self.analyses@.len(),
                forall|j: int| 0 <= j < i ==> #[trigger] self.analyses@[j].finishes(objects@),
            decreases self.analyses@.len() - i,
        {
            if !self.analyses[i].can_finalize(objects) {
                return false;
            }
            i += 1;
        }
        true
    }

    /// Finalizes each analysis once, in order.
    pub fn finalize(&mut self, objects: &ObjectStore)
        requires
            all_consistent(old(self).analyses()),
            objects@.wf(),
            all_finish(old(self).analyses(), objects@),
        ensures
            each_finished(old(self).analyses(), final(self).analyses(), objects@),
    {
        let ghost before = self.analyses@;
        let mut rest: Vec<AnyAnalysis> = Vec::new();
        std::mem::swap(&mut rest, &mut self.analyses);
        let mut done: Vec<AnyAnalysis> = Vec::new();
        while rest.len() > 0
            invariant
                objects@.wf(),
                done@.len() + rest@.len() == before.len(),
                rest@ == before.subrange(done@.len() as int, before.len() as int),
                all_consistent(before),
                all_finish(before, objects@),
                all_consistent(done@),
                forall|i: int| 0 <= i < done@.len() ==> #[trigger] done@[i].state() == before[i].finished_state(objects@),
            decreases rest@.len(),
        {
            let ghost k = done@.len() as int;
            assert(rest@[0] == before[k]);
            let mut a = rest.remove(0);
            a.finalize(objects);
            done.push(a);
            assert(rest@ =~= before.subrange(done@.len() as int, before.len() as int));
        }
        self.analyses = done;
    }
}

} // verus!
