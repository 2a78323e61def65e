//! Analyses computed over the stream of processed events.
use vstd::prelude::*;

use crate::model::{ObjectStore, ObjectStoreView};
use crate::processed_events::FullEvent;
use callback_dependency::CallbackDependencyView;
use callback_duration::CallbackDurationView;
use dependency_graph::DependencyGraphView;
use end_to_end::EndToEndView;
use message_latency::MessageLatencyView;
use message_take_to_callback_latency::MessageTakeToCallbackLatencyView;
use publication_in_callback::PublicationInCallbackView;
use spin_duration::SpinDurationView;

pub mod callback_dependency;
pub mod callback_duration;
pub mod dependency_graph;
pub mod describe;
pub mod dot_text;
pub mod end_to_end;
pub mod keyed;
pub mod message_latency;
pub mod message_take_to_callback_latency;
pub mod publication_in_callback;
pub mod set;
pub mod spin_duration;
pub mod statistics;
pub mod text_order;
pub mod threads;
pub mod utilization;
pub mod utils;

verus! {

/// The abstract state of one of the analyses of this library.
pub enum AnalysisState {
    CallbackDuration(CallbackDurationView),
    DependencyGraph(DependencyGraphView),
    EndToEnd(EndToEndView),
    MessageLatency(MessageLatencyView),
    MessageTakeToCallbackLatency(MessageTakeToCallbackLatencyView),
    PublicationInCallback(PublicationInCallbackView),
    SpinDuration(SpinDurationView),
    CallbackDependency(CallbackDependencyView),
}

/// An analysis computed over the processed events, one event at a time, with the
/// objects that the processor has reconstructed so far.
pub trait EventAnalysis {
    /// The analysis's own consistency.
    spec fn consistent(&self) -> bool;

    /// Whether the analysis can take the event, given the objects of `store`.
    spec fn takes(&self, e: FullEvent, store: ObjectStoreView) -> bool;

    /// Whether the analysis can be finalized, given the objects of `store`.
    spec fn finishes(&self, store: ObjectStoreView) -> bool;

    /// The abstract state of the analysis.
    spec fn state(&self) -> AnalysisState;

    /// The state of the analysis before it has taken any event.
    spec fn initial_state(&self) -> AnalysisState;

    /// The state once the event `e` has been taken, given the objects of `store`.
    spec fn state_after(&self, e: FullEvent, store: ObjectStoreView) -> AnalysisState;

    /// The state once finalized, given the objects of `store`.
    spec fn finished_state(&self, store: ObjectStoreView) -> AnalysisState;

    /// Forgets everything.
    fn initialize(&mut self)
        ensures
            final(self).consistent(),
            final(self).state() == old(self).initial_state(),
    ;

    /// Whether [`Self::process_event`] can take the event.
    fn accepts(&self, e: &FullEvent, objects: &ObjectStore) -> (r: bool)
        requires
            self.consistent(),
            objects@.wf(),
        ensures
            r == self.takes(*e, objects@),
    ;

    /// Takes one event.
    fn process_event(&mut self, e: &FullEvent, objects: &ObjectStore)
        requires
            old(self).consistent(),
            objects@.wf(),
            old(self).takes(*e, objects@),
        ensures
            final(self).consistent(),
            final(self).state() == old(self).state_after(*e, objects@),
    ;

    /// Whether [`Self::finalize`] can run.
    fn can_finalize(&self, objects: &ObjectStore) -> (r: bool)
        requires
            self.consistent(),
            objects@.wf(),
        ensures
            r == self.finishes(objects@),
    ;

    /// Completes the analysis once every event has been taken.
    fn finalize(&mut self, objects: &ObjectStore)
        requires
            old(self).consistent(),
            objects@.wf(),
            old(self).finishes(objects@),
        ensures
            final(self).consistent(),
            final(self).state() == old(self).finished_state(objects@),
    ;
}

} // verus!
