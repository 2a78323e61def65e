//! The decisions taken for each message of a trace: which messages are skipped,
//! which events are processed, and what is counted.
use vstd::prelude::*;

use crate::analysis::set::{all_consistent, all_finish, all_take, each_finished, each_took, AnalysisSet, AnyAnalysis};
use crate::analysis::EventAnalysis;
use crate::processed_events;
use crate::processor::error::{outcome, ProcessorError};
use crate::processor::{event_ok, process_event, MaybeProcessed, Processor, ProcessorView};
use crate::raw_events;

verus! {

/// The kinds of messages of a trace.
#[derive(Debug, Clone, Copy, PartialEq, Eq)]
pub enum BtMessageType {
    StreamBeginning,
    StreamEnd,
    PacketBeginning,
    PacketEnd,
    DiscardedEvents,
    DiscardedPackets,
    MessageIteratorInactivity,
    Event,
}

/// What to do with a message.
#[derive(Debug, Clone, Copy, PartialEq, Eq)]
pub enum MessageAction {
    /// Skip it silently.
    Skip,
    /// Skip it with a warning; it is counted as another message.
    SkipWithWarning,
    /// Decode the event it carries.
    Decode,
}

/// What to do with a message of each kind: stream and packet boundaries are skipped
/// silently, discarded events or packets and inactivity are skipped with a warning,
/// and events are decoded.
pub open spec fn action_for(t: BtMessageType) -> MessageAction {
    match t {
        BtMessageType::StreamBeginning | BtMessageType::StreamEnd | BtMessageType::PacketBeginning | BtMessageType::PacketEnd => MessageAction::Skip,
        BtMessageType::DiscardedEvents | BtMessageType::DiscardedPackets | BtMessageType::MessageIteratorInactivity => MessageAction::SkipWithWarning,
        BtMessageType::Event => MessageAction::Decode,
    }
}

/// How many messages and events of each outcome were met.
#[derive(Debug, Clone, Copy, PartialEq, Eq)]
pub struct EventCounters {
    pub ros_processed_events: usize,
    pub ros_unsupported_events: usize,
    pub ros_processing_failures: usize,
    pub other_events: usize,
    pub other_messages: usize,
}

/// No message met yet.
pub open spec fn zero_counters() -> EventCounters {
    EventCounters {
        ros_processed_events: 0,
        ros_unsupported_events: 0,
        ros_processing_failures: 0,
        other_events: 0,
        other_messages: 0,
    }
}

/// What became of an event handed to the processor.
#[derive(Debug)]
pub enum EventStep {
    /// It was processed; the analyses take it and the iterator yields it.
    Processed(processed_events::FullEvent),
    /// The processor does not support it; it goes to the handler of such events.
    Unsupported(raw_events::FullEvent),
    /// Processing it failed; the iterator yields the error.
    Failed(ProcessorError),
    /// It was processed, but one of the analyses cannot take it; none took it.
    Refused(processed_events::FullEvent),
}

/// The counters once an event with the given outcome was handled.
pub open spec fn count_outcome<E>(c: EventCounters, r: Result<MaybeProcessed<processed_events::FullEvent, raw_events::FullEvent>, E>) -> EventCounters {
    match r {
        Ok(MaybeProcessed::Processed(_)) => EventCounters { ros_processed_events: (c.ros_processed_events + 1) as usize, ..c },
        Ok(MaybeProcessed::Raw(_)) => EventCounters { ros_unsupported_events: (c.ros_unsupported_events + 1) as usize, ..c },
        Err(_) => EventCounters { ros_processing_failures: (c.ros_processing_failures + 1) as usize, ..c },
    }
}

/// Whether the counter that an outcome increments can still grow.
pub open spec fn room_for<E>(c: EventCounters, r: Result<MaybeProcessed<processed_events::FullEvent, raw_events::FullEvent>, E>) -> bool {
    match r {
        Ok(MaybeProcessed::Processed(_)) => c.ros_processed_events < usize::MAX,
        Ok(MaybeProcessed::Raw(_)) => c.ros_unsupported_events < usize::MAX,
        Err(_) => c.ros_processing_failures < usize::MAX,
    }
}

/// Turns the trace's messages into processed events, counting what it meets.
pub struct ProcessedEventsIter {
    processor: Processor,
    counters: EventCounters,
    analyses: AnalysisSet,
}

impl ProcessedEventsIter {
    pub closed spec fn processor_view(&self) -> ProcessorView {
        self.processor@
    }

    pub closed spec fn counters_view(&self) -> EventCounters {
        self.counters
    }

    /// The analyses that take the processed events, in the order in which they were
    /// added.
    pub closed spec fn analyses_view(&self) -> Seq<AnyAnalysis> {
        self.analyses.analyses()
    }

    pub fn new() -> (r: Self)
        ensures
            r.processor_view().wf(),
            r.processor_view() == crate::processor::empty_processor(),
            r.counters_view() == zero_counters(),
            r.analyses_view() == Seq::<AnyAnalysis>::empty(),
    {
        ProcessedEventsIter { processor: Processor::new(), counters: EventCounters {
            ros_processed_events: 0,
            ros_unsupported_events: 0,
            ros_processing_failures: 0,
            other_events: 0,
            other_messages: 0,
        }, analyses: AnalysisSet::new() }
    }

    /// Initializes an analysis and adds it after the others.
    pub fn add_analysis(&mut self, analysis: AnyAnalysis)
        requires
            all_consistent(old(self).analyses_view()),
        ensures
            final(self).processor_view() == old(self).processor_view(),
            final(self).counters_view() == old(self).counters_view(),
            final(self).analyses_view().len() == old(self).analyses_view().len() + 1,
            final(self).analyses_view().subrange(0, old(self).analyses_view().len() as int) == old(self).analyses_view(),
            final(self).analyses_view().last().state() == analysis.initial_state(),
            all_consistent(final(self).analyses_view()),
    {
        self.analyses.add(analysis);
    }

    /// The analyses.
    pub fn analyses(&self) -> (r: &AnalysisSet)
        ensures
            r.analyses() == self.analyses_view(),
    {
        &self.analyses
    }

    /// Once the trace is over: finalizes each analysis once, in order, when all of them
    /// can be; otherwise changes nothing.
    pub fn finish(&mut self) -> (r: bool)
        requires
            old(self).processor_view().wf(),
            all_consistent(old(self).analyses_view()),
        ensures
            final(self).processor_view() == old(self).processor_view(),
            final(self).counters_view() == old(self).counters_view(),
            r == all_finish(old(self).analyses_view(), old(self).processor_view().objects),
            r ==> each_finished(old(self).analyses_view(), final(self).analyses_view(), old(self).processor_view().objects),
            !r ==> final(self).analyses_view() == old(self).analyses_view(),
    {
        if self.analyses.can_finalize(self.processor.objects()) {
            self.analyses.finalize(self.processor.objects());
            true
        } else {
            false
        }
    }

    /// Decides what to do with a message of kind `t`, counting a skipped one that
    /// deserves a warning.
    pub fn on_message(&mut self, t: BtMessageType) -> (r: MessageAction)
        requires
            action_for(t) == MessageAction::SkipWithWarning ==> old(self).counters_view().other_messages < usize::MAX,
        ensures
            r == action_for(t),
            final(self).processor_view() == old(self).processor_view(),
            final(self).counters_view() == (if r == MessageAction::SkipWithWarning {
                EventCounters { other_messages: (old(self).counters_view().other_messages + 1) as usize, ..old(self).counters_view() }
            } else {
                old(self).counters_view()
            }),
    {
        match t {
            BtMessageType::StreamBeginning | BtMessageType::StreamEnd | BtMessageType::PacketBeginning | BtMessageType::PacketEnd => MessageAction::Skip,
            BtMessageType::DiscardedEvents | BtMessageType::DiscardedPackets | BtMessageType::MessageIteratorInactivity => {
                self.counters.other_messages += 1;
                MessageAction::SkipWithWarning
            },
            BtMessageType::Event => MessageAction::Decode,
        }
    }

    /// Counts an event that no supported tracepoint describes.
    pub fn on_unsupported_tracepoint(&mut self)
        requires
            old(self).counters_view().other_events < usize::MAX,
        ensures
            final(self).processor_view() == old(self).processor_view(),
            final(self).counters_view() == (EventCounters {
                other_events: (old(self).counters_view().other_events + 1) as usize,
                ..old(self).counters_view()
            }),
    {
        self.counters.other_events += 1;
    }

    /// Hands a decoded event to the processor and counts the outcome.
    pub fn on_event(&mut self, event: raw_events::FullEvent) -> (r: EventStep)
        requires
            old(self).processor_view().wf(),
            event_ok(old(self).processor_view(), event),
            room_for(old(self).counters_view(), process_event(old(self).processor_view(), event).1),
            all_consistent(old(self).analyses_view()),
        ensures
            final(self).processor_view().wf(),
            final(self).processor_view() == process_event(old(self).processor_view(), event).0,
            final(self).counters_view() == count_outcome(old(self).counters_view(), process_event(old(self).processor_view(), event).1),
            all_consistent(final(self).analyses_view()),
            match (r, process_event(old(self).processor_view(), event).1) {
                (EventStep::Processed(p), Ok(MaybeProcessed::Processed(q))) => p == q && all_take(
                    old(self).analyses_view(),
                    q,
                    final(self).processor_view().objects,
                ) && each_took(old(self).analyses_view(), final(self).analyses_view(), q, final(self).processor_view().objects),
                (EventStep::Refused(p), Ok(MaybeProcessed::Processed(q))) => p == q && !all_take(
                    old(self).analyses_view(),
                    q,
                    final(self).processor_view().objects,
                ) && final(self).analyses_view() == old(self).analyses_view(),
                (EventStep::Unsupported(p), Ok(MaybeProcessed::Raw(q))) => p == q && final(self).analyses_view()
                    == old(self).analyses_view(),
                (EventStep::Failed(e), Err(f)) => outcome::<()>(Err(e)) == Err::<(), _>(f) && final(self).analyses_view()
                    == old(self).analyses_view(),
                _ => false,
            },
    {
        match self.processor.process_raw_event(event) {
            Ok(MaybeProcessed::Processed(processed)) => {
                self.counters.ros_processed_events += 1;
                if self.analyses.accepts(&processed, self.processor.objects()) {
                    self.analyses.process_event(&processed, self.processor.objects());
                    EventStep::Processed(processed)
                } else {
                    EventStep::Refused(processed)
                }
            },
            Ok(MaybeProcessed::Raw(raw)) => {
                self.counters.ros_unsupported_events += 1;
                EventStep::Unsupported(raw)
            },
            Err(err) => {
                self.counters.ros_processing_failures += 1;
                EventStep::Failed(err)
            },
        }
    }

    /// Whether [`Self::on_event`] can take the event.
    pub fn can_take(&self, event: &raw_events::FullEvent) -> (r: bool)
        requires
            self.processor_view().wf(),
        ensures
            r == event_ok(self.processor_view(), *event),
    {
        self.processor.can_process_raw_event(event)
    }

    /// The counters so far.
    pub fn counters(&self) -> (r: EventCounters)
        ensures
            r == self.counters_view(),
    {
        self.counters
    }

    /// The processor, whose objects the analyses read.
    pub fn processor(&self) -> (r: &Processor)
        ensures
            r@ == self.processor_view(),
    {
        &self.processor
    }
}


/// How many messages and events were met in all.
pub open spec fn total(c: EventCounters) -> int {
    c.ros_processed_events + c.ros_unsupported_events + c.ros_processing_failures + c.other_events + c.other_messages
}

/// Each event handed to the processor is counted exactly once, under its outcome.
pub proof fn law_each_event_counted_once<E>(c: EventCounters, r: Result<MaybeProcessed<processed_events::FullEvent, raw_events::FullEvent>, E>)
    requires
        room_for(c, r),
    ensures
        total(count_outcome(c, r)) == total(c) + 1,
{
}

} // verus!
