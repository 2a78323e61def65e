//! Which publishers publish from within which callbacks.
use vstd::prelude::*;

use crate::events_common::ContextView;
use crate::known::Known;
use crate::model::{CallbackRef, ObjectStore, ObjectStoreView, PublicationMessageRef, PublisherRef};
use crate::processed_events::{ros2, Event, FullEvent};

use super::threads::{thread_of, RunningCallbacks};

use super::{AnalysisState, EventAnalysis};

verus! {

broadcast use crate::model::store::lemma_view_fits;

/// Records, per thread, the callback execution that runs on it, and every
/// (publisher, callback) pair where the publisher published while the callback ran
/// on the same thread.
#[derive(Debug)]
pub struct PublicationInCallback {
    active_callbacks: RunningCallbacks,
    dependency: Vec<(PublisherRef, CallbackRef)>,
}

/// The abstract state of a [`PublicationInCallback`].
pub struct PublicationInCallbackView {
    /// The execution running on each thread.
    pub active: Map<(u32, Seq<char>), crate::model::CallbackInstanceRef>,
    /// The pairs found so far, each once, in order of discovery.
    pub dependency: Seq<(PublisherRef, CallbackRef)>,
}

impl View for PublicationInCallback {
    type V = PublicationInCallbackView;

    closed spec fn view(&self) -> PublicationInCallbackView {
        PublicationInCallbackView { active: self.active_callbacks@, dependency: self.dependency@ }
    }
}

/// The analysis before any event.
pub open spec fn empty_publication_in_callback() -> PublicationInCallbackView {
    PublicationInCallbackView { active: Map::empty(), dependency: Seq::empty() }
}

/// The pair that a publication of `message` on the thread of `context` adds, if a
/// callback runs there.
pub open spec fn published_pair(a: PublicationInCallbackView, store: ObjectStoreView, message: PublicationMessageRef, context: ContextView) -> Option<(PublisherRef, CallbackRef)> {
    let t = thread_of(context);
    if a.active.dom().contains(t) {
        Some((
            store.publication_messages[message.0 as int].publisher->Known_0,
            store.callback_instances[a.active[t].0 as int].callback,
        ))
    } else {
        None
    }
}

/// Whether the analysis can take the event: an execution starts on a thread that runs
/// none, ends on the thread where it runs, and a message published inside a callback
/// has a known publisher.
pub open spec fn publication_in_callback_accepts(a: PublicationInCallbackView, e: FullEvent, store: ObjectStoreView) -> bool {
    let t = thread_of(e.context@);
    match e.event {
        Event::Ros2(ros2::Event::CallbackStart(x)) => !a.active.dom().contains(t),
        Event::Ros2(ros2::Event::CallbackEnd(x)) => a.active.dom().contains(t) && a.active[t] == x.callback,
        Event::Ros2(ros2::Event::RmwPublish(x)) => a.active.dom().contains(t) ==> {
            &&& store.valid_publication_message(x.message)
            &&& store.publication_messages[x.message.0 as int].publisher is Known
            &&& store.valid_callback_instance(a.active[t])
        },
        _ => true,
    }
}

/// The analysis after an event.
pub open spec fn publication_in_callback_step(a: PublicationInCallbackView, e: FullEvent, store: ObjectStoreView) -> PublicationInCallbackView {
    let t = thread_of(e.context@);
    match e.event {
        Event::Ros2(ros2::Event::CallbackStart(x)) => PublicationInCallbackView { active: a.active.insert(t, x.callback), ..a },
        Event::Ros2(ros2::Event::CallbackEnd(x)) => PublicationInCallbackView { active: a.active.remove(t), ..a },
        Event::Ros2(ros2::Event::RmwPublish(x)) => match published_pair(a, store, x.message, e.context@) {
            Some(d) => PublicationInCallbackView {
                dependency: if a.dependency.contains(d) { a.dependency } else { a.dependency.push(d) },
                ..a
            },
            None => a,
        },
        _ => a,
    }
}

impl PublicationInCallback {
    /// The thread table holds and no pair occurs twice.
    pub closed spec fn wf(&self) -> bool {
        self.active_callbacks.wf() && self.dependency@.no_duplicates()
    }

    pub fn new() -> (r: Self)
        ensures
            r.wf(),
            r@ == empty_publication_in_callback(),
    {
        let r = PublicationInCallback { active_callbacks: RunningCallbacks::new(), dependency: Vec::new() };
        assert(r@.dependency =~= Seq::<(PublisherRef, CallbackRef)>::empty());
        r
    }

    /// Forgets everything.
    pub fn initialize(&mut self)
        ensures
            final(self).wf(),
            final(self)@ == empty_publication_in_callback(),
    {
        self.active_callbacks.clear();
        self.dependency.clear();
        assert(self@.dependency =~= Seq::<(PublisherRef, CallbackRef)>::empty());
    }

    /// Adds a pair unless it is already there.
    fn add_dependency(&mut self, d: (PublisherRef, CallbackRef))
        requires
            old(self).wf(),
        ensures
            final(self).wf(),
            final(self)@ == (PublicationInCallbackView {
                dependency: if old(self)@.dependency.contains(d) { old(self)@.dependency } else { old(self)@.dependency.push(d) },
                ..old(self)@
            }),
    {
        let mut i: usize = 0;
        while i < self.dependency.len()
            invariant
                self.wf(),
                self@ == old(self)@,
                i <= self.dependency@.len(),
                forall|j: int| 0 <= j < i ==> self.dependency@[j] != d,
            decreases self.dependency@.len() - i,
        {
            let (p, c) = self.dependency[i];
            if p.0 == d.0.0 && c.0 == d.1.0 {
                assert(self.dependency@[i as int] == d);
                return;
            }
            i += 1;
        }
        assert(!self.dependency@.contains(d));
        self.dependency.push(d);
        proof {
            let s = self.dependency@;
            assert forall|a: int, b: int| 0 <= a < s.len() && 0 <= b < s.len() && a != b implies s[a] != s[b] by {
                if a == s.len() - 1 {
                    assert(old(self)@.dependency[b] != d);
                }
                if b == s.len() - 1 {
                    assert(old(self)@.dependency[a] != d);
                }
            }
        }
    }

    /// Takes one event (see [`publication_in_callback_step`]).
    pub fn process_event(&mut self, full_event: &FullEvent, objects: &ObjectStore)
        requires
            old(self).wf(),
            objects@.wf(),
            publication_in_callback_accepts(old(self)@, *full_event, objects@),
        ensures
            final(self).wf(),
            final(self)@ == publication_in_callback_step(old(self)@, *full_event, objects@),
    {
        let context = &full_event.context;
        match &full_event.event {
            Event::Ros2(ros2::Event::CallbackStart(event)) => {
                self.active_callbacks.insert(context, event.callback);
            },
            Event::Ros2(ros2::Event::CallbackEnd(event)) => {
                let _ = self.active_callbacks.remove(context);
            },
            Event::Ros2(ros2::Event::RmwPublish(event)) => {
                if let Some(instance) = self.active_callbacks.get(context) {
                    let publisher = match objects.publication_message(event.message).get_publisher() {
                        Some(p) => p,
                        None => {
                            assert(false);
                            return;
                        },
                    };
                    let callback = objects.callback_instance(instance).get_callback();
                    self.add_dependency((publisher, callback));
                }
            },
            _ => {},
        }
    }

    /// Whether [`Self::process_event`] can take the event.
    pub fn accepts(&self, full_event: &FullEvent, objects: &ObjectStore) -> (r: bool)
        requires
            self.wf(),
        ensures
            r == publication_in_callback_accepts(self@, *full_event, objects@),
    {
        let context = &full_event.context;
        match &full_event.event {
            Event::Ros2(ros2::Event::CallbackStart(_)) => self.active_callbacks.get(context).is_none(),
            Event::Ros2(ros2::Event::CallbackEnd(event)) => match self.active_callbacks.get(context) {
                Some(i) => i.0 == event.callback.0,
                None => false,
            },
            Event::Ros2(ros2::Event::RmwPublish(event)) => match self.active_callbacks.get(context) {
                Some(i) => {
                    event.message.0 < objects.publication_message_count()
                        && objects.publication_message(event.message).get_publisher().is_some()
                        && i.0 < objects.callback_instance_count()
                },
                None => true,
            },
            _ => true,
        }
    }

    /// The pairs found, each once, in order of discovery.
    pub fn get_dependency(&self) -> (r: &[(PublisherRef, CallbackRef)])
        ensures
            r@ == self@.dependency,
    {
        self.dependency.as_slice()
    }
}


impl EventAnalysis for PublicationInCallback {
    open spec fn consistent(&self) -> bool {
        self.wf()
    }

    open spec fn takes(&self, e: FullEvent, store: ObjectStoreView) -> bool {
        publication_in_callback_accepts(self@, e, store)
    }

    open spec fn finishes(&self, store: ObjectStoreView) -> bool {
        true
    }

    open spec fn state(&self) -> AnalysisState {
        AnalysisState::PublicationInCallback(self@)
    }

    open spec fn initial_state(&self) -> AnalysisState {
        AnalysisState::PublicationInCallback(empty_publication_in_callback())
    }

    open spec fn state_after(&self, e: FullEvent, store: ObjectStoreView) -> AnalysisState {
        AnalysisState::PublicationInCallback(publication_in_callback_step(self@, e, store))
    }

    open spec fn finished_state(&self, store: ObjectStoreView) -> AnalysisState {
        AnalysisState::PublicationInCallback(self@)
    }

    fn initialize(&mut self) {
        PublicationInCallback::initialize(self);
    }

    fn accepts(&self, e: &FullEvent, objects: &ObjectStore) -> (r: bool) {
        PublicationInCallback::accepts(self, e, objects)
    }

    fn process_event(&mut self, e: &FullEvent, objects: &ObjectStore) {
        PublicationInCallback::process_event(self, e, objects);
    }

    fn can_finalize(&self, objects: &ObjectStore) -> (r: bool) {
        true
    }

    fn finalize(&mut self, objects: &ObjectStore) {
    }
}


/// Each (publisher, callback) pair is recorded once, whatever events follow.
pub proof fn law_pairs_stay_distinct(a: PublicationInCallbackView, e: FullEvent, store: ObjectStoreView)
    requires
        a.dependency.no_duplicates(),
    ensures
        publication_in_callback_step(a, e, store).dependency.no_duplicates(),
{
    if let Event::Ros2(ros2::Event::RmwPublish(x)) = e.event {
        if let Some(d) = published_pair(a, store, x.message, e.context@) {
            if !a.dependency.contains(d) {
                let s = a.dependency.push(d);
                assert forall|i: int, j: int| 0 <= i < s.len() && 0 <= j < s.len() && i != j implies s[i] != s[j] by {
                    if i == a.dependency.len() {
                        assert(a.dependency[j] != d);
                    }
                    if j == a.dependency.len() {
                        assert(a.dependency[i] != d);
                    }
                }
            }
        }
    }
}

} // verus!
