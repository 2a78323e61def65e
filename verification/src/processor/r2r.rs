//! Processing of the events of the R2R tracepoint provider.
use vstd::prelude::*;

use crate::events_common::{Context, Time};
use crate::known::Known;
use crate::model::{timeout_nanos, NodeView, SpinInstance, SpinInstanceView};
use crate::processed_events::r2r as processed;
use crate::raw_events::r2r as raw;

use crate::events_common::ContextView;

use super::error::{not_found, outcome, Failure, NotFound, ObjectType, ProcessorError};
use super::{
    dispatch_outcome, id_key, lemma_tables_grow, with_host, ContextId, Id, Processor, ProcessorView,
    Rejection, UnsupportedOrError,
};

verus! {

broadcast use {vstd::std_specs::hash::group_hash_axioms, crate::model::store::lemma_view_fits};

/// The failure of an R2R event whose node the processor does not know.
pub open spec fn node_not_found(node_handle: u64, time: Time) -> Failure {
    not_found(node_handle, "rcl_handle", ObjectType::Node, time)
}

/// `spin_start` can be processed: the timeout, as seconds and nanoseconds, is a
/// duration that fits 64-bit seconds.
pub open spec fn spin_start_ok(e: raw::SpinStart) -> bool {
    e.timeout_s + e.timeout_ns / 1_000_000_000 <= u64::MAX
}

/// `spin_start`: a new spin of the node known by the handle starts at `time` and
/// becomes the node's current spin. A missing node is an error.
pub open spec fn spin_start(p: ProcessorView, e: raw::SpinStart, time: Time, cid: ContextId) -> (ProcessorView, Result<processed::SpinStart, Failure>) {
    let k = id_key(e.node_handle, cid);
    if !p.nodes_by_rcl.contains_key(k) {
        (p, Err(node_not_found(e.node_handle, time)))
    } else {
        let n = p.nodes_by_rcl[k];
        let s = p.objects.next_spin_instance();
        let nv = p.objects.nodes[n.0 as int];
        (
            ProcessorView {
                objects: p.objects.push_spin_instance(SpinInstanceView {
                    start_time: time,
                    wake_time: Known::Unknown,
                    end_time: Known::Unknown,
                    timeout: timeout_nanos(e.timeout_s, e.timeout_ns) as u128,
                    timeouted: Known::Unknown,
                    node: n,
                }).set_node(n, NodeView { spin_instance: Some(s), ..nv }),
                ..p
            },
            Ok(processed::SpinStart { node: n, spin: s }),
        )
    }
}

/// `spin_end` can be processed: the current spin of the node, if any, has neither
/// ended nor timed out.
pub open spec fn spin_end_ok(p: ProcessorView, e: raw::SpinEnd, cid: ContextId) -> bool {
    let k = id_key(e.node_handle, cid);
    p.nodes_by_rcl.contains_key(k) ==> match p.objects.nodes[p.nodes_by_rcl[k].0 as int].spin_instance {
        Some(s) => {
            let sv = p.objects.spin_instances[s.0 as int];
            sv.end_time is Unknown && sv.timeouted != Known::Known(true)
        },
        None => true,
    }
}

/// `spin_end`: the current spin of the node known by the handle, if any, ends at
/// `time` and the node has no current spin. A missing node is an error.
pub open spec fn spin_end(p: ProcessorView, e: raw::SpinEnd, time: Time, cid: ContextId) -> (ProcessorView, Result<processed::SpinEnd, Failure>) {
    let k = id_key(e.node_handle, cid);
    if !p.nodes_by_rcl.contains_key(k) {
        (p, Err(node_not_found(e.node_handle, time)))
    } else {
        let n = p.nodes_by_rcl[k];
        let nv = p.objects.nodes[n.0 as int];
        let taken = p.objects.set_node(n, NodeView { spin_instance: None, ..nv });
        (
            ProcessorView {
                objects: match nv.spin_instance {
                    Some(s) => taken.set_spin_instance(
                        s,
                        SpinInstanceView { timeouted: Known::Known(false), end_time: Known::Known(time), ..taken.spin_instances[s.0 as int] },
                    ),
                    None => taken,
                },
                ..p
            },
            Ok(processed::SpinEnd { node: n, spin: nv.spin_instance }),
        )
    }
}

/// `spin_wake` can be processed: the current spin of the node, if any, has not woken.
pub open spec fn spin_wake_ok(p: ProcessorView, e: raw::SpinWake, cid: ContextId) -> bool {
    let k = id_key(e.node_handle, cid);
    p.nodes_by_rcl.contains_key(k) ==> match p.objects.nodes[p.nodes_by_rcl[k].0 as int].spin_instance {
        Some(s) => p.objects.spin_instances[s.0 as int].wake_time is Unknown,
        None => true,
    }
}

/// `spin_wake`: the current spin of the node known by the handle, if any, wakes at
/// `time` without having timed out. A missing node is an error.
pub open spec fn spin_wake(p: ProcessorView, e: raw::SpinWake, time: Time, cid: ContextId) -> (ProcessorView, Result<processed::SpinWake, Failure>) {
    let k = id_key(e.node_handle, cid);
    if !p.nodes_by_rcl.contains_key(k) {
        (p, Err(node_not_found(e.node_handle, time)))
    } else {
        let n = p.nodes_by_rcl[k];
        let spin = p.objects.nodes[n.0 as int].spin_instance;
        (
            ProcessorView {
                objects: match spin {
                    Some(s) => p.objects.set_spin_instance(
                        s,
                        SpinInstanceView { timeouted: Known::Known(false), wake_time: Known::Known(time), ..p.objects.spin_instances[s.0 as int] },
                    ),
                    None => p.objects,
                },
                ..p
            },
            Ok(processed::SpinWake { node: n, spin }),
        )
    }
}

/// `spin_timeout` can be processed: the current spin of the node, if any, has not
/// been marked as timed out or not.
pub open spec fn spin_timeout_ok(p: ProcessorView, e: raw::SpinTimeout, cid: ContextId) -> bool {
    let k = id_key(e.node_handle, cid);
    p.nodes_by_rcl.contains_key(k) ==> match p.objects.nodes[p.nodes_by_rcl[k].0 as int].spin_instance {
        Some(s) => p.objects.spin_instances[s.0 as int].timeouted is Unknown,
        None => true,
    }
}

/// `spin_timeout`: the current spin of the node known by the handle, if any, times
/// out at `time` and the node has no current spin. A missing node is an error.
pub open spec fn spin_timeout(p: ProcessorView, e: raw::SpinTimeout, time: Time, cid: ContextId) -> (ProcessorView, Result<processed::SpinTimeout, Failure>) {
    let k = id_key(e.node_handle, cid);
    if !p.nodes_by_rcl.contains_key(k) {
        (p, Err(node_not_found(e.node_handle, time)))
    } else {
        let n = p.nodes_by_rcl[k];
        let nv = p.objects.nodes[n.0 as int];
        let taken = p.objects.set_node(n, NodeView { spin_instance: None, ..nv });
        (
            ProcessorView {
                objects: match nv.spin_instance {
                    Some(s) => taken.set_spin_instance(
                        s,
                        SpinInstanceView { timeouted: Known::Known(true), wake_time: Known::Known(time), ..taken.spin_instances[s.0 as int] },
                    ),
                    None => taken,
                },
                ..p
            },
            Ok(processed::SpinTimeout { node: n, spin: nv.spin_instance }),
        )
    }
}

/// `update_time`: the event is linked to the subscriber known by the RCL handle;
/// nothing changes. A missing subscriber is an error.
pub open spec fn update_time(p: ProcessorView, e: raw::UpdateTime, time: Time, cid: ContextId) -> (ProcessorView, Result<processed::UpdateTime, Failure>) {
    let k = id_key(e.subscriber, cid);
    if !p.subscribers_by_rcl.contains_key(k) {
        (p, Err(not_found(e.subscriber, "rcl_handle", ObjectType::Subscriber, time)))
    } else {
        (p, Ok(processed::UpdateTime { subscriber: p.subscribers_by_rcl[k], time_s: e.time_s, time_ns: e.time_ns }))
    }
}

impl Processor {
    /// Starts a spin of a node.
    pub fn process_spin_start(
        &mut self,
        event: raw::SpinStart,
        time: Time,
        context_id: ContextId,
        context: &Context,
    ) -> (r: Result<processed::SpinStart, ProcessorError>)
        requires
            old(self)@.wf(),
            spin_start_ok(event),
        ensures
            final(self)@.wf(),
            old(self)@.objects.le(final(self)@.objects),
            (final(self)@, outcome(r)) == spin_start(old(self)@, event, time, context_id),
    {
        let ghost o = self@;
        let timeout = SpinInstance::timeout_from_parts(event.timeout_s, event.timeout_ns);
        let node = match self.nodes_by_rcl.get(&Id::new(event.node_handle, context_id).key()) {
            Some(n) => *n,
            None => {
                let e = NotFound::node(event.node_handle);
                return Err(ProcessorError::Event(e.with_r2r_event(raw::Event::SpinStart(event), time, context)));
            },
        };
        let spin = self.objects.add_spin_instance(SpinInstance::new(node, time, timeout));
        let _ = self.objects.node_mut(node).replace_spin_instance(spin);
        proof {
            let f = self@;
            o.objects.lemma_ok_grows(f.objects);
            assert(f.objects.node_ok(f.objects.nodes[node.0 as int]));
            assert(f.objects.spin_instance_ok(f.objects.spin_instances[spin.0 as int]));
            lemma_tables_grow(o, f.objects);
        }
        Ok(processed::SpinStart { node, spin })
    }

    /// Ends the current spin of a node.
    pub fn process_spin_end(
        &mut self,
        event: raw::SpinEnd,
        time: Time,
        context_id: ContextId,
        context: &Context,
    ) -> (r: Result<processed::SpinEnd, ProcessorError>)
        requires
            old(self)@.wf(),
            spin_end_ok(old(self)@, event, context_id),
        ensures
            final(self)@.wf(),
            old(self)@.objects.le(final(self)@.objects),
            (final(self)@, outcome(r)) == spin_end(old(self)@, event, time, context_id),
    {
        let ghost o = self@;
        let node = match self.nodes_by_rcl.get(&Id::new(event.node_handle, context_id).key()) {
            Some(n) => *n,
            None => {
                let e = NotFound::node(event.node_handle);
                return Err(ProcessorError::Event(e.with_r2r_event(raw::Event::SpinEnd(event), time, context)));
            },
        };
        proof {
            assert(o.objects.node_ok(o.objects.nodes[node.0 as int]));
        }
        let spin = self.objects.node_mut(node).take_spin_instance();
        match spin {
            Some(s) => self.objects.spin_instance_mut(s).set_end_time(time),
            None => {},
        }
        proof {
            let f = self@;
            o.objects.lemma_ok_grows(f.objects);
            assert(f.objects.node_ok(f.objects.nodes[node.0 as int]));
            if spin is Some {
                assert(f.objects.spin_instance_ok(f.objects.spin_instances[spin->Some_0.0 as int]));
            }
            lemma_tables_grow(o, f.objects);
        }
        Ok(processed::SpinEnd { node, spin })
    }

    /// Records the wake up of the current spin of a node.
    pub fn process_spin_wake(
        &mut self,
        event: raw::SpinWake,
        time: Time,
        context_id: ContextId,
        context: &Context,
    ) -> (r: Result<processed::SpinWake, ProcessorError>)
        requires
            old(self)@.wf(),
            spin_wake_ok(old(self)@, event, context_id),
        ensures
            final(self)@.wf(),
            old(self)@.objects.le(final(self)@.objects),
            (final(self)@, outcome(r)) == spin_wake(old(self)@, event, time, context_id),
    {
        let ghost o = self@;
        let node = match self.nodes_by_rcl.get(&Id::new(event.node_handle, context_id).key()) {
            Some(n) => *n,
            None => {
                let e = NotFound::node(event.node_handle);
                return Err(ProcessorError::Event(e.with_r2r_event(raw::Event::SpinWake(event), time, context)));
            },
        };
        proof {
            assert(o.objects.node_ok(o.objects.nodes[node.0 as int]));
        }
        let spin = match self.objects.node(node).borrow_spin_instance() {
            Some(s) => Some(*s),
            None => None,
        };
        match spin {
            Some(s) => self.objects.spin_instance_mut(s).set_wake_time(time),
            None => {},
        }
        proof {
            let f = self@;
            o.objects.lemma_ok_grows(f.objects);
            if spin is Some {
                assert(f.objects.spin_instance_ok(f.objects.spin_instances[spin->Some_0.0 as int]));
            }
            lemma_tables_grow(o, f.objects);
        }
        Ok(processed::SpinWake { node, spin })
    }

    /// Records that the current spin of a node timed out.
    pub fn process_spin_timeout(
        &mut self,
        event: raw::SpinTimeout,
        time: Time,
        context_id: ContextId,
        context: &Context,
    ) -> (r: Result<processed::SpinTimeout, ProcessorError>)
        requires
            old(self)@.wf(),
            spin_timeout_ok(old(self)@, event, context_id),
        ensures
            final(self)@.wf(),
            old(self)@.objects.le(final(self)@.objects),
            (final(self)@, outcome(r)) == spin_timeout(old(self)@, event, time, context_id),
    {
        let ghost o = self@;
        let node = match self.nodes_by_rcl.get(&Id::new(event.node_handle, context_id).key()) {
            Some(n) => *n,
            None => {
                let e = NotFound::node(event.node_handle);
                return Err(ProcessorError::Event(e.with_r2r_event(raw::Event::SpinTimeout(event), time, context)));
            },
        };
        proof {
            assert(o.objects.node_ok(o.objects.nodes[node.0 as int]));
        }
        let spin = self.objects.node_mut(node).take_spin_instance();
        match spin {
            Some(s) => self.objects.spin_instance_mut(s).set_timeouted_on(time),
            None => {},
        }
        proof {
            let f = self@;
            o.objects.lemma_ok_grows(f.objects);
            assert(f.objects.node_ok(f.objects.nodes[node.0 as int]));
            if spin is Some {
                assert(f.objects.spin_instance_ok(f.objects.spin_instances[spin->Some_0.0 as int]));
            }
            lemma_tables_grow(o, f.objects);
        }
        Ok(processed::SpinTimeout { node, spin })
    }

    /// Links a time update to its subscriber.
    pub fn process_update_time(
        &mut self,
        event: raw::UpdateTime,
        time: Time,
        context_id: ContextId,
        context: &Context,
    ) -> (r: Result<processed::UpdateTime, ProcessorError>)
        requires
            old(self)@.wf(),
        ensures
            final(self)@.wf(),
            old(self)@.objects.le(final(self)@.objects),
            (final(self)@, outcome(r)) == update_time(old(self)@, event, time, context_id),
    {
        let subscriber = match self.subscribers_by_rcl.get(&Id::new(event.subscriber, context_id).key()) {
            Some(s) => *s,
            None => {
                let e = NotFound::subscriber(event.subscriber, "rcl_handle");
                return Err(ProcessorError::Event(e.with_r2r_event(raw::Event::UpdateTime(event), time, context)));
            },
        };
        Ok(processed::UpdateTime { subscriber, time_s: event.time_s, time_ns: event.time_ns })
    }
}


/// Processing an R2R event in the process `cid`, by kind.
pub open spec fn r2r_step(p: ProcessorView, event: raw::Event, time: Time, cid: ContextId) -> (ProcessorView, Result<processed::Event, Rejection<raw::Event>>) {
    match event {
        raw::Event::SpinStart(e) => {
            let (f, r) = spin_start(p, e, time, cid);
            (f, match r {
                Ok(x) => Ok(processed::Event::SpinStart(x)),
                Err(failure) => Err(Rejection::Failed(failure)),
            })
        },
        raw::Event::SpinEnd(e) => {
            let (f, r) = spin_end(p, e, time, cid);
            (f, match r {
                Ok(x) => Ok(processed::Event::SpinEnd(x)),
                Err(failure) => Err(Rejection::Failed(failure)),
            })
        },
        raw::Event::SpinWake(e) => {
            let (f, r) = spin_wake(p, e, time, cid);
            (f, match r {
                Ok(x) => Ok(processed::Event::SpinWake(x)),
                Err(failure) => Err(Rejection::Failed(failure)),
            })
        },
        raw::Event::SpinTimeout(e) => {
            let (f, r) = spin_timeout(p, e, time, cid);
            (f, match r {
                Ok(x) => Ok(processed::Event::SpinTimeout(x)),
                Err(failure) => Err(Rejection::Failed(failure)),
            })
        },
        raw::Event::UpdateTime(e) => {
            let (f, r) = update_time(p, e, time, cid);
            (f, match r {
                Ok(x) => Ok(processed::Event::UpdateTime(x)),
                Err(failure) => Err(Rejection::Failed(failure)),
            })
        },
    }
}

/// Whether an R2R event of the process `cid` can be processed without violating an
/// expectation of the trace.
pub open spec fn r2r_step_ok(p: ProcessorView, event: raw::Event, cid: ContextId) -> bool {
    match event {
        raw::Event::SpinStart(e) => spin_start_ok(e),
        raw::Event::SpinEnd(e) => spin_end_ok(p, e, cid),
        raw::Event::SpinWake(e) => spin_wake_ok(p, e, cid),
        raw::Event::SpinTimeout(e) => spin_timeout_ok(p, e, cid),
        raw::Event::UpdateTime(e) => true,
    }
}

/// Processing an R2R event recorded in `ctx` at `time`: the event's host gets an id if
/// it has none, then the event is processed in its process.
pub open spec fn process_r2r(p: ProcessorView, event: raw::Event, ctx: ContextView, time: Time) -> (ProcessorView, Result<processed::Event, Rejection<raw::Event>>) {
    r2r_step(with_host(p, ctx), event, time, p.context_id(ctx))
}

/// Whether an R2R event recorded in `ctx` can be processed.
pub open spec fn r2r_ok(p: ProcessorView, event: raw::Event, ctx: ContextView) -> bool {
    p.host_fits(ctx) && r2r_step_ok(with_host(p, ctx), event, p.context_id(ctx))
}

impl Processor {
    /// Processes an event of the R2R tracepoint provider.
    pub fn process_raw_r2r_event(
        &mut self,
        event: raw::Event,
        context: &Context,
        time: Time,
    ) -> (r: Result<processed::Event, UnsupportedOrError<raw::Event>>)
        requires
            old(self)@.wf(),
            r2r_ok(old(self)@, event, context@),
        ensures
            final(self)@.wf(),
            old(self)@.objects.le(final(self)@.objects),
            (final(self)@, dispatch_outcome(r)) == process_r2r(old(self)@, event, context@, time),
    {
        let context_id = self.context_id(context);
        match event {
            raw::Event::SpinStart(e) => match self.process_spin_start(e, time, context_id, context) {
                Ok(x) => Ok(processed::Event::SpinStart(x)),
                Err(err) => Err(UnsupportedOrError::Error(err)),
            },
            raw::Event::SpinEnd(e) => match self.process_spin_end(e, time, context_id, context) {
                Ok(x) => Ok(processed::Event::SpinEnd(x)),
                Err(err) => Err(UnsupportedOrError::Error(err)),
            },
            raw::Event::SpinWake(e) => match self.process_spin_wake(e, time, context_id, context) {
                Ok(x) => Ok(processed::Event::SpinWake(x)),
                Err(err) => Err(UnsupportedOrError::Error(err)),
            },
            raw::Event::SpinTimeout(e) => match self.process_spin_timeout(e, time, context_id, context) {
                Ok(x) => Ok(processed::Event::SpinTimeout(x)),
                Err(err) => Err(UnsupportedOrError::Error(err)),
            },
            raw::Event::UpdateTime(e) => match self.process_update_time(e, time, context_id, context) {
                Ok(x) => Ok(processed::Event::UpdateTime(x)),
                Err(err) => Err(UnsupportedOrError::Error(err)),
            },
        }
    }
}

} // verus!
