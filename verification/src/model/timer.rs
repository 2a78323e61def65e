use vstd::prelude::*;

use crate::known::Known;
use crate::model::{AlreadyInitializedError, AlreadySetError, CallbackRef, NodeRef};

verus! {

/// A ROS timer.
#[derive(Debug)]
pub struct Timer {
    rcl_handle: u64,
    period: Known<i64>,
    callback: Known<CallbackRef>,
    node: Known<NodeRef>,
    removed: bool,
}

/// The abstract state of a [`Timer`].
pub struct TimerView {
    pub rcl_handle: u64,
    /// Period in nanoseconds.
    pub period: Known<i64>,
    pub callback: Known<CallbackRef>,
    pub node: Known<NodeRef>,
    pub removed: bool,
}

impl View for Timer {
    type V = TimerView;

    closed spec fn view(&self) -> TimerView {
        TimerView {
            rcl_handle: self.rcl_handle,
            period: self.period,
            callback: self.callback,
            node: self.node,
            removed: self.removed,
        }
    }
}

/// The state of a timer that only its RCL handle identifies.
pub open spec fn fresh_timer_view(rcl_handle: u64) -> TimerView {
    TimerView {
        rcl_handle,
        period: Known::Unknown,
        callback: Known::Unknown,
        node: Known::Unknown,
        removed: false,
    }
}

impl Timer {
    pub fn new(id: u64) -> (r: Self)
        ensures
            r@ == fresh_timer_view(id),
    {
        Self {
            rcl_handle: id,
            period: Known::Unknown,
            callback: Known::Unknown,
            node: Known::Unknown,
            removed: false,
        }
    }

    /// Records the period of the `rcl_timer_init` event; succeeds when it is still unknown.
    pub fn rcl_init(&mut self, period: i64) -> (r: Result<(), AlreadyInitializedError>)
        requires
            !old(self)@.removed,
        ensures
            r is Ok <==> old(self)@.period is Unknown,
            r is Ok ==> final(self)@ == (TimerView { period: Known::Known(period), ..old(self)@ }),
            r matches Err(e) ==> final(self)@ == old(self)@ && e == AlreadyInitializedError::spec_new("Timer", "rcl_timer_init"),
    {
        if !self.period.is_unknown() {
            return Err(AlreadyInitializedError::new("Timer", "rcl_timer_init"));
        }
        self.period = Known::new(period);
        Ok(())
    }

    /// Links the callback; succeeds when no callback is linked yet.
    pub fn set_callback(&mut self, callback: CallbackRef) -> (r: Result<(), AlreadySetError<&Self, CallbackRef>>)
        requires
            !old(self)@.removed,
        ensures
            r is Ok <==> old(self)@.callback is Unknown,
            r is Ok ==> final(self)@ == (TimerView { callback: Known::Known(callback), ..old(self)@ }),
            r matches Err(e) ==> final(self)@ == old(self)@ && e.spec_new_value() == callback
                && *e.spec_object() == *old(self) && e.spec_msg()@ == "Timer callback already set"@,
    {
        if !self.callback.is_unknown() {
            return Err(AlreadySetError::new(&*self, callback, "Timer callback already set"));
        }
        self.callback = Known::new(callback);
        Ok(())
    }

    /// Links the node; succeeds when no node is linked yet.
    pub fn link_node(&mut self, node: NodeRef) -> (r: Result<(), AlreadySetError<&Self, NodeRef>>)
        requires
            !old(self)@.removed,
        ensures
            r is Ok <==> old(self)@.node is Unknown,
            r is Ok ==> final(self)@ == (TimerView { node: Known::Known(node), ..old(self)@ }),
            r matches Err(e) ==> final(self)@ == old(self)@ && e.spec_new_value() == node
                && *e.spec_object() == *old(self) && e.spec_msg()@ == "Timer node already set"@,
    {
        if !self.node.is_unknown() {
            return Err(AlreadySetError::new(&*self, node, "Timer node already set"));
        }
        self.node = Known::new(node);
        Ok(())
    }

    pub fn get_rcl_handle(&self) -> (r: u64)
        ensures
            r == self@.rcl_handle,
    {
        self.rcl_handle
    }

    pub fn get_period(&self) -> (r: Known<i64>)
        ensures
            r == self@.period,
    {
        self.period
    }

    pub fn get_node(&self) -> (r: Known<NodeRef>)
        ensures
            r == self@.node,
    {
        self.node
    }

    pub fn get_callback(&self) -> (r: Known<CallbackRef>)
        ensures
            r == self@.callback,
    {
        self.callback
    }

    pub fn mark_removed(&mut self)
        ensures
            final(self)@ == (TimerView { removed: true, ..old(self)@ }),
    {
        self.removed = true;
    }

    pub fn is_removed(&self) -> (b: bool)
        ensures
            b == self@.removed,
    {
        self.removed
    }
}

} // verus!
