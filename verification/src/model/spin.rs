use vstd::prelude::*;

use crate::known::{known_to_option, Known};
use crate::model::{NodeRef, Time};

verus! {

/// One spin of an executor of a node: it waits for work, wakes up or times out, and ends.
#[derive(Debug)]
pub struct SpinInstance {
    start_time: Time,
    wake_time: Known<Time>,
    end_time: Known<Time>,
    timeout: u128,
    timeouted: Known<bool>,
    node: NodeRef,
}

/// The abstract state of a [`SpinInstance`].
pub struct SpinInstanceView {
    pub start_time: Time,
    pub wake_time: Known<Time>,
    pub end_time: Known<Time>,
    /// The timeout of the wait, in nanoseconds.
    pub timeout: u128,
    pub timeouted: Known<bool>,
    pub node: NodeRef,
}

impl View for SpinInstance {
    type V = SpinInstanceView;

    closed spec fn view(&self) -> SpinInstanceView {
        SpinInstanceView {
            start_time: self.start_time,
            wake_time: self.wake_time,
            end_time: self.end_time,
            timeout: self.timeout,
            timeouted: self.timeouted,
            node: self.node,
        }
    }
}

/// The timeout given as seconds and nanoseconds, in nanoseconds.
pub open spec fn timeout_nanos(timeout_s: u64, timeout_ns: u32) -> int {
    timeout_s * 1_000_000_000 + timeout_ns
}

impl SpinInstance {
    /// A spin of `node` started at `start_time` that waits at most `timeout` nanoseconds.
    pub fn new(node: NodeRef, start_time: Time, timeout: u128) -> (r: Self)
        ensures
            r@ == (SpinInstanceView {
                start_time,
                wake_time: Known::Unknown,
                end_time: Known::Unknown,
                timeout,
                timeouted: Known::Unknown,
                node,
            }),
    {
        Self {
            start_time,
            wake_time: Known::Unknown,
            end_time: Known::Unknown,
            timeout,
            timeouted: Known::Unknown,
            node,
        }
    }

    /// The timeout given as seconds and nanoseconds, in nanoseconds.
    pub fn timeout_from_parts(timeout_s: u64, timeout_ns: u32) -> (r: u128)
        ensures
            r == timeout_nanos(timeout_s, timeout_ns),
    {
        assert(timeout_s * 1_000_000_000 <= u64::MAX * 1_000_000_000) by (nonlinear_arith);
        (timeout_s as u128) * 1_000_000_000 + (timeout_ns as u128)
    }

    /// Records the wake up of the executor; the spin must not have woken before.
    pub fn set_wake_time(&mut self, time: Time)
        requires
            old(self)@.wake_time is Unknown,
        ensures
            final(self)@ == (SpinInstanceView {
                timeouted: Known::Known(false),
                wake_time: Known::Known(time),
                ..old(self)@
            }),
    {
        self.timeouted = Known::Known(false);
        self.wake_time = Known::Known(time);
    }

    /// Whether `set_end_time` may be applied: the spin has not ended and has not timed out.
    pub open spec fn spec_can_end(&self) -> bool {
        self@.end_time is Unknown && self@.timeouted != Known::Known(true)
    }

    /// Records the end of the spin.
    pub fn set_end_time(&mut self, time: Time)
        requires
            old(self).spec_can_end(),
        ensures
            final(self)@ == (SpinInstanceView {
                timeouted: Known::Known(false),
                end_time: Known::Known(time),
                ..old(self)@
            }),
    {
        self.timeouted = Known::Known(false);
        self.end_time = Known::Known(time);
    }

    /// Records that the spin timed out at `wake_time`.
    pub fn set_timeouted_on(&mut self, wake_time: Time)
        requires
            old(self)@.timeouted is Unknown,
        ensures
            final(self)@ == (SpinInstanceView {
                timeouted: Known::Known(true),
                wake_time: Known::Known(wake_time),
                ..old(self)@
            }),
    {
        self.timeouted = Known::Known(true);
        self.wake_time = Known::Known(wake_time);
    }

    pub fn can_end(&self) -> (b: bool)
        ensures
            b == self.spec_can_end(),
    {
        self.end_time.is_unknown() && match self.timeouted {
            Known::Known(t) => !t,
            Known::Unknown => true,
        }
    }

    pub fn get_start_time(&self) -> (r: Time)
        ensures
            r == self@.start_time,
    {
        self.start_time
    }

    pub fn get_wake_time(&self) -> (r: Option<Time>)
        ensures
            r == known_to_option(self@.wake_time),
    {
        self.wake_time.into_option()
    }

    pub fn get_end_time(&self) -> (r: Option<Time>)
        ensures
            r == known_to_option(self@.end_time),
    {
        self.end_time.into_option()
    }

    pub fn get_timeouted(&self) -> (r: Known<bool>)
        ensures
            r == self@.timeouted,
    {
        self.timeouted
    }

    pub fn get_timeout(&self) -> (r: u128)
        ensures
            r == self@.timeout,
    {
        self.timeout
    }

    pub fn get_node(&self) -> (r: NodeRef)
        ensures
            r == self@.node,
    {
        self.node
    }
}

} // verus!
