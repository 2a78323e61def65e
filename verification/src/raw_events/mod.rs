//! Trace events as they are read from the trace, before the processor links
//! them to the objects they concern.
use vstd::prelude::*;

use crate::events_common::{Context, Time};

pub mod r2r;
pub mod ros2;

verus! {

/// A trace event of one of the supported tracepoint providers.
#[derive(Debug, Clone)]
pub enum Event {
    Ros2(ros2::Event),
    R2r(r2r::Event),
}

/// A trace event with where and when it was recorded.
#[derive(Debug, Clone)]
pub struct FullEvent {
    pub context: Context,
    pub time: Time,
    pub event: Event,
}

} // verus!
