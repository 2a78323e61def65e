//! Events of the R2R tracepoint provider.
use vstd::prelude::*;

verus! {

#[derive(Debug, Clone)]
pub struct SpinStart {
    pub node_handle: u64,
    pub timeout_s: u64,
    pub timeout_ns: u32,
}

#[derive(Debug, Clone)]
pub struct SpinEnd {
    pub node_handle: u64,
}

#[derive(Debug, Clone)]
pub struct SpinWake {
    pub node_handle: u64,
}

#[derive(Debug, Clone)]
pub struct SpinTimeout {
    pub node_handle: u64,
}

#[derive(Debug, Clone)]
pub struct UpdateTime {
    pub subscriber: u64,
    pub time_s: i32,
    pub time_ns: u32,
}

#[derive(Debug, Clone)]
pub enum Event {
    SpinStart(SpinStart),
    SpinEnd(SpinEnd),
    SpinWake(SpinWake),
    SpinTimeout(SpinTimeout),
    UpdateTime(UpdateTime),
}

} // verus!
