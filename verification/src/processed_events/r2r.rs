//! R2R events linked to the objects they concern.
use vstd::prelude::*;

use crate::model::{NodeRef, SpinInstanceRef, SubscriberRef};

verus! {

#[derive(Debug, Clone)]
pub struct SpinStart {
    pub node: NodeRef,
    pub spin: SpinInstanceRef,
}

#[derive(Debug, Clone)]
pub struct SpinEnd {
    pub node: NodeRef,
    pub spin: Option<SpinInstanceRef>,
}

#[derive(Debug, Clone)]
pub struct SpinWake {
    pub node: NodeRef,
    pub spin: Option<SpinInstanceRef>,
}

#[derive(Debug, Clone)]
pub struct SpinTimeout {
    pub node: NodeRef,
    pub spin: Option<SpinInstanceRef>,
}

#[derive(Debug, Clone)]
pub struct UpdateTime {
    pub subscriber: SubscriberRef,
    pub time_s: i32,
    pub time_ns: u32,
}

#[derive(Debug, Clone)]
pub enum Event {
    SpinStart(SpinStart),
    SpinEnd(SpinEnd),
    SpinWake(SpinWake),
    SpinTimeout(SpinTimeout),
    UpdateTime(UpdateTime),
}

} // verus!
