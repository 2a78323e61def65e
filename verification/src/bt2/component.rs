//! The kinds of components of a babeltrace2 graph.
use vstd::prelude::*;

verus! {

/// The kind of a component: a source of messages, a filter, or a sink.
#[derive(Debug, Clone, Copy, PartialEq, Eq)]
pub enum BtComponentType {
    Source,
    Filter,
    Sink,
}

/// A component, known by its kind.
#[derive(Debug, Clone, Copy, PartialEq, Eq)]
pub enum BtComponentCasted {
    Source,
    Filter,
    Sink,
}

impl BtComponentCasted {
    /// The kind of the component.
    pub fn as_type(&self) -> (r: BtComponentType)
        ensures
            r == (match *self {
                BtComponentCasted::Source => BtComponentType::Source,
                BtComponentCasted::Filter => BtComponentType::Filter,
                BtComponentCasted::Sink => BtComponentType::Sink,
            }),
    {
        match self {
            BtComponentCasted::Source => BtComponentType::Source,
            BtComponentCasted::Filter => BtComponentType::Filter,
            BtComponentCasted::Sink => BtComponentType::Sink,
        }
    }
}

} // verus!
