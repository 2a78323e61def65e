//! The graph of which callbacks trigger which.
use vstd::prelude::*;

use crate::model::CallbackRef;

verus! {

/// A vertex of the callback graph: one registered callback.
#[derive(Debug, Clone, Copy)]
pub struct Node {
    callback: CallbackRef,
}

impl View for Node {
    type V = CallbackRef;

    closed spec fn view(&self) -> CallbackRef {
        self.callback
    }
}

impl Node {
    pub(super) fn new(callback: CallbackRef) -> (r: Self)
        ensures
            r@ == callback,
    {
        Self { callback }
    }

    pub fn callback(&self) -> (r: CallbackRef)
        ensures
            r == self@,
    {
        self.callback
    }
}

/// Callbacks, edges from a callback that publishes to a callback that subscribes to
/// the same topic (by vertex position), and the vertices of timer callbacks.
#[derive(Debug, Clone)]
pub struct Graph {
    nodes: Vec<Node>,
    edges: Vec<(usize, usize)>,
    sources: Vec<usize>,
}

/// The abstract value of a [`Graph`].
pub struct GraphView {
    /// The callback of each vertex.
    pub nodes: Seq<CallbackRef>,
    pub edges: Seq<(usize, usize)>,
    pub sources: Seq<usize>,
}

impl View for Graph {
    type V = GraphView;

    closed spec fn view(&self) -> GraphView {
        GraphView {
            nodes: self.nodes@.map_values(|n: Node| n@),
            edges: self.edges@,
            sources: self.sources@,
        }
    }
}

impl Graph {
    pub(super) fn new(nodes: Vec<Node>, edges: Vec<(usize, usize)>, sources: Vec<usize>) -> (r: Self)
        ensures
            r@ == (GraphView { nodes: nodes@.map_values(|n: Node| n@), edges: edges@, sources: sources@ }),
    {
        Self { nodes, edges, sources }
    }

    pub fn nodes(&self) -> (r: &[Node])
        ensures
            r@.map_values(|n: Node| n@) == self@.nodes,
    {
        self.nodes.as_slice()
    }

    pub fn edges(&self) -> (r: &[(usize, usize)])
        ensures
            r@ == self@.edges,
    {
        self.edges.as_slice()
    }

    pub fn sources(&self) -> (r: &[usize])
        ensures
            r@ == self@.sources,
    {
        self.sources.as_slice()
    }
}

} // verus!
