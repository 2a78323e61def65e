//! The DOT text of the callback graph: each callback labelled by the summary of its
//! node and caller, laid out from left to right.
use vstd::prelude::*;
use vstd::string::*;

use super::graph::Graph;
use crate::analysis::describe::{callback_node, get_callback_node};
use crate::analysis::dot_text::{node_name, weak_or};
use crate::known::{weak_known_view, Known, WeakKnown};
use crate::model::display::{caller_text, get_node_name_from_weak};
use crate::model::{caller_type, CallbackCaller, CallbackRef, CallbackType, ObjectStore, ObjectStoreView};
use crate::text::{decimal_text, u64_text};

verus! {

/// A text read through a reference, quoted (with DOT escapes) when it is known.
pub open spec fn weak_quoted(k: WeakKnown<Seq<char>>) -> Seq<char> {
    match k {
        WeakKnown::Known(t) => "\\\""@ + t + "\\\""@,
        WeakKnown::Unknown => "Unknown"@,
        WeakKnown::Droped => "\\\"DROPED\\\""@,
    }
}

/// The name of a callback type.
pub open spec fn callback_type_name(t: CallbackType) -> Seq<char> {
    match t {
        CallbackType::Subscription => "Subscription"@,
        CallbackType::Service => "Service"@,
        CallbackType::Timer => "Timer"@,
    }
}

/// The summary of a callback, one item per line: `UNKNOWN` without a known caller;
/// the caller's type without a known node; otherwise the node's name and the caller
/// with its main parameter.
pub open spec fn callback_label(store: ObjectStoreView, c: CallbackRef) -> Seq<char> {
    if !store.valid_callback(c) {
        "UNKNOWN"@
    } else {
        match store.callbacks[c.0 as int].caller {
            Known::Unknown => "UNKNOWN"@,
            Known::Known(caller) => match callback_node(store, c) {
                Known::Unknown => callback_type_name(caller_type(caller)),
                Known::Known(n) => "node="@ + weak_quoted(node_name(store, n)) + "\\n"@ + match caller {
                    CallbackCaller::Subscription(_) => "Subscriber("@ + weak_quoted(caller_text(store, caller)) + ")"@,
                    CallbackCaller::Service(_) => "Service("@ + weak_quoted(caller_text(store, caller)),
                    CallbackCaller::Timer(_) => "Timer("@ + weak_or(caller_text(store, caller)) + " ns"@,
                },
            },
        }
    }
}

/// The lines of the first `k` vertices.
pub open spec fn callback_vertices_text(g: Seq<CallbackRef>, store: ObjectStoreView, k: int) -> Seq<char>
    decreases k,
{
    if k <= 0 {
        Seq::empty()
    } else {
        callback_vertices_text(g, store, k - 1) + "  n"@ + decimal_text((k - 1) as nat) + " [label=\"Callback\\n"@
            + callback_label(store, g[k - 1]) + "\", shape=ellipse];\n"@
    }
}

/// The lines of the first `k` edges.
pub open spec fn callback_edges_text(edges: Seq<(usize, usize)>, k: int) -> Seq<char>
    decreases k,
{
    if k <= 0 {
        Seq::empty()
    } else {
        callback_edges_text(edges, k - 1) + "  n"@ + decimal_text(edges[k - 1].0 as nat) + " -> n"@ + decimal_text(
            edges[k - 1].1 as nat,
        ) + ";\n"@
    }
}

/// The DOT text of a callback graph.
pub open spec fn callback_dot_text(nodes: Seq<CallbackRef>, edges: Seq<(usize, usize)>, store: ObjectStoreView) -> Seq<char> {
    "digraph G {\n  rankdir=LR;\n"@ + callback_vertices_text(nodes, store, nodes.len() as int) + callback_edges_text(
        edges,
        edges.len() as int,
    ) + "}\n"@
}

fn weak_quoted_text(k: WeakKnown<String>) -> (r: String)
    ensures
        r@ == weak_quoted(weak_known_view(k)),
{
    match k {
        WeakKnown::Known(t) => {
            let mut s = String::from_str("\\\"");
            s.append(t.as_str());
            s.append("\\\"");
            s
        },
        WeakKnown::Unknown => String::from_str("Unknown"),
        WeakKnown::Droped => String::from_str("\\\"DROPED\\\""),
    }
}

fn weak_plain_text(k: WeakKnown<String>) -> (r: String)
    ensures
        r@ == weak_or(weak_known_view(k)),
{
    match k {
        WeakKnown::Known(t) => t,
        WeakKnown::Unknown => String::from_str("Unknown"),
        WeakKnown::Droped => String::from_str("Dropped"),
    }
}

/// The summary of a callback (see [`callback_label`]).
pub fn callback_label_text(objects: &ObjectStore, c: CallbackRef) -> (r: String)
    requires
        objects@.wf(),
    ensures
        r@ == callback_label(objects@, c),
{
    if c.0 >= objects.callback_count() {
        return String::from_str("UNKNOWN");
    }
    let caller = match objects.callback(c).get_caller() {
        Some(caller) => *caller,
        None => return String::from_str("UNKNOWN"),
    };
    match get_callback_node(objects, c) {
        Known::Unknown => String::from_str(caller.get_type().as_str()),
        Known::Known(n) => {
            let mut s = String::from_str("node=");
            s.append(weak_quoted_text(get_node_name_from_weak(objects, n)).as_str());
            s.append("\\n");
            let param = caller.get_caller_as_string(objects);
            match caller {
                CallbackCaller::Subscription(_) => {
                    s.append("Subscriber(");
                    s.append(weak_quoted_text(param).as_str());
                    s.append(")");
                },
                CallbackCaller::Service(_) => {
                    s.append("Service(");
                    s.append(weak_quoted_text(param).as_str());
                },
                CallbackCaller::Timer(_) => {
                    s.append("Timer(");
                    s.append(weak_plain_text(param).as_str());
                    s.append(" ns");
                },
            }
            s
        },
    }
}

impl Graph {
    /// The DOT text of the graph (see [`callback_dot_text`]).
    pub fn as_dot(&self, objects: &ObjectStore) -> (r: String)
        requires
            objects@.wf(),
        ensures
            r@ == callback_dot_text(self@.nodes, self@.edges, objects@),
    {
        let nodes = self.nodes();
        let ghost callbacks = self@.nodes;
        let mut out = String::from_str("digraph G {\n  rankdir=LR;\n");
        let mut v = String::new();
        let mut i: usize = 0;
        while i < nodes.len()
            invariant
                objects@.wf(),
                nodes@.map_values(|n: super::graph::Node| n@) == callbacks,
                i <= nodes@.len(),
                v@ == callback_vertices_text(callbacks, objects@, i as int),
            decreases nodes@.len() - i,
        {
            assert(callbacks[i as int] == nodes@[i as int]@);
            v.append("  n");
            v.append(u64_text(i as u64).as_str());
            v.append(" [label=\"Callback\\n");
            v.append(callback_label_text(objects, nodes[i].callback()).as_str());
            v.append("\", shape=ellipse];\n");
            i += 1;
        }
        out.append(v.as_str());
        let edges = self.edges();
        let mut e = String::new();
        let mut k: usize = 0;
        while k < edges.len()
            invariant
                k <= edges@.len(),
                e@ == callback_edges_text(edges@, k as int),
            decreases edges@.len() - k,
        {
            let (a, b) = edges[k];
            e.append("  n");
            e.append(u64_text(a as u64).as_str());
            e.append(" -> n");
            e.append(u64_text(b as u64).as_str());
            e.append(";\n");
            k += 1;
        }
        out.append(e.as_str());
        out.append("}\n");
        out
    }
}

} // verus!
