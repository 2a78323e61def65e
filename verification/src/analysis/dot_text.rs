//! The DOT text of a laid-out dependency graph: one cluster per node, named by the
//! node, holding its vertices; the vertices of no known node outside every cluster;
//! then the edges. Each vertex is labelled by its kind and main parameter.
use vstd::prelude::*;
use vstd::string::*;

use super::dependency_graph::{DisplayAsDot, DisplayAsDotView, Node};
use crate::known::{reached, weak_known_view, Known, WeakKnown};
use crate::model::display::{caller_text, get_node_name_from_weak, get_subscriber_topic_from_weak};
use crate::model::{full_name_of, NodeRef, ObjectStore, ObjectStoreView, PublisherRef};
use crate::text::{decimal_text, u64_text};

verus! {

/// A text read through a reference: `Unknown` or `Dropped` where it is not known.
pub open spec fn weak_or(k: WeakKnown<Seq<char>>) -> Seq<char> {
    match k {
        WeakKnown::Known(t) => t,
        WeakKnown::Unknown => "Unknown"@,
        WeakKnown::Droped => "Dropped"@,
    }
}

/// The topic of a publisher, read through its reference.
pub open spec fn publisher_topic(store: ObjectStoreView, p: PublisherRef) -> WeakKnown<Seq<char>> {
    if store.valid_publisher(p) {
        reached(store.publishers[p.0 as int].topic_name)
    } else {
        WeakKnown::Droped
    }
}

/// The name of a node, read through its reference.
pub open spec fn node_name(store: ObjectStoreView, n: NodeRef) -> WeakKnown<Seq<char>> {
    if store.valid_node(n) {
        match store.nodes[n.0 as int].full_name {
            Known::Known(name) => WeakKnown::Known(full_name_of(name)),
            Known::Unknown => WeakKnown::Unknown,
        }
    } else {
        WeakKnown::Droped
    }
}

/// The label of a vertex: its kind, a line break, and its main parameter (a topic, a
/// timer's period in nanoseconds, or the main parameter of a callback's caller).
pub open spec fn vertex_label(store: ObjectStoreView, n: Node) -> Seq<char> {
    match n {
        Node::Publisher(p) => "Publisher\\n"@ + weak_or(publisher_topic(store, p)),
        Node::Subscriber(s) => "Subscriber\\n"@ + weak_or(
            if store.valid_subscriber(s) { reached(store.subscribers[s.0 as int].topic_name) } else { WeakKnown::Droped },
        ),
        Node::Timer(t) => "Timer\\n"@ + weak_or(caller_text(store, crate::model::CallbackCaller::Timer(t))) + " ns"@,
        Node::Callback(c) => "Callback\\n"@ + (if store.valid_callback(c) {
            match store.callbacks[c.0 as int].caller {
                Known::Known(caller) => weak_or(caller_text(store, caller)),
                Known::Unknown => "Unknown"@,
            }
        } else {
            "Unknown"@
        }),
    }
}

/// The line of the vertex at position `v`, with its extra attributes.
pub open spec fn vertex_line(d: DisplayAsDotView, store: ObjectStoreView, attrs: Seq<Seq<char>>, v: int, indent: Seq<char>) -> Seq<char> {
    indent + "n"@ + decimal_text((v + 1) as nat) + " [label=\""@ + vertex_label(store, d.nodes[v]) + "\", shape=ellipse"@ + attrs[v]
        + "];\n"@
}

/// The lines of the vertices among the first `k` whose node is `owner`.
pub open spec fn members_text(
    d: DisplayAsDotView,
    store: ObjectStoreView,
    attrs: Seq<Seq<char>>,
    owner: Known<NodeRef>,
    indent: Seq<char>,
    k: int,
) -> Seq<char>
    decreases k,
{
    if k <= 0 {
        Seq::empty()
    } else {
        members_text(d, store, attrs, owner, indent, k - 1) + if d.owners[k - 1] == owner {
            vertex_line(d, store, attrs, k - 1, indent)
        } else {
            Seq::empty()
        }
    }
}

/// The cluster of the `i`-th node: its name and the lines of its vertices.
pub open spec fn cluster_text(d: DisplayAsDotView, store: ObjectStoreView, attrs: Seq<Seq<char>>, i: int) -> Seq<char> {
    "  subgraph cluster_"@ + decimal_text(i as nat) + " {\n    label=\""@ + weak_or(node_name(store, d.ros_nodes[i])) + "\";\n"@
        + members_text(d, store, attrs, Known::Known(d.ros_nodes[i]), "    "@, d.nodes.len() as int) + "  }\n"@
}

/// The clusters of the first `k` nodes.
pub open spec fn clusters_text(d: DisplayAsDotView, store: ObjectStoreView, attrs: Seq<Seq<char>>, k: int) -> Seq<char>
    decreases k,
{
    if k <= 0 {
        Seq::empty()
    } else {
        clusters_text(d, store, attrs, k - 1) + cluster_text(d, store, attrs, k - 1)
    }
}

/// The lines of the first `k` edges, each with its extra attributes.
pub open spec fn edges_text(d: DisplayAsDotView, edge_attrs: Seq<Seq<char>>, k: int) -> Seq<char>
    decreases k,
{
    if k <= 0 {
        Seq::empty()
    } else {
        let (a, b, _) = d.edges[k - 1];
        edges_text(d, edge_attrs, k - 1) + "  n"@ + decimal_text((a + 1) as nat) + " -> n"@ + decimal_text((b + 1) as nat)
            + edge_attrs[k - 1] + ";\n"@
    }
}

/// The DOT text of the layout.
pub open spec fn dot_text(d: DisplayAsDotView, store: ObjectStoreView, attrs: Seq<Seq<char>>, edge_attrs: Seq<Seq<char>>) -> Seq<char> {
    "digraph G {\n"@ + clusters_text(d, store, attrs, d.ros_nodes.len() as int)
        + members_text(d, store, attrs, Known::Unknown, "  "@, d.nodes.len() as int) + edges_text(d, edge_attrs, d.edges.len() as int)
        + "}\n"@
}

/// The texts of a list of strings.
pub open spec fn texts(v: Seq<String>) -> Seq<Seq<char>> {
    v.map_values(|s: String| s@)
}

fn weak_string(k: WeakKnown<String>) -> (r: String)
    ensures
        r@ == weak_or(weak_known_view(k)),
{
    match k {
        WeakKnown::Known(t) => t,
        WeakKnown::Unknown => String::from_str("Unknown"),
        WeakKnown::Droped => String::from_str("Dropped"),
    }
}

fn publisher_topic_text(objects: &ObjectStore, p: PublisherRef) -> (r: String)
    ensures
        r@ == weak_or(publisher_topic(objects@, p)),
{
    if p.0 < objects.publisher_count() {
        match objects.publisher(p).get_topic() {
            Known::Known(t) => t.to_owned(),
            Known::Unknown => String::from_str("Unknown"),
        }
    } else {
        String::from_str("Dropped")
    }
}

/// The label of a vertex (see [`vertex_label`]).
pub fn vertex_label_text(objects: &ObjectStore, n: &Node) -> (r: String)
    ensures
        r@ == vertex_label(objects@, *n),
{
    match n {
        Node::Publisher(p) => {
            let mut s = String::from_str("Publisher\\n");
            s.append(publisher_topic_text(objects, *p).as_str());
            s
        },
        Node::Subscriber(sub) => {
            let mut s = String::from_str("Subscriber\\n");
            s.append(weak_string(get_subscriber_topic_from_weak(objects, *sub)).as_str());
            s
        },
        Node::Timer(t) => {
            let mut s = String::from_str("Timer\\n");
            let caller = crate::model::CallbackCaller::Timer(*t);
            s.append(weak_string(caller.get_caller_as_string(objects)).as_str());
            s.append(" ns");
            s
        },
        Node::Callback(c) => {
            let mut s = String::from_str("Callback\\n");
            if c.0 < objects.callback_count() {
                match objects.callback(*c).get_caller() {
                    Some(caller) => s.append(weak_string(caller.get_caller_as_string(objects)).as_str()),
                    None => s.append("Unknown"),
                }
            } else {
                s.append("Unknown");
            }
            s
        },
    }
}

impl DisplayAsDot {
    /// The DOT text of the layout (see [`dot_text`]); `vertex_attributes[i]` is written
    /// after the label of the vertex at position `i`, `edge_attributes[i]` after the
    /// `i`-th edge.
    pub fn to_dot(&self, objects: &ObjectStore, vertex_attributes: &Vec<String>, edge_attributes: &Vec<String>) -> (r: String)
        requires
            self@.owners.len() == self@.nodes.len(),
            forall|i: int| 0 <= i < self@.edges.len() ==> #[trigger] self@.edges[i].0 < self@.nodes.len() && self@.edges[i].1 < self@.nodes.len(),
            vertex_attributes@.len() == self@.nodes.len(),
            edge_attributes@.len() == self@.edges.len(),
        ensures
            r@ == dot_text(self@, objects@, texts(vertex_attributes@), texts(edge_attributes@)),
    {
        let ghost d = self@;
        let ghost store = objects@;
        let ghost attrs = texts(vertex_attributes@);
        let ghost eattrs = texts(edge_attributes@);
        let nodes = self.nodes();
        let owners = self.owners();
        let ros_nodes = self.ros_nodes();
        let edges = self.edges();
        let mut out = String::from_str("digraph G {\n");
        let mut i: usize = 0;
        while i < ros_nodes.len()
            invariant
                d == self@,
                nodes@ == d.nodes,
                owners@ == d.owners,
                ros_nodes@ == d.ros_nodes,
                d.owners.len() == d.nodes.len(),
                attrs == texts(vertex_attributes@),
                vertex_attributes@.len() == d.nodes.len(),
                i <= ros_nodes@.len(),
                out@ == "digraph G {\n"@ + clusters_text(d, objects@, attrs, i as int),
            decreases ros_nodes@.len() - i,
        {
            let r = ros_nodes[i];
            let mut c = String::from_str("  subgraph cluster_");
            c.append(u64_text(i as u64).as_str());
            c.append(" {\n    label=\"");
            c.append(weak_string(get_node_name_from_weak(objects, r)).as_str());
            c.append("\";\n");
            let members = Self::members(objects, nodes, owners, vertex_attributes, Known::Known(r), "    ");
            c.append(members.as_str());
            c.append("  }\n");
            out.append(c.as_str());
            proof {
                assert(c@ == cluster_text(d, objects@, attrs, i as int));
            }
            i += 1;
        }
        let loose = Self::members(objects, nodes, owners, vertex_attributes, Known::Unknown, "  ");
        out.append(loose.as_str());
        let node_count = nodes.len();
        let mut e = String::new();
        let mut k: usize = 0;
        while k < edges.len()
            invariant
                edges@ == d.edges,
                node_count == d.nodes.len(),
                forall|j: int| 0 <= j < d.edges.len() ==> #[trigger] d.edges[j].0 < d.nodes.len() && d.edges[j].1 < d.nodes.len(),
                edge_attributes@.len() == d.edges.len(),
                eattrs == texts(edge_attributes@),
                k <= edges@.len(),
                e@ == edges_text(d, eattrs, k as int),
            decreases edges@.len() - k,
        {
            let (a, b, _) = edges[k];
            assert(d.edges[k as int].0 < node_count && d.edges[k as int].1 < node_count);
            let ghost e_old = e@;
            e.append("  n");
            let a1: usize = a + 1;
            e.append(u64_text(a1 as u64).as_str());
            e.append(" -> n");
            let b1: usize = b + 1;
            e.append(u64_text(b1 as u64).as_str());
            e.append(edge_attributes[k].as_str());
            e.append(";\n");
            proof {
                assert(eattrs[k as int] == edge_attributes@[k as int]@);
                assert(e@ == edges_text(d, eattrs, (k + 1) as int));
            }
            k += 1;
        }
        out.append(e.as_str());
        out.append("}\n");
        out
    }

    /// The lines of the vertices whose node is `owner` (see [`members_text`]).
    fn members(
        objects: &ObjectStore,
        nodes: &[Node],
        owners: &[Known<NodeRef>],
        vertex_attributes: &Vec<String>,
        owner: Known<NodeRef>,
        indent: &str,
    ) -> (r: String)
        requires
            owners@.len() == nodes@.len(),
            vertex_attributes@.len() == nodes@.len(),
        ensures
            forall|d: DisplayAsDotView| d.nodes == nodes@ && d.owners == owners@ ==>
                r@ == #[trigger] members_text(d, objects@, texts(vertex_attributes@), owner, indent@, nodes@.len() as int),
    {
        let ghost attrs = texts(vertex_attributes@);
        let mut s = String::new();
        let mut v: usize = 0;
        while v < nodes.len()
            invariant
                owners@.len() == nodes@.len(),
                vertex_attributes@.len() == nodes@.len(),
                attrs == texts(vertex_attributes@),
                v <= nodes@.len(),
                forall|d: DisplayAsDotView| d.nodes == nodes@ && d.owners == owners@ ==>
                    s@ == #[trigger] members_text(d, objects@, attrs, owner, indent@, v as int),
            decreases nodes@.len() - v,
        {
            let same = match (owners[v], owner) {
                (Known::Known(x), Known::Known(y)) => x.0 == y.0,
                (Known::Unknown, Known::Unknown) => true,
                _ => false,
            };
            let ghost s_old = s@;
            if same {
                s.append(indent);
                s.append("n");
                s.append(u64_text(v as u64 + 1).as_str());
                s.append(" [label=\"");
                s.append(vertex_label_text(objects, &nodes[v]).as_str());
                s.append("\", shape=ellipse");
                s.append(vertex_attributes[v].as_str());
                s.append("];\n");
            }
            proof {
                assert forall|d: DisplayAsDotView| d.nodes == nodes@ && d.owners == owners@ implies
                    s@ == #[trigger] members_text(d, objects@, attrs, owner, indent@, (v + 1) as int) by {
                    assert(members_text(d, objects@, attrs, owner, indent@, v as int) == s_old);
                    assert(d.owners[v as int] == owners@[v as int]);
                    assert(attrs[v as int] == vertex_attributes@[v as int]@);
                    assert(same == (owners@[v as int] == owner));
                }
            }
            v += 1;
        }
        s
    }
}

} // verus!
