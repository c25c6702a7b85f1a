//! The blueprint graph, held in a `petgraph` directed graph whose node weights
//! are positions in the blueprint's node list and whose edge weights are
//! positions in its transition list.

use vstd::prelude::*;

use petgraph::graph::{Graph, NodeIndex};
use petgraph::visit::EdgeRef;
use petgraph::Directed;

verus! {

/// `petgraph::graph::Graph`.
#[verifier::external_type_specification]
#[verifier::external_body]
#[verifier::reject_recursive_types(N)]
#[verifier::reject_recursive_types(E)]
#[verifier::reject_recursive_types(Ty)]
#[verifier::reject_recursive_types(Ix)]
pub struct ExGraph<N, E, Ty, Ix>(Graph<N, E, Ty, Ix>);

/// `petgraph::Directed`.
#[verifier::external_type_specification]
#[verifier::external_body]
pub struct ExDirected(Directed);

/// The node weights of a graph, in the order the nodes were added (a node's
/// index is its position here).
pub uninterp spec fn graph_nodes(g: Graph<usize, usize, Directed, u32>) -> Seq<usize>;

/// The edges of a graph as (source index, target index, weight), in the order
/// they were added.
pub uninterp spec fn graph_edges(g: Graph<usize, usize, Directed, u32>) -> Seq<(usize, usize, usize)>;

/// The outgoing edges of `a` as (target, weight), most recently added first:
/// the order in which `Graph::edges` walks them.
pub open spec fn outgoing(es: Seq<(usize, usize, usize)>, a: usize) -> Seq<(usize, usize)>
    decreases es.len(),
{
    if es.len() == 0 {
        Seq::empty()
    } else {
        let rest = outgoing(es.drop_last(), a);
        let e = es.last();
        if e.0 == a {
            seq![(e.1, e.2)] + rest
        } else {
            rest
        }
    }
}

/// `Graph::new`: a graph without nodes or edges.
#[verifier::external_body]
pub(crate) fn graph_new() -> (g: Graph<usize, usize, Directed, u32>)
    ensures
        graph_nodes(g) == Seq::<usize>::empty(),
        graph_edges(g) == Seq::<(usize, usize, usize)>::empty(),
{
    Graph::new()
}

/// `Graph::add_node`: appends a node with weight `w` and returns its index.
/// The graph panics when its `u32` index space is full, which `requires` rules out.
#[verifier::external_body]
pub(crate) fn graph_add_node(g: &mut Graph<usize, usize, Directed, u32>, w: usize) -> (i: usize)
    requires
        graph_nodes(*old(g)).len() < u32::MAX,
    ensures
        i == graph_nodes(*old(g)).len(),
        graph_nodes(*final(g)) == graph_nodes(*old(g)).push(w),
        graph_edges(*final(g)) == graph_edges(*old(g)),
{
    g.add_node(w).index()
}

/// `Graph::add_edge`: appends an edge from `a` to `b` with weight `w`.
/// The graph panics on an unknown node or a full `u32` index space, which
/// `requires` rules out.
#[verifier::external_body]
pub(crate) fn graph_add_edge(g: &mut Graph<usize, usize, Directed, u32>, a: usize, b: usize, w: usize)
    requires
        a < graph_nodes(*old(g)).len(),
        b < graph_nodes(*old(g)).len(),
        graph_nodes(*old(g)).len() <= u32::MAX,
        graph_edges(*old(g)).len() < u32::MAX,
    ensures
        graph_nodes(*final(g)) == graph_nodes(*old(g)),
        graph_edges(*final(g)) == graph_edges(*old(g)).push((a, b, w)),
{
    g.add_edge(NodeIndex::new(a), NodeIndex::new(b), w);
}

/// `Graph::edges`: the outgoing edges of node `a` as (target index, weight),
/// in the order the graph walks them (newest first, as the graph keeps each
/// node's outgoing edges in a list that every new edge is put in front of).
#[verifier::external_body]
pub(crate) fn graph_out_edges(g: &Graph<usize, usize, Directed, u32>, a: usize) -> (r: Vec<(usize, usize)>)
    requires
        a < graph_nodes(*g).len(),
        graph_nodes(*g).len() <= u32::MAX,
    ensures
        r@ == outgoing(graph_edges(*g), a),
{
    g.edges(NodeIndex::new(a)).map(|e| (e.target().index(), *e.weight())).collect()
}

/// `Graph::node_count`: the number of nodes.
#[verifier::external_body]
pub(crate) fn graph_node_count(g: &Graph<usize, usize, Directed, u32>) -> (n: usize)
    ensures
        n == graph_nodes(*g).len(),
{
    g.node_count()
}

/// Every outgoing edge of a node is an edge of the graph: bounds that hold of
/// every edge's target and weight hold of the outgoing edges.
pub proof fn lemma_outgoing_bounded(es: Seq<(usize, usize, usize)>, a: usize, nb: nat, wb: nat)
    requires
        forall|i: int| 0 <= i < es.len() ==> (#[trigger] es[i]).1 < nb && es[i].2 < wb,
    ensures
        forall|j: int|
            0 <= j < outgoing(es, a).len() ==> (#[trigger] outgoing(es, a)[j]).0 < nb && outgoing(
                es,
                a,
            )[j].1 < wb,
    decreases es.len(),
{
    if es.len() > 0 {
        let d = es.drop_last();
        assert forall|i: int| 0 <= i < d.len() implies (#[trigger] d[i]).1 < nb && d[i].2 < wb by {
            assert(d[i] == es[i]);
        }
        lemma_outgoing_bounded(d, a, nb, wb);
        let e = es.last();
        assert(es[es.len() - 1] == e);
        let rest = outgoing(d, a);
        let out = outgoing(es, a);
        if e.0 == a {
            assert forall|j: int| 0 <= j < out.len() implies (#[trigger] out[j]).0 < nb && out[j].1
                < wb by {
                if j > 0 {
                    assert(out[j] == rest[j - 1]);
                }
            }
        }
    }
}

/// Indexing a graph by node (`graph[a]`): the weight of node `a`.
#[verifier::external_body]
pub(crate) fn graph_node_weight(g: &Graph<usize, usize, Directed, u32>, a: usize) -> (w: usize)
    requires
        a < graph_nodes(*g).len(),
        graph_nodes(*g).len() <= u32::MAX,
    ensures
        w == graph_nodes(*g)[a as int],
{
    g[NodeIndex::new(a)]
}

} // verus!
