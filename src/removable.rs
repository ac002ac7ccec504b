use crate::error::ErrorEnum;
use petgraph::graph::{EdgeIndex, Graph, NodeIndex};
use petgraph::graphmap::GraphMap;
use petgraph::matrix_graph::MatrixGraph;
use petgraph::stable_graph::StableGraph;
use petgraph::Directed;
use std::hash::RandomState;
use vstd::prelude::*;

verus! {

#[verifier::external_type_specification]
#[verifier::external_body]
pub struct ExDirected(Directed);

#[verifier::external_type_specification]
#[verifier::external_body]
#[verifier::reject_recursive_types(Ix)]
pub struct ExNodeIndex<Ix>(NodeIndex<Ix>);

#[verifier::external_type_specification]
#[verifier::external_body]
#[verifier::reject_recursive_types(Ix)]
pub struct ExEdgeIndex<Ix>(EdgeIndex<Ix>);

#[verifier::external_type_specification]
#[verifier::external_body]
#[verifier::reject_recursive_types(N)]
#[verifier::reject_recursive_types(E)]
#[verifier::reject_recursive_types(Ty)]
#[verifier::reject_recursive_types(Ix)]
pub struct ExStableGraph<N, E, Ty, Ix>(StableGraph<N, E, Ty, Ix>);

#[verifier::external_type_specification]
#[verifier::external_body]
#[verifier::reject_recursive_types(N)]
#[verifier::reject_recursive_types(E)]
#[verifier::reject_recursive_types(Ty)]
#[verifier::reject_recursive_types(Ix)]
pub struct ExGraph<N, E, Ty, Ix>(Graph<N, E, Ty, Ix>);

#[verifier::external_type_specification]
#[verifier::external_body]
#[verifier::reject_recursive_types(N)]
#[verifier::reject_recursive_types(E)]
#[verifier::reject_recursive_types(Ty)]
#[verifier::reject_recursive_types(S)]
pub struct ExGraphMap<N, E, Ty, S>(GraphMap<N, E, Ty, S>) where S: std::hash::BuildHasher;

/// Tombstone-preserving storage: removal frees an index and moves nothing.
pub type StableDiGraph = StableGraph<u64, u64, Directed, u32>;

/// Compacting storage: removal moves the last node into the freed index.
pub type DiGraph = Graph<u64, u64, Directed, u32>;

/// Storage addressed by node values.
pub type DiGraphMap = GraphMap<u64, u64, Directed, RandomState>;

/// The matrix graph that `DenseGraph` holds.
pub type DiMatrix = MatrixGraph<u64, u64, RandomState, Directed, Option<u64>, usize>;

/// Dense adjacency-matrix storage: every index is a slot of the matrix,
/// occupied by a node or free.
#[verifier::external_body]
pub struct DenseGraph {
    matrix: DiMatrix,
}

/// A graph whose nodes may be removed. Each representation reports the
/// outcome of a removal in a shape of its own, `RemoveResult`.
pub trait NodeRemovable: Sized {
    type NodeId;

    type RemoveResult;

    /// What a removal of `node` asks of the graph.
    spec fn remove_requires(&self, node: Self::NodeId) -> bool;

    /// How the graph `after` a removal of `node`, and its outcome `r`, relate
    /// to the graph before it.
    spec fn remove_ensures(&self, after: &Self, node: Self::NodeId, r: Self::RemoveResult) -> bool;

    /// Removes `node`, with the edges that touch it.
    fn remove_node(&mut self, node: Self::NodeId) -> (r: Self::RemoveResult)
        requires
            old(self).remove_requires(node),
        ensures
            old(self).remove_ensures(&*final(self), node, r),
    ;
}

/// The number that a node index stands for, as `NodeIndex::index` reads it.
pub uninterp spec fn node_index_value(n: NodeIndex<u32>) -> nat;

/// The nodes of a stable graph: the weight at each index in use.
pub uninterp spec fn stable_nodes(g: StableDiGraph) -> Map<nat, u64>;

/// The edges of a stable graph: source, target and weight at each index in use.
pub uninterp spec fn stable_edges(g: StableDiGraph) -> Map<nat, (nat, nat, u64)>;

/// The edges, by index, that neither start nor end at node `a`.
pub open spec fn indexed_edges_apart(edges: Map<nat, (nat, nat, u64)>, a: nat) -> Map<
    nat,
    (nat, nat, u64),
> {
    edges.restrict(edges.dom().filter(|i: nat| edges[i].0 != a && edges[i].1 != a))
}

/// Relies on StableGraph::remove_node: it hands back the weight of the node
/// at the index and frees that index, or hands back nothing where the index
/// holds no node; it removes every edge into or out of that node, and leaves
/// every other node and edge at its index.
#[verifier::external_body]
fn stable_remove_node(g: &mut StableDiGraph, a: NodeIndex<u32>) -> (r: Option<u64>)
    ensures
        r == (if stable_nodes(*old(g)).contains_key(node_index_value(a)) {
            Some(stable_nodes(*old(g))[node_index_value(a)])
        } else {
            None::<u64>
        }),
        stable_nodes(*final(g)) == stable_nodes(*old(g)).remove(node_index_value(a)),
        r is None ==> stable_edges(*final(g)) == stable_edges(*old(g)),
        r is Some ==> stable_edges(*final(g)) == indexed_edges_apart(
            stable_edges(*old(g)),
            node_index_value(a),
        ),
{
    g.remove_node(a)
}

impl NodeRemovable for StableDiGraph {
    type NodeId = NodeIndex<u32>;

    type RemoveResult = Option<u64>;

    open spec fn remove_requires(&self, node: NodeIndex<u32>) -> bool {
        true
    }

    open spec fn remove_ensures(&self, after: &Self, node: NodeIndex<u32>, r: Option<u64>) -> bool {
        let a = node_index_value(node);
        &&& r == (if stable_nodes(*self).contains_key(a) {
            Some(stable_nodes(*self)[a])
        } else {
            None::<u64>
        })
        &&& stable_nodes(*after) == stable_nodes(*self).remove(a)
        &&& stable_edges(*after) == indexed_edges_apart(stable_edges(*self), a)
            || (r is None && stable_edges(*after) == stable_edges(*self))
    }

    /// Removes the node at `node`; every other node keeps its index.
    fn remove_node(&mut self, node: NodeIndex<u32>) -> (r: Option<u64>)
        ensures
            stable_nodes(*old(self)).contains_key(node_index_value(node)) ==> r == Some(
                stable_nodes(*old(self))[node_index_value(node)],
            ),
            !stable_nodes(*old(self)).contains_key(node_index_value(node)) ==> r is None,
            forall|i: nat|
                i != node_index_value(node) && #[trigger] stable_nodes(*old(self)).contains_key(i)
                    ==> stable_nodes(*final(self)).contains_key(i) && stable_nodes(
                    *final(self),
                )[i] == stable_nodes(*old(self))[i],
            !stable_nodes(*final(self)).contains_key(node_index_value(node)),
            r is Some ==> stable_edges(*final(self)) == indexed_edges_apart(
                stable_edges(*old(self)),
                node_index_value(node),
            ),
    {
        stable_remove_node(self, node)
    }
}

/// The node weights of a compacting graph, in index order.
pub uninterp spec fn graph_nodes(g: DiGraph) -> Seq<u64>;

/// The node weights after the node at index `a` is taken out and the last
/// node moved into its place.
pub open spec fn swap_removed(nodes: Seq<u64>, a: nat) -> Seq<u64> {
    nodes.update(a as int, nodes.last()).drop_last()
}

/// Relies on Graph::remove_node: where the index is in range, it hands back
/// that node's weight and moves the last node into its place (a
/// `Vec::swap_remove`); out of range it hands back nothing and changes nothing.
#[verifier::external_body]
fn graph_remove_node(g: &mut DiGraph, a: NodeIndex<u32>) -> (r: Option<u64>)
    ensures
        node_index_value(a) < graph_nodes(*old(g)).len() ==> r == Some(
            graph_nodes(*old(g))[node_index_value(a) as int],
        ) && graph_nodes(*final(g)) == swap_removed(graph_nodes(*old(g)), node_index_value(a)),
        node_index_value(a) >= graph_nodes(*old(g)).len() ==> r is None && graph_nodes(*final(g))
            == graph_nodes(*old(g)),
{
    g.remove_node(a)
}

impl NodeRemovable for DiGraph {
    type NodeId = NodeIndex<u32>;

    type RemoveResult = Option<u64>;

    open spec fn remove_requires(&self, node: NodeIndex<u32>) -> bool {
        true
    }

    open spec fn remove_ensures(&self, after: &Self, node: NodeIndex<u32>, r: Option<u64>) -> bool {
        let a = node_index_value(node);
        let nodes = graph_nodes(*self);
        if a < nodes.len() {
            r == Some(nodes[a as int]) && graph_nodes(*after) == swap_removed(nodes, a)
        } else {
            r is None && graph_nodes(*after) == nodes
        }
    }

    /// Removes the node at `node`; the node that was last takes its index.
    fn remove_node(&mut self, node: NodeIndex<u32>) -> (r: Option<u64>)
        ensures
            node_index_value(node) < graph_nodes(*old(self)).len() ==> r == Some(
                graph_nodes(*old(self))[node_index_value(node) as int],
            ) && graph_nodes(*final(self)).len() + 1 == graph_nodes(*old(self)).len(),
            node_index_value(node) + 1 < graph_nodes(*old(self)).len() ==> graph_nodes(
                *final(self),
            )[node_index_value(node) as int] == graph_nodes(*old(self)).last(),
            node_index_value(node) >= graph_nodes(*old(self)).len() ==> r is None
                && graph_nodes(*final(self)) == graph_nodes(*old(self)),
    {
        graph_remove_node(self, node)
    }
}

/// The nodes of a value-addressed graph.
pub uninterp spec fn graphmap_nodes(g: DiGraphMap) -> Set<u64>;

/// The edges of a value-addressed graph: the weight of each (source, target).
pub uninterp spec fn graphmap_edges(g: DiGraphMap) -> Map<(u64, u64), u64>;

/// The edges, by endpoints, that neither start nor end at `n`.
pub open spec fn keyed_edges_apart<K>(edges: Map<(K, K), u64>, n: K) -> Map<(K, K), u64> {
    edges.restrict(edges.dom().filter(|k: (K, K)| k.0 != n && k.1 != n))
}

/// Relies on GraphMap::remove_node: it tells whether `n` was a node; if it
/// was, `n` and every edge into or out of it are gone afterwards, and if it
/// was not, nothing changes.
#[verifier::external_body]
fn graphmap_remove_node(g: &mut DiGraphMap, n: u64) -> (r: bool)
    ensures
        r == graphmap_nodes(*old(g)).contains(n),
        graphmap_nodes(*final(g)) == graphmap_nodes(*old(g)).remove(n),
        r ==> graphmap_edges(*final(g)) == keyed_edges_apart(graphmap_edges(*old(g)), n),
        !r ==> graphmap_edges(*final(g)) == graphmap_edges(*old(g)),
{
    g.remove_node(n)
}

impl NodeRemovable for DiGraphMap {
    type NodeId = u64;

    type RemoveResult = bool;

    open spec fn remove_requires(&self, node: u64) -> bool {
        true
    }

    open spec fn remove_ensures(&self, after: &Self, node: u64, r: bool) -> bool {
        &&& r == graphmap_nodes(*self).contains(node)
        &&& graphmap_nodes(*after) == graphmap_nodes(*self).remove(node)
        &&& graphmap_edges(*after) == keyed_edges_apart(graphmap_edges(*self), node)
            || (!r && graphmap_edges(*after) == graphmap_edges(*self))
    }

    /// Removes the node `node`; tells whether it was there.
    fn remove_node(&mut self, node: u64) -> (r: bool)
        ensures
            graphmap_nodes(*old(self)).contains(node) ==> r && !graphmap_nodes(
                *final(self),
            ).contains(node),
            !graphmap_nodes(*old(self)).contains(node) ==> !r && graphmap_nodes(*final(self))
                == graphmap_nodes(*old(self)),
    {
        graphmap_remove_node(self, node)
    }
}

/// The occupied slots of a dense graph: the weight at each slot in use.
pub uninterp spec fn matrix_nodes(g: DenseGraph) -> Map<nat, u64>;

/// The edges of a dense graph: the weight of each (source, target).
pub uninterp spec fn matrix_edges(g: DenseGraph) -> Map<(nat, nat), u64>;

/// The entries of the matrix that join slot `a` to an occupied slot, either way.
pub open spec fn matrix_cross(nodes: Map<nat, u64>, a: nat) -> Set<(nat, nat)> {
    Set::new(
        |k: (nat, nat)|
            (k.0 == a && nodes.contains_key(k.1)) || (k.1 == a && nodes.contains_key(k.0)),
    )
}

impl DenseGraph {
    /// Relies on MatrixGraph::default: a graph with no node and no edge.
    #[verifier::external_body]
    pub fn new() -> (r: DenseGraph)
        ensures
            matrix_nodes(r).is_empty(),
            matrix_edges(r).is_empty(),
    {
        DenseGraph { matrix: DiMatrix::default() }
    }

    /// Relies on MatrixGraph::add_node: it stores the weight in a free slot
    /// and hands back that slot; edges stay as they were.
    #[verifier::external_body]
    pub fn add_node(&mut self, weight: u64) -> (r: usize)
        ensures
            !matrix_nodes(*old(self)).contains_key(r as nat),
            matrix_nodes(*final(self)) == matrix_nodes(*old(self)).insert(r as nat, weight),
            matrix_edges(*final(self)) == matrix_edges(*old(self)),
    {
        self.matrix.add_node(weight).index()
    }

    /// Relies on MatrixGraph::add_edge: it sets the matrix entry from `a` to
    /// `b`, which must be empty (it panics otherwise); nodes stay as they were.
    #[verifier::external_body]
    pub fn add_edge(&mut self, a: usize, b: usize, weight: u64)
        requires
            matrix_nodes(*old(self)).contains_key(a as nat),
            matrix_nodes(*old(self)).contains_key(b as nat),
            !matrix_edges(*old(self)).contains_key((a as nat, b as nat)),
        ensures
            matrix_nodes(*final(self)) == matrix_nodes(*old(self)),
            matrix_edges(*final(self)) == matrix_edges(*old(self)).insert(
                (a as nat, b as nat),
                weight,
            ),
    {
        self.matrix.add_edge(NodeIndex::new(a), NodeIndex::new(b), weight)
    }

    /// Relies on MatrixGraph::get_node_weight: whether slot `a` holds a node.
    #[verifier::external_body]
    pub fn contains_node(&self, a: usize) -> (r: bool)
        ensures
            r == matrix_nodes(*self).contains_key(a as nat),
    {
        self.matrix.get_node_weight(NodeIndex::new(a)).is_some()
    }

    /// Relies on MatrixGraph::has_edge: whether the entry from `a` to `b` is set.
    #[verifier::external_body]
    pub fn has_edge(&self, a: usize, b: usize) -> (r: bool)
        ensures
            r == matrix_edges(*self).contains_key((a as nat, b as nat)),
    {
        self.matrix.has_edge(NodeIndex::new(a), NodeIndex::new(b))
    }
}

/// Relies on MatrixGraph::remove_node: for an occupied slot it clears the
/// matrix entries between that slot and every occupied slot, frees the slot
/// and hands back its weight. It panics on a slot that is not occupied.
#[verifier::external_body]
fn matrix_remove_node(g: &mut DenseGraph, a: usize) -> (r: u64)
    requires
        matrix_nodes(*old(g)).contains_key(a as nat),
    ensures
        r == matrix_nodes(*old(g))[a as nat],
        matrix_nodes(*final(g)) == matrix_nodes(*old(g)).remove(a as nat),
        matrix_edges(*final(g)) == matrix_edges(*old(g)).remove_keys(
            matrix_cross(matrix_nodes(*old(g)), a as nat),
        ),
{
    g.matrix.remove_node(NodeIndex::new(a))
}

impl NodeRemovable for DenseGraph {
    type NodeId = usize;

    type RemoveResult = u64;

    open spec fn remove_requires(&self, node: usize) -> bool {
        matrix_nodes(*self).contains_key(node as nat)
    }

    open spec fn remove_ensures(&self, after: &Self, node: usize, r: u64) -> bool {
        &&& r == matrix_nodes(*self)[node as nat]
        &&& matrix_nodes(*after) == matrix_nodes(*self).remove(node as nat)
        &&& matrix_edges(*after) == matrix_edges(*self).remove_keys(
            matrix_cross(matrix_nodes(*self), node as nat),
        )
    }

    /// Removes the node in slot `node`, which must be occupied, and hands
    /// back its weight; the slot is free afterwards.
    fn remove_node(&mut self, node: usize) -> (r: u64)
        ensures
            r == matrix_nodes(*old(self))[node as nat],
            !matrix_nodes(*final(self)).contains_key(node as nat),
    {
        matrix_remove_node(self, node)
    }
}

/// The unified error type of a graph, for callback errors of type `C`.
pub trait GraphError<C> {
    type Error;
}

impl<C> GraphError<C> for StableDiGraph {
    type Error = ErrorEnum<NodeIndex<u32>, EdgeIndex<u32>, C>;
}

impl<C> GraphError<C> for DiGraph {
    type Error = ErrorEnum<NodeIndex<u32>, EdgeIndex<u32>, C>;
}

impl<C> GraphError<C> for DiGraphMap {
    type Error = ErrorEnum<u64, (u64, u64), C>;
}

impl<C> GraphError<C> for DenseGraph {
    type Error = ErrorEnum<usize, (usize, usize), C>;
}

} // verus!
