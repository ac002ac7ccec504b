use petgraph::graph::{Graph, NodeIndex};
use petgraph::graphmap::GraphMap;
use petgraph::stable_graph::StableGraph;
use petgraph::Directed;
use rustworkx_core::removable::{DenseGraph, DiGraph, DiGraphMap, NodeRemovable, StableDiGraph};

fn remove_via_trait<G: NodeRemovable>(g: &mut G, n: G::NodeId) -> G::RemoveResult {
    g.remove_node(n)
}

#[test]
fn stable_remove_middle_of_path() {
    let mut g: StableDiGraph = StableGraph::default();
    let a = g.add_node(10);
    let b = g.add_node(20);
    let c = g.add_node(30);
    g.add_edge(a, b, 1);
    g.add_edge(b, c, 2);
    assert_eq!(<StableDiGraph as NodeRemovable>::remove_node(&mut g, b), Some(20));
    assert!(g.contains_node(a));
    assert!(g.contains_node(c));
    assert!(!g.contains_node(b));
    assert_eq!(g.node_weight(a), Some(&10));
    assert_eq!(g.node_weight(c), Some(&30));
    assert_eq!(g.edge_count(), 0);
    assert!(g.find_edge(a, b).is_none());
    assert!(g.find_edge(b, c).is_none());
}

#[test]
fn stable_remove_absent_gives_none() {
    let mut g: StableDiGraph = StableGraph::default();
    let a = g.add_node(5);
    assert_eq!(remove_via_trait(&mut g, a), Some(5));
    assert_eq!(remove_via_trait(&mut g, a), None);
    assert_eq!(remove_via_trait(&mut g, NodeIndex::new(17)), None);
    assert_eq!(g.node_count(), 0);
}

#[test]
fn stable_keeps_other_edges() {
    let mut g: StableDiGraph = StableGraph::default();
    let a = g.add_node(1);
    let b = g.add_node(2);
    let c = g.add_node(3);
    let e = g.add_edge(a, c, 9);
    g.add_edge(b, a, 8);
    assert_eq!(remove_via_trait(&mut g, b), Some(2));
    assert_eq!(g.edge_weight(e), Some(&9));
    assert_eq!(g.edge_count(), 1);
}

#[test]
fn compacting_remove_moves_last_node() {
    let mut g: DiGraph = Graph::default();
    let a = g.add_node(100);
    let b = g.add_node(200);
    let c = g.add_node(300);
    g.add_edge(a, c, 1);
    assert_eq!(<DiGraph as NodeRemovable>::remove_node(&mut g, a), Some(100));
    assert_eq!(g.node_count(), 2);
    assert_eq!(g.node_weight(a), Some(&300));
    assert_eq!(g.node_weight(b), Some(&200));
    assert_eq!(g.node_weight(c), None);
    assert_eq!(g.edge_count(), 0);
}

#[test]
fn compacting_remove_last_and_out_of_range() {
    let mut g: DiGraph = Graph::default();
    g.add_node(1);
    let b = g.add_node(2);
    assert_eq!(remove_via_trait(&mut g, b), Some(2));
    assert_eq!(g.node_count(), 1);
    assert_eq!(remove_via_trait(&mut g, b), None);
    assert_eq!(g.node_count(), 1);
}

#[test]
fn keyed_remove_present_and_absent() {
    let mut g: DiGraphMap = GraphMap::<u64, u64, Directed>::new();
    g.add_edge(1, 2, 5);
    g.add_edge(2, 3, 6);
    g.add_edge(1, 3, 7);
    assert!(<DiGraphMap as NodeRemovable>::remove_node(&mut g, 2));
    assert!(!g.contains_node(2));
    assert!(g.contains_node(1));
    assert!(g.contains_node(3));
    assert!(!g.contains_edge(1, 2));
    assert!(!g.contains_edge(2, 3));
    assert!(g.contains_edge(1, 3));
    assert!(!remove_via_trait(&mut g, 2));
    assert!(!remove_via_trait(&mut g, 99));
    assert_eq!(g.node_count(), 2);
}

#[test]
fn dense_remove_returns_weight_and_frees_slot() {
    let mut g = DenseGraph::new();
    let a = g.add_node(11);
    let b = g.add_node(22);
    let c = g.add_node(33);
    g.add_edge(a, b, 1);
    g.add_edge(b, c, 2);
    g.add_edge(a, c, 3);
    assert!(g.contains_node(b));
    assert_eq!(remove_via_trait(&mut g, b), 22);
    assert!(!g.contains_node(b));
    assert!(g.contains_node(a));
    assert!(g.contains_node(c));
    assert!(!g.has_edge(a, b));
    assert!(!g.has_edge(b, c));
    assert!(g.has_edge(a, c));
}

#[test]
fn dense_reuses_freed_slot() {
    let mut g = DenseGraph::new();
    let a = g.add_node(1);
    let b = g.add_node(2);
    g.add_edge(b, a, 4);
    assert_eq!(<DenseGraph as NodeRemovable>::remove_node(&mut g, a), 1);
    let d = g.add_node(3);
    assert!(g.contains_node(d));
    assert!(!g.has_edge(b, d));
    assert_eq!(remove_via_trait(&mut g, d), 3);
    assert_eq!(remove_via_trait(&mut g, b), 2);
    assert!(!g.contains_node(b));
}
