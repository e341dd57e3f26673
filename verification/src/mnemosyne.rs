//! Mnemosyne: semantic memory — a knowledge graph of concepts and relations.
use vstd::prelude::*;
use crate::memory::{Edge, KnowledgeNode, Relation};

verus! {

/// The knowledge graph store.
pub struct KnowledgeGraph {
    nodes: Vec<KnowledgeNode>,
    edges: Vec<Edge>,
}

impl KnowledgeGraph {
    /// The concept nodes, in insertion order.
    pub closed spec fn nodes(&self) -> Seq<KnowledgeNode> {
        self.nodes@
    }

    /// The relations, in insertion order.
    pub closed spec fn edges(&self) -> Seq<Edge> {
        self.edges@
    }

    /// Every node's id is its position in the graph.
    #[verifier::type_invariant]
    pub open spec fn wf(&self) -> bool {
        forall|i: int| 0 <= i < self.nodes().len() ==> (#[trigger] self.nodes()[i]).id == i
    }

    /// An empty graph with room for 64 nodes and 64 relations.
    pub fn new() -> (g: Self)
        ensures
            g.wf(),
            g.nodes().len() == 0,
            g.edges().len() == 0,
    {
        KnowledgeGraph { nodes: Vec::with_capacity(64), edges: Vec::with_capacity(64) }
    }

    /// Number of nodes.
    pub fn node_count(&self) -> (n: usize)
        ensures
            n == self.nodes().len(),
    {
        self.nodes.len()
    }

    /// Number of relations.
    pub fn edge_count(&self) -> (n: usize)
        ensures
            n == self.edges().len(),
    {
        self.edges.len()
    }

    /// The node with id `id`, if there is one.
    pub fn node(&self, id: u64) -> (n: Option<&KnowledgeNode>)
        ensures
            id < self.nodes().len() ==> n == Some(&self.nodes()[id as int]),
            id >= self.nodes().len() ==> n is None,
    {
        if id < self.nodes.len() as u64 {
            Some(&self.nodes[id as usize])
        } else {
            None
        }
    }

    /// The relation at position `i`.
    pub fn edge(&self, i: usize) -> (e: Edge)
        requires
            i < self.edges().len(),
        ensures
            e == self.edges()[i as int],
    {
        self.edges[i]
    }
}

/// Add a concept node to the knowledge graph; its id is the number of nodes
/// before it (significance and last access start at zero).
pub fn add_node(graph: &mut KnowledgeGraph, label: String) -> (id: u64)
    requires
        old(graph).nodes().len() < u64::MAX,
    ensures
        final(graph).wf(),
        id == old(graph).nodes().len(),
        final(graph).nodes().len() == old(graph).nodes().len() + 1,
        final(graph).nodes().subrange(0, id as int) == old(graph).nodes(),
        final(graph).nodes()[id as int].label == label,
        final(graph).edges() == old(graph).edges(),
{
    proof {
        use_type_invariant(&*graph);
    }
    let id = graph.nodes.len() as u64;
    let mut nodes: Vec<KnowledgeNode> = Vec::new();
    std::mem::swap(&mut nodes, &mut graph.nodes);
    nodes.push(KnowledgeNode { id, label, significance_bits: 0, last_access: 0 });
    assert(nodes@.subrange(0, id as int) =~= old(graph).nodes@);
    graph.nodes = nodes;
    id
}

/// Add a relationship between two nodes.
pub fn add_relation(graph: &mut KnowledgeGraph, from: u64, to: u64, relation: Relation)
    ensures
        final(graph).edges() == old(graph).edges().push(Edge { from, to, relation }),
        final(graph).nodes() == old(graph).nodes(),
{
    proof {
        use_type_invariant(&*graph);
    }
    let mut nodes: Vec<KnowledgeNode> = Vec::new();
    std::mem::swap(&mut nodes, &mut graph.nodes);
    let mut edges: Vec<Edge> = Vec::new();
    std::mem::swap(&mut edges, &mut graph.edges);
    edges.push(Edge { from, to, relation });
    graph.edges = edges;
    assert forall|i: int| 0 <= i < nodes@.len() implies (#[trigger] nodes@[i]).id == i by {
        assert(old(graph).nodes()[i] == nodes@[i]);
    }
    graph.nodes = nodes;
}

/// Nodes added one after another get consecutive ids, so no two nodes share one.
pub proof fn lemma_node_ids_distinct(g: KnowledgeGraph, i: int, j: int)
    requires
        g.wf(),
        0 <= i < g.nodes().len(),
        0 <= j < g.nodes().len(),
        i != j,
    ensures
        g.nodes()[i].id != g.nodes()[j].id,
{
}

} // verus!
