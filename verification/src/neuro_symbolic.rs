use vstd::prelude::*;

verus! {

broadcast use vstd::string::group_string_axioms;

/// A node of the semantic graph.
#[derive(Debug)]
pub struct Node {
    pub id: String,
    pub label: String,
}

/// A typed edge of the semantic graph ("RELATION", "DEPENDENCY", ...).
#[derive(Debug)]
pub struct Edge {
    pub from: String,
    pub to: String,
    pub edge_type: String,
}

/// A semantic graph: nodes and the edges between them.
#[derive(Debug)]
pub struct Graph {
    pub nodes: Vec<Node>,
    pub edges: Vec<Edge>,
}

impl Clone for Node {
    fn clone(&self) -> (r: Self)
        ensures
            r == *self,
    {
        Node { id: self.id.clone(), label: self.label.clone() }
    }
}

impl Clone for Edge {
    fn clone(&self) -> (r: Self)
        ensures
            r == *self,
    {
        Edge { from: self.from.clone(), to: self.to.clone(), edge_type: self.edge_type.clone() }
    }
}

impl Clone for Graph {
    fn clone(&self) -> (r: Self)
        ensures
            r.nodes@ == self.nodes@,
            r.edges@ == self.edges@,
    {
        let nodes = self.nodes.clone();
        let edges = self.edges.clone();
        assert(nodes@ =~= self.nodes@);
        assert(edges@ =~= self.edges@);
        Graph { nodes, edges }
    }
}

/// The relations that the relation extractor reports.
pub open spec fn spec_relations() -> Seq<Seq<char>> {
    seq!["entity_pattern"@, "action_trade"@]
}

/// Builds the semantic graph of a query: a single "Query" node with id "1"
/// and no edges, whatever the query says.
pub fn build_semantic_graph(_query: &str) -> (g: Graph)
    ensures
        g.nodes@.len() == 1,
        g.nodes@[0].id@ == "1"@,
        g.nodes@[0].label@ == "Query"@,
        g.edges@.len() == 0,
{
    let mut nodes: Vec<Node> = Vec::new();
    nodes.push(Node { id: "1".to_string(), label: "Query".to_string() });
    Graph { nodes, edges: Vec::new() }
}

/// The relations of a graph: "entity_pattern" and "action_trade".
pub fn extract_relations(_graph: &Graph) -> (r: Vec<String>)
    ensures
        r@.len() == 2,
        r@[0]@ == "entity_pattern"@,
        r@[1]@ == "action_trade"@,
{
    let mut r: Vec<String> = Vec::new();
    r.push("entity_pattern".to_string());
    r.push("action_trade".to_string());
    r
}

/// Compiles the graph into blocks; the blocks are the graph itself.
pub fn compile_blocks(graph: &Graph) -> (g: Graph)
    ensures
        g.nodes@ == graph.nodes@,
        g.edges@ == graph.edges@,
{
    graph.clone()
}

} // verus!
