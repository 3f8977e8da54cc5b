//! Nodal analysis of a circuit that is given as a graph.
//!
//! The vertices of the graph are the nodes of the circuit, each with a flag
//! that says whether it is ground, and the edges are the elements. The
//! terminals of an element name the vertices of its edge by their index.
//!
//! The unknowns are the voltages of the vertices that are not ground, in the
//! order of the vertices. No element gets an unknown of its own: an ideal
//! voltage source or an inductor, which has no resistance, adds nothing, and
//! a voltage source takes part only with a series resistance.
use vstd::prelude::*;
use petgraph::graph::Graph;
use petgraph::graph::NodeIndex;
use petgraph::visit::EdgeRef;
use petgraph::Undirected;
use crate::elements::{Element, Terminal};
use crate::runners::RunnerError;
use crate::scalar::Quantity;
use crate::stamp::{conductance_half, injection_stamp, stamp_conductance_half, stamp_injection};
use crate::system::{MatrixStamp, System, VectorStamp, matrix_within, vector_within};

verus! {

/// `petgraph::graph::Graph`, taken as a type of which nothing is known but
/// what the functions below say.
#[verifier::external_type_specification]
#[verifier::external_body]
#[verifier::reject_recursive_types(N)]
#[verifier::reject_recursive_types(E)]
#[verifier::reject_recursive_types(Ty)]
#[verifier::reject_recursive_types(Ix)]
pub struct ExGraph<N, E, Ty, Ix>(Graph<N, E, Ty, Ix>);

/// `petgraph::Undirected`, the marker of a graph with undirected edges.
#[verifier::external_type_specification]
#[verifier::external_body]
pub struct ExUndirected(Undirected);

/// An edge as seen from one of its ends.
#[derive(Debug, Clone, Copy)]
pub struct Incidence {
    /// The vertex from which the edge is seen.
    pub source: usize,
    /// The vertex at the other end.
    pub target: usize,
    /// The element on the edge.
    pub element: Element,
}

/// The ground flags of the vertices of a graph, by vertex index: what the
/// graph holds as the weights of its vertices.
pub uninterp spec fn ground_flags(graph: Graph<bool, Element, Undirected, u32>) -> Seq<bool>;

/// For each vertex of a graph, by vertex index, the edges at that vertex in
/// the order in which `petgraph::graph::Graph::edges` lists them.
pub uninterp spec fn adjacency(graph: Graph<bool, Element, Undirected, u32>) -> Seq<Seq<Incidence>>;

/// `petgraph::graph::Graph::node_count`: the number of vertices, which is
/// the number of ground flags that the graph holds.
#[verifier::external_body]
fn vertex_count(graph: &Graph<bool, Element, Undirected, u32>) -> (n: usize)
    ensures
        n == ground_flags(*graph).len(),
{
    graph.node_count()
}

/// Indexing a `petgraph::graph::Graph` by a vertex: the weight of that
/// vertex, here its ground flag. The vertex has to exist.
#[verifier::external_body]
fn vertex_is_ground(graph: &Graph<bool, Element, Undirected, u32>, vertex: usize) -> (ground: bool)
    requires
        vertex < ground_flags(*graph).len(),
    ensures
        ground == ground_flags(*graph)[vertex as int],
{
    graph[NodeIndex::new(vertex)]
}

/// `petgraph::graph::Graph::edges` on an undirected graph: all edges at
/// `vertex`, a loop once, each with `vertex` as its source and a vertex of
/// the graph as its target.
#[verifier::external_body]
fn vertex_edges(graph: &Graph<bool, Element, Undirected, u32>, vertex: usize) -> (edges: Vec<Incidence>)
    requires
        vertex < ground_flags(*graph).len(),
    ensures
        edges@ == adjacency(*graph)[vertex as int],
        forall|i: int|
            0 <= i < edges@.len() ==> (#[trigger] edges@[i]).source == vertex && edges@[i].target
                < ground_flags(*graph).len(),
{
    graph.edges(NodeIndex::new(vertex)).map(
        |edge| Incidence {
            source: edge.source().index(),
            target: edge.target().index(),
            element: *edge.weight(),
        },
    ).collect()
}

/// The number of vertices that are not ground.
pub open spec fn free_count(grounds: Seq<bool>) -> nat
    decreases grounds.len(),
{
    if grounds.len() == 0 {
        0
    } else {
        free_count(grounds.drop_last()) + if grounds.last() {
            0nat
        } else {
            1nat
        }
    }
}

/// The unknown that stands for the voltage of `vertex`: none for a ground
/// vertex, and for every other the number of vertices before it that are
/// not ground.
pub open spec fn vertex_row(grounds: Seq<bool>, vertex: int) -> Option<usize> {
    if grounds[vertex] {
        None
    } else {
        Some(free_count(grounds.take(vertex)) as usize)
    }
}

impl Incidence {
    /// Whether a terminal of the element names the source vertex.
    pub open spec fn spec_wired(&self) -> bool {
        self.element.spec_terminals()[0].node.0 == self.source
            || self.element.spec_terminals()[1].node.0 == self.source
    }

    /// The first terminal of the element that names the source vertex.
    pub open spec fn spec_terminal(&self) -> Terminal {
        if self.element.spec_terminals()[0].node.0 == self.source {
            self.element.spec_terminals()[0]
        } else {
            self.element.spec_terminals()[1]
        }
    }

    /// The first terminal of the element that names the source vertex, if
    /// there is one.
    pub fn terminal(&self) -> (t: Option<Terminal>)
        ensures
            t == if self.spec_wired() {
                Some(self.spec_terminal())
            } else {
                None
            },
    {
        let terminals: &[Terminal; 2] = self.element.terminals();
        if terminals[0].node.0 == self.source {
            Some(terminals[0])
        } else if terminals[1].node.0 == self.source {
            Some(terminals[1])
        } else {
            None
        }
    }

    /// What the edge adds to the column of its source vertex: the
    /// conductance of the element on the diagonal and, unless the target is
    /// ground, its negative in the row of the target. An element without
    /// resistance adds nothing.
    pub open spec fn matrix_stamps(&self, grounds: Seq<bool>) -> Seq<MatrixStamp> {
        match vertex_row(grounds, self.source as int) {
            Some(row) => if self.element.spec_resistance().spec_is_zero() {
                Seq::<MatrixStamp>::empty()
            } else {
                conductance_half(
                    row,
                    vertex_row(grounds, self.target as int),
                    Quantity::Reciprocal(self.element.spec_resistance()),
                )
            },
            None => Seq::<MatrixStamp>::empty(),
        }
    }

    /// What the edge adds to the right-hand side in the row of its source
    /// vertex: the current that the element injects, with the sign of the
    /// terminal at that vertex.
    pub open spec fn vector_stamps(&self, grounds: Seq<bool>) -> Seq<VectorStamp> {
        match self.element.spec_injection() {
            Some(quantity) => injection_stamp(
                vertex_row(grounds, self.source as int),
                self.spec_terminal().spec_signed(quantity),
            ),
            None => Seq::<VectorStamp>::empty(),
        }
    }
}

/// Whether the edges at every vertex start there and end at a vertex.
pub open spec fn consistent(grounds: Seq<bool>, edges: Seq<Seq<Incidence>>) -> bool {
    &&& edges.len() == grounds.len()
    &&& forall|v: int, i: int|
        0 <= v < edges.len() && 0 <= i < edges[v].len() ==> (#[trigger] edges[v][i]).source == v
            && edges[v][i].target < grounds.len()
}

/// Whether every element on an edge at a vertex that is not ground has a
/// terminal that names that vertex.
pub open spec fn all_wired(grounds: Seq<bool>, edges: Seq<Seq<Incidence>>) -> bool {
    forall|v: int, i: int|
        0 <= v < edges.len() && !grounds[v] && 0 <= i < edges[v].len() ==> (
        #[trigger] edges[v][i]).spec_wired()
}

/// The matrix stamps of the edges `edges`, edge after edge.
pub open spec fn edges_matrix(grounds: Seq<bool>, edges: Seq<Incidence>) -> Seq<MatrixStamp>
    decreases edges.len(),
{
    if edges.len() == 0 {
        Seq::<MatrixStamp>::empty()
    } else {
        edges_matrix(grounds, edges.drop_last()) + edges.last().matrix_stamps(grounds)
    }
}

/// The right-hand side stamps of the edges `edges`, edge after edge.
pub open spec fn edges_vector(grounds: Seq<bool>, edges: Seq<Incidence>) -> Seq<VectorStamp>
    decreases edges.len(),
{
    if edges.len() == 0 {
        Seq::<VectorStamp>::empty()
    } else {
        edges_vector(grounds, edges.drop_last()) + edges.last().vector_stamps(grounds)
    }
}

/// The matrix stamps of the first `upto` vertices: vertex after vertex,
/// those of the edges at each vertex that is not ground.
pub open spec fn nodal_matrix(grounds: Seq<bool>, edges: Seq<Seq<Incidence>>, upto: nat) -> Seq<
    MatrixStamp,
>
    decreases upto,
{
    if upto == 0 {
        Seq::<MatrixStamp>::empty()
    } else {
        let v = upto - 1;
        nodal_matrix(grounds, edges, v as nat) + if grounds[v] {
            Seq::<MatrixStamp>::empty()
        } else {
            edges_matrix(grounds, edges[v])
        }
    }
}

/// The right-hand side stamps of the first `upto` vertices: vertex after
/// vertex, those of the edges at each vertex that is not ground.
pub open spec fn nodal_vector(grounds: Seq<bool>, edges: Seq<Seq<Incidence>>, upto: nat) -> Seq<
    VectorStamp,
>
    decreases upto,
{
    if upto == 0 {
        Seq::<VectorStamp>::empty()
    } else {
        let v = upto - 1;
        nodal_vector(grounds, edges, v as nat) + if grounds[v] {
            Seq::<VectorStamp>::empty()
        } else {
            edges_vector(grounds, edges[v])
        }
    }
}

/// The edge lists of `adjacency` as sequences.
pub open spec fn edge_lists(adjacency: Seq<Vec<Incidence>>) -> Seq<Seq<Incidence>> {
    Seq::new(adjacency.len(), |v: int| adjacency[v]@)
}

/// What the nodal analysis of the vertices `grounds` with the edges `edges`
/// returns.
///
/// Without a vertex that is not ground it is `ZeroNode`. Otherwise, if an
/// element on an edge at such a vertex has no terminal there, it is
/// `MalformedCircuit`. Otherwise it is the system with one unknown for each
/// vertex that is not ground and the stamps of all edges at these vertices.
pub open spec fn nodal_result(
    grounds: Seq<bool>,
    edges: Seq<Seq<Incidence>>,
    result: Result<System, RunnerError>,
) -> bool {
    match result {
        Ok(system) => {
            &&& free_count(grounds) > 0
            &&& all_wired(grounds, edges)
            &&& system.size == free_count(grounds)
            &&& system.matrix@ == nodal_matrix(grounds, edges, grounds.len())
            &&& system.vector@ == nodal_vector(grounds, edges, grounds.len())
            &&& system.well_formed()
        },
        Err(RunnerError::ZeroNode) => free_count(grounds) == 0,
        Err(RunnerError::MalformedCircuit) => free_count(grounds) > 0 && !all_wired(grounds, edges),
        Err(RunnerError::AuxiliaryIndex) => false,
    }
}

/// Numbers the vertices that are not ground.
fn vertex_rows(grounds: &Vec<bool>) -> (numbered: (Vec<Option<usize>>, usize))
    ensures
        numbered.0@.len() == grounds@.len(),
        numbered.1 == free_count(grounds@),
        forall|v: int| 0 <= v < grounds@.len() ==> #[trigger] numbered.0@[v] == vertex_row(grounds@, v),
        forall|v: int|
            0 <= v < grounds@.len() ==> (#[trigger] numbered.0@[v] matches Some(row) ==> row
                < numbered.1),
{
    let mut rows: Vec<Option<usize>> = Vec::new();
    let mut count: usize = 0;
    let mut v: usize = 0;
    while v < grounds.len()
        invariant
            v <= grounds.len(),
            count <= v,
            count == free_count(grounds@.take(v as int)),
            rows@.len() == v,
            forall|u: int| 0 <= u < v ==> #[trigger] rows@[u] == vertex_row(grounds@, u),
            forall|u: int| 0 <= u < v ==> (#[trigger] rows@[u] matches Some(row) ==> row < count),
        decreases grounds.len() - v,
    {
        assert(grounds@.take(v + 1).drop_last() =~= grounds@.take(v as int));
        if grounds[v] {
            rows.push(None);
        } else {
            rows.push(Some(count));
            count = count + 1;
        }
        v = v + 1;
    }
    assert(grounds@.take(v as int) =~= grounds@);
    (rows, count)
}

/// Assembles the nodal system of a circuit that is given by the ground
/// flags of its vertices and, for each vertex, the edges at that vertex.
///
/// The vertices are visited in the order of their index and the edges at a
/// vertex in the order of its list. See [`nodal_result`] for what comes
/// back.
pub fn nodal_system(grounds: &Vec<bool>, adjacency: &Vec<Vec<Incidence>>) -> (result: Result<
    System,
    RunnerError,
>)
    requires
        consistent(grounds@, edge_lists(adjacency@)),
    ensures
        nodal_result(grounds@, edge_lists(adjacency@), result),
{
    let (rows, size) = vertex_rows(grounds);
    let ghost lists = edge_lists(adjacency@);
    if size == 0 {
        return Err(RunnerError::ZeroNode);
    }

    let mut a_matrix: Vec<MatrixStamp> = Vec::new();
    let mut z_vector: Vec<VectorStamp> = Vec::new();
    let mut v: usize = 0;
    while v < grounds.len()
        invariant
            v <= grounds.len(),
            lists == edge_lists(adjacency@),
            size == free_count(grounds@),
            size > 0,
            consistent(grounds@, lists),
            rows@.len() == grounds@.len(),
            forall|w: int| 0 <= w < rows@.len() ==> #[trigger] rows@[w] == vertex_row(grounds@, w),
            forall|w: int|
                0 <= w < rows@.len() ==> (#[trigger] rows@[w] matches Some(row) ==> row < size),
            forall|w: int, i: int|
                0 <= w < v && !grounds@[w] && 0 <= i < lists[w].len() ==> (
                #[trigger] lists[w][i]).spec_wired(),
            a_matrix@ == nodal_matrix(grounds@, lists, v as nat),
            z_vector@ == nodal_vector(grounds@, lists, v as nat),
            matrix_within(a_matrix@, size as int),
            vector_within(z_vector@, size as int),
        decreases grounds.len() - v,
    {
        match rows[v] {
            Some(row) => {
                let edges: &Vec<Incidence> = &adjacency[v];
                assert(edges@ == lists[v as int]);
                let mut i: usize = 0;
                while i < edges.len()
                    invariant
                        i <= edges.len(),
                        v < grounds.len(),
                        edges@ == lists[v as int],
                        lists == edge_lists(adjacency@),
                        size == free_count(grounds@),
                        size > 0,
                        consistent(grounds@, lists),
                        rows@.len() == grounds@.len(),
                        rows@[v as int] == Some(row),
                        !grounds@[v as int],
                        forall|w: int|
                            0 <= w < rows@.len() ==> #[trigger] rows@[w] == vertex_row(grounds@, w),
                        forall|w: int|
                            0 <= w < rows@.len() ==> (#[trigger] rows@[w] matches Some(r) ==> r
                                < size),
                        forall|k: int| 0 <= k < i ==> (#[trigger] edges@[k]).spec_wired(),
                        a_matrix@ == nodal_matrix(grounds@, lists, v as nat) + edges_matrix(
                            grounds@,
                            edges@.take(i as int),
                        ),
                        z_vector@ == nodal_vector(grounds@, lists, v as nat) + edges_vector(
                            grounds@,
                            edges@.take(i as int),
                        ),
                        matrix_within(a_matrix@, size as int),
                        vector_within(z_vector@, size as int),
                    decreases edges.len() - i,
                {
                    let edge: Incidence = edges[i];
                    assert(edge == lists[v as int][i as int]);
                    assert(edge.source == v && edge.target < grounds@.len());
                    assert(edges@.take(i + 1).drop_last() =~= edges@.take(i as int));
                    let ghost a_before = a_matrix@;
                    let ghost z_before = z_vector@;
                    match edge.terminal() {
                        Some(terminal) => {
                            match edge.element.injection() {
                                Some(quantity) => {
                                    stamp_injection(&mut z_vector, Some(row), terminal.signed(quantity));
                                },
                                None => {},
                            }
                            let resistance = edge.element.resistance();
                            if !resistance.is_zero() {
                                stamp_conductance_half(
                                    &mut a_matrix,
                                    row,
                                    rows[edge.target],
                                    Quantity::Reciprocal(resistance),
                                );
                            }
                            assert(a_matrix@ =~= a_before + edge.matrix_stamps(grounds@));
                            assert(z_vector@ =~= z_before + edge.vector_stamps(grounds@));
                            assert(a_matrix@ =~= nodal_matrix(grounds@, lists, v as nat) + edges_matrix(
                                grounds@,
                                edges@.take(i + 1),
                            ));
                            assert(z_vector@ =~= nodal_vector(grounds@, lists, v as nat) + edges_vector(
                                grounds@,
                                edges@.take(i + 1),
                            ));
                        },
                        None => {
                            assert(!lists[v as int][i as int].spec_wired());
                            return Err(RunnerError::MalformedCircuit);
                        },
                    }
                    i = i + 1;
                }
                assert(edges@.take(i as int) =~= edges@);
            },
            None => {},
        }
        assert(a_matrix@ =~= nodal_matrix(grounds@, lists, (v + 1) as nat));
        assert(z_vector@ =~= nodal_vector(grounds@, lists, (v + 1) as nat));
        v = v + 1;
    }
    Ok(System { size, matrix: a_matrix, vector: z_vector })
}

/// The edges at each vertex of a graph, by vertex index.
pub open spec fn graph_edges(graph: Graph<bool, Element, Undirected, u32>) -> Seq<Seq<Incidence>> {
    Seq::new(ground_flags(graph).len(), |v: int| adjacency(graph)[v])
}

/// Assembles the nodal system of a circuit that is given as a graph.
///
/// The vertices are visited in the order of their index and the edges at a
/// vertex in the order in which the graph lists them. Several edges between
/// two vertices add up. See [`nodal_result`] for what comes back.
pub fn dc_run(circuit: &Graph<bool, Element, Undirected, u32>) -> (result: Result<System, RunnerError>)
    ensures
        nodal_result(ground_flags(*circuit), graph_edges(*circuit), result),
{
    let n: usize = vertex_count(circuit);
    let mut grounds: Vec<bool> = Vec::new();
    let mut adjacent: Vec<Vec<Incidence>> = Vec::new();
    let mut v: usize = 0;
    while v < n
        invariant
            v <= n,
            n == ground_flags(*circuit).len(),
            grounds@ == ground_flags(*circuit).take(v as int),
            adjacent@.len() == v,
            forall|u: int| 0 <= u < v ==> (#[trigger] adjacent@[u])@ == adjacency(*circuit)[u],
            forall|u: int, i: int|
                0 <= u < v && 0 <= i < adjacent@[u]@.len() ==> (#[trigger] adjacent@[u]@[i]).source
                    == u && adjacent@[u]@[i].target < n,
        decreases n - v,
    {
        let ground: bool = vertex_is_ground(circuit, v);
        let edges: Vec<Incidence> = vertex_edges(circuit, v);
        grounds.push(ground);
        adjacent.push(edges);
        assert(grounds@ =~= ground_flags(*circuit).take(v + 1));
        v = v + 1;
    }
    assert(grounds@ =~= ground_flags(*circuit));
    assert(edge_lists(adjacent@) =~= graph_edges(*circuit));
    nodal_system(&grounds, &adjacent)
}

} // verus!
