use nalgebra::{DMatrix, DVector};
use petgraph::graph::{NodeIndex, UnGraph};
use spice_rs::elements::dc_current_source::DCCurrentSource;
use spice_rs::elements::dc_voltage_source::DCVoltageSource;
use spice_rs::elements::inductor::Inductor;
use spice_rs::elements::resistor::Resistor;
use spice_rs::elements::Element;
use spice_rs::runners::dc::{dc_run, nodal_system, Incidence};
use spice_rs::runners::{solution, RunnerError};
use spice_rs::scalar::{Quantity, Scalar, Term};
use spice_rs::system::{MatrixStamp, System, VectorStamp};
use spice_rs::NodeId;

fn s(x: f32) -> Scalar {
    Scalar::from_bits(x.to_bits())
}

fn number(s: Scalar) -> f32 {
    f32::from_bits(s.to_bits())
}

fn value(term: Term) -> f32 {
    let magnitude = match term.quantity {
        Quantity::Zero => 0.0,
        Quantity::One => 1.0,
        Quantity::Value(v) => number(v),
        Quantity::Reciprocal(r) => number(r).recip(),
        Quantity::Scaled { value, resistance } => number(value) * number(resistance).recip(),
        Quantity::Product { left, right } => number(left) * number(right),
        Quantity::ProductReciprocal { left, right } => (number(left) * number(right)).recip(),
    };
    if term.negative {
        -magnitude
    } else {
        magnitude
    }
}

/// Evaluates the stamps in single precision, solves by inversion and hands
/// the outcome to the library.
fn solve(system: &System) -> Result<Vec<f32>, RunnerError> {
    let size = system.size;
    let mut a_matrix = vec![0.0f32; system.cell_count().unwrap()];
    let mut z_vector = vec![0.0f32; size];
    for stamp in &system.matrix {
        a_matrix[system.cell_index(stamp.row, stamp.col).unwrap()] += value(stamp.term);
    }
    for stamp in &system.vector {
        z_vector[stamp.row] += value(stamp.term);
    }
    let solved = DMatrix::from_vec(size, size, a_matrix)
        .try_inverse()
        .map(|inverse| inverse * DVector::from_vec(z_vector))
        .map(|x| x.iter().map(|v| s(*v)).collect::<Vec<Scalar>>());
    solution(system, solved).map(|x| x.iter().map(|v| number(*v)).collect())
}

fn close(actual: f32, expected: f32) -> bool {
    (actual - expected).abs() <= 0.01
}

fn id(vertex: NodeIndex) -> NodeId {
    NodeId(vertex.index())
}

fn resistor(ohms: f32, a: NodeIndex, b: NodeIndex) -> Element {
    Element::Resistor(Resistor::new(s(ohms), id(a), id(b)))
}

/// A voltage source with the small series resistance that lets the nodal
/// analysis take it in.
fn voltage_source(volts: f32, positive: NodeIndex, negative: NodeIndex) -> Element {
    Element::DCVoltageSource(
        DCVoltageSource::new(s(volts), id(positive), id(negative), 0).with_resistance(s(0.001)),
    )
}

fn current_source(amperes: f32, positive: NodeIndex, negative: NodeIndex) -> Element {
    Element::DCCurrentSource(DCCurrentSource::new(s(amperes), id(positive), id(negative)))
}

fn plus(quantity: Quantity) -> Term {
    Term::new(false, quantity)
}

fn minus(quantity: Quantity) -> Term {
    Term::new(true, quantity)
}

/// One node circuit with a 10V voltage source connected to a 2Ω resistor.
#[test]
fn dc_voltage_source() {
    let mut graph = UnGraph::<bool, Element>::new_undirected();
    let v1 = graph.add_node(false);
    let v2 = graph.add_node(true);
    graph.add_edge(v1, v2, resistor(2.0, v1, v2));
    graph.add_edge(v1, v2, voltage_source(10.0, v1, v2));

    let matrix = solve(&dc_run(&graph).unwrap()).unwrap();

    assert!(close(matrix[0], 10.0)); // v1
}

/// One node circuit with a 10A current source connected to a 2Ω resistor.
#[test]
fn dc_current_source() {
    let mut graph = UnGraph::<bool, Element>::new_undirected();
    let v1 = graph.add_node(false);
    let v2 = graph.add_node(true);
    graph.add_edge(v1, v2, resistor(2.0, v1, v2));
    graph.add_edge(v1, v2, current_source(10.0, v1, v2));

    let matrix = solve(&dc_run(&graph).unwrap()).unwrap();

    assert!(close(matrix[0], 20.0)); // v1
}

/// Both current and voltage sources in a 3 node circuit.
#[test]
fn dc_mixed_sources() {
    let mut graph = UnGraph::<bool, Element>::new_undirected();
    let v1 = graph.add_node(false);
    let v2 = graph.add_node(false);
    let v3 = graph.add_node(false);
    let v4 = graph.add_node(true);
    graph.add_edge(v1, v4, resistor(2.0, v1, v4));
    graph.add_edge(v1, v4, resistor(4.0, v1, v4));
    graph.add_edge(v1, v2, voltage_source(10.0, v2, v1));
    graph.add_edge(v2, v4, resistor(6.0, v2, v4));
    graph.add_edge(v2, v3, resistor(2.0, v2, v3));
    graph.add_edge(v3, v4, current_source(3.0, v3, v4));

    let matrix = solve(&dc_run(&graph).unwrap()).unwrap();

    assert!(close(matrix[0], 1.45)); // v1
    assert!(close(matrix[1], 11.46)); // v2
    assert!(close(matrix[2], 17.46)); // v3
}

#[test]
fn ground_may_come_first() {
    let mut graph = UnGraph::<bool, Element>::new_undirected();
    let ground = graph.add_node(true);
    let v1 = graph.add_node(false);
    let v2 = graph.add_node(false);
    graph.add_edge(v1, ground, resistor(2.0, v1, ground));
    graph.add_edge(v1, v2, resistor(3.0, v1, v2));
    graph.add_edge(ground, v2, current_source(2.0, v2, ground));

    let system = dc_run(&graph).unwrap();
    assert_eq!(system.size, 2);
    let x = solve(&system).unwrap();

    assert!(close(x[0], 4.0)); // v1
    assert!(close(x[1], 10.0)); // v2
}

#[test]
fn edges_are_read_as_the_graph_lists_them() {
    let mut graph = UnGraph::<bool, Element>::new_undirected();
    let v1 = graph.add_node(false);
    let v2 = graph.add_node(false);
    let ground = graph.add_node(true);
    graph.add_edge(v1, v2, resistor(4.0, v1, v2));
    graph.add_edge(ground, v1, current_source(3.0, v1, ground));
    graph.add_edge(v2, ground, resistor(5.0, v2, ground));

    let system = dc_run(&graph).unwrap();
    let four = Quantity::Reciprocal(s(4.0));
    let five = Quantity::Reciprocal(s(5.0));

    assert_eq!(system.size, 2);
    // At each vertex the edges that start there come first, the youngest
    // first, and then those that end there.
    assert_eq!(
        system.matrix,
        vec![
            MatrixStamp { row: 0, col: 0, term: plus(four) },
            MatrixStamp { row: 1, col: 0, term: minus(four) },
            MatrixStamp { row: 1, col: 1, term: plus(five) },
            MatrixStamp { row: 1, col: 1, term: plus(four) },
            MatrixStamp { row: 0, col: 1, term: minus(four) },
        ]
    );
    assert_eq!(system.vector, vec![VectorStamp { row: 0, term: plus(Quantity::Value(s(3.0))) }]);
}

#[test]
fn parallel_edges_add_up() {
    let mut graph = UnGraph::<bool, Element>::new_undirected();
    let v1 = graph.add_node(false);
    let ground = graph.add_node(true);
    graph.add_edge(v1, ground, resistor(3.0, v1, ground));
    graph.add_edge(ground, v1, resistor(6.0, ground, v1));
    graph.add_edge(v1, ground, current_source(2.0, v1, ground));
    graph.add_edge(v1, ground, current_source(1.0, v1, ground));

    let x = solve(&dc_run(&graph).unwrap()).unwrap();

    // 3 A into 3 Ω and 6 Ω in parallel, 2 Ω.
    assert_eq!(x.len(), 1);
    assert!(close(x[0], 6.0));
}

#[test]
fn a_loop_at_one_vertex_adds_nothing() {
    let mut graph = UnGraph::<bool, Element>::new_undirected();
    let v1 = graph.add_node(false);
    let ground = graph.add_node(true);
    graph.add_edge(v1, v1, resistor(7.0, v1, v1));
    graph.add_edge(v1, ground, resistor(2.0, v1, ground));
    graph.add_edge(v1, ground, current_source(10.0, v1, ground));

    let x = solve(&dc_run(&graph).unwrap()).unwrap();

    assert!(close(x[0], 20.0));
}

#[test]
fn ideal_branches_take_no_part() {
    let mut graph = UnGraph::<bool, Element>::new_undirected();
    let v1 = graph.add_node(false);
    let ground = graph.add_node(true);
    graph.add_edge(v1, ground, resistor(2.0, v1, ground));
    graph.add_edge(v1, ground, current_source(10.0, v1, ground));
    graph.add_edge(
        v1,
        ground,
        Element::DCVoltageSource(DCVoltageSource::new(s(5.0), id(v1), id(ground), 0)),
    );
    graph.add_edge(v1, ground, Element::Inductor(Inductor::new(s(1.0), id(v1), id(ground), 1)));

    let system = dc_run(&graph).unwrap();

    assert_eq!(system.matrix.len(), 1);
    assert_eq!(system.vector.len(), 1);
    assert!(close(solve(&system).unwrap()[0], 20.0));
}

#[test]
fn a_graph_of_ground_alone_is_refused() {
    let mut graph = UnGraph::<bool, Element>::new_undirected();
    assert_eq!(dc_run(&graph).unwrap_err(), RunnerError::ZeroNode);

    let a = graph.add_node(true);
    let b = graph.add_node(true);
    graph.add_edge(a, b, resistor(2.0, a, b));
    assert_eq!(dc_run(&graph).unwrap_err(), RunnerError::ZeroNode);
}

#[test]
fn an_element_off_its_edge_is_refused() {
    let mut graph = UnGraph::<bool, Element>::new_undirected();
    let v1 = graph.add_node(false);
    let v2 = graph.add_node(false);
    let ground = graph.add_node(true);
    graph.add_edge(v1, ground, resistor(2.0, v1, ground));
    graph.add_edge(v2, ground, resistor(2.0, v1, ground));

    assert_eq!(dc_run(&graph).unwrap_err(), RunnerError::MalformedCircuit);
}

#[test]
fn a_graph_without_ground_is_singular() {
    let mut graph = UnGraph::<bool, Element>::new_undirected();
    let v1 = graph.add_node(false);
    let v2 = graph.add_node(false);
    graph.add_edge(v1, v2, resistor(2.0, v1, v2));
    graph.add_edge(v1, v2, current_source(1.0, v1, v2));

    let system = dc_run(&graph).unwrap();

    assert_eq!(system.size, 2);
    assert_eq!(solve(&system), Err(RunnerError::MalformedCircuit));
}

#[test]
fn nodal_system_of_plain_lists() {
    let r = Element::Resistor(Resistor::new(s(2.0), NodeId(0), NodeId(1)));
    let i = Element::DCCurrentSource(DCCurrentSource::new(s(10.0), NodeId(0), NodeId(1)));
    let grounds = vec![false, true];
    let adjacency = vec![
        vec![
            Incidence { source: 0, target: 1, element: i },
            Incidence { source: 0, target: 1, element: r },
        ],
        vec![
            Incidence { source: 1, target: 0, element: i },
            Incidence { source: 1, target: 0, element: r },
        ],
    ];

    let system = nodal_system(&grounds, &adjacency).unwrap();

    assert_eq!(system.size, 1);
    assert_eq!(
        system.matrix,
        vec![MatrixStamp { row: 0, col: 0, term: plus(Quantity::Reciprocal(s(2.0))) }]
    );
    assert_eq!(system.vector, vec![VectorStamp { row: 0, term: plus(Quantity::Value(s(10.0))) }]);
    assert!(close(solve(&system).unwrap()[0], 20.0));
}

#[test]
fn the_terminal_at_the_source_gives_the_sign() {
    let i = Element::DCCurrentSource(DCCurrentSource::new(s(10.0), NodeId(1), NodeId(0)));
    let seen_from_negative = Incidence { source: 0, target: 1, element: i };
    let seen_from_positive = Incidence { source: 1, target: 0, element: i };
    let elsewhere = Incidence { source: 2, target: 0, element: i };

    assert_eq!(seen_from_negative.terminal(), Some(i.terminals()[1]));
    assert_eq!(seen_from_positive.terminal(), Some(i.terminals()[0]));
    assert_eq!(elsewhere.terminal(), None);

    let system = nodal_system(&vec![false, true], &vec![vec![seen_from_negative], Vec::new()]).unwrap();
    assert_eq!(system.vector, vec![VectorStamp { row: 0, term: minus(Quantity::Value(s(10.0))) }]);
}

#[test]
fn the_resistance_beside_a_current_source_loads_the_vertex() {
    let mut graph = UnGraph::<bool, Element>::new_undirected();
    let v1 = graph.add_node(false);
    let ground = graph.add_node(true);
    let source = DCCurrentSource::new(s(6.0), id(v1), id(ground)).with_resistance(s(2.0));
    graph.add_edge(v1, ground, Element::DCCurrentSource(source));
    graph.add_edge(v1, ground, resistor(2.0, v1, ground));

    let x = solve(&dc_run(&graph).unwrap()).unwrap();

    // 6 A into 2 Ω beside 2 Ω.
    assert_eq!(x.len(), 1);
    assert!(close(x[0], 6.0));
}
