use nalgebra::{DMatrix, DVector};
use spice_rs::elements::capacitor::Capacitor;
use spice_rs::elements::dc_current_source::DCCurrentSource;
use spice_rs::elements::dc_voltage_source::DCVoltageSource;
use spice_rs::elements::inductor::Inductor;
use spice_rs::elements::resistor::Resistor;
use spice_rs::elements::Element;
use spice_rs::runners::dc_op::{aux_total, branch_current, dc_op, node_voltage, system_fits};
use spice_rs::runners::{solution, RunnerError};
use spice_rs::scalar::{Quantity, Scalar, Term};
use spice_rs::stamp::clear_row;
use spice_rs::system::{MatrixStamp, System, VectorStamp};
use spice_rs::{Circuit, NodeId};

fn s(x: f32) -> Scalar {
    Scalar::from_bits(x.to_bits())
}

fn number(s: Scalar) -> f32 {
    f32::from_bits(s.to_bits())
}

fn value(term: Term) -> f32 {
    let magnitude = match term.quantity {
        Quantity::Zero => 0.0,
        Quantity::One => 1.0,
        Quantity::Value(v) => number(v),
        Quantity::Reciprocal(r) => number(r).recip(),
        Quantity::Scaled { value, resistance } => number(value) * number(resistance).recip(),
        Quantity::Product { left, right } => number(left) * number(right),
        Quantity::ProductReciprocal { left, right } => (number(left) * number(right)).recip(),
    };
    if term.negative {
        -magnitude
    } else {
        magnitude
    }
}

/// Evaluates the stamps in single precision, solves by inversion and hands
/// the outcome to the library.
fn solve(system: &System) -> Result<Vec<f32>, RunnerError> {
    let size = system.size;
    let mut a_matrix = vec![0.0f32; system.cell_count().unwrap()];
    let mut z_vector = vec![0.0f32; size];
    for stamp in &system.matrix {
        a_matrix[system.cell_index(stamp.row, stamp.col).unwrap()] += value(stamp.term);
    }
    for stamp in &system.vector {
        z_vector[stamp.row] += value(stamp.term);
    }
    let solved = DMatrix::from_vec(size, size, a_matrix)
        .try_inverse()
        .map(|inverse| inverse * DVector::from_vec(z_vector))
        .map(|x| x.iter().map(|v| s(*v)).collect::<Vec<Scalar>>());
    solution(system, solved).map(|x| x.iter().map(|v| number(*v)).collect())
}

fn close(actual: f32, expected: f32) -> bool {
    (actual - expected).abs() <= 0.01
}

/// One node circuit with a 10V voltage source connected to a 2Ω resistor.
#[test]
fn dc_op_voltage_source() {
    let mut circuit = Circuit::default();
    let v0 = circuit.add_node();
    let v1 = circuit.add_node();
    circuit.add_element(Element::Resistor(Resistor::new(s(2.0), v1, v0)));
    circuit.add_element(Element::DCVoltageSource(DCVoltageSource::new(s(10.0), v1, v0, 0)));

    let matrix = solve(&dc_op(&circuit).unwrap()).unwrap();

    assert_eq!(matrix.len(), 2);
    assert!(close(matrix[0], 10.0)); // v1
    assert!(close(matrix[1], -5.0)); // i_v_source
}

/// One node circuit with a 10A current source connected to a 2Ω resistor.
#[test]
fn dc_op_current_source() {
    let mut circuit = Circuit::default();
    let v0 = circuit.add_node();
    let v1 = circuit.add_node();
    circuit.add_element(Element::Resistor(Resistor::new(s(2.0), v1, v0)));
    circuit.add_element(Element::DCCurrentSource(DCCurrentSource::new(s(10.0), v0, v1)));

    let matrix = solve(&dc_op(&circuit).unwrap()).unwrap();

    assert_eq!(matrix.len(), 1);
    assert!(close(matrix[0], -20.0)); // v1
}

/// Both current and voltage sources in a 2 node circuit.
#[test]
fn dc_op_mixed_sources() {
    let mut circuit = Circuit::default();
    let v0 = circuit.add_node();
    let v1 = circuit.add_node();
    let v2 = circuit.add_node();
    circuit.add_element(Element::DCVoltageSource(DCVoltageSource::new(s(10.0), v1, v2, 0)));
    circuit.add_element(Element::Resistor(Resistor::new(s(2.0), v1, v0)));
    circuit.add_element(Element::Resistor(Resistor::new(s(4.0), v1, v2)));
    circuit.add_element(Element::Resistor(Resistor::new(s(2.0), v2, v0)));
    circuit.add_element(Element::DCCurrentSource(DCCurrentSource::new(s(3.0), v1, v0)));

    let matrix = solve(&dc_op(&circuit).unwrap()).unwrap();

    assert_eq!(matrix.len(), 3);
    assert!(close(matrix[0], 8.0)); // v1
    assert!(close(matrix[1], -2.0)); // v2
    assert!(close(matrix[2], -3.5)); // i_v_source
}

/// A voltage source, resistor, and capacitor connected in series.
#[test]
fn capacitor() {
    let mut circuit = Circuit::default();
    let v0 = circuit.add_node();
    let v1 = circuit.add_node();
    let v2 = circuit.add_node();
    circuit.add_element(Element::DCVoltageSource(DCVoltageSource::new(s(10.0), v1, v0, 0)));
    circuit.add_element(Element::Resistor(Resistor::new(s(10.0), v1, v2)));
    circuit.add_element(Element::Capacitor(Capacitor::new(s(1.0), v2, v0)));

    let matrix = solve(&dc_op(&circuit).unwrap()).unwrap();

    assert_eq!(matrix.len(), 3);
    assert!(close(matrix[0], 10.0)); // v1
    assert!(close(matrix[1], 10.0)); // v2
    assert!(close(matrix[2], 0.0)); // i_v_source
}

/// A voltage source, resistor, and inductor connected in series.
#[test]
fn inductor() {
    let mut circuit = Circuit::default();
    let v0 = circuit.add_node();
    let v1 = circuit.add_node();
    let v2 = circuit.add_node();
    circuit.add_element(Element::DCVoltageSource(DCVoltageSource::new(s(10.0), v1, v0, 0)));
    circuit.add_element(Element::Resistor(Resistor::new(s(10.0), v1, v2)));
    circuit.add_element(Element::Inductor(Inductor::new(s(1.0), v2, v0, 1)));

    let matrix = solve(&dc_op(&circuit).unwrap()).unwrap();

    assert_eq!(matrix.len(), 4);
    assert!(close(matrix[0], 10.0)); // v1
    assert!(close(matrix[1], 0.0)); // v2
    assert!(close(matrix[2], -1.0)); // i_v_source
    assert!(close(matrix[3], 1.0)); // i_inductor
}

fn plus(quantity: Quantity) -> Term {
    Term::new(false, quantity)
}

fn minus(quantity: Quantity) -> Term {
    Term::new(true, quantity)
}

/// The circuit of three nodes besides ground: 2 Ω and 4 Ω from node 1 to
/// ground, a 10 V source from node 1 up to node 2, 6 Ω from node 2 to
/// ground, 2 Ω from node 2 to node 3, and 3 A into node 3.
fn three_node_elements(nodes: &[NodeId]) -> Vec<Element> {
    let (v0, v1, v2, v3) = (nodes[0], nodes[1], nodes[2], nodes[3]);
    vec![
        Element::Resistor(Resistor::new(s(2.0), v1, v0)),
        Element::Resistor(Resistor::new(s(4.0), v1, v0)),
        Element::DCVoltageSource(DCVoltageSource::new(s(10.0), v2, v1, 0)),
        Element::Resistor(Resistor::new(s(6.0), v2, v0)),
        Element::Resistor(Resistor::new(s(2.0), v2, v3)),
        Element::DCCurrentSource(DCCurrentSource::new(s(3.0), v3, v0)),
    ]
}

fn circuit_of(node_count: usize, elements: &[Element]) -> Circuit {
    let mut circuit = Circuit::default();
    for _ in 0..node_count {
        circuit.add_node();
    }
    for element in elements {
        circuit.add_element(*element);
    }
    circuit
}

fn four_nodes() -> Vec<NodeId> {
    vec![NodeId(0), NodeId(1), NodeId(2), NodeId(3)]
}

#[test]
fn three_nodes_with_both_sources() {
    let circuit = circuit_of(4, &three_node_elements(&four_nodes()));

    let x = solve(&dc_op(&circuit).unwrap()).unwrap();

    assert_eq!(x.len(), 4);
    assert!(close(x[0], 1.45));
    assert!(close(x[1], 11.46));
    assert!(close(x[2], 17.46));
}

#[test]
fn currents_cancel_at_every_node() {
    let elements = three_node_elements(&four_nodes());
    let circuit = circuit_of(4, &elements);
    let x = solve(&dc_op(&circuit).unwrap()).unwrap();
    let n = circuit.node_count();
    let voltage = |node: NodeId| if node.0 == 0 { 0.0 } else { x[node.0 - 1] };

    for node in 1..n {
        let mut leaving = 0.0f32;
        for element in &elements {
            let t = element.terminals();
            for (here, there) in [(t[0], t[1]), (t[1], t[0])] {
                if here.node.0 != node {
                    continue;
                }
                let sign = f32::from(here.sign());
                match element.aux_index() {
                    Some(index) => leaving += sign * x[n - 1 + index],
                    None => {
                        let g = value(plus(element.conductance()));
                        leaving += g * (voltage(here.node) - voltage(there.node));
                        if let Some(quantity) = element.injection() {
                            leaving -= sign * value(plus(quantity));
                        }
                    }
                }
            }
        }
        assert!(leaving.abs() <= 0.001, "node {}: {}", node, leaving);
    }
}

#[test]
fn order_of_elements_does_not_matter() {
    let elements = three_node_elements(&four_nodes());
    let mut reversed = elements.clone();
    reversed.reverse();
    let mut rotated = elements.clone();
    rotated.rotate_left(2);

    let reference = dc_op(&circuit_of(4, &elements)).unwrap();
    let expected = solve(&reference).unwrap();
    for permuted in [reversed, rotated] {
        let system = dc_op(&circuit_of(4, &permuted)).unwrap();
        assert_eq!(system.size, reference.size);
        assert_eq!(system.matrix.len(), reference.matrix.len());
        assert_eq!(system.vector.len(), reference.vector.len());
        for stamp in &reference.matrix {
            let count = |stamps: &Vec<MatrixStamp>| stamps.iter().filter(|s| *s == stamp).count();
            assert_eq!(count(&system.matrix), count(&reference.matrix));
        }
        for stamp in &reference.vector {
            let count = |stamps: &Vec<VectorStamp>| stamps.iter().filter(|s| *s == stamp).count();
            assert_eq!(count(&system.vector), count(&reference.vector));
        }
        let x = solve(&system).unwrap();
        for (actual, wanted) in x.iter().zip(expected.iter()) {
            assert!((actual - wanted).abs() <= 0.001);
        }
    }
}

#[test]
fn parallel_resistors_act_as_one() {
    let (r1, r2) = (3.0f32, 6.0f32);
    let single = r1 * r2 / (r1 + r2);
    let nodes = four_nodes();
    let rest = vec![
        Element::DCVoltageSource(DCVoltageSource::new(s(12.0), nodes[1], nodes[0], 0)),
        Element::Resistor(Resistor::new(s(4.0), nodes[1], nodes[2])),
        Element::Resistor(Resistor::new(s(5.0), nodes[3], nodes[0])),
    ];
    let mut two = rest.clone();
    two.push(Element::Resistor(Resistor::new(s(r1), nodes[2], nodes[3])));
    two.push(Element::Resistor(Resistor::new(s(r2), nodes[2], nodes[3])));
    let mut one = rest.clone();
    one.push(Element::Resistor(Resistor::new(s(single), nodes[2], nodes[3])));

    let with_two = solve(&dc_op(&circuit_of(4, &two)).unwrap()).unwrap();
    let with_one = solve(&dc_op(&circuit_of(4, &one)).unwrap()).unwrap();

    assert_eq!(with_two.len(), with_one.len());
    for (a, b) in with_two.iter().zip(with_one.iter()) {
        assert!((a - b).abs() <= 0.001);
    }
    // 12 V over 4 Ω + 2 Ω + 5 Ω.
    assert!(close(with_one[1], 12.0 - 4.0 * 12.0 / 11.0));
    assert!(close(with_one[2], 5.0 * 12.0 / 11.0));
}

#[test]
fn conflicting_voltage_sources_are_singular() {
    let elements = vec![
        Element::Resistor(Resistor::new(s(2.0), NodeId(1), NodeId(0))),
        Element::DCVoltageSource(DCVoltageSource::new(s(10.0), NodeId(1), NodeId(0), 0)),
        Element::DCVoltageSource(DCVoltageSource::new(s(5.0), NodeId(1), NodeId(0), 1)),
    ];
    let system = dc_op(&circuit_of(2, &elements)).unwrap();

    assert_eq!(system.size, 3);
    assert_eq!(solve(&system), Err(RunnerError::MalformedCircuit));
}

#[test]
fn floating_node_is_singular() {
    let elements = vec![
        Element::Resistor(Resistor::new(s(2.0), NodeId(1), NodeId(0))),
        Element::DCCurrentSource(DCCurrentSource::new(s(1.0), NodeId(1), NodeId(0))),
    ];
    let system = dc_op(&circuit_of(3, &elements)).unwrap();

    assert_eq!(system.size, 2);
    assert_eq!(solve(&system), Err(RunnerError::MalformedCircuit));
}

#[test]
fn circuit_without_a_free_node_is_refused() {
    assert_eq!(dc_op(&Circuit::default()).unwrap_err(), RunnerError::ZeroNode);
    let element = Element::Resistor(Resistor::new(s(2.0), NodeId(0), NodeId(0)));
    assert_eq!(dc_op(&circuit_of(1, &[element])).unwrap_err(), RunnerError::ZeroNode);
}

#[test]
fn zero_node_comes_before_the_index_check() {
    let element = Element::Inductor(Inductor::new(s(1.0), NodeId(0), NodeId(0), 7));
    assert_eq!(dc_op(&circuit_of(1, &[element])).unwrap_err(), RunnerError::ZeroNode);
}

#[test]
fn auxiliary_index_out_of_range_is_refused() {
    let elements = vec![
        Element::Resistor(Resistor::new(s(2.0), NodeId(1), NodeId(0))),
        Element::DCVoltageSource(DCVoltageSource::new(s(10.0), NodeId(1), NodeId(0), 1)),
    ];
    assert_eq!(dc_op(&circuit_of(2, &elements)).unwrap_err(), RunnerError::AuxiliaryIndex);
}

#[test]
fn auxiliary_index_used_twice_is_refused() {
    let elements = vec![
        Element::DCVoltageSource(DCVoltageSource::new(s(10.0), NodeId(1), NodeId(0), 0)),
        Element::Resistor(Resistor::new(s(2.0), NodeId(1), NodeId(2))),
        Element::Inductor(Inductor::new(s(1.0), NodeId(2), NodeId(0), 0)),
    ];
    assert_eq!(dc_op(&circuit_of(3, &elements)).unwrap_err(), RunnerError::AuxiliaryIndex);
}

#[test]
fn auxiliary_indices_in_any_order_are_accepted() {
    let elements = vec![
        Element::DCVoltageSource(DCVoltageSource::new(s(10.0), NodeId(1), NodeId(0), 1)),
        Element::Resistor(Resistor::new(s(10.0), NodeId(1), NodeId(2))),
        Element::Inductor(Inductor::new(s(1.0), NodeId(2), NodeId(0), 0)),
    ];
    let x = solve(&dc_op(&circuit_of(3, &elements)).unwrap()).unwrap();

    assert_eq!(x.len(), 4);
    assert!(close(x[0], 10.0));
    assert!(close(x[1], 0.0));
    assert!(close(x[2], 1.0)); // the inductor, index 0
    assert!(close(x[3], -1.0)); // the source, index 1
}

#[test]
fn a_source_with_series_resistance_has_no_unknown() {
    let source = DCVoltageSource::new(s(10.0), NodeId(1), NodeId(0), 0).with_resistance(s(3.0));
    let elements = vec![
        Element::DCVoltageSource(source),
        Element::Resistor(Resistor::new(s(2.0), NodeId(1), NodeId(0))),
    ];
    let system = dc_op(&circuit_of(2, &elements)).unwrap();

    assert_eq!(system.size, 1);
    assert_eq!(
        system.matrix,
        vec![
            MatrixStamp { row: 0, col: 0, term: plus(Quantity::Reciprocal(s(3.0))) },
            MatrixStamp { row: 0, col: 0, term: plus(Quantity::Reciprocal(s(2.0))) },
        ]
    );
    assert_eq!(
        system.vector,
        vec![VectorStamp {
            row: 0,
            term: plus(Quantity::Scaled { value: s(10.0), resistance: s(3.0) }),
        }]
    );
    // A divider of 3 Ω over 2 Ω.
    let x = solve(&system).unwrap();
    assert!(close(x[0], 4.0));
}

#[test]
fn a_current_source_leaves_the_matrix_alone() {
    let source = DCCurrentSource::new(s(6.0), NodeId(1), NodeId(0)).with_resistance(s(2.0));
    let kept = MatrixStamp { row: 0, col: 0, term: minus(Quantity::One) };
    let mut a_matrix = vec![kept];
    let mut z_vector = Vec::new();
    Element::DCCurrentSource(source).stamp(&mut a_matrix, &mut z_vector, 2, 0);
    assert_eq!(a_matrix, vec![kept]);
    assert_eq!(z_vector, vec![VectorStamp { row: 0, term: plus(Quantity::Value(s(6.0))) }]);

    let elements = vec![
        Element::DCCurrentSource(source),
        Element::Resistor(Resistor::new(s(2.0), NodeId(1), NodeId(0))),
    ];
    let system = dc_op(&circuit_of(2, &elements)).unwrap();
    assert_eq!(
        system.matrix,
        vec![MatrixStamp { row: 0, col: 0, term: plus(Quantity::Reciprocal(s(2.0))) }]
    );
    let x = solve(&system).unwrap();
    assert_eq!(x.len(), 1);
    assert!(close(x[0], 12.0));
}

#[test]
fn stamps_of_a_resistor_between_two_free_nodes() {
    let elements = [Element::Resistor(Resistor::new(s(4.0), NodeId(1), NodeId(2)))];
    let system = dc_op(&circuit_of(3, &elements)).unwrap();
    let g = Quantity::Reciprocal(s(4.0));

    assert_eq!(system.size, 2);
    assert_eq!(
        system.matrix,
        vec![
            MatrixStamp { row: 0, col: 0, term: plus(g) },
            MatrixStamp { row: 1, col: 0, term: minus(g) },
            MatrixStamp { row: 1, col: 1, term: plus(g) },
            MatrixStamp { row: 0, col: 1, term: minus(g) },
        ]
    );
    assert!(system.vector.is_empty());
}

#[test]
fn stamps_of_an_ideal_source_between_two_free_nodes() {
    let elements = [
        Element::Resistor(Resistor::new(s(0.0), NodeId(1), NodeId(2))),
        Element::DCVoltageSource(DCVoltageSource::new(s(9.0), NodeId(2), NodeId(1), 0)),
    ];
    let system = dc_op(&circuit_of(3, &elements)).unwrap();

    assert_eq!(system.size, 3);
    // The resistor of zero ohms has the conductance zero and adds nothing.
    assert_eq!(
        system.matrix,
        vec![
            MatrixStamp { row: 1, col: 2, term: plus(Quantity::One) },
            MatrixStamp { row: 0, col: 2, term: minus(Quantity::One) },
            MatrixStamp { row: 2, col: 1, term: plus(Quantity::One) },
            MatrixStamp { row: 2, col: 0, term: minus(Quantity::One) },
        ]
    );
    assert_eq!(system.vector, vec![VectorStamp { row: 2, term: plus(Quantity::Value(s(9.0))) }]);
}

#[test]
fn stamps_of_a_current_source() {
    let elements = [Element::DCCurrentSource(DCCurrentSource::new(s(3.0), NodeId(2), NodeId(1)))];
    let system = dc_op(&circuit_of(3, &elements)).unwrap();

    assert!(system.matrix.is_empty());
    assert_eq!(
        system.vector,
        vec![
            VectorStamp { row: 1, term: plus(Quantity::Value(s(3.0))) },
            VectorStamp { row: 0, term: minus(Quantity::Value(s(3.0))) },
        ]
    );
}

#[test]
fn a_capacitor_is_stamped_as_its_open_resistance() {
    let default = [Element::Capacitor(Capacitor::new(s(1.0), NodeId(1), NodeId(0)))];
    let system = dc_op(&circuit_of(2, &default)).unwrap();
    assert_eq!(
        system.matrix,
        vec![MatrixStamp { row: 0, col: 0, term: plus(Quantity::Reciprocal(s(f32::MAX))) }]
    );

    let tuned = Capacitor::new(s(1.0), NodeId(1), NodeId(0)).with_open_resistance(s(1.0e9));
    let system = dc_op(&circuit_of(2, &[Element::Capacitor(tuned)])).unwrap();
    assert_eq!(
        system.matrix,
        vec![MatrixStamp { row: 0, col: 0, term: plus(Quantity::Reciprocal(s(1.0e9))) }]
    );
}

#[test]
fn stamping_keeps_what_other_rows_and_cells_hold() {
    let kept = MatrixStamp { row: 5, col: 6, term: minus(Quantity::One) };
    let mut a_matrix = vec![kept];
    let mut z_vector = vec![VectorStamp { row: 4, term: plus(Quantity::Zero) }];
    let element = Element::Inductor(Inductor::new(s(1.0), NodeId(1), NodeId(0), 1));

    element.stamp(&mut a_matrix, &mut z_vector, 3, 2);

    assert_eq!(
        a_matrix,
        vec![
            kept,
            MatrixStamp { row: 0, col: 3, term: plus(Quantity::One) },
            MatrixStamp { row: 3, col: 0, term: plus(Quantity::One) },
        ]
    );
    assert_eq!(
        z_vector,
        vec![
            VectorStamp { row: 4, term: plus(Quantity::Zero) },
            VectorStamp { row: 3, term: plus(Quantity::Value(s(0.0))) },
        ]
    );
}

#[test]
fn solution_hands_on_what_is_finite_and_complete() {
    let system = System { size: 2, matrix: Vec::new(), vector: Vec::new() };

    assert_eq!(solution(&system, Some(vec![s(1.0), s(-2.5)])), Ok(vec![s(1.0), s(-2.5)]));
    assert_eq!(solution(&system, None), Err(RunnerError::MalformedCircuit));
    assert_eq!(solution(&system, Some(vec![s(1.0)])), Err(RunnerError::MalformedCircuit));
    assert_eq!(
        solution(&system, Some(vec![s(1.0), s(f32::NAN)])),
        Err(RunnerError::MalformedCircuit)
    );
    assert_eq!(
        solution(&system, Some(vec![s(f32::NEG_INFINITY), s(0.0)])),
        Err(RunnerError::MalformedCircuit)
    );
}

#[test]
fn voltages_and_currents_are_found_in_the_solution() {
    let circuit = circuit_of(3, &[]);
    let x = [s(1.0), s(2.0), s(3.0)];

    assert_eq!(node_voltage(&circuit, &x, NodeId(0)), Some(s(0.0)));
    assert_eq!(node_voltage(&circuit, &x, NodeId(1)), Some(s(1.0)));
    assert_eq!(node_voltage(&circuit, &x, NodeId(2)), Some(s(2.0)));
    assert_eq!(node_voltage(&circuit, &x, NodeId(3)), None);
    assert_eq!(branch_current(&circuit, &x, 0), Some(s(3.0)));
    assert_eq!(branch_current(&circuit, &x, 1), None);
    assert_eq!(branch_current(&Circuit::default(), &x, 0), None);
}

#[test]
fn nodes_are_numbered_from_ground() {
    let mut circuit = Circuit::default();

    let ground = circuit.add_node();
    let v1 = circuit.add_node();
    let v2 = circuit.add_node();

    assert_eq!(ground.0, 0);
    assert_eq!(v1.0, 1);
    assert_eq!(v2.0, 2);
    assert_eq!(circuit.node_count(), 3);
    assert!(circuit.elements().is_empty());
}

#[test]
fn elements_are_kept_in_order() {
    let elements = three_node_elements(&four_nodes());
    let circuit = circuit_of(4, &elements);

    assert_eq!(circuit.elements().len(), 6);
    assert!(matches!(circuit.elements()[2], Element::DCVoltageSource(_)));
    assert!(matches!(circuit.elements()[5], Element::DCCurrentSource(_)));
}

#[test]
fn errors_have_messages() {
    assert_eq!(
        RunnerError::ZeroNode.message(),
        "at least one node is required to execute a runner"
    );
    assert_eq!(
        RunnerError::MalformedCircuit.message(),
        "the circuit is malformed and cannot inverse the matrix"
    );
    assert_eq!(
        RunnerError::AuxiliaryIndex.message(),
        "an auxiliary index is out of range or used twice"
    );
}

#[test]
fn an_element_from_ground_to_ground_stamps_nothing() {
    let elements = [
        Element::Resistor(Resistor::new(s(2.0), NodeId(0), NodeId(0))),
        Element::DCCurrentSource(DCCurrentSource::new(s(1.0), NodeId(0), NodeId(0))),
    ];
    let system = dc_op(&circuit_of(2, &elements)).unwrap();

    assert_eq!(system.size, 1);
    assert!(system.matrix.is_empty());
    assert!(system.vector.is_empty());
}

#[test]
fn a_grounded_terminal_leaves_its_row_and_column_out() {
    let elements = [
        Element::Resistor(Resistor::new(s(2.0), NodeId(0), NodeId(2))),
        Element::DCVoltageSource(DCVoltageSource::new(s(5.0), NodeId(0), NodeId(1), 0)),
    ];
    let system = dc_op(&circuit_of(3, &elements)).unwrap();

    assert_eq!(system.size, 3);
    assert_eq!(
        system.matrix,
        vec![
            MatrixStamp { row: 1, col: 1, term: plus(Quantity::Reciprocal(s(2.0))) },
            MatrixStamp { row: 0, col: 2, term: minus(Quantity::One) },
            MatrixStamp { row: 2, col: 0, term: minus(Quantity::One) },
        ]
    );
    assert_eq!(system.vector, vec![VectorStamp { row: 2, term: plus(Quantity::Value(s(5.0))) }]);
    let x = solve(&system).unwrap();
    assert!(close(x[0], -5.0));
    assert!(close(x[1], 0.0));
    assert!(close(x[2], 0.0));
}

#[test]
fn a_loop_of_ideal_elements_is_singular() {
    let elements = [
        Element::Inductor(Inductor::new(s(1.0), NodeId(1), NodeId(0), 0)),
        Element::Inductor(Inductor::new(s(2.0), NodeId(1), NodeId(0), 1)),
        Element::Resistor(Resistor::new(s(2.0), NodeId(1), NodeId(0))),
    ];
    let system = dc_op(&circuit_of(2, &elements)).unwrap();

    assert_eq!(solve(&system), Err(RunnerError::MalformedCircuit));
}

#[test]
fn cells_lie_column_after_column() {
    let system = System { size: 3, matrix: Vec::new(), vector: Vec::new() };

    assert_eq!(system.cell_count(), Some(9));
    assert_eq!(system.cell_index(0, 0), Some(0));
    assert_eq!(system.cell_index(2, 0), Some(2));
    assert_eq!(system.cell_index(0, 1), Some(3));
    assert_eq!(system.cell_index(1, 2), Some(7));
    assert_eq!(system.cell_index(2, 2), Some(8));
    assert_eq!(system.cell_index(3, 0), None);
    assert_eq!(system.cell_index(0, 3), None);

    let huge = System { size: usize::MAX, matrix: Vec::new(), vector: Vec::new() };
    assert_eq!(huge.cell_count(), None);
    assert_eq!(huge.cell_index(0, 0), None);
}

#[test]
fn an_auxiliary_row_is_set_not_added_to() {
    let seven = plus(Quantity::Value(s(7.0)));
    let filled: Vec<VectorStamp> = (0..4).map(|row| VectorStamp { row, term: seven }).collect();

    let mut a_matrix = Vec::new();
    let mut z_vector = filled.clone();
    let inductor = Element::Inductor(Inductor::new(s(1.0), NodeId(2), NodeId(0), 1));
    inductor.stamp(&mut a_matrix, &mut z_vector, 3, 2);
    assert_eq!(
        a_matrix,
        vec![
            MatrixStamp { row: 1, col: 3, term: plus(Quantity::One) },
            MatrixStamp { row: 3, col: 1, term: plus(Quantity::One) },
        ]
    );
    assert_eq!(
        z_vector,
        vec![
            VectorStamp { row: 0, term: seven },
            VectorStamp { row: 1, term: seven },
            VectorStamp { row: 2, term: seven },
            VectorStamp { row: 3, term: plus(Quantity::Value(s(0.0))) },
        ]
    );
    let row: Vec<f32> =
        z_vector.iter().filter(|stamp| stamp.row == 3).map(|stamp| value(stamp.term)).collect();
    assert_eq!(row, vec![0.0]);

    let mut a_matrix = Vec::new();
    let mut z_vector = filled.clone();
    let source = Element::DCVoltageSource(DCVoltageSource::new(s(9.0), NodeId(1), NodeId(2), 0));
    source.stamp(&mut a_matrix, &mut z_vector, 3, 2);
    assert_eq!(
        z_vector,
        vec![
            VectorStamp { row: 0, term: seven },
            VectorStamp { row: 1, term: seven },
            VectorStamp { row: 3, term: seven },
            VectorStamp { row: 2, term: plus(Quantity::Value(s(9.0))) },
        ]
    );

    // The same source again leaves the row as it is: set, not doubled.
    source.stamp(&mut a_matrix, &mut z_vector, 3, 2);
    assert_eq!(z_vector.iter().filter(|stamp| stamp.row == 2).count(), 1);
}

#[test]
fn a_source_with_series_resistance_adds_to_its_rows() {
    let seven = plus(Quantity::Value(s(7.0)));
    let mut a_matrix = Vec::new();
    let mut z_vector = vec![VectorStamp { row: 0, term: seven }];
    let source = DCVoltageSource::new(s(9.0), NodeId(1), NodeId(0), 0).with_resistance(s(3.0));

    Element::DCVoltageSource(source).stamp(&mut a_matrix, &mut z_vector, 2, 0);

    assert_eq!(
        z_vector,
        vec![
            VectorStamp { row: 0, term: seven },
            VectorStamp {
                row: 0,
                term: plus(Quantity::Scaled { value: s(9.0), resistance: s(3.0) }),
            },
        ]
    );
}

#[test]
fn clearing_a_row_keeps_the_others_in_order() {
    let stamp = |row: usize, x: f32| VectorStamp { row, term: plus(Quantity::Value(s(x))) };
    let mut z_vector = vec![stamp(1, 1.0), stamp(0, 2.0), stamp(1, 3.0), stamp(2, 4.0)];

    clear_row(&mut z_vector, 1);
    assert_eq!(z_vector, vec![stamp(0, 2.0), stamp(2, 4.0)]);

    clear_row(&mut z_vector, 5);
    assert_eq!(z_vector, vec![stamp(0, 2.0), stamp(2, 4.0)]);
}

#[test]
fn the_unknowns_of_a_circuit_are_counted() {
    let elements = three_node_elements(&four_nodes());
    let circuit = circuit_of(4, &elements);

    assert_eq!(aux_total(circuit.elements()), 1);
    assert_eq!(aux_total(&[]), 0);
    assert!(system_fits(&circuit));
    assert!(system_fits(&Circuit::default()));
    assert_eq!(dc_op(&circuit).unwrap().size, 4);
}
