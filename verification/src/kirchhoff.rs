//! The equations of the system are Kirchhoff's laws.
//!
//! The row of a node says that the currents at the node cancel, and the row
//! of an auxiliary unknown says that its element holds its voltage. Both are
//! proved for every circuit, every valuation and every vector of unknowns,
//! in the exact arithmetic of [`crate::exact`].
use vstd::prelude::*;
use crate::elements::{Element, Polarity, Terminal, aux_row, guarded_reciprocal, node_row};
use crate::exact::{
    lemma_rhs_concat, lemma_row_dot_concat, lemma_row_dot_empty, lemma_row_dot_one,
    quantity_value, rhs, row_dot, solves, term_value,
};
use crate::runners::dc_op::{assembled_matrix, assembled_vector, aux_indices_below};
use crate::scalar::{Quantity, Term};
use crate::stamp::{conductance_half, incidence_stamp, injection_stamp};
use crate::system::{MatrixStamp, VectorStamp};

verus! {

/// The voltage of `node` where `x` holds the unknowns: zero for ground, and
/// the unknown of the node for every other.
pub open spec fn potential(x: Seq<int>, node: int) -> int {
    if node == 0 {
        0
    } else {
        x[node - 1]
    }
}

/// `value` with the sign of `terminal`.
pub open spec fn signed_by(terminal: Terminal, value: int) -> int {
    if terminal.polarity == Polarity::Negative {
        -value
    } else {
        value
    }
}

/// The current that leaves `node` through `element`, where `x` holds the
/// unknowns of a circuit of `n` nodes.
///
/// Through an element with a current unknown of its own it is that unknown,
/// with the sign of each terminal that is wired to the node. Through every
/// other element it is, for each terminal that is wired to the node, the
/// conductance of [`Element::shunt_resistance`] times the voltage from the
/// node to the other terminal.
pub open spec fn through(
    element: Element,
    node: int,
    x: Seq<int>,
    valuation: spec_fn(Quantity) -> int,
    n: usize,
) -> int {
    let t = element.spec_terminals();
    match element.spec_aux_index() {
        Some(index) => {
            let current = x[n - 1 + index];
            (if t[0].node.0 == node {
                signed_by(t[0], current)
            } else {
                0
            }) + (if t[1].node.0 == node {
                signed_by(t[1], current)
            } else {
                0
            })
        },
        None => {
            let g = quantity_value(guarded_reciprocal(element.shunt_resistance()), valuation);
            let first = potential(x, t[0].node.0 as int);
            let second = potential(x, t[1].node.0 as int);
            (if t[0].node.0 == node {
                g * (first - second)
            } else {
                0
            }) + (if t[1].node.0 == node {
                g * (second - first)
            } else {
                0
            })
        },
    }
}

/// The current that `element` feeds into `node` as a source: what it
/// injects, with the sign of each terminal that is wired to the node.
pub open spec fn injected(element: Element, node: int, valuation: spec_fn(Quantity) -> int) -> int {
    let t = element.spec_terminals();
    if element.spec_aux_index() is None && element.spec_injection() is Some {
        let current = quantity_value(element.spec_injection()->0, valuation);
        (if t[0].node.0 == node {
            signed_by(t[0], current)
        } else {
            0
        }) + (if t[1].node.0 == node {
            signed_by(t[1], current)
        } else {
            0
        })
    } else {
        0
    }
}

/// The current that leaves `node` through `elements`, less the current that
/// they feed into it as sources.
pub open spec fn net_current(
    elements: Seq<Element>,
    node: int,
    x: Seq<int>,
    valuation: spec_fn(Quantity) -> int,
    n: usize,
) -> int
    decreases elements.len(),
{
    if elements.len() == 0 {
        0
    } else {
        net_current(elements.drop_last(), node, x, valuation, n) + through(
            elements.last(),
            node,
            x,
            valuation,
            n,
        ) - injected(elements.last(), node, valuation)
    }
}

/// What an incidence entry adds to the left-hand side of the row `row`.
proof fn lemma_incidence_dot(
    node: Option<usize>,
    term: Term,
    aux: usize,
    transposed: bool,
    row: int,
    x: Seq<int>,
    valuation: spec_fn(Quantity) -> int,
    cols: nat,
)
    ensures
        row_dot(incidence_stamp(node, term, aux, transposed), row, x, valuation, cols) == match node {
            Some(r) => if transposed {
                if aux == row && r < cols {
                    term_value(term, valuation) * x[r as int]
                } else {
                    0
                }
            } else {
                if r == row && aux < cols {
                    term_value(term, valuation) * x[aux as int]
                } else {
                    0
                }
            },
            None => 0,
        },
{
    match node {
        Some(r) => {
            if transposed {
                lemma_row_dot_one(MatrixStamp { row: aux, col: r, term }, row, x, valuation, cols);
            } else {
                lemma_row_dot_one(MatrixStamp { row: r, col: aux, term }, row, x, valuation, cols);
            }
        },
        None => {
            lemma_row_dot_empty(row, x, valuation, cols);
        },
    }
}

/// What the stamps of a conductance in the column of one of its ends add to
/// the left-hand side of the row `row`.
proof fn lemma_half_dot(
    from: Option<usize>,
    to: Option<usize>,
    g: Quantity,
    row: int,
    x: Seq<int>,
    valuation: spec_fn(Quantity) -> int,
    cols: nat,
)
    requires
        from matches Some(a) ==> a < cols,
    ensures
        row_dot(
            match from {
                Some(a) => conductance_half(a, to, g),
                None => Seq::<MatrixStamp>::empty(),
            },
            row,
            x,
            valuation,
            cols,
        ) == match from {
            Some(a) => (if row == a {
                quantity_value(g, valuation) * x[a as int]
            } else {
                0
            }) + (match to {
                Some(b) => if row == b {
                    -(quantity_value(g, valuation) * x[a as int])
                } else {
                    0
                },
                None => 0,
            }),
            None => 0,
        },
{
    match from {
        Some(a) => {
            let diagonal = MatrixStamp { row: a, col: a, term: Term { negative: false, quantity: g } };
            lemma_row_dot_one(diagonal, row, x, valuation, cols);
            match to {
                Some(b) => {
                    let coupling = MatrixStamp { row: b, col: a, term: Term { negative: true, quantity: g } };
                    lemma_row_dot_one(coupling, row, x, valuation, cols);
                    assert(conductance_half(a, to, g) =~= seq![diagonal] + seq![coupling]);
                    lemma_row_dot_concat(seq![diagonal], seq![coupling], row, x, valuation, cols);
                    let v = quantity_value(g, valuation);
                    let u = x[a as int];
                    assert((-v) * u == -(v * u)) by (nonlinear_arith);
                },
                None => {},
            }
        },
        None => {
            lemma_row_dot_empty(row, x, valuation, cols);
        },
    }
}

/// What an injection adds to the right-hand side of the row `row`.
proof fn lemma_injection_rhs(node: Option<usize>, term: Term, row: int, valuation: spec_fn(Quantity) -> int)
    ensures
        rhs(injection_stamp(node, term), row, valuation) == match node {
            Some(r) => if r == row {
                term_value(term, valuation)
            } else {
                0
            },
            None => 0,
        },
{
    reveal_with_fuel(rhs, 2);
    match node {
        Some(r) => {
            assert(injection_stamp(node, term).drop_last() =~= Seq::<VectorStamp>::empty());
        },
        None => {},
    }
}

/// [`lemma_element_current`] for an element with a current unknown of its
/// own.
proof fn lemma_branch_current(
    element: Element,
    n: usize,
    m: nat,
    node: int,
    x: Seq<int>,
    valuation: spec_fn(Quantity) -> int,
)
    requires
        1 <= node < n,
        n - 1 + m <= usize::MAX,
        x.len() == n - 1 + m,
        element.fits(n as nat, m),
        element.spec_aux_index() is Some,
    ensures
        row_dot(element.matrix_stamps(n), node - 1, x, valuation, (n - 1 + m) as nat) == through(
            element,
            node,
            x,
            valuation,
            n,
        ),
        rhs(element.vector_stamps(n), node - 1, valuation) == 0,
{
    let index = element.spec_aux_index()->0;
    let t = element.spec_terminals();
    let aux = aux_row(n, index);
    let cols = (n - 1 + m) as nat;
    let row = node - 1;
    let one = Quantity::One;
    let b0 = incidence_stamp(node_row(t[0].node), t[0].spec_signed(one), aux, false);
    let b1 = incidence_stamp(node_row(t[1].node), t[1].spec_signed(one), aux, false);
    let c0 = incidence_stamp(node_row(t[0].node), t[0].spec_signed(one), aux, true);
    let c1 = incidence_stamp(node_row(t[1].node), t[1].spec_signed(one), aux, true);
    assert(element.matrix_stamps(n) == b0 + b1 + c0 + c1);
    lemma_row_dot_concat(b0 + b1 + c0, c1, row, x, valuation, cols);
    lemma_row_dot_concat(b0 + b1, c0, row, x, valuation, cols);
    lemma_row_dot_concat(b0, b1, row, x, valuation, cols);
    lemma_incidence_dot(node_row(t[0].node), t[0].spec_signed(one), aux, false, row, x, valuation, cols);
    lemma_incidence_dot(node_row(t[1].node), t[1].spec_signed(one), aux, false, row, x, valuation, cols);
    lemma_incidence_dot(node_row(t[0].node), t[0].spec_signed(one), aux, true, row, x, valuation, cols);
    lemma_incidence_dot(node_row(t[1].node), t[1].spec_signed(one), aux, true, row, x, valuation, cols);
    let current = x[aux as int];
    assert(1 * current == current);
    assert((-1) * current == -current);
    reveal_with_fuel(rhs, 2);
    assert(element.vector_stamps(n).drop_last() =~= Seq::<VectorStamp>::empty());
}

/// [`lemma_element_current`] for an element without a current unknown of
/// its own.
proof fn lemma_shunt_current(
    element: Element,
    n: usize,
    m: nat,
    node: int,
    x: Seq<int>,
    valuation: spec_fn(Quantity) -> int,
)
    requires
        1 <= node < n,
        n - 1 + m <= usize::MAX,
        x.len() == n - 1 + m,
        element.fits(n as nat, m),
        element.spec_aux_index() is None,
    ensures
        row_dot(element.matrix_stamps(n), node - 1, x, valuation, (n - 1 + m) as nat) == through(
            element,
            node,
            x,
            valuation,
            n,
        ),
        rhs(element.vector_stamps(n), node - 1, valuation) == injected(element, node, valuation),
{
    let t = element.spec_terminals();
    let cols = (n - 1 + m) as nat;
    let row = node - 1;
    let resistance = element.shunt_resistance();
    let g = quantity_value(guarded_reciprocal(resistance), valuation);
    let first = potential(x, t[0].node.0 as int);
    let second = potential(x, t[1].node.0 as int);
    assert(g * (first - second) == g * first - g * second) by (nonlinear_arith);
    assert(g * (second - first) == g * second - g * first) by (nonlinear_arith);
    if resistance.spec_is_zero() {
        lemma_row_dot_empty(row, x, valuation, cols);
        assert(g == 0);
        assert(g * first == 0) by (nonlinear_arith)
            requires
                g == 0,
        ;
        assert(g * second == 0) by (nonlinear_arith)
            requires
                g == 0,
        ;
    } else {
        let q = Quantity::Reciprocal(resistance);
        let ra = node_row(t[0].node);
        let rb = node_row(t[1].node);
        let head = match ra {
            Some(a) => conductance_half(a, rb, q),
            None => Seq::<MatrixStamp>::empty(),
        };
        let tail = match rb {
            Some(b) => conductance_half(b, ra, q),
            None => Seq::<MatrixStamp>::empty(),
        };
        assert(element.matrix_stamps(n) == head + tail);
        lemma_row_dot_concat(head, tail, row, x, valuation, cols);
        lemma_half_dot(ra, rb, q, row, x, valuation, cols);
        lemma_half_dot(rb, ra, q, row, x, valuation, cols);
        assert(g * 0 == 0);
    }
    match element.spec_injection() {
        Some(quantity) => {
            let i0 = injection_stamp(node_row(t[0].node), t[0].spec_signed(quantity));
            let i1 = injection_stamp(node_row(t[1].node), t[1].spec_signed(quantity));
            assert(element.vector_stamps(n) == i0 + i1);
            lemma_rhs_concat(i0, i1, row, valuation);
            lemma_injection_rhs(node_row(t[0].node), t[0].spec_signed(quantity), row, valuation);
            lemma_injection_rhs(node_row(t[1].node), t[1].spec_signed(quantity), row, valuation);
        },
        None => {},
    }
}

/// In the row of a node, what an element adds to the left-hand side is the
/// current that leaves the node through it, and what it adds to the
/// right-hand side is the current that it feeds into the node.
pub proof fn lemma_element_current(
    element: Element,
    n: usize,
    m: nat,
    node: int,
    x: Seq<int>,
    valuation: spec_fn(Quantity) -> int,
)
    requires
        1 <= node < n,
        n - 1 + m <= usize::MAX,
        x.len() == n - 1 + m,
        element.fits(n as nat, m),
    ensures
        row_dot(element.matrix_stamps(n), node - 1, x, valuation, (n - 1 + m) as nat) == through(
            element,
            node,
            x,
            valuation,
            n,
        ),
        rhs(element.vector_stamps(n), node - 1, valuation) == injected(element, node, valuation),
{
    if element.spec_aux_index() is Some {
        lemma_branch_current(element, n, m, node, x, valuation);
    } else {
        lemma_shunt_current(element, n, m, node, x, valuation);
    }
}

/// Every node equation is Kirchhoff's current law.
///
/// In the row of a node that is not ground, the left-hand side less the
/// right-hand side is the current that leaves the node through the elements,
/// less the current that the sources feed into it. A vector `x` therefore
/// solves that row exactly if the currents at the node cancel.
pub proof fn lemma_kirchhoff_current_law(
    elements: Seq<Element>,
    n: usize,
    m: nat,
    node: int,
    x: Seq<int>,
    valuation: spec_fn(Quantity) -> int,
)
    requires
        1 <= node < n,
        n - 1 + m <= usize::MAX,
        x.len() == n - 1 + m,
        forall|i: int| 0 <= i < elements.len() ==> (#[trigger] elements[i]).fits(n as nat, m),
    ensures
        row_dot(assembled_matrix(elements, n), node - 1, x, valuation, (n - 1 + m) as nat) - rhs(
            assembled_vector(elements, n),
            node - 1,
            valuation,
        ) == net_current(elements, node, x, valuation, n),
    decreases elements.len(),
{
    let cols = (n - 1 + m) as nat;
    if elements.len() == 0 {
        lemma_row_dot_empty(node - 1, x, valuation, cols);
    } else {
        lemma_kirchhoff_current_law(elements.drop_last(), n, m, node, x, valuation);
        lemma_element_current(elements.last(), n, m, node, x, valuation);
        lemma_row_dot_concat(
            assembled_matrix(elements.drop_last(), n),
            elements.last().matrix_stamps(n),
            node - 1,
            x,
            valuation,
            cols,
        );
        lemma_rhs_concat(
            assembled_vector(elements.drop_last(), n),
            elements.last().vector_stamps(n),
            node - 1,
            valuation,
        );
    }
}

/// A solution lets the currents cancel at every node.
///
/// Where `x` solves the system, the current that leaves a node that is not
/// ground through the elements equals the current that the sources feed
/// into it.
pub proof fn lemma_solution_balances(
    elements: Seq<Element>,
    n: usize,
    m: nat,
    node: int,
    x: Seq<int>,
    valuation: spec_fn(Quantity) -> int,
)
    requires
        1 <= node < n,
        n - 1 + m <= usize::MAX,
        forall|i: int| 0 <= i < elements.len() ==> (#[trigger] elements[i]).fits(n as nat, m),
        solves(elements, n, m, x, valuation),
    ensures
        net_current(elements, node, x, valuation, n) == 0,
{
    lemma_kirchhoff_current_law(elements, n, m, node, x, valuation);
    assert(row_dot(assembled_matrix(elements, n), node - 1, x, valuation, (n - 1 + m) as nat) == rhs(
        assembled_vector(elements, n),
        node - 1,
        valuation,
    ));
}

/// The voltage across `element` as its terminals sign it: for a positive
/// and a negative terminal the voltage from the negative to the positive
/// node.
pub open spec fn voltage_across(element: Element, x: Seq<int>) -> int {
    let t = element.spec_terminals();
    signed_by(t[0], potential(x, t[0].node.0 as int)) + signed_by(t[1], potential(x, t[1].node.0 as int))
}

/// What the elements with the auxiliary index `index` ask of `x`: for each
/// of them the voltage across it, less the voltage that it holds.
pub open spec fn branch_residual(
    elements: Seq<Element>,
    index: usize,
    x: Seq<int>,
    valuation: spec_fn(Quantity) -> int,
) -> int
    decreases elements.len(),
{
    if elements.len() == 0 {
        0
    } else {
        branch_residual(elements.drop_last(), index, x, valuation) + if elements.last().spec_aux_index()
            == Some(index) {
            voltage_across(elements.last(), x) - quantity_value(
                Quantity::Value(elements.last().spec_dc_voltage()),
                valuation,
            )
        } else {
            0
        }
    }
}

/// What one element adds to the two sides of the row of the auxiliary index
/// `index`: the voltage across it and the voltage that it holds if the index
/// is its own, and nothing otherwise.
proof fn lemma_element_branch(
    element: Element,
    n: usize,
    m: nat,
    index: usize,
    x: Seq<int>,
    valuation: spec_fn(Quantity) -> int,
)
    requires
        n >= 1,
        index < m,
        n - 1 + m <= usize::MAX,
        x.len() == n - 1 + m,
        element.fits(n as nat, m),
    ensures
        row_dot(element.matrix_stamps(n), n - 1 + index, x, valuation, (n - 1 + m) as nat)
            == if element.spec_aux_index() == Some(index) {
            voltage_across(element, x)
        } else {
            0
        },
        rhs(element.vector_stamps(n), n - 1 + index, valuation) == if element.spec_aux_index() == Some(
            index,
        ) {
            quantity_value(Quantity::Value(element.spec_dc_voltage()), valuation)
        } else {
            0
        },
{
    let t = element.spec_terminals();
    let cols = (n - 1 + m) as nat;
    let row = n - 1 + index;
    match element.spec_aux_index() {
        Some(own) => {
            let aux = aux_row(n, own);
            let one = Quantity::One;
            let b0 = incidence_stamp(node_row(t[0].node), t[0].spec_signed(one), aux, false);
            let b1 = incidence_stamp(node_row(t[1].node), t[1].spec_signed(one), aux, false);
            let c0 = incidence_stamp(node_row(t[0].node), t[0].spec_signed(one), aux, true);
            let c1 = incidence_stamp(node_row(t[1].node), t[1].spec_signed(one), aux, true);
            assert(element.matrix_stamps(n) == b0 + b1 + c0 + c1);
            lemma_row_dot_concat(b0 + b1 + c0, c1, row, x, valuation, cols);
            lemma_row_dot_concat(b0 + b1, c0, row, x, valuation, cols);
            lemma_row_dot_concat(b0, b1, row, x, valuation, cols);
            lemma_incidence_dot(node_row(t[0].node), t[0].spec_signed(one), aux, false, row, x, valuation, cols);
            lemma_incidence_dot(node_row(t[1].node), t[1].spec_signed(one), aux, false, row, x, valuation, cols);
            lemma_incidence_dot(node_row(t[0].node), t[0].spec_signed(one), aux, true, row, x, valuation, cols);
            lemma_incidence_dot(node_row(t[1].node), t[1].spec_signed(one), aux, true, row, x, valuation, cols);
            let first = potential(x, t[0].node.0 as int);
            let second = potential(x, t[1].node.0 as int);
            assert(1 * first == first);
            assert((-1) * first == -first);
            assert(1 * second == second);
            assert((-1) * second == -second);
            reveal_with_fuel(rhs, 2);
            assert(element.vector_stamps(n).drop_last() =~= Seq::<VectorStamp>::empty());
        },
        None => {
            let resistance = element.shunt_resistance();
            if resistance.spec_is_zero() {
                lemma_row_dot_empty(row, x, valuation, cols);
            } else {
                let q = Quantity::Reciprocal(resistance);
                let ra = node_row(t[0].node);
                let rb = node_row(t[1].node);
                let head = match ra {
                    Some(a) => conductance_half(a, rb, q),
                    None => Seq::<MatrixStamp>::empty(),
                };
                let tail = match rb {
                    Some(b) => conductance_half(b, ra, q),
                    None => Seq::<MatrixStamp>::empty(),
                };
                assert(element.matrix_stamps(n) == head + tail);
                lemma_row_dot_concat(head, tail, row, x, valuation, cols);
                lemma_half_dot(ra, rb, q, row, x, valuation, cols);
                lemma_half_dot(rb, ra, q, row, x, valuation, cols);
            }
            match element.spec_injection() {
                Some(quantity) => {
                    let i0 = injection_stamp(node_row(t[0].node), t[0].spec_signed(quantity));
                    let i1 = injection_stamp(node_row(t[1].node), t[1].spec_signed(quantity));
                    assert(element.vector_stamps(n) == i0 + i1);
                    lemma_rhs_concat(i0, i1, row, valuation);
                    lemma_injection_rhs(node_row(t[0].node), t[0].spec_signed(quantity), row, valuation);
                    lemma_injection_rhs(node_row(t[1].node), t[1].spec_signed(quantity), row, valuation);
                },
                None => {},
            }
        },
    }
}

/// Every auxiliary equation says that an element holds its voltage.
///
/// In the row of the auxiliary index `index`, the left-hand side less the
/// right-hand side is the voltage across the elements with that index, less
/// the voltage that they hold: zero volts for an inductor, the source
/// voltage for an ideal voltage source.
pub proof fn lemma_branch_equation(
    elements: Seq<Element>,
    n: usize,
    m: nat,
    index: usize,
    x: Seq<int>,
    valuation: spec_fn(Quantity) -> int,
)
    requires
        n >= 1,
        index < m,
        n - 1 + m <= usize::MAX,
        x.len() == n - 1 + m,
        forall|i: int| 0 <= i < elements.len() ==> (#[trigger] elements[i]).fits(n as nat, m),
    ensures
        row_dot(assembled_matrix(elements, n), n - 1 + index, x, valuation, (n - 1 + m) as nat) - rhs(
            assembled_vector(elements, n),
            n - 1 + index,
            valuation,
        ) == branch_residual(elements, index, x, valuation),
    decreases elements.len(),
{
    let cols = (n - 1 + m) as nat;
    let row = n - 1 + index;
    if elements.len() == 0 {
        lemma_row_dot_empty(row, x, valuation, cols);
    } else {
        lemma_branch_equation(elements.drop_last(), n, m, index, x, valuation);
        lemma_element_branch(elements.last(), n, m, index, x, valuation);
        lemma_row_dot_concat(
            assembled_matrix(elements.drop_last(), n),
            elements.last().matrix_stamps(n),
            row,
            x,
            valuation,
            cols,
        );
        lemma_rhs_concat(
            assembled_vector(elements.drop_last(), n),
            elements.last().vector_stamps(n),
            row,
            valuation,
        );
    }
}

/// Where no element has the auxiliary index `index`, its equation asks for
/// nothing.
proof fn lemma_branch_residual_none(
    elements: Seq<Element>,
    index: usize,
    x: Seq<int>,
    valuation: spec_fn(Quantity) -> int,
)
    requires
        forall|i: int| 0 <= i < elements.len() ==> (#[trigger] elements[i]).spec_aux_index() != Some(index),
    ensures
        branch_residual(elements, index, x, valuation) == 0,
    decreases elements.len(),
{
    if elements.len() > 0 {
        let rest = elements.drop_last();
        assert forall|i: int| 0 <= i < rest.len() implies (#[trigger] rest[i]).spec_aux_index() != Some(
            index,
        ) by {
            assert(rest[i] == elements[i]);
        }
        lemma_branch_residual_none(rest, index, x, valuation);
    }
}

/// Where a single element has the auxiliary index `index`, its equation
/// asks for the voltage across that element alone.
pub proof fn lemma_branch_residual_single(
    elements: Seq<Element>,
    at: int,
    index: usize,
    x: Seq<int>,
    valuation: spec_fn(Quantity) -> int,
)
    requires
        0 <= at < elements.len(),
        elements[at].spec_aux_index() == Some(index),
        forall|i: int|
            0 <= i < elements.len() && i != at ==> (#[trigger] elements[i]).spec_aux_index() != Some(
                index,
            ),
    ensures
        branch_residual(elements, index, x, valuation) == voltage_across(elements[at], x)
            - quantity_value(Quantity::Value(elements[at].spec_dc_voltage()), valuation),
    decreases elements.len(),
{
    let rest = elements.drop_last();
    if at == elements.len() - 1 {
        lemma_branch_residual_none(rest, index, x, valuation);
    } else {
        assert(rest[at] == elements[at]);
        assert forall|i: int| 0 <= i < rest.len() && i != at implies (#[trigger] rest[i]).spec_aux_index()
            != Some(index) by {
            assert(rest[i] == elements[i]);
        }
        lemma_branch_residual_single(rest, at, index, x, valuation);
    }
}

/// Among valid auxiliary indices that of the element at `at` is below `m`
/// and belongs to no other element.
proof fn lemma_index_is_single(elements: Seq<Element>, m: nat, at: int)
    requires
        aux_indices_below(elements, m),
        0 <= at < elements.len(),
        elements[at].spec_is_b_c_element(),
    ensures
        elements[at].spec_aux_index()->0 < m,
        forall|i: int|
            0 <= i < elements.len() && i != at ==> (#[trigger] elements[i]).spec_aux_index()
                != elements[at].spec_aux_index(),
{
    assert forall|i: int| 0 <= i < elements.len() && i != at implies (#[trigger] elements[i]).spec_aux_index()
        != elements[at].spec_aux_index() by {
        if elements[i].spec_is_b_c_element() {
            if i < at {
                assert(elements[i].spec_aux_index() != elements[at].spec_aux_index());
            } else {
                assert(elements[at].spec_aux_index() != elements[i].spec_aux_index());
            }
        }
    }
}

/// With valid auxiliary indices every auxiliary equation belongs to one
/// element, and says that this element holds its voltage.
///
/// In the row of the auxiliary index of the element at `at`, the left-hand
/// side less the right-hand side is the voltage across that element, less
/// the voltage that it holds.
pub proof fn lemma_auxiliary_equation(
    elements: Seq<Element>,
    n: usize,
    m: nat,
    at: int,
    x: Seq<int>,
    valuation: spec_fn(Quantity) -> int,
)
    requires
        n >= 1,
        n - 1 + m <= usize::MAX,
        x.len() == n - 1 + m,
        forall|i: int| 0 <= i < elements.len() ==> (#[trigger] elements[i]).fits(n as nat, m),
        aux_indices_below(elements, m),
        0 <= at < elements.len(),
        elements[at].spec_is_b_c_element(),
    ensures
        row_dot(
            assembled_matrix(elements, n),
            n - 1 + elements[at].spec_aux_index()->0,
            x,
            valuation,
            (n - 1 + m) as nat,
        ) - rhs(assembled_vector(elements, n), n - 1 + elements[at].spec_aux_index()->0, valuation)
            == voltage_across(elements[at], x) - quantity_value(
            Quantity::Value(elements[at].spec_dc_voltage()),
            valuation,
        ),
{
    let index = elements[at].spec_aux_index()->0;
    lemma_index_is_single(elements, m, at);
    lemma_branch_equation(elements, n, m, index, x, valuation);
    lemma_branch_residual_single(elements, at, index, x, valuation);
}

/// Two ideal voltage sources of different voltages across the same pair of
/// nodes leave the system without a solution.
///
/// The two auxiliary equations ask the same voltage difference to equal two
/// different values, so no vector of unknowns meets both, whatever else the
/// circuit holds.
pub proof fn lemma_conflicting_sources(
    elements: Seq<Element>,
    n: usize,
    m: nat,
    first: int,
    second: int,
    x: Seq<int>,
    valuation: spec_fn(Quantity) -> int,
)
    requires
        n >= 1,
        n - 1 + m <= usize::MAX,
        forall|i: int| 0 <= i < elements.len() ==> (#[trigger] elements[i]).fits(n as nat, m),
        aux_indices_below(elements, m),
        0 <= first < elements.len(),
        0 <= second < elements.len(),
        elements[first] is DCVoltageSource,
        elements[second] is DCVoltageSource,
        elements[first].spec_is_b_c_element(),
        elements[second].spec_is_b_c_element(),
        elements[first].spec_terminals() == elements[second].spec_terminals(),
        quantity_value(Quantity::Value(elements[first].spec_dc_voltage()), valuation) != quantity_value(
            Quantity::Value(elements[second].spec_dc_voltage()),
            valuation,
        ),
    ensures
        !solves(elements, n, m, x, valuation),
{
    if solves(elements, n, m, x, valuation) {
        let k1 = elements[first].spec_aux_index()->0;
        let k2 = elements[second].spec_aux_index()->0;
        lemma_auxiliary_equation(elements, n, m, first, x, valuation);
        lemma_auxiliary_equation(elements, n, m, second, x, valuation);
        let cols = (n - 1 + m) as nat;
        assert(row_dot(assembled_matrix(elements, n), n - 1 + k1, x, valuation, cols) == rhs(
            assembled_vector(elements, n),
            n - 1 + k1,
            valuation,
        ));
        assert(row_dot(assembled_matrix(elements, n), n - 1 + k2, x, valuation, cols) == rhs(
            assembled_vector(elements, n),
            n - 1 + k2,
            valuation,
        ));
    }
}

} // verus!
