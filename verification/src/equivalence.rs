//! Circuits that have the same equations.
//!
//! The order in which the elements are stamped does not matter, and two
//! resistors in parallel are one resistor: in both cases every cell of the
//! system keeps its exact value, and with it the set of solutions.
use vstd::prelude::*;
use vstd::multiset::Multiset;
use vstd::seq_lib::{lemma_fold_left_permutation, lemma_multiset_commutative};
use crate::elements::resistor::Resistor;
use crate::elements::{Element, Terminal, guarded_reciprocal, node_row, shunt_stamps};
use crate::exact::{
    entry, lemma_assembled_concat, lemma_entry_concat, lemma_entry_unordered, lemma_rhs_concat,
    lemma_rhs_unordered, lemma_row_dot_by_entries, quantity_value, rhs, row_dot, solves,
};
use crate::runners::dc_op::{assembled_matrix, assembled_vector};
use crate::scalar::{Quantity, Scalar};
use crate::stamp::{conductance_half, conductance_stamps};
use crate::system::{MatrixStamp, VectorStamp};

verus! {

/// The matrix stamps of a list of elements, as a multiset, are the sum of
/// the stamps of the elements.
proof fn lemma_matrix_stamps_fold(elements: Seq<Element>, n: usize)
    ensures
        assembled_matrix(elements, n).to_multiset() == elements.fold_left(
            Multiset::<MatrixStamp>::empty(),
            |stamps: Multiset<MatrixStamp>, element: Element|
                stamps.add(element.matrix_stamps(n).to_multiset()),
        ),
    decreases elements.len(),
{
    if elements.len() == 0 {
        broadcast use vstd::seq_lib::group_to_multiset_ensures;

        assert(assembled_matrix(elements, n).to_multiset().len() == 0);
        assert(assembled_matrix(elements, n).to_multiset() =~= Multiset::<MatrixStamp>::empty());
    } else {
        lemma_matrix_stamps_fold(elements.drop_last(), n);
        lemma_multiset_commutative(
            assembled_matrix(elements.drop_last(), n),
            elements.last().matrix_stamps(n),
        );
    }
}

/// The right-hand side stamps of a list of elements, as a multiset, are the
/// sum of the stamps of the elements.
proof fn lemma_vector_stamps_fold(elements: Seq<Element>, n: usize)
    ensures
        assembled_vector(elements, n).to_multiset() == elements.fold_left(
            Multiset::<VectorStamp>::empty(),
            |stamps: Multiset<VectorStamp>, element: Element|
                stamps.add(element.vector_stamps(n).to_multiset()),
        ),
    decreases elements.len(),
{
    if elements.len() == 0 {
        broadcast use vstd::seq_lib::group_to_multiset_ensures;

        assert(assembled_vector(elements, n).to_multiset().len() == 0);
        assert(assembled_vector(elements, n).to_multiset() =~= Multiset::<VectorStamp>::empty());
    } else {
        lemma_vector_stamps_fold(elements.drop_last(), n);
        lemma_multiset_commutative(
            assembled_vector(elements.drop_last(), n),
            elements.last().vector_stamps(n),
        );
    }
}

/// Stamping does not depend on the order of the elements.
///
/// Two lists that hold the same elements, in whatever order, assemble the
/// same stamps up to their order, and so the same value in every cell of the
/// matrix and in every row of the right-hand side.
pub proof fn lemma_stamping_order(
    first: Seq<Element>,
    second: Seq<Element>,
    n: usize,
    row: int,
    col: int,
    valuation: spec_fn(Quantity) -> int,
)
    requires
        first.to_multiset() == second.to_multiset(),
    ensures
        assembled_matrix(first, n).to_multiset() == assembled_matrix(second, n).to_multiset(),
        assembled_vector(first, n).to_multiset() == assembled_vector(second, n).to_multiset(),
        entry(assembled_matrix(first, n), row, col, valuation) == entry(
            assembled_matrix(second, n),
            row,
            col,
            valuation,
        ),
        rhs(assembled_vector(first, n), row, valuation) == rhs(assembled_vector(second, n), row, valuation),
{
    let f = |stamps: Multiset<MatrixStamp>, element: Element|
        stamps.add(element.matrix_stamps(n).to_multiset());
    let g = |stamps: Multiset<VectorStamp>, element: Element|
        stamps.add(element.vector_stamps(n).to_multiset());
    assert forall|x: Element, y: Element, v: Multiset<MatrixStamp>| #[trigger] f(f(v, x), y) == f(f(v, y), x) by {
        assert(f(f(v, x), y) =~= f(f(v, y), x));
    }
    assert forall|x: Element, y: Element, v: Multiset<VectorStamp>| #[trigger] g(g(v, x), y) == g(g(v, y), x) by {
        assert(g(g(v, x), y) =~= g(g(v, y), x));
    }
    lemma_matrix_stamps_fold(first, n);
    lemma_matrix_stamps_fold(second, n);
    lemma_fold_left_permutation(first, second, f, Multiset::<MatrixStamp>::empty());
    lemma_vector_stamps_fold(first, n);
    lemma_vector_stamps_fold(second, n);
    lemma_fold_left_permutation(first, second, g, Multiset::<VectorStamp>::empty());
    lemma_entry_unordered(assembled_matrix(first, n), assembled_matrix(second, n), row, col, valuation);
    lemma_rhs_unordered(assembled_vector(first, n), assembled_vector(second, n), row, valuation);
}

/// The same elements in another order have the same solutions.
pub proof fn lemma_stamping_order_solutions(
    first: Seq<Element>,
    second: Seq<Element>,
    n: usize,
    m: nat,
    x: Seq<int>,
    valuation: spec_fn(Quantity) -> int,
)
    requires
        first.to_multiset() == second.to_multiset(),
    ensures
        solves(first, n, m, x, valuation) == solves(second, n, m, x, valuation),
{
    let cols = (n - 1 + m) as nat;
    assert forall|row: int| 0 <= row < n - 1 + m implies row_dot(
        assembled_matrix(first, n),
        row,
        x,
        valuation,
        cols,
    ) == row_dot(assembled_matrix(second, n), row, x, valuation, cols) && rhs(
        assembled_vector(first, n),
        row,
        valuation,
    ) == rhs(assembled_vector(second, n), row, valuation) by {
        assert forall|col: int| 0 <= col < cols implies #[trigger] entry(
            assembled_matrix(first, n),
            row,
            col,
            valuation,
        ) == entry(assembled_matrix(second, n), row, col, valuation) by {
            lemma_stamping_order(first, second, n, row, col, valuation);
        }
        lemma_row_dot_by_entries(
            assembled_matrix(first, n),
            assembled_matrix(second, n),
            row,
            x,
            valuation,
            cols,
        );
        lemma_stamping_order(first, second, n, row, 0, valuation);
    }
}

/// What a conductance of value `g` between the nodes of rows `first` and
/// `second` is worth in the cell `(row, col)`: `g` on the diagonal of each
/// end, `-g` in the two cells that couple the ends, where a missing row
/// stands for ground and takes its cells with it.
pub open spec fn conductance_entry(first: Option<usize>, second: Option<usize>, g: int, row: int, col: int) -> int {
    half_entry(first, second, g, row, col) + half_entry(second, first, g, row, col)
}

/// The part of [`conductance_entry`] that lies in the column of `from`.
pub open spec fn half_entry(from: Option<usize>, to: Option<usize>, g: int, row: int, col: int) -> int {
    match from {
        Some(a) => (if row == a && col == a {
            g
        } else {
            0
        }) + (match to {
            Some(b) => if row == b && col == a {
                -g
            } else {
                0
            },
            None => 0,
        }),
        None => 0,
    }
}

/// The stamps of a conductance in the column of one of its ends are worth
/// [`half_entry`].
proof fn lemma_half_entry(
    from: Option<usize>,
    to: Option<usize>,
    g: Quantity,
    row: int,
    col: int,
    valuation: spec_fn(Quantity) -> int,
)
    ensures
        entry(
            match from {
                Some(a) => conductance_half(a, to, g),
                None => Seq::<MatrixStamp>::empty(),
            },
            row,
            col,
            valuation,
        ) == half_entry(from, to, quantity_value(g, valuation), row, col),
{
    reveal_with_fuel(entry, 3);
    match from {
        Some(a) => {
            let stamps = conductance_half(a, to, g);
            match to {
                Some(b) => {
                    assert(stamps.drop_last() =~= seq![stamps[0]]);
                    assert(stamps.drop_last().drop_last() =~= Seq::<MatrixStamp>::empty());
                },
                None => {
                    assert(stamps.drop_last() =~= Seq::<MatrixStamp>::empty());
                },
            }
        },
        None => {},
    }
}

/// The conductance block is worth the conductance with the signs of
/// [`conductance_entry`].
pub proof fn lemma_conductance_entry(
    first: Option<usize>,
    second: Option<usize>,
    g: Quantity,
    row: int,
    col: int,
    valuation: spec_fn(Quantity) -> int,
)
    ensures
        entry(conductance_stamps(first, second, g), row, col, valuation) == conductance_entry(
            first,
            second,
            quantity_value(g, valuation),
            row,
            col,
        ),
{
    let head = match first {
        Some(a) => conductance_half(a, second, g),
        None => Seq::<MatrixStamp>::empty(),
    };
    let tail = match second {
        Some(b) => conductance_half(b, first, g),
        None => Seq::<MatrixStamp>::empty(),
    };
    lemma_entry_concat(head, tail, row, col, valuation);
    lemma_half_entry(first, second, g, row, col, valuation);
    lemma_half_entry(second, first, g, row, col, valuation);
}

/// What a resistance between two terminals is worth in the cell
/// `(row, col)`: its conductance, zero for a zero resistance, with the signs
/// of [`conductance_entry`].
pub proof fn lemma_shunt_entry(
    terminals: &[Terminal; 2],
    resistance: Scalar,
    row: int,
    col: int,
    valuation: spec_fn(Quantity) -> int,
)
    ensures
        entry(shunt_stamps(terminals, resistance), row, col, valuation) == conductance_entry(
            node_row(terminals[0].node),
            node_row(terminals[1].node),
            quantity_value(guarded_reciprocal(resistance), valuation),
            row,
            col,
        ),
{
    if !resistance.spec_is_zero() {
        lemma_conductance_entry(
            node_row(terminals[0].node),
            node_row(terminals[1].node),
            Quantity::Reciprocal(resistance),
            row,
            col,
            valuation,
        );
    }
}

/// Two resistors in parallel are one resistor of the sum of their
/// conductances.
///
/// Take a circuit with two resistors, one after the other, between the same
/// two nodes, and the circuit with a single resistor in their place. If the
/// conductance of the single resistor is the sum of the conductances of the
/// two, both circuits have the same value in every cell of the matrix and in
/// every row of the right-hand side: they have the same equations, and so
/// the same solutions.
pub proof fn lemma_parallel_resistors(
    before: Seq<Element>,
    after: Seq<Element>,
    first: Resistor,
    second: Resistor,
    single: Resistor,
    n: usize,
    row: int,
    col: int,
    valuation: spec_fn(Quantity) -> int,
)
    requires
        first.spec_terminals()[0].node == single.spec_terminals()[0].node,
        first.spec_terminals()[1].node == single.spec_terminals()[1].node,
        second.spec_terminals()[0].node == single.spec_terminals()[0].node,
        second.spec_terminals()[1].node == single.spec_terminals()[1].node,
        quantity_value(single.spec_conductance(), valuation) == quantity_value(
            first.spec_conductance(),
            valuation,
        ) + quantity_value(second.spec_conductance(), valuation),
    ensures
        entry(
            assembled_matrix(
                before + seq![Element::Resistor(first), Element::Resistor(second)] + after,
                n,
            ),
            row,
            col,
            valuation,
        ) == entry(
            assembled_matrix(before + seq![Element::Resistor(single)] + after, n),
            row,
            col,
            valuation,
        ),
        rhs(
            assembled_vector(
                before + seq![Element::Resistor(first), Element::Resistor(second)] + after,
                n,
            ),
            row,
            valuation,
        ) == rhs(
            assembled_vector(before + seq![Element::Resistor(single)] + after, n),
            row,
            valuation,
        ),
{
    let pair = seq![Element::Resistor(first), Element::Resistor(second)];
    let one = seq![Element::Resistor(single)];
    lemma_assembled_concat(before + pair, after, n);
    lemma_assembled_concat(before, pair, n);
    lemma_assembled_concat(before + one, after, n);
    lemma_assembled_concat(before, one, n);
    lemma_entry_concat(assembled_matrix(before + pair, n), assembled_matrix(after, n), row, col, valuation);
    lemma_entry_concat(assembled_matrix(before, n), assembled_matrix(pair, n), row, col, valuation);
    lemma_entry_concat(assembled_matrix(before + one, n), assembled_matrix(after, n), row, col, valuation);
    lemma_entry_concat(assembled_matrix(before, n), assembled_matrix(one, n), row, col, valuation);
    lemma_rhs_concat(assembled_vector(before + pair, n), assembled_vector(after, n), row, valuation);
    lemma_rhs_concat(assembled_vector(before, n), assembled_vector(pair, n), row, valuation);
    lemma_rhs_concat(assembled_vector(before + one, n), assembled_vector(after, n), row, valuation);
    lemma_rhs_concat(assembled_vector(before, n), assembled_vector(one, n), row, valuation);

    reveal_with_fuel(assembled_matrix, 3);
    reveal_with_fuel(assembled_vector, 3);
    assert(pair.drop_last() =~= seq![Element::Resistor(first)]);
    assert(pair.drop_last().drop_last() =~= Seq::<Element>::empty());
    assert(one.drop_last() =~= Seq::<Element>::empty());
    assert(assembled_matrix(pair, n) =~= pair[0].matrix_stamps(n) + pair[1].matrix_stamps(n));
    assert(assembled_matrix(one, n) =~= one[0].matrix_stamps(n));
    assert(assembled_vector(pair, n) =~= Seq::<VectorStamp>::empty());
    assert(assembled_vector(one, n) =~= Seq::<VectorStamp>::empty());
    lemma_entry_concat(pair[0].matrix_stamps(n), pair[1].matrix_stamps(n), row, col, valuation);
    lemma_shunt_entry(first.spec_terminals(), first.spec_resistance(), row, col, valuation);
    lemma_shunt_entry(second.spec_terminals(), second.spec_resistance(), row, col, valuation);
    lemma_shunt_entry(single.spec_terminals(), single.spec_resistance(), row, col, valuation);
}

/// Two resistors in parallel and the single resistor of the sum of their
/// conductances give the same solutions.
pub proof fn lemma_parallel_resistors_solutions(
    before: Seq<Element>,
    after: Seq<Element>,
    first: Resistor,
    second: Resistor,
    single: Resistor,
    n: usize,
    m: nat,
    x: Seq<int>,
    valuation: spec_fn(Quantity) -> int,
)
    requires
        first.spec_terminals()[0].node == single.spec_terminals()[0].node,
        first.spec_terminals()[1].node == single.spec_terminals()[1].node,
        second.spec_terminals()[0].node == single.spec_terminals()[0].node,
        second.spec_terminals()[1].node == single.spec_terminals()[1].node,
        quantity_value(single.spec_conductance(), valuation) == quantity_value(
            first.spec_conductance(),
            valuation,
        ) + quantity_value(second.spec_conductance(), valuation),
    ensures
        solves(
            before + seq![Element::Resistor(first), Element::Resistor(second)] + after,
            n,
            m,
            x,
            valuation,
        ) == solves(before + seq![Element::Resistor(single)] + after, n, m, x, valuation),
{
    let two = before + seq![Element::Resistor(first), Element::Resistor(second)] + after;
    let one = before + seq![Element::Resistor(single)] + after;
    let cols = (n - 1 + m) as nat;
    assert forall|row: int| 0 <= row < n - 1 + m implies row_dot(
        assembled_matrix(two, n),
        row,
        x,
        valuation,
        cols,
    ) == row_dot(assembled_matrix(one, n), row, x, valuation, cols) && rhs(
        assembled_vector(two, n),
        row,
        valuation,
    ) == rhs(assembled_vector(one, n), row, valuation) by {
        assert forall|col: int| 0 <= col < cols implies #[trigger] entry(
            assembled_matrix(two, n),
            row,
            col,
            valuation,
        ) == entry(assembled_matrix(one, n), row, col, valuation) by {
            lemma_parallel_resistors(before, after, first, second, single, n, row, col, valuation);
        }
        lemma_row_dot_by_entries(assembled_matrix(two, n), assembled_matrix(one, n), row, x, valuation, cols);
        lemma_parallel_resistors(before, after, first, second, single, n, row, 0, valuation);
    }
}

} // verus!
