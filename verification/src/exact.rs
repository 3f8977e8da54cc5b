//! The assembled equations read in exact arithmetic.
//!
//! The library hands out sums that somebody else evaluates in floating
//! point. This module says what these sums mean before any rounding: a
//! valuation gives every quantity an exact value, a cell of the system is
//! worth the sum of its stamps, and a vector solves the system if in every
//! row the cells times the unknowns add up to the right-hand side.
//!
//! Values are taken in the integers. The equations that [`crate::kirchhoff`]
//! and [`crate::equivalence`] prove on this ground are identities between
//! polynomials in the values of the quantities and in the unknowns, with
//! integer coefficients; an identity of that kind that holds for all
//! integers holds in every commutative ring, the real numbers among them.
use vstd::prelude::*;
use vstd::seq_lib::{commutative_foldl, lemma_fold_left_permutation};
use crate::elements::Element;
use crate::runners::dc_op::{assembled_matrix, assembled_vector};
use crate::scalar::{Quantity, Term};
use crate::system::{MatrixStamp, VectorStamp};

verus! {

/// The value of `quantity` where `valuation` gives the value of every
/// quantity but the two constants.
pub open spec fn quantity_value(quantity: Quantity, valuation: spec_fn(Quantity) -> int) -> int {
    match quantity {
        Quantity::Zero => 0,
        Quantity::One => 1,
        _ => valuation(quantity),
    }
}

/// The value of a term: that of its quantity, with its sign.
pub open spec fn term_value(term: Term, valuation: spec_fn(Quantity) -> int) -> int {
    if term.negative {
        -quantity_value(term.quantity, valuation)
    } else {
        quantity_value(term.quantity, valuation)
    }
}

/// What `stamp` adds to the cell `(row, col)`.
pub open spec fn matrix_share(stamp: MatrixStamp, row: int, col: int, valuation: spec_fn(Quantity) -> int) -> int {
    if stamp.row == row && stamp.col == col {
        term_value(stamp.term, valuation)
    } else {
        0
    }
}

/// What `stamp` adds to the row `row` of the right-hand side.
pub open spec fn vector_share(stamp: VectorStamp, row: int, valuation: spec_fn(Quantity) -> int) -> int {
    if stamp.row == row {
        term_value(stamp.term, valuation)
    } else {
        0
    }
}

/// The value of the cell `(row, col)` of the matrix: the sum of the stamps
/// that name the cell.
pub open spec fn entry(stamps: Seq<MatrixStamp>, row: int, col: int, valuation: spec_fn(Quantity) -> int) -> int
    decreases stamps.len(),
{
    if stamps.len() == 0 {
        0
    } else {
        entry(stamps.drop_last(), row, col, valuation) + matrix_share(stamps.last(), row, col, valuation)
    }
}

/// The value of the row `row` of the right-hand side: the sum of the stamps
/// that name the row.
pub open spec fn rhs(stamps: Seq<VectorStamp>, row: int, valuation: spec_fn(Quantity) -> int) -> int
    decreases stamps.len(),
{
    if stamps.len() == 0 {
        0
    } else {
        rhs(stamps.drop_last(), row, valuation) + vector_share(stamps.last(), row, valuation)
    }
}

/// The value of a cell of two lists of stamps, one after the other, is the
/// sum of its values in the two.
pub proof fn lemma_entry_concat(
    head: Seq<MatrixStamp>,
    tail: Seq<MatrixStamp>,
    row: int,
    col: int,
    valuation: spec_fn(Quantity) -> int,
)
    ensures
        entry(head + tail, row, col, valuation) == entry(head, row, col, valuation) + entry(
            tail,
            row,
            col,
            valuation,
        ),
    decreases tail.len(),
{
    if tail.len() == 0 {
        assert(head + tail =~= head);
    } else {
        assert((head + tail).drop_last() =~= head + tail.drop_last());
        lemma_entry_concat(head, tail.drop_last(), row, col, valuation);
    }
}

/// The value of a row of two lists of stamps, one after the other, is the
/// sum of its values in the two.
pub proof fn lemma_rhs_concat(
    head: Seq<VectorStamp>,
    tail: Seq<VectorStamp>,
    row: int,
    valuation: spec_fn(Quantity) -> int,
)
    ensures
        rhs(head + tail, row, valuation) == rhs(head, row, valuation) + rhs(tail, row, valuation),
    decreases tail.len(),
{
    if tail.len() == 0 {
        assert(head + tail =~= head);
    } else {
        assert((head + tail).drop_last() =~= head + tail.drop_last());
        lemma_rhs_concat(head, tail.drop_last(), row, valuation);
    }
}

/// The value of a cell depends on which stamps there are, not on their
/// order.
pub proof fn lemma_entry_unordered(
    first: Seq<MatrixStamp>,
    second: Seq<MatrixStamp>,
    row: int,
    col: int,
    valuation: spec_fn(Quantity) -> int,
)
    requires
        first.to_multiset() == second.to_multiset(),
    ensures
        entry(first, row, col, valuation) == entry(second, row, col, valuation),
{
    let f = |sum: int, stamp: MatrixStamp| sum + matrix_share(stamp, row, col, valuation);
    lemma_entry_folds(first, row, col, valuation);
    lemma_entry_folds(second, row, col, valuation);
    assert(commutative_foldl(f));
    lemma_fold_left_permutation(first, second, f, 0int);
}

/// The value of a cell as a fold over the stamps.
proof fn lemma_entry_folds(stamps: Seq<MatrixStamp>, row: int, col: int, valuation: spec_fn(Quantity) -> int)
    ensures
        entry(stamps, row, col, valuation) == stamps.fold_left(
            0int,
            |sum: int, stamp: MatrixStamp| sum + matrix_share(stamp, row, col, valuation),
        ),
    decreases stamps.len(),
{
    if stamps.len() > 0 {
        lemma_entry_folds(stamps.drop_last(), row, col, valuation);
    }
}

/// The value of a row of the right-hand side depends on which stamps there
/// are, not on their order.
pub proof fn lemma_rhs_unordered(
    first: Seq<VectorStamp>,
    second: Seq<VectorStamp>,
    row: int,
    valuation: spec_fn(Quantity) -> int,
)
    requires
        first.to_multiset() == second.to_multiset(),
    ensures
        rhs(first, row, valuation) == rhs(second, row, valuation),
{
    let f = |sum: int, stamp: VectorStamp| sum + vector_share(stamp, row, valuation);
    lemma_rhs_folds(first, row, valuation);
    lemma_rhs_folds(second, row, valuation);
    assert(commutative_foldl(f));
    lemma_fold_left_permutation(first, second, f, 0int);
}

/// The value of a row of the right-hand side as a fold over the stamps.
proof fn lemma_rhs_folds(stamps: Seq<VectorStamp>, row: int, valuation: spec_fn(Quantity) -> int)
    ensures
        rhs(stamps, row, valuation) == stamps.fold_left(
            0int,
            |sum: int, stamp: VectorStamp| sum + vector_share(stamp, row, valuation),
        ),
    decreases stamps.len(),
{
    if stamps.len() > 0 {
        lemma_rhs_folds(stamps.drop_last(), row, valuation);
    }
}

/// The left-hand side of the equation `row`: the sum, over the first `cols`
/// unknowns, of the cell in that row times the unknown.
pub open spec fn row_dot(
    stamps: Seq<MatrixStamp>,
    row: int,
    x: Seq<int>,
    valuation: spec_fn(Quantity) -> int,
    cols: nat,
) -> int
    decreases cols,
{
    if cols == 0 {
        0
    } else {
        row_dot(stamps, row, x, valuation, (cols - 1) as nat) + entry(stamps, row, cols - 1, valuation)
            * x[cols - 1]
    }
}

/// The left-hand side of an equation is additive in the stamps.
pub proof fn lemma_row_dot_concat(
    head: Seq<MatrixStamp>,
    tail: Seq<MatrixStamp>,
    row: int,
    x: Seq<int>,
    valuation: spec_fn(Quantity) -> int,
    cols: nat,
)
    ensures
        row_dot(head + tail, row, x, valuation, cols) == row_dot(head, row, x, valuation, cols)
            + row_dot(tail, row, x, valuation, cols),
    decreases cols,
{
    if cols > 0 {
        lemma_row_dot_concat(head, tail, row, x, valuation, (cols - 1) as nat);
        lemma_entry_concat(head, tail, row, cols - 1, valuation);
        let a = entry(head, row, cols - 1, valuation);
        let b = entry(tail, row, cols - 1, valuation);
        let u = x[cols - 1];
        assert((a + b) * u == a * u + b * u) by (nonlinear_arith);
    }
}

/// Without stamps the left-hand side is zero.
pub proof fn lemma_row_dot_empty(row: int, x: Seq<int>, valuation: spec_fn(Quantity) -> int, cols: nat)
    ensures
        row_dot(Seq::<MatrixStamp>::empty(), row, x, valuation, cols) == 0,
    decreases cols,
{
    if cols > 0 {
        lemma_row_dot_empty(row, x, valuation, (cols - 1) as nat);
    }
}

/// A single stamp in the row `row` adds its value times the unknown of its
/// column; a stamp in another row adds nothing.
pub proof fn lemma_row_dot_one(
    stamp: MatrixStamp,
    row: int,
    x: Seq<int>,
    valuation: spec_fn(Quantity) -> int,
    cols: nat,
)
    ensures
        row_dot(seq![stamp], row, x, valuation, cols) == if stamp.row == row && stamp.col < cols {
            term_value(stamp.term, valuation) * x[stamp.col as int]
        } else {
            0
        },
    decreases cols,
{
    reveal_with_fuel(entry, 2);
    if cols > 0 {
        lemma_row_dot_one(stamp, row, x, valuation, (cols - 1) as nat);
        assert(seq![stamp].drop_last() =~= Seq::<MatrixStamp>::empty());
        assert(entry(seq![stamp], row, cols - 1, valuation) == matrix_share(
            stamp,
            row,
            cols - 1,
            valuation,
        ));
    }
}

/// The left-hand side of an equation depends on the stamps through the
/// values of the cells alone.
pub proof fn lemma_row_dot_by_entries(
    first: Seq<MatrixStamp>,
    second: Seq<MatrixStamp>,
    row: int,
    x: Seq<int>,
    valuation: spec_fn(Quantity) -> int,
    cols: nat,
)
    requires
        forall|col: int|
            0 <= col < cols ==> #[trigger] entry(first, row, col, valuation) == entry(
                second,
                row,
                col,
                valuation,
            ),
    ensures
        row_dot(first, row, x, valuation, cols) == row_dot(second, row, x, valuation, cols),
    decreases cols,
{
    if cols > 0 {
        lemma_row_dot_by_entries(first, second, row, x, valuation, (cols - 1) as nat);
        assert(entry(first, row, cols - 1, valuation) == entry(second, row, cols - 1, valuation));
    }
}

/// Whether `x` solves every equation of the system of `elements` in a
/// circuit of `n` nodes and `m` auxiliary unknowns.
pub open spec fn solves(
    elements: Seq<Element>,
    n: usize,
    m: nat,
    x: Seq<int>,
    valuation: spec_fn(Quantity) -> int,
) -> bool {
    &&& x.len() == n - 1 + m
    &&& forall|row: int|
        0 <= row < n - 1 + m ==> #[trigger] row_dot(
            assembled_matrix(elements, n),
            row,
            x,
            valuation,
            (n - 1 + m) as nat,
        ) == rhs(assembled_vector(elements, n), row, valuation)
}

/// The stamps of two lists of elements, one after the other, are the stamps
/// of the first followed by those of the second.
pub proof fn lemma_assembled_concat(head: Seq<Element>, tail: Seq<Element>, n: usize)
    ensures
        assembled_matrix(head + tail, n) == assembled_matrix(head, n) + assembled_matrix(tail, n),
        assembled_vector(head + tail, n) == assembled_vector(head, n) + assembled_vector(tail, n),
    decreases tail.len(),
{
    if tail.len() == 0 {
        assert(head + tail =~= head);
        assert(assembled_matrix(head, n) + assembled_matrix(tail, n) =~= assembled_matrix(head, n));
        assert(assembled_vector(head, n) + assembled_vector(tail, n) =~= assembled_vector(head, n));
    } else {
        assert((head + tail).drop_last() =~= head + tail.drop_last());
        lemma_assembled_concat(head, tail.drop_last(), n);
        assert(assembled_matrix(head + tail, n) =~= assembled_matrix(head, n) + assembled_matrix(tail, n));
        assert(assembled_vector(head + tail, n) =~= assembled_vector(head, n) + assembled_vector(tail, n));
    }
}

} // verus!
