//! The three shapes of contribution that an element makes to the system.
//!
//! Rows and columns are given as unknown indices. A node that is not part of
//! the unknowns, the ground, has none: it is passed as `None`, and whatever
//! would go to its row or column is left out.
use vstd::prelude::*;
use crate::scalar::{Quantity, Term};
use crate::system::{MatrixStamp, VectorStamp};

verus! {

/// What a conductance `g` from the node of row `from` to the node of row `to`
/// adds to the column of `from`: `+g` on the diagonal and, unless the far
/// end is ground, `-g` in the row of the far end.
pub open spec fn conductance_half(from: usize, to: Option<usize>, g: Quantity) -> Seq<MatrixStamp> {
    let diagonal = MatrixStamp { row: from, col: from, term: Term { negative: false, quantity: g } };
    match to {
        Some(far) => seq![
            diagonal,
            MatrixStamp { row: far, col: from, term: Term { negative: true, quantity: g } },
        ],
        None => seq![diagonal],
    }
}

/// The conductance block of a two-terminal branch: `+g` on the diagonal of
/// each end that is not ground, `-g` in the two cells that couple the ends
/// when neither is.
pub open spec fn conductance_stamps(first: Option<usize>, second: Option<usize>, g: Quantity) -> Seq<
    MatrixStamp,
> {
    let head = match first {
        Some(a) => conductance_half(a, second, g),
        None => Seq::<MatrixStamp>::empty(),
    };
    let tail = match second {
        Some(b) => conductance_half(b, first, g),
        None => Seq::<MatrixStamp>::empty(),
    };
    head + tail
}

/// The entry that ties the node of row `node` to the auxiliary unknown `aux`:
/// in the column of `aux`, or in its row when `transposed`.
pub open spec fn incidence_stamp(node: Option<usize>, term: Term, aux: usize, transposed: bool) -> Seq<
    MatrixStamp,
> {
    match node {
        Some(r) => if transposed {
            seq![MatrixStamp { row: aux, col: r, term }]
        } else {
            seq![MatrixStamp { row: r, col: aux, term }]
        },
        None => Seq::<MatrixStamp>::empty(),
    }
}

/// The incidence entries of a branch whose current is the unknown `aux`:
/// for each end that is not ground its term in the column of `aux`, then the
/// same in the row of `aux`.
pub open spec fn branch_stamps(
    first: Option<usize>,
    first_term: Term,
    second: Option<usize>,
    second_term: Term,
    aux: usize,
) -> Seq<MatrixStamp> {
    incidence_stamp(first, first_term, aux, false) + incidence_stamp(second, second_term, aux, false)
        + incidence_stamp(first, first_term, aux, true) + incidence_stamp(
        second,
        second_term,
        aux,
        true,
    )
}

/// `term` added to the right-hand side in the row of `node`, nothing for
/// ground.
pub open spec fn injection_stamp(node: Option<usize>, term: Term) -> Seq<VectorStamp> {
    match node {
        Some(r) => seq![VectorStamp { row: r, term }],
        None => Seq::<VectorStamp>::empty(),
    }
}

/// Appends [`conductance_half`] to `a_matrix`.
pub fn stamp_conductance_half(a_matrix: &mut Vec<MatrixStamp>, from: usize, to: Option<usize>, g: Quantity)
    ensures
        final(a_matrix)@ == old(a_matrix)@ + conductance_half(from, to, g),
{
    a_matrix.push(MatrixStamp { row: from, col: from, term: Term { negative: false, quantity: g } });
    match to {
        Some(far) => {
            a_matrix.push(MatrixStamp { row: far, col: from, term: Term { negative: true, quantity: g } });
        },
        None => {},
    }
    assert(a_matrix@ =~= old(a_matrix)@ + conductance_half(from, to, g));
}

/// Appends [`conductance_stamps`] to `a_matrix`.
pub fn stamp_conductance(
    a_matrix: &mut Vec<MatrixStamp>,
    first: Option<usize>,
    second: Option<usize>,
    g: Quantity,
)
    ensures
        final(a_matrix)@ == old(a_matrix)@ + conductance_stamps(first, second, g),
{
    match first {
        Some(a) => {
            stamp_conductance_half(a_matrix, a, second, g);
        },
        None => {},
    }
    match second {
        Some(b) => {
            stamp_conductance_half(a_matrix, b, first, g);
        },
        None => {},
    }
    assert(a_matrix@ =~= old(a_matrix)@ + conductance_stamps(first, second, g));
}

/// Appends [`incidence_stamp`] to `a_matrix`.
pub fn stamp_incidence(
    a_matrix: &mut Vec<MatrixStamp>,
    node: Option<usize>,
    term: Term,
    aux: usize,
    transposed: bool,
)
    ensures
        final(a_matrix)@ == old(a_matrix)@ + incidence_stamp(node, term, aux, transposed),
{
    match node {
        Some(r) => {
            if transposed {
                a_matrix.push(MatrixStamp { row: aux, col: r, term });
            } else {
                a_matrix.push(MatrixStamp { row: r, col: aux, term });
            }
        },
        None => {},
    }
    assert(a_matrix@ =~= old(a_matrix)@ + incidence_stamp(node, term, aux, transposed));
}

/// Appends [`branch_stamps`] to `a_matrix`.
pub fn stamp_branch(
    a_matrix: &mut Vec<MatrixStamp>,
    first: Option<usize>,
    first_term: Term,
    second: Option<usize>,
    second_term: Term,
    aux: usize,
)
    ensures
        final(a_matrix)@ == old(a_matrix)@ + branch_stamps(first, first_term, second, second_term, aux),
{
    stamp_incidence(a_matrix, first, first_term, aux, false);
    stamp_incidence(a_matrix, second, second_term, aux, false);
    stamp_incidence(a_matrix, first, first_term, aux, true);
    stamp_incidence(a_matrix, second, second_term, aux, true);
    assert(a_matrix@ =~= old(a_matrix)@ + branch_stamps(first, first_term, second, second_term, aux));
}

/// Appends [`injection_stamp`] to `z_vector`.
pub fn stamp_injection(z_vector: &mut Vec<VectorStamp>, node: Option<usize>, term: Term)
    ensures
        final(z_vector)@ == old(z_vector)@ + injection_stamp(node, term),
{
    match node {
        Some(r) => {
            z_vector.push(VectorStamp { row: r, term });
        },
        None => {},
    }
    assert(z_vector@ =~= old(z_vector)@ + injection_stamp(node, term));
}

/// The stamps of `stamps` that do not lie in the row `row`, in their order.
pub open spec fn without_row(stamps: Seq<VectorStamp>, row: usize) -> Seq<VectorStamp>
    decreases stamps.len(),
{
    if stamps.len() == 0 {
        Seq::<VectorStamp>::empty()
    } else if stamps.last().row == row {
        without_row(stamps.drop_last(), row)
    } else {
        without_row(stamps.drop_last(), row).push(stamps.last())
    }
}

/// A list without a stamp in the row `row` is left as it is.
pub proof fn lemma_without_row_free(stamps: Seq<VectorStamp>, row: usize)
    requires
        forall|i: int| 0 <= i < stamps.len() ==> (#[trigger] stamps[i]).row != row,
    ensures
        without_row(stamps, row) == stamps,
    decreases stamps.len(),
{
    if stamps.len() > 0 {
        lemma_without_row_free(stamps.drop_last(), row);
        assert(stamps.drop_last().push(stamps.last()) =~= stamps);
    }
}

/// Empties the row `row` of `z_vector`: every stamp in that row is taken
/// out, and the stamps of all other rows stay in their order.
pub fn clear_row(z_vector: &mut Vec<VectorStamp>, row: usize)
    ensures
        final(z_vector)@ == without_row(old(z_vector)@, row),
{
    let mut kept: Vec<VectorStamp> = Vec::new();
    let mut i: usize = 0;
    while i < z_vector.len()
        invariant
            i <= z_vector.len(),
            z_vector@ == old(z_vector)@,
            kept@ == without_row(z_vector@.take(i as int), row),
        decreases z_vector.len() - i,
    {
        assert(z_vector@.take(i + 1).drop_last() =~= z_vector@.take(i as int));
        let stamp: VectorStamp = z_vector[i];
        if stamp.row != row {
            kept.push(stamp);
        }
        i = i + 1;
    }
    assert(z_vector@.take(i as int) =~= z_vector@);
    *z_vector = kept;
}

} // verus!
