//! The assembled linear system `A x = z` in coordinate form.
//!
//! Every contribution of an element is recorded as one entry of a list, with
//! the cell it goes to and the signed quantity to add there. The value of a
//! cell is the sum of the entries that name it, in list order. Stamping
//! takes no entry of another element away: it appends, but for the row of
//! the right-hand side that belongs to an element's own current, which that
//! element sets.
use vstd::prelude::*;
use crate::scalar::Term;

verus! {

/// One contribution to the cell `(row, col)` of the system matrix.
#[derive(Clone, Copy, Debug, PartialEq, Eq, Structural)]
pub struct MatrixStamp {
    pub row: usize,
    pub col: usize,
    pub term: Term,
}

/// One contribution to the row `row` of the right-hand side.
#[derive(Clone, Copy, Debug, PartialEq, Eq, Structural)]
pub struct VectorStamp {
    pub row: usize,
    pub term: Term,
}

/// Whether every stamp of `stamps` lies inside a `size` by `size` matrix.
pub open spec fn matrix_within(stamps: Seq<MatrixStamp>, size: int) -> bool {
    forall|i: int| 0 <= i < stamps.len() ==> (#[trigger] stamps[i]).row < size && stamps[i].col < size
}

/// Whether every stamp of `stamps` lies inside a vector of length `size`.
pub open spec fn vector_within(stamps: Seq<VectorStamp>, size: int) -> bool {
    forall|i: int| 0 <= i < stamps.len() ==> (#[trigger] stamps[i]).row < size
}

/// A square system of `size` equations in `size` unknowns.
#[derive(Debug)]
pub struct System {
    /// Number of unknowns.
    pub size: usize,
    /// Contributions to the matrix `A`, in stamping order.
    pub matrix: Vec<MatrixStamp>,
    /// Contributions to the right-hand side `z`, in stamping order.
    pub vector: Vec<VectorStamp>,
}

impl System {
    /// Every stamp names a cell that exists.
    pub open spec fn well_formed(&self) -> bool {
        &&& matrix_within(self.matrix@, self.size as int)
        &&& vector_within(self.vector@, self.size as int)
    }

    /// The number of cells of the matrix, if a machine integer holds it.
    pub fn cell_count(&self) -> (count: Option<usize>)
        ensures
            count == if self.size * self.size <= usize::MAX {
                Some((self.size * self.size) as usize)
            } else {
                None
            },
    {
        self.size.checked_mul(self.size)
    }

    /// The place of the cell `(row, col)` in the matrix laid out as one
    /// array, column after column.
    pub open spec fn spec_cell_index(&self, row: usize, col: usize) -> Option<usize> {
        if row < self.size && col < self.size && self.size * self.size <= usize::MAX {
            Some((col * self.size + row) as usize)
        } else {
            None
        }
    }

    /// The place of the cell `(row, col)` in the matrix laid out as one
    /// array of [`System::cell_count`] numbers, column after column; none
    /// for a cell outside the matrix, or where there is no such array.
    #[verifier::when_used_as_spec(spec_cell_index)]
    pub fn cell_index(&self, row: usize, col: usize) -> (index: Option<usize>)
        ensures
            index == self.spec_cell_index(row, col),
            index matches Some(i) ==> i < self.size * self.size,
    {
        if row >= self.size || col >= self.size {
            return None;
        }
        match self.size.checked_mul(self.size) {
            Some(count) => {
                assert(col * self.size + row < self.size * self.size) by (nonlinear_arith)
                    requires
                        row < self.size,
                        col < self.size,
                ;
                assert(col * self.size <= col * self.size + row);
                Some(col * self.size + row)
            },
            None => None,
        }
    }
}

} // verus!
