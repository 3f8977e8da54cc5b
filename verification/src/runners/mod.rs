//! The analyses that can be run on a circuit.
use vstd::prelude::*;
use crate::scalar::Scalar;
use crate::system::System;

pub mod dc;
pub mod dc_op;

verus! {

/// Why an analysis gave no result.
#[derive(Debug, Clone, Copy, PartialEq, Eq, Structural)]
pub enum RunnerError {
    /// The circuit has no node besides ground.
    ZeroNode,
    /// The circuit is malformed: its system has no unique finite solution,
    /// or, in a circuit given as a graph, an element has no terminal at a
    /// vertex of its edge.
    MalformedCircuit,
    /// An auxiliary index is out of range or is used by two elements.
    AuxiliaryIndex,
}

impl RunnerError {
    /// The message of the error.
    pub open spec fn spec_message(&self) -> Seq<char> {
        match self {
            RunnerError::ZeroNode => "at least one node is required to execute a runner"@,
            RunnerError::MalformedCircuit => "the circuit is malformed and cannot inverse the matrix"@,
            RunnerError::AuxiliaryIndex => "an auxiliary index is out of range or used twice"@,
        }
    }

    /// The message of the error.
    pub fn message(&self) -> (text: String)
        ensures
            text@ == self.spec_message(),
    {
        match self {
            RunnerError::ZeroNode => "at least one node is required to execute a runner".to_owned(),
            RunnerError::MalformedCircuit => "the circuit is malformed and cannot inverse the matrix".to_owned(),
            RunnerError::AuxiliaryIndex => "an auxiliary index is out of range or used twice".to_owned(),
        }
    }
}

/// Whether every number of `x` is finite.
pub open spec fn all_finite(x: Seq<Scalar>) -> bool {
    forall|i: int| 0 <= i < x.len() ==> (#[trigger] x[i]).spec_is_finite()
}

/// Whether `solved` is a solution that can be handed out for a system of
/// `size` unknowns: there is one, it has one number for each unknown, and
/// all of them are finite.
pub open spec fn acceptable(size: usize, solved: Option<Vec<Scalar>>) -> bool {
    solved matches Some(x) && x@.len() == size && all_finite(x@)
}

/// Decides what the analysis returns, given what the linear solver made of
/// `system`.
///
/// `solved` is `None` where the solver found the matrix singular, and the
/// solution vector otherwise. The vector is handed on as it is; a missing
/// vector, one of the wrong length, and one that holds an infinity or a NaN
/// are all reported as `MalformedCircuit`.
pub fn solution(system: &System, solved: Option<Vec<Scalar>>) -> (result: Result<Vec<Scalar>, RunnerError>)
    ensures
        match result {
            Ok(x) => acceptable(system.size, solved) && solved == Some(x),
            Err(e) => e == RunnerError::MalformedCircuit && !acceptable(system.size, solved),
        },
{
    match solved {
        Some(x) => {
            if x.len() != system.size {
                return Err(RunnerError::MalformedCircuit);
            }
            let mut i: usize = 0;
            while i < x.len()
                invariant
                    i <= x.len(),
                    solved == Some(x),
                    x@.len() == system.size,
                    all_finite(x@.take(i as int)),
                decreases x.len() - i,
            {
                if !x[i].is_finite() {
                    assert(!x@[i as int].spec_is_finite());
                    return Err(RunnerError::MalformedCircuit);
                }
                assert forall|j: int| 0 <= j < i + 1 implies (#[trigger] x@.take(i + 1)[j]).spec_is_finite() by {
                    if j < i {
                        assert(x@.take(i as int)[j].spec_is_finite());
                    }
                }
                i = i + 1;
            }
            assert(x@.take(i as int) =~= x@);
            Ok(x)
        },
        None => Err(RunnerError::MalformedCircuit),
    }
}

} // verus!
