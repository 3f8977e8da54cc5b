use vstd::prelude::*;
use crate::NodeId;
use crate::elements::{
    Polarity, Terminal, branch_matrix_stamps, branch_vector_set, branch_vector_stamps,
    stamp_voltage_branch,
};
use crate::scalar::{Impedance, Quantity, Scalar, Term};
use crate::system::{MatrixStamp, VectorStamp};

verus! {

/// An ideal inductor between two nodes.
///
/// In the steady state an inductor is a short circuit: a voltage source of
/// zero volts, whose current is an unknown of its own.
#[derive(Debug, Clone, Copy)]
pub struct Inductor {
    inductance: Scalar,
    terminals: [Terminal; 2],
    index: usize,
}

impl Inductor {
    /// `index` is the auxiliary index of the inductor's current: among the
    /// elements of one circuit that have such an unknown the indices are
    /// `0, 1, 2, ...`, each used once.
    pub fn new(inductance: Scalar, positive_node: NodeId, negative_node: NodeId, index: usize) -> (l:
        Inductor)
        ensures
            l.inductance() == inductance,
            l.index() == index,
            l.terminals()@ == seq![
                Terminal { node: positive_node, polarity: Polarity::Positive },
                Terminal { node: negative_node, polarity: Polarity::Negative },
            ],
    {
        Inductor {
            inductance,
            terminals: [
                Terminal::new(positive_node, Polarity::Positive),
                Terminal::new(negative_node, Polarity::Negative),
            ],
            index,
        }
    }

    pub closed spec fn spec_terminals(&self) -> &[Terminal; 2] {
        &self.terminals
    }

    /// The two ends of the inductor.
    #[verifier::when_used_as_spec(spec_terminals)]
    pub fn terminals(&self) -> (t: &[Terminal; 2])
        ensures
            t == self.spec_terminals(),
    {
        &self.terminals
    }

    pub closed spec fn spec_inductance(&self) -> Scalar {
        self.inductance
    }

    /// The inductance in henries.
    #[verifier::when_used_as_spec(spec_inductance)]
    pub fn inductance(&self) -> (l: Scalar)
        ensures
            l == self.spec_inductance(),
    {
        self.inductance
    }

    pub closed spec fn spec_index(&self) -> usize {
        self.index
    }

    /// The auxiliary index of the inductor's current.
    #[verifier::when_used_as_spec(spec_index)]
    pub fn index(&self) -> (k: usize)
        ensures
            k == self.spec_index(),
    {
        self.index
    }

    /// An inductor always has a current unknown of its own.
    pub open spec fn spec_is_b_c_element(&self) -> bool {
        true
    }

    #[verifier::when_used_as_spec(spec_is_b_c_element)]
    pub fn is_b_c_element(&self) -> (b: bool)
        ensures
            b == self.spec_is_b_c_element(),
    {
        true
    }

    /// The voltage across a steady inductor is zero.
    pub open spec fn spec_dc_voltage(&self) -> Scalar {
        Scalar::spec_zero()
    }

    #[verifier::when_used_as_spec(spec_dc_voltage)]
    pub fn dc_voltage(&self) -> (v: Scalar)
        ensures
            v == self.spec_dc_voltage(),
    {
        Scalar::zero()
    }

    /// An inductor is no current source.
    pub open spec fn spec_dc_current(&self) -> Scalar {
        Scalar::spec_zero()
    }

    #[verifier::when_used_as_spec(spec_dc_current)]
    pub fn dc_current(&self) -> (i: Scalar)
        ensures
            i == self.spec_dc_current(),
    {
        Scalar::zero()
    }

    /// An ideal inductor has no resistance.
    pub open spec fn spec_resistance(&self) -> Scalar {
        Scalar::spec_zero()
    }

    #[verifier::when_used_as_spec(spec_resistance)]
    pub fn resistance(&self) -> (r: Scalar)
        ensures
            r == self.spec_resistance(),
    {
        Scalar::zero()
    }

    /// Zero, by the rule for a zero resistance.
    pub open spec fn spec_conductance(&self) -> Quantity {
        Quantity::Zero
    }

    #[verifier::when_used_as_spec(spec_conductance)]
    pub fn conductance(&self) -> (g: Quantity)
        ensures
            g == self.spec_conductance(),
    {
        Quantity::Zero
    }

    /// No resistance, and the reactance `L w` at the angular frequency `w`.
    pub open spec fn spec_impedance(&self, frequency: Scalar) -> Impedance {
        Impedance {
            re: Term::spec_zero(),
            im: Term {
                negative: false,
                quantity: Quantity::Product { left: self.inductance(), right: frequency },
            },
        }
    }

    #[verifier::when_used_as_spec(spec_impedance)]
    pub fn impedance(&self, frequency: Scalar) -> (z: Impedance)
        ensures
            z == self.spec_impedance(frequency),
    {
        Impedance {
            re: Term::zero(),
            im: Term {
                negative: false,
                quantity: Quantity::Product { left: self.inductance, right: frequency },
            },
        }
    }

    /// The signs of the terminals in the column and row of the current.
    pub open spec fn matrix_stamps(&self, n: usize) -> Seq<MatrixStamp> {
        branch_matrix_stamps(self.terminals(), n, self.index())
    }

    /// Zero volts in the row of the current.
    pub open spec fn vector_stamps(&self, n: usize) -> Seq<VectorStamp> {
        branch_vector_stamps(Scalar::spec_zero(), n, self.index())
    }

    /// Stamps the inductor as a source of zero volts: the signs of its
    /// terminals are appended to `a_matrix`, and the row of its current in
    /// `z_vector` is set to zero volts, whatever it held.
    #[allow(unused_variables)]
    pub fn stamp(&self, a_matrix: &mut Vec<MatrixStamp>, z_vector: &mut Vec<VectorStamp>, n: usize, m: usize)
        requires
            n >= 1,
            n - 1 + self.index() <= usize::MAX,
        ensures
            final(a_matrix)@ == old(a_matrix)@ + self.matrix_stamps(n),
            final(z_vector)@ == branch_vector_set(old(z_vector)@, Scalar::spec_zero(), n, self.index()),
    {
        stamp_voltage_branch(a_matrix, z_vector, &self.terminals, Scalar::zero(), n, self.index);
    }
}

} // verus!
