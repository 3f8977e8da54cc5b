use vstd::prelude::*;
use crate::NodeId;
use crate::elements::{Polarity, Terminal, guarded_reciprocal, reciprocal, shunt_stamps, stamp_shunt};
use crate::scalar::{Impedance, Quantity, Scalar, Term};
use crate::system::{MatrixStamp, VectorStamp};

verus! {

/// An ohmic resistor between two nodes.
#[derive(Debug, Clone, Copy)]
pub struct Resistor {
    resistance: Scalar,
    terminals: [Terminal; 2],
}

impl Resistor {
    pub fn new(resistance: Scalar, node1: NodeId, node2: NodeId) -> (r: Resistor)
        ensures
            r.resistance() == resistance,
            r.terminals()@ == seq![
                Terminal { node: node1, polarity: Polarity::Neutral },
                Terminal { node: node2, polarity: Polarity::Neutral },
            ],
    {
        Resistor {
            resistance,
            terminals: [
                Terminal::new(node1, Polarity::Neutral),
                Terminal::new(node2, Polarity::Neutral),
            ],
        }
    }

    pub closed spec fn spec_terminals(&self) -> &[Terminal; 2] {
        &self.terminals
    }

    /// The two ends of the resistor.
    #[verifier::when_used_as_spec(spec_terminals)]
    pub fn terminals(&self) -> (t: &[Terminal; 2])
        ensures
            t == self.spec_terminals(),
    {
        &self.terminals
    }

    pub closed spec fn spec_resistance(&self) -> Scalar {
        self.resistance
    }

    /// The resistance in ohms.
    #[verifier::when_used_as_spec(spec_resistance)]
    pub fn resistance(&self) -> (r: Scalar)
        ensures
            r == self.spec_resistance(),
    {
        self.resistance
    }

    /// A resistor is no voltage source.
    pub open spec fn spec_dc_voltage(&self) -> Scalar {
        Scalar::spec_zero()
    }

    #[verifier::when_used_as_spec(spec_dc_voltage)]
    pub fn dc_voltage(&self) -> (v: Scalar)
        ensures
            v == self.spec_dc_voltage(),
    {
        Scalar::zero()
    }

    /// A resistor is no current source.
    pub open spec fn spec_dc_current(&self) -> Scalar {
        Scalar::spec_zero()
    }

    #[verifier::when_used_as_spec(spec_dc_current)]
    pub fn dc_current(&self) -> (i: Scalar)
        ensures
            i == self.spec_dc_current(),
    {
        Scalar::zero()
    }

    /// The reciprocal of the resistance, and zero when the resistance is.
    pub open spec fn spec_conductance(&self) -> Quantity {
        guarded_reciprocal(self.resistance())
    }

    #[verifier::when_used_as_spec(spec_conductance)]
    pub fn conductance(&self) -> (g: Quantity)
        ensures
            g == self.spec_conductance(),
    {
        reciprocal(self.resistance)
    }

    /// The resistance, with no reactance, at every frequency.
    pub open spec fn spec_impedance(&self, frequency: Scalar) -> Impedance {
        Impedance {
            re: Term { negative: false, quantity: Quantity::Value(self.resistance()) },
            im: Term::spec_zero(),
        }
    }

    #[verifier::when_used_as_spec(spec_impedance)]
    pub fn impedance(&self, frequency: Scalar) -> (z: Impedance)
        ensures
            z == self.spec_impedance(frequency),
    {
        Impedance {
            re: Term { negative: false, quantity: Quantity::Value(self.resistance) },
            im: Term::zero(),
        }
    }

    /// The conductance block between the two terminals.
    pub open spec fn matrix_stamps(&self) -> Seq<MatrixStamp> {
        shunt_stamps(self.terminals(), self.resistance())
    }

    /// Adds the conductance of the resistor to `a_matrix`; `z_vector` is left
    /// as it is.
    #[allow(unused_variables)]
    pub fn stamp(&self, a_matrix: &mut Vec<MatrixStamp>, z_vector: &mut Vec<VectorStamp>, n: usize, m: usize)
        ensures
            final(a_matrix)@ == old(a_matrix)@ + self.matrix_stamps(),
            final(z_vector)@ == old(z_vector)@,
    {
        stamp_shunt(a_matrix, &self.terminals, self.resistance);
    }
}

} // verus!
