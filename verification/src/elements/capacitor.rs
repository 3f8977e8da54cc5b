use vstd::prelude::*;
use crate::NodeId;
use crate::elements::{Polarity, Terminal, guarded_reciprocal, reciprocal, shunt_stamps, stamp_shunt};
use crate::scalar::{Impedance, Quantity, Scalar, Term};
use crate::system::{MatrixStamp, VectorStamp};

verus! {

/// A capacitor between two nodes.
///
/// In the steady state a capacitor carries no current. It is stamped as a
/// resistor of a very large resistance, which keeps the node behind it tied
/// to the rest of the circuit. That resistance is the largest finite number
/// unless [`Capacitor::with_open_resistance`] sets another.
#[derive(Debug, Clone, Copy)]
pub struct Capacitor {
    capacitance: Scalar,
    terminals: [Terminal; 2],
    open_resistance: Scalar,
}

impl Capacitor {
    /// A capacitor between the two nodes. As a passive element it has two
    /// neutral terminals, at the first and at the second node in this order.
    pub fn new(capacitance: Scalar, positive_node: NodeId, negative_node: NodeId) -> (c: Capacitor)
        ensures
            c.capacitance() == capacitance,
            c.resistance() == Scalar::spec_largest(),
            c.terminals()@ == seq![
                Terminal { node: positive_node, polarity: Polarity::Neutral },
                Terminal { node: negative_node, polarity: Polarity::Neutral },
            ],
    {
        Capacitor {
            capacitance,
            terminals: [
                Terminal::new(positive_node, Polarity::Neutral),
                Terminal::new(negative_node, Polarity::Neutral),
            ],
            open_resistance: Scalar::largest(),
        }
    }

    /// The same capacitor, stamped with `resistance` in place of the
    /// largest finite number.
    #[must_use]
    pub fn with_open_resistance(self, resistance: Scalar) -> (c: Capacitor)
        ensures
            c.capacitance() == self.capacitance(),
            c.terminals() == self.terminals(),
            c.resistance() == resistance,
    {
        Capacitor { capacitance: self.capacitance, terminals: self.terminals, open_resistance: resistance }
    }

    pub closed spec fn spec_terminals(&self) -> &[Terminal; 2] {
        &self.terminals
    }

    /// The two ends of the capacitor.
    #[verifier::when_used_as_spec(spec_terminals)]
    pub fn terminals(&self) -> (t: &[Terminal; 2])
        ensures
            t == self.spec_terminals(),
    {
        &self.terminals
    }

    pub closed spec fn spec_capacitance(&self) -> Scalar {
        self.capacitance
    }

    /// The capacitance in farads.
    #[verifier::when_used_as_spec(spec_capacitance)]
    pub fn capacitance(&self) -> (c: Scalar)
        ensures
            c == self.spec_capacitance(),
    {
        self.capacitance
    }

    pub closed spec fn spec_resistance(&self) -> Scalar {
        self.open_resistance
    }

    /// The resistance that stands for the open circuit.
    #[verifier::when_used_as_spec(spec_resistance)]
    pub fn resistance(&self) -> (r: Scalar)
        ensures
            r == self.spec_resistance(),
    {
        self.open_resistance
    }

    /// A capacitor is no voltage source.
    pub open spec fn spec_dc_voltage(&self) -> Scalar {
        Scalar::spec_zero()
    }

    #[verifier::when_used_as_spec(spec_dc_voltage)]
    pub fn dc_voltage(&self) -> (v: Scalar)
        ensures
            v == self.spec_dc_voltage(),
    {
        Scalar::zero()
    }

    /// A capacitor is no current source.
    pub open spec fn spec_dc_current(&self) -> Scalar {
        Scalar::spec_zero()
    }

    #[verifier::when_used_as_spec(spec_dc_current)]
    pub fn dc_current(&self) -> (i: Scalar)
        ensures
            i == self.spec_dc_current(),
    {
        Scalar::zero()
    }

    /// The reciprocal of the open-circuit resistance, and zero when that
    /// resistance is.
    pub open spec fn spec_conductance(&self) -> Quantity {
        guarded_reciprocal(self.resistance())
    }

    #[verifier::when_used_as_spec(spec_conductance)]
    pub fn conductance(&self) -> (g: Quantity)
        ensures
            g == self.spec_conductance(),
    {
        reciprocal(self.open_resistance)
    }

    /// No resistance, and the reactance `-1 / (C w)` at the angular
    /// frequency `w`.
    pub open spec fn spec_impedance(&self, frequency: Scalar) -> Impedance {
        Impedance {
            re: Term::spec_zero(),
            im: Term {
                negative: true,
                quantity: Quantity::ProductReciprocal { left: self.capacitance(), right: frequency },
            },
        }
    }

    #[verifier::when_used_as_spec(spec_impedance)]
    pub fn impedance(&self, frequency: Scalar) -> (z: Impedance)
        ensures
            z == self.spec_impedance(frequency),
    {
        Impedance {
            re: Term::zero(),
            im: Term {
                negative: true,
                quantity: Quantity::ProductReciprocal { left: self.capacitance, right: frequency },
            },
        }
    }

    /// The conductance block of the open-circuit resistance.
    pub open spec fn matrix_stamps(&self) -> Seq<MatrixStamp> {
        shunt_stamps(self.terminals(), self.resistance())
    }

    /// Stamps the capacitor as a resistor of its open-circuit resistance.
    #[allow(unused_variables)]
    pub fn stamp(&self, a_matrix: &mut Vec<MatrixStamp>, z_vector: &mut Vec<VectorStamp>, n: usize, m: usize)
        ensures
            final(a_matrix)@ == old(a_matrix)@ + self.matrix_stamps(),
            final(z_vector)@ == old(z_vector)@,
    {
        stamp_shunt(a_matrix, &self.terminals, self.open_resistance);
    }
}

} // verus!
