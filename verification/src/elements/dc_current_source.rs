use vstd::prelude::*;
use crate::NodeId;
use crate::elements::{
    Polarity, Terminal, guarded_reciprocal, reciprocal, source_stamps, stamp_source,
};
use crate::scalar::{Impedance, Quantity, Scalar};
use crate::system::{MatrixStamp, VectorStamp};

verus! {

/// A source of constant current between two nodes.
///
/// The current flows through the source from the negative to the positive
/// terminal: it is injected into the node of the positive terminal and drawn
/// from the node of the negative one. A resistance may stand in parallel.
/// The system of the operating point takes the source as ideal and leaves
/// that resistance out; the nodal analysis of a graph takes it in.
#[derive(Debug, Clone, Copy)]
pub struct DCCurrentSource {
    current: Scalar,
    terminals: [Terminal; 2],
    resistance: Scalar,
}

impl DCCurrentSource {
    pub fn new(current: Scalar, positive_node: NodeId, negative_node: NodeId) -> (i: DCCurrentSource)
        ensures
            i.dc_current() == current,
            i.resistance() == Scalar::spec_zero(),
            i.terminals()@ == seq![
                Terminal { node: positive_node, polarity: Polarity::Positive },
                Terminal { node: negative_node, polarity: Polarity::Negative },
            ],
    {
        DCCurrentSource {
            current,
            terminals: [
                Terminal::new(positive_node, Polarity::Positive),
                Terminal::new(negative_node, Polarity::Negative),
            ],
            resistance: Scalar::zero(),
        }
    }

    /// The same source with `resistance` in parallel.
    #[must_use]
    pub fn with_resistance(self, resistance: Scalar) -> (i: DCCurrentSource)
        ensures
            i.dc_current() == self.dc_current(),
            i.terminals() == self.terminals(),
            i.resistance() == resistance,
    {
        DCCurrentSource { current: self.current, terminals: self.terminals, resistance }
    }

    pub closed spec fn spec_terminals(&self) -> &[Terminal; 2] {
        &self.terminals
    }

    /// The two ends of the source, the positive one first.
    #[verifier::when_used_as_spec(spec_terminals)]
    pub fn terminals(&self) -> (t: &[Terminal; 2])
        ensures
            t == self.spec_terminals(),
    {
        &self.terminals
    }

    /// A current source is no voltage source.
    pub open spec fn spec_dc_voltage(&self) -> Scalar {
        Scalar::spec_zero()
    }

    #[verifier::when_used_as_spec(spec_dc_voltage)]
    pub fn dc_voltage(&self) -> (v: Scalar)
        ensures
            v == self.spec_dc_voltage(),
    {
        Scalar::zero()
    }

    pub closed spec fn spec_dc_current(&self) -> Scalar {
        self.current
    }

    /// The source current in amperes.
    #[verifier::when_used_as_spec(spec_dc_current)]
    pub fn dc_current(&self) -> (i: Scalar)
        ensures
            i == self.spec_dc_current(),
    {
        self.current
    }

    pub closed spec fn spec_resistance(&self) -> Scalar {
        self.resistance
    }

    /// The parallel resistance in ohms, zero where there is none.
    #[verifier::when_used_as_spec(spec_resistance)]
    pub fn resistance(&self) -> (r: Scalar)
        ensures
            r == self.spec_resistance(),
    {
        self.resistance
    }

    /// The reciprocal of the parallel resistance, and zero where there is
    /// none.
    pub open spec fn spec_conductance(&self) -> Quantity {
        guarded_reciprocal(self.resistance())
    }

    #[verifier::when_used_as_spec(spec_conductance)]
    pub fn conductance(&self) -> (g: Quantity)
        ensures
            g == self.spec_conductance(),
    {
        reciprocal(self.resistance)
    }

    /// Zero at every frequency.
    pub open spec fn spec_impedance(&self, frequency: Scalar) -> Impedance {
        Impedance::spec_zero()
    }

    #[verifier::when_used_as_spec(spec_impedance)]
    pub fn impedance(&self, frequency: Scalar) -> (z: Impedance)
        ensures
            z == self.spec_impedance(frequency),
    {
        Impedance::zero()
    }

    /// The source current, signed, at each terminal.
    pub open spec fn vector_stamps(&self) -> Seq<VectorStamp> {
        source_stamps(self.terminals(), Quantity::Value(self.dc_current()))
    }

    /// Adds the source current to `z_vector`, with the sign of each terminal,
    /// and leaves `a_matrix` as it is.
    #[allow(unused_variables)]
    pub fn stamp(&self, a_matrix: &mut Vec<MatrixStamp>, z_vector: &mut Vec<VectorStamp>, n: usize, m: usize)
        ensures
            final(a_matrix)@ == old(a_matrix)@,
            final(z_vector)@ == old(z_vector)@ + self.vector_stamps(),
    {
        stamp_source(z_vector, &self.terminals, Quantity::Value(self.current));
    }
}

} // verus!
