use vstd::prelude::*;
use crate::NodeId;
use crate::elements::{Polarity, Terminal};
use crate::scalar::{Impedance, Phasor, Quantity, Scalar, Term};
use crate::system::{MatrixStamp, VectorStamp};

verus! {

/// A source of alternating voltage between two nodes.
///
/// It has no part in the steady state and stamps nothing. Its voltage and
/// its internal impedance, zero unless
/// [`ACVoltageSource::with_impedance`] sets one, are there for queries in
/// the frequency domain.
#[derive(Debug, Clone, Copy)]
pub struct ACVoltageSource {
    voltage: Phasor,
    terminals: [Terminal; 2],
    impedance: Phasor,
}

impl ACVoltageSource {
    pub fn new(voltage: Phasor, positive_node: NodeId, negative_node: NodeId) -> (v: ACVoltageSource)
        ensures
            v.ac_voltage() == voltage,
            v.internal_impedance() == Phasor::spec_zero(),
            v.terminals()@ == seq![
                Terminal { node: positive_node, polarity: Polarity::Positive },
                Terminal { node: negative_node, polarity: Polarity::Negative },
            ],
    {
        ACVoltageSource {
            voltage,
            terminals: [
                Terminal::new(positive_node, Polarity::Positive),
                Terminal::new(negative_node, Polarity::Negative),
            ],
            impedance: Phasor::zero(),
        }
    }

    /// The same source with the internal impedance `impedance`.
    #[must_use]
    pub fn with_impedance(self, impedance: Phasor) -> (v: ACVoltageSource)
        ensures
            v.ac_voltage() == self.ac_voltage(),
            v.terminals() == self.terminals(),
            v.internal_impedance() == impedance,
    {
        ACVoltageSource { voltage: self.voltage, terminals: self.terminals, impedance }
    }

    pub closed spec fn spec_internal_impedance(&self) -> Phasor {
        self.impedance
    }

    /// The internal impedance of the source.
    #[verifier::when_used_as_spec(spec_internal_impedance)]
    pub fn internal_impedance(&self) -> (z: Phasor)
        ensures
            z == self.spec_internal_impedance(),
    {
        self.impedance
    }

    pub closed spec fn spec_terminals(&self) -> &[Terminal; 2] {
        &self.terminals
    }

    /// The two ends of the source, the positive one first.
    #[verifier::when_used_as_spec(spec_terminals)]
    pub fn terminals(&self) -> (t: &[Terminal; 2])
        ensures
            t == self.spec_terminals(),
    {
        &self.terminals
    }

    pub closed spec fn spec_ac_voltage(&self) -> Phasor {
        self.voltage
    }

    /// The source voltage as a complex amplitude.
    #[verifier::when_used_as_spec(spec_ac_voltage)]
    pub fn ac_voltage(&self) -> (v: Phasor)
        ensures
            v == self.spec_ac_voltage(),
    {
        self.voltage
    }

    /// The source gives no constant voltage.
    pub open spec fn spec_dc_voltage(&self) -> Scalar {
        Scalar::spec_zero()
    }

    #[verifier::when_used_as_spec(spec_dc_voltage)]
    pub fn dc_voltage(&self) -> (v: Scalar)
        ensures
            v == self.spec_dc_voltage(),
    {
        Scalar::zero()
    }

    /// The source gives no constant current.
    pub open spec fn spec_dc_current(&self) -> Scalar {
        Scalar::spec_zero()
    }

    #[verifier::when_used_as_spec(spec_dc_current)]
    pub fn dc_current(&self) -> (i: Scalar)
        ensures
            i == self.spec_dc_current(),
    {
        Scalar::zero()
    }

    /// The source has no resistance.
    pub open spec fn spec_resistance(&self) -> Scalar {
        Scalar::spec_zero()
    }

    #[verifier::when_used_as_spec(spec_resistance)]
    pub fn resistance(&self) -> (r: Scalar)
        ensures
            r == self.spec_resistance(),
    {
        Scalar::zero()
    }

    /// Zero, by the rule for a zero resistance.
    pub open spec fn spec_conductance(&self) -> Quantity {
        Quantity::Zero
    }

    #[verifier::when_used_as_spec(spec_conductance)]
    pub fn conductance(&self) -> (g: Quantity)
        ensures
            g == self.spec_conductance(),
    {
        Quantity::Zero
    }

    /// The internal impedance, at every frequency.
    pub open spec fn spec_impedance(&self, frequency: Scalar) -> Impedance {
        Impedance {
            re: Term { negative: false, quantity: Quantity::Value(self.internal_impedance().re) },
            im: Term { negative: false, quantity: Quantity::Value(self.internal_impedance().im) },
        }
    }

    #[verifier::when_used_as_spec(spec_impedance)]
    pub fn impedance(&self, frequency: Scalar) -> (z: Impedance)
        ensures
            z == self.spec_impedance(frequency),
    {
        Impedance {
            re: Term { negative: false, quantity: Quantity::Value(self.impedance.re) },
            im: Term { negative: false, quantity: Quantity::Value(self.impedance.im) },
        }
    }

    /// Leaves `a_matrix` and `z_vector` as they are.
    #[allow(unused_variables)]
    pub fn stamp(&self, a_matrix: &mut Vec<MatrixStamp>, z_vector: &mut Vec<VectorStamp>, n: usize, m: usize)
        ensures
            final(a_matrix)@ == old(a_matrix)@,
            final(z_vector)@ == old(z_vector)@,
    {
    }
}

} // verus!
