use vstd::prelude::*;
use crate::NodeId;
use crate::elements::{
    Polarity, Terminal, branch_matrix_stamps, branch_vector_set, branch_vector_stamps,
    guarded_reciprocal, reciprocal, shunt_stamps, source_stamps, stamp_shunt, stamp_source,
    stamp_voltage_branch,
};
use crate::scalar::{Impedance, Quantity, Scalar, Term};
use crate::system::{MatrixStamp, VectorStamp};

verus! {

/// A source of constant voltage between two nodes.
///
/// Without a series resistance the source is ideal: it fixes the voltage
/// between its terminals, and its current is an unknown of its own. With a
/// series resistance it is stamped as the equivalent current source in
/// parallel with that resistance, and has no unknown of its own.
#[derive(Debug, Clone, Copy)]
pub struct DCVoltageSource {
    voltage: Scalar,
    terminals: [Terminal; 2],
    index: usize,
    resistance: Scalar,
}

impl DCVoltageSource {
    /// An ideal source. `index` is the auxiliary index of its current:
    /// among the elements of one circuit that have such an unknown the
    /// indices are `0, 1, 2, ...`, each used once.
    pub fn new(voltage: Scalar, positive_node: NodeId, negative_node: NodeId, index: usize) -> (v:
        DCVoltageSource)
        ensures
            v.dc_voltage() == voltage,
            v.index() == index,
            v.resistance() == Scalar::spec_zero(),
            v.terminals()@ == seq![
                Terminal { node: positive_node, polarity: Polarity::Positive },
                Terminal { node: negative_node, polarity: Polarity::Negative },
            ],
    {
        DCVoltageSource {
            voltage,
            terminals: [
                Terminal::new(positive_node, Polarity::Positive),
                Terminal::new(negative_node, Polarity::Negative),
            ],
            index,
            resistance: Scalar::zero(),
        }
    }

    /// The same source with `resistance` in series.
    #[must_use]
    pub fn with_resistance(self, resistance: Scalar) -> (v: DCVoltageSource)
        ensures
            v.dc_voltage() == self.dc_voltage(),
            v.index() == self.index(),
            v.terminals() == self.terminals(),
            v.resistance() == resistance,
    {
        DCVoltageSource {
            voltage: self.voltage,
            terminals: self.terminals,
            index: self.index,
            resistance,
        }
    }

    pub closed spec fn spec_terminals(&self) -> &[Terminal; 2] {
        &self.terminals
    }

    /// The two ends of the source, the positive one first.
    #[verifier::when_used_as_spec(spec_terminals)]
    pub fn terminals(&self) -> (t: &[Terminal; 2])
        ensures
            t == self.spec_terminals(),
    {
        &self.terminals
    }

    pub closed spec fn spec_index(&self) -> usize {
        self.index
    }

    /// The auxiliary index of the source's current.
    #[verifier::when_used_as_spec(spec_index)]
    pub fn index(&self) -> (k: usize)
        ensures
            k == self.spec_index(),
    {
        self.index
    }

    pub closed spec fn spec_dc_voltage(&self) -> Scalar {
        self.voltage
    }

    /// The source voltage in volts.
    #[verifier::when_used_as_spec(spec_dc_voltage)]
    pub fn dc_voltage(&self) -> (v: Scalar)
        ensures
            v == self.spec_dc_voltage(),
    {
        self.voltage
    }

    /// A voltage source is no current source.
    pub open spec fn spec_dc_current(&self) -> Scalar {
        Scalar::spec_zero()
    }

    #[verifier::when_used_as_spec(spec_dc_current)]
    pub fn dc_current(&self) -> (i: Scalar)
        ensures
            i == self.spec_dc_current(),
    {
        Scalar::zero()
    }

    pub closed spec fn spec_resistance(&self) -> Scalar {
        self.resistance
    }

    /// The series resistance in ohms, zero for an ideal source.
    #[verifier::when_used_as_spec(spec_resistance)]
    pub fn resistance(&self) -> (r: Scalar)
        ensures
            r == self.spec_resistance(),
    {
        self.resistance
    }

    /// The reciprocal of the series resistance, and zero for an ideal
    /// source.
    pub open spec fn spec_conductance(&self) -> Quantity {
        guarded_reciprocal(self.resistance())
    }

    #[verifier::when_used_as_spec(spec_conductance)]
    pub fn conductance(&self) -> (g: Quantity)
        ensures
            g == self.spec_conductance(),
    {
        reciprocal(self.resistance)
    }

    /// The impedance of the series resistance, the same at every frequency.
    pub open spec fn spec_impedance(&self, frequency: Scalar) -> Impedance {
        Self::series_impedance(self.resistance())
    }

    #[verifier::when_used_as_spec(spec_impedance)]
    pub fn impedance(&self, frequency: Scalar) -> (z: Impedance)
        ensures
            z == self.spec_impedance(frequency),
    {
        if self.resistance.is_zero() {
            Impedance::zero()
        } else {
            Impedance {
                re: Term { negative: false, quantity: Quantity::Value(self.resistance) },
                im: Term::zero(),
            }
        }
    }

    /// The impedance of a source with the series resistance `resistance`:
    /// zero for an ideal source, and otherwise the resistance with no
    /// reactance.
    pub open spec fn series_impedance(resistance: Scalar) -> Impedance {
        if resistance.spec_is_zero() {
            Impedance::spec_zero()
        } else {
            Impedance {
                re: Term { negative: false, quantity: Quantity::Value(resistance) },
                im: Term::spec_zero(),
            }
        }
    }

    /// The source has a current unknown of its own when it is ideal.
    pub open spec fn spec_is_b_c_element(&self) -> bool {
        self.resistance().spec_is_zero()
    }

    #[verifier::when_used_as_spec(spec_is_b_c_element)]
    pub fn is_b_c_element(&self) -> (b: bool)
        ensures
            b == self.spec_is_b_c_element(),
    {
        self.resistance.is_zero()
    }

    /// The current that the source with its series resistance drives
    /// through a short circuit: the voltage times the conductance.
    pub open spec fn source_current(&self) -> Quantity {
        Quantity::Scaled { value: self.dc_voltage(), resistance: self.resistance() }
    }

    /// For an ideal source the signs of the terminals in the column and row
    /// of its current; otherwise the conductance block of the series
    /// resistance.
    pub open spec fn matrix_stamps(&self, n: usize) -> Seq<MatrixStamp> {
        if self.is_b_c_element() {
            branch_matrix_stamps(self.terminals(), n, self.index())
        } else {
            shunt_stamps(self.terminals(), self.resistance())
        }
    }

    /// For an ideal source its voltage in the row of its current; otherwise
    /// the equivalent source current, signed, at each terminal.
    pub open spec fn vector_stamps(&self, n: usize) -> Seq<VectorStamp> {
        if self.is_b_c_element() {
            branch_vector_stamps(self.dc_voltage(), n, self.index())
        } else {
            source_stamps(self.terminals(), self.source_current())
        }
    }

    /// The right-hand side `before` after the source has been stamped: an
    /// ideal source sets the row of its current to its voltage, whatever the
    /// row held; a source with a series resistance appends its injections.
    pub open spec fn stamped_vector(&self, before: Seq<VectorStamp>, n: usize) -> Seq<VectorStamp> {
        if self.is_b_c_element() {
            branch_vector_set(before, self.dc_voltage(), n, self.index())
        } else {
            before + self.vector_stamps(n)
        }
    }

    /// Stamps the source: its matrix stamps are appended to `a_matrix`, and
    /// `z_vector` becomes what [`DCVoltageSource::stamped_vector`] says.
    #[allow(unused_variables)]
    pub fn stamp(&self, a_matrix: &mut Vec<MatrixStamp>, z_vector: &mut Vec<VectorStamp>, n: usize, m: usize)
        requires
            n >= 1,
            self.is_b_c_element() ==> n - 1 + self.index() <= usize::MAX,
        ensures
            final(a_matrix)@ == old(a_matrix)@ + self.matrix_stamps(n),
            final(z_vector)@ == self.stamped_vector(old(z_vector)@, n),
    {
        if self.resistance.is_zero() {
            stamp_voltage_branch(a_matrix, z_vector, &self.terminals, self.voltage, n, self.index);
        } else {
            stamp_shunt(a_matrix, &self.terminals, self.resistance);
            stamp_source(
                z_vector,
                &self.terminals,
                Quantity::Scaled { value: self.voltage, resistance: self.resistance },
            );
        }
    }
}

} // verus!
