//! Circuit elements and what each of them stamps.
//!
//! Every element has two terminals. What it adds to the system depends on
//! four things that every kind of element answers: whether its current is an
//! unknown of its own, which resistance it puts between its terminals, which
//! voltage it holds and which current it injects.
//!
//! # Conventions
//!
//! A terminal of positive or of neutral polarity has the sign `+1`, a
//! terminal of negative polarity the sign `-1`. A source injects its current
//! into the node of its positive terminal and draws it from the node of its
//! negative terminal; the current unknown of an ideal voltage source or of
//! an inductor is the current that enters the element at its positive
//! terminal. A conductance is the reciprocal of a resistance and exactly
//! zero for a resistance of zero. Every frequency is an angular frequency in
//! radians per second: no factor of two pi is applied anywhere.
use vstd::prelude::*;
use crate::NodeId;
use crate::elements::ac_volatage_source::ACVoltageSource;
use crate::elements::capacitor::Capacitor;
use crate::elements::dc_current_source::DCCurrentSource;
use crate::elements::dc_voltage_source::DCVoltageSource;
use crate::elements::inductor::Inductor;
use crate::elements::resistor::Resistor;
use crate::scalar::{Impedance, Phasor, Quantity, Scalar, Term};
use crate::stamp::{
    branch_stamps, clear_row, conductance_stamps, injection_stamp, stamp_branch,
    stamp_conductance, stamp_injection, without_row,
};
use crate::system::{MatrixStamp, VectorStamp, matrix_within, vector_within};

pub mod ac_volatage_source;
pub mod capacitor;
pub mod dc_current_source;
pub mod dc_voltage_source;
pub mod inductor;
pub mod resistor;

verus! {

/// The unknown that stands for the voltage of `node`: none for the ground
/// node 0, and `node - 1` for every other.
pub open spec fn node_row(node: NodeId) -> Option<usize> {
    if node.0 == 0 {
        None
    } else {
        Some((node.0 - 1) as usize)
    }
}

/// The unknown that stands for the voltage of `node`.
pub fn row_of(node: NodeId) -> (row: Option<usize>)
    ensures
        row == node_row(node),
{
    if node.0 == 0 {
        None
    } else {
        Some(node.0 - 1)
    }
}

/// The reciprocal of `resistance`, defined as exactly zero where the
/// resistance compares equal to zero.
pub open spec fn guarded_reciprocal(resistance: Scalar) -> Quantity {
    if resistance.spec_is_zero() {
        Quantity::Zero
    } else {
        Quantity::Reciprocal(resistance)
    }
}

/// The reciprocal of `resistance`, and zero for a zero resistance.
pub fn reciprocal(resistance: Scalar) -> (g: Quantity)
    ensures
        g == guarded_reciprocal(resistance),
{
    if resistance.is_zero() {
        Quantity::Zero
    } else {
        Quantity::Reciprocal(resistance)
    }
}

/// The admittance that goes with an impedance: exactly zero where the
/// impedance compares equal to zero, and its inverse otherwise.
pub open spec fn guarded_inverse(impedance: Phasor, inverse: Phasor) -> Phasor {
    if impedance.spec_is_zero() {
        Phasor::spec_zero()
    } else {
        inverse
    }
}

/// The admittance that goes with `impedance`, where `inverse` is the complex
/// inverse of `impedance` as the caller computed it.
pub fn admittance(impedance: Phasor, inverse: Phasor) -> (y: Phasor)
    ensures
        y == guarded_inverse(impedance, inverse),
{
    if impedance.is_zero() {
        Phasor::zero()
    } else {
        inverse
    }
}

/// The sign with which a terminal enters the equations.
#[derive(Debug, Clone, Copy, PartialEq, Eq, Structural)]
pub enum Polarity {
    Positive,
    Neutral,
    Negative,
}

impl Polarity {
    /// `-1` for `Negative`, `1` for the other two.
    pub open spec fn spec_sign(&self) -> i8 {
        match self {
            Polarity::Positive | Polarity::Neutral => 1i8,
            Polarity::Negative => -1i8,
        }
    }

    /// `-1` for `Negative`, `1` for the other two.
    #[verifier::when_used_as_spec(spec_sign)]
    pub fn sign(&self) -> (s: i8)
        ensures
            s == self.spec_sign(),
    {
        match self {
            Polarity::Positive | Polarity::Neutral => 1,
            Polarity::Negative => -1,
        }
    }
}

impl Default for Polarity {
    fn default() -> (p: Polarity)
        ensures
            p == Polarity::Neutral,
    {
        Polarity::Neutral
    }
}

/// One end of an element: the node it is wired to and its polarity.
#[derive(Debug, Clone, Copy, PartialEq, Eq, Structural)]
pub struct Terminal {
    pub node: NodeId,
    pub polarity: Polarity,
}

impl Terminal {
    pub fn new(node: NodeId, polarity: Polarity) -> (t: Terminal)
        ensures
            t.node == node,
            t.polarity == polarity,
    {
        Terminal { node, polarity }
    }

    pub fn new_positive(node: NodeId) -> (t: Terminal)
        ensures
            t.node == node,
            t.polarity == Polarity::Positive,
    {
        Self::new(node, Polarity::Positive)
    }

    pub fn new_neutral(node: NodeId) -> (t: Terminal)
        ensures
            t.node == node,
            t.polarity == Polarity::Neutral,
    {
        Self::new(node, Polarity::Neutral)
    }

    pub fn new_negative(node: NodeId) -> (t: Terminal)
        ensures
            t.node == node,
            t.polarity == Polarity::Negative,
    {
        Self::new(node, Polarity::Negative)
    }

    /// The sign of the terminal's polarity.
    pub open spec fn spec_sign(&self) -> i8 {
        self.polarity.spec_sign()
    }

    /// The sign of the terminal's polarity.
    #[verifier::when_used_as_spec(spec_sign)]
    pub fn sign(&self) -> (s: i8)
        ensures
            s == self.spec_sign(),
    {
        self.polarity.sign()
    }

    /// Whether the terminal is wired to the ground node.
    pub open spec fn spec_is_ground(&self) -> bool {
        self.node.0 == 0
    }

    /// Whether the terminal is wired to the ground node.
    #[verifier::when_used_as_spec(spec_is_ground)]
    pub fn is_ground(&self) -> (g: bool)
        ensures
            g == self.spec_is_ground(),
    {
        self.node.0 == 0
    }

    /// `quantity` with the terminal's sign.
    pub open spec fn spec_signed(&self, quantity: Quantity) -> Term {
        Term { negative: self.polarity == Polarity::Negative, quantity }
    }

    /// `quantity` with the terminal's sign.
    #[verifier::when_used_as_spec(spec_signed)]
    pub fn signed(&self, quantity: Quantity) -> (t: Term)
        ensures
            t == self.spec_signed(quantity),
    {
        let negative: bool = match self.polarity {
            Polarity::Negative => true,
            _ => false,
        };
        Term { negative, quantity }
    }
}

/// What a resistance between the two terminals adds to the matrix: the
/// conductance block of its reciprocal, and nothing where the resistance
/// compares equal to zero.
pub open spec fn shunt_stamps(terminals: &[Terminal; 2], resistance: Scalar) -> Seq<MatrixStamp> {
    if resistance.spec_is_zero() {
        Seq::<MatrixStamp>::empty()
    } else {
        conductance_stamps(
            node_row(terminals[0].node),
            node_row(terminals[1].node),
            Quantity::Reciprocal(resistance),
        )
    }
}

/// Appends [`shunt_stamps`] to `a_matrix`.
pub fn stamp_shunt(a_matrix: &mut Vec<MatrixStamp>, terminals: &[Terminal; 2], resistance: Scalar)
    ensures
        final(a_matrix)@ == old(a_matrix)@ + shunt_stamps(terminals, resistance),
{
    if !resistance.is_zero() {
        let first: Option<usize> = row_of(terminals[0].node);
        let second: Option<usize> = row_of(terminals[1].node);
        stamp_conductance(a_matrix, first, second, Quantity::Reciprocal(resistance));
    }
    assert(a_matrix@ =~= old(a_matrix)@ + shunt_stamps(terminals, resistance));
}

/// The row and column of the branch current with auxiliary index `index`
/// in a circuit of `n` nodes: the auxiliary unknowns follow the `n - 1` node
/// voltages.
pub open spec fn aux_row(n: usize, index: usize) -> usize {
    (n - 1 + index) as usize
}

/// What a branch with its own current unknown adds to the matrix: the signs
/// of its terminals in the column and in the row of that unknown.
pub open spec fn branch_matrix_stamps(terminals: &[Terminal; 2], n: usize, index: usize) -> Seq<
    MatrixStamp,
> {
    branch_stamps(
        node_row(terminals[0].node),
        terminals[0].spec_signed(Quantity::One),
        node_row(terminals[1].node),
        terminals[1].spec_signed(Quantity::One),
        aux_row(n, index),
    )
}

/// What such a branch puts into the right-hand side: the voltage that it
/// holds between its terminals, in the row of its unknown.
pub open spec fn branch_vector_stamps(voltage: Scalar, n: usize, index: usize) -> Seq<VectorStamp> {
    seq![
        VectorStamp {
            row: aux_row(n, index),
            term: Term { negative: false, quantity: Quantity::Value(voltage) },
        },
    ]
}

/// The right-hand side `before` after such a branch has set its row: the
/// row of its unknown holds the voltage alone, whatever it held, and every
/// other row is as it was.
pub open spec fn branch_vector_set(before: Seq<VectorStamp>, voltage: Scalar, n: usize, index: usize) -> Seq<
    VectorStamp,
> {
    without_row(before, aux_row(n, index)) + branch_vector_stamps(voltage, n, index)
}

/// Appends [`branch_matrix_stamps`] to `a_matrix` and sets the row of the
/// branch in `z_vector` to the voltage, as [`branch_vector_set`] says.
///
/// The row of an auxiliary unknown belongs to one element, so setting it
/// takes nothing from another element.
pub fn stamp_voltage_branch(
    a_matrix: &mut Vec<MatrixStamp>,
    z_vector: &mut Vec<VectorStamp>,
    terminals: &[Terminal; 2],
    voltage: Scalar,
    n: usize,
    index: usize,
)
    requires
        n >= 1,
        n - 1 + index <= usize::MAX,
    ensures
        final(a_matrix)@ == old(a_matrix)@ + branch_matrix_stamps(terminals, n, index),
        final(z_vector)@ == branch_vector_set(old(z_vector)@, voltage, n, index),
{
    let aux: usize = n - 1 + index;
    let first: Option<usize> = row_of(terminals[0].node);
    let second: Option<usize> = row_of(terminals[1].node);
    stamp_branch(
        a_matrix,
        first,
        terminals[0].signed(Quantity::One),
        second,
        terminals[1].signed(Quantity::One),
        aux,
    );
    clear_row(z_vector, aux);
    z_vector.push(
        VectorStamp { row: aux, term: Term { negative: false, quantity: Quantity::Value(voltage) } },
    );
    assert(z_vector@ =~= branch_vector_set(old(z_vector)@, voltage, n, index));
}

/// What a source adds to the right-hand side: `quantity`, with the sign of
/// the terminal, in the row of each terminal that is not ground.
pub open spec fn source_stamps(terminals: &[Terminal; 2], quantity: Quantity) -> Seq<VectorStamp> {
    injection_stamp(node_row(terminals[0].node), terminals[0].spec_signed(quantity))
        + injection_stamp(node_row(terminals[1].node), terminals[1].spec_signed(quantity))
}

/// Appends [`source_stamps`] to `z_vector`.
pub fn stamp_source(z_vector: &mut Vec<VectorStamp>, terminals: &[Terminal; 2], quantity: Quantity)
    ensures
        final(z_vector)@ == old(z_vector)@ + source_stamps(terminals, quantity),
{
    let first: Option<usize> = row_of(terminals[0].node);
    let second: Option<usize> = row_of(terminals[1].node);
    stamp_injection(z_vector, first, terminals[0].signed(quantity));
    stamp_injection(z_vector, second, terminals[1].signed(quantity));
    assert(z_vector@ =~= old(z_vector)@ + source_stamps(terminals, quantity));
}

/// A two-terminal device of one of the six kinds that the library knows.
///
/// The set of kinds is closed, so an element is a value that a circuit owns
/// and the assembler matches on, not an object behind a pointer.
#[derive(Debug, Clone, Copy)]
pub enum Element {
    Resistor(Resistor),
    Capacitor(Capacitor),
    Inductor(Inductor),
    DCVoltageSource(DCVoltageSource),
    DCCurrentSource(DCCurrentSource),
    ACVoltageSource(ACVoltageSource),
}

impl Element {
    pub open spec fn spec_terminals(&self) -> &[Terminal; 2] {
        match self {
            Element::Resistor(e) => e.spec_terminals(),
            Element::Capacitor(e) => e.spec_terminals(),
            Element::Inductor(e) => e.spec_terminals(),
            Element::DCVoltageSource(e) => e.spec_terminals(),
            Element::DCCurrentSource(e) => e.spec_terminals(),
            Element::ACVoltageSource(e) => e.spec_terminals(),
        }
    }

    /// The two ends of the element.
    #[verifier::when_used_as_spec(spec_terminals)]
    pub fn terminals(&self) -> (t: &[Terminal; 2])
        ensures
            t == self.spec_terminals(),
    {
        match self {
            Element::Resistor(e) => e.terminals(),
            Element::Capacitor(e) => e.terminals(),
            Element::Inductor(e) => e.terminals(),
            Element::DCVoltageSource(e) => e.terminals(),
            Element::DCCurrentSource(e) => e.terminals(),
            Element::ACVoltageSource(e) => e.terminals(),
        }
    }

    /// The auxiliary index of the element's current, for an element whose
    /// current is an unknown of its own: an inductor or an ideal voltage
    /// source.
    pub open spec fn spec_aux_index(&self) -> Option<usize> {
        match self {
            Element::Inductor(e) => Some(e.spec_index()),
            Element::DCVoltageSource(e) => if e.spec_is_b_c_element() {
                Some(e.spec_index())
            } else {
                None
            },
            _ => None,
        }
    }

    /// The auxiliary index of the element's current, if it has one.
    #[verifier::when_used_as_spec(spec_aux_index)]
    pub fn aux_index(&self) -> (k: Option<usize>)
        ensures
            k == self.spec_aux_index(),
    {
        match self {
            Element::Inductor(e) => Some(e.index()),
            Element::DCVoltageSource(e) => if e.is_b_c_element() {
                Some(e.index())
            } else {
                None
            },
            _ => None,
        }
    }

    /// Whether the element's current is an unknown of its own, so that the
    /// element stamps the blocks `B` and `C` of the matrix.
    pub open spec fn spec_is_b_c_element(&self) -> bool {
        self.spec_aux_index() is Some
    }

    /// Whether the element's current is an unknown of its own.
    #[verifier::when_used_as_spec(spec_is_b_c_element)]
    pub fn is_b_c_element(&self) -> (b: bool)
        ensures
            b == self.spec_is_b_c_element(),
    {
        match self {
            Element::Inductor(e) => e.is_b_c_element(),
            Element::DCVoltageSource(e) => e.is_b_c_element(),
            _ => false,
        }
    }

    /// The voltage of a voltage source, zero for every other element.
    pub open spec fn spec_dc_voltage(&self) -> Scalar {
        match self {
            Element::Resistor(e) => e.spec_dc_voltage(),
            Element::Capacitor(e) => e.spec_dc_voltage(),
            Element::Inductor(e) => e.spec_dc_voltage(),
            Element::DCVoltageSource(e) => e.spec_dc_voltage(),
            Element::DCCurrentSource(e) => e.spec_dc_voltage(),
            Element::ACVoltageSource(e) => e.spec_dc_voltage(),
        }
    }

    /// The voltage of a voltage source, zero for every other element.
    #[verifier::when_used_as_spec(spec_dc_voltage)]
    pub fn dc_voltage(&self) -> (v: Scalar)
        ensures
            v == self.spec_dc_voltage(),
    {
        match self {
            Element::Resistor(e) => e.dc_voltage(),
            Element::Capacitor(e) => e.dc_voltage(),
            Element::Inductor(e) => e.dc_voltage(),
            Element::DCVoltageSource(e) => e.dc_voltage(),
            Element::DCCurrentSource(e) => e.dc_voltage(),
            Element::ACVoltageSource(e) => e.dc_voltage(),
        }
    }

    /// The current of a current source, zero for every other element.
    pub open spec fn spec_dc_current(&self) -> Scalar {
        match self {
            Element::Resistor(e) => e.spec_dc_current(),
            Element::Capacitor(e) => e.spec_dc_current(),
            Element::Inductor(e) => e.spec_dc_current(),
            Element::DCVoltageSource(e) => e.spec_dc_current(),
            Element::DCCurrentSource(e) => e.spec_dc_current(),
            Element::ACVoltageSource(e) => e.spec_dc_current(),
        }
    }

    /// The current of a current source, zero for every other element.
    #[verifier::when_used_as_spec(spec_dc_current)]
    pub fn dc_current(&self) -> (i: Scalar)
        ensures
            i == self.spec_dc_current(),
    {
        match self {
            Element::Resistor(e) => e.dc_current(),
            Element::Capacitor(e) => e.dc_current(),
            Element::Inductor(e) => e.dc_current(),
            Element::DCVoltageSource(e) => e.dc_current(),
            Element::DCCurrentSource(e) => e.dc_current(),
            Element::ACVoltageSource(e) => e.dc_current(),
        }
    }

    /// The voltage of an alternating voltage source as a complex amplitude,
    /// zero for every other element.
    pub open spec fn spec_ac_voltage(&self) -> Phasor {
        match self {
            Element::ACVoltageSource(e) => e.spec_ac_voltage(),
            _ => Phasor::spec_zero(),
        }
    }

    /// The voltage of an alternating voltage source, zero for every other
    /// element.
    #[verifier::when_used_as_spec(spec_ac_voltage)]
    pub fn ac_voltage(&self) -> (v: Phasor)
        ensures
            v == self.spec_ac_voltage(),
    {
        match self {
            Element::ACVoltageSource(e) => e.ac_voltage(),
            _ => Phasor::zero(),
        }
    }

    /// No element is a source of alternating current.
    pub open spec fn spec_ac_current(&self) -> Phasor {
        Phasor::spec_zero()
    }

    /// The current of a source of alternating current: zero, as there is
    /// none.
    #[verifier::when_used_as_spec(spec_ac_current)]
    pub fn ac_current(&self) -> (i: Phasor)
        ensures
            i == self.spec_ac_current(),
    {
        Phasor::zero()
    }

    /// The resistance that the element puts between its terminals, zero
    /// where it puts none.
    pub open spec fn spec_resistance(&self) -> Scalar {
        match self {
            Element::Resistor(e) => e.spec_resistance(),
            Element::Capacitor(e) => e.spec_resistance(),
            Element::Inductor(e) => e.spec_resistance(),
            Element::DCVoltageSource(e) => e.spec_resistance(),
            Element::DCCurrentSource(e) => e.spec_resistance(),
            Element::ACVoltageSource(e) => e.spec_resistance(),
        }
    }

    /// The resistance that the element puts between its terminals.
    #[verifier::when_used_as_spec(spec_resistance)]
    pub fn resistance(&self) -> (r: Scalar)
        ensures
            r == self.spec_resistance(),
    {
        match self {
            Element::Resistor(e) => e.resistance(),
            Element::Capacitor(e) => e.resistance(),
            Element::Inductor(e) => e.resistance(),
            Element::DCVoltageSource(e) => e.resistance(),
            Element::DCCurrentSource(e) => e.resistance(),
            Element::ACVoltageSource(e) => e.resistance(),
        }
    }

    /// The resistance that the element puts between its nodes in the system
    /// of the operating point: its resistance, but none for a current
    /// source, which that system takes as ideal.
    pub open spec fn shunt_resistance(&self) -> Scalar {
        match self {
            Element::DCCurrentSource(_) => Scalar::spec_zero(),
            _ => self.spec_resistance(),
        }
    }

    /// The reciprocal of the resistance, and exactly zero when the
    /// resistance is zero.
    pub open spec fn spec_conductance(&self) -> Quantity {
        guarded_reciprocal(self.spec_resistance())
    }

    /// The reciprocal of the resistance, and exactly zero when the
    /// resistance is zero.
    #[verifier::when_used_as_spec(spec_conductance)]
    pub fn conductance(&self) -> (g: Quantity)
        ensures
            g == self.spec_conductance(),
    {
        reciprocal(self.resistance())
    }

    /// The impedance of the element at the angular frequency `frequency`,
    /// in radians per second.
    pub open spec fn spec_impedance(&self, frequency: Scalar) -> Impedance {
        match self {
            Element::Resistor(e) => e.spec_impedance(frequency),
            Element::Capacitor(e) => e.spec_impedance(frequency),
            Element::Inductor(e) => e.spec_impedance(frequency),
            Element::DCVoltageSource(e) => e.spec_impedance(frequency),
            Element::DCCurrentSource(e) => e.spec_impedance(frequency),
            Element::ACVoltageSource(e) => e.spec_impedance(frequency),
        }
    }

    /// The impedance of the element at the angular frequency `frequency`,
    /// in radians per second.
    #[verifier::when_used_as_spec(spec_impedance)]
    pub fn impedance(&self, frequency: Scalar) -> (z: Impedance)
        ensures
            z == self.spec_impedance(frequency),
    {
        match self {
            Element::Resistor(e) => e.impedance(frequency),
            Element::Capacitor(e) => e.impedance(frequency),
            Element::Inductor(e) => e.impedance(frequency),
            Element::DCVoltageSource(e) => e.impedance(frequency),
            Element::DCCurrentSource(e) => e.impedance(frequency),
            Element::ACVoltageSource(e) => e.impedance(frequency),
        }
    }

    /// The current that the element feeds into the node of a terminal of
    /// sign `+1`, and draws from one of sign `-1`: the source current of a
    /// current source, the short-circuit current of a voltage source with a
    /// series resistance, and none for every other element.
    pub open spec fn spec_injection(&self) -> Option<Quantity> {
        match self {
            Element::DCCurrentSource(e) => Some(Quantity::Value(e.spec_dc_current())),
            Element::DCVoltageSource(e) => if e.spec_is_b_c_element() {
                None
            } else {
                Some(e.source_current())
            },
            _ => None,
        }
    }

    /// The current that the element feeds into its positive node, if any.
    #[verifier::when_used_as_spec(spec_injection)]
    pub fn injection(&self) -> (q: Option<Quantity>)
        ensures
            q == self.spec_injection(),
    {
        match self {
            Element::DCCurrentSource(e) => Some(Quantity::Value(e.dc_current())),
            Element::DCVoltageSource(e) => if e.is_b_c_element() {
                None
            } else {
                Some(Quantity::Scaled { value: e.dc_voltage(), resistance: e.resistance() })
            },
            _ => None,
        }
    }

    /// What the element adds to the matrix of a circuit of `n` nodes.
    ///
    /// An element with a current unknown of its own adds the signs of its
    /// terminals in the column and the row of that unknown. Every other
    /// element adds the conductance block of its resistance; a current
    /// source adds nothing.
    pub open spec fn matrix_stamps(&self, n: usize) -> Seq<MatrixStamp> {
        match self.spec_aux_index() {
            Some(index) => branch_matrix_stamps(self.spec_terminals(), n, index),
            None => shunt_stamps(self.spec_terminals(), self.shunt_resistance()),
        }
    }

    /// What the element puts into the right-hand side of a circuit of `n`
    /// nodes.
    ///
    /// An element with a current unknown of its own puts its voltage into
    /// the row of that unknown. Every other element adds the current that it
    /// injects, signed, in the row of each terminal.
    pub open spec fn vector_stamps(&self, n: usize) -> Seq<VectorStamp> {
        match self.spec_aux_index() {
            Some(index) => branch_vector_stamps(self.spec_dc_voltage(), n, index),
            None => match self.spec_injection() {
                Some(quantity) => source_stamps(self.spec_terminals(), quantity),
                None => Seq::<VectorStamp>::empty(),
            },
        }
    }

    /// The right-hand side `before` after the element has been stamped into
    /// a circuit of `n` nodes.
    ///
    /// An element with a current unknown of its own sets the row of that
    /// unknown to its voltage: what the row held is gone. Every other
    /// element appends what it injects, so that on one row the injections of
    /// several elements add up.
    pub open spec fn stamped_vector(&self, before: Seq<VectorStamp>, n: usize) -> Seq<VectorStamp> {
        match self.spec_aux_index() {
            Some(index) => branch_vector_set(before, self.spec_dc_voltage(), n, index),
            None => before + self.vector_stamps(n),
        }
    }

    /// Whether the element can be stamped into a circuit of `n` nodes: the
    /// row of its current, if it has one, is a machine integer.
    pub open spec fn stampable(&self, n: usize) -> bool {
        &&& n >= 1
        &&& self.spec_aux_index() matches Some(index) ==> n - 1 + index <= usize::MAX
    }

    /// Whether both terminals are wired to nodes of a circuit of `n` nodes.
    pub open spec fn wired_within(&self, n: nat) -> bool {
        &&& self.spec_terminals()[0].node.0 < n
        &&& self.spec_terminals()[1].node.0 < n
    }

    /// Whether both terminals are wired to nodes of a circuit of `n` nodes.
    pub fn is_wired_within(&self, n: usize) -> (b: bool)
        ensures
            b == self.wired_within(n as nat),
    {
        let terminals: &[Terminal; 2] = self.terminals();
        terminals[0].node.0 < n && terminals[1].node.0 < n
    }

    /// Whether the element fits a circuit of `n` nodes and `m` auxiliary
    /// unknowns: its terminals are nodes of the circuit, and its auxiliary
    /// index, if it has one, is below `m`.
    pub open spec fn fits(&self, n: nat, m: nat) -> bool {
        &&& self.wired_within(n)
        &&& self.spec_aux_index() matches Some(index) ==> index < m
    }

    /// The stamps of an element that fits a circuit of `n` nodes and `m`
    /// auxiliary unknowns lie inside the system of that circuit.
    pub proof fn lemma_stamps_within(self, n: usize, m: nat)
        requires
            n >= 1,
            self.fits(n as nat, m),
            n - 1 + m <= usize::MAX,
        ensures
            matrix_within(self.matrix_stamps(n), n - 1 + m),
            vector_within(self.vector_stamps(n), n - 1 + m),
    {
    }

    /// Adds the element's contribution to the system of a circuit of `n`
    /// nodes, ground included, and `m` auxiliary unknowns.
    ///
    /// Nothing that is already in `a_matrix` is changed: stamping appends,
    /// so the stamps of several elements on one cell add up. The same holds
    /// of `z_vector` but for the row of the element's own current, if it has
    /// one: that row is set to the element's voltage, see
    /// [`Element::stamped_vector`]. If the element fits the circuit, what it
    /// puts in lies inside the system of `n - 1 + m` unknowns.
    #[allow(unused_variables)]
    pub fn stamp(&self, a_matrix: &mut Vec<MatrixStamp>, z_vector: &mut Vec<VectorStamp>, n: usize, m: usize)
        requires
            self.stampable(n),
        ensures
            final(a_matrix)@ == old(a_matrix)@ + self.matrix_stamps(n),
            final(z_vector)@ == self.stamped_vector(old(z_vector)@, n),
            self.fits(n as nat, m as nat) && n - 1 + m <= usize::MAX ==> matrix_within(
                self.matrix_stamps(n),
                n - 1 + m,
            ) && vector_within(self.vector_stamps(n), n - 1 + m),
    {
        proof {
            if self.fits(n as nat, m as nat) && n - 1 + m <= usize::MAX {
                self.lemma_stamps_within(n, m as nat);
            }
        }
        match self {
            Element::Resistor(e) => e.stamp(a_matrix, z_vector, n, m),
            Element::Capacitor(e) => e.stamp(a_matrix, z_vector, n, m),
            Element::Inductor(e) => e.stamp(a_matrix, z_vector, n, m),
            Element::DCVoltageSource(e) => e.stamp(a_matrix, z_vector, n, m),
            Element::DCCurrentSource(e) => e.stamp(a_matrix, z_vector, n, m),
            Element::ACVoltageSource(e) => e.stamp(a_matrix, z_vector, n, m),
        }
        assert(a_matrix@ =~= old(a_matrix)@ + self.matrix_stamps(n));
        assert(z_vector@ =~= self.stamped_vector(old(z_vector)@, n));
    }
}

} // verus!
