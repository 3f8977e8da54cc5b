//! Steady-state analysis of linear circuits by modified nodal analysis.
//!
//! A [`Circuit`] is a list of nodes and a list of two-terminal
//! [`elements`]. The [`runners`] assemble from it the linear system whose
//! solution is the operating point: every element stamps its contribution
//! into the [`system`], and the stamps of all elements add up.
//!
//! The library decides where each contribution goes and with which sign. It
//! does no rounding arithmetic: numbers are carried as [`scalar`] bit
//! patterns, and the sums are left to whoever evaluates and solves the
//! system. What the assembled equations mean in exact arithmetic is stated
//! in [`exact`] and proved in [`kirchhoff`] and [`equivalence`].
use vstd::prelude::*;
use crate::elements::Element;

pub mod elements;
pub mod equivalence;
pub mod exact;
pub mod kirchhoff;
pub mod runners;
pub mod scalar;
pub mod stamp;
pub mod system;

verus! {

/// Identifier of a circuit node; node 0 is the ground reference.
#[derive(Clone, Copy, PartialEq, Eq, Structural, Debug)]
pub struct NodeId(pub usize);

/// A circuit: its nodes and, in the order in which they were added, its
/// elements.
///
/// Nodes are numbered from 0 in the order of their creation and are never
/// removed, and every terminal of an element is wired to a node of the
/// circuit: a circuit that is built through its methods is
/// [`Circuit::well_formed`].
#[derive(Debug)]
pub struct Circuit {
    nodes: Vec<NodeId>,
    elements: Vec<Element>,
}

impl Circuit {
    /// The number of nodes, ground included.
    pub closed spec fn spec_node_count(&self) -> nat {
        self.nodes@.len()
    }

    /// The elements in the order in which they were added.
    pub closed spec fn spec_elements(&self) -> Seq<Element> {
        self.elements@
    }

    /// Every terminal of every element is wired to a node of the circuit.
    pub open spec fn well_formed(&self) -> bool {
        forall|j: int|
            0 <= j < self.spec_elements().len() ==> (#[trigger] self.spec_elements()[j]).wired_within(
                self.spec_node_count(),
            )
    }

    /// Adds a node and returns its identifier: 0, the ground, for the first
    /// node of a circuit, then 1, 2 and so on.
    pub fn add_node(&mut self) -> (id: NodeId)
        requires
            old(self).well_formed(),
        ensures
            final(self).well_formed(),
            id.0 == old(self).spec_node_count(),
            final(self).spec_node_count() == old(self).spec_node_count() + 1,
            final(self).spec_elements() == old(self).spec_elements(),
    {
        let next_node: NodeId = NodeId(self.nodes.len());
        self.nodes.push(next_node);
        assert forall|j: int| 0 <= j < self.spec_elements().len() implies (
        #[trigger] self.spec_elements()[j]).wired_within(self.spec_node_count()) by {
            assert(old(self).spec_elements()[j].wired_within(old(self).spec_node_count()));
        }
        next_node
    }

    /// Adds `element` after the elements that the circuit already has.
    pub fn add_element(&mut self, element: Element)
        requires
            old(self).well_formed(),
            element.wired_within(old(self).spec_node_count()),
        ensures
            final(self).well_formed(),
            final(self).spec_elements() == old(self).spec_elements().push(element),
            final(self).spec_node_count() == old(self).spec_node_count(),
    {
        self.elements.push(element);
        assert forall|j: int| 0 <= j < self.spec_elements().len() implies (
        #[trigger] self.spec_elements()[j]).wired_within(self.spec_node_count()) by {
            if j < old(self).spec_elements().len() {
                assert(old(self).spec_elements()[j].wired_within(old(self).spec_node_count()));
            }
        }
    }

    /// The number of nodes, ground included.
    pub fn node_count(&self) -> (n: usize)
        ensures
            n == self.spec_node_count(),
    {
        self.nodes.len()
    }

    /// The elements in the order in which they were added.
    pub fn elements(&self) -> (elements: &[Element])
        ensures
            elements@ == self.spec_elements(),
    {
        self.elements.as_slice()
    }
}

impl Default for Circuit {
    /// The circuit without nodes and elements.
    fn default() -> (circuit: Circuit)
        ensures
            circuit.well_formed(),
            circuit.spec_node_count() == 0,
            circuit.spec_elements() == Seq::<Element>::empty(),
    {
        Circuit { nodes: Vec::new(), elements: Vec::new() }
    }
}

} // verus!
