//! The operating point: the steady state of a circuit.
//!
//! For a circuit of `n` nodes, ground included, and `m` elements whose
//! current is an unknown of its own, the unknowns are the voltages of the
//! nodes `1` to `n - 1`, in this order, followed by the `m` currents in the
//! order of their auxiliary indices. The system has the block form
//!
//! ```text
//! [ G  B ] [ v ]   [ i ]
//! [ C  D ] [ j ] = [ e ]
//! ```
//!
//! in which `G` holds the conductances between the nodes, `B` and `C` tie
//! each auxiliary current to the nodes of its element, `i` holds the source
//! currents that flow into the nodes and `e` the voltages that the auxiliary
//! elements hold. `D` stays empty.
use vstd::prelude::*;
use vstd::set_lib::{lemma_int_range, lemma_subset_equality, set_int_range};
use crate::Circuit;
use crate::elements::Element;
use crate::NodeId;
use crate::runners::RunnerError;
use crate::elements::aux_row;
use crate::scalar::Scalar;
use crate::stamp::lemma_without_row_free;
use crate::system::{MatrixStamp, System, VectorStamp, matrix_within, vector_within};

verus! {

/// The number of elements whose current is an unknown of its own.
pub open spec fn aux_count(elements: Seq<Element>) -> nat
    decreases elements.len(),
{
    if elements.len() == 0 {
        0
    } else {
        aux_count(elements.drop_last()) + if elements.last().spec_is_b_c_element() {
            1nat
        } else {
            0nat
        }
    }
}

/// Whether the auxiliary indices of `elements` are below `m` and no two of
/// them are equal.
pub open spec fn aux_indices_below(elements: Seq<Element>, m: nat) -> bool {
    &&& forall|i: int|
        0 <= i < elements.len() ==> ((#[trigger] elements[i]).spec_aux_index() matches Some(k) ==> k
            < m)
    &&& forall|i: int, j: int|
        0 <= i < j < elements.len() && (#[trigger] elements[i]).spec_is_b_c_element() && (
        #[trigger] elements[j]).spec_is_b_c_element() ==> elements[i].spec_aux_index()
            != elements[j].spec_aux_index()
}

/// Whether the auxiliary indices of `elements` are `0, 1, 2, ...` in some
/// order: each is below the number of elements that have one, and no two are
/// equal.
pub open spec fn aux_indices_valid(elements: Seq<Element>) -> bool {
    aux_indices_below(elements, aux_count(elements))
}

/// The auxiliary indices that `elements` use.
pub open spec fn aux_index_set(elements: Seq<Element>) -> Set<int>
    decreases elements.len(),
{
    if elements.len() == 0 {
        Set::<int>::empty()
    } else {
        match elements.last().spec_aux_index() {
            Some(k) => aux_index_set(elements.drop_last()).insert(k as int),
            None => aux_index_set(elements.drop_last()),
        }
    }
}

/// Whether `element` has the auxiliary index `index`.
pub open spec fn has_aux_index(element: Element, index: int) -> bool {
    element.spec_aux_index() matches Some(k) && k == index
}

/// The set of the auxiliary indices in use: with indices below `m` and
/// pairwise distinct it has as many members as there are elements with an
/// index, lies in `0 .. m`, and holds exactly the indices of the elements.
proof fn lemma_aux_index_set(elements: Seq<Element>, m: nat)
    requires
        aux_indices_below(elements, m),
    ensures
        aux_index_set(elements).finite(),
        aux_index_set(elements).len() == aux_count(elements),
        aux_index_set(elements).subset_of(set_int_range(0, m as int)),
        forall|k: int|
            aux_index_set(elements).contains(k) ==> exists|i: int|
                0 <= i < elements.len() && #[trigger] has_aux_index(elements[i], k),
        forall|k: int, i: int|
            0 <= i < elements.len() && #[trigger] has_aux_index(elements[i], k) ==> aux_index_set(
                elements,
            ).contains(k),
    decreases elements.len(),
{
    if elements.len() > 0 {
        let rest = elements.drop_last();
        let last = elements.len() - 1;
        assert(aux_indices_below(rest, m)) by {
            assert forall|i: int| 0 <= i < rest.len() implies ((#[trigger] rest[i]).spec_aux_index() matches Some(
                k,
            ) ==> k < m) by {
                assert(rest[i] == elements[i]);
            }
            assert forall|i: int, j: int|
                0 <= i < j < rest.len() && (#[trigger] rest[i]).spec_is_b_c_element() && (
                #[trigger] rest[j]).spec_is_b_c_element() implies rest[i].spec_aux_index()
                != rest[j].spec_aux_index() by {
                assert(rest[i] == elements[i] && rest[j] == elements[j]);
            }
        }
        lemma_aux_index_set(rest, m);
        assert(elements[last].spec_aux_index() matches Some(k) ==> k < m);
        if elements.last().spec_aux_index() is Some {
            let own = elements.last().spec_aux_index()->0;
            if aux_index_set(rest).contains(own as int) {
                let i = choose|i: int| 0 <= i < rest.len() && #[trigger] has_aux_index(rest[i], own as int);
                assert(rest[i] == elements[i]);
                assert(elements[i].spec_is_b_c_element() && elements[last].spec_is_b_c_element());
                assert(false);
            }
        }
        assert forall|k: int| aux_index_set(elements).contains(k) implies exists|i: int|
            0 <= i < elements.len() && #[trigger] has_aux_index(elements[i], k) by {
            if has_aux_index(elements[last], k) {
            } else {
                assert(aux_index_set(rest).contains(k));
                let i = choose|i: int| 0 <= i < rest.len() && #[trigger] has_aux_index(rest[i], k);
                assert(rest[i] == elements[i]);
                assert(has_aux_index(elements[i], k));
            }
        }
        assert forall|k: int, i: int|
            0 <= i < elements.len() && #[trigger] has_aux_index(elements[i], k) implies aux_index_set(
            elements,
        ).contains(k) by {
            if i < last {
                assert(rest[i] == elements[i]);
                assert(has_aux_index(rest[i], k));
            }
        }
    }
}

/// Valid auxiliary indices leave no gap: each of `0, 1, ..., m - 1`, where
/// `m` elements have an auxiliary index, is the index of one of them.
pub proof fn lemma_aux_indices_span(elements: Seq<Element>, index: usize)
    requires
        aux_indices_valid(elements),
        index < aux_count(elements),
    ensures
        exists|i: int| 0 <= i < elements.len() && (#[trigger] elements[i]).spec_aux_index() == Some(index),
{
    let m = aux_count(elements);
    lemma_aux_index_set(elements, m);
    lemma_int_range(0, m as int);
    lemma_subset_equality(aux_index_set(elements), set_int_range(0, m as int));
    assert(set_int_range(0, m as int).contains(index as int));
    assert(aux_index_set(elements).contains(index as int));
    let i = choose|i: int| 0 <= i < elements.len() && #[trigger] has_aux_index(elements[i], index as int);
    assert(elements[i].spec_aux_index() == Some(index));
}

/// The matrix stamps of `elements` in a circuit of `n` nodes, element after
/// element.
pub open spec fn assembled_matrix(elements: Seq<Element>, n: usize) -> Seq<MatrixStamp>
    decreases elements.len(),
{
    if elements.len() == 0 {
        Seq::<MatrixStamp>::empty()
    } else {
        assembled_matrix(elements.drop_last(), n) + elements.last().matrix_stamps(n)
    }
}

/// The right-hand side stamps of `elements` in a circuit of `n` nodes,
/// element after element.
pub open spec fn assembled_vector(elements: Seq<Element>, n: usize) -> Seq<VectorStamp>
    decreases elements.len(),
{
    if elements.len() == 0 {
        Seq::<VectorStamp>::empty()
    } else {
        assembled_vector(elements.drop_last(), n) + elements.last().vector_stamps(n)
    }
}

/// The stamps of elements that all fit a circuit of `n` nodes and `m`
/// auxiliary unknowns lie inside the system of that circuit.
pub proof fn lemma_assembled_within(elements: Seq<Element>, n: usize, m: nat)
    requires
        n >= 1,
        n - 1 + m <= usize::MAX,
        forall|i: int| 0 <= i < elements.len() ==> (#[trigger] elements[i]).fits(n as nat, m),
    ensures
        matrix_within(assembled_matrix(elements, n), n - 1 + m),
        vector_within(assembled_vector(elements, n), n - 1 + m),
    decreases elements.len(),
{
    if elements.len() > 0 {
        lemma_assembled_within(elements.drop_last(), n, m);
        elements.last().lemma_stamps_within(n, m);
    }
}

/// Counts the elements whose current is an unknown of its own.
pub fn aux_total(elements: &[Element]) -> (m: usize)
    ensures
        m == aux_count(elements@),
{
    let mut m: usize = 0;
    let mut i: usize = 0;
    while i < elements.len()
        invariant
            i <= elements.len(),
            m <= i,
            m == aux_count(elements@.take(i as int)),
        decreases elements.len() - i,
    {
        assert(elements@.take(i + 1).drop_last() =~= elements@.take(i as int));
        if elements[i].is_b_c_element() {
            m = m + 1;
        }
        i = i + 1;
    }
    assert(elements@.take(i as int) =~= elements@);
    m
}

/// Checks that the auxiliary indices are below `m` and pairwise distinct.
fn aux_indices_in_range(elements: &[Element], m: usize) -> (ok: bool)
    ensures
        ok == aux_indices_below(elements@, m as nat),
{
    let mut seen: Vec<bool> = vec![false; m];
    let mut i: usize = 0;
    while i < elements.len()
        invariant
            i <= elements.len(),
            seen@.len() == m,
            aux_indices_below(elements@.take(i as int), m as nat),
            forall|k: int|
                0 <= k < m ==> (#[trigger] seen@[k] <==> exists|j: int|
                    0 <= j < i && (#[trigger] elements@[j]).spec_aux_index() == Some(k as usize)),
        decreases elements.len() - i,
    {
        match elements[i].aux_index() {
            Some(k) => {
                if k >= m {
                    return false;
                }
                if seen[k] {
                    let ghost j = choose|j: int|
                        0 <= j < i && (#[trigger] elements@[j]).spec_aux_index() == Some(k);
                    assert(elements@[j].spec_is_b_c_element() && elements@[i as int].spec_is_b_c_element());
                    return false;
                }
                seen.set(k, true);
            },
            None => {},
        }
        assert forall|a: int, b: int|
            0 <= a < b < i + 1 && (#[trigger] elements@.take(i + 1)[a]).spec_is_b_c_element() && (
            #[trigger] elements@.take(i + 1)[b]).spec_is_b_c_element() implies elements@.take(
            i + 1,
        )[a].spec_aux_index() != elements@.take(i + 1)[b].spec_aux_index() by {
            if b < i {
                assert(elements@.take(i as int)[a].spec_is_b_c_element());
                assert(elements@.take(i as int)[b].spec_is_b_c_element());
            } else {
                assert(elements@[a] == elements@.take(i as int)[a]);
            }
        }
        assert forall|a: int| 0 <= a < i + 1 implies ((
        #[trigger] elements@.take(i + 1)[a]).spec_aux_index() matches Some(k) ==> k < m) by {
            if a < i {
                assert(elements@.take(i as int)[a] == elements@[a]);
            }
        }
        i = i + 1;
    }
    assert(elements@.take(i as int) =~= elements@);
    true
}

/// Whether a machine integer holds the number of unknowns of the system of
/// `circuit`, as [`dc_op`] requires.
pub fn system_fits(circuit: &Circuit) -> (fits: bool)
    ensures
        fits == (circuit.spec_node_count() - 1 + aux_count(circuit.spec_elements()) <= usize::MAX),
{
    let n: usize = circuit.node_count();
    let m: usize = aux_total(circuit.elements());
    if n == 0 {
        true
    } else {
        (n - 1).checked_add(m).is_some()
    }
}

/// Elements that fit the circuit and of which none has the auxiliary index
/// `index` put nothing into the row of that index.
proof fn lemma_row_unclaimed(elements: Seq<Element>, n: usize, m: nat, index: usize)
    requires
        n >= 1,
        index < m,
        n - 1 + m <= usize::MAX,
        forall|i: int| 0 <= i < elements.len() ==> (#[trigger] elements[i]).fits(n as nat, m),
        forall|i: int| 0 <= i < elements.len() ==> (#[trigger] elements[i]).spec_aux_index() != Some(index),
    ensures
        forall|j: int|
            0 <= j < assembled_vector(elements, n).len() ==> (#[trigger] assembled_vector(
                elements,
                n,
            )[j]).row != aux_row(n, index),
    decreases elements.len(),
{
    if elements.len() > 0 {
        let rest = elements.drop_last();
        let last = elements.last();
        assert forall|i: int| 0 <= i < rest.len() implies (#[trigger] rest[i]).fits(n as nat, m)
            && rest[i].spec_aux_index() != Some(index) by {
            assert(rest[i] == elements[i]);
        }
        lemma_row_unclaimed(rest, n, m, index);
        assert(last == elements[elements.len() - 1]);
        assert(last.fits(n as nat, m) && last.spec_aux_index() != Some(index));
        assert forall|j: int| 0 <= j < last.vector_stamps(n).len() implies (
        #[trigger] last.vector_stamps(n)[j]).row != aux_row(n, index) by {}
    }
}

/// Assembles the system whose solution is the operating point of `circuit`.
///
/// The elements are stamped in the order in which they were added, into an
/// empty system. A circuit without a node besides ground is refused with
/// `ZeroNode`, before anything else is looked at. A circuit whose auxiliary
/// indices are not `0, 1, 2, ...`, each used once, is refused with
/// `AuxiliaryIndex`. With such indices the row of every auxiliary unknown is
/// set once, by its own element, and holds that element's voltage alone.
pub fn dc_op(circuit: &Circuit) -> (result: Result<System, RunnerError>)
    requires
        circuit.well_formed(),
        circuit.spec_node_count() - 1 + aux_count(circuit.spec_elements()) <= usize::MAX,
    ensures
        match result {
            Ok(system) => {
                &&& circuit.spec_node_count() >= 2
                &&& aux_indices_valid(circuit.spec_elements())
                &&& system.size == circuit.spec_node_count() - 1 + aux_count(circuit.spec_elements())
                &&& system.matrix@ == assembled_matrix(
                    circuit.spec_elements(),
                    circuit.spec_node_count() as usize,
                )
                &&& system.vector@ == assembled_vector(
                    circuit.spec_elements(),
                    circuit.spec_node_count() as usize,
                )
                &&& system.well_formed()
            },
            Err(RunnerError::ZeroNode) => circuit.spec_node_count() <= 1,
            Err(RunnerError::AuxiliaryIndex) => circuit.spec_node_count() >= 2 && !aux_indices_valid(
                circuit.spec_elements(),
            ),
            Err(RunnerError::MalformedCircuit) => false,
        },
{
    let n: usize = circuit.node_count();
    if n <= 1 {
        return Err(RunnerError::ZeroNode);
    }
    let elements: &[Element] = circuit.elements();
    let m: usize = aux_total(elements);
    if !aux_indices_in_range(elements, m) {
        return Err(RunnerError::AuxiliaryIndex);
    }
    let size: usize = n - 1 + m;

    let mut a_matrix: Vec<MatrixStamp> = Vec::new();
    let mut z_vector: Vec<VectorStamp> = Vec::new();
    assert forall|j: int| 0 <= j < elements@.len() implies (#[trigger] elements@[j]).fits(
        n as nat,
        m as nat,
    ) by {
        assert(circuit.spec_elements()[j].wired_within(circuit.spec_node_count()));
    }

    let mut i: usize = 0;
    while i < elements.len()
        invariant
            i <= elements.len(),
            n >= 2,
            n - 1 + m <= usize::MAX,
            aux_indices_below(elements@, m as nat),
            forall|j: int| 0 <= j < elements@.len() ==> (#[trigger] elements@[j]).fits(n as nat, m as nat),
            a_matrix@ == assembled_matrix(elements@.take(i as int), n),
            z_vector@ == assembled_vector(elements@.take(i as int), n),
        decreases elements.len() - i,
    {
        assert(elements@.take(i + 1).drop_last() =~= elements@.take(i as int));
        proof {
            // The row of an auxiliary unknown is still empty when its element
            // sets it: no other element has the index.
            let before = elements@.take(i as int);
            assert(elements@[i as int].fits(n as nat, m as nat));
            if elements@[i as int].spec_aux_index() is Some {
                let index = elements@[i as int].spec_aux_index()->0;
                assert forall|j: int| 0 <= j < before.len() implies (#[trigger] before[j]).fits(
                    n as nat,
                    m as nat,
                ) && before[j].spec_aux_index() != Some(index) by {
                    assert(before[j] == elements@[j]);
                    if elements@[j].spec_is_b_c_element() {
                        assert(elements@[i as int].spec_is_b_c_element());
                    }
                }
                lemma_row_unclaimed(before, n, m as nat, index);
                lemma_without_row_free(assembled_vector(before, n), aux_row(n, index));
            }
        }
        elements[i].stamp(&mut a_matrix, &mut z_vector, n, m);
        i = i + 1;
    }
    assert(elements@.take(i as int) =~= elements@);
    proof {
        lemma_assembled_within(elements@, n, m as nat);
    }
    Ok(System { size, matrix: a_matrix, vector: z_vector })
}

/// The voltage of `node` in the solution `x` of a circuit of `n` nodes:
/// zero for ground, the unknown `node - 1` for every other node, and none
/// for what is no node of the circuit or has no entry in `x`.
pub open spec fn spec_node_voltage(n: nat, x: Seq<Scalar>, node: NodeId) -> Option<Scalar> {
    if node.0 >= n {
        None
    } else if node.0 == 0 {
        Some(Scalar::spec_zero())
    } else if node.0 - 1 < x.len() {
        Some(x[node.0 - 1])
    } else {
        None
    }
}

/// The voltage of `node` where `x` solves the system of `circuit`.
pub fn node_voltage(circuit: &Circuit, x: &[Scalar], node: NodeId) -> (v: Option<Scalar>)
    ensures
        v == spec_node_voltage(circuit.spec_node_count(), x@, node),
{
    if node.0 >= circuit.node_count() {
        None
    } else if node.0 == 0 {
        Some(Scalar::zero())
    } else if node.0 - 1 < x.len() {
        Some(x[node.0 - 1])
    } else {
        None
    }
}

/// The current through the element with the auxiliary index `index` in the
/// solution `x` of a circuit of `n` nodes: the entry that follows the
/// `n - 1` node voltages and the currents of lower index, if `x` has it.
pub open spec fn spec_branch_current(n: nat, x: Seq<Scalar>, index: usize) -> Option<Scalar> {
    if n >= 1 && n - 1 + index < x.len() {
        Some(x[n - 1 + index])
    } else {
        None
    }
}

/// The current through the element with the auxiliary index `index` where
/// `x` solves the system of `circuit`.
pub fn branch_current(circuit: &Circuit, x: &[Scalar], index: usize) -> (i: Option<Scalar>)
    ensures
        i == spec_branch_current(circuit.spec_node_count(), x@, index),
{
    let n: usize = circuit.node_count();
    if n >= 1 && index < x.len() && n - 1 < x.len() - index {
        Some(x[n - 1 + index])
    } else {
        None
    }
}

} // verus!
