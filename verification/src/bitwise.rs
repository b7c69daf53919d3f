//! Bit-level addressing of basis states: qubit `q` is bit `q` of the index.

use vstd::prelude::*;

verus! {

/// Largest number of qubits an index may address.
pub const MAX_QUBITS: usize = 32;

/// The mask that selects qubit `qubit`.
pub open spec fn mask_of(qubit: usize) -> usize {
    1usize << qubit
}

/// Whether qubit `qubit` is 1 in basis state `index`. An index has no bits
/// beyond its width, so a qubit out there reads 0.
pub open spec fn bit_is_set(index: usize, qubit: usize) -> bool {
    qubit < usize::BITS && index & mask_of(qubit) != 0
}

/// Basis state `index` with qubit `qubit` toggled.
pub open spec fn flipped(index: usize, qubit: usize) -> usize {
    index ^ mask_of(qubit)
}

/// Whether every listed control qubit is 1 in basis state `index`.
pub open spec fn all_set(index: usize, controls: Seq<usize>) -> bool {
    forall|i: int| 0 <= i < controls.len() ==> bit_is_set(index, #[trigger] controls[i])
}

/// Number of basis states of `num_qubits` qubits.
pub open spec fn dimension(num_qubits: usize) -> usize {
    1usize << num_qubits
}

/// Whether toggling qubit `qubit` maps every index below `len` to an index
/// below `len`.
pub open spec fn closed_under_flip(len: usize, qubit: usize) -> bool {
    forall|index: usize| index < len ==> #[trigger] flipped(index, qubit) < len
}

/// Tests whether qubit `qubit` is 1 in basis state `index`.
pub fn is_one_at(index: usize, qubit: usize) -> (r: bool)
    ensures
        r == bit_is_set(index, qubit),
{
    qubit < usize::BITS as usize && index & (1usize << qubit) != 0
}

/// Toggles qubit `qubit` in basis state `index`.
pub fn bit_flip(index: usize, qubit: usize) -> (r: usize)
    requires
        qubit < usize::BITS,
    ensures
        r == flipped(index, qubit),
{
    index ^ (1usize << qubit)
}

/// Tests whether every listed control qubit is 1 in basis state `index`; with
/// no control listed, that holds.
pub fn ctrl_check(index: usize, controls: &[usize]) -> (r: bool)
    ensures
        r == all_set(index, controls@),
{
    let mut k: usize = 0;
    while k < controls.len()
        invariant
            k <= controls@.len(),
            forall|i: int| 0 <= i < k ==> bit_is_set(index, #[trigger] controls@[i]),
        decreases controls@.len() - k,
    {
        if !is_one_at(index, controls[k]) {
            return false;
        }
        k += 1;
    }
    true
}

/// Toggling a qubit of a register never leaves the register's index range.
pub proof fn lemma_flip_in_range(num_qubits: usize, qubit: usize)
    requires
        num_qubits < usize::BITS,
        qubit < num_qubits,
    ensures
        closed_under_flip(dimension(num_qubits), qubit),
{
    assert forall|index: usize| index < dimension(num_qubits) implies #[trigger] flipped(
        index,
        qubit,
    ) < dimension(num_qubits) by {
        lemma_flip_below(index, num_qubits, qubit);
    }
}

/// Toggling a qubit twice gives the index back.
pub proof fn lemma_flip_twice(index: usize, qubit: usize)
    ensures
        flipped(flipped(index, qubit), qubit) == index,
{
    let mask = mask_of(qubit);
    assert((index ^ mask) ^ mask == index) by (bit_vector);
}

/// Toggling a qubit changes what that qubit reads.
pub proof fn lemma_flip_own_bit(index: usize, qubit: usize)
    requires
        qubit < usize::BITS,
    ensures
        bit_is_set(flipped(index, qubit), qubit) == !bit_is_set(index, qubit),
{
    assert(((index ^ (1usize << qubit)) & (1usize << qubit) != 0) == !(index & (1usize << qubit)
        != 0)) by (bit_vector)
        requires
            qubit < usize::BITS,
    ;
}

/// Toggling a qubit leaves what every other qubit reads.
pub proof fn lemma_flip_other_bit(index: usize, qubit: usize, other: usize)
    requires
        qubit < usize::BITS,
        other != qubit,
    ensures
        bit_is_set(flipped(index, qubit), other) == bit_is_set(index, other),
{
    if other < usize::BITS {
        assert(((index ^ (1usize << qubit)) & (1usize << other) != 0) == (index & (1usize
            << other) != 0)) by (bit_vector)
            requires
                qubit < usize::BITS,
                other < usize::BITS,
                other != qubit,
        ;
    }
}

/// Toggling a qubit that is no control leaves the control check as it was.
pub proof fn lemma_flip_keeps_controls(index: usize, qubit: usize, controls: Seq<usize>)
    requires
        qubit < usize::BITS,
        !controls.contains(qubit),
    ensures
        all_set(flipped(index, qubit), controls) == all_set(index, controls),
{
    assert forall|i: int| 0 <= i < controls.len() implies bit_is_set(
        flipped(index, qubit),
        #[trigger] controls[i],
    ) == bit_is_set(index, controls[i]) by {
        lemma_flip_other_bit(index, qubit, controls[i]);
    }
}

proof fn lemma_flip_below(index: usize, num_qubits: usize, qubit: usize)
    by (bit_vector)
    requires
        num_qubits < usize::BITS,
        qubit < num_qubits,
        index < (1usize << num_qubits),
    ensures
        index ^ (1usize << qubit) < (1usize << num_qubits),
{
}

} // verus!
