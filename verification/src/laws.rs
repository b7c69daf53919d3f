//! What holds of the updates as transforms of whole states.

use crate::amplitude::{imaginary_unit, negated, one, product, zero};
use crate::bitwise::{
    all_set, bit_is_set, dimension, flipped, lemma_flip_in_range, lemma_flip_keeps_controls,
    lemma_flip_own_bit, lemma_flip_twice,
};
use crate::dense::{in_register, initial_state};
use crate::dump::{kept_below, lemma_kept_below, lemma_packed_zero, snapshot};
use crate::kernel::Kernel;
use num::complex::Complex64;
use vstd::prelude::*;
use vstd::seq_lib::to_multiset_update;

verus! {

/// Whether `state` holds one amplitude per basis state of `num_qubits` qubits.
pub open spec fn is_state_of(state: Seq<Complex64>, num_qubits: usize) -> bool {
    &&& num_qubits < usize::BITS
    &&& state.len() == dimension(num_qubits)
}

/// Whether `kernel` is a gate whose output amplitude comes from one input
/// amplitude.
pub open spec fn is_single_term_gate(kernel: Kernel) -> bool {
    kernel is PauliX || kernel is PauliY || kernel is PauliZ || kernel is Phase || kernel is RZ
}

/// Pauli-X is an involution: applied twice to the same target under the same
/// controls, none of which is the target, it gives back the state it started
/// from.
pub proof fn lemma_pauli_x_involution(
    state: Seq<Complex64>,
    num_qubits: usize,
    target: usize,
    controls: Seq<usize>,
)
    requires
        is_state_of(state, num_qubits),
        in_register(num_qubits, target, controls),
        !controls.contains(target),
    ensures
        Kernel::PauliX.apply(Kernel::PauliX.apply(state, target, controls), target, controls)
            == state,
{
    let once = Kernel::PauliX.apply(state, target, controls);
    let twice = Kernel::PauliX.apply(once, target, controls);
    lemma_flip_in_range(num_qubits, target);
    assert forall|k: int| 0 <= k < state.len() implies twice[k] == state[k] by {
        let s = k as usize;
        lemma_flip_twice(s, target);
        lemma_flip_keeps_controls(s, target, controls);
    }
    assert(twice =~= state);
}

/// Pauli-Y applied twice to the same target under the same controls, none of
/// which is the target, brings every amplitude back to its own index: where
/// every control reads 1 it comes back multiplied by `i` and by `-i`, in the
/// order that the target's branch gives, and elsewhere as it was.
pub proof fn lemma_pauli_y_twice(
    state: Seq<Complex64>,
    num_qubits: usize,
    target: usize,
    controls: Seq<usize>,
    s: usize,
)
    requires
        is_state_of(state, num_qubits),
        in_register(num_qubits, target, controls),
        !controls.contains(target),
        s < state.len(),
    ensures
        Kernel::PauliY.apply(
            Kernel::PauliY.apply(state, target, controls),
            target,
            controls,
        )[s as int] == if !all_set(s, controls) {
            state[s as int]
        } else if bit_is_set(s, target) {
            product(product(state[s as int], negated(imaginary_unit())), imaginary_unit())
        } else {
            product(product(state[s as int], imaginary_unit()), negated(imaginary_unit()))
        },
{
    lemma_flip_in_range(num_qubits, target);
    lemma_flip_twice(s, target);
    lemma_flip_own_bit(s, target);
    lemma_flip_keeps_controls(s, target, controls);
}

/// A rotation about Z followed by the rotation by the opposite angle, whose
/// two phases are the first one's exchanged, brings every amplitude back to
/// its own index: where every control reads 1 it comes back multiplied by
/// both phases, and elsewhere as it was.
pub proof fn lemma_rz_then_opposite(
    state: Seq<Complex64>,
    num_qubits: usize,
    phase_0: Complex64,
    phase_1: Complex64,
    target: usize,
    controls: Seq<usize>,
    s: usize,
)
    requires
        is_state_of(state, num_qubits),
        in_register(num_qubits, target, controls),
        s < state.len(),
    ensures
        (Kernel::RZ { phase_0: phase_1, phase_1: phase_0 }).apply(
            (Kernel::RZ { phase_0, phase_1 }).apply(state, target, controls),
            target,
            controls,
        )[s as int] == if !all_set(s, controls) {
            state[s as int]
        } else if bit_is_set(s, target) {
            product(product(state[s as int], phase_1), phase_0)
        } else {
            product(product(state[s as int], phase_0), phase_1)
        },
{
}

/// A single-term gate leaves every amplitude whose index fails the control
/// check as it was.
pub proof fn lemma_ungated_amplitude_unchanged(
    kernel: Kernel,
    state: Seq<Complex64>,
    target: usize,
    controls: Seq<usize>,
    s: usize,
)
    requires
        is_single_term_gate(kernel),
        s < state.len(),
        !all_set(s, controls),
    ensures
        kernel.apply(state, target, controls)[s as int] == state[s as int],
{
}

/// Control gating for Pauli-X: on a state in which every amplitude that is
/// not 0 has some control reading 0, Pauli-X under those controls, none of
/// which is the target, changes nothing.
pub proof fn lemma_pauli_x_control_gating(
    state: Seq<Complex64>,
    num_qubits: usize,
    target: usize,
    controls: Seq<usize>,
)
    requires
        is_state_of(state, num_qubits),
        in_register(num_qubits, target, controls),
        !controls.contains(target),
        forall|s: usize| s < state.len() && state[s as int] != zero() ==> !all_set(s, controls),
    ensures
        Kernel::PauliX.apply(state, target, controls) == state,
{
    let after = Kernel::PauliX.apply(state, target, controls);
    lemma_flip_in_range(num_qubits, target);
    assert forall|k: int| 0 <= k < state.len() implies after[k] == state[k] by {
        let s = k as usize;
        lemma_flip_keeps_controls(s, target, controls);
        if all_set(s, controls) {
            assert(state[s as int] == zero());
            assert(state[flipped(s, target) as int] == zero());
        }
    }
    assert(after =~= state);
}

/// The index whose amplitude Pauli-X moves to index `s`.
pub open spec fn partner(s: int, target: usize, controls: Seq<usize>) -> int {
    if all_set(s as usize, controls) {
        flipped(s as usize, target) as int
    } else {
        s
    }
}

/// `state` with the pairs that Pauli-X exchanges exchanged where one index of
/// the pair is below `k`, and as it was elsewhere.
pub open spec fn exchanged_below(
    state: Seq<Complex64>,
    target: usize,
    controls: Seq<usize>,
    k: int,
) -> Seq<Complex64> {
    Seq::new(
        state.len(),
        |s: int|
            if s < k || partner(s, target, controls) < k {
                state[partner(s, target, controls)]
            } else {
                state[s]
            },
    )
}

proof fn lemma_partner(
    state: Seq<Complex64>,
    num_qubits: usize,
    target: usize,
    controls: Seq<usize>,
    s: int,
)
    requires
        is_state_of(state, num_qubits),
        in_register(num_qubits, target, controls),
        !controls.contains(target),
        0 <= s < state.len(),
    ensures
        0 <= partner(s, target, controls) < state.len(),
        partner(partner(s, target, controls), target, controls) == s,
{
    lemma_flip_in_range(num_qubits, target);
    lemma_flip_twice(s as usize, target);
    lemma_flip_keeps_controls(s as usize, target, controls);
}

proof fn lemma_exchanged_below(
    state: Seq<Complex64>,
    num_qubits: usize,
    target: usize,
    controls: Seq<usize>,
    k: int,
)
    requires
        is_state_of(state, num_qubits),
        in_register(num_qubits, target, controls),
        !controls.contains(target),
        0 <= k <= state.len(),
    ensures
        exchanged_below(state, target, controls, k).to_multiset() == state.to_multiset(),
    decreases k,
{
    if k == 0 {
        assert(exchanged_below(state, target, controls, 0) =~= state);
    } else {
        let i = k - 1;
        let p = partner(i, target, controls);
        let before = exchanged_below(state, target, controls, i);
        let after = exchanged_below(state, target, controls, k);
        lemma_exchanged_below(state, num_qubits, target, controls, i);
        lemma_partner(state, num_qubits, target, controls, i);
        assert forall|s: int| 0 <= s < state.len() implies 0 <= partner(s, target, controls)
            < state.len() && partner(partner(s, target, controls), target, controls) == s by {
            lemma_partner(state, num_qubits, target, controls, s);
        }
        if p > i {
            let half = before.update(i, state[p]);
            assert(before[i] == state[i]);
            assert(before[p] == state[p]);
            assert(after =~= half.update(p, state[i]));
            broadcast use vstd::multiset::group_multiset_axioms;

            to_multiset_update(before, i, state[p]);
            to_multiset_update(half, p, state[i]);
            before.to_multiset_ensures();
            assert(before.contains(state[i]));
            assert(half[p] == state[p]);
            assert(after.to_multiset() =~= before.to_multiset());
        } else {
            assert(after =~= before);
        }
    }
}

/// Pauli-X only moves amplitudes: under controls none of which is the
/// target, the state after it holds the same amplitudes as the state before
/// it, each as many times.
pub proof fn lemma_pauli_x_permutes(
    state: Seq<Complex64>,
    num_qubits: usize,
    target: usize,
    controls: Seq<usize>,
)
    requires
        is_state_of(state, num_qubits),
        in_register(num_qubits, target, controls),
        !controls.contains(target),
    ensures
        Kernel::PauliX.apply(state, target, controls).to_multiset() == state.to_multiset(),
{
    lemma_exchanged_below(state, num_qubits, target, controls, state.len() as int);
    assert(Kernel::PauliX.apply(state, target, controls) =~= exchanged_below(
        state,
        target,
        controls,
        state.len() as int,
    ));
}

/// Every output amplitude is read off two fixed input amplitudes, its own
/// and its partner's across the target: states that agree on those two agree
/// on the output, whatever the rest of them holds.
pub proof fn lemma_entry_reads_two_amplitudes(
    kernel: Kernel,
    a: Seq<Complex64>,
    b: Seq<Complex64>,
    s: usize,
    target: usize,
    controls: Seq<usize>,
)
    requires
        a[s as int] == b[s as int],
        a[flipped(s, target) as int] == b[flipped(s, target) as int],
    ensures
        kernel.entry(a, s, target, controls) == kernel.entry(b, s, target, controls),
{
}

/// A snapshot of the state in which every qubit reads 0, taken with only
/// index 0 marked, has one entry: packed value 0 with amplitude 1.
pub proof fn lemma_initial_snapshot(num_qubits: usize, qubits: Seq<usize>, keep: Seq<bool>)
    requires
        num_qubits < usize::BITS,
        keep.len() == dimension(num_qubits),
        forall|s: int| 0 <= s < keep.len() ==> keep[s] == (s == 0),
    ensures
        snapshot(initial_state(num_qubits), qubits, keep) == seq![(0u64, one())],
{
    let state = initial_state(num_qubits);
    let len = dimension(num_qubits);
    assert(len > 0) by (bit_vector)
        requires
            num_qubits < usize::BITS,
            len == 1usize << num_qubits,
    ;
    let kept = kept_below(keep, state.len());
    lemma_kept_below(keep, state.len());
    assert(keep[0]);
    assert(kept.contains(0));
    assert(kept.len() == 1) by {
        if kept.len() > 1 {
            assert(kept[0] < kept[1]);
            assert(keep[kept[1]]);
        }
    }
    assert(kept[0] == 0);
    lemma_packed_zero(qubits);
    assert(snapshot(state, qubits, keep) =~= seq![(0u64, one())]);
}

} // verus!
