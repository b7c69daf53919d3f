//! Sparse snapshots of a state, repacked to a chosen list of qubits.

use crate::amplitude::{
    amp_from_ints, amp_mul, amp_norm, amp_unscale, greater, lattice, magnitude_of, one, product,
    real_greater, unscaled,
};
use crate::bitwise::{bit_is_set, is_one_at};
use crate::dense::Dense;
use num::complex::Complex64;
use vstd::arithmetic::power2::{lemma2_to64, lemma_pow2_strictly_increases, lemma_pow2_unfold, pow2};
use vstd::prelude::*;

verus! {

/// The magnitude above which an amplitude is reported: one part in ten to
/// the fifteenth, on the real axis.
pub open spec fn negligible() -> Complex64 {
    unscaled(one(), product(lattice(1_000_000, 0), lattice(1_000_000_000, 0)))
}

/// Whether `norms` holds, index by index, what the magnitudes of the
/// amplitudes of `state` came out as.
pub open spec fn are_magnitudes(state: Seq<Complex64>, norms: Seq<Complex64>) -> bool {
    &&& norms.len() == state.len()
    &&& forall|s: int| 0 <= s < state.len() ==> magnitude_of(state[s], #[trigger] norms[s])
}

/// Whether `keep` marks the indices whose magnitude, as `norms` gives it, is
/// greater than the reporting threshold.
pub open spec fn marks_significant(keep: Seq<bool>, norms: Seq<Complex64>) -> bool {
    &&& keep.len() == norms.len()
    &&& forall|s: int| 0 <= s < keep.len() ==> keep[s] == greater(norms[s], negligible())
}

/// Whether `keep` marks the indices of `state` at which the magnitude of the
/// amplitude came out greater than the reporting threshold.
pub open spec fn is_significance(state: Seq<Complex64>, keep: Seq<bool>) -> bool {
    exists|norms: Seq<Complex64>|
        are_magnitudes(state, norms) && #[trigger] marks_significant(keep, norms)
}

/// Most qubits that one packed value can hold.
pub const MAX_PACKED: usize = 64;

/// The number whose binary digits are the values that the listed qubits have
/// in basis state `index`, the first listed qubit being the most significant.
pub open spec fn packed(index: usize, qubits: Seq<usize>) -> nat
    decreases qubits.len(),
{
    if qubits.len() == 0 {
        0
    } else {
        2 * packed(index, qubits.drop_last()) + if bit_is_set(index, qubits.last()) {
            1nat
        } else {
            0nat
        }
    }
}

/// The indices below `n` that `keep` marks, in increasing order.
pub open spec fn kept_below(keep: Seq<bool>, n: nat) -> Seq<int>
    decreases n,
{
    if n == 0 {
        Seq::empty()
    } else {
        let rest = kept_below(keep, (n - 1) as nat);
        if keep[n - 1] {
            rest.push(n - 1)
        } else {
            rest
        }
    }
}

/// The snapshot of `state` on `qubits`: for every index that `keep` marks, in
/// increasing order, its packed value and its amplitude.
pub open spec fn snapshot(state: Seq<Complex64>, qubits: Seq<usize>, keep: Seq<bool>) -> Seq<
    (u64, Complex64),
> {
    kept_below(keep, state.len()).map_values(
        |s: int| (packed(s as usize, qubits) as u64, state[s]),
    )
}

/// A snapshot as parallel sequences: entry `k` has the packed value
/// `basis_states[k]`, a single word, and the amplitude `amplitudes[k]`.
pub struct DumpData {
    pub basis_states: Vec<Vec<u64>>,
    pub amplitudes: Vec<Complex64>,
}

impl DumpData {
    /// The sequences have one length and every packed value is one word.
    pub open spec fn wf(&self) -> bool {
        &&& self.basis_states@.len() == self.amplitudes@.len()
        &&& forall|k: int|
            0 <= k < self.basis_states@.len() ==> (#[trigger] self.basis_states@[k])@.len() == 1
    }

    /// The entries as pairs of packed value and amplitude.
    pub open spec fn entries(&self) -> Seq<(u64, Complex64)> {
        Seq::new(
            self.amplitudes@.len(),
            |k: int| (self.basis_states@[k]@[0], self.amplitudes@[k]),
        )
    }
}

/// `kept_below` lists exactly the marked indices below `n`, each once and in
/// increasing order.
pub proof fn lemma_kept_below(keep: Seq<bool>, n: nat)
    requires
        n <= keep.len(),
    ensures
        kept_below(keep, n).len() <= n,
        forall|k: int|
            0 <= k < kept_below(keep, n).len() ==> 0 <= #[trigger] kept_below(keep, n)[k] < n
                && keep[kept_below(keep, n)[k]],
        forall|j: int, k: int|
            0 <= j < k < kept_below(keep, n).len() ==> kept_below(keep, n)[j] < kept_below(
                keep,
                n,
            )[k],
        forall|s: int| 0 <= s < n && keep[s] ==> kept_below(keep, n).contains(s),
    decreases n,
{
    if n > 0 {
        let before = kept_below(keep, (n - 1) as nat);
        let now = kept_below(keep, n);
        lemma_kept_below(keep, (n - 1) as nat);
        assert forall|s: int| 0 <= s < n && keep[s] implies now.contains(s) by {
            if s < n - 1 {
                let k = choose|k: int| 0 <= k < before.len() && before[k] == s;
                assert(now[k] == s);
            } else {
                assert(now[now.len() - 1] == s);
            }
        }
    }
}

/// The basis state in which every qubit reads 0 packs to 0, whatever qubits
/// are asked for.
pub proof fn lemma_packed_zero(qubits: Seq<usize>)
    ensures
        packed(0, qubits) == 0,
    decreases qubits.len(),
{
    if qubits.len() > 0 {
        lemma_packed_zero(qubits.drop_last());
        let qubit = qubits.last();
        assert(0usize & (1usize << qubit) == 0) by (bit_vector);
    }
}

/// A packed value of `len` qubits is below two to the `len`.
pub proof fn lemma_packed_bound(index: usize, qubits: Seq<usize>)
    ensures
        packed(index, qubits) < pow2(qubits.len()),
    decreases qubits.len(),
{
    if qubits.len() == 0 {
        lemma2_to64();
    } else {
        lemma_packed_bound(index, qubits.drop_last());
        lemma_pow2_unfold(qubits.len());
    }
}

/// Packs the values that the listed qubits have in basis state `index` into
/// one word, the first listed qubit being the most significant bit.
pub fn pack(index: usize, qubits: &[usize]) -> (r: u64)
    requires
        qubits@.len() <= MAX_PACKED,
    ensures
        r == packed(index, qubits@),
{
    let mut acc: u64 = 0;
    let mut i: usize = 0;
    while i < qubits.len()
        invariant
            i <= qubits@.len() <= MAX_PACKED,
            acc == packed(index, qubits@.take(i as int)),
        decreases qubits@.len() - i,
    {
        proof {
            let longer = qubits@.take(i + 1);
            assert(longer.drop_last() == qubits@.take(i as int));
            lemma_packed_bound(index, longer);
            lemma2_to64();
            if i + 1 < 64 {
                lemma_pow2_strictly_increases((i + 1) as nat, 64);
            }
        }
        let bit: u64 = if is_one_at(index, qubits[i]) { 1 } else { 0 };
        acc = 2 * acc + bit;
        i += 1;
    }
    assert(qubits@.take(i as int) == qubits@);
    acc
}

/// Computes the reporting threshold.
pub fn threshold() -> (r: Complex64)
    ensures
        r == negligible(),
{
    let scale = amp_mul(amp_from_ints(1_000_000, 0), amp_from_ints(1_000_000_000, 0));
    amp_unscale(amp_from_ints(1, 0), scale)
}

impl Dense {
    /// For every basis index, whether the magnitude of its amplitude is above
    /// the reporting threshold.
    pub fn significant(&self) -> (r: Vec<bool>)
        ensures
            r@.len() == self@.len(),
            is_significance(self@, r@),
    {
        let state = self.get_current_state();
        let bound = threshold();
        let mut flags: Vec<bool> = Vec::new();
        let ghost mut norms: Seq<Complex64> = Seq::empty();
        let mut s: usize = 0;
        while s < state.len()
            invariant
                s <= state@.len(),
                state@ == self@,
                bound == negligible(),
                flags@.len() == s,
                marks_significant(flags@, norms),
                are_magnitudes(state@.take(s as int), norms),
            decreases state@.len() - s,
        {
            let norm = amp_norm(state[s]);
            flags.push(real_greater(norm, bound));
            proof {
                norms = norms.push(norm);
            }
            s += 1;
        }
        assert(state@.take(s as int) == state@);
        assert(are_magnitudes(self@, norms) && marks_significant(flags@, norms));
        flags
    }

    /// The snapshot of the present state on `qubits`: the entries whose
    /// magnitude is above the reporting threshold. The state is left as it is.
    pub fn dump(&self, qubits: &[usize]) -> (r: DumpData)
        requires
            qubits@.len() <= MAX_PACKED,
        ensures
            r.wf(),
            exists|keep: Seq<bool>| #[trigger]
                is_significance(self@, keep) && r.entries() == snapshot(self@, qubits@, keep),
    {
        let flags = self.significant();
        let r = self.dump_selected(qubits, flags.as_slice());
        assert(is_significance(self@, flags@) && r.entries() == snapshot(
            self@,
            qubits@,
            flags@,
        ));
        r
    }

    /// The snapshot of the present state on `qubits`, holding the entries
    /// that `significant` marks. The state is left as it is.
    pub fn dump_selected(&self, qubits: &[usize], significant: &[bool]) -> (r: DumpData)
        requires
            qubits@.len() <= MAX_PACKED,
            significant@.len() == self@.len(),
        ensures
            r.wf(),
            r.entries() == snapshot(self@, qubits@, significant@),
    {
        let state = self.get_current_state();
        let mut basis_states: Vec<Vec<u64>> = Vec::new();
        let mut amplitudes: Vec<Complex64> = Vec::new();
        let mut s: usize = 0;
        while s < state.len()
            invariant
                s <= state@.len(),
                state@ == self@,
                significant@.len() == state@.len(),
                qubits@.len() <= MAX_PACKED,
                basis_states@.len() == amplitudes@.len(),
                amplitudes@.len() == kept_below(significant@, s as nat).len(),
                forall|k: int|
                    0 <= k < basis_states@.len() ==> (#[trigger] basis_states@[k])@ == seq![
                        packed(kept_below(significant@, s as nat)[k] as usize, qubits@) as u64,
                    ],
                forall|k: int|
                    0 <= k < amplitudes@.len() ==> #[trigger] amplitudes@[k] == state@[kept_below(
                        significant@,
                        s as nat,
                    )[k]],
            decreases state@.len() - s,
        {
            if significant[s] {
                let mut word: Vec<u64> = Vec::new();
                word.push(pack(s, qubits));
                basis_states.push(word);
                amplitudes.push(state[s]);
            }
            s += 1;
        }
        let r = DumpData { basis_states, amplitudes };
        assert(r.entries() =~= snapshot(self@, qubits@, significant@));
        r
    }
}

} // verus!
