//! Measurement: the weights of the two branches of a qubit, the draw from an
//! injected random source, and the factor that renormalises the branch drawn.

use crate::amplitude::{
    amp_add, amp_from_ints, amp_is_finite, amp_norm, amp_sub, amp_unscale, at_least,
    difference, finite, greater, magnitude_of, one, power_of, real_at_least, real_powi,
    real_root, real_sqrt, sum, unscaled, zero,
};
use crate::bitwise::{bit_is_set, is_one_at};
use crate::dense::Dense;
use crate::kernel::collapsed;
use crate::parallel::par_probability;
use num::complex::Complex64;
use rand::distributions::{Distribution, WeightedIndex};
use rand::rngs::StdRng;
use vstd::prelude::*;

verus! {

/// `rand::rngs::StdRng`, the random source, carried through without a look
/// inside.
#[verifier::external_type_specification]
#[verifier::external_body]
pub struct ExStdRng(rand::rngs::StdRng);

/// The weight of the 0-branch where the 1-branch weighs `w1`: what is left of
/// 1, or 0 where rounding has left less than nothing.
pub open spec fn complement(w1: Complex64) -> Complex64 {
    let rest = difference(one(), w1);
    if at_least(rest, zero()) {
        rest
    } else {
        zero()
    }
}

/// The factor that brings the branch drawn back to norm 1: one over the
/// square root of that branch's weight.
pub open spec fn normaliser(w1: Complex64, outcome: bool) -> Complex64 {
    unscaled(one(), real_root(if outcome { w1 } else { complement(w1) }))
}

/// `state` after a measurement of `target` that found the 1-branch to weigh
/// `w1` and drew `outcome`.
pub open spec fn measured(
    state: Seq<Complex64>,
    target: usize,
    outcome: bool,
    w1: Complex64,
) -> Seq<Complex64> {
    collapsed(state, target, outcome, normaliser(w1, outcome))
}

/// Whether `r` is what the square of the magnitude of `amp` came out as.
pub open spec fn is_squared_magnitude(amp: Complex64, r: Complex64) -> bool {
    exists|norm: Complex64| #[trigger] magnitude_of(amp, norm) && power_of(norm, 2, r)
}

/// Whether `r` is what the sum, over the indices of `state` at which `target`
/// reads 1, of the squared magnitudes of the amplitudes came out as. The
/// workers add in an order of their own and rounding follows that order.
pub uninterp spec fn one_branch_weight(state: Seq<Complex64>, target: usize, r: Complex64) -> bool;

/// What the amplitude at index `s` adds to the probability that `target`
/// reads 1: the square of its magnitude on the 1-branch, nothing on the
/// 0-branch.
pub fn branch_weight(amp: Complex64, s: usize, target: usize) -> (r: Complex64)
    ensures
        bit_is_set(s, target) ==> is_squared_magnitude(amp, r),
        !bit_is_set(s, target) ==> r == zero(),
{
    if is_one_at(s, target) {
        let norm = amp_norm(amp);
        let square = real_powi(norm, 2);
        assert(magnitude_of(amp, norm) && power_of(norm, 2, square));
        square
    } else {
        amp_from_ints(0, 0)
    }
}

/// Computes the weight of the 0-branch from that of the 1-branch.
pub fn complement_of(w1: Complex64) -> (w0: Complex64)
    ensures
        w0 == complement(w1),
{
    let rest = amp_sub(amp_from_ints(1, 0), w1);
    let nought = amp_from_ints(0, 0);
    if real_at_least(rest, nought) {
        rest
    } else {
        nought
    }
}

/// Whether the sampler takes the weights `w0` and `w1`: neither is negative
/// or a NaN, and they are not both 0. Of two weights that are at least 0 the
/// sum is not 0 exactly where it is greater than 0.
pub open spec fn accepted(w0: Complex64, w1: Complex64) -> bool {
    &&& at_least(w0, zero())
    &&& at_least(w1, zero())
    &&& greater(sum(w0, w1), zero())
}

/// Whether a qubit whose 1-branch weighs `w1` can be measured: the weights of
/// its two branches have a finite sum and the sampler takes them.
pub open spec fn drawable(w1: Complex64) -> bool {
    &&& finite(sum(complement(w1), w1))
    &&& accepted(complement(w1), w1)
}

/// Whether a measurement of `target` that found the 1-branch to weigh `w1`
/// gives `result` and makes `after` of `before`: it gives an outcome exactly
/// where the qubit can be measured, the branch drawn has a weight above 0,
/// and `after` is that branch, brought back to norm 1.
pub open spec fn is_measurement(
    before: Seq<Complex64>,
    after: Seq<Complex64>,
    target: usize,
    result: Option<bool>,
    w1: Complex64,
) -> bool {
    &&& result is Some <==> drawable(w1)
    &&& result == Some(false) ==> greater(complement(w1), zero())
    &&& result == Some(true) ==> greater(w1, zero())
    &&& result matches Some(outcome) ==> after == measured(before, target, outcome, w1)
}

/// `WeightedIndex::new` on the real parts of `w0` and `w1`, then `sample`:
/// draws index 0 or 1 from `rng` with those weights. `new` refuses a first
/// weight that is not at least 0, then a second weight that is not at least
/// 0 (a NaN is neither), then a sum that equals 0, and takes every other
/// pair; a refusal is `None` here. A sum that is not finite would stop the
/// sampler, so it is left out. `sample` draws a number that is at least 0 and
/// below the sum, and gives index 0 where the first weight is above that
/// number, index 1 where it is not: so the weight at the index drawn is above
/// 0.
#[verifier::external_body]
pub(crate) fn sample_index(w0: Complex64, w1: Complex64, rng: &mut StdRng) -> (r: Option<usize>)
    requires
        finite(sum(w0, w1)),
    ensures
        r is Some <==> accepted(w0, w1),
        r matches Some(index) ==> index < 2,
        r == Some(0usize) ==> greater(w0, zero()),
        r == Some(1usize) ==> greater(w1, zero()),
{
    match WeightedIndex::new([w0.re, w1.re]) {
        Ok(weights) => Some(weights.sample(rng)),
        Err(_) => None,
    }
}

impl Dense {
    /// Collapses the state to the branch in which `target` reads `outcome`
    /// and brings it back to norm 1, given the weight `w1` of the 1-branch.
    /// A branch of weight 0 is not treated apart: its factor is one over 0,
    /// and the amplitudes that come out are not finite.
    pub fn project(&mut self, target: usize, outcome: bool, w1: Complex64)
        requires
            old(self).wf(),
            target < old(self).qubits(),
        ensures
            final(self).wf(),
            final(self).qubits() == old(self).qubits(),
            final(self).role() == !old(self).role(),
            final(self)@ == measured(old(self)@, target, outcome, w1),
    {
        let weight = if outcome { w1 } else { complement_of(w1) };
        let factor = amp_unscale(amp_from_ints(1, 0), real_sqrt(weight));
        self.collapse(target, outcome, factor);
    }

    /// The weight of the 1-branch of `target`: the sum of the squared
    /// magnitudes of the amplitudes at whose index `target` reads 1. The state
    /// is left as it is.
    pub fn weight_of_one(&self, target: usize) -> (w1: Complex64)
        ensures
            one_branch_weight(self@, target, w1),
    {
        par_probability(self.get_current_state(), target)
    }

    /// Measures `target`, given the weight `w1` of its 1-branch: draws the
    /// outcome from `rng` with the weights of the two branches, and collapses
    /// the state to the branch drawn, brought back to norm 1. A branch of
    /// weight 0 is never drawn. Gives `None`, and leaves the engine as it was,
    /// exactly where the weights are no distribution: their sum is not
    /// finite, or one of them is a NaN.
    pub fn measure_weighted(&mut self, target: usize, w1: Complex64, rng: &mut StdRng) -> (result:
        Option<bool>)
        requires
            old(self).wf(),
            target < old(self).qubits(),
        ensures
            final(self).wf(),
            final(self).qubits() == old(self).qubits(),
            result is None ==> *final(self) == *old(self),
            result is Some ==> final(self).role() == !old(self).role(),
            is_measurement(old(self)@, final(self)@, target, result, w1),
    {
        let w0 = complement_of(w1);
        if !amp_is_finite(amp_add(w0, w1)) {
            return None;
        }
        let outcome = match sample_index(w0, w1, rng) {
            None => { return None; },
            Some(index) => index == 1,
        };
        self.project(target, outcome, w1);
        Some(outcome)
    }

    /// Measures `target`: adds up the weight of the 1-branch, draws the
    /// outcome from `rng` with the weights of the two branches, and collapses
    /// the state to the branch drawn, brought back to norm 1. A branch of
    /// weight 0 is never drawn. Gives `None`, and leaves the engine as it was,
    /// exactly where the weights are no distribution: their sum is not
    /// finite, or one of them is a NaN.
    pub fn measure(&mut self, target: usize, rng: &mut StdRng) -> (result: Option<bool>)
        requires
            old(self).wf(),
            target < old(self).qubits(),
        ensures
            final(self).wf(),
            final(self).qubits() == old(self).qubits(),
            result is None ==> *final(self) == *old(self),
            result is Some ==> final(self).role() == !old(self).role(),
            exists|w1: Complex64|
                one_branch_weight(old(self)@, target, w1) && #[trigger] is_measurement(
                    old(self)@,
                    final(self)@,
                    target,
                    result,
                    w1,
                ),
    {
        let w1 = self.weight_of_one(target);
        let result = self.measure_weighted(target, w1, rng);
        assert(one_branch_weight(old(self)@, target, w1) && is_measurement(
            old(self)@,
            self@,
            target,
            result,
            w1,
        ));
        result
    }
}

} // verus!
