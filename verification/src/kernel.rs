//! The closed set of per-amplitude updates: one case per gate family, plus the
//! projection that follows a measurement.
//!
//! Every update computes entry `s` of the next buffer from fixed entries of
//! the current buffer, so a whole pass may be evaluated in any order.

use crate::amplitude::{
    amp_add, amp_from_ints, amp_mul, amp_neg, amp_scale, amp_scale_frac_1_sqrt_2, halved_in_norm,
    imaginary_unit, negated, product, scaled, sum, zero,
};
use crate::bitwise::{
    all_set, bit_flip, bit_is_set, closed_under_flip, ctrl_check, flipped, is_one_at,
};
use num::complex::Complex64;
use vstd::prelude::*;

verus! {

/// An update of the state vector, with the coefficients it multiplies by.
#[derive(Clone, Copy)]
pub enum Kernel {
    PauliX,
    PauliY,
    PauliZ,
    Hadamard,
    /// Multiplies the target's 1-branch by `phase`.
    Phase { phase: Complex64 },
    /// Mixes the two branches of the target: `diagonal` weighs an amplitude's
    /// own index, `cross` the index with the target toggled.
    RX { diagonal: Complex64, cross: Complex64 },
    /// As `RX`, with `cross` negated on the target's 0-branch.
    RY { diagonal: Complex64, cross: Complex64 },
    /// Multiplies the target's 0-branch by `phase_0` and its 1-branch by `phase_1`.
    RZ { phase_0: Complex64, phase_1: Complex64 },
    /// Keeps the branch in which the target reads `outcome`, scaled by the
    /// real part of `factor`, and clears the other branch.
    Collapse { outcome: bool, factor: Complex64 },
}

/// The passes of an update. Single-term updates take only the first.
#[derive(Clone, Copy)]
pub enum Step {
    /// Writes the next buffer from the current one.
    First,
    /// Rescales the former current buffer in place.
    Second,
    /// Adds the rescaled buffer onto the next one.
    Third,
}

/// What an update needs of the buffers it runs on: the target is a bit
/// position of an index, and toggling it keeps an index below `len`.
pub open spec fn addressable(len: usize, target: usize) -> bool {
    &&& target < usize::BITS
    &&& closed_under_flip(len, target)
}

/// `state` after `target` was measured as `outcome`: the branch that agrees,
/// scaled by the real part of `factor`, and 0 on the other branch.
pub open spec fn collapsed(
    state: Seq<Complex64>,
    target: usize,
    outcome: bool,
    factor: Complex64,
) -> Seq<Complex64> {
    (Kernel::Collapse { outcome, factor }).apply(state, target, Seq::empty())
}

impl Kernel {
    /// Whether an output amplitude combines two input amplitudes, so that the
    /// update takes a second and a third pass.
    pub open spec fn is_two_term(self) -> bool {
        self is Hadamard || self is RX || self is RY
    }

    /// Entry `s` of the next buffer after the first pass over `current`.
    pub open spec fn first_pass(
        self,
        current: Seq<Complex64>,
        s: usize,
        target: usize,
        controls: Seq<usize>,
    ) -> Complex64 {
        let gated = all_set(s, controls);
        let high = bit_is_set(s, target);
        let own = current[s as int];
        let other = current[flipped(s, target) as int];
        match self {
            Kernel::PauliX => if gated { other } else { own },
            Kernel::PauliY => if gated {
                product(other, if high { imaginary_unit() } else { negated(imaginary_unit()) })
            } else {
                own
            },
            Kernel::PauliZ => if gated && high { negated(own) } else { own },
            Kernel::Phase { phase } => if gated && high { product(own, phase) } else { own },
            Kernel::RZ { phase_0, phase_1 } => if gated {
                product(own, if high { phase_1 } else { phase_0 })
            } else {
                own
            },
            Kernel::Collapse { outcome, factor } => if high == outcome {
                scaled(own, factor)
            } else {
                zero()
            },
            Kernel::Hadamard => if gated { halved_in_norm(other) } else { zero() },
            Kernel::RX { diagonal, cross } => if gated { product(other, cross) } else { zero() },
            Kernel::RY { diagonal, cross } => if gated {
                product(other, if high { cross } else { negated(cross) })
            } else {
                zero()
            },
        }
    }

    /// Entry `s` of the current buffer after the second pass of a two-term
    /// update, where `own` was that entry before.
    pub open spec fn second_pass(
        self,
        own: Complex64,
        s: usize,
        target: usize,
        controls: Seq<usize>,
    ) -> Complex64 {
        let gated = all_set(s, controls);
        let high = bit_is_set(s, target);
        match self {
            Kernel::Hadamard => if gated {
                if high { negated(halved_in_norm(own)) } else { halved_in_norm(own) }
            } else {
                own
            },
            Kernel::RX { diagonal, cross } => if gated { product(own, diagonal) } else { own },
            Kernel::RY { diagonal, cross } => if gated { product(own, diagonal) } else { own },
            _ => own,
        }
    }

    /// The buffer that the second pass of a two-term update makes of the
    /// buffer `current`.
    pub open spec fn rescaled(
        self,
        current: Seq<Complex64>,
        target: usize,
        controls: Seq<usize>,
    ) -> Seq<Complex64> {
        Seq::new(
            current.len(),
            |s: int| self.second_pass(current[s], s as usize, target, controls),
        )
    }

    /// Entry `s` of the state that the update makes of `current`.
    pub open spec fn entry(
        self,
        current: Seq<Complex64>,
        s: usize,
        target: usize,
        controls: Seq<usize>,
    ) -> Complex64 {
        if self.is_two_term() {
            sum(
                self.first_pass(current, s, target, controls),
                self.second_pass(current[s as int], s, target, controls),
            )
        } else {
            self.first_pass(current, s, target, controls)
        }
    }

    /// The state that the update makes of `current`.
    pub open spec fn apply(self, current: Seq<Complex64>, target: usize, controls: Seq<usize>) -> Seq<
        Complex64,
    > {
        Seq::new(current.len(), |s: int| self.entry(current, s as usize, target, controls))
    }

    /// Whether the update takes a second and a third pass.
    pub fn two_term(&self) -> (r: bool)
        ensures
            r == self.is_two_term(),
    {
        match self {
            Kernel::Hadamard => true,
            Kernel::RX { .. } => true,
            Kernel::RY { .. } => true,
            _ => false,
        }
    }

    /// Computes one entry of the first pass.
    pub fn first_entry(
        &self,
        current: &Vec<Complex64>,
        s: usize,
        target: usize,
        control: &[usize],
    ) -> (r: Complex64)
        requires
            s < current.len(),
            addressable(current.len(), target),
        ensures
            r == self.first_pass(current@, s, target, control@),
    {
        let gated = ctrl_check(s, control);
        let high = is_one_at(s, target);
        let own = current[s];
        match self {
            Kernel::PauliX => if gated { current[bit_flip(s, target)] } else { own },
            Kernel::PauliY => if gated {
                let i = amp_from_ints(0, 1);
                amp_mul(current[bit_flip(s, target)], if high { i } else { amp_neg(i) })
            } else {
                own
            },
            Kernel::PauliZ => if gated && high { amp_neg(own) } else { own },
            Kernel::Phase { phase } => if gated && high { amp_mul(own, *phase) } else { own },
            Kernel::RZ { phase_0, phase_1 } => if gated {
                amp_mul(own, if high { *phase_1 } else { *phase_0 })
            } else {
                own
            },
            Kernel::Collapse { outcome, factor } => if high == *outcome {
                amp_scale(own, *factor)
            } else {
                amp_from_ints(0, 0)
            },
            Kernel::Hadamard => if gated {
                amp_scale_frac_1_sqrt_2(current[bit_flip(s, target)])
            } else {
                amp_from_ints(0, 0)
            },
            Kernel::RX { diagonal: _, cross } => if gated {
                amp_mul(current[bit_flip(s, target)], *cross)
            } else {
                amp_from_ints(0, 0)
            },
            Kernel::RY { diagonal: _, cross } => if gated {
                let weight = if high { *cross } else { amp_neg(*cross) };
                amp_mul(current[bit_flip(s, target)], weight)
            } else {
                amp_from_ints(0, 0)
            },
        }
    }

    /// Computes one entry of the second pass from the entry's present value.
    pub fn second_entry(&self, own: Complex64, s: usize, target: usize, control: &[usize]) -> (r:
        Complex64)
        ensures
            r == self.second_pass(own, s, target, control@),
    {
        let gated = ctrl_check(s, control);
        match self {
            Kernel::Hadamard => if gated {
                let half = amp_scale_frac_1_sqrt_2(own);
                if is_one_at(s, target) { amp_neg(half) } else { half }
            } else {
                own
            },
            Kernel::RX { diagonal, cross: _ } => if gated { amp_mul(own, *diagonal) } else { own },
            Kernel::RY { diagonal, cross: _ } => if gated { amp_mul(own, *diagonal) } else { own },
            _ => own,
        }
    }

    /// Entry `s` of the buffer that pass `step` writes, where `own` was that
    /// entry before the pass and `other` is the buffer that the pass reads.
    pub open spec fn step_value(
        self,
        step: Step,
        own: Complex64,
        other: Seq<Complex64>,
        s: usize,
        target: usize,
        controls: Seq<usize>,
    ) -> Complex64 {
        match step {
            Step::First => self.first_pass(other, s, target, controls),
            Step::Second => self.second_pass(own, s, target, controls),
            Step::Third => sum(own, other[s as int]),
        }
    }

    /// Computes one entry of pass `step`.
    pub fn step_entry(
        &self,
        step: Step,
        own: Complex64,
        other: &Vec<Complex64>,
        s: usize,
        target: usize,
        control: &[usize],
    ) -> (r: Complex64)
        requires
            s < other.len(),
            addressable(other.len(), target),
        ensures
            r == self.step_value(step, own, other@, s, target, control@),
    {
        match step {
            Step::First => self.first_entry(other, s, target, control),
            Step::Second => self.second_entry(own, s, target, control),
            Step::Third => amp_add(own, other[s]),
        }
    }
}

} // verus!
