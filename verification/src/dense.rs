//! The engine: two amplitude buffers that swap roles on every update.

use crate::amplitude::{
    amp_exp, amp_from_ints, amp_neg, amp_scale, amp_unscale, cos_of, exp_of, imaginary_unit,
    lattice, negated, one, real_cos, real_sin, scaled, sin_of, unscaled, zero,
};
use crate::bitwise::{dimension, lemma_flip_in_range, MAX_QUBITS};
use crate::error::KBWError;
use crate::kernel::{collapsed, Kernel, Step};
use crate::parallel::par_pass;
use num::complex::Complex64;
use vstd::prelude::*;

verus! {

/// The state of `num_qubits` qubits that all read 0.
pub open spec fn initial_state(num_qubits: usize) -> Seq<Complex64> {
    Seq::new(dimension(num_qubits) as nat, |s: int| if s == 0 { one() } else { zero() })
}

/// Whether `target` and every control name a qubit of a register of
/// `num_qubits` qubits.
pub open spec fn in_register(num_qubits: usize, target: usize, controls: Seq<usize>) -> bool {
    &&& target < num_qubits
    &&& forall|i: int| 0 <= i < controls.len() ==> controls[i] < num_qubits
}

/// Whether `r` is what the exponential of `i` times the real number `angle`
/// came out as.
pub open spec fn is_unit_at(angle: Complex64, r: Complex64) -> bool {
    exp_of(scaled(imaginary_unit(), angle), r)
}

/// Whether `cos` and `sin` are what the cosine and the sine of half the real
/// number `theta` came out as.
pub open spec fn is_half_turn(theta: Complex64, cos: Complex64, sin: Complex64) -> bool {
    &&& cos_of(unscaled(theta, lattice(2, 0)), cos)
    &&& sin_of(unscaled(theta, lattice(2, 0)), sin)
}

/// Whether `phase_0` and `phase_1` are what the exponentials of `i` times
/// minus and plus half the real number `theta` came out as.
pub open spec fn is_phase_pair(theta: Complex64, phase_0: Complex64, phase_1: Complex64) -> bool {
    &&& is_unit_at(unscaled(negated(theta), lattice(2, 0)), phase_0)
    &&& is_unit_at(unscaled(theta, lattice(2, 0)), phase_1)
}

/// Half of the real number `angle`.
fn half(angle: Complex64) -> (r: Complex64)
    ensures
        r == unscaled(angle, lattice(2, 0)),
{
    amp_unscale(angle, amp_from_ints(2, 0))
}

/// The exponential of `i` times the real number `angle`.
fn unit_at(angle: Complex64) -> (r: Complex64)
    ensures
        is_unit_at(angle, r),
{
    amp_exp(amp_scale(amp_from_ints(0, 1), angle))
}

pub struct Dense {
    state_0: Vec<Complex64>,
    state_1: Vec<Complex64>,
    state: bool,
    num_qubits: usize,
}

impl View for Dense {
    type V = Seq<Complex64>;

    /// The amplitudes of the present state, by basis index.
    closed spec fn view(&self) -> Seq<Complex64> {
        if self.state {
            self.state_0@
        } else {
            self.state_1@
        }
    }
}

impl Dense {
    /// The number of qubits of the register.
    pub closed spec fn qubits(&self) -> usize {
        self.num_qubits
    }

    /// Which of the two buffers holds the present state.
    pub closed spec fn role(&self) -> bool {
        self.state
    }

    /// The buffer that the next update will write.
    pub closed spec fn scratch(&self) -> Seq<Complex64> {
        if self.state {
            self.state_1@
        } else {
            self.state_0@
        }
    }

    /// Both buffers hold one amplitude per basis state of the register.
    pub open spec fn wf(&self) -> bool {
        &&& self.qubits() <= MAX_QUBITS
        &&& self.qubits() < usize::BITS
        &&& self@.len() == dimension(self.qubits())
        &&& self.scratch().len() == dimension(self.qubits())
    }

    /// An engine of `num_qubits` qubits that all read 0, with a scratch
    /// buffer of zeros, or the error if an index cannot address that many.
    pub fn new(num_qubits: usize) -> (r: Result<Dense, KBWError>)
        ensures
            r is Ok <==> num_qubits <= MAX_QUBITS && num_qubits < usize::BITS,
            r matches Err(e) ==> e == KBWError::UnsupportedNumberOfQubits,
            r matches Ok(engine) ==> engine.wf() && engine.qubits() == num_qubits && engine@
                == initial_state(num_qubits),
            r matches Ok(engine) ==> engine.scratch() == Seq::new(
                dimension(num_qubits) as nat,
                |s: int| zero(),
            ),
    {
        if num_qubits > MAX_QUBITS || num_qubits >= usize::BITS as usize {
            return Err(KBWError::UnsupportedNumberOfQubits);
        }
        let num_states: usize = 1usize << num_qubits;
        assert(num_states > 0) by (bit_vector)
            requires
                num_qubits < usize::BITS,
                num_states == 1usize << num_qubits,
        ;
        let blank = amp_from_ints(0, 0);
        let mut state_0: Vec<Complex64> = Vec::new();
        let mut state_1: Vec<Complex64> = Vec::new();
        let mut s: usize = 0;
        while s < num_states
            invariant
                s <= num_states,
                blank == zero(),
                state_0@ == Seq::new(s as nat, |k: int| zero()),
                state_1@ == Seq::new(s as nat, |k: int| zero()),
            decreases num_states - s,
        {
            state_0.push(blank);
            state_1.push(blank);
            s += 1;
        }
        state_0[0] = amp_from_ints(1, 0);
        Ok(Dense { state: true, state_0, state_1, num_qubits })
    }

    fn get_states(&mut self) -> (r: (&mut Vec<Complex64>, &mut Vec<Complex64>))
        ensures
            r.0@ == old(self)@,
            r.1@ == old(self).scratch(),
            final(self)@ == final(r.1)@,
            final(self).scratch() == final(r.0)@,
            final(self).qubits() == old(self).qubits(),
            final(self).role() == !old(self).role(),
    {
        self.state = !self.state;
        if self.state {
            (&mut self.state_1, &mut self.state_0)
        } else {
            (&mut self.state_0, &mut self.state_1)
        }
    }

    /// The amplitudes of the present state.
    pub fn get_current_state(&self) -> (r: &Vec<Complex64>)
        ensures
            r@ == self@,
    {
        if self.state {
            &self.state_0
        } else {
            &self.state_1
        }
    }

    /// Runs `kernel` on the present state and makes the result the present
    /// state. The buffer that held the state becomes the scratch buffer: as it
    /// was after a single-term update, rescaled by the second pass after a
    /// two-term one.
    pub fn apply(&mut self, kernel: Kernel, target: usize, control: &[usize])
        requires
            old(self).wf(),
            in_register(old(self).qubits(), target, control@),
        ensures
            final(self).wf(),
            final(self).qubits() == old(self).qubits(),
            final(self).role() == !old(self).role(),
            final(self)@ == kernel.apply(old(self)@, target, control@),
            final(self).scratch() == if kernel.is_two_term() {
                kernel.rescaled(old(self)@, target, control@)
            } else {
                old(self)@
            },
    {
        proof {
            lemma_flip_in_range(self.num_qubits, target);
        }
        let (current, next) = self.get_states();
        par_pass(next, current, &kernel, Step::First, target, control);
        if kernel.two_term() {
            par_pass(current, next, &kernel, Step::Second, target, control);
            par_pass(next, current, &kernel, Step::Third, target, control);
        }
    }

    /// Pauli-X: exchanges the two branches of `target` wherever every control
    /// reads 1.
    pub fn pauli_x(&mut self, target: usize, control: &[usize])
        requires
            old(self).wf(),
            in_register(old(self).qubits(), target, control@),
        ensures
            final(self).wf(),
            final(self).qubits() == old(self).qubits(),
            final(self).role() == !old(self).role(),
            final(self)@ == Kernel::PauliX.apply(old(self)@, target, control@),
    {
        self.apply(Kernel::PauliX, target, control);
    }

    /// Pauli-Y: exchanges the two branches of `target` and multiplies the
    /// 1-branch by `i`, the 0-branch by `-i`, wherever every control reads 1.
    pub fn pauli_y(&mut self, target: usize, control: &[usize])
        requires
            old(self).wf(),
            in_register(old(self).qubits(), target, control@),
        ensures
            final(self).wf(),
            final(self).qubits() == old(self).qubits(),
            final(self).role() == !old(self).role(),
            final(self)@ == Kernel::PauliY.apply(old(self)@, target, control@),
    {
        self.apply(Kernel::PauliY, target, control);
    }

    /// Pauli-Z: negates the 1-branch of `target` wherever every control reads 1.
    pub fn pauli_z(&mut self, target: usize, control: &[usize])
        requires
            old(self).wf(),
            in_register(old(self).qubits(), target, control@),
        ensures
            final(self).wf(),
            final(self).qubits() == old(self).qubits(),
            final(self).role() == !old(self).role(),
            final(self)@ == Kernel::PauliZ.apply(old(self)@, target, control@),
    {
        self.apply(Kernel::PauliZ, target, control);
    }

    /// Hadamard: wherever every control reads 1, an amplitude becomes the sum
    /// of its partner across `target` and itself, each scaled by the square
    /// root of one half, itself negated on the 1-branch.
    pub fn hadamard(&mut self, target: usize, control: &[usize])
        requires
            old(self).wf(),
            in_register(old(self).qubits(), target, control@),
        ensures
            final(self).wf(),
            final(self).qubits() == old(self).qubits(),
            final(self).role() == !old(self).role(),
            final(self)@ == Kernel::Hadamard.apply(old(self)@, target, control@),
    {
        self.apply(Kernel::Hadamard, target, control);
    }

    /// Phase gate by the angle `lambda`, given on the real axis: multiplies
    /// the 1-branch of `target` by one amplitude, the exponential of `i` times
    /// the angle, wherever every control reads 1.
    pub fn phase(&mut self, lambda: Complex64, target: usize, control: &[usize])
        requires
            old(self).wf(),
            in_register(old(self).qubits(), target, control@),
        ensures
            final(self).wf(),
            final(self).qubits() == old(self).qubits(),
            final(self).role() == !old(self).role(),
            exists|phase: Complex64| #[trigger]
                is_unit_at(lambda, phase) && final(self)@ == (Kernel::Phase { phase }).apply(
                    old(self)@,
                    target,
                    control@,
                ),
    {
        let phase = unit_at(lambda);
        self.apply(Kernel::Phase { phase }, target, control);
        assert(is_unit_at(lambda, phase) && self@ == (Kernel::Phase { phase }).apply(
            old(self)@,
            target,
            control@,
        ));
    }

    /// Rotation about X by the angle `theta`, given on the real axis: wherever
    /// every control reads 1, an amplitude becomes itself times one real
    /// number, the cosine of half the angle, plus its partner across `target`
    /// times `-i` scaled by another, the sine of half the angle.
    pub fn rx(&mut self, theta: Complex64, target: usize, control: &[usize])
        requires
            old(self).wf(),
            in_register(old(self).qubits(), target, control@),
        ensures
            final(self).wf(),
            final(self).qubits() == old(self).qubits(),
            final(self).role() == !old(self).role(),
            exists|cos: Complex64, sin: Complex64| #[trigger]
                is_half_turn(theta, cos, sin) && final(self)@ == (Kernel::RX {
                    diagonal: cos,
                    cross: scaled(negated(imaginary_unit()), sin),
                }).apply(old(self)@, target, control@),
    {
        let cos_theta_2 = real_cos(half(theta));
        let sin = real_sin(half(theta));
        let sin_theta_2 = amp_scale(amp_neg(amp_from_ints(0, 1)), sin);
        self.apply(Kernel::RX { diagonal: cos_theta_2, cross: sin_theta_2 }, target, control);
        assert(is_half_turn(theta, cos_theta_2, sin) && self@ == (Kernel::RX {
            diagonal: cos_theta_2,
            cross: scaled(negated(imaginary_unit()), sin),
        }).apply(old(self)@, target, control@));
    }

    /// Rotation about Y by the angle `theta`, given on the real axis: wherever
    /// every control reads 1, an amplitude becomes itself times one real
    /// number, the cosine of half the angle, plus its partner across `target`
    /// times another, the sine of half the angle, negated on the 0-branch.
    pub fn ry(&mut self, theta: Complex64, target: usize, control: &[usize])
        requires
            old(self).wf(),
            in_register(old(self).qubits(), target, control@),
        ensures
            final(self).wf(),
            final(self).qubits() == old(self).qubits(),
            final(self).role() == !old(self).role(),
            exists|cos: Complex64, sin: Complex64| #[trigger]
                is_half_turn(theta, cos, sin) && final(self)@ == (Kernel::RY {
                    diagonal: cos,
                    cross: sin,
                }).apply(old(self)@, target, control@),
    {
        let cos_theta_2 = real_cos(half(theta));
        let sin_theta_2 = real_sin(half(theta));
        self.apply(Kernel::RY { diagonal: cos_theta_2, cross: sin_theta_2 }, target, control);
        assert(is_half_turn(theta, cos_theta_2, sin_theta_2) && self@ == (Kernel::RY {
            diagonal: cos_theta_2,
            cross: sin_theta_2,
        }).apply(old(self)@, target, control@));
    }

    /// Rotation about Z by the angle `theta`, given on the real axis: wherever
    /// every control reads 1, multiplies the 0-branch of `target` by one
    /// amplitude and the 1-branch by another, the exponentials of `i` times
    /// minus and plus half the angle.
    pub fn rz(&mut self, theta: Complex64, target: usize, control: &[usize])
        requires
            old(self).wf(),
            in_register(old(self).qubits(), target, control@),
        ensures
            final(self).wf(),
            final(self).qubits() == old(self).qubits(),
            final(self).role() == !old(self).role(),
            exists|phase_0: Complex64, phase_1: Complex64| #[trigger]
                is_phase_pair(theta, phase_0, phase_1) && final(self)@ == (Kernel::RZ {
                    phase_0,
                    phase_1,
                }).apply(old(self)@, target, control@),
    {
        let phase_0 = unit_at(half(amp_neg(theta)));
        let phase_1 = unit_at(half(theta));
        self.apply(Kernel::RZ { phase_0, phase_1 }, target, control);
        assert(is_phase_pair(theta, phase_0, phase_1) && self@ == (Kernel::RZ {
            phase_0,
            phase_1,
        }).apply(old(self)@, target, control@));
    }

    /// The state after `target` was measured as `outcome`: the branch that
    /// agrees is scaled by the real part of `factor`, the other is cleared.
    pub fn collapse(&mut self, target: usize, outcome: bool, factor: Complex64)
        requires
            old(self).wf(),
            target < old(self).qubits(),
        ensures
            final(self).wf(),
            final(self).qubits() == old(self).qubits(),
            final(self).role() == !old(self).role(),
            final(self)@ == collapsed(old(self)@, target, outcome, factor),
    {
        let control: Vec<usize> = Vec::new();
        self.apply(Kernel::Collapse { outcome, factor }, target, control.as_slice());
    }

    /// The number of qubits of the register.
    pub fn num_qubits(&self) -> (r: usize)
        ensures
            r == self.qubits(),
    {
        self.num_qubits
    }
}

} // verus!
