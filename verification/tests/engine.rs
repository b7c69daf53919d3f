use kbw::bitwise::{bit_flip, ctrl_check, is_one_at};
use kbw::dense::Dense;
use kbw::error::KBWError;
use kbw::kernel::Kernel;
use num::complex::Complex64;
use rand::distributions::{Distribution, WeightedIndex};
use rand::rngs::StdRng;
use rand::SeedableRng;
use std::f64::consts::FRAC_1_SQRT_2;

fn close(a: Complex64, b: Complex64) -> bool {
    (a - b).norm() < 1e-12
}

fn all_close(a: &[Complex64], b: &[Complex64]) -> bool {
    a.len() == b.len() && a.iter().zip(b.iter()).all(|(x, y)| close(*x, *y))
}

fn snapshot(engine: &Dense) -> Vec<Complex64> {
    engine.get_current_state().clone()
}

fn total_probability(engine: &Dense) -> f64 {
    engine.get_current_state().iter().map(|amp| amp.norm_sqr()).sum()
}

fn unit_at(angle: f64) -> Complex64 {
    Complex64::exp(angle * Complex64::i())
}

fn phase(engine: &mut Dense, lambda: f64, target: usize, control: &[usize]) {
    engine.phase(Complex64::from(lambda), target, control);
}

fn rx(engine: &mut Dense, theta: f64, target: usize, control: &[usize]) {
    engine.rx(Complex64::from(theta), target, control);
}

fn ry(engine: &mut Dense, theta: f64, target: usize, control: &[usize]) {
    engine.ry(Complex64::from(theta), target, control);
}

fn rz(engine: &mut Dense, theta: f64, target: usize, control: &[usize]) {
    engine.rz(Complex64::from(theta), target, control);
}

fn measure(engine: &mut Dense, target: usize, rng: &mut StdRng) -> bool {
    engine.measure(target, rng).unwrap()
}

/// What the measurement that `rng` decides would draw and leave behind,
/// computed outside the engine.
fn expected_measurement(
    before: &[Complex64],
    target: usize,
    rng: &mut StdRng,
) -> (bool, Vec<Complex64>) {
    let w1: f64 = before
        .iter()
        .enumerate()
        .map(|(s, amp)| if is_one_at(s, target) { amp.norm().powi(2) } else { 0.0 })
        .sum();
    let w0 = if 1.0 - w1 >= 0.0 { 1.0 - w1 } else { 0.0 };
    let result = WeightedIndex::new([w0, w1]).unwrap().sample(rng) == 1;
    let p = 1.0 / f64::sqrt(if result { w1 } else { w0 });
    let after = before
        .iter()
        .enumerate()
        .map(|(s, amp)| {
            if is_one_at(s, target) == result {
                amp * p
            } else {
                Complex64::new(0.0, 0.0)
            }
        })
        .collect();
    (result, after)
}

/// A three-qubit state whose eight amplitudes all differ and none of which is 0.
fn scrambled() -> Dense {
    let mut engine = Dense::new(3).unwrap();
    engine.hadamard(0, &[]);
    ry(&mut engine, 0.7, 1, &[]);
    rx(&mut engine, 1.3, 2, &[]);
    phase(&mut engine, 0.4, 0, &[]);
    rz(&mut engine, 2.1, 1, &[0]);
    ry(&mut engine, 0.9, 2, &[1]);
    engine
}

#[test]
fn new_starts_in_all_zero_state() {
    let engine = Dense::new(3).unwrap();
    assert_eq!(engine.num_qubits(), 3);
    let state = engine.get_current_state();
    assert_eq!(state.len(), 8);
    assert_eq!(state[0], Complex64::new(1.0, 0.0));
    for s in 1..8 {
        assert_eq!(state[s], Complex64::new(0.0, 0.0));
    }
}

#[test]
fn new_with_no_qubits_has_one_amplitude() {
    let engine = Dense::new(0).unwrap();
    assert_eq!(engine.get_current_state(), &vec![Complex64::new(1.0, 0.0)]);
}

#[test]
fn new_refuses_more_than_32_qubits() {
    assert!(matches!(Dense::new(33), Err(KBWError::UnsupportedNumberOfQubits)));
    assert!(matches!(Dense::new(usize::MAX), Err(KBWError::UnsupportedNumberOfQubits)));
    assert!(Dense::new(10).is_ok());
}

#[test]
fn scrambled_state_has_distinct_amplitudes() {
    let state = snapshot(&scrambled());
    for a in 0..8 {
        assert!(state[a].norm() > 1e-3);
        for b in (a + 1)..8 {
            assert!((state[a] - state[b]).norm() > 1e-3);
        }
    }
}

#[test]
fn reading_the_state_does_not_swap_buffers() {
    let engine = scrambled();
    let first = snapshot(&engine);
    let second = snapshot(&engine);
    assert_eq!(first, second);
}

#[test]
fn pauli_x_flips_the_target() {
    let mut engine = Dense::new(2).unwrap();
    engine.pauli_x(0, &[]);
    let one = Complex64::new(1.0, 0.0);
    let zero = Complex64::new(0.0, 0.0);
    assert_eq!(snapshot(&engine), vec![zero, one, zero, zero]);
    engine.pauli_x(1, &[]);
    assert_eq!(snapshot(&engine), vec![zero, zero, zero, one]);
}

#[test]
fn pauli_x_waits_for_its_control() {
    let one = Complex64::new(1.0, 0.0);
    let zero = Complex64::new(0.0, 0.0);
    let mut engine = Dense::new(2).unwrap();
    engine.pauli_x(1, &[0]);
    assert_eq!(snapshot(&engine), vec![one, zero, zero, zero]);
    engine.pauli_x(0, &[]);
    engine.pauli_x(1, &[0]);
    assert_eq!(snapshot(&engine), vec![zero, zero, zero, one]);
}

#[test]
fn pauli_x_entry_formula() {
    for control in [vec![], vec![0usize], vec![0, 2]] {
        let mut engine = scrambled();
        let before = snapshot(&engine);
        engine.pauli_x(1, &control);
        let after = snapshot(&engine);
        for s in 0..8 {
            let source = if ctrl_check(s, &control) { bit_flip(s, 1) } else { s };
            assert_eq!(after[s], before[source]);
        }
    }
}

#[test]
fn pauli_y_entry_formula() {
    for control in [vec![], vec![2usize]] {
        let mut engine = scrambled();
        let before = snapshot(&engine);
        engine.pauli_y(0, &control);
        let after = snapshot(&engine);
        for s in 0..8 {
            let expected = if ctrl_check(s, &control) {
                before[bit_flip(s, 0)]
                    * if is_one_at(s, 0) { Complex64::i() } else { -Complex64::i() }
            } else {
                before[s]
            };
            assert_eq!(after[s], expected);
        }
    }
}

#[test]
fn pauli_y_on_basis_states() {
    let mut engine = Dense::new(1).unwrap();
    engine.pauli_y(0, &[]);
    let state = snapshot(&engine);
    assert!(close(state[0], Complex64::new(0.0, 0.0)));
    assert!(close(state[1], Complex64::new(0.0, 1.0)));
    engine.pauli_y(0, &[]);
    let state = snapshot(&engine);
    assert!(close(state[0], Complex64::new(1.0, 0.0)));
    assert!(close(state[1], Complex64::new(0.0, 0.0)));
}

#[test]
fn pauli_z_entry_formula() {
    for control in [vec![], vec![1usize]] {
        let mut engine = scrambled();
        let before = snapshot(&engine);
        engine.pauli_z(2, &control);
        let after = snapshot(&engine);
        for s in 0..8 {
            let expected =
                if ctrl_check(s, &control) && is_one_at(s, 2) { -before[s] } else { before[s] };
            assert_eq!(after[s], expected);
            if is_one_at(s, 2) && ctrl_check(s, &control) {
                assert_ne!(after[s], before[s]);
            }
        }
    }
}

#[test]
fn hadamard_entry_formula() {
    for control in [vec![], vec![0usize]] {
        let mut engine = scrambled();
        let before = snapshot(&engine);
        engine.hadamard(1, &control);
        let after = snapshot(&engine);
        for s in 0..8 {
            let expected = if ctrl_check(s, &control) {
                before[bit_flip(s, 1)] * FRAC_1_SQRT_2
                    + before[s] * if is_one_at(s, 1) { -FRAC_1_SQRT_2 } else { FRAC_1_SQRT_2 }
            } else {
                Complex64::new(0.0, 0.0) + before[s]
            };
            assert_eq!(after[s], expected);
        }
    }
}

#[test]
fn hadamard_on_basis_states() {
    let mut engine = Dense::new(1).unwrap();
    engine.hadamard(0, &[]);
    assert_eq!(
        snapshot(&engine),
        vec![Complex64::new(FRAC_1_SQRT_2, 0.0), Complex64::new(FRAC_1_SQRT_2, 0.0)]
    );
    let mut engine = Dense::new(1).unwrap();
    engine.pauli_x(0, &[]);
    engine.hadamard(0, &[]);
    assert_eq!(
        snapshot(&engine),
        vec![Complex64::new(FRAC_1_SQRT_2, 0.0), Complex64::new(-FRAC_1_SQRT_2, 0.0)]
    );
}

#[test]
fn phase_entry_formula() {
    let factor = unit_at(0.83);
    for control in [vec![], vec![2usize]] {
        let mut engine = scrambled();
        let before = snapshot(&engine);
        phase(&mut engine, 0.83, 0, &control);
        let after = snapshot(&engine);
        for s in 0..8 {
            let expected = if ctrl_check(s, &control) && is_one_at(s, 0) {
                before[s] * factor
            } else {
                before[s]
            };
            assert_eq!(after[s], expected);
        }
    }
}

#[test]
fn phase_of_half_turn_is_pauli_z() {
    let mut a = scrambled();
    let mut b = scrambled();
    phase(&mut a, std::f64::consts::PI, 1, &[0]);
    b.pauli_z(1, &[0]);
    assert!(all_close(&snapshot(&a), &snapshot(&b)));
}

#[test]
fn rz_entry_formula() {
    let theta: f64 = 0.7;
    let low = Complex64::exp(-theta / 2.0 * Complex64::i());
    let high = Complex64::exp(theta / 2.0 * Complex64::i());
    for control in [vec![], vec![0usize, 1]] {
        let mut engine = scrambled();
        let before = snapshot(&engine);
        rz(&mut engine, theta, 2, &control);
        let after = snapshot(&engine);
        for s in 0..8 {
            let expected = if ctrl_check(s, &control) {
                before[s] * if is_one_at(s, 2) { high } else { low }
            } else {
                before[s]
            };
            assert_eq!(after[s], expected);
        }
    }
}

#[test]
fn rx_entry_formula() {
    let theta: f64 = 1.1;
    let cos = Complex64::from(f64::cos(theta / 2.0));
    let sin = -Complex64::i() * f64::sin(theta / 2.0);
    for control in [vec![], vec![1usize]] {
        let mut engine = scrambled();
        let before = snapshot(&engine);
        rx(&mut engine, theta, 0, &control);
        let after = snapshot(&engine);
        for s in 0..8 {
            let expected = if ctrl_check(s, &control) {
                before[bit_flip(s, 0)] * sin + before[s] * cos
            } else {
                Complex64::new(0.0, 0.0) + before[s]
            };
            assert_eq!(after[s], expected);
        }
    }
}

#[test]
fn rx_of_half_turn_exchanges_branches_up_to_minus_i() {
    let mut engine = Dense::new(1).unwrap();
    rx(&mut engine, std::f64::consts::PI, 0, &[]);
    let state = snapshot(&engine);
    assert!(close(state[0], Complex64::new(0.0, 0.0)));
    assert!(close(state[1], Complex64::new(0.0, -1.0)));
}

#[test]
fn ry_entry_formula() {
    let theta: f64 = 0.6;
    let cos = Complex64::from(f64::cos(theta / 2.0));
    let sin = Complex64::from(f64::sin(theta / 2.0));
    for control in [vec![], vec![0usize]] {
        let mut engine = scrambled();
        let before = snapshot(&engine);
        ry(&mut engine, theta, 2, &control);
        let after = snapshot(&engine);
        for s in 0..8 {
            let expected = if ctrl_check(s, &control) {
                before[bit_flip(s, 2)] * if is_one_at(s, 2) { sin } else { -sin }
                    + before[s] * cos
            } else {
                Complex64::new(0.0, 0.0) + before[s]
            };
            assert_eq!(after[s], expected);
        }
    }
}

#[test]
fn ry_of_half_turn_maps_zero_to_one() {
    let mut engine = Dense::new(1).unwrap();
    ry(&mut engine, std::f64::consts::PI, 0, &[]);
    let state = snapshot(&engine);
    assert!(close(state[0], Complex64::new(0.0, 0.0)));
    assert!(close(state[1], Complex64::new(1.0, 0.0)));
}

#[test]
fn apply_runs_the_same_kernels_as_the_gate_methods() {
    let mut a = scrambled();
    let mut b = scrambled();
    a.apply(Kernel::PauliY, 1, &[2]);
    b.pauli_y(1, &[2]);
    assert_eq!(snapshot(&a), snapshot(&b));
    a.apply(Kernel::Hadamard, 0, &[]);
    b.hadamard(0, &[]);
    assert_eq!(snapshot(&a), snapshot(&b));
    a.apply(Kernel::Phase { phase: unit_at(0.2) }, 2, &[0]);
    phase(&mut b, 0.2, 2, &[0]);
    assert_eq!(snapshot(&a), snapshot(&b));
    let theta: f64 = 1.7;
    let cos = Complex64::from(f64::cos(theta / 2.0));
    let sin = Complex64::from(f64::sin(theta / 2.0));
    a.apply(Kernel::RX { diagonal: cos, cross: -Complex64::i() * sin.re }, 1, &[]);
    rx(&mut b, theta, 1, &[]);
    assert_eq!(snapshot(&a), snapshot(&b));
    a.apply(Kernel::RY { diagonal: cos, cross: sin }, 0, &[2]);
    ry(&mut b, theta, 0, &[2]);
    assert_eq!(snapshot(&a), snapshot(&b));
    a.apply(Kernel::RZ { phase_0: unit_at(-theta / 2.0), phase_1: unit_at(theta / 2.0) }, 2, &[]);
    rz(&mut b, theta, 2, &[]);
    assert_eq!(snapshot(&a), snapshot(&b));
    a.apply(Kernel::Collapse { outcome: true, factor: Complex64::new(3.0, 0.0) }, 1, &[]);
    b.collapse(1, true, Complex64::new(3.0, 0.0));
    assert_eq!(snapshot(&a), snapshot(&b));
}

#[test]
fn angles_are_read_from_the_real_part_only() {
    let mut a = scrambled();
    let mut b = scrambled();
    a.phase(Complex64::new(0.3, 0.0), 0, &[]);
    b.phase(Complex64::new(0.3, 5.0), 0, &[]);
    assert_eq!(snapshot(&a), snapshot(&b));
    a.rx(Complex64::new(0.4, 0.0), 1, &[]);
    b.rx(Complex64::new(0.4, -2.0), 1, &[]);
    assert_eq!(snapshot(&a), snapshot(&b));
    a.ry(Complex64::new(0.5, 0.0), 2, &[]);
    b.ry(Complex64::new(0.5, 1.0), 2, &[]);
    assert_eq!(snapshot(&a), snapshot(&b));
    a.rz(Complex64::new(0.6, 0.0), 0, &[]);
    b.rz(Complex64::new(0.6, 9.0), 0, &[]);
    assert_eq!(snapshot(&a), snapshot(&b));
}

#[test]
fn gates_preserve_the_norm() {
    let mut engine = scrambled();
    assert!((total_probability(&engine) - 1.0).abs() < 1e-9);
    engine.pauli_x(0, &[1]);
    assert!((total_probability(&engine) - 1.0).abs() < 1e-9);
    engine.pauli_y(1, &[]);
    assert!((total_probability(&engine) - 1.0).abs() < 1e-9);
    engine.pauli_z(2, &[0, 1]);
    assert!((total_probability(&engine) - 1.0).abs() < 1e-9);
    engine.hadamard(2, &[0]);
    assert!((total_probability(&engine) - 1.0).abs() < 1e-9);
    phase(&mut engine, 1.9, 1, &[2]);
    assert!((total_probability(&engine) - 1.0).abs() < 1e-9);
    rx(&mut engine, -0.77, 0, &[]);
    assert!((total_probability(&engine) - 1.0).abs() < 1e-9);
    ry(&mut engine, 2.5, 1, &[0]);
    assert!((total_probability(&engine) - 1.0).abs() < 1e-9);
    rz(&mut engine, 0.31, 2, &[]);
    assert!((total_probability(&engine) - 1.0).abs() < 1e-9);
}

#[test]
fn pauli_x_twice_is_identity() {
    for control in [vec![], vec![0usize], vec![0, 2]] {
        let mut engine = scrambled();
        let before = snapshot(&engine);
        engine.pauli_x(1, &control);
        assert_ne!(snapshot(&engine), before);
        engine.pauli_x(1, &control);
        assert_eq!(snapshot(&engine), before);
    }
}

#[test]
fn pauli_y_twice_is_identity() {
    for control in [vec![], vec![2usize]] {
        let mut engine = scrambled();
        let before = snapshot(&engine);
        engine.pauli_y(1, &control);
        engine.pauli_y(1, &control);
        assert!(all_close(&snapshot(&engine), &before));
    }
}

#[test]
fn hadamard_twice_is_identity() {
    for control in [vec![], vec![1usize, 2]] {
        let mut engine = scrambled();
        let before = snapshot(&engine);
        engine.hadamard(0, &control);
        engine.hadamard(0, &control);
        assert!(all_close(&snapshot(&engine), &before));
    }
}

#[test]
fn rz_followed_by_its_opposite_is_identity() {
    for theta in [0.0, 0.5, -1.25, 3.0] {
        for control in [vec![], vec![0usize]] {
            let mut engine = scrambled();
            let before = snapshot(&engine);
            rz(&mut engine, theta, 1, &control);
            rz(&mut engine, -theta, 1, &control);
            assert!(all_close(&snapshot(&engine), &before));
        }
    }
}

#[test]
fn gates_under_an_unset_control_change_nothing() {
    // Qubit 2 reads 0 in every amplitude that is not 0.
    let mut engine = Dense::new(3).unwrap();
    engine.hadamard(0, &[]);
    ry(&mut engine, 0.8, 1, &[]);
    let before = snapshot(&engine);
    for s in 0..8 {
        assert!(before[s].norm() == 0.0 || !is_one_at(s, 2));
    }
    engine.pauli_x(0, &[2]);
    assert_eq!(snapshot(&engine), before);
    engine.pauli_y(1, &[2]);
    assert_eq!(snapshot(&engine), before);
    engine.pauli_z(0, &[2, 1]);
    assert_eq!(snapshot(&engine), before);
    engine.hadamard(1, &[2]);
    assert_eq!(snapshot(&engine), before);
    phase(&mut engine, 0.3, 0, &[2]);
    assert_eq!(snapshot(&engine), before);
    rx(&mut engine, 0.3, 1, &[0, 2]);
    assert_eq!(snapshot(&engine), before);
    ry(&mut engine, 0.3, 0, &[2]);
    assert_eq!(snapshot(&engine), before);
    rz(&mut engine, 0.3, 1, &[2]);
    assert_eq!(snapshot(&engine), before);
}

#[test]
fn collapse_keeps_one_branch_and_scales_it() {
    let mut engine = scrambled();
    let before = snapshot(&engine);
    engine.collapse(1, true, Complex64::new(2.0, 0.0));
    let after = snapshot(&engine);
    for s in 0..8 {
        if is_one_at(s, 1) {
            assert_eq!(after[s], before[s] * 2.0);
        } else {
            assert_eq!(after[s], Complex64::new(0.0, 0.0));
        }
    }
    let mut engine = scrambled();
    engine.collapse(1, false, Complex64::new(0.5, 0.0));
    let after = snapshot(&engine);
    for s in 0..8 {
        if is_one_at(s, 1) {
            assert_eq!(after[s], Complex64::new(0.0, 0.0));
        } else {
            assert_eq!(after[s], before[s] * 0.5);
        }
    }
}

#[test]
fn collapse_uses_only_the_real_part_of_its_factor() {
    let mut a = scrambled();
    let mut b = scrambled();
    a.collapse(0, true, Complex64::new(1.5, 0.0));
    b.collapse(0, true, Complex64::new(1.5, 7.0));
    assert_eq!(snapshot(&a), snapshot(&b));
}

#[test]
fn measurement_leaves_a_normalised_collapsed_state() {
    for seed in 0..20u64 {
        let mut rng = StdRng::seed_from_u64(seed);
        let mut engine = scrambled();
        let outcome = measure(&mut engine, 1, &mut rng);
        assert!((total_probability(&engine) - 1.0).abs() < 1e-9);
        let state = snapshot(&engine);
        for s in 0..8 {
            if is_one_at(s, 1) != outcome {
                assert_eq!(state[s], Complex64::new(0.0, 0.0));
            }
        }
        let again = measure(&mut engine, 1, &mut rng);
        assert_eq!(again, outcome);
    }
}

#[test]
fn measurement_follows_the_sampler_and_renormalises() {
    for seed in 0..40u64 {
        for target in 0..3usize {
            let mut engine = scrambled();
            let before = snapshot(&engine);
            let mut rng = StdRng::seed_from_u64(seed);
            let mut twin = StdRng::seed_from_u64(seed);
            let (expected, after) = expected_measurement(&before, target, &mut twin);
            let outcome = engine.measure(target, &mut rng);
            assert_eq!(outcome, Some(expected));
            assert!(all_close(&snapshot(&engine), &after));
            assert_eq!(rng, twin);
        }
    }
}

#[test]
fn measurement_of_a_state_without_weights_gives_none() {
    let mut engine = Dense::new(1).unwrap();
    engine.pauli_x(0, &[]);
    engine.collapse(0, true, Complex64::new(f64::NAN, 0.0));
    let before = snapshot(&engine);
    assert_eq!(before[0], Complex64::new(0.0, 0.0));
    assert!(before[1].re.is_nan());
    let mut rng = StdRng::seed_from_u64(1);
    let untouched = rng.clone();
    assert_eq!(engine.measure(0, &mut rng), None);
    let after = snapshot(&engine);
    assert_eq!(after[0], before[0]);
    assert!(after[1].re.is_nan());
    assert_eq!(rng, untouched);

    let mut engine = Dense::new(1).unwrap();
    engine.pauli_x(0, &[]);
    engine.collapse(0, true, Complex64::new(f64::INFINITY, 0.0));
    let before = snapshot(&engine);
    let mut rng = StdRng::seed_from_u64(1);
    assert_eq!(engine.measure(0, &mut rng), None);
    let after = snapshot(&engine);
    assert_eq!(after[0], before[0]);
    assert_eq!(after[1].re, f64::INFINITY);
}

#[test]
fn measurement_of_a_state_that_lost_its_weight_reads_zero() {
    let mut engine = Dense::new(1).unwrap();
    engine.collapse(0, true, Complex64::new(1.0, 0.0));
    assert_eq!(snapshot(&engine), vec![Complex64::new(0.0, 0.0); 2]);
    let mut rng = StdRng::seed_from_u64(7);
    assert_eq!(engine.measure(0, &mut rng), Some(false));
}

#[test]
fn measurement_of_a_basis_state_is_certain() {
    for seed in 0..20u64 {
        let mut rng = StdRng::seed_from_u64(seed);
        let mut engine = Dense::new(2).unwrap();
        engine.pauli_x(1, &[]);
        assert!(!measure(&mut engine, 0, &mut rng));
        assert!(measure(&mut engine, 1, &mut rng));
    }
}

#[test]
fn measurement_after_hadamard_is_a_fair_coin() {
    let runs = 4000u64;
    let mut ones = 0u64;
    for seed in 0..runs {
        let mut rng = StdRng::seed_from_u64(seed);
        let mut engine = Dense::new(1).unwrap();
        engine.hadamard(0, &[]);
        if measure(&mut engine, 0, &mut rng) {
            ones += 1;
        }
    }
    let frequency = ones as f64 / runs as f64;
    assert!((frequency - 0.5).abs() < 0.05);
}

#[test]
fn measurement_is_reproducible_from_the_seed() {
    for seed in 0..50u64 {
        let mut outcomes = Vec::new();
        for _ in 0..2 {
            let mut rng = StdRng::seed_from_u64(seed);
            let mut engine = Dense::new(2).unwrap();
            engine.hadamard(0, &[]);
            engine.hadamard(1, &[]);
            let a = measure(&mut engine, 0, &mut rng);
            let b = measure(&mut engine, 1, &mut rng);
            outcomes.push((a, b));
        }
        assert_eq!(outcomes[0], outcomes[1]);
    }
}

#[test]
fn bell_state_amplitudes() {
    let mut engine = Dense::new(2).unwrap();
    engine.hadamard(0, &[]);
    engine.pauli_x(1, &[0]);
    let state = snapshot(&engine);
    assert!(close(state[0], Complex64::new(FRAC_1_SQRT_2, 0.0)));
    assert_eq!(state[1], Complex64::new(0.0, 0.0));
    assert_eq!(state[2], Complex64::new(0.0, 0.0));
    assert!(close(state[3], Complex64::new(FRAC_1_SQRT_2, 0.0)));
    assert_eq!(state[0].im, 0.0);
    assert_eq!(state[3].im, 0.0);
}

#[test]
fn bell_state_measurements_agree() {
    let mut seen_zero = false;
    let mut seen_one = false;
    for seed in 0..200u64 {
        let mut rng = StdRng::seed_from_u64(seed);
        let mut engine = Dense::new(2).unwrap();
        engine.hadamard(0, &[]);
        engine.pauli_x(1, &[0]);
        let a = measure(&mut engine, 0, &mut rng);
        let b = measure(&mut engine, 1, &mut rng);
        assert_eq!(a, b);
        seen_zero = seen_zero || !a;
        seen_one = seen_one || a;
    }
    assert!(seen_zero && seen_one);
}
