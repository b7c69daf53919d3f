//! Complex amplitudes. Their arithmetic is the `num` crate's; the engine only
//! moves amplitudes around and combines them through the operations below.
//!
//! A real number (an angle, a probability, a scale factor) travels as the
//! amplitude that has it as its real part. Operations whose name starts with
//! `real_` read only the real part of their arguments and give back an
//! amplitude on the real axis.
//!
//! To the verifier an amplitude is a value of which nothing is known but what
//! the operations below say. Two amplitudes are the same value when their
//! parts are the same doubles, every NaN counting as the same double.
//!
//! Where the same arguments always give the same result, the result is a
//! function of them, such as `sum`. Where the platform has a say in the last
//! digits, there is only a relation between argument and result, such as
//! `exp_of`: it holds of every result that the operation gives.

use num::complex::Complex64;
use vstd::prelude::*;

verus! {

/// `num::complex::Complex`, carried through without a look inside.
#[verifier::external_type_specification]
#[verifier::external_body]
#[verifier::reject_recursive_types(T)]
pub struct ExComplex<T>(num::complex::Complex<T>);

/// The amplitude whose real and imaginary parts are the integers `re` and `im`.
pub uninterp spec fn lattice(re: int, im: int) -> Complex64;

/// The sum of two amplitudes.
pub uninterp spec fn sum(a: Complex64, b: Complex64) -> Complex64;

/// The product of two amplitudes.
pub uninterp spec fn product(a: Complex64, b: Complex64) -> Complex64;

/// The additive inverse of an amplitude.
pub uninterp spec fn negated(a: Complex64) -> Complex64;

/// The amplitude `a` with both parts multiplied by the real part of `k`.
pub uninterp spec fn scaled(a: Complex64, k: Complex64) -> Complex64;

/// The amplitude `a` with both parts multiplied by the square root of one half.
pub uninterp spec fn halved_in_norm(a: Complex64) -> Complex64;

/// The difference of two amplitudes.
pub uninterp spec fn difference(a: Complex64, b: Complex64) -> Complex64;

/// The amplitude `a` with both parts divided by the real part of `k`.
pub uninterp spec fn unscaled(a: Complex64, k: Complex64) -> Complex64;

/// The square root of the real part of `a`, on the real axis.
pub uninterp spec fn real_root(a: Complex64) -> Complex64;

/// Whether the real part of `a` is at least the real part of `b`.
pub uninterp spec fn at_least(a: Complex64, b: Complex64) -> bool;

/// Whether the real part of `a` is greater than the real part of `b`.
pub uninterp spec fn greater(a: Complex64, b: Complex64) -> bool;

/// Whether both parts of `a` are finite numbers.
pub uninterp spec fn finite(a: Complex64) -> bool;

/// Whether `r` is what the exponential of `a` came out as.
pub uninterp spec fn exp_of(a: Complex64, r: Complex64) -> bool;

/// Whether `r` is what the cosine of the real part of `a` came out as.
pub uninterp spec fn cos_of(a: Complex64, r: Complex64) -> bool;

/// Whether `r` is what the sine of the real part of `a` came out as.
pub uninterp spec fn sin_of(a: Complex64, r: Complex64) -> bool;

/// Whether `r` is what the real part of `a` raised to the power `n` came out
/// as.
pub uninterp spec fn power_of(a: Complex64, n: int, r: Complex64) -> bool;

/// Whether `r` is what the magnitude of `a` came out as.
pub uninterp spec fn magnitude_of(a: Complex64, r: Complex64) -> bool;

/// The amplitude 0.
pub open spec fn zero() -> Complex64 {
    lattice(0, 0)
}

/// The amplitude 1.
pub open spec fn one() -> Complex64 {
    lattice(1, 0)
}

/// The imaginary unit.
pub open spec fn imaginary_unit() -> Complex64 {
    lattice(0, 1)
}

/// `num::complex::c64` on two small integers: each part is converted to a
/// double without loss, so the result is the amplitude `re + im * i`.
#[verifier::external_body]
pub(crate) fn amp_from_ints(re: i32, im: i32) -> (r: Complex64)
    ensures
        r == lattice(re as int, im as int),
{
    num::complex::c64(re, im)
}

/// `Add` of `num::complex::Complex`: adds the parts pairwise.
#[verifier::external_body]
pub(crate) fn amp_add(a: Complex64, b: Complex64) -> (r: Complex64)
    ensures
        r == sum(a, b),
{
    a + b
}

/// `Mul` of `num::complex::Complex`: the complex product.
#[verifier::external_body]
pub(crate) fn amp_mul(a: Complex64, b: Complex64) -> (r: Complex64)
    ensures
        r == product(a, b),
{
    a * b
}

/// `Neg` of `num::complex::Complex`: negates both parts.
#[verifier::external_body]
pub(crate) fn amp_neg(a: Complex64) -> (r: Complex64)
    ensures
        r == negated(a),
{
    -a
}

/// `Complex::scale`: multiplies both parts of `a` by a real scalar, here the
/// real part of `k`.
#[verifier::external_body]
pub(crate) fn amp_scale(a: Complex64, k: Complex64) -> (r: Complex64)
    ensures
        r == scaled(a, k),
{
    a.scale(k.re)
}

/// `Complex::scale` by `FloatConst::FRAC_1_SQRT_2`, the double nearest to the
/// square root of one half.
#[verifier::external_body]
pub(crate) fn amp_scale_frac_1_sqrt_2(a: Complex64) -> (r: Complex64)
    ensures
        r == halved_in_norm(a),
{
    a.scale(num::traits::FloatConst::FRAC_1_SQRT_2())
}

/// `Sub` of `num::complex::Complex`: subtracts the parts pairwise.
#[verifier::external_body]
pub(crate) fn amp_sub(a: Complex64, b: Complex64) -> (r: Complex64)
    ensures
        r == difference(a, b),
{
    a - b
}

/// `Complex::unscale`: divides both parts of `a` by a real scalar, here the
/// real part of `k`. Division by 0 gives an infinity or a NaN and does not
/// fail.
#[verifier::external_body]
pub(crate) fn amp_unscale(a: Complex64, k: Complex64) -> (r: Complex64)
    ensures
        r == unscaled(a, k),
{
    a.unscale(k.re)
}

/// `Complex::is_finite`: whether neither part is an infinity or a NaN.
#[verifier::external_body]
pub(crate) fn amp_is_finite(a: Complex64) -> (r: bool)
    ensures
        r == finite(a),
{
    a.is_finite()
}

/// `Complex::exp`: the exponential of `a`. It is computed with the platform's
/// exponential, cosine and sine, whose last digits std leaves open, so the
/// result is only said to be one that this call gave for `a`.
#[verifier::external_body]
pub(crate) fn amp_exp(a: Complex64) -> (r: Complex64)
    ensures
        exp_of(a, r),
{
    a.exp()
}

/// `cos` of a double, on the real part of `a`. Std leaves the last digits of
/// the result open, so the result is only said to be one that this call gave
/// for `a`.
#[verifier::external_body]
pub(crate) fn real_cos(a: Complex64) -> (r: Complex64)
    ensures
        cos_of(a, r),
{
    Complex64::from(a.re.cos())
}

/// `sin` of a double, on the real part of `a`. Std leaves the last digits of
/// the result open, so the result is only said to be one that this call gave
/// for `a`.
#[verifier::external_body]
pub(crate) fn real_sin(a: Complex64) -> (r: Complex64)
    ensures
        sin_of(a, r),
{
    Complex64::from(a.re.sin())
}

/// `sqrt` of a double, on the real part of `a`: the correctly rounded square
/// root, or a NaN for a negative number.
#[verifier::external_body]
pub(crate) fn real_sqrt(a: Complex64) -> (r: Complex64)
    ensures
        r == real_root(a),
{
    Complex64::from(a.re.sqrt())
}

/// `>=` of doubles, on the real parts of `a` and `b`. False if either is a NaN.
#[verifier::external_body]
pub(crate) fn real_at_least(a: Complex64, b: Complex64) -> (r: bool)
    ensures
        r == at_least(a, b),
{
    a.re >= b.re
}

/// `>` of doubles, on the real parts of `a` and `b`. False if either is a NaN.
#[verifier::external_body]
pub(crate) fn real_greater(a: Complex64, b: Complex64) -> (r: bool)
    ensures
        r == greater(a, b),
{
    a.re > b.re
}

/// `powi` of a double, on the real part of `a`. Std leaves the last digits of
/// the result open, so the result is only said to be one that this call gave
/// for `a` and `n`.
#[verifier::external_body]
pub(crate) fn real_powi(a: Complex64, n: i32) -> (r: Complex64)
    ensures
        power_of(a, n as int, r),
{
    Complex64::from(a.re.powi(n))
}

/// `Complex::norm`: the magnitude of `a`, on the real axis. It is computed
/// with the platform's `hypot`, whose last digits std leaves open, so the
/// result is only said to be one that this call gave for `a`.
#[verifier::external_body]
pub(crate) fn amp_norm(a: Complex64) -> (r: Complex64)
    ensures
        magnitude_of(a, r),
{
    Complex64::from(a.norm())
}

} // verus!
