//! Data-parallel evaluation of one pass over a buffer.

use crate::kernel::{addressable, Kernel, Step};
use crate::measurement::{branch_weight, one_branch_weight};
use num::complex::Complex64;
use rayon::iter::{
    IndexedParallelIterator, IntoParallelRefIterator, IntoParallelRefMutIterator, ParallelIterator,
};
use vstd::prelude::*;

verus! {

/// The buffer that pass `step` of `kernel` makes of `before`, reading `other`.
pub open spec fn pass_result(
    kernel: Kernel,
    step: Step,
    before: Seq<Complex64>,
    other: Seq<Complex64>,
    target: usize,
    controls: Seq<usize>,
) -> Seq<Complex64> {
    Seq::new(
        before.len(),
        |s: int| kernel.step_value(step, before[s], other, s as usize, target, controls),
    )
}

/// `par_iter_mut().enumerate().for_each(..)` of `rayon`: visits every entry of
/// `buffer` once, together with its index, on some worker, and replaces the
/// entry by what `Kernel::step_entry` returns for it. No entry's value
/// depends on another entry of `buffer`, so the order of the visits does not
/// show in the result.
#[verifier::external_body]
pub(crate) fn par_pass(
    buffer: &mut Vec<Complex64>,
    other: &Vec<Complex64>,
    kernel: &Kernel,
    step: Step,
    target: usize,
    control: &[usize],
)
    requires
        old(buffer).len() == other.len(),
        addressable(other.len(), target),
    ensures
        final(buffer)@ == pass_result(*kernel, step, old(buffer)@, other@, target, control@),
{
    buffer.par_iter_mut().enumerate().for_each(
        |(s, amp)| { *amp = kernel.step_entry(step, *amp, other, s, target, control); },
    );
}

/// `par_iter().enumerate().map(..).sum()` of `rayon`: adds up, over every
/// entry of `current`, what `branch_weight` returns for it. The workers add
/// in an order of their own and rounding depends on that order, so the sum is
/// only said to be one that this call gave for `current` and `target`.
#[verifier::external_body]
pub(crate) fn par_probability(current: &Vec<Complex64>, target: usize) -> (r: Complex64)
    ensures
        one_branch_weight(current@, target, r),
{
    current.par_iter().enumerate().map(|(s, amp)| branch_weight(*amp, s, target)).sum()
}

} // verus!
