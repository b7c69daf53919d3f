//! A readable listing of a state, for diagnostics.

use crate::amplitude::{amp_norm, greater, real_greater};
use crate::dense::Dense;
use crate::dump::{are_magnitudes, negligible, threshold};
use num::complex::Complex64;
use vstd::prelude::*;
use vstd::string::StringExecFns;

verus! {

/// The line that shows the amplitude `amp` of basis state `index`: the index
/// as 32 binary digits, a colon, and the amplitude's two parts.
pub uninterp spec fn rendered(index: usize, amp: Complex64) -> Seq<char>;

/// The heading, followed by the lines of the indices below `n` that `shown`
/// marks, in increasing order.
pub open spec fn listing(state: Seq<Complex64>, shown: Seq<bool>, n: nat) -> Seq<char>
    decreases n,
{
    if n == 0 {
        "State:\n"@
    } else {
        let rest = listing(state, shown, (n - 1) as nat);
        if shown[n - 1] {
            rest + rendered((n - 1) as usize, state[n - 1])
        } else {
            rest
        }
    }
}

/// Whether `shown` marks the indices whose magnitude, as `norms` gives it, is
/// not below the reporting threshold.
pub open spec fn marks_visible(shown: Seq<bool>, norms: Seq<Complex64>) -> bool {
    &&& shown.len() == norms.len()
    &&& forall|s: int| 0 <= s < shown.len() ==> shown[s] == !greater(negligible(), norms[s])
}

/// Whether `shown` marks the indices of `state` at which the magnitude of the
/// amplitude came out not below the reporting threshold.
pub open spec fn is_visibility(state: Seq<Complex64>, shown: Seq<bool>) -> bool {
    exists|norms: Seq<Complex64>|
        are_magnitudes(state, norms) && #[trigger] marks_visible(shown, norms)
}

/// `format!` with the index as 32 binary digits and the amplitude in its
/// `Debug` form, which `num` derives: the same index and amplitude always
/// give the same line.
#[verifier::external_body]
pub(crate) fn render_line(index: usize, amp: Complex64) -> (r: String)
    ensures
        r@ == rendered(index, amp),
{
    format!("{:032b}: {:?}\n", index, amp)
}

impl Dense {
    /// For every basis index, whether the magnitude of its amplitude is not
    /// below the reporting threshold.
    pub fn visible(&self) -> (r: Vec<bool>)
        ensures
            r@.len() == self@.len(),
            is_visibility(self@, r@),
    {
        let state = self.get_current_state();
        let bound = threshold();
        let mut shown: Vec<bool> = Vec::new();
        let ghost mut norms: Seq<Complex64> = Seq::empty();
        let mut s: usize = 0;
        while s < state.len()
            invariant
                s <= state@.len(),
                state@ == self@,
                bound == negligible(),
                shown@.len() == s,
                marks_visible(shown@, norms),
                are_magnitudes(state@.take(s as int), norms),
            decreases state@.len() - s,
        {
            let norm = amp_norm(state[s]);
            shown.push(!real_greater(bound, norm));
            proof {
                norms = norms.push(norm);
            }
            s += 1;
        }
        assert(state@.take(s as int) == state@);
        assert(are_magnitudes(self@, norms) && marks_visible(shown@, norms));
        shown
    }

    /// A listing of the present state: the heading and one line for every
    /// amplitude that `shown` marks. The state is left as it is.
    pub fn list_selected(&self, shown: &[bool]) -> (r: String)
        requires
            shown@.len() == self@.len(),
        ensures
            r@ == listing(self@, shown@, self@.len()),
    {
        let state = self.get_current_state();
        let mut state_str = String::from_str("State:\n");
        let mut s: usize = 0;
        while s < state.len()
            invariant
                s <= state@.len(),
                state@ == self@,
                shown@.len() == state@.len(),
                state_str@ == listing(state@, shown@, s as nat),
            decreases state@.len() - s,
        {
            if shown[s] {
                let line = render_line(s, state[s]);
                state_str.append(line.as_str());
            }
            s += 1;
        }
        state_str
    }

    /// A listing of the present state: one line for every amplitude whose
    /// magnitude is not below the reporting threshold. The state is left as it
    /// is.
    pub fn debug_state(&self) -> (r: Option<String>)
        ensures
            r is Some,
            exists|shown: Seq<bool>| #[trigger]
                is_visibility(self@, shown) && r.unwrap()@ == listing(self@, shown, self@.len()),
    {
        let shown = self.visible();
        let r = Some(self.list_selected(shown.as_slice()));
        assert(is_visibility(self@, shown@) && r.unwrap()@ == listing(
            self@,
            shown@,
            self@.len(),
        ));
        r
    }
}

} // verus!
