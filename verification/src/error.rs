//! What construction of an engine can fail with.

use vstd::prelude::*;

verus! {

#[derive(Clone, Copy, Debug, PartialEq, Eq, Structural)]
pub enum KBWError {
    /// More qubits were asked for than an index can address.
    UnsupportedNumberOfQubits,
}

} // verus!
