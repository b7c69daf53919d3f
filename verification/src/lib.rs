//! Dense state-vector engine for quantum circuits, with machine-checked
//! contracts for its addressing scheme and gate kernels.
//!
//! The state of `n` qubits is a vector of two to the `n` complex amplitudes,
//! indexed by basis state; qubit `q` is bit `q` of the index. A gate reads the
//! current buffer and writes the next one, then the two swap roles.
//!
//! - [`bitwise`]: bit tests and flips on basis indices.
//! - [`amplitude`]: the amplitude type and the arithmetic taken from `num`.
//! - [`kernel`]: what each gate makes of a state, entry by entry.
//! - [`parallel`]: one pass over a buffer, spread over `rayon`'s workers.
//! - [`dense`]: the engine and its gates.
//! - [`measurement`]: measuring a qubit with a random source from `rand`.
//! - [`dump`]: sparse snapshots on a chosen list of qubits.
//! - [`listing`]: a readable listing of a state.
//! - [`laws`]: what holds of the gates as transforms of whole states.
//! - [`process`], [`replay`]: the bookkeeping of a circuit under construction
//!   and the decisions of a pass that replays it.

pub mod amplitude;
pub mod bitwise;
pub mod dense;
pub mod dump;
pub mod error;
pub mod kernel;
pub mod laws;
pub mod listing;
pub mod measurement;
pub mod parallel;
pub mod process;
pub mod replay;
