//! The bookkeeping of a circuit under construction, and its reset.

use crate::dump::DumpData;
use crate::kernel::Kernel;
use vstd::prelude::*;

verus! {

/// One buffered step of a circuit.
pub enum Instruction {
    /// An update of `target` under the listed controls.
    Gate { kernel: Kernel, target: usize, control: Vec<usize> },
    /// A measurement of the listed qubits, whose result goes to `output`.
    Measure { qubits: Vec<usize>, output: usize },
    /// A snapshot on the listed qubits, which goes to `output`.
    Dump { qubits: Vec<usize>, output: usize },
}

/// What a circuit builder has recorded so far.
pub struct Process {
    /// The instructions issued and not yet run.
    pub instructions: Vec<Instruction>,
    /// The open control scopes, innermost last.
    pub ctrl_stack: Vec<Vec<usize>>,
    /// Whether the flattened control list agrees with `ctrl_stack`.
    pub ctrl_list_is_up_to_date: bool,
    /// The open inverse scopes, innermost last.
    pub adj_stack: Vec<Vec<Instruction>>,
    /// The qubits handed out.
    pub qubits: Vec<usize>,
    /// How many qubits are in use.
    pub qubit_allocated: usize,
    /// The snapshots asked for, filled in as they are taken.
    pub dumps: Vec<Option<DumpData>>,
    /// The measurements asked for, filled in as they are made.
    pub measurements: Vec<Option<u64>>,
}

impl Process {
    /// Nothing is recorded: no instruction, scope, qubit or result.
    pub open spec fn is_blank(&self) -> bool {
        &&& self.instructions@.len() == 0
        &&& self.ctrl_stack@.len() == 0
        &&& !self.ctrl_list_is_up_to_date
        &&& self.adj_stack@.len() == 0
        &&& self.qubits@.len() == 0
        &&& self.qubit_allocated == 0
        &&& self.dumps@.len() == 0
        &&& self.measurements@.len() == 0
    }

    /// A process on which nothing is recorded.
    pub fn new() -> (r: Process)
        ensures
            r.is_blank(),
    {
        Process {
            instructions: Vec::new(),
            ctrl_stack: Vec::new(),
            ctrl_list_is_up_to_date: false,
            adj_stack: Vec::new(),
            qubits: Vec::new(),
            qubit_allocated: 0,
            dumps: Vec::new(),
            measurements: Vec::new(),
        }
    }
}

/// Forgets everything recorded on `process`, so that a circuit can be
/// replayed onto it from the start.
pub fn prepare_process(process: &mut Process)
    ensures
        final(process).is_blank(),
{
    process.instructions.clear();
    process.ctrl_stack.clear();
    process.ctrl_list_is_up_to_date = false;
    process.adj_stack.clear();
    process.qubits.clear();
    process.qubit_allocated = 0;
    process.dumps.clear();
    process.measurements.clear();
}

} // verus!
