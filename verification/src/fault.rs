//! Fatal machine faults.
//!
//! The machine has no in-VM trap mechanism: every fault aborts execution.
//! Operations that can fault return `Result<_, Fault>` and the embedding
//! decides how to surface the diagnostic.

use vstd::prelude::*;

verus! {

/// The reason a machine operation aborted.
#[derive(Clone, Copy, Debug, PartialEq, Eq, Structural)]
pub enum Fault {
    /// Unknown opcode.
    DecodeFault,
    /// Out-of-range byte or word access, or an address no region maps.
    MemoryFault,
    /// Push past the lower stack bound, pop past the upper bound, or
    /// running / touching the stack before `set_stack`.
    StackFault,
    /// Division by zero.
    ArithFault,
}

} // verus!
