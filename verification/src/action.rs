//! What the protocol asks of the hardware.

use vstd::prelude::*;

verus! {

/// One hardware operation. The switch requester and the boot selector decide
/// which operation comes next; whoever drives them performs it.
///
/// `ReadAndClearCell` and `ReadWord` yield a word, which goes into the next
/// step of the machine that asked for it. The other operations yield nothing.
#[derive(Clone, Copy, Debug, PartialEq, Eq, Structural)]
pub enum Action {
    /// Store `tag` in the handoff cell, with a volatile write.
    WriteCell { tag: u32 },
    /// Read the handoff cell and overwrite it with the neutral tag at once,
    /// both with volatile accesses. Yields the word read.
    ReadAndClearCell,
    /// Read the 32-bit word at `address`. Yields that word.
    ReadWord { address: u32 },
    /// Data synchronization barrier: every store issued so far is complete
    /// before anything after it runs.
    DataBarrier,
    /// Instruction synchronization barrier: everything after it is fetched
    /// anew, under the state that the stores before it set up.
    InstructionBarrier,
    /// Point the processor's vector-table-base register at `base`.
    SetVectorTableBase { base: u32 },
    /// Make `stack_pointer` the active stack pointer and branch to `entry`.
    /// Control does not come back.
    Jump { stack_pointer: u32, entry: u32 },
    /// Ask the core for a system reset.
    RequestReset,
    /// Do nothing, once. A machine that has handed control away, or waits for
    /// a reset to take effect, asks for this forever.
    Spin,
}

} // verus!
