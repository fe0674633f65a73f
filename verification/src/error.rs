//! The conditions that stop a load or a run.

use vstd::prelude::*;

verus! {

/// Why the emulator could not go on. Each of them is returned to the caller;
/// none of them aborts the process.
#[derive(Clone, Copy, Debug, PartialEq, Eq, Structural)]
pub enum EmulatorError {
    /// The byte fetched as an opcode, which encodes no operation.
    UnimplementedOpcode(u8),
    /// The address of a store or a push that no RAM backs.
    InvalidWriteTarget(u16),
    /// The program image could not be used to populate the ROM.
    StartupIOError,
}

} // verus!
