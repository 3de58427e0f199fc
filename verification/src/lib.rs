//! Instruction-level emulation core for a vintage 8-bit handheld console
//! processor: a cycle-paced fetch/decode/execute engine over a flat 16-bit
//! address space and a small packed register file.

use vstd::prelude::*;

pub mod cheats;
pub mod cpu;
pub mod endian;
pub mod garntboy_state;
pub mod instruction;
pub mod register_state;

verus! {

/// Errors surfaced by the emulation core to its host.
#[derive(Clone, Copy, Debug, PartialEq, Eq, Structural)]
pub enum CoreError {
    /// The opcode byte fetched at the program counter has no table entry.
    UnimplementedOpcode(u8),
    /// A binary image longer than the memory space was offered for loading.
    ImageTooLarge,
    /// A cheat patch would run past the end of the memory space.
    CheatOutOfRange,
    /// A collaborator could not acquire the shared state lock in time.
    LockContention,
}

} // verus!
