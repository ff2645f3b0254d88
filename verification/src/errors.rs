use vstd::prelude::*;

verus! {

/// Failure of the instruction decoder: the 16-bit word matches no defined
/// instruction form. Carries the raw word so the caller can report it.
#[derive(Clone, Copy, Debug, PartialEq, Eq, Structural)]
pub enum DecodeError {
    UnknownOpcode(u16),
}

/// Failure of a memory access: the address lies outside the 4096-byte RAM.
#[derive(Clone, Copy, Debug, PartialEq, Eq, Structural)]
pub enum MemoryError {
    OutOfBounds(u16),
}

/// Failure of a call-stack operation: a push onto a full stack or a pop
/// from an empty one.
#[derive(Clone, Copy, Debug, PartialEq, Eq, Structural)]
pub enum StackError {
    Overflow,
    Underflow,
}

/// Failure at construction time: the quirk configuration is not one of the
/// recognized combinations.
#[derive(Clone, Copy, Debug, PartialEq, Eq, Structural)]
pub enum ConfigError {
    InvalidQuirkCombination,
}

/// The reason the engine halted. Any of these transitions the engine to a
/// terminal `Halted` status until an explicit reset.
#[derive(Clone, Copy, Debug, PartialEq, Eq, Structural)]
pub enum Fault {
    Decode(DecodeError),
    Memory(MemoryError),
    Stack(StackError),
}

/// Engine status. `Running` is initial; `LD Vx,K` suspends the engine as
/// `WaitingForKey` (recording the destination register) until a key event is
/// delivered; decode, memory and stack errors halt it.
#[derive(Clone, Copy, Debug, PartialEq, Eq, Structural)]
pub enum Status {
    Running,
    WaitingForKey(u8),
    Halted(Fault),
}

} // verus!
