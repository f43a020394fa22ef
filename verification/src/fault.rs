use vstd::prelude::*;

verus! {

/// The reasons for which the engine or the memory unit refuses to go on.
#[derive(Clone, Copy, Debug, PartialEq, Eq, Structural)]
pub enum Fault {
    /// No handler is registered for the fetched opcode.
    UnknownOpcode(u8),
    /// A division was executed whose divisor register held zero.
    DivisionByZero,
    /// A memory access reached past the last address.
    OutOfBounds,
    /// An operand byte that the instruction uses names no register.
    InvalidRegister(u8),
}

} // verus!
