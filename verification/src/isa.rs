use vstd::prelude::*;

verus! {

pub const OP_ADD: u8 = 0x40;
pub const OP_SUB: u8 = 0x41;
pub const OP_MUL: u8 = 0x42;
pub const OP_DIV: u8 = 0x43;
pub const OP_LOAD: u8 = 0x44;
pub const OP_STORE: u8 = 0x45;
pub const OP_INPUT: u8 = 0x46;
pub const OP_OUTPUT: u8 = 0x47;
pub const OP_AND: u8 = 0x48;
pub const OP_OR: u8 = 0x49;
pub const OP_XOR: u8 = 0x4A;
pub const OP_NOT: u8 = 0x4B;
pub const OP_SHL: u8 = 0x4C;
pub const OP_SHR: u8 = 0x4D;
pub const OP_COMPARE: u8 = 0x4E;
pub const OP_JMP: u8 = 0x4F;
pub const OP_JE: u8 = 0x50;
pub const OP_JNE: u8 = 0x51;
pub const OP_JG: u8 = 0x52;
pub const OP_JL: u8 = 0x53;
pub const OP_HALT: u8 = 0xFF;

/// Number of registers.
pub const REGISTER_COUNT: u8 = 8;

/// Flag bit: the compared operands were equal.
pub const ZERO_FLAG: u8 = 0b001;
/// Flag bit: the high bit of the difference was set.
pub const NEGATIVE_FLAG: u8 = 0b010;
/// Flag bit: the subtraction went below zero.
pub const OVERFLOW_FLAG: u8 = 0b100;

/// The operations of the engine. Every instruction is three bytes long:
/// the opcode and two operand bytes that name registers.
#[derive(Clone, Copy, Debug, PartialEq, Eq, Structural)]
pub enum Instruction {
    Add,
    Sub,
    Mul,
    Div,
    Load,
    Store,
    Input,
    Output,
    And,
    Or,
    Xor,
    Not,
    Shl,
    Shr,
    Compare,
    Jmp,
    Je,
    Jne,
    Jg,
    Jl,
    Halt,
}

/// The opcode table: which byte stands for which operation.
pub open spec fn opcode_table() -> Map<u8, Instruction> {
    Map::<u8, Instruction>::empty().insert(OP_ADD, Instruction::Add).insert(
        OP_SUB,
        Instruction::Sub,
    ).insert(OP_MUL, Instruction::Mul).insert(OP_DIV, Instruction::Div).insert(
        OP_LOAD,
        Instruction::Load,
    ).insert(OP_STORE, Instruction::Store).insert(OP_INPUT, Instruction::Input).insert(
        OP_OUTPUT,
        Instruction::Output,
    ).insert(OP_AND, Instruction::And).insert(OP_OR, Instruction::Or).insert(
        OP_XOR,
        Instruction::Xor,
    ).insert(OP_NOT, Instruction::Not).insert(OP_SHL, Instruction::Shl).insert(
        OP_SHR,
        Instruction::Shr,
    ).insert(OP_COMPARE, Instruction::Compare).insert(OP_JMP, Instruction::Jmp).insert(
        OP_JE,
        Instruction::Je,
    ).insert(OP_JNE, Instruction::Jne).insert(OP_JG, Instruction::Jg).insert(
        OP_JL,
        Instruction::Jl,
    ).insert(OP_HALT, Instruction::Halt)
}

/// The operation that `opcode` stands for, if any.
pub open spec fn instruction_for(opcode: u8) -> Option<Instruction> {
    if opcode_table().contains_key(opcode) {
        Some(opcode_table()[opcode])
    } else {
        None
    }
}

/// Sum modulo 2^32.
pub open spec fn wrapping_sum(a: u32, b: u32) -> u32 {
    ((a as int + b as int) % 0x1_0000_0000) as u32
}

/// Difference modulo 2^32.
pub open spec fn wrapping_difference(a: u32, b: u32) -> u32 {
    ((a as int - b as int) % 0x1_0000_0000) as u32
}

/// Product modulo 2^32.
pub open spec fn wrapping_product(a: u32, b: u32) -> u32 {
    ((a as nat * b as nat) % 0x1_0000_0000) as u32
}

/// Left shift; an amount of 32 or more gives zero.
pub open spec fn shifted_left(a: u32, amount: u32) -> u32 {
    if amount >= 32 {
        0
    } else {
        a << amount
    }
}

/// Right shift; an amount of 32 or more gives zero.
pub open spec fn shifted_right(a: u32, amount: u32) -> u32 {
    if amount >= 32 {
        0
    } else {
        a >> amount
    }
}

/// The flags that comparing `a` with `b` gives: Zero where they are equal,
/// Negative where the high bit of `a - b` (modulo 2^32) is set, Overflow
/// where the subtraction borrows. No other bit is set.
pub open spec fn compare_flags(a: u32, b: u32) -> u8 {
    (if a == b {
        ZERO_FLAG
    } else {
        0u8
    }) | (if wrapping_difference(a, b) >= 0x8000_0000 {
        NEGATIVE_FLAG
    } else {
        0u8
    }) | (if a < b {
        OVERFLOW_FLAG
    } else {
        0u8
    })
}

/// Whether the Zero bit is set in `flags`.
pub open spec fn zero_set(flags: u8) -> bool {
    flags & ZERO_FLAG != 0
}

/// Whether the Negative bit is set in `flags`.
pub open spec fn negative_set(flags: u8) -> bool {
    flags & NEGATIVE_FLAG != 0
}

/// Whether the Overflow bit is set in `flags`.
pub open spec fn overflow_set(flags: u8) -> bool {
    flags & OVERFLOW_FLAG != 0
}

/// Whether neither the Zero nor the Negative bit is set in `flags`.
pub open spec fn greater_set(flags: u8) -> bool {
    flags & (ZERO_FLAG | NEGATIVE_FLAG) == 0
}

/// The flag bits say of a comparison what their names promise: Zero is set
/// exactly where the operands are equal, and then the other two are clear;
/// Overflow is set exactly where the first operand is below the second;
/// Negative is set exactly where the high bit of the difference modulo 2^32
/// is set, which it is where the first operand is below the second by at
/// most 2^31.
pub proof fn lemma_compare_flags(a: u32, b: u32)
    ensures
        zero_set(compare_flags(a, b)) <==> a == b,
        a == b ==> !negative_set(compare_flags(a, b)) && !overflow_set(compare_flags(a, b)),
        overflow_set(compare_flags(a, b)) <==> a < b,
        negative_set(compare_flags(a, b)) <==> wrapping_difference(a, b) >= 0x8000_0000,
        a < b && b - a <= 0x8000_0000 ==> negative_set(compare_flags(a, b)),
        greater_set(compare_flags(a, b)) <==> a != b && wrapping_difference(a, b) < 0x8000_0000,
        a > b && a - b < 0x8000_0000 ==> greater_set(compare_flags(a, b)),
        compare_flags(a, b) < 8,
{
    let z: u8 = if a == b { ZERO_FLAG } else { 0u8 };
    let n: u8 = if wrapping_difference(a, b) >= 0x8000_0000 { NEGATIVE_FLAG } else { 0u8 };
    let o: u8 = if a < b { OVERFLOW_FLAG } else { 0u8 };
    assert((z == 0 || z == 1) && (n == 0 || n == 2) && (o == 0 || o == 4) ==> (((z | n | o) & 1
        != 0) == (z == 1)) && (((z | n | o) & 2 != 0) == (n == 2)) && (((z | n | o) & 4 != 0) == (o
        == 4)) && (((z | n | o) & (1u8 | 2u8) == 0) == (z == 0 && n == 0)) && (z | n | o) < 8)
        by (bit_vector);
}

} // verus!
