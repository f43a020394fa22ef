use vstd::prelude::*;
use crate::fault::Fault;
use crate::isa::{
    greater_set, instruction_for, negative_set, wrapping_difference, wrapping_product,
    wrapping_sum, zero_set, Instruction, REGISTER_COUNT,
};
use crate::memory::{
    byte_of_word, lemma_write_then_read_word, word_in_bounds, write_word_spec, MEMORY_SIZE,
};
use crate::state::{
    decode_spec, done, execute_spec, failed, nth_or_zero, run_spec, step_spec, CpuState,
};

verus! {

/// Sum and difference wrap around at 2^32, and the product is taken modulo 2^32.
pub proof fn lemma_arithmetic_wraps(a: u32, b: u32)
    ensures
        a + b < 0x1_0000_0000 ==> wrapping_sum(a, b) == a + b,
        a + b >= 0x1_0000_0000 ==> wrapping_sum(a, b) == a + b - 0x1_0000_0000,
        a >= b ==> wrapping_difference(a, b) == a - b,
        a < b ==> wrapping_difference(a, b) == a - b + 0x1_0000_0000,
        a * b < 0x1_0000_0000 ==> wrapping_product(a, b) == a * b,
        wrapping_sum(wrapping_difference(a, b), b) == a,
{
    if a * b < 0x1_0000_0000 {
        assert(a * b >= 0) by (nonlinear_arith);
        assert((a as nat * b as nat) % 0x1_0000_0000 == a * b);
    }
}

/// Addition, subtraction and multiplication never fail on valid registers:
/// the first register gets the result modulo 2^32 and nothing else changes.
pub proof fn lemma_arithmetic_instructions(s: CpuState, r1: u8, r2: u8, incoming: u32)
    requires
        r1 < REGISTER_COUNT,
        r2 < REGISTER_COUNT,
    ensures
        execute_spec(s, Instruction::Add, r1, r2, incoming) == done(
            s.with_reg(r1, wrapping_sum(s.reg(r1), s.reg(r2))),
        ),
        execute_spec(s, Instruction::Sub, r1, r2, incoming) == done(
            s.with_reg(r1, wrapping_difference(s.reg(r1), s.reg(r2))),
        ),
        execute_spec(s, Instruction::Mul, r1, r2, incoming) == done(
            s.with_reg(r1, wrapping_product(s.reg(r1), s.reg(r2))),
        ),
{
}

/// A division by zero is a fault whatever the dividend is, and leaves the
/// state as it was; any other division puts the truncated quotient into the
/// first register.
pub proof fn lemma_division(s: CpuState, r1: u8, r2: u8, incoming: u32)
    requires
        r1 < REGISTER_COUNT,
        r2 < REGISTER_COUNT,
    ensures
        s.reg(r2) == 0 ==> execute_spec(s, Instruction::Div, r1, r2, incoming) == failed(
            s,
            Fault::DivisionByZero,
        ),
        s.reg(r2) != 0 ==> {
            let after = execute_spec(s, Instruction::Div, r1, r2, incoming);
            let quotient = s.reg(r1) / s.reg(r2);
            &&& after == done(s.with_reg(r1, quotient as u32))
            &&& quotient * s.reg(r2) <= s.reg(r1) < (quotient + 1) * s.reg(r2)
        },
{
    if s.reg(r2) != 0 {
        let a = s.reg(r1) as int;
        let b = s.reg(r2) as int;
        assert((a / b) * b <= a < (a / b + 1) * b && 0 <= a / b <= a) by (nonlinear_arith)
            requires
                a >= 0,
                b > 0,
        ;
    }
}

/// A word stored through one register and loaded through the same address
/// register comes back unchanged, into whichever register it is loaded.
pub proof fn lemma_store_then_load(s: CpuState, ra: u8, rb: u8, rc: u8, incoming: u32)
    requires
        s.well_formed(),
        ra < REGISTER_COUNT,
        rb < REGISTER_COUNT,
        rc < REGISTER_COUNT,
        word_in_bounds(MEMORY_SIZE as int, s.address(rb) as int),
    ensures
        execute_spec(s, Instruction::Store, ra, rb, incoming).fault is None,
        execute_spec(
            execute_spec(s, Instruction::Store, ra, rb, incoming).state,
            Instruction::Load,
            rc,
            rb,
            incoming,
        ) == done(
            execute_spec(s, Instruction::Store, ra, rb, incoming).state.with_reg(rc, s.reg(ra)),
        ),
{
    lemma_write_then_read_word(s.mem, s.address(rb) as int, s.reg(ra));
}

/// A stored word lies in memory least significant byte first.
pub proof fn lemma_word_byte_order(mem: Seq<u8>, addr: int, value: u32)
    requires
        word_in_bounds(mem.len() as int, addr),
    ensures
        write_word_spec(mem, addr, value)[addr] == byte_of_word(value, 0),
        write_word_spec(mem, addr, value)[addr + 1] == byte_of_word(value, 1),
        write_word_spec(mem, addr, value)[addr + 2] == byte_of_word(value, 2),
        write_word_spec(mem, addr, value)[addr + 3] == byte_of_word(value, 3),
        value == 0x1234_5678 ==> byte_of_word(value, 0) == 0x78 && byte_of_word(value, 1) == 0x56
            && byte_of_word(value, 2) == 0x34 && byte_of_word(value, 3) == 0x12,
{
}

/// The condition on the flags under which a jump instruction is taken.
pub open spec fn jump_taken(instruction: Instruction, flags: u8) -> bool {
    match instruction {
        Instruction::Jmp => true,
        Instruction::Je => zero_set(flags),
        Instruction::Jne => !zero_set(flags),
        Instruction::Jg => greater_set(flags),
        Instruction::Jl => negative_set(flags),
        _ => false,
    }
}

/// A jump whose condition does not hold changes nothing, whatever its
/// operands are; one whose condition holds moves the program counter to the
/// address in its first register and changes nothing else.
pub proof fn lemma_jumps(s: CpuState, instruction: Instruction, r1: u8, r2: u8, incoming: u32)
    requires
        instruction == Instruction::Jmp || instruction == Instruction::Je || instruction
            == Instruction::Jne || instruction == Instruction::Jg || instruction
            == Instruction::Jl,
    ensures
        !jump_taken(instruction, s.flags) ==> execute_spec(s, instruction, r1, r2, incoming)
            == done(s),
        jump_taken(instruction, s.flags) && r1 < REGISTER_COUNT ==> execute_spec(
            s,
            instruction,
            r1,
            r2,
            incoming,
        ) == done(s.with_pc(s.address(r1))),
        jump_taken(instruction, s.flags) && r1 >= REGISTER_COUNT ==> execute_spec(
            s,
            instruction,
            r1,
            r2,
            incoming,
        ) == failed(s, Fault::InvalidRegister(r1)),
{
}

/// An opcode that the table lacks ends the run with a fault, whatever the
/// operand bytes are: decoding fails, so does the step that fetched it, and
/// so does every run that is about to fetch it. The fault names the opcode
/// wherever the two operand bytes lie inside the memory.
pub proof fn lemma_unknown_opcode_aborts(s: CpuState, incoming: u32, feed: Seq<u32>, fuel: nat)
    requires
        s.well_formed(),
        s.pc < MEMORY_SIZE,
        instruction_for(s.mem[s.pc as int]) is None,
    ensures
        decode_spec(s.with_pc((s.pc + 1) as usize), s.mem[s.pc as int], incoming).fault is Some,
        step_spec(s, incoming).fault is Some,
        s.pc + 2 < MEMORY_SIZE ==> step_spec(s, incoming).fault == Some(
            Fault::UnknownOpcode(s.mem[s.pc as int]),
        ),
        s.pc + 2 >= MEMORY_SIZE ==> step_spec(s, incoming).fault == Some(Fault::OutOfBounds),
        !s.halted && fuel > 0 ==> run_spec(s, feed, fuel).fault is Some,
        step_spec(s, incoming).state.regs == s.regs,
        step_spec(s, incoming).state.mem == s.mem,
        step_spec(s, incoming).state.sent == s.sent,
{
}

/// No instruction resets the halted state: a step from a halted state, had
/// it been made, would leave the state halted.
pub proof fn lemma_halted_is_monotonic(s: CpuState, incoming: u32)
    requires
        s.halted,
    ensures
        step_spec(s, incoming).state.halted,
{
}

/// A run from a halted state executes nothing: it ends at once, without a
/// fault and in the same state, whatever the memory holds.
pub proof fn lemma_halted_run_is_idle(s: CpuState, feed: Seq<u32>, fuel: nat)
    requires
        s.halted,
    ensures
        run_spec(s, feed, fuel) == done(s),
{
}

/// A run that ended without a fault can be taken up again: running for
/// `first` turns and then for `second` more is running for `first + second`.
pub proof fn lemma_run_resumes(s: CpuState, feed: Seq<u32>, first: nat, second: nat)
    ensures
        run_spec(s, feed, first).fault is None ==> run_spec(s, feed, first + second) == run_spec(
            run_spec(s, feed, first).state,
            feed,
            second,
        ),
        run_spec(s, feed, first).fault is Some ==> run_spec(s, feed, first + second) == run_spec(
            s,
            feed,
            first,
        ),
    decreases first,
{
    if s.halted {
        assert(run_spec(s, feed, first) == done(s));
        assert(run_spec(s, feed, second) == done(s));
        assert(run_spec(s, feed, first + second) == done(s));
    } else if first == 0 {
        assert(run_spec(s, feed, first) == done(s));
    } else {
        let next = step_spec(s, nth_or_zero(feed, s.received.len() as int));
        if next.fault is None {
            lemma_run_resumes(next.state, feed, (first - 1) as nat, second);
            assert((first + second - 1) as nat == (first - 1) as nat + second);
        }
    }
}

/// The flags change on a compare instruction only, and the halted state on
/// a halt instruction only.
pub proof fn lemma_flags_and_halt_frame(
    s: CpuState,
    instruction: Instruction,
    r1: u8,
    r2: u8,
    incoming: u32,
)
    ensures
        instruction != Instruction::Compare ==> execute_spec(
            s,
            instruction,
            r1,
            r2,
            incoming,
        ).state.flags == s.flags,
        instruction != Instruction::Halt ==> execute_spec(
            s,
            instruction,
            r1,
            r2,
            incoming,
        ).state.halted == s.halted,
        execute_spec(s, instruction, r1, r2, incoming).fault is Some ==> execute_spec(
            s,
            instruction,
            r1,
            r2,
            incoming,
        ).state == s,
{
}

/// A step keeps the register file at eight registers and the memory at its size.
pub proof fn lemma_step_preserves_well_formed(s: CpuState, incoming: u32)
    requires
        s.well_formed(),
    ensures
        step_spec(s, incoming).state.well_formed(),
{
}

} // verus!
