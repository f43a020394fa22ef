use vstd::prelude::*;
use crate::fault::Fault;
use crate::isa::{
    compare_flags, greater_set, instruction_for, negative_set, shifted_left, shifted_right,
    wrapping_difference, wrapping_product, wrapping_sum, zero_set, Instruction, REGISTER_COUNT,
};
use crate::memory::{read_word_spec, word_in_bounds, write_word_spec, MEMORY_SIZE};

verus! {

/// Everything the engine's behaviour depends on, as plain mathematical values.
pub ghost struct CpuState {
    /// The eight registers.
    pub regs: Seq<u32>,
    /// Address of the next byte to fetch.
    pub pc: usize,
    /// The flags byte.
    pub flags: u8,
    /// Whether the halt instruction has been executed.
    pub halted: bool,
    /// The memory, byte by byte.
    pub mem: Seq<u8>,
    /// The values read from the device so far, oldest first.
    pub received: Seq<u32>,
    /// The values handed to the device so far, oldest first.
    pub sent: Seq<u32>,
}

/// Where the engine stands after some work, and the fault that stopped it, if one did.
pub ghost struct Outcome {
    pub state: CpuState,
    pub fault: Option<Fault>,
}

/// The work went through and left the engine in `state`.
pub open spec fn done(state: CpuState) -> Outcome {
    Outcome { state, fault: None }
}

/// The work stopped with `fault`, leaving the engine in `state`.
pub open spec fn failed(state: CpuState, fault: Fault) -> Outcome {
    Outcome { state, fault: Some(fault) }
}

/// The outcome that a result and the state it left stand for.
pub open spec fn outcome_of(state: CpuState, result: Result<(), Fault>) -> Outcome {
    match result {
        Ok(_) => done(state),
        Err(fault) => failed(state, fault),
    }
}

/// The last element of `values`, zero if there is none.
pub open spec fn last_or_zero(values: Seq<u32>) -> u32 {
    if values.len() > 0 {
        values.last()
    } else {
        0
    }
}

/// Element `index` of `values`, zero if there is none.
pub open spec fn nth_or_zero(values: Seq<u32>, index: int) -> u32 {
    if 0 <= index < values.len() {
        values[index]
    } else {
        0
    }
}

impl CpuState {
    /// Eight registers and a full memory.
    pub open spec fn well_formed(self) -> bool {
        self.regs.len() == REGISTER_COUNT && self.mem.len() == MEMORY_SIZE
    }

    /// The state of a fresh engine around the memory `mem`.
    pub open spec fn initial(mem: Seq<u8>) -> CpuState {
        CpuState {
            regs: Seq::new(8, |i: int| 0u32),
            pc: 0,
            flags: 0,
            halted: false,
            mem,
            received: Seq::empty(),
            sent: Seq::empty(),
        }
    }

    /// The value of register `r`.
    pub open spec fn reg(self, r: u8) -> u32 {
        self.regs[r as int]
    }

    /// The address that register `r` holds.
    pub open spec fn address(self, r: u8) -> usize {
        self.regs[r as int] as usize
    }

    /// This state with register `r` set to `value`.
    pub open spec fn with_reg(self, r: u8, value: u32) -> CpuState {
        CpuState { regs: self.regs.update(r as int, value), ..self }
    }

    /// This state with the program counter set to `pc`.
    pub open spec fn with_pc(self, pc: usize) -> CpuState {
        CpuState { pc, ..self }
    }

    /// This state with the flags set to `flags`.
    pub open spec fn with_flags(self, flags: u8) -> CpuState {
        CpuState { flags, ..self }
    }

    /// This state with the memory replaced by `mem`.
    pub open spec fn with_mem(self, mem: Seq<u8>) -> CpuState {
        CpuState { mem, ..self }
    }

    /// This state, halted.
    pub open spec fn with_halt(self) -> CpuState {
        CpuState { halted: true, ..self }
    }

    /// This state after `value` came in from the device into register `r`.
    pub open spec fn after_input(self, r: u8, value: u32) -> CpuState {
        CpuState { received: self.received.push(value), ..self.with_reg(r, value) }
    }

    /// This state after register `r` went out to the device.
    pub open spec fn after_output(self, r: u8) -> CpuState {
        CpuState { sent: self.sent.push(self.reg(r)), ..self }
    }

    /// This state after a jump to the address in register `r`, taken only if `taken`.
    pub open spec fn after_jump(self, taken: bool, r: u8) -> CpuState {
        if taken {
            self.with_pc(self.address(r))
        } else {
            self
        }
    }
}

/// Whether `instruction`, executed in `s`, reads or writes the register that
/// its first operand names. The halt instruction never does; a conditional
/// jump does only where it is taken.
pub open spec fn uses_first(s: CpuState, instruction: Instruction) -> bool {
    match instruction {
        Instruction::Halt => false,
        Instruction::Je => zero_set(s.flags),
        Instruction::Jne => !zero_set(s.flags),
        Instruction::Jg => greater_set(s.flags),
        Instruction::Jl => negative_set(s.flags),
        _ => true,
    }
}

/// Whether `instruction` reads the register that its second operand names.
pub open spec fn uses_second(instruction: Instruction) -> bool {
    match instruction {
        Instruction::Add
        | Instruction::Sub
        | Instruction::Mul
        | Instruction::Div
        | Instruction::Load
        | Instruction::Store
        | Instruction::And
        | Instruction::Or
        | Instruction::Xor
        | Instruction::Shl
        | Instruction::Shr
        | Instruction::Compare => true,
        _ => false,
    }
}

/// The operand that `instruction` would use although it names no register:
/// the first such one, if any.
pub open spec fn invalid_operand(s: CpuState, instruction: Instruction, r1: u8, r2: u8) -> Option<
    u8,
> {
    if uses_first(s, instruction) && r1 >= REGISTER_COUNT {
        Some(r1)
    } else if uses_second(instruction) && r2 >= REGISTER_COUNT {
        Some(r2)
    } else {
        None
    }
}

/// What executing `instruction` with the operands `r1` and `r2` in state `s`
/// leads to. `incoming` is the value that the device delivers if the
/// instruction asks for one; no other instruction looks at it.
pub open spec fn execute_spec(
    s: CpuState,
    instruction: Instruction,
    r1: u8,
    r2: u8,
    incoming: u32,
) -> Outcome {
    match invalid_operand(s, instruction, r1, r2) {
        Some(r) => failed(s, Fault::InvalidRegister(r)),
        None => match instruction {
            Instruction::Add => done(s.with_reg(r1, wrapping_sum(s.reg(r1), s.reg(r2)))),
            Instruction::Sub => done(s.with_reg(r1, wrapping_difference(s.reg(r1), s.reg(r2)))),
            Instruction::Mul => done(s.with_reg(r1, wrapping_product(s.reg(r1), s.reg(r2)))),
            Instruction::Div => if s.reg(r2) == 0 {
                failed(s, Fault::DivisionByZero)
            } else {
                done(s.with_reg(r1, (s.reg(r1) / s.reg(r2)) as u32))
            },
            Instruction::Load => if word_in_bounds(MEMORY_SIZE as int, s.address(r2) as int) {
                done(s.with_reg(r1, read_word_spec(s.mem, s.address(r2) as int)))
            } else {
                failed(s, Fault::OutOfBounds)
            },
            Instruction::Store => if word_in_bounds(MEMORY_SIZE as int, s.address(r2) as int) {
                done(s.with_mem(write_word_spec(s.mem, s.address(r2) as int, s.reg(r1))))
            } else {
                failed(s, Fault::OutOfBounds)
            },
            Instruction::Input => done(s.after_input(r1, incoming)),
            Instruction::Output => done(s.after_output(r1)),
            Instruction::And => done(s.with_reg(r1, s.reg(r1) & s.reg(r2))),
            Instruction::Or => done(s.with_reg(r1, s.reg(r1) | s.reg(r2))),
            Instruction::Xor => done(s.with_reg(r1, s.reg(r1) ^ s.reg(r2))),
            Instruction::Not => done(s.with_reg(r1, !s.reg(r1))),
            Instruction::Shl => done(s.with_reg(r1, shifted_left(s.reg(r1), s.reg(r2)))),
            Instruction::Shr => done(s.with_reg(r1, shifted_right(s.reg(r1), s.reg(r2)))),
            Instruction::Compare => done(s.with_flags(compare_flags(s.reg(r1), s.reg(r2)))),
            Instruction::Jmp => done(s.after_jump(true, r1)),
            Instruction::Je => done(s.after_jump(zero_set(s.flags), r1)),
            Instruction::Jne => done(s.after_jump(!zero_set(s.flags), r1)),
            Instruction::Jg => done(s.after_jump(greater_set(s.flags), r1)),
            Instruction::Jl => done(s.after_jump(negative_set(s.flags), r1)),
            Instruction::Halt => done(s.with_halt()),
        },
    }
}

/// What fetching one byte at the program counter leads to: the counter moves
/// on by one, or the fetch is out of bounds and nothing changes.
pub open spec fn fetch_spec(s: CpuState) -> Outcome {
    if s.pc < MEMORY_SIZE {
        done(s.with_pc((s.pc + 1) as usize))
    } else {
        failed(s, Fault::OutOfBounds)
    }
}

/// What decoding and executing leads to once `opcode` has been fetched: the
/// two operand bytes are fetched, the opcode is looked up, and the
/// instruction is executed.
pub open spec fn decode_spec(s: CpuState, opcode: u8, incoming: u32) -> Outcome {
    let first = fetch_spec(s);
    let second = fetch_spec(first.state);
    if first.fault is Some {
        first
    } else if second.fault is Some {
        second
    } else {
        match instruction_for(opcode) {
            None => failed(second.state, Fault::UnknownOpcode(opcode)),
            Some(instruction) => execute_spec(
                second.state,
                instruction,
                s.mem[s.pc as int],
                s.mem[s.pc + 1],
                incoming,
            ),
        }
    }
}

/// What one turn of the fetch, decode and execute cycle leads to.
pub open spec fn step_spec(s: CpuState, incoming: u32) -> Outcome {
    let fetched = fetch_spec(s);
    if fetched.fault is Some {
        fetched
    } else {
        decode_spec(fetched.state, s.mem[s.pc as int], incoming)
    }
}

/// What running for at most `fuel` turns leads to, where the device delivers
/// the values of `feed` in order: value number `n` of `feed` answers the
/// request made when `n` values had been received. The run ends at the first
/// fault, when the engine is halted, or when the fuel is used up, whichever
/// comes first.
pub open spec fn run_spec(s: CpuState, feed: Seq<u32>, fuel: nat) -> Outcome
    decreases fuel,
{
    if s.halted || fuel == 0 {
        done(s)
    } else {
        let next = step_spec(s, nth_or_zero(feed, s.received.len() as int));
        if next.fault is Some {
            next
        } else {
            run_spec(next.state, feed, (fuel - 1) as nat)
        }
    }
}

/// A step takes from the device at most one value, and looks at nothing else
/// of what the device delivers: where the state after a step that was given
/// `incoming` agrees with the feed, and `incoming` is the last value received
/// in it, the step is the one that the feed gives.
pub proof fn lemma_step_follows_feed(s: CpuState, incoming: u32, feed: Seq<u32>)
    requires
        step_spec(s, incoming).state.received.is_prefix_of(feed),
        incoming == last_or_zero(step_spec(s, incoming).state.received),
    ensures
        step_spec(s, nth_or_zero(feed, s.received.len() as int)) == step_spec(s, incoming),
        s.received.is_prefix_of(feed),
{
    let after = step_spec(s, incoming).state;
    let given = nth_or_zero(feed, s.received.len() as int);
    if after.received == s.received {
        assert(step_spec(s, given) == step_spec(s, incoming));
    } else {
        assert(after.received == s.received.push(incoming));
        assert(feed.subrange(0, after.received.len() as int)[s.received.len() as int]
            == incoming);
        assert(given == incoming);
        assert(s.received =~= feed.subrange(0, s.received.len() as int));
    }
}

} // verus!
