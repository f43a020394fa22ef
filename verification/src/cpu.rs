use std::collections::HashMap;
use vstd::prelude::*;
use crate::fault::Fault;
use crate::io::{IOController, IODevice};
use crate::isa::{
    compare_flags, greater_set, instruction_for, negative_set, opcode_table, shifted_left,
    shifted_right, wrapping_difference, wrapping_product, wrapping_sum, zero_set, Instruction,
    NEGATIVE_FLAG, OP_ADD, OP_AND, OP_COMPARE, OP_DIV, OP_HALT, OP_INPUT, OP_JE, OP_JG, OP_JL,
    OP_JMP, OP_JNE, OP_LOAD, OP_MUL, OP_NOT, OP_OR, OP_OUTPUT, OP_SHL, OP_SHR, OP_STORE, OP_SUB,
    OP_XOR, OVERFLOW_FLAG, REGISTER_COUNT, ZERO_FLAG,
};
use crate::memory::{
    load_spec, read_word_spec, word_in_bounds, write_word_spec, MemoryManagementUnit, MEMORY_SIZE,
};
use crate::state::{
    decode_spec, execute_spec, fetch_spec, last_or_zero, lemma_step_follows_feed, nth_or_zero,
    outcome_of, run_spec, step_spec, uses_first, uses_second, CpuState, Outcome,
};

verus! {

/// The execution engine: eight registers, a program counter, the flags, the
/// memory, the I/O port and the opcode table.
pub struct CPU<D: IODevice> {
    registers: [u32; 8],
    program_counter: usize,
    mmu: MemoryManagementUnit,
    io_controller: IOController<D>,
    instruction_set: HashMap<u8, Instruction>,
    flags: u8,
    halted: bool,
}

impl<D: IODevice> View for CPU<D> {
    type V = CpuState;

    closed spec fn view(&self) -> CpuState {
        CpuState {
            regs: self.registers@,
            pc: self.program_counter,
            flags: self.flags,
            halted: self.halted,
            mem: self.mmu@,
            received: self.io_controller.received(),
            sent: self.io_controller.sent(),
        }
    }
}

/// What the device went through while the engine went from `s` to `t` in at
/// most one instruction: where a value was received, one `input` that
/// returned it; where a value was sent, one `output` of it; otherwise nothing.
pub open spec fn device_follows<D: IODevice>(
    before: D,
    after: D,
    s: CpuState,
    t: CpuState,
) -> bool {
    if t.received.len() > s.received.len() {
        before.input_spec(&after, t.received.last())
    } else if t.sent.len() > s.sent.len() {
        before.output_spec(&after, t.sent.last())
    } else {
        after == before
    }
}

/// What the device went through while the engine ran from `s` for at most
/// `fuel` turns on the values of `feed`: it went from `before` to `after`
/// through one link of `device_follows` for each instruction executed.
pub open spec fn device_runs<D: IODevice>(
    before: D,
    after: D,
    s: CpuState,
    feed: Seq<u32>,
    fuel: nat,
) -> bool
    decreases fuel,
{
    if s.halted || fuel == 0 {
        after == before
    } else {
        let next = step_spec(s, nth_or_zero(feed, s.received.len() as int));
        exists|between: D| #[trigger]
            device_follows(before, between, s, next.state) && if next.fault is Some {
                after == between
            } else {
                device_runs(between, after, next.state, feed, (fuel - 1) as nat)
            }
    }
}

/// Whether `instruction` reads the register that its second operand names.
fn reads_second(instruction: Instruction) -> (used: bool)
    ensures
        used == uses_second(instruction),
{
    match instruction {
        Instruction::Add
        | Instruction::Sub
        | Instruction::Mul
        | Instruction::Div
        | Instruction::Load
        | Instruction::Store
        | Instruction::And
        | Instruction::Or
        | Instruction::Xor
        | Instruction::Shl
        | Instruction::Shr
        | Instruction::Compare => true,
        _ => false,
    }
}

impl<D: IODevice> CPU<D> {
    /// The engine is intact: its opcode table is the one it was built with
    /// and its memory is complete.
    pub closed spec fn inv(&self) -> bool {
        self.instruction_set@ == opcode_table() && self.mmu@.len() == MEMORY_SIZE
    }

    /// An intact engine has eight registers and a full memory.
    pub proof fn lemma_inv_well_formed(&self)
        requires
            self.inv(),
        ensures
            self@.well_formed(),
    {
    }

    /// The device behind the engine's port.
    pub closed spec fn device_spec(&self) -> D {
        self.io_controller.device_spec()
    }

    /// An engine in its initial state around the given port and memory:
    /// registers, program counter and flags zero, not halted.
    pub fn new(io_controller: IOController<D>, mmu: MemoryManagementUnit) -> (cpu: Self)
        ensures
            cpu@ == (CpuState {
                received: io_controller.received(),
                sent: io_controller.sent(),
                ..CpuState::initial(mmu@)
            }),
            cpu.inv(),
            cpu.device_spec() == io_controller.device_spec(),
    {
        // The memory unit vouches for its size.
        let _capacity: usize = mmu.capacity();
        let cpu = CPU {
            registers: [0, 0, 0, 0, 0, 0, 0, 0],
            program_counter: 0,
            mmu,
            io_controller,
            instruction_set: Self::initialize_instruction_set(),
            flags: 0,
            halted: false,
        };
        assert(cpu.registers@ =~= Seq::new(8, |i: int| 0u32));
        cpu
    }

    /// Builds the opcode table of an engine.
    fn initialize_instruction_set() -> (table: HashMap<u8, Instruction>)
        ensures
            table@ == opcode_table(),
    {
        broadcast use vstd::std_specs::hash::group_hash_axioms;

        let mut table: HashMap<u8, Instruction> = HashMap::new();
        table.insert(OP_ADD, Instruction::Add);
        table.insert(OP_SUB, Instruction::Sub);
        table.insert(OP_MUL, Instruction::Mul);
        table.insert(OP_DIV, Instruction::Div);
        table.insert(OP_LOAD, Instruction::Load);
        table.insert(OP_STORE, Instruction::Store);
        table.insert(OP_INPUT, Instruction::Input);
        table.insert(OP_OUTPUT, Instruction::Output);
        table.insert(OP_AND, Instruction::And);
        table.insert(OP_OR, Instruction::Or);
        table.insert(OP_XOR, Instruction::Xor);
        table.insert(OP_NOT, Instruction::Not);
        table.insert(OP_SHL, Instruction::Shl);
        table.insert(OP_SHR, Instruction::Shr);
        table.insert(OP_COMPARE, Instruction::Compare);
        table.insert(OP_JMP, Instruction::Jmp);
        table.insert(OP_JE, Instruction::Je);
        table.insert(OP_JNE, Instruction::Jne);
        table.insert(OP_JG, Instruction::Jg);
        table.insert(OP_JL, Instruction::Jl);
        table.insert(OP_HALT, Instruction::Halt);
        table
    }

    /// The operation that the opcode table holds for `opcode`, if any.
    fn lookup(&self, opcode: u8) -> (found: Option<Instruction>)
        requires
            self.inv(),
        ensures
            found == instruction_for(opcode),
    {
        broadcast use vstd::std_specs::hash::group_hash_axioms;

        match self.instruction_set.get(&opcode) {
            Some(instruction) => Some(*instruction),
            None => None,
        }
    }

    /// Copies `program` to the start of the memory. Registers, program
    /// counter, flags and the rest of the memory stay as they are. An image
    /// longer than the memory is refused and nothing changes.
    pub fn load_program(&mut self, program: &[u8]) -> (r: Result<(), Fault>)
        requires
            old(self).inv(),
        ensures
            final(self).inv(),
            final(self).device_spec() == old(self).device_spec(),
            program@.len() <= MEMORY_SIZE ==> r == Ok::<(), Fault>(())
                && final(self)@ == old(self)@.with_mem(load_spec(old(self)@.mem, program@)),
            program@.len() > MEMORY_SIZE ==> r == Err::<(), Fault>(Fault::OutOfBounds)
                && final(self)@ == old(self)@,
    {
        self.mmu.load_program(program)
    }

    /// The value of register `index`.
    pub fn register(&self, index: u8) -> (value: u32)
        requires
            index < REGISTER_COUNT,
        ensures
            value == self@.reg(index),
    {
        self.registers[index as usize]
    }

    /// Sets register `index` to `value`.
    pub fn set_register(&mut self, index: u8, value: u32)
        requires
            old(self).inv(),
            index < REGISTER_COUNT,
        ensures
            final(self).inv(),
            final(self)@ == old(self)@.with_reg(index, value),
            final(self).device_spec() == old(self).device_spec(),
    {
        self.registers[index as usize] = value;
    }

    /// All eight registers.
    pub fn registers(&self) -> (values: [u32; 8])
        ensures
            values@ == self@.regs,
    {
        self.registers
    }

    /// The flags byte.
    pub fn flags(&self) -> (flags: u8)
        ensures
            flags == self@.flags,
    {
        self.flags
    }

    /// The address of the next byte to fetch.
    pub fn program_counter(&self) -> (pc: usize)
        ensures
            pc == self@.pc,
    {
        self.program_counter
    }

    /// Whether the halt instruction has been executed.
    pub fn is_halted(&self) -> (halted: bool)
        ensures
            halted == self@.halted,
    {
        self.halted
    }

    /// Read access to the memory.
    pub fn memory(&self) -> (mmu: &MemoryManagementUnit)
        ensures
            mmu@ == self@.mem,
    {
        &self.mmu
    }

    /// Read access to the I/O port.
    pub fn io_controller(&self) -> (io: &IOController<D>)
        ensures
            io.received() == self@.received,
            io.sent() == self@.sent,
            io.device_spec() == self.device_spec(),
    {
        &self.io_controller
    }

    /// Write access to the device, as a test harness needs it between runs.
    pub fn device_mut(&mut self) -> (device: &mut D)
        requires
            old(self).inv(),
        ensures
            final(self).inv(),
            *device == old(self).device_spec(),
            final(self).device_spec() == *final(device),
            final(self)@ == old(self)@,
    {
        self.io_controller.device_mut()
    }

    /// Reads the byte at the program counter and moves the counter on by one.
    pub fn fetch(&mut self) -> (r: Result<u8, Fault>)
        requires
            old(self).inv(),
        ensures
            final(self).inv(),
            old(self)@.pc < MEMORY_SIZE ==> r == Ok::<u8, Fault>(
                old(self)@.mem[old(self)@.pc as int],
            ),
            old(self)@.pc >= MEMORY_SIZE ==> r == Err::<u8, Fault>(Fault::OutOfBounds),
            final(self)@ == fetch_spec(old(self)@).state,
            final(self).device_spec() == old(self).device_spec(),
    {
        match self.mmu.read_byte(self.program_counter) {
            Ok(byte) => {
                self.program_counter = self.program_counter + 1;
                Ok(byte)
            },
            Err(fault) => Err(fault),
        }
    }

    /// Whether `instruction`, executed now, uses the register that its first
    /// operand names.
    fn reads_first(&self, instruction: Instruction) -> (used: bool)
        ensures
            used == uses_first(self@, instruction),
    {
        match instruction {
            Instruction::Halt => false,
            Instruction::Je => self.flags & ZERO_FLAG != 0,
            Instruction::Jne => self.flags & ZERO_FLAG == 0,
            Instruction::Jg => self.flags & (ZERO_FLAG | NEGATIVE_FLAG) == 0,
            Instruction::Jl => self.flags & NEGATIVE_FLAG != 0,
            _ => true,
        }
    }

    /// Sets the program counter to the address in register `r1`.
    fn jump_to(&mut self, r1: u8)
        requires
            old(self).inv(),
            r1 < REGISTER_COUNT,
        ensures
            final(self).inv(),
            final(self)@ == old(self)@.after_jump(true, r1),
            final(self).device_spec() == old(self).device_spec(),
    {
        self.program_counter = self.registers[r1 as usize] as usize;
    }

    /// ADD: `R[r1] = R[r1] + R[r2]` modulo 2^32.
    pub fn add(&mut self, r1: u8, r2: u8)
        requires
            old(self).inv(),
            r1 < REGISTER_COUNT,
            r2 < REGISTER_COUNT,
        ensures
            final(self).inv(),
            final(self)@ == old(self)@.with_reg(
                r1,
                wrapping_sum(old(self)@.reg(r1), old(self)@.reg(r2)),
            ),
            final(self).device_spec() == old(self).device_spec(),
    {
        let value: u32 = self.register(r1).wrapping_add(self.register(r2));
        self.set_register(r1, value);
    }

    /// SUB: `R[r1] = R[r1] - R[r2]` modulo 2^32.
    pub fn sub(&mut self, r1: u8, r2: u8)
        requires
            old(self).inv(),
            r1 < REGISTER_COUNT,
            r2 < REGISTER_COUNT,
        ensures
            final(self).inv(),
            final(self)@ == old(self)@.with_reg(
                r1,
                wrapping_difference(old(self)@.reg(r1), old(self)@.reg(r2)),
            ),
            final(self).device_spec() == old(self).device_spec(),
    {
        let value: u32 = self.register(r1).wrapping_sub(self.register(r2));
        self.set_register(r1, value);
    }

    /// MUL: `R[r1] = R[r1] * R[r2]` modulo 2^32.
    pub fn mul(&mut self, r1: u8, r2: u8)
        requires
            old(self).inv(),
            r1 < REGISTER_COUNT,
            r2 < REGISTER_COUNT,
        ensures
            final(self).inv(),
            final(self)@ == old(self)@.with_reg(
                r1,
                wrapping_product(old(self)@.reg(r1), old(self)@.reg(r2)),
            ),
            final(self).device_spec() == old(self).device_spec(),
    {
        let value: u32 = self.register(r1).wrapping_mul(self.register(r2));
        self.set_register(r1, value);
    }

    /// DIV: `R[r1] = R[r1] / R[r2]`, truncating; a zero divisor is a fault
    /// and changes nothing.
    pub fn div(&mut self, r1: u8, r2: u8) -> (r: Result<(), Fault>)
        requires
            old(self).inv(),
            r1 < REGISTER_COUNT,
            r2 < REGISTER_COUNT,
        ensures
            final(self).inv(),
            old(self)@.reg(r2) == 0 ==> r == Err::<(), Fault>(Fault::DivisionByZero)
                && final(self)@ == old(self)@,
            old(self)@.reg(r2) != 0 ==> r == Ok::<(), Fault>(())
                && final(self)@ == old(self)@.with_reg(
                r1,
                (old(self)@.reg(r1) / old(self)@.reg(r2)) as u32,
            ),
            final(self).device_spec() == old(self).device_spec(),
    {
        let divisor: u32 = self.register(r2);
        if divisor != 0 {
            let value: u32 = self.register(r1) / divisor;
            self.set_register(r1, value);
            Ok(())
        } else {
            Err(Fault::DivisionByZero)
        }
    }

    /// LOAD: `R[r1]` = the word at the address in `R[r2]`; an address whose
    /// word does not fit in the memory is a fault and changes nothing.
    pub fn load(&mut self, r1: u8, r2: u8) -> (r: Result<(), Fault>)
        requires
            old(self).inv(),
            r1 < REGISTER_COUNT,
            r2 < REGISTER_COUNT,
        ensures
            final(self).inv(),
            word_in_bounds(MEMORY_SIZE as int, old(self)@.address(r2) as int) ==> r == Ok::<
                (),
                Fault,
            >(()) && final(self)@ == old(self)@.with_reg(
                r1,
                read_word_spec(old(self)@.mem, old(self)@.address(r2) as int),
            ),
            !word_in_bounds(MEMORY_SIZE as int, old(self)@.address(r2) as int) ==> r == Err::<
                (),
                Fault,
            >(Fault::OutOfBounds) && final(self)@ == old(self)@,
            final(self).device_spec() == old(self).device_spec(),
    {
        let address: usize = self.register(r2) as usize;
        match self.mmu.read_word(address) {
            Ok(value) => {
                self.set_register(r1, value);
                Ok(())
            },
            Err(fault) => Err(fault),
        }
    }

    /// STORE: the word at the address in `R[r2]` = `R[r1]`; an address whose
    /// word does not fit in the memory is a fault and changes nothing.
    pub fn store(&mut self, r1: u8, r2: u8) -> (r: Result<(), Fault>)
        requires
            old(self).inv(),
            r1 < REGISTER_COUNT,
            r2 < REGISTER_COUNT,
        ensures
            final(self).inv(),
            word_in_bounds(MEMORY_SIZE as int, old(self)@.address(r2) as int) ==> r == Ok::<
                (),
                Fault,
            >(()) && final(self)@ == old(self)@.with_mem(
                write_word_spec(
                    old(self)@.mem,
                    old(self)@.address(r2) as int,
                    old(self)@.reg(r1),
                ),
            ),
            !word_in_bounds(MEMORY_SIZE as int, old(self)@.address(r2) as int) ==> r == Err::<
                (),
                Fault,
            >(Fault::OutOfBounds) && final(self)@ == old(self)@,
            final(self).device_spec() == old(self).device_spec(),
    {
        let address: usize = self.register(r2) as usize;
        let value: u32 = self.register(r1);
        self.mmu.write_word(address, value)
    }

    /// INPUT: `R[r1]` = the next value from the device. The second operand
    /// is not used.
    pub fn input(&mut self, r1: u8, _r2: u8)
        requires
            old(self).inv(),
            r1 < REGISTER_COUNT,
        ensures
            final(self).inv(),
            final(self)@ == old(self)@.after_input(r1, last_or_zero(final(self)@.received)),
            old(self).device_spec().input_spec(
                &final(self).device_spec(),
                last_or_zero(final(self)@.received),
            ),
    {
        let value: u32 = self.io_controller.input();
        self.set_register(r1, value);
    }

    /// OUTPUT: hands `R[r1]` to the device. The second operand is not used.
    pub fn output(&mut self, r1: u8, _r2: u8)
        requires
            old(self).inv(),
            r1 < REGISTER_COUNT,
        ensures
            final(self).inv(),
            final(self)@ == old(self)@.after_output(r1),
            old(self).device_spec().output_spec(&final(self).device_spec(), old(self)@.reg(r1)),
    {
        let value: u32 = self.register(r1);
        self.io_controller.output(value);
    }

    /// AND: `R[r1] = R[r1] & R[r2]`.
    pub fn and(&mut self, r1: u8, r2: u8)
        requires
            old(self).inv(),
            r1 < REGISTER_COUNT,
            r2 < REGISTER_COUNT,
        ensures
            final(self).inv(),
            final(self)@ == old(self)@.with_reg(r1, old(self)@.reg(r1) & old(self)@.reg(r2)),
            final(self).device_spec() == old(self).device_spec(),
    {
        let value: u32 = self.register(r1) & self.register(r2);
        self.set_register(r1, value);
    }

    /// OR: `R[r1] = R[r1] | R[r2]`.
    pub fn or(&mut self, r1: u8, r2: u8)
        requires
            old(self).inv(),
            r1 < REGISTER_COUNT,
            r2 < REGISTER_COUNT,
        ensures
            final(self).inv(),
            final(self)@ == old(self)@.with_reg(r1, old(self)@.reg(r1) | old(self)@.reg(r2)),
            final(self).device_spec() == old(self).device_spec(),
    {
        let value: u32 = self.register(r1) | self.register(r2);
        self.set_register(r1, value);
    }

    /// XOR: `R[r1] = R[r1] ^ R[r2]`.
    pub fn xor(&mut self, r1: u8, r2: u8)
        requires
            old(self).inv(),
            r1 < REGISTER_COUNT,
            r2 < REGISTER_COUNT,
        ensures
            final(self).inv(),
            final(self)@ == old(self)@.with_reg(r1, old(self)@.reg(r1) ^ old(self)@.reg(r2)),
            final(self).device_spec() == old(self).device_spec(),
    {
        let value: u32 = self.register(r1) ^ self.register(r2);
        self.set_register(r1, value);
    }

    /// NOT: `R[r1]` = the bitwise complement of `R[r1]`. The second operand
    /// is not used.
    pub fn not(&mut self, r1: u8, _r2: u8)
        requires
            old(self).inv(),
            r1 < REGISTER_COUNT,
        ensures
            final(self).inv(),
            final(self)@ == old(self)@.with_reg(r1, !old(self)@.reg(r1)),
            final(self).device_spec() == old(self).device_spec(),
    {
        let value: u32 = !self.register(r1);
        self.set_register(r1, value);
    }

    /// SHL: `R[r1] = R[r1] << R[r2]`; a shift by 32 or more gives zero.
    pub fn shl(&mut self, r1: u8, r2: u8)
        requires
            old(self).inv(),
            r1 < REGISTER_COUNT,
            r2 < REGISTER_COUNT,
        ensures
            final(self).inv(),
            final(self)@ == old(self)@.with_reg(
                r1,
                shifted_left(old(self)@.reg(r1), old(self)@.reg(r2)),
            ),
            final(self).device_spec() == old(self).device_spec(),
    {
        let amount: u32 = self.register(r2);
        let value: u32 = if amount >= 32 {
            0
        } else {
            self.register(r1) << amount
        };
        self.set_register(r1, value);
    }

    /// SHR: `R[r1] = R[r1] >> R[r2]`; a shift by 32 or more gives zero.
    pub fn shr(&mut self, r1: u8, r2: u8)
        requires
            old(self).inv(),
            r1 < REGISTER_COUNT,
            r2 < REGISTER_COUNT,
        ensures
            final(self).inv(),
            final(self)@ == old(self)@.with_reg(
                r1,
                shifted_right(old(self)@.reg(r1), old(self)@.reg(r2)),
            ),
            final(self).device_spec() == old(self).device_spec(),
    {
        let amount: u32 = self.register(r2);
        let value: u32 = if amount >= 32 {
            0
        } else {
            self.register(r1) >> amount
        };
        self.set_register(r1, value);
    }

    /// Compare: sets the flags from `R[r1] - R[r2]` and changes no register.
    pub fn cmp(&mut self, r1: u8, r2: u8)
        requires
            old(self).inv(),
            r1 < REGISTER_COUNT,
            r2 < REGISTER_COUNT,
        ensures
            final(self).inv(),
            final(self)@ == old(self)@.with_flags(
                compare_flags(old(self)@.reg(r1), old(self)@.reg(r2)),
            ),
            final(self).device_spec() == old(self).device_spec(),
    {
        let a: u32 = self.register(r1);
        let b: u32 = self.register(r2);
        let difference: u32 = a.wrapping_sub(b);
        let overflow: bool = a < b;
        let zero_bit: u8 = if difference == 0 {
            ZERO_FLAG
        } else {
            0
        };
        let negative_bit: u8 = if difference >= 0x8000_0000 {
            NEGATIVE_FLAG
        } else {
            0
        };
        let overflow_bit: u8 = if overflow {
            OVERFLOW_FLAG
        } else {
            0
        };
        self.flags = zero_bit | negative_bit | overflow_bit;
    }

    /// JMP: the program counter becomes `R[r1]`. The second operand is not used.
    pub fn jmp(&mut self, r1: u8, _r2: u8)
        requires
            old(self).inv(),
            r1 < REGISTER_COUNT,
        ensures
            final(self).inv(),
            final(self)@ == old(self)@.after_jump(true, r1),
            final(self).device_spec() == old(self).device_spec(),
    {
        self.jump_to(r1);
    }

    /// JE: the program counter becomes `R[r1]` if the Zero flag is set;
    /// otherwise nothing changes.
    pub fn je(&mut self, r1: u8, _r2: u8)
        requires
            old(self).inv(),
            zero_set(old(self)@.flags) ==> r1 < REGISTER_COUNT,
        ensures
            final(self).inv(),
            final(self)@ == old(self)@.after_jump(zero_set(old(self)@.flags), r1),
            final(self).device_spec() == old(self).device_spec(),
    {
        if self.flags & ZERO_FLAG != 0 {
            self.jump_to(r1);
        }
    }

    /// JNE: the program counter becomes `R[r1]` if the Zero flag is clear;
    /// otherwise nothing changes.
    pub fn jne(&mut self, r1: u8, _r2: u8)
        requires
            old(self).inv(),
            !zero_set(old(self)@.flags) ==> r1 < REGISTER_COUNT,
        ensures
            final(self).inv(),
            final(self)@ == old(self)@.after_jump(!zero_set(old(self)@.flags), r1),
            final(self).device_spec() == old(self).device_spec(),
    {
        if self.flags & ZERO_FLAG == 0 {
            self.jump_to(r1);
        }
    }

    /// JG: the program counter becomes `R[r1]` if the Zero and the Negative
    /// flag are both clear; otherwise nothing changes.
    pub fn jg(&mut self, r1: u8, _r2: u8)
        requires
            old(self).inv(),
            greater_set(old(self)@.flags) ==> r1 < REGISTER_COUNT,
        ensures
            final(self).inv(),
            final(self)@ == old(self)@.after_jump(greater_set(old(self)@.flags), r1),
            final(self).device_spec() == old(self).device_spec(),
    {
        if self.flags & (ZERO_FLAG | NEGATIVE_FLAG) == 0 {
            self.jump_to(r1);
        }
    }

    /// JL: the program counter becomes `R[r1]` if the Negative flag is set;
    /// otherwise nothing changes.
    pub fn jl(&mut self, r1: u8, _r2: u8)
        requires
            old(self).inv(),
            negative_set(old(self)@.flags) ==> r1 < REGISTER_COUNT,
        ensures
            final(self).inv(),
            final(self)@ == old(self)@.after_jump(negative_set(old(self)@.flags), r1),
            final(self).device_spec() == old(self).device_spec(),
    {
        if self.flags & NEGATIVE_FLAG != 0 {
            self.jump_to(r1);
        }
    }

    /// HALT: the engine is halted. Neither operand is used.
    pub fn halt(&mut self, _r1: u8, _r2: u8)
        requires
            old(self).inv(),
        ensures
            final(self).inv(),
            final(self)@ == old(self)@.with_halt(),
            final(self).device_spec() == old(self).device_spec(),
    {
        self.halted = true;
    }

    /// Executes one decoded instruction. An operand that the instruction
    /// uses and that names no register is a fault, the first operand before
    /// the second, and changes nothing.
    pub fn execute(&mut self, instruction: Instruction, r1: u8, r2: u8) -> (r: Result<(), Fault>)
        requires
            old(self).inv(),
        ensures
            final(self).inv(),
            execute_spec(old(self)@, instruction, r1, r2, last_or_zero(final(self)@.received))
                == outcome_of(final(self)@, r),
            device_follows(
                old(self).device_spec(),
                final(self).device_spec(),
                old(self)@,
                final(self)@,
            ),
    {
        if self.reads_first(instruction) && r1 >= REGISTER_COUNT {
            return Err(Fault::InvalidRegister(r1));
        }
        if reads_second(instruction) && r2 >= REGISTER_COUNT {
            return Err(Fault::InvalidRegister(r2));
        }
        match instruction {
            Instruction::Add => {
                self.add(r1, r2);
                Ok(())
            },
            Instruction::Sub => {
                self.sub(r1, r2);
                Ok(())
            },
            Instruction::Mul => {
                self.mul(r1, r2);
                Ok(())
            },
            Instruction::Div => self.div(r1, r2),
            Instruction::Load => self.load(r1, r2),
            Instruction::Store => self.store(r1, r2),
            Instruction::Input => {
                self.input(r1, r2);
                Ok(())
            },
            Instruction::Output => {
                self.output(r1, r2);
                Ok(())
            },
            Instruction::And => {
                self.and(r1, r2);
                Ok(())
            },
            Instruction::Or => {
                self.or(r1, r2);
                Ok(())
            },
            Instruction::Xor => {
                self.xor(r1, r2);
                Ok(())
            },
            Instruction::Not => {
                self.not(r1, r2);
                Ok(())
            },
            Instruction::Shl => {
                self.shl(r1, r2);
                Ok(())
            },
            Instruction::Shr => {
                self.shr(r1, r2);
                Ok(())
            },
            Instruction::Compare => {
                self.cmp(r1, r2);
                Ok(())
            },
            Instruction::Jmp => {
                self.jmp(r1, r2);
                Ok(())
            },
            Instruction::Je => {
                self.je(r1, r2);
                Ok(())
            },
            Instruction::Jne => {
                self.jne(r1, r2);
                Ok(())
            },
            Instruction::Jg => {
                self.jg(r1, r2);
                Ok(())
            },
            Instruction::Jl => {
                self.jl(r1, r2);
                Ok(())
            },
            Instruction::Halt => {
                self.halt(r1, r2);
                Ok(())
            },
        }
    }

    /// Fetches the two operand bytes, looks `opcode` up in the opcode table
    /// and executes the instruction. An opcode that the table lacks is a
    /// fault, whatever the operand bytes are.
    pub fn decode_and_execute(&mut self, opcode: u8) -> (r: Result<(), Fault>)
        requires
            old(self).inv(),
        ensures
            final(self).inv(),
            decode_spec(old(self)@, opcode, last_or_zero(final(self)@.received)) == outcome_of(
                final(self)@,
                r,
            ),
            device_follows(
                old(self).device_spec(),
                final(self).device_spec(),
                old(self)@,
                final(self)@,
            ),
    {
        let r1: u8 = match self.fetch() {
            Ok(byte) => byte,
            Err(fault) => {
                return Err(fault);
            },
        };
        let r2: u8 = match self.fetch() {
            Ok(byte) => byte,
            Err(fault) => {
                return Err(fault);
            },
        };
        match self.lookup(opcode) {
            Some(instruction) => self.execute(instruction, r1, r2),
            None => Err(Fault::UnknownOpcode(opcode)),
        }
    }

    /// One turn of the cycle: fetches an opcode, then decodes and executes.
    pub fn step(&mut self) -> (r: Result<(), Fault>)
        requires
            old(self).inv(),
        ensures
            final(self).inv(),
            step_spec(old(self)@, last_or_zero(final(self)@.received)) == outcome_of(
                final(self)@,
                r,
            ),
            device_follows(
                old(self).device_spec(),
                final(self).device_spec(),
                old(self)@,
                final(self)@,
            ),
    {
        match self.fetch() {
            Ok(opcode) => self.decode_and_execute(opcode),
            Err(fault) => Err(fault),
        }
    }

    /// Runs the cycle until the engine is halted, a fault stops it, or
    /// `max_steps` instructions have been executed. `Ok` carries whether the
    /// engine is halted. An engine that is halted already executes nothing:
    /// the halted state ends only with a new engine.
    pub fn run(&mut self, max_steps: u64) -> (r: Result<bool, Fault>)
        requires
            old(self).inv(),
        ensures
            final(self).inv(),
            run_spec(old(self)@, final(self)@.received, max_steps as nat) == (Outcome {
                state: final(self)@,
                fault: match r {
                    Ok(_) => None,
                    Err(fault) => Some(fault),
                },
            }),
            r is Ok ==> r == Ok::<bool, Fault>(final(self)@.halted),
            device_runs(
                old(self).device_spec(),
                final(self).device_spec(),
                old(self)@,
                final(self)@.received,
                max_steps as nat,
            ),
            old(self)@.halted ==> final(self)@ == old(self)@ && final(self).device_spec() == old(
                self,
            ).device_spec(),
    {
        let ghost start = self@;
        let ghost start_device = self.device_spec();
        let mut remaining: u64 = max_steps;
        while remaining > 0 && !self.halted
            invariant
                self.inv(),
                start == old(self)@,
                start_device == old(self).device_spec(),
                start.halted ==> self@ == start && self.device_spec() == start_device,
                forall|feed: Seq<u32>|
                    self@.received.is_prefix_of(feed) ==> run_spec(start, feed, max_steps as nat)
                        == #[trigger] run_spec(self@, feed, remaining as nat),
                forall|feed: Seq<u32>, after: D|
                    self@.received.is_prefix_of(feed) && #[trigger] device_runs(
                        self.device_spec(),
                        after,
                        self@,
                        feed,
                        remaining as nat,
                    ) ==> device_runs(start_device, after, start, feed, max_steps as nat),
            decreases remaining,
        {
            let ghost before = self@;
            let ghost device_before = self.device_spec();
            let outcome: Result<(), Fault> = self.step();
            proof {
                let incoming = last_or_zero(self@.received);
                assert forall|feed: Seq<u32>| self@.received.is_prefix_of(feed) implies run_spec(
                    start,
                    feed,
                    max_steps as nat,
                ) == #[trigger] run_spec(before, feed, remaining as nat) && step_spec(
                    before,
                    nth_or_zero(feed, before.received.len() as int),
                ) == outcome_of(self@, outcome) by {
                    lemma_step_follows_feed(before, incoming, feed);
                }
            }
            match outcome {
                Ok(_) => {
                    proof {
                        assert forall|feed: Seq<u32>|
                            self@.received.is_prefix_of(feed) implies run_spec(
                            start,
                            feed,
                            max_steps as nat,
                        ) == #[trigger] run_spec(self@, feed, (remaining - 1) as nat) by {
                            assert(run_spec(start, feed, max_steps as nat) == run_spec(
                                before,
                                feed,
                                remaining as nat,
                            ));
                        }
                        assert forall|feed: Seq<u32>, after: D|
                            self@.received.is_prefix_of(feed) && #[trigger] device_runs(
                                self.device_spec(),
                                after,
                                self@,
                                feed,
                                (remaining - 1) as nat,
                            ) implies device_runs(
                            start_device,
                            after,
                            start,
                            feed,
                            max_steps as nat,
                        ) by {
                            assert(run_spec(start, feed, max_steps as nat) == run_spec(
                                before,
                                feed,
                                remaining as nat,
                            ));
                            assert(device_follows(
                                device_before,
                                self.device_spec(),
                                before,
                                self@,
                            ));
                            assert(device_runs(
                                device_before,
                                after,
                                before,
                                feed,
                                remaining as nat,
                            ));
                        }
                    }
                },
                Err(fault) => {
                    proof {
                        let feed = self@.received;
                        assert(feed.is_prefix_of(feed));
                        assert(run_spec(start, feed, max_steps as nat) == run_spec(
                            before,
                            feed,
                            remaining as nat,
                        ));
                        assert(device_follows(device_before, self.device_spec(), before, self@));
                        assert(device_runs(
                            device_before,
                            self.device_spec(),
                            before,
                            feed,
                            remaining as nat,
                        ));
                    }
                    return Err(fault);
                },
            }
            remaining = remaining - 1;
        }
        proof {
            let feed = self@.received;
            assert(feed.is_prefix_of(feed));
            assert(run_spec(start, feed, max_steps as nat) == run_spec(
                self@,
                feed,
                remaining as nat,
            ));
            assert(device_runs(
                self.device_spec(),
                self.device_spec(),
                self@,
                feed,
                remaining as nat,
            ));
        }
        Ok(self.halted)
    }
}

} // verus!
