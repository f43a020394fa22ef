use virtual_cpu::cpu::CPU;
use virtual_cpu::fault::Fault;
use virtual_cpu::io::{IOController, IODevice, MockIOController};
use virtual_cpu::isa::{
    Instruction, NEGATIVE_FLAG, OP_ADD, OP_COMPARE, OP_HALT, OP_INPUT, OP_JL, OP_JMP, OP_OUTPUT,
    OP_SUB, OVERFLOW_FLAG, ZERO_FLAG,
};
use virtual_cpu::memory::MemoryManagementUnit;

fn mock_cpu() -> CPU<MockIOController> {
    CPU::new(IOController::new(MockIOController::new()), MemoryManagementUnit::new())
}

fn cpu_with(values: &[u32]) -> CPU<MockIOController> {
    let mut cpu = mock_cpu();
    let mut index: u8 = 0;
    for &value in values.iter() {
        cpu.set_register(index, value);
        index += 1;
    }
    cpu
}

/// A device that hands out queued values in order and keeps all it is given.
struct QueueDevice {
    pending: Vec<u32>,
    next: usize,
    written: Vec<u32>,
}

impl IODevice for QueueDevice {
    fn input(&mut self) -> u32 {
        let value = if self.next < self.pending.len() { self.pending[self.next] } else { 0 };
        self.next += 1;
        value
    }

    fn output(&mut self, value: u32) {
        self.written.push(value);
    }
}

#[test]
fn test_program_execution() {
    let io_controller = IOController::new(MockIOController::new());
    let mmu = MemoryManagementUnit::new();
    let mut cpu = CPU::new(io_controller, mmu);

    let program = vec![
        0x46, 0x00, 0x00, // INPUT R0
        0x40, 0x01, 0x00, // ADD R1, R0
        0x47, 0x01, 0x00, // OUTPUT R1
        0xFF, 0x00, 0x00, // HALT
    ];

    cpu.load_program(&program).unwrap();
    cpu.device_mut().set_next_input(5);
    assert_eq!(cpu.run(1000), Ok(true));

    assert_eq!(cpu.register(0), 5);
    assert_eq!(cpu.register(1), 5);
    assert_eq!(cpu.io_controller().device().get_last_output(), 5);
    assert!(cpu.is_halted());
}

#[test]
fn two_byte_image_is_not_the_three_byte_encoding() {
    let mut cpu = mock_cpu();
    let program = vec![0x46, 0x00, 0x40, 0x10, 0x47, 0x01, 0xFF, 0x00];
    cpu.load_program(&program).unwrap();
    cpu.device_mut().set_next_input(5);
    assert_eq!(cpu.run(1000), Err(Fault::UnknownOpcode(0x10)));
    assert_eq!(cpu.register(0), 5);
    assert!(!cpu.is_halted());
}

#[test]
fn new_engine_is_zeroed() {
    let cpu = mock_cpu();
    assert_eq!(cpu.registers(), [0u32; 8]);
    assert_eq!(cpu.flags(), 0);
    assert_eq!(cpu.program_counter(), 0);
    assert!(!cpu.is_halted());
    assert_eq!(cpu.memory().read_word(0), Ok(0));
}

#[test]
fn add_wraps() {
    let mut cpu = cpu_with(&[0xFFFF_FFFF, 1]);
    cpu.add(0, 1);
    assert_eq!(cpu.register(0), 0);
    assert_eq!(cpu.register(1), 1);
    let mut cpu = cpu_with(&[7, 8]);
    cpu.add(0, 1);
    assert_eq!(cpu.register(0), 15);
    let mut cpu = cpu_with(&[0x8000_0001]);
    cpu.add(0, 0);
    assert_eq!(cpu.register(0), 2);
}

#[test]
fn sub_wraps() {
    let mut cpu = cpu_with(&[0, 1]);
    cpu.sub(0, 1);
    assert_eq!(cpu.register(0), 0xFFFF_FFFF);
    let mut cpu = cpu_with(&[10, 3]);
    cpu.sub(0, 1);
    assert_eq!(cpu.register(0), 7);
}

#[test]
fn mul_wraps() {
    let mut cpu = cpu_with(&[0x8000_0000, 2]);
    cpu.mul(0, 1);
    assert_eq!(cpu.register(0), 0);
    let mut cpu = cpu_with(&[0xFFFF_FFFF, 0xFFFF_FFFF]);
    cpu.mul(0, 1);
    assert_eq!(cpu.register(0), 1);
    let mut cpu = cpu_with(&[6, 7]);
    cpu.mul(0, 1);
    assert_eq!(cpu.register(0), 42);
}

#[test]
fn div_truncates() {
    let mut cpu = cpu_with(&[15, 3]);
    assert_eq!(cpu.div(0, 1), Ok(()));
    assert_eq!(cpu.register(0), 5);
    let mut cpu = cpu_with(&[17, 5]);
    assert_eq!(cpu.div(0, 1), Ok(()));
    assert_eq!(cpu.register(0), 3);
    let mut cpu = cpu_with(&[0xFFFF_FFFF, 2]);
    assert_eq!(cpu.div(0, 1), Ok(()));
    assert_eq!(cpu.register(0), 0x7FFF_FFFF);
}

#[test]
fn div_by_zero_is_a_fault_for_any_dividend() {
    for &dividend in [0u32, 1, 15, 0xFFFF_FFFF].iter() {
        let mut cpu = cpu_with(&[dividend, 0]);
        assert_eq!(cpu.div(0, 1), Err(Fault::DivisionByZero));
        assert_eq!(cpu.register(0), dividend);
        assert_eq!(cpu.execute(Instruction::Div, 0, 1), Err(Fault::DivisionByZero));
    }
}

#[test]
fn div_by_zero_aborts_the_run() {
    let mut cpu = cpu_with(&[9, 0]);
    cpu.load_program(&[0x43, 0, 1, 0xFF, 0, 0]).unwrap();
    assert_eq!(cpu.run(10), Err(Fault::DivisionByZero));
    assert_eq!(cpu.program_counter(), 3);
    assert!(!cpu.is_halted());
}

#[test]
fn store_then_load_round_trip() {
    let mut cpu = cpu_with(&[42, 100, 0]);
    assert_eq!(cpu.store(0, 1), Ok(()));
    assert_eq!(cpu.load(2, 1), Ok(()));
    assert_eq!(cpu.register(2), 42);
    assert_eq!(cpu.memory().read_byte(100), Ok(42));
    assert_eq!(cpu.memory().read_word(100), Ok(42));
}

#[test]
fn load_and_store_out_of_bounds() {
    let mut cpu = cpu_with(&[42, 65533, 65532, 0xFFFF_FFFF]);
    assert_eq!(cpu.store(0, 1), Err(Fault::OutOfBounds));
    assert_eq!(cpu.load(0, 1), Err(Fault::OutOfBounds));
    assert_eq!(cpu.load(0, 3), Err(Fault::OutOfBounds));
    assert_eq!(cpu.register(0), 42);
    assert_eq!(cpu.store(0, 2), Ok(()));
    assert_eq!(cpu.memory().read_word(65532), Ok(42));
}

#[test]
fn bitwise_instructions() {
    let mut cpu = cpu_with(&[0b1100, 0b1010]);
    cpu.and(0, 1);
    assert_eq!(cpu.register(0), 0b1000);
    let mut cpu = cpu_with(&[0b1100, 0b1010]);
    cpu.or(0, 1);
    assert_eq!(cpu.register(0), 0b1110);
    let mut cpu = cpu_with(&[0b1100, 0b1010]);
    cpu.xor(0, 1);
    assert_eq!(cpu.register(0), 0b0110);
    let mut cpu = cpu_with(&[0x0F0F_0F0F, 0b1010]);
    cpu.not(0, 200);
    assert_eq!(cpu.register(0), 0xF0F0_F0F0);
    assert_eq!(cpu.register(1), 0b1010);
}

#[test]
fn shifts() {
    let mut cpu = cpu_with(&[1, 4]);
    cpu.shl(0, 1);
    assert_eq!(cpu.register(0), 16);
    let mut cpu = cpu_with(&[0x8000_0001, 1]);
    cpu.shl(0, 1);
    assert_eq!(cpu.register(0), 2);
    let mut cpu = cpu_with(&[0x8000_0000, 31]);
    cpu.shr(0, 1);
    assert_eq!(cpu.register(0), 1);
    let mut cpu = cpu_with(&[0xFFFF_FFFF, 0]);
    cpu.shr(0, 1);
    assert_eq!(cpu.register(0), 0xFFFF_FFFF);
}

#[test]
fn shifts_by_register_width_or_more_give_zero() {
    for &amount in [32u32, 33, 64, 0xFFFF_FFFF].iter() {
        let mut cpu = cpu_with(&[0xFFFF_FFFF, amount]);
        cpu.shl(0, 1);
        assert_eq!(cpu.register(0), 0);
        let mut cpu = cpu_with(&[0xFFFF_FFFF, amount]);
        cpu.shr(0, 1);
        assert_eq!(cpu.register(0), 0);
    }
}

#[test]
fn compare_equal_sets_only_zero() {
    let mut cpu = cpu_with(&[10, 10]);
    cpu.cmp(0, 1);
    assert_eq!(cpu.flags(), ZERO_FLAG);
    assert_eq!(cpu.flags() & NEGATIVE_FLAG, 0);
    assert_eq!(cpu.flags() & OVERFLOW_FLAG, 0);
    assert_eq!(cpu.register(0), 10);
    assert_eq!(cpu.register(1), 10);
}

#[test]
fn compare_less_sets_negative() {
    let mut cpu = cpu_with(&[10, 11]);
    cpu.cmp(0, 1);
    assert_ne!(cpu.flags() & NEGATIVE_FLAG, 0);
    assert_eq!(cpu.flags(), NEGATIVE_FLAG | OVERFLOW_FLAG);
    assert_eq!(cpu.register(0), 10);
}

#[test]
fn compare_greater_clears_all() {
    let mut cpu = cpu_with(&[11, 10]);
    cpu.cmp(0, 1);
    assert_eq!(cpu.flags(), 0);
}

#[test]
fn compare_goes_by_the_high_bit_of_the_difference() {
    // 0 - 0xFFFFFFFF is 1 modulo 2^32: a borrow, but the high bit is clear
    let mut cpu = cpu_with(&[0, 0xFFFF_FFFF]);
    cpu.cmp(0, 1);
    assert_eq!(cpu.flags(), OVERFLOW_FLAG);
    // 0xFFFFFFFF - 0 has the high bit set without a borrow
    let mut cpu = cpu_with(&[0xFFFF_FFFF, 0]);
    cpu.cmp(0, 1);
    assert_eq!(cpu.flags(), NEGATIVE_FLAG);
}

#[test]
fn compare_replaces_earlier_flags() {
    let mut cpu = cpu_with(&[10, 11, 10]);
    cpu.cmp(0, 1);
    cpu.cmp(0, 2);
    assert_eq!(cpu.flags(), ZERO_FLAG);
}

#[test]
fn jmp_is_unconditional() {
    let mut cpu = cpu_with(&[0x1234]);
    cpu.jmp(0, 0);
    assert_eq!(cpu.program_counter(), 0x1234);
}

#[test]
fn conditional_jumps_after_equal() {
    let mut cpu = cpu_with(&[10, 10, 500]);
    cpu.cmp(0, 1);
    cpu.jne(2, 0);
    assert_eq!(cpu.program_counter(), 0);
    cpu.jg(2, 0);
    assert_eq!(cpu.program_counter(), 0);
    cpu.jl(2, 0);
    assert_eq!(cpu.program_counter(), 0);
    cpu.je(2, 0);
    assert_eq!(cpu.program_counter(), 500);
}

#[test]
fn conditional_jumps_after_less() {
    let mut cpu = cpu_with(&[10, 11, 500, 600]);
    cpu.cmp(0, 1);
    cpu.je(2, 0);
    assert_eq!(cpu.program_counter(), 0);
    cpu.jg(2, 0);
    assert_eq!(cpu.program_counter(), 0);
    cpu.jl(2, 0);
    assert_eq!(cpu.program_counter(), 500);
    cpu.jne(3, 0);
    assert_eq!(cpu.program_counter(), 600);
}

#[test]
fn conditional_jumps_after_greater() {
    let mut cpu = cpu_with(&[11, 10, 500, 600]);
    cpu.cmp(0, 1);
    cpu.je(2, 0);
    assert_eq!(cpu.program_counter(), 0);
    cpu.jl(2, 0);
    assert_eq!(cpu.program_counter(), 0);
    cpu.jg(2, 0);
    assert_eq!(cpu.program_counter(), 500);
    cpu.jne(3, 0);
    assert_eq!(cpu.program_counter(), 600);
}

#[test]
fn jumps_change_nothing_but_the_counter() {
    let mut cpu = cpu_with(&[11, 10, 500]);
    cpu.cmp(0, 1);
    let flags = cpu.flags();
    cpu.jg(2, 0);
    assert_eq!(cpu.registers(), [11, 10, 500, 0, 0, 0, 0, 0]);
    assert_eq!(cpu.flags(), flags);
    assert!(!cpu.is_halted());
}

#[test]
fn halt_sets_halted() {
    let mut cpu = mock_cpu();
    cpu.halt(200, 200);
    assert!(cpu.is_halted());
    assert_eq!(cpu.registers(), [0u32; 8]);
}

#[test]
fn input_and_output_instructions() {
    let mut cpu = cpu_with(&[0, 77]);
    cpu.device_mut().set_next_input(9);
    cpu.input(0, 0x40);
    assert_eq!(cpu.register(0), 9);
    cpu.output(1, 0x40);
    assert_eq!(cpu.io_controller().device().get_last_output(), 77);
}

#[test]
fn fetch_reads_and_advances() {
    let mut cpu = mock_cpu();
    cpu.load_program(&[0xAB, 0xCD]).unwrap();
    assert_eq!(cpu.fetch(), Ok(0xAB));
    assert_eq!(cpu.program_counter(), 1);
    assert_eq!(cpu.fetch(), Ok(0xCD));
    assert_eq!(cpu.program_counter(), 2);
}

#[test]
fn fetch_past_the_end_is_out_of_bounds() {
    let mut cpu = cpu_with(&[65536]);
    cpu.jmp(0, 0);
    assert_eq!(cpu.fetch(), Err(Fault::OutOfBounds));
    assert_eq!(cpu.program_counter(), 65536);
    assert_eq!(cpu.step(), Err(Fault::OutOfBounds));
}

#[test]
fn operands_past_the_end_are_out_of_bounds() {
    // the opcode is the last byte of the memory: its operands lie outside
    let mut cpu = cpu_with(&[65535]);
    cpu.jmp(0, 0);
    assert_eq!(cpu.step(), Err(Fault::OutOfBounds));
    assert_eq!(cpu.program_counter(), 65536);
    // one operand inside, one outside
    let mut cpu = cpu_with(&[65534]);
    cpu.jmp(0, 0);
    assert_eq!(cpu.step(), Err(Fault::OutOfBounds));
    assert_eq!(cpu.program_counter(), 65536);
    // the last whole instruction of the memory
    let mut cpu = cpu_with(&[65533, 0xFF, 65532]);
    cpu.store(1, 2).unwrap();
    cpu.jmp(0, 0);
    assert_eq!(cpu.memory().read_byte(65533), Ok(0));
    let mut cpu = cpu_with(&[65533, 0xFF00, 65532]);
    cpu.store(1, 2).unwrap();
    cpu.jmp(0, 0);
    assert_eq!(cpu.memory().read_byte(65533), Ok(0xFF));
    assert_eq!(cpu.step(), Ok(()));
    assert!(cpu.is_halted());
    assert_eq!(cpu.program_counter(), 65536);
}

#[test]
fn unknown_opcode_aborts_whatever_the_operands() {
    for &opcode in [0x00u8, 0x10, 0x3F, 0x54, 0x80, 0xFE].iter() {
        for &(r1, r2) in [(0u8, 0u8), (7, 7), (8, 200), (255, 255)].iter() {
            let mut cpu = mock_cpu();
            cpu.load_program(&[opcode, r1, r2, OP_HALT, 0, 0]).unwrap();
            assert_eq!(cpu.run(10), Err(Fault::UnknownOpcode(opcode)));
            assert!(!cpu.is_halted());
            assert_eq!(cpu.program_counter(), 3);
            assert_eq!(cpu.registers(), [0u32; 8]);
        }
    }
}

#[test]
fn decode_and_execute_dispatches_by_opcode() {
    let mut cpu = cpu_with(&[3, 4]);
    cpu.load_program(&[0, 1]).unwrap();
    assert_eq!(cpu.decode_and_execute(OP_ADD), Ok(()));
    assert_eq!(cpu.register(0), 7);
    assert_eq!(cpu.program_counter(), 2);
    cpu.load_program(&[0, 0, 0, 1]).unwrap();
    assert_eq!(cpu.decode_and_execute(OP_SUB), Ok(()));
    assert_eq!(cpu.register(0), 3);
    assert_eq!(cpu.decode_and_execute(0x99), Err(Fault::UnknownOpcode(0x99)));
}

#[test]
fn every_opcode_of_the_table_is_known() {
    let opcodes: [u8; 21] = [
        0x40, 0x41, 0x42, 0x43, 0x44, 0x45, 0x46, 0x47, 0x48, 0x49, 0x4A, 0x4B, 0x4C, 0x4D, 0x4E,
        0x4F, 0x50, 0x51, 0x52, 0x53, 0xFF,
    ];
    for &opcode in opcodes.iter() {
        let mut cpu = cpu_with(&[1, 1]);
        cpu.load_program(&[opcode, 0, 1]).unwrap();
        let result = cpu.step();
        assert!(!matches!(result, Err(Fault::UnknownOpcode(_))));
        assert_eq!(result, Ok(()));
    }
    let mut unknown: u32 = 0;
    let mut opcode: u32 = 0;
    while opcode < 256 {
        let mut cpu = cpu_with(&[1, 1]);
        cpu.load_program(&[opcode as u8, 0, 1]).unwrap();
        if cpu.step() == Err(Fault::UnknownOpcode(opcode as u8)) {
            unknown += 1;
        }
        opcode += 1;
    }
    assert_eq!(unknown, 256 - 21);
}

#[test]
fn invalid_register_is_a_fault() {
    let mut cpu = mock_cpu();
    assert_eq!(cpu.execute(Instruction::Add, 8, 0), Err(Fault::InvalidRegister(8)));
    assert_eq!(cpu.execute(Instruction::Add, 0, 9), Err(Fault::InvalidRegister(9)));
    assert_eq!(cpu.execute(Instruction::Add, 10, 9), Err(Fault::InvalidRegister(10)));
    assert_eq!(cpu.execute(Instruction::Not, 0, 9), Ok(()));
    assert_eq!(cpu.execute(Instruction::Not, 8, 0), Err(Fault::InvalidRegister(8)));
    assert_eq!(cpu.execute(Instruction::Jmp, 255, 0), Err(Fault::InvalidRegister(255)));
    // flags are clear: JE and JL are not taken and read no register
    assert_eq!(cpu.execute(Instruction::Je, 255, 0), Ok(()));
    assert_eq!(cpu.execute(Instruction::Jl, 255, 0), Ok(()));
    assert_eq!(cpu.execute(Instruction::Jne, 255, 0), Err(Fault::InvalidRegister(255)));
    assert_eq!(cpu.execute(Instruction::Jg, 255, 0), Err(Fault::InvalidRegister(255)));
    assert_eq!(cpu.execute(Instruction::Halt, 255, 255), Ok(()));
    assert!(cpu.is_halted());
    assert_eq!(cpu.registers(), [0xFFFF_FFFF, 0, 0, 0, 0, 0, 0, 0]);
}

#[test]
fn run_stops_when_the_budget_is_used_up() {
    let mut cpu = mock_cpu();
    // JMP R0 with R0 = 0: an endless loop
    cpu.load_program(&[OP_JMP, 0, 0]).unwrap();
    assert_eq!(cpu.run(100), Ok(false));
    assert!(!cpu.is_halted());
    assert_eq!(cpu.program_counter(), 0);
    assert_eq!(cpu.run(0), Ok(false));
}

#[test]
fn run_can_be_taken_up_again() {
    let mut cpu = cpu_with(&[1, 2]);
    cpu.load_program(&[OP_ADD, 0, 1, OP_ADD, 0, 1, OP_HALT, 0, 0]).unwrap();
    assert_eq!(cpu.run(1), Ok(false));
    assert_eq!(cpu.register(0), 3);
    assert_eq!(cpu.run(1), Ok(false));
    assert_eq!(cpu.register(0), 5);
    assert_eq!(cpu.run(1), Ok(true));
    assert_eq!(cpu.program_counter(), 9);
}

#[test]
fn halted_engine_executes_nothing_more() {
    let mut cpu = cpu_with(&[1, 2]);
    cpu.load_program(&[OP_HALT, 0, 0, OP_ADD, 0, 1, 0x00, 0, 0]).unwrap();
    assert_eq!(cpu.run(10), Ok(true));
    assert_eq!(cpu.program_counter(), 3);
    assert_eq!(cpu.run(10), Ok(true));
    assert_eq!(cpu.run(u64::MAX), Ok(true));
    assert_eq!(cpu.program_counter(), 3);
    assert_eq!(cpu.register(0), 1);
    assert!(cpu.is_halted());
}

#[test]
fn load_program_keeps_registers_and_counter() {
    let mut cpu = cpu_with(&[5, 6]);
    cpu.jmp(0, 0);
    cpu.load_program(&[1, 2, 3]).unwrap();
    assert_eq!(cpu.program_counter(), 5);
    assert_eq!(cpu.register(1), 6);
    assert_eq!(cpu.memory().read_byte(2), Ok(3));
    let too_long = vec![0u8; 65537];
    assert_eq!(cpu.load_program(&too_long), Err(Fault::OutOfBounds));
    assert_eq!(cpu.memory().read_byte(2), Ok(3));
}

#[test]
fn countdown_loop_with_a_queue_device() {
    // R0 = input; R1 = 1; R2 = 0; R3 = loop address; R4 = exit address
    // loop: OUTPUT R0; SUB R0,R1; CMP R2,R0; JL R3; HALT
    let device = QueueDevice { pending: vec![3], next: 0, written: Vec::new() };
    let mut cpu = CPU::new(IOController::new(device), MemoryManagementUnit::new());
    cpu.set_register(1, 1);
    cpu.set_register(3, 3);
    cpu.load_program(&[
        OP_INPUT, 0, 0, // 0
        OP_OUTPUT, 0, 0, // 3
        OP_SUB, 0, 1, // 6
        OP_COMPARE, 2, 0, // 9
        OP_JL, 3, 0, // 12
        OP_HALT, 0, 0, // 15
    ])
    .unwrap();
    assert_eq!(cpu.run(1000), Ok(true));
    assert_eq!(cpu.io_controller().device().written, vec![3, 2, 1]);
    assert_eq!(cpu.io_controller().device().next, 1);
    assert_eq!(cpu.register(0), 0);
    assert_eq!(cpu.program_counter(), 18);
}
