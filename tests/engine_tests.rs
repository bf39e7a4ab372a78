use chip8::decoder::{OpcodeMaskParser, OpcodeTable};
use chip8::instruction::Instruction;
use chip8::machine::{Fault, LoadError, Machine, FLAG_REGISTER};

#[test]
fn add_byte_sets_carry_on_overflow() {
    let mut m = Machine::new("t", OpcodeTable {});
    m.v[3] = 250;
    m.execute_with(&Instruction::AddByte(3, 10), 0).unwrap();
    assert_eq!(m.v[3], 4);
    assert_eq!(m.v[FLAG_REGISTER], 1);
    m.v[3] = 10;
    m.execute_with(&Instruction::AddByte(3, 10), 0).unwrap();
    assert_eq!(m.v[3], 20);
    assert_eq!(m.v[FLAG_REGISTER], 0);
}

#[test]
fn add_register_sets_carry_on_overflow() {
    let mut m = Machine::new("t", OpcodeTable {});
    m.v[1] = 250;
    m.v[2] = 10;
    m.execute_with(&Instruction::AddRegister(1, 2), 0).unwrap();
    assert_eq!(m.v[1], 4);
    assert_eq!(m.v[FLAG_REGISTER], 1);
    m.v[1] = 10;
    m.execute_with(&Instruction::AddRegister(1, 2), 0).unwrap();
    assert_eq!(m.v[1], 20);
    assert_eq!(m.v[FLAG_REGISTER], 0);
}

#[test]
fn add_to_address_wraps_at_sixteen_bits() {
    let mut m = Machine::new("t", OpcodeTable {});
    m.i = 65530;
    m.v[4] = 10;
    m.execute_with(&Instruction::AddI(4), 0).unwrap();
    assert_eq!(m.i, 4);
    assert_eq!(m.v[FLAG_REGISTER], 1);
    m.execute_with(&Instruction::AddI(4), 0).unwrap();
    assert_eq!(m.i, 14);
    assert_eq!(m.v[FLAG_REGISTER], 0);
}

#[test]
fn call_then_return_restores_counter() {
    let mut m = Machine::new("t", OpcodeMaskParser {});
    m.counter = 25;
    m.execute(&Instruction::Call(0x0222)).unwrap();
    assert_eq!(m.stack[1], 25);
    assert_eq!(m.stack_ptr, 1);
    assert_eq!(m.counter, 0x0222);
    m.execute(&Instruction::Return).unwrap();
    assert_eq!(m.counter, 25);
    assert_eq!(m.stack_ptr, 0);
}

#[test]
fn jump_to_last_address_then_fetch_faults() {
    let mut m = Machine::new("t", OpcodeTable {});
    m.load(&[0x1F, 0xFF]).unwrap();
    assert_eq!(m.step(), Ok(()));
    assert_eq!(m.counter, 4095);
    assert_eq!(m.step(), Err(Fault::PcOutOfBounds(4095)));
    assert_eq!(m.counter, 4095);
}

#[test]
fn reset_restores_initial_state() {
    let mut m = Machine::new("t", OpcodeTable {});
    m.load(&[1, 2, 3]).unwrap();
    m.counter = 700;
    m.stack_ptr = 3;
    m.stack[2] = 9;
    m.v[7] = 8;
    m.i = 100;
    m.delay_register = 5;
    m.sound_register = 6;
    m.skip_increment = true;
    m.reset().unwrap();
    assert_eq!(m.counter, 512);
    assert_eq!(m.stack_ptr, 0);
    assert!(m.mem.iter().all(|b| *b == 0));
    assert_eq!(m.stack, [0; 16]);
    assert_eq!(m.v, [0; 16]);
    assert_eq!(m.i, 0);
    assert_eq!(m.delay_register, 0);
    assert_eq!(m.sound_register, 0);
    assert!(!m.skip_increment);
}

#[test]
fn load_places_bytes_and_zeroes_the_rest() {
    let mut m = Machine::new("t", OpcodeTable {});
    m.mem[600] = 77;
    m.mem[10] = 5;
    m.load(&[9, 8, 7]).unwrap();
    assert_eq!(&m.mem[512..515], &[9, 8, 7]);
    assert_eq!(m.mem[600], 0);
    assert_eq!(m.mem[10], 5);
}

#[test]
fn load_of_full_capacity_fits() {
    let mut m = Machine::new("t", OpcodeTable {});
    let program = vec![0xAA; 3584];
    m.load(&program).unwrap();
    assert_eq!(m.mem[511], 0);
    assert_eq!(m.mem[512], 0xAA);
    assert_eq!(m.mem[4095], 0xAA);
}

#[test]
fn load_too_large_is_refused() {
    let mut m = Machine::new("t", OpcodeTable {});
    let program = vec![0xAA; 3585];
    assert_eq!(m.load(&program), Err(LoadError::TooLarge(3585)));
    assert!(m.mem.iter().all(|b| *b == 0));
}

#[test]
fn step_advances_by_two() {
    let mut m = Machine::new("t", OpcodeTable {});
    m.load(&[0x61, 0x05, 0x71, 0x03]).unwrap();
    m.step().unwrap();
    assert_eq!(m.counter, 514);
    assert_eq!(m.v[1], 5);
    m.step().unwrap();
    assert_eq!(m.counter, 516);
    assert_eq!(m.v[1], 8);
}

#[test]
fn skip_instruction_advances_by_four() {
    let mut m = Machine::new("t", OpcodeTable {});
    m.load(&[0x30, 0x00]).unwrap();
    m.step().unwrap();
    assert_eq!(m.counter, 516);
}

#[test]
fn unknown_opcode_faults() {
    let mut m = Machine::new("t", OpcodeMaskParser {});
    m.load(&[0x51, 0x21]).unwrap();
    assert_eq!(m.step(), Err(Fault::UnknownOpcode(0x5121)));
    assert_eq!(m.counter, 512);
}

#[test]
fn unimplemented_instruction_faults() {
    let mut m = Machine::new("t", OpcodeTable {});
    m.load(&[0xD1, 0x25]).unwrap();
    assert_eq!(m.step(), Err(Fault::Unimplemented(Instruction::Draw(1, 2, 5))));
    assert_eq!(m.counter, 512);
}

#[test]
fn return_on_empty_stack_underflows() {
    let mut m = Machine::new("t", OpcodeTable {});
    assert_eq!(m.execute(&Instruction::Return), Err(Fault::StackUnderflow));
    assert_eq!(m.counter, 512);
}

#[test]
fn call_on_full_stack_overflows() {
    let mut m = Machine::new("t", OpcodeTable {});
    for _ in 0..15 {
        m.execute(&Instruction::Call(0x300)).unwrap();
    }
    assert_eq!(m.stack_ptr, 15);
    assert_eq!(m.execute(&Instruction::Call(0x300)), Err(Fault::StackOverflow));
    assert_eq!(m.stack_ptr, 15);
}

#[test]
fn bcd_stores_three_digits() {
    let mut m = Machine::new("t", OpcodeTable {});
    m.i = 0x300;
    m.execute(&Instruction::LoadIBCD(234)).unwrap();
    assert_eq!(&m.mem[0x300..0x303], &[2, 3, 4]);
}

#[test]
fn bcd_past_memory_faults() {
    let mut m = Machine::new("t", OpcodeTable {});
    m.i = 4094;
    assert_eq!(
        m.execute(&Instruction::LoadIBCD(234)),
        Err(Fault::MemoryOutOfBounds(4094))
    );
    assert_eq!(m.mem[4094], 0);
}

#[test]
fn store_and_load_registers() {
    let mut m = Machine::new("t", OpcodeTable {});
    for k in 0..16 {
        m.v[k] = (k as u8) + 1;
    }
    m.i = 0x400;
    m.execute(&Instruction::StoreRegisters(3)).unwrap();
    assert_eq!(&m.mem[0x400..0x405], &[1, 2, 3, 4, 0]);
    m.i = 0x401;
    m.execute(&Instruction::LoadRegisters(2)).unwrap();
    assert_eq!(&m.v[0..4], &[2, 3, 4, 4]);
}

#[test]
fn store_registers_past_memory_faults() {
    let mut m = Machine::new("t", OpcodeTable {});
    m.i = 4090;
    assert_eq!(
        m.execute(&Instruction::StoreRegisters(6)),
        Err(Fault::MemoryOutOfBounds(4090))
    );
}

#[test]
fn timers_take_the_operand_value() {
    let mut m = Machine::new("t", OpcodeTable {});
    m.load(&[0xF3, 0x15, 0xF4, 0x18, 0xF5, 0x07]).unwrap();
    m.step().unwrap();
    m.step().unwrap();
    m.step().unwrap();
    assert_eq!(m.delay_register, 3);
    assert_eq!(m.sound_register, 4);
    assert_eq!(m.v[5], 3);
}

#[test]
fn random_is_masked() {
    let mut m = Machine::new("t", OpcodeTable {});
    m.load(&[0xC2, 0x0F]).unwrap();
    m.step_with(0xAB).unwrap();
    assert_eq!(m.v[2], 0x0B);
    m.reset().unwrap();
    m.load(&[0xC2, 0x0F]).unwrap();
    m.step().unwrap();
    assert!(m.v[2] <= 0x0F);
}

#[test]
fn bitwise_operations() {
    let mut m = Machine::new("t", OpcodeTable {});
    m.v[1] = 0b1100;
    m.v[2] = 0b1010;
    m.execute(&Instruction::Or(1, 2)).unwrap();
    assert_eq!(m.v[1], 0b1110);
    m.execute(&Instruction::And(1, 2)).unwrap();
    assert_eq!(m.v[1], 0b1010);
    m.execute(&Instruction::Xor(1, 2)).unwrap();
    assert_eq!(m.v[1], 0);
}

#[test]
fn start_runs_until_the_counter_leaves_memory() {
    let mut m = Machine::new("t", OpcodeTable {});
    assert_eq!(m.start(u64::MAX), Err(Fault::PcOutOfBounds(4096)));
}

#[test]
fn start_stops_after_the_given_steps() {
    let mut m = Machine::new("t", OpcodeTable {});
    m.load(&[0x12, 0x00]).unwrap();
    assert_eq!(m.start(10), Ok(()));
    assert_eq!(m.counter, 512);
}
