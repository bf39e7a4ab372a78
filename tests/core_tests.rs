use chip8::decoder::{OpcodeMaskParser, OpcodeTable};
use chip8::instruction::Instruction;
use chip8::machine::{Machine, PROGRAM_OFFSET, REGISTER_COUNT, STACK_SIZE};

#[test]
fn test_copy_into_mem_no_data() {
    let mut vm = Machine::new("TestVM", OpcodeTable {});
    vm.load(&[]).unwrap();
    assert_eq!(vm.mem.len(), 4096);
    // every byte in memory is zero when the program is empty
    for byte in vm.mem.iter() {
        assert_eq!(*byte, 0);
    }
}

#[test]
fn test_copy_into_mem_some_data() {
    let mut vm = Machine::new("TestVM", OpcodeTable {});
    vm.load("Hello World!".as_bytes()).unwrap();
    let expected = [72, 101, 108, 108, 111, 32, 87, 111, 114, 108, 100, 33];
    let mut count = 0;
    for _ in 0..expected.len() {
        assert_eq!(vm.mem[PROGRAM_OFFSET + count], expected[count]);
        count += 1;
    }
}

#[test]
fn test_create_opcode() {
    assert_eq!(Machine::<OpcodeTable>::get_opcode(&[0x31, 0x42]), 0x3142);
    assert_eq!(Machine::<OpcodeTable>::get_opcode(&[0x1, 0x2]), 0x0102);
    assert_eq!(Machine::<OpcodeTable>::get_opcode(&[0xAB, 0x9C]), 0xAB9C);

    // doesn't magically append or prepend zeroes to the final output
    assert_ne!(Machine::<OpcodeTable>::get_opcode(&[0x1, 0x2]), 0x1200);
    assert_ne!(Machine::<OpcodeTable>::get_opcode(&[0x1, 0x2]), 0x0012);
}

#[test]
fn test_execute_cls() {
    let mut machine = Machine::new("TestVM", OpcodeMaskParser {});
    machine.execute(&Instruction::ClearScreen).unwrap();
    assert_eq!(machine.counter, 512);
    assert_eq!(machine.stack_ptr, 0);

    assert_eq!(machine.mem.len(), 4096);
    for byte in machine.mem.iter() {
        assert_eq!(*byte, 0);
    }

    assert_eq!(machine.stack, [0; STACK_SIZE]);
    assert_eq!(machine.v, [0; REGISTER_COUNT]);
    assert_eq!(machine.i, 0);
    assert_eq!(machine.delay_register, 0);
    assert_eq!(machine.sound_register, 0);
}

#[test]
fn test_execute_ret() {
    let mut machine = Machine::new("TestVM", OpcodeMaskParser {});
    machine.counter = 1;
    machine.stack_ptr = 1;
    machine.execute(&Instruction::Return).unwrap();
    assert_eq!(machine.counter, 0);
    assert_eq!(machine.stack_ptr, 0);
    assert_eq!(machine.skip_increment, true);
    assert_eq!(machine.mem.len(), 4096);
    for byte in machine.mem.iter() {
        assert_eq!(*byte, 0);
    }
    assert_eq!(machine.stack, [0; STACK_SIZE]);
    assert_eq!(machine.v, [0; REGISTER_COUNT]);
    assert_eq!(machine.i, 0);
    assert_eq!(machine.delay_register, 0);
    assert_eq!(machine.sound_register, 0);
}

#[test]
fn test_execute_sys() {
    let mut machine = Machine::new("TestVM", OpcodeMaskParser {});
    machine.execute(&Instruction::SYS).unwrap();
    assert_eq!(machine.counter, 512);
    assert_eq!(machine.stack_ptr, 0);
    assert_eq!(machine.skip_increment, false);
    assert_eq!(machine.mem.len(), 4096);
    for byte in machine.mem.iter() {
        assert_eq!(*byte, 0);
    }
    assert_eq!(machine.stack, [0; STACK_SIZE]);
    assert_eq!(machine.v, [0; REGISTER_COUNT]);
    assert_eq!(machine.i, 0);
    assert_eq!(machine.delay_register, 0);
    assert_eq!(machine.sound_register, 0);
}

#[test]
fn test_execute_jump() {
    let mut machine = Machine::new("TestVM", OpcodeMaskParser {});

    assert_eq!(machine.counter, 512);

    machine.execute(&Instruction::Jump(0x0222)).unwrap();
    assert_eq!(machine.counter, 0x0222);

    machine.execute(&Instruction::Jump(4095)).unwrap();
    assert_eq!(machine.counter, 4095);

    assert_eq!(machine.stack_ptr, 0);
    assert_eq!(machine.skip_increment, true);
    assert_eq!(machine.mem.len(), 4096);
    for byte in machine.mem.iter() {
        assert_eq!(*byte, 0);
    }
    assert_eq!(machine.stack, [0; STACK_SIZE]);
    assert_eq!(machine.v, [0; REGISTER_COUNT]);
    assert_eq!(machine.i, 0);
    assert_eq!(machine.delay_register, 0);
    assert_eq!(machine.sound_register, 0);
}

#[test]
fn test_execute_call() {
    let mut machine = Machine::new("TestVM", OpcodeMaskParser {});

    assert_eq!(machine.counter, 512);
    assert_eq!(machine.stack_ptr, 0);

    machine.counter = 25;
    machine.execute(&Instruction::Call(0x0222)).unwrap();
    assert_eq!(machine.stack_ptr, 1);
    assert_eq!(machine.counter, 0x0222);
    assert_eq!(machine.skip_increment, true);
    assert_eq!(machine.stack[usize::from(machine.stack_ptr)], 25);

    assert_eq!(machine.mem.len(), 4096);
    for byte in machine.mem.iter() {
        assert_eq!(*byte, 0);
    }
    assert_eq!(machine.v, [0; REGISTER_COUNT]);
    assert_eq!(machine.i, 0);
    assert_eq!(machine.delay_register, 0);
    assert_eq!(machine.sound_register, 0);
}

#[test]
fn test_execute_se() {
    let mut machine = Machine::new("TestVM", OpcodeMaskParser {});

    assert_eq!(machine.counter, 512);
    machine
        .execute(&Instruction::SkipEqualsByte(machine.v[1], 0x0001))
        .unwrap();
    assert_eq!(machine.counter, 512);

    machine.v[1] = 0x0001;
    machine
        .execute(&Instruction::SkipEqualsByte(machine.v[1], 0x0001))
        .unwrap();
    assert_eq!(machine.counter, 514);

    assert_eq!(machine.mem.len(), 4096);
    for byte in machine.mem.iter() {
        assert_eq!(*byte, 0);
    }
    assert_eq!(machine.i, 0);
    assert_eq!(machine.delay_register, 0);
    assert_eq!(machine.sound_register, 0);
}

#[test]
fn test_execute_sne() {
    let mut machine = Machine::new("TestVM", OpcodeMaskParser {});

    assert_eq!(machine.counter, 512);
    machine.v[1] = 0x0001;
    machine
        .execute(&Instruction::SkipNotEqualsByte(machine.v[1], 0x0001))
        .unwrap();
    assert_eq!(machine.counter, 512);

    machine.reset().unwrap();
    machine.v[1] = 0x0001;

    machine
        .execute(&Instruction::SkipNotEqualsByte(machine.v[1], 0x0002))
        .unwrap();
    assert_eq!(machine.counter, 514);

    assert_eq!(machine.mem.len(), 4096);
    for byte in machine.mem.iter() {
        assert_eq!(*byte, 0);
    }
    assert_eq!(machine.i, 0);
    assert_eq!(machine.delay_register, 0);
    assert_eq!(machine.sound_register, 0);
}

#[test]
fn test_execute_se_reg() {
    let mut machine = Machine::new("TestVM", OpcodeMaskParser {});

    assert_eq!(machine.counter, 512);
    machine.v[1] = 0x0001;
    machine.v[12] = 0x0001;
    machine
        .execute(&Instruction::SkipEqualsRegister(machine.v[1], machine.v[12]))
        .unwrap();
    assert_eq!(machine.counter, 514);

    machine.v[1] = 0x0002;
    machine
        .execute(&Instruction::SkipEqualsRegister(machine.v[1], machine.v[12]))
        .unwrap();
    assert_eq!(machine.counter, 514);

    assert_eq!(machine.mem.len(), 4096);
    for byte in machine.mem.iter() {
        assert_eq!(*byte, 0);
    }
    assert_eq!(machine.i, 0);
    assert_eq!(machine.delay_register, 0);
    assert_eq!(machine.sound_register, 0);
}
