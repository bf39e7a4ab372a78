use vstd::prelude::*;

use crate::decoder::{decode_opcode, lemma_decoded_wf, InstructionParser};
use crate::instruction::Instruction;

verus! {

pub const MEMORY_SIZE: usize = 4096;

pub const STACK_SIZE: usize = 16;

pub const REGISTER_COUNT: usize = 16;

/// Where programs are loaded and where execution starts.
pub const PROGRAM_OFFSET: usize = 512;

/// How many program bytes fit between the load offset and the end of memory.
pub const PROGRAM_CAPACITY: usize = MEMORY_SIZE - PROGRAM_OFFSET;

/// The register that arithmetic overwrites with its carry.
pub const FLAG_REGISTER: usize = 15;

/// The highest address from which a whole opcode can still be fetched.
pub const LAST_FETCH_ADDRESS: u16 = 4094;

/// A terminal condition that stops a machine.
#[derive(Clone, Copy, Debug, PartialEq, Eq, Structural)]
pub enum Fault {
    /// The program counter leaves no room to fetch two bytes.
    PcOutOfBounds(u16),
    /// An instruction would touch memory past the last address; the address
    /// register's value is given.
    MemoryOutOfBounds(u16),
    /// The opcode matches no operation.
    UnknownOpcode(u16),
    /// The opcode decodes, but this machine has no semantics for it.
    Unimplemented(Instruction),
    /// A call with the stack full, or a stack pointer past the stack.
    StackOverflow,
    /// A return with the stack empty.
    StackUnderflow,
}

/// Why a program could not be loaded.
#[derive(Clone, Copy, Debug, PartialEq, Eq, Structural)]
pub enum LoadError {
    /// The program's length, which exceeds the room behind the load offset.
    TooLarge(usize),
}

/// The mathematical state of a machine: everything an instruction reads or
/// writes.
pub struct MachineState {
    pub pc: u16,
    pub sp: u8,
    pub mem: Seq<u8>,
    pub stack: Seq<u16>,
    pub v: Seq<u8>,
    pub i: u16,
    pub delay: u8,
    pub sound: u8,
    pub skip: bool,
}

impl MachineState {
    /// Memory, stack and registers have the machine's sizes.
    pub open spec fn wf(self) -> bool {
        &&& self.mem.len() == 4096
        &&& self.stack.len() == 16
        &&& self.v.len() == 16
    }
}

/// The state of a freshly built or reset machine.
pub open spec fn initial_state() -> MachineState {
    MachineState {
        pc: 512,
        sp: 0,
        mem: Seq::new(4096, |a: int| 0u8),
        stack: Seq::new(16, |k: int| 0u16),
        v: Seq::new(16, |k: int| 0u8),
        i: 0,
        delay: 0,
        sound: 0,
        skip: false,
    }
}

/// The opcode formed by two bytes, the first one high.
pub open spec fn assemble(hi: u8, lo: u8) -> u16 {
    (hi * 256 + lo) as u16
}

/// The program counter two bytes on, in 16-bit arithmetic.
pub open spec fn pc_plus_two(pc: u16) -> u16 {
    ((pc + 2) % 65536) as u16
}

/// The carry flag's value.
pub open spec fn flag(overflow: bool) -> u8 {
    if overflow {
        1
    } else {
        0
    }
}

/// The state with the program counter moved two bytes on when `cond` holds.
pub open spec fn skip_if(s: MachineState, cond: bool) -> MachineState {
    if cond {
        MachineState { pc: pc_plus_two(s.pc), ..s }
    } else {
        s
    }
}

/// The state with register `r` set to `val`.
pub open spec fn set_register(s: MachineState, r: u8, val: u8) -> MachineState {
    MachineState { v: s.v.update(r as int, val), ..s }
}

/// Register `r` set to the low byte of `a + b`, after the flag register was
/// set to whether the sum overflows a byte.
pub open spec fn add_into_register(s: MachineState, r: u8, a: u8, b: u8) -> MachineState {
    MachineState { v: s.v.update(15, flag(a + b > 255)).update(r as int, ((a + b) % 256) as u8), ..s }
}

/// Memory with registers 0 to `upto` copied to the addresses from `base` on.
pub open spec fn stored_registers(mem: Seq<u8>, v: Seq<u8>, base: int, upto: int) -> Seq<u8> {
    Seq::new(mem.len(), |a: int| if base <= a <= base + upto { v[a - base] } else { mem[a] })
}

/// Registers 0 to `upto` filled from the memory at `base` on.
pub open spec fn loaded_registers(mem: Seq<u8>, v: Seq<u8>, base: int, upto: int) -> Seq<u8> {
    Seq::new(v.len(), |k: int| if k <= upto { mem[base + k] } else { v[k] })
}

/// Memory with the hundreds, tens and units digits of `val` at `base`,
/// `base + 1` and `base + 2`.
pub open spec fn stored_bcd(mem: Seq<u8>, base: int, val: u8) -> Seq<u8> {
    mem.update(base, val / 100).update(base + 1, (val / 10) % 10).update(base + 2, val % 10)
}

/// What executing `ins` does: the new state and the outcome. `rnd` is the
/// random byte that `Random` draws. On a fault the state is left as it was.
pub open spec fn execute_spec(s: MachineState, ins: Instruction, rnd: u8) -> (MachineState, Result<(), Fault>) {
    match ins {
        Instruction::ClearScreen => (s, Ok(())),
        Instruction::Return => if s.sp == 0 {
            (s, Err(Fault::StackUnderflow))
        } else if s.sp >= 16 {
            (s, Err(Fault::StackOverflow))
        } else {
            (MachineState { pc: s.stack[s.sp as int], sp: (s.sp - 1) as u8, skip: true, ..s }, Ok(()))
        },
        Instruction::SYS => (s, Ok(())),
        Instruction::Jump(a) => (MachineState { pc: a, skip: true, ..s }, Ok(())),
        Instruction::Call(a) => if s.sp >= 15 {
            (s, Err(Fault::StackOverflow))
        } else {
            (
                MachineState {
                    sp: (s.sp + 1) as u8,
                    stack: s.stack.update(s.sp + 1, s.pc),
                    pc: a,
                    skip: true,
                    ..s
                },
                Ok(()),
            )
        },
        Instruction::SkipEqualsByte(r, b) => (skip_if(s, s.v[r as int] == b), Ok(())),
        Instruction::SkipNotEqualsByte(r, b) => (skip_if(s, s.v[r as int] != b), Ok(())),
        Instruction::SkipEqualsRegister(a, b) => (skip_if(s, s.v[a as int] == s.v[b as int]), Ok(())),
        Instruction::LoadByte(r, b) => (set_register(s, r, b), Ok(())),
        Instruction::AddByte(r, b) => (add_into_register(s, r, s.v[r as int], b), Ok(())),
        Instruction::LoadRegister(a, b) => (set_register(s, a, s.v[b as int]), Ok(())),
        Instruction::Or(a, b) => (set_register(s, a, s.v[a as int] | s.v[b as int]), Ok(())),
        Instruction::And(a, b) => (set_register(s, a, s.v[a as int] & s.v[b as int]), Ok(())),
        Instruction::Xor(a, b) => (set_register(s, a, s.v[a as int] ^ s.v[b as int]), Ok(())),
        Instruction::AddRegister(a, b) => (add_into_register(s, a, s.v[a as int], s.v[b as int]), Ok(())),
        Instruction::LoadImmediate(a) => (MachineState { i: a, ..s }, Ok(())),
        Instruction::Random(r, mask) => (set_register(s, r, rnd & mask), Ok(())),
        Instruction::LoadFromDelay(r) => (set_register(s, r, s.delay), Ok(())),
        Instruction::LoadDelay(val) => (MachineState { delay: val, ..s }, Ok(())),
        Instruction::LoadSound(val) => (MachineState { sound: val, ..s }, Ok(())),
        Instruction::AddI(r) => (
            MachineState {
                i: ((s.i + s.v[r as int]) % 65536) as u16,
                v: s.v.update(15, flag(s.i + s.v[r as int] > 65535)),
                ..s
            },
            Ok(()),
        ),
        Instruction::LoadIBCD(val) => if s.i + 2 >= 4096 {
            (s, Err(Fault::MemoryOutOfBounds(s.i)))
        } else {
            (MachineState { mem: stored_bcd(s.mem, s.i as int, val), ..s }, Ok(()))
        },
        Instruction::StoreRegisters(upto) => if s.i + upto >= 4096 {
            (s, Err(Fault::MemoryOutOfBounds(s.i)))
        } else {
            (MachineState { mem: stored_registers(s.mem, s.v, s.i as int, upto as int), ..s }, Ok(()))
        },
        Instruction::LoadRegisters(upto) => if s.i + upto >= 4096 {
            (s, Err(Fault::MemoryOutOfBounds(s.i)))
        } else {
            (MachineState { v: loaded_registers(s.mem, s.v, s.i as int, upto as int), ..s }, Ok(()))
        },
        _ => (s, Err(Fault::Unimplemented(ins))),
    }
}

/// The opcode at the program counter.
pub open spec fn opcode_at(s: MachineState) -> u16 {
    assemble(s.mem[s.pc as int], s.mem[s.pc + 1])
}

/// The advance that ends a cycle: two bytes on unless the instruction asked
/// to keep the program counter where it put it; the request is then cleared.
pub open spec fn advance(s: MachineState) -> MachineState {
    MachineState { pc: if s.skip { s.pc } else { pc_plus_two(s.pc) }, skip: false, ..s }
}

/// One fetch-decode-execute cycle, with `rnd` as the byte that a `Random`
/// instruction draws.
#[verifier::opaque]
pub open spec fn step_spec(s: MachineState, rnd: u8) -> (MachineState, Result<(), Fault>) {
    if s.pc > 4094 {
        (s, Err(Fault::PcOutOfBounds(s.pc)))
    } else {
        match decode_opcode(opcode_at(s)) {
            None => (s, Err(Fault::UnknownOpcode(opcode_at(s)))),
            Some(ins) => {
                let (t, r) = execute_spec(s, ins, rnd);
                if r is Ok {
                    (advance(t), r)
                } else {
                    (t, r)
                }
            },
        }
    }
}

/// Cycles run one after another, the k-th drawing `rnds[k]`, until a fault
/// or until `rnds` is used up.
pub open spec fn run_spec(s: MachineState, rnds: Seq<u8>) -> (MachineState, Result<(), Fault>)
    decreases rnds.len(),
{
    if rnds.len() == 0 {
        (s, Ok(()))
    } else {
        let (t, r) = step_spec(s, rnds[0]);
        if r is Err {
            (t, r)
        } else {
            run_spec(t, rnds.drop_first())
        }
    }
}

/// Memory after loading `bytes`: the bytes from the load offset on, zeros
/// after them, and the area below the load offset as it was.
pub open spec fn loaded_memory(mem: Seq<u8>, bytes: Seq<u8>) -> Seq<u8> {
    Seq::new(
        mem.len(),
        |a: int|
            if a < 512 {
                mem[a]
            } else if a < 512 + bytes.len() {
                bytes[a - 512]
            } else {
                0u8
            },
    )
}

/// An interpreter: memory, registers, stack and timers, and the decoder it
/// was built with.
pub struct Machine<T: InstructionParser> {
    pub name: String,
    pub counter: u16,
    pub stack_ptr: u8,
    pub mem: [u8; 4096],
    pub stack: [u16; 16],
    /// The general registers; the last is the flag register.
    pub v: [u8; 16],
    /// The address register.
    pub i: u16,
    pub delay_register: u8,
    pub sound_register: u8,
    pub instruction_parser: T,
    /// Set by a control-flow instruction to keep the next advance of the
    /// program counter from happening.
    pub skip_increment: bool,
}

impl<T: InstructionParser> View for Machine<T> {
    type V = MachineState;

    open spec fn view(&self) -> MachineState {
        MachineState {
            pc: self.counter,
            sp: self.stack_ptr,
            mem: self.mem@,
            stack: self.stack@,
            v: self.v@,
            i: self.i,
            delay: self.delay_register,
            sound: self.sound_register,
            skip: self.skip_increment,
        }
    }
}

impl<T: InstructionParser> Machine<T> {
    /// A machine with all state zeroed and the program counter at the load
    /// offset.
    pub fn new(name: &str, ins_parser: T) -> (r: Self)
        ensures
            r@ == initial_state(),
            r.name@ == name@,
            r.instruction_parser == ins_parser,
    {
        let r = Self {
            name: name.to_string(),
            counter: 512,
            stack_ptr: 0,
            mem: [0u8; 4096],
            stack: [0u16; 16],
            v: [0u8; 16],
            i: 0,
            delay_register: 0,
            sound_register: 0,
            instruction_parser: ins_parser,
            skip_increment: false,
        };
        assert(r.mem@ =~= initial_state().mem);
        assert(r.stack@ =~= initial_state().stack);
        assert(r.v@ =~= initial_state().v);
        r
    }

    /// The opcode held by the first two bytes, the first one high.
    pub fn get_opcode(b: &[u8]) -> (r: u16)
        requires
            b@.len() >= 2,
        ensures
            r == assemble(b[0], b[1]),
    {
        assemble_bytes(b[0], b[1])
    }

    fn inc_pc(&mut self)
        ensures
            final(self)@ == (MachineState { pc: pc_plus_two(old(self).counter), ..old(self)@ }),
            final(self).name == old(self).name,
            final(self).instruction_parser == old(self).instruction_parser,
    {
        self.counter = if self.counter > 65533 {
            self.counter - 65534
        } else {
            self.counter + 2
        };
    }

    /// Adds two bytes, keeping the low byte of the sum, and sets the flag
    /// register to 1 on overflow, to 0 otherwise.
    fn add(&mut self, d1: u8, d2: u8) -> (r: u8)
        ensures
            r == (d1 + d2) % 256,
            final(self)@ == (MachineState {
                v: old(self)@.v.update(15, flag(d1 + d2 > 255)),
                ..old(self)@
            }),
            final(self).name == old(self).name,
            final(self).instruction_parser == old(self).instruction_parser,
    {
        let res: u16 = d1 as u16 + d2 as u16;
        self.v[FLAG_REGISTER] = if res > 255 {
            1
        } else {
            0
        };
        assert(self.v@ =~= old(self)@.v.update(15, flag(d1 + d2 > 255)));
        (res % 256) as u8
    }

    /// Adds two 16-bit values, keeping the low 16 bits of the sum, and sets
    /// the flag register to 1 on overflow, to 0 otherwise.
    fn add_16(&mut self, d1: u16, d2: u16) -> (r: u16)
        ensures
            r == (d1 + d2) % 65536,
            final(self)@ == (MachineState {
                v: old(self)@.v.update(15, flag(d1 + d2 > 65535)),
                ..old(self)@
            }),
            final(self).name == old(self).name,
            final(self).instruction_parser == old(self).instruction_parser,
    {
        let res: u32 = d1 as u32 + d2 as u32;
        self.v[FLAG_REGISTER] = if res > 65535 {
            1
        } else {
            0
        };
        assert(self.v@ =~= old(self)@.v.update(15, flag(d1 + d2 > 65535)));
        (res % 65536) as u16
    }

    /// Applies one instruction, with `random_byte` as the byte that `Random`
    /// draws. The program counter moves only where the instruction moves it.
    pub fn execute_with(&mut self, ins: &Instruction, random_byte: u8) -> (r: Result<(), Fault>)
        requires
            ins.wf(),
        ensures
            (final(self)@, r) == execute_spec(old(self)@, *ins, random_byte),
            final(self).name == old(self).name,
            final(self).instruction_parser == old(self).instruction_parser,
    {
        match *ins {
            Instruction::ClearScreen => Ok(()),
            Instruction::Return => {
                if self.stack_ptr == 0 {
                    return Err(Fault::StackUnderflow);
                }
                if self.stack_ptr >= 16 {
                    return Err(Fault::StackOverflow);
                }
                self.counter = self.stack[self.stack_ptr as usize];
                self.stack_ptr = self.stack_ptr - 1;
                self.skip_increment = true;
                Ok(())
            },
            Instruction::SYS => Ok(()),
            Instruction::Jump(address) => {
                self.counter = address;
                self.skip_increment = true;
                Ok(())
            },
            Instruction::Call(address) => {
                if self.stack_ptr >= 15 {
                    return Err(Fault::StackOverflow);
                }
                self.stack_ptr = self.stack_ptr + 1;
                self.stack[self.stack_ptr as usize] = self.counter;
                self.counter = address;
                self.skip_increment = true;
                Ok(())
            },
            Instruction::SkipEqualsByte(reg, byte) => {
                if self.v[reg as usize] == byte {
                    self.inc_pc();
                }
                Ok(())
            },
            Instruction::SkipNotEqualsByte(reg, byte) => {
                if self.v[reg as usize] != byte {
                    self.inc_pc();
                }
                Ok(())
            },
            Instruction::SkipEqualsRegister(reg1, reg2) => {
                if self.v[reg1 as usize] == self.v[reg2 as usize] {
                    self.inc_pc();
                }
                Ok(())
            },
            Instruction::LoadByte(reg, byte) => {
                self.v[reg as usize] = byte;
                Ok(())
            },
            Instruction::AddByte(reg, byte) => {
                let sum = self.add(self.v[reg as usize], byte);
                self.v[reg as usize] = sum;
                Ok(())
            },
            Instruction::LoadRegister(reg1, reg2) => {
                self.v[reg1 as usize] = self.v[reg2 as usize];
                Ok(())
            },
            Instruction::Or(reg1, reg2) => {
                self.v[reg1 as usize] = self.v[reg1 as usize] | self.v[reg2 as usize];
                Ok(())
            },
            Instruction::And(reg1, reg2) => {
                self.v[reg1 as usize] = self.v[reg1 as usize] & self.v[reg2 as usize];
                Ok(())
            },
            Instruction::Xor(reg1, reg2) => {
                self.v[reg1 as usize] = self.v[reg1 as usize] ^ self.v[reg2 as usize];
                Ok(())
            },
            Instruction::AddRegister(reg1, reg2) => {
                let sum = self.add(self.v[reg1 as usize], self.v[reg2 as usize]);
                self.v[reg1 as usize] = sum;
                Ok(())
            },
            Instruction::LoadImmediate(address) => {
                self.i = address;
                Ok(())
            },
            Instruction::Random(register, mask) => {
                self.v[register as usize] = random_byte & mask;
                Ok(())
            },
            Instruction::LoadFromDelay(register) => {
                self.v[register as usize] = self.delay_register;
                Ok(())
            },
            Instruction::LoadDelay(value) => {
                self.delay_register = value;
                Ok(())
            },
            Instruction::LoadSound(value) => {
                self.sound_register = value;
                Ok(())
            },
            Instruction::AddI(register) => {
                let sum = self.add_16(self.i, self.v[register as usize] as u16);
                self.i = sum;
                Ok(())
            },
            Instruction::LoadIBCD(value) => {
                let base = self.i as usize;
                if base + 2 >= MEMORY_SIZE {
                    return Err(Fault::MemoryOutOfBounds(self.i));
                }
                self.mem[base] = value / 100;
                self.mem[base + 1] = (value / 10) % 10;
                self.mem[base + 2] = value % 10;
                Ok(())
            },
            Instruction::StoreRegisters(upto) => self.store_registers(upto),
            Instruction::LoadRegisters(upto) => self.load_registers(upto),
            _ => Err(Fault::Unimplemented(*ins)),
        }
    }

    fn store_registers(&mut self, upto: u8) -> (r: Result<(), Fault>)
        requires
            upto < 16,
        ensures
            (final(self)@, r) == execute_spec(old(self)@, Instruction::StoreRegisters(upto), 0),
            final(self).name == old(self).name,
            final(self).instruction_parser == old(self).instruction_parser,
    {
        let base = self.i as usize;
        let last = upto as usize;
        if base + last >= MEMORY_SIZE {
            return Err(Fault::MemoryOutOfBounds(self.i));
        }
        let ghost s0 = self@;
        let mut k: usize = 0;
        while k <= last
            invariant
                k <= last + 1,
                last < 16,
                base == s0.i,
                base + last < 4096,
                self@ == (MachineState { mem: self.mem@, ..s0 }),
                forall|a: int|
                    0 <= a < 4096 ==> #[trigger] self.mem@[a] == if base <= a < base + k {
                        s0.v[a - base]
                    } else {
                        s0.mem[a]
                    },
                self.name == old(self).name,
                self.instruction_parser == old(self).instruction_parser,
            decreases last + 1 - k,
        {
            self.mem[base + k] = self.v[k];
            k = k + 1;
        }
        assert(self.mem@ =~= stored_registers(s0.mem, s0.v, base as int, last as int));
        Ok(())
    }

    fn load_registers(&mut self, upto: u8) -> (r: Result<(), Fault>)
        requires
            upto < 16,
        ensures
            (final(self)@, r) == execute_spec(old(self)@, Instruction::LoadRegisters(upto), 0),
            final(self).name == old(self).name,
            final(self).instruction_parser == old(self).instruction_parser,
    {
        let base = self.i as usize;
        let last = upto as usize;
        if base + last >= MEMORY_SIZE {
            return Err(Fault::MemoryOutOfBounds(self.i));
        }
        let ghost s0 = self@;
        let mut k: usize = 0;
        while k <= last
            invariant
                k <= last + 1,
                last < 16,
                base == s0.i,
                base + last < 4096,
                self@ == (MachineState { v: self.v@, ..s0 }),
                forall|j: int|
                    0 <= j < 16 ==> #[trigger] self.v@[j] == if j < k {
                        s0.mem[base + j]
                    } else {
                        s0.v[j]
                    },
                self.name == old(self).name,
                self.instruction_parser == old(self).instruction_parser,
            decreases last + 1 - k,
        {
            self.v[k] = self.mem[base + k];
            k = k + 1;
        }
        assert(self.v@ =~= loaded_registers(s0.mem, s0.v, base as int, last as int));
        Ok(())
    }

    /// Applies one instruction; a `Random` instruction draws its byte from
    /// the thread's random generator.
    pub fn execute(&mut self, ins: &Instruction) -> (r: Result<(), Fault>)
        requires
            ins.wf(),
        ensures
            exists|b: u8| (final(self)@, r) == execute_spec(old(self)@, *ins, b),
            final(self).name == old(self).name,
            final(self).instruction_parser == old(self).instruction_parser,
    {
        let b = if let Instruction::Random(_, _) = *ins {
            draw_random_byte()
        } else {
            0
        };
        self.execute_with(ins, b)
    }

    /// Fetches and decodes the instruction at the program counter.
    fn fetch(&self) -> (r: Result<Instruction, Fault>)
        ensures
            self.counter > LAST_FETCH_ADDRESS ==> r == Err::<Instruction, Fault>(
                Fault::PcOutOfBounds(self.counter),
            ),
            self.counter <= LAST_FETCH_ADDRESS ==> match decode_opcode(opcode_at(self@)) {
                Some(ins) => r == Ok::<Instruction, Fault>(ins),
                None => r == Err::<Instruction, Fault>(Fault::UnknownOpcode(opcode_at(self@))),
            },
            r matches Ok(ins) ==> ins.wf(),
    {
        if self.counter > LAST_FETCH_ADDRESS {
            return Err(Fault::PcOutOfBounds(self.counter));
        }
        let pc = self.counter as usize;
        let opcode = assemble_bytes(self.mem[pc], self.mem[pc + 1]);
        proof {
            lemma_decoded_wf(opcode);
        }
        match self.instruction_parser.decode(opcode) {
            Some(ins) => Ok(ins),
            None => Err(Fault::UnknownOpcode(opcode)),
        }
    }

    /// Ends a cycle: moves the program counter two bytes on unless the
    /// instruction asked not to, and clears that request.
    fn finish_cycle(&mut self)
        ensures
            final(self)@ == advance(old(self)@),
            final(self).name == old(self).name,
            final(self).instruction_parser == old(self).instruction_parser,
    {
        if !self.skip_increment {
            self.inc_pc();
        }
        self.skip_increment = false;
    }

    /// One fetch-decode-execute cycle, with `random_byte` as the byte that a
    /// `Random` instruction draws.
    pub fn step_with(&mut self, random_byte: u8) -> (r: Result<(), Fault>)
        ensures
            (final(self)@, r) == step_spec(old(self)@, random_byte),
            final(self).name == old(self).name,
            final(self).instruction_parser == old(self).instruction_parser,
    {
        reveal(step_spec);
        let ins = self.fetch()?;
        self.execute_with(&ins, random_byte)?;
        self.finish_cycle();
        Ok(())
    }

    /// One fetch-decode-execute cycle; a `Random` instruction draws its byte
    /// from the thread's random generator.
    pub fn step(&mut self) -> (r: Result<(), Fault>)
        ensures
            exists|b: u8| (final(self)@, r) == step_spec(old(self)@, b),
            final(self).name == old(self).name,
            final(self).instruction_parser == old(self).instruction_parser,
    {
        reveal(step_spec);
        let ins = match self.fetch() {
            Ok(ins) => ins,
            Err(f) => {
                assert(step_spec(old(self)@, 0) == (self@, Err::<(), Fault>(f)));
                return Err(f);
            },
        };
        let r = self.execute(&ins);
        let ghost b = choose|b: u8| (self@, r) == execute_spec(old(self)@, ins, b);
        if r.is_err() {
            assert(step_spec(old(self)@, b) == (self@, r));
            return r;
        }
        self.finish_cycle();
        assert(step_spec(old(self)@, b) == (self@, r));
        r
    }

    /// Runs up to `max_steps` cycles and stops at the first fault, which it
    /// returns; `Ok` when all of them ran.
    pub fn start(&mut self, max_steps: u64) -> (r: Result<(), Fault>)
        ensures
            exists|rnds: Seq<u8>|
                {
                    &&& rnds.len() <= max_steps
                    &&& (r is Ok ==> rnds.len() == max_steps)
                    &&& #[trigger] run_spec(old(self)@, rnds) == (final(self)@, r)
                },
            final(self).name == old(self).name,
            final(self).instruction_parser == old(self).instruction_parser,
    {
        let ghost s0 = self@;
        let ghost mut rnds: Seq<u8> = Seq::empty();
        let mut n: u64 = 0;
        while n < max_steps
            invariant
                n <= max_steps,
                rnds.len() == n,
                s0 == old(self)@,
                run_spec(s0, rnds) == (self@, Ok::<(), Fault>(())),
                self.name == old(self).name,
                self.instruction_parser == old(self).instruction_parser,
            decreases max_steps - n,
        {
            let ghost before = self@;
            let r = self.step();
            let ghost b = choose|b: u8| (self@, r) == step_spec(before, b);
            proof {
                assert(step_spec(before, b) == (self@, r));
                lemma_run_extend(s0, rnds, b);
                rnds = rnds.push(b);
                assert(run_spec(s0, rnds) == (self@, r));
            }
            if let Err(f) = r {
                assert(rnds.len() <= max_steps);
                return Err(f);
            }
            proof {
                lemma_unit_ok(r);
            }
            n = n + 1;
        }
        Ok(())
    }

    /// Copies a program into memory from the load offset on and zeroes the
    /// rest of memory behind it. A program longer than the room there is
    /// refused and the machine left as it was.
    pub fn load(&mut self, bytes: &[u8]) -> (r: Result<(), LoadError>)
        ensures
            bytes@.len() > PROGRAM_CAPACITY ==> r == Err::<(), LoadError>(
                LoadError::TooLarge(bytes@.len() as usize),
            ) && final(self)@ == old(self)@,
            bytes@.len() <= PROGRAM_CAPACITY ==> r is Ok && final(self)@ == (MachineState {
                mem: loaded_memory(old(self)@.mem, bytes@),
                ..old(self)@
            }),
            final(self).name == old(self).name,
            final(self).instruction_parser == old(self).instruction_parser,
    {
        let len = bytes.len();
        if len > PROGRAM_CAPACITY {
            return Err(LoadError::TooLarge(len));
        }
        let ghost s0 = self@;
        let mut k: usize = 0;
        while k < PROGRAM_CAPACITY
            invariant
                k <= PROGRAM_CAPACITY,
                len == bytes@.len(),
                len <= PROGRAM_CAPACITY,
                self@ == (MachineState { mem: self.mem@, ..s0 }),
                forall|a: int|
                    0 <= a < 4096 ==> #[trigger] self.mem@[a] == if a < 512 || a >= 512 + k {
                        s0.mem[a]
                    } else if a < 512 + len {
                        bytes@[a - 512]
                    } else {
                        0u8
                    },
                self.name == old(self).name,
                self.instruction_parser == old(self).instruction_parser,
            decreases PROGRAM_CAPACITY - k,
        {
            self.mem[PROGRAM_OFFSET + k] = if k < len {
                bytes[k]
            } else {
                0
            };
            k = k + 1;
        }
        assert(self.mem@ =~= loaded_memory(s0.mem, bytes@));
        Ok(())
    }

    /// Puts every part of the state back to its initial value, in place.
    pub fn reset(&mut self) -> (r: Result<(), String>)
        ensures
            r is Ok,
            final(self)@ == initial_state(),
            final(self).name == old(self).name,
            final(self).instruction_parser == old(self).instruction_parser,
    {
        self.counter = 512;
        self.stack_ptr = 0;
        self.mem = [0u8; 4096];
        self.stack = [0u16; 16];
        self.v = [0u8; 16];
        self.i = 0;
        self.delay_register = 0;
        self.sound_register = 0;
        self.skip_increment = false;
        assert(self.mem@ =~= initial_state().mem);
        assert(self.stack@ =~= initial_state().stack);
        assert(self.v@ =~= initial_state().v);
        Ok(())
    }
}

/// Running one more cycle after a run that ended without a fault gives what
/// that cycle gives.
proof fn lemma_unit_ok(r: Result<(), Fault>)
    requires
        r is Ok,
    ensures
        r == Ok::<(), Fault>(()),
{
    let u: () = r->Ok_0;
    assert(u == ());
}

pub proof fn lemma_run_extend(s: MachineState, rnds: Seq<u8>, b: u8)
    requires
        run_spec(s, rnds).1 is Ok,
    ensures
        run_spec(s, rnds.push(b)) == step_spec(run_spec(s, rnds).0, b),
    decreases rnds.len(),
{
    let longer = rnds.push(b);
    if rnds.len() == 0 {
        assert(longer.drop_first() =~= Seq::<u8>::empty());
        assert(longer[0] == b);
        assert(run_spec(s, rnds) == (s, Ok::<(), Fault>(())));
        let (t, r) = step_spec(s, b);
        if r is Ok {
            lemma_unit_ok(r);
            assert(run_spec(t, longer.drop_first()) == (t, r));
        }
        assert(run_spec(s, longer) == step_spec(s, b));
    } else {
        let (t, r) = step_spec(s, rnds[0]);
        assert(longer.drop_first() =~= rnds.drop_first().push(b));
        assert(longer[0] == rnds[0]);
        assert(r is Ok);
        assert(run_spec(s, rnds) == run_spec(t, rnds.drop_first()));
        lemma_run_extend(t, rnds.drop_first(), b);
        assert(run_spec(s, longer) == run_spec(t, longer.drop_first()));
    }
}

/// Relies on rand::random: a byte drawn from the thread-local generator.
/// Nothing is known of which byte comes.
#[verifier::external_body]
fn draw_random_byte() -> (r: u8) {
    rand::random::<u8>()
}

/// Combines two bytes into an opcode, the first one high.
pub fn assemble_bytes(hi: u8, lo: u8) -> (r: u16)
    ensures
        r == assemble(hi, lo),
{
    let fb: u16 = (hi as u16) << 8u16;
    let sb: u16 = lo as u16;
    assert(((hi as u16) << 8u16) | (lo as u16) == hi * 256 + lo) by (bit_vector);
    fb | sb
}

} // verus!
