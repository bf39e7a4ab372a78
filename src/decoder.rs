use vstd::prelude::*;

use crate::instruction::Instruction;

verus! {

/// The 12-bit address in the low three nibbles.
pub open spec fn addr_of(op: u16) -> u16 {
    op % 4096
}

/// The register index in the second nibble.
pub open spec fn x_of(op: u16) -> u8 {
    ((op / 256) % 16) as u8
}

/// The register index in the third nibble.
pub open spec fn y_of(op: u16) -> u8 {
    ((op / 16) % 16) as u8
}

/// The immediate in the low byte.
pub open spec fn byte_of(op: u16) -> u8 {
    (op % 256) as u8
}

/// The lowest nibble.
pub open spec fn nibble_of(op: u16) -> u8 {
    (op % 16) as u8
}

/// What an opcode means: the highest nibble selects a family, and within
/// the families that share it the lowest nibble or the low byte selects
/// the operation. `None` for an opcode that no operation has.
pub open spec fn decode_opcode(op: u16) -> Option<Instruction> {
    let family = op / 4096;
    let x = x_of(op);
    let y = y_of(op);
    let n = nibble_of(op);
    let kk = byte_of(op);
    let nnn = addr_of(op);
    if family == 0 {
        if op == 0x00E0 {
            Some(Instruction::ClearScreen)
        } else if op == 0x00EE {
            Some(Instruction::Return)
        } else {
            Some(Instruction::SYS)
        }
    } else if family == 1 {
        Some(Instruction::Jump(nnn))
    } else if family == 2 {
        Some(Instruction::Call(nnn))
    } else if family == 3 {
        Some(Instruction::SkipEqualsByte(x, kk))
    } else if family == 4 {
        Some(Instruction::SkipNotEqualsByte(x, kk))
    } else if family == 5 {
        if n == 0 {
            Some(Instruction::SkipEqualsRegister(x, y))
        } else {
            None
        }
    } else if family == 6 {
        Some(Instruction::LoadByte(x, kk))
    } else if family == 7 {
        Some(Instruction::AddByte(x, kk))
    } else if family == 8 {
        if n == 0 {
            Some(Instruction::LoadRegister(x, y))
        } else if n == 1 {
            Some(Instruction::Or(x, y))
        } else if n == 2 {
            Some(Instruction::And(x, y))
        } else if n == 3 {
            Some(Instruction::Xor(x, y))
        } else if n == 4 {
            Some(Instruction::AddRegister(x, y))
        } else if n == 5 {
            Some(Instruction::Sub(x, y))
        } else if n == 6 {
            Some(Instruction::ShiftRight(x, y))
        } else if n == 7 {
            Some(Instruction::SubN(x, y))
        } else if n == 0xE {
            Some(Instruction::ShiftLeft(x, y))
        } else {
            None
        }
    } else if family == 9 {
        if n == 0 {
            Some(Instruction::SkipNotEqualsRegister(x, y))
        } else {
            None
        }
    } else if family == 0xA {
        Some(Instruction::LoadImmediate(nnn))
    } else if family == 0xB {
        Some(Instruction::JumpV0(nnn))
    } else if family == 0xC {
        Some(Instruction::Random(x, kk))
    } else if family == 0xD {
        Some(Instruction::Draw(x, y, n))
    } else if family == 0xE {
        if kk == 0x9E {
            Some(Instruction::SkipKeyPressed(x))
        } else if kk == 0xA1 {
            Some(Instruction::SkipKeyNotPressed(x))
        } else {
            None
        }
    } else {
        if kk == 0x07 {
            Some(Instruction::LoadFromDelay(x))
        } else if kk == 0x0A {
            Some(Instruction::WaitKey(x))
        } else if kk == 0x15 {
            Some(Instruction::LoadDelay(x))
        } else if kk == 0x18 {
            Some(Instruction::LoadSound(x))
        } else if kk == 0x1E {
            Some(Instruction::AddI(x))
        } else if kk == 0x29 {
            Some(Instruction::LoadSprite(x))
        } else if kk == 0x33 {
            Some(Instruction::LoadIBCD(x))
        } else if kk == 0x55 {
            Some(Instruction::StoreRegisters(x))
        } else if kk == 0x65 {
            Some(Instruction::LoadRegisters(x))
        } else {
            None
        }
    }
}

/// Matching against bit patterns: each operation has a mask that keeps its
/// fixed bits and the value those bits must have. The patterns are tried in
/// order, the most specific first, and the first that fits decides.
pub open spec fn mask_decode(op: u16) -> Option<Instruction> {
    let x = x_of(op);
    let y = y_of(op);
    let n = nibble_of(op);
    let kk = byte_of(op);
    let nnn = addr_of(op);
    if op & 0xFFFF == 0x00E0 {
        Some(Instruction::ClearScreen)
    } else if op & 0xFFFF == 0x00EE {
        Some(Instruction::Return)
    } else if op & 0xF000 == 0x0000 {
        Some(Instruction::SYS)
    } else if op & 0xF000 == 0x1000 {
        Some(Instruction::Jump(nnn))
    } else if op & 0xF000 == 0x2000 {
        Some(Instruction::Call(nnn))
    } else if op & 0xF000 == 0x3000 {
        Some(Instruction::SkipEqualsByte(x, kk))
    } else if op & 0xF000 == 0x4000 {
        Some(Instruction::SkipNotEqualsByte(x, kk))
    } else if op & 0xF00F == 0x5000 {
        Some(Instruction::SkipEqualsRegister(x, y))
    } else if op & 0xF000 == 0x6000 {
        Some(Instruction::LoadByte(x, kk))
    } else if op & 0xF000 == 0x7000 {
        Some(Instruction::AddByte(x, kk))
    } else if op & 0xF00F == 0x8000 {
        Some(Instruction::LoadRegister(x, y))
    } else if op & 0xF00F == 0x8001 {
        Some(Instruction::Or(x, y))
    } else if op & 0xF00F == 0x8002 {
        Some(Instruction::And(x, y))
    } else if op & 0xF00F == 0x8003 {
        Some(Instruction::Xor(x, y))
    } else if op & 0xF00F == 0x8004 {
        Some(Instruction::AddRegister(x, y))
    } else if op & 0xF00F == 0x8005 {
        Some(Instruction::Sub(x, y))
    } else if op & 0xF00F == 0x8006 {
        Some(Instruction::ShiftRight(x, y))
    } else if op & 0xF00F == 0x8007 {
        Some(Instruction::SubN(x, y))
    } else if op & 0xF00F == 0x800E {
        Some(Instruction::ShiftLeft(x, y))
    } else if op & 0xF00F == 0x9000 {
        Some(Instruction::SkipNotEqualsRegister(x, y))
    } else if op & 0xF000 == 0xA000 {
        Some(Instruction::LoadImmediate(nnn))
    } else if op & 0xF000 == 0xB000 {
        Some(Instruction::JumpV0(nnn))
    } else if op & 0xF000 == 0xC000 {
        Some(Instruction::Random(x, kk))
    } else if op & 0xF000 == 0xD000 {
        Some(Instruction::Draw(x, y, n))
    } else if op & 0xF0FF == 0xE09E {
        Some(Instruction::SkipKeyPressed(x))
    } else if op & 0xF0FF == 0xE0A1 {
        Some(Instruction::SkipKeyNotPressed(x))
    } else if op & 0xF0FF == 0xF007 {
        Some(Instruction::LoadFromDelay(x))
    } else if op & 0xF0FF == 0xF00A {
        Some(Instruction::WaitKey(x))
    } else if op & 0xF0FF == 0xF015 {
        Some(Instruction::LoadDelay(x))
    } else if op & 0xF0FF == 0xF018 {
        Some(Instruction::LoadSound(x))
    } else if op & 0xF0FF == 0xF01E {
        Some(Instruction::AddI(x))
    } else if op & 0xF0FF == 0xF029 {
        Some(Instruction::LoadSprite(x))
    } else if op & 0xF0FF == 0xF033 {
        Some(Instruction::LoadIBCD(x))
    } else if op & 0xF0FF == 0xF055 {
        Some(Instruction::StoreRegisters(x))
    } else if op & 0xF0FF == 0xF065 {
        Some(Instruction::LoadRegisters(x))
    } else {
        None
    }
}

proof fn lemma_masks(op: u16)
    ensures
        op & 0xFFFF == op,
        op & 0xF000 == (op / 4096) * 4096,
        op & 0xF00F == (op / 4096) * 4096 + op % 16,
        op & 0xF0FF == (op / 4096) * 4096 + op % 256,
{
    assert(op & 0xFFFF == op) by (bit_vector);
    assert(op & 0xF000 == (op / 4096) * 4096) by (bit_vector);
    assert(op & 0xF00F == (op / 4096) * 4096 + op % 16) by (bit_vector);
    assert(op & 0xF0FF == (op / 4096) * 4096 + op % 256) by (bit_vector);
}

/// The two decoding strategies agree: matching an opcode against the bit
/// patterns gives what dispatching on its nibbles gives, for every 16-bit
/// opcode, recognised or not.
pub proof fn lemma_strategies_agree(op: u16)
    ensures
        mask_decode(op) == decode_opcode(op),
{
    lemma_masks(op);
    let family = op / 4096;
    assert(0 <= family < 16);
    assert(op % 256 == (op % 256) % 16 + 16 * ((op % 256) / 16));
}

/// One decoding strategy. Every strategy decodes exactly as
/// `decode_opcode` says, so a machine may be built with any of them.
pub trait InstructionParser {
    /// Decodes one opcode; `None` when the opcode names no operation.
    fn decode(&self, opcode: u16) -> (r: Option<Instruction>)
        ensures
            r == decode_opcode(opcode),
    ;
}

fn addr_field(op: u16) -> (r: u16)
    ensures
        r == addr_of(op),
{
    assert(op & 0x0FFF == op % 4096) by (bit_vector);
    op & 0x0FFF
}

fn x_field(op: u16) -> (r: u8)
    ensures
        r == x_of(op),
        r < 16,
{
    assert((op >> 8) & 0xF == (op / 256) % 16) by (bit_vector);
    ((op >> 8) & 0xF) as u8
}

fn y_field(op: u16) -> (r: u8)
    ensures
        r == y_of(op),
        r < 16,
{
    assert((op >> 4) & 0xF == (op / 16) % 16) by (bit_vector);
    ((op >> 4) & 0xF) as u8
}

fn byte_field(op: u16) -> (r: u8)
    ensures
        r == byte_of(op),
{
    assert(op & 0xFF == op % 256) by (bit_vector);
    (op & 0xFF) as u8
}

fn nibble_field(op: u16) -> (r: u8)
    ensures
        r == nibble_of(op),
        r < 16,
{
    assert(op & 0xF == op % 16) by (bit_vector);
    (op & 0xF) as u8
}

fn family_field(op: u16) -> (r: u8)
    ensures
        r as int == op / 4096,
        r < 16,
{
    assert(op >> 12 == op / 4096) by (bit_vector);
    (op >> 12) as u8
}

/// Decodes by testing the opcode against each operation's bit pattern, most
/// specific first.
#[derive(Clone, Copy, Debug)]
pub struct OpcodeMaskParser {}

const MASK_ALL: u16 = 0xFFFF;
const MASK_FAMILY: u16 = 0xF000;
const MASK_FAMILY_NIBBLE: u16 = 0xF00F;
const MASK_FAMILY_BYTE: u16 = 0xF0FF;

impl OpcodeMaskParser {
    /// The pattern-matching decoder, as `mask_decode` states it.
    pub fn match_masks(op: u16) -> (r: Option<Instruction>)
        ensures
            r == mask_decode(op),
    {
        let x = x_field(op);
        let y = y_field(op);
        let n = nibble_field(op);
        let kk = byte_field(op);
        let nnn = addr_field(op);
        if op & MASK_ALL == 0x00E0 {
            Some(Instruction::ClearScreen)
        } else if op & MASK_ALL == 0x00EE {
            Some(Instruction::Return)
        } else if op & MASK_FAMILY == 0x0000 {
            Some(Instruction::SYS)
        } else if op & MASK_FAMILY == 0x1000 {
            Some(Instruction::Jump(nnn))
        } else if op & MASK_FAMILY == 0x2000 {
            Some(Instruction::Call(nnn))
        } else if op & MASK_FAMILY == 0x3000 {
            Some(Instruction::SkipEqualsByte(x, kk))
        } else if op & MASK_FAMILY == 0x4000 {
            Some(Instruction::SkipNotEqualsByte(x, kk))
        } else if op & MASK_FAMILY_NIBBLE == 0x5000 {
            Some(Instruction::SkipEqualsRegister(x, y))
        } else if op & MASK_FAMILY == 0x6000 {
            Some(Instruction::LoadByte(x, kk))
        } else if op & MASK_FAMILY == 0x7000 {
            Some(Instruction::AddByte(x, kk))
        } else if op & MASK_FAMILY_NIBBLE == 0x8000 {
            Some(Instruction::LoadRegister(x, y))
        } else if op & MASK_FAMILY_NIBBLE == 0x8001 {
            Some(Instruction::Or(x, y))
        } else if op & MASK_FAMILY_NIBBLE == 0x8002 {
            Some(Instruction::And(x, y))
        } else if op & MASK_FAMILY_NIBBLE == 0x8003 {
            Some(Instruction::Xor(x, y))
        } else if op & MASK_FAMILY_NIBBLE == 0x8004 {
            Some(Instruction::AddRegister(x, y))
        } else if op & MASK_FAMILY_NIBBLE == 0x8005 {
            Some(Instruction::Sub(x, y))
        } else if op & MASK_FAMILY_NIBBLE == 0x8006 {
            Some(Instruction::ShiftRight(x, y))
        } else if op & MASK_FAMILY_NIBBLE == 0x8007 {
            Some(Instruction::SubN(x, y))
        } else if op & MASK_FAMILY_NIBBLE == 0x800E {
            Some(Instruction::ShiftLeft(x, y))
        } else if op & MASK_FAMILY_NIBBLE == 0x9000 {
            Some(Instruction::SkipNotEqualsRegister(x, y))
        } else if op & MASK_FAMILY == 0xA000 {
            Some(Instruction::LoadImmediate(nnn))
        } else if op & MASK_FAMILY == 0xB000 {
            Some(Instruction::JumpV0(nnn))
        } else if op & MASK_FAMILY == 0xC000 {
            Some(Instruction::Random(x, kk))
        } else if op & MASK_FAMILY == 0xD000 {
            Some(Instruction::Draw(x, y, n))
        } else if op & MASK_FAMILY_BYTE == 0xE09E {
            Some(Instruction::SkipKeyPressed(x))
        } else if op & MASK_FAMILY_BYTE == 0xE0A1 {
            Some(Instruction::SkipKeyNotPressed(x))
        } else if op & MASK_FAMILY_BYTE == 0xF007 {
            Some(Instruction::LoadFromDelay(x))
        } else if op & MASK_FAMILY_BYTE == 0xF00A {
            Some(Instruction::WaitKey(x))
        } else if op & MASK_FAMILY_BYTE == 0xF015 {
            Some(Instruction::LoadDelay(x))
        } else if op & MASK_FAMILY_BYTE == 0xF018 {
            Some(Instruction::LoadSound(x))
        } else if op & MASK_FAMILY_BYTE == 0xF01E {
            Some(Instruction::AddI(x))
        } else if op & MASK_FAMILY_BYTE == 0xF029 {
            Some(Instruction::LoadSprite(x))
        } else if op & MASK_FAMILY_BYTE == 0xF033 {
            Some(Instruction::LoadIBCD(x))
        } else if op & MASK_FAMILY_BYTE == 0xF055 {
            Some(Instruction::StoreRegisters(x))
        } else if op & MASK_FAMILY_BYTE == 0xF065 {
            Some(Instruction::LoadRegisters(x))
        } else {
            None
        }
    }
}

impl InstructionParser for OpcodeMaskParser {
    fn decode(&self, opcode: u16) -> (r: Option<Instruction>) {
        proof {
            lemma_strategies_agree(opcode);
        }
        Self::match_masks(opcode)
    }
}

/// Decodes by splitting the opcode into nibbles and dispatching on the
/// highest one, then on the lowest nibble or the low byte where a family
/// holds several operations.
#[derive(Clone, Copy, Debug)]
pub struct OpcodeTable {}

impl OpcodeTable {
    fn decode_system(op: u16) -> (r: Option<Instruction>)
        requires
            op / 4096 == 0,
        ensures
            r == decode_opcode(op),
    {
        if op == 0x00E0 {
            Some(Instruction::ClearScreen)
        } else if op == 0x00EE {
            Some(Instruction::Return)
        } else {
            Some(Instruction::SYS)
        }
    }

    fn decode_arithmetic(op: u16, x: u8, y: u8) -> (r: Option<Instruction>)
        requires
            op / 4096 == 8,
            x == x_of(op),
            y == y_of(op),
        ensures
            r == decode_opcode(op),
    {
        match nibble_field(op) {
            0x0 => Some(Instruction::LoadRegister(x, y)),
            0x1 => Some(Instruction::Or(x, y)),
            0x2 => Some(Instruction::And(x, y)),
            0x3 => Some(Instruction::Xor(x, y)),
            0x4 => Some(Instruction::AddRegister(x, y)),
            0x5 => Some(Instruction::Sub(x, y)),
            0x6 => Some(Instruction::ShiftRight(x, y)),
            0x7 => Some(Instruction::SubN(x, y)),
            0xE => Some(Instruction::ShiftLeft(x, y)),
            _ => None,
        }
    }

    fn decode_misc(op: u16, x: u8) -> (r: Option<Instruction>)
        requires
            op / 4096 == 0xF,
            x == x_of(op),
        ensures
            r == decode_opcode(op),
    {
        match byte_field(op) {
            0x07 => Some(Instruction::LoadFromDelay(x)),
            0x0A => Some(Instruction::WaitKey(x)),
            0x15 => Some(Instruction::LoadDelay(x)),
            0x18 => Some(Instruction::LoadSound(x)),
            0x1E => Some(Instruction::AddI(x)),
            0x29 => Some(Instruction::LoadSprite(x)),
            0x33 => Some(Instruction::LoadIBCD(x)),
            0x55 => Some(Instruction::StoreRegisters(x)),
            0x65 => Some(Instruction::LoadRegisters(x)),
            _ => None,
        }
    }

    /// The nibble-dispatching decoder.
    pub fn lookup(op: u16) -> (r: Option<Instruction>)
        ensures
            r == decode_opcode(op),
    {
        let x = x_field(op);
        let y = y_field(op);
        let kk = byte_field(op);
        let nnn = addr_field(op);
        match family_field(op) {
            0x0 => Self::decode_system(op),
            0x1 => Some(Instruction::Jump(nnn)),
            0x2 => Some(Instruction::Call(nnn)),
            0x3 => Some(Instruction::SkipEqualsByte(x, kk)),
            0x4 => Some(Instruction::SkipNotEqualsByte(x, kk)),
            0x5 => if nibble_field(op) == 0 {
                Some(Instruction::SkipEqualsRegister(x, y))
            } else {
                None
            },
            0x6 => Some(Instruction::LoadByte(x, kk)),
            0x7 => Some(Instruction::AddByte(x, kk)),
            0x8 => Self::decode_arithmetic(op, x, y),
            0x9 => if nibble_field(op) == 0 {
                Some(Instruction::SkipNotEqualsRegister(x, y))
            } else {
                None
            },
            0xA => Some(Instruction::LoadImmediate(nnn)),
            0xB => Some(Instruction::JumpV0(nnn)),
            0xC => Some(Instruction::Random(x, kk)),
            0xD => Some(Instruction::Draw(x, y, nibble_field(op))),
            0xE => if kk == 0x9E {
                Some(Instruction::SkipKeyPressed(x))
            } else if kk == 0xA1 {
                Some(Instruction::SkipKeyNotPressed(x))
            } else {
                None
            },
            _ => Self::decode_misc(op, x),
        }
    }
}

impl InstructionParser for OpcodeTable {
    fn decode(&self, opcode: u16) -> (r: Option<Instruction>) {
        Self::lookup(opcode)
    }
}

/// A recognised opcode decodes to an instruction whose register operands
/// name registers.
pub proof fn lemma_decoded_wf(op: u16)
    ensures
        decode_opcode(op) matches Some(ins) ==> ins.wf(),
{
}

} // verus!
