use vstd::prelude::*;

verus! {

/// A decoded instruction: an operation tag with its operand fields.
///
/// Register operands are indices into the register file (0 to 15), byte
/// operands are immediates and address operands are 12-bit memory addresses.
/// `LoadDelay`, `LoadSound` and `LoadIBCD` carry the value they act on.
#[derive(Clone, Copy, Debug, PartialEq, Eq, Structural)]
pub enum Instruction {
    ClearScreen,
    Return,
    SYS,
    Jump(u16),
    Call(u16),
    SkipEqualsByte(u8, u8),
    SkipNotEqualsByte(u8, u8),
    SkipEqualsRegister(u8, u8),
    LoadByte(u8, u8),
    AddByte(u8, u8),
    LoadRegister(u8, u8),
    Or(u8, u8),
    And(u8, u8),
    Xor(u8, u8),
    AddRegister(u8, u8),
    Sub(u8, u8),
    ShiftRight(u8, u8),
    SubN(u8, u8),
    ShiftLeft(u8, u8),
    SkipNotEqualsRegister(u8, u8),
    LoadImmediate(u16),
    JumpV0(u16),
    Random(u8, u8),
    Draw(u8, u8, u8),
    SkipKeyPressed(u8),
    SkipKeyNotPressed(u8),
    LoadFromDelay(u8),
    WaitKey(u8),
    /// Stores its operand itself in the delay timer. Every other instruction
    /// of this family reads a register named by its operand; this one does
    /// not, which looks like a slip that is kept as it stands.
    LoadDelay(u8),
    /// Stores its operand itself in the sound timer, as `LoadDelay` does.
    LoadSound(u8),
    AddI(u8),
    LoadSprite(u8),
    LoadIBCD(u8),
    StoreRegisters(u8),
    LoadRegisters(u8),
}

pub open spec fn is_register(r: u8) -> bool {
    r < 16
}

impl Instruction {
    /// Every register operand names one of the sixteen registers.
    pub open spec fn wf(self) -> bool {
        match self {
            Instruction::SkipEqualsByte(r, _) => is_register(r),
            Instruction::SkipNotEqualsByte(r, _) => is_register(r),
            Instruction::SkipEqualsRegister(a, b) => is_register(a) && is_register(b),
            Instruction::LoadByte(r, _) => is_register(r),
            Instruction::AddByte(r, _) => is_register(r),
            Instruction::LoadRegister(a, b) => is_register(a) && is_register(b),
            Instruction::Or(a, b) => is_register(a) && is_register(b),
            Instruction::And(a, b) => is_register(a) && is_register(b),
            Instruction::Xor(a, b) => is_register(a) && is_register(b),
            Instruction::AddRegister(a, b) => is_register(a) && is_register(b),
            Instruction::Sub(a, b) => is_register(a) && is_register(b),
            Instruction::ShiftRight(a, b) => is_register(a) && is_register(b),
            Instruction::SubN(a, b) => is_register(a) && is_register(b),
            Instruction::ShiftLeft(a, b) => is_register(a) && is_register(b),
            Instruction::SkipNotEqualsRegister(a, b) => is_register(a) && is_register(b),
            Instruction::Random(r, _) => is_register(r),
            Instruction::Draw(a, b, _) => is_register(a) && is_register(b),
            Instruction::SkipKeyPressed(r) => is_register(r),
            Instruction::SkipKeyNotPressed(r) => is_register(r),
            Instruction::LoadFromDelay(r) => is_register(r),
            Instruction::WaitKey(r) => is_register(r),
            Instruction::AddI(r) => is_register(r),
            Instruction::LoadSprite(r) => is_register(r),
            Instruction::StoreRegisters(r) => is_register(r),
            Instruction::LoadRegisters(r) => is_register(r),
            _ => true,
        }
    }
}

} // verus!
