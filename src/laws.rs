use vstd::prelude::*;

use crate::decoder::decode_opcode;
use crate::instruction::Instruction;
use crate::machine::{
    execute_spec, initial_state, loaded_memory, opcode_at, step_spec, Fault, MachineState,
};

verus! {

/// Loading a program into a fresh machine puts its bytes, unchanged, at the
/// load offset and leaves every other byte of memory zero.
pub proof fn lemma_load_fresh(bytes: Seq<u8>)
    requires
        bytes.len() <= 3584,
    ensures
        loaded_memory(initial_state().mem, bytes).len() == 4096,
        forall|a: int|
            0 <= a < 4096 ==> #[trigger] loaded_memory(initial_state().mem, bytes)[a] == if 512
                <= a < 512 + bytes.len() {
                bytes[a - 512]
            } else {
                0u8
            },
{
}

/// Loading an empty program into a fresh machine leaves all of memory zero.
pub proof fn lemma_load_empty()
    ensures
        loaded_memory(initial_state().mem, Seq::empty()) == initial_state().mem,
{
    assert(loaded_memory(initial_state().mem, Seq::empty()) =~= initial_state().mem);
}

/// A call pushes the program counter and jumps; a return right after it
/// comes back to that program counter and stack depth.
pub proof fn lemma_call_then_return(s: MachineState, address: u16, b1: u8, b2: u8)
    requires
        s.wf(),
        s.sp < 15,
    ensures
        ({
            let (t, r1) = execute_spec(s, Instruction::Call(address), b1);
            let (u, r2) = execute_spec(t, Instruction::Return, b2);
            &&& r1 is Ok
            &&& t.pc == address
            &&& t.sp == s.sp + 1
            &&& t.stack[t.sp as int] == s.pc
            &&& r2 is Ok
            &&& u.pc == s.pc
            &&& u.sp == s.sp
        }),
{
}

/// A jump to the last address succeeds, and the cycle after it faults,
/// since no whole opcode can be fetched from there.
pub proof fn lemma_jump_to_last_address(s: MachineState, b1: u8, b2: u8)
    requires
        s.wf(),
        s.pc <= 4094,
        opcode_at(s) == 0x1FFF,
    ensures
        ({
            let (t, r1) = step_spec(s, b1);
            &&& r1 is Ok
            &&& t.pc == 4095
            &&& step_spec(t, b2) == (t, Err::<(), Fault>(Fault::PcOutOfBounds(4095)))
        }),
{
    reveal(step_spec);
    assert(decode_opcode(0x1FFF) == Some(Instruction::Jump(4095)));
}

} // verus!
