//! Facts about the instruction semantics that hold for every state.
use crate::operation::{opcode_metadata, AddressingMode, Instruction};
use crate::semantics::{
    branch_taken, execute_spec, is_branch, signed_offset, step_spec, uses_address, wrap16, CpuView,
};
use crate::status_reg::{bit_of, pow2_of};
use vstd::prelude::*;

verus! {

/// A load sets Zero exactly when the loaded byte is 0 and Negative exactly
/// when its bit 7 is set, for every byte, in A, X and Y alike.
pub proof fn lemma_load_flags(s: CpuView, ins: Instruction, mode: AddressingMode)
    requires
        ins == Instruction::LDA || ins == Instruction::LDX || ins == Instruction::LDY,
    ensures
        ({
            let v = s.fetched(mode);
            let t = execute_spec(s, ins, mode);
            &&& t.flags.z == (v == 0)
            &&& t.flags.n == bit_of(v, 7)
            &&& ins == Instruction::LDA ==> t.a == v
            &&& ins == Instruction::LDX ==> t.x == v
            &&& ins == Instruction::LDY ==> t.y == v
        }),
{
    reveal(execute_spec);
    reveal_with_fuel(pow2_of, 8);
    let v = s.fetched(mode);
    assert(pow2_of(7) == 128);
    assert(bit_of(v, 7) == (v >= 0x80));
}

/// Pulling right after a push returns the pushed byte and puts the stack
/// pointer back where it was, for every byte and every stack pointer.
pub proof fn lemma_stack_round_trip(s: CpuView, v: u8)
    requires
        s.wf(),
    ensures
        s.push(v).top() == v,
        s.push(v).pull().sp == s.sp,
{
}

/// JSR followed by RTS at its target returns to the instruction after the
/// JSR, three bytes on.
pub proof fn lemma_jsr_rts(s: CpuView)
    requires
        s.wf(),
        s.mem[s.pc as int] == 0x20,
        ({
            let t = step_spec(s)->Ok_0;
            t.mem[t.pc as int] == 0x60
        }),
    ensures
        step_spec(s) is Ok,
        step_spec(step_spec(s)->Ok_0) is Ok,
        step_spec(step_spec(s)->Ok_0)->Ok_0.pc == wrap16(s.pc + 3),
{
    reveal(execute_spec);
}

/// A branch moves the program counter past its two bytes when not taken,
/// and by two plus its signed offset when taken; nothing else changes.
/// With offset -1 it lands one byte past the opcode, with offset 127 it
/// lands 129 bytes past it, modulo the address space.
pub proof fn lemma_branch(s: CpuView)
    requires
        s.wf(),
        opcode_metadata(s.mem[s.pc as int]) is Some,
        is_branch(opcode_metadata(s.mem[s.pc as int])->0.instruction_type),
    ensures
        step_spec(s) is Ok,
        ({
            let ins = opcode_metadata(s.mem[s.pc as int])->0.instruction_type;
            let t = step_spec(s)->Ok_0;
            let offset = s.mem[wrap16(s.pc + 1)];
            &&& t == (CpuView { pc: t.pc, ..s })
            &&& !branch_taken(ins, s.flags) ==> t.pc == wrap16(s.pc + 2)
            &&& branch_taken(ins, s.flags) ==> t.pc == wrap16(s.pc + 2 + signed_offset(offset))
            &&& branch_taken(ins, s.flags) && offset == 0xFF ==> t.pc == wrap16(s.pc + 1)
            &&& branch_taken(ins, s.flags) && offset == 0x7F ==> t.pc == wrap16(s.pc + 129)
        }),
{
    reveal(execute_spec);
}

/// An indirect jump whose pointer is the last byte of a page takes the high
/// byte of its target from the first byte of that same page (the pointer
/// with its low byte cleared), not from the next page.
pub proof fn lemma_indirect_jump_page_wrap(s: CpuView)
    requires
        s.wf(),
        s.mem[s.pc as int] == 0x6c,
        s.absolute() % 0x100 == 0xFF,
    ensures
        step_spec(s) is Ok,
        ({
            let p = s.absolute();
            step_spec(s)->Ok_0.pc == s.mem[p] + 0x100 * s.mem[(p / 0x100) * 0x100]
        }),
{
    reveal(execute_spec);
    let p = s.absolute();
    assert(p - p % 0x100 == (p / 0x100) * 0x100);
}

/// The opcode table pairs every operation that needs an address with a mode
/// that provides one, so a decoded opcode never faults for its mode: a step
/// faults only on an unmapped opcode or on BRK and RTI.
pub proof fn lemma_table_modes_have_addresses(s: CpuView)
    requires
        s.wf(),
    ensures
        step_spec(s) matches Err(f) ==> !(f is UnsupportedAddressingMode),
{
    let opcode = s.mem[s.pc as int];
    if let Some(m) = opcode_metadata(opcode) {
        assert(uses_address(m.instruction_type, m.mode) ==> s.effective_address(m.mode) is Some);
    }
}

} // verus!
