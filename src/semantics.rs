//! The machine as a mathematical object: registers, memory and terminal
//! output, and what one instruction does to them.
use crate::memory::{mmio_output, MEM_SIZE};
use crate::operation::{opcode_metadata, AddressingMode, Instruction, InstructionMetadata};
use crate::status_reg::{bit7, packed, restored, with_nz, StatusFlags};
use vstd::prelude::*;

verus! {

/// First address of the stack page.
pub const STACK_BASE: usize = 0x0100;

/// Address of the low byte of the reset vector; the high byte follows.
pub const RESET_VECTOR: usize = 0xFFFC;

/// The state that instructions read and change.
pub struct CpuView {
    pub a: u8,
    pub x: u8,
    pub y: u8,
    pub pc: u16,
    pub sp: u8,
    pub flags: StatusFlags,
    /// The 64 KiB address space.
    pub mem: Seq<u8>,
    /// Bytes sent to the terminal through the output port, oldest first.
    pub out: Seq<u8>,
}

/// Why the processor stopped.
#[derive(Clone, Copy, Debug, PartialEq, Eq, Structural)]
pub enum Fault {
    /// The opcode has no entry in the opcode table.
    UnimplementedOpcode { opcode: u8 },
    /// The opcode decodes to an operation that has no handler (BRK, RTI).
    UnimplementedInstruction { opcode: u8, instruction: Instruction },
    /// The operation needs an address that its mode cannot provide.
    UnsupportedAddressingMode { opcode: u8, mode: AddressingMode },
}

/// An address taken modulo the 16-bit address space.
pub open spec fn wrap16(v: int) -> int {
    v % 0x10000
}

/// An integer taken modulo 256.
pub open spec fn wrap8(v: int) -> u8 {
    (v % 0x100) as u8
}

/// A byte read as a two's-complement number.
pub open spec fn signed_offset(b: u8) -> int {
    if b >= 0x80 {
        b - 0x100
    } else {
        b as int
    }
}

/// The first address of the page that holds `p`.
pub open spec fn page_start(p: int) -> int {
    p - p % 0x100
}

/// The target of an indirect jump through the pointer `p`. When `p` is the
/// last byte of a page, the high byte comes from the start of that same page.
pub open spec fn indirect_target(mem: Seq<u8>, p: int) -> int {
    let hi = if p % 0x100 == 0xFF {
        mem[page_start(p)]
    } else {
        mem[p + 1]
    };
    mem[p] + 0x100 * hi
}

/// 1 for a set flag, else 0.
pub open spec fn bit_value(b: bool) -> int {
    if b {
        1
    } else {
        0
    }
}

impl CpuView {
    pub open spec fn wf(self) -> bool {
        self.mem.len() == MEM_SIZE
    }

    /// The program counter read from the reset vector.
    pub open spec fn reset_pc(self) -> u16 {
        (self.mem[RESET_VECTOR as int] + 0x100 * self.mem[RESET_VECTOR + 1]) as u16
    }

    /// The byte `k` places after the opcode.
    pub open spec fn operand(self, k: int) -> u8 {
        self.mem[wrap16(self.pc + k)]
    }

    /// The little-endian address held in the two operand bytes.
    pub open spec fn absolute(self) -> int {
        self.operand(1) + 0x100 * self.operand(2)
    }

    /// The effective address of a mode, or `None` for the modes that have none.
    /// Indexed absolute addresses wrap at the top of the address space; zero
    /// page indexed addresses are not folded back into the zero page; the
    /// (zp,X) and (zp),Y forms use operand plus index, modulo 256, directly.
    pub open spec fn effective_address(self, mode: AddressingMode) -> Option<int> {
        match mode {
            AddressingMode::Immediate | AddressingMode::Relative => Some(wrap16(self.pc + 1)),
            AddressingMode::Absolute => Some(self.absolute()),
            AddressingMode::AbsoluteXIndexed => Some(wrap16(self.absolute() + self.x)),
            AddressingMode::AbsoluteYIndexed => Some(wrap16(self.absolute() + self.y)),
            AddressingMode::ZeroPage => Some(self.operand(1) as int),
            AddressingMode::ZeroPageX => Some(self.operand(1) + self.x),
            AddressingMode::ZeroPageY => Some(self.operand(1) + self.y),
            AddressingMode::ZeroPageIndirectIndexedX => Some(wrap8(self.operand(1) + self.x) as int),
            AddressingMode::ZeroPageIndirectIndexedY => Some(wrap8(self.operand(1) + self.y) as int),
            AddressingMode::AbsoluteIndirect => Some(indirect_target(self.mem, self.absolute())),
            _ => None,
        }
    }

    /// The address an instruction in `mode` works on.
    pub open spec fn ea(self, mode: AddressingMode) -> int {
        self.effective_address(mode)->0
    }

    /// The byte an instruction in `mode` reads.
    pub open spec fn fetched(self, mode: AddressingMode) -> u8 {
        self.mem[self.ea(mode)]
    }

    /// Stores a byte; a store to the output port also sends its bytes.
    pub open spec fn write(self, addr: int, v: u8) -> CpuView {
        CpuView { mem: self.mem.update(addr, v), out: self.out + mmio_output(addr, v), ..self }
    }

    /// Pushes a byte: stores it at the stack pointer, then moves the pointer down.
    pub open spec fn push(self, v: u8) -> CpuView {
        CpuView { sp: wrap8(self.sp - 1), ..self.write(STACK_BASE + self.sp, v) }
    }

    /// The byte that a pull returns.
    pub open spec fn top(self) -> u8 {
        self.mem[STACK_BASE + wrap8(self.sp + 1)]
    }

    /// The state after a pull: the pointer moves up.
    pub open spec fn pull(self) -> CpuView {
        CpuView { sp: wrap8(self.sp + 1), ..self }
    }

    pub open spec fn with_flags(self, flags: StatusFlags) -> CpuView {
        CpuView { flags, ..self }
    }

    /// Loads `v` into A and sets Zero and Negative from it.
    pub open spec fn load_a(self, v: u8) -> CpuView {
        CpuView { a: v, flags: with_nz(self.flags, v), ..self }
    }

    pub open spec fn load_x(self, v: u8) -> CpuView {
        CpuView { x: v, flags: with_nz(self.flags, v), ..self }
    }

    pub open spec fn load_y(self, v: u8) -> CpuView {
        CpuView { y: v, flags: with_nz(self.flags, v), ..self }
    }

    /// Stores `v` at the address of `mode`, setting Zero and Negative from it.
    pub open spec fn store_nz(self, mode: AddressingMode, v: u8) -> CpuView {
        self.write(self.ea(mode), v).with_flags(with_nz(self.flags, v))
    }

    pub open spec fn jump(self, target: int) -> CpuView {
        CpuView { pc: target as u16, ..self }
    }
}

/// ADC: A + M + Carry into A, with the carry out and the two's-complement
/// overflow.
pub open spec fn adc_spec(s: CpuView, m: u8) -> CpuView {
    let sum = s.a + m + bit_value(s.flags.c);
    let r = wrap8(sum);
    CpuView {
        a: r,
        flags: StatusFlags {
            c: sum > 0xFF,
            v: bit7(s.a) == bit7(m) && bit7(r) != bit7(s.a),
            ..with_nz(s.flags, r)
        },
        ..s
    }
}

/// SBC: A - M - (1 - Carry) into A; Carry is set when no borrow occurred.
pub open spec fn sbc_spec(s: CpuView, m: u8) -> CpuView {
    let diff = s.a - m - (1 - bit_value(s.flags.c));
    let r = wrap8(diff);
    CpuView {
        a: r,
        flags: StatusFlags {
            c: diff >= 0,
            v: bit7(s.a) != bit7(m) && bit7(r) != bit7(s.a),
            ..with_nz(s.flags, r)
        },
        ..s
    }
}

/// CMP, CPX, CPY: the flags of `reg - m`.
pub open spec fn compare_spec(f: StatusFlags, reg: u8, m: u8) -> StatusFlags {
    StatusFlags { c: reg >= m, z: reg == m, n: bit7(wrap8(reg - m)), ..f }
}

/// BIT: Zero from A AND M, Negative and Overflow from bits 7 and 6 of M.
pub open spec fn bit_test_spec(f: StatusFlags, a: u8, m: u8) -> StatusFlags {
    StatusFlags { z: a & m == 0, n: bit7(m), v: (m as int / 0x40) % 2 == 1, ..f }
}

/// A branch: two bytes on when not taken, else that plus the signed offset.
pub open spec fn branch_spec(s: CpuView, taken: bool) -> CpuView {
    let next = s.pc + 2;
    let target = if taken {
        wrap16(next + signed_offset(s.operand(1)))
    } else {
        wrap16(next)
    };
    s.jump(target)
}

/// The result and carry out of a shift or rotate of `v`, with carry in `c`:
/// the bit shifted out becomes the carry, and a rotate shifts the old carry in.
pub open spec fn shift_spec(ins: Instruction, v: u8, c: bool) -> (u8, bool) {
    let carry_in: u8 = if c {
        1
    } else {
        0
    };
    match ins {
        Instruction::ASL => (v << 1u8, bit7(v)),
        Instruction::LSR => (v >> 1u8, v & 1 == 1),
        Instruction::ROL => ((v << 1u8) | carry_in, bit7(v)),
        _ => ((v >> 1u8) | (carry_in << 7u8), v & 1 == 1),
    }
}

/// Whether a branch instruction is taken under the flags `f`.
pub open spec fn branch_taken(ins: Instruction, f: StatusFlags) -> bool {
    match ins {
        Instruction::BEQ => f.z,
        Instruction::BNE => !f.z,
        Instruction::BCS => f.c,
        Instruction::BCC => !f.c,
        Instruction::BMI => f.n,
        Instruction::BPL => !f.n,
        Instruction::BVS => f.v,
        _ => !f.v,
    }
}

/// Whether an instruction is one of the eight conditional branches.
pub open spec fn is_branch(ins: Instruction) -> bool {
    matches!(ins, Instruction::BEQ | Instruction::BNE | Instruction::BCS | Instruction::BCC
        | Instruction::BMI | Instruction::BPL | Instruction::BVS | Instruction::BVC)
}

/// A shift or rotate, of A in accumulator mode and of memory otherwise.
pub open spec fn shift_op_spec(s: CpuView, ins: Instruction, mode: AddressingMode) -> CpuView {
    if mode == AddressingMode::Accumulator {
        let (r, c) = shift_spec(ins, s.a, s.flags.c);
        CpuView { a: r, flags: StatusFlags { c, ..with_nz(s.flags, r) }, ..s }
    } else {
        let (r, c) = shift_spec(ins, s.fetched(mode), s.flags.c);
        s.write(s.ea(mode), r).with_flags(StatusFlags { c, ..with_nz(s.flags, r) })
    }
}

/// JSR: pushes the address of the next instruction, high byte first, and
/// jumps.
pub open spec fn jsr_spec(s: CpuView, mode: AddressingMode) -> CpuView {
    let ret = wrap16(s.pc + 3);
    s.push((ret / 0x100) as u8).push((ret % 0x100) as u8).jump(s.ea(mode))
}

/// RTS: pulls the low byte, then the high byte, into the program counter.
pub open spec fn rts_spec(s: CpuView) -> CpuView {
    let lo = s.top();
    let s1 = s.pull();
    let hi = s1.top();
    s1.pull().jump(lo + 0x100 * hi)
}

/// What an instruction does, before the program counter moves past it.
#[verifier::opaque]
pub open spec fn execute_spec(s: CpuView, ins: Instruction, mode: AddressingMode) -> CpuView {
    match ins {
        Instruction::ADC => adc_spec(s, s.fetched(mode)),
        Instruction::SBC => sbc_spec(s, s.fetched(mode)),
        Instruction::AND => s.load_a(s.a & s.fetched(mode)),
        Instruction::ORA => s.load_a(s.a | s.fetched(mode)),
        Instruction::EOR => s.load_a(s.a ^ s.fetched(mode)),
        Instruction::BIT => s.with_flags(bit_test_spec(s.flags, s.a, s.fetched(mode))),
        Instruction::CMP => s.with_flags(compare_spec(s.flags, s.a, s.fetched(mode))),
        Instruction::CPX => s.with_flags(compare_spec(s.flags, s.x, s.fetched(mode))),
        Instruction::CPY => s.with_flags(compare_spec(s.flags, s.y, s.fetched(mode))),
        Instruction::LDA => s.load_a(s.fetched(mode)),
        Instruction::LDX => s.load_x(s.fetched(mode)),
        Instruction::LDY => s.load_y(s.fetched(mode)),
        Instruction::STA => s.write(s.ea(mode), s.a),
        Instruction::STX => s.write(s.ea(mode), s.x),
        Instruction::STY => s.write(s.ea(mode), s.y),
        Instruction::INC => s.store_nz(mode, wrap8(s.fetched(mode) + 1)),
        Instruction::DEC => s.store_nz(mode, wrap8(s.fetched(mode) - 1)),
        Instruction::INX => s.load_x(wrap8(s.x + 1)),
        Instruction::INY => s.load_y(wrap8(s.y + 1)),
        Instruction::DEX => s.load_x(wrap8(s.x - 1)),
        Instruction::DEY => s.load_y(wrap8(s.y - 1)),
        Instruction::TAX => s.load_x(s.a),
        Instruction::TAY => s.load_y(s.a),
        Instruction::TXA => s.load_a(s.x),
        Instruction::TYA => s.load_a(s.y),
        Instruction::TSX => s.load_x(s.sp),
        Instruction::TXS => CpuView { sp: s.x, ..s },
        Instruction::PHA => s.push(s.a),
        Instruction::PHP => s.push(packed(s.flags) as u8),
        Instruction::PLA => s.pull().load_a(s.top()),
        Instruction::PLP => s.pull().with_flags(restored(s.flags, s.top())),
        Instruction::ASL | Instruction::LSR | Instruction::ROL | Instruction::ROR => shift_op_spec(
            s,
            ins,
            mode,
        ),
        Instruction::JMP => s.jump(s.ea(mode)),
        Instruction::JSR => jsr_spec(s, mode),
        Instruction::RTS => rts_spec(s),
        Instruction::BEQ | Instruction::BNE | Instruction::BCS | Instruction::BCC
        | Instruction::BMI | Instruction::BPL | Instruction::BVS | Instruction::BVC => branch_spec(
            s,
            branch_taken(ins, s.flags),
        ),
        Instruction::CLC => s.with_flags(StatusFlags { c: false, ..s.flags }),
        Instruction::SEC => s.with_flags(StatusFlags { c: true, ..s.flags }),
        Instruction::CLD => s.with_flags(StatusFlags { d: false, ..s.flags }),
        Instruction::SED => s.with_flags(StatusFlags { d: true, ..s.flags }),
        Instruction::CLI => s.with_flags(StatusFlags { i: false, ..s.flags }),
        Instruction::SEI => s.with_flags(StatusFlags { i: true, ..s.flags }),
        Instruction::CLV => s.with_flags(StatusFlags { v: false, ..s.flags }),
        _ => s,
    }
}

/// Whether an instruction sets the program counter itself.
pub open spec fn sets_pc(ins: Instruction) -> bool {
    match ins {
        Instruction::JMP | Instruction::JSR | Instruction::RTS | Instruction::BEQ | Instruction::BNE
        | Instruction::BCS | Instruction::BCC | Instruction::BMI | Instruction::BPL
        | Instruction::BVS | Instruction::BVC => true,
        _ => false,
    }
}

/// Whether an instruction has a handler.
pub open spec fn implemented(ins: Instruction) -> bool {
    ins != Instruction::BRK && ins != Instruction::RTI
}

/// Whether an instruction in a mode works on an effective address.
pub open spec fn uses_address(ins: Instruction, mode: AddressingMode) -> bool {
    match ins {
        Instruction::ADC | Instruction::SBC | Instruction::AND | Instruction::ORA
        | Instruction::EOR | Instruction::BIT | Instruction::CMP | Instruction::CPX
        | Instruction::CPY | Instruction::LDA | Instruction::LDX | Instruction::LDY
        | Instruction::STA | Instruction::STX | Instruction::STY | Instruction::INC
        | Instruction::DEC | Instruction::JMP | Instruction::JSR | Instruction::BEQ
        | Instruction::BNE | Instruction::BCS | Instruction::BCC | Instruction::BMI
        | Instruction::BPL | Instruction::BVS | Instruction::BVC => true,
        Instruction::ASL | Instruction::LSR | Instruction::ROL | Instruction::ROR => mode
            != AddressingMode::Accumulator,
        _ => false,
    }
}

/// The state after an instruction, with the program counter moved past it
/// unless the instruction set it.
pub open spec fn complete_spec(s: CpuView, meta: InstructionMetadata) -> CpuView {
    let t = execute_spec(s, meta.instruction_type, meta.mode);
    if sets_pc(meta.instruction_type) {
        t
    } else {
        t.jump(wrap16(t.pc + meta.instruction_byte_length))
    }
}

/// One fetch-decode-execute cycle.
pub open spec fn step_spec(s: CpuView) -> Result<CpuView, Fault> {
    let opcode = s.mem[s.pc as int];
    match opcode_metadata(opcode) {
        None => Err(Fault::UnimplementedOpcode { opcode }),
        Some(meta) => if !implemented(meta.instruction_type) {
            Err(Fault::UnimplementedInstruction { opcode, instruction: meta.instruction_type })
        } else if uses_address(meta.instruction_type, meta.mode) && s.effective_address(
            meta.mode,
        ) is None {
            Err(Fault::UnsupportedAddressingMode { opcode, mode: meta.mode })
        } else {
            Ok(complete_spec(s, meta))
        },
    }
}

} // verus!
