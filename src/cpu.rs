//! The processor: registers, addressing, the operation handlers and the
//! fetch-decode-execute cycle.
use crate::memory::{Mem, CHRIN, MEM_SIZE};
use crate::operation::{get_opcode_metadata, AddressingMode, Instruction, InstructionMetadata};
use crate::semantics::{
    branch_spec, compare_spec, execute_spec, implemented, indirect_target, is_branch, page_start,
    sets_pc, shift_spec, step_spec, uses_address, wrap8, CpuView, Fault, RESET_VECTOR, STACK_BASE,
};
use crate::status_reg::{lemma_masks, power_on_flags, Flag, StatusFlags};
use vstd::prelude::*;

verus! {

/// The options the emulator was started with.
pub struct Args {
    /// The binary image to run.
    pub binary_file: String,
    /// Print every memory row, zero or not.
    pub print_all_mem: bool,
    /// Print the final state on exit.
    pub dump_state_exit: bool,
    /// Wait for a key before each instruction.
    pub step_debug: bool,
    /// Print no registers or memory.
    pub no_print: bool,
    /// Report the instruction rate now and then.
    pub instrumentation: bool,
    /// Poll the keyboard and feed keys to the input port.
    pub keyboard: bool,
}

/// A key delivered by the input source.
#[derive(Clone, Copy, Debug, PartialEq, Eq, Structural)]
pub enum Key {
    Backspace,
    Enter,
    Char(char),
    Other,
}

/// A key press, and whether Control (and no other modifier) was held.
#[derive(Clone, Copy, Debug, PartialEq, Eq, Structural)]
pub struct KeyPress {
    pub key: Key,
    pub control: bool,
}

/// The byte a key stores in the input port, if any.
pub open spec fn key_byte(key: Key) -> Option<u8> {
    match key {
        Key::Backspace => Some(0x08u8),
        Key::Enter => Some(0x0du8),
        Key::Char(c) => Some(((c as u32) % 0x100) as u8),
        Key::Other => None,
    }
}

/// Whether a key press asks the emulator to stop (Control-C).
pub open spec fn is_interrupt(press: KeyPress) -> bool {
    press.key == Key::Char('c') && press.control
}

/// The state after the input poll hands a key to the input port.
pub open spec fn key_input(s: CpuView, press: KeyPress) -> CpuView {
    match key_byte(press.key) {
        Some(b) => s.write(CHRIN as int, b),
        None => s,
    }
}

/// One turn of the run loop: the key the poll found, if any, goes to the
/// input port; Control-C stops the loop before the next instruction
/// (`Ok(false)`); otherwise one instruction runs (`Ok(true)`), or faults.
pub open spec fn cycle_spec(s: CpuView, input: Option<KeyPress>) -> Result<(CpuView, bool), Fault> {
    let polled = match input {
        Some(press) => key_input(s, press),
        None => s,
    };
    if input matches Some(press) && is_interrupt(press) {
        Ok((polled, false))
    } else {
        match step_spec(polled) {
            Ok(next) => Ok((next, true)),
            Err(fault) => Err(fault),
        }
    }
}

/// Which index register an addressing mode adds.
enum Index {
    X,
    Y,
}

/// The processor: registers, memory, the options it was started with, and
/// the output it has produced.
pub struct Cpu6502 {
    pub memory: Mem,
    pub accumulator: u8,
    pub x_index: u8,
    pub y_index: u8,
    pub program_counter: u16,
    pub stack_pointer: u8,
    pub status_flags: StatusFlags,
    pub cmdline_args: Args,
    /// Bytes sent to the output port and not yet taken by the terminal.
    pub output: Vec<u8>,
}

impl View for Cpu6502 {
    type V = CpuView;

    open spec fn view(&self) -> CpuView {
        CpuView {
            a: self.accumulator,
            x: self.x_index,
            y: self.y_index,
            pc: self.program_counter,
            sp: self.stack_pointer,
            flags: self.status_flags,
            mem: self.memory@,
            out: self.output@,
        }
    }
}

/// A processor at power-on: registers zero, stack pointer 0xFF, only the
/// unused flag set, memory zeroed.
pub fn init_cpu6502(args: Args) -> (cpu: Cpu6502)
    ensures
        cpu@.wf(),
        cpu@.a == 0 && cpu@.x == 0 && cpu@.y == 0 && cpu@.pc == 0,
        cpu@.sp == 0xFF,
        cpu@.flags == power_on_flags(),
        forall|i: int| 0 <= i < MEM_SIZE ==> #[trigger] cpu@.mem[i] == 0,
        cpu@.out.len() == 0,
        cpu.cmdline_args == args,
{
    Cpu6502 {
        memory: Mem::init_mem(),
        accumulator: 0,
        x_index: 0,
        y_index: 0,
        program_counter: 0,
        stack_pointer: 0xFF,
        status_flags: StatusFlags::new(),
        cmdline_args: args,
        output: Vec::new(),
    }
}

/// The value of a packed BCD byte: `None` when either nibble is over 9.
pub open spec fn bcd_value(byte: u8) -> Option<u8> {
    let hi = byte / 16;
    let lo = byte % 16;
    if hi > 9 || lo > 9 {
        None
    } else {
        Some((hi * 10 + lo) as u8)
    }
}

pub fn bcd_to_u8(byte: u8) -> (r: Option<u8>)
    ensures
        r == bcd_value(byte),
{
    let low_nibble = byte & 0xF;
    let high_nibble = (byte >> 4) & 0xF;
    assert(low_nibble == byte % 16 && high_nibble == byte / 16) by (bit_vector)
        requires
            low_nibble == byte & 0xF,
            high_nibble == (byte >> 4) & 0xF,
    ;
    if low_nibble > 9 || high_nibble > 9 {
        None
    } else {
        Some(high_nibble * 10 + low_nibble)
    }
}

/// Whether an instruction in a mode works on an effective address.
fn needs_address(ins: Instruction, mode: AddressingMode) -> (r: bool)
    ensures
        r == uses_address(ins, mode),
{
    match ins {
        Instruction::ADC | Instruction::SBC | Instruction::AND | Instruction::ORA
        | Instruction::EOR | Instruction::BIT | Instruction::CMP | Instruction::CPX
        | Instruction::CPY | Instruction::LDA | Instruction::LDX | Instruction::LDY
        | Instruction::STA | Instruction::STX | Instruction::STY | Instruction::INC
        | Instruction::DEC | Instruction::JMP | Instruction::JSR | Instruction::BEQ
        | Instruction::BNE | Instruction::BCS | Instruction::BCC | Instruction::BMI
        | Instruction::BPL | Instruction::BVS | Instruction::BVC => true,
        Instruction::ASL | Instruction::LSR | Instruction::ROL | Instruction::ROR => {
            match mode {
                AddressingMode::Accumulator => false,
                _ => true,
            }
        },
        _ => false,
    }
}

/// Whether an instruction sets the program counter itself.
fn sets_program_counter(ins: Instruction) -> (r: bool)
    ensures
        r == sets_pc(ins),
{
    match ins {
        Instruction::JMP | Instruction::JSR | Instruction::RTS | Instruction::BEQ
        | Instruction::BNE | Instruction::BCS | Instruction::BCC | Instruction::BMI
        | Instruction::BPL | Instruction::BVS | Instruction::BVC => true,
        _ => false,
    }
}

/// Low byte and page start of an address, by mask and by arithmetic.
proof fn lemma_page_masks(p: usize)
    requires
        p < MEM_SIZE,
    ensures
        p & 0xFF == p % 0x100,
        p & 0xFF00 == page_start(p as int),
{
    assert(p & 0xFF == p % 0x100 && p & 0xFF00 == p - p % 0x100) by (bit_vector)
        requires
            p < 0x10000,
    ;
}

impl Cpu6502 {
    /// `next` is this processor with its machine state replaced by `v` and
    /// its options kept.
    pub open spec fn updated(self, next: Cpu6502, v: CpuView) -> bool {
        next@ == v && next.cmdline_args == self.cmdline_args
    }

    /// Drains the bytes sent to the output port since the last call.
    pub fn take_output(&mut self) -> (r: Vec<u8>)
        ensures
            r@ == old(self)@.out,
            final(self)@ == (CpuView { out: Seq::empty(), ..old(self)@ }),
            final(self).cmdline_args == old(self).cmdline_args,
    {
        let mut r: Vec<u8> = Vec::new();
        std::mem::swap(&mut r, &mut self.output);
        r
    }

    /// Loads a binary image at address 0.
    pub fn load_image(&mut self, image: Vec<u8>)
        requires
            old(self)@.wf(),
        ensures
            final(self)@.wf(),
            forall|i: int|
                0 <= i < MEM_SIZE ==> #[trigger] final(self)@.mem[i] == if i < image@.len() {
                    image@[i]
                } else {
                    old(self)@.mem[i]
                },
            final(self)@ == (CpuView { mem: final(self)@.mem, ..old(self)@ }),
            final(self).cmdline_args == old(self).cmdline_args,
    {
        self.memory.set_all(image);
    }

    /// Sets the program counter from the reset vector.
    pub fn reset(&mut self)
        requires
            old(self)@.wf(),
        ensures
            old(self).updated(*final(self), old(self)@.jump(old(self)@.reset_pc() as int)),
    {
        let lo = self.memory.get_byte(RESET_VECTOR) as u16;
        let hi = self.memory.get_byte(RESET_VECTOR + 1) as u16;
        self.program_counter = hi * 0x100 + lo;
    }

    /// The opcode at the program counter.
    fn get_next_byte(&self) -> (r: u8)
        requires
            self@.wf(),
        ensures
            r == self@.mem[self@.pc as int],
    {
        *self.memory.get(self.program_counter as usize).unwrap()
    }

    /// The byte `k` places after the opcode.
    fn operand(&self, k: u16) -> (r: u8)
        requires
            self@.wf(),
        ensures
            r == self@.operand(k as int),
    {
        self.memory.get_byte(self.program_counter.wrapping_add(k) as usize)
    }

    fn get_abs_addr(&self) -> (r: usize)
        requires
            self@.wf(),
        ensures
            r == self@.absolute(),
            r < MEM_SIZE,
    {
        let ll = self.operand(1) as usize;
        let hh = self.operand(2) as usize;
        hh * 0x100 + ll
    }

    fn get_zpg_addr(&self, index: Option<Index>) -> (r: usize)
        requires
            self@.wf(),
        ensures
            r == self@.operand(1) + match index {
                Some(Index::X) => self@.x as int,
                Some(Index::Y) => self@.y as int,
                None => 0,
            },
    {
        let operand = self.operand(1) as usize;
        match index {
            Some(Index::X) => self.x_index as usize + operand,
            Some(Index::Y) => self.y_index as usize + operand,
            None => operand,
        }
    }

    fn get_zpg_indirect_addr(&self, index: Index) -> (r: usize)
        requires
            self@.wf(),
        ensures
            r == wrap8(
                self@.operand(1) + match index {
                    Index::X => self@.x,
                    Index::Y => self@.y,
                },
            ),
    {
        let operand = self.operand(1);
        let addr = match index {
            Index::X => operand.wrapping_add(self.x_index),
            Index::Y => operand.wrapping_add(self.y_index),
        };
        addr as usize
    }

    fn get_abs_indirect_addr(&self) -> (r: usize)
        requires
            self@.wf(),
        ensures
            r == indirect_target(self@.mem, self@.absolute()),
            r < MEM_SIZE,
    {
        let mem_addr = self.get_abs_addr();
        proof {
            lemma_page_masks(mem_addr);
        }
        let ll = self.memory.get_byte(mem_addr) as usize;
        let hh = if (mem_addr & 0xFF) == 0xFF {
            self.memory.get_byte(mem_addr & 0xFF00) as usize
        } else {
            self.memory.get_byte(mem_addr + 1) as usize
        };
        hh * 0x100 + ll
    }

    /// The effective address of a mode; `None` for the modes that have none.
    pub fn get_addr(&self, mode: AddressingMode) -> (r: Option<usize>)
        requires
            self@.wf(),
        ensures
            match self@.effective_address(mode) {
                Some(a) => r == Some(a as usize) && a < MEM_SIZE,
                None => r is None,
            },
    {
        match mode {
            AddressingMode::Relative | AddressingMode::Immediate => Some(
                self.program_counter.wrapping_add(1) as usize,
            ),
            AddressingMode::Absolute => Some(self.get_abs_addr()),
            AddressingMode::AbsoluteIndirect => Some(self.get_abs_indirect_addr()),
            AddressingMode::AbsoluteXIndexed => Some(
                (self.get_abs_addr() + self.x_index as usize) % MEM_SIZE,
            ),
            AddressingMode::AbsoluteYIndexed => Some(
                (self.get_abs_addr() + self.y_index as usize) % MEM_SIZE,
            ),
            AddressingMode::ZeroPage => Some(self.get_zpg_addr(None)),
            AddressingMode::ZeroPageX => Some(self.get_zpg_addr(Some(Index::X))),
            AddressingMode::ZeroPageY => Some(self.get_zpg_addr(Some(Index::Y))),
            AddressingMode::ZeroPageIndirectIndexedX => Some(self.get_zpg_indirect_addr(Index::X)),
            AddressingMode::ZeroPageIndirectIndexedY => Some(self.get_zpg_indirect_addr(Index::Y)),
            _ => None,
        }
    }

    /// The effective address of a mode that has one.
    fn address(&self, mode: AddressingMode) -> (r: usize)
        requires
            self@.wf(),
            self@.effective_address(mode) is Some,
        ensures
            r == self@.ea(mode),
            r < MEM_SIZE,
    {
        self.get_addr(mode).unwrap()
    }

    /// Stores a byte; a store to the output port queues its bytes for the
    /// terminal.
    pub fn set_byte_wrap(&mut self, index: usize, val: u8)
        requires
            old(self)@.wf(),
            index < MEM_SIZE,
        ensures
            old(self).updated(*final(self), old(self)@.write(index as int, val)),
    {
        let mut emitted = self.memory.set_byte(index, val);
        self.output.append(&mut emitted);
    }

    /// Feeds a key from the input source to the input port. Returns false
    /// when the key asks the emulator to stop.
    pub fn handle_keyboard(&mut self, press: KeyPress) -> (r: bool)
        requires
            old(self)@.wf(),
        ensures
            old(self).updated(*final(self), key_input(old(self)@, press)),
            r == !is_interrupt(press),
    {
        match press.key {
            Key::Backspace => self.set_byte_wrap(CHRIN, 0x08),
            Key::Enter => self.set_byte_wrap(CHRIN, 0x0d),
            Key::Char(c) => self.set_byte_wrap(CHRIN, ((c as u32) % 0x100) as u8),
            Key::Other => {},
        }
        match press.key {
            Key::Char(c) => !(c == 'c' && press.control),
            _ => true,
        }
    }

    /// Whether the processor can run `ins` in `mode`: memory spans the
    /// address space and the mode yields the address the operation needs.
    pub open spec fn ready(self, ins: Instruction, mode: AddressingMode) -> bool {
        &&& self@.wf()
        &&& uses_address(ins, mode) ==> self@.effective_address(mode) is Some
    }

    /// `next` is this processor after `ins` in `mode`, before the program
    /// counter moves past the instruction.
    pub open spec fn performs(self, next: Cpu6502, ins: Instruction, mode: AddressingMode) -> bool {
        self.updated(next, execute_spec(self@, ins, mode))
    }

    fn push_stack(&mut self, value: u8)
        requires
            old(self)@.wf(),
        ensures
            old(self).updated(*final(self), old(self)@.push(value)),
    {
        let stack_addr = STACK_BASE + self.stack_pointer as usize;
        self.set_byte_wrap(stack_addr, value);
        self.stack_pointer = self.stack_pointer.wrapping_sub(1);
    }

    fn pop_stack(&mut self) -> (r: u8)
        requires
            old(self)@.wf(),
        ensures
            r == old(self)@.top(),
            old(self).updated(*final(self), old(self)@.pull()),
    {
        self.stack_pointer = self.stack_pointer.wrapping_add(1);
        let stack_addr = STACK_BASE + self.stack_pointer as usize;
        self.memory.get_byte(stack_addr)
    }

    fn lda(&mut self, mode: AddressingMode)
        requires
            old(self).ready(Instruction::LDA, mode),
        ensures
            old(self).performs(*final(self), Instruction::LDA, mode),
    {
        proof {
            reveal(execute_spec);
        }
        let addr = self.address(mode);
        let val = self.memory.get_byte(addr);
        self.accumulator = val;
        self.status_flags.set_nz(val);
    }

    fn ldx(&mut self, mode: AddressingMode)
        requires
            old(self).ready(Instruction::LDX, mode),
        ensures
            old(self).performs(*final(self), Instruction::LDX, mode),
    {
        proof {
            reveal(execute_spec);
        }
        let addr = self.address(mode);
        let val = self.memory.get_byte(addr);
        self.x_index = val;
        self.status_flags.set_nz(val);
    }

    fn ldy(&mut self, mode: AddressingMode)
        requires
            old(self).ready(Instruction::LDY, mode),
        ensures
            old(self).performs(*final(self), Instruction::LDY, mode),
    {
        proof {
            reveal(execute_spec);
        }
        let addr = self.address(mode);
        let val = self.memory.get_byte(addr);
        self.y_index = val;
        self.status_flags.set_nz(val);
    }

    /// Stores `val` at the address of `mode` (STA, STX, STY).
    fn store(&mut self, mode: AddressingMode, val: u8)
        requires
            old(self)@.wf(),
            old(self)@.effective_address(mode) is Some,
        ensures
            old(self).updated(*final(self), old(self)@.write(old(self)@.ea(mode), val)),
    {
        let addr = self.address(mode);
        self.set_byte_wrap(addr, val);
    }

    /// CMP, CPX and CPY: compares `reg` with the byte at the address of `mode`.
    fn compare(&mut self, reg: u8, mode: AddressingMode)
        requires
            old(self)@.wf(),
            old(self)@.effective_address(mode) is Some,
        ensures
            old(self).updated(
                *final(self),
                old(self)@.with_flags(compare_spec(old(self)@.flags, reg, old(self)@.fetched(mode))),
            ),
    {
        let addr = self.address(mode);
        let value = self.memory.get_byte(addr);
        let result = reg.wrapping_sub(value);
        self.status_flags.set_flag(Flag::Carry, reg >= value);
        self.status_flags.set_flag(Flag::Zero, reg == value);
        self.status_flags.set_flag(Flag::Negative, result >= 0x80);
    }

    fn cmp(&mut self, mode: AddressingMode)
        requires
            old(self).ready(Instruction::CMP, mode),
        ensures
            old(self).performs(*final(self), Instruction::CMP, mode),
    {
        proof {
            reveal(execute_spec);
        }
        let reg = self.accumulator;
        self.compare(reg, mode);
    }

    fn cpx(&mut self, mode: AddressingMode)
        requires
            old(self).ready(Instruction::CPX, mode),
        ensures
            old(self).performs(*final(self), Instruction::CPX, mode),
    {
        proof {
            reveal(execute_spec);
        }
        let reg = self.x_index;
        self.compare(reg, mode);
    }

    fn cpy(&mut self, mode: AddressingMode)
        requires
            old(self).ready(Instruction::CPY, mode),
        ensures
            old(self).performs(*final(self), Instruction::CPY, mode),
    {
        proof {
            reveal(execute_spec);
        }
        let reg = self.y_index;
        self.compare(reg, mode);
    }

    fn sta(&mut self, mode: AddressingMode)
        requires
            old(self).ready(Instruction::STA, mode),
        ensures
            old(self).performs(*final(self), Instruction::STA, mode),
    {
        proof {
            reveal(execute_spec);
        }
        let reg = self.accumulator;
        self.store(mode, reg);
    }

    fn stx(&mut self, mode: AddressingMode)
        requires
            old(self).ready(Instruction::STX, mode),
        ensures
            old(self).performs(*final(self), Instruction::STX, mode),
    {
        proof {
            reveal(execute_spec);
        }
        let reg = self.x_index;
        self.store(mode, reg);
    }

    fn sty(&mut self, mode: AddressingMode)
        requires
            old(self).ready(Instruction::STY, mode),
        ensures
            old(self).performs(*final(self), Instruction::STY, mode),
    {
        proof {
            reveal(execute_spec);
        }
        let reg = self.y_index;
        self.store(mode, reg);
    }

    fn inc(&mut self, mode: AddressingMode)
        requires
            old(self).ready(Instruction::INC, mode),
        ensures
            old(self).performs(*final(self), Instruction::INC, mode),
    {
        proof {
            reveal(execute_spec);
        }
        let addr = self.address(mode);
        let new_value = self.memory.get_byte(addr).wrapping_add(1);
        self.set_byte_wrap(addr, new_value);
        self.status_flags.set_nz(new_value);
    }

    fn dec(&mut self, mode: AddressingMode)
        requires
            old(self).ready(Instruction::DEC, mode),
        ensures
            old(self).performs(*final(self), Instruction::DEC, mode),
    {
        proof {
            reveal(execute_spec);
        }
        let addr = self.address(mode);
        let mut emitted = self.memory.decrement_mem(addr);
        self.output.append(&mut emitted);
        let new_value = self.memory.get_byte(addr);
        self.status_flags.set_nz(new_value);
    }

    fn jsr(&mut self, mode: AddressingMode)
        requires
            old(self).ready(Instruction::JSR, mode),
        ensures
            old(self).performs(*final(self), Instruction::JSR, mode),
    {
        proof {
            reveal(execute_spec);
        }
        let addr = self.address(mode);
        let return_addr = self.program_counter.wrapping_add(3);
        self.push_stack((return_addr / 0x100) as u8);
        self.push_stack((return_addr % 0x100) as u8);
        self.program_counter = addr as u16;
    }

    fn rts(&mut self)
        requires
            old(self)@.wf(),
        ensures
            old(self).performs(*final(self), Instruction::RTS, AddressingMode::Implied),
    {
        proof {
            reveal(execute_spec);
        }
        let low_byte = self.pop_stack();
        let high_byte = self.pop_stack();
        self.program_counter = high_byte as u16 * 0x100 + low_byte as u16;
    }

    /// A relative branch, taken or not.
    fn branch(&mut self, taken: bool)
        requires
            old(self)@.wf(),
        ensures
            old(self).updated(*final(self), branch_spec(old(self)@, taken)),
    {
        let next = self.program_counter.wrapping_add(2);
        if taken {
            let offset = self.operand(1);
            self.program_counter = if offset >= 0x80 {
                next.wrapping_sub(0x100 - offset as u16)
            } else {
                next.wrapping_add(offset as u16)
            };
        } else {
            self.program_counter = next;
        }
    }

    fn adc(&mut self, mode: AddressingMode)
        requires
            old(self).ready(Instruction::ADC, mode),
        ensures
            old(self).performs(*final(self), Instruction::ADC, mode),
    {
        proof {
            reveal(execute_spec);
        }
        let addr = self.address(mode);
        let mem_val = self.memory.get_byte(addr);
        let a = self.accumulator;
        let carry_add: u16 = if self.status_flags.c {
            1
        } else {
            0
        };
        let sum: u16 = mem_val as u16 + a as u16 + carry_add;
        let result = (sum % 0x100) as u8;
        self.accumulator = result;
        self.status_flags.set_flag(Flag::Carry, sum > 0xFF);
        self.status_flags.set_flag(
            Flag::Overflow,
            (a >= 0x80) == (mem_val >= 0x80) && (result >= 0x80) != (a >= 0x80),
        );
        self.status_flags.set_nz(result);
    }

    fn sbc(&mut self, mode: AddressingMode)
        requires
            old(self).ready(Instruction::SBC, mode),
        ensures
            old(self).performs(*final(self), Instruction::SBC, mode),
    {
        proof {
            reveal(execute_spec);
        }
        let addr = self.address(mode);
        let mem_val = self.memory.get_byte(addr);
        let a = self.accumulator;
        let borrow: i16 = if self.status_flags.c {
            0
        } else {
            1
        };
        let diff: i16 = a as i16 - mem_val as i16 - borrow;
        let result: u8 = if diff < 0 {
            (diff + 0x100) as u8
        } else {
            diff as u8
        };
        self.accumulator = result;
        self.status_flags.set_flag(Flag::Carry, diff >= 0);
        self.status_flags.set_flag(
            Flag::Overflow,
            (a >= 0x80) != (mem_val >= 0x80) && (result >= 0x80) != (a >= 0x80),
        );
        self.status_flags.set_nz(result);
    }

    fn and(&mut self, mode: AddressingMode)
        requires
            old(self).ready(Instruction::AND, mode),
        ensures
            old(self).performs(*final(self), Instruction::AND, mode),
    {
        proof {
            reveal(execute_spec);
        }
        let addr = self.address(mode);
        self.accumulator = self.accumulator & self.memory.get_byte(addr);
        self.status_flags.set_nz(self.accumulator);
    }

    fn ora(&mut self, mode: AddressingMode)
        requires
            old(self).ready(Instruction::ORA, mode),
        ensures
            old(self).performs(*final(self), Instruction::ORA, mode),
    {
        proof {
            reveal(execute_spec);
        }
        let addr = self.address(mode);
        self.accumulator = self.accumulator | self.memory.get_byte(addr);
        self.status_flags.set_nz(self.accumulator);
    }

    fn eor(&mut self, mode: AddressingMode)
        requires
            old(self).ready(Instruction::EOR, mode),
        ensures
            old(self).performs(*final(self), Instruction::EOR, mode),
    {
        proof {
            reveal(execute_spec);
        }
        let addr = self.address(mode);
        self.accumulator = self.accumulator ^ self.memory.get_byte(addr);
        self.status_flags.set_nz(self.accumulator);
    }

    fn bit(&mut self, mode: AddressingMode)
        requires
            old(self).ready(Instruction::BIT, mode),
        ensures
            old(self).performs(*final(self), Instruction::BIT, mode),
    {
        proof {
            reveal(execute_spec);
        }
        let addr = self.address(mode);
        let m = self.memory.get_byte(addr);
        proof {
            lemma_masks(m);
        }
        self.status_flags.set_flag(Flag::Negative, m >= 0x80);
        self.status_flags.set_flag(Flag::Overflow, (m & 0x40) != 0);
        self.status_flags.set_flag(Flag::Zero, (self.accumulator & m) == 0);
    }

    /// ASL, LSR, ROL and ROR, on A in accumulator mode and on memory otherwise.
    fn shift(&mut self, ins: Instruction, mode: AddressingMode)
        requires
            old(self).ready(ins, mode),
            ins == Instruction::ASL || ins == Instruction::LSR || ins == Instruction::ROL || ins
                == Instruction::ROR,
        ensures
            old(self).performs(*final(self), ins, mode),
    {
        proof {
            reveal(execute_spec);
        }
        let carry_in = self.status_flags.c;
        match mode {
            AddressingMode::Accumulator => {
                let (result, carry_out) = shifted(ins, self.accumulator, carry_in);
                self.accumulator = result;
                self.status_flags.set_flag(Flag::Carry, carry_out);
                self.status_flags.set_nz(result);
            },
            _ => {
                let addr = self.address(mode);
                let (result, carry_out) = shifted(ins, self.memory.get_byte(addr), carry_in);
                self.set_byte_wrap(addr, result);
                self.status_flags.set_flag(Flag::Carry, carry_out);
                self.status_flags.set_nz(result);
            },
        }
    }

    fn php(&mut self)
        requires
            old(self)@.wf(),
        ensures
            old(self).performs(*final(self), Instruction::PHP, AddressingMode::Implied),
    {
        proof {
            reveal(execute_spec);
        }
        let reg = self.status_flags.as_u8();
        self.push_stack(reg);
    }

    fn plp(&mut self)
        requires
            old(self)@.wf(),
        ensures
            old(self).performs(*final(self), Instruction::PLP, AddressingMode::Implied),
    {
        proof {
            reveal(execute_spec);
        }
        let new_status = self.pop_stack();
        self.status_flags.restore_from(new_status);
    }

    fn pla(&mut self)
        requires
            old(self)@.wf(),
        ensures
            old(self).performs(*final(self), Instruction::PLA, AddressingMode::Implied),
    {
        proof {
            reveal(execute_spec);
        }
        self.accumulator = self.pop_stack();
        self.status_flags.set_nz(self.accumulator);
    }
    fn inx(&mut self)
        requires
            old(self)@.wf(),
        ensures
            old(self).performs(*final(self), Instruction::INX, AddressingMode::Implied),
    {
        proof {
            reveal(execute_spec);
        }
        self.x_index = self.x_index.wrapping_add(1);
        self.status_flags.set_nz(self.x_index);
    }

    fn iny(&mut self)
        requires
            old(self)@.wf(),
        ensures
            old(self).performs(*final(self), Instruction::INY, AddressingMode::Implied),
    {
        proof {
            reveal(execute_spec);
        }
        self.y_index = self.y_index.wrapping_add(1);
        self.status_flags.set_nz(self.y_index);
    }

    fn dex(&mut self)
        requires
            old(self)@.wf(),
        ensures
            old(self).performs(*final(self), Instruction::DEX, AddressingMode::Implied),
    {
        proof {
            reveal(execute_spec);
        }
        self.x_index = self.x_index.wrapping_sub(1);
        self.status_flags.set_nz(self.x_index);
    }

    fn dey(&mut self)
        requires
            old(self)@.wf(),
        ensures
            old(self).performs(*final(self), Instruction::DEY, AddressingMode::Implied),
    {
        proof {
            reveal(execute_spec);
        }
        self.y_index = self.y_index.wrapping_sub(1);
        self.status_flags.set_nz(self.y_index);
    }

    fn tax(&mut self)
        requires
            old(self)@.wf(),
        ensures
            old(self).performs(*final(self), Instruction::TAX, AddressingMode::Implied),
    {
        proof {
            reveal(execute_spec);
        }
        self.x_index = self.accumulator;
        self.status_flags.set_nz(self.x_index);
    }

    fn tay(&mut self)
        requires
            old(self)@.wf(),
        ensures
            old(self).performs(*final(self), Instruction::TAY, AddressingMode::Implied),
    {
        proof {
            reveal(execute_spec);
        }
        self.y_index = self.accumulator;
        self.status_flags.set_nz(self.y_index);
    }

    fn txa(&mut self)
        requires
            old(self)@.wf(),
        ensures
            old(self).performs(*final(self), Instruction::TXA, AddressingMode::Implied),
    {
        proof {
            reveal(execute_spec);
        }
        self.accumulator = self.x_index;
        self.status_flags.set_nz(self.accumulator);
    }

    fn tya(&mut self)
        requires
            old(self)@.wf(),
        ensures
            old(self).performs(*final(self), Instruction::TYA, AddressingMode::Implied),
    {
        proof {
            reveal(execute_spec);
        }
        self.accumulator = self.y_index;
        self.status_flags.set_nz(self.accumulator);
    }

    fn tsx(&mut self)
        requires
            old(self)@.wf(),
        ensures
            old(self).performs(*final(self), Instruction::TSX, AddressingMode::Implied),
    {
        proof {
            reveal(execute_spec);
        }
        self.x_index = self.stack_pointer;
        self.status_flags.set_nz(self.x_index);
    }

    fn txs(&mut self)
        requires
            old(self)@.wf(),
        ensures
            old(self).performs(*final(self), Instruction::TXS, AddressingMode::Implied),
    {
        proof {
            reveal(execute_spec);
        }
        self.stack_pointer = self.x_index;
    }

    fn pha(&mut self)
        requires
            old(self)@.wf(),
        ensures
            old(self).performs(*final(self), Instruction::PHA, AddressingMode::Implied),
    {
        proof {
            reveal(execute_spec);
        }
        let a = self.accumulator;
        self.push_stack(a);
    }

    fn jmp(&mut self, mode: AddressingMode)
        requires
            old(self).ready(Instruction::JMP, mode),
        ensures
            old(self).performs(*final(self), Instruction::JMP, mode),
    {
        proof {
            reveal(execute_spec);
        }
        let addr = self.address(mode);
        self.program_counter = addr as u16;
    }

    /// The eight conditional branches.
    fn branch_on_flag(&mut self, ins: Instruction)
        requires
            old(self)@.wf(),
            is_branch(ins),
        ensures
            old(self).performs(*final(self), ins, AddressingMode::Relative),
    {
        proof {
            reveal(execute_spec);
        }
        let f = self.status_flags;
        let taken = match ins {
            Instruction::BEQ => f.z,
            Instruction::BNE => !f.z,
            Instruction::BCS => f.c,
            Instruction::BCC => !f.c,
            Instruction::BMI => f.n,
            Instruction::BPL => !f.n,
            Instruction::BVS => f.v,
            _ => !f.v,
        };
        self.branch(taken);
    }

    /// The instructions that set or clear one flag.
    fn flag_op(&mut self, ins: Instruction)
        requires
            old(self)@.wf(),
            ins == Instruction::CLC || ins == Instruction::SEC || ins == Instruction::CLD || ins
                == Instruction::SED || ins == Instruction::CLI || ins == Instruction::SEI || ins
                == Instruction::CLV,
        ensures
            old(self).performs(*final(self), ins, AddressingMode::Implied),
    {
        proof {
            reveal(execute_spec);
        }
        match ins {
            Instruction::CLC => self.status_flags.set_flag(Flag::Carry, false),
            Instruction::SEC => self.status_flags.set_flag(Flag::Carry, true),
            Instruction::CLD => self.status_flags.set_flag(Flag::DecimalMode, false),
            Instruction::SED => self.status_flags.set_flag(Flag::DecimalMode, true),
            Instruction::CLI => self.status_flags.set_flag(Flag::Interrupt, false),
            Instruction::SEI => self.status_flags.set_flag(Flag::Interrupt, true),
            _ => self.status_flags.set_flag(Flag::Overflow, false),
        }
    }

    /// The operations without an operand.
    fn execute_implied(&mut self, ins: Instruction)
        requires
            old(self)@.wf(),
            matches!(ins, Instruction::INX | Instruction::INY | Instruction::DEX | Instruction::DEY
                | Instruction::TAX | Instruction::TAY | Instruction::TXA | Instruction::TYA
                | Instruction::TSX | Instruction::TXS | Instruction::PHA | Instruction::PHP
                | Instruction::PLA | Instruction::PLP | Instruction::RTS | Instruction::NOP),
        ensures
            old(self).performs(*final(self), ins, AddressingMode::Implied),
    {
        match ins {
            Instruction::INX => self.inx(),
            Instruction::INY => self.iny(),
            Instruction::DEX => self.dex(),
            Instruction::DEY => self.dey(),
            Instruction::TAX => self.tax(),
            Instruction::TAY => self.tay(),
            Instruction::TXA => self.txa(),
            Instruction::TYA => self.tya(),
            Instruction::TSX => self.tsx(),
            Instruction::TXS => self.txs(),
            Instruction::PHA => self.pha(),
            Instruction::PHP => self.php(),
            Instruction::PLA => self.pla(),
            Instruction::PLP => self.plp(),
            Instruction::RTS => self.rts(),
            _ => {
                proof {
                    reveal(execute_spec);
                }
            },
        }
    }

    /// The operations that work on an effective address.
    fn execute_addressed(&mut self, ins: Instruction, mode: AddressingMode)
        requires
            old(self).ready(ins, mode),
            matches!(ins, Instruction::ADC | Instruction::SBC | Instruction::AND | Instruction::ORA
                | Instruction::EOR | Instruction::BIT | Instruction::CMP | Instruction::CPX
                | Instruction::CPY | Instruction::LDA | Instruction::LDX | Instruction::LDY
                | Instruction::STA | Instruction::STX | Instruction::STY | Instruction::INC
                | Instruction::DEC | Instruction::JMP | Instruction::JSR),
        ensures
            old(self).performs(*final(self), ins, mode),
    {
        match ins {
            Instruction::ADC => self.adc(mode),
            Instruction::SBC => self.sbc(mode),
            Instruction::AND => self.and(mode),
            Instruction::ORA => self.ora(mode),
            Instruction::EOR => self.eor(mode),
            Instruction::BIT => self.bit(mode),
            Instruction::CMP => self.cmp(mode),
            Instruction::CPX => self.cpx(mode),
            Instruction::CPY => self.cpy(mode),
            Instruction::LDA => self.lda(mode),
            Instruction::LDX => self.ldx(mode),
            Instruction::LDY => self.ldy(mode),
            Instruction::STA => self.sta(mode),
            Instruction::STX => self.stx(mode),
            Instruction::STY => self.sty(mode),
            Instruction::INC => self.inc(mode),
            Instruction::DEC => self.dec(mode),
            Instruction::JMP => self.jmp(mode),
            _ => self.jsr(mode),
        }
    }

    /// Runs the handler of a decoded instruction.
    fn execute(&mut self, meta: InstructionMetadata)
        requires
            old(self).ready(meta.instruction_type, meta.mode),
            implemented(meta.instruction_type),
        ensures
            old(self).performs(*final(self), meta.instruction_type, meta.mode),
    {
        let mode = meta.mode;
        let ins = meta.instruction_type;
        proof {
            lemma_mode_ignored(self@, ins, mode);
        }
        match ins {
            Instruction::ASL | Instruction::LSR | Instruction::ROL | Instruction::ROR => self.shift(
                ins,
                mode,
            ),
            Instruction::BEQ | Instruction::BNE | Instruction::BCS | Instruction::BCC
            | Instruction::BMI | Instruction::BPL | Instruction::BVS | Instruction::BVC => {
                self.branch_on_flag(ins)
            },
            Instruction::CLC | Instruction::SEC | Instruction::CLD | Instruction::SED
            | Instruction::CLI | Instruction::SEI | Instruction::CLV => self.flag_op(ins),
            Instruction::INX | Instruction::INY | Instruction::DEX | Instruction::DEY
            | Instruction::TAX | Instruction::TAY | Instruction::TXA | Instruction::TYA
            | Instruction::TSX | Instruction::TXS | Instruction::PHA | Instruction::PHP
            | Instruction::PLA | Instruction::PLP | Instruction::RTS | Instruction::NOP => {
                self.execute_implied(ins)
            },
            Instruction::BRK | Instruction::RTI => {},
            _ => self.execute_addressed(ins, mode),
        }
    }

    /// One fetch-decode-execute cycle. On a fault nothing changes.
    pub fn step(&mut self) -> (r: Result<(), Fault>)
        requires
            old(self)@.wf(),
        ensures
            final(self).cmdline_args == old(self).cmdline_args,
            match step_spec(old(self)@) {
                Ok(next) => r is Ok && final(self)@ == next,
                Err(fault) => r == Err::<(), Fault>(fault) && final(self)@ == old(self)@,
            },
    {
        let opcode = self.get_next_byte();
        let meta = match get_opcode_metadata(opcode) {
            Some(meta) => meta,
            None => return Err(Fault::UnimplementedOpcode { opcode }),
        };
        match meta.instruction_type {
            Instruction::BRK | Instruction::RTI => {
                return Err(
                    Fault::UnimplementedInstruction { opcode, instruction: meta.instruction_type },
                );
            },
            _ => {},
        }
        if needs_address(meta.instruction_type, meta.mode) && self.get_addr(meta.mode).is_none() {
            return Err(Fault::UnsupportedAddressingMode { opcode, mode: meta.mode });
        }
        self.execute(meta);
        if !sets_program_counter(meta.instruction_type) {
            self.program_counter = self.program_counter.wrapping_add(
                meta.instruction_byte_length as u16,
            );
        }
        Ok(())
    }
    /// One turn of the run loop, given what the input poll returned: hands
    /// the key to the input port, then runs one instruction unless the key
    /// was Control-C. `Ok(false)` asks the loop to stop; on a fault the
    /// instruction has changed nothing.
    pub fn run_cycle(&mut self, input: Option<KeyPress>) -> (r: Result<bool, Fault>)
        requires
            old(self)@.wf(),
        ensures
            final(self).cmdline_args == old(self).cmdline_args,
            match cycle_spec(old(self)@, input) {
                Ok((next, go_on)) => r == Ok::<bool, Fault>(go_on) && final(self)@ == next,
                Err(fault) => r == Err::<bool, Fault>(fault) && final(self)@ == match input {
                    Some(press) => key_input(old(self)@, press),
                    None => old(self)@,
                },
            },
    {
        if let Some(press) = input {
            if !self.handle_keyboard(press) {
                return Ok(false);
            }
        }
        match self.step() {
            Ok(()) => Ok(true),
            Err(fault) => Err(fault),
        }
    }
}

/// The operations without an operand, and the branches, do the same whatever
/// mode they are decoded with.
proof fn lemma_mode_ignored(s: CpuView, ins: Instruction, mode: AddressingMode)
    ensures
        !uses_address(ins, mode) && !matches!(
            ins,
            Instruction::ASL | Instruction::LSR | Instruction::ROL | Instruction::ROR
        ) ==> execute_spec(s, ins, mode) == execute_spec(s, ins, AddressingMode::Implied),
        is_branch(ins) ==> execute_spec(s, ins, mode) == execute_spec(s, ins, AddressingMode::Relative),
{
    reveal(execute_spec);
}

/// The result and carry out of a shift or rotate.
fn shifted(ins: Instruction, v: u8, carry: bool) -> (r: (u8, bool))
    ensures
        r == shift_spec(ins, v, carry),
{
    let carry_in: u8 = if carry {
        1
    } else {
        0
    };
    match ins {
        Instruction::ASL => (v << 1u8, v >= 0x80),
        Instruction::LSR => (v >> 1u8, v & 1 == 1),
        Instruction::ROL => ((v << 1u8) | carry_in, v >= 0x80),
        _ => ((v >> 1u8) | (carry_in << 7u8), v & 1 == 1),
    }
}

} // verus!
