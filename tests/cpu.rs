use cpu6502::memory::{CHRIN, CHROUT, MEM_SIZE};
use cpu6502::{
    get_opcode_metadata, init_cpu6502, AddressingMode, Args, Cpu6502, DumpLine, Fault, Flag,
    Instruction, Key, KeyPress, Mem, MemMap, StatusFlags,
};

fn args() -> Args {
    Args {
        binary_file: String::from("prog.bin"),
        print_all_mem: false,
        dump_state_exit: false,
        step_debug: false,
        no_print: true,
        instrumentation: false,
        keyboard: false,
    }
}

fn new_cpu() -> Cpu6502 {
    init_cpu6502(args())
}

/// A processor with `code` placed at `at` and the program counter on it.
fn cpu_with(at: u16, code: &[u8]) -> Cpu6502 {
    let mut cpu = new_cpu();
    for (i, b) in code.iter().enumerate() {
        cpu.memory.set_byte(at as usize + i, *b);
    }
    cpu.program_counter = at;
    cpu
}

fn step_ok(cpu: &mut Cpu6502) {
    assert_eq!(cpu.step(), Ok(()));
}

#[test]
fn power_on_state() {
    let mut cpu = new_cpu();
    assert_eq!(cpu.accumulator, 0);
    assert_eq!(cpu.x_index, 0);
    assert_eq!(cpu.y_index, 0);
    assert_eq!(cpu.program_counter, 0);
    assert_eq!(cpu.stack_pointer, 0xFF);
    assert_eq!(cpu.status_flags.as_u8(), 0x20);
    assert_eq!(cpu.memory.get(0xFFFF), Some(&0));
    assert_eq!(cpu.memory.get(MEM_SIZE), None);
    assert!(cpu.take_output().is_empty());
}

#[test]
fn decoded_length_matches_mode() {
    let mut implemented = 0;
    for op in 0..=255u8 {
        if let Some(m) = get_opcode_metadata(op) {
            implemented += 1;
            let operand = cpu6502::operation::get_addressing_mode_operand_length(m.mode);
            assert_eq!(m.instruction_byte_length, 1 + operand);
            assert_eq!(
                m.instruction_byte_length,
                cpu6502::operation::get_instruction_length(m.mode)
            );
        }
    }
    assert_eq!(implemented, 151);
    let lda = get_opcode_metadata(0xAD).unwrap();
    assert_eq!(lda.mode, AddressingMode::Absolute);
    assert_eq!(lda.instruction_type, Instruction::LDA);
    assert_eq!(lda.instruction_byte_length, 3);
    assert_eq!(get_opcode_metadata(0xEA).unwrap().instruction_byte_length, 1);
    assert_eq!(get_opcode_metadata(0xA9).unwrap().instruction_byte_length, 2);
    assert!(get_opcode_metadata(0x02).is_none());
    assert!(get_opcode_metadata(0xFF).is_none());
}

#[test]
fn sbc_opcodes_decode_as_sbc() {
    let e1 = get_opcode_metadata(0xE1).unwrap();
    assert_eq!(e1.instruction_type, Instruction::SBC);
    assert_eq!(e1.mode, AddressingMode::ZeroPageIndirectIndexedX);
    let f1 = get_opcode_metadata(0xF1).unwrap();
    assert_eq!(f1.instruction_type, Instruction::SBC);
    assert_eq!(f1.mode, AddressingMode::ZeroPageIndirectIndexedY);
}

#[test]
fn adc_ff_plus_01_carries_to_zero() {
    let mut cpu = cpu_with(0x0200, &[0x69, 0x01]);
    cpu.accumulator = 0xFF;
    step_ok(&mut cpu);
    assert_eq!(cpu.accumulator, 0x00);
    assert!(cpu.status_flags.c);
    assert!(cpu.status_flags.z);
    assert!(!cpu.status_flags.n);
    assert!(!cpu.status_flags.v);
    assert_eq!(cpu.program_counter, 0x0202);
}

#[test]
fn adc_signed_overflow() {
    let mut cpu = cpu_with(0x0200, &[0x69, 0x50]);
    cpu.accumulator = 0x50;
    step_ok(&mut cpu);
    assert_eq!(cpu.accumulator, 0xA0);
    assert!(cpu.status_flags.v);
    assert!(cpu.status_flags.n);
    assert!(!cpu.status_flags.c);
    assert!(!cpu.status_flags.z);

    let mut cpu = cpu_with(0x0200, &[0x69, 0x10]);
    cpu.accumulator = 0x20;
    cpu.status_flags.set_flag(Flag::Carry, true);
    step_ok(&mut cpu);
    assert_eq!(cpu.accumulator, 0x31);
    assert!(!cpu.status_flags.v);
    assert!(!cpu.status_flags.c);
}

#[test]
fn sbc_zero_minus_one_borrows() {
    let mut cpu = cpu_with(0x0200, &[0xE9, 0x01]);
    cpu.accumulator = 0x00;
    cpu.status_flags.set_flag(Flag::Carry, true);
    step_ok(&mut cpu);
    assert_eq!(cpu.accumulator, 0xFF);
    assert!(!cpu.status_flags.c);
    assert!(cpu.status_flags.n);
    assert!(!cpu.status_flags.z);
    assert!(!cpu.status_flags.v);
}

#[test]
fn sbc_with_borrow_in_and_overflow() {
    let mut cpu = cpu_with(0x0200, &[0xE9, 0x01]);
    cpu.accumulator = 0x80;
    step_ok(&mut cpu);
    // 0x80 - 0x01 - 1 = 0x7E: no borrow out, signed overflow
    assert_eq!(cpu.accumulator, 0x7E);
    assert!(cpu.status_flags.c);
    assert!(cpu.status_flags.v);
    assert!(!cpu.status_flags.n);
}

#[test]
fn loads_set_zero_and_negative_for_every_byte() {
    for v in 0..=255u8 {
        for op in [0xA9u8, 0xA2, 0xA0] {
            let mut cpu = cpu_with(0x0200, &[op, v]);
            step_ok(&mut cpu);
            let loaded = match op {
                0xA9 => cpu.accumulator,
                0xA2 => cpu.x_index,
                _ => cpu.y_index,
            };
            assert_eq!(loaded, v);
            assert_eq!(cpu.status_flags.z, v == 0);
            assert_eq!(cpu.status_flags.n, v & 0x80 != 0);
        }
    }
}

#[test]
fn push_then_pull_round_trips() {
    for sp in [0x00u8, 0x01, 0x80, 0xFE, 0xFF] {
        for v in [0x00u8, 0x01, 0x7F, 0x80, 0xFF] {
            // PHA, LDA #0, PLA
            let mut cpu = cpu_with(0x0200, &[0x48, 0xA9, 0x00, 0x68]);
            cpu.stack_pointer = sp;
            cpu.accumulator = v;
            step_ok(&mut cpu);
            assert_eq!(cpu.stack_pointer, sp.wrapping_sub(1));
            assert_eq!(cpu.memory.get_byte(0x0100 | sp as usize), v);
            step_ok(&mut cpu);
            step_ok(&mut cpu);
            assert_eq!(cpu.accumulator, v);
            assert_eq!(cpu.stack_pointer, sp);
            assert_eq!(cpu.status_flags.z, v == 0);
        }
    }
}

#[test]
fn php_plp_restores_flags() {
    // PHP, CLC, SEV is not an opcode: set flags directly, then PLP
    let mut cpu = cpu_with(0x0200, &[0x08, 0x18, 0xD8, 0x28]);
    cpu.status_flags = StatusFlags { n: true, v: true, u: true, b: false, d: true, i: false, z: true, c: true };
    step_ok(&mut cpu);
    assert_eq!(cpu.memory.get_byte(0x01FF), 0xEB);
    step_ok(&mut cpu);
    step_ok(&mut cpu);
    assert!(!cpu.status_flags.c);
    assert!(!cpu.status_flags.d);
    step_ok(&mut cpu);
    assert!(cpu.status_flags.c);
    assert!(cpu.status_flags.d);
    assert_eq!(cpu.status_flags.as_u8(), 0xEB);
    assert_eq!(cpu.stack_pointer, 0xFF);
}

#[test]
fn jsr_then_rts_returns_three_bytes_on() {
    let mut cpu = cpu_with(0x0300, &[0x20, 0x34, 0x12]);
    cpu.memory.set_byte(0x1234, 0x60);
    step_ok(&mut cpu);
    assert_eq!(cpu.program_counter, 0x1234);
    assert_eq!(cpu.stack_pointer, 0xFD);
    assert_eq!(cpu.memory.get_byte(0x01FF), 0x03);
    assert_eq!(cpu.memory.get_byte(0x01FE), 0x03);
    step_ok(&mut cpu);
    assert_eq!(cpu.program_counter, 0x0303);
    assert_eq!(cpu.stack_pointer, 0xFF);
}

#[test]
fn branch_not_taken_moves_two() {
    // BEQ with Zero clear
    let mut cpu = cpu_with(0x0400, &[0xF0, 0x10]);
    step_ok(&mut cpu);
    assert_eq!(cpu.program_counter, 0x0402);
    // BNE with Zero set
    let mut cpu = cpu_with(0x0400, &[0xD0, 0x80]);
    cpu.status_flags.set_flag(Flag::Zero, true);
    step_ok(&mut cpu);
    assert_eq!(cpu.program_counter, 0x0402);
}

#[test]
fn branch_taken_offsets() {
    // BNE with offset -1
    let mut cpu = cpu_with(0x0400, &[0xD0, 0xFF]);
    step_ok(&mut cpu);
    assert_eq!(cpu.program_counter, 0x0401);
    // BCC with offset 127
    let mut cpu = cpu_with(0x0400, &[0x90, 0x7F]);
    step_ok(&mut cpu);
    assert_eq!(cpu.program_counter, 0x0400 + 129);
    // BPL with offset -128
    let mut cpu = cpu_with(0x0400, &[0x10, 0x80]);
    step_ok(&mut cpu);
    assert_eq!(cpu.program_counter, 0x0382);
    // BMI taken across the top of the address space
    let mut cpu = cpu_with(0xFFF0, &[0x30, 0x7F]);
    cpu.status_flags.set_flag(Flag::Negative, true);
    step_ok(&mut cpu);
    assert_eq!(cpu.program_counter, 0xFFF0u16.wrapping_add(129));
    // BVS and BCS taken, BVC not
    let mut cpu = cpu_with(0x0400, &[0x70, 0x02]);
    cpu.status_flags.set_flag(Flag::Overflow, true);
    step_ok(&mut cpu);
    assert_eq!(cpu.program_counter, 0x0404);
    let mut cpu = cpu_with(0x0400, &[0xB0, 0x02]);
    cpu.status_flags.set_flag(Flag::Carry, true);
    step_ok(&mut cpu);
    assert_eq!(cpu.program_counter, 0x0404);
    let mut cpu = cpu_with(0x0400, &[0x50, 0x02]);
    cpu.status_flags.set_flag(Flag::Overflow, true);
    step_ok(&mut cpu);
    assert_eq!(cpu.program_counter, 0x0402);
}

#[test]
fn output_port_writes() {
    let mut mem = Mem::init_mem();
    assert_eq!(mem.set_byte(CHROUT, 0x41), vec![b'A']);
    assert_eq!(mem.get_byte(CHROUT), 0x41);
    assert_eq!(mem.set_byte(CHROUT, 0x00), Vec::<u8>::new());
    assert_eq!(mem.get_byte(CHROUT), 0x00);
    assert_eq!(mem.set_byte(CHROUT, 0x0D), vec![b'\r', b'\n']);
    assert_eq!(mem.get_byte(CHROUT), 0x0D);
    assert_eq!(mem.set_byte(CHROUT, 0x08), vec![0x08, b' ', 0x08]);
    assert_eq!(mem.set_byte(CHRIN, 0x41), Vec::<u8>::new());
    assert_eq!(mem.set_byte(0x0200, 0x41), Vec::<u8>::new());
    assert_eq!(mem.get_byte(CHRIN), 0x41);
}

#[test]
fn store_to_output_port_queues_bytes() {
    // LDA #$48, STA $FE00, LDA #$0D, STA $FE00, LDA #0, STA $FE00
    let code = [0xA9, 0x48, 0x8D, 0x00, 0xFE, 0xA9, 0x0D, 0x8D, 0x00, 0xFE, 0xA9, 0x00, 0x8D, 0x00, 0xFE];
    let mut cpu = cpu_with(0x0200, &code);
    for _ in 0..6 {
        step_ok(&mut cpu);
    }
    assert_eq!(cpu.take_output(), vec![b'H', b'\r', b'\n']);
    assert!(cpu.take_output().is_empty());
    assert_eq!(cpu.memory.get_byte(CHROUT), 0x00);
}

#[test]
fn port_map() {
    assert_eq!(MemMap::from_index(0xFE00), MemMap::Chrout);
    assert_eq!(MemMap::from_index(0xFE01), MemMap::Chrin);
    assert_eq!(MemMap::from_index(0xFE02), MemMap::NoMap);
    assert_eq!(MemMap::Chrout.address(), Some(CHROUT));
    assert_eq!(MemMap::NoMap.address(), None);
}

#[test]
fn indirect_jump_wraps_within_page() {
    let mut cpu = cpu_with(0x0200, &[0x6C, 0xFF, 0x12]);
    cpu.memory.set_byte(0x12FF, 0x34);
    cpu.memory.set_byte(0x1200, 0x56);
    cpu.memory.set_byte(0x1300, 0x78);
    step_ok(&mut cpu);
    assert_eq!(cpu.program_counter, 0x5634);

    let mut cpu = cpu_with(0x0200, &[0x6C, 0x10, 0x12]);
    cpu.memory.set_byte(0x1210, 0x34);
    cpu.memory.set_byte(0x1211, 0x56);
    step_ok(&mut cpu);
    assert_eq!(cpu.program_counter, 0x5634);
}

#[test]
fn end_to_end_program() {
    let mut image = vec![0u8; MEM_SIZE];
    image[..6].copy_from_slice(&[0xA9, 0x05, 0x8D, 0x00, 0x02, 0xEA]);
    let mut cpu = new_cpu();
    cpu.load_image(image);
    cpu.reset();
    assert_eq!(cpu.program_counter, 0x0000);
    step_ok(&mut cpu);
    step_ok(&mut cpu);
    assert_eq!(cpu.accumulator, 0x05);
    assert_eq!(cpu.memory.get_byte(0x0200), 0x05);
    assert!(!cpu.status_flags.z);
    assert!(!cpu.status_flags.n);
    let before = (cpu.accumulator, cpu.x_index, cpu.y_index, cpu.stack_pointer, cpu.status_flags);
    let pc = cpu.program_counter;
    step_ok(&mut cpu);
    assert_eq!(cpu.program_counter, pc + 1);
    assert_eq!((cpu.accumulator, cpu.x_index, cpu.y_index, cpu.stack_pointer, cpu.status_flags), before);
}

#[test]
fn reset_reads_vector() {
    let mut cpu = new_cpu();
    cpu.memory.set_byte(0xFFFC, 0x00);
    cpu.memory.set_byte(0xFFFD, 0x80);
    cpu.reset();
    assert_eq!(cpu.program_counter, 0x8000);
}

#[test]
fn faults() {
    let mut cpu = cpu_with(0x0200, &[0x02]);
    assert_eq!(cpu.step(), Err(Fault::UnimplementedOpcode { opcode: 0x02 }));
    assert_eq!(cpu.program_counter, 0x0200);
    let mut cpu = cpu_with(0x0200, &[0x00]);
    assert_eq!(
        cpu.step(),
        Err(Fault::UnimplementedInstruction { opcode: 0x00, instruction: Instruction::BRK })
    );
    let mut cpu = cpu_with(0x0200, &[0x40]);
    assert_eq!(
        cpu.step(),
        Err(Fault::UnimplementedInstruction { opcode: 0x40, instruction: Instruction::RTI })
    );
}

#[test]
fn compares() {
    for (op, a, m, c, z, n) in [
        (0xC9u8, 0x40u8, 0x40u8, true, true, false),
        (0xC9, 0x40, 0x41, false, false, true),
        (0xC9, 0x41, 0x40, true, false, false),
        (0xE0, 0x00, 0x01, false, false, true),
        (0xC0, 0x90, 0x10, true, false, true),
    ] {
        let mut cpu = cpu_with(0x0200, &[op, m]);
        cpu.accumulator = a;
        cpu.x_index = a;
        cpu.y_index = a;
        step_ok(&mut cpu);
        assert_eq!((cpu.status_flags.c, cpu.status_flags.z, cpu.status_flags.n), (c, z, n));
    }
}

#[test]
fn shifts_and_rotates() {
    // ASL A
    let mut cpu = cpu_with(0x0200, &[0x0A]);
    cpu.accumulator = 0x81;
    step_ok(&mut cpu);
    assert_eq!(cpu.accumulator, 0x02);
    assert!(cpu.status_flags.c);
    assert!(!cpu.status_flags.n);
    // LSR A
    let mut cpu = cpu_with(0x0200, &[0x4A]);
    cpu.accumulator = 0x01;
    step_ok(&mut cpu);
    assert_eq!(cpu.accumulator, 0x00);
    assert!(cpu.status_flags.c);
    assert!(cpu.status_flags.z);
    assert!(!cpu.status_flags.n);
    // ROL A with carry in
    let mut cpu = cpu_with(0x0200, &[0x2A]);
    cpu.accumulator = 0x40;
    cpu.status_flags.set_flag(Flag::Carry, true);
    step_ok(&mut cpu);
    assert_eq!(cpu.accumulator, 0x81);
    assert!(!cpu.status_flags.c);
    assert!(cpu.status_flags.n);
    // ROR zero page with carry in
    let mut cpu = cpu_with(0x0200, &[0x66, 0x10]);
    cpu.memory.set_byte(0x10, 0x03);
    cpu.status_flags.set_flag(Flag::Carry, true);
    step_ok(&mut cpu);
    assert_eq!(cpu.memory.get_byte(0x10), 0x81);
    assert!(cpu.status_flags.c);
    assert!(cpu.status_flags.n);
    assert_eq!(cpu.program_counter, 0x0202);
}

#[test]
fn bit_test() {
    let mut cpu = cpu_with(0x0200, &[0x24, 0x10]);
    cpu.memory.set_byte(0x10, 0xC0);
    cpu.accumulator = 0x01;
    step_ok(&mut cpu);
    assert!(cpu.status_flags.z);
    assert!(cpu.status_flags.n);
    assert!(cpu.status_flags.v);
    assert_eq!(cpu.accumulator, 0x01);
}

#[test]
fn increments_wrap() {
    // INX, DEY, INC $10, DEC $11
    let mut cpu = cpu_with(0x0200, &[0xE8, 0x88, 0xE6, 0x10, 0xC6, 0x11]);
    cpu.x_index = 0xFF;
    cpu.memory.set_byte(0x10, 0x7F);
    step_ok(&mut cpu);
    assert_eq!(cpu.x_index, 0);
    assert!(cpu.status_flags.z);
    step_ok(&mut cpu);
    assert_eq!(cpu.y_index, 0xFF);
    assert!(cpu.status_flags.n);
    step_ok(&mut cpu);
    assert_eq!(cpu.memory.get_byte(0x10), 0x80);
    assert!(cpu.status_flags.n);
    step_ok(&mut cpu);
    assert_eq!(cpu.memory.get_byte(0x11), 0xFF);
    assert!(cpu.status_flags.n);
    assert!(!cpu.status_flags.z);
}

#[test]
fn transfers() {
    // TAX, TXS, TSX, TYA
    let mut cpu = cpu_with(0x0200, &[0xAA, 0x9A, 0xBA, 0x98]);
    cpu.accumulator = 0x80;
    step_ok(&mut cpu);
    assert_eq!(cpu.x_index, 0x80);
    assert!(cpu.status_flags.n);
    step_ok(&mut cpu);
    assert_eq!(cpu.stack_pointer, 0x80);
    cpu.x_index = 0;
    step_ok(&mut cpu);
    assert_eq!(cpu.x_index, 0x80);
    step_ok(&mut cpu);
    assert_eq!(cpu.accumulator, 0);
    assert!(cpu.status_flags.z);
}

#[test]
fn logic_ops() {
    // AND #$0F, ORA #$80, EOR #$FF
    let mut cpu = cpu_with(0x0200, &[0x29, 0x0F, 0x09, 0x80, 0x49, 0xFF]);
    cpu.accumulator = 0x3C;
    step_ok(&mut cpu);
    assert_eq!(cpu.accumulator, 0x0C);
    step_ok(&mut cpu);
    assert_eq!(cpu.accumulator, 0x8C);
    assert!(cpu.status_flags.n);
    step_ok(&mut cpu);
    assert_eq!(cpu.accumulator, 0x73);
    assert!(!cpu.status_flags.n);
}

#[test]
fn flag_instructions() {
    // SEC, SED, SEI, CLC, CLD, CLI, CLV
    let mut cpu = cpu_with(0x0200, &[0x38, 0xF8, 0x78, 0x18, 0xD8, 0x58, 0xB8]);
    cpu.status_flags.set_flag(Flag::Overflow, true);
    for _ in 0..3 {
        step_ok(&mut cpu);
    }
    assert!(cpu.status_flags.c && cpu.status_flags.d && cpu.status_flags.i);
    for _ in 0..4 {
        step_ok(&mut cpu);
    }
    assert_eq!(cpu.status_flags.as_u8(), 0x20);
    assert_eq!(cpu.program_counter, 0x0207);
}

#[test]
fn addressing_modes() {
    let mut cpu = cpu_with(0x0200, &[0xB5, 0xF0]);
    cpu.x_index = 0x20;
    // zero page,X is not folded back into the zero page
    assert_eq!(cpu.get_addr(AddressingMode::ZeroPageX), Some(0x0110));
    // (zp,X) stays in the zero page
    assert_eq!(cpu.get_addr(AddressingMode::ZeroPageIndirectIndexedX), Some(0x0010));
    assert_eq!(cpu.get_addr(AddressingMode::Immediate), Some(0x0201));
    assert_eq!(cpu.get_addr(AddressingMode::Implied), None);
    assert_eq!(cpu.get_addr(AddressingMode::Accumulator), None);
    let mut cpu = cpu_with(0x0200, &[0xBD, 0xF0, 0xFF]);
    cpu.x_index = 0x20;
    // absolute,X wraps at the top of the address space
    assert_eq!(cpu.get_addr(AddressingMode::AbsoluteXIndexed), Some(0x0010));
    cpu.y_index = 0x01;
    assert_eq!(cpu.get_addr(AddressingMode::AbsoluteYIndexed), Some(0xFFF1));
    assert_eq!(cpu.get_addr(AddressingMode::Absolute), Some(0xFFF0));
}

#[test]
fn keyboard_input() {
    let mut cpu = new_cpu();
    assert!(cpu.handle_keyboard(KeyPress { key: Key::Char('a'), control: false }));
    assert_eq!(cpu.memory.get_byte(CHRIN), b'a');
    assert!(cpu.handle_keyboard(KeyPress { key: Key::Enter, control: false }));
    assert_eq!(cpu.memory.get_byte(CHRIN), 0x0D);
    assert!(cpu.handle_keyboard(KeyPress { key: Key::Backspace, control: false }));
    assert_eq!(cpu.memory.get_byte(CHRIN), 0x08);
    assert!(cpu.handle_keyboard(KeyPress { key: Key::Other, control: true }));
    assert_eq!(cpu.memory.get_byte(CHRIN), 0x08);
    assert!(!cpu.handle_keyboard(KeyPress { key: Key::Char('c'), control: true }));
    assert_eq!(cpu.memory.get_byte(CHRIN), b'c');
    assert!(cpu.take_output().is_empty());
}

#[test]
fn memory_dump_lines() {
    let mut mem = Mem::init_mem();
    assert!(mem.dump_lines(false).is_empty());
    assert_eq!(mem.dump_lines(true).len(), MEM_SIZE / 16);
    mem.set_byte(0x0021, 1);
    assert_eq!(mem.dump_lines(false), vec![DumpLine::Row(0x20), DumpLine::Gap]);
    mem.set_byte(0x0035, 1);
    mem.set_byte(0xFFFF, 1);
    assert_eq!(
        mem.dump_lines(false),
        vec![DumpLine::Row(0x20), DumpLine::Row(0x30), DumpLine::Gap, DumpLine::Row(0xFFF0)]
    );
    assert_eq!(cpu6502::memory::dump_char(b'A'), b'A');
    assert_eq!(cpu6502::memory::dump_char(b' '), b'.');
    assert_eq!(cpu6502::memory::dump_char(0x7F), b'.');
}

#[test]
fn memory_image_and_decrement() {
    let mut mem = Mem::init_mem();
    mem.set_byte(0x10, 0x55);
    mem.set_all(vec![1, 2, 3]);
    assert_eq!(mem.get_byte(0), 1);
    assert_eq!(mem.get_byte(2), 3);
    assert_eq!(mem.get_byte(0x10), 0x55);
    mem.set_all(vec![9u8; MEM_SIZE + 10]);
    assert_eq!(mem.get_byte(0xFFFF), 9);
    assert_eq!(mem.get(MEM_SIZE), None);
    mem.set_byte(0x20, 0);
    assert!(mem.decrement_mem(0x20).is_empty());
    assert_eq!(mem.get_byte(0x20), 0xFF);
    mem.set_byte(CHROUT, 0x42);
    assert_eq!(mem.decrement_mem(CHROUT), vec![0x41]);
}

#[test]
fn status_register_packing() {
    let mut f = StatusFlags::new();
    assert_eq!(f.as_u8(), 0x20);
    f.set_flag(Flag::Negative, true);
    f.set_flag(Flag::Carry, true);
    assert_eq!(f.as_u8(), 0xA1);
    f.set_flag(Flag::Break, true);
    f.set_flag(Flag::Unused, false);
    assert_eq!(f.as_u8(), 0x91);
    assert!(f.get_flag(Flag::Negative));
    assert!(f.get_flag(Flag::Break));
    assert!(!f.get_flag(Flag::Unused));
    assert!(!f.get_flag(Flag::Zero));
    f.restore_from(0x42);
    assert!(f.v && f.z && !f.n && !f.c && f.b && !f.u);
    f.set_nz(0x80);
    assert!(f.n && !f.z);
}

#[test]
fn run_cycle_polls_then_steps() {
    // LDA $FE01
    let mut cpu = cpu_with(0x0200, &[0xAD, 0x01, 0xFE]);
    let r = cpu.run_cycle(Some(KeyPress { key: Key::Char('x'), control: false }));
    assert_eq!(r, Ok(true));
    assert_eq!(cpu.accumulator, b'x');
    assert_eq!(cpu.program_counter, 0x0203);

    let mut cpu = cpu_with(0x0200, &[0xAD, 0x01, 0xFE]);
    let r = cpu.run_cycle(Some(KeyPress { key: Key::Char('c'), control: true }));
    assert_eq!(r, Ok(false));
    assert_eq!(cpu.program_counter, 0x0200);
    assert_eq!(cpu.memory.get_byte(CHRIN), b'c');

    let mut cpu = cpu_with(0x0200, &[0xEA]);
    assert_eq!(cpu.run_cycle(None), Ok(true));
    assert_eq!(cpu.program_counter, 0x0201);

    let mut cpu = cpu_with(0x0200, &[0x02]);
    assert_eq!(cpu.run_cycle(None), Err(Fault::UnimplementedOpcode { opcode: 0x02 }));
}
