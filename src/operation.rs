//! Decoding: instructions, addressing modes and the opcode table.
use vstd::prelude::*;

verus! {

/// The operation an opcode performs.
#[derive(Clone, Copy, Debug, PartialEq, Eq, Structural)]
pub enum Instruction {
    ADC,
    BRK,
    ORA,
    RTI,
    AND,
    BIT,
    BVS,
    BVC,
    BPL,
    BMI,
    EOR,
    SBC,
    LDX,
    LDY,
    STX,
    STY,
    CPX,
    CPY,
    DEC,
    DEX,
    DEY,
    JMP,
    NOP,
    LDA,
    STA,
    JSR,
    RTS,
    CMP,
    BCS,
    BCC,
    BEQ,
    BNE,
    INC,
    INX,
    INY,
    TXS,
    TXA,
    TYA,
    TSX,
    CLC,
    CLD,
    CLI,
    CLV,
    SEC,
    SED,
    SEI,
    PHA,
    PLA,
    PLP,
    TAX,
    TAY,
    LSR,
    ROR,
    PHP,
    ASL,
    ROL,
}

/// How an instruction's operand bytes become a value or an address.
#[derive(Clone, Copy, Debug, PartialEq, Eq, Structural)]
pub enum AddressingMode {
    Accumulator,
    Implied,
    Immediate,
    Absolute,
    AbsoluteXIndexed,
    AbsoluteYIndexed,
    ZeroPage,
    Relative,
    AbsoluteIndirect,
    AbsoluteIndirectX,
    AbsoluteIndirectY,
    ZeroPageX,
    ZeroPageY,
    ZeroPageIndirectIndexedX,
    ZeroPageIndirectIndexedY,
}

/// Number of operand bytes that follow the opcode in a mode.
pub open spec fn operand_length(mode: AddressingMode) -> u8 {
    match mode {
        AddressingMode::Accumulator | AddressingMode::Implied => 0,
        AddressingMode::Immediate
        | AddressingMode::ZeroPage
        | AddressingMode::Relative
        | AddressingMode::ZeroPageX
        | AddressingMode::ZeroPageY
        | AddressingMode::ZeroPageIndirectIndexedX
        | AddressingMode::ZeroPageIndirectIndexedY => 1,
        AddressingMode::Absolute
        | AddressingMode::AbsoluteXIndexed
        | AddressingMode::AbsoluteYIndexed
        | AddressingMode::AbsoluteIndirect
        | AddressingMode::AbsoluteIndirectX
        | AddressingMode::AbsoluteIndirectY => 2,
    }
}

pub fn get_addressing_mode_operand_length(mode: AddressingMode) -> (r: u8)
    ensures
        r == operand_length(mode),
{
    match mode {
        AddressingMode::Accumulator => 0,
        AddressingMode::Implied => 0,
        AddressingMode::Immediate => 1,
        AddressingMode::Absolute => 2,
        AddressingMode::AbsoluteXIndexed => 2,
        AddressingMode::AbsoluteYIndexed => 2,
        AddressingMode::ZeroPage => 1,
        AddressingMode::Relative => 1,
        AddressingMode::AbsoluteIndirect => 2,
        AddressingMode::AbsoluteIndirectX => 2,
        AddressingMode::AbsoluteIndirectY => 2,
        AddressingMode::ZeroPageX => 1,
        AddressingMode::ZeroPageY => 1,
        AddressingMode::ZeroPageIndirectIndexedX => 1,
        AddressingMode::ZeroPageIndirectIndexedY => 1,
    }
}

/// Total instruction length: the opcode and its operand bytes.
pub fn get_instruction_length(mode: AddressingMode) -> (r: u8)
    ensures
        r == 1 + operand_length(mode),
{
    1 + get_addressing_mode_operand_length(mode)
}

/// What the decoder knows of an opcode.
#[derive(Clone, Copy, Debug, PartialEq, Eq, Structural)]
pub struct InstructionMetadata {
    pub mode: AddressingMode,
    pub instruction_type: Instruction,
    pub instruction_byte_length: u8,
}

/// The record for an instruction in a mode.
pub open spec fn metadata_of(mode: AddressingMode, instruction: Instruction) -> InstructionMetadata {
    InstructionMetadata {
        mode,
        instruction_type: instruction,
        instruction_byte_length: (1 + operand_length(mode)) as u8,
    }
}

impl InstructionMetadata {
    pub fn new(mode: AddressingMode, instruction: Instruction) -> (r: InstructionMetadata)
        ensures
            r == metadata_of(mode, instruction),
    {
        InstructionMetadata {
            mode,
            instruction_type: instruction,
            instruction_byte_length: get_instruction_length(mode),
        }
    }
}

/// The opcode table: mode and operation of each implemented opcode.
pub open spec fn opcode_entry(opcode: u8) -> Option<(AddressingMode, Instruction)> {
    match opcode {
        // ADC
        0x61 => Some((AddressingMode::ZeroPageIndirectIndexedX, Instruction::ADC)),
        0x65 => Some((AddressingMode::ZeroPage, Instruction::ADC)),
        0x69 => Some((AddressingMode::Immediate, Instruction::ADC)),
        0x6d => Some((AddressingMode::Absolute, Instruction::ADC)),
        0x71 => Some((AddressingMode::ZeroPageIndirectIndexedY, Instruction::ADC)),
        0x75 => Some((AddressingMode::ZeroPageX, Instruction::ADC)),
        0x79 => Some((AddressingMode::AbsoluteYIndexed, Instruction::ADC)),
        0x7d => Some((AddressingMode::AbsoluteXIndexed, Instruction::ADC)),
        // AND
        0x21 => Some((AddressingMode::ZeroPageIndirectIndexedX, Instruction::AND)),
        0x25 => Some((AddressingMode::ZeroPage, Instruction::AND)),
        0x29 => Some((AddressingMode::Immediate, Instruction::AND)),
        0x2d => Some((AddressingMode::Absolute, Instruction::AND)),
        0x31 => Some((AddressingMode::ZeroPageIndirectIndexedY, Instruction::AND)),
        0x35 => Some((AddressingMode::ZeroPageX, Instruction::AND)),
        0x39 => Some((AddressingMode::AbsoluteYIndexed, Instruction::AND)),
        0x3d => Some((AddressingMode::AbsoluteXIndexed, Instruction::AND)),
        // BIT
        0x24 => Some((AddressingMode::ZeroPage, Instruction::BIT)),
        0x2c => Some((AddressingMode::Absolute, Instruction::BIT)),
        // BRK
        0x00 => Some((AddressingMode::Implied, Instruction::BRK)),
        // SBC
        0xe1 => Some((AddressingMode::ZeroPageIndirectIndexedX, Instruction::SBC)),
        0xe5 => Some((AddressingMode::ZeroPage, Instruction::SBC)),
        0xe9 => Some((AddressingMode::Immediate, Instruction::SBC)),
        0xed => Some((AddressingMode::Absolute, Instruction::SBC)),
        0xf1 => Some((AddressingMode::ZeroPageIndirectIndexedY, Instruction::SBC)),
        0xf5 => Some((AddressingMode::ZeroPageX, Instruction::SBC)),
        0xf9 => Some((AddressingMode::AbsoluteYIndexed, Instruction::SBC)),
        0xfd => Some((AddressingMode::AbsoluteXIndexed, Instruction::SBC)),
        // BCC
        0x90 => Some((AddressingMode::Relative, Instruction::BCC)),
        // LDX
        0xa2 => Some((AddressingMode::Immediate, Instruction::LDX)),
        0xa6 => Some((AddressingMode::ZeroPage, Instruction::LDX)),
        0xae => Some((AddressingMode::Absolute, Instruction::LDX)),
        0xb6 => Some((AddressingMode::ZeroPageY, Instruction::LDX)),
        0xbe => Some((AddressingMode::AbsoluteYIndexed, Instruction::LDX)),
        // LDY
        0xa0 => Some((AddressingMode::Immediate, Instruction::LDY)),
        0xa4 => Some((AddressingMode::ZeroPage, Instruction::LDY)),
        0xac => Some((AddressingMode::Absolute, Instruction::LDY)),
        0xb4 => Some((AddressingMode::ZeroPageX, Instruction::LDY)),
        0xbc => Some((AddressingMode::AbsoluteXIndexed, Instruction::LDY)),
        // STX
        0x86 => Some((AddressingMode::ZeroPage, Instruction::STX)),
        0x8e => Some((AddressingMode::Absolute, Instruction::STX)),
        0x96 => Some((AddressingMode::ZeroPageY, Instruction::STX)),
        // STY
        0x84 => Some((AddressingMode::ZeroPage, Instruction::STY)),
        0x8c => Some((AddressingMode::Absolute, Instruction::STY)),
        0x94 => Some((AddressingMode::ZeroPageX, Instruction::STY)),
        // CPX
        0xe0 => Some((AddressingMode::Immediate, Instruction::CPX)),
        0xe4 => Some((AddressingMode::ZeroPage, Instruction::CPX)),
        0xec => Some((AddressingMode::Absolute, Instruction::CPX)),
        // CPY
        0xc0 => Some((AddressingMode::Immediate, Instruction::CPY)),
        0xc4 => Some((AddressingMode::ZeroPage, Instruction::CPY)),
        0xcc => Some((AddressingMode::Absolute, Instruction::CPY)),
        // DEC
        0xc6 => Some((AddressingMode::ZeroPage, Instruction::DEC)),
        0xce => Some((AddressingMode::Absolute, Instruction::DEC)),
        0xd6 => Some((AddressingMode::ZeroPageX, Instruction::DEC)),
        0xde => Some((AddressingMode::AbsoluteXIndexed, Instruction::DEC)),
        // DEX
        0xca => Some((AddressingMode::Implied, Instruction::DEX)),
        // DEY
        0x88 => Some((AddressingMode::Implied, Instruction::DEY)),
        // EOR
        0x41 => Some((AddressingMode::ZeroPageIndirectIndexedX, Instruction::EOR)),
        0x45 => Some((AddressingMode::ZeroPage, Instruction::EOR)),
        0x49 => Some((AddressingMode::Immediate, Instruction::EOR)),
        0x4d => Some((AddressingMode::Absolute, Instruction::EOR)),
        0x51 => Some((AddressingMode::ZeroPageIndirectIndexedY, Instruction::EOR)),
        0x55 => Some((AddressingMode::ZeroPageX, Instruction::EOR)),
        0x59 => Some((AddressingMode::AbsoluteYIndexed, Instruction::EOR)),
        0x5d => Some((AddressingMode::AbsoluteXIndexed, Instruction::EOR)),
        // JMP
        0x4c => Some((AddressingMode::Absolute, Instruction::JMP)),
        0x6c => Some((AddressingMode::AbsoluteIndirect, Instruction::JMP)),
        // NOP
        0xea => Some((AddressingMode::Implied, Instruction::NOP)),
        // ORA
        0x01 => Some((AddressingMode::ZeroPageIndirectIndexedX, Instruction::ORA)),
        0x05 => Some((AddressingMode::ZeroPage, Instruction::ORA)),
        0x09 => Some((AddressingMode::Immediate, Instruction::ORA)),
        0x0d => Some((AddressingMode::Absolute, Instruction::ORA)),
        0x11 => Some((AddressingMode::ZeroPageIndirectIndexedY, Instruction::ORA)),
        0x15 => Some((AddressingMode::ZeroPageX, Instruction::ORA)),
        0x19 => Some((AddressingMode::AbsoluteYIndexed, Instruction::ORA)),
        0x1d => Some((AddressingMode::AbsoluteXIndexed, Instruction::ORA)),
        // LDA
        0xa1 => Some((AddressingMode::ZeroPageIndirectIndexedX, Instruction::LDA)),
        0xa5 => Some((AddressingMode::ZeroPage, Instruction::LDA)),
        0xa9 => Some((AddressingMode::Immediate, Instruction::LDA)),
        0xad => Some((AddressingMode::Absolute, Instruction::LDA)),
        0xb1 => Some((AddressingMode::ZeroPageIndirectIndexedY, Instruction::LDA)),
        0xb5 => Some((AddressingMode::ZeroPageX, Instruction::LDA)),
        0xb9 => Some((AddressingMode::AbsoluteYIndexed, Instruction::LDA)),
        0xbd => Some((AddressingMode::AbsoluteXIndexed, Instruction::LDA)),
        // PLP
        0x28 => Some((AddressingMode::Implied, Instruction::PLP)),
        // STA
        0x81 => Some((AddressingMode::ZeroPageIndirectIndexedX, Instruction::STA)),
        0x85 => Some((AddressingMode::ZeroPage, Instruction::STA)),
        0x8d => Some((AddressingMode::Absolute, Instruction::STA)),
        0x91 => Some((AddressingMode::ZeroPageIndirectIndexedY, Instruction::STA)),
        0x95 => Some((AddressingMode::ZeroPageX, Instruction::STA)),
        0x99 => Some((AddressingMode::AbsoluteYIndexed, Instruction::STA)),
        0x9d => Some((AddressingMode::AbsoluteXIndexed, Instruction::STA)),
        // JSR
        0x20 => Some((AddressingMode::Absolute, Instruction::JSR)),
        // RTS
        0x60 => Some((AddressingMode::Implied, Instruction::RTS)),
        // RTI
        0x40 => Some((AddressingMode::Implied, Instruction::RTI)),
        // CMP
        0xc1 => Some((AddressingMode::ZeroPageIndirectIndexedX, Instruction::CMP)),
        0xc5 => Some((AddressingMode::ZeroPage, Instruction::CMP)),
        0xc9 => Some((AddressingMode::Immediate, Instruction::CMP)),
        0xcd => Some((AddressingMode::Absolute, Instruction::CMP)),
        0xd1 => Some((AddressingMode::ZeroPageIndirectIndexedY, Instruction::CMP)),
        0xd5 => Some((AddressingMode::ZeroPageX, Instruction::CMP)),
        0xd9 => Some((AddressingMode::AbsoluteYIndexed, Instruction::CMP)),
        0xdd => Some((AddressingMode::AbsoluteXIndexed, Instruction::CMP)),
        // BCS
        0xb0 => Some((AddressingMode::Relative, Instruction::BCS)),
        // BEQ
        0xf0 => Some((AddressingMode::Relative, Instruction::BEQ)),
        // BNE
        0xd0 => Some((AddressingMode::Relative, Instruction::BNE)),
        // BMI
        0x30 => Some((AddressingMode::Relative, Instruction::BMI)),
        // BPL
        0x10 => Some((AddressingMode::Relative, Instruction::BPL)),
        // BVS
        0x70 => Some((AddressingMode::Relative, Instruction::BVS)),
        // BVC
        0x50 => Some((AddressingMode::Relative, Instruction::BVC)),
        // INC
        0xe6 => Some((AddressingMode::ZeroPage, Instruction::INC)),
        0xee => Some((AddressingMode::Absolute, Instruction::INC)),
        0xf6 => Some((AddressingMode::ZeroPageX, Instruction::INC)),
        0xfe => Some((AddressingMode::AbsoluteXIndexed, Instruction::INC)),
        // INX
        0xe8 => Some((AddressingMode::Implied, Instruction::INX)),
        // INY
        0xc8 => Some((AddressingMode::Implied, Instruction::INY)),
        // TXS
        0x9a => Some((AddressingMode::Implied, Instruction::TXS)),
        // TXA
        0x8a => Some((AddressingMode::Implied, Instruction::TXA)),
        // TSX
        0xba => Some((AddressingMode::Implied, Instruction::TSX)),
        // TYA
        0x98 => Some((AddressingMode::Implied, Instruction::TYA)),
        // CLC
        0x18 => Some((AddressingMode::Implied, Instruction::CLC)),
        // CLD
        0xd8 => Some((AddressingMode::Implied, Instruction::CLD)),
        // CLI
        0x58 => Some((AddressingMode::Implied, Instruction::CLI)),
        // CLV
        0xb8 => Some((AddressingMode::Implied, Instruction::CLV)),
        // SEC
        0x38 => Some((AddressingMode::Implied, Instruction::SEC)),
        // SED
        0xf8 => Some((AddressingMode::Implied, Instruction::SED)),
        // SEI
        0x78 => Some((AddressingMode::Implied, Instruction::SEI)),
        // PHA
        0x48 => Some((AddressingMode::Implied, Instruction::PHA)),
        // PLA
        0x68 => Some((AddressingMode::Implied, Instruction::PLA)),
        // TAX
        0xaa => Some((AddressingMode::Implied, Instruction::TAX)),
        // TAY
        0xa8 => Some((AddressingMode::Implied, Instruction::TAY)),
        // LSR
        0x46 => Some((AddressingMode::ZeroPage, Instruction::LSR)),
        0x4a => Some((AddressingMode::Accumulator, Instruction::LSR)),
        0x4e => Some((AddressingMode::Absolute, Instruction::LSR)),
        0x56 => Some((AddressingMode::ZeroPageX, Instruction::LSR)),
        0x5e => Some((AddressingMode::AbsoluteXIndexed, Instruction::LSR)),
        // ROR
        0x66 => Some((AddressingMode::ZeroPage, Instruction::ROR)),
        0x6a => Some((AddressingMode::Accumulator, Instruction::ROR)),
        0x6e => Some((AddressingMode::Absolute, Instruction::ROR)),
        0x76 => Some((AddressingMode::ZeroPageX, Instruction::ROR)),
        0x7e => Some((AddressingMode::AbsoluteXIndexed, Instruction::ROR)),
        // ROL
        0x26 => Some((AddressingMode::ZeroPage, Instruction::ROL)),
        0x2a => Some((AddressingMode::Accumulator, Instruction::ROL)),
        0x2e => Some((AddressingMode::Absolute, Instruction::ROL)),
        0x36 => Some((AddressingMode::ZeroPageX, Instruction::ROL)),
        0x3e => Some((AddressingMode::AbsoluteXIndexed, Instruction::ROL)),
        // ASL
        0x06 => Some((AddressingMode::ZeroPage, Instruction::ASL)),
        0x0a => Some((AddressingMode::Accumulator, Instruction::ASL)),
        0x0e => Some((AddressingMode::Absolute, Instruction::ASL)),
        0x16 => Some((AddressingMode::ZeroPageX, Instruction::ASL)),
        0x1e => Some((AddressingMode::AbsoluteXIndexed, Instruction::ASL)),
        // PHP
        0x08 => Some((AddressingMode::Implied, Instruction::PHP)),
        _ => None,
    }
}

/// The decoded record of an opcode; `None` for an opcode with no mapping.
pub open spec fn opcode_metadata(opcode: u8) -> Option<InstructionMetadata> {
    match opcode_entry(opcode) {
        Some((mode, instruction)) => Some(metadata_of(mode, instruction)),
        None => None,
    }
}

/// Decodes an opcode; `None` where the opcode is not implemented.
pub fn get_opcode_metadata(opcode: u8) -> (r: Option<InstructionMetadata>)
    ensures
        r == opcode_metadata(opcode),
{
    match opcode {
        // ADC
        0x61 => Some(InstructionMetadata::new(AddressingMode::ZeroPageIndirectIndexedX, Instruction::ADC)),
        0x65 => Some(InstructionMetadata::new(AddressingMode::ZeroPage, Instruction::ADC)),
        0x69 => Some(InstructionMetadata::new(AddressingMode::Immediate, Instruction::ADC)),
        0x6d => Some(InstructionMetadata::new(AddressingMode::Absolute, Instruction::ADC)),
        0x71 => Some(InstructionMetadata::new(AddressingMode::ZeroPageIndirectIndexedY, Instruction::ADC)),
        0x75 => Some(InstructionMetadata::new(AddressingMode::ZeroPageX, Instruction::ADC)),
        0x79 => Some(InstructionMetadata::new(AddressingMode::AbsoluteYIndexed, Instruction::ADC)),
        0x7d => Some(InstructionMetadata::new(AddressingMode::AbsoluteXIndexed, Instruction::ADC)),
        // AND
        0x21 => Some(InstructionMetadata::new(AddressingMode::ZeroPageIndirectIndexedX, Instruction::AND)),
        0x25 => Some(InstructionMetadata::new(AddressingMode::ZeroPage, Instruction::AND)),
        0x29 => Some(InstructionMetadata::new(AddressingMode::Immediate, Instruction::AND)),
        0x2d => Some(InstructionMetadata::new(AddressingMode::Absolute, Instruction::AND)),
        0x31 => Some(InstructionMetadata::new(AddressingMode::ZeroPageIndirectIndexedY, Instruction::AND)),
        0x35 => Some(InstructionMetadata::new(AddressingMode::ZeroPageX, Instruction::AND)),
        0x39 => Some(InstructionMetadata::new(AddressingMode::AbsoluteYIndexed, Instruction::AND)),
        0x3d => Some(InstructionMetadata::new(AddressingMode::AbsoluteXIndexed, Instruction::AND)),
        // BIT
        0x24 => Some(InstructionMetadata::new(AddressingMode::ZeroPage, Instruction::BIT)),
        0x2c => Some(InstructionMetadata::new(AddressingMode::Absolute, Instruction::BIT)),
        // BRK
        0x00 => Some(InstructionMetadata::new(AddressingMode::Implied, Instruction::BRK)),
        // SBC
        0xe1 => Some(InstructionMetadata::new(AddressingMode::ZeroPageIndirectIndexedX, Instruction::SBC)),
        0xe5 => Some(InstructionMetadata::new(AddressingMode::ZeroPage, Instruction::SBC)),
        0xe9 => Some(InstructionMetadata::new(AddressingMode::Immediate, Instruction::SBC)),
        0xed => Some(InstructionMetadata::new(AddressingMode::Absolute, Instruction::SBC)),
        0xf1 => Some(InstructionMetadata::new(AddressingMode::ZeroPageIndirectIndexedY, Instruction::SBC)),
        0xf5 => Some(InstructionMetadata::new(AddressingMode::ZeroPageX, Instruction::SBC)),
        0xf9 => Some(InstructionMetadata::new(AddressingMode::AbsoluteYIndexed, Instruction::SBC)),
        0xfd => Some(InstructionMetadata::new(AddressingMode::AbsoluteXIndexed, Instruction::SBC)),
        // BCC
        0x90 => Some(InstructionMetadata::new(AddressingMode::Relative, Instruction::BCC)),
        // LDX
        0xa2 => Some(InstructionMetadata::new(AddressingMode::Immediate, Instruction::LDX)),
        0xa6 => Some(InstructionMetadata::new(AddressingMode::ZeroPage, Instruction::LDX)),
        0xae => Some(InstructionMetadata::new(AddressingMode::Absolute, Instruction::LDX)),
        0xb6 => Some(InstructionMetadata::new(AddressingMode::ZeroPageY, Instruction::LDX)),
        0xbe => Some(InstructionMetadata::new(AddressingMode::AbsoluteYIndexed, Instruction::LDX)),
        // LDY
        0xa0 => Some(InstructionMetadata::new(AddressingMode::Immediate, Instruction::LDY)),
        0xa4 => Some(InstructionMetadata::new(AddressingMode::ZeroPage, Instruction::LDY)),
        0xac => Some(InstructionMetadata::new(AddressingMode::Absolute, Instruction::LDY)),
        0xb4 => Some(InstructionMetadata::new(AddressingMode::ZeroPageX, Instruction::LDY)),
        0xbc => Some(InstructionMetadata::new(AddressingMode::AbsoluteXIndexed, Instruction::LDY)),
        // STX
        0x86 => Some(InstructionMetadata::new(AddressingMode::ZeroPage, Instruction::STX)),
        0x8e => Some(InstructionMetadata::new(AddressingMode::Absolute, Instruction::STX)),
        0x96 => Some(InstructionMetadata::new(AddressingMode::ZeroPageY, Instruction::STX)),
        // STY
        0x84 => Some(InstructionMetadata::new(AddressingMode::ZeroPage, Instruction::STY)),
        0x8c => Some(InstructionMetadata::new(AddressingMode::Absolute, Instruction::STY)),
        0x94 => Some(InstructionMetadata::new(AddressingMode::ZeroPageX, Instruction::STY)),
        // CPX
        0xe0 => Some(InstructionMetadata::new(AddressingMode::Immediate, Instruction::CPX)),
        0xe4 => Some(InstructionMetadata::new(AddressingMode::ZeroPage, Instruction::CPX)),
        0xec => Some(InstructionMetadata::new(AddressingMode::Absolute, Instruction::CPX)),
        // CPY
        0xc0 => Some(InstructionMetadata::new(AddressingMode::Immediate, Instruction::CPY)),
        0xc4 => Some(InstructionMetadata::new(AddressingMode::ZeroPage, Instruction::CPY)),
        0xcc => Some(InstructionMetadata::new(AddressingMode::Absolute, Instruction::CPY)),
        // DEC
        0xc6 => Some(InstructionMetadata::new(AddressingMode::ZeroPage, Instruction::DEC)),
        0xce => Some(InstructionMetadata::new(AddressingMode::Absolute, Instruction::DEC)),
        0xd6 => Some(InstructionMetadata::new(AddressingMode::ZeroPageX, Instruction::DEC)),
        0xde => Some(InstructionMetadata::new(AddressingMode::AbsoluteXIndexed, Instruction::DEC)),
        // DEX
        0xca => Some(InstructionMetadata::new(AddressingMode::Implied, Instruction::DEX)),
        // DEY
        0x88 => Some(InstructionMetadata::new(AddressingMode::Implied, Instruction::DEY)),
        // EOR
        0x41 => Some(InstructionMetadata::new(AddressingMode::ZeroPageIndirectIndexedX, Instruction::EOR)),
        0x45 => Some(InstructionMetadata::new(AddressingMode::ZeroPage, Instruction::EOR)),
        0x49 => Some(InstructionMetadata::new(AddressingMode::Immediate, Instruction::EOR)),
        0x4d => Some(InstructionMetadata::new(AddressingMode::Absolute, Instruction::EOR)),
        0x51 => Some(InstructionMetadata::new(AddressingMode::ZeroPageIndirectIndexedY, Instruction::EOR)),
        0x55 => Some(InstructionMetadata::new(AddressingMode::ZeroPageX, Instruction::EOR)),
        0x59 => Some(InstructionMetadata::new(AddressingMode::AbsoluteYIndexed, Instruction::EOR)),
        0x5d => Some(InstructionMetadata::new(AddressingMode::AbsoluteXIndexed, Instruction::EOR)),
        // JMP
        0x4c => Some(InstructionMetadata::new(AddressingMode::Absolute, Instruction::JMP)),
        0x6c => Some(InstructionMetadata::new(AddressingMode::AbsoluteIndirect, Instruction::JMP)),
        // NOP
        0xea => Some(InstructionMetadata::new(AddressingMode::Implied, Instruction::NOP)),
        // ORA
        0x01 => Some(InstructionMetadata::new(AddressingMode::ZeroPageIndirectIndexedX, Instruction::ORA)),
        0x05 => Some(InstructionMetadata::new(AddressingMode::ZeroPage, Instruction::ORA)),
        0x09 => Some(InstructionMetadata::new(AddressingMode::Immediate, Instruction::ORA)),
        0x0d => Some(InstructionMetadata::new(AddressingMode::Absolute, Instruction::ORA)),
        0x11 => Some(InstructionMetadata::new(AddressingMode::ZeroPageIndirectIndexedY, Instruction::ORA)),
        0x15 => Some(InstructionMetadata::new(AddressingMode::ZeroPageX, Instruction::ORA)),
        0x19 => Some(InstructionMetadata::new(AddressingMode::AbsoluteYIndexed, Instruction::ORA)),
        0x1d => Some(InstructionMetadata::new(AddressingMode::AbsoluteXIndexed, Instruction::ORA)),
        // LDA
        0xa1 => Some(InstructionMetadata::new(AddressingMode::ZeroPageIndirectIndexedX, Instruction::LDA)),
        0xa5 => Some(InstructionMetadata::new(AddressingMode::ZeroPage, Instruction::LDA)),
        0xa9 => Some(InstructionMetadata::new(AddressingMode::Immediate, Instruction::LDA)),
        0xad => Some(InstructionMetadata::new(AddressingMode::Absolute, Instruction::LDA)),
        0xb1 => Some(InstructionMetadata::new(AddressingMode::ZeroPageIndirectIndexedY, Instruction::LDA)),
        0xb5 => Some(InstructionMetadata::new(AddressingMode::ZeroPageX, Instruction::LDA)),
        0xb9 => Some(InstructionMetadata::new(AddressingMode::AbsoluteYIndexed, Instruction::LDA)),
        0xbd => Some(InstructionMetadata::new(AddressingMode::AbsoluteXIndexed, Instruction::LDA)),
        // PLP
        0x28 => Some(InstructionMetadata::new(AddressingMode::Implied, Instruction::PLP)),
        // STA
        0x81 => Some(InstructionMetadata::new(AddressingMode::ZeroPageIndirectIndexedX, Instruction::STA)),
        0x85 => Some(InstructionMetadata::new(AddressingMode::ZeroPage, Instruction::STA)),
        0x8d => Some(InstructionMetadata::new(AddressingMode::Absolute, Instruction::STA)),
        0x91 => Some(InstructionMetadata::new(AddressingMode::ZeroPageIndirectIndexedY, Instruction::STA)),
        0x95 => Some(InstructionMetadata::new(AddressingMode::ZeroPageX, Instruction::STA)),
        0x99 => Some(InstructionMetadata::new(AddressingMode::AbsoluteYIndexed, Instruction::STA)),
        0x9d => Some(InstructionMetadata::new(AddressingMode::AbsoluteXIndexed, Instruction::STA)),
        // JSR
        0x20 => Some(InstructionMetadata::new(AddressingMode::Absolute, Instruction::JSR)),
        // RTS
        0x60 => Some(InstructionMetadata::new(AddressingMode::Implied, Instruction::RTS)),
        // RTI
        0x40 => Some(InstructionMetadata::new(AddressingMode::Implied, Instruction::RTI)),
        // CMP
        0xc1 => Some(InstructionMetadata::new(AddressingMode::ZeroPageIndirectIndexedX, Instruction::CMP)),
        0xc5 => Some(InstructionMetadata::new(AddressingMode::ZeroPage, Instruction::CMP)),
        0xc9 => Some(InstructionMetadata::new(AddressingMode::Immediate, Instruction::CMP)),
        0xcd => Some(InstructionMetadata::new(AddressingMode::Absolute, Instruction::CMP)),
        0xd1 => Some(InstructionMetadata::new(AddressingMode::ZeroPageIndirectIndexedY, Instruction::CMP)),
        0xd5 => Some(InstructionMetadata::new(AddressingMode::ZeroPageX, Instruction::CMP)),
        0xd9 => Some(InstructionMetadata::new(AddressingMode::AbsoluteYIndexed, Instruction::CMP)),
        0xdd => Some(InstructionMetadata::new(AddressingMode::AbsoluteXIndexed, Instruction::CMP)),
        // BCS
        0xb0 => Some(InstructionMetadata::new(AddressingMode::Relative, Instruction::BCS)),
        // BEQ
        0xf0 => Some(InstructionMetadata::new(AddressingMode::Relative, Instruction::BEQ)),
        // BNE
        0xd0 => Some(InstructionMetadata::new(AddressingMode::Relative, Instruction::BNE)),
        // BMI
        0x30 => Some(InstructionMetadata::new(AddressingMode::Relative, Instruction::BMI)),
        // BPL
        0x10 => Some(InstructionMetadata::new(AddressingMode::Relative, Instruction::BPL)),
        // BVS
        0x70 => Some(InstructionMetadata::new(AddressingMode::Relative, Instruction::BVS)),
        // BVC
        0x50 => Some(InstructionMetadata::new(AddressingMode::Relative, Instruction::BVC)),
        // INC
        0xe6 => Some(InstructionMetadata::new(AddressingMode::ZeroPage, Instruction::INC)),
        0xee => Some(InstructionMetadata::new(AddressingMode::Absolute, Instruction::INC)),
        0xf6 => Some(InstructionMetadata::new(AddressingMode::ZeroPageX, Instruction::INC)),
        0xfe => Some(InstructionMetadata::new(AddressingMode::AbsoluteXIndexed, Instruction::INC)),
        // INX
        0xe8 => Some(InstructionMetadata::new(AddressingMode::Implied, Instruction::INX)),
        // INY
        0xc8 => Some(InstructionMetadata::new(AddressingMode::Implied, Instruction::INY)),
        // TXS
        0x9a => Some(InstructionMetadata::new(AddressingMode::Implied, Instruction::TXS)),
        // TXA
        0x8a => Some(InstructionMetadata::new(AddressingMode::Implied, Instruction::TXA)),
        // TSX
        0xba => Some(InstructionMetadata::new(AddressingMode::Implied, Instruction::TSX)),
        // TYA
        0x98 => Some(InstructionMetadata::new(AddressingMode::Implied, Instruction::TYA)),
        // CLC
        0x18 => Some(InstructionMetadata::new(AddressingMode::Implied, Instruction::CLC)),
        // CLD
        0xd8 => Some(InstructionMetadata::new(AddressingMode::Implied, Instruction::CLD)),
        // CLI
        0x58 => Some(InstructionMetadata::new(AddressingMode::Implied, Instruction::CLI)),
        // CLV
        0xb8 => Some(InstructionMetadata::new(AddressingMode::Implied, Instruction::CLV)),
        // SEC
        0x38 => Some(InstructionMetadata::new(AddressingMode::Implied, Instruction::SEC)),
        // SED
        0xf8 => Some(InstructionMetadata::new(AddressingMode::Implied, Instruction::SED)),
        // SEI
        0x78 => Some(InstructionMetadata::new(AddressingMode::Implied, Instruction::SEI)),
        // PHA
        0x48 => Some(InstructionMetadata::new(AddressingMode::Implied, Instruction::PHA)),
        // PLA
        0x68 => Some(InstructionMetadata::new(AddressingMode::Implied, Instruction::PLA)),
        // TAX
        0xaa => Some(InstructionMetadata::new(AddressingMode::Implied, Instruction::TAX)),
        // TAY
        0xa8 => Some(InstructionMetadata::new(AddressingMode::Implied, Instruction::TAY)),
        // LSR
        0x46 => Some(InstructionMetadata::new(AddressingMode::ZeroPage, Instruction::LSR)),
        0x4a => Some(InstructionMetadata::new(AddressingMode::Accumulator, Instruction::LSR)),
        0x4e => Some(InstructionMetadata::new(AddressingMode::Absolute, Instruction::LSR)),
        0x56 => Some(InstructionMetadata::new(AddressingMode::ZeroPageX, Instruction::LSR)),
        0x5e => Some(InstructionMetadata::new(AddressingMode::AbsoluteXIndexed, Instruction::LSR)),
        // ROR
        0x66 => Some(InstructionMetadata::new(AddressingMode::ZeroPage, Instruction::ROR)),
        0x6a => Some(InstructionMetadata::new(AddressingMode::Accumulator, Instruction::ROR)),
        0x6e => Some(InstructionMetadata::new(AddressingMode::Absolute, Instruction::ROR)),
        0x76 => Some(InstructionMetadata::new(AddressingMode::ZeroPageX, Instruction::ROR)),
        0x7e => Some(InstructionMetadata::new(AddressingMode::AbsoluteXIndexed, Instruction::ROR)),
        // ROL
        0x26 => Some(InstructionMetadata::new(AddressingMode::ZeroPage, Instruction::ROL)),
        0x2a => Some(InstructionMetadata::new(AddressingMode::Accumulator, Instruction::ROL)),
        0x2e => Some(InstructionMetadata::new(AddressingMode::Absolute, Instruction::ROL)),
        0x36 => Some(InstructionMetadata::new(AddressingMode::ZeroPageX, Instruction::ROL)),
        0x3e => Some(InstructionMetadata::new(AddressingMode::AbsoluteXIndexed, Instruction::ROL)),
        // ASL
        0x06 => Some(InstructionMetadata::new(AddressingMode::ZeroPage, Instruction::ASL)),
        0x0a => Some(InstructionMetadata::new(AddressingMode::Accumulator, Instruction::ASL)),
        0x0e => Some(InstructionMetadata::new(AddressingMode::Absolute, Instruction::ASL)),
        0x16 => Some(InstructionMetadata::new(AddressingMode::ZeroPageX, Instruction::ASL)),
        0x1e => Some(InstructionMetadata::new(AddressingMode::AbsoluteXIndexed, Instruction::ASL)),
        // PHP
        0x08 => Some(InstructionMetadata::new(AddressingMode::Implied, Instruction::PHP)),
        _ => None,
    }
}

/// Every decoded opcode is as long as its opcode byte and its mode's operand.
pub proof fn lemma_decoded_length(opcode: u8)
    requires
        opcode_metadata(opcode) is Some,
    ensures
        opcode_metadata(opcode)->0.instruction_byte_length == 1 + operand_length(
            opcode_metadata(opcode)->0.mode,
        ),
{
}

} // verus!
