//! The instruction table.
//!
//! A single opcode byte selects an operation together with an addressing mode,
//! a total encoded length in bytes, and a nominal cycle count.  The cycle
//! count is recorded as metadata only; the engine never accumulates or
//! enforces it.  The mapping is written once as the spec function
//! [`spec_decode`] and once as the executable [`decode`], which is proved to
//! return exactly what the spec function says for every byte.
//!
//! JMP Indirect is tagged `NONE_ADDRESSING`, as the general addressing-mode
//! resolver plays no part in it: the jump handler itself reads the pointer and
//! reproduces the hardware's page-boundary quirk.

use vstd::prelude::*;

verus! {

/// The rule for computing an instruction's operand address from the bytes
/// following the opcode and the current register values.
#[allow(non_camel_case_types)]
#[derive(Clone, Copy, PartialEq, Eq, Structural, Debug)]
pub enum AddressingMode {
    IMMEDIATE,
    ZERO_PAGE,
    ZERO_PAGE_X,
    ZERO_PAGE_Y,
    ABSOLUTE,
    ABSOLUTE_X,
    ABSOLUTE_Y,
    INDIRECT_X,
    INDIRECT_Y,
    NONE_ADDRESSING,
}

/// The semantic operation an opcode performs, independent of addressing mode.
#[allow(non_camel_case_types)]
#[derive(Clone, Copy, PartialEq, Eq, Structural, Debug)]
pub enum Operation {
    BRK,
    NOP,
    ADC,
    SBC,
    AND,
    EOR,
    ORA,
    ASL,
    LSR,
    ROL,
    ROR,
    INC,
    DEC,
    DEX,
    DEY,
    INX,
    INY,
    CMP,
    CPX,
    CPY,
    JMP,
    JSR,
    RTS,
    RTI,
    BCC,
    BCS,
    BEQ,
    BMI,
    BNE,
    BPL,
    BVC,
    BVS,
    BIT,
    LDA,
    LDX,
    LDY,
    STA,
    STX,
    STY,
    CLC,
    CLD,
    CLI,
    CLV,
    SEC,
    SED,
    SEI,
    TAX,
    TAY,
    TSX,
    TXA,
    TXS,
    TYA,
    PHA,
    PHP,
    PLA,
    PLP,
}

/// One row of the instruction table.
#[derive(Clone, Copy, PartialEq, Eq, Structural, Debug)]
pub struct OpCode {
    pub operation: Operation,
    pub mode: AddressingMode,
    /// Total encoded length of the instruction in bytes, opcode included.
    pub length: u8,
    /// Nominal cycle cost; recorded but never enforced.
    pub cycles: u8,
}

/// True for the operations whose handler always resolves a memory operand, so
/// the table must never pair them with `NONE_ADDRESSING`.
pub open spec fn needs_operand(operation: Operation) -> bool {
    match operation {
        Operation::ADC
        | Operation::SBC
        | Operation::AND
        | Operation::EOR
        | Operation::ORA
        | Operation::INC
        | Operation::DEC
        | Operation::CMP
        | Operation::CPX
        | Operation::CPY
        | Operation::BIT
        | Operation::LDA
        | Operation::LDX
        | Operation::LDY
        | Operation::STA
        | Operation::STX
        | Operation::STY => true,
        _ => false,
    }
}

/// Well-formedness of a table row: the invariants the execution engine relies
/// on, established by [`decode`] for every row it returns.
pub open spec fn op_wf(op: OpCode) -> bool {
    &&& 1 <= op.length <= 3
    &&& needs_operand(op.operation) ==> op.mode != AddressingMode::NONE_ADDRESSING
    &&& op.operation is JMP ==> (op.mode is ABSOLUTE || op.mode is NONE_ADDRESSING)
}

/// A populated table row.
pub open spec fn some_op(
    operation: Operation,
    mode: AddressingMode,
    length: u8,
    cycles: u8,
) -> Option<OpCode> {
    Some(OpCode { operation, mode, length, cycles })
}

/// What the instruction table holds for each opcode byte; `None` marks the
/// unofficial opcodes this interpreter does not implement.
pub open spec fn spec_decode(byte: u8) -> Option<OpCode> {
    match byte {
        0x00 => some_op(Operation::BRK, AddressingMode::NONE_ADDRESSING, 1, 7),
        0xEA => some_op(Operation::NOP, AddressingMode::NONE_ADDRESSING, 1, 2),

        0x69 => some_op(Operation::ADC, AddressingMode::IMMEDIATE, 2, 2),
        0x65 => some_op(Operation::ADC, AddressingMode::ZERO_PAGE, 2, 3),
        0x75 => some_op(Operation::ADC, AddressingMode::ZERO_PAGE_X, 2, 4),
        0x6D => some_op(Operation::ADC, AddressingMode::ABSOLUTE, 3, 4),
        0x7D => some_op(Operation::ADC, AddressingMode::ABSOLUTE_X, 3, 4),
        0x79 => some_op(Operation::ADC, AddressingMode::ABSOLUTE_Y, 3, 4),
        0x61 => some_op(Operation::ADC, AddressingMode::INDIRECT_X, 2, 6),
        0x71 => some_op(Operation::ADC, AddressingMode::INDIRECT_Y, 2, 5),

        0xE9 => some_op(Operation::SBC, AddressingMode::IMMEDIATE, 2, 2),
        0xE5 => some_op(Operation::SBC, AddressingMode::ZERO_PAGE, 2, 3),
        0xF5 => some_op(Operation::SBC, AddressingMode::ZERO_PAGE_X, 2, 4),
        0xED => some_op(Operation::SBC, AddressingMode::ABSOLUTE, 3, 4),
        0xFD => some_op(Operation::SBC, AddressingMode::ABSOLUTE_X, 3, 4),
        0xF9 => some_op(Operation::SBC, AddressingMode::ABSOLUTE_Y, 3, 4),
        0xE1 => some_op(Operation::SBC, AddressingMode::INDIRECT_X, 2, 6),
        0xF1 => some_op(Operation::SBC, AddressingMode::INDIRECT_Y, 2, 5),

        0x29 => some_op(Operation::AND, AddressingMode::IMMEDIATE, 2, 2),
        0x25 => some_op(Operation::AND, AddressingMode::ZERO_PAGE, 2, 3),
        0x35 => some_op(Operation::AND, AddressingMode::ZERO_PAGE_X, 2, 4),
        0x2D => some_op(Operation::AND, AddressingMode::ABSOLUTE, 3, 4),
        0x3D => some_op(Operation::AND, AddressingMode::ABSOLUTE_X, 3, 4),
        0x39 => some_op(Operation::AND, AddressingMode::ABSOLUTE_Y, 3, 4),
        0x21 => some_op(Operation::AND, AddressingMode::INDIRECT_X, 2, 6),
        0x31 => some_op(Operation::AND, AddressingMode::INDIRECT_Y, 2, 5),

        0x49 => some_op(Operation::EOR, AddressingMode::IMMEDIATE, 2, 2),
        0x45 => some_op(Operation::EOR, AddressingMode::ZERO_PAGE, 2, 3),
        0x55 => some_op(Operation::EOR, AddressingMode::ZERO_PAGE_X, 2, 4),
        0x4D => some_op(Operation::EOR, AddressingMode::ABSOLUTE, 3, 4),
        0x5D => some_op(Operation::EOR, AddressingMode::ABSOLUTE_X, 3, 4),
        0x59 => some_op(Operation::EOR, AddressingMode::ABSOLUTE_Y, 3, 4),
        0x41 => some_op(Operation::EOR, AddressingMode::INDIRECT_X, 2, 6),
        0x51 => some_op(Operation::EOR, AddressingMode::INDIRECT_Y, 2, 5),

        0x09 => some_op(Operation::ORA, AddressingMode::IMMEDIATE, 2, 2),
        0x05 => some_op(Operation::ORA, AddressingMode::ZERO_PAGE, 2, 3),
        0x15 => some_op(Operation::ORA, AddressingMode::ZERO_PAGE_X, 2, 4),
        0x0D => some_op(Operation::ORA, AddressingMode::ABSOLUTE, 3, 4),
        0x1D => some_op(Operation::ORA, AddressingMode::ABSOLUTE_X, 3, 4),
        0x19 => some_op(Operation::ORA, AddressingMode::ABSOLUTE_Y, 3, 4),
        0x01 => some_op(Operation::ORA, AddressingMode::INDIRECT_X, 2, 6),
        0x11 => some_op(Operation::ORA, AddressingMode::INDIRECT_Y, 2, 5),

        0x0A => some_op(Operation::ASL, AddressingMode::NONE_ADDRESSING, 1, 2),
        0x06 => some_op(Operation::ASL, AddressingMode::ZERO_PAGE, 2, 5),
        0x16 => some_op(Operation::ASL, AddressingMode::ZERO_PAGE_X, 2, 6),
        0x0E => some_op(Operation::ASL, AddressingMode::ABSOLUTE, 3, 6),
        0x1E => some_op(Operation::ASL, AddressingMode::ABSOLUTE_X, 3, 7),

        0x4A => some_op(Operation::LSR, AddressingMode::NONE_ADDRESSING, 1, 2),
        0x46 => some_op(Operation::LSR, AddressingMode::ZERO_PAGE, 2, 5),
        0x56 => some_op(Operation::LSR, AddressingMode::ZERO_PAGE_X, 2, 6),
        0x4E => some_op(Operation::LSR, AddressingMode::ABSOLUTE, 3, 6),
        0x5E => some_op(Operation::LSR, AddressingMode::ABSOLUTE_X, 3, 7),

        0x2A => some_op(Operation::ROL, AddressingMode::NONE_ADDRESSING, 1, 2),
        0x26 => some_op(Operation::ROL, AddressingMode::ZERO_PAGE, 2, 5),
        0x36 => some_op(Operation::ROL, AddressingMode::ZERO_PAGE_X, 2, 6),
        0x2E => some_op(Operation::ROL, AddressingMode::ABSOLUTE, 3, 6),
        0x3E => some_op(Operation::ROL, AddressingMode::ABSOLUTE_X, 3, 7),

        0x6A => some_op(Operation::ROR, AddressingMode::NONE_ADDRESSING, 1, 2),
        0x66 => some_op(Operation::ROR, AddressingMode::ZERO_PAGE, 2, 5),
        0x76 => some_op(Operation::ROR, AddressingMode::ZERO_PAGE_X, 2, 6),
        0x6E => some_op(Operation::ROR, AddressingMode::ABSOLUTE, 3, 6),
        0x7E => some_op(Operation::ROR, AddressingMode::ABSOLUTE_X, 3, 7),

        0xE6 => some_op(Operation::INC, AddressingMode::ZERO_PAGE, 2, 5),
        0xF6 => some_op(Operation::INC, AddressingMode::ZERO_PAGE_X, 2, 6),
        0xEE => some_op(Operation::INC, AddressingMode::ABSOLUTE, 3, 6),
        0xFE => some_op(Operation::INC, AddressingMode::ABSOLUTE_X, 3, 7),

        0xC6 => some_op(Operation::DEC, AddressingMode::ZERO_PAGE, 2, 5),
        0xD6 => some_op(Operation::DEC, AddressingMode::ZERO_PAGE_X, 2, 6),
        0xCE => some_op(Operation::DEC, AddressingMode::ABSOLUTE, 3, 6),
        0xDE => some_op(Operation::DEC, AddressingMode::ABSOLUTE_X, 3, 7),

        0xCA => some_op(Operation::DEX, AddressingMode::NONE_ADDRESSING, 1, 2),
        0x88 => some_op(Operation::DEY, AddressingMode::NONE_ADDRESSING, 1, 2),
        0xE8 => some_op(Operation::INX, AddressingMode::NONE_ADDRESSING, 1, 2),
        0xC8 => some_op(Operation::INY, AddressingMode::NONE_ADDRESSING, 1, 2),

        0xC9 => some_op(Operation::CMP, AddressingMode::IMMEDIATE, 2, 2),
        0xC5 => some_op(Operation::CMP, AddressingMode::ZERO_PAGE, 2, 3),
        0xD5 => some_op(Operation::CMP, AddressingMode::ZERO_PAGE_X, 2, 4),
        0xCD => some_op(Operation::CMP, AddressingMode::ABSOLUTE, 3, 4),
        0xDD => some_op(Operation::CMP, AddressingMode::ABSOLUTE_X, 3, 4),
        0xD9 => some_op(Operation::CMP, AddressingMode::ABSOLUTE_Y, 3, 4),
        0xC1 => some_op(Operation::CMP, AddressingMode::INDIRECT_X, 2, 6),
        0xD1 => some_op(Operation::CMP, AddressingMode::INDIRECT_Y, 2, 5),

        0xE0 => some_op(Operation::CPX, AddressingMode::IMMEDIATE, 2, 2),
        0xE4 => some_op(Operation::CPX, AddressingMode::ZERO_PAGE, 2, 3),
        0xEC => some_op(Operation::CPX, AddressingMode::ABSOLUTE, 3, 4),

        0xC0 => some_op(Operation::CPY, AddressingMode::IMMEDIATE, 2, 2),
        0xC4 => some_op(Operation::CPY, AddressingMode::ZERO_PAGE, 2, 3),
        0xCC => some_op(Operation::CPY, AddressingMode::ABSOLUTE, 3, 4),

        0x4C => some_op(Operation::JMP, AddressingMode::ABSOLUTE, 3, 3),
        0x6C => some_op(Operation::JMP, AddressingMode::NONE_ADDRESSING, 3, 5),
        0x20 => some_op(Operation::JSR, AddressingMode::ABSOLUTE, 3, 6),
        0x60 => some_op(Operation::RTS, AddressingMode::NONE_ADDRESSING, 1, 6),
        0x40 => some_op(Operation::RTI, AddressingMode::NONE_ADDRESSING, 1, 6),

        0x90 => some_op(Operation::BCC, AddressingMode::NONE_ADDRESSING, 2, 2),
        0xB0 => some_op(Operation::BCS, AddressingMode::NONE_ADDRESSING, 2, 2),
        0xF0 => some_op(Operation::BEQ, AddressingMode::NONE_ADDRESSING, 2, 2),
        0x30 => some_op(Operation::BMI, AddressingMode::NONE_ADDRESSING, 2, 2),
        0xD0 => some_op(Operation::BNE, AddressingMode::NONE_ADDRESSING, 2, 2),
        0x10 => some_op(Operation::BPL, AddressingMode::NONE_ADDRESSING, 2, 2),
        0x50 => some_op(Operation::BVC, AddressingMode::NONE_ADDRESSING, 2, 2),
        0x70 => some_op(Operation::BVS, AddressingMode::NONE_ADDRESSING, 2, 2),

        0x24 => some_op(Operation::BIT, AddressingMode::ZERO_PAGE, 2, 3),
        0x2C => some_op(Operation::BIT, AddressingMode::ABSOLUTE, 3, 4),

        0xA9 => some_op(Operation::LDA, AddressingMode::IMMEDIATE, 2, 2),
        0xA5 => some_op(Operation::LDA, AddressingMode::ZERO_PAGE, 2, 3),
        0xB5 => some_op(Operation::LDA, AddressingMode::ZERO_PAGE_X, 2, 4),
        0xAD => some_op(Operation::LDA, AddressingMode::ABSOLUTE, 3, 4),
        0xBD => some_op(Operation::LDA, AddressingMode::ABSOLUTE_X, 3, 4),
        0xB9 => some_op(Operation::LDA, AddressingMode::ABSOLUTE_Y, 3, 4),
        0xA1 => some_op(Operation::LDA, AddressingMode::INDIRECT_X, 2, 6),
        0xB1 => some_op(Operation::LDA, AddressingMode::INDIRECT_Y, 2, 5),

        0xA2 => some_op(Operation::LDX, AddressingMode::IMMEDIATE, 2, 2),
        0xA6 => some_op(Operation::LDX, AddressingMode::ZERO_PAGE, 2, 3),
        0xB6 => some_op(Operation::LDX, AddressingMode::ZERO_PAGE_Y, 2, 4),
        0xAE => some_op(Operation::LDX, AddressingMode::ABSOLUTE, 3, 4),
        0xBE => some_op(Operation::LDX, AddressingMode::ABSOLUTE_Y, 3, 4),

        0xA0 => some_op(Operation::LDY, AddressingMode::IMMEDIATE, 2, 2),
        0xA4 => some_op(Operation::LDY, AddressingMode::ZERO_PAGE, 2, 3),
        0xB4 => some_op(Operation::LDY, AddressingMode::ZERO_PAGE_X, 2, 4),
        0xAC => some_op(Operation::LDY, AddressingMode::ABSOLUTE, 3, 4),
        0xBC => some_op(Operation::LDY, AddressingMode::ABSOLUTE_X, 3, 4),

        0x85 => some_op(Operation::STA, AddressingMode::ZERO_PAGE, 2, 3),
        0x95 => some_op(Operation::STA, AddressingMode::ZERO_PAGE_X, 2, 4),
        0x8D => some_op(Operation::STA, AddressingMode::ABSOLUTE, 3, 4),
        0x9D => some_op(Operation::STA, AddressingMode::ABSOLUTE_X, 3, 5),
        0x99 => some_op(Operation::STA, AddressingMode::ABSOLUTE_Y, 3, 5),
        0x81 => some_op(Operation::STA, AddressingMode::INDIRECT_X, 2, 6),
        0x91 => some_op(Operation::STA, AddressingMode::INDIRECT_Y, 2, 6),

        0x86 => some_op(Operation::STX, AddressingMode::ZERO_PAGE, 2, 3),
        0x96 => some_op(Operation::STX, AddressingMode::ZERO_PAGE_Y, 2, 4),
        0x8E => some_op(Operation::STX, AddressingMode::ABSOLUTE, 3, 4),

        0x84 => some_op(Operation::STY, AddressingMode::ZERO_PAGE, 2, 3),
        0x94 => some_op(Operation::STY, AddressingMode::ZERO_PAGE_X, 2, 4),
        0x8C => some_op(Operation::STY, AddressingMode::ABSOLUTE, 3, 4),

        0x18 => some_op(Operation::CLC, AddressingMode::NONE_ADDRESSING, 1, 2),
        0xD8 => some_op(Operation::CLD, AddressingMode::NONE_ADDRESSING, 1, 2),
        0x58 => some_op(Operation::CLI, AddressingMode::NONE_ADDRESSING, 1, 2),
        0xB8 => some_op(Operation::CLV, AddressingMode::NONE_ADDRESSING, 1, 2),
        0x38 => some_op(Operation::SEC, AddressingMode::NONE_ADDRESSING, 1, 2),
        0xF8 => some_op(Operation::SED, AddressingMode::NONE_ADDRESSING, 1, 2),
        0x78 => some_op(Operation::SEI, AddressingMode::NONE_ADDRESSING, 1, 2),

        0xAA => some_op(Operation::TAX, AddressingMode::NONE_ADDRESSING, 1, 2),
        0xA8 => some_op(Operation::TAY, AddressingMode::NONE_ADDRESSING, 1, 2),
        0xBA => some_op(Operation::TSX, AddressingMode::NONE_ADDRESSING, 1, 2),
        0x8A => some_op(Operation::TXA, AddressingMode::NONE_ADDRESSING, 1, 2),
        0x9A => some_op(Operation::TXS, AddressingMode::NONE_ADDRESSING, 1, 2),
        0x98 => some_op(Operation::TYA, AddressingMode::NONE_ADDRESSING, 1, 2),

        0x48 => some_op(Operation::PHA, AddressingMode::NONE_ADDRESSING, 1, 3),
        0x08 => some_op(Operation::PHP, AddressingMode::NONE_ADDRESSING, 1, 3),
        0x68 => some_op(Operation::PLA, AddressingMode::NONE_ADDRESSING, 1, 4),
        0x28 => some_op(Operation::PLP, AddressingMode::NONE_ADDRESSING, 1, 4),

        _ => None,
    }
}

/// A populated table row, as [`decode`] builds one.
fn found(operation: Operation, mode: AddressingMode, length: u8, cycles: u8) -> (r: Option<
    OpCode,
>)
    ensures
        r == some_op(operation, mode, length, cycles),
{
    Some(OpCode { operation, mode, length, cycles })
}

/// Look an opcode byte up in the instruction table.  Returns `None` for a
/// byte this interpreter does not implement, which the engine reports as an
/// illegal-opcode error.
pub fn decode(byte: u8) -> (r: Option<OpCode>)
    ensures
        r == spec_decode(byte),
        r matches Some(op) ==> op_wf(op),
{
    match byte {
        0x00 => found(Operation::BRK, AddressingMode::NONE_ADDRESSING, 1, 7),
        0xEA => found(Operation::NOP, AddressingMode::NONE_ADDRESSING, 1, 2),

        0x69 => found(Operation::ADC, AddressingMode::IMMEDIATE, 2, 2),
        0x65 => found(Operation::ADC, AddressingMode::ZERO_PAGE, 2, 3),
        0x75 => found(Operation::ADC, AddressingMode::ZERO_PAGE_X, 2, 4),
        0x6D => found(Operation::ADC, AddressingMode::ABSOLUTE, 3, 4),
        0x7D => found(Operation::ADC, AddressingMode::ABSOLUTE_X, 3, 4),
        0x79 => found(Operation::ADC, AddressingMode::ABSOLUTE_Y, 3, 4),
        0x61 => found(Operation::ADC, AddressingMode::INDIRECT_X, 2, 6),
        0x71 => found(Operation::ADC, AddressingMode::INDIRECT_Y, 2, 5),

        0xE9 => found(Operation::SBC, AddressingMode::IMMEDIATE, 2, 2),
        0xE5 => found(Operation::SBC, AddressingMode::ZERO_PAGE, 2, 3),
        0xF5 => found(Operation::SBC, AddressingMode::ZERO_PAGE_X, 2, 4),
        0xED => found(Operation::SBC, AddressingMode::ABSOLUTE, 3, 4),
        0xFD => found(Operation::SBC, AddressingMode::ABSOLUTE_X, 3, 4),
        0xF9 => found(Operation::SBC, AddressingMode::ABSOLUTE_Y, 3, 4),
        0xE1 => found(Operation::SBC, AddressingMode::INDIRECT_X, 2, 6),
        0xF1 => found(Operation::SBC, AddressingMode::INDIRECT_Y, 2, 5),

        0x29 => found(Operation::AND, AddressingMode::IMMEDIATE, 2, 2),
        0x25 => found(Operation::AND, AddressingMode::ZERO_PAGE, 2, 3),
        0x35 => found(Operation::AND, AddressingMode::ZERO_PAGE_X, 2, 4),
        0x2D => found(Operation::AND, AddressingMode::ABSOLUTE, 3, 4),
        0x3D => found(Operation::AND, AddressingMode::ABSOLUTE_X, 3, 4),
        0x39 => found(Operation::AND, AddressingMode::ABSOLUTE_Y, 3, 4),
        0x21 => found(Operation::AND, AddressingMode::INDIRECT_X, 2, 6),
        0x31 => found(Operation::AND, AddressingMode::INDIRECT_Y, 2, 5),

        0x49 => found(Operation::EOR, AddressingMode::IMMEDIATE, 2, 2),
        0x45 => found(Operation::EOR, AddressingMode::ZERO_PAGE, 2, 3),
        0x55 => found(Operation::EOR, AddressingMode::ZERO_PAGE_X, 2, 4),
        0x4D => found(Operation::EOR, AddressingMode::ABSOLUTE, 3, 4),
        0x5D => found(Operation::EOR, AddressingMode::ABSOLUTE_X, 3, 4),
        0x59 => found(Operation::EOR, AddressingMode::ABSOLUTE_Y, 3, 4),
        0x41 => found(Operation::EOR, AddressingMode::INDIRECT_X, 2, 6),
        0x51 => found(Operation::EOR, AddressingMode::INDIRECT_Y, 2, 5),

        0x09 => found(Operation::ORA, AddressingMode::IMMEDIATE, 2, 2),
        0x05 => found(Operation::ORA, AddressingMode::ZERO_PAGE, 2, 3),
        0x15 => found(Operation::ORA, AddressingMode::ZERO_PAGE_X, 2, 4),
        0x0D => found(Operation::ORA, AddressingMode::ABSOLUTE, 3, 4),
        0x1D => found(Operation::ORA, AddressingMode::ABSOLUTE_X, 3, 4),
        0x19 => found(Operation::ORA, AddressingMode::ABSOLUTE_Y, 3, 4),
        0x01 => found(Operation::ORA, AddressingMode::INDIRECT_X, 2, 6),
        0x11 => found(Operation::ORA, AddressingMode::INDIRECT_Y, 2, 5),

        0x0A => found(Operation::ASL, AddressingMode::NONE_ADDRESSING, 1, 2),
        0x06 => found(Operation::ASL, AddressingMode::ZERO_PAGE, 2, 5),
        0x16 => found(Operation::ASL, AddressingMode::ZERO_PAGE_X, 2, 6),
        0x0E => found(Operation::ASL, AddressingMode::ABSOLUTE, 3, 6),
        0x1E => found(Operation::ASL, AddressingMode::ABSOLUTE_X, 3, 7),

        0x4A => found(Operation::LSR, AddressingMode::NONE_ADDRESSING, 1, 2),
        0x46 => found(Operation::LSR, AddressingMode::ZERO_PAGE, 2, 5),
        0x56 => found(Operation::LSR, AddressingMode::ZERO_PAGE_X, 2, 6),
        0x4E => found(Operation::LSR, AddressingMode::ABSOLUTE, 3, 6),
        0x5E => found(Operation::LSR, AddressingMode::ABSOLUTE_X, 3, 7),

        0x2A => found(Operation::ROL, AddressingMode::NONE_ADDRESSING, 1, 2),
        0x26 => found(Operation::ROL, AddressingMode::ZERO_PAGE, 2, 5),
        0x36 => found(Operation::ROL, AddressingMode::ZERO_PAGE_X, 2, 6),
        0x2E => found(Operation::ROL, AddressingMode::ABSOLUTE, 3, 6),
        0x3E => found(Operation::ROL, AddressingMode::ABSOLUTE_X, 3, 7),

        0x6A => found(Operation::ROR, AddressingMode::NONE_ADDRESSING, 1, 2),
        0x66 => found(Operation::ROR, AddressingMode::ZERO_PAGE, 2, 5),
        0x76 => found(Operation::ROR, AddressingMode::ZERO_PAGE_X, 2, 6),
        0x6E => found(Operation::ROR, AddressingMode::ABSOLUTE, 3, 6),
        0x7E => found(Operation::ROR, AddressingMode::ABSOLUTE_X, 3, 7),

        0xE6 => found(Operation::INC, AddressingMode::ZERO_PAGE, 2, 5),
        0xF6 => found(Operation::INC, AddressingMode::ZERO_PAGE_X, 2, 6),
        0xEE => found(Operation::INC, AddressingMode::ABSOLUTE, 3, 6),
        0xFE => found(Operation::INC, AddressingMode::ABSOLUTE_X, 3, 7),

        0xC6 => found(Operation::DEC, AddressingMode::ZERO_PAGE, 2, 5),
        0xD6 => found(Operation::DEC, AddressingMode::ZERO_PAGE_X, 2, 6),
        0xCE => found(Operation::DEC, AddressingMode::ABSOLUTE, 3, 6),
        0xDE => found(Operation::DEC, AddressingMode::ABSOLUTE_X, 3, 7),

        0xCA => found(Operation::DEX, AddressingMode::NONE_ADDRESSING, 1, 2),
        0x88 => found(Operation::DEY, AddressingMode::NONE_ADDRESSING, 1, 2),
        0xE8 => found(Operation::INX, AddressingMode::NONE_ADDRESSING, 1, 2),
        0xC8 => found(Operation::INY, AddressingMode::NONE_ADDRESSING, 1, 2),

        0xC9 => found(Operation::CMP, AddressingMode::IMMEDIATE, 2, 2),
        0xC5 => found(Operation::CMP, AddressingMode::ZERO_PAGE, 2, 3),
        0xD5 => found(Operation::CMP, AddressingMode::ZERO_PAGE_X, 2, 4),
        0xCD => found(Operation::CMP, AddressingMode::ABSOLUTE, 3, 4),
        0xDD => found(Operation::CMP, AddressingMode::ABSOLUTE_X, 3, 4),
        0xD9 => found(Operation::CMP, AddressingMode::ABSOLUTE_Y, 3, 4),
        0xC1 => found(Operation::CMP, AddressingMode::INDIRECT_X, 2, 6),
        0xD1 => found(Operation::CMP, AddressingMode::INDIRECT_Y, 2, 5),

        0xE0 => found(Operation::CPX, AddressingMode::IMMEDIATE, 2, 2),
        0xE4 => found(Operation::CPX, AddressingMode::ZERO_PAGE, 2, 3),
        0xEC => found(Operation::CPX, AddressingMode::ABSOLUTE, 3, 4),

        0xC0 => found(Operation::CPY, AddressingMode::IMMEDIATE, 2, 2),
        0xC4 => found(Operation::CPY, AddressingMode::ZERO_PAGE, 2, 3),
        0xCC => found(Operation::CPY, AddressingMode::ABSOLUTE, 3, 4),

        0x4C => found(Operation::JMP, AddressingMode::ABSOLUTE, 3, 3),
        0x6C => found(Operation::JMP, AddressingMode::NONE_ADDRESSING, 3, 5),
        0x20 => found(Operation::JSR, AddressingMode::ABSOLUTE, 3, 6),
        0x60 => found(Operation::RTS, AddressingMode::NONE_ADDRESSING, 1, 6),
        0x40 => found(Operation::RTI, AddressingMode::NONE_ADDRESSING, 1, 6),

        0x90 => found(Operation::BCC, AddressingMode::NONE_ADDRESSING, 2, 2),
        0xB0 => found(Operation::BCS, AddressingMode::NONE_ADDRESSING, 2, 2),
        0xF0 => found(Operation::BEQ, AddressingMode::NONE_ADDRESSING, 2, 2),
        0x30 => found(Operation::BMI, AddressingMode::NONE_ADDRESSING, 2, 2),
        0xD0 => found(Operation::BNE, AddressingMode::NONE_ADDRESSING, 2, 2),
        0x10 => found(Operation::BPL, AddressingMode::NONE_ADDRESSING, 2, 2),
        0x50 => found(Operation::BVC, AddressingMode::NONE_ADDRESSING, 2, 2),
        0x70 => found(Operation::BVS, AddressingMode::NONE_ADDRESSING, 2, 2),

        0x24 => found(Operation::BIT, AddressingMode::ZERO_PAGE, 2, 3),
        0x2C => found(Operation::BIT, AddressingMode::ABSOLUTE, 3, 4),

        0xA9 => found(Operation::LDA, AddressingMode::IMMEDIATE, 2, 2),
        0xA5 => found(Operation::LDA, AddressingMode::ZERO_PAGE, 2, 3),
        0xB5 => found(Operation::LDA, AddressingMode::ZERO_PAGE_X, 2, 4),
        0xAD => found(Operation::LDA, AddressingMode::ABSOLUTE, 3, 4),
        0xBD => found(Operation::LDA, AddressingMode::ABSOLUTE_X, 3, 4),
        0xB9 => found(Operation::LDA, AddressingMode::ABSOLUTE_Y, 3, 4),
        0xA1 => found(Operation::LDA, AddressingMode::INDIRECT_X, 2, 6),
        0xB1 => found(Operation::LDA, AddressingMode::INDIRECT_Y, 2, 5),

        0xA2 => found(Operation::LDX, AddressingMode::IMMEDIATE, 2, 2),
        0xA6 => found(Operation::LDX, AddressingMode::ZERO_PAGE, 2, 3),
        0xB6 => found(Operation::LDX, AddressingMode::ZERO_PAGE_Y, 2, 4),
        0xAE => found(Operation::LDX, AddressingMode::ABSOLUTE, 3, 4),
        0xBE => found(Operation::LDX, AddressingMode::ABSOLUTE_Y, 3, 4),

        0xA0 => found(Operation::LDY, AddressingMode::IMMEDIATE, 2, 2),
        0xA4 => found(Operation::LDY, AddressingMode::ZERO_PAGE, 2, 3),
        0xB4 => found(Operation::LDY, AddressingMode::ZERO_PAGE_X, 2, 4),
        0xAC => found(Operation::LDY, AddressingMode::ABSOLUTE, 3, 4),
        0xBC => found(Operation::LDY, AddressingMode::ABSOLUTE_X, 3, 4),

        0x85 => found(Operation::STA, AddressingMode::ZERO_PAGE, 2, 3),
        0x95 => found(Operation::STA, AddressingMode::ZERO_PAGE_X, 2, 4),
        0x8D => found(Operation::STA, AddressingMode::ABSOLUTE, 3, 4),
        0x9D => found(Operation::STA, AddressingMode::ABSOLUTE_X, 3, 5),
        0x99 => found(Operation::STA, AddressingMode::ABSOLUTE_Y, 3, 5),
        0x81 => found(Operation::STA, AddressingMode::INDIRECT_X, 2, 6),
        0x91 => found(Operation::STA, AddressingMode::INDIRECT_Y, 2, 6),

        0x86 => found(Operation::STX, AddressingMode::ZERO_PAGE, 2, 3),
        0x96 => found(Operation::STX, AddressingMode::ZERO_PAGE_Y, 2, 4),
        0x8E => found(Operation::STX, AddressingMode::ABSOLUTE, 3, 4),

        0x84 => found(Operation::STY, AddressingMode::ZERO_PAGE, 2, 3),
        0x94 => found(Operation::STY, AddressingMode::ZERO_PAGE_X, 2, 4),
        0x8C => found(Operation::STY, AddressingMode::ABSOLUTE, 3, 4),

        0x18 => found(Operation::CLC, AddressingMode::NONE_ADDRESSING, 1, 2),
        0xD8 => found(Operation::CLD, AddressingMode::NONE_ADDRESSING, 1, 2),
        0x58 => found(Operation::CLI, AddressingMode::NONE_ADDRESSING, 1, 2),
        0xB8 => found(Operation::CLV, AddressingMode::NONE_ADDRESSING, 1, 2),
        0x38 => found(Operation::SEC, AddressingMode::NONE_ADDRESSING, 1, 2),
        0xF8 => found(Operation::SED, AddressingMode::NONE_ADDRESSING, 1, 2),
        0x78 => found(Operation::SEI, AddressingMode::NONE_ADDRESSING, 1, 2),

        0xAA => found(Operation::TAX, AddressingMode::NONE_ADDRESSING, 1, 2),
        0xA8 => found(Operation::TAY, AddressingMode::NONE_ADDRESSING, 1, 2),
        0xBA => found(Operation::TSX, AddressingMode::NONE_ADDRESSING, 1, 2),
        0x8A => found(Operation::TXA, AddressingMode::NONE_ADDRESSING, 1, 2),
        0x9A => found(Operation::TXS, AddressingMode::NONE_ADDRESSING, 1, 2),
        0x98 => found(Operation::TYA, AddressingMode::NONE_ADDRESSING, 1, 2),

        0x48 => found(Operation::PHA, AddressingMode::NONE_ADDRESSING, 1, 3),
        0x08 => found(Operation::PHP, AddressingMode::NONE_ADDRESSING, 1, 3),
        0x68 => found(Operation::PLA, AddressingMode::NONE_ADDRESSING, 1, 4),
        0x28 => found(Operation::PLP, AddressingMode::NONE_ADDRESSING, 1, 4),

        _ => None,
    }
}

} // verus!
