//! The opcode dispatch table: each of the 256 opcode bytes bound to an
//! instruction, an addressing mode and a cycle cost.

use vstd::prelude::*;

use crate::mos6502::AddressingMode;

verus! {

/// The instructions the dispatch table can bind an opcode to. Every opcode
/// byte with no assigned instruction maps to [`Instruction::NotImplemented`].
#[derive(Clone, Copy, Debug, PartialEq, Eq, Structural)]
pub enum Instruction {
    /// The ADC instruction.
    Adc,
    /// The AND instruction.
    And,
    /// The ASL instruction.
    Asl,
    /// The BCC instruction.
    Bcc,
    /// The BCS instruction.
    Bcs,
    /// The BEQ instruction.
    Beq,
    /// The BIT instruction.
    Bit,
    /// The BMI instruction.
    Bmi,
    /// The BNE instruction.
    Bne,
    /// The BPL instruction.
    Bpl,
    /// The BRK instruction.
    Brk,
    /// The BVC instruction.
    Bvc,
    /// The BVS instruction.
    Bvs,
    /// The CLC instruction.
    Clc,
    /// The CLD instruction.
    Cld,
    /// The CLI instruction.
    Cli,
    /// The CLV instruction.
    Clv,
    /// The CMP instruction.
    Cmp,
    /// The CPX instruction.
    Cpx,
    /// The CPY instruction.
    Cpy,
    /// The DEC instruction.
    Dec,
    /// The DEX instruction.
    Dex,
    /// The DEY instruction.
    Dey,
    /// The EOR instruction.
    Eor,
    /// The INC instruction.
    Inc,
    /// The INX instruction.
    Inx,
    /// The INY instruction.
    Iny,
    /// The JMP instruction.
    Jmp,
    /// The JSR instruction.
    Jsr,
    /// The LDA instruction.
    Lda,
    /// The LDX instruction.
    Ldx,
    /// The LDY instruction.
    Ldy,
    /// The LSR instruction.
    Lsr,
    /// The NOP instruction.
    Nop,
    /// The ORA instruction.
    Ora,
    /// The PHA instruction.
    Pha,
    /// The PHP instruction.
    Php,
    /// The PLA instruction.
    Pla,
    /// The PLP instruction.
    Plp,
    /// The ROL instruction.
    Rol,
    /// The ROR instruction.
    Ror,
    /// The RTI instruction.
    Rti,
    /// The RTS instruction.
    Rts,
    /// The SBC instruction.
    Sbc,
    /// The SEC instruction.
    Sec,
    /// The SED instruction.
    Sed,
    /// The SEI instruction.
    Sei,
    /// The STA instruction.
    Sta,
    /// The STX instruction.
    Stx,
    /// The STY instruction.
    Sty,
    /// The TAX instruction.
    Tax,
    /// The TAY instruction.
    Tay,
    /// The TSX instruction.
    Tsx,
    /// The TXA instruction.
    Txa,
    /// The TXS instruction.
    Txs,
    /// The TYA instruction.
    Tya,
    /// The unassigned-opcode marker.
    NotImplemented,
}

/// A dispatch entry's cycle cost: either fixed outright, or a base to which
/// the handler's extra cycles (branches taken, pages crossed) are added.
#[derive(Clone, Copy, Debug, PartialEq, Eq, Structural)]
pub enum Cycles {
    /// The instruction always costs this many cycles.
    Fixed(u32),
    /// The handler's reported extra cycles are added to this base.
    Variable(u32),
}

/// One entry of the dispatch table: the instruction an opcode byte names,
/// the addressing mode it uses, and its cycle cost.
#[derive(Clone, Copy, Debug, PartialEq, Eq, Structural)]
pub struct DecodeEntry {
    /// The instruction to execute.
    pub inst: Instruction,
    /// The addressing mode the operand is resolved with.
    pub mode: AddressingMode,
    /// The cycle cost model of the entry.
    pub cycles: Cycles,
}

/// The dispatch table as a function: the entry bound to each opcode byte.
pub open spec fn decode_spec(opcode: u8) -> DecodeEntry {
    match opcode {
        0x00u8 => DecodeEntry { inst: Instruction::Brk, mode: AddressingMode::Implied, cycles: Cycles::Fixed(7u32) },
        0x01u8 => DecodeEntry { inst: Instruction::Ora, mode: AddressingMode::XIndexIndirect, cycles: Cycles::Fixed(6u32) },
        0x02u8 => DecodeEntry { inst: Instruction::NotImplemented, mode: AddressingMode::Implied, cycles: Cycles::Fixed(0u32) },
        0x03u8 => DecodeEntry { inst: Instruction::NotImplemented, mode: AddressingMode::Implied, cycles: Cycles::Fixed(0u32) },
        0x04u8 => DecodeEntry { inst: Instruction::NotImplemented, mode: AddressingMode::Implied, cycles: Cycles::Fixed(0u32) },
        0x05u8 => DecodeEntry { inst: Instruction::Ora, mode: AddressingMode::Zeropage, cycles: Cycles::Fixed(3u32) },
        0x06u8 => DecodeEntry { inst: Instruction::Asl, mode: AddressingMode::Zeropage, cycles: Cycles::Fixed(5u32) },
        0x07u8 => DecodeEntry { inst: Instruction::NotImplemented, mode: AddressingMode::Implied, cycles: Cycles::Fixed(0u32) },
        0x08u8 => DecodeEntry { inst: Instruction::Php, mode: AddressingMode::Implied, cycles: Cycles::Fixed(3u32) },
        0x09u8 => DecodeEntry { inst: Instruction::Ora, mode: AddressingMode::Immediate, cycles: Cycles::Fixed(2u32) },
        0x0au8 => DecodeEntry { inst: Instruction::Asl, mode: AddressingMode::Accumulator, cycles: Cycles::Fixed(2u32) },
        0x0bu8 => DecodeEntry { inst: Instruction::NotImplemented, mode: AddressingMode::Implied, cycles: Cycles::Fixed(0u32) },
        0x0cu8 => DecodeEntry { inst: Instruction::NotImplemented, mode: AddressingMode::Implied, cycles: Cycles::Fixed(0u32) },
        0x0du8 => DecodeEntry { inst: Instruction::Ora, mode: AddressingMode::Absolute, cycles: Cycles::Fixed(4u32) },
        0x0eu8 => DecodeEntry { inst: Instruction::Asl, mode: AddressingMode::Absolute, cycles: Cycles::Fixed(6u32) },
        0x0fu8 => DecodeEntry { inst: Instruction::NotImplemented, mode: AddressingMode::Implied, cycles: Cycles::Fixed(0u32) },
        0x10u8 => DecodeEntry { inst: Instruction::Bpl, mode: AddressingMode::Relative, cycles: Cycles::Variable(2u32) },
        0x11u8 => DecodeEntry { inst: Instruction::Ora, mode: AddressingMode::IndirectYIndex, cycles: Cycles::Variable(5u32) },
        0x12u8 => DecodeEntry { inst: Instruction::NotImplemented, mode: AddressingMode::Implied, cycles: Cycles::Fixed(0u32) },
        0x13u8 => DecodeEntry { inst: Instruction::NotImplemented, mode: AddressingMode::Implied, cycles: Cycles::Fixed(0u32) },
        0x14u8 => DecodeEntry { inst: Instruction::NotImplemented, mode: AddressingMode::Implied, cycles: Cycles::Fixed(0u32) },
        0x15u8 => DecodeEntry { inst: Instruction::Ora, mode: AddressingMode::ZeropageXIndex, cycles: Cycles::Fixed(4u32) },
        0x16u8 => DecodeEntry { inst: Instruction::Asl, mode: AddressingMode::ZeropageXIndex, cycles: Cycles::Fixed(6u32) },
        0x17u8 => DecodeEntry { inst: Instruction::NotImplemented, mode: AddressingMode::Implied, cycles: Cycles::Fixed(0u32) },
        0x18u8 => DecodeEntry { inst: Instruction::Clc, mode: AddressingMode::Implied, cycles: Cycles::Fixed(2u32) },
        0x19u8 => DecodeEntry { inst: Instruction::Ora, mode: AddressingMode::AbsoluteYIndex, cycles: Cycles::Variable(4u32) },
        0x1au8 => DecodeEntry { inst: Instruction::NotImplemented, mode: AddressingMode::Implied, cycles: Cycles::Fixed(0u32) },
        0x1bu8 => DecodeEntry { inst: Instruction::NotImplemented, mode: AddressingMode::Implied, cycles: Cycles::Fixed(0u32) },
        0x1cu8 => DecodeEntry { inst: Instruction::NotImplemented, mode: AddressingMode::Implied, cycles: Cycles::Fixed(0u32) },
        0x1du8 => DecodeEntry { inst: Instruction::Ora, mode: AddressingMode::AbsoluteXIndex, cycles: Cycles::Variable(4u32) },
        0x1eu8 => DecodeEntry { inst: Instruction::Asl, mode: AddressingMode::AbsoluteXIndex, cycles: Cycles::Fixed(7u32) },
        0x1fu8 => DecodeEntry { inst: Instruction::NotImplemented, mode: AddressingMode::Implied, cycles: Cycles::Fixed(0u32) },
        0x20u8 => DecodeEntry { inst: Instruction::Jsr, mode: AddressingMode::Absolute, cycles: Cycles::Fixed(6u32) },
        0x21u8 => DecodeEntry { inst: Instruction::And, mode: AddressingMode::XIndexIndirect, cycles: Cycles::Fixed(6u32) },
        0x22u8 => DecodeEntry { inst: Instruction::NotImplemented, mode: AddressingMode::Implied, cycles: Cycles::Fixed(0u32) },
        0x23u8 => DecodeEntry { inst: Instruction::NotImplemented, mode: AddressingMode::Implied, cycles: Cycles::Fixed(0u32) },
        0x24u8 => DecodeEntry { inst: Instruction::Bit, mode: AddressingMode::Zeropage, cycles: Cycles::Fixed(3u32) },
        0x25u8 => DecodeEntry { inst: Instruction::And, mode: AddressingMode::Zeropage, cycles: Cycles::Fixed(3u32) },
        0x26u8 => DecodeEntry { inst: Instruction::Rol, mode: AddressingMode::Zeropage, cycles: Cycles::Fixed(5u32) },
        0x27u8 => DecodeEntry { inst: Instruction::NotImplemented, mode: AddressingMode::Implied, cycles: Cycles::Fixed(0u32) },
        0x28u8 => DecodeEntry { inst: Instruction::Plp, mode: AddressingMode::Implied, cycles: Cycles::Fixed(4u32) },
        0x29u8 => DecodeEntry { inst: Instruction::And, mode: AddressingMode::Immediate, cycles: Cycles::Fixed(2u32) },
        0x2au8 => DecodeEntry { inst: Instruction::Rol, mode: AddressingMode::Accumulator, cycles: Cycles::Fixed(2u32) },
        0x2bu8 => DecodeEntry { inst: Instruction::NotImplemented, mode: AddressingMode::Implied, cycles: Cycles::Fixed(0u32) },
        0x2cu8 => DecodeEntry { inst: Instruction::Bit, mode: AddressingMode::Absolute, cycles: Cycles::Fixed(4u32) },
        0x2du8 => DecodeEntry { inst: Instruction::And, mode: AddressingMode::Absolute, cycles: Cycles::Fixed(4u32) },
        0x2eu8 => DecodeEntry { inst: Instruction::Rol, mode: AddressingMode::Absolute, cycles: Cycles::Fixed(6u32) },
        0x2fu8 => DecodeEntry { inst: Instruction::NotImplemented, mode: AddressingMode::Implied, cycles: Cycles::Fixed(0u32) },
        0x30u8 => DecodeEntry { inst: Instruction::Bmi, mode: AddressingMode::Relative, cycles: Cycles::Variable(2u32) },
        0x31u8 => DecodeEntry { inst: Instruction::And, mode: AddressingMode::IndirectYIndex, cycles: Cycles::Variable(5u32) },
        0x32u8 => DecodeEntry { inst: Instruction::NotImplemented, mode: AddressingMode::Implied, cycles: Cycles::Fixed(0u32) },
        0x33u8 => DecodeEntry { inst: Instruction::NotImplemented, mode: AddressingMode::Implied, cycles: Cycles::Fixed(0u32) },
        0x34u8 => DecodeEntry { inst: Instruction::NotImplemented, mode: AddressingMode::Implied, cycles: Cycles::Fixed(0u32) },
        0x35u8 => DecodeEntry { inst: Instruction::And, mode: AddressingMode::ZeropageXIndex, cycles: Cycles::Fixed(4u32) },
        0x36u8 => DecodeEntry { inst: Instruction::Rol, mode: AddressingMode::ZeropageXIndex, cycles: Cycles::Fixed(6u32) },
        0x37u8 => DecodeEntry { inst: Instruction::NotImplemented, mode: AddressingMode::Implied, cycles: Cycles::Fixed(0u32) },
        0x38u8 => DecodeEntry { inst: Instruction::Sec, mode: AddressingMode::Implied, cycles: Cycles::Fixed(2u32) },
        0x39u8 => DecodeEntry { inst: Instruction::And, mode: AddressingMode::AbsoluteYIndex, cycles: Cycles::Variable(4u32) },
        0x3au8 => DecodeEntry { inst: Instruction::NotImplemented, mode: AddressingMode::Implied, cycles: Cycles::Fixed(0u32) },
        0x3bu8 => DecodeEntry { inst: Instruction::NotImplemented, mode: AddressingMode::Implied, cycles: Cycles::Fixed(0u32) },
        0x3cu8 => DecodeEntry { inst: Instruction::NotImplemented, mode: AddressingMode::Implied, cycles: Cycles::Fixed(0u32) },
        0x3du8 => DecodeEntry { inst: Instruction::And, mode: AddressingMode::AbsoluteXIndex, cycles: Cycles::Variable(4u32) },
        0x3eu8 => DecodeEntry { inst: Instruction::Rol, mode: AddressingMode::AbsoluteXIndex, cycles: Cycles::Fixed(7u32) },
        0x3fu8 => DecodeEntry { inst: Instruction::NotImplemented, mode: AddressingMode::Implied, cycles: Cycles::Fixed(0u32) },
        0x40u8 => DecodeEntry { inst: Instruction::Rti, mode: AddressingMode::Implied, cycles: Cycles::Fixed(6u32) },
        0x41u8 => DecodeEntry { inst: Instruction::Eor, mode: AddressingMode::XIndexIndirect, cycles: Cycles::Fixed(6u32) },
        0x42u8 => DecodeEntry { inst: Instruction::NotImplemented, mode: AddressingMode::Implied, cycles: Cycles::Fixed(0u32) },
        0x43u8 => DecodeEntry { inst: Instruction::NotImplemented, mode: AddressingMode::Implied, cycles: Cycles::Fixed(0u32) },
        0x44u8 => DecodeEntry { inst: Instruction::NotImplemented, mode: AddressingMode::Implied, cycles: Cycles::Fixed(0u32) },
        0x45u8 => DecodeEntry { inst: Instruction::Eor, mode: AddressingMode::Zeropage, cycles: Cycles::Fixed(3u32) },
        0x46u8 => DecodeEntry { inst: Instruction::Lsr, mode: AddressingMode::Zeropage, cycles: Cycles::Fixed(5u32) },
        0x47u8 => DecodeEntry { inst: Instruction::NotImplemented, mode: AddressingMode::Implied, cycles: Cycles::Fixed(0u32) },
        0x48u8 => DecodeEntry { inst: Instruction::Pha, mode: AddressingMode::Implied, cycles: Cycles::Fixed(3u32) },
        0x49u8 => DecodeEntry { inst: Instruction::Eor, mode: AddressingMode::Immediate, cycles: Cycles::Fixed(2u32) },
        0x4au8 => DecodeEntry { inst: Instruction::Lsr, mode: AddressingMode::Accumulator, cycles: Cycles::Fixed(2u32) },
        0x4bu8 => DecodeEntry { inst: Instruction::NotImplemented, mode: AddressingMode::Implied, cycles: Cycles::Fixed(0u32) },
        0x4cu8 => DecodeEntry { inst: Instruction::Jmp, mode: AddressingMode::Absolute, cycles: Cycles::Fixed(3u32) },
        0x4du8 => DecodeEntry { inst: Instruction::Eor, mode: AddressingMode::Absolute, cycles: Cycles::Fixed(4u32) },
        0x4eu8 => DecodeEntry { inst: Instruction::Lsr, mode: AddressingMode::Absolute, cycles: Cycles::Fixed(6u32) },
        0x4fu8 => DecodeEntry { inst: Instruction::NotImplemented, mode: AddressingMode::Implied, cycles: Cycles::Fixed(0u32) },
        0x50u8 => DecodeEntry { inst: Instruction::Bvc, mode: AddressingMode::Relative, cycles: Cycles::Variable(2u32) },
        0x51u8 => DecodeEntry { inst: Instruction::Eor, mode: AddressingMode::IndirectYIndex, cycles: Cycles::Variable(5u32) },
        0x52u8 => DecodeEntry { inst: Instruction::NotImplemented, mode: AddressingMode::Implied, cycles: Cycles::Fixed(0u32) },
        0x53u8 => DecodeEntry { inst: Instruction::NotImplemented, mode: AddressingMode::Implied, cycles: Cycles::Fixed(0u32) },
        0x54u8 => DecodeEntry { inst: Instruction::NotImplemented, mode: AddressingMode::Implied, cycles: Cycles::Fixed(0u32) },
        0x55u8 => DecodeEntry { inst: Instruction::Eor, mode: AddressingMode::ZeropageXIndex, cycles: Cycles::Fixed(4u32) },
        0x56u8 => DecodeEntry { inst: Instruction::Lsr, mode: AddressingMode::ZeropageXIndex, cycles: Cycles::Fixed(6u32) },
        0x57u8 => DecodeEntry { inst: Instruction::NotImplemented, mode: AddressingMode::Implied, cycles: Cycles::Fixed(0u32) },
        0x58u8 => DecodeEntry { inst: Instruction::Cli, mode: AddressingMode::Implied, cycles: Cycles::Fixed(2u32) },
        0x59u8 => DecodeEntry { inst: Instruction::Eor, mode: AddressingMode::AbsoluteYIndex, cycles: Cycles::Variable(4u32) },
        0x5au8 => DecodeEntry { inst: Instruction::NotImplemented, mode: AddressingMode::Implied, cycles: Cycles::Fixed(0u32) },
        0x5bu8 => DecodeEntry { inst: Instruction::NotImplemented, mode: AddressingMode::Implied, cycles: Cycles::Fixed(0u32) },
        0x5cu8 => DecodeEntry { inst: Instruction::NotImplemented, mode: AddressingMode::Implied, cycles: Cycles::Fixed(0u32) },
        0x5du8 => DecodeEntry { inst: Instruction::Eor, mode: AddressingMode::AbsoluteXIndex, cycles: Cycles::Variable(4u32) },
        0x5eu8 => DecodeEntry { inst: Instruction::Lsr, mode: AddressingMode::AbsoluteXIndex, cycles: Cycles::Fixed(7u32) },
        0x5fu8 => DecodeEntry { inst: Instruction::NotImplemented, mode: AddressingMode::Implied, cycles: Cycles::Fixed(0u32) },
        0x60u8 => DecodeEntry { inst: Instruction::Rts, mode: AddressingMode::Implied, cycles: Cycles::Fixed(6u32) },
        0x61u8 => DecodeEntry { inst: Instruction::Adc, mode: AddressingMode::XIndexIndirect, cycles: Cycles::Fixed(6u32) },
        0x62u8 => DecodeEntry { inst: Instruction::NotImplemented, mode: AddressingMode::Implied, cycles: Cycles::Fixed(0u32) },
        0x63u8 => DecodeEntry { inst: Instruction::NotImplemented, mode: AddressingMode::Implied, cycles: Cycles::Fixed(0u32) },
        0x64u8 => DecodeEntry { inst: Instruction::NotImplemented, mode: AddressingMode::Implied, cycles: Cycles::Fixed(0u32) },
        0x65u8 => DecodeEntry { inst: Instruction::Adc, mode: AddressingMode::Zeropage, cycles: Cycles::Fixed(3u32) },
        0x66u8 => DecodeEntry { inst: Instruction::Ror, mode: AddressingMode::Zeropage, cycles: Cycles::Fixed(5u32) },
        0x67u8 => DecodeEntry { inst: Instruction::NotImplemented, mode: AddressingMode::Implied, cycles: Cycles::Fixed(0u32) },
        0x68u8 => DecodeEntry { inst: Instruction::Pla, mode: AddressingMode::Implied, cycles: Cycles::Fixed(4u32) },
        0x69u8 => DecodeEntry { inst: Instruction::Adc, mode: AddressingMode::Immediate, cycles: Cycles::Fixed(2u32) },
        0x6au8 => DecodeEntry { inst: Instruction::Ror, mode: AddressingMode::Accumulator, cycles: Cycles::Fixed(2u32) },
        0x6bu8 => DecodeEntry { inst: Instruction::NotImplemented, mode: AddressingMode::Implied, cycles: Cycles::Fixed(0u32) },
        0x6cu8 => DecodeEntry { inst: Instruction::Jmp, mode: AddressingMode::Indirect, cycles: Cycles::Fixed(5u32) },
        0x6du8 => DecodeEntry { inst: Instruction::Adc, mode: AddressingMode::Absolute, cycles: Cycles::Fixed(4u32) },
        0x6eu8 => DecodeEntry { inst: Instruction::Ror, mode: AddressingMode::Absolute, cycles: Cycles::Fixed(6u32) },
        0x6fu8 => DecodeEntry { inst: Instruction::NotImplemented, mode: AddressingMode::Implied, cycles: Cycles::Fixed(0u32) },
        0x70u8 => DecodeEntry { inst: Instruction::Bvs, mode: AddressingMode::Relative, cycles: Cycles::Variable(2u32) },
        0x71u8 => DecodeEntry { inst: Instruction::Adc, mode: AddressingMode::IndirectYIndex, cycles: Cycles::Variable(5u32) },
        0x72u8 => DecodeEntry { inst: Instruction::NotImplemented, mode: AddressingMode::Implied, cycles: Cycles::Fixed(0u32) },
        0x73u8 => DecodeEntry { inst: Instruction::NotImplemented, mode: AddressingMode::Implied, cycles: Cycles::Fixed(0u32) },
        0x74u8 => DecodeEntry { inst: Instruction::NotImplemented, mode: AddressingMode::Implied, cycles: Cycles::Fixed(0u32) },
        0x75u8 => DecodeEntry { inst: Instruction::Adc, mode: AddressingMode::ZeropageXIndex, cycles: Cycles::Fixed(4u32) },
        0x76u8 => DecodeEntry { inst: Instruction::Ror, mode: AddressingMode::ZeropageXIndex, cycles: Cycles::Fixed(6u32) },
        0x77u8 => DecodeEntry { inst: Instruction::NotImplemented, mode: AddressingMode::Implied, cycles: Cycles::Fixed(0u32) },
        0x78u8 => DecodeEntry { inst: Instruction::Sei, mode: AddressingMode::Implied, cycles: Cycles::Fixed(2u32) },
        0x79u8 => DecodeEntry { inst: Instruction::Adc, mode: AddressingMode::AbsoluteYIndex, cycles: Cycles::Variable(4u32) },
        0x7au8 => DecodeEntry { inst: Instruction::NotImplemented, mode: AddressingMode::Implied, cycles: Cycles::Fixed(0u32) },
        0x7bu8 => DecodeEntry { inst: Instruction::NotImplemented, mode: AddressingMode::Implied, cycles: Cycles::Fixed(0u32) },
        0x7cu8 => DecodeEntry { inst: Instruction::NotImplemented, mode: AddressingMode::Implied, cycles: Cycles::Fixed(0u32) },
        0x7du8 => DecodeEntry { inst: Instruction::Adc, mode: AddressingMode::AbsoluteXIndex, cycles: Cycles::Variable(4u32) },
        0x7eu8 => DecodeEntry { inst: Instruction::Ror, mode: AddressingMode::AbsoluteXIndex, cycles: Cycles::Fixed(7u32) },
        0x7fu8 => DecodeEntry { inst: Instruction::NotImplemented, mode: AddressingMode::Implied, cycles: Cycles::Fixed(0u32) },
        0x80u8 => DecodeEntry { inst: Instruction::NotImplemented, mode: AddressingMode::Implied, cycles: Cycles::Fixed(0u32) },
        0x81u8 => DecodeEntry { inst: Instruction::Sta, mode: AddressingMode::XIndexIndirect, cycles: Cycles::Fixed(6u32) },
        0x82u8 => DecodeEntry { inst: Instruction::NotImplemented, mode: AddressingMode::Implied, cycles: Cycles::Fixed(0u32) },
        0x83u8 => DecodeEntry { inst: Instruction::NotImplemented, mode: AddressingMode::Implied, cycles: Cycles::Fixed(0u32) },
        0x84u8 => DecodeEntry { inst: Instruction::Sty, mode: AddressingMode::Zeropage, cycles: Cycles::Fixed(3u32) },
        0x85u8 => DecodeEntry { inst: Instruction::Sta, mode: AddressingMode::Zeropage, cycles: Cycles::Fixed(3u32) },
        0x86u8 => DecodeEntry { inst: Instruction::Stx, mode: AddressingMode::Zeropage, cycles: Cycles::Fixed(3u32) },
        0x87u8 => DecodeEntry { inst: Instruction::NotImplemented, mode: AddressingMode::Implied, cycles: Cycles::Fixed(0u32) },
        0x88u8 => DecodeEntry { inst: Instruction::Dey, mode: AddressingMode::Implied, cycles: Cycles::Fixed(2u32) },
        0x89u8 => DecodeEntry { inst: Instruction::NotImplemented, mode: AddressingMode::Implied, cycles: Cycles::Fixed(0u32) },
        0x8au8 => DecodeEntry { inst: Instruction::Txa, mode: AddressingMode::Implied, cycles: Cycles::Fixed(2u32) },
        0x8bu8 => DecodeEntry { inst: Instruction::NotImplemented, mode: AddressingMode::Implied, cycles: Cycles::Fixed(0u32) },
        0x8cu8 => DecodeEntry { inst: Instruction::Sty, mode: AddressingMode::Absolute, cycles: Cycles::Fixed(4u32) },
        0x8du8 => DecodeEntry { inst: Instruction::Sta, mode: AddressingMode::Absolute, cycles: Cycles::Fixed(4u32) },
        0x8eu8 => DecodeEntry { inst: Instruction::Stx, mode: AddressingMode::Absolute, cycles: Cycles::Fixed(4u32) },
        0x8fu8 => DecodeEntry { inst: Instruction::NotImplemented, mode: AddressingMode::Implied, cycles: Cycles::Fixed(0u32) },
        0x90u8 => DecodeEntry { inst: Instruction::Bcc, mode: AddressingMode::Relative, cycles: Cycles::Variable(2u32) },
        0x91u8 => DecodeEntry { inst: Instruction::Sta, mode: AddressingMode::IndirectYIndex, cycles: Cycles::Fixed(6u32) },
        0x92u8 => DecodeEntry { inst: Instruction::NotImplemented, mode: AddressingMode::Implied, cycles: Cycles::Fixed(0u32) },
        0x93u8 => DecodeEntry { inst: Instruction::NotImplemented, mode: AddressingMode::Implied, cycles: Cycles::Fixed(0u32) },
        0x94u8 => DecodeEntry { inst: Instruction::Sty, mode: AddressingMode::ZeropageXIndex, cycles: Cycles::Fixed(4u32) },
        0x95u8 => DecodeEntry { inst: Instruction::Sta, mode: AddressingMode::ZeropageXIndex, cycles: Cycles::Fixed(4u32) },
        0x96u8 => DecodeEntry { inst: Instruction::Stx, mode: AddressingMode::ZeropageYIndex, cycles: Cycles::Fixed(4u32) },
        0x97u8 => DecodeEntry { inst: Instruction::NotImplemented, mode: AddressingMode::Implied, cycles: Cycles::Fixed(0u32) },
        0x98u8 => DecodeEntry { inst: Instruction::Tya, mode: AddressingMode::Implied, cycles: Cycles::Fixed(2u32) },
        0x99u8 => DecodeEntry { inst: Instruction::Sta, mode: AddressingMode::AbsoluteYIndex, cycles: Cycles::Fixed(5u32) },
        0x9au8 => DecodeEntry { inst: Instruction::Txs, mode: AddressingMode::Implied, cycles: Cycles::Fixed(2u32) },
        0x9bu8 => DecodeEntry { inst: Instruction::NotImplemented, mode: AddressingMode::Implied, cycles: Cycles::Fixed(0u32) },
        0x9cu8 => DecodeEntry { inst: Instruction::NotImplemented, mode: AddressingMode::Implied, cycles: Cycles::Fixed(0u32) },
        0x9du8 => DecodeEntry { inst: Instruction::Sta, mode: AddressingMode::AbsoluteXIndex, cycles: Cycles::Fixed(5u32) },
        0x9eu8 => DecodeEntry { inst: Instruction::NotImplemented, mode: AddressingMode::Implied, cycles: Cycles::Fixed(0u32) },
        0x9fu8 => DecodeEntry { inst: Instruction::NotImplemented, mode: AddressingMode::Implied, cycles: Cycles::Fixed(0u32) },
        0xa0u8 => DecodeEntry { inst: Instruction::Ldy, mode: AddressingMode::Immediate, cycles: Cycles::Fixed(2u32) },
        0xa1u8 => DecodeEntry { inst: Instruction::Lda, mode: AddressingMode::XIndexIndirect, cycles: Cycles::Fixed(6u32) },
        0xa2u8 => DecodeEntry { inst: Instruction::Ldx, mode: AddressingMode::Immediate, cycles: Cycles::Fixed(2u32) },
        0xa3u8 => DecodeEntry { inst: Instruction::NotImplemented, mode: AddressingMode::Implied, cycles: Cycles::Fixed(0u32) },
        0xa4u8 => DecodeEntry { inst: Instruction::Ldy, mode: AddressingMode::Zeropage, cycles: Cycles::Fixed(3u32) },
        0xa5u8 => DecodeEntry { inst: Instruction::Lda, mode: AddressingMode::Zeropage, cycles: Cycles::Fixed(3u32) },
        0xa6u8 => DecodeEntry { inst: Instruction::Ldx, mode: AddressingMode::Zeropage, cycles: Cycles::Fixed(3u32) },
        0xa7u8 => DecodeEntry { inst: Instruction::NotImplemented, mode: AddressingMode::Implied, cycles: Cycles::Fixed(0u32) },
        0xa8u8 => DecodeEntry { inst: Instruction::Tay, mode: AddressingMode::Implied, cycles: Cycles::Fixed(2u32) },
        0xa9u8 => DecodeEntry { inst: Instruction::Lda, mode: AddressingMode::Immediate, cycles: Cycles::Fixed(2u32) },
        0xaau8 => DecodeEntry { inst: Instruction::Tax, mode: AddressingMode::Implied, cycles: Cycles::Fixed(2u32) },
        0xabu8 => DecodeEntry { inst: Instruction::NotImplemented, mode: AddressingMode::Implied, cycles: Cycles::Fixed(0u32) },
        0xacu8 => DecodeEntry { inst: Instruction::Ldy, mode: AddressingMode::Absolute, cycles: Cycles::Fixed(4u32) },
        0xadu8 => DecodeEntry { inst: Instruction::Lda, mode: AddressingMode::Absolute, cycles: Cycles::Fixed(4u32) },
        0xaeu8 => DecodeEntry { inst: Instruction::Ldx, mode: AddressingMode::Absolute, cycles: Cycles::Fixed(4u32) },
        0xafu8 => DecodeEntry { inst: Instruction::NotImplemented, mode: AddressingMode::Implied, cycles: Cycles::Fixed(0u32) },
        0xb0u8 => DecodeEntry { inst: Instruction::Bcs, mode: AddressingMode::Relative, cycles: Cycles::Variable(2u32) },
        0xb1u8 => DecodeEntry { inst: Instruction::Lda, mode: AddressingMode::IndirectYIndex, cycles: Cycles::Variable(5u32) },
        0xb2u8 => DecodeEntry { inst: Instruction::NotImplemented, mode: AddressingMode::Implied, cycles: Cycles::Fixed(0u32) },
        0xb3u8 => DecodeEntry { inst: Instruction::NotImplemented, mode: AddressingMode::Implied, cycles: Cycles::Fixed(0u32) },
        0xb4u8 => DecodeEntry { inst: Instruction::Ldy, mode: AddressingMode::ZeropageXIndex, cycles: Cycles::Fixed(4u32) },
        0xb5u8 => DecodeEntry { inst: Instruction::Lda, mode: AddressingMode::ZeropageXIndex, cycles: Cycles::Fixed(4u32) },
        0xb6u8 => DecodeEntry { inst: Instruction::Ldx, mode: AddressingMode::ZeropageYIndex, cycles: Cycles::Fixed(4u32) },
        0xb7u8 => DecodeEntry { inst: Instruction::NotImplemented, mode: AddressingMode::Implied, cycles: Cycles::Fixed(0u32) },
        0xb8u8 => DecodeEntry { inst: Instruction::Clv, mode: AddressingMode::Implied, cycles: Cycles::Fixed(2u32) },
        0xb9u8 => DecodeEntry { inst: Instruction::Lda, mode: AddressingMode::AbsoluteYIndex, cycles: Cycles::Variable(4u32) },
        0xbau8 => DecodeEntry { inst: Instruction::Tsx, mode: AddressingMode::Implied, cycles: Cycles::Fixed(2u32) },
        0xbbu8 => DecodeEntry { inst: Instruction::NotImplemented, mode: AddressingMode::Implied, cycles: Cycles::Fixed(0u32) },
        0xbcu8 => DecodeEntry { inst: Instruction::Ldy, mode: AddressingMode::AbsoluteXIndex, cycles: Cycles::Variable(4u32) },
        0xbdu8 => DecodeEntry { inst: Instruction::Lda, mode: AddressingMode::AbsoluteXIndex, cycles: Cycles::Variable(4u32) },
        0xbeu8 => DecodeEntry { inst: Instruction::Ldx, mode: AddressingMode::AbsoluteYIndex, cycles: Cycles::Variable(4u32) },
        0xbfu8 => DecodeEntry { inst: Instruction::NotImplemented, mode: AddressingMode::Implied, cycles: Cycles::Fixed(0u32) },
        0xc0u8 => DecodeEntry { inst: Instruction::Cpy, mode: AddressingMode::Immediate, cycles: Cycles::Fixed(2u32) },
        0xc1u8 => DecodeEntry { inst: Instruction::Cmp, mode: AddressingMode::XIndexIndirect, cycles: Cycles::Fixed(6u32) },
        0xc2u8 => DecodeEntry { inst: Instruction::NotImplemented, mode: AddressingMode::Implied, cycles: Cycles::Fixed(0u32) },
        0xc3u8 => DecodeEntry { inst: Instruction::NotImplemented, mode: AddressingMode::Implied, cycles: Cycles::Fixed(0u32) },
        0xc4u8 => DecodeEntry { inst: Instruction::Cpy, mode: AddressingMode::Zeropage, cycles: Cycles::Fixed(3u32) },
        0xc5u8 => DecodeEntry { inst: Instruction::Cmp, mode: AddressingMode::Zeropage, cycles: Cycles::Fixed(3u32) },
        0xc6u8 => DecodeEntry { inst: Instruction::Dec, mode: AddressingMode::Zeropage, cycles: Cycles::Fixed(5u32) },
        0xc7u8 => DecodeEntry { inst: Instruction::NotImplemented, mode: AddressingMode::Implied, cycles: Cycles::Fixed(0u32) },
        0xc8u8 => DecodeEntry { inst: Instruction::Iny, mode: AddressingMode::Implied, cycles: Cycles::Fixed(2u32) },
        0xc9u8 => DecodeEntry { inst: Instruction::Cmp, mode: AddressingMode::Immediate, cycles: Cycles::Fixed(2u32) },
        0xcau8 => DecodeEntry { inst: Instruction::Dex, mode: AddressingMode::Implied, cycles: Cycles::Fixed(2u32) },
        0xcbu8 => DecodeEntry { inst: Instruction::NotImplemented, mode: AddressingMode::Implied, cycles: Cycles::Fixed(0u32) },
        0xccu8 => DecodeEntry { inst: Instruction::Cpy, mode: AddressingMode::Absolute, cycles: Cycles::Fixed(4u32) },
        0xcdu8 => DecodeEntry { inst: Instruction::Cmp, mode: AddressingMode::Absolute, cycles: Cycles::Fixed(4u32) },
        0xceu8 => DecodeEntry { inst: Instruction::Dec, mode: AddressingMode::Absolute, cycles: Cycles::Fixed(6u32) },
        0xcfu8 => DecodeEntry { inst: Instruction::NotImplemented, mode: AddressingMode::Implied, cycles: Cycles::Fixed(0u32) },
        0xd0u8 => DecodeEntry { inst: Instruction::Bne, mode: AddressingMode::Relative, cycles: Cycles::Variable(2u32) },
        0xd1u8 => DecodeEntry { inst: Instruction::Cmp, mode: AddressingMode::IndirectYIndex, cycles: Cycles::Variable(5u32) },
        0xd2u8 => DecodeEntry { inst: Instruction::NotImplemented, mode: AddressingMode::Implied, cycles: Cycles::Fixed(0u32) },
        0xd3u8 => DecodeEntry { inst: Instruction::NotImplemented, mode: AddressingMode::Implied, cycles: Cycles::Fixed(0u32) },
        0xd4u8 => DecodeEntry { inst: Instruction::NotImplemented, mode: AddressingMode::Implied, cycles: Cycles::Fixed(0u32) },
        0xd5u8 => DecodeEntry { inst: Instruction::Cmp, mode: AddressingMode::ZeropageXIndex, cycles: Cycles::Fixed(4u32) },
        0xd6u8 => DecodeEntry { inst: Instruction::Dec, mode: AddressingMode::ZeropageXIndex, cycles: Cycles::Fixed(6u32) },
        0xd7u8 => DecodeEntry { inst: Instruction::NotImplemented, mode: AddressingMode::Implied, cycles: Cycles::Fixed(0u32) },
        0xd8u8 => DecodeEntry { inst: Instruction::Cld, mode: AddressingMode::Implied, cycles: Cycles::Fixed(2u32) },
        0xd9u8 => DecodeEntry { inst: Instruction::Cmp, mode: AddressingMode::AbsoluteYIndex, cycles: Cycles::Variable(4u32) },
        0xdau8 => DecodeEntry { inst: Instruction::NotImplemented, mode: AddressingMode::Implied, cycles: Cycles::Fixed(0u32) },
        0xdbu8 => DecodeEntry { inst: Instruction::NotImplemented, mode: AddressingMode::Implied, cycles: Cycles::Fixed(0u32) },
        0xdcu8 => DecodeEntry { inst: Instruction::NotImplemented, mode: AddressingMode::Implied, cycles: Cycles::Fixed(0u32) },
        0xddu8 => DecodeEntry { inst: Instruction::Cmp, mode: AddressingMode::AbsoluteXIndex, cycles: Cycles::Variable(4u32) },
        0xdeu8 => DecodeEntry { inst: Instruction::Dec, mode: AddressingMode::AbsoluteXIndex, cycles: Cycles::Fixed(7u32) },
        0xdfu8 => DecodeEntry { inst: Instruction::NotImplemented, mode: AddressingMode::Implied, cycles: Cycles::Fixed(0u32) },
        0xe0u8 => DecodeEntry { inst: Instruction::Cpx, mode: AddressingMode::Immediate, cycles: Cycles::Fixed(2u32) },
        0xe1u8 => DecodeEntry { inst: Instruction::Sbc, mode: AddressingMode::XIndexIndirect, cycles: Cycles::Fixed(6u32) },
        0xe2u8 => DecodeEntry { inst: Instruction::NotImplemented, mode: AddressingMode::Implied, cycles: Cycles::Fixed(0u32) },
        0xe3u8 => DecodeEntry { inst: Instruction::NotImplemented, mode: AddressingMode::Implied, cycles: Cycles::Fixed(0u32) },
        0xe4u8 => DecodeEntry { inst: Instruction::Cpx, mode: AddressingMode::Zeropage, cycles: Cycles::Fixed(3u32) },
        0xe5u8 => DecodeEntry { inst: Instruction::Sbc, mode: AddressingMode::Zeropage, cycles: Cycles::Fixed(3u32) },
        0xe6u8 => DecodeEntry { inst: Instruction::Inc, mode: AddressingMode::Zeropage, cycles: Cycles::Fixed(5u32) },
        0xe7u8 => DecodeEntry { inst: Instruction::NotImplemented, mode: AddressingMode::Implied, cycles: Cycles::Fixed(0u32) },
        0xe8u8 => DecodeEntry { inst: Instruction::Inx, mode: AddressingMode::Implied, cycles: Cycles::Fixed(2u32) },
        0xe9u8 => DecodeEntry { inst: Instruction::Sbc, mode: AddressingMode::Immediate, cycles: Cycles::Fixed(2u32) },
        0xeau8 => DecodeEntry { inst: Instruction::Nop, mode: AddressingMode::Implied, cycles: Cycles::Fixed(2u32) },
        0xebu8 => DecodeEntry { inst: Instruction::NotImplemented, mode: AddressingMode::Implied, cycles: Cycles::Fixed(0u32) },
        0xecu8 => DecodeEntry { inst: Instruction::Cpx, mode: AddressingMode::Absolute, cycles: Cycles::Fixed(4u32) },
        0xedu8 => DecodeEntry { inst: Instruction::Sbc, mode: AddressingMode::Absolute, cycles: Cycles::Fixed(4u32) },
        0xeeu8 => DecodeEntry { inst: Instruction::Inc, mode: AddressingMode::Absolute, cycles: Cycles::Fixed(6u32) },
        0xefu8 => DecodeEntry { inst: Instruction::NotImplemented, mode: AddressingMode::Implied, cycles: Cycles::Fixed(0u32) },
        0xf0u8 => DecodeEntry { inst: Instruction::Beq, mode: AddressingMode::Relative, cycles: Cycles::Variable(2u32) },
        0xf1u8 => DecodeEntry { inst: Instruction::Sbc, mode: AddressingMode::IndirectYIndex, cycles: Cycles::Variable(5u32) },
        0xf2u8 => DecodeEntry { inst: Instruction::NotImplemented, mode: AddressingMode::Implied, cycles: Cycles::Fixed(0u32) },
        0xf3u8 => DecodeEntry { inst: Instruction::NotImplemented, mode: AddressingMode::Implied, cycles: Cycles::Fixed(0u32) },
        0xf4u8 => DecodeEntry { inst: Instruction::NotImplemented, mode: AddressingMode::Implied, cycles: Cycles::Fixed(0u32) },
        0xf5u8 => DecodeEntry { inst: Instruction::Sbc, mode: AddressingMode::ZeropageXIndex, cycles: Cycles::Fixed(4u32) },
        0xf6u8 => DecodeEntry { inst: Instruction::Inc, mode: AddressingMode::ZeropageXIndex, cycles: Cycles::Fixed(6u32) },
        0xf7u8 => DecodeEntry { inst: Instruction::NotImplemented, mode: AddressingMode::Implied, cycles: Cycles::Fixed(0u32) },
        0xf8u8 => DecodeEntry { inst: Instruction::Sed, mode: AddressingMode::Implied, cycles: Cycles::Fixed(2u32) },
        0xf9u8 => DecodeEntry { inst: Instruction::Sbc, mode: AddressingMode::AbsoluteYIndex, cycles: Cycles::Variable(4u32) },
        0xfau8 => DecodeEntry { inst: Instruction::NotImplemented, mode: AddressingMode::Implied, cycles: Cycles::Fixed(0u32) },
        0xfbu8 => DecodeEntry { inst: Instruction::NotImplemented, mode: AddressingMode::Implied, cycles: Cycles::Fixed(0u32) },
        0xfcu8 => DecodeEntry { inst: Instruction::NotImplemented, mode: AddressingMode::Implied, cycles: Cycles::Fixed(0u32) },
        0xfdu8 => DecodeEntry { inst: Instruction::Sbc, mode: AddressingMode::AbsoluteXIndex, cycles: Cycles::Variable(4u32) },
        0xfeu8 => DecodeEntry { inst: Instruction::Inc, mode: AddressingMode::AbsoluteXIndex, cycles: Cycles::Fixed(7u32) },
        0xffu8 => DecodeEntry { inst: Instruction::NotImplemented, mode: AddressingMode::Implied, cycles: Cycles::Fixed(0u32) },
    }
}

/// Looks an opcode byte up in the dispatch table.
#[verifier::rlimit(100)]
pub fn decode(opcode: u8) -> (entry: DecodeEntry)
    ensures
        entry == decode_spec(opcode),
{
    match opcode {
        0x00 => DecodeEntry { inst: Instruction::Brk, mode: AddressingMode::Implied, cycles: Cycles::Fixed(7u32) },
        0x01 => DecodeEntry { inst: Instruction::Ora, mode: AddressingMode::XIndexIndirect, cycles: Cycles::Fixed(6u32) },
        0x02 => DecodeEntry { inst: Instruction::NotImplemented, mode: AddressingMode::Implied, cycles: Cycles::Fixed(0u32) },
        0x03 => DecodeEntry { inst: Instruction::NotImplemented, mode: AddressingMode::Implied, cycles: Cycles::Fixed(0u32) },
        0x04 => DecodeEntry { inst: Instruction::NotImplemented, mode: AddressingMode::Implied, cycles: Cycles::Fixed(0u32) },
        0x05 => DecodeEntry { inst: Instruction::Ora, mode: AddressingMode::Zeropage, cycles: Cycles::Fixed(3u32) },
        0x06 => DecodeEntry { inst: Instruction::Asl, mode: AddressingMode::Zeropage, cycles: Cycles::Fixed(5u32) },
        0x07 => DecodeEntry { inst: Instruction::NotImplemented, mode: AddressingMode::Implied, cycles: Cycles::Fixed(0u32) },
        0x08 => DecodeEntry { inst: Instruction::Php, mode: AddressingMode::Implied, cycles: Cycles::Fixed(3u32) },
        0x09 => DecodeEntry { inst: Instruction::Ora, mode: AddressingMode::Immediate, cycles: Cycles::Fixed(2u32) },
        0x0a => DecodeEntry { inst: Instruction::Asl, mode: AddressingMode::Accumulator, cycles: Cycles::Fixed(2u32) },
        0x0b => DecodeEntry { inst: Instruction::NotImplemented, mode: AddressingMode::Implied, cycles: Cycles::Fixed(0u32) },
        0x0c => DecodeEntry { inst: Instruction::NotImplemented, mode: AddressingMode::Implied, cycles: Cycles::Fixed(0u32) },
        0x0d => DecodeEntry { inst: Instruction::Ora, mode: AddressingMode::Absolute, cycles: Cycles::Fixed(4u32) },
        0x0e => DecodeEntry { inst: Instruction::Asl, mode: AddressingMode::Absolute, cycles: Cycles::Fixed(6u32) },
        0x0f => DecodeEntry { inst: Instruction::NotImplemented, mode: AddressingMode::Implied, cycles: Cycles::Fixed(0u32) },
        0x10 => DecodeEntry { inst: Instruction::Bpl, mode: AddressingMode::Relative, cycles: Cycles::Variable(2u32) },
        0x11 => DecodeEntry { inst: Instruction::Ora, mode: AddressingMode::IndirectYIndex, cycles: Cycles::Variable(5u32) },
        0x12 => DecodeEntry { inst: Instruction::NotImplemented, mode: AddressingMode::Implied, cycles: Cycles::Fixed(0u32) },
        0x13 => DecodeEntry { inst: Instruction::NotImplemented, mode: AddressingMode::Implied, cycles: Cycles::Fixed(0u32) },
        0x14 => DecodeEntry { inst: Instruction::NotImplemented, mode: AddressingMode::Implied, cycles: Cycles::Fixed(0u32) },
        0x15 => DecodeEntry { inst: Instruction::Ora, mode: AddressingMode::ZeropageXIndex, cycles: Cycles::Fixed(4u32) },
        0x16 => DecodeEntry { inst: Instruction::Asl, mode: AddressingMode::ZeropageXIndex, cycles: Cycles::Fixed(6u32) },
        0x17 => DecodeEntry { inst: Instruction::NotImplemented, mode: AddressingMode::Implied, cycles: Cycles::Fixed(0u32) },
        0x18 => DecodeEntry { inst: Instruction::Clc, mode: AddressingMode::Implied, cycles: Cycles::Fixed(2u32) },
        0x19 => DecodeEntry { inst: Instruction::Ora, mode: AddressingMode::AbsoluteYIndex, cycles: Cycles::Variable(4u32) },
        0x1a => DecodeEntry { inst: Instruction::NotImplemented, mode: AddressingMode::Implied, cycles: Cycles::Fixed(0u32) },
        0x1b => DecodeEntry { inst: Instruction::NotImplemented, mode: AddressingMode::Implied, cycles: Cycles::Fixed(0u32) },
        0x1c => DecodeEntry { inst: Instruction::NotImplemented, mode: AddressingMode::Implied, cycles: Cycles::Fixed(0u32) },
        0x1d => DecodeEntry { inst: Instruction::Ora, mode: AddressingMode::AbsoluteXIndex, cycles: Cycles::Variable(4u32) },
        0x1e => DecodeEntry { inst: Instruction::Asl, mode: AddressingMode::AbsoluteXIndex, cycles: Cycles::Fixed(7u32) },
        0x1f => DecodeEntry { inst: Instruction::NotImplemented, mode: AddressingMode::Implied, cycles: Cycles::Fixed(0u32) },
        0x20 => DecodeEntry { inst: Instruction::Jsr, mode: AddressingMode::Absolute, cycles: Cycles::Fixed(6u32) },
        0x21 => DecodeEntry { inst: Instruction::And, mode: AddressingMode::XIndexIndirect, cycles: Cycles::Fixed(6u32) },
        0x22 => DecodeEntry { inst: Instruction::NotImplemented, mode: AddressingMode::Implied, cycles: Cycles::Fixed(0u32) },
        0x23 => DecodeEntry { inst: Instruction::NotImplemented, mode: AddressingMode::Implied, cycles: Cycles::Fixed(0u32) },
        0x24 => DecodeEntry { inst: Instruction::Bit, mode: AddressingMode::Zeropage, cycles: Cycles::Fixed(3u32) },
        0x25 => DecodeEntry { inst: Instruction::And, mode: AddressingMode::Zeropage, cycles: Cycles::Fixed(3u32) },
        0x26 => DecodeEntry { inst: Instruction::Rol, mode: AddressingMode::Zeropage, cycles: Cycles::Fixed(5u32) },
        0x27 => DecodeEntry { inst: Instruction::NotImplemented, mode: AddressingMode::Implied, cycles: Cycles::Fixed(0u32) },
        0x28 => DecodeEntry { inst: Instruction::Plp, mode: AddressingMode::Implied, cycles: Cycles::Fixed(4u32) },
        0x29 => DecodeEntry { inst: Instruction::And, mode: AddressingMode::Immediate, cycles: Cycles::Fixed(2u32) },
        0x2a => DecodeEntry { inst: Instruction::Rol, mode: AddressingMode::Accumulator, cycles: Cycles::Fixed(2u32) },
        0x2b => DecodeEntry { inst: Instruction::NotImplemented, mode: AddressingMode::Implied, cycles: Cycles::Fixed(0u32) },
        0x2c => DecodeEntry { inst: Instruction::Bit, mode: AddressingMode::Absolute, cycles: Cycles::Fixed(4u32) },
        0x2d => DecodeEntry { inst: Instruction::And, mode: AddressingMode::Absolute, cycles: Cycles::Fixed(4u32) },
        0x2e => DecodeEntry { inst: Instruction::Rol, mode: AddressingMode::Absolute, cycles: Cycles::Fixed(6u32) },
        0x2f => DecodeEntry { inst: Instruction::NotImplemented, mode: AddressingMode::Implied, cycles: Cycles::Fixed(0u32) },
        0x30 => DecodeEntry { inst: Instruction::Bmi, mode: AddressingMode::Relative, cycles: Cycles::Variable(2u32) },
        0x31 => DecodeEntry { inst: Instruction::And, mode: AddressingMode::IndirectYIndex, cycles: Cycles::Variable(5u32) },
        0x32 => DecodeEntry { inst: Instruction::NotImplemented, mode: AddressingMode::Implied, cycles: Cycles::Fixed(0u32) },
        0x33 => DecodeEntry { inst: Instruction::NotImplemented, mode: AddressingMode::Implied, cycles: Cycles::Fixed(0u32) },
        0x34 => DecodeEntry { inst: Instruction::NotImplemented, mode: AddressingMode::Implied, cycles: Cycles::Fixed(0u32) },
        0x35 => DecodeEntry { inst: Instruction::And, mode: AddressingMode::ZeropageXIndex, cycles: Cycles::Fixed(4u32) },
        0x36 => DecodeEntry { inst: Instruction::Rol, mode: AddressingMode::ZeropageXIndex, cycles: Cycles::Fixed(6u32) },
        0x37 => DecodeEntry { inst: Instruction::NotImplemented, mode: AddressingMode::Implied, cycles: Cycles::Fixed(0u32) },
        0x38 => DecodeEntry { inst: Instruction::Sec, mode: AddressingMode::Implied, cycles: Cycles::Fixed(2u32) },
        0x39 => DecodeEntry { inst: Instruction::And, mode: AddressingMode::AbsoluteYIndex, cycles: Cycles::Variable(4u32) },
        0x3a => DecodeEntry { inst: Instruction::NotImplemented, mode: AddressingMode::Implied, cycles: Cycles::Fixed(0u32) },
        0x3b => DecodeEntry { inst: Instruction::NotImplemented, mode: AddressingMode::Implied, cycles: Cycles::Fixed(0u32) },
        0x3c => DecodeEntry { inst: Instruction::NotImplemented, mode: AddressingMode::Implied, cycles: Cycles::Fixed(0u32) },
        0x3d => DecodeEntry { inst: Instruction::And, mode: AddressingMode::AbsoluteXIndex, cycles: Cycles::Variable(4u32) },
        0x3e => DecodeEntry { inst: Instruction::Rol, mode: AddressingMode::AbsoluteXIndex, cycles: Cycles::Fixed(7u32) },
        0x3f => DecodeEntry { inst: Instruction::NotImplemented, mode: AddressingMode::Implied, cycles: Cycles::Fixed(0u32) },
        0x40 => DecodeEntry { inst: Instruction::Rti, mode: AddressingMode::Implied, cycles: Cycles::Fixed(6u32) },
        0x41 => DecodeEntry { inst: Instruction::Eor, mode: AddressingMode::XIndexIndirect, cycles: Cycles::Fixed(6u32) },
        0x42 => DecodeEntry { inst: Instruction::NotImplemented, mode: AddressingMode::Implied, cycles: Cycles::Fixed(0u32) },
        0x43 => DecodeEntry { inst: Instruction::NotImplemented, mode: AddressingMode::Implied, cycles: Cycles::Fixed(0u32) },
        0x44 => DecodeEntry { inst: Instruction::NotImplemented, mode: AddressingMode::Implied, cycles: Cycles::Fixed(0u32) },
        0x45 => DecodeEntry { inst: Instruction::Eor, mode: AddressingMode::Zeropage, cycles: Cycles::Fixed(3u32) },
        0x46 => DecodeEntry { inst: Instruction::Lsr, mode: AddressingMode::Zeropage, cycles: Cycles::Fixed(5u32) },
        0x47 => DecodeEntry { inst: Instruction::NotImplemented, mode: AddressingMode::Implied, cycles: Cycles::Fixed(0u32) },
        0x48 => DecodeEntry { inst: Instruction::Pha, mode: AddressingMode::Implied, cycles: Cycles::Fixed(3u32) },
        0x49 => DecodeEntry { inst: Instruction::Eor, mode: AddressingMode::Immediate, cycles: Cycles::Fixed(2u32) },
        0x4a => DecodeEntry { inst: Instruction::Lsr, mode: AddressingMode::Accumulator, cycles: Cycles::Fixed(2u32) },
        0x4b => DecodeEntry { inst: Instruction::NotImplemented, mode: AddressingMode::Implied, cycles: Cycles::Fixed(0u32) },
        0x4c => DecodeEntry { inst: Instruction::Jmp, mode: AddressingMode::Absolute, cycles: Cycles::Fixed(3u32) },
        0x4d => DecodeEntry { inst: Instruction::Eor, mode: AddressingMode::Absolute, cycles: Cycles::Fixed(4u32) },
        0x4e => DecodeEntry { inst: Instruction::Lsr, mode: AddressingMode::Absolute, cycles: Cycles::Fixed(6u32) },
        0x4f => DecodeEntry { inst: Instruction::NotImplemented, mode: AddressingMode::Implied, cycles: Cycles::Fixed(0u32) },
        0x50 => DecodeEntry { inst: Instruction::Bvc, mode: AddressingMode::Relative, cycles: Cycles::Variable(2u32) },
        0x51 => DecodeEntry { inst: Instruction::Eor, mode: AddressingMode::IndirectYIndex, cycles: Cycles::Variable(5u32) },
        0x52 => DecodeEntry { inst: Instruction::NotImplemented, mode: AddressingMode::Implied, cycles: Cycles::Fixed(0u32) },
        0x53 => DecodeEntry { inst: Instruction::NotImplemented, mode: AddressingMode::Implied, cycles: Cycles::Fixed(0u32) },
        0x54 => DecodeEntry { inst: Instruction::NotImplemented, mode: AddressingMode::Implied, cycles: Cycles::Fixed(0u32) },
        0x55 => DecodeEntry { inst: Instruction::Eor, mode: AddressingMode::ZeropageXIndex, cycles: Cycles::Fixed(4u32) },
        0x56 => DecodeEntry { inst: Instruction::Lsr, mode: AddressingMode::ZeropageXIndex, cycles: Cycles::Fixed(6u32) },
        0x57 => DecodeEntry { inst: Instruction::NotImplemented, mode: AddressingMode::Implied, cycles: Cycles::Fixed(0u32) },
        0x58 => DecodeEntry { inst: Instruction::Cli, mode: AddressingMode::Implied, cycles: Cycles::Fixed(2u32) },
        0x59 => DecodeEntry { inst: Instruction::Eor, mode: AddressingMode::AbsoluteYIndex, cycles: Cycles::Variable(4u32) },
        0x5a => DecodeEntry { inst: Instruction::NotImplemented, mode: AddressingMode::Implied, cycles: Cycles::Fixed(0u32) },
        0x5b => DecodeEntry { inst: Instruction::NotImplemented, mode: AddressingMode::Implied, cycles: Cycles::Fixed(0u32) },
        0x5c => DecodeEntry { inst: Instruction::NotImplemented, mode: AddressingMode::Implied, cycles: Cycles::Fixed(0u32) },
        0x5d => DecodeEntry { inst: Instruction::Eor, mode: AddressingMode::AbsoluteXIndex, cycles: Cycles::Variable(4u32) },
        0x5e => DecodeEntry { inst: Instruction::Lsr, mode: AddressingMode::AbsoluteXIndex, cycles: Cycles::Fixed(7u32) },
        0x5f => DecodeEntry { inst: Instruction::NotImplemented, mode: AddressingMode::Implied, cycles: Cycles::Fixed(0u32) },
        0x60 => DecodeEntry { inst: Instruction::Rts, mode: AddressingMode::Implied, cycles: Cycles::Fixed(6u32) },
        0x61 => DecodeEntry { inst: Instruction::Adc, mode: AddressingMode::XIndexIndirect, cycles: Cycles::Fixed(6u32) },
        0x62 => DecodeEntry { inst: Instruction::NotImplemented, mode: AddressingMode::Implied, cycles: Cycles::Fixed(0u32) },
        0x63 => DecodeEntry { inst: Instruction::NotImplemented, mode: AddressingMode::Implied, cycles: Cycles::Fixed(0u32) },
        0x64 => DecodeEntry { inst: Instruction::NotImplemented, mode: AddressingMode::Implied, cycles: Cycles::Fixed(0u32) },
        0x65 => DecodeEntry { inst: Instruction::Adc, mode: AddressingMode::Zeropage, cycles: Cycles::Fixed(3u32) },
        0x66 => DecodeEntry { inst: Instruction::Ror, mode: AddressingMode::Zeropage, cycles: Cycles::Fixed(5u32) },
        0x67 => DecodeEntry { inst: Instruction::NotImplemented, mode: AddressingMode::Implied, cycles: Cycles::Fixed(0u32) },
        0x68 => DecodeEntry { inst: Instruction::Pla, mode: AddressingMode::Implied, cycles: Cycles::Fixed(4u32) },
        0x69 => DecodeEntry { inst: Instruction::Adc, mode: AddressingMode::Immediate, cycles: Cycles::Fixed(2u32) },
        0x6a => DecodeEntry { inst: Instruction::Ror, mode: AddressingMode::Accumulator, cycles: Cycles::Fixed(2u32) },
        0x6b => DecodeEntry { inst: Instruction::NotImplemented, mode: AddressingMode::Implied, cycles: Cycles::Fixed(0u32) },
        0x6c => DecodeEntry { inst: Instruction::Jmp, mode: AddressingMode::Indirect, cycles: Cycles::Fixed(5u32) },
        0x6d => DecodeEntry { inst: Instruction::Adc, mode: AddressingMode::Absolute, cycles: Cycles::Fixed(4u32) },
        0x6e => DecodeEntry { inst: Instruction::Ror, mode: AddressingMode::Absolute, cycles: Cycles::Fixed(6u32) },
        0x6f => DecodeEntry { inst: Instruction::NotImplemented, mode: AddressingMode::Implied, cycles: Cycles::Fixed(0u32) },
        0x70 => DecodeEntry { inst: Instruction::Bvs, mode: AddressingMode::Relative, cycles: Cycles::Variable(2u32) },
        0x71 => DecodeEntry { inst: Instruction::Adc, mode: AddressingMode::IndirectYIndex, cycles: Cycles::Variable(5u32) },
        0x72 => DecodeEntry { inst: Instruction::NotImplemented, mode: AddressingMode::Implied, cycles: Cycles::Fixed(0u32) },
        0x73 => DecodeEntry { inst: Instruction::NotImplemented, mode: AddressingMode::Implied, cycles: Cycles::Fixed(0u32) },
        0x74 => DecodeEntry { inst: Instruction::NotImplemented, mode: AddressingMode::Implied, cycles: Cycles::Fixed(0u32) },
        0x75 => DecodeEntry { inst: Instruction::Adc, mode: AddressingMode::ZeropageXIndex, cycles: Cycles::Fixed(4u32) },
        0x76 => DecodeEntry { inst: Instruction::Ror, mode: AddressingMode::ZeropageXIndex, cycles: Cycles::Fixed(6u32) },
        0x77 => DecodeEntry { inst: Instruction::NotImplemented, mode: AddressingMode::Implied, cycles: Cycles::Fixed(0u32) },
        0x78 => DecodeEntry { inst: Instruction::Sei, mode: AddressingMode::Implied, cycles: Cycles::Fixed(2u32) },
        0x79 => DecodeEntry { inst: Instruction::Adc, mode: AddressingMode::AbsoluteYIndex, cycles: Cycles::Variable(4u32) },
        0x7a => DecodeEntry { inst: Instruction::NotImplemented, mode: AddressingMode::Implied, cycles: Cycles::Fixed(0u32) },
        0x7b => DecodeEntry { inst: Instruction::NotImplemented, mode: AddressingMode::Implied, cycles: Cycles::Fixed(0u32) },
        0x7c => DecodeEntry { inst: Instruction::NotImplemented, mode: AddressingMode::Implied, cycles: Cycles::Fixed(0u32) },
        0x7d => DecodeEntry { inst: Instruction::Adc, mode: AddressingMode::AbsoluteXIndex, cycles: Cycles::Variable(4u32) },
        0x7e => DecodeEntry { inst: Instruction::Ror, mode: AddressingMode::AbsoluteXIndex, cycles: Cycles::Fixed(7u32) },
        0x7f => DecodeEntry { inst: Instruction::NotImplemented, mode: AddressingMode::Implied, cycles: Cycles::Fixed(0u32) },
        0x80 => DecodeEntry { inst: Instruction::NotImplemented, mode: AddressingMode::Implied, cycles: Cycles::Fixed(0u32) },
        0x81 => DecodeEntry { inst: Instruction::Sta, mode: AddressingMode::XIndexIndirect, cycles: Cycles::Fixed(6u32) },
        0x82 => DecodeEntry { inst: Instruction::NotImplemented, mode: AddressingMode::Implied, cycles: Cycles::Fixed(0u32) },
        0x83 => DecodeEntry { inst: Instruction::NotImplemented, mode: AddressingMode::Implied, cycles: Cycles::Fixed(0u32) },
        0x84 => DecodeEntry { inst: Instruction::Sty, mode: AddressingMode::Zeropage, cycles: Cycles::Fixed(3u32) },
        0x85 => DecodeEntry { inst: Instruction::Sta, mode: AddressingMode::Zeropage, cycles: Cycles::Fixed(3u32) },
        0x86 => DecodeEntry { inst: Instruction::Stx, mode: AddressingMode::Zeropage, cycles: Cycles::Fixed(3u32) },
        0x87 => DecodeEntry { inst: Instruction::NotImplemented, mode: AddressingMode::Implied, cycles: Cycles::Fixed(0u32) },
        0x88 => DecodeEntry { inst: Instruction::Dey, mode: AddressingMode::Implied, cycles: Cycles::Fixed(2u32) },
        0x89 => DecodeEntry { inst: Instruction::NotImplemented, mode: AddressingMode::Implied, cycles: Cycles::Fixed(0u32) },
        0x8a => DecodeEntry { inst: Instruction::Txa, mode: AddressingMode::Implied, cycles: Cycles::Fixed(2u32) },
        0x8b => DecodeEntry { inst: Instruction::NotImplemented, mode: AddressingMode::Implied, cycles: Cycles::Fixed(0u32) },
        0x8c => DecodeEntry { inst: Instruction::Sty, mode: AddressingMode::Absolute, cycles: Cycles::Fixed(4u32) },
        0x8d => DecodeEntry { inst: Instruction::Sta, mode: AddressingMode::Absolute, cycles: Cycles::Fixed(4u32) },
        0x8e => DecodeEntry { inst: Instruction::Stx, mode: AddressingMode::Absolute, cycles: Cycles::Fixed(4u32) },
        0x8f => DecodeEntry { inst: Instruction::NotImplemented, mode: AddressingMode::Implied, cycles: Cycles::Fixed(0u32) },
        0x90 => DecodeEntry { inst: Instruction::Bcc, mode: AddressingMode::Relative, cycles: Cycles::Variable(2u32) },
        0x91 => DecodeEntry { inst: Instruction::Sta, mode: AddressingMode::IndirectYIndex, cycles: Cycles::Fixed(6u32) },
        0x92 => DecodeEntry { inst: Instruction::NotImplemented, mode: AddressingMode::Implied, cycles: Cycles::Fixed(0u32) },
        0x93 => DecodeEntry { inst: Instruction::NotImplemented, mode: AddressingMode::Implied, cycles: Cycles::Fixed(0u32) },
        0x94 => DecodeEntry { inst: Instruction::Sty, mode: AddressingMode::ZeropageXIndex, cycles: Cycles::Fixed(4u32) },
        0x95 => DecodeEntry { inst: Instruction::Sta, mode: AddressingMode::ZeropageXIndex, cycles: Cycles::Fixed(4u32) },
        0x96 => DecodeEntry { inst: Instruction::Stx, mode: AddressingMode::ZeropageYIndex, cycles: Cycles::Fixed(4u32) },
        0x97 => DecodeEntry { inst: Instruction::NotImplemented, mode: AddressingMode::Implied, cycles: Cycles::Fixed(0u32) },
        0x98 => DecodeEntry { inst: Instruction::Tya, mode: AddressingMode::Implied, cycles: Cycles::Fixed(2u32) },
        0x99 => DecodeEntry { inst: Instruction::Sta, mode: AddressingMode::AbsoluteYIndex, cycles: Cycles::Fixed(5u32) },
        0x9a => DecodeEntry { inst: Instruction::Txs, mode: AddressingMode::Implied, cycles: Cycles::Fixed(2u32) },
        0x9b => DecodeEntry { inst: Instruction::NotImplemented, mode: AddressingMode::Implied, cycles: Cycles::Fixed(0u32) },
        0x9c => DecodeEntry { inst: Instruction::NotImplemented, mode: AddressingMode::Implied, cycles: Cycles::Fixed(0u32) },
        0x9d => DecodeEntry { inst: Instruction::Sta, mode: AddressingMode::AbsoluteXIndex, cycles: Cycles::Fixed(5u32) },
        0x9e => DecodeEntry { inst: Instruction::NotImplemented, mode: AddressingMode::Implied, cycles: Cycles::Fixed(0u32) },
        0x9f => DecodeEntry { inst: Instruction::NotImplemented, mode: AddressingMode::Implied, cycles: Cycles::Fixed(0u32) },
        0xa0 => DecodeEntry { inst: Instruction::Ldy, mode: AddressingMode::Immediate, cycles: Cycles::Fixed(2u32) },
        0xa1 => DecodeEntry { inst: Instruction::Lda, mode: AddressingMode::XIndexIndirect, cycles: Cycles::Fixed(6u32) },
        0xa2 => DecodeEntry { inst: Instruction::Ldx, mode: AddressingMode::Immediate, cycles: Cycles::Fixed(2u32) },
        0xa3 => DecodeEntry { inst: Instruction::NotImplemented, mode: AddressingMode::Implied, cycles: Cycles::Fixed(0u32) },
        0xa4 => DecodeEntry { inst: Instruction::Ldy, mode: AddressingMode::Zeropage, cycles: Cycles::Fixed(3u32) },
        0xa5 => DecodeEntry { inst: Instruction::Lda, mode: AddressingMode::Zeropage, cycles: Cycles::Fixed(3u32) },
        0xa6 => DecodeEntry { inst: Instruction::Ldx, mode: AddressingMode::Zeropage, cycles: Cycles::Fixed(3u32) },
        0xa7 => DecodeEntry { inst: Instruction::NotImplemented, mode: AddressingMode::Implied, cycles: Cycles::Fixed(0u32) },
        0xa8 => DecodeEntry { inst: Instruction::Tay, mode: AddressingMode::Implied, cycles: Cycles::Fixed(2u32) },
        0xa9 => DecodeEntry { inst: Instruction::Lda, mode: AddressingMode::Immediate, cycles: Cycles::Fixed(2u32) },
        0xaa => DecodeEntry { inst: Instruction::Tax, mode: AddressingMode::Implied, cycles: Cycles::Fixed(2u32) },
        0xab => DecodeEntry { inst: Instruction::NotImplemented, mode: AddressingMode::Implied, cycles: Cycles::Fixed(0u32) },
        0xac => DecodeEntry { inst: Instruction::Ldy, mode: AddressingMode::Absolute, cycles: Cycles::Fixed(4u32) },
        0xad => DecodeEntry { inst: Instruction::Lda, mode: AddressingMode::Absolute, cycles: Cycles::Fixed(4u32) },
        0xae => DecodeEntry { inst: Instruction::Ldx, mode: AddressingMode::Absolute, cycles: Cycles::Fixed(4u32) },
        0xaf => DecodeEntry { inst: Instruction::NotImplemented, mode: AddressingMode::Implied, cycles: Cycles::Fixed(0u32) },
        0xb0 => DecodeEntry { inst: Instruction::Bcs, mode: AddressingMode::Relative, cycles: Cycles::Variable(2u32) },
        0xb1 => DecodeEntry { inst: Instruction::Lda, mode: AddressingMode::IndirectYIndex, cycles: Cycles::Variable(5u32) },
        0xb2 => DecodeEntry { inst: Instruction::NotImplemented, mode: AddressingMode::Implied, cycles: Cycles::Fixed(0u32) },
        0xb3 => DecodeEntry { inst: Instruction::NotImplemented, mode: AddressingMode::Implied, cycles: Cycles::Fixed(0u32) },
        0xb4 => DecodeEntry { inst: Instruction::Ldy, mode: AddressingMode::ZeropageXIndex, cycles: Cycles::Fixed(4u32) },
        0xb5 => DecodeEntry { inst: Instruction::Lda, mode: AddressingMode::ZeropageXIndex, cycles: Cycles::Fixed(4u32) },
        0xb6 => DecodeEntry { inst: Instruction::Ldx, mode: AddressingMode::ZeropageYIndex, cycles: Cycles::Fixed(4u32) },
        0xb7 => DecodeEntry { inst: Instruction::NotImplemented, mode: AddressingMode::Implied, cycles: Cycles::Fixed(0u32) },
        0xb8 => DecodeEntry { inst: Instruction::Clv, mode: AddressingMode::Implied, cycles: Cycles::Fixed(2u32) },
        0xb9 => DecodeEntry { inst: Instruction::Lda, mode: AddressingMode::AbsoluteYIndex, cycles: Cycles::Variable(4u32) },
        0xba => DecodeEntry { inst: Instruction::Tsx, mode: AddressingMode::Implied, cycles: Cycles::Fixed(2u32) },
        0xbb => DecodeEntry { inst: Instruction::NotImplemented, mode: AddressingMode::Implied, cycles: Cycles::Fixed(0u32) },
        0xbc => DecodeEntry { inst: Instruction::Ldy, mode: AddressingMode::AbsoluteXIndex, cycles: Cycles::Variable(4u32) },
        0xbd => DecodeEntry { inst: Instruction::Lda, mode: AddressingMode::AbsoluteXIndex, cycles: Cycles::Variable(4u32) },
        0xbe => DecodeEntry { inst: Instruction::Ldx, mode: AddressingMode::AbsoluteYIndex, cycles: Cycles::Variable(4u32) },
        0xbf => DecodeEntry { inst: Instruction::NotImplemented, mode: AddressingMode::Implied, cycles: Cycles::Fixed(0u32) },
        0xc0 => DecodeEntry { inst: Instruction::Cpy, mode: AddressingMode::Immediate, cycles: Cycles::Fixed(2u32) },
        0xc1 => DecodeEntry { inst: Instruction::Cmp, mode: AddressingMode::XIndexIndirect, cycles: Cycles::Fixed(6u32) },
        0xc2 => DecodeEntry { inst: Instruction::NotImplemented, mode: AddressingMode::Implied, cycles: Cycles::Fixed(0u32) },
        0xc3 => DecodeEntry { inst: Instruction::NotImplemented, mode: AddressingMode::Implied, cycles: Cycles::Fixed(0u32) },
        0xc4 => DecodeEntry { inst: Instruction::Cpy, mode: AddressingMode::Zeropage, cycles: Cycles::Fixed(3u32) },
        0xc5 => DecodeEntry { inst: Instruction::Cmp, mode: AddressingMode::Zeropage, cycles: Cycles::Fixed(3u32) },
        0xc6 => DecodeEntry { inst: Instruction::Dec, mode: AddressingMode::Zeropage, cycles: Cycles::Fixed(5u32) },
        0xc7 => DecodeEntry { inst: Instruction::NotImplemented, mode: AddressingMode::Implied, cycles: Cycles::Fixed(0u32) },
        0xc8 => DecodeEntry { inst: Instruction::Iny, mode: AddressingMode::Implied, cycles: Cycles::Fixed(2u32) },
        0xc9 => DecodeEntry { inst: Instruction::Cmp, mode: AddressingMode::Immediate, cycles: Cycles::Fixed(2u32) },
        0xca => DecodeEntry { inst: Instruction::Dex, mode: AddressingMode::Implied, cycles: Cycles::Fixed(2u32) },
        0xcb => DecodeEntry { inst: Instruction::NotImplemented, mode: AddressingMode::Implied, cycles: Cycles::Fixed(0u32) },
        0xcc => DecodeEntry { inst: Instruction::Cpy, mode: AddressingMode::Absolute, cycles: Cycles::Fixed(4u32) },
        0xcd => DecodeEntry { inst: Instruction::Cmp, mode: AddressingMode::Absolute, cycles: Cycles::Fixed(4u32) },
        0xce => DecodeEntry { inst: Instruction::Dec, mode: AddressingMode::Absolute, cycles: Cycles::Fixed(6u32) },
        0xcf => DecodeEntry { inst: Instruction::NotImplemented, mode: AddressingMode::Implied, cycles: Cycles::Fixed(0u32) },
        0xd0 => DecodeEntry { inst: Instruction::Bne, mode: AddressingMode::Relative, cycles: Cycles::Variable(2u32) },
        0xd1 => DecodeEntry { inst: Instruction::Cmp, mode: AddressingMode::IndirectYIndex, cycles: Cycles::Variable(5u32) },
        0xd2 => DecodeEntry { inst: Instruction::NotImplemented, mode: AddressingMode::Implied, cycles: Cycles::Fixed(0u32) },
        0xd3 => DecodeEntry { inst: Instruction::NotImplemented, mode: AddressingMode::Implied, cycles: Cycles::Fixed(0u32) },
        0xd4 => DecodeEntry { inst: Instruction::NotImplemented, mode: AddressingMode::Implied, cycles: Cycles::Fixed(0u32) },
        0xd5 => DecodeEntry { inst: Instruction::Cmp, mode: AddressingMode::ZeropageXIndex, cycles: Cycles::Fixed(4u32) },
        0xd6 => DecodeEntry { inst: Instruction::Dec, mode: AddressingMode::ZeropageXIndex, cycles: Cycles::Fixed(6u32) },
        0xd7 => DecodeEntry { inst: Instruction::NotImplemented, mode: AddressingMode::Implied, cycles: Cycles::Fixed(0u32) },
        0xd8 => DecodeEntry { inst: Instruction::Cld, mode: AddressingMode::Implied, cycles: Cycles::Fixed(2u32) },
        0xd9 => DecodeEntry { inst: Instruction::Cmp, mode: AddressingMode::AbsoluteYIndex, cycles: Cycles::Variable(4u32) },
        0xda => DecodeEntry { inst: Instruction::NotImplemented, mode: AddressingMode::Implied, cycles: Cycles::Fixed(0u32) },
        0xdb => DecodeEntry { inst: Instruction::NotImplemented, mode: AddressingMode::Implied, cycles: Cycles::Fixed(0u32) },
        0xdc => DecodeEntry { inst: Instruction::NotImplemented, mode: AddressingMode::Implied, cycles: Cycles::Fixed(0u32) },
        0xdd => DecodeEntry { inst: Instruction::Cmp, mode: AddressingMode::AbsoluteXIndex, cycles: Cycles::Variable(4u32) },
        0xde => DecodeEntry { inst: Instruction::Dec, mode: AddressingMode::AbsoluteXIndex, cycles: Cycles::Fixed(7u32) },
        0xdf => DecodeEntry { inst: Instruction::NotImplemented, mode: AddressingMode::Implied, cycles: Cycles::Fixed(0u32) },
        0xe0 => DecodeEntry { inst: Instruction::Cpx, mode: AddressingMode::Immediate, cycles: Cycles::Fixed(2u32) },
        0xe1 => DecodeEntry { inst: Instruction::Sbc, mode: AddressingMode::XIndexIndirect, cycles: Cycles::Fixed(6u32) },
        0xe2 => DecodeEntry { inst: Instruction::NotImplemented, mode: AddressingMode::Implied, cycles: Cycles::Fixed(0u32) },
        0xe3 => DecodeEntry { inst: Instruction::NotImplemented, mode: AddressingMode::Implied, cycles: Cycles::Fixed(0u32) },
        0xe4 => DecodeEntry { inst: Instruction::Cpx, mode: AddressingMode::Zeropage, cycles: Cycles::Fixed(3u32) },
        0xe5 => DecodeEntry { inst: Instruction::Sbc, mode: AddressingMode::Zeropage, cycles: Cycles::Fixed(3u32) },
        0xe6 => DecodeEntry { inst: Instruction::Inc, mode: AddressingMode::Zeropage, cycles: Cycles::Fixed(5u32) },
        0xe7 => DecodeEntry { inst: Instruction::NotImplemented, mode: AddressingMode::Implied, cycles: Cycles::Fixed(0u32) },
        0xe8 => DecodeEntry { inst: Instruction::Inx, mode: AddressingMode::Implied, cycles: Cycles::Fixed(2u32) },
        0xe9 => DecodeEntry { inst: Instruction::Sbc, mode: AddressingMode::Immediate, cycles: Cycles::Fixed(2u32) },
        0xea => DecodeEntry { inst: Instruction::Nop, mode: AddressingMode::Implied, cycles: Cycles::Fixed(2u32) },
        0xeb => DecodeEntry { inst: Instruction::NotImplemented, mode: AddressingMode::Implied, cycles: Cycles::Fixed(0u32) },
        0xec => DecodeEntry { inst: Instruction::Cpx, mode: AddressingMode::Absolute, cycles: Cycles::Fixed(4u32) },
        0xed => DecodeEntry { inst: Instruction::Sbc, mode: AddressingMode::Absolute, cycles: Cycles::Fixed(4u32) },
        0xee => DecodeEntry { inst: Instruction::Inc, mode: AddressingMode::Absolute, cycles: Cycles::Fixed(6u32) },
        0xef => DecodeEntry { inst: Instruction::NotImplemented, mode: AddressingMode::Implied, cycles: Cycles::Fixed(0u32) },
        0xf0 => DecodeEntry { inst: Instruction::Beq, mode: AddressingMode::Relative, cycles: Cycles::Variable(2u32) },
        0xf1 => DecodeEntry { inst: Instruction::Sbc, mode: AddressingMode::IndirectYIndex, cycles: Cycles::Variable(5u32) },
        0xf2 => DecodeEntry { inst: Instruction::NotImplemented, mode: AddressingMode::Implied, cycles: Cycles::Fixed(0u32) },
        0xf3 => DecodeEntry { inst: Instruction::NotImplemented, mode: AddressingMode::Implied, cycles: Cycles::Fixed(0u32) },
        0xf4 => DecodeEntry { inst: Instruction::NotImplemented, mode: AddressingMode::Implied, cycles: Cycles::Fixed(0u32) },
        0xf5 => DecodeEntry { inst: Instruction::Sbc, mode: AddressingMode::ZeropageXIndex, cycles: Cycles::Fixed(4u32) },
        0xf6 => DecodeEntry { inst: Instruction::Inc, mode: AddressingMode::ZeropageXIndex, cycles: Cycles::Fixed(6u32) },
        0xf7 => DecodeEntry { inst: Instruction::NotImplemented, mode: AddressingMode::Implied, cycles: Cycles::Fixed(0u32) },
        0xf8 => DecodeEntry { inst: Instruction::Sed, mode: AddressingMode::Implied, cycles: Cycles::Fixed(2u32) },
        0xf9 => DecodeEntry { inst: Instruction::Sbc, mode: AddressingMode::AbsoluteYIndex, cycles: Cycles::Variable(4u32) },
        0xfa => DecodeEntry { inst: Instruction::NotImplemented, mode: AddressingMode::Implied, cycles: Cycles::Fixed(0u32) },
        0xfb => DecodeEntry { inst: Instruction::NotImplemented, mode: AddressingMode::Implied, cycles: Cycles::Fixed(0u32) },
        0xfc => DecodeEntry { inst: Instruction::NotImplemented, mode: AddressingMode::Implied, cycles: Cycles::Fixed(0u32) },
        0xfd => DecodeEntry { inst: Instruction::Sbc, mode: AddressingMode::AbsoluteXIndex, cycles: Cycles::Variable(4u32) },
        0xfe => DecodeEntry { inst: Instruction::Inc, mode: AddressingMode::AbsoluteXIndex, cycles: Cycles::Fixed(7u32) },
        0xff => DecodeEntry { inst: Instruction::NotImplemented, mode: AddressingMode::Implied, cycles: Cycles::Fixed(0u32) },
    }
}

} // verus!
