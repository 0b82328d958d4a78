//! The opcode table: which instruction and which addressing mode each of the
//! 151 defined opcode values stands for, and the name of each instruction.
use vstd::prelude::*;
use crate::cpu::isa::{AddrKind, Category, InstructionType};

verus! {

/// The instruction and the addressing mode that an opcode value encodes, in
/// the order of the opcode values. The other 105 values encode nothing.
pub open spec fn opcode_entry(opcode: u8) -> Option<(InstructionType, AddrKind)> {
    match opcode {
        0x00 => Some((InstructionType::BRK, AddrKind::Impl)),
        0x01 => Some((InstructionType::ORA, AddrKind::XInd)),
        0x05 => Some((InstructionType::ORA, AddrKind::Zpg)),
        0x06 => Some((InstructionType::ASL, AddrKind::Zpg)),
        0x08 => Some((InstructionType::PHP, AddrKind::Impl)),
        0x09 => Some((InstructionType::ORA, AddrKind::Imm)),
        0x0A => Some((InstructionType::ASL, AddrKind::A)),
        0x0D => Some((InstructionType::ORA, AddrKind::Abs)),
        0x0E => Some((InstructionType::ASL, AddrKind::Abs)),
        0x10 => Some((InstructionType::BPL, AddrKind::Rel)),
        0x11 => Some((InstructionType::ORA, AddrKind::IndY)),
        0x15 => Some((InstructionType::ORA, AddrKind::ZpgX)),
        0x16 => Some((InstructionType::ASL, AddrKind::ZpgX)),
        0x18 => Some((InstructionType::CLC, AddrKind::Impl)),
        0x19 => Some((InstructionType::ORA, AddrKind::AbsY)),
        0x1D => Some((InstructionType::ORA, AddrKind::AbsX)),
        0x1E => Some((InstructionType::ASL, AddrKind::AbsX)),
        0x20 => Some((InstructionType::JSR, AddrKind::Abs)),
        0x21 => Some((InstructionType::AND, AddrKind::XInd)),
        0x24 => Some((InstructionType::BIT, AddrKind::Zpg)),
        0x25 => Some((InstructionType::AND, AddrKind::Zpg)),
        0x26 => Some((InstructionType::ROL, AddrKind::Zpg)),
        0x28 => Some((InstructionType::PLP, AddrKind::Impl)),
        0x29 => Some((InstructionType::AND, AddrKind::Imm)),
        0x2A => Some((InstructionType::ROL, AddrKind::A)),
        0x2C => Some((InstructionType::BIT, AddrKind::Abs)),
        0x2D => Some((InstructionType::AND, AddrKind::Abs)),
        0x2E => Some((InstructionType::ROL, AddrKind::Abs)),
        0x30 => Some((InstructionType::BMI, AddrKind::Rel)),
        0x31 => Some((InstructionType::AND, AddrKind::IndY)),
        0x35 => Some((InstructionType::AND, AddrKind::ZpgX)),
        0x36 => Some((InstructionType::ROL, AddrKind::ZpgX)),
        0x38 => Some((InstructionType::SEC, AddrKind::Impl)),
        0x39 => Some((InstructionType::AND, AddrKind::AbsY)),
        0x3D => Some((InstructionType::AND, AddrKind::AbsX)),
        0x3E => Some((InstructionType::ROL, AddrKind::AbsX)),
        0x40 => Some((InstructionType::RTI, AddrKind::Impl)),
        0x41 => Some((InstructionType::EOR, AddrKind::XInd)),
        0x45 => Some((InstructionType::EOR, AddrKind::Zpg)),
        0x46 => Some((InstructionType::LSR, AddrKind::Zpg)),
        0x48 => Some((InstructionType::PHA, AddrKind::Impl)),
        0x49 => Some((InstructionType::EOR, AddrKind::Imm)),
        0x4A => Some((InstructionType::LSR, AddrKind::A)),
        0x4C => Some((InstructionType::JMP, AddrKind::Abs)),
        0x4D => Some((InstructionType::EOR, AddrKind::Abs)),
        0x4E => Some((InstructionType::LSR, AddrKind::Abs)),
        0x50 => Some((InstructionType::BVC, AddrKind::Rel)),
        0x51 => Some((InstructionType::EOR, AddrKind::IndY)),
        0x55 => Some((InstructionType::EOR, AddrKind::ZpgX)),
        0x56 => Some((InstructionType::LSR, AddrKind::ZpgX)),
        0x58 => Some((InstructionType::CLI, AddrKind::Impl)),
        0x59 => Some((InstructionType::EOR, AddrKind::AbsY)),
        0x5D => Some((InstructionType::EOR, AddrKind::AbsX)),
        0x5E => Some((InstructionType::LSR, AddrKind::AbsX)),
        0x60 => Some((InstructionType::RTS, AddrKind::Impl)),
        0x61 => Some((InstructionType::ADC, AddrKind::XInd)),
        0x65 => Some((InstructionType::ADC, AddrKind::Zpg)),
        0x66 => Some((InstructionType::ROR, AddrKind::Zpg)),
        0x68 => Some((InstructionType::PLA, AddrKind::Impl)),
        0x69 => Some((InstructionType::ADC, AddrKind::Imm)),
        0x6A => Some((InstructionType::ROR, AddrKind::A)),
        0x6C => Some((InstructionType::JMP, AddrKind::Ind)),
        0x6D => Some((InstructionType::ADC, AddrKind::Abs)),
        0x6E => Some((InstructionType::ROR, AddrKind::Abs)),
        0x70 => Some((InstructionType::BVS, AddrKind::Rel)),
        0x71 => Some((InstructionType::ADC, AddrKind::IndY)),
        0x75 => Some((InstructionType::ADC, AddrKind::ZpgX)),
        0x76 => Some((InstructionType::ROR, AddrKind::ZpgX)),
        0x78 => Some((InstructionType::SEI, AddrKind::Impl)),
        0x79 => Some((InstructionType::ADC, AddrKind::AbsY)),
        0x7D => Some((InstructionType::ADC, AddrKind::AbsX)),
        0x7E => Some((InstructionType::ROR, AddrKind::AbsX)),
        0x81 => Some((InstructionType::STA, AddrKind::XInd)),
        0x84 => Some((InstructionType::STY, AddrKind::Zpg)),
        0x85 => Some((InstructionType::STA, AddrKind::Zpg)),
        0x86 => Some((InstructionType::STX, AddrKind::Zpg)),
        0x88 => Some((InstructionType::DEY, AddrKind::Impl)),
        0x8A => Some((InstructionType::TXA, AddrKind::Impl)),
        0x8C => Some((InstructionType::STY, AddrKind::Abs)),
        0x8D => Some((InstructionType::STA, AddrKind::Abs)),
        0x8E => Some((InstructionType::STX, AddrKind::Abs)),
        0x90 => Some((InstructionType::BCC, AddrKind::Rel)),
        0x91 => Some((InstructionType::STA, AddrKind::IndY)),
        0x94 => Some((InstructionType::STY, AddrKind::ZpgX)),
        0x95 => Some((InstructionType::STA, AddrKind::ZpgX)),
        0x96 => Some((InstructionType::STX, AddrKind::ZpgY)),
        0x98 => Some((InstructionType::TYA, AddrKind::Impl)),
        0x99 => Some((InstructionType::STA, AddrKind::AbsY)),
        0x9A => Some((InstructionType::TXS, AddrKind::Impl)),
        0x9D => Some((InstructionType::STA, AddrKind::AbsX)),
        0xA0 => Some((InstructionType::LDY, AddrKind::Imm)),
        0xA1 => Some((InstructionType::LDA, AddrKind::XInd)),
        0xA2 => Some((InstructionType::LDX, AddrKind::Imm)),
        0xA4 => Some((InstructionType::LDY, AddrKind::Zpg)),
        0xA5 => Some((InstructionType::LDA, AddrKind::Zpg)),
        0xA6 => Some((InstructionType::LDX, AddrKind::Zpg)),
        0xA8 => Some((InstructionType::TAY, AddrKind::Impl)),
        0xA9 => Some((InstructionType::LDA, AddrKind::Imm)),
        0xAA => Some((InstructionType::TAX, AddrKind::Impl)),
        0xAC => Some((InstructionType::LDY, AddrKind::Abs)),
        0xAD => Some((InstructionType::LDA, AddrKind::Abs)),
        0xAE => Some((InstructionType::LDX, AddrKind::Abs)),
        0xB0 => Some((InstructionType::BCS, AddrKind::Rel)),
        0xB1 => Some((InstructionType::LDA, AddrKind::IndY)),
        0xB4 => Some((InstructionType::LDY, AddrKind::ZpgX)),
        0xB5 => Some((InstructionType::LDA, AddrKind::ZpgX)),
        0xB6 => Some((InstructionType::LDX, AddrKind::ZpgY)),
        0xB8 => Some((InstructionType::CLV, AddrKind::Impl)),
        0xB9 => Some((InstructionType::LDA, AddrKind::AbsY)),
        0xBA => Some((InstructionType::TSX, AddrKind::Impl)),
        0xBC => Some((InstructionType::LDY, AddrKind::AbsX)),
        0xBD => Some((InstructionType::LDA, AddrKind::AbsX)),
        0xBE => Some((InstructionType::LDX, AddrKind::AbsY)),
        0xC0 => Some((InstructionType::CPY, AddrKind::Imm)),
        0xC1 => Some((InstructionType::CMP, AddrKind::XInd)),
        0xC4 => Some((InstructionType::CPY, AddrKind::Zpg)),
        0xC5 => Some((InstructionType::CMP, AddrKind::Zpg)),
        0xC6 => Some((InstructionType::DEC, AddrKind::Zpg)),
        0xC8 => Some((InstructionType::INY, AddrKind::Impl)),
        0xC9 => Some((InstructionType::CMP, AddrKind::Imm)),
        0xCA => Some((InstructionType::DEX, AddrKind::Impl)),
        0xCC => Some((InstructionType::CPY, AddrKind::Abs)),
        0xCD => Some((InstructionType::CMP, AddrKind::Abs)),
        0xCE => Some((InstructionType::DEC, AddrKind::Abs)),
        0xD0 => Some((InstructionType::BNE, AddrKind::Rel)),
        0xD1 => Some((InstructionType::CMP, AddrKind::IndY)),
        0xD5 => Some((InstructionType::CMP, AddrKind::ZpgX)),
        0xD6 => Some((InstructionType::DEC, AddrKind::ZpgX)),
        0xD8 => Some((InstructionType::CLD, AddrKind::Impl)),
        0xD9 => Some((InstructionType::CMP, AddrKind::AbsY)),
        0xDD => Some((InstructionType::CMP, AddrKind::AbsX)),
        0xDE => Some((InstructionType::DEC, AddrKind::AbsX)),
        0xE0 => Some((InstructionType::CPX, AddrKind::Imm)),
        0xE1 => Some((InstructionType::SBC, AddrKind::XInd)),
        0xE4 => Some((InstructionType::CPX, AddrKind::Zpg)),
        0xE5 => Some((InstructionType::SBC, AddrKind::Zpg)),
        0xE6 => Some((InstructionType::INC, AddrKind::Zpg)),
        0xE8 => Some((InstructionType::INX, AddrKind::Impl)),
        0xE9 => Some((InstructionType::SBC, AddrKind::Imm)),
        0xEA => Some((InstructionType::NOP, AddrKind::Impl)),
        0xEC => Some((InstructionType::CPX, AddrKind::Abs)),
        0xED => Some((InstructionType::SBC, AddrKind::Abs)),
        0xEE => Some((InstructionType::INC, AddrKind::Abs)),
        0xF0 => Some((InstructionType::BEQ, AddrKind::Rel)),
        0xF1 => Some((InstructionType::SBC, AddrKind::IndY)),
        0xF5 => Some((InstructionType::SBC, AddrKind::ZpgX)),
        0xF6 => Some((InstructionType::INC, AddrKind::ZpgX)),
        0xF8 => Some((InstructionType::SED, AddrKind::Impl)),
        0xF9 => Some((InstructionType::SBC, AddrKind::AbsY)),
        0xFD => Some((InstructionType::SBC, AddrKind::AbsX)),
        0xFE => Some((InstructionType::INC, AddrKind::AbsX)),
        _ => None,
    }
}

/// The opcode value that encodes an instruction with an addressing mode,
/// where the instruction set has that combination.
pub open spec fn opcode_of(ins_type: InstructionType, kind: AddrKind) -> Option<u8> {
    match ins_type {
        InstructionType::ADC => match kind {
            AddrKind::Imm => Some(0x69),
            AddrKind::Zpg => Some(0x65),
            AddrKind::ZpgX => Some(0x75),
            AddrKind::Abs => Some(0x6D),
            AddrKind::AbsX => Some(0x7D),
            AddrKind::AbsY => Some(0x79),
            AddrKind::XInd => Some(0x61),
            AddrKind::IndY => Some(0x71),
            _ => None,
        },
        InstructionType::AND => match kind {
            AddrKind::Imm => Some(0x29),
            AddrKind::Zpg => Some(0x25),
            AddrKind::ZpgX => Some(0x35),
            AddrKind::Abs => Some(0x2D),
            AddrKind::AbsX => Some(0x3D),
            AddrKind::AbsY => Some(0x39),
            AddrKind::XInd => Some(0x21),
            AddrKind::IndY => Some(0x31),
            _ => None,
        },
        InstructionType::ASL => match kind {
            AddrKind::A => Some(0x0A),
            AddrKind::Zpg => Some(0x06),
            AddrKind::ZpgX => Some(0x16),
            AddrKind::Abs => Some(0x0E),
            AddrKind::AbsX => Some(0x1E),
            _ => None,
        },
        InstructionType::BCC => match kind {
            AddrKind::Rel => Some(0x90),
            _ => None,
        },
        InstructionType::BCS => match kind {
            AddrKind::Rel => Some(0xB0),
            _ => None,
        },
        InstructionType::BEQ => match kind {
            AddrKind::Rel => Some(0xF0),
            _ => None,
        },
        InstructionType::BIT => match kind {
            AddrKind::Zpg => Some(0x24),
            AddrKind::Abs => Some(0x2C),
            _ => None,
        },
        InstructionType::BMI => match kind {
            AddrKind::Rel => Some(0x30),
            _ => None,
        },
        InstructionType::BNE => match kind {
            AddrKind::Rel => Some(0xD0),
            _ => None,
        },
        InstructionType::BPL => match kind {
            AddrKind::Rel => Some(0x10),
            _ => None,
        },
        InstructionType::BRK => match kind {
            AddrKind::Impl => Some(0x00),
            _ => None,
        },
        InstructionType::BVC => match kind {
            AddrKind::Rel => Some(0x50),
            _ => None,
        },
        InstructionType::BVS => match kind {
            AddrKind::Rel => Some(0x70),
            _ => None,
        },
        InstructionType::CLC => match kind {
            AddrKind::Impl => Some(0x18),
            _ => None,
        },
        InstructionType::CLD => match kind {
            AddrKind::Impl => Some(0xD8),
            _ => None,
        },
        InstructionType::CLI => match kind {
            AddrKind::Impl => Some(0x58),
            _ => None,
        },
        InstructionType::CLV => match kind {
            AddrKind::Impl => Some(0xB8),
            _ => None,
        },
        InstructionType::CMP => match kind {
            AddrKind::Imm => Some(0xC9),
            AddrKind::Zpg => Some(0xC5),
            AddrKind::ZpgX => Some(0xD5),
            AddrKind::Abs => Some(0xCD),
            AddrKind::AbsX => Some(0xDD),
            AddrKind::AbsY => Some(0xD9),
            AddrKind::XInd => Some(0xC1),
            AddrKind::IndY => Some(0xD1),
            _ => None,
        },
        InstructionType::CPX => match kind {
            AddrKind::Imm => Some(0xE0),
            AddrKind::Zpg => Some(0xE4),
            AddrKind::Abs => Some(0xEC),
            _ => None,
        },
        InstructionType::CPY => match kind {
            AddrKind::Imm => Some(0xC0),
            AddrKind::Zpg => Some(0xC4),
            AddrKind::Abs => Some(0xCC),
            _ => None,
        },
        InstructionType::DEC => match kind {
            AddrKind::Zpg => Some(0xC6),
            AddrKind::ZpgX => Some(0xD6),
            AddrKind::Abs => Some(0xCE),
            AddrKind::AbsX => Some(0xDE),
            _ => None,
        },
        InstructionType::DEX => match kind {
            AddrKind::Impl => Some(0xCA),
            _ => None,
        },
        InstructionType::DEY => match kind {
            AddrKind::Impl => Some(0x88),
            _ => None,
        },
        InstructionType::EOR => match kind {
            AddrKind::Imm => Some(0x49),
            AddrKind::Zpg => Some(0x45),
            AddrKind::ZpgX => Some(0x55),
            AddrKind::Abs => Some(0x4D),
            AddrKind::AbsX => Some(0x5D),
            AddrKind::AbsY => Some(0x59),
            AddrKind::XInd => Some(0x41),
            AddrKind::IndY => Some(0x51),
            _ => None,
        },
        InstructionType::INC => match kind {
            AddrKind::Zpg => Some(0xE6),
            AddrKind::ZpgX => Some(0xF6),
            AddrKind::Abs => Some(0xEE),
            AddrKind::AbsX => Some(0xFE),
            _ => None,
        },
        InstructionType::INX => match kind {
            AddrKind::Impl => Some(0xE8),
            _ => None,
        },
        InstructionType::INY => match kind {
            AddrKind::Impl => Some(0xC8),
            _ => None,
        },
        InstructionType::JMP => match kind {
            AddrKind::Abs => Some(0x4C),
            AddrKind::Ind => Some(0x6C),
            _ => None,
        },
        InstructionType::JSR => match kind {
            AddrKind::Abs => Some(0x20),
            _ => None,
        },
        InstructionType::LDA => match kind {
            AddrKind::Imm => Some(0xA9),
            AddrKind::Zpg => Some(0xA5),
            AddrKind::ZpgX => Some(0xB5),
            AddrKind::Abs => Some(0xAD),
            AddrKind::AbsX => Some(0xBD),
            AddrKind::AbsY => Some(0xB9),
            AddrKind::XInd => Some(0xA1),
            AddrKind::IndY => Some(0xB1),
            _ => None,
        },
        InstructionType::LDX => match kind {
            AddrKind::Imm => Some(0xA2),
            AddrKind::Zpg => Some(0xA6),
            AddrKind::ZpgY => Some(0xB6),
            AddrKind::Abs => Some(0xAE),
            AddrKind::AbsY => Some(0xBE),
            _ => None,
        },
        InstructionType::LDY => match kind {
            AddrKind::Imm => Some(0xA0),
            AddrKind::Zpg => Some(0xA4),
            AddrKind::ZpgX => Some(0xB4),
            AddrKind::Abs => Some(0xAC),
            AddrKind::AbsX => Some(0xBC),
            _ => None,
        },
        InstructionType::LSR => match kind {
            AddrKind::A => Some(0x4A),
            AddrKind::Zpg => Some(0x46),
            AddrKind::ZpgX => Some(0x56),
            AddrKind::Abs => Some(0x4E),
            AddrKind::AbsX => Some(0x5E),
            _ => None,
        },
        InstructionType::NOP => match kind {
            AddrKind::Impl => Some(0xEA),
            _ => None,
        },
        InstructionType::ORA => match kind {
            AddrKind::Imm => Some(0x09),
            AddrKind::Zpg => Some(0x05),
            AddrKind::ZpgX => Some(0x15),
            AddrKind::Abs => Some(0x0D),
            AddrKind::AbsX => Some(0x1D),
            AddrKind::AbsY => Some(0x19),
            AddrKind::XInd => Some(0x01),
            AddrKind::IndY => Some(0x11),
            _ => None,
        },
        InstructionType::PHA => match kind {
            AddrKind::Impl => Some(0x48),
            _ => None,
        },
        InstructionType::PHP => match kind {
            AddrKind::Impl => Some(0x08),
            _ => None,
        },
        InstructionType::PLA => match kind {
            AddrKind::Impl => Some(0x68),
            _ => None,
        },
        InstructionType::PLP => match kind {
            AddrKind::Impl => Some(0x28),
            _ => None,
        },
        InstructionType::ROL => match kind {
            AddrKind::A => Some(0x2A),
            AddrKind::Zpg => Some(0x26),
            AddrKind::ZpgX => Some(0x36),
            AddrKind::Abs => Some(0x2E),
            AddrKind::AbsX => Some(0x3E),
            _ => None,
        },
        InstructionType::ROR => match kind {
            AddrKind::A => Some(0x6A),
            AddrKind::Zpg => Some(0x66),
            AddrKind::ZpgX => Some(0x76),
            AddrKind::Abs => Some(0x6E),
            AddrKind::AbsX => Some(0x7E),
            _ => None,
        },
        InstructionType::RTI => match kind {
            AddrKind::Impl => Some(0x40),
            _ => None,
        },
        InstructionType::RTS => match kind {
            AddrKind::Impl => Some(0x60),
            _ => None,
        },
        InstructionType::SBC => match kind {
            AddrKind::Imm => Some(0xE9),
            AddrKind::Zpg => Some(0xE5),
            AddrKind::ZpgX => Some(0xF5),
            AddrKind::Abs => Some(0xED),
            AddrKind::AbsX => Some(0xFD),
            AddrKind::AbsY => Some(0xF9),
            AddrKind::XInd => Some(0xE1),
            AddrKind::IndY => Some(0xF1),
            _ => None,
        },
        InstructionType::SEC => match kind {
            AddrKind::Impl => Some(0x38),
            _ => None,
        },
        InstructionType::SED => match kind {
            AddrKind::Impl => Some(0xF8),
            _ => None,
        },
        InstructionType::SEI => match kind {
            AddrKind::Impl => Some(0x78),
            _ => None,
        },
        InstructionType::STA => match kind {
            AddrKind::Zpg => Some(0x85),
            AddrKind::ZpgX => Some(0x95),
            AddrKind::Abs => Some(0x8D),
            AddrKind::AbsX => Some(0x9D),
            AddrKind::AbsY => Some(0x99),
            AddrKind::XInd => Some(0x81),
            AddrKind::IndY => Some(0x91),
            _ => None,
        },
        InstructionType::STX => match kind {
            AddrKind::Zpg => Some(0x86),
            AddrKind::ZpgY => Some(0x96),
            AddrKind::Abs => Some(0x8E),
            _ => None,
        },
        InstructionType::STY => match kind {
            AddrKind::Zpg => Some(0x84),
            AddrKind::ZpgX => Some(0x94),
            AddrKind::Abs => Some(0x8C),
            _ => None,
        },
        InstructionType::TAX => match kind {
            AddrKind::Impl => Some(0xAA),
            _ => None,
        },
        InstructionType::TAY => match kind {
            AddrKind::Impl => Some(0xA8),
            _ => None,
        },
        InstructionType::TSX => match kind {
            AddrKind::Impl => Some(0xBA),
            _ => None,
        },
        InstructionType::TXA => match kind {
            AddrKind::Impl => Some(0x8A),
            _ => None,
        },
        InstructionType::TXS => match kind {
            AddrKind::Impl => Some(0x9A),
            _ => None,
        },
        InstructionType::TYA => match kind {
            AddrKind::Impl => Some(0x98),
            _ => None,
        },
    }
}

/// Decoding inverts encoding: an opcode value selects an instruction and an
/// addressing mode exactly when that combination is encoded by the value.
/// So no two opcode values select the same combination.
pub proof fn lemma_opcode_round_trip(opcode: u8, ins_type: InstructionType, kind: AddrKind)
    ensures
        opcode_entry(opcode) == Some((ins_type, kind)) <==> opcode_of(ins_type, kind) == Some(
            opcode,
        ),
{
}

/// Look an opcode value up in the table.
pub fn lookup(opcode: u8) -> (entry: Option<(InstructionType, AddrKind)>)
    ensures
        entry == opcode_entry(opcode),
{
    match opcode {
        // Add Memory to Accumulator with Carry
        0x69 => Some((InstructionType::ADC, AddrKind::Imm)),
        0x65 => Some((InstructionType::ADC, AddrKind::Zpg)),
        0x75 => Some((InstructionType::ADC, AddrKind::ZpgX)),
        0x6D => Some((InstructionType::ADC, AddrKind::Abs)),
        0x7D => Some((InstructionType::ADC, AddrKind::AbsX)),
        0x79 => Some((InstructionType::ADC, AddrKind::AbsY)),
        0x61 => Some((InstructionType::ADC, AddrKind::XInd)),
        0x71 => Some((InstructionType::ADC, AddrKind::IndY)),
        // AND Memory with Accumulator
        0x29 => Some((InstructionType::AND, AddrKind::Imm)),
        0x25 => Some((InstructionType::AND, AddrKind::Zpg)),
        0x35 => Some((InstructionType::AND, AddrKind::ZpgX)),
        0x2D => Some((InstructionType::AND, AddrKind::Abs)),
        0x3D => Some((InstructionType::AND, AddrKind::AbsX)),
        0x39 => Some((InstructionType::AND, AddrKind::AbsY)),
        0x21 => Some((InstructionType::AND, AddrKind::XInd)),
        0x31 => Some((InstructionType::AND, AddrKind::IndY)),
        // Shift Left One Bit (Memory or Accumulator)
        0x0A => Some((InstructionType::ASL, AddrKind::A)),
        0x06 => Some((InstructionType::ASL, AddrKind::Zpg)),
        0x16 => Some((InstructionType::ASL, AddrKind::ZpgX)),
        0x0E => Some((InstructionType::ASL, AddrKind::Abs)),
        0x1E => Some((InstructionType::ASL, AddrKind::AbsX)),
        // Branch on Carry Clear
        0x90 => Some((InstructionType::BCC, AddrKind::Rel)),
        // Branch on Carry Set
        0xB0 => Some((InstructionType::BCS, AddrKind::Rel)),
        // Branch on Result Zero
        0xF0 => Some((InstructionType::BEQ, AddrKind::Rel)),
        // Test Bits in Memory with Accumulator
        0x24 => Some((InstructionType::BIT, AddrKind::Zpg)),
        0x2C => Some((InstructionType::BIT, AddrKind::Abs)),
        // Branch on Result Minus
        0x30 => Some((InstructionType::BMI, AddrKind::Rel)),
        // Branch on Result not Zero
        0xD0 => Some((InstructionType::BNE, AddrKind::Rel)),
        // Branch on Result Plus
        0x10 => Some((InstructionType::BPL, AddrKind::Rel)),
        // Force Break
        0x00 => Some((InstructionType::BRK, AddrKind::Impl)),
        // Branch on Overflow Clear
        0x50 => Some((InstructionType::BVC, AddrKind::Rel)),
        // Branch on Overflow Set
        0x70 => Some((InstructionType::BVS, AddrKind::Rel)),
        // Clear Carry Flag
        0x18 => Some((InstructionType::CLC, AddrKind::Impl)),
        // Clear Decimal Mode
        0xD8 => Some((InstructionType::CLD, AddrKind::Impl)),
        // Clear Interrupt Disable Bit
        0x58 => Some((InstructionType::CLI, AddrKind::Impl)),
        // Clear Overflow Flag
        0xB8 => Some((InstructionType::CLV, AddrKind::Impl)),
        // Compare Memory with Accumulator
        0xC9 => Some((InstructionType::CMP, AddrKind::Imm)),
        0xC5 => Some((InstructionType::CMP, AddrKind::Zpg)),
        0xD5 => Some((InstructionType::CMP, AddrKind::ZpgX)),
        0xCD => Some((InstructionType::CMP, AddrKind::Abs)),
        0xDD => Some((InstructionType::CMP, AddrKind::AbsX)),
        0xD9 => Some((InstructionType::CMP, AddrKind::AbsY)),
        0xC1 => Some((InstructionType::CMP, AddrKind::XInd)),
        0xD1 => Some((InstructionType::CMP, AddrKind::IndY)),
        // Compare Memory and Index X
        0xE0 => Some((InstructionType::CPX, AddrKind::Imm)),
        0xE4 => Some((InstructionType::CPX, AddrKind::Zpg)),
        0xEC => Some((InstructionType::CPX, AddrKind::Abs)),
        // Compare Memory and Index Y
        0xC0 => Some((InstructionType::CPY, AddrKind::Imm)),
        0xC4 => Some((InstructionType::CPY, AddrKind::Zpg)),
        0xCC => Some((InstructionType::CPY, AddrKind::Abs)),
        // Decrement Memory by One
        0xC6 => Some((InstructionType::DEC, AddrKind::Zpg)),
        0xD6 => Some((InstructionType::DEC, AddrKind::ZpgX)),
        0xCE => Some((InstructionType::DEC, AddrKind::Abs)),
        0xDE => Some((InstructionType::DEC, AddrKind::AbsX)),
        // Decrement Index X by One
        0xCA => Some((InstructionType::DEX, AddrKind::Impl)),
        // Decrement Index Y by One
        0x88 => Some((InstructionType::DEY, AddrKind::Impl)),
        // Exclusive-OR Memory with Accumulator
        0x49 => Some((InstructionType::EOR, AddrKind::Imm)),
        0x45 => Some((InstructionType::EOR, AddrKind::Zpg)),
        0x55 => Some((InstructionType::EOR, AddrKind::ZpgX)),
        0x4D => Some((InstructionType::EOR, AddrKind::Abs)),
        0x5D => Some((InstructionType::EOR, AddrKind::AbsX)),
        0x59 => Some((InstructionType::EOR, AddrKind::AbsY)),
        0x41 => Some((InstructionType::EOR, AddrKind::XInd)),
        0x51 => Some((InstructionType::EOR, AddrKind::IndY)),
        // Increment Memory by One
        0xE6 => Some((InstructionType::INC, AddrKind::Zpg)),
        0xF6 => Some((InstructionType::INC, AddrKind::ZpgX)),
        0xEE => Some((InstructionType::INC, AddrKind::Abs)),
        0xFE => Some((InstructionType::INC, AddrKind::AbsX)),
        // Increment Index X by One
        0xE8 => Some((InstructionType::INX, AddrKind::Impl)),
        // Increment Index Y by One
        0xC8 => Some((InstructionType::INY, AddrKind::Impl)),
        // Jump to New Location
        0x4C => Some((InstructionType::JMP, AddrKind::Abs)),
        0x6C => Some((InstructionType::JMP, AddrKind::Ind)),
        // Jump to New Location Saving Return Address
        0x20 => Some((InstructionType::JSR, AddrKind::Abs)),
        // Load Accumulator with Memory
        0xA9 => Some((InstructionType::LDA, AddrKind::Imm)),
        0xA5 => Some((InstructionType::LDA, AddrKind::Zpg)),
        0xB5 => Some((InstructionType::LDA, AddrKind::ZpgX)),
        0xAD => Some((InstructionType::LDA, AddrKind::Abs)),
        0xBD => Some((InstructionType::LDA, AddrKind::AbsX)),
        0xB9 => Some((InstructionType::LDA, AddrKind::AbsY)),
        0xA1 => Some((InstructionType::LDA, AddrKind::XInd)),
        0xB1 => Some((InstructionType::LDA, AddrKind::IndY)),
        // Load Index X with Memory
        0xA2 => Some((InstructionType::LDX, AddrKind::Imm)),
        0xA6 => Some((InstructionType::LDX, AddrKind::Zpg)),
        0xB6 => Some((InstructionType::LDX, AddrKind::ZpgY)),
        0xAE => Some((InstructionType::LDX, AddrKind::Abs)),
        0xBE => Some((InstructionType::LDX, AddrKind::AbsY)),
        // Load Index Y with Memory
        0xA0 => Some((InstructionType::LDY, AddrKind::Imm)),
        0xA4 => Some((InstructionType::LDY, AddrKind::Zpg)),
        0xB4 => Some((InstructionType::LDY, AddrKind::ZpgX)),
        0xAC => Some((InstructionType::LDY, AddrKind::Abs)),
        0xBC => Some((InstructionType::LDY, AddrKind::AbsX)),
        // Shift One Bit Right (Memory or Accumulator)
        0x4A => Some((InstructionType::LSR, AddrKind::A)),
        0x46 => Some((InstructionType::LSR, AddrKind::Zpg)),
        0x56 => Some((InstructionType::LSR, AddrKind::ZpgX)),
        0x4E => Some((InstructionType::LSR, AddrKind::Abs)),
        0x5E => Some((InstructionType::LSR, AddrKind::AbsX)),
        // No Operation
        0xEA => Some((InstructionType::NOP, AddrKind::Impl)),
        // OR Memory with Accumulator
        0x09 => Some((InstructionType::ORA, AddrKind::Imm)),
        0x05 => Some((InstructionType::ORA, AddrKind::Zpg)),
        0x15 => Some((InstructionType::ORA, AddrKind::ZpgX)),
        0x0D => Some((InstructionType::ORA, AddrKind::Abs)),
        0x1D => Some((InstructionType::ORA, AddrKind::AbsX)),
        0x19 => Some((InstructionType::ORA, AddrKind::AbsY)),
        0x01 => Some((InstructionType::ORA, AddrKind::XInd)),
        0x11 => Some((InstructionType::ORA, AddrKind::IndY)),
        // Push Accumulator on Stack
        0x48 => Some((InstructionType::PHA, AddrKind::Impl)),
        // Push Processor Status on Stack
        0x08 => Some((InstructionType::PHP, AddrKind::Impl)),
        // Pull Accumulator from Stack
        0x68 => Some((InstructionType::PLA, AddrKind::Impl)),
        // Pull Processor Status from Stack
        0x28 => Some((InstructionType::PLP, AddrKind::Impl)),
        // Rotate One Bit Left (Memory or Accumulator)
        0x2A => Some((InstructionType::ROL, AddrKind::A)),
        0x26 => Some((InstructionType::ROL, AddrKind::Zpg)),
        0x36 => Some((InstructionType::ROL, AddrKind::ZpgX)),
        0x2E => Some((InstructionType::ROL, AddrKind::Abs)),
        0x3E => Some((InstructionType::ROL, AddrKind::AbsX)),
        // Rotate One Bit Right (Memory or Accumulator)
        0x6A => Some((InstructionType::ROR, AddrKind::A)),
        0x66 => Some((InstructionType::ROR, AddrKind::Zpg)),
        0x76 => Some((InstructionType::ROR, AddrKind::ZpgX)),
        0x6E => Some((InstructionType::ROR, AddrKind::Abs)),
        0x7E => Some((InstructionType::ROR, AddrKind::AbsX)),
        // Return from Interrupt
        0x40 => Some((InstructionType::RTI, AddrKind::Impl)),
        // Return from Subroutine
        0x60 => Some((InstructionType::RTS, AddrKind::Impl)),
        // Subtract Memory from Accumulator with Borrow
        0xE9 => Some((InstructionType::SBC, AddrKind::Imm)),
        0xE5 => Some((InstructionType::SBC, AddrKind::Zpg)),
        0xF5 => Some((InstructionType::SBC, AddrKind::ZpgX)),
        0xED => Some((InstructionType::SBC, AddrKind::Abs)),
        0xFD => Some((InstructionType::SBC, AddrKind::AbsX)),
        0xF9 => Some((InstructionType::SBC, AddrKind::AbsY)),
        0xE1 => Some((InstructionType::SBC, AddrKind::XInd)),
        0xF1 => Some((InstructionType::SBC, AddrKind::IndY)),
        // Set Carry Flag
        0x38 => Some((InstructionType::SEC, AddrKind::Impl)),
        // Set Decimal Flag
        0xF8 => Some((InstructionType::SED, AddrKind::Impl)),
        // Set Interrupt Disable Status
        0x78 => Some((InstructionType::SEI, AddrKind::Impl)),
        // Store Accumulator in Memory
        0x85 => Some((InstructionType::STA, AddrKind::Zpg)),
        0x95 => Some((InstructionType::STA, AddrKind::ZpgX)),
        0x8D => Some((InstructionType::STA, AddrKind::Abs)),
        0x9D => Some((InstructionType::STA, AddrKind::AbsX)),
        0x99 => Some((InstructionType::STA, AddrKind::AbsY)),
        0x81 => Some((InstructionType::STA, AddrKind::XInd)),
        0x91 => Some((InstructionType::STA, AddrKind::IndY)),
        // Store Index X in Memory
        0x86 => Some((InstructionType::STX, AddrKind::Zpg)),
        0x96 => Some((InstructionType::STX, AddrKind::ZpgY)),
        0x8E => Some((InstructionType::STX, AddrKind::Abs)),
        // Store Index Y in Memory
        0x84 => Some((InstructionType::STY, AddrKind::Zpg)),
        0x94 => Some((InstructionType::STY, AddrKind::ZpgX)),
        0x8C => Some((InstructionType::STY, AddrKind::Abs)),
        // Transfer Accumulator to Index X
        0xAA => Some((InstructionType::TAX, AddrKind::Impl)),
        // Transfer Accumulator to Index Y
        0xA8 => Some((InstructionType::TAY, AddrKind::Impl)),
        // Transfer Stack Pointer to Index X
        0xBA => Some((InstructionType::TSX, AddrKind::Impl)),
        // Transfer Index X to Accumulator
        0x8A => Some((InstructionType::TXA, AddrKind::Impl)),
        // Transfer Index X to Stack Register
        0x9A => Some((InstructionType::TXS, AddrKind::Impl)),
        // Transfer Index Y to Accumulator
        0x98 => Some((InstructionType::TYA, AddrKind::Impl)),
        _ => None,
    }
}

/// The three-letter name of an instruction.
pub open spec fn mnemonic_of(ins_type: InstructionType) -> Seq<char> {
    match ins_type {
        InstructionType::ADC => "ADC"@,
        InstructionType::AND => "AND"@,
        InstructionType::ASL => "ASL"@,
        InstructionType::BCC => "BCC"@,
        InstructionType::BCS => "BCS"@,
        InstructionType::BEQ => "BEQ"@,
        InstructionType::BIT => "BIT"@,
        InstructionType::BMI => "BMI"@,
        InstructionType::BNE => "BNE"@,
        InstructionType::BPL => "BPL"@,
        InstructionType::BRK => "BRK"@,
        InstructionType::BVC => "BVC"@,
        InstructionType::BVS => "BVS"@,
        InstructionType::CLC => "CLC"@,
        InstructionType::CLD => "CLD"@,
        InstructionType::CLI => "CLI"@,
        InstructionType::CLV => "CLV"@,
        InstructionType::CMP => "CMP"@,
        InstructionType::CPX => "CPX"@,
        InstructionType::CPY => "CPY"@,
        InstructionType::DEC => "DEC"@,
        InstructionType::DEX => "DEX"@,
        InstructionType::DEY => "DEY"@,
        InstructionType::EOR => "EOR"@,
        InstructionType::INC => "INC"@,
        InstructionType::INX => "INX"@,
        InstructionType::INY => "INY"@,
        InstructionType::JMP => "JMP"@,
        InstructionType::JSR => "JSR"@,
        InstructionType::LDA => "LDA"@,
        InstructionType::LDX => "LDX"@,
        InstructionType::LDY => "LDY"@,
        InstructionType::LSR => "LSR"@,
        InstructionType::NOP => "NOP"@,
        InstructionType::ORA => "ORA"@,
        InstructionType::PHA => "PHA"@,
        InstructionType::PHP => "PHP"@,
        InstructionType::PLA => "PLA"@,
        InstructionType::PLP => "PLP"@,
        InstructionType::ROL => "ROL"@,
        InstructionType::ROR => "ROR"@,
        InstructionType::RTI => "RTI"@,
        InstructionType::RTS => "RTS"@,
        InstructionType::SBC => "SBC"@,
        InstructionType::SEC => "SEC"@,
        InstructionType::SED => "SED"@,
        InstructionType::SEI => "SEI"@,
        InstructionType::STA => "STA"@,
        InstructionType::STX => "STX"@,
        InstructionType::STY => "STY"@,
        InstructionType::TAX => "TAX"@,
        InstructionType::TAY => "TAY"@,
        InstructionType::TSX => "TSX"@,
        InstructionType::TXA => "TXA"@,
        InstructionType::TXS => "TXS"@,
        InstructionType::TYA => "TYA"@,
    }
}

/// What an instruction does, in a few words.
pub open spec fn description_of(ins_type: InstructionType) -> Seq<char> {
    match ins_type {
        InstructionType::ADC => "Add Memory to Accumulator with Carry"@,
        InstructionType::AND => "AND Memory with Accumulator"@,
        InstructionType::ASL => "Shift Left One Bit (Memory or Accumulator)"@,
        InstructionType::BCC => "Branch on Carry Clear"@,
        InstructionType::BCS => "Branch on Carry Set"@,
        InstructionType::BEQ => "Branch on Result Zero"@,
        InstructionType::BIT => "Test Bits in Memory with Accumulator"@,
        InstructionType::BMI => "Branch on Result Minus"@,
        InstructionType::BNE => "Branch on Result not Zero"@,
        InstructionType::BPL => "Branch on Result Plus"@,
        InstructionType::BRK => "Force Break"@,
        InstructionType::BVC => "Branch on Overflow Clear"@,
        InstructionType::BVS => "Branch on Overflow Set"@,
        InstructionType::CLC => "Clear Carry Flag"@,
        InstructionType::CLD => "Clear Decimal Mode"@,
        InstructionType::CLI => "Clear Interrupt Disable Bit"@,
        InstructionType::CLV => "Clear Overflow Flag"@,
        InstructionType::CMP => "Compare Memory with Accumulator"@,
        InstructionType::CPX => "Compare Memory and Index X"@,
        InstructionType::CPY => "Compare Memory and Index Y"@,
        InstructionType::DEC => "Decrement Memory by One"@,
        InstructionType::DEX => "Decrement Index X by One"@,
        InstructionType::DEY => "Decrement Index Y by One"@,
        InstructionType::EOR => "Exclusive-OR Memory with Accumulator"@,
        InstructionType::INC => "Increment Memory by One"@,
        InstructionType::INX => "Increment Index X by One"@,
        InstructionType::INY => "Increment Index Y by One"@,
        InstructionType::JMP => "Jump to New Location"@,
        InstructionType::JSR => "Jump to New Location Saving Return Address"@,
        InstructionType::LDA => "Load Accumulator with Memory"@,
        InstructionType::LDX => "Load Index X with Memory"@,
        InstructionType::LDY => "Load Index Y with Memory"@,
        InstructionType::LSR => "Shift One Bit Right (Memory or Accumulator)"@,
        InstructionType::NOP => "No Operation"@,
        InstructionType::ORA => "OR Memory with Accumulator"@,
        InstructionType::PHA => "Push Accumulator on Stack"@,
        InstructionType::PHP => "Push Processor Status on Stack"@,
        InstructionType::PLA => "Pull Accumulator from Stack"@,
        InstructionType::PLP => "Pull Processor Status from Stack"@,
        InstructionType::ROL => "Rotate One Bit Left (Memory or Accumulator)"@,
        InstructionType::ROR => "Rotate One Bit Right (Memory or Accumulator)"@,
        InstructionType::RTI => "Return from Interrupt"@,
        InstructionType::RTS => "Return from Subroutine"@,
        InstructionType::SBC => "Subtract Memory from Accumulator with Borrow"@,
        InstructionType::SEC => "Set Carry Flag"@,
        InstructionType::SED => "Set Decimal Flag"@,
        InstructionType::SEI => "Set Interrupt Disable Status"@,
        InstructionType::STA => "Store Accumulator in Memory"@,
        InstructionType::STX => "Store Index X in Memory"@,
        InstructionType::STY => "Store Index Y in Memory"@,
        InstructionType::TAX => "Transfer Accumulator to Index X"@,
        InstructionType::TAY => "Transfer Accumulator to Index Y"@,
        InstructionType::TSX => "Transfer Stack Pointer to Index X"@,
        InstructionType::TXA => "Transfer Index X to Accumulator"@,
        InstructionType::TXS => "Transfer Index X to Stack Register"@,
        InstructionType::TYA => "Transfer Index Y to Accumulator"@,
    }
}

/// The category of work that an instruction does.
pub open spec fn category_of(ins_type: InstructionType) -> Category {
    match ins_type {
        InstructionType::ADC => Category::Arithmetic,
        InstructionType::AND => Category::Logical,
        InstructionType::ASL => Category::ShiftRotate,
        InstructionType::BCC => Category::Branch,
        InstructionType::BCS => Category::Branch,
        InstructionType::BEQ => Category::Branch,
        InstructionType::BIT => Category::Logical,
        InstructionType::BMI => Category::Branch,
        InstructionType::BNE => Category::Branch,
        InstructionType::BPL => Category::Branch,
        InstructionType::BRK => Category::Jump,
        InstructionType::BVC => Category::Branch,
        InstructionType::BVS => Category::Branch,
        InstructionType::CLC => Category::Flag,
        InstructionType::CLD => Category::Flag,
        InstructionType::CLI => Category::Flag,
        InstructionType::CLV => Category::Flag,
        InstructionType::CMP => Category::Compare,
        InstructionType::CPX => Category::Compare,
        InstructionType::CPY => Category::Compare,
        InstructionType::DEC => Category::IncDec,
        InstructionType::DEX => Category::IncDec,
        InstructionType::DEY => Category::IncDec,
        InstructionType::EOR => Category::Logical,
        InstructionType::INC => Category::IncDec,
        InstructionType::INX => Category::IncDec,
        InstructionType::INY => Category::IncDec,
        InstructionType::JMP => Category::Jump,
        InstructionType::JSR => Category::Jump,
        InstructionType::LDA => Category::LoadStore,
        InstructionType::LDX => Category::LoadStore,
        InstructionType::LDY => Category::LoadStore,
        InstructionType::LSR => Category::ShiftRotate,
        InstructionType::NOP => Category::NoOp,
        InstructionType::ORA => Category::Logical,
        InstructionType::PHA => Category::Stack,
        InstructionType::PHP => Category::Stack,
        InstructionType::PLA => Category::Stack,
        InstructionType::PLP => Category::Stack,
        InstructionType::ROL => Category::ShiftRotate,
        InstructionType::ROR => Category::ShiftRotate,
        InstructionType::RTI => Category::Jump,
        InstructionType::RTS => Category::Jump,
        InstructionType::SBC => Category::Arithmetic,
        InstructionType::SEC => Category::Flag,
        InstructionType::SED => Category::Flag,
        InstructionType::SEI => Category::Flag,
        InstructionType::STA => Category::LoadStore,
        InstructionType::STX => Category::LoadStore,
        InstructionType::STY => Category::LoadStore,
        InstructionType::TAX => Category::Transfer,
        InstructionType::TAY => Category::Transfer,
        InstructionType::TSX => Category::Transfer,
        InstructionType::TXA => Category::Transfer,
        InstructionType::TXS => Category::Transfer,
        InstructionType::TYA => Category::Transfer,
    }
}

impl InstructionType {
    /// The category of work that the instruction does.
    pub fn category(&self) -> (category: Category)
        ensures
            category == category_of(*self),
    {
        match self {
            InstructionType::LDA
            | InstructionType::LDX
            | InstructionType::LDY
            | InstructionType::STA
            | InstructionType::STX
            | InstructionType::STY => Category::LoadStore,
            InstructionType::ADC
            | InstructionType::SBC => Category::Arithmetic,
            InstructionType::AND
            | InstructionType::ORA
            | InstructionType::EOR
            | InstructionType::BIT => Category::Logical,
            InstructionType::ASL
            | InstructionType::LSR
            | InstructionType::ROL
            | InstructionType::ROR => Category::ShiftRotate,
            InstructionType::CMP
            | InstructionType::CPX
            | InstructionType::CPY => Category::Compare,
            InstructionType::INC
            | InstructionType::DEC
            | InstructionType::INX
            | InstructionType::INY
            | InstructionType::DEX
            | InstructionType::DEY => Category::IncDec,
            InstructionType::BCC
            | InstructionType::BCS
            | InstructionType::BEQ
            | InstructionType::BNE
            | InstructionType::BMI
            | InstructionType::BPL
            | InstructionType::BVC
            | InstructionType::BVS => Category::Branch,
            InstructionType::JMP
            | InstructionType::JSR
            | InstructionType::RTS
            | InstructionType::RTI
            | InstructionType::BRK => Category::Jump,
            InstructionType::PHA
            | InstructionType::PHP
            | InstructionType::PLA
            | InstructionType::PLP => Category::Stack,
            InstructionType::CLC
            | InstructionType::CLD
            | InstructionType::CLI
            | InstructionType::CLV
            | InstructionType::SEC
            | InstructionType::SED
            | InstructionType::SEI => Category::Flag,
            InstructionType::TAX
            | InstructionType::TAY
            | InstructionType::TSX
            | InstructionType::TXA
            | InstructionType::TXS
            | InstructionType::TYA => Category::Transfer,
            InstructionType::NOP => Category::NoOp,
        }
    }

    /// The three-letter name of the instruction.
    pub fn mnemonic(&self) -> (name: &'static str)
        ensures
            name@ == mnemonic_of(*self),
    {
        match self {
            InstructionType::ADC => "ADC",
            InstructionType::AND => "AND",
            InstructionType::ASL => "ASL",
            InstructionType::BCC => "BCC",
            InstructionType::BCS => "BCS",
            InstructionType::BEQ => "BEQ",
            InstructionType::BIT => "BIT",
            InstructionType::BMI => "BMI",
            InstructionType::BNE => "BNE",
            InstructionType::BPL => "BPL",
            InstructionType::BRK => "BRK",
            InstructionType::BVC => "BVC",
            InstructionType::BVS => "BVS",
            InstructionType::CLC => "CLC",
            InstructionType::CLD => "CLD",
            InstructionType::CLI => "CLI",
            InstructionType::CLV => "CLV",
            InstructionType::CMP => "CMP",
            InstructionType::CPX => "CPX",
            InstructionType::CPY => "CPY",
            InstructionType::DEC => "DEC",
            InstructionType::DEX => "DEX",
            InstructionType::DEY => "DEY",
            InstructionType::EOR => "EOR",
            InstructionType::INC => "INC",
            InstructionType::INX => "INX",
            InstructionType::INY => "INY",
            InstructionType::JMP => "JMP",
            InstructionType::JSR => "JSR",
            InstructionType::LDA => "LDA",
            InstructionType::LDX => "LDX",
            InstructionType::LDY => "LDY",
            InstructionType::LSR => "LSR",
            InstructionType::NOP => "NOP",
            InstructionType::ORA => "ORA",
            InstructionType::PHA => "PHA",
            InstructionType::PHP => "PHP",
            InstructionType::PLA => "PLA",
            InstructionType::PLP => "PLP",
            InstructionType::ROL => "ROL",
            InstructionType::ROR => "ROR",
            InstructionType::RTI => "RTI",
            InstructionType::RTS => "RTS",
            InstructionType::SBC => "SBC",
            InstructionType::SEC => "SEC",
            InstructionType::SED => "SED",
            InstructionType::SEI => "SEI",
            InstructionType::STA => "STA",
            InstructionType::STX => "STX",
            InstructionType::STY => "STY",
            InstructionType::TAX => "TAX",
            InstructionType::TAY => "TAY",
            InstructionType::TSX => "TSX",
            InstructionType::TXA => "TXA",
            InstructionType::TXS => "TXS",
            InstructionType::TYA => "TYA",
        }
    }

    /// What the instruction does, in a few words.
    pub fn description(&self) -> (text: &'static str)
        ensures
            text@ == description_of(*self),
    {
        match self {
            InstructionType::ADC => "Add Memory to Accumulator with Carry",
            InstructionType::AND => "AND Memory with Accumulator",
            InstructionType::ASL => "Shift Left One Bit (Memory or Accumulator)",
            InstructionType::BCC => "Branch on Carry Clear",
            InstructionType::BCS => "Branch on Carry Set",
            InstructionType::BEQ => "Branch on Result Zero",
            InstructionType::BIT => "Test Bits in Memory with Accumulator",
            InstructionType::BMI => "Branch on Result Minus",
            InstructionType::BNE => "Branch on Result not Zero",
            InstructionType::BPL => "Branch on Result Plus",
            InstructionType::BRK => "Force Break",
            InstructionType::BVC => "Branch on Overflow Clear",
            InstructionType::BVS => "Branch on Overflow Set",
            InstructionType::CLC => "Clear Carry Flag",
            InstructionType::CLD => "Clear Decimal Mode",
            InstructionType::CLI => "Clear Interrupt Disable Bit",
            InstructionType::CLV => "Clear Overflow Flag",
            InstructionType::CMP => "Compare Memory with Accumulator",
            InstructionType::CPX => "Compare Memory and Index X",
            InstructionType::CPY => "Compare Memory and Index Y",
            InstructionType::DEC => "Decrement Memory by One",
            InstructionType::DEX => "Decrement Index X by One",
            InstructionType::DEY => "Decrement Index Y by One",
            InstructionType::EOR => "Exclusive-OR Memory with Accumulator",
            InstructionType::INC => "Increment Memory by One",
            InstructionType::INX => "Increment Index X by One",
            InstructionType::INY => "Increment Index Y by One",
            InstructionType::JMP => "Jump to New Location",
            InstructionType::JSR => "Jump to New Location Saving Return Address",
            InstructionType::LDA => "Load Accumulator with Memory",
            InstructionType::LDX => "Load Index X with Memory",
            InstructionType::LDY => "Load Index Y with Memory",
            InstructionType::LSR => "Shift One Bit Right (Memory or Accumulator)",
            InstructionType::NOP => "No Operation",
            InstructionType::ORA => "OR Memory with Accumulator",
            InstructionType::PHA => "Push Accumulator on Stack",
            InstructionType::PHP => "Push Processor Status on Stack",
            InstructionType::PLA => "Pull Accumulator from Stack",
            InstructionType::PLP => "Pull Processor Status from Stack",
            InstructionType::ROL => "Rotate One Bit Left (Memory or Accumulator)",
            InstructionType::ROR => "Rotate One Bit Right (Memory or Accumulator)",
            InstructionType::RTI => "Return from Interrupt",
            InstructionType::RTS => "Return from Subroutine",
            InstructionType::SBC => "Subtract Memory from Accumulator with Borrow",
            InstructionType::SEC => "Set Carry Flag",
            InstructionType::SED => "Set Decimal Flag",
            InstructionType::SEI => "Set Interrupt Disable Status",
            InstructionType::STA => "Store Accumulator in Memory",
            InstructionType::STX => "Store Index X in Memory",
            InstructionType::STY => "Store Index Y in Memory",
            InstructionType::TAX => "Transfer Accumulator to Index X",
            InstructionType::TAY => "Transfer Accumulator to Index Y",
            InstructionType::TSX => "Transfer Stack Pointer to Index X",
            InstructionType::TXA => "Transfer Index X to Accumulator",
            InstructionType::TXS => "Transfer Index X to Stack Register",
            InstructionType::TYA => "Transfer Index Y to Accumulator",
        }
    }
}

} // verus!
