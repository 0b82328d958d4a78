use nes_emu::cpu::isa::{
    lookup, make_word, to_signed, AddrKind, AddrMode, Category, DecodeError, Instruction,
    InstructionName, InstructionType,
};

fn decoded(bytes: &[u8]) -> Instruction {
    Instruction::from(bytes).unwrap()
}

#[test]
fn empty_input_is_truncated() {
    assert_eq!(Instruction::from(&[]).unwrap_err(), DecodeError::Truncated);
}

#[test]
fn missing_operand_bytes_are_truncated() {
    assert_eq!(Instruction::from(&[0xa9]).unwrap_err(), DecodeError::Truncated);
    assert_eq!(Instruction::from(&[0xad]).unwrap_err(), DecodeError::Truncated);
    assert_eq!(Instruction::from(&[0xad, 0x34]).unwrap_err(), DecodeError::Truncated);
    assert_eq!(Instruction::from(&[0xd0]).unwrap_err(), DecodeError::Truncated);
}

#[test]
fn undefined_opcode_is_illegal() {
    assert_eq!(
        Instruction::from(&[0x02, 0x00, 0x00]).unwrap_err(),
        DecodeError::IllegalOpcode { opcode: 0x02 }
    );
    // the opcode is judged before the length
    assert_eq!(
        Instruction::from(&[0xff]).unwrap_err(),
        DecodeError::IllegalOpcode { opcode: 0xff }
    );
}

#[test]
fn there_are_151_defined_opcodes() {
    let mut defined = 0;
    for opcode in 0..=255u8 {
        let entry = lookup(opcode);
        let decoded = Instruction::from(&[opcode, 0x00, 0x00]);
        match entry {
            Some((ins_type, _)) => {
                defined += 1;
                assert_eq!(decoded.unwrap().ins_type, ins_type);
            }
            None => {
                assert_eq!(decoded.unwrap_err(), DecodeError::IllegalOpcode { opcode });
            }
        }
    }
    assert_eq!(defined, 151);
}

#[test]
fn length_follows_the_addressing_mode() {
    for opcode in 0..=255u8 {
        if let Some((_, kind)) = lookup(opcode) {
            let ins = decoded(&[opcode, 0x11, 0x22, 0x33]);
            assert_eq!(ins.machine_code.len(), 1 + kind.operand_len());
            assert_eq!(ins.machine_code[..], [opcode, 0x11, 0x22][..ins.machine_code.len()]);
            assert!(ins.machine_code.len() >= 1 && ins.machine_code.len() <= 3);
        }
    }
}

#[test]
fn operand_sizes() {
    assert_eq!(AddrKind::A.operand_len(), 0);
    assert_eq!(AddrKind::Impl.operand_len(), 0);
    assert_eq!(AddrKind::Imm.operand_len(), 1);
    assert_eq!(AddrKind::Zpg.operand_len(), 1);
    assert_eq!(AddrKind::ZpgX.operand_len(), 1);
    assert_eq!(AddrKind::ZpgY.operand_len(), 1);
    assert_eq!(AddrKind::XInd.operand_len(), 1);
    assert_eq!(AddrKind::IndY.operand_len(), 1);
    assert_eq!(AddrKind::Rel.operand_len(), 1);
    assert_eq!(AddrKind::Abs.operand_len(), 2);
    assert_eq!(AddrKind::AbsX.operand_len(), 2);
    assert_eq!(AddrKind::AbsY.operand_len(), 2);
    assert_eq!(AddrKind::Ind.operand_len(), 2);
}

#[test]
fn sixteen_bit_operands_are_little_endian() {
    let ins = decoded(&[0x4c, 0x34, 0x12]);
    assert_eq!(ins.ins_type, InstructionType::JMP);
    assert_eq!(ins.addr_mode, AddrMode::Abs(0x1234));
    assert_eq!(ins.machine_code, vec![0x4c, 0x34, 0x12]);
    assert_eq!(make_word(0xcd, 0xab), 0xabcd);
    assert_eq!(make_word(0xff, 0x00), 0x00ff);
    assert_eq!(make_word(0x00, 0xff), 0xff00);
}

#[test]
fn every_addressing_mode_is_decoded() {
    assert_eq!(decoded(&[0x0a]).addr_mode, AddrMode::A);
    assert_eq!(decoded(&[0xad, 0x01, 0x02]).addr_mode, AddrMode::Abs(0x0201));
    assert_eq!(decoded(&[0xbd, 0x01, 0x02]).addr_mode, AddrMode::AbsX(0x0201));
    assert_eq!(decoded(&[0xb9, 0x01, 0x02]).addr_mode, AddrMode::AbsY(0x0201));
    assert_eq!(decoded(&[0xa9, 0x7f]).addr_mode, AddrMode::Imm(0x7f));
    assert_eq!(decoded(&[0xea]).addr_mode, AddrMode::Impl);
    assert_eq!(decoded(&[0x6c, 0xfc, 0xff]).addr_mode, AddrMode::Ind(0xfffc));
    assert_eq!(decoded(&[0xa1, 0x40]).addr_mode, AddrMode::XInd(0x40));
    assert_eq!(decoded(&[0xb1, 0x40]).addr_mode, AddrMode::IndY(0x40));
    assert_eq!(decoded(&[0xd0, 0xfe]).addr_mode, AddrMode::Rel(-2));
    assert_eq!(decoded(&[0xa5, 0x10]).addr_mode, AddrMode::Zpg(0x10));
    assert_eq!(decoded(&[0xb5, 0x10]).addr_mode, AddrMode::ZpgX(0x10));
    assert_eq!(decoded(&[0xb6, 0x10]).addr_mode, AddrMode::ZpgY(0x10));
}

#[test]
fn relative_operand_is_signed() {
    assert_eq!(decoded(&[0x90, 0x00]).addr_mode, AddrMode::Rel(0));
    assert_eq!(decoded(&[0x90, 0x7f]).addr_mode, AddrMode::Rel(127));
    assert_eq!(decoded(&[0x90, 0x80]).addr_mode, AddrMode::Rel(-128));
    assert_eq!(decoded(&[0x90, 0xff]).addr_mode, AddrMode::Rel(-1));
    assert_eq!(to_signed(0x7f), 127);
    assert_eq!(to_signed(0x80), -128);
    assert_eq!(to_signed(0xfe), -2);
}

#[test]
fn bytes_after_the_instruction_are_ignored() {
    let ins = decoded(&[0xea, 0xa9, 0x01]);
    assert_eq!(ins.ins_type, InstructionType::NOP);
    assert_eq!(ins.machine_code, vec![0xea]);
    let ins = decoded(&[0xa9, 0x01, 0xff, 0xff, 0xff]);
    assert_eq!(ins.machine_code, vec![0xa9, 0x01]);
}

#[test]
fn branches_on_overflow_are_told_apart() {
    assert_eq!(decoded(&[0x50, 0x00]).ins_type, InstructionType::BVC);
    assert_eq!(decoded(&[0x70, 0x00]).ins_type, InstructionType::BVS);
    assert_eq!(decoded(&[0x70, 0x00]).name.mnemonic, "BVS");
    assert_eq!(decoded(&[0x70, 0x00]).name.description, "Branch on Overflow Set");
}

#[test]
fn register_decrements_are_told_from_memory_decrement() {
    assert_eq!(decoded(&[0xca]).ins_type, InstructionType::DEX);
    assert_eq!(decoded(&[0x88]).ins_type, InstructionType::DEY);
    assert_eq!(decoded(&[0xc6, 0x10]).ins_type, InstructionType::DEC);
    assert_eq!(decoded(&[0xca]).name.mnemonic, "DEX");
    assert_eq!(decoded(&[0x88]).name.description, "Decrement Index Y by One");
}

#[test]
fn a_sample_of_the_opcode_table() {
    let sample: [(u8, InstructionType, AddrKind); 24] = [
        (0x00, InstructionType::BRK, AddrKind::Impl),
        (0x01, InstructionType::ORA, AddrKind::XInd),
        (0x08, InstructionType::PHP, AddrKind::Impl),
        (0x20, InstructionType::JSR, AddrKind::Abs),
        (0x24, InstructionType::BIT, AddrKind::Zpg),
        (0x2a, InstructionType::ROL, AddrKind::A),
        (0x40, InstructionType::RTI, AddrKind::Impl),
        (0x4c, InstructionType::JMP, AddrKind::Abs),
        (0x60, InstructionType::RTS, AddrKind::Impl),
        (0x6c, InstructionType::JMP, AddrKind::Ind),
        (0x69, InstructionType::ADC, AddrKind::Imm),
        (0x8e, InstructionType::STX, AddrKind::Abs),
        (0x91, InstructionType::STA, AddrKind::IndY),
        (0x94, InstructionType::STY, AddrKind::ZpgX),
        (0x96, InstructionType::STX, AddrKind::ZpgY),
        (0x9a, InstructionType::TXS, AddrKind::Impl),
        (0xa2, InstructionType::LDX, AddrKind::Imm),
        (0xb6, InstructionType::LDX, AddrKind::ZpgY),
        (0xbe, InstructionType::LDX, AddrKind::AbsY),
        (0xbc, InstructionType::LDY, AddrKind::AbsX),
        (0xd0, InstructionType::BNE, AddrKind::Rel),
        (0xe9, InstructionType::SBC, AddrKind::Imm),
        (0xf1, InstructionType::SBC, AddrKind::IndY),
        (0xfe, InstructionType::INC, AddrKind::AbsX),
    ];
    for (opcode, ins_type, kind) in sample {
        assert_eq!(lookup(opcode), Some((ins_type, kind)));
    }
    assert_eq!(lookup(0x80), None);
    assert_eq!(lookup(0x03), None);
}

#[test]
fn names_follow_the_instruction() {
    let name = InstructionName::from(0x69);
    assert_eq!(name.mnemonic, "ADC");
    assert_eq!(name.description, "Add Memory to Accumulator with Carry");
    let name = InstructionName::from(0xea);
    assert_eq!(name.mnemonic, "NOP");
    assert_eq!(name.description, "No Operation");
    assert_eq!(InstructionType::TYA.mnemonic(), "TYA");
    assert_eq!(InstructionType::TYA.description(), "Transfer Index Y to Accumulator");
    let ins = decoded(&[0x20, 0x00, 0x06]);
    assert_eq!(ins.name.mnemonic, "JSR");
    assert_eq!(ins.name.description, "Jump to New Location Saving Return Address");
}

#[test]
fn every_defined_opcode_has_a_three_letter_name() {
    for opcode in 0..=255u8 {
        if let Some((ins_type, _)) = lookup(opcode) {
            let name = InstructionName::from(opcode);
            assert_eq!(name.mnemonic.len(), 3);
            assert_eq!(name.mnemonic, ins_type.mnemonic());
            assert_eq!(name.description, ins_type.description());
            assert!(!name.description.is_empty());
        }
    }
}

#[test]
fn categories() {
    assert_eq!(InstructionType::LDA.category(), Category::LoadStore);
    assert_eq!(InstructionType::STY.category(), Category::LoadStore);
    assert_eq!(InstructionType::ADC.category(), Category::Arithmetic);
    assert_eq!(InstructionType::SBC.category(), Category::Arithmetic);
    assert_eq!(InstructionType::EOR.category(), Category::Logical);
    assert_eq!(InstructionType::BIT.category(), Category::Logical);
    assert_eq!(InstructionType::ROR.category(), Category::ShiftRotate);
    assert_eq!(InstructionType::CPY.category(), Category::Compare);
    assert_eq!(InstructionType::DEX.category(), Category::IncDec);
    assert_eq!(InstructionType::INC.category(), Category::IncDec);
    assert_eq!(InstructionType::BVS.category(), Category::Branch);
    assert_eq!(InstructionType::JSR.category(), Category::Jump);
    assert_eq!(InstructionType::RTI.category(), Category::Jump);
    assert_eq!(InstructionType::BRK.category(), Category::Jump);
    assert_eq!(InstructionType::PLP.category(), Category::Stack);
    assert_eq!(InstructionType::CLV.category(), Category::Flag);
    assert_eq!(InstructionType::TXS.category(), Category::Transfer);
    assert_eq!(InstructionType::NOP.category(), Category::NoOp);
}

#[test]
fn relative_mode_belongs_to_the_branches() {
    for opcode in 0..=255u8 {
        if let Some((ins_type, kind)) = lookup(opcode) {
            assert_eq!(kind == AddrKind::Rel, ins_type.category() == Category::Branch);
        }
    }
}

#[test]
fn no_two_opcodes_decode_alike() {
    let mut seen: Vec<(InstructionType, AddrKind)> = Vec::new();
    for opcode in 0..=255u8 {
        if let Some(entry) = lookup(opcode) {
            assert!(!seen.contains(&entry));
            seen.push(entry);
        }
    }
}

#[test]
fn whatever_decodes_can_be_executed_unless_it_is_break() {
    for opcode in 0..=255u8 {
        if let Ok(ins) = Instruction::from(&[opcode, 0x00, 0x00]) {
            assert_eq!(ins.is_executable(), ins.ins_type != InstructionType::BRK);
            assert_eq!(ins.addr_mode.get_kind(), lookup(opcode).unwrap().1);
        }
    }
}

#[test]
fn instructions_that_cannot_be_executed() {
    let build = |ins_type: InstructionType, addr_mode: AddrMode, length: usize| Instruction {
        machine_code: vec![0xea; length],
        ins_type,
        addr_mode,
        name: InstructionName::from(0xea),
    };
    assert!(build(InstructionType::STA, AddrMode::Zpg(0x10), 2).is_executable());
    assert!(!build(InstructionType::STA, AddrMode::Imm(0x10), 2).is_executable());
    assert!(!build(InstructionType::STA, AddrMode::A, 1).is_executable());
    assert!(!build(InstructionType::STX, AddrMode::Impl, 1).is_executable());
    assert!(!build(InstructionType::LDA, AddrMode::Impl, 1).is_executable());
    assert!(!build(InstructionType::LDA, AddrMode::Ind(0x1234), 3).is_executable());
    assert!(build(InstructionType::ASL, AddrMode::A, 1).is_executable());
    assert!(!build(InstructionType::ASL, AddrMode::Imm(1), 2).is_executable());
    assert!(!build(InstructionType::LSR, AddrMode::Rel(1), 2).is_executable());
    assert!(!build(InstructionType::INC, AddrMode::A, 1).is_executable());
    assert!(build(InstructionType::JMP, AddrMode::Ind(0x1234), 3).is_executable());
    assert!(!build(InstructionType::JMP, AddrMode::Zpg(0x12), 2).is_executable());
    assert!(!build(InstructionType::JSR, AddrMode::Ind(0x1234), 3).is_executable());
    assert!(!build(InstructionType::BNE, AddrMode::Impl, 1).is_executable());
    assert!(!build(InstructionType::BRK, AddrMode::Impl, 1).is_executable());
    // the encoding must be as long as the mode says
    assert!(!build(InstructionType::NOP, AddrMode::Impl, 2).is_executable());
    assert!(!build(InstructionType::LDA, AddrMode::Abs(0x1234), 2).is_executable());
    assert!(build(InstructionType::LDA, AddrMode::Abs(0x1234), 3).is_executable());
}
