use j2gbc::inst::{
    Arith, Bits, ConditionCode, Control, Instruction, Load, Logic, Operand, Register8, Register16,
};

fn reserved(b: u8) -> bool {
    matches!(
        b,
        0xD3 | 0xDB | 0xDD | 0xE3 | 0xE4 | 0xEB | 0xEC | 0xED | 0xF4 | 0xFC | 0xFD
    )
}

fn expected_len(b: u8) -> u8 {
    match b {
        0x01 | 0x11 | 0x21 | 0x31 | 0x08 | 0xC3 | 0xC2 | 0xD2 | 0xCA | 0xDA | 0xCD | 0xC4
        | 0xD4 | 0xCC | 0xDC | 0xEA | 0xFA => 3,
        0x10 | 0xCB | 0x06 | 0x16 | 0x26 | 0x36 | 0x0E | 0x1E | 0x2E | 0x3E | 0xC6 | 0xCE
        | 0xD6 | 0xDE | 0xE6 | 0xEE | 0xF6 | 0xFE | 0xE0 | 0xF0 | 0xE8 | 0xF8 | 0x18 | 0x20
        | 0x28 | 0x30 | 0x38 => 2,
        _ => 1,
    }
}

#[test]
fn decode_succeeds_on_every_legal_opcode() {
    for b in 0u16..=0xFF {
        let b = b as u8;
        if reserved(b) || b == 0xCB {
            continue;
        }
        for x in [0u8, 0x5A, 0xFF] {
            for y in [0u8, 0xA5, 0xFF] {
                if b == 0x10 && x != 0 {
                    continue;
                }
                let r = Instruction::decode([b, x, y]);
                let (_, len) = r.expect("legal opcode must decode");
                assert_eq!(len, expected_len(b));
            }
        }
    }
}

#[test]
fn decode_succeeds_on_every_cb_opcode() {
    for b in 0u16..=0xFF {
        let b = b as u8;
        let (_, len) = Instruction::decode([0xCB, b, 0x77]).expect("CB opcode must decode");
        assert_eq!(len, 2);
    }
}

#[test]
fn decode_fails_on_every_reserved_opcode() {
    for b in [
        0xD3u8, 0xDB, 0xDD, 0xE3, 0xE4, 0xEB, 0xEC, 0xED, 0xF4, 0xFC, 0xFD,
    ] {
        assert!(Instruction::decode([b, 0, 0]).is_err());
    }
}

#[test]
fn decode_fails_on_malformed_stop() {
    assert_eq!(Instruction::decode([0x10, 0x00, 0]).unwrap().0, Instruction::Stop);
    assert!(Instruction::decode([0x10, 0x01, 0]).is_err());
}

#[test]
fn decode_control_targets_are_little_endian() {
    let (i, len) = Instruction::decode([0xC3, 0x34, 0x12]).unwrap();
    assert_eq!(i, Instruction::Control(Control::Jump(0x1234)));
    assert_eq!(len, 3);

    let (i, _) = Instruction::decode([0xCD, 0xCD, 0xAB]).unwrap();
    assert_eq!(i, Instruction::Control(Control::Call(0xABCD)));

    let (i, _) = Instruction::decode([0xDA, 0x00, 0x80]).unwrap();
    assert_eq!(
        i,
        Instruction::Control(Control::JumpConditional(0x8000, ConditionCode::C))
    );
}

#[test]
fn decode_register_fields() {
    // LD D, (HL): destination bits 5:3 = 2, source bits 2:0 = 6.
    let (i, len) = Instruction::decode([0x56, 0, 0]).unwrap();
    assert_eq!(
        i,
        Instruction::Load(Load::Load(
            Operand::Register(Register8::D),
            Operand::IndirectRegister(Register16::HL),
        ))
    );
    assert_eq!(len, 1);

    // ADD A, C.
    let (i, _) = Instruction::decode([0x81, 0, 0]).unwrap();
    assert_eq!(
        i,
        Instruction::Arith(Arith::Add(Operand::Register(Register8::C)))
    );

    // XOR A.
    let (i, _) = Instruction::decode([0xAF, 0, 0]).unwrap();
    assert_eq!(i, Instruction::Logic(Logic::XorRegister(Register8::A)));
}

#[test]
fn decode_cb_bit_fields() {
    // BIT 7, H is CB 7C.
    let (i, len) = Instruction::decode([0xCB, 0x7C, 0]).unwrap();
    assert_eq!(
        i,
        Instruction::Bits(Bits::GetBit(7, Operand::Register(Register8::H)))
    );
    assert_eq!(len, 2);

    // SET 0, (HL) is CB C6.
    let (i, _) = Instruction::decode([0xCB, 0xC6, 0]).unwrap();
    assert_eq!(
        i,
        Instruction::Bits(Bits::SetBit(0, Operand::IndirectRegister(Register16::HL)))
    );

    // SWAP A is CB 37.
    let (i, _) = Instruction::decode([0xCB, 0x37, 0]).unwrap();
    assert_eq!(i, Instruction::Bits(Bits::Swap(Operand::Register(Register8::A))));
}

#[test]
fn decode_signed_displacements() {
    // JR -2 encodes the displacement as 0xFE.
    let (i, len) = Instruction::decode([0x18, 0xFE, 0]).unwrap();
    assert_eq!(i, Instruction::Control(Control::JumpRelative(-2)));
    assert_eq!(len, 2);

    let (i, _) = Instruction::decode([0xE8, 0x7F, 0]).unwrap();
    assert_eq!(i, Instruction::Arith(Arith::AddSP(127)));

    let (i, _) = Instruction::decode([0xF8, 0x80, 0]).unwrap();
    assert_eq!(i, Instruction::Load(Load::LoadHLFromSP(-128)));
}

#[test]
fn decode_high_page_loads() {
    let (i, len) = Instruction::decode([0xF0, 0x44, 0]).unwrap();
    assert_eq!(
        i,
        Instruction::Load(Load::Load(
            Operand::Register(Register8::A),
            Operand::IndirectAddress(0xFF44),
        ))
    );
    assert_eq!(len, 2);

    let (i, _) = Instruction::decode([0xE0, 0xFF, 0]).unwrap();
    assert_eq!(
        i,
        Instruction::Load(Load::Load(
            Operand::IndirectAddress(0xFFFF),
            Operand::Register(Register8::A),
        ))
    );
}

#[test]
fn decode_resets_and_stack_ops() {
    let (i, _) = Instruction::decode([0xEF, 0, 0]).unwrap();
    assert_eq!(i, Instruction::Control(Control::Reset(0x0028)));

    let (i, _) = Instruction::decode([0xF5, 0, 0]).unwrap();
    assert_eq!(i, Instruction::Load(Load::Push(Register16::AF)));

    let (i, _) = Instruction::decode([0xC1, 0, 0]).unwrap();
    assert_eq!(i, Instruction::Load(Load::Pop(Register16::BC)));

    let (i, len) = Instruction::decode([0x08, 0x00, 0xC0]).unwrap();
    assert_eq!(i, Instruction::Load(Load::LoadMemoryFromSP(0xC000)));
    assert_eq!(len, 3);
}

#[test]
fn cycle_table_matches_reference() {
    assert_eq!(Instruction::Nop.cycles(true), 4);
    assert_eq!(
        Instruction::Compare(Operand::Immediate(1)).cycles(true),
        8
    );
    assert_eq!(
        Instruction::Compare(Operand::Register(Register8::B)).cycles(true),
        4
    );
    assert_eq!(Instruction::Load(Load::Push(Register16::BC)).cycles(true), 16);
    assert_eq!(Instruction::Load(Load::Pop(Register16::BC)).cycles(true), 12);
    assert_eq!(Instruction::Control(Control::Call(0)).cycles(true), 24);
    assert_eq!(Instruction::Control(Control::Reset(0)).cycles(true), 24);
    assert_eq!(Instruction::Control(Control::InterruptReturn).cycles(true), 16);
    assert_eq!(Instruction::Control(Control::Return).cycles(true), 4);
    assert_eq!(
        Instruction::Control(Control::JumpRelativeConditional(0, ConditionCode::Z)).cycles(true),
        12
    );
    assert_eq!(
        Instruction::Control(Control::JumpRelativeConditional(0, ConditionCode::Z)).cycles(false),
        8
    );
    assert_eq!(
        Instruction::Bits(Bits::Swap(Operand::Register(Register8::A))).cycles(true),
        12
    );
    assert_eq!(
        Instruction::Bits(Bits::Swap(Operand::IndirectRegister(Register16::HL))).cycles(true),
        16
    );
    assert_eq!(Instruction::Arith(Arith::AddSP(1)).cycles(true), 16);
}
