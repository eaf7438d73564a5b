use chip8::instruction::{decode, Instruction};

#[test]
fn decodes_clear_and_return() {
    assert_eq!(decode(0x00E0), Instruction::Cls);
    assert_eq!(decode(0x00EE), Instruction::Ret);
}

#[test]
fn decodes_jumps_and_calls() {
    assert_eq!(decode(0x1234), Instruction::Jp { nnn: 0x234 });
    assert_eq!(decode(0x1000), Instruction::Jp { nnn: 0x000 });
    assert_eq!(decode(0x2300), Instruction::Call { nnn: 0x300 });
    assert_eq!(decode(0x2FFF), Instruction::Call { nnn: 0xFFF });
    assert_eq!(decode(0xB123), Instruction::JpV0 { nnn: 0x123 });
}

#[test]
fn decodes_immediate_forms() {
    assert_eq!(decode(0x3A0F), Instruction::SeByte { x: 0xA, kk: 0x0F });
    assert_eq!(decode(0x4BFF), Instruction::SneByte { x: 0xB, kk: 0xFF });
    assert_eq!(decode(0x6A0F), Instruction::LdByte { x: 0xA, kk: 0x0F });
    assert_eq!(decode(0x6F00), Instruction::LdByte { x: 0xF, kk: 0x00 });
    assert_eq!(decode(0x7012), Instruction::AddByte { x: 0x0, kk: 0x12 });
    assert_eq!(decode(0xA2F0), Instruction::LdI { nnn: 0x2F0 });
}

#[test]
fn decodes_register_forms() {
    assert_eq!(decode(0x5AB0), Instruction::SeReg { x: 0xA, y: 0xB });
    assert_eq!(decode(0x8AB0), Instruction::LdReg { x: 0xA, y: 0xB });
    assert_eq!(decode(0x8AB1), Instruction::Or { x: 0xA, y: 0xB });
    assert_eq!(decode(0x8AB2), Instruction::And { x: 0xA, y: 0xB });
    assert_eq!(decode(0x8AB3), Instruction::Xor { x: 0xA, y: 0xB });
    assert_eq!(decode(0x8AB4), Instruction::AddReg { x: 0xA, y: 0xB });
    assert_eq!(decode(0x8AB5), Instruction::Sub { x: 0xA, y: 0xB });
    assert_eq!(decode(0x8A06), Instruction::Shr { x: 0xA });
    assert_eq!(decode(0x8AB7), Instruction::Subn { x: 0xA, y: 0xB });
    assert_eq!(decode(0x8A0E), Instruction::Shl { x: 0xA });
    assert_eq!(decode(0x9AB0), Instruction::SneReg { x: 0xA, y: 0xB });
}

#[test]
fn words_outside_the_table_decode_to_unknown() {
    for word in [
        0x0000, 0x00E1, 0x00EF, 0x01E0, 0x0123, 0x5AB1, 0x5ABF, 0x8AB8, 0x8AB9, 0x8ABF, 0x8A16,
        0x8AFE, 0x9AB1, 0xC0FF, 0xD123, 0xE09E, 0xE0A1, 0xF007, 0xF015, 0xF033, 0xFFFF,
    ] {
        assert_eq!(decode(word), Instruction::Unknown, "word {word:#06x}");
    }
}

#[test]
fn every_word_decodes_to_operands_in_range() {
    for word in 0..=0xFFFFu16 {
        let in_range = match decode(word) {
            Instruction::Cls | Instruction::Ret | Instruction::Unknown => true,
            Instruction::Jp { nnn }
            | Instruction::Call { nnn }
            | Instruction::LdI { nnn }
            | Instruction::JpV0 { nnn } => nnn == word & 0x0FFF,
            Instruction::SeByte { x, kk }
            | Instruction::SneByte { x, kk }
            | Instruction::LdByte { x, kk }
            | Instruction::AddByte { x, kk } => x == (word >> 8) & 0xF && kk == word & 0xFF,
            Instruction::SeReg { x, y }
            | Instruction::LdReg { x, y }
            | Instruction::Or { x, y }
            | Instruction::And { x, y }
            | Instruction::Xor { x, y }
            | Instruction::AddReg { x, y }
            | Instruction::Sub { x, y }
            | Instruction::Subn { x, y }
            | Instruction::SneReg { x, y } => x == (word >> 8) & 0xF && y == (word >> 4) & 0xF,
            Instruction::Shr { x } | Instruction::Shl { x } => {
                x == (word >> 8) & 0xF && (word >> 4) & 0xF == 0
            }
        };
        assert!(in_range, "word {word:#06x}");
    }
}

#[test]
fn every_word_of_a_wildcard_family_decodes_into_it() {
    for low in 0..=0x0FFFu16 {
        assert!(matches!(decode(0x1000 | low), Instruction::Jp { .. }));
        assert!(matches!(decode(0x2000 | low), Instruction::Call { .. }));
        assert!(matches!(decode(0x3000 | low), Instruction::SeByte { .. }));
        assert!(matches!(decode(0x4000 | low), Instruction::SneByte { .. }));
        assert!(matches!(decode(0x6000 | low), Instruction::LdByte { .. }));
        assert!(matches!(decode(0x7000 | low), Instruction::AddByte { .. }));
        assert!(matches!(decode(0xA000 | low), Instruction::LdI { .. }));
        assert!(matches!(decode(0xB000 | low), Instruction::JpV0 { .. }));
        assert_eq!(decode(0xC000 | low), Instruction::Unknown);
        assert_eq!(decode(0xD000 | low), Instruction::Unknown);
        assert_eq!(decode(0xE000 | low), Instruction::Unknown);
        assert_eq!(decode(0xF000 | low), Instruction::Unknown);
    }
}
