use chip8_core::instruction::{decode, split_fields, Fields, Instruction};
use chip8_core::word::{join_bytes, split_word};

#[test]
fn join_puts_high_byte_first() {
    assert_eq!(join_bytes(0x12, 0x34), 0x1234);
    assert_eq!(join_bytes(0x00, 0xEE), 0x00EE);
    assert_eq!(join_bytes(0xFF, 0x00), 0xFF00);
    assert_eq!(join_bytes(0xFF, 0xFF), 0xFFFF);
    assert_eq!(join_bytes(0x00, 0x00), 0x0000);
}

#[test]
fn split_gives_high_byte_first() {
    assert_eq!(split_word(0x1234), (0x12, 0x34));
    assert_eq!(split_word(0x00EE), (0x00, 0xEE));
    assert_eq!(split_word(0xFF00), (0xFF, 0x00));
    assert_eq!(split_word(0xFFFF), (0xFF, 0xFF));
    assert_eq!(split_word(0x0000), (0x00, 0x00));
}

#[test]
fn split_then_join_is_identity() {
    for word in 0..=u16::MAX {
        let (high, low) = split_word(word);
        assert_eq!(join_bytes(high, low), word);
    }
}

#[test]
fn fields_are_the_nibbles() {
    assert_eq!(
        split_fields(0xABCD),
        Fields { c: 0xA, x: 0xB, y: 0xC, d: 0xD, nnn: 0xBCD }
    );
    assert_eq!(
        split_fields(0x8014),
        Fields { c: 0x8, x: 0x0, y: 0x1, d: 0x4, nnn: 0x014 }
    );
    assert_eq!(
        split_fields(0x0000),
        Fields { c: 0, x: 0, y: 0, d: 0, nnn: 0 }
    );
    assert_eq!(
        split_fields(0xFFFF),
        Fields { c: 0xF, x: 0xF, y: 0xF, d: 0xF, nnn: 0xFFF }
    );
    assert_eq!(
        split_fields(0x2100),
        Fields { c: 0x2, x: 0x1, y: 0x0, d: 0x0, nnn: 0x100 }
    );
}

#[test]
fn decode_known_patterns() {
    assert_eq!(decode(0x0000), Some(Instruction::Halt));
    assert_eq!(decode(0x00EE), Some(Instruction::Return));
    assert_eq!(decode(0x2100), Some(Instruction::Call { address: 0x100 }));
    assert_eq!(decode(0x2000), Some(Instruction::Call { address: 0x000 }));
    assert_eq!(decode(0x2FFF), Some(Instruction::Call { address: 0xFFF }));
    assert_eq!(decode(0x20EE), Some(Instruction::Call { address: 0x0EE }));
    assert_eq!(decode(0x8014), Some(Instruction::AddWithCarry { x: 0, y: 1 }));
    assert_eq!(decode(0x8AB4), Some(Instruction::AddWithCarry { x: 0xA, y: 0xB }));
    assert_eq!(decode(0x8FF4), Some(Instruction::AddWithCarry { x: 0xF, y: 0xF }));
    assert_eq!(decode(0x8004), Some(Instruction::AddWithCarry { x: 0, y: 0 }));
}

#[test]
fn decode_unknown_patterns() {
    for word in [0x0001u16, 0x00E0, 0x00EF, 0x01EE, 0x0100, 0x1000, 0x3000, 0x8010, 0x8015, 0x9014, 0xFFFF] {
        assert_eq!(decode(word), None, "word {:04x}", word);
    }
}

#[test]
fn decode_agrees_with_the_table_on_every_word() {
    for word in 0..=u16::MAX {
        let expected = if word == 0x0000 {
            Some(Instruction::Halt)
        } else if word == 0x00EE {
            Some(Instruction::Return)
        } else if word >> 12 == 0x2 {
            Some(Instruction::Call { address: word & 0x0FFF })
        } else if word >> 12 == 0x8 && word & 0xF == 0x4 {
            Some(Instruction::AddWithCarry {
                x: ((word >> 8) & 0xF) as u8,
                y: ((word >> 4) & 0xF) as u8,
            })
        } else {
            None
        };
        assert_eq!(decode(word), expected, "word {:04x}", word);
    }
}
