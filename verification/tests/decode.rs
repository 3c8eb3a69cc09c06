use chip8::chip::Chip;
use chip8::error::ChipError;
use chip8::instr::{InstructionWord, Operation};

fn op(word: u16) -> Option<Operation> {
    InstructionWord::decode(word).operation()
}

#[test]
fn decode_splits_word_into_nibbles() {
    let w = InstructionWord::decode(0x1234);
    assert_eq!((w.n1, w.n2, w.n3, w.n4), (1, 2, 3, 4));
    assert_eq!(w.nn, 0x34);
    assert_eq!(w.nnn, 0x234);
}

#[test]
fn decode_is_total_at_the_extremes() {
    let zero = InstructionWord::decode(0x0000);
    assert_eq!((zero.n1, zero.n2, zero.n3, zero.n4, zero.nn, zero.nnn), (0, 0, 0, 0, 0, 0));
    let full = InstructionWord::decode(0xFFFF);
    assert_eq!(
        (full.n1, full.n2, full.n3, full.n4, full.nn, full.nnn),
        (0xF, 0xF, 0xF, 0xF, 0xFF, 0xFFF)
    );
    let mixed = InstructionWord::decode(0xD5A7);
    assert_eq!(
        (mixed.n1, mixed.n2, mixed.n3, mixed.n4, mixed.nn, mixed.nnn),
        (0xD, 0x5, 0xA, 0x7, 0xA7, 0x5A7)
    );
}

#[test]
fn decode_fields_spell_the_word_again() {
    let words: [u16; 6] = [0x0000, 0x00E0, 0x1234, 0x8AB6, 0xF165, 0xFFFF];
    for word in words {
        let w = InstructionWord::decode(word);
        let spelled = (w.n1 as u16) << 12 | (w.n2 as u16) << 8 | (w.n3 as u16) << 4 | w.n4 as u16;
        assert_eq!(spelled, word);
        assert_eq!(w.nn as u16, word & 0x00FF);
        assert_eq!(w.nnn, word & 0x0FFF);
    }
}

#[test]
fn decoding_e000_is_an_unknown_opcode() {
    assert_eq!(op(0xE000), None);
    let mut chip = Chip::new();
    assert_eq!(chip.load_program(&[0xE0, 0x00]), Ok(()));
    assert_eq!(
        chip.instruction(),
        Err(ChipError::UnknownOpcode { word: 0xE000, pc: 0x200 })
    );
    assert_eq!(chip.program_counter(), 0x200);
}

#[test]
fn system_family_knows_clear_and_return_only() {
    assert_eq!(op(0x00E0), Some(Operation::ClearScreen));
    assert_eq!(op(0x00EE), Some(Operation::Return));
    assert_eq!(op(0x0000), None);
    assert_eq!(op(0x00E1), None);
    assert_eq!(op(0x00FE), None);
    assert_eq!(op(0x01E0), None);
    assert_eq!(op(0x0FEE), None);
}

#[test]
fn first_nibble_alone_decides_the_plain_families() {
    assert_eq!(op(0x1ABC), Some(Operation::Jump { nnn: 0xABC }));
    assert_eq!(op(0x2ABC), Some(Operation::Call { nnn: 0xABC }));
    assert_eq!(op(0x3A42), Some(Operation::SkipEqualByte { x: 0xA, nn: 0x42 }));
    assert_eq!(op(0x4A42), Some(Operation::SkipNotEqualByte { x: 0xA, nn: 0x42 }));
    assert_eq!(op(0x5AB0), Some(Operation::SkipEqual { x: 0xA, y: 0xB }));
    assert_eq!(op(0x5AB7), Some(Operation::SkipEqual { x: 0xA, y: 0xB }));
    assert_eq!(op(0x6A42), Some(Operation::SetByte { x: 0xA, nn: 0x42 }));
    assert_eq!(op(0x7A42), Some(Operation::AddByte { x: 0xA, nn: 0x42 }));
    assert_eq!(op(0x9AB0), Some(Operation::SkipNotEqual { x: 0xA, y: 0xB }));
    assert_eq!(op(0x9AB3), Some(Operation::SkipNotEqual { x: 0xA, y: 0xB }));
    assert_eq!(op(0xAABC), Some(Operation::SetIndex { nnn: 0xABC }));
    assert_eq!(op(0xBABC), Some(Operation::JumpOffset { x: 0xA, nnn: 0xABC }));
    assert_eq!(op(0xCA42), Some(Operation::Random { x: 0xA, nn: 0x42 }));
    assert_eq!(op(0xDAB5), Some(Operation::Draw { x: 0xA, y: 0xB, n: 5 }));
}

#[test]
fn arithmetic_family_is_told_apart_by_the_last_nibble() {
    assert_eq!(op(0x8120), Some(Operation::Copy { x: 1, y: 2 }));
    assert_eq!(op(0x8121), Some(Operation::Or { x: 1, y: 2 }));
    assert_eq!(op(0x8122), Some(Operation::And { x: 1, y: 2 }));
    assert_eq!(op(0x8123), Some(Operation::Xor { x: 1, y: 2 }));
    assert_eq!(op(0x8124), Some(Operation::AddCarry { x: 1, y: 2 }));
    assert_eq!(op(0x8125), Some(Operation::SubtractVx { x: 1, y: 2 }));
    assert_eq!(op(0x8126), Some(Operation::ShiftRight { x: 1, y: 2 }));
    assert_eq!(op(0x8127), Some(Operation::SubtractVy { x: 1, y: 2 }));
    assert_eq!(op(0x812E), Some(Operation::ShiftLeft { x: 1, y: 2 }));
    for n in [0x8u16, 0x9, 0xA, 0xB, 0xC, 0xD, 0xF] {
        assert_eq!(op(0x8120 | n), None);
    }
}

#[test]
fn key_family_knows_two_words() {
    assert_eq!(op(0xE39E), Some(Operation::SkipKey { x: 3 }));
    assert_eq!(op(0xE3A1), Some(Operation::SkipNotKey { x: 3 }));
    assert_eq!(op(0xE391), None);
    assert_eq!(op(0xE3AE), None);
    assert_eq!(op(0xE39F), None);
    assert_eq!(op(0xE3A2), None);
    assert_eq!(op(0xE3FF), None);
}

#[test]
fn misc_family_is_told_apart_by_the_low_byte() {
    assert_eq!(op(0xF407), Some(Operation::ReadDelay { x: 4 }));
    assert_eq!(op(0xF40A), Some(Operation::WaitKey { x: 4 }));
    assert_eq!(op(0xF415), Some(Operation::SetDelay { x: 4 }));
    assert_eq!(op(0xF418), Some(Operation::SetSound { x: 4 }));
    assert_eq!(op(0xF41E), Some(Operation::AddIndex { x: 4 }));
    assert_eq!(op(0xF429), Some(Operation::FontCharacter { x: 4 }));
    assert_eq!(op(0xF433), Some(Operation::Decimal { x: 4 }));
    assert_eq!(op(0xF455), Some(Operation::Store { x: 4 }));
    assert_eq!(op(0xF465), Some(Operation::Load { x: 4 }));
    for nn in [0x00u16, 0x08, 0x16, 0x1F, 0x20, 0x2A, 0x30, 0x50, 0x60, 0x66, 0xFF] {
        assert_eq!(op(0xF400 | nn), None);
    }
}
