// The closed opcode table: every documented bit pattern decodes to its
// operation with the fields extracted, and unmatched words are errors.

use chip8::nibble::Nibble;
use chip8::operation::{Chip8Error, Operation};

fn decode_legacy(word: u16) -> Result<Operation, Chip8Error> {
    Operation::decode(word, false)
}

#[test]
fn nibbles_split_a_word() {
    assert_eq!(0xABCDu16.get_nibbles(), (0xA, 0xB, 0xC, 0xD));
    assert_eq!(0x0000u16.get_nibbles(), (0, 0, 0, 0));
    assert_eq!(0xF00Fu16.get_nibbles(), (0xF, 0, 0, 0xF));
}

#[test]
fn decodes_system_family() {
    assert_eq!(decode_legacy(0x00E0), Ok(Operation::ClearScreen));
    assert_eq!(decode_legacy(0x00EE), Ok(Operation::ReturnFromSubroutine));
    assert_eq!(
        decode_legacy(0x0123),
        Ok(Operation::CallMachineCodeRoutineAt { address: 0x123 })
    );
    // Any other 0NNN word is still the machine-code routine, not an error.
    assert_eq!(
        decode_legacy(0x00E1),
        Ok(Operation::CallMachineCodeRoutineAt { address: 0x0E1 })
    );
}

#[test]
fn decodes_control_flow() {
    assert_eq!(decode_legacy(0x1ABC), Ok(Operation::JumpTo { address: 0xABC }));
    assert_eq!(
        decode_legacy(0x2DEF),
        Ok(Operation::CallSubroutineAt { address: 0xDEF })
    );
}

#[test]
fn decodes_conditional_skips() {
    assert_eq!(
        decode_legacy(0x3A42),
        Ok(Operation::SkipNextInstructionIfVXEquals { x: 0xA, value: 0x42 })
    );
    assert_eq!(
        decode_legacy(0x4B99),
        Ok(Operation::SkipNextInstructionIfVXNotEquals { x: 0xB, value: 0x99 })
    );
    assert_eq!(
        decode_legacy(0x5CD0),
        Ok(Operation::SkipNextInstructionIfVXEqualsVY { x: 0xC, y: 0xD })
    );
    assert_eq!(
        decode_legacy(0x9340),
        Ok(Operation::SkipNextInstructionIfVXNotEqualsVY { x: 3, y: 4 })
    );
}

#[test]
fn decodes_immediate_arithmetic() {
    assert_eq!(decode_legacy(0x6E7F), Ok(Operation::SetVXTo { x: 0xE, value: 0x7F }));
    assert_eq!(decode_legacy(0x7012), Ok(Operation::AddToVX { x: 0, value: 0x12 }));
}

#[test]
fn decodes_register_arithmetic_family() {
    assert_eq!(decode_legacy(0x8120), Ok(Operation::SetVXToVY { x: 1, y: 2 }));
    assert_eq!(decode_legacy(0x8341), Ok(Operation::SetVXToVXOrVY { x: 3, y: 4 }));
    assert_eq!(decode_legacy(0x8562), Ok(Operation::SetVXToVXAndVY { x: 5, y: 6 }));
    assert_eq!(decode_legacy(0x8783), Ok(Operation::SetVXToVXXorVY { x: 7, y: 8 }));
    assert_eq!(decode_legacy(0x89A4), Ok(Operation::AddVYToVX { x: 9, y: 0xA }));
    assert_eq!(decode_legacy(0x8BC5), Ok(Operation::SubtractVYFromVX { x: 0xB, y: 0xC }));
    assert_eq!(decode_legacy(0x8DE6), Ok(Operation::RightShiftVX { x: 0xD, y: 0xE }));
    assert_eq!(decode_legacy(0x8F07), Ok(Operation::SubtractVXFromVY { x: 0xF, y: 0 }));
    assert_eq!(decode_legacy(0x812E), Ok(Operation::LeftShiftVX { x: 1, y: 2 }));
}

#[test]
fn decodes_index_and_jump_family() {
    assert_eq!(decode_legacy(0xA678), Ok(Operation::SetITo { address: 0x678 }));
    assert_eq!(decode_legacy(0xB789), Ok(Operation::JumpToPlusV0 { address: 0x789 }));
}

#[test]
fn jump_with_offset_is_quirk_sensitive() {
    assert_eq!(
        Operation::decode(0xB789, false),
        Ok(Operation::JumpToPlusV0 { address: 0x789 })
    );
    assert_eq!(
        Operation::decode(0xB789, true),
        Ok(Operation::JumpToPlusVX { x: 7, address: 0x789 })
    );
}

#[test]
fn decodes_random_and_draw() {
    assert_eq!(
        decode_legacy(0xC5AA),
        Ok(Operation::SetVXToVXAndRandomNumber { x: 5, value: 0xAA })
    );
    assert_eq!(
        decode_legacy(0xD123),
        Ok(Operation::DrawSpriteAt { x: 1, y: 2, height: 3 })
    );
}

#[test]
fn decodes_key_family() {
    assert_eq!(
        decode_legacy(0xE69E),
        Ok(Operation::SkipNextInstructionIfKeyInVXPressed { x: 6 })
    );
    assert_eq!(
        decode_legacy(0xE7A1),
        Ok(Operation::SkipNextInstructionIfKeyInVXNotPressed { x: 7 })
    );
}

#[test]
fn decodes_timer_memory_family() {
    assert_eq!(decode_legacy(0xF807), Ok(Operation::SetVXToDelayTimer { x: 8 }));
    assert_eq!(decode_legacy(0xF90A), Ok(Operation::AwaitKeyPress { x: 9 }));
    assert_eq!(decode_legacy(0xFA15), Ok(Operation::SetDelayTimerToVX { x: 0xA }));
    assert_eq!(decode_legacy(0xFB18), Ok(Operation::SetSoundTimerToVX { x: 0xB }));
    assert_eq!(decode_legacy(0xFC1E), Ok(Operation::AddVXToI { x: 0xC }));
    assert_eq!(
        decode_legacy(0xFD29),
        Ok(Operation::SetIToSpriteLocationForCharacterInVX { x: 0xD })
    );
    assert_eq!(
        decode_legacy(0xFE33),
        Ok(Operation::StoreBinaryCodedDecimalOfVX { x: 0xE })
    );
    assert_eq!(decode_legacy(0xFF55), Ok(Operation::StoreFromV0ToVX { x: 0xF }));
    assert_eq!(decode_legacy(0xF065), Ok(Operation::FillFromV0ToVX { x: 0 }));
}

#[test]
fn unmatched_patterns_are_errors_carrying_the_word() {
    for word in [0x5005u16, 0x5CD7, 0x8008, 0x8ABF, 0x9AB1, 0xE000, 0xEF9F, 0xF000, 0xF066, 0xFFFF]
    {
        assert_eq!(
            Operation::decode(word, false),
            Err(Chip8Error::UnknownInstruction(word)),
            "word {word:04X} should not decode"
        );
        assert_eq!(
            Operation::decode(word, true),
            Err(Chip8Error::UnknownInstruction(word)),
            "word {word:04X} should not decode"
        );
    }
}

#[test]
fn unconditional_families_always_decode() {
    for lead in [0x1u16, 0x2, 0x3, 0x4, 0x6, 0x7, 0xA, 0xB, 0xC, 0xD] {
        for tail in [0x000u16, 0x123, 0xFFF] {
            let word = (lead << 12) | tail;
            assert!(Operation::decode(word, false).is_ok(), "word {word:04X}");
            assert!(Operation::decode(word, true).is_ok(), "word {word:04X}");
        }
    }
}
