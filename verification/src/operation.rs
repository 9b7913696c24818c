//! The closed instruction table: decoding a 16-bit word into an operation.

use vstd::prelude::*;

verus! {

use crate::nibble::{Nibble, spec_nibbles, lemma_nibble_bounds};

/// Everything that can go wrong while loading or running a program.
///
/// All of these are values handed back to the host; the interpreter never
/// aborts the host process.
#[derive(Clone, Copy, Debug, PartialEq, Eq, Structural)]
pub enum Chip8Error {
    /// The program image does not fit between the program base and the end
    /// of memory.  Detected once, at construction.
    OversizedProgram,
    /// The fetched instruction word matches no pattern of the closed
    /// opcode table.  Carries the offending word.
    UnknownInstruction(u16),
    /// A subroutine call arrived while the call stack was at capacity.
    StackOverflow,
    /// A return arrived while the call stack was empty.
    StackUnderflow,
}

/// One decoded instruction.
///
/// Naming of the immediate fields follows the conventional description of
/// the instruction word `NXYN`: `x` and `y` select one of the 16 registers,
/// `value` is the 8-bit immediate `NN`, `address` the 12-bit immediate
/// `NNN`, and `height` the 4-bit immediate `N`.
#[derive(Clone, Copy, Debug, PartialEq, Eq, Structural)]
pub enum Operation {
    // 0NNN
    CallMachineCodeRoutineAt { address: u16 },
    // 00E0
    ClearScreen,
    // 00EE
    ReturnFromSubroutine,
    // 1NNN
    JumpTo { address: u16 },
    // 2NNN
    CallSubroutineAt { address: u16 },
    // 3XNN
    SkipNextInstructionIfVXEquals { x: u8, value: u8 },
    // 4XNN
    SkipNextInstructionIfVXNotEquals { x: u8, value: u8 },
    // 5XY0
    SkipNextInstructionIfVXEqualsVY { x: u8, y: u8 },
    // 6XNN
    SetVXTo { x: u8, value: u8 },
    // 7XNN
    AddToVX { x: u8, value: u8 },
    // 8XY0
    SetVXToVY { x: u8, y: u8 },
    // 8XY1
    SetVXToVXOrVY { x: u8, y: u8 },
    // 8XY2
    SetVXToVXAndVY { x: u8, y: u8 },
    // 8XY3
    SetVXToVXXorVY { x: u8, y: u8 },
    // 8XY4
    AddVYToVX { x: u8, y: u8 },
    // 8XY5
    SubtractVYFromVX { x: u8, y: u8 },
    // 8XY6
    RightShiftVX { x: u8, y: u8 },
    // 8XY7
    SubtractVXFromVY { x: u8, y: u8 },
    // 8XYE
    LeftShiftVX { x: u8, y: u8 },
    // 9XY0
    SkipNextInstructionIfVXNotEqualsVY { x: u8, y: u8 },
    // ANNN
    SetITo { address: u16 },
    // BNNN, under the legacy interpretation
    JumpToPlusV0 { address: u16 },
    // BXNN, under the modern interpretation
    JumpToPlusVX { x: u8, address: u16 },
    // CXNN
    SetVXToVXAndRandomNumber { x: u8, value: u8 },
    // DXYN
    DrawSpriteAt { x: u8, y: u8, height: u8 },
    // EX9E
    SkipNextInstructionIfKeyInVXPressed { x: u8 },
    // EXA1
    SkipNextInstructionIfKeyInVXNotPressed { x: u8 },
    // FX07
    SetVXToDelayTimer { x: u8 },
    // FX0A
    AwaitKeyPress { x: u8 },
    // FX15
    SetDelayTimerToVX { x: u8 },
    // FX18
    SetSoundTimerToVX { x: u8 },
    // FX1E
    AddVXToI { x: u8 },
    // FX29
    SetIToSpriteLocationForCharacterInVX { x: u8 },
    // FX33
    StoreBinaryCodedDecimalOfVX { x: u8 },
    // FX55
    StoreFromV0ToVX { x: u8 },
    // FX65
    FillFromV0ToVX { x: u8 },
}

impl Operation {
    /// The register fields of a decoded operation select one of the 16
    /// registers, its height field is a nibble, and its address field is a
    /// 12-bit value.
    pub open spec fn wf(self) -> bool {
        match self {
            Operation::CallMachineCodeRoutineAt { address } => address < 4096,
            Operation::ClearScreen => true,
            Operation::ReturnFromSubroutine => true,
            Operation::JumpTo { address } => address < 4096,
            Operation::CallSubroutineAt { address } => address < 4096,
            Operation::SkipNextInstructionIfVXEquals { x, value } => x < 16,
            Operation::SkipNextInstructionIfVXNotEquals { x, value } => x < 16,
            Operation::SkipNextInstructionIfVXEqualsVY { x, y } => x < 16 && y < 16,
            Operation::SetVXTo { x, value } => x < 16,
            Operation::AddToVX { x, value } => x < 16,
            Operation::SetVXToVY { x, y } => x < 16 && y < 16,
            Operation::SetVXToVXOrVY { x, y } => x < 16 && y < 16,
            Operation::SetVXToVXAndVY { x, y } => x < 16 && y < 16,
            Operation::SetVXToVXXorVY { x, y } => x < 16 && y < 16,
            Operation::AddVYToVX { x, y } => x < 16 && y < 16,
            Operation::SubtractVYFromVX { x, y } => x < 16 && y < 16,
            Operation::RightShiftVX { x, y } => x < 16 && y < 16,
            Operation::SubtractVXFromVY { x, y } => x < 16 && y < 16,
            Operation::LeftShiftVX { x, y } => x < 16 && y < 16,
            Operation::SkipNextInstructionIfVXNotEqualsVY { x, y } => x < 16 && y < 16,
            Operation::SetITo { address } => address < 4096,
            Operation::JumpToPlusV0 { address } => address < 4096,
            Operation::JumpToPlusVX { x, address } => x < 16 && address < 4096,
            Operation::SetVXToVXAndRandomNumber { x, value } => x < 16,
            Operation::DrawSpriteAt { x, y, height } => x < 16 && y < 16 && height < 16,
            Operation::SkipNextInstructionIfKeyInVXPressed { x } => x < 16,
            Operation::SkipNextInstructionIfKeyInVXNotPressed { x } => x < 16,
            Operation::SetVXToDelayTimer { x } => x < 16,
            Operation::AwaitKeyPress { x } => x < 16,
            Operation::SetDelayTimerToVX { x } => x < 16,
            Operation::SetSoundTimerToVX { x } => x < 16,
            Operation::AddVXToI { x } => x < 16,
            Operation::SetIToSpriteLocationForCharacterInVX { x } => x < 16,
            Operation::StoreBinaryCodedDecimalOfVX { x } => x < 16,
            Operation::StoreFromV0ToVX { x } => x < 16,
            Operation::FillFromV0ToVX { x } => x < 16,
        }
    }
}

/// The opcode table itself: which operation a word denotes, or `None` when
/// the word matches no documented pattern.
///
/// The `super_chip` flag selects the modern interpretation of `BNNN`
/// (jump to `NNN` plus `VX` instead of `V0`); the shift and block
/// store/load quirks are resolved at execution time, not here.
pub open spec fn spec_decode(w: u16, super_chip: bool) -> Option<Operation> {
    let nibbles = spec_nibbles(w);
    let x = nibbles.1;
    let y = nibbles.2;
    let value = (w & 0x00FF) as u8;
    let address = w & 0x0FFF;
    match nibbles {
        (0x00, 0x00, 0x0E, 0x00) => Some(Operation::ClearScreen),
        (0x00, 0x00, 0x0E, 0x0E) => Some(Operation::ReturnFromSubroutine),
        (0x00, _, _, _) => Some(Operation::CallMachineCodeRoutineAt { address }),
        (0x01, _, _, _) => Some(Operation::JumpTo { address }),
        (0x02, _, _, _) => Some(Operation::CallSubroutineAt { address }),
        (0x03, _, _, _) => Some(Operation::SkipNextInstructionIfVXEquals { x, value }),
        (0x04, _, _, _) => Some(Operation::SkipNextInstructionIfVXNotEquals { x, value }),
        (0x05, _, _, 0x00) => Some(Operation::SkipNextInstructionIfVXEqualsVY { x, y }),
        (0x06, _, _, _) => Some(Operation::SetVXTo { x, value }),
        (0x07, _, _, _) => Some(Operation::AddToVX { x, value }),
        (0x08, _, _, 0x00) => Some(Operation::SetVXToVY { x, y }),
        (0x08, _, _, 0x01) => Some(Operation::SetVXToVXOrVY { x, y }),
        (0x08, _, _, 0x02) => Some(Operation::SetVXToVXAndVY { x, y }),
        (0x08, _, _, 0x03) => Some(Operation::SetVXToVXXorVY { x, y }),
        (0x08, _, _, 0x04) => Some(Operation::AddVYToVX { x, y }),
        (0x08, _, _, 0x05) => Some(Operation::SubtractVYFromVX { x, y }),
        (0x08, _, _, 0x06) => Some(Operation::RightShiftVX { x, y }),
        (0x08, _, _, 0x07) => Some(Operation::SubtractVXFromVY { x, y }),
        (0x08, _, _, 0x0E) => Some(Operation::LeftShiftVX { x, y }),
        (0x09, _, _, 0x00) => Some(Operation::SkipNextInstructionIfVXNotEqualsVY { x, y }),
        (0x0A, _, _, _) => Some(Operation::SetITo { address }),
        (0x0B, _, _, _) => if super_chip {
            Some(Operation::JumpToPlusVX { x, address })
        } else {
            Some(Operation::JumpToPlusV0 { address })
        },
        (0x0C, _, _, _) => Some(Operation::SetVXToVXAndRandomNumber { x, value }),
        (0x0D, _, _, _) => Some(Operation::DrawSpriteAt { x, y, height: nibbles.3 }),
        (0x0E, _, 0x09, 0x0E) => Some(Operation::SkipNextInstructionIfKeyInVXPressed { x }),
        (0x0E, _, 0x0A, 0x01) => Some(Operation::SkipNextInstructionIfKeyInVXNotPressed { x }),
        (0x0F, _, 0x00, 0x07) => Some(Operation::SetVXToDelayTimer { x }),
        (0x0F, _, 0x00, 0x0A) => Some(Operation::AwaitKeyPress { x }),
        (0x0F, _, 0x01, 0x05) => Some(Operation::SetDelayTimerToVX { x }),
        (0x0F, _, 0x01, 0x08) => Some(Operation::SetSoundTimerToVX { x }),
        (0x0F, _, 0x01, 0x0E) => Some(Operation::AddVXToI { x }),
        (0x0F, _, 0x02, 0x09) => Some(Operation::SetIToSpriteLocationForCharacterInVX { x }),
        (0x0F, _, 0x03, 0x03) => Some(Operation::StoreBinaryCodedDecimalOfVX { x }),
        (0x0F, _, 0x05, 0x05) => Some(Operation::StoreFromV0ToVX { x }),
        (0x0F, _, 0x06, 0x05) => Some(Operation::FillFromV0ToVX { x }),
        _ => None,
    }
}

/// What `Operation::decode` returns: the table's operation, or an
/// `UnknownInstruction` error carrying the word itself.
pub open spec fn spec_decode_result(w: u16, super_chip: bool) -> Result<Operation, Chip8Error> {
    match spec_decode(w, super_chip) {
        Some(op) => Ok(op),
        None => Err(Chip8Error::UnknownInstruction(w)),
    }
}

/// A decoded operation always carries in-range fields.
pub proof fn lemma_decode_wf(w: u16, super_chip: bool)
    ensures
        (spec_decode(w, super_chip) matches Some(op) ==> op.wf()),
{
    lemma_nibble_bounds(w);
}

/// Words whose leading nibble is outside {0, 5, 8, 9, E, F} always decode:
/// only those six instruction families constrain the remaining nibbles.
pub proof fn lemma_unconditional_families_decode(w: u16, super_chip: bool)
    requires
        spec_nibbles(w).0 != 0x00,
        spec_nibbles(w).0 != 0x05,
        spec_nibbles(w).0 != 0x08,
        spec_nibbles(w).0 != 0x09,
        spec_nibbles(w).0 != 0x0E,
        spec_nibbles(w).0 != 0x0F,
    ensures
        (spec_decode(w, super_chip) is Some),
{
    lemma_nibble_bounds(w);
}

impl Operation {
    /// Decode one instruction word against the closed opcode table.
    ///
    /// Returns the unique operation whose bit pattern the word matches,
    /// with its fields extracted, and `UnknownInstruction` for every word
    /// outside the table.
    pub fn decode(instruction: u16, super_chip: bool) -> (result: Result<Operation, Chip8Error>)
        ensures
            result == spec_decode_result(instruction, super_chip),
            (result matches Ok(op) ==> op.wf()),
    {
        proof {
            lemma_decode_wf(instruction, super_chip);
        }
        let nibbles = instruction.get_nibbles();
        let x = nibbles.1;
        let y = nibbles.2;
        let value = (instruction & 0x00FF) as u8;
        let address = instruction & 0x0FFF;
        match nibbles {
            (0x00, 0x00, 0x0E, 0x00) => Ok(Operation::ClearScreen),
            (0x00, 0x00, 0x0E, 0x0E) => Ok(Operation::ReturnFromSubroutine),
            (0x00, _, _, _) => Ok(Operation::CallMachineCodeRoutineAt { address }),
            (0x01, _, _, _) => Ok(Operation::JumpTo { address }),
            (0x02, _, _, _) => Ok(Operation::CallSubroutineAt { address }),
            (0x03, _, _, _) => Ok(Operation::SkipNextInstructionIfVXEquals { x, value }),
            (0x04, _, _, _) => Ok(Operation::SkipNextInstructionIfVXNotEquals { x, value }),
            (0x05, _, _, 0x00) => Ok(Operation::SkipNextInstructionIfVXEqualsVY { x, y }),
            (0x06, _, _, _) => Ok(Operation::SetVXTo { x, value }),
            (0x07, _, _, _) => Ok(Operation::AddToVX { x, value }),
            (0x08, _, _, 0x00) => Ok(Operation::SetVXToVY { x, y }),
            (0x08, _, _, 0x01) => Ok(Operation::SetVXToVXOrVY { x, y }),
            (0x08, _, _, 0x02) => Ok(Operation::SetVXToVXAndVY { x, y }),
            (0x08, _, _, 0x03) => Ok(Operation::SetVXToVXXorVY { x, y }),
            (0x08, _, _, 0x04) => Ok(Operation::AddVYToVX { x, y }),
            (0x08, _, _, 0x05) => Ok(Operation::SubtractVYFromVX { x, y }),
            (0x08, _, _, 0x06) => Ok(Operation::RightShiftVX { x, y }),
            (0x08, _, _, 0x07) => Ok(Operation::SubtractVXFromVY { x, y }),
            (0x08, _, _, 0x0E) => Ok(Operation::LeftShiftVX { x, y }),
            (0x09, _, _, 0x00) => Ok(Operation::SkipNextInstructionIfVXNotEqualsVY { x, y }),
            (0x0A, _, _, _) => Ok(Operation::SetITo { address }),
            (0x0B, _, _, _) => if super_chip {
                Ok(Operation::JumpToPlusVX { x, address })
            } else {
                Ok(Operation::JumpToPlusV0 { address })
            },
            (0x0C, _, _, _) => Ok(Operation::SetVXToVXAndRandomNumber { x, value }),
            (0x0D, _, _, _) => Ok(Operation::DrawSpriteAt { x, y, height: nibbles.3 }),
            (0x0E, _, 0x09, 0x0E) => Ok(Operation::SkipNextInstructionIfKeyInVXPressed { x }),
            (0x0E, _, 0x0A, 0x01) => Ok(Operation::SkipNextInstructionIfKeyInVXNotPressed { x }),
            (0x0F, _, 0x00, 0x07) => Ok(Operation::SetVXToDelayTimer { x }),
            (0x0F, _, 0x00, 0x0A) => Ok(Operation::AwaitKeyPress { x }),
            (0x0F, _, 0x01, 0x05) => Ok(Operation::SetDelayTimerToVX { x }),
            (0x0F, _, 0x01, 0x08) => Ok(Operation::SetSoundTimerToVX { x }),
            (0x0F, _, 0x01, 0x0E) => Ok(Operation::AddVXToI { x }),
            (0x0F, _, 0x02, 0x09) => Ok(Operation::SetIToSpriteLocationForCharacterInVX { x }),
            (0x0F, _, 0x03, 0x03) => Ok(Operation::StoreBinaryCodedDecimalOfVX { x }),
            (0x0F, _, 0x05, 0x05) => Ok(Operation::StoreFromV0ToVX { x }),
            (0x0F, _, 0x06, 0x05) => Ok(Operation::FillFromV0ToVX { x }),
            _ => Err(Chip8Error::UnknownInstruction(instruction)),
        }
    }
}

} // verus!
