//! Decoding of instruction words.
//!
//! A word is first cut into its fields, the four nibbles `c`, `x`, `y`, `d`
//! (bits 15-12, 11-8, 7-4 and 3-0) and the 12-bit field `nnn` (bits 11-0),
//! and then matched against the table of known patterns:
//!
//! | pattern  | instruction                                   |
//! |----------|-----------------------------------------------|
//! | `0x0000` | halt                                          |
//! | `0x00EE` | return from the current subroutine            |
//! | `0x2nnn` | call the subroutine at `nnn`                  |
//! | `0x8xy4` | add register `y` to register `x`, with carry  |
//!
//! Every other word is left undecoded.

use vstd::prelude::*;

verus! {

/// The fields of an instruction word: the nibbles `c`, `x`, `y`, `d` from
/// most to least significant, and `nnn`, the low twelve bits.
#[derive(Debug, Clone, Copy, PartialEq, Eq, Structural)]
pub struct Fields {
    pub c: u8,
    pub x: u8,
    pub y: u8,
    pub d: u8,
    pub nnn: u16,
}

/// A decoded instruction.
#[derive(Debug, Clone, Copy, PartialEq, Eq, Structural)]
pub enum Instruction {
    /// Stop the machine.
    Halt,
    /// Continue at the address on top of the call stack.
    Return,
    /// Save the program counter on the call stack and continue at `address`.
    Call { address: u16 },
    /// Add register `y` to register `x` and record the carry.
    AddWithCarry { x: u8, y: u8 },
}

impl Instruction {
    /// Whether the registers that the instruction names exist.
    pub open spec fn names_registers(self) -> bool {
        match self {
            Instruction::AddWithCarry { x, y } => x < 16 && y < 16,
            _ => true,
        }
    }
}

/// The fields of `word`.
pub open spec fn fields_of(word: u16) -> Fields {
    Fields {
        c: (word / 0x1000) as u8,
        x: (word / 0x100 % 0x10) as u8,
        y: (word / 0x10 % 0x10) as u8,
        d: (word % 0x10) as u8,
        nnn: (word % 0x1000) as u16,
    }
}

/// The instruction that `fields` select, if any.
pub open spec fn select(fields: Fields) -> Option<Instruction> {
    if fields.c == 0x0 && fields.x == 0x0 && fields.y == 0x0 && fields.d == 0x0 {
        Some(Instruction::Halt)
    } else if fields.c == 0x0 && fields.x == 0x0 && fields.y == 0xE && fields.d == 0xE {
        Some(Instruction::Return)
    } else if fields.c == 0x2 {
        Some(Instruction::Call { address: fields.nnn })
    } else if fields.c == 0x8 && fields.d == 0x4 {
        Some(Instruction::AddWithCarry { x: fields.x, y: fields.y })
    } else {
        None
    }
}

/// The instruction that `word` encodes, if any.
pub open spec fn instruction_of(word: u16) -> Option<Instruction> {
    select(fields_of(word))
}

/// Cuts a word into its fields.
pub fn split_fields(word: u16) -> (fields: Fields)
    ensures
        fields == fields_of(word),
{
    let c: u8 = ((word & 0xF000) >> 12) as u8;
    let x: u8 = ((word & 0x0F00) >> 8) as u8;
    let y: u8 = ((word & 0x00F0) >> 4) as u8;
    let d: u8 = (word & 0x000F) as u8;
    let nnn: u16 = word & 0x0FFF;
    assert((word & 0xF000) >> 12 == word / 0x1000) by (bit_vector);
    assert((word & 0x0F00) >> 8 == word / 0x100 % 0x10) by (bit_vector);
    assert((word & 0x00F0) >> 4 == word / 0x10 % 0x10) by (bit_vector);
    assert(word & 0x000F == word % 0x10) by (bit_vector);
    assert(word & 0x0FFF == word % 0x1000) by (bit_vector);
    Fields { c, x, y, d, nnn }
}

/// Decodes a word: `None` for a word that matches no known pattern.
pub fn decode(word: u16) -> (instruction: Option<Instruction>)
    ensures
        instruction == instruction_of(word),
        instruction is Some ==> instruction.unwrap().names_registers(),
{
    let fields = split_fields(word);
    match (fields.c, fields.x, fields.y, fields.d) {
        (0x0, 0x0, 0x0, 0x0) => Some(Instruction::Halt),
        (0x0, 0x0, 0xE, 0xE) => Some(Instruction::Return),
        (0x2, _, _, _) => Some(Instruction::Call { address: fields.nnn }),
        (0x8, _, _, 0x4) => Some(Instruction::AddWithCarry { x: fields.x, y: fields.y }),
        _ => None,
    }
}

/// The fields of a word stay within their widths, so a decoded instruction
/// names registers that exist and a call stays within twelve bits.
pub proof fn lemma_field_widths(word: u16)
    ensures
        fields_of(word).c < 16,
        fields_of(word).x < 16,
        fields_of(word).y < 16,
        fields_of(word).d < 16,
        fields_of(word).nnn < 0x1000,
        instruction_of(word) is Some ==> instruction_of(word).unwrap().names_registers(),
{
}

} // verus!
