//! Assembling and decoding 16-bit instruction words.
use vstd::prelude::*;

verus! {

/// The word that two consecutive memory bytes form, high byte first.
pub open spec fn word_of(hi: u8, lo: u8) -> int {
    hi as int * 256 + lo as int
}

/// The four 4-bit fields of an instruction word, from the most significant
/// to the least significant.
#[derive(Clone, Copy, Debug, PartialEq, Eq, Structural)]
pub struct Nibbles {
    /// Bits 12 to 15: the instruction class.
    pub c: u8,
    /// Bits 8 to 11: usually a register index.
    pub x: u8,
    /// Bits 4 to 7: usually a register index.
    pub y: u8,
    /// Bits 0 to 3: the sub-operation selector.
    pub d: u8,
}

impl Nibbles {
    /// The word that the four fields recombine into.
    pub open spec fn recombined(self) -> u16 {
        ((self.c as u16) << 12u16) | ((self.x as u16) << 8u16) | ((self.y as u16) << 4u16)
            | (self.d as u16)
    }
}

/// Assembles the instruction word from its high and low bytes.
pub fn assemble(hi: u8, lo: u8) -> (r: u16)
    ensures
        r as int == word_of(hi, lo),
{
    let h: u16 = hi as u16;
    let l: u16 = lo as u16;
    assert((h << 8u16) | l == h * 256 + l) by (bit_vector)
        requires
            h < 256,
            l < 256,
    ;
    (h << 8u16) | l
}

/// Splits an instruction word into its four nibbles.
pub fn decode(opcode: u16) -> (r: Nibbles)
    ensures
        r.c as u16 == (opcode >> 12u16) & 0xF,
        r.x as u16 == (opcode >> 8u16) & 0xF,
        r.y as u16 == (opcode >> 4u16) & 0xF,
        r.d as u16 == opcode & 0xF,
        r.c < 16 && r.x < 16 && r.y < 16 && r.d < 16,
        r.recombined() == opcode,
{
    let c: u16 = (opcode & 0xF000) >> 12u16;
    let x: u16 = (opcode & 0x0F00) >> 8u16;
    let y: u16 = (opcode & 0x00F0) >> 4u16;
    let d: u16 = opcode & 0x000F;
    assert(c == (opcode >> 12u16) & 0xF && c < 16) by (bit_vector)
        requires
            c == (opcode & 0xF000) >> 12u16,
    ;
    assert(x == (opcode >> 8u16) & 0xF && x < 16) by (bit_vector)
        requires
            x == (opcode & 0x0F00) >> 8u16,
    ;
    assert(y == (opcode >> 4u16) & 0xF && y < 16) by (bit_vector)
        requires
            y == (opcode & 0x00F0) >> 4u16,
    ;
    assert(d < 16) by (bit_vector)
        requires
            d == opcode & 0x000F,
    ;
    assert((c << 12u16) | (x << 8u16) | (y << 4u16) | d == opcode) by (bit_vector)
        requires
            c == (opcode & 0xF000) >> 12u16,
            x == (opcode & 0x0F00) >> 8u16,
            y == (opcode & 0x00F0) >> 4u16,
            d == opcode & 0x000F,
    ;
    Nibbles { c: c as u8, x: x as u8, y: y as u8, d: d as u8 }
}

/// What an instruction word asks the machine to do.
#[derive(Clone, Copy, Debug, PartialEq, Eq, Structural)]
pub enum Instruction {
    /// The word `0x0000`: stop the machine.
    Halt,
    /// Class 8 with selector 4: add register `y` into register `x`, with carry.
    AddXY { x: u8, y: u8 },
    /// Any other word, carried whole.
    Unimplemented { opcode: u16 },
}

/// The instruction that a word stands for.
pub open spec fn instruction_of(opcode: u16) -> Instruction {
    if opcode == 0 {
        Instruction::Halt
    } else if (opcode >> 12u16) & 0xF == 8 && opcode & 0xF == 4 {
        Instruction::AddXY {
            x: ((opcode >> 8u16) & 0xF) as u8,
            y: ((opcode >> 4u16) & 0xF) as u8,
        }
    } else {
        Instruction::Unimplemented { opcode }
    }
}

/// Decodes a word and dispatches on its nibbles.
pub fn classify(opcode: u16) -> (r: Instruction)
    ensures
        r == instruction_of(opcode),
        r matches Instruction::AddXY { x, y } ==> x < 16 && y < 16,
{
    let n = decode(opcode);
    assert(opcode == 0 <==> (opcode >> 12u16) & 0xF == 0 && (opcode >> 8u16) & 0xF == 0
        && (opcode >> 4u16) & 0xF == 0 && opcode & 0xF == 0) by (bit_vector);
    match (n.c, n.x, n.y, n.d) {
        (0, 0, 0, 0) => Instruction::Halt,
        (8, _, _, 4) => Instruction::AddXY { x: n.x, y: n.y },
        _ => Instruction::Unimplemented { opcode },
    }
}

} // verus!
