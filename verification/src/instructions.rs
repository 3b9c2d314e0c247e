//! Instruction words and their decoding.
//!
//! A CHIP-8 instruction is one 16-bit word. `Instruction` carries the
//! word together with the seven bit-fields derived from it; `Opcode`
//! names the operation the word denotes, with its decoded operands.

use vstd::prelude::*;

verus! {

/// The instruction class: bits 12-15 of the word.
pub open spec fn op_of(w: u16) -> u8 {
    (w >> 12) as u8
}

/// The first register index: bits 8-11 of the word.
pub open spec fn x_of(w: u16) -> u8 {
    ((w >> 8) & 0xF) as u8
}

/// The second register index: bits 4-7 of the word.
pub open spec fn y_of(w: u16) -> u8 {
    ((w >> 4) & 0xF) as u8
}

/// The 4-bit literal: bits 0-3 of the word.
pub open spec fn n_of(w: u16) -> u8 {
    (w & 0xF) as u8
}

/// The 8-bit immediate: bits 0-7 of the word.
pub open spec fn nn_of(w: u16) -> u8 {
    (w & 0xFF) as u8
}

/// The 12-bit address: bits 0-11 of the word.
pub open spec fn nnn_of(w: u16) -> u16 {
    w & 0xFFF
}

/// One decoded instruction: the raw word and the seven bit-fields
/// every opcode draws its operands from.
#[derive(Clone, Copy, Debug, PartialEq, Eq, Structural)]
pub struct Instruction {
    pub f_nibble: u8,
    pub l_nibble: u8,
    pub nnn: u16,
    pub x: u8,
    pub y: u8,
    pub nn: u8,
    pub opcode: u16,
}

impl Instruction {
    /// Every field holds the bit-slice of `opcode` it stands for.
    pub open spec fn wf(self) -> bool {
        &&& self.f_nibble == op_of(self.opcode)
        &&& self.l_nibble == n_of(self.opcode)
        &&& self.nnn == nnn_of(self.opcode)
        &&& self.x == x_of(self.opcode)
        &&& self.y == y_of(self.opcode)
        &&& self.nn == nn_of(self.opcode)
        &&& self.f_nibble <= 0xF
        &&& self.l_nibble <= 0xF
        &&& self.x <= 0xF
        &&& self.y <= 0xF
        &&& self.nnn <= 0xFFF
    }

    /// Decodes a 16-bit word into its seven bit-fields.
    pub fn from_word(word: u16) -> (r: Instruction)
        ensures
            r.opcode == word,
            r.wf(),
    {
        proof {
            lemma_field_ranges(word);
        }
        Instruction {
            f_nibble: (word >> 12) as u8,
            l_nibble: (word & 0xF) as u8,
            nnn: word & 0xFFF,
            x: ((word >> 8) & 0xF) as u8,
            y: ((word >> 4) & 0xF) as u8,
            nn: (word & 0xFF) as u8,
            opcode: word,
        }
    }

    /// Decodes the big-endian word formed by the first two bytes.
    pub fn new(hex_code: &[u8]) -> (r: Instruction)
        requires
            hex_code@.len() >= 2,
        ensures
            r.opcode == (hex_code@[0] as u16) * 0x100 + hex_code@[1],
            r.wf(),
    {
        let hi = hex_code[0];
        let lo = hex_code[1];
        let word = ((hi as u16) << 8) | (lo as u16);
        assert(((hi as u16) << 8) | (lo as u16) == (hi as u16) * 0x100 + lo) by (bit_vector);
        Instruction::from_word(word)
    }
}

/// The operation an instruction word denotes, with its decoded
/// operands. `Illegal` stands for every word that matches no pattern.
#[derive(Clone, Copy, Debug, PartialEq, Eq, Structural)]
pub enum Opcode {
    /// `00E0`: clear the screen.
    Cls,
    /// `00EE`: return from a call.
    Ret,
    /// `1nnn`: jump to `nnn`.
    Jump { nnn: u16 },
    /// `2nnn`: call the routine at `nnn`.
    Call { nnn: u16 },
    /// `3xnn`: skip one word if `Vx == nn`.
    SkipEqImm { x: u8, nn: u8 },
    /// `4xnn`: skip one word if `Vx != nn`.
    SkipNeImm { x: u8, nn: u8 },
    /// `5xy0`: skip one word if `Vx == Vy`.
    SkipEqReg { x: u8, y: u8 },
    /// `9xy0`: skip one word if `Vx != Vy`.
    SkipNeReg { x: u8, y: u8 },
    /// `6xnn`: `Vx := nn`.
    MovImm { x: u8, nn: u8 },
    /// `7xnn`: `Vx := Vx + nn`, wrapping, no flag.
    AddImm { x: u8, nn: u8 },
    /// `8xy0`: `Vx := Vy`.
    Mov { x: u8, y: u8 },
    /// `8xy1`: `Vx |= Vy`.
    Or { x: u8, y: u8 },
    /// `8xy2`: `Vx &= Vy`.
    And { x: u8, y: u8 },
    /// `8xy3`: `Vx ^= Vy`.
    Xor { x: u8, y: u8 },
    /// `8xy4`: `Vx += Vy`, VF reports the carry.
    Add { x: u8, y: u8 },
    /// `8xy5`: `Vx -= Vy`, VF reports the absent borrow.
    Sub { x: u8, y: u8 },
    /// `8xy6`: shift right by one, VF takes the dropped bit.
    Shr { x: u8, y: u8 },
    /// `8xy7`: `Vx := Vy - Vx`, VF reports the absent borrow.
    SubN { x: u8, y: u8 },
    /// `8xyE`: shift left by one, VF takes the dropped bit.
    Shl { x: u8, y: u8 },
    /// `Annn`: `I := nnn`.
    MovIdx { nnn: u16 },
    /// `Bnnn`: jump to `nnn + V0`.
    JumpV0 { nnn: u16 },
    /// `Cxnn`: `Vx := random byte & nn`.
    Rand { x: u8, nn: u8 },
    /// `Dxyn`: draw the `n`-row sprite at `(Vx, Vy)`.
    Draw { x: u8, y: u8, n: u8 },
    /// `Ex9E`: skip one word if key `Vx` is down.
    SkipKeyDown { x: u8 },
    /// `ExA1`: skip one word if key `Vx` is up.
    SkipKeyUp { x: u8 },
    /// `Fx07`: `Vx := DT`.
    MovFromDelay { x: u8 },
    /// `Fx0A`: wait for a key press, then `Vx := its digit`.
    WaitKey { x: u8 },
    /// `Fx15`: `DT := Vx`.
    MovToDelay { x: u8 },
    /// `Fx18`: `ST := Vx`.
    MovToSound { x: u8 },
    /// `Fx1E`: `I := I + Vx`, wrapping, no flag.
    AddIdx { x: u8 },
    /// `Fx29`: `I :=` the font sprite address for digit `Vx`.
    SpriteChar { x: u8 },
    /// `Fx33`: store the decimal digits of `Vx` at `I..I+3`.
    StoreBcd { x: u8 },
    /// `Fx55`: store `V0..=Vx` at `I..=I+x`.
    StoreRegs { x: u8 },
    /// `Fx65`: load `V0..=Vx` from `I..=I+x`.
    LoadRegs { x: u8 },
    /// Any word that matches no pattern.
    Illegal,
}

/// The opcode an instruction's bit-fields denote.
pub open spec fn decode_spec(ins: Instruction) -> Opcode {
    let x = ins.x;
    let y = ins.y;
    let n = ins.l_nibble;
    let nn = ins.nn;
    let nnn = ins.nnn;
    match ins.f_nibble {
        0x0 => if x == 0 && nn == 0xE0 {
            Opcode::Cls
        } else if x == 0 && nn == 0xEE {
            Opcode::Ret
        } else {
            Opcode::Illegal
        },
        0x1 => Opcode::Jump { nnn },
        0x2 => Opcode::Call { nnn },
        0x3 => Opcode::SkipEqImm { x, nn },
        0x4 => Opcode::SkipNeImm { x, nn },
        0x5 => if n == 0 {
            Opcode::SkipEqReg { x, y }
        } else {
            Opcode::Illegal
        },
        0x6 => Opcode::MovImm { x, nn },
        0x7 => Opcode::AddImm { x, nn },
        0x8 => match n {
            0x0 => Opcode::Mov { x, y },
            0x1 => Opcode::Or { x, y },
            0x2 => Opcode::And { x, y },
            0x3 => Opcode::Xor { x, y },
            0x4 => Opcode::Add { x, y },
            0x5 => Opcode::Sub { x, y },
            0x6 => Opcode::Shr { x, y },
            0x7 => Opcode::SubN { x, y },
            0xE => Opcode::Shl { x, y },
            _ => Opcode::Illegal,
        },
        0x9 => if n == 0 {
            Opcode::SkipNeReg { x, y }
        } else {
            Opcode::Illegal
        },
        0xA => Opcode::MovIdx { nnn },
        0xB => Opcode::JumpV0 { nnn },
        0xC => Opcode::Rand { x, nn },
        0xD => Opcode::Draw { x, y, n },
        0xE => match nn {
            0x9E => Opcode::SkipKeyDown { x },
            0xA1 => Opcode::SkipKeyUp { x },
            _ => Opcode::Illegal,
        },
        0xF => match nn {
            0x07 => Opcode::MovFromDelay { x },
            0x0A => Opcode::WaitKey { x },
            0x15 => Opcode::MovToDelay { x },
            0x18 => Opcode::MovToSound { x },
            0x1E => Opcode::AddIdx { x },
            0x29 => Opcode::SpriteChar { x },
            0x33 => Opcode::StoreBcd { x },
            0x55 => Opcode::StoreRegs { x },
            0x65 => Opcode::LoadRegs { x },
            _ => Opcode::Illegal,
        },
        _ => Opcode::Illegal,
    }
}

impl Instruction {
    /// Classifies this instruction's word into its opcode.
    pub fn decode(&self) -> (r: Opcode)
        ensures
            r == decode_spec(*self),
    {
        let x = self.x;
        let y = self.y;
        let n = self.l_nibble;
        let nn = self.nn;
        let nnn = self.nnn;
        match self.f_nibble {
            0x0 => if x == 0 && nn == 0xE0 {
                Opcode::Cls
            } else if x == 0 && nn == 0xEE {
                Opcode::Ret
            } else {
                Opcode::Illegal
            },
            0x1 => Opcode::Jump { nnn },
            0x2 => Opcode::Call { nnn },
            0x3 => Opcode::SkipEqImm { x, nn },
            0x4 => Opcode::SkipNeImm { x, nn },
            0x5 => if n == 0 {
                Opcode::SkipEqReg { x, y }
            } else {
                Opcode::Illegal
            },
            0x6 => Opcode::MovImm { x, nn },
            0x7 => Opcode::AddImm { x, nn },
            0x8 => match n {
                0x0 => Opcode::Mov { x, y },
                0x1 => Opcode::Or { x, y },
                0x2 => Opcode::And { x, y },
                0x3 => Opcode::Xor { x, y },
                0x4 => Opcode::Add { x, y },
                0x5 => Opcode::Sub { x, y },
                0x6 => Opcode::Shr { x, y },
                0x7 => Opcode::SubN { x, y },
                0xE => Opcode::Shl { x, y },
                _ => Opcode::Illegal,
            },
            0x9 => if n == 0 {
                Opcode::SkipNeReg { x, y }
            } else {
                Opcode::Illegal
            },
            0xA => Opcode::MovIdx { nnn },
            0xB => Opcode::JumpV0 { nnn },
            0xC => Opcode::Rand { x, nn },
            0xD => Opcode::Draw { x, y, n },
            0xE => match nn {
                0x9E => Opcode::SkipKeyDown { x },
                0xA1 => Opcode::SkipKeyUp { x },
                _ => Opcode::Illegal,
            },
            0xF => match nn {
                0x07 => Opcode::MovFromDelay { x },
                0x0A => Opcode::WaitKey { x },
                0x15 => Opcode::MovToDelay { x },
                0x18 => Opcode::MovToSound { x },
                0x1E => Opcode::AddIdx { x },
                0x29 => Opcode::SpriteChar { x },
                0x33 => Opcode::StoreBcd { x },
                0x55 => Opcode::StoreRegs { x },
                0x65 => Opcode::LoadRegs { x },
                _ => Opcode::Illegal,
            },
            _ => Opcode::Illegal,
        }
    }
}

/// The bit-fields of a word lie in the ranges their widths allow.
proof fn lemma_field_ranges(w: u16)
    by (bit_vector)
    ensures
        op_of(w) <= 0xF,
        n_of(w) <= 0xF,
        x_of(w) <= 0xF,
        y_of(w) <= 0xF,
        nnn_of(w) <= 0xFFF,
{
}

} // verus!
