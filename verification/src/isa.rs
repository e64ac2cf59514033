//! Instruction words and their decoding.
//!
//! A CHIP-8 instruction is a 16-bit word. The top nibble selects the opcode
//! family; the remaining nibbles carry register indices (`x`, `y`), a 4-bit
//! immediate (`n`), an 8-bit immediate (`kk`) or a 12-bit address (`nnn`).
//! `decode` turns a word into a typed [`Instruction`]; its result is pinned
//! to the pure function [`spec_decode`], so decoding depends on the word and
//! on nothing else.

use vstd::prelude::*;

verus! {

/// The 4-bit slice of `w` at position `n`, counted from the least
/// significant nibble (position 0) to the most significant (position 3).
pub open spec fn spec_nibble(w: u16, n: u8) -> u8
    recommends
        n <= 3,
{
    if n == 0 {
        (w % 16) as u8
    } else if n == 1 {
        ((w / 16) % 16) as u8
    } else if n == 2 {
        ((w / 256) % 16) as u8
    } else {
        (w / 4096) as u8
    }
}

/// Extract nibble `n` of `*value`, nibble 0 being the least significant.
pub fn nibble(value: &u16, n: u8) -> (r: u8)
    requires
        n <= 3,
    ensures
        r == spec_nibble(*value, n),
        r < 16,
{
    if n == 0 {
        (*value % 16) as u8
    } else if n == 1 {
        ((*value / 16) % 16) as u8
    } else if n == 2 {
        ((*value / 256) % 16) as u8
    } else {
        (*value / 4096) as u8
    }
}

/// A decoded CHIP-8 instruction.
///
/// `x` and `y` are register indices (always below 16 when produced by
/// `decode`), `kk` an 8-bit immediate, `n` a 4-bit immediate and `nnn` a
/// 12-bit address. Words that match no pattern of the instruction table
/// decode to `Unknown`, which executes as a no-operation.
#[derive(Clone, Copy, Debug, PartialEq, Eq, Structural)]
pub enum Instruction {
    /// 00E0: clear the display.
    ClearScreen,
    /// 00EE: return from a subroutine.
    Return,
    /// 1NNN: jump to `nnn`.
    Jump { nnn: u16 },
    /// 2NNN: call the subroutine at `nnn`.
    Call { nnn: u16 },
    /// 3XKK: skip the next instruction if `VX == kk`.
    SkipEqImm { x: u8, kk: u8 },
    /// 4XKK: skip the next instruction if `VX != kk`.
    SkipNeImm { x: u8, kk: u8 },
    /// 5XY0: skip the next instruction if `VX == VY`.
    SkipEqReg { x: u8, y: u8 },
    /// 9XY0: skip the next instruction if `VX != VY`.
    SkipNeReg { x: u8, y: u8 },
    /// 6XKK: `VX := kk`.
    LoadImm { x: u8, kk: u8 },
    /// 7XKK: `VX := VX + kk`, wrapping, flags untouched.
    AddImm { x: u8, kk: u8 },
    /// 8XY0: `VX := VY`.
    CopyReg { x: u8, y: u8 },
    /// 8XY1: `VX := VX | VY`.
    OrReg { x: u8, y: u8 },
    /// 8XY2: `VX := VX & VY`.
    AndReg { x: u8, y: u8 },
    /// 8XY3: `VX := VX ^ VY`.
    XorReg { x: u8, y: u8 },
    /// 8XY4: `VX := VX + VY`, `VF` gets the carry.
    AddReg { x: u8, y: u8 },
    /// 8XY5: if `VX > VY`, `VX := VX - VY` and `VF := 1`, else only `VF := 0`.
    SubXY { x: u8, y: u8 },
    /// 8XY6: `VF` gets the low bit of `VX`, then `VX := VX >> 1`.
    ShiftRight { x: u8 },
    /// 8XY7: if `VY > VX`, `VX := VY - VX` and `VF := 1`, else only `VF := 0`.
    SubYX { x: u8, y: u8 },
    /// 8XYE: `VF` gets the high bit of `VX`, then `VX := VX << 1`.
    ShiftLeft { x: u8 },
    /// ANNN: `I := nnn`.
    LoadI { nnn: u16 },
    /// BNNN: jump to `nnn + V0`.
    JumpV0 { nnn: u16 },
    /// CXKK: `VX := random byte & kk`.
    Random { x: u8, kk: u8 },
    /// DXYN: draw the `n`-row sprite at `I` to `(VX, VY)`; `VF` = collision.
    Draw { x: u8, y: u8, n: u8 },
    /// EX9E: skip the next instruction if key `VX` is pressed.
    SkipIfKey { x: u8 },
    /// EXA1: skip the next instruction if key `VX` is not pressed.
    SkipIfNoKey { x: u8 },
    /// FX07: `VX := delay timer`.
    ReadDelay { x: u8 },
    /// FX0A: wait for a key press, placing the key in `VX`.
    WaitKey { x: u8 },
    /// FX15: `delay timer := VX`.
    SetDelay { x: u8 },
    /// FX18: `sound timer := VX`.
    SetSound { x: u8 },
    /// FX1E: `I := I + VX`, wrapping.
    AddI { x: u8 },
    /// FX29: `I := address of the font glyph for `VX``.
    LoadFont { x: u8 },
    /// FX33: write the three decimal digits of `VX` at `I`, `I+1`, `I+2`.
    StoreBcd { x: u8 },
    /// FX55: copy `V0..=VX` to memory at `I`, then advance `I` by `X + 1`.
    StoreRegs { x: u8 },
    /// FX65: load `V0..=VX` from memory at `I`, then advance `I` by `X + 1`.
    LoadRegs { x: u8 },
    /// Any word outside the instruction table; executes as a no-operation.
    Unknown,
}

/// The instruction denoted by the word `w`: a pure function of `w` alone.
pub open spec fn spec_decode(w: u16) -> Instruction {
    let op = spec_nibble(w, 3);
    let x = spec_nibble(w, 2);
    let y = spec_nibble(w, 1);
    let n = spec_nibble(w, 0);
    let kk = (w % 256) as u8;
    let nnn = (w % 4096) as u16;
    if op == 0x0 {
        if nnn == 0x0E0 {
            Instruction::ClearScreen
        } else if nnn == 0x0EE {
            Instruction::Return
        } else {
            Instruction::Unknown
        }
    } else if op == 0x1 {
        Instruction::Jump { nnn }
    } else if op == 0x2 {
        Instruction::Call { nnn }
    } else if op == 0x3 {
        Instruction::SkipEqImm { x, kk }
    } else if op == 0x4 {
        Instruction::SkipNeImm { x, kk }
    } else if op == 0x5 {
        if n == 0x0 {
            Instruction::SkipEqReg { x, y }
        } else {
            Instruction::Unknown
        }
    } else if op == 0x6 {
        Instruction::LoadImm { x, kk }
    } else if op == 0x7 {
        Instruction::AddImm { x, kk }
    } else if op == 0x8 {
        if n == 0x0 {
            Instruction::CopyReg { x, y }
        } else if n == 0x1 {
            Instruction::OrReg { x, y }
        } else if n == 0x2 {
            Instruction::AndReg { x, y }
        } else if n == 0x3 {
            Instruction::XorReg { x, y }
        } else if n == 0x4 {
            Instruction::AddReg { x, y }
        } else if n == 0x5 {
            Instruction::SubXY { x, y }
        } else if n == 0x6 {
            Instruction::ShiftRight { x }
        } else if n == 0x7 {
            Instruction::SubYX { x, y }
        } else if n == 0xE {
            Instruction::ShiftLeft { x }
        } else {
            Instruction::Unknown
        }
    } else if op == 0x9 {
        if n == 0x0 {
            Instruction::SkipNeReg { x, y }
        } else {
            Instruction::Unknown
        }
    } else if op == 0xA {
        Instruction::LoadI { nnn }
    } else if op == 0xB {
        Instruction::JumpV0 { nnn }
    } else if op == 0xC {
        Instruction::Random { x, kk }
    } else if op == 0xD {
        Instruction::Draw { x, y, n }
    } else if op == 0xE {
        if kk == 0x9E {
            Instruction::SkipIfKey { x }
        } else if kk == 0xA1 {
            Instruction::SkipIfNoKey { x }
        } else {
            Instruction::Unknown
        }
    } else {
        if kk == 0x07 {
            Instruction::ReadDelay { x }
        } else if kk == 0x0A {
            Instruction::WaitKey { x }
        } else if kk == 0x15 {
            Instruction::SetDelay { x }
        } else if kk == 0x18 {
            Instruction::SetSound { x }
        } else if kk == 0x1E {
            Instruction::AddI { x }
        } else if kk == 0x29 {
            Instruction::LoadFont { x }
        } else if kk == 0x33 {
            Instruction::StoreBcd { x }
        } else if kk == 0x55 {
            Instruction::StoreRegs { x }
        } else if kk == 0x65 {
            Instruction::LoadRegs { x }
        } else {
            Instruction::Unknown
        }
    }
}

/// Decode the instruction word `w`.
pub fn decode(w: u16) -> (r: Instruction)
    ensures
        r == spec_decode(w),
{
    let op = nibble(&w, 3);
    let x = nibble(&w, 2);
    let y = nibble(&w, 1);
    let n = nibble(&w, 0);
    let kk = (w % 256) as u8;
    let nnn = (w % 4096) as u16;
    match op {
        0x0 => {
            if nnn == 0x0E0 {
                Instruction::ClearScreen
            } else if nnn == 0x0EE {
                Instruction::Return
            } else {
                Instruction::Unknown
            }
        },
        0x1 => Instruction::Jump { nnn },
        0x2 => Instruction::Call { nnn },
        0x3 => Instruction::SkipEqImm { x, kk },
        0x4 => Instruction::SkipNeImm { x, kk },
        0x5 => {
            if n == 0x0 {
                Instruction::SkipEqReg { x, y }
            } else {
                Instruction::Unknown
            }
        },
        0x6 => Instruction::LoadImm { x, kk },
        0x7 => Instruction::AddImm { x, kk },
        0x8 => {
            match n {
                0x0 => Instruction::CopyReg { x, y },
                0x1 => Instruction::OrReg { x, y },
                0x2 => Instruction::AndReg { x, y },
                0x3 => Instruction::XorReg { x, y },
                0x4 => Instruction::AddReg { x, y },
                0x5 => Instruction::SubXY { x, y },
                0x6 => Instruction::ShiftRight { x },
                0x7 => Instruction::SubYX { x, y },
                0xE => Instruction::ShiftLeft { x },
                _ => Instruction::Unknown,
            }
        },
        0x9 => {
            if n == 0x0 {
                Instruction::SkipNeReg { x, y }
            } else {
                Instruction::Unknown
            }
        },
        0xA => Instruction::LoadI { nnn },
        0xB => Instruction::JumpV0 { nnn },
        0xC => Instruction::Random { x, kk },
        0xD => Instruction::Draw { x, y, n },
        0xE => {
            if kk == 0x9E {
                Instruction::SkipIfKey { x }
            } else if kk == 0xA1 {
                Instruction::SkipIfNoKey { x }
            } else {
                Instruction::Unknown
            }
        },
        _ => {
            match kk {
                0x07 => Instruction::ReadDelay { x },
                0x0A => Instruction::WaitKey { x },
                0x15 => Instruction::SetDelay { x },
                0x18 => Instruction::SetSound { x },
                0x1E => Instruction::AddI { x },
                0x29 => Instruction::LoadFont { x },
                0x33 => Instruction::StoreBcd { x },
                0x55 => Instruction::StoreRegs { x },
                0x65 => Instruction::LoadRegs { x },
                _ => Instruction::Unknown,
            }
        },
    }
}

/// Decoding is a pure function of the instruction word: equal words decode
/// to equal instructions, whatever the surrounding machine state.
pub proof fn lemma_decode_pure(w1: u16, w2: u16)
    requires
        w1 == w2,
    ensures
        spec_decode(w1) == spec_decode(w2),
{
}

} // verus!
