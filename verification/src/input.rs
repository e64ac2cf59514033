//! The 16-key input matrix and the physical-to-logical key map.
//!
//! CHIP-8 programs see sixteen logical keys `0x0..=0xF`. The host feeds the
//! matrix through `key_pressed` / `key_released` with logical key codes; a
//! fixed map assigns the sixteen physical keys of the conventional layout
//! (`1234` / `QWER` / `ASDF` / `ZXCV`) to logical codes. Out-of-range codes
//! never fault: presses of unknown keys are ignored and `is_key_pressed`
//! answers `false` for a code of 16 or more.

use vstd::prelude::*;

verus! {

/// The sixteen physical keys of the conventional CHIP-8 host layout.
#[derive(Clone, Copy, Debug, PartialEq, Eq, Structural)]
pub enum PhysKey {
    Digit1,
    Digit2,
    Digit3,
    Digit4,
    KeyQ,
    KeyW,
    KeyE,
    KeyR,
    KeyA,
    KeyS,
    KeyD,
    KeyF,
    KeyZ,
    KeyX,
    KeyC,
    KeyV,
}

/// The logical key assigned to each physical key:
/// `1,2,3,4` to `1,2,3,C`; `Q,W,E,R` to `4,5,6,D`;
/// `A,S,D,F` to `7,8,9,E`; `Z,X,C,V` to `A,0,B,F`.
pub open spec fn spec_map_key(k: PhysKey) -> u8 {
    match k {
        PhysKey::Digit1 => 0x1,
        PhysKey::Digit2 => 0x2,
        PhysKey::Digit3 => 0x3,
        PhysKey::Digit4 => 0xC,
        PhysKey::KeyQ => 0x4,
        PhysKey::KeyW => 0x5,
        PhysKey::KeyE => 0x6,
        PhysKey::KeyR => 0xD,
        PhysKey::KeyA => 0x7,
        PhysKey::KeyS => 0x8,
        PhysKey::KeyD => 0x9,
        PhysKey::KeyF => 0xE,
        PhysKey::KeyZ => 0xA,
        PhysKey::KeyX => 0x0,
        PhysKey::KeyC => 0xB,
        PhysKey::KeyV => 0xF,
    }
}

/// Map a physical key to its logical CHIP-8 key code.
pub fn map_key(k: PhysKey) -> (r: u8)
    ensures
        r == spec_map_key(k),
        r < 16,
{
    match k {
        PhysKey::Digit1 => 0x1,
        PhysKey::Digit2 => 0x2,
        PhysKey::Digit3 => 0x3,
        PhysKey::Digit4 => 0xC,
        PhysKey::KeyQ => 0x4,
        PhysKey::KeyW => 0x5,
        PhysKey::KeyE => 0x6,
        PhysKey::KeyR => 0xD,
        PhysKey::KeyA => 0x7,
        PhysKey::KeyS => 0x8,
        PhysKey::KeyD => 0x9,
        PhysKey::KeyF => 0xE,
        PhysKey::KeyZ => 0xA,
        PhysKey::KeyX => 0x0,
        PhysKey::KeyC => 0xB,
        PhysKey::KeyV => 0xF,
    }
}

/// Whether logical key `key` reads as pressed in the matrix `keys`:
/// `false` for any code of 16 or more.
pub open spec fn spec_key_pressed(keys: Seq<bool>, key: u8) -> bool {
    key < 16 && keys[key as int]
}

/// The pressed/released state of the sixteen logical keys.
pub struct InputHandler {
    pub keypad: Vec<bool>,
}

impl View for InputHandler {
    type V = Seq<bool>;

    open spec fn view(&self) -> Seq<bool> {
        self.keypad@
    }
}

impl InputHandler {
    /// The matrix always holds exactly sixteen keys.
    pub open spec fn wf(self) -> bool {
        self@.len() == 16
    }

    /// A matrix with every key released.
    pub fn new() -> (h: InputHandler)
        ensures
            h.wf(),
            forall|k: int| 0 <= k < 16 ==> !h@[k],
    {
        let mut keypad: Vec<bool> = Vec::new();
        let mut i: usize = 0;
        while i < 16
            invariant
                i <= 16,
                keypad@.len() == i,
                forall|k: int| 0 <= k < i ==> !keypad@[k],
            decreases 16 - i,
        {
            keypad.push(false);
            i = i + 1;
        }
        InputHandler { keypad }
    }

    /// Mark logical key `key` pressed; a code of 16 or more is ignored.
    pub fn key_pressed(&mut self, key: u8)
        requires
            old(self).wf(),
        ensures
            final(self).wf(),
            key < 16 ==> final(self)@ == old(self)@.update(key as int, true),
            key >= 16 ==> final(self)@ == old(self)@,
    {
        if key < 16 {
            self.keypad[key as usize] = true;
        }
    }

    /// Mark logical key `key` released; a code of 16 or more is ignored.
    pub fn key_released(&mut self, key: u8)
        requires
            old(self).wf(),
        ensures
            final(self).wf(),
            key < 16 ==> final(self)@ == old(self)@.update(key as int, false),
            key >= 16 ==> final(self)@ == old(self)@,
    {
        if key < 16 {
            self.keypad[key as usize] = false;
        }
    }

    /// Whether logical key `key` is pressed; `false` for a code of 16 or
    /// more, so an out-of-range register value never faults an opcode.
    pub fn is_key_pressed(&self, key: u8) -> (r: bool)
        requires
            self.wf(),
        ensures
            r == spec_key_pressed(self@, key),
    {
        if key < 16 {
            self.keypad[key as usize]
        } else {
            false
        }
    }
}

} // verus!
