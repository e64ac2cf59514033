//! The machine state: registers, memory, call stack, timers, display.
//!
//! [`Chip8`] is the executable state; [`CoreView`] is its mathematical view,
//! over which every contract speaks. [`CoreView::wf`] is the state invariant:
//! fixed sizes for every store, a stack pointer of at most 16, and a program
//! counter inside the 4 KB address space (jump targets are 12-bit, and every
//! program-counter write stays reduced modulo 4096).

use vstd::prelude::*;

verus! {

use crate::Chip8Error;
use crate::input::InputHandler;

/// Bytes of addressable memory.
pub const MEMORY_SIZE: usize = 4096;

/// First address of a loaded program.
pub const PROGRAM_START: usize = 0x200;

/// First address of the font table.
pub const FONT_START: usize = 0x50;

/// Largest ROM that fits between the program start and the end of memory.
pub const MAX_ROM_LEN: usize = MEMORY_SIZE - PROGRAM_START;

/// Display width in pixels.
pub const SCREEN_WIDTH: usize = 64;

/// Display height in pixels.
pub const SCREEN_HEIGHT: usize = 32;

/// Number of display cells, row-major.
pub const SCREEN_CELLS: usize = SCREEN_WIDTH * SCREEN_HEIGHT;

/// The 80-byte font table: sixteen glyphs of five rows each; glyph `k`
/// occupies bytes `[5k, 5k + 5)`.
pub const FONTSET: [u8; 80] = [
    0xF0, 0x90, 0x90, 0x90, 0xF0,
    0x20, 0x60, 0x20, 0x20, 0x70,
    0xF0, 0x10, 0xF0, 0x80, 0xF0,
    0xF0, 0x10, 0xF0, 0x10, 0xF0,
    0x90, 0x90, 0xF0, 0x10, 0x10,
    0xF0, 0x80, 0xF0, 0x10, 0xF0,
    0xF0, 0x80, 0xF0, 0x90, 0xF0,
    0xF0, 0x10, 0x20, 0x40, 0x40,
    0xF0, 0x90, 0xF0, 0x90, 0xF0,
    0xF0, 0x90, 0xF0, 0x10, 0xF0,
    0xF0, 0x90, 0xF0, 0x90, 0x90,
    0xE0, 0x90, 0xE0, 0x90, 0xE0,
    0xF0, 0x80, 0x80, 0x80, 0xF0,
    0xE0, 0x90, 0x90, 0x90, 0xE0,
    0xF0, 0x80, 0xF0, 0x80, 0xF0,
    0xF0, 0x80, 0xF0, 0x80, 0x80,
];

/// The mathematical view of the machine state.
#[verifier::ext_equal]
pub struct CoreView {
    /// General registers `V0..=VF`.
    pub regs: Seq<u8>,
    /// The address register `I`.
    pub i: u16,
    /// The program counter.
    pub pc: u16,
    /// The stack pointer: number of return addresses on the stack.
    pub sp: u16,
    /// The sixteen return-address slots.
    pub stack: Seq<u16>,
    /// The delay timer.
    pub delay: u8,
    /// The sound timer.
    pub sound: u8,
    /// The sixteen logical keys, `true` when pressed.
    pub keys: Seq<bool>,
    /// The 4096 bytes of memory.
    pub mem: Seq<u8>,
    /// The 64x32 display, row-major, `true` for a lit pixel.
    pub disp: Seq<bool>,
    /// Whether a clear or draw happened since the flag was last taken.
    pub draw: bool,
}

impl CoreView {
    /// The state invariant: fixed sizes, bounded stack pointer, program
    /// counter and stacked return addresses inside the address space.
    pub open spec fn wf(self) -> bool {
        &&& self.regs.len() == 16
        &&& self.stack.len() == 16
        &&& self.keys.len() == 16
        &&& self.mem.len() == MEMORY_SIZE
        &&& self.disp.len() == SCREEN_CELLS
        &&& self.sp <= 16
        &&& self.pc < MEMORY_SIZE
        &&& forall|k: int| 0 <= k < 16 ==> self.stack[k] < MEMORY_SIZE
    }
}

/// The CHIP-8 machine.
pub struct Chip8 {
    /// General registers `V0..=VF`; always sixteen entries.
    pub registers: Vec<u8>,
    /// The address register `I`.
    pub i: u16,
    /// The program counter.
    pub pc: u16,
    /// The stack pointer.
    pub sp: u16,
    /// Return-address slots; always sixteen entries.
    pub stack: Vec<u16>,
    /// The delay timer.
    pub delay_timer: u8,
    /// The sound timer.
    pub sound_timer: u8,
    /// The 4096 bytes of memory.
    pub memory: Vec<u8>,
    /// The key matrix.
    pub input_handler: InputHandler,
    /// Set by clear and draw; taken by the scheduler before a render signal.
    pub draw_flag: bool,
    /// The display, row-major, `SCREEN_CELLS` cells.
    pub display: Vec<bool>,
}

impl View for Chip8 {
    type V = CoreView;

    open spec fn view(&self) -> CoreView {
        CoreView {
            regs: self.registers@,
            i: self.i,
            pc: self.pc,
            sp: self.sp,
            stack: self.stack@,
            delay: self.delay_timer,
            sound: self.sound_timer,
            keys: self.input_handler@,
            mem: self.memory@,
            disp: self.display@,
            draw: self.draw_flag,
        }
    }
}

/// A vector of `n` copies of `value`.
fn filled<T: Copy>(value: T, n: usize) -> (v: Vec<T>)
    ensures
        v@.len() == n,
        forall|k: int| 0 <= k < n ==> v@[k] == value,
{
    let mut v: Vec<T> = Vec::new();
    let mut i: usize = 0;
    while i < n
        invariant
            i <= n,
            v@.len() == i,
            forall|k: int| 0 <= k < i ==> v@[k] == value,
        decreases n - i,
    {
        v.push(value);
        i = i + 1;
    }
    v
}

/// Copy all of `src` into `dst` starting at index `at`; the rest of `dst`
/// keeps its contents.
fn copy_into(dst: &mut Vec<u8>, at: usize, src: &Vec<u8>)
    requires
        at + src@.len() <= old(dst)@.len(),
    ensures
        final(dst)@.len() == old(dst)@.len(),
        forall|j: int| 0 <= j < src@.len() ==> final(dst)@[at + j] == src@[j],
        forall|a: int|
            0 <= a < old(dst)@.len() && !(at <= a < at + src@.len()) ==> final(dst)@[a] == old(
                dst,
            )@[a],
{
    let dst_len: usize = dst.len();
    let mut j: usize = 0;
    while j < src.len()
        invariant
            j <= src@.len(),
            at + src@.len() <= old(dst)@.len(),
            dst@.len() == old(dst)@.len(),
            dst@.len() == dst_len,
            forall|k: int| 0 <= k < j ==> dst@[at + k] == src@[k],
            forall|a: int|
                0 <= a < old(dst)@.len() && !(at <= a < at + j) ==> dst@[a] == old(dst)@[a],
        decreases src@.len() - j,
    {
        dst[at + j] = src[j];
        j = j + 1;
    }
}

/// A vector holding the 80 font bytes.
pub fn font_table() -> (v: Vec<u8>)
    ensures
        v@.len() == 80,
        forall|j: int| 0 <= j < 80 ==> v@[j] == FONTSET@[j],
{
    let mut v: Vec<u8> = Vec::new();
    let mut i: usize = 0;
    while i < 80
        invariant
            i <= 80,
            v@.len() == i,
            forall|j: int| 0 <= j < i ==> v@[j] == FONTSET@[j],
        decreases 80 - i,
    {
        v.push(FONTSET[i]);
        i = i + 1;
    }
    v
}

impl Chip8 {
    /// A machine with every store zeroed, the display dark, all keys
    /// released, and the program counter at zero; `init` places the program
    /// counter and the font.
    pub fn new() -> (c: Chip8)
        ensures
            c@.wf(),
            forall|k: int| 0 <= k < 16 ==> c@.regs[k] == 0,
            c@.i == 0,
            c@.pc == 0,
            c@.sp == 0,
            forall|k: int| 0 <= k < 16 ==> c@.stack[k] == 0,
            c@.delay == 0,
            c@.sound == 0,
            forall|k: int| 0 <= k < 16 ==> !c@.keys[k],
            forall|a: int| 0 <= a < MEMORY_SIZE ==> c@.mem[a] == 0,
            forall|p: int| 0 <= p < SCREEN_CELLS ==> !c@.disp[p],
            !c@.draw,
    {
        Chip8 {
            registers: filled(0u8, 16),
            i: 0,
            pc: 0,
            sp: 0,
            stack: filled(0u16, 16),
            delay_timer: 0,
            sound_timer: 0,
            memory: filled(0u8, MEMORY_SIZE),
            input_handler: InputHandler::new(),
            draw_flag: false,
            display: filled(false, SCREEN_CELLS),
        }
    }

    /// Point the program counter at the program start, reset the stack
    /// pointer, and write the font table at `FONT_START`. Everything else
    /// keeps its contents.
    pub fn init(&mut self)
        requires
            old(self)@.wf(),
        ensures
            final(self)@.wf(),
            final(self)@.pc == PROGRAM_START,
            final(self)@.sp == 0,
            forall|j: int| 0 <= j < 80 ==> final(self)@.mem[FONT_START + j] == FONTSET@[j],
            forall|a: int|
                0 <= a < MEMORY_SIZE && !(FONT_START <= a < FONT_START + 80) ==> final(self)@.mem[a]
                    == old(self)@.mem[a],
            final(self)@.regs == old(self)@.regs,
            final(self)@.i == old(self)@.i,
            final(self)@.stack == old(self)@.stack,
            final(self)@.delay == old(self)@.delay,
            final(self)@.sound == old(self)@.sound,
            final(self)@.keys == old(self)@.keys,
            final(self)@.disp == old(self)@.disp,
            final(self)@.draw == old(self)@.draw,
    {
        self.pc = 0x200;
        self.sp = 0;
        let font = font_table();
        copy_into(&mut self.memory, FONT_START, &font);
    }

    /// Load a program image at `PROGRAM_START` and report the byte count;
    /// an image longer than `MAX_ROM_LEN` bytes is refused with
    /// `RomTooLarge` and the machine is left untouched.
    pub fn load_rom(&mut self, rom: &Vec<u8>) -> (r: Result<usize, Chip8Error>)
        requires
            old(self)@.wf(),
        ensures
            final(self)@.wf(),
            rom@.len() > MAX_ROM_LEN ==> r == Err::<usize, Chip8Error>(Chip8Error::RomTooLarge)
                && final(self)@ == old(self)@,
            rom@.len() <= MAX_ROM_LEN ==> {
                &&& r == Ok::<usize, Chip8Error>(rom@.len() as usize)
                &&& forall|j: int| 0 <= j < rom@.len() ==> final(self)@.mem[PROGRAM_START + j] == rom@[j]
                &&& forall|a: int|
                    0 <= a < MEMORY_SIZE && !(PROGRAM_START <= a < PROGRAM_START + rom@.len())
                        ==> final(self)@.mem[a] == old(self)@.mem[a]
                &&& final(self)@ == (CoreView { mem: final(self)@.mem, ..old(self)@ })
            },
    {
        if rom.len() > MAX_ROM_LEN {
            return Err(Chip8Error::RomTooLarge);
        }
        copy_into(&mut self.memory, PROGRAM_START, rom);
        Ok(rom.len())
    }

    /// The value of register `regi`.
    pub fn get_register_data(&self, regi: &u8) -> (r: u8)
        requires
            self@.wf(),
            *regi < 16,
        ensures
            r == self@.regs[*regi as int],
    {
        self.registers[*regi as usize]
    }

    /// Write `data` to register `regi`; an index of 16 or more is refused
    /// with `RegisterIndexOverflow` and changes nothing. The decoder only
    /// produces indices below 16, so the refusal is defensive.
    pub fn register(&mut self, regi: u8, data: u8) -> (r: Result<(), Chip8Error>)
        requires
            old(self)@.wf(),
        ensures
            final(self)@.wf(),
            regi < 16 ==> r == Ok::<(), Chip8Error>(()) && final(self)@ == (CoreView {
                regs: old(self)@.regs.update(regi as int, data),
                ..old(self)@
            }),
            regi >= 16 ==> r == Err::<(), Chip8Error>(Chip8Error::RegisterIndexOverflow) && final(self)@
                == old(self)@,
    {
        if regi >= 16 {
            return Err(Chip8Error::RegisterIndexOverflow);
        }
        self.registers[regi as usize] = data;
        Ok(())
    }

    /// Push a return address; with sixteen addresses already stacked the
    /// push is refused with `StackOverflow` and changes nothing.
    pub fn push(&mut self, data: u16) -> (r: Result<(), Chip8Error>)
        requires
            old(self)@.wf(),
            data < MEMORY_SIZE,
        ensures
            final(self)@.wf(),
            old(self)@.sp < 16 ==> r == Ok::<(), Chip8Error>(()) && final(self)@ == (CoreView {
                stack: old(self)@.stack.update(old(self)@.sp as int, data),
                sp: (old(self)@.sp + 1) as u16,
                ..old(self)@
            }),
            old(self)@.sp >= 16 ==> r == Err::<(), Chip8Error>(Chip8Error::StackOverflow) && final(self)@
                == old(self)@,
    {
        if self.sp >= 16 {
            return Err(Chip8Error::StackOverflow);
        }
        self.stack[self.sp as usize] = data;
        self.sp = self.sp + 1;
        Ok(())
    }

    /// Pop the most recent return address; with an empty stack the pop
    /// reports `None` and changes nothing.
    pub fn pop(&mut self) -> (r: Option<u16>)
        requires
            old(self)@.wf(),
        ensures
            final(self)@.wf(),
            old(self)@.sp > 0 ==> r == Some(old(self)@.stack[old(self)@.sp - 1]) && final(self)@
                == (CoreView { sp: (old(self)@.sp - 1) as u16, ..old(self)@ }),
            old(self)@.sp == 0 ==> r == None::<u16> && final(self)@ == old(self)@,
            r matches Some(addr) ==> addr < MEMORY_SIZE,
    {
        if self.sp == 0 {
            return None;
        }
        self.sp = self.sp - 1;
        Some(self.stack[self.sp as usize])
    }

    /// Decrement each timer that is above zero; both floor at zero.
    pub fn tick_timers(&mut self)
        requires
            old(self)@.wf(),
        ensures
            final(self)@.wf(),
            final(self)@ == (CoreView {
                delay: if old(self)@.delay > 0 {
                    (old(self)@.delay - 1) as u8
                } else {
                    0u8
                },
                sound: if old(self)@.sound > 0 {
                    (old(self)@.sound - 1) as u8
                } else {
                    0u8
                },
                ..old(self)@
            }),
    {
        if self.delay_timer > 0 {
            self.delay_timer = self.delay_timer - 1;
        }
        if self.sound_timer > 0 {
            self.sound_timer = self.sound_timer - 1;
        }
    }

    /// Apply one key transition: mark logical key `key` pressed or
    /// released. A code of 16 or more is ignored.
    pub fn handle_key(&mut self, key: u8, pressed: bool)
        requires
            old(self)@.wf(),
        ensures
            final(self)@.wf(),
            key < 16 ==> final(self)@ == (CoreView {
                keys: old(self)@.keys.update(key as int, pressed),
                ..old(self)@
            }),
            key >= 16 ==> final(self)@ == old(self)@,
    {
        if pressed {
            self.input_handler.key_pressed(key);
        } else {
            self.input_handler.key_released(key);
        }
    }

    /// Whether a clear or draw happened since the flag was last taken.
    pub fn draw_pending(&self) -> (r: bool)
        ensures
            r == self@.draw,
    {
        self.draw_flag
    }

    /// Report whether a clear or draw happened since the last call, and
    /// lower the flag.
    pub fn take_draw_flag(&mut self) -> (r: bool)
        requires
            old(self)@.wf(),
        ensures
            final(self)@.wf(),
            r == old(self)@.draw,
            final(self)@ == (CoreView { draw: false, ..old(self)@ }),
    {
        let r = self.draw_flag;
        self.draw_flag = false;
        r
    }

    /// A copy of the display as 0/1 cells, row-major, for the renderer.
    pub fn display_snapshot(&self) -> (v: Vec<u8>)
        requires
            self@.wf(),
        ensures
            v@.len() == SCREEN_CELLS,
            forall|p: int|
                0 <= p < SCREEN_CELLS ==> v@[p] == (if self@.disp[p] {
                    1u8
                } else {
                    0u8
                }),
    {
        let mut v: Vec<u8> = Vec::new();
        let mut p: usize = 0;
        while p < SCREEN_CELLS
            invariant
                p <= SCREEN_CELLS,
                self@.wf(),
                v@.len() == p,
                forall|q: int|
                    0 <= q < p ==> v@[q] == (if self@.disp[q] {
                        1u8
                    } else {
                        0u8
                    }),
            decreases SCREEN_CELLS - p,
        {
            if self.display[p] {
                v.push(1u8);
            } else {
                v.push(0u8);
            }
            p = p + 1;
        }
        v
    }
}

} // verus!
