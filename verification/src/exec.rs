//! The executor: each instruction's executable form, proved against
//! [`spec_step`], and the whole fetch-advance-decode-execute cycle, proved
//! against [`spec_cycle`].

use vstd::prelude::*;

verus! {

use crate::Chip8Error;
use crate::cpu::{Chip8, CoreView};
use crate::draw::{
    draw_hits_before, lemma_hits_full, lemma_hits_none, lemma_hits_row_roll,
    lemma_hits_step, lemma_vf_full, lemma_vf_none, lemma_vf_row_roll, lemma_vf_step, spec_draw_disp,
    spec_draw_vf, sprite_row, vf_upto,
};
use crate::isa::{decode, Instruction, spec_decode};
use crate::rng::random_byte;
use crate::step::{
    instr_wf, spec_advance, spec_cycle, spec_cycle_err, spec_fetch, spec_first_pressed,
    spec_load_regs, spec_step, spec_step_err, spec_store_bcd, spec_store_regs, wrap_pc,
};
use vstd::arithmetic::div_mod::{lemma_mod_add_multiples_vanish, lemma_small_mod};

/// The decoder only produces well-formed instructions: register indices
/// below 16, addresses below 4096.
pub proof fn lemma_decode_wf(w: u16)
    ensures
        instr_wf(spec_decode(w)),
{
}

impl Chip8 {
    /// The big-endian instruction word at the program counter.
    pub fn fetch(&self) -> (w: u16)
        requires
            self@.wf(),
        ensures
            w == spec_fetch(self@),
    {
        let hi = self.memory[self.pc as usize] as u16;
        let lo = self.memory[(self.pc as usize + 1) % 4096] as u16;
        hi * 256 + lo
    }

    /// Clear every display cell and raise the draw flag.
    fn op_clear(&mut self)
        requires
            old(self)@.wf(),
        ensures
            final(self)@.wf(),
            final(self)@ == (CoreView {
                disp: Seq::new(old(self)@.disp.len(), |p: int| false),
                draw: true,
                ..old(self)@
            }),
    {
        let mut p: usize = 0;
        while p < 2048
            invariant
                old(self)@.wf(),
                p <= 2048,
                self.display@.len() == 2048,
                forall|q: int| 0 <= q < p ==> !self.display@[q],
                self.registers@ == old(self).registers@,
                self.i == old(self).i,
                self.pc == old(self).pc,
                self.sp == old(self).sp,
                self.stack@ == old(self).stack@,
                self.delay_timer == old(self).delay_timer,
                self.sound_timer == old(self).sound_timer,
                self.input_handler@ == old(self).input_handler@,
                self.memory@ == old(self).memory@,
                self.draw_flag == old(self).draw_flag,
            decreases 2048 - p,
        {
            self.display[p] = false;
            p = p + 1;
        }
        self.draw_flag = true;
        proof {
            assert(self.display@ =~= Seq::new(old(self)@.disp.len(), |q: int| false));
        }
    }

    /// Blit the `n`-row sprite at `I` to `(VX, VY)`, XOR-wise with wrapping
    /// coordinates; `VF` reports whether any lit cell was toggled off.
    fn op_draw(&mut self, x: u8, y: u8, n: u8)
        requires
            old(self)@.wf(),
            x < 16,
            y < 16,
            n < 16,
        ensures
            final(self)@.wf(),
            final(self)@ == (CoreView {
                disp: spec_draw_disp(
                    old(self)@.disp,
                    old(self)@.mem,
                    old(self)@.i,
                    old(self)@.regs[x as int],
                    old(self)@.regs[y as int],
                    n,
                ),
                regs: old(self)@.regs.update(
                    15,
                    if spec_draw_vf(
                        old(self)@.disp,
                        old(self)@.mem,
                        old(self)@.i,
                        old(self)@.regs[x as int],
                        old(self)@.regs[y as int],
                        n,
                    ) {
                        1u8
                    } else {
                        0u8
                    },
                ),
                draw: true,
                ..old(self)@
            }),
    {
        let ghost d0 = self@.disp;
        let ghost m0 = self@.mem;
        let ghost i0 = self@.i;
        let vx = self.registers[x as usize];
        let vy = self.registers[y as usize];
        let mut vf: u8 = 0;
        proof {
            lemma_hits_none(m0, i0, vx, vy);
            lemma_vf_none(d0, m0, i0, vx, vy);
        }
        let mut row: usize = 0;
        while row < n as usize
            invariant
                old(self)@.wf(),
                x < 16,
                y < 16,
                n < 16,
                row <= n as usize,
                vx == old(self)@.regs[x as int],
                vy == old(self)@.regs[y as int],
                d0 == old(self)@.disp,
                m0 == old(self)@.mem,
                i0 == old(self)@.i,
                self.display@.len() == 2048,
                self.registers@ == old(self).registers@,
                self.i == old(self).i,
                self.pc == old(self).pc,
                self.sp == old(self).sp,
                self.stack@ == old(self).stack@,
                self.delay_timer == old(self).delay_timer,
                self.sound_timer == old(self).sound_timer,
                self.input_handler@ == old(self).input_handler@,
                self.memory@ == old(self).memory@,
                self.draw_flag == old(self).draw_flag,
                forall|p: int|
                    0 <= p < 2048 ==> self.display@[p] == (if draw_hits_before(
                        m0,
                        i0,
                        vx,
                        vy,
                        row as int,
                        0,
                        p,
                    ) {
                        !d0[p]
                    } else {
                        d0[p]
                    }),
                (vf == 1) == vf_upto(d0, m0, i0, vx, vy, row as int, 0),
                vf == 0 || vf == 1,
            decreases n as usize - row,
        {
            let addr = (self.i as usize + row) % 4096;
            let sprite = self.memory[addr];
            proof {
                assert(sprite == sprite_row(m0, i0, row as int));
            }
            let mut col: usize = 0;
            while col < 8
                invariant
                    old(self)@.wf(),
                    x < 16,
                    y < 16,
                    n < 16,
                    row < n as usize,
                    col <= 8,
                    vx == old(self)@.regs[x as int],
                    vy == old(self)@.regs[y as int],
                    d0 == old(self)@.disp,
                    m0 == old(self)@.mem,
                    i0 == old(self)@.i,
                    sprite == sprite_row(m0, i0, row as int),
                    self.display@.len() == 2048,
                    self.registers@ == old(self).registers@,
                    self.i == old(self).i,
                    self.pc == old(self).pc,
                    self.sp == old(self).sp,
                    self.stack@ == old(self).stack@,
                    self.delay_timer == old(self).delay_timer,
                    self.sound_timer == old(self).sound_timer,
                    self.input_handler@ == old(self).input_handler@,
                    self.memory@ == old(self).memory@,
                    self.draw_flag == old(self).draw_flag,
                    forall|p: int|
                        0 <= p < 2048 ==> self.display@[p] == (if draw_hits_before(
                            m0,
                            i0,
                            vx,
                            vy,
                            row as int,
                            col as int,
                            p,
                        ) {
                            !d0[p]
                        } else {
                            d0[p]
                        }),
                    (vf == 1) == vf_upto(d0, m0, i0, vx, vy, row as int, col as int),
                    vf == 0 || vf == 1,
                decreases 8 - col,
            {
                proof {
                    lemma_hits_step(m0, i0, vx, vy, row as int, col as int);
                    lemma_vf_step(d0, m0, i0, vx, vy, row as int, col as int);
                }
                let sh: u8 = (7 - col) as u8;
                if (sprite >> sh) & 1 == 1 {
                    let px = (vx as usize + col) % 64;
                    let py = (vy as usize + row) % 32;
                    let idx = py * 64 + px;
                    let cur = self.display[idx];
                    if cur {
                        vf = 1;
                    }
                    self.display[idx] = !cur;
                }
                col = col + 1;
            }
            proof {
                lemma_hits_row_roll(m0, i0, vx, vy, row as int);
                lemma_vf_row_roll(d0, m0, i0, vx, vy, row as int);
            }
            row = row + 1;
        }
        proof {
            lemma_hits_full(m0, i0, vx, vy, n);
            lemma_vf_full(d0, m0, i0, vx, vy, n);
        }
        self.draw_flag = true;
        self.registers[15] = vf;
        proof {
            assert(self.display@ =~= spec_draw_disp(d0, m0, i0, vx, vy, n));
        }
    }

    /// Write the three decimal digits of `VX` at `I`, `I + 1`, `I + 2`,
    /// wrapping inside the address space.
    fn op_store_bcd(&mut self, x: u8)
        requires
            old(self)@.wf(),
            x < 16,
        ensures
            final(self)@.wf(),
            final(self)@ == (CoreView {
                mem: spec_store_bcd(old(self)@.mem, old(self)@.i, old(self)@.regs[x as int]),
                ..old(self)@
            }),
    {
        let vx = self.registers[x as usize];
        let base = self.i as usize;
        self.memory[base % 4096] = vx / 100;
        self.memory[(base + 1) % 4096] = (vx / 10) % 10;
        self.memory[(base + 2) % 4096] = vx % 10;
    }

    /// Copy `V0..=VX` into memory at `I`, then advance `I` by `X + 1`.
    fn op_store_regs(&mut self, x: u8)
        requires
            old(self)@.wf(),
            x < 16,
        ensures
            final(self)@.wf(),
            final(self)@ == (CoreView {
                mem: spec_store_regs(old(self)@.mem, old(self)@.i, old(self)@.regs, x + 1),
                i: ((old(self)@.i + x + 1) % 0x10000) as u16,
                ..old(self)@
            }),
    {
        let ghost m0 = self@.mem;
        let ghost i0 = self@.i;
        let ghost regs0 = self@.regs;
        let count = x as usize + 1;
        let mut k: usize = 0;
        while k < count
            invariant
                old(self)@.wf(),
                x < 16,
                count == x as usize + 1,
                k <= count,
                m0 == old(self)@.mem,
                i0 == old(self)@.i,
                regs0 == old(self)@.regs,
                self.registers@ == old(self).registers@,
                self.i == old(self).i,
                self.pc == old(self).pc,
                self.sp == old(self).sp,
                self.stack@ == old(self).stack@,
                self.delay_timer == old(self).delay_timer,
                self.sound_timer == old(self).sound_timer,
                self.input_handler@ == old(self).input_handler@,
                self.display@ == old(self).display@,
                self.draw_flag == old(self).draw_flag,
                self.memory@.len() == 4096,
                self.memory@ == spec_store_regs(m0, i0, regs0, k as int),
            decreases count - k,
        {
            let addr = (self.i as usize + k) % 4096;
            self.memory[addr] = self.registers[k];
            k = k + 1;
        }
        self.i = ((self.i as u32 + x as u32 + 1) % 0x10000) as u16;
    }

    /// Load `V0..=VX` from memory at `I`, then advance `I` by `X + 1`.
    fn op_load_regs(&mut self, x: u8)
        requires
            old(self)@.wf(),
            x < 16,
        ensures
            final(self)@.wf(),
            final(self)@ == (CoreView {
                regs: spec_load_regs(old(self)@.regs, old(self)@.i, old(self)@.mem, x + 1),
                i: ((old(self)@.i + x + 1) % 0x10000) as u16,
                ..old(self)@
            }),
    {
        let ghost m0 = self@.mem;
        let ghost i0 = self@.i;
        let ghost regs0 = self@.regs;
        let count = x as usize + 1;
        let mut k: usize = 0;
        while k < count
            invariant
                old(self)@.wf(),
                x < 16,
                count == x as usize + 1,
                k <= count,
                m0 == old(self)@.mem,
                i0 == old(self)@.i,
                regs0 == old(self)@.regs,
                self.memory@ == old(self).memory@,
                self.i == old(self).i,
                self.pc == old(self).pc,
                self.sp == old(self).sp,
                self.stack@ == old(self).stack@,
                self.delay_timer == old(self).delay_timer,
                self.sound_timer == old(self).sound_timer,
                self.input_handler@ == old(self).input_handler@,
                self.display@ == old(self).display@,
                self.draw_flag == old(self).draw_flag,
                self.registers@.len() == 16,
                self.registers@ == spec_load_regs(regs0, i0, m0, k as int),
            decreases count - k,
        {
            let addr = (self.i as usize + k) % 4096;
            self.registers[k] = self.memory[addr];
            k = k + 1;
        }
        self.i = ((self.i as u32 + x as u32 + 1) % 0x10000) as u16;
    }

    /// Scan for the lowest pressed key: place it in `VX` if there is one,
    /// else roll the program counter back so the instruction repeats next
    /// cycle. Timers and rendering keep running meanwhile.
    fn op_wait_key(&mut self, x: u8)
        requires
            old(self)@.wf(),
            x < 16,
        ensures
            final(self)@.wf(),
            ({
                let k = spec_first_pressed(old(self)@.keys, 0);
                &&& (k < 16 ==> final(self)@ == (CoreView {
                    regs: old(self)@.regs.update(x as int, k as u8),
                    ..old(self)@
                }))
                &&& (k >= 16 ==> final(self)@ == (CoreView {
                    pc: wrap_pc(old(self)@.pc - 2),
                    ..old(self)@
                }))
            }),
    {
        let ghost keys0 = self@.keys;
        let mut k: u8 = 0;
        let mut pressed: u8 = 16;
        while k < 16 && pressed == 16
            invariant
                old(self)@.wf(),
                keys0 == old(self)@.keys,
                self@ == old(self)@,
                k <= 16,
                pressed == 16 || (pressed < 16 && pressed as int == spec_first_pressed(keys0, 0)),
                pressed == 16 ==> spec_first_pressed(keys0, 0) == spec_first_pressed(
                    keys0,
                    k as int,
                ),
            decreases 16 - k,
        {
            if self.input_handler.is_key_pressed(k) {
                pressed = k;
            }
            k = k + 1;
        }
        if pressed < 16 {
            self.registers[x as usize] = pressed;
        } else {
            proof {
                if self.pc >= 2 {
                    lemma_small_mod((self.pc - 2) as nat, 4096);
                } else {
                    lemma_mod_add_multiples_vanish(self.pc - 2, 4096);
                    lemma_small_mod((self.pc + 4094) as nat, 4096);
                }
            }
            if self.pc >= 2 {
                self.pc = self.pc - 2;
            } else {
                self.pc = self.pc + 4094;
            }
        }
    }

    /// Execute one decoded instruction against a program counter already
    /// advanced past its word: the state becomes `spec_step` of the prior
    /// state, and the result reports exactly the stack errors of
    /// `spec_step_err` (the machine continues either way).
    pub fn execute(&mut self, instr: Instruction, rnd: u8) -> (r: Result<(), Chip8Error>)
        requires
            old(self)@.wf(),
            instr_wf(instr),
        ensures
            final(self)@.wf(),
            final(self)@ == spec_step(old(self)@, instr, rnd),
            r == (match spec_step_err(old(self)@, instr) {
                Option::Some(e) => Err::<(), Chip8Error>(e),
                Option::None => Ok::<(), Chip8Error>(()),
            }),
    {
        match instr {
            Instruction::ClearScreen => {
                self.op_clear();
                Ok(())
            },
            Instruction::Return => {
                match self.pop() {
                    Some(addr) => {
                        self.pc = addr;
                        Ok(())
                    },
                    None => Err(Chip8Error::StackUnderflow),
                }
            },
            Instruction::Jump { nnn } => {
                self.pc = nnn % 4096;
                Ok(())
            },
            Instruction::Call { nnn } => {
                let pushed = self.push(self.pc);
                self.pc = nnn % 4096;
                match pushed {
                    Ok(()) => Ok(()),
                    Err(e) => Err(e),
                }
            },
            Instruction::SkipEqImm { x, kk } => {
                if self.registers[x as usize] == kk {
                    self.pc = (self.pc + 2) % 4096;
                }
                Ok(())
            },
            Instruction::SkipNeImm { x, kk } => {
                if self.registers[x as usize] != kk {
                    self.pc = (self.pc + 2) % 4096;
                }
                Ok(())
            },
            Instruction::SkipEqReg { x, y } => {
                if self.registers[x as usize] == self.registers[y as usize] {
                    self.pc = (self.pc + 2) % 4096;
                }
                Ok(())
            },
            Instruction::SkipNeReg { x, y } => {
                if self.registers[x as usize] != self.registers[y as usize] {
                    self.pc = (self.pc + 2) % 4096;
                }
                Ok(())
            },
            Instruction::LoadImm { x, kk } => {
                self.registers[x as usize] = kk;
                Ok(())
            },
            Instruction::AddImm { x, kk } => {
                let vx = self.registers[x as usize];
                let sum = vx as u16 + kk as u16;
                self.registers[x as usize] = (sum % 256) as u8;
                Ok(())
            },
            Instruction::CopyReg { x, y } => {
                self.registers[x as usize] = self.registers[y as usize];
                Ok(())
            },
            Instruction::OrReg { x, y } => {
                let vx = self.registers[x as usize];
                let vy = self.registers[y as usize];
                self.registers[x as usize] = vx | vy;
                Ok(())
            },
            Instruction::AndReg { x, y } => {
                let vx = self.registers[x as usize];
                let vy = self.registers[y as usize];
                self.registers[x as usize] = vx & vy;
                Ok(())
            },
            Instruction::XorReg { x, y } => {
                let vx = self.registers[x as usize];
                let vy = self.registers[y as usize];
                self.registers[x as usize] = vx ^ vy;
                Ok(())
            },
            Instruction::AddReg { x, y } => {
                let vx = self.registers[x as usize];
                let vy = self.registers[y as usize];
                let sum = vx as u16 + vy as u16;
                self.registers[x as usize] = (sum % 256) as u8;
                self.registers[15] = if sum > 255 {
                    1
                } else {
                    0
                };
                Ok(())
            },
            Instruction::SubXY { x, y } => {
                let vx = self.registers[x as usize];
                let vy = self.registers[y as usize];
                if vx > vy {
                    self.registers[x as usize] = vx - vy;
                    self.registers[15] = 1;
                } else {
                    self.registers[15] = 0;
                }
                Ok(())
            },
            Instruction::ShiftRight { x } => {
                let vx = self.registers[x as usize];
                self.registers[x as usize] = vx / 2;
                self.registers[15] = vx % 2;
                Ok(())
            },
            Instruction::SubYX { x, y } => {
                let vx = self.registers[x as usize];
                let vy = self.registers[y as usize];
                if vy > vx {
                    self.registers[x as usize] = vy - vx;
                    self.registers[15] = 1;
                } else {
                    self.registers[15] = 0;
                }
                Ok(())
            },
            Instruction::ShiftLeft { x } => {
                let vx = self.registers[x as usize];
                self.registers[x as usize] = ((vx as u16 * 2) % 256) as u8;
                self.registers[15] = vx / 128;
                Ok(())
            },
            Instruction::LoadI { nnn } => {
                self.i = nnn;
                Ok(())
            },
            Instruction::JumpV0 { nnn } => {
                self.pc = ((nnn as u32 + self.registers[0] as u32) % 4096) as u16;
                Ok(())
            },
            Instruction::Random { x, kk } => {
                self.registers[x as usize] = rnd & kk;
                Ok(())
            },
            Instruction::Draw { x, y, n } => {
                self.op_draw(x, y, n);
                Ok(())
            },
            Instruction::SkipIfKey { x } => {
                let vx = self.registers[x as usize];
                if self.input_handler.is_key_pressed(vx) {
                    self.pc = (self.pc + 2) % 4096;
                }
                Ok(())
            },
            Instruction::SkipIfNoKey { x } => {
                let vx = self.registers[x as usize];
                if !self.input_handler.is_key_pressed(vx) {
                    self.pc = (self.pc + 2) % 4096;
                }
                Ok(())
            },
            Instruction::ReadDelay { x } => {
                self.registers[x as usize] = self.delay_timer;
                Ok(())
            },
            Instruction::WaitKey { x } => {
                self.op_wait_key(x);
                Ok(())
            },
            Instruction::SetDelay { x } => {
                self.delay_timer = self.registers[x as usize];
                Ok(())
            },
            Instruction::SetSound { x } => {
                self.sound_timer = self.registers[x as usize];
                Ok(())
            },
            Instruction::AddI { x } => {
                self.i = ((self.i as u32 + self.registers[x as usize] as u32) % 0x10000) as u16;
                Ok(())
            },
            Instruction::LoadFont { x } => {
                self.i = 0x50 + 5 * (self.registers[x as usize] as u16);
                Ok(())
            },
            Instruction::StoreBcd { x } => {
                self.op_store_bcd(x);
                Ok(())
            },
            Instruction::StoreRegs { x } => {
                self.op_store_regs(x);
                Ok(())
            },
            Instruction::LoadRegs { x } => {
                self.op_load_regs(x);
                Ok(())
            },
            Instruction::Unknown => Ok(()),
        }
    }

    /// One whole cycle with a caller-chosen random byte: fetch the word at
    /// the program counter, advance the counter by 2, decode and execute.
    /// The new state is exactly `spec_cycle` of the old.
    pub fn cycle_with(&mut self, rnd: u8) -> (r: Result<(), Chip8Error>)
        requires
            old(self)@.wf(),
        ensures
            final(self)@.wf(),
            final(self)@ == spec_cycle(old(self)@, rnd),
            r == (match spec_cycle_err(old(self)@) {
                Option::Some(e) => Err::<(), Chip8Error>(e),
                Option::None => Ok::<(), Chip8Error>(()),
            }),
    {
        let w = self.fetch();
        self.pc = (self.pc + 2) % 4096;
        proof {
            assert(self@ =~= spec_advance(old(self)@));
            lemma_decode_wf(w);
        }
        let instr = decode(w);
        self.execute(instr, rnd)
    }

    /// One whole cycle, drawing the random byte from the process random
    /// source: whatever byte comes back, the new state is `spec_cycle` of
    /// the old for that byte.
    pub fn cycle(&mut self) -> (r: Result<(), Chip8Error>)
        requires
            old(self)@.wf(),
        ensures
            final(self)@.wf(),
            exists|b: u8| final(self)@ == spec_cycle(old(self)@, b),
            r == (match spec_cycle_err(old(self)@) {
                Option::Some(e) => Err::<(), Chip8Error>(e),
                Option::None => Ok::<(), Chip8Error>(()),
            }),
    {
        let rnd = random_byte();
        let r = self.cycle_with(rnd);
        proof {
            assert(self@ == spec_cycle(old(self)@, rnd));
        }
        r
    }
}

} // verus!
