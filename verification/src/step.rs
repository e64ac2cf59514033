//! The step semantics: what one instruction does to the machine state.
//!
//! [`spec_step`] is the mathematical meaning of each instruction, applied to
//! a state whose program counter has already been advanced past the
//! instruction word; [`spec_step_err`] says which instructions additionally
//! report an error (a return on an empty stack, a call on a full one — both
//! leave the machine able to continue). [`spec_cycle`] composes fetch,
//! advance, decode and step into the meaning of one whole cycle.

use vstd::prelude::*;

verus! {

use crate::Chip8Error;
use crate::cpu::CoreView;
use crate::draw::{spec_draw_disp, spec_draw_vf};
use crate::input::spec_key_pressed;
use crate::isa::{Instruction, spec_decode};

/// Reduce an address computation into the 4 KB program-counter space.
pub open spec fn wrap_pc(a: int) -> u16 {
    (a % 4096) as u16
}

/// 8-bit wrapping addition.
pub open spec fn add8(a: u8, b: u8) -> u8 {
    ((a + b) % 256) as u8
}

/// The lowest pressed key at or after index `k`, or 16 when none is.
pub open spec fn spec_first_pressed(keys: Seq<bool>, k: int) -> int
    decreases 16 - k,
{
    if k < 0 || k >= 16 {
        16
    } else if keys[k] {
        k
    } else {
        spec_first_pressed(keys, k + 1)
    }
}

/// The three decimal digits of `vx` written at `i`, `i + 1`, `i + 2`,
/// wrapping inside the address space.
pub open spec fn spec_store_bcd(mem: Seq<u8>, i: u16, vx: u8) -> Seq<u8> {
    mem.update((i + 0) % 4096, (vx / 100) as u8).update((i + 1) % 4096, ((vx / 10) % 10) as u8)
        .update((i + 2) % 4096, (vx % 10) as u8)
}

/// `regs[0..count]` copied into memory at `i`, wrapping inside the address
/// space.
pub open spec fn spec_store_regs(mem: Seq<u8>, i: u16, regs: Seq<u8>, count: int) -> Seq<u8>
    decreases count,
{
    if count <= 0 {
        mem
    } else {
        spec_store_regs(mem, i, regs, count - 1).update((i + count - 1) % 4096, regs[count - 1])
    }
}

/// `regs` with its first `count` entries replaced by memory at `i`,
/// wrapping inside the address space.
pub open spec fn spec_load_regs(regs: Seq<u8>, i: u16, mem: Seq<u8>, count: int) -> Seq<u8>
    decreases count,
{
    if count <= 0 {
        regs
    } else {
        spec_load_regs(regs, i, mem, count - 1).update(count - 1, mem[(i + count - 1) % 4096])
    }
}

/// Every register index carried by the instruction is below 16 and every
/// address below 4096, as the decoder guarantees.
pub open spec fn instr_wf(instr: Instruction) -> bool {
    match instr {
        Instruction::ClearScreen => true,
        Instruction::Return => true,
        Instruction::Jump { nnn } => nnn < 4096,
        Instruction::Call { nnn } => nnn < 4096,
        Instruction::SkipEqImm { x, kk } => x < 16,
        Instruction::SkipNeImm { x, kk } => x < 16,
        Instruction::SkipEqReg { x, y } => x < 16 && y < 16,
        Instruction::SkipNeReg { x, y } => x < 16 && y < 16,
        Instruction::LoadImm { x, kk } => x < 16,
        Instruction::AddImm { x, kk } => x < 16,
        Instruction::CopyReg { x, y } => x < 16 && y < 16,
        Instruction::OrReg { x, y } => x < 16 && y < 16,
        Instruction::AndReg { x, y } => x < 16 && y < 16,
        Instruction::XorReg { x, y } => x < 16 && y < 16,
        Instruction::AddReg { x, y } => x < 16 && y < 16,
        Instruction::SubXY { x, y } => x < 16 && y < 16,
        Instruction::ShiftRight { x } => x < 16,
        Instruction::SubYX { x, y } => x < 16 && y < 16,
        Instruction::ShiftLeft { x } => x < 16,
        Instruction::LoadI { nnn } => nnn < 4096,
        Instruction::JumpV0 { nnn } => nnn < 4096,
        Instruction::Random { x, kk } => x < 16,
        Instruction::Draw { x, y, n } => x < 16 && y < 16 && n < 16,
        Instruction::SkipIfKey { x } => x < 16,
        Instruction::SkipIfNoKey { x } => x < 16,
        Instruction::ReadDelay { x } => x < 16,
        Instruction::WaitKey { x } => x < 16,
        Instruction::SetDelay { x } => x < 16,
        Instruction::SetSound { x } => x < 16,
        Instruction::AddI { x } => x < 16,
        Instruction::LoadFont { x } => x < 16,
        Instruction::StoreBcd { x } => x < 16,
        Instruction::StoreRegs { x } => x < 16,
        Instruction::LoadRegs { x } => x < 16,
        Instruction::Unknown => true,
    }
}

/// The state after executing `instr` on `s`, with `rnd` as the byte the
/// random source produced. `s.pc` has already been advanced past the
/// instruction word, so a skip adds another 2 and the key-wait rolls it
/// back by 2.
pub open spec fn spec_step(s: CoreView, instr: Instruction, rnd: u8) -> CoreView
    recommends
        s.wf(),
        instr_wf(instr),
{
    match instr {
        Instruction::ClearScreen => CoreView {
            disp: Seq::new(s.disp.len(), |p: int| false),
            draw: true,
            ..s
        },
        Instruction::Return => {
            if s.sp == 0 {
                s
            } else {
                CoreView { sp: (s.sp - 1) as u16, pc: s.stack[s.sp - 1], ..s }
            }
        },
        Instruction::Jump { nnn } => CoreView { pc: wrap_pc(nnn as int), ..s },
        Instruction::Call { nnn } => {
            if s.sp >= 16 {
                CoreView { pc: wrap_pc(nnn as int), ..s }
            } else {
                CoreView {
                    stack: s.stack.update(s.sp as int, s.pc),
                    sp: (s.sp + 1) as u16,
                    pc: wrap_pc(nnn as int),
                    ..s
                }
            }
        },
        Instruction::SkipEqImm { x, kk } => {
            if s.regs[x as int] == kk {
                CoreView { pc: wrap_pc(s.pc + 2), ..s }
            } else {
                s
            }
        },
        Instruction::SkipNeImm { x, kk } => {
            if s.regs[x as int] != kk {
                CoreView { pc: wrap_pc(s.pc + 2), ..s }
            } else {
                s
            }
        },
        Instruction::SkipEqReg { x, y } => {
            if s.regs[x as int] == s.regs[y as int] {
                CoreView { pc: wrap_pc(s.pc + 2), ..s }
            } else {
                s
            }
        },
        Instruction::SkipNeReg { x, y } => {
            if s.regs[x as int] != s.regs[y as int] {
                CoreView { pc: wrap_pc(s.pc + 2), ..s }
            } else {
                s
            }
        },
        Instruction::LoadImm { x, kk } => CoreView { regs: s.regs.update(x as int, kk), ..s },
        Instruction::AddImm { x, kk } => CoreView {
            regs: s.regs.update(x as int, add8(s.regs[x as int], kk)),
            ..s
        },
        Instruction::CopyReg { x, y } => CoreView {
            regs: s.regs.update(x as int, s.regs[y as int]),
            ..s
        },
        Instruction::OrReg { x, y } => CoreView {
            regs: s.regs.update(x as int, s.regs[x as int] | s.regs[y as int]),
            ..s
        },
        Instruction::AndReg { x, y } => CoreView {
            regs: s.regs.update(x as int, s.regs[x as int] & s.regs[y as int]),
            ..s
        },
        Instruction::XorReg { x, y } => CoreView {
            regs: s.regs.update(x as int, s.regs[x as int] ^ s.regs[y as int]),
            ..s
        },
        Instruction::AddReg { x, y } => {
            let sum = s.regs[x as int] + s.regs[y as int];
            CoreView {
                regs: s.regs.update(x as int, (sum % 256) as u8).update(
                    15,
                    if sum > 255 {
                        1u8
                    } else {
                        0u8
                    },
                ),
                ..s
            }
        },
        Instruction::SubXY { x, y } => {
            if s.regs[x as int] > s.regs[y as int] {
                CoreView {
                    regs: s.regs.update(
                        x as int,
                        (s.regs[x as int] - s.regs[y as int]) as u8,
                    ).update(15, 1u8),
                    ..s
                }
            } else {
                CoreView { regs: s.regs.update(15, 0u8), ..s }
            }
        },
        Instruction::ShiftRight { x } => CoreView {
            regs: s.regs.update(x as int, (s.regs[x as int] / 2) as u8).update(
                15,
                (s.regs[x as int] % 2) as u8,
            ),
            ..s
        },
        Instruction::SubYX { x, y } => {
            if s.regs[y as int] > s.regs[x as int] {
                CoreView {
                    regs: s.regs.update(
                        x as int,
                        (s.regs[y as int] - s.regs[x as int]) as u8,
                    ).update(15, 1u8),
                    ..s
                }
            } else {
                CoreView { regs: s.regs.update(15, 0u8), ..s }
            }
        },
        Instruction::ShiftLeft { x } => CoreView {
            regs: s.regs.update(x as int, ((s.regs[x as int] * 2) % 256) as u8).update(
                15,
                (s.regs[x as int] / 128) as u8,
            ),
            ..s
        },
        Instruction::LoadI { nnn } => CoreView { i: nnn, ..s },
        Instruction::JumpV0 { nnn } => CoreView { pc: wrap_pc(nnn + s.regs[0]), ..s },
        Instruction::Random { x, kk } => CoreView { regs: s.regs.update(x as int, rnd & kk), ..s },
        Instruction::Draw { x, y, n } => CoreView {
            disp: spec_draw_disp(s.disp, s.mem, s.i, s.regs[x as int], s.regs[y as int], n),
            regs: s.regs.update(
                15,
                if spec_draw_vf(s.disp, s.mem, s.i, s.regs[x as int], s.regs[y as int], n) {
                    1u8
                } else {
                    0u8
                },
            ),
            draw: true,
            ..s
        },
        Instruction::SkipIfKey { x } => {
            if spec_key_pressed(s.keys, s.regs[x as int]) {
                CoreView { pc: wrap_pc(s.pc + 2), ..s }
            } else {
                s
            }
        },
        Instruction::SkipIfNoKey { x } => {
            if !spec_key_pressed(s.keys, s.regs[x as int]) {
                CoreView { pc: wrap_pc(s.pc + 2), ..s }
            } else {
                s
            }
        },
        Instruction::ReadDelay { x } => CoreView { regs: s.regs.update(x as int, s.delay), ..s },
        Instruction::WaitKey { x } => {
            let k = spec_first_pressed(s.keys, 0);
            if k < 16 {
                CoreView { regs: s.regs.update(x as int, k as u8), ..s }
            } else {
                CoreView { pc: wrap_pc(s.pc - 2), ..s }
            }
        },
        Instruction::SetDelay { x } => CoreView { delay: s.regs[x as int], ..s },
        Instruction::SetSound { x } => CoreView { sound: s.regs[x as int], ..s },
        Instruction::AddI { x } => CoreView {
            i: ((s.i + s.regs[x as int]) % 0x10000) as u16,
            ..s
        },
        Instruction::LoadFont { x } => CoreView {
            i: (0x50 + 5 * s.regs[x as int]) as u16,
            ..s
        },
        Instruction::StoreBcd { x } => CoreView {
            mem: spec_store_bcd(s.mem, s.i, s.regs[x as int]),
            ..s
        },
        Instruction::StoreRegs { x } => CoreView {
            mem: spec_store_regs(s.mem, s.i, s.regs, x + 1),
            i: ((s.i + x + 1) % 0x10000) as u16,
            ..s
        },
        Instruction::LoadRegs { x } => CoreView {
            regs: spec_load_regs(s.regs, s.i, s.mem, x + 1),
            i: ((s.i + x + 1) % 0x10000) as u16,
            ..s
        },
        Instruction::Unknown => s,
    }
}

/// The error `instr` reports on `s`: a return on an empty stack underflows,
/// a call on a full stack overflows (the jump still happens), and no other
/// instruction reports anything.
pub open spec fn spec_step_err(s: CoreView, instr: Instruction) -> Option<Chip8Error> {
    match instr {
        Instruction::Return => {
            if s.sp == 0 {
                Some(Chip8Error::StackUnderflow)
            } else {
                None
            }
        },
        Instruction::Call { nnn } => {
            if s.sp >= 16 {
                Some(Chip8Error::StackOverflow)
            } else {
                None
            }
        },
        _ => None,
    }
}

/// The big-endian instruction word at the program counter.
pub open spec fn spec_fetch(s: CoreView) -> u16 {
    (s.mem[s.pc as int] * 256 + s.mem[(s.pc + 1) % 4096]) as u16
}

/// The state with the program counter advanced past the fetched word.
pub open spec fn spec_advance(s: CoreView) -> CoreView {
    CoreView { pc: wrap_pc(s.pc + 2), ..s }
}

/// The state after one whole cycle: fetch the word at the program counter,
/// advance the counter, decode and execute, with `rnd` as the byte the
/// random source produced.
pub open spec fn spec_cycle(s: CoreView, rnd: u8) -> CoreView {
    spec_step(spec_advance(s), spec_decode(spec_fetch(s)), rnd)
}

/// The error one whole cycle reports, independent of the random byte.
pub open spec fn spec_cycle_err(s: CoreView) -> Option<Chip8Error> {
    spec_step_err(spec_advance(s), spec_decode(spec_fetch(s)))
}

} // verus!
