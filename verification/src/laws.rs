//! Laws of the step semantics, stated and proved over the specification
//! functions that the executable contracts are pinned to.

use vstd::prelude::*;

verus! {

use crate::Chip8Error;
use crate::cpu::CoreView;
use crate::isa::{Instruction, spec_decode};
use crate::step::{
    add8, spec_cycle, spec_fetch, spec_first_pressed, spec_step, spec_step_err, wrap_pc,
};
use vstd::arithmetic::div_mod::{
    lemma_mod_add_multiples_vanish,
    lemma_mod_sub_multiples_vanish,
    lemma_small_mod,
};

/// A whole cycle is a pure function: equal prior states and equal random
/// bytes give equal next states, so the instruction word at the program
/// counter determines the mutation.
pub proof fn lemma_cycle_deterministic(s1: CoreView, s2: CoreView, b1: u8, b2: u8)
    requires
        s1 == s2,
        b1 == b2,
    ensures
        spec_cycle(s1, b1) == spec_cycle(s2, b2),
{
}

/// The add-immediate instruction wraps modulo 256 and touches no register
/// but its target — in particular `VF` carries no flag out of it — and
/// leaves every other part of the machine alone.
pub proof fn lemma_add_imm_wraps(s: CoreView, x: u8, kk: u8, rnd: u8)
    requires
        s.wf(),
        x < 16,
    ensures
        ({
            let t = spec_step(s, Instruction::AddImm { x, kk }, rnd);
            &&& t.regs[x as int] == add8(s.regs[x as int], kk)
            &&& (forall|k: int| 0 <= k < 16 && k != x ==> t.regs[k] == s.regs[k])
            &&& (x != 15 ==> t.regs[15] == s.regs[15])
            &&& t == (CoreView { regs: t.regs, ..s })
        }),
{
}

/// The clear-screen instruction turns every display cell off, whatever the
/// display held before.
pub proof fn lemma_clear_screen(s: CoreView, rnd: u8)
    ensures
        spec_step(s, Instruction::ClearScreen, rnd).disp.len() == s.disp.len(),
        forall|p: int|
            0 <= p < s.disp.len() ==> !spec_step(s, Instruction::ClearScreen, rnd).disp[p],
{
}

/// A return on an empty stack reports `StackUnderflow` and leaves the
/// whole state — the program counter included — unchanged.
pub proof fn lemma_return_underflow(s: CoreView, rnd: u8)
    requires
        s.sp == 0,
    ensures
        spec_step(s, Instruction::Return, rnd) == s,
        spec_step_err(s, Instruction::Return) == Some(Chip8Error::StackUnderflow),
{
}

/// With no key pressed, the scan from `k` finds none.
proof fn lemma_first_pressed_none(keys: Seq<bool>, k: int)
    requires
        forall|j: int| 0 <= j < 16 ==> !keys[j],
    ensures
        spec_first_pressed(keys, k) >= 16,
    decreases 16 - k,
{
    if 0 <= k < 16 {
        lemma_first_pressed_none(keys, k + 1);
    }
}

/// The scan from `k` returns the lowest pressed key at or after `k`, or 16
/// when none is pressed there.
proof fn lemma_first_pressed_props(keys: Seq<bool>, k: int)
    requires
        0 <= k <= 16,
    ensures
        ({
            let r = spec_first_pressed(keys, k);
            &&& k <= r <= 16
            &&& (r < 16 ==> keys[r])
            &&& (forall|j: int| k <= j < r ==> !keys[j])
        }),
    decreases 16 - k,
{
    if k < 16 && !keys[k] {
        lemma_first_pressed_props(keys, k + 1);
    }
}

/// Rolling the program counter forward two and back two inside the 4 KB
/// space is the identity.
proof fn lemma_pc_roundtrip(pc: u16)
    requires
        pc < 4096,
    ensures
        wrap_pc(wrap_pc(pc + 2) - 2) == pc,
{
    if pc + 2 < 4096 {
        lemma_small_mod((pc + 2) as nat, 4096);
        lemma_small_mod(pc as nat, 4096);
    } else {
        lemma_mod_sub_multiples_vanish(pc + 2, 4096);
        lemma_small_mod((pc + 2 - 4096) as nat, 4096);
        assert(wrap_pc(pc + 2) == pc + 2 - 4096);
        lemma_mod_add_multiples_vanish(pc - 2 - 4094, 4096);
        lemma_small_mod(pc as nat, 4096);
    }
}

/// While the key-wait instruction stands at the program counter and no key
/// is pressed, a cycle changes nothing at all: the counter rolls back over
/// its own advance, and registers, memory, timers and display stay put.
pub proof fn lemma_wait_key_stalls(s: CoreView, rnd: u8, x: u8)
    requires
        s.wf(),
        spec_decode(spec_fetch(s)) == (Instruction::WaitKey { x }),
        forall|k: int| 0 <= k < 16 ==> !s.keys[k],
    ensures
        spec_cycle(s, rnd) == s,
{
    lemma_first_pressed_none(s.keys, 0);
    lemma_pc_roundtrip(s.pc);
    assert(spec_cycle(s, rnd) =~= s);
}

/// Once some key is pressed, the key-wait instruction stores the
/// lowest-indexed pressed key in its target register and the program
/// counter advances past it as for any other instruction.
pub proof fn lemma_wait_key_receives(s: CoreView, rnd: u8, x: u8)
    requires
        s.wf(),
        x < 16,
        spec_decode(spec_fetch(s)) == (Instruction::WaitKey { x }),
        exists|k: int| 0 <= k < 16 && s.keys[k],
    ensures
        ({
            let k = spec_first_pressed(s.keys, 0);
            &&& 0 <= k < 16
            &&& s.keys[k]
            &&& (forall|j: int| 0 <= j < k ==> !s.keys[j])
            &&& spec_cycle(s, rnd) == (CoreView {
                pc: wrap_pc(s.pc + 2),
                regs: s.regs.update(x as int, k as u8),
                ..s
            })
        }),
{
    lemma_first_pressed_props(s.keys, 0);
    let k = spec_first_pressed(s.keys, 0);
    if k == 16 {
        let w = choose|j: int| 0 <= j < 16 && s.keys[j];
        assert(!s.keys[w]);
    }
    assert(spec_cycle(s, rnd) =~= (CoreView {
        pc: wrap_pc(s.pc + 2),
        regs: s.regs.update(x as int, k as u8),
        ..s
    }));
}

} // verus!
