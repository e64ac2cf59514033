//! A verified CHIP-8 interpreter core.
//!
//! The library models the machine state (registers, memory, call stack,
//! timers, keypad, display), decodes 16-bit instruction words into a typed
//! instruction set, executes them against a mathematical step function, and
//! provides the fixed-timestep catch-up arithmetic for the scheduling loop.
//! Window creation, rendering and event plumbing live outside the library.

pub mod cpu;
pub mod draw;
pub mod exec;
pub mod input;
pub mod isa;
pub mod laws;
mod rng;
pub mod sched;
pub mod step;

use vstd::prelude::*;

verus! {

/// Errors the interpreter core can report.
///
/// `RomTooLarge` is load-time; the stack errors are opcode-time and leave the
/// machine able to continue; `RegisterIndexOverflow` is defensive only, since
/// nibble extraction keeps register indices below 16.
#[derive(Clone, Copy, Debug, PartialEq, Eq, Structural)]
pub enum Chip8Error {
    RomTooLarge,
    StackOverflow,
    StackUnderflow,
    RegisterIndexOverflow,
}

} // verus!
