//! Instruction-set core of a Sharp LR35902 ("GB") emulator: the opcode
//! decoder, the arithmetic-logic unit with its flag semantics, and the CPU
//! state machine that fetches, executes, services interrupts and tracks its
//! cycle budget against a flat memory bus.

pub mod alu;
pub mod bus;
pub mod cpu;
pub mod inst;
pub mod interrupt;
pub mod laws;

use vstd::prelude::*;

verus! {

/// The CPU clock rate in T-states per second (the exact power of two,
/// 4,194,304 Hz).
pub const CLOCK_RATE: u64 = 4_194_304;

} // verus!
