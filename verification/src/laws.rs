//! The laws the core obeys, each stated over the specification functions the
//! executable contracts use and proved once and for all.

use vstd::prelude::*;

use crate::alu;
use crate::alu::{
    flags_wf, spec_mask_flags, spec_zero, spec_subtract, spec_halfcarry, spec_carry, spec_hi,
    spec_lo, spec_wadd16, spec_wsub16,
};
use crate::cpu::{
    CpuView, arith_step, bits_step, load_step, logic_step, step, step_base, step_ok, spec_taken,
    spec_run_cycle, spec_fetch, spec_pump, fetch_ok, dispatch, dispatch_ok, event_popped,
    runner_marked, runner_forwarded, runner_step, lemma_step_base_cycle, lemma_cycles_bounds,
    lemma_run_cycle_progress,
};
use crate::inst::{Arith, Bits, Load, Logic, Instruction, Register8, Register16};
use crate::interrupt::Interrupt;

verus! {

/// Any write to `F`, through the 8-bit register file or through the low
/// half of `AF`, leaves the low nibble of the flags word zero.
pub proof fn lemma_flags_masked_on_write(pre: CpuView, v8: u8, v16: u16)
    requires
        flags_wf(pre.f),
    ensures
        flags_wf(pre.set_reg(Register8::F, v8).f),
        flags_wf(pre.set_r16(Register16::AF, v16).f),
        forall|r: Register8, v: u8| flags_wf((#[trigger] pre.set_reg(r, v)).f) || r is F,
{
}

/// A push followed by a pop returns the pushed 16-bit value and restores
/// SP; when the value lands in `AF` instead, only the low nibble of `F` is
/// masked away.
pub proof fn lemma_push_pop(pre: CpuView, v: u16)
    requires
        pre.wf(),
        pre.push_ok(),
    ensures
        pre.pushed(v).pop_ok(),
        pre.pushed(v).popped_val() == v,
        spec_wadd16(pre.pushed(v).sp, 2) == pre.sp,
        pre.set_r16(Register16::AF, v).f == spec_mask_flags(spec_lo(v)),
{
    let nsp = spec_wsub16(pre.sp, 2);
    alu::lemma_hi_lo_inverse(v, alu::spec_hi(v), alu::spec_lo(v));
    assert(spec_wadd16(nsp, 1) != nsp);
}

/// Swapping the nibbles of a byte twice returns the byte, and the flags of
/// the second swap equal the flags of the first: Z tracks whether the byte
/// is zero and N, H and C are cleared by both.
pub proof fn lemma_swap_involution(x: u8)
    ensures
        alu::spec_swap(alu::spec_swap(x).0).0 == x,
        alu::spec_swap(alu::spec_swap(x).0).1 == alu::spec_swap(x).1,
        !spec_subtract(alu::spec_swap(x).1),
        !spec_halfcarry(alu::spec_swap(x).1),
        !spec_carry(alu::spec_swap(x).1),
{
    assert(alu::spec_swap(alu::spec_swap(x).0).0 == x) by (nonlinear_arith);
    assert((alu::spec_swap(x).0 == 0) == (x == 0)) by (nonlinear_arith);
    alu::lemma_flag_bits_wf(alu::spec_swap(x).0 == 0, false, false, false);
    alu::lemma_flag_bits_wf(x == 0, false, false, false);
}

/// An 8-bit subtract sets C exactly when the subtrahend exceeds the
/// minuend, H exactly on a borrow out of the low nibble, N always, and Z
/// exactly when the operands are equal.
pub proof fn lemma_sub_borrow(a: u8, b: u8)
    ensures
        spec_carry(alu::spec_sub(a, b).1) == (a < b),
        spec_halfcarry(alu::spec_sub(a, b).1) == (a % 16 < b % 16),
        spec_subtract(alu::spec_sub(a, b).1),
        spec_zero(alu::spec_sub(a, b).1) == (a == b),
{
    let p = alu::spec_sub(a, b);
    alu::lemma_flag_bits_wf(p.0 == 0, true, a % 16 < b % 16, a < b);
}

/// The decimal value a binary-coded-decimal byte stands for.
pub open spec fn bcd_val(v: u8) -> int {
    v / 16 * 10 + v % 16
}

/// A byte is valid binary-coded decimal when both nibbles are decimal
/// digits.
pub open spec fn bcd_wf(v: u8) -> bool {
    v / 16 <= 9 && v % 16 <= 9
}

/// Adding two valid BCD bytes and then applying the decimal adjust yields
/// the BCD encoding of the decimal sum modulo one hundred, with C reporting
/// the decimal carry, H and N clear, and Z tracking a zero result.
pub proof fn lemma_daa_bcd_add(x: u8, y: u8)
    requires
        bcd_wf(x),
        bcd_wf(y),
    ensures
        ({
            let s = alu::spec_add(x, y);
            let d = alu::spec_daa(s.0, s.1);
            bcd_wf(d.0) && bcd_val(d.0) == (bcd_val(x) + bcd_val(y)) % 100 && spec_carry(d.1)
                == (bcd_val(x) + bcd_val(y) >= 100) && !spec_halfcarry(d.1) && !spec_subtract(
                d.1,
            ) && spec_zero(d.1) == (d.0 == 0)
        }),
{
    let s = alu::spec_add(x, y);
    let s0 = s.0;
    let h = x % 16 + y % 16 > 0xF;
    let c = x + y > 0xFF;
    alu::lemma_flag_bits_wf(s0 == 0, false, h, c);
    let d = alu::spec_daa(s0, s.1);
    let lo_adj = h || s0 % 16 > 9;
    let hi_adj = c || s0 > 0x99;
    let t: int = s0 + (if lo_adj {
        6int
    } else {
        0int
    }) + (if hi_adj {
        0x60int
    } else {
        0int
    });
    let d0 = if t > 0xFF {
        (t - 0x100) as u8
    } else {
        t as u8
    };
    assert(d.0 == d0);
    alu::lemma_flag_bits_wf(d0 == 0, false, false, hi_adj);
    assert(spec_carry(d.1) == hi_adj);
    assert(bcd_wf(d0) && bcd_val(d0) == (bcd_val(x) + bcd_val(y)) % 100 && hi_adj == (bcd_val(x)
        + bcd_val(y) >= 100)) by (bit_vector)
        requires
            x / 16 <= 9,
            x % 16 <= 9,
            y / 16 <= 9,
            y % 16 <= 9,
            x + y <= 0xFF ==> s0 == x + y,
            x + y > 0xFF ==> s0 == x + y - 0x100,
            h == (x % 16 + y % 16 > 0xF),
            c == (x + y > 0xFF),
            lo_adj == (h || s0 % 16 > 9),
            hi_adj == (c || s0 > 0x99),
            s0 + (if lo_adj {
                6int
            } else {
                0int
            }) + (if hi_adj {
                0x60int
            } else {
                0int
            }) <= 0xFF ==> d0 == s0 + (if lo_adj {
                6int
            } else {
                0int
            }) + (if hi_adj {
                0x60int
            } else {
                0int
            }),
            s0 + (if lo_adj {
                6int
            } else {
                0int
            }) + (if hi_adj {
                0x60int
            } else {
                0int
            }) > 0xFF ==> d0 == s0 + (if lo_adj {
                6int
            } else {
                0int
            }) + (if hi_adj {
                0x60int
            } else {
                0int
            }) - 0x100,
    ;
}

/// No arithmetic instruction the decoder produces writes the program
/// counter.
pub proof fn lemma_arith_pc(pre: CpuView, a: Arith)
    requires
        a.wf(),
    ensures
        arith_step(pre, a).pc == pre.pc,
{
    reveal(crate::cpu::arith_step);
}

/// No bit-manipulation instruction writes the program counter.
pub proof fn lemma_bits_pc(pre: CpuView, b: Bits)
    ensures
        bits_step(pre, b).pc == pre.pc,
{
    reveal(crate::cpu::bits_step);
}

/// No load instruction the decoder produces writes the program counter.
pub proof fn lemma_load_pc(pre: CpuView, l: Load)
    requires
        l.wf(),
    ensures
        load_step(pre, l).pc == pre.pc,
{
    reveal(crate::cpu::load_step);
}

/// No bitwise-logic instruction writes the program counter.
pub proof fn lemma_logic_pc(pre: CpuView, l: Logic)
    ensures
        logic_step(pre, l).pc == pre.pc,
{
    reveal(crate::cpu::logic_step);
}

/// Outside the control family, executing a well-formed instruction leaves
/// the program counter where the fetch advance put it.
pub proof fn lemma_step_base_pc(pre: CpuView, i: Instruction)
    requires
        i.wf(),
        !(i is Control),
    ensures
        step_base(pre, i).pc == pre.pc,
{
    reveal(crate::cpu::step_base);
    match i {
        Instruction::Arith(a) => lemma_arith_pc(pre, a),
        Instruction::Bits(b) => lemma_bits_pc(pre, b),
        Instruction::Load(l) => lemma_load_pc(pre, l),
        Instruction::Logic(l) => lemma_logic_pc(pre, l),
        _ => (),
    }
}

/// A control instruction updates PC to its computed target when taken, and
/// leaves it where the fetch advance put it when its condition fails.
pub proof fn lemma_control_pc(pre: CpuView, c: crate::inst::Control)
    ensures
        !crate::cpu::control_taken(pre, c) ==> crate::cpu::control_step(pre, c).pc == pre.pc,
        c matches crate::inst::Control::Jump(a) ==> crate::cpu::control_step(pre, c).pc == a,
        c matches crate::inst::Control::JumpConditional(a, cc) ==> (pre.cond(cc)
            ==> crate::cpu::control_step(pre, c).pc == a),
        c matches crate::inst::Control::JumpRelative(o) ==> crate::cpu::control_step(pre, c).pc
            == spec_wadd16(pre.pc, crate::alu::spec_sign_ext(o)),
        c matches crate::inst::Control::Call(a) ==> crate::cpu::control_step(pre, c).pc == a,
        c matches crate::inst::Control::Reset(a) ==> crate::cpu::control_step(pre, c).pc == a,
        c is Return ==> crate::cpu::control_step(pre, c).pc == pre.popped_val(),
        c is InterruptReturn ==> crate::cpu::control_step(pre, c).pc == pre.popped_val(),
{
    reveal(crate::cpu::control_step);
}

/// A run cycle that fetches, decodes and executes an instruction outside
/// the control family, with no peripheral event due afterwards, leaves PC
/// advanced by exactly the decoded length. Control instructions instead
/// load PC with their computed target, or leave it advanced when their
/// condition fails.
pub proof fn lemma_pc_advance(pre: CpuView)
    requires
        pre.wf(),
        !pre.halted,
        !pre.breakpoints.contains(pre.pc),
        fetch_ok(pre),
        spec_fetch(pre) is Ok,
        ({
            let p = spec_fetch(pre)->Ok_0;
            let advanced = CpuView {
                pc: spec_wadd16(pre.pc, p.1 as u16),
                ..pre.trace_pushed((pre.pc, p.0))
            };
            step_ok(advanced, p.0) && !(p.0 is Control) && !step(
                advanced,
                p.0,
            ).bus.pump_fires(step(advanced, p.0).cycle)
        }),
    ensures
        spec_run_cycle(pre).1 is Ok,
        spec_run_cycle(pre).0.pc == spec_wadd16(pre.pc, spec_fetch(pre)->Ok_0.1 as u16),
{
    reveal(crate::cpu::spec_run_cycle);
    let p = spec_fetch(pre)->Ok_0;
    let advanced = CpuView {
        pc: spec_wadd16(pre.pc, p.1 as u16),
        ..pre.trace_pushed((pre.pc, p.0))
    };
    lemma_step_base_pc(advanced, p.0);
}

/// An interrupt that is requested by the peripherals, enabled in the
/// interrupt-enable register and gated in by IME is serviced in the same
/// run cycle that executes the current instruction: PC lands on the
/// source's vector with the advanced PC pushed, IME falls, and at most one
/// instruction's worth of cycles plus the dispatch charge is spent.
pub proof fn lemma_interrupt_serviced(pre: CpuView)
    requires
        pre.wf(),
        pre.cycle <= u64::MAX - 64,
        !pre.halted,
        !pre.breakpoints.contains(pre.pc),
        fetch_ok(pre),
        spec_fetch(pre) is Ok,
        ({
            let p = spec_fetch(pre)->Ok_0;
            let advanced = CpuView {
                pc: spec_wadd16(pre.pc, p.1 as u16),
                ..pre.trace_pushed((pre.pc, p.0))
            };
            let mid = step(advanced, p.0);
            step_ok(advanced, p.0) && mid.bus.pump_fires(mid.cycle) && mid.ime
                && pre.bus.events[0].interrupt.spec_is_enabled(mid.bus.interrupt_enable)
                && event_popped(mid).push_ok()
        }),
    ensures
        spec_run_cycle(pre).1 is Ok,
        spec_run_cycle(pre).0.pc == pre.bus.events[0].interrupt.spec_table_address(),
        !spec_run_cycle(pre).0.ime,
        spec_run_cycle(pre).0.cycle <= pre.cycle + 44,
{
    reveal(crate::cpu::spec_run_cycle);
    let p = spec_fetch(pre)->Ok_0;
    let advanced = CpuView {
        pc: spec_wadd16(pre.pc, p.1 as u16),
        ..pre.trace_pushed((pre.pc, p.0))
    };
    let mid = step(advanced, p.0);
    lemma_step_base_cycle(advanced, p.0);
    lemma_cycles_bounds(p.0, spec_taken(advanced, p.0));
    assert(mid.bus.events == pre.bus.events);
}


/// An interrupt offered to a core with IME set, its source enabled and a
/// writable stack is serviced on the spot: IME falls, SP drops by two, the
/// interrupted PC is stored little-endian at the new SP, PC lands on the
/// source's vector, twenty cycles are charged, and a halted core wakes.
pub proof fn lemma_dispatch_services(pre: CpuView, source: Interrupt)
    requires
        pre.wf(),
        pre.cycle <= u64::MAX - 20,
        pre.ime,
        source.spec_is_enabled(pre.bus.interrupt_enable),
        pre.push_ok(),
    ensures
        dispatch_ok(pre, source),
        !dispatch(pre, source).ime,
        dispatch(pre, source).pc == source.spec_table_address(),
        dispatch(pre, source).sp == spec_wsub16(pre.sp, 2),
        dispatch(pre, source).bus.mem[spec_wsub16(pre.sp, 2) as int] == spec_lo(pre.pc),
        dispatch(pre, source).bus.mem[spec_wadd16(spec_wsub16(pre.sp, 2), 1) as int] == spec_hi(
            pre.pc,
        ),
        dispatch(pre, source).cycle == pre.cycle + 20,
        !dispatch(pre, source).halted,
{
    assert(spec_wadd16(spec_wsub16(pre.sp, 2), 1) != spec_wsub16(pre.sp, 2));
}

/// A failed run cycle, or a failed interrupt dispatch during the halt-time
/// pump, enters the debug halt — and the runner enters the debug halt in no
/// other way. A runner trace admits no successor of a debug-halted state,
/// so nothing is fetched after the failing step; the failing run cycle's
/// registers, trace ring and memory are what the iteration hands on, kept
/// for inspection.
pub proof fn lemma_runner_failure_halts(pre: CpuView, stop: u64)
    requires
        pre.wf(),
        pre.cycle <= u64::MAX - 64,
        !pre.debug_halted,
    ensures
        spec_run_cycle(pre).1 is Err ==> runner_step(pre, stop).debug_halted,
        runner_marked(pre).halted && spec_pump(runner_forwarded(pre, stop)).1 is Err
            ==> runner_step(pre, stop).debug_halted,
        runner_step(pre, stop).debug_halted ==> spec_run_cycle(pre).1 is Err || (runner_marked(
            pre,
        ).halted && spec_pump(runner_forwarded(pre, stop)).1 is Err),
{
    lemma_run_cycle_progress(pre);
}

/// Halt coalescing is an optimization, not a behavioural change: with the
/// core halted, one runner iteration moves the cycle counter to the earlier
/// of the next peripheral event and the deadline, consumes exactly the head
/// of the schedule when it is due by the deadline — the same event a
/// step-by-step halt loop would deliver next, offered through the same
/// dispatch — and touches no event beyond the deadline. Since events leave
/// only from the front of a schedule kept in delivery order, the streams of
/// the two loops are identical.
pub proof fn lemma_halt_coalescing(pre: CpuView, stop: u64)
    requires
        pre.wf(),
        pre.cycle <= u64::MAX - 64,
        !pre.debug_halted,
        pre.halted,
        pre.cycle < stop,
        stop <= u64::MAX - 64,
    ensures
        pre.bus.next_event_cycle() <= stop ==> runner_step(pre, stop).bus.events
            == pre.bus.events.drop_first(),
        pre.bus.next_event_cycle() <= stop && dispatch_ok(
            event_popped(runner_forwarded(pre, stop)),
            pre.bus.events[0].interrupt,
        ) ==> runner_step(pre, stop) == dispatch(
            event_popped(runner_forwarded(pre, stop)),
            pre.bus.events[0].interrupt,
        ),
        pre.bus.next_event_cycle() > stop ==> runner_step(pre, stop).bus.events == pre.bus.events
            && runner_step(pre, stop).cycle == stop,
{
    lemma_run_cycle_progress(pre);
    assert(runner_marked(pre) == pre);
    if pre.bus.next_event_cycle() <= stop {
        let fwd = runner_forwarded(pre, stop);
        assert(fwd.bus == pre.bus);
        assert(fwd.cycle >= pre.bus.next_event_cycle());
        assert(fwd.bus.pump_fires(fwd.cycle));
    }
}

} // verus!
