//! The CPU state machine: the register file with its pairing views, the
//! fetch/decode/execute loop, interrupt dispatch, halt handling, cycle
//! accounting, the bounded trace ring and the breakpoint set.

use vstd::prelude::*;

use crate::alu;
use crate::alu::{
    flag_bits, flags_wf, spec_mask_flags, spec_zero, spec_halfcarry, spec_carry, spec_hi, spec_lo,
    spec_hi_lo, spec_wadd16, spec_wsub16, spec_sign_ext, Flags,
};
use crate::bus::{Bus, BusView};
use crate::inst::{Arith, Bits, Control, Load, Logic, Instruction, Operand, Register8, Register16, ConditionCode};
use crate::interrupt::Interrupt;

verus! {

/// The capacity of the trace ring of recently executed instructions.
pub const TRACE_CAPACITY: usize = 50;

/// Why a run cycle stopped: an undecodable opcode window, a refused bus
/// access, or a one-shot breakpoint firing.
#[derive(Copy, Clone, Debug, PartialEq, Eq, Structural)]
pub enum CpuError {
    Decode,
    BusRead,
    BusWrite,
    Breakpoint,
}

/// The mathematical model of the CPU: the eight registers, the two 16-bit
/// specials, the cycle counter, the interrupt and halt state, the bus, the
/// trace ring and the breakpoint set.
#[verifier::ext_equal]
pub ghost struct CpuView {
    pub a: u8,
    pub f: u8,
    pub b: u8,
    pub c: u8,
    pub d: u8,
    pub e: u8,
    pub h: u8,
    pub l: u8,
    pub pc: u16,
    pub sp: u16,
    pub cycle: u64,
    pub ime: bool,
    pub halted: bool,
    pub debug_halted: bool,
    pub bus: BusView,
    pub trace: Seq<(u16, Instruction)>,
    pub breakpoints: Seq<u16>,
}

impl CpuView {
    /// The flags word never carries a low nibble, the bus is well formed,
    /// and the trace ring is within its capacity.
    pub open spec fn wf(self) -> bool {
        flags_wf(self.f) && self.bus.wf() && self.trace.len() <= TRACE_CAPACITY
    }

    /// The value of an 8-bit register.
    pub open spec fn reg(self, r: Register8) -> u8 {
        match r {
            Register8::A => self.a,
            Register8::F => self.f,
            Register8::B => self.b,
            Register8::C => self.c,
            Register8::D => self.d,
            Register8::E => self.e,
            Register8::H => self.h,
            Register8::L => self.l,
        }
    }

    /// The state after writing an 8-bit register; a write to `F` masks the
    /// low nibble away.
    pub open spec fn set_reg(self, r: Register8, v: u8) -> CpuView {
        match r {
            Register8::A => CpuView { a: v, ..self },
            Register8::F => CpuView { f: spec_mask_flags(v), ..self },
            Register8::B => CpuView { b: v, ..self },
            Register8::C => CpuView { c: v, ..self },
            Register8::D => CpuView { d: v, ..self },
            Register8::E => CpuView { e: v, ..self },
            Register8::H => CpuView { h: v, ..self },
            Register8::L => CpuView { l: v, ..self },
        }
    }

    /// The state after replacing the flags word with an already well-formed
    /// one.
    pub open spec fn with_flags(self, fb: u8) -> CpuView {
        CpuView { f: fb, ..self }
    }

    /// The value of a 16-bit register view: a pair composes high byte first;
    /// SP and PC are native.
    pub open spec fn r16(self, r: Register16) -> u16 {
        match r {
            Register16::AF => spec_hi_lo(self.a, self.f),
            Register16::BC => spec_hi_lo(self.b, self.c),
            Register16::DE => spec_hi_lo(self.d, self.e),
            Register16::HL => spec_hi_lo(self.h, self.l),
            Register16::SP => self.sp,
            Register16::PC => self.pc,
        }
    }

    /// The state after writing a 16-bit register view; the low byte of a
    /// write to `AF` reaches `F` with its low nibble masked away.
    pub open spec fn set_r16(self, r: Register16, v: u16) -> CpuView {
        match r {
            Register16::AF => CpuView {
                a: spec_hi(v),
                f: spec_mask_flags(spec_lo(v)),
                ..self
            },
            Register16::BC => CpuView { b: spec_hi(v), c: spec_lo(v), ..self },
            Register16::DE => CpuView { d: spec_hi(v), e: spec_lo(v), ..self },
            Register16::HL => CpuView { h: spec_hi(v), l: spec_lo(v), ..self },
            Register16::SP => CpuView { sp: v, ..self },
            Register16::PC => CpuView { pc: v, ..self },
        }
    }

    /// The state after replacing the bus memory alone.
    pub open spec fn with_mem(self, mem: Seq<u8>) -> CpuView {
        CpuView { bus: BusView { mem, ..self.bus }, ..self }
    }

    /// The state after charging `n` cycles.
    pub open spec fn charge(self, n: u8) -> CpuView {
        CpuView { cycle: (self.cycle + n) as u64, ..self }
    }

    /// Whether a branch condition holds of the current flags.
    pub open spec fn cond(self, cc: ConditionCode) -> bool {
        match cc {
            ConditionCode::NZ => !spec_zero(self.f),
            ConditionCode::Z => spec_zero(self.f),
            ConditionCode::NC => !spec_carry(self.f),
            ConditionCode::C => spec_carry(self.f),
        }
    }
}

/// The CPU core, bound to its memory bus for the lifetime of the run.
pub struct Cpu {
    a: u8,
    f: u8,
    b: u8,
    c: u8,
    d: u8,
    e: u8,
    h: u8,
    l: u8,
    pub pc: u16,
    pub sp: u16,
    pub bus: Bus,
    cycle: u64,
    pub interrupt_master_enable: bool,
    halted: bool,
    pub debug_halted: bool,
    last_instructions: Vec<(u16, Instruction)>,
    breakpoints: Vec<u16>,
}

impl View for Cpu {
    type V = CpuView;

    closed spec fn view(&self) -> CpuView {
        CpuView {
            a: self.a,
            f: self.f,
            b: self.b,
            c: self.c,
            d: self.d,
            e: self.e,
            h: self.h,
            l: self.l,
            pc: self.pc,
            sp: self.sp,
            cycle: self.cycle,
            ime: self.interrupt_master_enable,
            halted: self.halted,
            debug_halted: self.debug_halted,
            bus: self.bus@,
            trace: self.last_instructions@,
            breakpoints: self.breakpoints@,
        }
    }
}

impl Cpu {
    /// A CPU bound to an already initialized bus, with the registers at the
    /// documented post-boot values and no history.
    pub fn new(bus: Bus) -> (r: Cpu)
        requires
            bus@.wf(),
        ensures
            r@ == (CpuView {
                a: 0x01,
                f: 0xB0,
                b: 0x00,
                c: 0x13,
                d: 0x00,
                e: 0xD8,
                h: 0x01,
                l: 0x4D,
                pc: 0x0100,
                sp: 0xFFFE,
                cycle: 0,
                ime: false,
                halted: false,
                debug_halted: false,
                bus: bus@,
                trace: Seq::<(u16, Instruction)>::empty(),
                breakpoints: Seq::<u16>::empty(),
            }),
            r@.wf(),
    {
        Cpu {
            a: 0x01,
            f: 0xB0,
            b: 0x00,
            c: 0x13,
            d: 0x00,
            e: 0xD8,
            h: 0x01,
            l: 0x4D,
            pc: 0x0100,
            sp: 0xFFFE,
            bus,
            cycle: 0,
            interrupt_master_enable: false,
            halted: false,
            debug_halted: false,
            last_instructions: Vec::new(),
            breakpoints: Vec::new(),
        }
    }

    /// The cycles charged so far.
    pub fn cycle(&self) -> (r: u64)
        ensures
            r == self@.cycle,
    {
        self.cycle
    }

    /// Whether the core is halted waiting for an interrupt.
    pub fn halted(&self) -> (r: bool)
        ensures
            r == self@.halted,
    {
        self.halted
    }

    /// Sets or clears the halted state, as an external reset would.
    pub fn set_halted(&mut self, v: bool)
        ensures
            final (self)@ == (CpuView { halted: v, ..old(self)@ }),
    {
        self.halted = v;
    }

    /// Reads an 8-bit register, for the executor and the debugger alike.
    pub fn get_reg(&self, r: Register8) -> (v: u8)
        ensures
            v == self@.reg(r),
    {
        match r {
            Register8::A => self.a,
            Register8::F => self.f,
            Register8::B => self.b,
            Register8::C => self.c,
            Register8::D => self.d,
            Register8::E => self.e,
            Register8::H => self.h,
            Register8::L => self.l,
        }
    }

    /// Writes an 8-bit register; a write to `F` masks the low nibble, so the
    /// flags invariant survives any value.
    pub fn set_reg(&mut self, r: Register8, v: u8)
        ensures
            final (self)@ == old(self)@.set_reg(r, v),
            old(self)@.wf() ==> final (self)@.wf(),
    {
        match r {
            Register8::A => {
                self.a = v;
            },
            Register8::F => {
                self.f = v / 16 * 16;
            },
            Register8::B => {
                self.b = v;
            },
            Register8::C => {
                self.c = v;
            },
            Register8::D => {
                self.d = v;
            },
            Register8::E => {
                self.e = v;
            },
            Register8::H => {
                self.h = v;
            },
            Register8::L => {
                self.l = v;
            },
        }
    }

    /// The current flags word, typed.
    pub fn flags(&self) -> (r: Flags)
        ensures
            r.0 == self@.f,
    {
        Flags(self.f)
    }

    /// Replaces the flags word with one built by the ALU; such a word
    /// already has a zero low nibble.
    fn write_flags(&mut self, fb: u8)
        requires
            flags_wf(fb),
        ensures
            final (self)@ == old(self)@.with_flags(fb),
    {
        self.f = fb;
    }

    /// Reads a 16-bit register view, composing pairs high byte first.
    pub fn read_r16(&self, r: Register16) -> (v: u16)
        ensures
            v == self@.r16(r),
    {
        match r {
            Register16::AF => alu::hi_lo(self.a, self.f),
            Register16::BC => alu::hi_lo(self.b, self.c),
            Register16::DE => alu::hi_lo(self.d, self.e),
            Register16::HL => alu::hi_lo(self.h, self.l),
            Register16::SP => self.sp,
            Register16::PC => self.pc,
        }
    }

    /// Writes a 16-bit register view, decomposing pairs high byte first; the
    /// low byte of `AF` reaches `F` masked.
    pub fn write_r16(&mut self, r: Register16, v: u16)
        ensures
            final (self)@ == old(self)@.set_r16(r, v),
            old(self)@.wf() ==> final (self)@.wf(),
    {
        match r {
            Register16::AF => {
                self.a = alu::hi(v);
                self.f = alu::lo(v) / 16 * 16;
            },
            Register16::BC => {
                self.b = alu::hi(v);
                self.c = alu::lo(v);
            },
            Register16::DE => {
                self.d = alu::hi(v);
                self.e = alu::lo(v);
            },
            Register16::HL => {
                self.h = alu::hi(v);
                self.l = alu::lo(v);
            },
            Register16::SP => {
                self.sp = v;
            },
            Register16::PC => {
                self.pc = v;
            },
        }
    }

    /// Pushes a 16-bit value: SP moves down by two, then the value is stored
    /// little-endian at the new SP; on a refused write nothing changes.
    pub fn push16(&mut self, v: u16) -> (r: Result<(), ()>)
        ensures
            r is Ok <==> old(self)@.bus.writable(spec_wsub16(old(self)@.sp, 2))
                && old(self)@.bus.writable(spec_wadd16(spec_wsub16(old(self)@.sp, 2), 1)),
            r is Ok ==> final (self)@ == (CpuView {
                sp: spec_wsub16(old(self)@.sp, 2),
                bus: BusView {
                    mem: old(self)@.bus.mem.update(
                        spec_wsub16(old(self)@.sp, 2) as int,
                        spec_lo(v),
                    ).update(spec_wadd16(spec_wsub16(old(self)@.sp, 2), 1) as int, spec_hi(v)),
                    ..old(self)@.bus
                },
                ..old(self)@
            }),
            r is Err ==> final (self)@ == old(self)@,
            old(self)@.wf() ==> final (self)@.wf(),
    {
        let nsp = alu::wsub16(self.sp, 2);
        let w = self.bus.write16(nsp, v);
        if w.is_err() {
            return Err(());
        }
        self.sp = nsp;
        Ok(())
    }

    /// Pops a 16-bit value: loads little-endian at SP, then SP moves up by
    /// two; on a refused read nothing changes.
    pub fn pop16(&mut self) -> (r: Result<u16, ()>)
        ensures
            r is Ok <==> old(self)@.bus.mapped(old(self)@.sp) && old(self)@.bus.mapped(
                spec_wadd16(old(self)@.sp, 1),
            ),
            r is Ok ==> r->Ok_0 == spec_hi_lo(
                old(self)@.bus.mem[spec_wadd16(old(self)@.sp, 1) as int],
                old(self)@.bus.mem[old(self)@.sp as int],
            ) && final (self)@ == (CpuView { sp: spec_wadd16(old(self)@.sp, 2), ..old(self)@ }),
            r is Err ==> final (self)@ == old(self)@,
            old(self)@.wf() ==> final (self)@.wf(),
    {
        let v = match self.bus.read16(self.sp) {
            Ok(v) => v,
            Err(_) => {
                return Err(());
            },
        };
        self.sp = alu::wadd16(self.sp, 2);
        Ok(v)
    }

    /// Reads the byte at the address held in a 16-bit register.
    pub fn read_indirect(&self, r: Register16) -> (v: Result<u8, ()>)
        ensures
            v is Ok <==> self@.bus.mapped(self@.r16(r)),
            v is Ok ==> v->Ok_0 == self@.bus.mem[self@.r16(r) as int],
    {
        let a = self.read_r16(r);
        self.bus.read(a)
    }

    /// Writes the byte at the address held in a 16-bit register; on a
    /// refused write nothing changes.
    pub fn write_indirect(&mut self, r: Register16, v: u8) -> (res: Result<(), ()>)
        ensures
            res is Ok <==> old(self)@.bus.writable(old(self)@.r16(r)),
            res is Ok ==> final (self)@ == old(self)@.with_mem(
                old(self)@.bus.mem.update(old(self)@.r16(r) as int, v),
            ),
            res is Err ==> final (self)@ == old(self)@,
            old(self)@.wf() ==> final (self)@.wf(),
    {
        let a = self.read_r16(r);
        self.bus.write(a, v)
    }
}


impl CpuView {
    /// Whether reading through an operand succeeds: immediates and registers
    /// always, memory operands when their address is mapped.
    pub open spec fn operand_read_ok(self, o: Operand) -> bool {
        match o {
            Operand::Immediate(_) => true,
            Operand::Register(_) => true,
            Operand::IndirectRegister(r) => self.bus.mapped(self.r16(r)),
            Operand::IndirectAddress(a) => self.bus.mapped(a),
        }
    }

    /// The value an operand reads.
    pub open spec fn operand_read(self, o: Operand) -> u8 {
        match o {
            Operand::Immediate(v) => v,
            Operand::Register(r) => self.reg(r),
            Operand::IndirectRegister(r) => self.bus.mem[self.r16(r) as int],
            Operand::IndirectAddress(a) => self.bus.mem[a as int],
        }
    }

    /// Whether writing through an operand succeeds: registers always, memory
    /// operands when their address accepts writes, immediates never.
    pub open spec fn operand_write_ok(self, o: Operand) -> bool {
        match o {
            Operand::Immediate(_) => false,
            Operand::Register(_) => true,
            Operand::IndirectRegister(r) => self.bus.writable(self.r16(r)),
            Operand::IndirectAddress(a) => self.bus.writable(a),
        }
    }

    /// The state after writing a value through an operand.
    pub open spec fn operand_write(self, o: Operand, v: u8) -> CpuView {
        match o {
            Operand::Immediate(_) => self,
            Operand::Register(r) => self.set_reg(r, v),
            Operand::IndirectRegister(r) => self.with_mem(
                self.bus.mem.update(self.r16(r) as int, v),
            ),
            Operand::IndirectAddress(a) => self.with_mem(self.bus.mem.update(a as int, v)),
        }
    }
}

impl Cpu {
    /// Reads through an operand: an immediate yields itself, a register its
    /// value, a memory operand the byte at its address.
    fn read_operand(&self, o: Operand) -> (r: Result<u8, ()>)
        ensures
            r is Ok <==> self@.operand_read_ok(o),
            r is Ok ==> r->Ok_0 == self@.operand_read(o),
    {
        match o {
            Operand::Immediate(v) => Ok(v),
            Operand::Register(r) => Ok(self.get_reg(r)),
            Operand::IndirectRegister(ir) => self.read_indirect(ir),
            Operand::IndirectAddress(a) => self.bus.read(a),
        }
    }

    /// Writes through an operand. A write to an immediate cannot arise from
    /// correct decoder output and is excluded by the precondition.
    fn write_operand(&mut self, o: Operand, v: u8) -> (r: Result<(), ()>)
        requires
            o.writable(),
        ensures
            r is Ok <==> old(self)@.operand_write_ok(o),
            r is Ok ==> final (self)@ == old(self)@.operand_write(o, v),
            r is Err ==> final (self)@ == old(self)@,
            old(self)@.wf() ==> final (self)@.wf(),
    {
        match o {
            Operand::Immediate(_) => Err(()),
            Operand::Register(r) => {
                self.set_reg(r, v);
                Ok(())
            },
            Operand::IndirectAddress(a) => self.bus.write(a, v),
            Operand::IndirectRegister(r) => self.write_indirect(r, v),
        }
    }
}

/// Whether an arithmetic instruction succeeds in the given state.
#[verifier::opaque]
pub open spec fn arith_ok(pre: CpuView, a: Arith) -> bool {
    match a {
        Arith::Add(o) => pre.operand_read_ok(o),
        Arith::AddWithCarry(o) => pre.operand_read_ok(o),
        Arith::Subtract(o) => pre.operand_read_ok(o),
        Arith::SubtractWithCarry(o) => pre.operand_read_ok(o),
        Arith::Increment(o) => pre.operand_read_ok(o) && pre.operand_write_ok(o),
        Arith::Decrement(o) => pre.operand_read_ok(o) && pre.operand_write_ok(o),
        _ => true,
    }
}

/// The error an arithmetic instruction surfaces when it fails: the read of
/// its operand, or the write-back of an increment or decrement.
#[verifier::opaque]
pub open spec fn arith_err(pre: CpuView, a: Arith) -> CpuError {
    match a {
        Arith::Increment(o) => if !pre.operand_read_ok(o) {
            CpuError::BusRead
        } else {
            CpuError::BusWrite
        },
        Arith::Decrement(o) => if !pre.operand_read_ok(o) {
            CpuError::BusRead
        } else {
            CpuError::BusWrite
        },
        _ => CpuError::BusRead,
    }
}

/// The state an arithmetic instruction leaves, before its cycle charge.
#[verifier::opaque]
pub open spec fn arith_step(pre: CpuView, a: Arith) -> CpuView {
    match a {
        Arith::Add(o) => {
            let p = alu::spec_add(pre.operand_read(o), pre.a);
            CpuView { a: p.0, f: p.1, ..pre }
        },
        Arith::AddWithCarry(o) => {
            let p = alu::spec_adc(pre.operand_read(o), pre.a, spec_carry(pre.f));
            CpuView { a: p.0, f: p.1, ..pre }
        },
        Arith::Subtract(o) => {
            let p = alu::spec_sub(pre.a, pre.operand_read(o));
            CpuView { a: p.0, f: p.1, ..pre }
        },
        Arith::SubtractWithCarry(o) => {
            let p = alu::spec_sbc(pre.a, pre.operand_read(o), spec_carry(pre.f));
            CpuView { a: p.0, f: p.1, ..pre }
        },
        Arith::Increment(o) => {
            let p = alu::spec_inc(pre.operand_read(o), pre.f);
            pre.operand_write(o, p.0).with_flags(p.1)
        },
        Arith::Decrement(o) => {
            let p = alu::spec_dec(pre.operand_read(o), pre.f);
            pre.operand_write(o, p.0).with_flags(p.1)
        },
        Arith::IncrementRegister16(r) => pre.set_r16(r, spec_wadd16(pre.r16(r), 1)),
        Arith::DecrementRegister16(r) => pre.set_r16(r, spec_wsub16(pre.r16(r), 1)),
        Arith::AddRegisterRegister16(d, s) => {
            let p = alu::spec_add16(pre.r16(d), pre.r16(s), pre.f);
            pre.set_r16(d, p.0).with_flags(p.1)
        },
        Arith::AddSP(o) => {
            let p = alu::spec_add16(pre.sp, spec_sign_ext(o), pre.f);
            CpuView {
                sp: p.0,
                f: flag_bits(false, false, spec_halfcarry(p.1), spec_carry(p.1)),
                ..pre
            }
        },
        Arith::DecimalAdjustAccumulator => {
            let p = alu::spec_daa(pre.a, pre.f);
            CpuView { a: p.0, f: p.1, ..pre }
        },
    }
}

impl Cpu {
    /// The add family writes the accumulator and flags from an operand.
    fn ex_arith_add(&mut self, o: Operand) -> (r: Result<(), CpuError>)
        requires
            old(self)@.wf(),
        ensures
            final (self)@.wf(),
            r is Ok <==> arith_ok(old(self)@, Arith::Add(o)),
            r is Ok ==> final (self)@ == arith_step(old(self)@, Arith::Add(o)),
            r is Err ==> final (self)@ == old(self)@ && r->Err_0 == arith_err(old(self)@, Arith::Add(o)),
    {
        proof {
            reveal(arith_ok);
            reveal(arith_err);
            reveal(arith_step);
        }
        let v1 = match self.read_operand(o) {
            Ok(v) => v,
            Err(_) => {
                return Err(CpuError::BusRead);
            },
        };
        let v2 = self.get_reg(Register8::A);
        let (v, flags) = alu::add(v1, v2);
        self.set_reg(Register8::A, v);
        self.write_flags(flags.0);
        Ok(())
    }

    fn ex_arith_adc(&mut self, o: Operand) -> (r: Result<(), CpuError>)
        requires
            old(self)@.wf(),
        ensures
            final (self)@.wf(),
            r is Ok <==> arith_ok(old(self)@, Arith::AddWithCarry(o)),
            r is Ok ==> final (self)@ == arith_step(old(self)@, Arith::AddWithCarry(o)),
            r is Err ==> final (self)@ == old(self)@ && r->Err_0 == arith_err(old(self)@, Arith::AddWithCarry(o)),
    {
        proof {
            reveal(arith_ok);
            reveal(arith_err);
            reveal(arith_step);
        }
        let v1 = match self.read_operand(o) {
            Ok(v) => v,
            Err(_) => {
                return Err(CpuError::BusRead);
            },
        };
        let v2 = self.get_reg(Register8::A);
        let carry = self.flags().get_carry();
        let (v, flags) = alu::adc(v1, v2, carry);
        self.set_reg(Register8::A, v);
        self.write_flags(flags.0);
        Ok(())
    }

    fn ex_arith_sub(&mut self, o: Operand) -> (r: Result<(), CpuError>)
        requires
            old(self)@.wf(),
        ensures
            final (self)@.wf(),
            r is Ok <==> arith_ok(old(self)@, Arith::Subtract(o)),
            r is Ok ==> final (self)@ == arith_step(old(self)@, Arith::Subtract(o)),
            r is Err ==> final (self)@ == old(self)@ && r->Err_0 == arith_err(old(self)@, Arith::Subtract(o)),
    {
        proof {
            reveal(arith_ok);
            reveal(arith_err);
            reveal(arith_step);
        }
        let v2 = match self.read_operand(o) {
            Ok(v) => v,
            Err(_) => {
                return Err(CpuError::BusRead);
            },
        };
        let v1 = self.get_reg(Register8::A);
        let (v, flags) = alu::sub(v1, v2);
        self.set_reg(Register8::A, v);
        self.write_flags(flags.0);
        Ok(())
    }

    fn ex_arith_sbc(&mut self, o: Operand) -> (r: Result<(), CpuError>)
        requires
            old(self)@.wf(),
        ensures
            final (self)@.wf(),
            r is Ok <==> arith_ok(old(self)@, Arith::SubtractWithCarry(o)),
            r is Ok ==> final (self)@ == arith_step(old(self)@, Arith::SubtractWithCarry(o)),
            r is Err ==> final (self)@ == old(self)@ && r->Err_0 == arith_err(old(self)@, Arith::SubtractWithCarry(o)),
    {
        proof {
            reveal(arith_ok);
            reveal(arith_err);
            reveal(arith_step);
        }
        let v2 = match self.read_operand(o) {
            Ok(v) => v,
            Err(_) => {
                return Err(CpuError::BusRead);
            },
        };
        let v1 = self.get_reg(Register8::A);
        let carry = self.flags().get_carry();
        let (v, flags) = alu::sbc(v1, v2, carry);
        self.set_reg(Register8::A, v);
        self.write_flags(flags.0);
        Ok(())
    }

    /// Increment and decrement read, adjust and write back one cell,
    /// preserving the carry flag.
    fn ex_arith_inc(&mut self, o: Operand) -> (r: Result<(), CpuError>)
        requires
            old(self)@.wf(),
            crate::inst::cell_operand(o),
        ensures
            final (self)@.wf(),
            r is Ok <==> arith_ok(old(self)@, Arith::Increment(o)),
            r is Ok ==> final (self)@ == arith_step(old(self)@, Arith::Increment(o)),
            r is Err ==> final (self)@ == old(self)@ && r->Err_0 == arith_err(old(self)@, Arith::Increment(o)),
    {
        proof {
            reveal(arith_ok);
            reveal(arith_err);
            reveal(arith_step);
        }
        let s = match self.read_operand(o) {
            Ok(v) => v,
            Err(_) => {
                return Err(CpuError::BusRead);
            },
        };
        let (v, flags) = alu::inc(s, self.flags());
        let w = self.write_operand(o, v);
        if w.is_err() {
            return Err(CpuError::BusWrite);
        }
        self.write_flags(flags.0);
        Ok(())
    }

    fn ex_arith_dec(&mut self, o: Operand) -> (r: Result<(), CpuError>)
        requires
            old(self)@.wf(),
            crate::inst::cell_operand(o),
        ensures
            final (self)@.wf(),
            r is Ok <==> arith_ok(old(self)@, Arith::Decrement(o)),
            r is Ok ==> final (self)@ == arith_step(old(self)@, Arith::Decrement(o)),
            r is Err ==> final (self)@ == old(self)@ && r->Err_0 == arith_err(old(self)@, Arith::Decrement(o)),
    {
        proof {
            reveal(arith_ok);
            reveal(arith_err);
            reveal(arith_step);
        }
        let s = match self.read_operand(o) {
            Ok(v) => v,
            Err(_) => {
                return Err(CpuError::BusRead);
            },
        };
        let (v, flags) = alu::dec(s, self.flags());
        let w = self.write_operand(o, v);
        if w.is_err() {
            return Err(CpuError::BusWrite);
        }
        self.write_flags(flags.0);
        Ok(())
    }

    /// `ADD SP, n` moves SP by a signed displacement; Z and N are cleared
    /// and H and C come from the 16-bit add.
    fn ex_arith_addsp(&mut self, o: i8)
        requires
            old(self)@.wf(),
        ensures
            final (self)@.wf(),
            final (self)@ == arith_step(old(self)@, Arith::AddSP(o)),
    {
        proof {
            reveal(arith_step);
        }
        let (v, flags) = alu::add16(self.sp, alu::sign_ext(o), self.flags());
        let fb = Flags::from_bits(false, false, flags.get_halfcarry(), flags.get_carry());
        self.sp = v;
        self.write_flags(fb.0);
    }

    /// The decimal adjust corrects the accumulator after BCD arithmetic.
    fn ex_arith_daa(&mut self)
        requires
            old(self)@.wf(),
        ensures
            final (self)@.wf(),
            final (self)@ == arith_step(old(self)@, Arith::DecimalAdjustAccumulator),
    {
        proof {
            reveal(arith_step);
        }
        let a0 = self.get_reg(Register8::A);
        let (v, f) = alu::daa(a0, self.flags());
        self.set_reg(Register8::A, v);
        self.write_flags(f.0);
    }

    fn ex_arith_inc16(&mut self, r: Register16)
        requires
            old(self)@.wf(),
        ensures
            final (self)@.wf(),
            final (self)@ == arith_step(old(self)@, Arith::IncrementRegister16(r)),
    {
        proof {
            reveal(arith_step);
        }
        let v = self.read_r16(r);
        self.write_r16(r, alu::wadd16(v, 1));
    }

    fn ex_arith_dec16(&mut self, r: Register16)
        requires
            old(self)@.wf(),
        ensures
            final (self)@.wf(),
            final (self)@ == arith_step(old(self)@, Arith::DecrementRegister16(r)),
    {
        proof {
            reveal(arith_step);
        }
        let v = self.read_r16(r);
        self.write_r16(r, alu::wsub16(v, 1));
    }

    fn ex_arith_addrr16(&mut self, d: Register16, s: Register16)
        requires
            old(self)@.wf(),
        ensures
            final (self)@.wf(),
            final (self)@ == arith_step(old(self)@, Arith::AddRegisterRegister16(d, s)),
    {
        proof {
            reveal(arith_step);
        }
        let v1 = self.read_r16(d);
        let v2 = self.read_r16(s);
        let (v3, flags) = alu::add16(v1, v2, self.flags());
        self.write_r16(d, v3);
        self.write_flags(flags.0);
    }

    /// Executes one arithmetic instruction; on a refused bus access nothing
    /// changes and the error says which access was refused.
    fn execute_arith(&mut self, a: Arith) -> (r: Result<(), CpuError>)
        requires
            old(self)@.wf(),
            a.wf(),
        ensures
            final (self)@.wf(),
            r is Ok <==> arith_ok(old(self)@, a),
            r is Ok ==> final (self)@ == arith_step(old(self)@, a),
            r is Err ==> final (self)@ == old(self)@ && r->Err_0 == arith_err(old(self)@, a),
    {
        match a {
            Arith::Add(o) => self.ex_arith_add(o),
            Arith::AddWithCarry(o) => self.ex_arith_adc(o),
            Arith::Subtract(o) => self.ex_arith_sub(o),
            Arith::SubtractWithCarry(o) => self.ex_arith_sbc(o),
            Arith::Increment(o) => self.ex_arith_inc(o),
            Arith::Decrement(o) => self.ex_arith_dec(o),
            Arith::IncrementRegister16(r) => {
                proof {
                    reveal(arith_ok);
                    reveal(arith_err);
                }
                self.ex_arith_inc16(r);
                Ok(())
            },
            Arith::DecrementRegister16(r) => {
                proof {
                    reveal(arith_ok);
                    reveal(arith_err);
                }
                self.ex_arith_dec16(r);
                Ok(())
            },
            Arith::AddRegisterRegister16(d, s) => {
                proof {
                    reveal(arith_ok);
                    reveal(arith_err);
                }
                self.ex_arith_addrr16(d, s);
                Ok(())
            },
            Arith::AddSP(o) => {
                proof {
                    reveal(arith_ok);
                    reveal(arith_err);
                }
                self.ex_arith_addsp(o);
                Ok(())
            },
            Arith::DecimalAdjustAccumulator => {
                proof {
                    reveal(arith_ok);
                    reveal(arith_err);
                }
                self.ex_arith_daa();
                Ok(())
            },
        }
    }
}


/// Whether a bit-manipulation instruction succeeds in the given state.
#[verifier::opaque]
pub open spec fn bits_ok(pre: CpuView, b: Bits) -> bool {
    match b {
        Bits::RotateLeft(o) => pre.operand_read_ok(o) && pre.operand_write_ok(o),
        Bits::RotateRight(o) => pre.operand_read_ok(o) && pre.operand_write_ok(o),
        Bits::RotateLeftCarry(o) => pre.operand_read_ok(o) && pre.operand_write_ok(o),
        Bits::RotateRightCarry(o) => pre.operand_read_ok(o) && pre.operand_write_ok(o),
        Bits::ShiftLeftArithmetic(o) => pre.operand_read_ok(o) && pre.operand_write_ok(o),
        Bits::ShiftRightArithmetic(o) => pre.operand_read_ok(o) && pre.operand_write_ok(o),
        Bits::ShiftRightLogical(o) => pre.operand_read_ok(o) && pre.operand_write_ok(o),
        Bits::Swap(o) => pre.operand_read_ok(o) && pre.operand_write_ok(o),
        Bits::GetBit(_, o) => pre.operand_read_ok(o),
        Bits::ResetBit(_, o) => pre.operand_read_ok(o) && pre.operand_write_ok(o),
        Bits::SetBit(_, o) => pre.operand_read_ok(o) && pre.operand_write_ok(o),
        _ => true,
    }
}

/// The error a bit-manipulation instruction surfaces when it fails.
#[verifier::opaque]
pub open spec fn bits_err(pre: CpuView, b: Bits) -> CpuError {
    match b {
        Bits::GetBit(_, _) => CpuError::BusRead,
        Bits::RotateLeft(o) => if !pre.operand_read_ok(o) {
            CpuError::BusRead
        } else {
            CpuError::BusWrite
        },
        Bits::RotateRight(o) => if !pre.operand_read_ok(o) {
            CpuError::BusRead
        } else {
            CpuError::BusWrite
        },
        Bits::RotateLeftCarry(o) => if !pre.operand_read_ok(o) {
            CpuError::BusRead
        } else {
            CpuError::BusWrite
        },
        Bits::RotateRightCarry(o) => if !pre.operand_read_ok(o) {
            CpuError::BusRead
        } else {
            CpuError::BusWrite
        },
        Bits::ShiftLeftArithmetic(o) => if !pre.operand_read_ok(o) {
            CpuError::BusRead
        } else {
            CpuError::BusWrite
        },
        Bits::ShiftRightArithmetic(o) => if !pre.operand_read_ok(o) {
            CpuError::BusRead
        } else {
            CpuError::BusWrite
        },
        Bits::ShiftRightLogical(o) => if !pre.operand_read_ok(o) {
            CpuError::BusRead
        } else {
            CpuError::BusWrite
        },
        Bits::Swap(o) => if !pre.operand_read_ok(o) {
            CpuError::BusRead
        } else {
            CpuError::BusWrite
        },
        Bits::ResetBit(_, o) => if !pre.operand_read_ok(o) {
            CpuError::BusRead
        } else {
            CpuError::BusWrite
        },
        Bits::SetBit(_, o) => if !pre.operand_read_ok(o) {
            CpuError::BusRead
        } else {
            CpuError::BusWrite
        },
        _ => CpuError::BusRead,
    }
}

/// The state a bit-manipulation instruction leaves, before its cycle charge.
#[verifier::opaque]
pub open spec fn bits_step(pre: CpuView, b: Bits) -> CpuView {
    match b {
        Bits::RotateLeftCarry(o) => {
            let p = alu::spec_rlc(pre.operand_read(o), pre.f);
            pre.operand_write(o, p.0).with_flags(p.1)
        },
        Bits::RotateRightCarry(o) => {
            let p = alu::spec_rrc(pre.operand_read(o), pre.f);
            pre.operand_write(o, p.0).with_flags(p.1)
        },
        Bits::RotateLeft(o) => {
            let p = alu::spec_rl(pre.operand_read(o), pre.f);
            pre.operand_write(o, p.0).with_flags(p.1)
        },
        Bits::RotateRight(o) => {
            let p = alu::spec_rr(pre.operand_read(o), pre.f);
            pre.operand_write(o, p.0).with_flags(p.1)
        },
        Bits::ShiftLeftArithmetic(o) => {
            let p = alu::spec_sla(pre.operand_read(o));
            pre.operand_write(o, p.0).with_flags(p.1)
        },
        Bits::ShiftRightArithmetic(o) => {
            let p = alu::spec_sra(pre.operand_read(o));
            pre.operand_write(o, p.0).with_flags(p.1)
        },
        Bits::ShiftRightLogical(o) => {
            let p = alu::spec_srl(pre.operand_read(o));
            pre.operand_write(o, p.0).with_flags(p.1)
        },
        Bits::Swap(o) => {
            let p = alu::spec_swap(pre.operand_read(o));
            pre.operand_write(o, p.0).with_flags(p.1)
        },
        Bits::RotateLeftAccumulator => {
            let p = alu::spec_rl(pre.a, pre.f);
            CpuView { a: p.0, f: flag_bits(false, false, false, spec_carry(p.1)), ..pre }
        },
        Bits::RotateRightAccumulator => {
            let p = alu::spec_rr(pre.a, pre.f);
            CpuView { a: p.0, f: flag_bits(false, false, false, spec_carry(p.1)), ..pre }
        },
        Bits::RotateLeftCarryAccumulator => {
            let p = alu::spec_rlc(pre.a, pre.f);
            CpuView { a: p.0, f: flag_bits(false, false, false, spec_carry(p.1)), ..pre }
        },
        Bits::RotateRightCarryAccumulator => {
            let p = alu::spec_rrc(pre.a, pre.f);
            CpuView { a: p.0, f: flag_bits(false, false, false, spec_carry(p.1)), ..pre }
        },
        Bits::Complement => CpuView {
            a: (255 - pre.a) as u8,
            f: flag_bits(spec_zero(pre.f), true, true, spec_carry(pre.f)),
            ..pre
        },
        Bits::GetBit(bit, o) => pre.with_flags(
            flag_bits(
                !alu::spec_bit_test(pre.operand_read(o), bit),
                false,
                true,
                spec_carry(pre.f),
            ),
        ),
        Bits::ResetBit(bit, o) => pre.operand_write(
            o,
            alu::spec_with_bit_cleared(pre.operand_read(o), bit),
        ),
        Bits::SetBit(bit, o) => pre.operand_write(
            o,
            alu::spec_with_bit_set(pre.operand_read(o), bit),
        ),
    }
}

impl Cpu {
    fn ex_bits_rlc(&mut self, o: Operand) -> (r: Result<(), CpuError>)
        requires
            old(self)@.wf(),
            crate::inst::cell_operand(o),
        ensures
            final (self)@.wf(),
            r is Ok <==> bits_ok(old(self)@, Bits::RotateLeftCarry(o)),
            r is Ok ==> final (self)@ == bits_step(old(self)@, Bits::RotateLeftCarry(o)),
            r is Err ==> final (self)@ == old(self)@ && r->Err_0 == bits_err(old(self)@, Bits::RotateLeftCarry(o)),
    {
        proof {
            reveal(bits_ok);
            reveal(bits_err);
            reveal(bits_step);
        }
        let s = match self.read_operand(o) {
            Ok(v) => v,
            Err(_) => {
                return Err(CpuError::BusRead);
            },
        };
        let (v, flags) = alu::rlc(s, self.flags());
        let w = self.write_operand(o, v);
        if w.is_err() {
            return Err(CpuError::BusWrite);
        }
        self.write_flags(flags.0);
        Ok(())
    }

    fn ex_bits_rrc(&mut self, o: Operand) -> (r: Result<(), CpuError>)
        requires
            old(self)@.wf(),
            crate::inst::cell_operand(o),
        ensures
            final (self)@.wf(),
            r is Ok <==> bits_ok(old(self)@, Bits::RotateRightCarry(o)),
            r is Ok ==> final (self)@ == bits_step(old(self)@, Bits::RotateRightCarry(o)),
            r is Err ==> final (self)@ == old(self)@ && r->Err_0 == bits_err(old(self)@, Bits::RotateRightCarry(o)),
    {
        proof {
            reveal(bits_ok);
            reveal(bits_err);
            reveal(bits_step);
        }
        let s = match self.read_operand(o) {
            Ok(v) => v,
            Err(_) => {
                return Err(CpuError::BusRead);
            },
        };
        let (v, flags) = alu::rrc(s, self.flags());
        let w = self.write_operand(o, v);
        if w.is_err() {
            return Err(CpuError::BusWrite);
        }
        self.write_flags(flags.0);
        Ok(())
    }

    fn ex_bits_rl(&mut self, o: Operand) -> (r: Result<(), CpuError>)
        requires
            old(self)@.wf(),
            crate::inst::cell_operand(o),
        ensures
            final (self)@.wf(),
            r is Ok <==> bits_ok(old(self)@, Bits::RotateLeft(o)),
            r is Ok ==> final (self)@ == bits_step(old(self)@, Bits::RotateLeft(o)),
            r is Err ==> final (self)@ == old(self)@ && r->Err_0 == bits_err(old(self)@, Bits::RotateLeft(o)),
    {
        proof {
            reveal(bits_ok);
            reveal(bits_err);
            reveal(bits_step);
        }
        let s = match self.read_operand(o) {
            Ok(v) => v,
            Err(_) => {
                return Err(CpuError::BusRead);
            },
        };
        let (v, flags) = alu::rl(s, self.flags());
        let w = self.write_operand(o, v);
        if w.is_err() {
            return Err(CpuError::BusWrite);
        }
        self.write_flags(flags.0);
        Ok(())
    }

    fn ex_bits_rr(&mut self, o: Operand) -> (r: Result<(), CpuError>)
        requires
            old(self)@.wf(),
            crate::inst::cell_operand(o),
        ensures
            final (self)@.wf(),
            r is Ok <==> bits_ok(old(self)@, Bits::RotateRight(o)),
            r is Ok ==> final (self)@ == bits_step(old(self)@, Bits::RotateRight(o)),
            r is Err ==> final (self)@ == old(self)@ && r->Err_0 == bits_err(old(self)@, Bits::RotateRight(o)),
    {
        proof {
            reveal(bits_ok);
            reveal(bits_err);
            reveal(bits_step);
        }
        let s = match self.read_operand(o) {
            Ok(v) => v,
            Err(_) => {
                return Err(CpuError::BusRead);
            },
        };
        let (v, flags) = alu::rr(s, self.flags());
        let w = self.write_operand(o, v);
        if w.is_err() {
            return Err(CpuError::BusWrite);
        }
        self.write_flags(flags.0);
        Ok(())
    }

    fn ex_bits_sla(&mut self, o: Operand) -> (r: Result<(), CpuError>)
        requires
            old(self)@.wf(),
            crate::inst::cell_operand(o),
        ensures
            final (self)@.wf(),
            r is Ok <==> bits_ok(old(self)@, Bits::ShiftLeftArithmetic(o)),
            r is Ok ==> final (self)@ == bits_step(old(self)@, Bits::ShiftLeftArithmetic(o)),
            r is Err ==> final (self)@ == old(self)@ && r->Err_0 == bits_err(old(self)@, Bits::ShiftLeftArithmetic(o)),
    {
        proof {
            reveal(bits_ok);
            reveal(bits_err);
            reveal(bits_step);
        }
        let s = match self.read_operand(o) {
            Ok(v) => v,
            Err(_) => {
                return Err(CpuError::BusRead);
            },
        };
        let (v, flags) = alu::sla(s);
        let w = self.write_operand(o, v);
        if w.is_err() {
            return Err(CpuError::BusWrite);
        }
        self.write_flags(flags.0);
        Ok(())
    }

    fn ex_bits_sra(&mut self, o: Operand) -> (r: Result<(), CpuError>)
        requires
            old(self)@.wf(),
            crate::inst::cell_operand(o),
        ensures
            final (self)@.wf(),
            r is Ok <==> bits_ok(old(self)@, Bits::ShiftRightArithmetic(o)),
            r is Ok ==> final (self)@ == bits_step(old(self)@, Bits::ShiftRightArithmetic(o)),
            r is Err ==> final (self)@ == old(self)@ && r->Err_0 == bits_err(old(self)@, Bits::ShiftRightArithmetic(o)),
    {
        proof {
            reveal(bits_ok);
            reveal(bits_err);
            reveal(bits_step);
        }
        let s = match self.read_operand(o) {
            Ok(v) => v,
            Err(_) => {
                return Err(CpuError::BusRead);
            },
        };
        let (v, flags) = alu::sra(s);
        let w = self.write_operand(o, v);
        if w.is_err() {
            return Err(CpuError::BusWrite);
        }
        self.write_flags(flags.0);
        Ok(())
    }

    fn ex_bits_srl(&mut self, o: Operand) -> (r: Result<(), CpuError>)
        requires
            old(self)@.wf(),
            crate::inst::cell_operand(o),
        ensures
            final (self)@.wf(),
            r is Ok <==> bits_ok(old(self)@, Bits::ShiftRightLogical(o)),
            r is Ok ==> final (self)@ == bits_step(old(self)@, Bits::ShiftRightLogical(o)),
            r is Err ==> final (self)@ == old(self)@ && r->Err_0 == bits_err(old(self)@, Bits::ShiftRightLogical(o)),
    {
        proof {
            reveal(bits_ok);
            reveal(bits_err);
            reveal(bits_step);
        }
        let s = match self.read_operand(o) {
            Ok(v) => v,
            Err(_) => {
                return Err(CpuError::BusRead);
            },
        };
        let (v, flags) = alu::srl(s);
        let w = self.write_operand(o, v);
        if w.is_err() {
            return Err(CpuError::BusWrite);
        }
        self.write_flags(flags.0);
        Ok(())
    }

    fn ex_bits_swap(&mut self, o: Operand) -> (r: Result<(), CpuError>)
        requires
            old(self)@.wf(),
            crate::inst::cell_operand(o),
        ensures
            final (self)@.wf(),
            r is Ok <==> bits_ok(old(self)@, Bits::Swap(o)),
            r is Ok ==> final (self)@ == bits_step(old(self)@, Bits::Swap(o)),
            r is Err ==> final (self)@ == old(self)@ && r->Err_0 == bits_err(old(self)@, Bits::Swap(o)),
    {
        proof {
            reveal(bits_ok);
            reveal(bits_err);
            reveal(bits_step);
        }
        let s = match self.read_operand(o) {
            Ok(v) => v,
            Err(_) => {
                return Err(CpuError::BusRead);
            },
        };
        let (v, flags) = alu::swap(s);
        let w = self.write_operand(o, v);
        if w.is_err() {
            return Err(CpuError::BusWrite);
        }
        self.write_flags(flags.0);
        Ok(())
    }

    fn ex_bits_rl_acc(&mut self)
        requires
            old(self)@.wf(),
        ensures
            final (self)@.wf(),
            final (self)@ == bits_step(old(self)@, Bits::RotateLeftAccumulator),
    {
        proof {
            reveal(bits_step);
        }
        let a0 = self.get_reg(Register8::A);
        let (v, mut flags) = alu::rl(a0, self.flags());
        flags.set_zero(false);
        self.set_reg(Register8::A, v);
        self.write_flags(flags.0);
    }

    fn ex_bits_rr_acc(&mut self)
        requires
            old(self)@.wf(),
        ensures
            final (self)@.wf(),
            final (self)@ == bits_step(old(self)@, Bits::RotateRightAccumulator),
    {
        proof {
            reveal(bits_step);
        }
        let a0 = self.get_reg(Register8::A);
        let (v, mut flags) = alu::rr(a0, self.flags());
        flags.set_zero(false);
        self.set_reg(Register8::A, v);
        self.write_flags(flags.0);
    }

    fn ex_bits_rlc_acc(&mut self)
        requires
            old(self)@.wf(),
        ensures
            final (self)@.wf(),
            final (self)@ == bits_step(old(self)@, Bits::RotateLeftCarryAccumulator),
    {
        proof {
            reveal(bits_step);
        }
        let a0 = self.get_reg(Register8::A);
        let (v, mut flags) = alu::rlc(a0, self.flags());
        flags.set_zero(false);
        self.set_reg(Register8::A, v);
        self.write_flags(flags.0);
    }

    fn ex_bits_rrc_acc(&mut self)
        requires
            old(self)@.wf(),
        ensures
            final (self)@.wf(),
            final (self)@ == bits_step(old(self)@, Bits::RotateRightCarryAccumulator),
    {
        proof {
            reveal(bits_step);
        }
        let a0 = self.get_reg(Register8::A);
        let (v, mut flags) = alu::rrc(a0, self.flags());
        flags.set_zero(false);
        self.set_reg(Register8::A, v);
        self.write_flags(flags.0);
    }

    fn ex_bits_complement(&mut self)
        requires
            old(self)@.wf(),
        ensures
            final (self)@.wf(),
            final (self)@ == bits_step(old(self)@, Bits::Complement),
    {
        proof {
            reveal(bits_step);
        }
        let mut flags = self.flags();
        flags.set_subtract(true);
        flags.set_halfcarry(true);
        let a0 = self.get_reg(Register8::A);
        self.set_reg(Register8::A, 255 - a0);
        self.write_flags(flags.0);
    }

    fn ex_bits_getbit(&mut self, bit: u8, o: Operand) -> (r: Result<(), CpuError>)
        requires
            old(self)@.wf(),
        ensures
            final (self)@.wf(),
            r is Ok <==> bits_ok(old(self)@, Bits::GetBit(bit, o)),
            r is Ok ==> final (self)@ == bits_step(old(self)@, Bits::GetBit(bit, o)),
            r is Err ==> final (self)@ == old(self)@ && r->Err_0 == bits_err(old(self)@, Bits::GetBit(bit, o)),
    {
        proof {
            reveal(bits_ok);
            reveal(bits_err);
            reveal(bits_step);
        }
        let v = match self.read_operand(o) {
            Ok(v) => v,
            Err(_) => {
                return Err(CpuError::BusRead);
            },
        };
        let mut flags = self.flags();
        flags.set_halfcarry(true);
        flags.set_subtract(false);
        flags.set_zero(!alu::bit_test(v, bit));
        self.write_flags(flags.0);
        Ok(())
    }

    fn ex_bits_resbit(&mut self, bit: u8, o: Operand) -> (r: Result<(), CpuError>)
        requires
            old(self)@.wf(),
            crate::inst::cell_operand(o),
        ensures
            final (self)@.wf(),
            r is Ok <==> bits_ok(old(self)@, Bits::ResetBit(bit, o)),
            r is Ok ==> final (self)@ == bits_step(old(self)@, Bits::ResetBit(bit, o)),
            r is Err ==> final (self)@ == old(self)@ && r->Err_0 == bits_err(old(self)@, Bits::ResetBit(bit, o)),
    {
        proof {
            reveal(bits_ok);
            reveal(bits_err);
            reveal(bits_step);
        }
        let v = match self.read_operand(o) {
            Ok(v) => v,
            Err(_) => {
                return Err(CpuError::BusRead);
            },
        };
        let w = self.write_operand(o, alu::with_bit_cleared(v, bit));
        if w.is_err() {
            return Err(CpuError::BusWrite);
        }
        Ok(())
    }

    fn ex_bits_setbit(&mut self, bit: u8, o: Operand) -> (r: Result<(), CpuError>)
        requires
            old(self)@.wf(),
            crate::inst::cell_operand(o),
        ensures
            final (self)@.wf(),
            r is Ok <==> bits_ok(old(self)@, Bits::SetBit(bit, o)),
            r is Ok ==> final (self)@ == bits_step(old(self)@, Bits::SetBit(bit, o)),
            r is Err ==> final (self)@ == old(self)@ && r->Err_0 == bits_err(old(self)@, Bits::SetBit(bit, o)),
    {
        proof {
            reveal(bits_ok);
            reveal(bits_err);
            reveal(bits_step);
        }
        let v = match self.read_operand(o) {
            Ok(v) => v,
            Err(_) => {
                return Err(CpuError::BusRead);
            },
        };
        let w = self.write_operand(o, alu::with_bit_set(v, bit));
        if w.is_err() {
            return Err(CpuError::BusWrite);
        }
        Ok(())
    }

    /// Executes one bit-manipulation instruction; on a refused bus access
    /// nothing changes and the error says which access was refused.
    fn execute_bits(&mut self, b: Bits) -> (r: Result<(), CpuError>)
        requires
            old(self)@.wf(),
            b.wf(),
        ensures
            final (self)@.wf(),
            r is Ok <==> bits_ok(old(self)@, b),
            r is Ok ==> final (self)@ == bits_step(old(self)@, b),
            r is Err ==> final (self)@ == old(self)@ && r->Err_0 == bits_err(old(self)@, b),
    {
        proof {
            reveal(bits_ok);
            reveal(bits_err);
            reveal(bits_step);
        }
        match b {
            Bits::Complement => {
                self.ex_bits_complement();
                Ok(())
            },
            Bits::RotateLeftAccumulator => {
                self.ex_bits_rl_acc();
                Ok(())
            },
            Bits::RotateRightAccumulator => {
                self.ex_bits_rr_acc();
                Ok(())
            },
            Bits::RotateLeftCarryAccumulator => {
                self.ex_bits_rlc_acc();
                Ok(())
            },
            Bits::RotateRightCarryAccumulator => {
                self.ex_bits_rrc_acc();
                Ok(())
            },
            Bits::RotateLeft(o) => self.ex_bits_rl(o),
            Bits::RotateRight(o) => self.ex_bits_rr(o),
            Bits::RotateLeftCarry(o) => self.ex_bits_rlc(o),
            Bits::RotateRightCarry(o) => self.ex_bits_rrc(o),
            Bits::ShiftLeftArithmetic(o) => self.ex_bits_sla(o),
            Bits::ShiftRightArithmetic(o) => self.ex_bits_sra(o),
            Bits::ShiftRightLogical(o) => self.ex_bits_srl(o),
            Bits::Swap(o) => self.ex_bits_swap(o),
            Bits::GetBit(bit, o) => self.ex_bits_getbit(bit, o),
            Bits::ResetBit(bit, o) => self.ex_bits_resbit(bit, o),
            Bits::SetBit(bit, o) => self.ex_bits_setbit(bit, o),
        }
    }
}


impl CpuView {
    /// Whether a two-byte push at the decremented SP succeeds.
    pub open spec fn push_ok(self) -> bool {
        self.bus.writable(spec_wsub16(self.sp, 2)) && self.bus.writable(
            spec_wadd16(spec_wsub16(self.sp, 2), 1),
        )
    }

    /// The state after pushing a 16-bit value: SP down by two, the value
    /// stored little-endian at the new SP.
    pub open spec fn pushed(self, v: u16) -> CpuView {
        CpuView {
            sp: spec_wsub16(self.sp, 2),
            bus: BusView {
                mem: self.bus.mem.update(spec_wsub16(self.sp, 2) as int, spec_lo(v)).update(
                    spec_wadd16(spec_wsub16(self.sp, 2), 1) as int,
                    spec_hi(v),
                ),
                ..self.bus
            },
            ..self
        }
    }

    /// Whether a two-byte pop at SP succeeds.
    pub open spec fn pop_ok(self) -> bool {
        self.bus.mapped(self.sp) && self.bus.mapped(spec_wadd16(self.sp, 1))
    }

    /// The 16-bit value a pop at SP loads.
    pub open spec fn popped_val(self) -> u16 {
        spec_hi_lo(self.bus.mem[spec_wadd16(self.sp, 1) as int], self.bus.mem[self.sp as int])
    }
}

/// Whether a control instruction's branch is taken; unconditional forms
/// always are.
pub open spec fn control_taken(pre: CpuView, c: Control) -> bool {
    match c {
        Control::JumpConditional(_, cc) => pre.cond(cc),
        Control::JumpRelativeConditional(_, cc) => pre.cond(cc),
        Control::CallConditional(_, cc) => pre.cond(cc),
        Control::ReturnConditional(cc) => pre.cond(cc),
        _ => true,
    }
}

/// Whether a control instruction succeeds in the given state: calls need a
/// writable stack, returns a mapped one, and an untaken branch cannot fail.
#[verifier::opaque]
pub open spec fn control_ok(pre: CpuView, c: Control) -> bool {
    match c {
        Control::Call(_) => pre.push_ok(),
        Control::Reset(_) => pre.push_ok(),
        Control::CallConditional(_, cc) => !pre.cond(cc) || pre.push_ok(),
        Control::Return => pre.pop_ok(),
        Control::InterruptReturn => pre.pop_ok(),
        Control::ReturnConditional(cc) => !pre.cond(cc) || pre.pop_ok(),
        _ => true,
    }
}

/// The error a control instruction surfaces when it fails: the stack write
/// of a call, or the stack read of a return.
#[verifier::opaque]
pub open spec fn control_err(pre: CpuView, c: Control) -> CpuError {
    match c {
        Control::Call(_) => CpuError::BusWrite,
        Control::Reset(_) => CpuError::BusWrite,
        Control::CallConditional(_, _) => CpuError::BusWrite,
        _ => CpuError::BusRead,
    }
}

/// The state a control instruction leaves, before its cycle charge. Taken
/// jumps load PC with their target; calls push the already-advanced PC
/// first; returns pop PC; an untaken branch changes nothing.
#[verifier::opaque]
pub open spec fn control_step(pre: CpuView, c: Control) -> CpuView {
    match c {
        Control::Jump(a) => CpuView { pc: a, ..pre },
        Control::JumpConditional(a, cc) => if pre.cond(cc) {
            CpuView { pc: a, ..pre }
        } else {
            pre
        },
        Control::JumpIndirect => CpuView { pc: pre.r16(Register16::HL), ..pre },
        Control::JumpRelative(o) => CpuView { pc: spec_wadd16(pre.pc, spec_sign_ext(o)), ..pre },
        Control::JumpRelativeConditional(o, cc) => if pre.cond(cc) {
            CpuView { pc: spec_wadd16(pre.pc, spec_sign_ext(o)), ..pre }
        } else {
            pre
        },
        Control::Call(a) => CpuView { pc: a, ..pre.pushed(pre.pc) },
        Control::Reset(a) => CpuView { pc: a, ..pre.pushed(pre.pc) },
        Control::CallConditional(a, cc) => if pre.cond(cc) {
            CpuView { pc: a, ..pre.pushed(pre.pc) }
        } else {
            pre
        },
        Control::Return => CpuView {
            pc: pre.popped_val(),
            sp: spec_wadd16(pre.sp, 2),
            ..pre
        },
        Control::ReturnConditional(cc) => if pre.cond(cc) {
            CpuView { pc: pre.popped_val(), sp: spec_wadd16(pre.sp, 2), ..pre }
        } else {
            pre
        },
        Control::InterruptReturn => CpuView {
            pc: pre.popped_val(),
            sp: spec_wadd16(pre.sp, 2),
            ime: true,
            ..pre
        },
    }
}

impl Cpu {
    /// Whether the given branch condition holds of the current flags.
    fn cond_met(&self, cc: ConditionCode) -> (r: bool)
        ensures
            r == self@.cond(cc),
    {
        match cc {
            ConditionCode::NZ => !self.flags().get_zero(),
            ConditionCode::Z => self.flags().get_zero(),
            ConditionCode::NC => !self.flags().get_carry(),
            ConditionCode::C => self.flags().get_carry(),
        }
    }

    /// A call or reset: pushes the advanced PC and jumps to the target.
    fn ex_ctrl_call(&mut self, a: u16) -> (r: Result<(), CpuError>)
        requires
            old(self)@.wf(),
        ensures
            final (self)@.wf(),
            r is Ok <==> old(self)@.push_ok(),
            r is Ok ==> final (self)@ == (CpuView { pc: a, ..old(self)@.pushed(old(self)@.pc) }),
            r is Err ==> final (self)@ == old(self)@ && r->Err_0 == CpuError::BusWrite,
    {
        let v = self.pc;
        let w = self.push16(v);
        if w.is_err() {
            return Err(CpuError::BusWrite);
        }
        self.pc = a;
        Ok(())
    }

    /// A return: pops PC from the stack.
    fn ex_ctrl_ret(&mut self) -> (r: Result<(), CpuError>)
        requires
            old(self)@.wf(),
        ensures
            final (self)@.wf(),
            r is Ok <==> old(self)@.pop_ok(),
            r is Ok ==> final (self)@ == (CpuView {
                pc: old(self)@.popped_val(),
                sp: spec_wadd16(old(self)@.sp, 2),
                ..old(self)@
            }),
            r is Err ==> final (self)@ == old(self)@ && r->Err_0 == CpuError::BusRead,
    {
        let v = match self.pop16() {
            Ok(v) => v,
            Err(_) => {
                return Err(CpuError::BusRead);
            },
        };
        self.pc = v;
        Ok(())
    }

    /// Executes one control instruction. On success the result reports
    /// whether the branch was taken, for the cycle charge; on a refused
    /// stack access nothing changes.
    fn execute_control(&mut self, c: Control) -> (r: Result<bool, CpuError>)
        requires
            old(self)@.wf(),
        ensures
            final (self)@.wf(),
            r is Ok <==> control_ok(old(self)@, c),
            r is Ok ==> final (self)@ == control_step(old(self)@, c) && r->Ok_0 == control_taken(
                old(self)@,
                c,
            ),
            r is Err ==> final (self)@ == old(self)@ && r->Err_0 == control_err(old(self)@, c),
    {
        proof {
            reveal(control_ok);
            reveal(control_err);
            reveal(control_step);
        }
        match c {
            Control::Jump(a) => {
                self.pc = a;
                Ok(true)
            },
            Control::JumpConditional(a, cc) => {
                if self.cond_met(cc) {
                    self.pc = a;
                    Ok(true)
                } else {
                    Ok(false)
                }
            },
            Control::JumpIndirect => {
                let a = self.read_r16(Register16::HL);
                self.pc = a;
                Ok(true)
            },
            Control::JumpRelative(o) => {
                self.pc = alu::wadd16(self.pc, alu::sign_ext(o));
                Ok(true)
            },
            Control::JumpRelativeConditional(o, cc) => {
                if self.cond_met(cc) {
                    self.pc = alu::wadd16(self.pc, alu::sign_ext(o));
                    Ok(true)
                } else {
                    Ok(false)
                }
            },
            Control::Call(a) => {
                let w = self.ex_ctrl_call(a);
                if w.is_err() {
                    return Err(CpuError::BusWrite);
                }
                Ok(true)
            },
            Control::Reset(a) => {
                let w = self.ex_ctrl_call(a);
                if w.is_err() {
                    return Err(CpuError::BusWrite);
                }
                Ok(true)
            },
            Control::CallConditional(a, cc) => {
                if self.cond_met(cc) {
                    let w = self.ex_ctrl_call(a);
                    if w.is_err() {
                        return Err(CpuError::BusWrite);
                    }
                    Ok(true)
                } else {
                    Ok(false)
                }
            },
            Control::Return => {
                let w = self.ex_ctrl_ret();
                if w.is_err() {
                    return Err(CpuError::BusRead);
                }
                Ok(true)
            },
            Control::ReturnConditional(cc) => {
                if self.cond_met(cc) {
                    let w = self.ex_ctrl_ret();
                    if w.is_err() {
                        return Err(CpuError::BusRead);
                    }
                    Ok(true)
                } else {
                    Ok(false)
                }
            },
            Control::InterruptReturn => {
                let w = self.ex_ctrl_ret();
                if w.is_err() {
                    return Err(CpuError::BusRead);
                }
                self.interrupt_master_enable = true;
                Ok(true)
            },
        }
    }
}


/// Whether a load instruction succeeds in the given state.
#[verifier::opaque]
pub open spec fn load_ok(pre: CpuView, l: Load) -> bool {
    match l {
        Load::Load(dst, src) => pre.operand_read_ok(src) && pre.operand_write_ok(dst),
        Load::LoadRegisterImmediate16(_, _) => true,
        Load::LoadMemoryFromSP(a) => pre.bus.writable(a) && pre.bus.writable(spec_wadd16(a, 1)),
        Load::LoadMemoryFromA(a) => pre.bus.writable(a),
        Load::LoadAFromMemory(a) => pre.bus.mapped(a),
        Load::LoadIndirectHiFromA => pre.bus.writable(crate::inst::spec_hi_page(pre.c)),
        Load::LoadAFromIndirectHi => pre.bus.mapped(crate::inst::spec_hi_page(pre.c)),
        Load::LoadHLFromSP(_) => true,
        Load::LoadSPFromHL => true,
        Load::LoadIndirectRegisterFromA(r) => pre.bus.writable(pre.r16(r)),
        Load::LoadAFromIndirectRegister(r) => pre.bus.mapped(pre.r16(r)),
        Load::LoadIndirectFromA(_) => pre.bus.writable(pre.r16(Register16::HL)),
        Load::LoadAFromIndirect(_) => pre.bus.mapped(pre.r16(Register16::HL)),
        Load::Push(_) => pre.push_ok(),
        Load::Pop(_) => pre.pop_ok(),
    }
}

/// The error a load instruction surfaces when it fails.
#[verifier::opaque]
pub open spec fn load_err(pre: CpuView, l: Load) -> CpuError {
    match l {
        Load::Load(dst, src) => if !pre.operand_read_ok(src) {
            CpuError::BusRead
        } else {
            CpuError::BusWrite
        },
        Load::LoadMemoryFromSP(_) => CpuError::BusWrite,
        Load::LoadMemoryFromA(_) => CpuError::BusWrite,
        Load::LoadAFromMemory(_) => CpuError::BusRead,
        Load::LoadIndirectHiFromA => CpuError::BusWrite,
        Load::LoadAFromIndirectHi => CpuError::BusRead,
        Load::LoadIndirectRegisterFromA(_) => CpuError::BusWrite,
        Load::LoadAFromIndirectRegister(_) => CpuError::BusRead,
        Load::LoadIndirectFromA(_) => CpuError::BusWrite,
        Load::LoadAFromIndirect(_) => CpuError::BusRead,
        Load::Push(_) => CpuError::BusWrite,
        Load::Pop(_) => CpuError::BusRead,
        _ => CpuError::BusRead,
    }
}

/// The state a load instruction leaves, before its cycle charge.
#[verifier::opaque]
pub open spec fn load_step(pre: CpuView, l: Load) -> CpuView {
    match l {
        Load::Load(dst, src) => pre.operand_write(dst, pre.operand_read(src)),
        Load::LoadRegisterImmediate16(r, v) => pre.set_r16(r, v),
        Load::LoadMemoryFromSP(a) => pre.with_mem(
            pre.bus.mem.update(a as int, spec_lo(pre.sp)).update(
                spec_wadd16(a, 1) as int,
                spec_hi(pre.sp),
            ),
        ),
        Load::LoadMemoryFromA(a) => pre.with_mem(pre.bus.mem.update(a as int, pre.a)),
        Load::LoadAFromMemory(a) => CpuView { a: pre.bus.mem[a as int], ..pre },
        Load::LoadIndirectHiFromA => pre.with_mem(
            pre.bus.mem.update(crate::inst::spec_hi_page(pre.c) as int, pre.a),
        ),
        Load::LoadAFromIndirectHi => CpuView {
            a: pre.bus.mem[crate::inst::spec_hi_page(pre.c) as int],
            ..pre
        },
        Load::LoadHLFromSP(o) => {
            let p = alu::spec_add16(pre.sp, spec_sign_ext(o), pre.f);
            pre.set_r16(Register16::HL, p.0).with_flags(
                flag_bits(false, false, spec_halfcarry(p.1), spec_carry(p.1)),
            )
        },
        Load::LoadSPFromHL => CpuView { sp: pre.r16(Register16::HL), ..pre },
        Load::LoadIndirectRegisterFromA(r) => pre.with_mem(
            pre.bus.mem.update(pre.r16(r) as int, pre.a),
        ),
        Load::LoadAFromIndirectRegister(r) => CpuView {
            a: pre.bus.mem[pre.r16(r) as int],
            ..pre
        },
        Load::LoadIndirectFromA(d) => pre.with_mem(
            pre.bus.mem.update(pre.r16(Register16::HL) as int, pre.a),
        ).set_r16(Register16::HL, spec_wadd16(pre.r16(Register16::HL), spec_sign_ext(d))),
        Load::LoadAFromIndirect(d) => (CpuView {
            a: pre.bus.mem[pre.r16(Register16::HL) as int],
            ..pre
        }).set_r16(Register16::HL, spec_wadd16(pre.r16(Register16::HL), spec_sign_ext(d))),
        Load::Push(r) => pre.pushed(pre.r16(r)),
        Load::Pop(r) => {
            let v = pre.popped_val();
            (CpuView { sp: spec_wadd16(pre.sp, 2), ..pre }).set_r16(r, v)
        },
    }
}

impl Cpu {
    /// An 8-bit move between two operands.
    fn ex_load_mov(&mut self, dst: Operand, src: Operand) -> (r: Result<(), CpuError>)
        requires
            old(self)@.wf(),
            dst.writable(),
        ensures
            final (self)@.wf(),
            r is Ok <==> load_ok(old(self)@, Load::Load(dst, src)),
            r is Ok ==> final (self)@ == load_step(old(self)@, Load::Load(dst, src)),
            r is Err ==> final (self)@ == old(self)@ && r->Err_0 == load_err(old(self)@, Load::Load(dst, src)),
    {
        proof {
            reveal(load_ok);
            reveal(load_err);
            reveal(load_step);
        }
        let v = match self.read_operand(src) {
            Ok(v) => v,
            Err(_) => {
                return Err(CpuError::BusRead);
            },
        };
        let w = self.write_operand(dst, v);
        if w.is_err() {
            return Err(CpuError::BusWrite);
        }
        Ok(())
    }

    /// Stores SP little-endian at an absolute address.
    fn ex_load_memsp(&mut self, a: u16) -> (r: Result<(), CpuError>)
        requires
            old(self)@.wf(),
        ensures
            final (self)@.wf(),
            r is Ok <==> load_ok(old(self)@, Load::LoadMemoryFromSP(a)),
            r is Ok ==> final (self)@ == load_step(old(self)@, Load::LoadMemoryFromSP(a)),
            r is Err ==> final (self)@ == old(self)@ && r->Err_0 == load_err(old(self)@, Load::LoadMemoryFromSP(a)),
    {
        proof {
            reveal(load_ok);
            reveal(load_err);
            reveal(load_step);
        }
        let v = self.sp;
        let w = self.bus.write16(a, v);
        if w.is_err() {
            return Err(CpuError::BusWrite);
        }
        Ok(())
    }

    /// Stores the accumulator at an absolute address.
    fn ex_load_mema(&mut self, a: u16) -> (r: Result<(), CpuError>)
        requires
            old(self)@.wf(),
        ensures
            final (self)@.wf(),
            r is Ok <==> load_ok(old(self)@, Load::LoadMemoryFromA(a)),
            r is Ok ==> final (self)@ == load_step(old(self)@, Load::LoadMemoryFromA(a)),
            r is Err ==> final (self)@ == old(self)@ && r->Err_0 == load_err(old(self)@, Load::LoadMemoryFromA(a)),
    {
        proof {
            reveal(load_ok);
            reveal(load_err);
            reveal(load_step);
        }
        let v = self.get_reg(Register8::A);
        let w = self.bus.write(a, v);
        if w.is_err() {
            return Err(CpuError::BusWrite);
        }
        Ok(())
    }

    /// Loads the accumulator from an absolute address.
    fn ex_load_amem(&mut self, a: u16) -> (r: Result<(), CpuError>)
        requires
            old(self)@.wf(),
        ensures
            final (self)@.wf(),
            r is Ok <==> load_ok(old(self)@, Load::LoadAFromMemory(a)),
            r is Ok ==> final (self)@ == load_step(old(self)@, Load::LoadAFromMemory(a)),
            r is Err ==> final (self)@ == old(self)@ && r->Err_0 == load_err(old(self)@, Load::LoadAFromMemory(a)),
    {
        proof {
            reveal(load_ok);
            reveal(load_err);
            reveal(load_step);
        }
        let v = match self.bus.read(a) {
            Ok(v) => v,
            Err(_) => {
                return Err(CpuError::BusRead);
            },
        };
        self.set_reg(Register8::A, v);
        Ok(())
    }

    /// Stores the accumulator at `0xFF00 + C`.
    fn ex_load_hi_from_a(&mut self) -> (r: Result<(), CpuError>)
        requires
            old(self)@.wf(),
        ensures
            final (self)@.wf(),
            r is Ok <==> load_ok(old(self)@, Load::LoadIndirectHiFromA),
            r is Ok ==> final (self)@ == load_step(old(self)@, Load::LoadIndirectHiFromA),
            r is Err ==> final (self)@ == old(self)@ && r->Err_0 == load_err(old(self)@, Load::LoadIndirectHiFromA),
    {
        proof {
            reveal(load_ok);
            reveal(load_err);
            reveal(load_step);
        }
        let a = crate::inst::hi_page(self.get_reg(Register8::C));
        let v = self.get_reg(Register8::A);
        let w = self.bus.write(a, v);
        if w.is_err() {
            return Err(CpuError::BusWrite);
        }
        Ok(())
    }

    /// Loads the accumulator from `0xFF00 + C`.
    fn ex_load_a_from_hi(&mut self) -> (r: Result<(), CpuError>)
        requires
            old(self)@.wf(),
        ensures
            final (self)@.wf(),
            r is Ok <==> load_ok(old(self)@, Load::LoadAFromIndirectHi),
            r is Ok ==> final (self)@ == load_step(old(self)@, Load::LoadAFromIndirectHi),
            r is Err ==> final (self)@ == old(self)@ && r->Err_0 == load_err(old(self)@, Load::LoadAFromIndirectHi),
    {
        proof {
            reveal(load_ok);
            reveal(load_err);
            reveal(load_step);
        }
        let a = crate::inst::hi_page(self.get_reg(Register8::C));
        let v = match self.bus.read(a) {
            Ok(v) => v,
            Err(_) => {
                return Err(CpuError::BusRead);
            },
        };
        self.set_reg(Register8::A, v);
        Ok(())
    }

    /// `LD HL, SP + n`: Z and N cleared, H and C from the 16-bit add.
    fn ex_load_hlsp(&mut self, o: i8)
        requires
            old(self)@.wf(),
        ensures
            final (self)@.wf(),
            final (self)@ == load_step(old(self)@, Load::LoadHLFromSP(o)),
    {
        proof {
            reveal(load_step);
        }
        let (v, flags) = alu::add16(self.sp, alu::sign_ext(o), self.flags());
        let fb = Flags::from_bits(false, false, flags.get_halfcarry(), flags.get_carry());
        self.write_r16(Register16::HL, v);
        self.write_flags(fb.0);
    }

    /// Stores the accumulator through a 16-bit register.
    fn ex_load_ind_from_a(&mut self, r: Register16) -> (res: Result<(), CpuError>)
        requires
            old(self)@.wf(),
        ensures
            final (self)@.wf(),
            res is Ok <==> load_ok(old(self)@, Load::LoadIndirectRegisterFromA(r)),
            res is Ok ==> final (self)@ == load_step(old(self)@, Load::LoadIndirectRegisterFromA(r)),
            res is Err ==> final (self)@ == old(self)@ && res->Err_0 == load_err(old(self)@, Load::LoadIndirectRegisterFromA(r)),
    {
        proof {
            reveal(load_ok);
            reveal(load_err);
            reveal(load_step);
        }
        let v = self.get_reg(Register8::A);
        let w = self.write_indirect(r, v);
        if w.is_err() {
            return Err(CpuError::BusWrite);
        }
        Ok(())
    }

    /// Loads the accumulator through a 16-bit register.
    fn ex_load_a_from_ind(&mut self, r: Register16) -> (res: Result<(), CpuError>)
        requires
            old(self)@.wf(),
        ensures
            final (self)@.wf(),
            res is Ok <==> load_ok(old(self)@, Load::LoadAFromIndirectRegister(r)),
            res is Ok ==> final (self)@ == load_step(old(self)@, Load::LoadAFromIndirectRegister(r)),
            res is Err ==> final (self)@ == old(self)@ && res->Err_0 == load_err(old(self)@, Load::LoadAFromIndirectRegister(r)),
    {
        proof {
            reveal(load_ok);
            reveal(load_err);
            reveal(load_step);
        }
        let v = match self.read_indirect(r) {
            Ok(v) => v,
            Err(_) => {
                return Err(CpuError::BusRead);
            },
        };
        self.set_reg(Register8::A, v);
        Ok(())
    }

    /// `LD (HL+/-), A`: stores through HL, then moves HL by the step.
    fn ex_load_hl_store(&mut self, d: i8) -> (r: Result<(), CpuError>)
        requires
            old(self)@.wf(),
        ensures
            final (self)@.wf(),
            r is Ok <==> load_ok(old(self)@, Load::LoadIndirectFromA(d)),
            r is Ok ==> final (self)@ == load_step(old(self)@, Load::LoadIndirectFromA(d)),
            r is Err ==> final (self)@ == old(self)@ && r->Err_0 == load_err(old(self)@, Load::LoadIndirectFromA(d)),
    {
        proof {
            reveal(load_ok);
            reveal(load_err);
            reveal(load_step);
        }
        let a = self.read_r16(Register16::HL);
        let v = self.get_reg(Register8::A);
        let w = self.bus.write(a, v);
        if w.is_err() {
            return Err(CpuError::BusWrite);
        }
        self.write_r16(Register16::HL, alu::wadd16(a, alu::sign_ext(d)));
        Ok(())
    }

    /// `LD A, (HL+/-)`: loads through HL, then moves HL by the step.
    fn ex_load_hl_load(&mut self, d: i8) -> (r: Result<(), CpuError>)
        requires
            old(self)@.wf(),
        ensures
            final (self)@.wf(),
            r is Ok <==> load_ok(old(self)@, Load::LoadAFromIndirect(d)),
            r is Ok ==> final (self)@ == load_step(old(self)@, Load::LoadAFromIndirect(d)),
            r is Err ==> final (self)@ == old(self)@ && r->Err_0 == load_err(old(self)@, Load::LoadAFromIndirect(d)),
    {
        proof {
            reveal(load_ok);
            reveal(load_err);
            reveal(load_step);
        }
        let a = self.read_r16(Register16::HL);
        let v = match self.bus.read(a) {
            Ok(v) => v,
            Err(_) => {
                return Err(CpuError::BusRead);
            },
        };
        self.set_reg(Register8::A, v);
        self.write_r16(Register16::HL, alu::wadd16(a, alu::sign_ext(d)));
        Ok(())
    }

    /// Pushes a 16-bit register pair.
    fn ex_load_push(&mut self, r: Register16) -> (res: Result<(), CpuError>)
        requires
            old(self)@.wf(),
        ensures
            final (self)@.wf(),
            res is Ok <==> load_ok(old(self)@, Load::Push(r)),
            res is Ok ==> final (self)@ == load_step(old(self)@, Load::Push(r)),
            res is Err ==> final (self)@ == old(self)@ && res->Err_0 == load_err(old(self)@, Load::Push(r)),
    {
        proof {
            reveal(load_ok);
            reveal(load_err);
            reveal(load_step);
        }
        let v = self.read_r16(r);
        let w = self.push16(v);
        if w.is_err() {
            return Err(CpuError::BusWrite);
        }
        Ok(())
    }

    /// Pops into a 16-bit register pair; a pop into AF masks the low nibble
    /// of `F` to zero.
    fn ex_load_pop(&mut self, r: Register16) -> (res: Result<(), CpuError>)
        requires
            old(self)@.wf(),
        ensures
            final (self)@.wf(),
            res is Ok <==> load_ok(old(self)@, Load::Pop(r)),
            res is Ok ==> final (self)@ == load_step(old(self)@, Load::Pop(r)),
            res is Err ==> final (self)@ == old(self)@ && res->Err_0 == load_err(old(self)@, Load::Pop(r)),
    {
        proof {
            reveal(load_ok);
            reveal(load_err);
            reveal(load_step);
        }
        let v = match self.pop16() {
            Ok(v) => v,
            Err(_) => {
                return Err(CpuError::BusRead);
            },
        };
        self.write_r16(r, v);
        Ok(())
    }

    /// Executes one load instruction; on a refused bus access nothing
    /// changes and the error says which access was refused.
    fn execute_load(&mut self, l: Load) -> (r: Result<(), CpuError>)
        requires
            old(self)@.wf(),
            l.wf(),
        ensures
            final (self)@.wf(),
            r is Ok <==> load_ok(old(self)@, l),
            r is Ok ==> final (self)@ == load_step(old(self)@, l),
            r is Err ==> final (self)@ == old(self)@ && r->Err_0 == load_err(old(self)@, l),
    {
        match l {
            Load::Load(dst, src) => self.ex_load_mov(dst, src),
            Load::LoadRegisterImmediate16(rr, v) => {
                proof {
                    reveal(load_ok);
                    reveal(load_err);
                    reveal(load_step);
                }
                self.write_r16(rr, v);
                Ok(())
            },
            Load::LoadMemoryFromSP(a) => self.ex_load_memsp(a),
            Load::LoadMemoryFromA(a) => self.ex_load_mema(a),
            Load::LoadAFromMemory(a) => self.ex_load_amem(a),
            Load::LoadIndirectHiFromA => self.ex_load_hi_from_a(),
            Load::LoadAFromIndirectHi => self.ex_load_a_from_hi(),
            Load::LoadHLFromSP(o) => {
                proof {
                    reveal(load_ok);
                    reveal(load_err);
                }
                self.ex_load_hlsp(o);
                Ok(())
            },
            Load::LoadSPFromHL => {
                proof {
                    reveal(load_ok);
                    reveal(load_err);
                    reveal(load_step);
                }
                let v = self.read_r16(Register16::HL);
                self.write_r16(Register16::SP, v);
                Ok(())
            },
            Load::LoadIndirectRegisterFromA(rr) => self.ex_load_ind_from_a(rr),
            Load::LoadAFromIndirectRegister(rr) => self.ex_load_a_from_ind(rr),
            Load::LoadIndirectFromA(d) => self.ex_load_hl_store(d),
            Load::LoadAFromIndirect(d) => self.ex_load_hl_load(d),
            Load::Push(rr) => self.ex_load_push(rr),
            Load::Pop(rr) => self.ex_load_pop(rr),
        }
    }
}


/// Whether a bitwise-logic instruction succeeds: only the `(HL)` forms can
/// fail, on an unmapped address.
#[verifier::opaque]
pub open spec fn logic_ok(pre: CpuView, l: Logic) -> bool {
    match l {
        Logic::AndIndirect => pre.bus.mapped(pre.r16(Register16::HL)),
        Logic::OrIndirect => pre.bus.mapped(pre.r16(Register16::HL)),
        Logic::XorIndirect => pre.bus.mapped(pre.r16(Register16::HL)),
        _ => true,
    }
}

/// The state a bitwise-logic instruction leaves, before its cycle charge.
#[verifier::opaque]
pub open spec fn logic_step(pre: CpuView, l: Logic) -> CpuView {
    match l {
        Logic::AndImmediate(v) => {
            let p = alu::spec_and(pre.a, v);
            CpuView { a: p.0, f: p.1, ..pre }
        },
        Logic::AndRegister(r) => {
            let p = alu::spec_and(pre.a, pre.reg(r));
            CpuView { a: p.0, f: p.1, ..pre }
        },
        Logic::AndIndirect => {
            let p = alu::spec_and(pre.a, pre.bus.mem[pre.r16(Register16::HL) as int]);
            CpuView { a: p.0, f: p.1, ..pre }
        },
        Logic::OrImmediate(v) => {
            let p = alu::spec_or(pre.a, v);
            CpuView { a: p.0, f: p.1, ..pre }
        },
        Logic::OrRegister(r) => {
            let p = alu::spec_or(pre.a, pre.reg(r));
            CpuView { a: p.0, f: p.1, ..pre }
        },
        Logic::OrIndirect => {
            let p = alu::spec_or(pre.a, pre.bus.mem[pre.r16(Register16::HL) as int]);
            CpuView { a: p.0, f: p.1, ..pre }
        },
        Logic::XorImmediate(v) => {
            let p = alu::spec_xor(pre.a, v);
            CpuView { a: p.0, f: p.1, ..pre }
        },
        Logic::XorRegister(r) => {
            let p = alu::spec_xor(pre.a, pre.reg(r));
            CpuView { a: p.0, f: p.1, ..pre }
        },
        Logic::XorIndirect => {
            let p = alu::spec_xor(pre.a, pre.bus.mem[pre.r16(Register16::HL) as int]);
            CpuView { a: p.0, f: p.1, ..pre }
        },
    }
}

impl Cpu {
    fn ex_logic_and_imm(&mut self, v: u8)
        requires
            old(self)@.wf(),
        ensures
            final (self)@.wf(),
            final (self)@ == logic_step(old(self)@, Logic::AndImmediate(v)),
    {
        proof {
            reveal(logic_step);
        }
        let (value, flags) = alu::and(self.get_reg(Register8::A), v);
        self.set_reg(Register8::A, value);
        self.write_flags(flags.0);
    }

    fn ex_logic_and_reg(&mut self, r: Register8)
        requires
            old(self)@.wf(),
        ensures
            final (self)@.wf(),
            final (self)@ == logic_step(old(self)@, Logic::AndRegister(r)),
    {
        proof {
            reveal(logic_step);
        }
        let v = self.get_reg(r);
        let (value, flags) = alu::and(self.get_reg(Register8::A), v);
        self.set_reg(Register8::A, value);
        self.write_flags(flags.0);
    }

    fn ex_logic_and_ind(&mut self) -> (r: Result<(), CpuError>)
        requires
            old(self)@.wf(),
        ensures
            final (self)@.wf(),
            r is Ok <==> logic_ok(old(self)@, Logic::AndIndirect),
            r is Ok ==> final (self)@ == logic_step(old(self)@, Logic::AndIndirect),
            r is Err ==> final (self)@ == old(self)@ && r->Err_0 == CpuError::BusRead,
    {
        proof {
            reveal(logic_ok);
            reveal(logic_step);
        }
        let v = match self.read_indirect(Register16::HL) {
            Ok(v) => v,
            Err(_) => {
                return Err(CpuError::BusRead);
            },
        };
        let (value, flags) = alu::and(self.get_reg(Register8::A), v);
        self.set_reg(Register8::A, value);
        self.write_flags(flags.0);
        Ok(())
    }

    fn ex_logic_or_imm(&mut self, v: u8)
        requires
            old(self)@.wf(),
        ensures
            final (self)@.wf(),
            final (self)@ == logic_step(old(self)@, Logic::OrImmediate(v)),
    {
        proof {
            reveal(logic_step);
        }
        let (value, flags) = alu::or(self.get_reg(Register8::A), v);
        self.set_reg(Register8::A, value);
        self.write_flags(flags.0);
    }

    fn ex_logic_or_reg(&mut self, r: Register8)
        requires
            old(self)@.wf(),
        ensures
            final (self)@.wf(),
            final (self)@ == logic_step(old(self)@, Logic::OrRegister(r)),
    {
        proof {
            reveal(logic_step);
        }
        let v = self.get_reg(r);
        let (value, flags) = alu::or(self.get_reg(Register8::A), v);
        self.set_reg(Register8::A, value);
        self.write_flags(flags.0);
    }

    fn ex_logic_or_ind(&mut self) -> (r: Result<(), CpuError>)
        requires
            old(self)@.wf(),
        ensures
            final (self)@.wf(),
            r is Ok <==> logic_ok(old(self)@, Logic::OrIndirect),
            r is Ok ==> final (self)@ == logic_step(old(self)@, Logic::OrIndirect),
            r is Err ==> final (self)@ == old(self)@ && r->Err_0 == CpuError::BusRead,
    {
        proof {
            reveal(logic_ok);
            reveal(logic_step);
        }
        let v = match self.read_indirect(Register16::HL) {
            Ok(v) => v,
            Err(_) => {
                return Err(CpuError::BusRead);
            },
        };
        let (value, flags) = alu::or(self.get_reg(Register8::A), v);
        self.set_reg(Register8::A, value);
        self.write_flags(flags.0);
        Ok(())
    }

    fn ex_logic_xor_imm(&mut self, v: u8)
        requires
            old(self)@.wf(),
        ensures
            final (self)@.wf(),
            final (self)@ == logic_step(old(self)@, Logic::XorImmediate(v)),
    {
        proof {
            reveal(logic_step);
        }
        let (value, flags) = alu::xor(self.get_reg(Register8::A), v);
        self.set_reg(Register8::A, value);
        self.write_flags(flags.0);
    }

    fn ex_logic_xor_reg(&mut self, r: Register8)
        requires
            old(self)@.wf(),
        ensures
            final (self)@.wf(),
            final (self)@ == logic_step(old(self)@, Logic::XorRegister(r)),
    {
        proof {
            reveal(logic_step);
        }
        let v = self.get_reg(r);
        let (value, flags) = alu::xor(self.get_reg(Register8::A), v);
        self.set_reg(Register8::A, value);
        self.write_flags(flags.0);
    }

    fn ex_logic_xor_ind(&mut self) -> (r: Result<(), CpuError>)
        requires
            old(self)@.wf(),
        ensures
            final (self)@.wf(),
            r is Ok <==> logic_ok(old(self)@, Logic::XorIndirect),
            r is Ok ==> final (self)@ == logic_step(old(self)@, Logic::XorIndirect),
            r is Err ==> final (self)@ == old(self)@ && r->Err_0 == CpuError::BusRead,
    {
        proof {
            reveal(logic_ok);
            reveal(logic_step);
        }
        let v = match self.read_indirect(Register16::HL) {
            Ok(v) => v,
            Err(_) => {
                return Err(CpuError::BusRead);
            },
        };
        let (value, flags) = alu::xor(self.get_reg(Register8::A), v);
        self.set_reg(Register8::A, value);
        self.write_flags(flags.0);
        Ok(())
    }

    /// Executes one bitwise-logic instruction; the `(HL)` forms fail on an
    /// unmapped address, changing nothing.
    fn execute_logic(&mut self, l: Logic) -> (r: Result<(), CpuError>)
        requires
            old(self)@.wf(),
        ensures
            final (self)@.wf(),
            r is Ok <==> logic_ok(old(self)@, l),
            r is Ok ==> final (self)@ == logic_step(old(self)@, l),
            r is Err ==> final (self)@ == old(self)@ && r->Err_0 == CpuError::BusRead,
    {
        proof {
            reveal(logic_ok);
        }
        match l {
            Logic::AndImmediate(v) => {
                self.ex_logic_and_imm(v);
                Ok(())
            },
            Logic::AndRegister(r) => {
                self.ex_logic_and_reg(r);
                Ok(())
            },
            Logic::AndIndirect => self.ex_logic_and_ind(),
            Logic::OrImmediate(v) => {
                self.ex_logic_or_imm(v);
                Ok(())
            },
            Logic::OrRegister(r) => {
                self.ex_logic_or_reg(r);
                Ok(())
            },
            Logic::OrIndirect => self.ex_logic_or_ind(),
            Logic::XorImmediate(v) => {
                self.ex_logic_xor_imm(v);
                Ok(())
            },
            Logic::XorRegister(r) => {
                self.ex_logic_xor_reg(r);
                Ok(())
            },
            Logic::XorIndirect => self.ex_logic_xor_ind(),
        }
    }
}

/// Whether one instruction executes without a bus fault in the given state.
#[verifier::opaque]
pub open spec fn step_ok(pre: CpuView, i: Instruction) -> bool {
    match i {
        Instruction::Compare(o) => pre.operand_read_ok(o),
        Instruction::Arith(a) => arith_ok(pre, a),
        Instruction::Bits(b) => bits_ok(pre, b),
        Instruction::Control(c) => control_ok(pre, c),
        Instruction::Load(l) => load_ok(pre, l),
        Instruction::Logic(l) => logic_ok(pre, l),
        _ => true,
    }
}

/// The error an instruction surfaces when it fails.
#[verifier::opaque]
pub open spec fn step_err(pre: CpuView, i: Instruction) -> CpuError {
    match i {
        Instruction::Arith(a) => arith_err(pre, a),
        Instruction::Bits(b) => bits_err(pre, b),
        Instruction::Control(c) => control_err(pre, c),
        Instruction::Load(l) => load_err(pre, l),
        _ => CpuError::BusRead,
    }
}

/// Whether the instruction's branch is taken; every instruction outside the
/// control family counts as taken for the cycle charge.
pub open spec fn spec_taken(pre: CpuView, i: Instruction) -> bool {
    match i {
        Instruction::Control(c) => control_taken(pre, c),
        _ => true,
    }
}

/// The state one successful instruction leaves, before its cycle charge.
#[verifier::opaque]
pub open spec fn step_base(pre: CpuView, i: Instruction) -> CpuView {
    match i {
        Instruction::Nop => pre,
        Instruction::EnableInterrupts => CpuView { ime: true, ..pre },
        Instruction::DisableInterrupts => CpuView { ime: false, ..pre },
        Instruction::Halt => CpuView { halted: true, ..pre },
        Instruction::Stop => CpuView { halted: true, ..pre },
        Instruction::SetCarry => pre.with_flags(
            flag_bits(spec_zero(pre.f), false, false, true),
        ),
        Instruction::ClearCarry => pre.with_flags(
            flag_bits(spec_zero(pre.f), false, false, !spec_carry(pre.f)),
        ),
        Instruction::Compare(o) => pre.with_flags(
            alu::spec_sub(pre.a, pre.operand_read(o)).1,
        ),
        Instruction::Arith(a) => arith_step(pre, a),
        Instruction::Bits(b) => bits_step(pre, b),
        Instruction::Control(c) => control_step(pre, c),
        Instruction::Load(l) => load_step(pre, l),
        Instruction::Logic(l) => logic_step(pre, l),
    }
}

/// The state one successful instruction leaves: its effect, then the cycle
/// charge from the nominal cost table.
pub open spec fn step(pre: CpuView, i: Instruction) -> CpuView {
    step_base(pre, i).charge(i.spec_cycles(spec_taken(pre, i)))
}

/// No arithmetic effect touches the cycle counter; the charge is applied
/// separately from the cost table. The same holds of each family below.
#[verifier::rlimit(60)]
pub proof fn lemma_arith_cycle_unchanged(pre: CpuView, a: Arith)
    ensures
        arith_step(pre, a).cycle == pre.cycle,
        arith_step(pre, a).debug_halted == pre.debug_halted,
        arith_step(pre, a).trace == pre.trace,
        arith_step(pre, a).breakpoints == pre.breakpoints,
        arith_step(pre, a).bus.events == pre.bus.events,
        arith_step(pre, a).bus.interrupt_enable == pre.bus.interrupt_enable,
        arith_step(pre, a).bus.read_only_below == pre.bus.read_only_below,
{
    reveal(arith_step);
}

#[verifier::rlimit(100)]
#[verifier::spinoff_prover]
pub proof fn lemma_bits_cycle_unchanged(pre: CpuView, b: Bits)
    ensures
        bits_step(pre, b).cycle == pre.cycle,
        bits_step(pre, b).debug_halted == pre.debug_halted,
        bits_step(pre, b).trace == pre.trace,
        bits_step(pre, b).breakpoints == pre.breakpoints,
        bits_step(pre, b).bus.events == pre.bus.events,
        bits_step(pre, b).bus.interrupt_enable == pre.bus.interrupt_enable,
        bits_step(pre, b).bus.read_only_below == pre.bus.read_only_below,
{
    reveal(bits_step);
}

#[verifier::rlimit(60)]
pub proof fn lemma_control_cycle_unchanged(pre: CpuView, c: Control)
    ensures
        control_step(pre, c).cycle == pre.cycle,
        control_step(pre, c).debug_halted == pre.debug_halted,
        control_step(pre, c).trace == pre.trace,
        control_step(pre, c).breakpoints == pre.breakpoints,
        control_step(pre, c).bus.events == pre.bus.events,
        control_step(pre, c).bus.interrupt_enable == pre.bus.interrupt_enable,
        control_step(pre, c).bus.read_only_below == pre.bus.read_only_below,
{
    reveal(control_step);
}

#[verifier::rlimit(60)]
pub proof fn lemma_load_cycle_unchanged(pre: CpuView, l: Load)
    ensures
        load_step(pre, l).cycle == pre.cycle,
        load_step(pre, l).debug_halted == pre.debug_halted,
        load_step(pre, l).trace == pre.trace,
        load_step(pre, l).breakpoints == pre.breakpoints,
        load_step(pre, l).bus.events == pre.bus.events,
        load_step(pre, l).bus.interrupt_enable == pre.bus.interrupt_enable,
        load_step(pre, l).bus.read_only_below == pre.bus.read_only_below,
{
    reveal(load_step);
}

#[verifier::rlimit(60)]
pub proof fn lemma_logic_cycle_unchanged(pre: CpuView, l: Logic)
    ensures
        logic_step(pre, l).cycle == pre.cycle,
        logic_step(pre, l).debug_halted == pre.debug_halted,
        logic_step(pre, l).trace == pre.trace,
        logic_step(pre, l).breakpoints == pre.breakpoints,
        logic_step(pre, l).bus.events == pre.bus.events,
        logic_step(pre, l).bus.interrupt_enable == pre.bus.interrupt_enable,
        logic_step(pre, l).bus.read_only_below == pre.bus.read_only_below,
{
    reveal(logic_step);
}

/// No instruction effect touches the cycle counter before the charge.
pub proof fn lemma_step_base_cycle(pre: CpuView, i: Instruction)
    ensures
        step_base(pre, i).cycle == pre.cycle,
        step_base(pre, i).debug_halted == pre.debug_halted,
        step_base(pre, i).trace == pre.trace,
        step_base(pre, i).breakpoints == pre.breakpoints,
        step_base(pre, i).bus.events == pre.bus.events,
        step_base(pre, i).bus.interrupt_enable == pre.bus.interrupt_enable,
        step_base(pre, i).bus.read_only_below == pre.bus.read_only_below,
{
    reveal(step_base);
    match i {
        Instruction::Arith(a) => lemma_arith_cycle_unchanged(pre, a),
        Instruction::Bits(b) => lemma_bits_cycle_unchanged(pre, b),
        Instruction::Control(c) => lemma_control_cycle_unchanged(pre, c),
        Instruction::Load(l) => lemma_load_cycle_unchanged(pre, l),
        Instruction::Logic(l) => lemma_logic_cycle_unchanged(pre, l),
        _ => (),
    }
}

/// Every instruction's nominal cost lies between four and twenty-four
/// cycles.
pub proof fn lemma_cycles_bounds(i: Instruction, taken: bool)
    ensures
        4 <= i.spec_cycles(taken) <= 24,
{
}

impl Cpu {
    /// A compare: the flags of `A - v`, discarding the value.
    fn ex_compare(&mut self, o: Operand) -> (r: Result<(), CpuError>)
        requires
            old(self)@.wf(),
        ensures
            final (self)@.wf(),
            r is Ok <==> old(self)@.operand_read_ok(o),
            r is Ok ==> final (self)@ == old(self)@.with_flags(
                alu::spec_sub(old(self)@.a, old(self)@.operand_read(o)).1,
            ),
            r is Err ==> final (self)@ == old(self)@ && r->Err_0 == CpuError::BusRead,
    {
        let v = match self.read_operand(o) {
            Ok(v) => v,
            Err(_) => {
                return Err(CpuError::BusRead);
            },
        };
        let (_value, flags) = alu::sub(self.get_reg(Register8::A), v);
        self.write_flags(flags.0);
        Ok(())
    }

    /// Executes one instruction and charges its nominal cycle cost. On a
    /// refused bus access nothing changes, the error says which access was
    /// refused, and no cycles are charged.
    pub fn execute(&mut self, i: Instruction) -> (r: Result<(), CpuError>)
        requires
            old(self)@.wf(),
            i.wf(),
            old(self)@.cycle <= u64::MAX - 64,
        ensures
            final (self)@.wf(),
            r is Ok <==> step_ok(old(self)@, i),
            r is Ok ==> final (self)@ == step(old(self)@, i),
            r is Err ==> final (self)@ == old(self)@ && r->Err_0 == step_err(old(self)@, i),
    {
        proof {
            reveal(step_ok);
            reveal(step_err);
            reveal(step_base);
        }
        let taken: bool = match i {
            Instruction::Nop => true,
            Instruction::EnableInterrupts => {
                self.interrupt_master_enable = true;
                true
            },
            Instruction::DisableInterrupts => {
                self.interrupt_master_enable = false;
                true
            },
            Instruction::Halt => {
                self.halted = true;
                true
            },
            Instruction::Stop => {
                self.halted = true;
                true
            },
            Instruction::SetCarry => {
                let mut f = self.flags();
                f.set_subtract(false);
                f.set_halfcarry(false);
                f.set_carry(true);
                self.write_flags(f.0);
                true
            },
            Instruction::ClearCarry => {
                let mut f = self.flags();
                let c = f.get_carry();
                f.set_subtract(false);
                f.set_halfcarry(false);
                f.set_carry(!c);
                self.write_flags(f.0);
                true
            },
            Instruction::Compare(o) => {
                match self.ex_compare(o) {
                    Ok(_) => true,
                    Err(e) => {
                        return Err(e);
                    },
                }
            },
            Instruction::Arith(a) => {
                match self.execute_arith(a) {
                    Ok(_) => true,
                    Err(e) => {
                        return Err(e);
                    },
                }
            },
            Instruction::Bits(b) => {
                match self.execute_bits(b) {
                    Ok(_) => true,
                    Err(e) => {
                        return Err(e);
                    },
                }
            },
            Instruction::Control(c) => {
                match self.execute_control(c) {
                    Ok(t) => t,
                    Err(e) => {
                        return Err(e);
                    },
                }
            },
            Instruction::Load(l) => {
                match self.execute_load(l) {
                    Ok(_) => true,
                    Err(e) => {
                        return Err(e);
                    },
                }
            },
            Instruction::Logic(l) => {
                match self.execute_logic(l) {
                    Ok(_) => true,
                    Err(e) => {
                        return Err(e);
                    },
                }
            },
        };
        proof {
            match i {
                Instruction::Arith(a) => lemma_arith_cycle_unchanged(old(self)@, a),
                Instruction::Bits(b) => lemma_bits_cycle_unchanged(old(self)@, b),
                Instruction::Control(c) => lemma_control_cycle_unchanged(old(self)@, c),
                Instruction::Load(l) => lemma_load_cycle_unchanged(old(self)@, l),
                Instruction::Logic(l) => lemma_logic_cycle_unchanged(old(self)@, l),
                _ => (),
            }
        }
        let n = i.cycles(taken);
        self.cycle = self.cycle + n as u64;
        Ok(())
    }
}


/// Whether the three-byte window at PC can be read.
pub open spec fn fetch_ok(pre: CpuView) -> bool {
    pre.bus.mapped(pre.pc) && pre.bus.mapped(spec_wadd16(pre.pc, 1)) && pre.bus.mapped(
        spec_wadd16(pre.pc, 2),
    )
}

/// The decoding of the three bytes at PC.
pub open spec fn spec_fetch(pre: CpuView) -> Result<(Instruction, u8), ()> {
    Instruction::spec_decode(
        [
            pre.bus.mem[pre.pc as int],
            pre.bus.mem[spec_wadd16(pre.pc, 1) as int],
            pre.bus.mem[spec_wadd16(pre.pc, 2) as int],
        ],
    )
}

impl CpuView {
    /// The state after appending a trace entry, evicting the oldest entry
    /// once the ring is full.
    pub open spec fn trace_pushed(self, e: (u16, Instruction)) -> CpuView {
        if self.trace.len() >= TRACE_CAPACITY {
            CpuView { trace: self.trace.remove(0).push(e), ..self }
        } else {
            CpuView { trace: self.trace.push(e), ..self }
        }
    }
}

/// Whether an interrupt dispatch succeeds: it can fail only on the push of
/// PC, and only when IME and the source's enable bit ask for a dispatch.
pub open spec fn dispatch_ok(pre: CpuView, source: Interrupt) -> bool {
    !(pre.ime && source.spec_is_enabled(pre.bus.interrupt_enable)) || pre.push_ok()
}

/// The state after offering an interrupt to the core. With IME set and the
/// source enabled, PC is pushed, PC loads the vector, IME falls and twenty
/// cycles are charged. An enabled interrupt wakes a halted core even with
/// IME clear.
pub open spec fn dispatch(pre: CpuView, source: Interrupt) -> CpuView {
    let enabled = source.spec_is_enabled(pre.bus.interrupt_enable);
    let served = if pre.ime && enabled {
        (CpuView { pc: source.spec_table_address(), ime: false, ..pre.pushed(pre.pc) }).charge(20)
    } else {
        pre
    };
    if served.halted && enabled {
        CpuView { halted: false, ..served }
    } else {
        served
    }
}

/// The bus state after the earliest pending event is consumed.
pub open spec fn event_popped(pre: CpuView) -> CpuView {
    CpuView { bus: BusView { events: pre.bus.events.drop_first(), ..pre.bus }, ..pre }
}

/// The outcome of pumping the peripherals: if an event is due, it is
/// consumed and offered to the core as an interrupt.
pub open spec fn spec_pump(mid: CpuView) -> (CpuView, Result<(), CpuError>) {
    if !mid.bus.pump_fires(mid.cycle) {
        (mid, Ok(()))
    } else {
        let source = mid.bus.events[0].interrupt;
        let evd = event_popped(mid);
        if !dispatch_ok(evd, source) {
            (evd, Err(CpuError::BusWrite))
        } else {
            (dispatch(evd, source), Ok(()))
        }
    }
}

/// One run cycle of the core: a halted core idles; a breakpoint at PC fires
/// once and stops the cycle; otherwise the instruction at PC is fetched,
/// traced, PC advanced by its length, the instruction executed, and the
/// peripherals pumped, which may dispatch an interrupt.
#[verifier::opaque]
pub open spec fn spec_run_cycle(pre: CpuView) -> (CpuView, Result<(), CpuError>) {
    if pre.halted {
        (pre, Ok(()))
    } else if pre.breakpoints.contains(pre.pc) {
        (
            CpuView { breakpoints: pre.breakpoints.remove_value(pre.pc), ..pre },
            Err(CpuError::Breakpoint),
        )
    } else if !fetch_ok(pre) {
        (pre, Err(CpuError::BusRead))
    } else if spec_fetch(pre) is Err {
        (pre, Err(CpuError::Decode))
    } else {
        let p = spec_fetch(pre)->Ok_0;
        let traced = pre.trace_pushed((pre.pc, p.0));
        let advanced = CpuView { pc: spec_wadd16(traced.pc, p.1 as u16), ..traced };
        if !step_ok(advanced, p.0) {
            (advanced, Err(step_err(advanced, p.0)))
        } else {
            spec_pump(step(advanced, p.0))
        }
    }
}

impl Cpu {
    /// Reads and decodes the three-byte window at PC. A failed read reports
    /// a bus error; reserved opcodes report a decode error.
    pub fn fetch_instruction(&self) -> (r: Result<(Instruction, u8), CpuError>)
        ensures
            r is Ok <==> fetch_ok(self@) && spec_fetch(self@) is Ok,
            r is Ok ==> r->Ok_0 == spec_fetch(self@)->Ok_0 && r->Ok_0.0.wf() && 1 <= r->Ok_0.1
                <= 3,
            !fetch_ok(self@) ==> r->Err_0 == CpuError::BusRead,
            fetch_ok(self@) && spec_fetch(self@) is Err ==> r->Err_0 == CpuError::Decode,
    {
        let b0 = match self.bus.read(self.pc) {
            Ok(v) => v,
            Err(_) => {
                return Err(CpuError::BusRead);
            },
        };
        let b1 = match self.bus.read(alu::wadd16(self.pc, 1)) {
            Ok(v) => v,
            Err(_) => {
                return Err(CpuError::BusRead);
            },
        };
        let b2 = match self.bus.read(alu::wadd16(self.pc, 2)) {
            Ok(v) => v,
            Err(_) => {
                return Err(CpuError::BusRead);
            },
        };
        match Instruction::decode([b0, b1, b2]) {
            Ok(p) => Ok(p),
            Err(_) => Err(CpuError::Decode),
        }
    }

    /// The position of a breakpoint in the set, if it is present: the first
    /// index holding the address.
    fn find_breakpoint(&self, a: u16) -> (r: Option<usize>)
        ensures
            r is Some <==> self@.breakpoints.contains(a),
            r is Some ==> self@.breakpoints.index_of_first(a) == Some(r->0 as int),
    {
        proof {
            self@.breakpoints.index_of_first_ensures(a);
        }
        let mut i: usize = 0;
        while i < self.breakpoints.len()
            invariant
                0 <= i <= self@.breakpoints.len(),
                forall|j: int| 0 <= j < i ==> self@.breakpoints[j] != a,
            decreases self@.breakpoints.len() - i,
        {
            if self.breakpoints[i] == a {
                proof {
                    self@.breakpoints.index_of_first_ensures(a);
                    let fi = self@.breakpoints.index_of_first(a)->Some_0;
                    assert(self@.breakpoints[i as int] == a);
                    if fi < i {
                        assert(self@.breakpoints[fi] != a);
                    }
                    if fi > i {
                        assert(self@.breakpoints[i as int] != a);
                    }
                }
                return Some(i);
            }
            i += 1;
        }
        proof {
            self@.breakpoints.index_of_first_ensures(a);
        }
        None
    }

    /// Arms a breakpoint at an address; arming an armed address changes
    /// nothing.
    pub fn add_breakpoint(&mut self, a: u16)
        ensures
            final (self)@ == (CpuView {
                breakpoints: if old(self)@.breakpoints.contains(a) {
                    old(self)@.breakpoints
                } else {
                    old(self)@.breakpoints.push(a)
                },
                ..old(self)@
            }),
            old(self)@.wf() ==> final (self)@.wf(),
    {
        if self.find_breakpoint(a).is_none() {
            self.breakpoints.push(a);
        }
    }

    /// Disarms the breakpoint at an address, if one is armed.
    pub fn remove_breakpoint(&mut self, a: u16)
        ensures
            final (self)@ == (CpuView {
                breakpoints: old(self)@.breakpoints.remove_value(a),
                ..old(self)@
            }),
            old(self)@.wf() ==> final (self)@.wf(),
    {
        proof {
            self@.breakpoints.index_of_first_ensures(a);
        }
        match self.find_breakpoint(a) {
            Some(i) => {
                self.breakpoints.remove(i);
            },
            None => {},
        }
    }

    /// How many trace entries are held.
    pub fn trace_len(&self) -> (r: usize)
        ensures
            r == self@.trace.len(),
    {
        self.last_instructions.len()
    }

    /// One trace entry: the PC an instruction was fetched from, and the
    /// instruction; index zero is the oldest retained entry.
    pub fn trace_at(&self, i: usize) -> (r: (u16, Instruction))
        requires
            i < self@.trace.len(),
        ensures
            r == self@.trace[i as int],
    {
        self.last_instructions[i]
    }

    /// Offers one pending interrupt to the core. With IME set and the source
    /// enabled in the interrupt-enable register, the current PC is pushed,
    /// PC loads the source's vector, IME falls and twenty cycles are
    /// charged; an enabled interrupt also wakes a halted core, IME or not.
    /// If the push is refused nothing changes and IME is untouched.
    fn handle_interrupt(&mut self, source: Interrupt) -> (r: Result<(), CpuError>)
        requires
            old(self)@.wf(),
            old(self)@.cycle <= u64::MAX - 20,
        ensures
            final (self)@.wf(),
            r is Ok <==> dispatch_ok(old(self)@, source),
            r is Ok ==> final (self)@ == dispatch(old(self)@, source),
            r is Err ==> final (self)@ == old(self)@ && r->Err_0 == CpuError::BusWrite,
    {
        let enabled = source.is_enabled(self.bus.interrupt_enable());
        if self.interrupt_master_enable && enabled {
            let v = self.pc;
            let w = self.push16(v);
            if w.is_err() {
                return Err(CpuError::BusWrite);
            }
            self.pc = source.table_address();
            self.interrupt_master_enable = false;
            self.cycle = self.cycle + 20;
        }
        if self.halted && enabled {
            self.halted = false;
        }
        Ok(())
    }

    /// Pumps the peripherals through the current cycle and offers any event
    /// that fired to the core.
    fn drive_peripherals(&mut self) -> (r: Result<(), CpuError>)
        requires
            old(self)@.wf(),
            old(self)@.cycle <= u64::MAX - 20,
        ensures
            final (self)@.wf(),
            final (self)@ == spec_pump(old(self)@).0,
            r == spec_pump(old(self)@).1,
    {
        let c = self.cycle;
        let ghost pre = self@;
        match self.bus.pump(c) {
            Some(i) => {
                proof {
                    assert(self@ =~= event_popped(pre));
                }
                match self.handle_interrupt(i) {
                    Ok(()) => Ok(()),
                    Err(e) => Err(e),
                }
            },
            None => {
                proof {
                    assert(self@ =~= pre);
                }
                Ok(())
            },
        }
    }

    /// One fetch/decode/execute cycle, followed by a peripheral pump. A
    /// halted core idles. A breakpoint at PC fires once: it is removed and
    /// the cycle stops with a breakpoint signal. A refused bus access, a
    /// reserved opcode and a malformed `Stop` stop the cycle with the
    /// matching error; the run loop decides what halts.
    pub fn run_cycle(&mut self) -> (r: Result<(), CpuError>)
        requires
            old(self)@.wf(),
            old(self)@.cycle <= u64::MAX - 64,
        ensures
            final (self)@.wf(),
            final (self)@ == spec_run_cycle(old(self)@).0,
            r == spec_run_cycle(old(self)@).1,
    {
        proof {
            reveal(spec_run_cycle);
        }
        if self.halted {
            return Ok(());
        }
        let pc0 = self.pc;
        match self.find_breakpoint(pc0) {
            Some(i) => {
                proof {
                    self@.breakpoints.index_of_first_ensures(pc0);
                }
                self.breakpoints.remove(i);
                return Err(CpuError::Breakpoint);
            },
            None => {},
        }
        let (instruction, len) = match self.fetch_instruction() {
            Ok(p) => p,
            Err(e) => {
                return Err(e);
            },
        };
        if self.last_instructions.len() >= TRACE_CAPACITY {
            self.last_instructions.remove(0);
        }
        self.last_instructions.push((pc0, instruction));
        self.pc = alu::wadd16(self.pc, len as u16);
        let ghost advanced = self@;
        let ex = self.execute(instruction);
        if ex.is_err() {
            return Err(ex.unwrap_err());
        }
        proof {
            lemma_step_base_cycle(advanced, instruction);
            lemma_cycles_bounds(instruction, spec_taken(advanced, instruction));
        }
        self.drive_peripherals()
    }
}


/// The cycle count a wall-clock duration covers at the exact clock rate,
/// the whole seconds and the sub-second nanoseconds counted separately.
pub open spec fn spec_duration_cycles(secs: u64, nanos: u32) -> u64 {
    (secs * crate::CLOCK_RATE + crate::CLOCK_RATE * nanos / 1_000_000_000) as u64
}

/// Converts a duration, given as whole seconds and sub-second nanoseconds,
/// to the cycle count it covers at the clock rate.
pub fn duration_to_cycle_count(secs: u64, nanos: u32) -> (r: u64)
    requires
        nanos < 1_000_000_000,
        secs * crate::CLOCK_RATE + crate::CLOCK_RATE <= u64::MAX,
    ensures
        r == spec_duration_cycles(secs, nanos),
{
    let scount = secs * crate::CLOCK_RATE;
    let ncount = crate::CLOCK_RATE * (nanos as u64) / 1_000_000_000;
    proof {
        assert(crate::CLOCK_RATE * (nanos as u64) <= crate::CLOCK_RATE * 999_999_999)
            by (nonlinear_arith)
            requires
                nanos < 1_000_000_000,
        ;
        assert(crate::CLOCK_RATE * (nanos as u64) / 1_000_000_000 <= crate::CLOCK_RATE
            * 999_999_999 / 1_000_000_000) by (nonlinear_arith)
            requires
                crate::CLOCK_RATE * (nanos as u64) <= crate::CLOCK_RATE * 999_999_999,
        ;
    }
    scount + ncount
}

/// The cycle the duration-bounded runner aims for: the starting cycle plus
/// the budget, held below the top of the counter so a final instruction and
/// dispatch still fit.
pub open spec fn spec_stop_cycle(c: u64, n: u64) -> u64 {
    if c + n > u64::MAX - 64 {
        (u64::MAX - 64) as u64
    } else {
        (c + n) as u64
    }
}

/// One run cycle never decreases the cycle counter or grows the event
/// schedule, leaves the debug-halt flag alone, idles when halted, and
/// charges at least four cycles for an executed instruction.
pub proof fn lemma_run_cycle_progress(pre: CpuView)
    requires
        pre.wf(),
        pre.cycle <= u64::MAX - 64,
    ensures
        spec_run_cycle(pre).0.cycle >= pre.cycle,
        spec_run_cycle(pre).0.cycle <= pre.cycle + 44,
        spec_run_cycle(pre).0.bus.events.len() <= pre.bus.events.len(),
        spec_run_cycle(pre).0.debug_halted == pre.debug_halted,
        pre.halted ==> spec_run_cycle(pre).0 == pre && spec_run_cycle(pre).1 is Ok,
        !pre.halted && spec_run_cycle(pre).1 is Ok ==> spec_run_cycle(pre).0.cycle >= pre.cycle
            + 4,
{
    reveal(spec_run_cycle);
    if !pre.halted && !pre.breakpoints.contains(pre.pc) && fetch_ok(pre) && spec_fetch(pre)
        is Ok {
        let p = spec_fetch(pre)->Ok_0;
        let traced = pre.trace_pushed((pre.pc, p.0));
        let advanced = CpuView { pc: spec_wadd16(traced.pc, p.1 as u16), ..traced };
        if step_ok(advanced, p.0) {
            lemma_step_base_cycle(advanced, p.0);
            lemma_cycles_bounds(p.0, spec_taken(advanced, p.0));
        }
    }
}

/// The state after one run cycle of the runner, the debug halt entered
/// exactly when the cycle failed.
pub open spec fn runner_marked(pre: CpuView) -> CpuView {
    if spec_run_cycle(pre).1 is Err {
        CpuView { debug_halted: true, ..spec_run_cycle(pre).0 }
    } else {
        spec_run_cycle(pre).0
    }
}

/// The halt fast-forward: with the core halted after its run cycle, the
/// cycle counter jumps to the earlier of the next peripheral event and the
/// deadline `stop`, never moving backward.
pub open spec fn runner_forwarded(pre: CpuView, stop: u64) -> CpuView {
    let marked = runner_marked(pre);
    let target = if marked.bus.next_event_cycle() < stop {
        marked.bus.next_event_cycle()
    } else {
        stop
    };
    if target > marked.cycle {
        CpuView { cycle: target, ..marked }
    } else {
        marked
    }
}

/// One full iteration of the duration-bounded runner at deadline `stop`:
/// one run cycle with the debug halt entered exactly on failure; then, when
/// the core is halted, the fast-forward and one peripheral pump at the new
/// cycle, the debug halt again entered exactly when an interrupt dispatch
/// failed.
pub open spec fn runner_step(pre: CpuView, stop: u64) -> CpuView {
    let marked = runner_marked(pre);
    if marked.halted {
        let pumped = spec_pump(runner_forwarded(pre, stop));
        if pumped.1 is Err {
            CpuView { debug_halted: true, ..pumped.0 }
        } else {
            pumped.0
        }
    } else {
        marked
    }
}

/// A runner trace from `pre` to `post` at deadline `stop`: a chain of
/// states in which each successor is one runner iteration of its
/// predecessor, and every state but the last was still runnable — its cycle
/// below the deadline and the debug halt clear.
pub open spec fn is_runner_trace(
    states: Seq<CpuView>,
    pre: CpuView,
    post: CpuView,
    stop: u64,
) -> bool {
    &&& states.len() >= 1
    &&& states[0] == pre
    &&& states[states.len() - 1] == post
    &&& forall|k: int|
        0 <= k < states.len() - 1 ==> (#[trigger] states[k]).cycle < stop
            && !states[k].debug_halted && states[k + 1] == runner_step(states[k], stop)
}

/// The final state of a run is reached from the initial one by a chain of
/// runner iterations alone.
pub open spec fn runner_reachable(pre: CpuView, post: CpuView, stop: u64) -> bool {
    exists|states: Seq<CpuView>| #[trigger] is_runner_trace(states, pre, post, stop)
}

impl Cpu {
    /// Runs instructions until the cycle counter passes the starting count
    /// plus the duration's cycle budget, or a failed run cycle or dispatch
    /// enters the debug halt. The final state is reachable from the initial
    /// one by runner iterations alone (`runner_reachable`), each one a run
    /// cycle followed, while halted, by the fast-forward to the next
    /// peripheral event (or the deadline) and one peripheral pump — so the
    /// observable event stream matches a step-by-step halt loop, and the
    /// debug halt is entered exactly when a step fails.
    pub fn run_for_duration(&mut self, secs: u64, nanos: u32)
        requires
            old(self)@.wf(),
            old(self)@.cycle <= u64::MAX - 64,
            nanos < 1_000_000_000,
            secs * crate::CLOCK_RATE + crate::CLOCK_RATE <= u64::MAX,
        ensures
            final (self)@.wf(),
            final (self)@.cycle >= old(self)@.cycle,
            final (self)@.debug_halted || final (self)@.cycle >= spec_stop_cycle(
                old(self)@.cycle,
                spec_duration_cycles(secs, nanos),
            ),
            runner_reachable(
                old(self)@,
                final (self)@,
                spec_stop_cycle(old(self)@.cycle, spec_duration_cycles(secs, nanos)),
            ),
    {
        let cycles_to_run = duration_to_cycle_count(secs, nanos);
        let cap: u64 = u64::MAX - 64;
        let stop_at_cycle: u64 = if cycles_to_run > cap - self.cycle {
            cap
        } else {
            self.cycle + cycles_to_run
        };
        let ghost pre0 = self@;
        let ghost mut chain: Seq<CpuView> = seq![self@];
        while self.cycle < stop_at_cycle && !self.debug_halted
            invariant
                self@.wf(),
                self@.cycle >= pre0.cycle,
                stop_at_cycle == spec_stop_cycle(pre0.cycle, spec_duration_cycles(secs, nanos)),
                stop_at_cycle <= u64::MAX - 64,
                chain.len() >= 1,
                chain[0] == pre0,
                chain[chain.len() - 1] == self@,
                forall|k: int|
                    0 <= k < chain.len() - 1 ==> (#[trigger] chain[k]).cycle < stop_at_cycle
                        && !chain[k].debug_halted && chain[k + 1] == runner_step(
                        chain[k],
                        stop_at_cycle,
                    ),
            decreases
                (if self@.debug_halted {
                    0int
                } else {
                    1int
                }),
                (if self@.cycle >= stop_at_cycle {
                    0int
                } else {
                    stop_at_cycle - self@.cycle
                }),
                self@.bus.events.len(),
        {
            let ghost at_head = self@;
            let r = self.run_cycle();
            proof {
                lemma_run_cycle_progress(at_head);
            }
            if r.is_err() {
                self.debug_halted = true;
            }
            proof {
                assert(self@ =~= runner_marked(at_head));
            }
            if self.halted() {
                let next = self.bus.next_event_cycle();
                let target = if next < stop_at_cycle {
                    next
                } else {
                    stop_at_cycle
                };
                if target > self.cycle {
                    self.cycle = target;
                }
                proof {
                    assert(self@ =~= runner_forwarded(at_head, stop_at_cycle));
                }
                let p = self.drive_peripherals();
                if p.is_err() {
                    self.debug_halted = true;
                }
            }
            proof {
                assert(self@ =~= runner_step(at_head, stop_at_cycle));
                chain = chain.push(self@);
            }
        }
        proof {
            assert(is_runner_trace(chain, pre0, self@, stop_at_cycle));
        }
    }

    /// Pauses the core: no further instruction runs until it is resumed.
    pub fn pause(&mut self)
        ensures
            final (self)@ == (CpuView { debug_halted: true, ..old(self)@ }),
    {
        self.debug_halted = true;
    }

    /// Resumes a paused or faulted core.
    pub fn resume(&mut self)
        ensures
            final (self)@ == (CpuView { debug_halted: false, ..old(self)@ }),
    {
        self.debug_halted = false;
    }

    /// Resumes the core for exactly one run cycle; a failed cycle leaves the
    /// core in the debug halt again.
    pub fn step(&mut self) -> (r: Result<(), CpuError>)
        requires
            old(self)@.wf(),
            old(self)@.cycle <= u64::MAX - 64,
        ensures
            final (self)@.wf(),
            r == spec_run_cycle(CpuView { debug_halted: false, ..old(self)@ }).1,
            final (self)@ == (if spec_run_cycle(
                CpuView { debug_halted: false, ..old(self)@ },
            ).1 is Ok {
                spec_run_cycle(CpuView { debug_halted: false, ..old(self)@ }).0
            } else {
                CpuView {
                    debug_halted: true,
                    ..spec_run_cycle(CpuView { debug_halted: false, ..old(self)@ }).0
                }
            }),
    {
        self.debug_halted = false;
        let r = self.run_cycle();
        if r.is_err() {
            self.debug_halted = true;
        }
        r
    }
}

} // verus!






