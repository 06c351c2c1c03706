use j2gbc::bus::Bus;
use j2gbc::cpu::{duration_to_cycle_count, Cpu, CpuError};
use j2gbc::inst::{Arith, Bits, Control, Instruction, Load, Operand, Register8, Register16};
use j2gbc::interrupt::Interrupt;
use j2gbc::CLOCK_RATE;

fn flat_cpu() -> Cpu {
    let bus = Bus::new(vec![0u8; 0x10000], 0);
    let mut cpu = Cpu::new(bus);
    cpu.pc = 0x0150;
    cpu
}

#[test]
fn push_then_pop_roundtrips() {
    let mut cpu = flat_cpu();
    cpu.write_r16(Register16::BC, 0x1234);
    cpu.execute(Instruction::Load(Load::Push(Register16::BC))).unwrap();
    assert_eq!(cpu.sp, 0xFFFC);
    cpu.execute(Instruction::Load(Load::Pop(Register16::DE))).unwrap();
    assert_eq!(cpu.sp, 0xFFFE);
    assert_eq!(cpu.read_r16(Register16::DE), 0x1234);
}

#[test]
fn pop_into_af_masks_the_low_nibble() {
    let mut cpu = flat_cpu();
    cpu.write_r16(Register16::BC, 0x12FF);
    cpu.execute(Instruction::Load(Load::Push(Register16::BC))).unwrap();
    cpu.execute(Instruction::Load(Load::Pop(Register16::AF))).unwrap();
    assert_eq!(cpu.get_reg(Register8::A), 0x12);
    assert_eq!(cpu.get_reg(Register8::F), 0xF0);
    assert_eq!(cpu.read_r16(Register16::AF), 0x12F0);
}

#[test]
fn writing_f_masks_the_low_nibble() {
    let mut cpu = flat_cpu();
    cpu.set_reg(Register8::F, 0xFF);
    assert_eq!(cpu.get_reg(Register8::F), 0xF0);
    cpu.write_r16(Register16::AF, 0xABCD);
    assert_eq!(cpu.get_reg(Register8::F), 0xC0);
}

#[test]
fn run_cycle_advances_pc_by_decoded_length() {
    let mut cpu = flat_cpu();
    // 0x0150 holds 0x00 (NOP, length 1).
    cpu.run_cycle().unwrap();
    assert_eq!(cpu.pc, 0x0151);
    assert_eq!(cpu.cycle(), 4);

    // LD B, 0x42 has length 2.
    cpu.bus.write(0x0151, 0x06).unwrap();
    cpu.bus.write(0x0152, 0x42).unwrap();
    cpu.run_cycle().unwrap();
    assert_eq!(cpu.pc, 0x0153);
    assert_eq!(cpu.get_reg(Register8::B), 0x42);

    // JP 0x0200 loads PC with its target instead.
    cpu.bus.write(0x0153, 0xC3).unwrap();
    cpu.bus.write(0x0154, 0x00).unwrap();
    cpu.bus.write(0x0155, 0x02).unwrap();
    cpu.run_cycle().unwrap();
    assert_eq!(cpu.pc, 0x0200);

    // An untaken conditional branch leaves PC advanced: Z is clear, so
    // JR Z, +5 falls through.
    cpu.set_reg(Register8::F, 0x00);
    cpu.bus.write(0x0200, 0x28).unwrap();
    cpu.bus.write(0x0201, 0x05).unwrap();
    cpu.run_cycle().unwrap();
    assert_eq!(cpu.pc, 0x0202);
}

#[test]
fn service_vblank() {
    let mut cpu = flat_cpu();
    cpu.interrupt_master_enable = true;
    cpu.bus.set_interrupt_enable(0x01);
    cpu.bus.schedule(0, Interrupt::VBlank);

    let sp0 = cpu.sp;
    cpu.run_cycle().unwrap();

    assert_eq!(cpu.interrupt_master_enable, false);
    assert_eq!(cpu.sp, sp0 - 2);
    assert_eq!(cpu.pc, 0x0040);
    // Top of stack holds the previous (advanced) PC, little-endian.
    assert_eq!(cpu.bus.read(cpu.sp).unwrap(), 0x51);
    assert_eq!(cpu.bus.read(cpu.sp + 1).unwrap(), 0x01);
    // One NOP plus the dispatch charge.
    assert_eq!(cpu.cycle(), 24);
}

#[test]
fn masked_interrupt_is_not_serviced() {
    let mut cpu = flat_cpu();
    cpu.interrupt_master_enable = true;
    // Only the timer bit is enabled; a VBlank request is ignored.
    cpu.bus.set_interrupt_enable(0x04);
    cpu.bus.schedule(0, Interrupt::VBlank);

    cpu.run_cycle().unwrap();
    assert_eq!(cpu.pc, 0x0151);
    assert!(cpu.interrupt_master_enable);
    assert_eq!(cpu.cycle(), 4);
}

#[test]
fn enabled_interrupt_wakes_a_halted_core_without_ime() {
    let mut cpu = flat_cpu();
    cpu.interrupt_master_enable = false;
    cpu.bus.set_interrupt_enable(0x01);
    cpu.execute(Instruction::Halt).unwrap();
    assert!(cpu.halted());
    cpu.bus.schedule(100, Interrupt::VBlank);

    cpu.run_for_duration(0, 1_000_000);
    assert!(!cpu.halted());
    // No dispatch happened: PC runs on normally.
    assert!(cpu.pc > 0x0150);
}

#[test]
fn halted_core_dispatches_a_pending_interrupt() {
    let mut cpu = flat_cpu();
    cpu.interrupt_master_enable = true;
    cpu.bus.set_interrupt_enable(0x01);
    cpu.execute(Instruction::Halt).unwrap();
    cpu.bus.schedule(100, Interrupt::VBlank);

    cpu.run_for_duration(0, 100_000);
    // The coalesced pump delivered VBlank: the halt PC was pushed, the
    // vector entered, IME fell, and the core ran on from the handler.
    assert!(!cpu.halted());
    assert!(!cpu.interrupt_master_enable);
    assert_eq!(cpu.sp, 0xFFFC);
    assert_eq!(cpu.bus.read(0xFFFC).unwrap(), 0x50);
    assert_eq!(cpu.bus.read(0xFFFD).unwrap(), 0x01);
    assert!(cpu.pc >= 0x0040 && cpu.pc < 0x0150);
}

#[test]
fn halt_coalescing_reaches_the_deadline() {
    let mut cpu = flat_cpu();
    cpu.execute(Instruction::Halt).unwrap();
    let budget = duration_to_cycle_count(0, 1_000_000);
    cpu.run_for_duration(0, 1_000_000);
    assert!(cpu.halted());
    assert!(cpu.cycle() >= budget);
}

#[test]
fn interrupt_vectors() {
    assert_eq!(Interrupt::VBlank.table_address(), 0x0040);
    assert_eq!(Interrupt::LCDStat.table_address(), 0x0048);
    assert_eq!(Interrupt::Timer.table_address(), 0x0050);
    assert_eq!(Interrupt::Serial.table_address(), 0x0058);
    assert_eq!(Interrupt::Joypad.table_address(), 0x0060);

    assert!(Interrupt::VBlank.is_enabled(0x01));
    assert!(!Interrupt::VBlank.is_enabled(0x1E));
    assert!(Interrupt::Joypad.is_enabled(0x10));
    assert!(!Interrupt::Joypad.is_enabled(0x0F));
}

#[test]
fn breakpoint_fires_once() {
    let mut cpu = flat_cpu();
    cpu.add_breakpoint(0x0150);
    assert_eq!(cpu.run_cycle(), Err(CpuError::Breakpoint));
    // The breakpoint is one-shot: the PC did not move and the next cycle
    // runs through.
    assert_eq!(cpu.pc, 0x0150);
    cpu.run_cycle().unwrap();
    assert_eq!(cpu.pc, 0x0151);
}

#[test]
fn removed_breakpoint_does_not_fire() {
    let mut cpu = flat_cpu();
    cpu.add_breakpoint(0x0150);
    cpu.remove_breakpoint(0x0150);
    cpu.run_cycle().unwrap();
    assert_eq!(cpu.pc, 0x0151);
}

#[test]
fn reserved_opcode_is_a_decode_error() {
    let mut cpu = flat_cpu();
    cpu.bus.write(0x0150, 0xD3).unwrap();
    assert_eq!(cpu.run_cycle(), Err(CpuError::Decode));
}

#[test]
fn unmapped_fetch_is_a_bus_read_error() {
    let bus = Bus::new(vec![0u8; 0x0100], 0);
    let mut cpu = Cpu::new(bus);
    assert_eq!(cpu.run_cycle(), Err(CpuError::BusRead));
}

#[test]
fn store_into_rom_is_a_bus_write_error() {
    let bus = Bus::new(vec![0u8; 0x10000], 0x8000);
    let mut cpu = Cpu::new(bus);
    cpu.pc = 0x0150;
    let r = cpu.execute(Instruction::Load(Load::LoadMemoryFromA(0x0100)));
    assert_eq!(r, Err(CpuError::BusWrite));
    // Above the read-only region the same store lands.
    cpu.execute(Instruction::Load(Load::LoadMemoryFromA(0xC000))).unwrap();
    assert_eq!(cpu.bus.read(0xC000).unwrap(), 0x01);
}

#[test]
fn failed_run_enters_debug_halt() {
    let mut cpu = flat_cpu();
    cpu.bus.write(0x0150, 0xD3).unwrap();
    cpu.run_for_duration(0, 1_000);
    assert!(cpu.debug_halted);
    let cycle = cpu.cycle();
    // A debug-halted core runs nothing further.
    cpu.run_for_duration(0, 1_000);
    assert_eq!(cpu.cycle(), cycle);
}

#[test]
fn step_runs_exactly_one_instruction() {
    let mut cpu = flat_cpu();
    cpu.pause();
    cpu.step().unwrap();
    assert_eq!(cpu.pc, 0x0151);
    assert_eq!(cpu.cycle(), 4);
}

#[test]
fn trace_ring_keeps_the_last_fifty() {
    let mut cpu = flat_cpu();
    for _ in 0..55 {
        cpu.run_cycle().unwrap();
    }
    assert_eq!(cpu.trace_len(), 50);
    // The first five entries were evicted: the oldest retained entry is the
    // sixth fetch.
    assert_eq!(cpu.trace_at(0), (0x0155, Instruction::Nop));
    assert_eq!(cpu.trace_at(49), (0x0150 + 54, Instruction::Nop));
}

#[test]
fn pending_events_are_delivered_in_cycle_order() {
    let mut bus = Bus::new(vec![0u8; 0x100], 0);
    bus.schedule(50, Interrupt::Timer);
    bus.schedule(10, Interrupt::VBlank);
    bus.schedule(30, Interrupt::Serial);
    assert_eq!(bus.next_event_cycle(), 10);
    assert_eq!(bus.pump(5), None);
    assert_eq!(bus.pump(20), Some(Interrupt::VBlank));
    assert_eq!(bus.pump(60), Some(Interrupt::Serial));
    assert_eq!(bus.next_event_cycle(), 50);
    assert_eq!(bus.pump(60), Some(Interrupt::Timer));
    assert_eq!(bus.pump(60), None);
    assert_eq!(bus.next_event_cycle(), u64::MAX);
}

#[test]
fn same_cycle_events_deliver_by_priority() {
    let mut bus = Bus::new(vec![0u8; 0x100], 0);
    bus.schedule(10, Interrupt::Joypad);
    bus.schedule(10, Interrupt::Timer);
    bus.schedule(10, Interrupt::VBlank);
    assert_eq!(bus.pump(10), Some(Interrupt::VBlank));
    assert_eq!(bus.pump(10), Some(Interrupt::Timer));
    assert_eq!(bus.pump(10), Some(Interrupt::Joypad));
}

#[test]
fn bus_word_access_is_little_endian_and_atomic() {
    let mut bus = Bus::new(vec![0u8; 0x100], 0x10);
    bus.write16(0x20, 0xBEEF).unwrap();
    assert_eq!(bus.read(0x20).unwrap(), 0xEF);
    assert_eq!(bus.read(0x21).unwrap(), 0xBE);
    assert_eq!(bus.read16(0x20).unwrap(), 0xBEEF);
    // A word write straddling the read-only bound changes nothing.
    assert!(bus.write16(0x0F, 0x1234).is_err());
    assert_eq!(bus.read(0x0F).unwrap(), 0);
    assert_eq!(bus.read(0x10).unwrap(), 0);
}

#[test]
fn duration_conversion_uses_the_exact_clock_rate() {
    assert_eq!(CLOCK_RATE, 4_194_304);
    assert_eq!(duration_to_cycle_count(1, 0), 4_194_304);
    assert_eq!(duration_to_cycle_count(0, 500_000_000), 2_097_152);
    assert_eq!(duration_to_cycle_count(2, 250_000_000), 9_437_184);
    assert_eq!(duration_to_cycle_count(0, 0), 0);
}

#[test]
fn runner_stops_at_the_cycle_budget() {
    let mut cpu = flat_cpu();
    // 10 microseconds is a 41-cycle budget: eleven NOPs.
    let budget = duration_to_cycle_count(0, 10_000);
    assert_eq!(budget, 41);
    cpu.run_for_duration(0, 10_000);
    assert!(!cpu.debug_halted);
    assert!(cpu.cycle() >= 41);
    assert_eq!(cpu.cycle(), 44);
}

#[test]
fn inc_dec_through_hl() {
    let mut cpu = flat_cpu();
    cpu.set_reg(Register8::F, 0);
    cpu.write_r16(Register16::HL, 0xC000);
    cpu.bus.write(0xC000, 0x0F).unwrap();
    cpu.execute(Instruction::Arith(Arith::Increment(Operand::IndirectRegister(
        Register16::HL,
    ))))
    .unwrap();
    assert_eq!(cpu.bus.read(0xC000).unwrap(), 0x10);
    // Z clear, N clear, H set, C untouched.
    assert_eq!(cpu.get_reg(Register8::F), 0x20);

    cpu.execute(Instruction::Arith(Arith::Decrement(Operand::IndirectRegister(
        Register16::HL,
    ))))
    .unwrap();
    assert_eq!(cpu.bus.read(0xC000).unwrap(), 0x0F);
}

#[test]
fn cb_ops_through_hl() {
    let mut cpu = flat_cpu();
    cpu.write_r16(Register16::HL, 0xC000);
    cpu.bus.write(0xC000, 0x81).unwrap();
    cpu.execute(Instruction::Bits(Bits::RotateLeftCarry(Operand::IndirectRegister(
        Register16::HL,
    ))))
    .unwrap();
    assert_eq!(cpu.bus.read(0xC000).unwrap(), 0x03);
    assert_eq!(cpu.get_reg(Register8::F), 0x10);

    cpu.execute(Instruction::Bits(Bits::SetBit(
        7,
        Operand::IndirectRegister(Register16::HL),
    )))
    .unwrap();
    assert_eq!(cpu.bus.read(0xC000).unwrap(), 0x83);

    cpu.execute(Instruction::Bits(Bits::ResetBit(
        0,
        Operand::IndirectRegister(Register16::HL),
    )))
    .unwrap();
    assert_eq!(cpu.bus.read(0xC000).unwrap(), 0x82);

    // BIT 1, (HL): bit 1 is set, so Z is clear; H set, N clear, and C is
    // kept from the rotate above.
    cpu.execute(Instruction::Bits(Bits::GetBit(
        1,
        Operand::IndirectRegister(Register16::HL),
    )))
    .unwrap();
    assert_eq!(cpu.get_reg(Register8::F), 0x30);
}

#[test]
fn relative_jump_backward() {
    let mut cpu = flat_cpu();
    // JR -2 at 0x0150 loops back onto itself.
    cpu.bus.write(0x0150, 0x18).unwrap();
    cpu.bus.write(0x0151, 0xFE).unwrap();
    cpu.run_cycle().unwrap();
    assert_eq!(cpu.pc, 0x0150);
    assert_eq!(cpu.cycle(), 12);
}

#[test]
fn call_and_return_roundtrip() {
    let mut cpu = flat_cpu();
    // CALL 0x0200 at 0x0150; RET at 0x0200.
    cpu.bus.write(0x0150, 0xCD).unwrap();
    cpu.bus.write(0x0151, 0x00).unwrap();
    cpu.bus.write(0x0152, 0x02).unwrap();
    cpu.bus.write(0x0200, 0xC9).unwrap();
    cpu.run_cycle().unwrap();
    assert_eq!(cpu.pc, 0x0200);
    assert_eq!(cpu.sp, 0xFFFC);
    cpu.run_cycle().unwrap();
    assert_eq!(cpu.pc, 0x0153);
    assert_eq!(cpu.sp, 0xFFFE);
    assert_eq!(cpu.cycle(), 24 + 4);
}

#[test]
fn reti_restores_ime() {
    let mut cpu = flat_cpu();
    cpu.interrupt_master_enable = false;
    cpu.write_r16(Register16::SP, 0xFFFC);
    cpu.bus.write16(0xFFFC, 0x0300).unwrap();
    cpu.execute(Instruction::Control(Control::InterruptReturn)).unwrap();
    assert!(cpu.interrupt_master_enable);
    assert_eq!(cpu.pc, 0x0300);
    assert_eq!(cpu.sp, 0xFFFE);
}

#[test]
fn add_sp_and_hl_from_sp_use_signed_displacements() {
    let mut cpu = flat_cpu();
    cpu.sp = 0x1000;
    cpu.execute(Instruction::Arith(Arith::AddSP(-1))).unwrap();
    assert_eq!(cpu.sp, 0x0FFF);

    cpu.sp = 0x1000;
    cpu.execute(Instruction::Load(Load::LoadHLFromSP(0x10))).unwrap();
    assert_eq!(cpu.read_r16(Register16::HL), 0x1010);
    cpu.execute(Instruction::Load(Load::LoadSPFromHL)).unwrap();
    assert_eq!(cpu.sp, 0x1010);
}

#[test]
fn hl_post_increment_and_decrement_loads() {
    let mut cpu = flat_cpu();
    cpu.set_reg(Register8::A, 0x7E);
    cpu.write_r16(Register16::HL, 0xC000);
    cpu.execute(Instruction::Load(Load::LoadIndirectFromA(1))).unwrap();
    assert_eq!(cpu.bus.read(0xC000).unwrap(), 0x7E);
    assert_eq!(cpu.read_r16(Register16::HL), 0xC001);

    cpu.bus.write(0xC001, 0x33).unwrap();
    cpu.execute(Instruction::Load(Load::LoadAFromIndirect(-1))).unwrap();
    assert_eq!(cpu.get_reg(Register8::A), 0x33);
    assert_eq!(cpu.read_r16(Register16::HL), 0xC000);
}

#[test]
fn post_boot_register_file() {
    let cpu = flat_cpu();
    assert_eq!(cpu.read_r16(Register16::AF), 0x01B0);
    assert_eq!(cpu.read_r16(Register16::BC), 0x0013);
    assert_eq!(cpu.read_r16(Register16::DE), 0x00D8);
    assert_eq!(cpu.read_r16(Register16::HL), 0x014D);
    assert_eq!(cpu.sp, 0xFFFE);
    assert_eq!(cpu.cycle(), 0);
    assert!(!cpu.interrupt_master_enable);
}

#[test]
fn register_pairs_compose_high_byte_first() {
    let mut cpu = flat_cpu();
    cpu.set_reg(Register8::H, 0xAB);
    cpu.set_reg(Register8::L, 0xCD);
    assert_eq!(cpu.read_r16(Register16::HL), 0xABCD);
    cpu.write_r16(Register16::DE, 0x1357);
    assert_eq!(cpu.get_reg(Register8::D), 0x13);
    assert_eq!(cpu.get_reg(Register8::E), 0x57);
}

#[test]
fn immediate_write_targets_memory_through_hl() {
    let mut cpu = flat_cpu();
    cpu.write_r16(Register16::HL, 0xC123);
    cpu.execute(Instruction::Load(Load::Load(
        Operand::IndirectRegister(Register16::HL),
        Operand::Immediate(0x99),
    )))
    .unwrap();
    assert_eq!(cpu.bus.read(0xC123).unwrap(), 0x99);
}
