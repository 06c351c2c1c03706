use j2gbc::alu::Flags;
use j2gbc::bus::Bus;
use j2gbc::cpu::Cpu;
use j2gbc::inst::{Arith, Instruction, Operand, Register8, Register16};

const INTIAL_PC: u16 = 0x0150;
const INITAL_SP: u16 = 0xFFFE;

const REG_LIST: [Register8; 8] = [
    Register8::A,
    Register8::B,
    Register8::C,
    Register8::D,
    Register8::E,
    Register8::F,
    Register8::H,
    Register8::L,
];

fn reg_default(r: Register8) -> u8 {
    match r {
        Register8::A => 1,
        Register8::B => 2,
        Register8::C => 3,
        Register8::D => 4,
        Register8::E => 5,
        Register8::F => 0,
        Register8::H => 6,
        Register8::L => 7,
    }
}

fn make_test_cpu() -> Cpu {
    let bus = Bus::new(vec![0u8; 0x10000], 0);
    let mut cpu = Cpu::new(bus);
    cpu.pc = INTIAL_PC;
    for r in REG_LIST.iter() {
        cpu.set_reg(*r, reg_default(*r));
    }
    cpu
}

fn assert_reg_vals(cpu: &Cpu, vals: &[(Register8, u8)]) {
    for r in REG_LIST.iter() {
        let expected = vals
            .iter()
            .find(|(vr, _)| vr == r)
            .map(|(_, v)| *v)
            .unwrap_or_else(|| reg_default(*r));
        println!("Checking register {:?}", r);
        assert_eq!(cpu.get_reg(*r), expected);
    }
}

// --------------- General Instructions ------------------

#[test]
fn test_nop() {
    let mut cpu = make_test_cpu();

    let i = Instruction::Nop;
    cpu.execute(i).unwrap();
    assert_reg_vals(&cpu, &[]);
    assert_eq!(cpu.pc, INTIAL_PC);
    assert_eq!(cpu.sp, INITAL_SP);
}

#[test]
fn test_ei() {
    let mut cpu = make_test_cpu();
    cpu.interrupt_master_enable = false;

    let i = Instruction::EnableInterrupts;
    cpu.execute(i).unwrap();
    assert_eq!(cpu.interrupt_master_enable, true);

    assert_reg_vals(&cpu, &[]);
    assert_eq!(cpu.pc, INTIAL_PC);
    assert_eq!(cpu.sp, INITAL_SP);
}

#[test]
fn test_di() {
    let mut cpu = make_test_cpu();
    cpu.interrupt_master_enable = true;

    let i = Instruction::DisableInterrupts;
    cpu.execute(i).unwrap();
    assert_eq!(cpu.interrupt_master_enable, false);

    assert_reg_vals(&cpu, &[]);
    assert_eq!(cpu.pc, INTIAL_PC);
    assert_eq!(cpu.sp, INITAL_SP);
}

#[test]
fn test_halt() {
    let mut cpu = make_test_cpu();
    cpu.set_halted(false);

    let i = Instruction::Halt;
    cpu.execute(i).unwrap();
    assert_eq!(cpu.halted(), true);

    assert_reg_vals(&cpu, &[]);
    assert_eq!(cpu.pc, INTIAL_PC);
    assert_eq!(cpu.sp, INITAL_SP);
}

#[test]
fn test_scf() {
    let mut cpu = make_test_cpu();
    cpu.set_reg(Register8::F, Flags(0).zero().0);

    let i = Instruction::SetCarry;
    cpu.execute(i).unwrap();

    assert_reg_vals(&cpu, &[(Register8::F, Flags(0).carry().zero().0)]);
    assert_eq!(cpu.pc, INTIAL_PC);
    assert_eq!(cpu.sp, INITAL_SP);
}

#[test]
fn test_cpi() {
    let mut cpu = make_test_cpu();
    cpu.set_reg(Register8::A, 0x3C);

    let i = Instruction::Compare(Operand::Immediate(0x3C));
    cpu.execute(i).unwrap();

    assert_reg_vals(
        &cpu,
        &[
            (Register8::A, 0x3C),
            (Register8::F, Flags(0).subtract().zero().0),
        ],
    );
    assert_eq!(cpu.pc, INTIAL_PC);
    assert_eq!(cpu.sp, INITAL_SP);
}

#[test]
fn test_cpr() {
    let mut cpu = make_test_cpu();
    cpu.set_reg(Register8::A, 0x3C);
    cpu.set_reg(Register8::B, 0x2F);

    let i = Instruction::Compare(Operand::Register(Register8::B));
    cpu.execute(i).unwrap();

    assert_reg_vals(
        &cpu,
        &[
            (Register8::A, 0x3C),
            (Register8::B, 0x2F),
            (Register8::F, Flags(0).subtract().halfcarry().0),
        ],
    );
    assert_eq!(cpu.pc, INTIAL_PC);
    assert_eq!(cpu.sp, INITAL_SP);
}

// --------------- Arith Instructions ------------------

#[test]
fn test_addn() {
    let mut cpu = make_test_cpu();
    cpu.set_reg(Register8::A, 0x3C);
    cpu.set_reg(Register8::H, 0xFF);
    cpu.set_reg(Register8::L, 0x80);
    cpu.bus.write(0xFF80, 0x12).unwrap();

    let i = Instruction::Arith(Arith::Add(Operand::IndirectRegister(Register16::HL)));
    cpu.execute(i).unwrap();

    assert_reg_vals(
        &cpu,
        &[
            (Register8::A, 0x4E),
            (Register8::F, Flags(0).0),
            (Register8::H, 0xFF),
            (Register8::L, 0x80),
        ],
    );
    assert_eq!(cpu.pc, INTIAL_PC);
    assert_eq!(cpu.sp, INITAL_SP);
}

#[test]
fn test_addr() {
    let mut cpu = make_test_cpu();
    cpu.set_reg(Register8::A, 0x3A);
    cpu.set_reg(Register8::B, 0xC6);

    let i = Instruction::Arith(Arith::Add(Operand::Register(Register8::B)));
    cpu.execute(i).unwrap();

    assert_reg_vals(
        &cpu,
        &[
            (Register8::A, 0x00),
            (Register8::B, 0xC6),
            (Register8::F, Flags(0).zero().halfcarry().carry().0),
        ],
    );
    assert_eq!(cpu.pc, INTIAL_PC);
    assert_eq!(cpu.sp, INITAL_SP);
}
