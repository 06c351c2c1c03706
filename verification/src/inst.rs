//! The typed, immutable instruction model: every legal opcode as a tagged
//! union, the decoder from a raw three-byte window, and the nominal cycle
//! cost of each instruction.

use vstd::prelude::*;

use crate::alu::hi_lo;

verus! {

/// Tags for the eight 8-bit registers.
#[derive(Copy, Clone, Debug, PartialEq, Eq, Structural)]
pub enum Register8 {
    A,
    F,
    B,
    C,
    D,
    E,
    H,
    L,
}

/// Pair views over the register file, plus the native 16-bit SP and PC.
#[derive(Copy, Clone, Debug, PartialEq, Eq, Structural)]
pub enum Register16 {
    AF,
    BC,
    DE,
    HL,
    SP,
    PC,
}

/// Branch conditions, from opcode bits 3 and 4.
#[derive(Copy, Clone, Debug, PartialEq, Eq, Structural)]
pub enum ConditionCode {
    NZ,
    Z,
    NC,
    C,
}

impl ConditionCode {
    /// The condition encoded in bits 3 and 4 of a conditional opcode.
    pub open spec fn spec_from_bits(v: u8) -> ConditionCode {
        let field = v / 8 % 4;
        if field == 0 {
            ConditionCode::NZ
        } else if field == 1 {
            ConditionCode::Z
        } else if field == 2 {
            ConditionCode::NC
        } else {
            ConditionCode::C
        }
    }

    #[verifier::when_used_as_spec(spec_from_bits)]
    pub fn from_bits(v: u8) -> (r: ConditionCode)
        ensures
            r == ConditionCode::spec_from_bits(v),
    {
        let field = v / 8 % 4;
        if field == 0 {
            ConditionCode::NZ
        } else if field == 1 {
            ConditionCode::Z
        } else if field == 2 {
            ConditionCode::NC
        } else {
            ConditionCode::C
        }
    }
}

/// The addressing modes an instruction operand can take.
#[derive(Copy, Clone, Debug, PartialEq, Eq, Structural)]
pub enum Operand {
    Immediate(u8),
    Register(Register8),
    IndirectRegister(Register16),
    IndirectAddress(u16),
}

impl Operand {
    /// The operand selected by the 3-bit register field starting at `bit`
    /// (`0 -> B, 1 -> C, 2 -> D, 3 -> E, 4 -> H, 5 -> L, 6 -> (HL), 7 -> A`).
    pub open spec fn spec_from_bits(v: u8, bit: u8) -> Operand {
        let field = if bit == 0 {
            v % 8
        } else {
            v / 8 % 8
        };
        if field == 0 {
            Operand::Register(Register8::B)
        } else if field == 1 {
            Operand::Register(Register8::C)
        } else if field == 2 {
            Operand::Register(Register8::D)
        } else if field == 3 {
            Operand::Register(Register8::E)
        } else if field == 4 {
            Operand::Register(Register8::H)
        } else if field == 5 {
            Operand::Register(Register8::L)
        } else if field == 6 {
            Operand::IndirectRegister(Register16::HL)
        } else {
            Operand::Register(Register8::A)
        }
    }

    #[verifier::when_used_as_spec(spec_from_bits)]
    pub fn from_bits(v: u8, bit: u8) -> (r: Operand)
        ensures
            r == Operand::spec_from_bits(v, bit),
    {
        let field = if bit == 0 {
            v % 8
        } else {
            v / 8 % 8
        };
        if field == 0 {
            Operand::Register(Register8::B)
        } else if field == 1 {
            Operand::Register(Register8::C)
        } else if field == 2 {
            Operand::Register(Register8::D)
        } else if field == 3 {
            Operand::Register(Register8::E)
        } else if field == 4 {
            Operand::Register(Register8::H)
        } else if field == 5 {
            Operand::Register(Register8::L)
        } else if field == 6 {
            Operand::IndirectRegister(Register16::HL)
        } else {
            Operand::Register(Register8::A)
        }
    }

    /// An operand may be written through unless it is an immediate.
    pub open spec fn writable(self) -> bool {
        !(self is Immediate)
    }
}

/// The bit index selected by a CB-prefixed BIT/RES/SET opcode.
pub open spec fn spec_get_bits_bit(i: u8) -> u8 {
    (i / 8 % 8) as u8
}

#[verifier::when_used_as_spec(spec_get_bits_bit)]
pub fn get_bits_bit(i: u8) -> (r: u8)
    ensures
        r == spec_get_bits_bit(i),
        r < 8,
{
    i / 8 % 8
}

/// Reinterprets a raw byte as the signed displacement it encodes.
pub open spec fn spec_as_signed(b: u8) -> i8 {
    if b < 0x80 {
        b as i8
    } else {
        (b - 0x100) as i8
    }
}

#[verifier::when_used_as_spec(spec_as_signed)]
pub fn as_signed(b: u8) -> (r: i8)
    ensures
        r == spec_as_signed(b),
{
    if b < 0x80 {
        b as i8
    } else {
        (-(0x100 - b as i16)) as i8
    }
}

/// The high-page address `0xFF00 + n` used by the `E0`/`F0` loads.
pub open spec fn spec_hi_page(n: u8) -> u16 {
    (0xFF00 + n) as u16
}

#[verifier::when_used_as_spec(spec_hi_page)]
pub fn hi_page(n: u8) -> (r: u16)
    ensures
        r == spec_hi_page(n),
{
    0xFF00 + n as u16
}


/// The arithmetic family: 8-bit and 16-bit adds and subtracts, increments,
/// decrements and the decimal adjust.
#[derive(Copy, Clone, Debug, PartialEq, Eq, Structural)]
pub enum Arith {
    Add(Operand),
    AddWithCarry(Operand),
    Subtract(Operand),
    SubtractWithCarry(Operand),
    Increment(Operand),
    Decrement(Operand),
    IncrementRegister16(Register16),
    DecrementRegister16(Register16),
    AddRegisterRegister16(Register16, Register16),
    AddSP(i8),
    DecimalAdjustAccumulator,
}

/// The bit-manipulation family: complements, rotates, shifts, nibble swap
/// and single-bit test/clear/set.
#[derive(Copy, Clone, Debug, PartialEq, Eq, Structural)]
pub enum Bits {
    Complement,
    RotateLeftAccumulator,
    RotateRightAccumulator,
    RotateLeftCarryAccumulator,
    RotateRightCarryAccumulator,
    RotateLeft(Operand),
    RotateRight(Operand),
    RotateLeftCarry(Operand),
    RotateRightCarry(Operand),
    ShiftLeftArithmetic(Operand),
    ShiftRightArithmetic(Operand),
    ShiftRightLogical(Operand),
    Swap(Operand),
    GetBit(u8, Operand),
    ResetBit(u8, Operand),
    SetBit(u8, Operand),
}

/// The control-flow family: jumps, calls, returns and resets.
#[derive(Copy, Clone, Debug, PartialEq, Eq, Structural)]
pub enum Control {
    Jump(u16),
    JumpConditional(u16, ConditionCode),
    JumpIndirect,
    JumpRelative(i8),
    JumpRelativeConditional(i8, ConditionCode),
    Call(u16),
    CallConditional(u16, ConditionCode),
    Return,
    ReturnConditional(ConditionCode),
    InterruptReturn,
    Reset(u16),
}

/// The load family: 8-bit and 16-bit moves, stack push and pop.
#[derive(Copy, Clone, Debug, PartialEq, Eq, Structural)]
pub enum Load {
    Load(Operand, Operand),
    LoadRegisterImmediate16(Register16, u16),
    LoadMemoryFromSP(u16),
    LoadMemoryFromA(u16),
    LoadAFromMemory(u16),
    LoadIndirectHiFromA,
    LoadAFromIndirectHi,
    LoadHLFromSP(i8),
    LoadSPFromHL,
    LoadIndirectRegisterFromA(Register16),
    LoadAFromIndirectRegister(Register16),
    LoadIndirectFromA(i8),
    LoadAFromIndirect(i8),
    Push(Register16),
    Pop(Register16),
}

/// The bitwise-logic family over the accumulator.
#[derive(Copy, Clone, Debug, PartialEq, Eq, Structural)]
pub enum Logic {
    AndImmediate(u8),
    AndRegister(Register8),
    AndIndirect,
    OrImmediate(u8),
    OrRegister(Register8),
    OrIndirect,
    XorImmediate(u8),
    XorRegister(Register8),
    XorIndirect,
}

/// A typed, immutable representation of one legal opcode.
#[derive(Copy, Clone, Debug, PartialEq, Eq, Structural)]
pub enum Instruction {
    Nop,
    EnableInterrupts,
    DisableInterrupts,
    Halt,
    Stop,
    SetCarry,
    ClearCarry,
    Compare(Operand),
    Arith(Arith),
    Bits(Bits),
    Control(Control),
    Load(Load),
    Logic(Logic),
}

/// A 16-bit register operand of the arithmetic and immediate-load forms:
/// the three pairs or SP, never PC.
pub open spec fn pair_or_sp(r: Register16) -> bool {
    r is BC || r is DE || r is HL || r is SP
}

/// A 16-bit register operand of push and pop: the three pairs or AF.
pub open spec fn pair_or_af(r: Register16) -> bool {
    r is BC || r is DE || r is HL || r is AF
}

/// An ALU source operand as the decoder produces it: a register, the memory
/// cell at HL, or an immediate.
pub open spec fn alu_operand(o: Operand) -> bool {
    o is Register || o is IndirectRegister || o is Immediate
}

/// A read-modify-write operand as the decoder produces it: a register or the
/// memory cell at HL.
pub open spec fn cell_operand(o: Operand) -> bool {
    o is Register || o is IndirectRegister
}

impl Arith {
    pub open spec fn wf(self) -> bool {
        match self {
            Arith::Add(o) => alu_operand(o),
            Arith::AddWithCarry(o) => alu_operand(o),
            Arith::Subtract(o) => alu_operand(o),
            Arith::SubtractWithCarry(o) => alu_operand(o),
            Arith::Increment(o) => cell_operand(o),
            Arith::Decrement(o) => cell_operand(o),
            Arith::IncrementRegister16(r) => pair_or_sp(r),
            Arith::DecrementRegister16(r) => pair_or_sp(r),
            Arith::AddRegisterRegister16(d, src) => pair_or_sp(d) && pair_or_sp(src),
            _ => true,
        }
    }
}

impl Bits {
    pub open spec fn wf(self) -> bool {
        match self {
            Bits::RotateLeft(o) => cell_operand(o),
            Bits::RotateRight(o) => cell_operand(o),
            Bits::RotateLeftCarry(o) => cell_operand(o),
            Bits::RotateRightCarry(o) => cell_operand(o),
            Bits::ShiftLeftArithmetic(o) => cell_operand(o),
            Bits::ShiftRightArithmetic(o) => cell_operand(o),
            Bits::ShiftRightLogical(o) => cell_operand(o),
            Bits::Swap(o) => cell_operand(o),
            Bits::GetBit(b, o) => b < 8 && cell_operand(o),
            Bits::ResetBit(b, o) => b < 8 && cell_operand(o),
            Bits::SetBit(b, o) => b < 8 && cell_operand(o),
            _ => true,
        }
    }
}

impl Load {
    pub open spec fn wf(self) -> bool {
        match self {
            Load::Load(dst, src) => dst.writable(),
            Load::LoadRegisterImmediate16(r, _) => pair_or_sp(r),
            Load::LoadIndirectRegisterFromA(r) => r is BC || r is DE,
            Load::LoadAFromIndirectRegister(r) => r is BC || r is DE,
            Load::Push(r) => pair_or_af(r),
            Load::Pop(r) => pair_or_af(r),
            _ => true,
        }
    }
}

impl Instruction {
    /// A well-formed instruction, as the decoder produces them: write
    /// operands are never immediates, bit indices are below eight, and a
    /// compare reads a register, `(HL)` or an immediate.
    pub open spec fn wf(self) -> bool {
        match self {
            Instruction::Compare(o) => alu_operand(o),
            Instruction::Arith(a) => a.wf(),
            Instruction::Bits(b) => b.wf(),
            Instruction::Load(l) => l.wf(),
            _ => true,
        }
    }
}

/// The eleven opcode bytes with no assigned instruction.
pub open spec fn spec_reserved(b: u8) -> bool {
    b == 0xD3 || b == 0xDB || b == 0xDD || b == 0xE3 || b == 0xE4 || b == 0xEB || b == 0xEC
        || b == 0xED || b == 0xF4 || b == 0xFC || b == 0xFD
}

/// The encoded length each leading opcode byte implies: three for the forms
/// with a 16-bit immediate, two for the CB prefix, `Stop` and the forms with
/// an 8-bit immediate, and one otherwise.
pub open spec fn spec_len(b: u8) -> u8 {
    if b == 0x01 || b == 0x11 || b == 0x21 || b == 0x31 || b == 0x08 || b == 0xC3 || b == 0xC2
        || b == 0xD2 || b == 0xCA || b == 0xDA || b == 0xCD || b == 0xC4 || b == 0xD4 || b == 0xCC
        || b == 0xDC || b == 0xEA || b == 0xFA {
        3
    } else if b == 0x10 || b == 0xCB || b == 0x06 || b == 0x16 || b == 0x26 || b == 0x36
        || b == 0x0E || b == 0x1E || b == 0x2E || b == 0x3E || b == 0xC6 || b == 0xCE || b == 0xD6
        || b == 0xDE || b == 0xE6 || b == 0xEE || b == 0xF6 || b == 0xFE || b == 0xE0 || b == 0xF0
        || b == 0xE8 || b == 0xF8 || b == 0x18 || b == 0x20 || b == 0x28 || b == 0x30
        || b == 0x38 {
        2
    } else {
        1
    }
}

impl Instruction {
    /// The decoding of a three-byte window: the typed instruction and the
    /// number of bytes it occupies, or a decode error for a reserved opcode
    /// or a malformed `Stop`.
    pub open spec fn spec_decode(bytes: [u8; 3]) -> Result<(Instruction, u8), ()> {
        match bytes[0] {
            0 => Ok((Instruction::Nop, 1)),
            0xFB => Ok((Instruction::EnableInterrupts, 1)),
            0xF3 => Ok((Instruction::DisableInterrupts, 1)),
            0x10 => match bytes[1] {
                0x00 => Ok((Instruction::Stop, 2)),
                _ => Err(()),
            },
            0x76 => Ok((Instruction::Halt, 1)),
            0x37 => Ok((Instruction::SetCarry, 1)),
            0x3F => Ok((Instruction::ClearCarry, 1)),
            0x04 | 0x14 | 0x24 | 0x34 | 0x0C | 0x1C | 0x2C | 0x3C => Ok(
                (Instruction::Arith(Arith::Increment(Operand::from_bits(bytes[0], 3))), 1),
            ),
            0x05 | 0x15 | 0x25 | 0x35 | 0x0D | 0x1D | 0x2D | 0x3D => Ok(
                (Instruction::Arith(Arith::Decrement(Operand::from_bits(bytes[0], 3))), 1),
            ),
            0x08 => Ok((Instruction::Load(Load::LoadMemoryFromSP(hi_lo(bytes[2], bytes[1]))), 3)),
            0x0B => Ok((Instruction::Arith(Arith::DecrementRegister16(Register16::BC)), 1)),
            0x1B => Ok((Instruction::Arith(Arith::DecrementRegister16(Register16::DE)), 1)),
            0x2B => Ok((Instruction::Arith(Arith::DecrementRegister16(Register16::HL)), 1)),
            0x3B => Ok((Instruction::Arith(Arith::DecrementRegister16(Register16::SP)), 1)),
            0x03 => Ok((Instruction::Arith(Arith::IncrementRegister16(Register16::BC)), 1)),
            0x13 => Ok((Instruction::Arith(Arith::IncrementRegister16(Register16::DE)), 1)),
            0x23 => Ok((Instruction::Arith(Arith::IncrementRegister16(Register16::HL)), 1)),
            0x33 => Ok((Instruction::Arith(Arith::IncrementRegister16(Register16::SP)), 1)),
            0xE8 => Ok((Instruction::Arith(Arith::AddSP(as_signed(bytes[1]))), 2)),
            0x09 => Ok(
                (
                    Instruction::Arith(
                        Arith::AddRegisterRegister16(Register16::HL, Register16::BC),
                    ),
                    1,
                ),
            ),
            0x19 => Ok(
                (
                    Instruction::Arith(
                        Arith::AddRegisterRegister16(Register16::HL, Register16::DE),
                    ),
                    1,
                ),
            ),
            0x29 => Ok(
                (
                    Instruction::Arith(
                        Arith::AddRegisterRegister16(Register16::HL, Register16::HL),
                    ),
                    1,
                ),
            ),
            0x39 => Ok(
                (
                    Instruction::Arith(
                        Arith::AddRegisterRegister16(Register16::HL, Register16::SP),
                    ),
                    1,
                ),
            ),
            0xE9 => Ok((Instruction::Control(Control::JumpIndirect), 1)),
            0xC3 => Ok((Instruction::Control(Control::Jump(hi_lo(bytes[2], bytes[1]))), 3)),
            0xC2 | 0xD2 | 0xCA | 0xDA => Ok(
                (
                    Instruction::Control(
                        Control::JumpConditional(
                            hi_lo(bytes[2], bytes[1]),
                            ConditionCode::from_bits(bytes[0]),
                        ),
                    ),
                    3,
                ),
            ),
            0xC7 => Ok((Instruction::Control(Control::Reset(0x0000)), 1)),
            0xD7 => Ok((Instruction::Control(Control::Reset(0x0010)), 1)),
            0xE7 => Ok((Instruction::Control(Control::Reset(0x0020)), 1)),
            0xF7 => Ok((Instruction::Control(Control::Reset(0x0030)), 1)),
            0xCF => Ok((Instruction::Control(Control::Reset(0x0008)), 1)),
            0xDF => Ok((Instruction::Control(Control::Reset(0x0018)), 1)),
            0xEF => Ok((Instruction::Control(Control::Reset(0x0028)), 1)),
            0xFF => Ok((Instruction::Control(Control::Reset(0x0038)), 1)),
            0xCD => Ok((Instruction::Control(Control::Call(hi_lo(bytes[2], bytes[1]))), 3)),
            0xC4 | 0xD4 | 0xCC | 0xDC => Ok(
                (
                    Instruction::Control(
                        Control::CallConditional(
                            hi_lo(bytes[2], bytes[1]),
                            ConditionCode::from_bits(bytes[0]),
                        ),
                    ),
                    3,
                ),
            ),
            0xF0 => Ok(
                (
                    Instruction::Load(
                        Load::Load(
                            Operand::Register(Register8::A),
                            Operand::IndirectAddress(hi_page(bytes[1])),
                        ),
                    ),
                    2,
                ),
            ),
            0xE0 => Ok(
                (
                    Instruction::Load(
                        Load::Load(
                            Operand::IndirectAddress(hi_page(bytes[1])),
                            Operand::Register(Register8::A),
                        ),
                    ),
                    2,
                ),
            ),
            0x01 => Ok(
                (
                    Instruction::Load(
                        Load::LoadRegisterImmediate16(Register16::BC, hi_lo(bytes[2], bytes[1])),
                    ),
                    3,
                ),
            ),
            0x11 => Ok(
                (
                    Instruction::Load(
                        Load::LoadRegisterImmediate16(Register16::DE, hi_lo(bytes[2], bytes[1])),
                    ),
                    3,
                ),
            ),
            0x21 => Ok(
                (
                    Instruction::Load(
                        Load::LoadRegisterImmediate16(Register16::HL, hi_lo(bytes[2], bytes[1])),
                    ),
                    3,
                ),
            ),
            0x31 => Ok(
                (
                    Instruction::Load(
                        Load::LoadRegisterImmediate16(Register16::SP, hi_lo(bytes[2], bytes[1])),
                    ),
                    3,
                ),
            ),
            0x2F => Ok((Instruction::Bits(Bits::Complement), 1)),
            0x27 => Ok((Instruction::Arith(Arith::DecimalAdjustAccumulator), 1)),
            0xEA => Ok((Instruction::Load(Load::LoadMemoryFromA(hi_lo(bytes[2], bytes[1]))), 3)),
            0xFA => Ok((Instruction::Load(Load::LoadAFromMemory(hi_lo(bytes[2], bytes[1]))), 3)),
            0xE2 => Ok((Instruction::Load(Load::LoadIndirectHiFromA), 1)),
            0xF2 => Ok((Instruction::Load(Load::LoadAFromIndirectHi), 1)),
            0xF8 => Ok((Instruction::Load(Load::LoadHLFromSP(as_signed(bytes[1]))), 2)),
            0xF9 => Ok((Instruction::Load(Load::LoadSPFromHL), 1)),
            0x02 => Ok((Instruction::Load(Load::LoadIndirectRegisterFromA(Register16::BC)), 1)),
            0x12 => Ok((Instruction::Load(Load::LoadIndirectRegisterFromA(Register16::DE)), 1)),
            0x0A => Ok((Instruction::Load(Load::LoadAFromIndirectRegister(Register16::BC)), 1)),
            0x1A => Ok((Instruction::Load(Load::LoadAFromIndirectRegister(Register16::DE)), 1)),
            0x06 | 0x16 | 0x26 | 0x36 | 0x0E | 0x1E | 0x2E | 0x3E => Ok(
                (
                    Instruction::Load(
                        Load::Load(Operand::from_bits(bytes[0], 3), Operand::Immediate(bytes[1])),
                    ),
                    2,
                ),
            ),
            0x40 | 0x41 | 0x42 | 0x43 | 0x44 | 0x45 | 0x46 | 0x47 | 0x48 | 0x49 | 0x4A | 0x4B | 0x4C | 0x4D | 0x4E | 0x4F | 0x50 | 0x51 | 0x52 | 0x53 | 0x54 | 0x55 | 0x56 | 0x57 | 0x58 | 0x59 | 0x5A | 0x5B | 0x5C | 0x5D | 0x5E | 0x5F | 0x60 | 0x61 | 0x62 | 0x63 | 0x64 | 0x65 | 0x66 | 0x67 | 0x68 | 0x69 | 0x6A | 0x6B | 0x6C | 0x6D | 0x6E | 0x6F | 0x70 | 0x71 | 0x72 | 0x73 | 0x74 | 0x75 | 0x77 | 0x78 | 0x79 | 0x7A | 0x7B | 0x7C | 0x7D | 0x7E | 0x7F => Ok(
                (
                    Instruction::Load(
                        Load::Load(Operand::from_bits(bytes[0], 3), Operand::from_bits(bytes[0], 0)),
                    ),
                    1,
                ),
            ),
            0x22 => Ok((Instruction::Load(Load::LoadIndirectFromA(1i8)), 1)),
            0x32 => Ok((Instruction::Load(Load::LoadIndirectFromA(-1i8)), 1)),
            0x2A => Ok((Instruction::Load(Load::LoadAFromIndirect(1i8)), 1)),
            0x3A => Ok((Instruction::Load(Load::LoadAFromIndirect(-1i8)), 1)),
            0xC5 => Ok((Instruction::Load(Load::Push(Register16::BC)), 1)),
            0xD5 => Ok((Instruction::Load(Load::Push(Register16::DE)), 1)),
            0xE5 => Ok((Instruction::Load(Load::Push(Register16::HL)), 1)),
            0xF5 => Ok((Instruction::Load(Load::Push(Register16::AF)), 1)),
            0xC1 => Ok((Instruction::Load(Load::Pop(Register16::BC)), 1)),
            0xD1 => Ok((Instruction::Load(Load::Pop(Register16::DE)), 1)),
            0xE1 => Ok((Instruction::Load(Load::Pop(Register16::HL)), 1)),
            0xF1 => Ok((Instruction::Load(Load::Pop(Register16::AF)), 1)),
            0xFE => Ok((Instruction::Compare(Operand::Immediate(bytes[1])), 2)),
            0xB8 | 0xB9 | 0xBA | 0xBB | 0xBC | 0xBD | 0xBE | 0xBF => Ok((Instruction::Compare(Operand::from_bits(bytes[0], 0)), 1)),
            0x20 | 0x30 | 0x28 | 0x38 => Ok(
                (
                    Instruction::Control(
                        Control::JumpRelativeConditional(
                            as_signed(bytes[1]),
                            ConditionCode::from_bits(bytes[0]),
                        ),
                    ),
                    2,
                ),
            ),
            0x18 => Ok((Instruction::Control(Control::JumpRelative(as_signed(bytes[1]))), 2)),
            0x80 | 0x81 | 0x82 | 0x83 | 0x84 | 0x85 | 0x86 | 0x87 => Ok((Instruction::Arith(Arith::Add(Operand::from_bits(bytes[0], 0))), 1)),
            0xC6 => Ok((Instruction::Arith(Arith::Add(Operand::Immediate(bytes[1]))), 2)),
            0x88 | 0x89 | 0x8A | 0x8B | 0x8C | 0x8D | 0x8E | 0x8F => Ok(
                (Instruction::Arith(Arith::AddWithCarry(Operand::from_bits(bytes[0], 0))), 1),
            ),
            0xCE => Ok((Instruction::Arith(Arith::AddWithCarry(Operand::Immediate(bytes[1]))), 2)),
            0x90 | 0x91 | 0x92 | 0x93 | 0x94 | 0x95 | 0x96 | 0x97 => Ok(
                (Instruction::Arith(Arith::Subtract(Operand::from_bits(bytes[0], 0))), 1),
            ),
            0xD6 => Ok((Instruction::Arith(Arith::Subtract(Operand::Immediate(bytes[1]))), 2)),
            0x98 | 0x99 | 0x9A | 0x9B | 0x9C | 0x9D | 0x9E | 0x9F => Ok(
                (Instruction::Arith(Arith::SubtractWithCarry(Operand::from_bits(bytes[0], 0))), 1),
            ),
            0xDE => Ok(
                (Instruction::Arith(Arith::SubtractWithCarry(Operand::Immediate(bytes[1]))), 2),
            ),
            0xE6 => Ok((Instruction::Logic(Logic::AndImmediate(bytes[1])), 2)),
            0xA6 => Ok((Instruction::Logic(Logic::AndIndirect), 1)),
            0xA0 => Ok((Instruction::Logic(Logic::AndRegister(Register8::B)), 1)),
            0xA1 => Ok((Instruction::Logic(Logic::AndRegister(Register8::C)), 1)),
            0xA2 => Ok((Instruction::Logic(Logic::AndRegister(Register8::D)), 1)),
            0xA3 => Ok((Instruction::Logic(Logic::AndRegister(Register8::E)), 1)),
            0xA4 => Ok((Instruction::Logic(Logic::AndRegister(Register8::H)), 1)),
            0xA5 => Ok((Instruction::Logic(Logic::AndRegister(Register8::L)), 1)),
            0xA7 => Ok((Instruction::Logic(Logic::AndRegister(Register8::A)), 1)),
            0xF6 => Ok((Instruction::Logic(Logic::OrImmediate(bytes[1])), 2)),
            0xB6 => Ok((Instruction::Logic(Logic::OrIndirect), 1)),
            0xB0 => Ok((Instruction::Logic(Logic::OrRegister(Register8::B)), 1)),
            0xB1 => Ok((Instruction::Logic(Logic::OrRegister(Register8::C)), 1)),
            0xB2 => Ok((Instruction::Logic(Logic::OrRegister(Register8::D)), 1)),
            0xB3 => Ok((Instruction::Logic(Logic::OrRegister(Register8::E)), 1)),
            0xB4 => Ok((Instruction::Logic(Logic::OrRegister(Register8::H)), 1)),
            0xB5 => Ok((Instruction::Logic(Logic::OrRegister(Register8::L)), 1)),
            0xB7 => Ok((Instruction::Logic(Logic::OrRegister(Register8::A)), 1)),
            0xEE => Ok((Instruction::Logic(Logic::XorImmediate(bytes[1])), 2)),
            0xAE => Ok((Instruction::Logic(Logic::XorIndirect), 1)),
            0xA8 => Ok((Instruction::Logic(Logic::XorRegister(Register8::B)), 1)),
            0xA9 => Ok((Instruction::Logic(Logic::XorRegister(Register8::C)), 1)),
            0xAA => Ok((Instruction::Logic(Logic::XorRegister(Register8::D)), 1)),
            0xAB => Ok((Instruction::Logic(Logic::XorRegister(Register8::E)), 1)),
            0xAC => Ok((Instruction::Logic(Logic::XorRegister(Register8::H)), 1)),
            0xAD => Ok((Instruction::Logic(Logic::XorRegister(Register8::L)), 1)),
            0xAF => Ok((Instruction::Logic(Logic::XorRegister(Register8::A)), 1)),
            0xC9 => Ok((Instruction::Control(Control::Return), 1)),
            0xD9 => Ok((Instruction::Control(Control::InterruptReturn), 1)),
            0xC0 | 0xD0 | 0xC8 | 0xD8 => Ok(
                (
                    Instruction::Control(
                        Control::ReturnConditional(ConditionCode::from_bits(bytes[0])),
                    ),
                    1,
                ),
            ),
            0x17 => Ok((Instruction::Bits(Bits::RotateLeftAccumulator), 1)),
            0x1F => Ok((Instruction::Bits(Bits::RotateRightAccumulator), 1)),
            0x07 => Ok((Instruction::Bits(Bits::RotateLeftCarryAccumulator), 1)),
            0x0F => Ok((Instruction::Bits(Bits::RotateRightCarryAccumulator), 1)),
            0xCB => match bytes[1] {
                0x00 | 0x01 | 0x02 | 0x03 | 0x04 | 0x05 | 0x06 | 0x07 => Ok(
                    (Instruction::Bits(Bits::RotateLeftCarry(Operand::from_bits(bytes[1], 0))), 2),
                ),
                0x08 | 0x09 | 0x0A | 0x0B | 0x0C | 0x0D | 0x0E | 0x0F => Ok(
                    (Instruction::Bits(Bits::RotateRightCarry(Operand::from_bits(bytes[1], 0))), 2),
                ),
                0x10 | 0x11 | 0x12 | 0x13 | 0x14 | 0x15 | 0x16 | 0x17 => Ok(
                    (Instruction::Bits(Bits::RotateLeft(Operand::from_bits(bytes[1], 0))), 2),
                ),
                0x18 | 0x19 | 0x1A | 0x1B | 0x1C | 0x1D | 0x1E | 0x1F => Ok(
                    (Instruction::Bits(Bits::RotateRight(Operand::from_bits(bytes[1], 0))), 2),
                ),
                0x20 | 0x21 | 0x22 | 0x23 | 0x24 | 0x25 | 0x26 | 0x27 => Ok(
                    (
                        Instruction::Bits(Bits::ShiftLeftArithmetic(Operand::from_bits(bytes[1], 0))),
                        2,
                    ),
                ),
                0x28 | 0x29 | 0x2A | 0x2B | 0x2C | 0x2D | 0x2E | 0x2F => Ok(
                    (
                        Instruction::Bits(
                            Bits::ShiftRightArithmetic(Operand::from_bits(bytes[1], 0)),
                        ),
                        2,
                    ),
                ),
                0x30 | 0x31 | 0x32 | 0x33 | 0x34 | 0x35 | 0x36 | 0x37 => Ok(
                    (Instruction::Bits(Bits::Swap(Operand::from_bits(bytes[1], 0))), 2),
                ),
                0x38 | 0x39 | 0x3A | 0x3B | 0x3C | 0x3D | 0x3E | 0x3F => Ok(
                    (Instruction::Bits(Bits::ShiftRightLogical(Operand::from_bits(bytes[1], 0))), 2),
                ),
                0x40 | 0x41 | 0x42 | 0x43 | 0x44 | 0x45 | 0x46 | 0x47 | 0x48 | 0x49 | 0x4A | 0x4B | 0x4C | 0x4D | 0x4E | 0x4F | 0x50 | 0x51 | 0x52 | 0x53 | 0x54 | 0x55 | 0x56 | 0x57 | 0x58 | 0x59 | 0x5A | 0x5B | 0x5C | 0x5D | 0x5E | 0x5F | 0x60 | 0x61 | 0x62 | 0x63 | 0x64 | 0x65 | 0x66 | 0x67 | 0x68 | 0x69 | 0x6A | 0x6B | 0x6C | 0x6D | 0x6E | 0x6F | 0x70 | 0x71 | 0x72 | 0x73 | 0x74 | 0x75 | 0x76 | 0x77 | 0x78 | 0x79 | 0x7A | 0x7B | 0x7C | 0x7D | 0x7E | 0x7F => Ok(
                    (
                        Instruction::Bits(
                            Bits::GetBit(get_bits_bit(bytes[1]), Operand::from_bits(bytes[1], 0)),
                        ),
                        2,
                    ),
                ),
                0x80 | 0x81 | 0x82 | 0x83 | 0x84 | 0x85 | 0x86 | 0x87 | 0x88 | 0x89 | 0x8A | 0x8B | 0x8C | 0x8D | 0x8E | 0x8F | 0x90 | 0x91 | 0x92 | 0x93 | 0x94 | 0x95 | 0x96 | 0x97 | 0x98 | 0x99 | 0x9A | 0x9B | 0x9C | 0x9D | 0x9E | 0x9F | 0xA0 | 0xA1 | 0xA2 | 0xA3 | 0xA4 | 0xA5 | 0xA6 | 0xA7 | 0xA8 | 0xA9 | 0xAA | 0xAB | 0xAC | 0xAD | 0xAE | 0xAF | 0xB0 | 0xB1 | 0xB2 | 0xB3 | 0xB4 | 0xB5 | 0xB6 | 0xB7 | 0xB8 | 0xB9 | 0xBA | 0xBB | 0xBC | 0xBD | 0xBE | 0xBF => Ok(
                    (
                        Instruction::Bits(
                            Bits::ResetBit(get_bits_bit(bytes[1]), Operand::from_bits(bytes[1], 0)),
                        ),
                        2,
                    ),
                ),
                0xC0 | 0xC1 | 0xC2 | 0xC3 | 0xC4 | 0xC5 | 0xC6 | 0xC7 | 0xC8 | 0xC9 | 0xCA | 0xCB | 0xCC | 0xCD | 0xCE | 0xCF | 0xD0 | 0xD1 | 0xD2 | 0xD3 | 0xD4 | 0xD5 | 0xD6 | 0xD7 | 0xD8 | 0xD9 | 0xDA | 0xDB | 0xDC | 0xDD | 0xDE | 0xDF | 0xE0 | 0xE1 | 0xE2 | 0xE3 | 0xE4 | 0xE5 | 0xE6 | 0xE7 | 0xE8 | 0xE9 | 0xEA | 0xEB | 0xEC | 0xED | 0xEE | 0xEF | 0xF0 | 0xF1 | 0xF2 | 0xF3 | 0xF4 | 0xF5 | 0xF6 | 0xF7 | 0xF8 | 0xF9 | 0xFA | 0xFB | 0xFC | 0xFD | 0xFE | 0xFF => Ok(
                    (
                        Instruction::Bits(
                            Bits::SetBit(get_bits_bit(bytes[1]), Operand::from_bits(bytes[1], 0)),
                        ),
                        2,
                    ),
                ),
            },
            0xD3 | 0xDB | 0xDD | 0xE3 | 0xE4 | 0xEB | 0xEC | 0xED | 0xF4 | 0xFC | 0xFD => Err(()),
        }
    }

    /// Decodes the three bytes at the program counter. The decoder is a total
    /// function of the first two bytes (plus the third for 16-bit immediates)
    /// and has no side effects; it fails exactly on the eleven reserved
    /// opcodes and on a `Stop` whose padding byte is not zero.
    pub fn decode(bytes: [u8; 3]) -> (r: Result<(Instruction, u8), ()>)
        ensures
            r == Instruction::spec_decode(bytes),
            r is Ok <==> !(spec_reserved(bytes[0]) || (bytes[0] == 0x10 && bytes[1] != 0)),
            r is Ok ==> r->Ok_0.1 == spec_len(bytes[0]),
            r is Ok ==> r->Ok_0.0.wf(),
    {
        let b0 = bytes[0];
        let b1 = bytes[1];
        let b2 = bytes[2];
        match b0 {
            0 => Ok((Instruction::Nop, 1)),
            0xFB => Ok((Instruction::EnableInterrupts, 1)),
            0xF3 => Ok((Instruction::DisableInterrupts, 1)),
            0x10 => match b1 {
                0x00 => Ok((Instruction::Stop, 2)),
                _ => Err(()),
            },
            0x76 => Ok((Instruction::Halt, 1)),
            0x37 => Ok((Instruction::SetCarry, 1)),
            0x3F => Ok((Instruction::ClearCarry, 1)),
            0x04 | 0x14 | 0x24 | 0x34 | 0x0C | 0x1C | 0x2C | 0x3C => Ok(
                (Instruction::Arith(Arith::Increment(Operand::from_bits(b0, 3))), 1),
            ),
            0x05 | 0x15 | 0x25 | 0x35 | 0x0D | 0x1D | 0x2D | 0x3D => Ok(
                (Instruction::Arith(Arith::Decrement(Operand::from_bits(b0, 3))), 1),
            ),
            0x08 => Ok((Instruction::Load(Load::LoadMemoryFromSP(hi_lo(b2, b1))), 3)),
            0x0B => Ok((Instruction::Arith(Arith::DecrementRegister16(Register16::BC)), 1)),
            0x1B => Ok((Instruction::Arith(Arith::DecrementRegister16(Register16::DE)), 1)),
            0x2B => Ok((Instruction::Arith(Arith::DecrementRegister16(Register16::HL)), 1)),
            0x3B => Ok((Instruction::Arith(Arith::DecrementRegister16(Register16::SP)), 1)),
            0x03 => Ok((Instruction::Arith(Arith::IncrementRegister16(Register16::BC)), 1)),
            0x13 => Ok((Instruction::Arith(Arith::IncrementRegister16(Register16::DE)), 1)),
            0x23 => Ok((Instruction::Arith(Arith::IncrementRegister16(Register16::HL)), 1)),
            0x33 => Ok((Instruction::Arith(Arith::IncrementRegister16(Register16::SP)), 1)),
            0xE8 => Ok((Instruction::Arith(Arith::AddSP(as_signed(b1))), 2)),
            0x09 => Ok(
                (
                    Instruction::Arith(
                        Arith::AddRegisterRegister16(Register16::HL, Register16::BC),
                    ),
                    1,
                ),
            ),
            0x19 => Ok(
                (
                    Instruction::Arith(
                        Arith::AddRegisterRegister16(Register16::HL, Register16::DE),
                    ),
                    1,
                ),
            ),
            0x29 => Ok(
                (
                    Instruction::Arith(
                        Arith::AddRegisterRegister16(Register16::HL, Register16::HL),
                    ),
                    1,
                ),
            ),
            0x39 => Ok(
                (
                    Instruction::Arith(
                        Arith::AddRegisterRegister16(Register16::HL, Register16::SP),
                    ),
                    1,
                ),
            ),
            0xE9 => Ok((Instruction::Control(Control::JumpIndirect), 1)),
            0xC3 => Ok((Instruction::Control(Control::Jump(hi_lo(b2, b1))), 3)),
            0xC2 | 0xD2 | 0xCA | 0xDA => Ok(
                (
                    Instruction::Control(
                        Control::JumpConditional(
                            hi_lo(b2, b1),
                            ConditionCode::from_bits(b0),
                        ),
                    ),
                    3,
                ),
            ),
            0xC7 => Ok((Instruction::Control(Control::Reset(0x0000)), 1)),
            0xD7 => Ok((Instruction::Control(Control::Reset(0x0010)), 1)),
            0xE7 => Ok((Instruction::Control(Control::Reset(0x0020)), 1)),
            0xF7 => Ok((Instruction::Control(Control::Reset(0x0030)), 1)),
            0xCF => Ok((Instruction::Control(Control::Reset(0x0008)), 1)),
            0xDF => Ok((Instruction::Control(Control::Reset(0x0018)), 1)),
            0xEF => Ok((Instruction::Control(Control::Reset(0x0028)), 1)),
            0xFF => Ok((Instruction::Control(Control::Reset(0x0038)), 1)),
            0xCD => Ok((Instruction::Control(Control::Call(hi_lo(b2, b1))), 3)),
            0xC4 | 0xD4 | 0xCC | 0xDC => Ok(
                (
                    Instruction::Control(
                        Control::CallConditional(
                            hi_lo(b2, b1),
                            ConditionCode::from_bits(b0),
                        ),
                    ),
                    3,
                ),
            ),
            0xF0 => Ok(
                (
                    Instruction::Load(
                        Load::Load(
                            Operand::Register(Register8::A),
                            Operand::IndirectAddress(hi_page(b1)),
                        ),
                    ),
                    2,
                ),
            ),
            0xE0 => Ok(
                (
                    Instruction::Load(
                        Load::Load(
                            Operand::IndirectAddress(hi_page(b1)),
                            Operand::Register(Register8::A),
                        ),
                    ),
                    2,
                ),
            ),
            0x01 => Ok(
                (
                    Instruction::Load(
                        Load::LoadRegisterImmediate16(Register16::BC, hi_lo(b2, b1)),
                    ),
                    3,
                ),
            ),
            0x11 => Ok(
                (
                    Instruction::Load(
                        Load::LoadRegisterImmediate16(Register16::DE, hi_lo(b2, b1)),
                    ),
                    3,
                ),
            ),
            0x21 => Ok(
                (
                    Instruction::Load(
                        Load::LoadRegisterImmediate16(Register16::HL, hi_lo(b2, b1)),
                    ),
                    3,
                ),
            ),
            0x31 => Ok(
                (
                    Instruction::Load(
                        Load::LoadRegisterImmediate16(Register16::SP, hi_lo(b2, b1)),
                    ),
                    3,
                ),
            ),
            0x2F => Ok((Instruction::Bits(Bits::Complement), 1)),
            0x27 => Ok((Instruction::Arith(Arith::DecimalAdjustAccumulator), 1)),
            0xEA => Ok((Instruction::Load(Load::LoadMemoryFromA(hi_lo(b2, b1))), 3)),
            0xFA => Ok((Instruction::Load(Load::LoadAFromMemory(hi_lo(b2, b1))), 3)),
            0xE2 => Ok((Instruction::Load(Load::LoadIndirectHiFromA), 1)),
            0xF2 => Ok((Instruction::Load(Load::LoadAFromIndirectHi), 1)),
            0xF8 => Ok((Instruction::Load(Load::LoadHLFromSP(as_signed(b1))), 2)),
            0xF9 => Ok((Instruction::Load(Load::LoadSPFromHL), 1)),
            0x02 => Ok((Instruction::Load(Load::LoadIndirectRegisterFromA(Register16::BC)), 1)),
            0x12 => Ok((Instruction::Load(Load::LoadIndirectRegisterFromA(Register16::DE)), 1)),
            0x0A => Ok((Instruction::Load(Load::LoadAFromIndirectRegister(Register16::BC)), 1)),
            0x1A => Ok((Instruction::Load(Load::LoadAFromIndirectRegister(Register16::DE)), 1)),
            0x06 | 0x16 | 0x26 | 0x36 | 0x0E | 0x1E | 0x2E | 0x3E => Ok(
                (
                    Instruction::Load(
                        Load::Load(Operand::from_bits(b0, 3), Operand::Immediate(b1)),
                    ),
                    2,
                ),
            ),
            0x40 | 0x41 | 0x42 | 0x43 | 0x44 | 0x45 | 0x46 | 0x47 | 0x48 | 0x49 | 0x4A | 0x4B | 0x4C | 0x4D | 0x4E | 0x4F | 0x50 | 0x51 | 0x52 | 0x53 | 0x54 | 0x55 | 0x56 | 0x57 | 0x58 | 0x59 | 0x5A | 0x5B | 0x5C | 0x5D | 0x5E | 0x5F | 0x60 | 0x61 | 0x62 | 0x63 | 0x64 | 0x65 | 0x66 | 0x67 | 0x68 | 0x69 | 0x6A | 0x6B | 0x6C | 0x6D | 0x6E | 0x6F | 0x70 | 0x71 | 0x72 | 0x73 | 0x74 | 0x75 | 0x77 | 0x78 | 0x79 | 0x7A | 0x7B | 0x7C | 0x7D | 0x7E | 0x7F => Ok(
                (
                    Instruction::Load(
                        Load::Load(Operand::from_bits(b0, 3), Operand::from_bits(b0, 0)),
                    ),
                    1,
                ),
            ),
            0x22 => Ok((Instruction::Load(Load::LoadIndirectFromA(1i8)), 1)),
            0x32 => Ok((Instruction::Load(Load::LoadIndirectFromA(-1i8)), 1)),
            0x2A => Ok((Instruction::Load(Load::LoadAFromIndirect(1i8)), 1)),
            0x3A => Ok((Instruction::Load(Load::LoadAFromIndirect(-1i8)), 1)),
            0xC5 => Ok((Instruction::Load(Load::Push(Register16::BC)), 1)),
            0xD5 => Ok((Instruction::Load(Load::Push(Register16::DE)), 1)),
            0xE5 => Ok((Instruction::Load(Load::Push(Register16::HL)), 1)),
            0xF5 => Ok((Instruction::Load(Load::Push(Register16::AF)), 1)),
            0xC1 => Ok((Instruction::Load(Load::Pop(Register16::BC)), 1)),
            0xD1 => Ok((Instruction::Load(Load::Pop(Register16::DE)), 1)),
            0xE1 => Ok((Instruction::Load(Load::Pop(Register16::HL)), 1)),
            0xF1 => Ok((Instruction::Load(Load::Pop(Register16::AF)), 1)),
            0xFE => Ok((Instruction::Compare(Operand::Immediate(b1)), 2)),
            0xB8 | 0xB9 | 0xBA | 0xBB | 0xBC | 0xBD | 0xBE | 0xBF => Ok((Instruction::Compare(Operand::from_bits(b0, 0)), 1)),
            0x20 | 0x30 | 0x28 | 0x38 => Ok(
                (
                    Instruction::Control(
                        Control::JumpRelativeConditional(
                            as_signed(b1),
                            ConditionCode::from_bits(b0),
                        ),
                    ),
                    2,
                ),
            ),
            0x18 => Ok((Instruction::Control(Control::JumpRelative(as_signed(b1))), 2)),
            0x80 | 0x81 | 0x82 | 0x83 | 0x84 | 0x85 | 0x86 | 0x87 => Ok((Instruction::Arith(Arith::Add(Operand::from_bits(b0, 0))), 1)),
            0xC6 => Ok((Instruction::Arith(Arith::Add(Operand::Immediate(b1))), 2)),
            0x88 | 0x89 | 0x8A | 0x8B | 0x8C | 0x8D | 0x8E | 0x8F => Ok(
                (Instruction::Arith(Arith::AddWithCarry(Operand::from_bits(b0, 0))), 1),
            ),
            0xCE => Ok((Instruction::Arith(Arith::AddWithCarry(Operand::Immediate(b1))), 2)),
            0x90 | 0x91 | 0x92 | 0x93 | 0x94 | 0x95 | 0x96 | 0x97 => Ok(
                (Instruction::Arith(Arith::Subtract(Operand::from_bits(b0, 0))), 1),
            ),
            0xD6 => Ok((Instruction::Arith(Arith::Subtract(Operand::Immediate(b1))), 2)),
            0x98 | 0x99 | 0x9A | 0x9B | 0x9C | 0x9D | 0x9E | 0x9F => Ok(
                (Instruction::Arith(Arith::SubtractWithCarry(Operand::from_bits(b0, 0))), 1),
            ),
            0xDE => Ok(
                (Instruction::Arith(Arith::SubtractWithCarry(Operand::Immediate(b1))), 2),
            ),
            0xE6 => Ok((Instruction::Logic(Logic::AndImmediate(b1)), 2)),
            0xA6 => Ok((Instruction::Logic(Logic::AndIndirect), 1)),
            0xA0 => Ok((Instruction::Logic(Logic::AndRegister(Register8::B)), 1)),
            0xA1 => Ok((Instruction::Logic(Logic::AndRegister(Register8::C)), 1)),
            0xA2 => Ok((Instruction::Logic(Logic::AndRegister(Register8::D)), 1)),
            0xA3 => Ok((Instruction::Logic(Logic::AndRegister(Register8::E)), 1)),
            0xA4 => Ok((Instruction::Logic(Logic::AndRegister(Register8::H)), 1)),
            0xA5 => Ok((Instruction::Logic(Logic::AndRegister(Register8::L)), 1)),
            0xA7 => Ok((Instruction::Logic(Logic::AndRegister(Register8::A)), 1)),
            0xF6 => Ok((Instruction::Logic(Logic::OrImmediate(b1)), 2)),
            0xB6 => Ok((Instruction::Logic(Logic::OrIndirect), 1)),
            0xB0 => Ok((Instruction::Logic(Logic::OrRegister(Register8::B)), 1)),
            0xB1 => Ok((Instruction::Logic(Logic::OrRegister(Register8::C)), 1)),
            0xB2 => Ok((Instruction::Logic(Logic::OrRegister(Register8::D)), 1)),
            0xB3 => Ok((Instruction::Logic(Logic::OrRegister(Register8::E)), 1)),
            0xB4 => Ok((Instruction::Logic(Logic::OrRegister(Register8::H)), 1)),
            0xB5 => Ok((Instruction::Logic(Logic::OrRegister(Register8::L)), 1)),
            0xB7 => Ok((Instruction::Logic(Logic::OrRegister(Register8::A)), 1)),
            0xEE => Ok((Instruction::Logic(Logic::XorImmediate(b1)), 2)),
            0xAE => Ok((Instruction::Logic(Logic::XorIndirect), 1)),
            0xA8 => Ok((Instruction::Logic(Logic::XorRegister(Register8::B)), 1)),
            0xA9 => Ok((Instruction::Logic(Logic::XorRegister(Register8::C)), 1)),
            0xAA => Ok((Instruction::Logic(Logic::XorRegister(Register8::D)), 1)),
            0xAB => Ok((Instruction::Logic(Logic::XorRegister(Register8::E)), 1)),
            0xAC => Ok((Instruction::Logic(Logic::XorRegister(Register8::H)), 1)),
            0xAD => Ok((Instruction::Logic(Logic::XorRegister(Register8::L)), 1)),
            0xAF => Ok((Instruction::Logic(Logic::XorRegister(Register8::A)), 1)),
            0xC9 => Ok((Instruction::Control(Control::Return), 1)),
            0xD9 => Ok((Instruction::Control(Control::InterruptReturn), 1)),
            0xC0 | 0xD0 | 0xC8 | 0xD8 => Ok(
                (
                    Instruction::Control(
                        Control::ReturnConditional(ConditionCode::from_bits(b0)),
                    ),
                    1,
                ),
            ),
            0x17 => Ok((Instruction::Bits(Bits::RotateLeftAccumulator), 1)),
            0x1F => Ok((Instruction::Bits(Bits::RotateRightAccumulator), 1)),
            0x07 => Ok((Instruction::Bits(Bits::RotateLeftCarryAccumulator), 1)),
            0x0F => Ok((Instruction::Bits(Bits::RotateRightCarryAccumulator), 1)),
            0xCB => match b1 {
                0x00 | 0x01 | 0x02 | 0x03 | 0x04 | 0x05 | 0x06 | 0x07 => Ok(
                    (Instruction::Bits(Bits::RotateLeftCarry(Operand::from_bits(b1, 0))), 2),
                ),
                0x08 | 0x09 | 0x0A | 0x0B | 0x0C | 0x0D | 0x0E | 0x0F => Ok(
                    (Instruction::Bits(Bits::RotateRightCarry(Operand::from_bits(b1, 0))), 2),
                ),
                0x10 | 0x11 | 0x12 | 0x13 | 0x14 | 0x15 | 0x16 | 0x17 => Ok(
                    (Instruction::Bits(Bits::RotateLeft(Operand::from_bits(b1, 0))), 2),
                ),
                0x18 | 0x19 | 0x1A | 0x1B | 0x1C | 0x1D | 0x1E | 0x1F => Ok(
                    (Instruction::Bits(Bits::RotateRight(Operand::from_bits(b1, 0))), 2),
                ),
                0x20 | 0x21 | 0x22 | 0x23 | 0x24 | 0x25 | 0x26 | 0x27 => Ok(
                    (
                        Instruction::Bits(Bits::ShiftLeftArithmetic(Operand::from_bits(b1, 0))),
                        2,
                    ),
                ),
                0x28 | 0x29 | 0x2A | 0x2B | 0x2C | 0x2D | 0x2E | 0x2F => Ok(
                    (
                        Instruction::Bits(
                            Bits::ShiftRightArithmetic(Operand::from_bits(b1, 0)),
                        ),
                        2,
                    ),
                ),
                0x30 | 0x31 | 0x32 | 0x33 | 0x34 | 0x35 | 0x36 | 0x37 => Ok(
                    (Instruction::Bits(Bits::Swap(Operand::from_bits(b1, 0))), 2),
                ),
                0x38 | 0x39 | 0x3A | 0x3B | 0x3C | 0x3D | 0x3E | 0x3F => Ok(
                    (Instruction::Bits(Bits::ShiftRightLogical(Operand::from_bits(b1, 0))), 2),
                ),
                0x40 | 0x41 | 0x42 | 0x43 | 0x44 | 0x45 | 0x46 | 0x47 | 0x48 | 0x49 | 0x4A | 0x4B | 0x4C | 0x4D | 0x4E | 0x4F | 0x50 | 0x51 | 0x52 | 0x53 | 0x54 | 0x55 | 0x56 | 0x57 | 0x58 | 0x59 | 0x5A | 0x5B | 0x5C | 0x5D | 0x5E | 0x5F | 0x60 | 0x61 | 0x62 | 0x63 | 0x64 | 0x65 | 0x66 | 0x67 | 0x68 | 0x69 | 0x6A | 0x6B | 0x6C | 0x6D | 0x6E | 0x6F | 0x70 | 0x71 | 0x72 | 0x73 | 0x74 | 0x75 | 0x76 | 0x77 | 0x78 | 0x79 | 0x7A | 0x7B | 0x7C | 0x7D | 0x7E | 0x7F => Ok(
                    (
                        Instruction::Bits(
                            Bits::GetBit(get_bits_bit(b1), Operand::from_bits(b1, 0)),
                        ),
                        2,
                    ),
                ),
                0x80 | 0x81 | 0x82 | 0x83 | 0x84 | 0x85 | 0x86 | 0x87 | 0x88 | 0x89 | 0x8A | 0x8B | 0x8C | 0x8D | 0x8E | 0x8F | 0x90 | 0x91 | 0x92 | 0x93 | 0x94 | 0x95 | 0x96 | 0x97 | 0x98 | 0x99 | 0x9A | 0x9B | 0x9C | 0x9D | 0x9E | 0x9F | 0xA0 | 0xA1 | 0xA2 | 0xA3 | 0xA4 | 0xA5 | 0xA6 | 0xA7 | 0xA8 | 0xA9 | 0xAA | 0xAB | 0xAC | 0xAD | 0xAE | 0xAF | 0xB0 | 0xB1 | 0xB2 | 0xB3 | 0xB4 | 0xB5 | 0xB6 | 0xB7 | 0xB8 | 0xB9 | 0xBA | 0xBB | 0xBC | 0xBD | 0xBE | 0xBF => Ok(
                    (
                        Instruction::Bits(
                            Bits::ResetBit(get_bits_bit(b1), Operand::from_bits(b1, 0)),
                        ),
                        2,
                    ),
                ),
                0xC0 | 0xC1 | 0xC2 | 0xC3 | 0xC4 | 0xC5 | 0xC6 | 0xC7 | 0xC8 | 0xC9 | 0xCA | 0xCB | 0xCC | 0xCD | 0xCE | 0xCF | 0xD0 | 0xD1 | 0xD2 | 0xD3 | 0xD4 | 0xD5 | 0xD6 | 0xD7 | 0xD8 | 0xD9 | 0xDA | 0xDB | 0xDC | 0xDD | 0xDE | 0xDF | 0xE0 | 0xE1 | 0xE2 | 0xE3 | 0xE4 | 0xE5 | 0xE6 | 0xE7 | 0xE8 | 0xE9 | 0xEA | 0xEB | 0xEC | 0xED | 0xEE | 0xEF | 0xF0 | 0xF1 | 0xF2 | 0xF3 | 0xF4 | 0xF5 | 0xF6 | 0xF7 | 0xF8 | 0xF9 | 0xFA | 0xFB | 0xFC | 0xFD | 0xFE | 0xFF => Ok(
                    (
                        Instruction::Bits(
                            Bits::SetBit(get_bits_bit(b1), Operand::from_bits(b1, 0)),
                        ),
                        2,
                    ),
                ),
            },
            0xD3 | 0xDB | 0xDD | 0xE3 | 0xE4 | 0xEB | 0xEC | 0xED | 0xF4 | 0xFC | 0xFD => Err(()),
        }
    }
}


impl Arith {
    /// Nominal machine-cycle cost of an arithmetic instruction.
    pub open spec fn spec_cycles(self) -> u8 {
        match self {
            Arith::Add(o) => if o is Register {
                4
            } else {
                8
            },
            Arith::AddWithCarry(o) => if o is Register {
                4
            } else {
                8
            },
            Arith::Subtract(o) => if o is Register {
                4
            } else {
                8
            },
            Arith::SubtractWithCarry(o) => if o is Register {
                4
            } else {
                8
            },
            Arith::Increment(o) => if o is Register {
                4
            } else {
                8
            },
            Arith::Decrement(o) => if o is Register {
                4
            } else {
                8
            },
            Arith::IncrementRegister16(_) => 8,
            Arith::DecrementRegister16(_) => 8,
            Arith::AddRegisterRegister16(_, _) => 8,
            Arith::AddSP(_) => 16,
            Arith::DecimalAdjustAccumulator => 4,
        }
    }

    #[verifier::when_used_as_spec(spec_cycles)]
    pub fn cycles(self) -> (r: u8)
        ensures
            r == self.spec_cycles(),
    {
        match self {
            Arith::Add(o) => if matches!(o, Operand::Register(_)) {
                4
            } else {
                8
            },
            Arith::AddWithCarry(o) => if matches!(o, Operand::Register(_)) {
                4
            } else {
                8
            },
            Arith::Subtract(o) => if matches!(o, Operand::Register(_)) {
                4
            } else {
                8
            },
            Arith::SubtractWithCarry(o) => if matches!(o, Operand::Register(_)) {
                4
            } else {
                8
            },
            Arith::Increment(o) => if matches!(o, Operand::Register(_)) {
                4
            } else {
                8
            },
            Arith::Decrement(o) => if matches!(o, Operand::Register(_)) {
                4
            } else {
                8
            },
            Arith::IncrementRegister16(_) => 8,
            Arith::DecrementRegister16(_) => 8,
            Arith::AddRegisterRegister16(_, _) => 8,
            Arith::AddSP(_) => 16,
            Arith::DecimalAdjustAccumulator => 4,
        }
    }
}

impl Bits {
    /// Nominal machine-cycle cost of a bit-manipulation instruction: four
    /// for the one-byte accumulator forms, twelve for CB-prefixed work on a
    /// register and sixteen on the memory cell at HL.
    pub open spec fn spec_cycles(self) -> u8 {
        match self {
            Bits::Complement => 4,
            Bits::RotateLeftAccumulator => 4,
            Bits::RotateRightAccumulator => 4,
            Bits::RotateLeftCarryAccumulator => 4,
            Bits::RotateRightCarryAccumulator => 4,
            Bits::RotateLeft(o) => if o is Register {
                12
            } else {
                16
            },
            Bits::RotateRight(o) => if o is Register {
                12
            } else {
                16
            },
            Bits::RotateLeftCarry(o) => if o is Register {
                12
            } else {
                16
            },
            Bits::RotateRightCarry(o) => if o is Register {
                12
            } else {
                16
            },
            Bits::ShiftLeftArithmetic(o) => if o is Register {
                12
            } else {
                16
            },
            Bits::ShiftRightArithmetic(o) => if o is Register {
                12
            } else {
                16
            },
            Bits::ShiftRightLogical(o) => if o is Register {
                12
            } else {
                16
            },
            Bits::Swap(o) => if o is Register {
                12
            } else {
                16
            },
            Bits::GetBit(_, o) => if o is Register {
                12
            } else {
                16
            },
            Bits::ResetBit(_, o) => if o is Register {
                12
            } else {
                16
            },
            Bits::SetBit(_, o) => if o is Register {
                12
            } else {
                16
            },
        }
    }

    #[verifier::when_used_as_spec(spec_cycles)]
    pub fn cycles(self) -> (r: u8)
        ensures
            r == self.spec_cycles(),
    {
        match self {
            Bits::Complement => 4,
            Bits::RotateLeftAccumulator => 4,
            Bits::RotateRightAccumulator => 4,
            Bits::RotateLeftCarryAccumulator => 4,
            Bits::RotateRightCarryAccumulator => 4,
            Bits::RotateLeft(o) => if matches!(o, Operand::Register(_)) {
                12
            } else {
                16
            },
            Bits::RotateRight(o) => if matches!(o, Operand::Register(_)) {
                12
            } else {
                16
            },
            Bits::RotateLeftCarry(o) => if matches!(o, Operand::Register(_)) {
                12
            } else {
                16
            },
            Bits::RotateRightCarry(o) => if matches!(o, Operand::Register(_)) {
                12
            } else {
                16
            },
            Bits::ShiftLeftArithmetic(o) => if matches!(o, Operand::Register(_)) {
                12
            } else {
                16
            },
            Bits::ShiftRightArithmetic(o) => if matches!(o, Operand::Register(_)) {
                12
            } else {
                16
            },
            Bits::ShiftRightLogical(o) => if matches!(o, Operand::Register(_)) {
                12
            } else {
                16
            },
            Bits::Swap(o) => if matches!(o, Operand::Register(_)) {
                12
            } else {
                16
            },
            Bits::GetBit(_, o) => if matches!(o, Operand::Register(_)) {
                12
            } else {
                16
            },
            Bits::ResetBit(_, o) => if matches!(o, Operand::Register(_)) {
                12
            } else {
                16
            },
            Bits::SetBit(_, o) => if matches!(o, Operand::Register(_)) {
                12
            } else {
                16
            },
        }
    }
}

impl Control {
    /// Nominal machine-cycle cost of a control instruction, given whether a
    /// conditional branch was taken.
    pub open spec fn spec_cycles(self, branch_taken: bool) -> u8 {
        match self {
            Control::Jump(_) => 12,
            Control::JumpConditional(_, _) => 12,
            Control::JumpIndirect => 4,
            Control::JumpRelative(_) => 12,
            Control::JumpRelativeConditional(_, _) => if branch_taken {
                12
            } else {
                8
            },
            Control::Call(_) => 24,
            Control::CallConditional(_, _) => 16,
            Control::Return => 4,
            Control::ReturnConditional(_) => if branch_taken {
                12
            } else {
                8
            },
            Control::InterruptReturn => 16,
            Control::Reset(_) => 24,
        }
    }

    #[verifier::when_used_as_spec(spec_cycles)]
    pub fn cycles(self, branch_taken: bool) -> (r: u8)
        ensures
            r == self.spec_cycles(branch_taken),
    {
        match self {
            Control::Jump(_) => 12,
            Control::JumpConditional(_, _) => 12,
            Control::JumpIndirect => 4,
            Control::JumpRelative(_) => 12,
            Control::JumpRelativeConditional(_, _) => if branch_taken {
                12
            } else {
                8
            },
            Control::Call(_) => 24,
            Control::CallConditional(_, _) => 16,
            Control::Return => 4,
            Control::ReturnConditional(_) => if branch_taken {
                12
            } else {
                8
            },
            Control::InterruptReturn => 16,
            Control::Reset(_) => 24,
        }
    }
}

impl Load {
    /// Nominal machine-cycle cost of a load instruction.
    pub open spec fn spec_cycles(self) -> u8 {
        match self {
            Load::Load(dst, src) => if dst is IndirectAddress || src is IndirectAddress {
                12
            } else if src is Immediate {
                8
            } else if dst is IndirectRegister || src is IndirectRegister {
                8
            } else {
                4
            },
            Load::LoadRegisterImmediate16(_, _) => 12,
            Load::LoadMemoryFromSP(_) => 16,
            Load::LoadMemoryFromA(_) => 16,
            Load::LoadAFromMemory(_) => 16,
            Load::LoadIndirectHiFromA => 8,
            Load::LoadAFromIndirectHi => 8,
            Load::LoadHLFromSP(_) => 12,
            Load::LoadSPFromHL => 8,
            Load::LoadIndirectRegisterFromA(_) => 8,
            Load::LoadAFromIndirectRegister(_) => 8,
            Load::LoadIndirectFromA(_) => 8,
            Load::LoadAFromIndirect(_) => 8,
            Load::Push(_) => 16,
            Load::Pop(_) => 12,
        }
    }

    #[verifier::when_used_as_spec(spec_cycles)]
    pub fn cycles(self) -> (r: u8)
        ensures
            r == self.spec_cycles(),
    {
        match self {
            Load::Load(dst, src) => if matches!(dst, Operand::IndirectAddress(_)) || matches!(
                src,
                Operand::IndirectAddress(_),
            ) {
                12
            } else if matches!(src, Operand::Immediate(_)) {
                8
            } else if matches!(dst, Operand::IndirectRegister(_)) || matches!(
                src,
                Operand::IndirectRegister(_),
            ) {
                8
            } else {
                4
            },
            Load::LoadRegisterImmediate16(_, _) => 12,
            Load::LoadMemoryFromSP(_) => 16,
            Load::LoadMemoryFromA(_) => 16,
            Load::LoadAFromMemory(_) => 16,
            Load::LoadIndirectHiFromA => 8,
            Load::LoadAFromIndirectHi => 8,
            Load::LoadHLFromSP(_) => 12,
            Load::LoadSPFromHL => 8,
            Load::LoadIndirectRegisterFromA(_) => 8,
            Load::LoadAFromIndirectRegister(_) => 8,
            Load::LoadIndirectFromA(_) => 8,
            Load::LoadAFromIndirect(_) => 8,
            Load::Push(_) => 16,
            Load::Pop(_) => 12,
        }
    }
}

impl Logic {
    /// Nominal machine-cycle cost of a bitwise-logic instruction.
    pub open spec fn spec_cycles(self) -> u8 {
        match self {
            Logic::AndImmediate(_) => 8,
            Logic::AndRegister(_) => 4,
            Logic::AndIndirect => 8,
            Logic::OrImmediate(_) => 8,
            Logic::OrRegister(_) => 4,
            Logic::OrIndirect => 8,
            Logic::XorImmediate(_) => 8,
            Logic::XorRegister(_) => 4,
            Logic::XorIndirect => 8,
        }
    }

    #[verifier::when_used_as_spec(spec_cycles)]
    pub fn cycles(self) -> (r: u8)
        ensures
            r == self.spec_cycles(),
    {
        match self {
            Logic::AndImmediate(_) => 8,
            Logic::AndRegister(_) => 4,
            Logic::AndIndirect => 8,
            Logic::OrImmediate(_) => 8,
            Logic::OrRegister(_) => 4,
            Logic::OrIndirect => 8,
            Logic::XorImmediate(_) => 8,
            Logic::XorRegister(_) => 4,
            Logic::XorIndirect => 8,
        }
    }
}

impl Instruction {
    /// Nominal machine-cycle cost of the instruction, given whether a
    /// conditional branch was taken. Every cost is a multiple of four and at
    /// most twenty-four.
    pub open spec fn spec_cycles(self, branch_taken: bool) -> u8 {
        match self {
            Instruction::Nop => 4,
            Instruction::EnableInterrupts => 4,
            Instruction::DisableInterrupts => 4,
            Instruction::Halt => 4,
            Instruction::Stop => 4,
            Instruction::SetCarry => 4,
            Instruction::ClearCarry => 4,
            Instruction::Compare(o) => if o is Register {
                4
            } else {
                8
            },
            Instruction::Arith(a) => a.spec_cycles(),
            Instruction::Bits(b) => b.spec_cycles(),
            Instruction::Control(c) => c.spec_cycles(branch_taken),
            Instruction::Load(l) => l.spec_cycles(),
            Instruction::Logic(l) => l.spec_cycles(),
        }
    }

    #[verifier::when_used_as_spec(spec_cycles)]
    pub fn cycles(self, branch_taken: bool) -> (r: u8)
        ensures
            r == self.spec_cycles(branch_taken),
            4 <= r <= 24,
    {
        match self {
            Instruction::Nop => 4,
            Instruction::EnableInterrupts => 4,
            Instruction::DisableInterrupts => 4,
            Instruction::Halt => 4,
            Instruction::Stop => 4,
            Instruction::SetCarry => 4,
            Instruction::ClearCarry => 4,
            Instruction::Compare(o) => if matches!(o, Operand::Register(_)) {
                4
            } else {
                8
            },
            Instruction::Arith(a) => a.cycles(),
            Instruction::Bits(b) => b.cycles(),
            Instruction::Control(c) => c.cycles(branch_taken),
            Instruction::Load(l) => l.cycles(),
            Instruction::Logic(l) => l.cycles(),
        }
    }
}

} // verus!


