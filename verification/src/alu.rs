//! Pure arithmetic-logic primitives. Every operation is a function of its
//! inputs alone and returns the new value together with the packed flags
//! word; nothing here touches CPU state.

use vstd::prelude::*;

verus! {

/// The packed flags word kept in the low register `F`.
///
/// Bit layout (MSB to LSB): Z at bit 7, N at bit 6, H at bit 5, C at bit 4;
/// the low nibble is always zero on write.
#[derive(Clone, Copy, Debug, PartialEq, Eq, Structural)]
pub struct Flags(pub u8);

/// Packs the four flag bits into a flags byte with a zero low nibble.
pub open spec fn flag_bits(z: bool, n: bool, h: bool, c: bool) -> u8 {
    let zb: int = if z {
        0x80
    } else {
        0
    };
    let nb: int = if n {
        0x40
    } else {
        0
    };
    let hb: int = if h {
        0x20
    } else {
        0
    };
    let cb: int = if c {
        0x10
    } else {
        0
    };
    (zb + nb + hb + cb) as u8
}

/// Z: the last result was zero.
pub open spec fn spec_zero(f: u8) -> bool {
    f / 0x80 % 2 == 1
}

/// N: the last operation was a subtraction.
pub open spec fn spec_subtract(f: u8) -> bool {
    f / 0x40 % 2 == 1
}

/// H: carry out of bit 3, or borrow into bit 4.
pub open spec fn spec_halfcarry(f: u8) -> bool {
    f / 0x20 % 2 == 1
}

/// C: carry out of bit 7, or borrow.
pub open spec fn spec_carry(f: u8) -> bool {
    f / 0x10 % 2 == 1
}

/// A well-formed flags byte has a zero low nibble.
pub open spec fn flags_wf(f: u8) -> bool {
    f % 16 == 0
}

/// Clears the low nibble of a byte written to `F`.
pub open spec fn spec_mask_flags(v: u8) -> u8 {
    (v / 16 * 16) as u8
}

pub proof fn lemma_mask_flags_wf(v: u8)
    ensures
        flags_wf(spec_mask_flags(v)),
        spec_mask_flags(v) <= v,
        flags_wf(v) ==> spec_mask_flags(v) == v,
{
}

pub proof fn lemma_flag_bits_wf(z: bool, n: bool, h: bool, c: bool)
    ensures
        flags_wf(flag_bits(z, n, h, c)),
        spec_zero(flag_bits(z, n, h, c)) == z,
        spec_subtract(flag_bits(z, n, h, c)) == n,
        spec_halfcarry(flag_bits(z, n, h, c)) == h,
        spec_carry(flag_bits(z, n, h, c)) == c,
{
}

impl Flags {
    pub open spec fn wf(self) -> bool {
        flags_wf(self.0)
    }

    pub fn from_bits(z: bool, n: bool, h: bool, c: bool) -> (r: Flags)
        ensures
            r.0 == flag_bits(z, n, h, c),
    {
        let v: u8 = (if z {
            0x80
        } else {
            0
        }) + (if n {
            0x40
        } else {
            0
        }) + (if h {
            0x20
        } else {
            0
        }) + (if c {
            0x10
        } else {
            0
        });
        Flags(v)
    }

    pub fn get_zero(&self) -> (r: bool)
        ensures
            r == spec_zero(self.0),
    {
        self.0 / 0x80 % 2 == 1
    }

    pub fn get_subtract(&self) -> (r: bool)
        ensures
            r == spec_subtract(self.0),
    {
        self.0 / 0x40 % 2 == 1
    }

    pub fn get_halfcarry(&self) -> (r: bool)
        ensures
            r == spec_halfcarry(self.0),
    {
        self.0 / 0x20 % 2 == 1
    }

    pub fn get_carry(&self) -> (r: bool)
        ensures
            r == spec_carry(self.0),
    {
        self.0 / 0x10 % 2 == 1
    }

    pub fn set_zero(&mut self, b: bool)
        ensures
            final (self).0 == flag_bits(
                b,
                spec_subtract(old(self).0),
                spec_halfcarry(old(self).0),
                spec_carry(old(self).0),
            ),
    {
        *self = Flags::from_bits(b, self.get_subtract(), self.get_halfcarry(), self.get_carry());
    }

    pub fn set_subtract(&mut self, b: bool)
        ensures
            final (self).0 == flag_bits(
                spec_zero(old(self).0),
                b,
                spec_halfcarry(old(self).0),
                spec_carry(old(self).0),
            ),
    {
        *self = Flags::from_bits(self.get_zero(), b, self.get_halfcarry(), self.get_carry());
    }

    pub fn set_halfcarry(&mut self, b: bool)
        ensures
            final (self).0 == flag_bits(
                spec_zero(old(self).0),
                spec_subtract(old(self).0),
                b,
                spec_carry(old(self).0),
            ),
    {
        *self = Flags::from_bits(self.get_zero(), self.get_subtract(), b, self.get_carry());
    }

    pub fn set_carry(&mut self, b: bool)
        ensures
            final (self).0 == flag_bits(
                spec_zero(old(self).0),
                spec_subtract(old(self).0),
                spec_halfcarry(old(self).0),
                b,
            ),
    {
        *self = Flags::from_bits(self.get_zero(), self.get_subtract(), self.get_halfcarry(), b);
    }

    /// Returns a copy with Z set, for building expected flag words.
    pub fn zero(self) -> (r: Flags)
        ensures
            r.0 == flag_bits(
                true,
                spec_subtract(self.0),
                spec_halfcarry(self.0),
                spec_carry(self.0),
            ),
    {
        Flags::from_bits(true, self.get_subtract(), self.get_halfcarry(), self.get_carry())
    }

    /// Returns a copy with N set.
    pub fn subtract(self) -> (r: Flags)
        ensures
            r.0 == flag_bits(spec_zero(self.0), true, spec_halfcarry(self.0), spec_carry(self.0)),
    {
        Flags::from_bits(self.get_zero(), true, self.get_halfcarry(), self.get_carry())
    }

    /// Returns a copy with H set.
    pub fn halfcarry(self) -> (r: Flags)
        ensures
            r.0 == flag_bits(spec_zero(self.0), spec_subtract(self.0), true, spec_carry(self.0)),
    {
        Flags::from_bits(self.get_zero(), self.get_subtract(), true, self.get_carry())
    }

    /// Returns a copy with C set.
    pub fn carry(self) -> (r: Flags)
        ensures
            r.0 == flag_bits(
                spec_zero(self.0),
                spec_subtract(self.0),
                spec_halfcarry(self.0),
                true,
            ),
    {
        Flags::from_bits(self.get_zero(), self.get_subtract(), self.get_halfcarry(), true)
    }
}

/// High byte of a 16-bit value.
pub open spec fn spec_hi(v: u16) -> u8 {
    (v / 0x100) as u8
}

/// Low byte of a 16-bit value.
pub open spec fn spec_lo(v: u16) -> u8 {
    (v % 0x100) as u8
}

/// Composes a 16-bit value from its high and low bytes.
pub open spec fn spec_hi_lo(h: u8, l: u8) -> u16 {
    (h * 0x100 + l) as u16
}

#[verifier::when_used_as_spec(spec_hi)]
pub fn hi(v: u16) -> (r: u8)
    ensures
        r == spec_hi(v),
{
    (v / 0x100) as u8
}

#[verifier::when_used_as_spec(spec_lo)]
pub fn lo(v: u16) -> (r: u8)
    ensures
        r == spec_lo(v),
{
    (v % 0x100) as u8
}

#[verifier::when_used_as_spec(spec_hi_lo)]
pub fn hi_lo(h: u8, l: u8) -> (r: u16)
    ensures
        r == spec_hi_lo(h, l),
{
    h as u16 * 0x100 + l as u16
}

pub proof fn lemma_hi_lo_inverse(v: u16, h: u8, l: u8)
    ensures
        spec_hi_lo(spec_hi(v), spec_lo(v)) == v,
        spec_hi(spec_hi_lo(h, l)) == h,
        spec_lo(spec_hi_lo(h, l)) == l,
{
}

/// 8-bit add: Z per result, N clear, H on nibble carry, C on byte carry.
pub open spec fn spec_add(a: u8, b: u8) -> (u8, u8) {
    let v = if a + b > 0xFF {
        (a + b - 0x100) as u8
    } else {
        (a + b) as u8
    };
    (v, flag_bits(v == 0, false, a % 16 + b % 16 > 0xF, a + b > 0xFF))
}

pub fn add(a: u8, b: u8) -> (r: (u8, Flags))
    ensures
        r.0 == spec_add(a, b).0,
        r.1.0 == spec_add(a, b).1,
{
    let t: u16 = a as u16 + b as u16;
    let v: u8 = if t > 0xFF {
        (t - 0x100) as u8
    } else {
        t as u8
    };
    (v, Flags::from_bits(v == 0, false, a % 16 + b % 16 > 0xF, t > 0xFF))
}

/// 8-bit add with carry-in participating in the value and in H and C.
pub open spec fn spec_adc(a: u8, b: u8, carry: bool) -> (u8, u8) {
    let cin: int = if carry {
        1
    } else {
        0
    };
    let t: int = a + b + cin;
    let v = if t > 0xFF {
        (t - 0x100) as u8
    } else {
        t as u8
    };
    (v, flag_bits(v == 0, false, a % 16 + b % 16 + cin > 0xF, t > 0xFF))
}

pub fn adc(a: u8, b: u8, carry: bool) -> (r: (u8, Flags))
    ensures
        r.0 == spec_adc(a, b, carry).0,
        r.1.0 == spec_adc(a, b, carry).1,
{
    let cin: u16 = if carry {
        1
    } else {
        0
    };
    let t: u16 = a as u16 + b as u16 + cin;
    let v: u8 = if t > 0xFF {
        (t - 0x100) as u8
    } else {
        t as u8
    };
    (v, Flags::from_bits(v == 0, false, a as u16 % 16 + b as u16 % 16 + cin > 0xF, t > 0xFF))
}

/// 8-bit subtract: Z per result, N set, H on nibble borrow, C iff `a < b`.
pub open spec fn spec_sub(a: u8, b: u8) -> (u8, u8) {
    let v = if a >= b {
        (a - b) as u8
    } else {
        (a + 0x100 - b) as u8
    };
    (v, flag_bits(v == 0, true, a % 16 < b % 16, a < b))
}

pub fn sub(a: u8, b: u8) -> (r: (u8, Flags))
    ensures
        r.0 == spec_sub(a, b).0,
        r.1.0 == spec_sub(a, b).1,
{
    let v: u8 = if a >= b {
        a - b
    } else {
        (a as u16 + 0x100 - b as u16) as u8
    };
    (v, Flags::from_bits(v == 0, true, a % 16 < b % 16, a < b))
}

/// 8-bit subtract with borrow-in.
pub open spec fn spec_sbc(a: u8, b: u8, carry: bool) -> (u8, u8) {
    let cin: int = if carry {
        1
    } else {
        0
    };
    let v = if a >= b + cin {
        (a - b - cin) as u8
    } else {
        (a + 0x100 - b - cin) as u8
    };
    (v, flag_bits(v == 0, true, a % 16 < b % 16 + cin, a < b + cin))
}

pub fn sbc(a: u8, b: u8, carry: bool) -> (r: (u8, Flags))
    ensures
        r.0 == spec_sbc(a, b, carry).0,
        r.1.0 == spec_sbc(a, b, carry).1,
{
    let cin: u16 = if carry {
        1
    } else {
        0
    };
    let v: u8 = if a as u16 >= b as u16 + cin {
        (a as u16 - b as u16 - cin) as u8
    } else {
        (a as u16 + 0x100 - b as u16 - cin) as u8
    };
    let hb: bool = ((a % 16) as u16) < (b % 16) as u16 + cin;
    let cb: bool = (a as u16) < b as u16 + cin;
    (v, Flags::from_bits(v == 0, true, hb, cb))
}

/// 8-bit increment: C is preserved from the old flags, unlike `add`.
pub open spec fn spec_inc(v: u8, f: u8) -> (u8, u8) {
    let r = if v == 0xFF {
        0
    } else {
        (v + 1) as u8
    };
    (r, flag_bits(r == 0, false, v % 16 == 0xF, spec_carry(f)))
}

pub fn inc(v: u8, f: Flags) -> (r: (u8, Flags))
    ensures
        r.0 == spec_inc(v, f.0).0,
        r.1.0 == spec_inc(v, f.0).1,
{
    let rv: u8 = if v == 0xFF {
        0
    } else {
        v + 1
    };
    (rv, Flags::from_bits(rv == 0, false, v % 16 == 0xF, f.get_carry()))
}

/// 8-bit decrement: N set, H on nibble borrow, C preserved.
pub open spec fn spec_dec(v: u8, f: u8) -> (u8, u8) {
    let r = if v == 0 {
        0xFF
    } else {
        (v - 1) as u8
    };
    (r, flag_bits(r == 0, true, v % 16 == 0, spec_carry(f)))
}

pub fn dec(v: u8, f: Flags) -> (r: (u8, Flags))
    ensures
        r.0 == spec_dec(v, f.0).0,
        r.1.0 == spec_dec(v, f.0).1,
{
    let rv: u8 = if v == 0 {
        0xFF
    } else {
        v - 1
    };
    (rv, Flags::from_bits(rv == 0, true, v % 16 == 0, f.get_carry()))
}

/// 16-bit add: Z preserved, N clear, H from bit 11, C from bit 15.
pub open spec fn spec_add16(a: u16, b: u16, f: u8) -> (u16, u8) {
    let v = if a + b > 0xFFFF {
        (a + b - 0x10000) as u16
    } else {
        (a + b) as u16
    };
    (v, flag_bits(spec_zero(f), false, a % 0x1000 + b % 0x1000 > 0xFFF, a + b > 0xFFFF))
}

pub fn add16(a: u16, b: u16, f: Flags) -> (r: (u16, Flags))
    ensures
        r.0 == spec_add16(a, b, f.0).0,
        r.1.0 == spec_add16(a, b, f.0).1,
{
    let t: u32 = a as u32 + b as u32;
    let v: u16 = if t > 0xFFFF {
        (t - 0x10000) as u16
    } else {
        t as u16
    };
    (
        v,
        Flags::from_bits(
            f.get_zero(),
            false,
            a as u32 % 0x1000 + b as u32 % 0x1000 > 0xFFF,
            t > 0xFFFF,
        ),
    )
}

/// Bitwise AND: Z per result, N clear, H set, C clear.
pub open spec fn spec_and(a: u8, b: u8) -> (u8, u8) {
    let v = a & b;
    (v, flag_bits(v == 0, false, true, false))
}

pub fn and(a: u8, b: u8) -> (r: (u8, Flags))
    ensures
        r.0 == spec_and(a, b).0,
        r.1.0 == spec_and(a, b).1,
{
    let v = a & b;
    (v, Flags::from_bits(v == 0, false, true, false))
}

/// Bitwise OR: Z per result, all other flags clear.
pub open spec fn spec_or(a: u8, b: u8) -> (u8, u8) {
    let v = a | b;
    (v, flag_bits(v == 0, false, false, false))
}

pub fn or(a: u8, b: u8) -> (r: (u8, Flags))
    ensures
        r.0 == spec_or(a, b).0,
        r.1.0 == spec_or(a, b).1,
{
    let v = a | b;
    (v, Flags::from_bits(v == 0, false, false, false))
}

/// Bitwise XOR: Z per result, all other flags clear.
pub open spec fn spec_xor(a: u8, b: u8) -> (u8, u8) {
    let v = a ^ b;
    (v, flag_bits(v == 0, false, false, false))
}

pub fn xor(a: u8, b: u8) -> (r: (u8, Flags))
    ensures
        r.0 == spec_xor(a, b).0,
        r.1.0 == spec_xor(a, b).1,
{
    let v = a ^ b;
    (v, Flags::from_bits(v == 0, false, false, false))
}

/// Nibble swap: Z per result, all other flags clear.
pub open spec fn spec_swap(v: u8) -> (u8, u8) {
    let r = (v % 16 * 16 + v / 16) as u8;
    (r, flag_bits(r == 0, false, false, false))
}

pub fn swap(v: u8) -> (r: (u8, Flags))
    ensures
        r.0 == spec_swap(v).0,
        r.1.0 == spec_swap(v).1,
{
    let rv: u8 = v % 16 * 16 + v / 16;
    (rv, Flags::from_bits(rv == 0, false, false, false))
}

/// Arithmetic shift left: C takes bit 7, Z per result, N and H clear.
pub open spec fn spec_sla(v: u8) -> (u8, u8) {
    let r = if v >= 0x80 {
        (v * 2 - 0x100) as u8
    } else {
        (v * 2) as u8
    };
    (r, flag_bits(r == 0, false, false, v >= 0x80))
}

pub fn sla(v: u8) -> (r: (u8, Flags))
    ensures
        r.0 == spec_sla(v).0,
        r.1.0 == spec_sla(v).1,
{
    let rv: u8 = if v >= 0x80 {
        (v as u16 * 2 - 0x100) as u8
    } else {
        v * 2
    };
    (rv, Flags::from_bits(rv == 0, false, false, v >= 0x80))
}

/// Logical shift right: C takes bit 0, Z per result, N and H clear.
pub open spec fn spec_srl(v: u8) -> (u8, u8) {
    let r = (v / 2) as u8;
    (r, flag_bits(r == 0, false, false, v % 2 == 1))
}

pub fn srl(v: u8) -> (r: (u8, Flags))
    ensures
        r.0 == spec_srl(v).0,
        r.1.0 == spec_srl(v).1,
{
    let rv: u8 = v / 2;
    (rv, Flags::from_bits(rv == 0, false, false, v % 2 == 1))
}

/// Arithmetic shift right: bit 7 is preserved, C takes bit 0.
pub open spec fn spec_sra(v: u8) -> (u8, u8) {
    let r = if v >= 0x80 {
        (v / 2 + 0x80) as u8
    } else {
        (v / 2) as u8
    };
    (r, flag_bits(r == 0, false, false, v % 2 == 1))
}

pub fn sra(v: u8) -> (r: (u8, Flags))
    ensures
        r.0 == spec_sra(v).0,
        r.1.0 == spec_sra(v).1,
{
    let rv: u8 = if v >= 0x80 {
        v / 2 + 0x80
    } else {
        v / 2
    };
    (rv, Flags::from_bits(rv == 0, false, false, v % 2 == 1))
}

/// Rotate left through carry: bit 7 becomes C, the old C enters at bit 0.
pub open spec fn spec_rl(v: u8, f: u8) -> (u8, u8) {
    let cin: int = if spec_carry(f) {
        1
    } else {
        0
    };
    let r = if v >= 0x80 {
        (v * 2 - 0x100 + cin) as u8
    } else {
        (v * 2 + cin) as u8
    };
    (r, flag_bits(r == 0, false, false, v >= 0x80))
}

pub fn rl(v: u8, f: Flags) -> (r: (u8, Flags))
    ensures
        r.0 == spec_rl(v, f.0).0,
        r.1.0 == spec_rl(v, f.0).1,
{
    let cin: u16 = if f.get_carry() {
        1
    } else {
        0
    };
    let rv: u8 = if v >= 0x80 {
        (v as u16 * 2 - 0x100 + cin) as u8
    } else {
        (v as u16 * 2 + cin) as u8
    };
    (rv, Flags::from_bits(rv == 0, false, false, v >= 0x80))
}

/// Rotate right through carry: bit 0 becomes C, the old C enters at bit 7.
pub open spec fn spec_rr(v: u8, f: u8) -> (u8, u8) {
    let cin: int = if spec_carry(f) {
        0x80
    } else {
        0
    };
    let r = (v / 2 + cin) as u8;
    (r, flag_bits(r == 0, false, false, v % 2 == 1))
}

pub fn rr(v: u8, f: Flags) -> (r: (u8, Flags))
    ensures
        r.0 == spec_rr(v, f.0).0,
        r.1.0 == spec_rr(v, f.0).1,
{
    let cin: u8 = if f.get_carry() {
        0x80
    } else {
        0
    };
    let rv: u8 = v / 2 + cin;
    (rv, Flags::from_bits(rv == 0, false, false, v % 2 == 1))
}

/// Rotate left: bit 7 goes to C and to bit 0.
pub open spec fn spec_rlc(v: u8, f: u8) -> (u8, u8) {
    let r = if v >= 0x80 {
        (v * 2 - 0x100 + 1) as u8
    } else {
        (v * 2) as u8
    };
    (r, flag_bits(r == 0, false, false, v >= 0x80))
}

pub fn rlc(v: u8, f: Flags) -> (r: (u8, Flags))
    ensures
        r.0 == spec_rlc(v, f.0).0,
        r.1.0 == spec_rlc(v, f.0).1,
{
    let rv: u8 = if v >= 0x80 {
        (v as u16 * 2 - 0x100 + 1) as u8
    } else {
        v * 2
    };
    (rv, Flags::from_bits(rv == 0, false, false, v >= 0x80))
}

/// Rotate right: bit 0 goes to C and to bit 7.
pub open spec fn spec_rrc(v: u8, f: u8) -> (u8, u8) {
    let r = if v % 2 == 1 {
        (v / 2 + 0x80) as u8
    } else {
        (v / 2) as u8
    };
    (r, flag_bits(r == 0, false, false, v % 2 == 1))
}

pub fn rrc(v: u8, f: Flags) -> (r: (u8, Flags))
    ensures
        r.0 == spec_rrc(v, f.0).0,
        r.1.0 == spec_rrc(v, f.0).1,
{
    let rv: u8 = if v % 2 == 1 {
        v / 2 + 0x80
    } else {
        v / 2
    };
    (rv, Flags::from_bits(rv == 0, false, false, v % 2 == 1))
}

/// Decimal-adjust after an add (N clear): the correction amounts.
pub open spec fn spec_daa(a: u8, f: u8) -> (u8, u8) {
    if !spec_subtract(f) {
        let lo_adj = spec_halfcarry(f) || a % 16 > 9;
        let hi_adj = spec_carry(f) || a > 0x99;
        let lb: int = if lo_adj {
            6
        } else {
            0
        };
        let hb: int = if hi_adj {
            0x60
        } else {
            0
        };
        let t: int = a + lb + hb;
        let v = if t > 0xFF {
            (t - 0x100) as u8
        } else {
            t as u8
        };
        (v, flag_bits(v == 0, false, false, hi_adj))
    } else {
        let hb: int = if spec_halfcarry(f) {
            6
        } else {
            0
        };
        let cb: int = if spec_carry(f) {
            0x60
        } else {
            0
        };
        let amount: int = hb + cb;
        let v = if a >= amount {
            (a - amount) as u8
        } else {
            (a + 0x100 - amount) as u8
        };
        (v, flag_bits(v == 0, true, false, spec_carry(f)))
    }
}

/// Binary-coded-decimal correction after an add or subtract, choosing the
/// adjustment from the previous operation's N, H and C flags.
pub fn daa(a: u8, f: Flags) -> (r: (u8, Flags))
    ensures
        r.0 == spec_daa(a, f.0).0,
        r.1.0 == spec_daa(a, f.0).1,
{
    if !f.get_subtract() {
        let lo_adj = f.get_halfcarry() || a % 16 > 9;
        let hi_adj = f.get_carry() || a > 0x99;
        let t: u16 = a as u16 + (if lo_adj {
            6
        } else {
            0
        }) + (if hi_adj {
            0x60
        } else {
            0
        });
        let v: u8 = if t > 0xFF {
            (t - 0x100) as u8
        } else {
            t as u8
        };
        (v, Flags::from_bits(v == 0, false, false, hi_adj))
    } else {
        let amount: u16 = (if f.get_halfcarry() {
            6
        } else {
            0
        }) + (if f.get_carry() {
            0x60
        } else {
            0
        });
        let v: u8 = if a as u16 >= amount {
            (a as u16 - amount) as u8
        } else {
            (a as u16 + 0x100 - amount) as u8
        };
        (v, Flags::from_bits(v == 0, true, false, f.get_carry()))
    }
}


/// 16-bit wrapping add.
pub open spec fn spec_wadd16(a: u16, n: u16) -> u16 {
    if a + n > 0xFFFF {
        (a + n - 0x10000) as u16
    } else {
        (a + n) as u16
    }
}

#[verifier::when_used_as_spec(spec_wadd16)]
pub fn wadd16(a: u16, n: u16) -> (r: u16)
    ensures
        r == spec_wadd16(a, n),
{
    let t: u32 = a as u32 + n as u32;
    if t > 0xFFFF {
        (t - 0x10000) as u16
    } else {
        t as u16
    }
}

/// 16-bit wrapping subtract.
pub open spec fn spec_wsub16(a: u16, n: u16) -> u16 {
    if a >= n {
        (a - n) as u16
    } else {
        (a + 0x10000 - n) as u16
    }
}

#[verifier::when_used_as_spec(spec_wsub16)]
pub fn wsub16(a: u16, n: u16) -> (r: u16)
    ensures
        r == spec_wsub16(a, n),
{
    if a >= n {
        a - n
    } else {
        (a as u32 + 0x10000 - n as u32) as u16
    }
}

/// The 16-bit two's-complement image of a signed 8-bit displacement, so that
/// a wrapping add of it moves an address by the displacement.
pub open spec fn spec_sign_ext(o: i8) -> u16 {
    if o >= 0 {
        o as u16
    } else {
        (o + 0x10000) as u16
    }
}

#[verifier::when_used_as_spec(spec_sign_ext)]
pub fn sign_ext(o: i8) -> (r: u16)
    ensures
        r == spec_sign_ext(o),
{
    if o >= 0 {
        o as u16
    } else {
        (o as i32 + 0x10000) as u16
    }
}


/// The power of two selecting bit `b` of a byte.
pub open spec fn spec_bit_mask(b: u8) -> u8 {
    if b == 0 {
        1
    } else if b == 1 {
        2
    } else if b == 2 {
        4
    } else if b == 3 {
        8
    } else if b == 4 {
        16
    } else if b == 5 {
        32
    } else if b == 6 {
        64
    } else {
        128
    }
}

#[verifier::when_used_as_spec(spec_bit_mask)]
pub fn bit_mask(b: u8) -> (r: u8)
    ensures
        r == spec_bit_mask(b),
{
    if b == 0 {
        1
    } else if b == 1 {
        2
    } else if b == 2 {
        4
    } else if b == 3 {
        8
    } else if b == 4 {
        16
    } else if b == 5 {
        32
    } else if b == 6 {
        64
    } else {
        128
    }
}

/// Whether bit `b` of `v` is set.
pub open spec fn spec_bit_test(v: u8, b: u8) -> bool {
    v / spec_bit_mask(b) % 2 == 1
}

#[verifier::when_used_as_spec(spec_bit_test)]
pub fn bit_test(v: u8, b: u8) -> (r: bool)
    ensures
        r == spec_bit_test(v, b),
{
    v / bit_mask(b) % 2 == 1
}

pub proof fn lemma_bit_mask_range(v: u8, b: u8)
    ensures
        !spec_bit_test(v, b) ==> v + spec_bit_mask(b) <= 255,
        spec_bit_test(v, b) ==> v >= spec_bit_mask(b),
{
}

/// `v` with bit `b` set.
pub open spec fn spec_with_bit_set(v: u8, b: u8) -> u8 {
    if spec_bit_test(v, b) {
        v
    } else {
        (v + spec_bit_mask(b)) as u8
    }
}

#[verifier::when_used_as_spec(spec_with_bit_set)]
pub fn with_bit_set(v: u8, b: u8) -> (r: u8)
    ensures
        r == spec_with_bit_set(v, b),
{
    proof {
        lemma_bit_mask_range(v, b);
    }
    if bit_test(v, b) {
        v
    } else {
        v + bit_mask(b)
    }
}

/// `v` with bit `b` cleared.
pub open spec fn spec_with_bit_cleared(v: u8, b: u8) -> u8 {
    if spec_bit_test(v, b) {
        (v - spec_bit_mask(b)) as u8
    } else {
        v
    }
}

#[verifier::when_used_as_spec(spec_with_bit_cleared)]
pub fn with_bit_cleared(v: u8, b: u8) -> (r: u8)
    ensures
        r == spec_with_bit_cleared(v, b),
{
    proof {
        lemma_bit_mask_range(v, b);
    }
    if bit_test(v, b) {
        v - bit_mask(b)
    } else {
        v
    }
}

} // verus!


