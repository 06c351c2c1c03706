use j2gbc::alu;
use j2gbc::alu::Flags;

#[test]
fn add_sets_all_flags() {
    // 0x3A + 0xC6 = 0x100: zero result, nibble carry, byte carry.
    let (v, f) = alu::add(0x3A, 0xC6);
    assert_eq!(v, 0x00);
    assert_eq!(f.0, 0xB0);

    let (v, f) = alu::add(0x3C, 0x12);
    assert_eq!(v, 0x4E);
    assert_eq!(f.0, 0x00);

    let (v, f) = alu::add(0x08, 0x08);
    assert_eq!(v, 0x10);
    assert_eq!(f.0, 0x20);
}

#[test]
fn adc_counts_the_carry_in() {
    let (v, f) = alu::adc(0xFF, 0x00, true);
    assert_eq!(v, 0x00);
    assert_eq!(f.0, 0xB0);

    let (v, f) = alu::adc(0x0F, 0x00, true);
    assert_eq!(v, 0x10);
    assert_eq!(f.0, 0x20);
}

#[test]
fn sub_borrow_flags() {
    // C set iff the subtrahend exceeds the minuend.
    let (v, f) = alu::sub(0x10, 0x20);
    assert_eq!(v, 0xF0);
    assert!(f.get_carry());
    assert!(f.get_subtract());
    assert!(!f.get_halfcarry());

    // H set iff the low nibble borrows.
    let (v, f) = alu::sub(0x3C, 0x2F);
    assert_eq!(v, 0x0D);
    assert_eq!(f.0, 0x60);

    let (v, f) = alu::sub(0x3C, 0x3C);
    assert_eq!(v, 0x00);
    assert_eq!(f.0, 0xC0);
}

#[test]
fn sbc_counts_the_borrow_in() {
    let (v, f) = alu::sbc(0x00, 0x00, true);
    assert_eq!(v, 0xFF);
    assert!(f.get_carry());
    assert!(f.get_halfcarry());
}

#[test]
fn inc_and_dec_preserve_carry() {
    let carry_in = Flags(0).carry();
    let (v, f) = alu::inc(0x0F, carry_in);
    assert_eq!(v, 0x10);
    // Z clear, N clear, H set from bit 3, C preserved.
    assert_eq!(f.0, 0x30);

    let (v, f) = alu::inc(0xFF, Flags(0));
    assert_eq!(v, 0x00);
    assert_eq!(f.0, 0xA0);

    let (v, f) = alu::dec(0x10, carry_in);
    assert_eq!(v, 0x0F);
    assert_eq!(f.0, 0x70);

    let (v, f) = alu::dec(0x01, Flags(0));
    assert_eq!(v, 0x00);
    assert_eq!(f.0, 0xC0);
}

#[test]
fn add16_preserves_zero_flag() {
    let (v, f) = alu::add16(0x0FFF, 0x0001, Flags(0).zero());
    assert_eq!(v, 0x1000);
    // Z preserved, H from bit 11, C clear.
    assert_eq!(f.0, 0xA0);

    let (v, f) = alu::add16(0xFFFF, 0x0002, Flags(0));
    assert_eq!(v, 0x0001);
    assert_eq!(f.0, 0x30);
}

#[test]
fn bitwise_ops_flag_layout() {
    let (v, f) = alu::and(0x5A, 0x3F);
    assert_eq!(v, 0x1A);
    assert_eq!(f.0, 0x20);

    let (v, f) = alu::and(0xF0, 0x0F);
    assert_eq!(v, 0x00);
    assert_eq!(f.0, 0xA0);

    let (v, f) = alu::or(0x5A, 0x0F);
    assert_eq!(v, 0x5F);
    assert_eq!(f.0, 0x00);

    let (v, f) = alu::xor(0xFF, 0xFF);
    assert_eq!(v, 0x00);
    assert_eq!(f.0, 0x80);
}

#[test]
fn swap_is_an_involution() {
    let (once, f1) = alu::swap(0xA5);
    assert_eq!(once, 0x5A);
    let (twice, f2) = alu::swap(once);
    assert_eq!(twice, 0xA5);
    // N, H and C are cleared by both applications.
    assert_eq!(f1.0, f2.0);
    assert_eq!(f1.0, 0x00);

    let (z, f) = alu::swap(0x00);
    assert_eq!(z, 0x00);
    assert_eq!(f.0, 0x80);
}

#[test]
fn shifts_move_the_ejected_bit_to_carry() {
    let (v, f) = alu::sla(0x81);
    assert_eq!(v, 0x02);
    assert!(f.get_carry());

    let (v, f) = alu::srl(0x81);
    assert_eq!(v, 0x40);
    assert!(f.get_carry());

    // SRA preserves bit 7.
    let (v, f) = alu::sra(0x81);
    assert_eq!(v, 0xC0);
    assert!(f.get_carry());

    let (v, f) = alu::sra(0x02);
    assert_eq!(v, 0x01);
    assert!(!f.get_carry());
}

#[test]
fn rotates_through_and_around_carry() {
    // RL: old carry enters at bit 0, bit 7 leaves into carry.
    let (v, f) = alu::rl(0x80, Flags(0).carry());
    assert_eq!(v, 0x01);
    assert!(f.get_carry());

    let (v, f) = alu::rl(0x80, Flags(0));
    assert_eq!(v, 0x00);
    assert!(f.get_carry());
    assert!(f.get_zero());

    // RR: old carry enters at bit 7.
    let (v, f) = alu::rr(0x01, Flags(0).carry());
    assert_eq!(v, 0x80);
    assert!(f.get_carry());

    // RLC/RRC: the ejected bit re-enters directly.
    let (v, f) = alu::rlc(0x80, Flags(0));
    assert_eq!(v, 0x01);
    assert!(f.get_carry());

    let (v, f) = alu::rrc(0x01, Flags(0));
    assert_eq!(v, 0x80);
    assert!(f.get_carry());
}

#[test]
fn daa_corrects_bcd_addition() {
    // 0x19 + 0x28 = 0x41 binary; decimal 19 + 28 = 47.
    let (s, f) = alu::add(0x19, 0x28);
    assert_eq!(s, 0x41);
    let (d, df) = alu::daa(s, f);
    assert_eq!(d, 0x47);
    assert!(!df.get_carry());

    // 90 + 20 = 110: decimal carry out, result 10.
    let (s, f) = alu::add(0x90, 0x20);
    let (d, df) = alu::daa(s, f);
    assert_eq!(d, 0x10);
    assert!(df.get_carry());

    // 50 + 50 = 100: result 00 with carry, Z set.
    let (s, f) = alu::add(0x50, 0x50);
    let (d, df) = alu::daa(s, f);
    assert_eq!(d, 0x00);
    assert!(df.get_carry());
    assert!(df.get_zero());

    // After a subtraction the adjustment is subtractive: 0x42 - 0x09 = 0x39
    // binary, decimal 42 - 9 = 33.
    let (s, f) = alu::sub(0x42, 0x09);
    assert_eq!(s, 0x39);
    let (d, _) = alu::daa(s, f);
    assert_eq!(d, 0x33);
}

#[test]
fn flag_word_low_nibble_is_always_zero() {
    let mut f = Flags(0);
    f.set_zero(true);
    f.set_subtract(true);
    f.set_halfcarry(true);
    f.set_carry(true);
    assert_eq!(f.0, 0xF0);
    assert_eq!(f.0 & 0x0F, 0);

    assert_eq!(Flags(0).zero().0, 0x80);
    assert_eq!(Flags(0).subtract().0, 0x40);
    assert_eq!(Flags(0).halfcarry().0, 0x20);
    assert_eq!(Flags(0).carry().0, 0x10);
}

#[test]
fn hi_lo_roundtrip() {
    assert_eq!(alu::hi(0xABCD), 0xAB);
    assert_eq!(alu::lo(0xABCD), 0xCD);
    assert_eq!(alu::hi_lo(0xAB, 0xCD), 0xABCD);
    assert_eq!(alu::hi_lo(alu::hi(0x1234), alu::lo(0x1234)), 0x1234);
}
