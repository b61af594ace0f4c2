use riscv32im::alu::{
    add32, div32, divu32, mul32, mulh32, mulhsu32, mulhu32, rem32, remu32, sll32, slt32, sltu32,
    sra32, srl32, sub32,
};

#[test]
fn add_wraps_silently() {
    assert_eq!(add32(0x7fff_ffff, 1), 0x8000_0000);
    assert_eq!(add32(0xffff_ffff, 1), 0);
    assert_eq!(add32(2, 3), 5);
}

#[test]
fn sub_wraps_silently() {
    assert_eq!(sub32(0, 1), 0xffff_ffff);
    assert_eq!(sub32(5, 3), 2);
    assert_eq!(sub32(0x8000_0000, 1), 0x7fff_ffff);
}

#[test]
fn comparisons_use_signed_and_unsigned_interpretation() {
    // -1 < 1 signed, but 0xffffffff > 1 unsigned
    assert_eq!(slt32(0xffff_ffff, 1), 1);
    assert_eq!(sltu32(0xffff_ffff, 1), 0);
    assert_eq!(slt32(1, 0xffff_ffff), 0);
    assert_eq!(sltu32(1, 0xffff_ffff), 1);
    assert_eq!(slt32(0x8000_0000, 0x7fff_ffff), 1);
    assert_eq!(slt32(5, 5), 0);
}

#[test]
fn shifts_use_low_five_bits_of_amount() {
    assert_eq!(sll32(1, 14), 1 << 14);
    assert_eq!(sll32(1, 32), 1); // amount 32 acts as 0
    assert_eq!(sll32(1, 33), 2);
    assert_eq!(srl32(0x8000_0000, 31), 1);
    assert_eq!(srl32(0x8000_0000, 63), 1);
}

#[test]
fn arithmetic_shift_fills_with_the_sign_bit() {
    assert_eq!(sra32(0x8000_0000, 31), 0xffff_ffff);
    assert_eq!(sra32(0xffff_fff0, 4), 0xffff_ffff);
    assert_eq!(sra32(0x7fff_ffff, 4), 0x07ff_ffff);
    assert_eq!(sra32(0x8000_0000, 0), 0x8000_0000);
}

#[test]
fn multiplication_low_and_high_words() {
    assert_eq!(mul32(0x10000, 0x10000), 0);
    assert_eq!(mul32(7, 6), 42);
    assert_eq!(mulhu32(0xffff_ffff, 0xffff_ffff), 0xffff_fffe);
    assert_eq!(mulhu32(0x10000, 0x10000), 1);
    // (-1) * (-1) = 1: high word 0
    assert_eq!(mulh32(0xffff_ffff, 0xffff_ffff), 0);
    // (-1) * 2 = -2: high word all ones
    assert_eq!(mulh32(0xffff_ffff, 2), 0xffff_ffff);
    // signed * unsigned: (-1) * 0xffffffff = -0xffffffff: high word -1
    assert_eq!(mulhsu32(0xffff_ffff, 0xffff_ffff), 0xffff_ffff);
    assert_eq!(mulhsu32(2, 0xffff_ffff), 1);
}

#[test]
fn division_by_zero_never_traps() {
    assert_eq!(div32(123, 0), 0xffff_ffff);
    assert_eq!(divu32(123, 0), 0xffff_ffff);
    assert_eq!(rem32(123, 0), 123);
    assert_eq!(remu32(123, 0), 123);
}

#[test]
fn most_negative_by_minus_one_wraps() {
    assert_eq!(div32(0x8000_0000, 0xffff_ffff), 0x8000_0000);
    assert_eq!(rem32(0x8000_0000, 0xffff_ffff), 0);
}

#[test]
fn signed_division_truncates_toward_zero() {
    // -7 / 2 = -3 rem -1
    assert_eq!(div32((-7i32) as u32, 2), (-3i32) as u32);
    assert_eq!(rem32((-7i32) as u32, 2), (-1i32) as u32);
    // 7 / -2 = -3 rem 1
    assert_eq!(div32(7, (-2i32) as u32), (-3i32) as u32);
    assert_eq!(rem32(7, (-2i32) as u32), 1);
    assert_eq!(div32(7, 2), 3);
    assert_eq!(remu32(7, 2), 1);
    assert_eq!(divu32(0xffff_ffff, 2), 0x7fff_ffff);
    assert_eq!(remu32(0xffff_ffff, 2), 1);
}
