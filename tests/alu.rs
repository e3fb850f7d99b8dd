use rust_boy::alu::{
    alu_add, alu_and, alu_compare, alu_dec, alu_inc, alu_or, alu_sub, alu_xor, apply_alu_operation,
    make_flags, FLAG_C, FLAG_H, FLAG_N, FLAG_Z,
};

#[test]
fn flag_byte_bits() {
    assert_eq!(make_flags(true, false, false, false), 0x80);
    assert_eq!(make_flags(false, true, false, false), 0x40);
    assert_eq!(make_flags(false, false, true, false), 0x20);
    assert_eq!(make_flags(false, false, false, true), 0x10);
    assert_eq!(make_flags(true, true, true, true), 0xF0);
    assert_eq!(make_flags(false, false, false, false), 0x00);
}

#[test]
fn add_nibble_carry() {
    assert_eq!(alu_add(0x0F, 0x01, false), (0x10, FLAG_H));
}

#[test]
fn add_wraps_to_zero() {
    assert_eq!(alu_add(0xFF, 0x01, false), (0x00, FLAG_Z | FLAG_H | FLAG_C));
}

#[test]
fn add_with_carry_in() {
    assert_eq!(alu_add(0x0E, 0x01, true), (0x10, FLAG_H));
    assert_eq!(alu_add(0xFF, 0x00, true), (0x00, FLAG_Z | FLAG_H | FLAG_C));
    assert_eq!(alu_add(0x12, 0x34, false), (0x46, 0));
}

#[test]
fn add_carry_without_smaller_result() {
    // 0x80 + 0x80 + 1 = 0x101: a carry out of bit 7, though the result is
    // not below the accumulator's low nibble.
    assert_eq!(alu_add(0x80, 0x80, true), (0x01, FLAG_C));
    assert_eq!(alu_add(0xF0, 0xFF, true), (0xF0, FLAG_H | FLAG_C));
}

#[test]
fn add_laws_exhaustive() {
    for a in 0..=255u16 {
        for b in 0..=255u16 {
            for c in 0..=1u16 {
                let (r, f) = alu_add(a as u8, b as u8, c == 1);
                let sum = a + b + c;
                assert_eq!(r as u16, sum % 256);
                assert_eq!(f & FLAG_Z != 0, r == 0);
                assert_eq!(f & FLAG_N, 0);
                assert_eq!(f & FLAG_C != 0, sum > 255);
                assert_eq!(f & FLAG_H != 0, (a & 0xF) + (b & 0xF) + c > 0xF);
                assert_eq!(f & 0x0F, 0);
            }
        }
    }
}

#[test]
fn sub_laws_exhaustive() {
    for a in 0..=255i32 {
        for b in 0..=255i32 {
            for c in 0..=1i32 {
                let (r, f) = alu_sub(a as u8, b as u8, c == 1);
                assert_eq!(r as i32, (a - b - c).rem_euclid(256));
                assert_eq!(f & FLAG_Z != 0, r == 0);
                assert_ne!(f & FLAG_N, 0);
                assert_eq!(f & FLAG_C != 0, a < b + c);
                assert_eq!(f & FLAG_H != 0, (a & 0xF) < (b & 0xF) + c);
                assert_eq!(f & 0x0F, 0);
            }
        }
    }
}

#[test]
fn sub_borrows() {
    assert_eq!(alu_sub(0x00, 0x01, false), (0xFF, FLAG_N | FLAG_H | FLAG_C));
    assert_eq!(alu_sub(0x10, 0x01, false), (0x0F, FLAG_N | FLAG_H));
    assert_eq!(alu_sub(0x05, 0x05, false), (0x00, FLAG_Z | FLAG_N));
    assert_eq!(alu_sub(0x05, 0x04, true), (0x00, FLAG_Z | FLAG_N));
    assert_eq!(alu_sub(0x05, 0x05, true), (0xFF, FLAG_N | FLAG_H | FLAG_C));
}

#[test]
fn compare_matches_sub_flags() {
    for a in 0..=255u8 {
        for b in [0u8, 1, 0x0F, 0x10, 0x80, 0xFF] {
            assert_eq!(alu_compare(a, b), alu_sub(a, b, false).1);
        }
    }
    assert_eq!(alu_compare(0x05, 0x05), FLAG_Z | FLAG_N);
}

#[test]
fn logical_operations() {
    assert_eq!(alu_and(0xF0, 0x0F), (0x00, FLAG_Z | FLAG_H));
    assert_eq!(alu_and(0xF3, 0x3F), (0x33, FLAG_H));
    assert_eq!(alu_or(0x00, 0x00), (0x00, FLAG_Z));
    assert_eq!(alu_or(0xA0, 0x05), (0xA5, 0));
    assert_eq!(alu_xor(0xAA, 0xAA), (0x00, FLAG_Z));
    assert_eq!(alu_xor(0xAA, 0x0F), (0xA5, 0));
}

#[test]
fn increment_and_decrement_keep_carry() {
    assert_eq!(alu_inc(0xFF, FLAG_C), (0x00, FLAG_Z | FLAG_H | FLAG_C));
    assert_eq!(alu_inc(0x0F, 0), (0x10, FLAG_H));
    assert_eq!(alu_inc(0x01, FLAG_Z | FLAG_N), (0x02, 0));
    assert_eq!(alu_dec(0x01, 0), (0x00, FLAG_Z | FLAG_N));
    assert_eq!(alu_dec(0x10, FLAG_C), (0x0F, FLAG_N | FLAG_H | FLAG_C));
    assert_eq!(alu_dec(0x00, 0), (0xFF, FLAG_N | FLAG_H));
}

#[test]
fn operation_selector() {
    assert_eq!(apply_alu_operation(0, 0x01, 0x02, FLAG_C), (0x03, 0));
    assert_eq!(apply_alu_operation(1, 0x01, 0x02, FLAG_C), (0x04, 0));
    assert_eq!(apply_alu_operation(2, 0x03, 0x01, FLAG_C), (0x02, FLAG_N));
    assert_eq!(apply_alu_operation(3, 0x03, 0x01, FLAG_C), (0x01, FLAG_N));
    assert_eq!(apply_alu_operation(4, 0x0C, 0x0A, 0), (0x08, FLAG_H));
    assert_eq!(apply_alu_operation(5, 0x0C, 0x0A, 0), (0x06, 0));
    assert_eq!(apply_alu_operation(6, 0x0C, 0x0A, 0), (0x0E, 0));
    assert_eq!(apply_alu_operation(7, 0x0C, 0x0C, 0), (0x0C, FLAG_Z | FLAG_N));
}
