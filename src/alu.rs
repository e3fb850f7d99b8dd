//! Pure ALU operations. Each takes its operands (and a carry-in where the
//! operation has one) and returns the 8-bit result together with the new
//! flag byte; callers decide where the two go.
use vstd::prelude::*;

verus! {

/// Zero flag: the result was zero.
pub const FLAG_Z: u8 = 0x80;

/// Subtract flag: the last operation was a subtraction.
pub const FLAG_N: u8 = 0x40;

/// Half-carry flag: carry or borrow across bit 3.
pub const FLAG_H: u8 = 0x20;

/// Carry flag: carry or borrow across bit 7.
pub const FLAG_C: u8 = 0x10;

/// The flag byte with the given Z, N, H and C bits; the low nibble is zero.
pub open spec fn flag_byte(z: bool, n: bool, h: bool, c: bool) -> u8 {
    (if z { FLAG_Z } else { 0u8 }) | (if n { FLAG_N } else { 0u8 }) | (if h { FLAG_H } else { 0u8 }) | (
    if c { FLAG_C } else { 0u8 })
}

pub open spec fn zero_flag(f: u8) -> bool {
    f & FLAG_Z != 0
}

pub open spec fn subtract_flag(f: u8) -> bool {
    f & FLAG_N != 0
}

pub open spec fn half_carry_flag(f: u8) -> bool {
    f & FLAG_H != 0
}

pub open spec fn carry_flag(f: u8) -> bool {
    f & FLAG_C != 0
}

/// A carry-in as the number it adds.
pub open spec fn carry_value(c: bool) -> int {
    if c { 1 } else { 0 }
}

/// The low four bits of a byte.
pub open spec fn low_nibble(x: u8) -> int {
    x as int % 16
}

pub open spec fn add_result(a: u8, b: u8, carry_in: bool) -> u8 {
    ((a + b + carry_value(carry_in)) % 256) as u8
}

pub open spec fn add_flags(a: u8, b: u8, carry_in: bool) -> u8 {
    flag_byte(
        add_result(a, b, carry_in) == 0,
        false,
        low_nibble(a) + low_nibble(b) + carry_value(carry_in) > 15,
        a + b + carry_value(carry_in) > 255,
    )
}

pub open spec fn sub_result(a: u8, b: u8, carry_in: bool) -> u8 {
    ((a - b - carry_value(carry_in)) % 256) as u8
}

pub open spec fn sub_flags(a: u8, b: u8, carry_in: bool) -> u8 {
    flag_byte(
        sub_result(a, b, carry_in) == 0,
        true,
        low_nibble(a) < low_nibble(b) + carry_value(carry_in),
        a < b + carry_value(carry_in),
    )
}

/// Flags of AND, OR and XOR: Z from the result, H set for AND only.
pub open spec fn logical_flags(result: u8, is_and: bool) -> u8 {
    flag_byte(result == 0, false, is_and, false)
}

pub open spec fn inc_result(v: u8) -> u8 {
    ((v + 1) % 256) as u8
}

/// Flags of an 8-bit increment; C is kept from the old flag byte.
pub open spec fn inc_flags(v: u8, old_flags: u8) -> u8 {
    flag_byte(inc_result(v) == 0, false, low_nibble(v) == 15, carry_flag(old_flags))
}

pub open spec fn dec_result(v: u8) -> u8 {
    ((v - 1) % 256) as u8
}

/// Flags of an 8-bit decrement; C is kept from the old flag byte.
pub open spec fn dec_flags(v: u8, old_flags: u8) -> u8 {
    flag_byte(dec_result(v) == 0, true, low_nibble(v) == 0, carry_flag(old_flags))
}

/// Reading a flag back out of a flag byte gives the bit it was built from,
/// and the low nibble of every flag byte is zero.
pub proof fn lemma_flag_byte(z: bool, n: bool, h: bool, c: bool)
    ensures
        zero_flag(flag_byte(z, n, h, c)) == z,
        subtract_flag(flag_byte(z, n, h, c)) == n,
        half_carry_flag(flag_byte(z, n, h, c)) == h,
        carry_flag(flag_byte(z, n, h, c)) == c,
        flag_byte(z, n, h, c) & 0x0F == 0,
{
    let f = flag_byte(z, n, h, c);
    assert(zero_flag(f) == z && subtract_flag(f) == n && half_carry_flag(f) == h && carry_flag(f) == c
        && f & 0x0F == 0) by (bit_vector)
        requires
            f == (if z { 0x80u8 } else { 0u8 }) | (if n { 0x40u8 } else { 0u8 }) | (if h { 0x20u8 } else { 0u8 }) | (
            if c { 0x10u8 } else { 0u8 }),
    ;
}

proof fn lemma_low_nibble(x: u8)
    ensures
        (x & 0x0F) as int == low_nibble(x),
{
    assert(x & 0x0Fu8 == x % 16u8) by (bit_vector);
}

/// Addition: for all bytes `a`, `b` and every carry-in, the result is
/// `(a + b + carry_in) mod 256`; Z is set exactly when the result is zero,
/// N is clear, H is set exactly when the low nibbles and carry-in exceed
/// 0xF, C is set exactly when the full sum exceeds 255, and the low nibble
/// of the flag byte is zero.
pub proof fn law_add(a: u8, b: u8, carry_in: bool)
    ensures
        add_result(a, b, carry_in) as int == (a + b + carry_value(carry_in)) % 256,
        zero_flag(add_flags(a, b, carry_in)) <==> add_result(a, b, carry_in) == 0,
        !subtract_flag(add_flags(a, b, carry_in)),
        half_carry_flag(add_flags(a, b, carry_in)) <==> (a & 0x0F) + (b & 0x0F) + carry_value(carry_in)
            > 0x0F,
        carry_flag(add_flags(a, b, carry_in)) <==> a + b + carry_value(carry_in) > 255,
        add_flags(a, b, carry_in) & 0x0F == 0,
{
    lemma_low_nibble(a);
    lemma_low_nibble(b);
    let cv = carry_value(carry_in);
    lemma_flag_byte(
        add_result(a, b, carry_in) == 0,
        false,
        low_nibble(a) + low_nibble(b) + cv > 15,
        a + b + cv > 255,
    );
}

/// Subtraction: for all bytes `a`, `b` and every carry-in, the result is
/// `(a - b - carry_in) mod 256`; Z is set exactly when the result is zero,
/// N is always set, H is set exactly when the low nibble of `a` is below
/// that of `b` plus the carry-in, C exactly when `a` is below `b` plus the
/// carry-in (compared as integers), and the low nibble of the flag byte is
/// zero.
pub proof fn law_sub(a: u8, b: u8, carry_in: bool)
    ensures
        sub_result(a, b, carry_in) as int == (a - b - carry_value(carry_in)) % 256,
        zero_flag(sub_flags(a, b, carry_in)) <==> sub_result(a, b, carry_in) == 0,
        subtract_flag(sub_flags(a, b, carry_in)),
        half_carry_flag(sub_flags(a, b, carry_in)) <==> (a & 0x0F) < (b & 0x0F) + carry_value(carry_in),
        carry_flag(sub_flags(a, b, carry_in)) <==> a < b + carry_value(carry_in),
        sub_flags(a, b, carry_in) & 0x0F == 0,
{
    lemma_low_nibble(a);
    lemma_low_nibble(b);
    let cv = carry_value(carry_in);
    lemma_flag_byte(
        sub_result(a, b, carry_in) == 0,
        true,
        low_nibble(a) < low_nibble(b) + cv,
        a < b + cv,
    );
}

/// Builds the flag byte from its four bits.
pub fn make_flags(z: bool, n: bool, h: bool, c: bool) -> (r: u8)
    ensures
        r == flag_byte(z, n, h, c),
{
    let zb: u8 = if z { FLAG_Z } else { 0 };
    let nb: u8 = if n { FLAG_N } else { 0 };
    let hb: u8 = if h { FLAG_H } else { 0 };
    let cb: u8 = if c { FLAG_C } else { 0 };
    zb | nb | hb | cb
}

/// `a + b + carry_in` modulo 256, with its flag byte.
pub fn alu_add(a: u8, b: u8, carry_in: bool) -> (r: (u8, u8))
    ensures
        r.0 == add_result(a, b, carry_in),
        r.1 == add_flags(a, b, carry_in),
{
    let c: u16 = if carry_in { 1 } else { 0 };
    let sum: u16 = a as u16 + b as u16 + c;
    let value: u8 = (sum % 256) as u8;
    let half: bool = (a % 16) as u16 + (b % 16) as u16 + c > 15;
    (value, make_flags(value == 0, false, half, sum > 255))
}

/// `a - b - carry_in` modulo 256, with its flag byte.
pub fn alu_sub(a: u8, b: u8, carry_in: bool) -> (r: (u8, u8))
    ensures
        r.0 == sub_result(a, b, carry_in),
        r.1 == sub_flags(a, b, carry_in),
{
    let c: u16 = if carry_in { 1 } else { 0 };
    let subtrahend: u16 = b as u16 + c;
    let value: u8 = ((a as u16 + 256 - subtrahend) % 256) as u8;
    let half: bool = ((a % 16) as u16) < (b % 16) as u16 + c;
    (value, make_flags(value == 0, true, half, (a as u16) < subtrahend))
}

/// The flags of `a - b`; the result itself is dropped.
pub fn alu_compare(a: u8, b: u8) -> (r: u8)
    ensures
        r == sub_flags(a, b, false),
{
    let (_, flags) = alu_sub(a, b, false);
    flags
}

pub fn alu_and(a: u8, b: u8) -> (r: (u8, u8))
    ensures
        r.0 == a & b,
        r.1 == logical_flags(a & b, true),
{
    let value: u8 = a & b;
    (value, make_flags(value == 0, false, true, false))
}

pub fn alu_or(a: u8, b: u8) -> (r: (u8, u8))
    ensures
        r.0 == a | b,
        r.1 == logical_flags(a | b, false),
{
    let value: u8 = a | b;
    (value, make_flags(value == 0, false, false, false))
}

pub fn alu_xor(a: u8, b: u8) -> (r: (u8, u8))
    ensures
        r.0 == a ^ b,
        r.1 == logical_flags(a ^ b, false),
{
    let value: u8 = a ^ b;
    (value, make_flags(value == 0, false, false, false))
}

/// `v + 1` modulo 256; Z, N and H are computed, C is kept from `flags`.
pub fn alu_inc(v: u8, flags: u8) -> (r: (u8, u8))
    ensures
        r.0 == inc_result(v),
        r.1 == inc_flags(v, flags),
{
    let value: u8 = v.wrapping_add(1);
    (value, make_flags(value == 0, false, v % 16 == 15, flags & FLAG_C != 0))
}

/// `v - 1` modulo 256; Z, N and H are computed, C is kept from `flags`.
pub fn alu_dec(v: u8, flags: u8) -> (r: (u8, u8))
    ensures
        r.0 == dec_result(v),
        r.1 == dec_flags(v, flags),
{
    let value: u8 = v.wrapping_sub(1);
    (value, make_flags(value == 0, true, v % 16 == 0, flags & FLAG_C != 0))
}

/// The accumulator and flag byte after ALU operation `kind` (add, adc, sub,
/// sbc, and, xor, or, cp) of accumulator `a` with operand `v`, where `f` is
/// the flag byte before; adc and sbc take the carry flag as carry-in, cp
/// leaves the accumulator as it was.
pub open spec fn alu_operation(kind: u8, a: u8, v: u8, f: u8) -> (u8, u8) {
    match kind {
        0 => (add_result(a, v, false), add_flags(a, v, false)),
        1 => (add_result(a, v, carry_flag(f)), add_flags(a, v, carry_flag(f))),
        2 => (sub_result(a, v, false), sub_flags(a, v, false)),
        3 => (sub_result(a, v, carry_flag(f)), sub_flags(a, v, carry_flag(f))),
        4 => (a & v, logical_flags(a & v, true)),
        5 => (a ^ v, logical_flags(a ^ v, false)),
        6 => (a | v, logical_flags(a | v, false)),
        _ => (a, sub_flags(a, v, false)),
    }
}

/// Carries out ALU operation `kind` on the accumulator `a`, the operand `v`
/// and the flag byte `f`.
pub fn apply_alu_operation(kind: u8, a: u8, v: u8, f: u8) -> (r: (u8, u8))
    requires
        kind < 8,
    ensures
        r == alu_operation(kind, a, v, f),
{
    let carry: bool = f & FLAG_C != 0;
    match kind {
        0 => alu_add(a, v, false),
        1 => alu_add(a, v, carry),
        2 => alu_sub(a, v, false),
        3 => alu_sub(a, v, carry),
        4 => alu_and(a, v),
        5 => alu_xor(a, v),
        6 => alu_or(a, v),
        _ => (a, alu_compare(a, v)),
    }
}

} // verus!
