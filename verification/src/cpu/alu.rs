//! The arithmetic and logic unit: what each operation computes from bytes
//! and flags, apart from where the bytes come from.

use vstd::prelude::*;
use crate::bits::lemma_byte_bits;
use crate::bits::lemma_word_bits;
use crate::registers::wrap16;
use crate::registers::wrap8;
use crate::registers::FlagsRegister;

verus! {

/// The eight operations of the accumulator against an 8-bit operand.
#[derive(Clone, Copy, Debug, PartialEq, Eq, Structural)]
pub enum AluOp {
    Add,
    Adc,
    Sub,
    Sbc,
    And,
    Xor,
    Or,
    Cp,
}

/// The eight rotations and shifts of the prefixed opcodes.
#[derive(Clone, Copy, Debug, PartialEq, Eq, Structural)]
pub enum ShiftOp {
    Rlc,
    Rrc,
    Rl,
    Rr,
    Sla,
    Sra,
    Swap,
    Srl,
}

/// The carry as a number: 1 where it is set.
pub open spec fn carry_in(carry: bool) -> int {
    if carry {
        1
    } else {
        0
    }
}

/// `a + b + carry`: H is the carry out of bit 3, C the carry out of bit 7.
pub open spec fn add8_result(a: u8, b: u8, carry: bool) -> (u8, FlagsRegister) {
    let c = carry_in(carry);
    (
        wrap8(a + b + c),
        FlagsRegister {
            zero: wrap8(a + b + c) == 0,
            subtract: false,
            half_carry: a % 16 + b % 16 + c > 15,
            carry: a + b + c > 255,
        },
    )
}

/// `a - b - carry`: H is the borrow into bit 3, C the borrow into bit 7.
pub open spec fn sub8_result(a: u8, b: u8, carry: bool) -> (u8, FlagsRegister) {
    let c = carry_in(carry);
    (
        wrap8(a - b - c),
        FlagsRegister {
            zero: wrap8(a - b - c) == 0,
            subtract: true,
            half_carry: a % 16 < b % 16 + c,
            carry: a < b + c,
        },
    )
}

/// `AND`: H is set, C cleared.
pub open spec fn and8_result(a: u8, b: u8) -> (u8, FlagsRegister) {
    (a & b, FlagsRegister { zero: a & b == 0, subtract: false, half_carry: true, carry: false })
}

/// `OR`: H and C are cleared.
pub open spec fn or8_result(a: u8, b: u8) -> (u8, FlagsRegister) {
    (a | b, FlagsRegister { zero: a | b == 0, subtract: false, half_carry: false, carry: false })
}

/// `XOR`: H and C are cleared.
pub open spec fn xor8_result(a: u8, b: u8) -> (u8, FlagsRegister) {
    (a ^ b, FlagsRegister { zero: a ^ b == 0, subtract: false, half_carry: false, carry: false })
}

/// The accumulator and the flags after `op` with operand `b`. `CP` is a
/// subtraction that keeps the accumulator.
pub open spec fn alu_result(op: AluOp, a: u8, b: u8, flags: FlagsRegister) -> (u8, FlagsRegister) {
    match op {
        AluOp::Add => add8_result(a, b, false),
        AluOp::Adc => add8_result(a, b, flags.carry),
        AluOp::Sub => sub8_result(a, b, false),
        AluOp::Sbc => sub8_result(a, b, flags.carry),
        AluOp::And => and8_result(a, b),
        AluOp::Xor => xor8_result(a, b),
        AluOp::Or => or8_result(a, b),
        AluOp::Cp => (a, sub8_result(a, b, false).1),
    }
}

/// `INC`: the carry flag stays.
pub open spec fn inc8_result(value: u8, flags: FlagsRegister) -> (u8, FlagsRegister) {
    (
        wrap8(value + 1),
        FlagsRegister { zero: value == 255, subtract: false, half_carry: value % 16 == 15, ..flags },
    )
}

/// `DEC`: the carry flag stays.
pub open spec fn dec8_result(value: u8, flags: FlagsRegister) -> (u8, FlagsRegister) {
    (
        wrap8(value - 1),
        FlagsRegister { zero: value == 1, subtract: true, half_carry: value % 16 == 0, ..flags },
    )
}

/// The byte after a rotation or shift, and the bit that falls out.
pub open spec fn shifted(op: ShiftOp, value: u8, carry: bool) -> (u8, bool) {
    match op {
        ShiftOp::Rlc => ((value << 1) | (value >> 7), value & 0x80 != 0),
        ShiftOp::Rrc => ((value >> 1) | (value << 7), value & 0x01 != 0),
        ShiftOp::Rl => ((value << 1) | (if carry { 1u8 } else { 0u8 }), value & 0x80 != 0),
        ShiftOp::Rr => ((value >> 1) | (if carry { 0x80u8 } else { 0u8 }), value & 0x01 != 0),
        ShiftOp::Sla => (value << 1, value & 0x80 != 0),
        ShiftOp::Sra => ((value & 0x80) | (value >> 1), value & 0x01 != 0),
        ShiftOp::Swap => (((value & 0x0f) << 4) | (value >> 4), false),
        ShiftOp::Srl => (value >> 1, value & 0x01 != 0),
    }
}

/// A prefixed rotation or shift: Z from the result, C the bit that fell
/// out, N and H cleared.
pub open spec fn shift_result(op: ShiftOp, value: u8, flags: FlagsRegister) -> (u8, FlagsRegister) {
    let (result, carry) = shifted(op, value, flags.carry);
    (result, FlagsRegister { zero: result == 0, subtract: false, half_carry: false, carry })
}

/// A rotation of the accumulator by one of the four short opcodes: as the
/// prefixed one, but Z is always cleared.
pub open spec fn rotate_a_result(op: ShiftOp, value: u8, flags: FlagsRegister) -> (u8, FlagsRegister) {
    let (result, carry) = shifted(op, value, flags.carry);
    (result, FlagsRegister { zero: false, subtract: false, half_carry: false, carry })
}

/// `BIT n`: Z is set where the bit is clear; the carry flag stays.
pub open spec fn bit_result(bit: u8, value: u8, flags: FlagsRegister) -> FlagsRegister {
    FlagsRegister { zero: value & (1u8 << bit) == 0, subtract: false, half_carry: true, ..flags }
}

/// `RES n`: the byte with the bit cleared.
pub open spec fn res_result(bit: u8, value: u8) -> u8 {
    value & !(1u8 << bit)
}

/// `SET n`: the byte with the bit set.
pub open spec fn set_result(bit: u8, value: u8) -> u8 {
    value | (1u8 << bit)
}

/// `DAA`: corrects the accumulator after an addition or subtraction of
/// packed decimals.
pub open spec fn daa_result(a: u8, flags: FlagsRegister) -> (u8, FlagsRegister) {
    if flags.subtract {
        let adjustment = (if flags.half_carry { 0x06int } else { 0 }) + (if flags.carry { 0x60int } else { 0 });
        let result = wrap8(a - adjustment);
        (result, FlagsRegister { zero: result == 0, half_carry: false, ..flags })
    } else {
        let low = flags.half_carry || a % 16 > 9;
        let high = flags.carry || a > 0x99;
        let adjustment = (if low { 0x06int } else { 0 }) + (if high { 0x60int } else { 0 });
        let result = wrap8(a + adjustment);
        (result, FlagsRegister { zero: result == 0, half_carry: false, carry: high, ..flags })
    }
}

/// `CPL`: the complement of the accumulator; N and H are set.
pub open spec fn cpl_result(a: u8, flags: FlagsRegister) -> (u8, FlagsRegister) {
    (!a, FlagsRegister { subtract: true, half_carry: true, ..flags })
}

/// `CCF`: the carry is flipped, N and H cleared.
pub open spec fn ccf_result(flags: FlagsRegister) -> FlagsRegister {
    FlagsRegister { subtract: false, half_carry: false, carry: !flags.carry, ..flags }
}

/// `SCF`: the carry is set, N and H cleared.
pub open spec fn scf_result(flags: FlagsRegister) -> FlagsRegister {
    FlagsRegister { subtract: false, half_carry: false, carry: true, ..flags }
}

/// `ADD HL, rr`: H is the carry out of bit 11, C the carry out of bit 15;
/// Z stays.
pub open spec fn add16_result(hl: u16, value: u16, flags: FlagsRegister) -> (u16, FlagsRegister) {
    (
        wrap16(hl + value),
        FlagsRegister {
            subtract: false,
            half_carry: hl % 4096 + value % 4096 > 4095,
            carry: hl + value > 65535,
            ..flags
        },
    )
}

/// The offset that a byte stands for in two's complement.
pub open spec fn signed(byte: u8) -> int {
    if byte < 128 {
        byte as int
    } else {
        byte - 256
    }
}

/// `value` plus a signed offset: H and C are the carries out of bits 3 and
/// 7 of the sum of the low byte and the offset byte, both unsigned.
pub open spec fn add_offset_result(value: u16, offset: u8) -> (u16, FlagsRegister) {
    (
        wrap16(value + signed(offset)),
        FlagsRegister {
            zero: false,
            subtract: false,
            half_carry: value % 16 + offset % 16 > 15,
            carry: value % 256 + offset > 255,
        },
    )
}

/// `a + b + carry` with the flags of an addition.
pub fn add8(a: u8, b: u8, carry: bool) -> (r: (u8, FlagsRegister))
    ensures
        r == add8_result(a, b, carry),
{
    proof {
        lemma_byte_bits();
    }
    let c: u8 = if carry { 1 } else { 0 };
    let sum = a.wrapping_add(b).wrapping_add(c);
    assert(sum == wrap8(a + b + c));
    let half = (a & 0x0f) + (b & 0x0f) + c;
    let total = a as u16 + b as u16 + c as u16;
    (sum, FlagsRegister { zero: sum == 0, subtract: false, half_carry: half > 0x0f, carry: total > 0xff })
}

/// `a - b - carry` with the flags of a subtraction.
pub fn sub8(a: u8, b: u8, carry: bool) -> (r: (u8, FlagsRegister))
    ensures
        r == sub8_result(a, b, carry),
{
    proof {
        lemma_byte_bits();
    }
    let c: u8 = if carry { 1 } else { 0 };
    let difference = a.wrapping_sub(b).wrapping_sub(c);
    assert(difference == wrap8(a - b - c));
    (
        difference,
        FlagsRegister {
            zero: difference == 0,
            subtract: true,
            half_carry: (a & 0x0f) < (b & 0x0f) + c,
            carry: (a as u16) < (b as u16) + (c as u16),
        },
    )
}

/// The accumulator and the flags after `op` with operand `b`.
pub fn alu(op: AluOp, a: u8, b: u8, flags: FlagsRegister) -> (r: (u8, FlagsRegister))
    ensures
        r == alu_result(op, a, b, flags),
{
    match op {
        AluOp::Add => add8(a, b, false),
        AluOp::Adc => add8(a, b, flags.carry),
        AluOp::Sub => sub8(a, b, false),
        AluOp::Sbc => sub8(a, b, flags.carry),
        AluOp::And => {
            let result = a & b;
            (result, FlagsRegister { zero: result == 0, subtract: false, half_carry: true, carry: false })
        },
        AluOp::Xor => {
            let result = a ^ b;
            (result, FlagsRegister { zero: result == 0, subtract: false, half_carry: false, carry: false })
        },
        AluOp::Or => {
            let result = a | b;
            (result, FlagsRegister { zero: result == 0, subtract: false, half_carry: false, carry: false })
        },
        AluOp::Cp => {
            let (_, compared) = sub8(a, b, false);
            (a, compared)
        },
    }
}

/// `value + 1` with the flags of `INC`.
pub fn inc8(value: u8, flags: FlagsRegister) -> (r: (u8, FlagsRegister))
    ensures
        r == inc8_result(value, flags),
{
    proof {
        lemma_byte_bits();
    }
    let result = value.wrapping_add(1);
    (
        result,
        FlagsRegister {
            zero: result == 0,
            subtract: false,
            half_carry: value & 0x0f == 0x0f,
            carry: flags.carry,
        },
    )
}

/// `value - 1` with the flags of `DEC`.
pub fn dec8(value: u8, flags: FlagsRegister) -> (r: (u8, FlagsRegister))
    ensures
        r == dec8_result(value, flags),
{
    proof {
        lemma_byte_bits();
    }
    let result = value.wrapping_sub(1);
    (
        result,
        FlagsRegister { zero: result == 0, subtract: true, half_carry: value & 0x0f == 0, carry: flags.carry },
    )
}

/// The byte after a rotation or shift and the bit that falls out.
pub fn shift(op: ShiftOp, value: u8, carry: bool) -> (r: (u8, bool))
    ensures
        r == shifted(op, value, carry),
{
    match op {
        ShiftOp::Rlc => ((value << 1) | (value >> 7), value & 0x80 != 0),
        ShiftOp::Rrc => ((value >> 1) | (value << 7), value & 0x01 != 0),
        ShiftOp::Rl => ((value << 1) | (if carry { 1 } else { 0 }), value & 0x80 != 0),
        ShiftOp::Rr => ((value >> 1) | (if carry { 0x80 } else { 0 }), value & 0x01 != 0),
        ShiftOp::Sla => (value << 1, value & 0x80 != 0),
        ShiftOp::Sra => ((value & 0x80) | (value >> 1), value & 0x01 != 0),
        ShiftOp::Swap => (((value & 0x0f) << 4) | (value >> 4), false),
        ShiftOp::Srl => (value >> 1, value & 0x01 != 0),
    }
}

/// The decimal adjustment of the accumulator.
pub fn daa(a: u8, flags: FlagsRegister) -> (r: (u8, FlagsRegister))
    ensures
        r == daa_result(a, flags),
{
    proof {
        lemma_byte_bits();
    }
    let mut adjustment: u8 = 0;
    let mut carry = flags.carry;
    let result = if flags.subtract {
        if flags.half_carry {
            adjustment += 0x06;
        }
        if flags.carry {
            adjustment += 0x60;
        }
        a.wrapping_sub(adjustment)
    } else {
        if flags.half_carry || a & 0x0f > 0x09 {
            adjustment += 0x06;
        }
        if flags.carry || a > 0x99 {
            adjustment += 0x60;
            carry = true;
        }
        a.wrapping_add(adjustment)
    };
    (result, FlagsRegister { zero: result == 0, subtract: flags.subtract, half_carry: false, carry })
}

/// `hl + value` with the flags of `ADD HL, rr`.
pub fn add16(hl: u16, value: u16, flags: FlagsRegister) -> (r: (u16, FlagsRegister))
    ensures
        r == add16_result(hl, value, flags),
{
    proof {
        lemma_word_bits();
    }
    let sum = hl.wrapping_add(value);
    (
        sum,
        FlagsRegister {
            zero: flags.zero,
            subtract: false,
            half_carry: (hl & 0x0fff) + (value & 0x0fff) > 0x0fff,
            carry: hl as u32 + value as u32 > 0xffff,
        },
    )
}

/// `value` plus the signed `offset`, with the flags of `ADD SP, s8`.
pub fn add_offset(value: u16, offset: u8) -> (r: (u16, FlagsRegister))
    ensures
        r == add_offset_result(value, offset),
{
    proof {
        lemma_word_bits();
        lemma_byte_bits();
    }
    let sum = if offset < 128 {
        value.wrapping_add(offset as u16)
    } else {
        value.wrapping_sub(256 - offset as u16)
    };
    (
        sum,
        FlagsRegister {
            zero: false,
            subtract: false,
            half_carry: (value & 0x000f) + (offset & 0x0f) as u16 > 0x000f,
            carry: (value & 0x00ff) + offset as u16 > 0x00ff,
        },
    )
}

/// Whether a byte is a packed decimal: two digits, each 0 to 9.
pub open spec fn is_bcd(value: u8) -> bool {
    value % 16 <= 9 && value / 16 <= 9
}

/// The number 0 to 99 that a packed decimal stands for.
pub open spec fn bcd_value(value: u8) -> int {
    (value / 16) * 10 + value % 16
}

/// A number below 256 written as sixteen times `high` plus `low`, with
/// `low` below 16, has these two as quotient and remainder.
proof fn lemma_nibbles(value: int, high: int, low: int)
    requires
        value == 16 * high + low,
        0 <= low < 16,
    ensures
        value / 16 == high,
        value % 16 == low,
{
}

/// `DAA` after the addition of two packed decimals leaves a packed decimal
/// in the accumulator: the sum of the two, with the carry flag standing
/// for a hundred.
pub proof fn lemma_daa_after_add(a: u8, x: u8)
    requires
        is_bcd(a),
        is_bcd(x),
    ensures
        ({
            let (sum, flags) = add8_result(a, x, false);
            let (adjusted, adjusted_flags) = daa_result(sum, flags);
            &&& is_bcd(adjusted)
            &&& bcd_value(adjusted) + (if adjusted_flags.carry { 100int } else { 0 }) == bcd_value(a)
                + bcd_value(x)
            &&& !adjusted_flags.half_carry
            &&& adjusted_flags.zero == (adjusted == 0)
        }),
{
    let low = a % 16 + x % 16;
    let high = a / 16 + x / 16;
    let (sum, flags) = add8_result(a, x, false);
    // the binary sum, nibble by nibble
    let c0: int = if low > 15 { 1 } else { 0 };
    let sum_low = low - 16 * c0;
    let c1: int = if high + c0 > 15 { 1 } else { 0 };
    let sum_high = high + c0 - 16 * c1;
    assert(a + x == 256 * c1 + 16 * sum_high + sum_low);
    assert(sum == 16 * sum_high + sum_low);
    lemma_nibbles(sum as int, sum_high, sum_low);
    assert(flags.half_carry == (c0 == 1));
    assert(flags.carry == (c1 == 1));
    // the correction, nibble by nibble
    let fix_low = flags.half_carry || sum_low > 9;
    let fix_high = flags.carry || sum > 0x99;
    let d0: int = if fix_low && sum_low + 6 > 15 { 1 } else { 0 };
    let out_low = sum_low + (if fix_low { 6int } else { 0 }) - 16 * d0;
    let raw_high = sum_high + d0 + (if fix_high { 6int } else { 0 });
    let d1: int = if raw_high > 15 { 1 } else { 0 };
    let out_high = raw_high - 16 * d1;
    let (adjusted, adjusted_flags) = daa_result(sum, flags);
    assert(sum + (if fix_low { 6int } else { 0 }) + (if fix_high { 0x60int } else { 0 }) == 256 * d1 + 16
        * out_high + out_low);
    assert(adjusted == 16 * out_high + out_low);
    lemma_nibbles(adjusted as int, out_high, out_low);
}

/// `DAA` after the subtraction of two packed decimals leaves a packed
/// decimal in the accumulator: the difference of the two, with the carry
/// flag standing for a borrowed hundred.
pub proof fn lemma_daa_after_sub(a: u8, x: u8)
    requires
        is_bcd(a),
        is_bcd(x),
    ensures
        ({
            let (difference, flags) = sub8_result(a, x, false);
            let (adjusted, adjusted_flags) = daa_result(difference, flags);
            &&& is_bcd(adjusted)
            &&& bcd_value(adjusted) - (if adjusted_flags.carry { 100int } else { 0 }) == bcd_value(a)
                - bcd_value(x)
        }),
{
    let low = a % 16 - x % 16;
    let high = a / 16 - x / 16;
    let (difference, flags) = sub8_result(a, x, false);
    // the binary difference, nibble by nibble
    let b0: int = if low < 0 { 1 } else { 0 };
    let diff_low = low + 16 * b0;
    let b1: int = if high - b0 < 0 { 1 } else { 0 };
    let diff_high = high - b0 + 16 * b1;
    assert(a - x == 16 * diff_high + diff_low - 256 * b1);
    assert(difference == 16 * diff_high + diff_low);
    lemma_nibbles(difference as int, diff_high, diff_low);
    assert(flags.half_carry == (b0 == 1));
    assert(flags.carry == (b1 == 1));
    // the correction: a borrowed nibble gave 16 where 10 were due
    let out_low = diff_low - 6 * b0;
    let out_high = diff_high - 6 * b1;
    let (adjusted, adjusted_flags) = daa_result(difference, flags);
    assert(difference - 6 * b0 - 0x60 * b1 == 16 * out_high + out_low);
    assert(0 <= out_low <= 9 && 0 <= out_high <= 9);
    assert(adjusted == 16 * out_high + out_low);
    lemma_nibbles(adjusted as int, out_high, out_low);
}

/// Swapping the nibbles twice gives the byte back.
pub proof fn lemma_swap_twice(value: u8, carry: bool)
    ensures
        shifted(ShiftOp::Swap, shifted(ShiftOp::Swap, value, carry).0, carry).0 == value,
{
    assert(((((((value & 0x0f) << 4) | (value >> 4)) & 0x0f) << 4) | ((((value & 0x0f) << 4) | (value >> 4))
        >> 4)) == value) by (bit_vector);
}

/// `SET` then `BIT` finds the bit set, `RES` then `BIT` finds it clear, and
/// neither touches another bit.
pub proof fn lemma_set_res_bit(bit: u8, other: u8, value: u8, flags: FlagsRegister)
    requires
        bit < 8,
        other < 8,
        other != bit,
    ensures
        !bit_result(bit, set_result(bit, value), flags).zero,
        bit_result(bit, res_result(bit, value), flags).zero,
        bit_result(other, set_result(bit, value), flags).zero == bit_result(other, value, flags).zero,
        bit_result(other, res_result(bit, value), flags).zero == bit_result(other, value, flags).zero,
{
    assert(bit < 8 ==> (value | (1u8 << bit)) & (1u8 << bit) != 0) by (bit_vector);
    assert((value & !(1u8 << bit)) & (1u8 << bit) == 0) by (bit_vector);
    assert(bit < 8 && other < 8 && other != bit ==> ((value | (1u8 << bit)) & (1u8 << other)) == (value & (1u8
        << other))) by (bit_vector);
    assert(bit < 8 && other < 8 && other != bit ==> ((value & !(1u8 << bit)) & (1u8 << other)) == (value & (1u8
        << other))) by (bit_vector);
}

} // verus!
