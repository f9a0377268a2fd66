//! The arithmetic and logic of the CPU on plain bytes: results and status flags.
use vstd::prelude::*;

verus! {

pub const CARRY: u8 = 0b0000_0001;

pub const ZERO: u8 = 0b0000_0010;

pub const IRQ_DISABLE: u8 = 0b0000_0100;

pub const DECIMAL: u8 = 0b0000_1000;

pub const BREAK: u8 = 0b0001_0000;

pub const PUSH: u8 = 0b0010_0000;

pub const OVERFLOW: u8 = 0b0100_0000;

pub const NEGATIVE: u8 = 0b1000_0000;

/// Whether `mask` names one status bit.
pub open spec fn is_flag(mask: u8) -> bool {
    mask == CARRY || mask == ZERO || mask == IRQ_DISABLE || mask == DECIMAL || mask == BREAK
        || mask == PUSH || mask == OVERFLOW || mask == NEGATIVE
}

/// Whether the status bit `mask` is set in `p`.
pub open spec fn flag(p: u8, mask: u8) -> bool {
    p & mask != 0
}

/// `p` with the status bit `mask` set to `on`.
pub open spec fn set_flag(p: u8, mask: u8, on: bool) -> u8 {
    if on {
        p | mask
    } else {
        p & !mask
    }
}

/// `p` with Zero and Negative describing `v`.
pub open spec fn with_zn(p: u8, v: u8) -> u8 {
    set_flag(set_flag(p, ZERO, v == 0), NEGATIVE, v >= 0x80)
}

pub open spec fn carry_in(p: u8) -> int {
    if flag(p, CARRY) {
        1
    } else {
        0
    }
}

/// A byte read as a two's-complement number.
pub open spec fn signed(v: u8) -> int {
    if v >= 0x80 {
        v - 256
    } else {
        v as int
    }
}

pub open spec fn adc_value(a: u8, b: u8, c: int) -> u8 {
    ((a + b + c) % 256) as u8
}

/// Signed overflow: both operands have one sign and the result the other.
pub open spec fn adc_overflow(a: u8, b: u8, c: int) -> bool {
    (a >= 0x80) == (b >= 0x80) && (adc_value(a, b, c) >= 0x80) != (a >= 0x80)
}

/// The status after `a + b + carry`.
pub open spec fn adc_flags(p: u8, a: u8, b: u8) -> u8 {
    let c = carry_in(p);
    with_zn(
        set_flag(set_flag(p, CARRY, a + b + c > 255), OVERFLOW, adc_overflow(a, b, c)),
        adc_value(a, b, c),
    )
}

/// Sets one status bit.
pub fn update_flag(p: u8, mask: u8, on: bool) -> (r: u8)
    ensures
        r == set_flag(p, mask, on),
{
    if on {
        p | mask
    } else {
        p & !mask
    }
}

/// Sets Zero and Negative from a result.
pub fn update_zero_and_negative(p: u8, v: u8) -> (r: u8)
    ensures
        r == with_zn(p, v),
{
    assert(((v & 0b1000_0000) != 0) == (v >= 0x80)) by (bit_vector);
    let p = update_flag(p, ZERO, v == 0);
    update_flag(p, NEGATIVE, (v & 0b1000_0000) != 0)
}

/// Adds with carry: the result byte and the new status.
pub fn add_with_carry(p: u8, a: u8, b: u8) -> (r: (u8, u8))
    ensures
        r.0 == adc_value(a, b, carry_in(p)),
        r.1 == adc_flags(p, a, b),
{
    let carry = p & CARRY;
    assert(carry as int == carry_in(p)) by (bit_vector)
        requires
            carry == p & 1,
    ;
    let sum: u16 = a as u16 + b as u16 + carry as u16;
    let result = sum as u8;
    assert(result == sum % 256) by (bit_vector)
        requires
            result == sum as u8,
    ;
    assert(((a ^ result) & (b ^ result) & 0x80 != 0) == ((a >= 0x80) == (b >= 0x80) && (result
        >= 0x80) != (a >= 0x80))) by (bit_vector);
    let p = update_flag(p, CARRY, sum > 0xFF);
    let p = update_flag(p, OVERFLOW, (a ^ result) & (b ^ result) & 0x80 != 0);
    (result, update_zero_and_negative(p, result))
}

/// A compare: Carry when `reg >= operand`, Zero and Negative from the difference.
pub open spec fn compare_flags(p: u8, reg: u8, operand: u8) -> u8 {
    set_flag(with_zn(p, ((reg - operand) % 256) as u8), CARRY, reg >= operand)
}

pub fn compare(p: u8, reg: u8, operand: u8) -> (r: u8)
    ensures
        r == compare_flags(p, reg, operand),
{
    let p = update_zero_and_negative(p, reg.wrapping_sub(operand));
    update_flag(p, CARRY, reg >= operand)
}

/// Shift left: the result, with bit 7 going to Carry.
pub open spec fn asl_value(v: u8) -> u8 {
    ((v * 2) % 256) as u8
}

pub fn shift_left(p: u8, v: u8) -> (r: (u8, u8))
    ensures
        r.0 == asl_value(v),
        r.1 == with_zn(set_flag(p, CARRY, v >= 0x80), asl_value(v)),
{
    let result = v << 1;
    assert(result == (v * 2) % 256 && ((v & 0b1000_0000 != 0) == (v >= 0x80))) by (bit_vector)
        requires
            result == v << 1,
    ;
    let p = update_flag(p, CARRY, (v & 0b1000_0000) != 0);
    (result, update_zero_and_negative(p, result))
}

/// Shift right: the result, with bit 0 going to Carry.
pub fn shift_right(p: u8, v: u8) -> (r: (u8, u8))
    ensures
        r.0 == v / 2,
        r.1 == with_zn(set_flag(p, CARRY, v % 2 == 1), (v / 2) as u8),
{
    let result = v >> 1;
    assert(result == v / 2 && ((v & 1 != 0) == (v % 2 == 1))) by (bit_vector)
        requires
            result == v >> 1,
    ;
    let p = update_flag(p, CARRY, (v & 1) != 0);
    (result, update_zero_and_negative(p, result))
}

/// Rotate left through Carry.
pub open spec fn rol_value(p: u8, v: u8) -> u8 {
    ((v * 2) % 256 + carry_in(p)) as u8
}

pub fn rotate_left(p: u8, v: u8) -> (r: (u8, u8))
    ensures
        r.0 == rol_value(p, v),
        r.1 == with_zn(set_flag(p, CARRY, v >= 0x80), rol_value(p, v)),
{
    let carry = p & CARRY;
    let result = (v << 1) | carry;
    assert(result == (v * 2) % 256 + carry && carry as int == carry_in(p) && ((v & 0b1000_0000
        != 0) == (v >= 0x80))) by (bit_vector)
        requires
            carry == p & 1,
            result == (v << 1) | carry,
    ;
    let p = update_flag(p, CARRY, (v & 0b1000_0000) != 0);
    (result, update_zero_and_negative(p, result))
}

/// Rotate right through Carry.
pub open spec fn ror_value(p: u8, v: u8) -> u8 {
    (v / 2 + carry_in(p) * 128) as u8
}

pub fn rotate_right(p: u8, v: u8) -> (r: (u8, u8))
    ensures
        r.0 == ror_value(p, v),
        r.1 == with_zn(set_flag(p, CARRY, v % 2 == 1), ror_value(p, v)),
{
    let carry = p & CARRY;
    let result = (v >> 1) | (carry << 7);
    assert(result == v / 2 + carry * 128 && carry as int == carry_in(p) && ((v & 1 != 0) == (v
        % 2 == 1))) by (bit_vector)
        requires
            carry == p & 1,
            result == (v >> 1) | (carry << 7),
    ;
    let p = update_flag(p, CARRY, (v & 1) != 0);
    (result, update_zero_and_negative(p, result))
}

/// Reading and writing one status bit leaves the others alone.
pub proof fn lemma_set_flag(p: u8, mask: u8, other: u8, on: bool)
    requires
        is_flag(mask),
        is_flag(other),
    ensures
        flag(set_flag(p, mask, on), mask) == on,
        mask != other ==> flag(set_flag(p, mask, on), other) == flag(p, other),
{
    lemma_set_flag_bv(p, mask, other, on);
}

proof fn lemma_set_flag_bv(p: u8, mask: u8, other: u8, on: bool)
    by (bit_vector)
    requires
        mask == 1 || mask == 2 || mask == 4 || mask == 8 || mask == 16 || mask == 32 || mask
            == 64 || mask == 128,
        other == 1 || other == 2 || other == 4 || other == 8 || other == 16 || other == 32
            || other == 64 || other == 128,
    ensures
        ((if on {
            p | mask
        } else {
            p & !mask
        }) & mask != 0) == on,
        mask != other ==> (((if on {
            p | mask
        } else {
            p & !mask
        }) & other != 0) == (p & other != 0)),
{
}

/// Add with carry agrees with two's-complement arithmetic: Carry is the
/// unsigned carry out, Overflow says the signed sum does not fit in a byte,
/// Zero and Negative describe the result, and the other bits are kept.
pub proof fn lemma_adc_flags(p: u8, a: u8, b: u8)
    ensures
        ({
            let c = carry_in(p);
            let q = adc_flags(p, a, b);
            &&& adc_value(a, b, c) as int == (a + b + c) % 256
            &&& flag(q, CARRY) == (a + b + c > 255)
            &&& flag(q, OVERFLOW) == !(-128 <= signed(a) + signed(b) + c <= 127)
            &&& flag(q, ZERO) == (adc_value(a, b, c) == 0)
            &&& flag(q, NEGATIVE) == (adc_value(a, b, c) >= 0x80)
            &&& flag(q, IRQ_DISABLE) == flag(p, IRQ_DISABLE)
            &&& flag(q, DECIMAL) == flag(p, DECIMAL)
            &&& flag(q, BREAK) == flag(p, BREAK)
            &&& flag(q, PUSH) == flag(p, PUSH)
        }),
{
    let c = carry_in(p);
    let v = adc_value(a, b, c);
    let p1 = set_flag(p, CARRY, a + b + c > 255);
    let p2 = set_flag(p1, OVERFLOW, adc_overflow(a, b, c));
    let p3 = set_flag(p2, ZERO, v == 0);
    let q = set_flag(p3, NEGATIVE, v >= 0x80);
    lemma_set_flag(p, CARRY, CARRY, a + b + c > 255);
    lemma_set_flag(p1, OVERFLOW, CARRY, adc_overflow(a, b, c));
    lemma_set_flag(p2, ZERO, CARRY, v == 0);
    lemma_set_flag(p3, NEGATIVE, CARRY, v >= 0x80);
    lemma_set_flag(p1, OVERFLOW, OVERFLOW, adc_overflow(a, b, c));
    lemma_set_flag(p2, ZERO, OVERFLOW, v == 0);
    lemma_set_flag(p3, NEGATIVE, OVERFLOW, v >= 0x80);
    lemma_set_flag(p2, ZERO, ZERO, v == 0);
    lemma_set_flag(p3, NEGATIVE, ZERO, v >= 0x80);
    lemma_set_flag(p3, NEGATIVE, NEGATIVE, v >= 0x80);
    let kept = seq![IRQ_DISABLE, DECIMAL, BREAK, PUSH];
    assert forall|i: int| 0 <= i < 4 implies flag(q, #[trigger] kept[i]) == flag(p, kept[i]) by {
        lemma_set_flag(p, CARRY, kept[i], a + b + c > 255);
        lemma_set_flag(p1, OVERFLOW, kept[i], adc_overflow(a, b, c));
        lemma_set_flag(p2, ZERO, kept[i], v == 0);
        lemma_set_flag(p3, NEGATIVE, kept[i], v >= 0x80);
    }
    assert(kept[0] == IRQ_DISABLE && kept[1] == DECIMAL && kept[2] == BREAK && kept[3] == PUSH);
    assert(q == adc_flags(p, a, b));
}

/// Subtract with borrow, computed as `a + !m + carry`, agrees with
/// two's-complement subtraction `a - m - (1 - carry)`: Carry says no borrow
/// was needed, Overflow says the signed difference does not fit in a byte.
pub proof fn lemma_sbc_flags(p: u8, a: u8, m: u8)
    ensures
        ({
            let c = carry_in(p);
            let q = adc_flags(p, a, !m);
            let d = a - m - (1 - c);
            &&& adc_value(a, !m, c) as int == d % 256
            &&& flag(q, CARRY) == (d >= 0)
            &&& flag(q, OVERFLOW) == !(-128 <= signed(a) - signed(m) - (1 - c) <= 127)
            &&& flag(q, ZERO) == (adc_value(a, !m, c) == 0)
            &&& flag(q, NEGATIVE) == (adc_value(a, !m, c) >= 0x80)
        }),
{
    assert(!m == 255 - m) by (bit_vector);
    lemma_adc_flags(p, a, !m);
    let c = carry_in(p);
    assert((a + (255 - m) + c) % 256 == (a - m - (1 - c)) % 256) by {
        vstd::arithmetic::div_mod::lemma_mod_add_multiples_vanish(a - m - (1 - c), 256);
    }
}

} // verus!
