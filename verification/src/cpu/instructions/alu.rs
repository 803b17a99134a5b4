//! Arithmetic on bytes, with the carry and overflow it produces.

use vstd::prelude::*;
use crate::bus::Byte;
use crate::cpu::memory::signed;

verus! {

/// The result of an addition or a subtraction.
#[derive(Debug, Clone, Copy, PartialEq, Eq, Structural)]
pub struct Sum {
    /// The low eight bits of the result.
    pub value: Byte,
    /// Carry out of bit 7; after a subtraction, that no borrow was needed.
    pub carry: bool,
    /// The operands, read as signed bytes, have a result that is no signed byte.
    pub overflow: bool,
}

/// The result of a shift, a rotation or a comparison.
#[derive(Debug, Clone, Copy, PartialEq, Eq, Structural)]
pub struct Shifted {
    pub value: Byte,
    /// The bit moved out; after a comparison, that the register was not less.
    pub carry: bool,
}

/// A carry as the number it adds.
pub open spec fn carry_value(carry: bool) -> int {
    if carry {
        1
    } else {
        0
    }
}

/// `a + m + carry` in binary.
pub open spec fn sum(a: u8, m: u8, carry: bool) -> Sum {
    let total = a + m + carry_value(carry);
    let signed_total = signed(a) + signed(m) + carry_value(carry);
    Sum {
        value: (total % 0x100) as u8,
        carry: total > 0xFF,
        overflow: signed_total < -128 || signed_total > 127,
    }
}

/// `a - m - (1 - carry)` in binary, computed as the processor computes it:
/// the sum of `a`, the complement of `m`, and the carry.
pub open spec fn difference(a: u8, m: u8, carry: bool) -> Sum {
    sum(a, (0xFF - m) as u8, carry)
}

/// `register - m`, as a comparison sees it.
pub open spec fn compared(register: u8, m: u8) -> Shifted {
    Shifted { value: ((register - m) % 0x100) as u8, carry: register >= m }
}

/// `value` shifted left by one bit.
pub open spec fn shifted_left(value: u8) -> Shifted {
    Shifted { value: ((2 * value) % 0x100) as u8, carry: value >= 0x80 }
}

/// `value` shifted right by one bit.
pub open spec fn shifted_right(value: u8) -> Shifted {
    Shifted { value: value / 2, carry: value % 2 == 1 }
}

/// `value` rotated left by one bit through the carry.
pub open spec fn rotated_left(value: u8, carry: bool) -> Shifted {
    Shifted { value: ((2 * value + carry_value(carry)) % 0x100) as u8, carry: value >= 0x80 }
}

/// `value` rotated right by one bit through the carry.
pub open spec fn rotated_right(value: u8, carry: bool) -> Shifted {
    Shifted { value: (value / 2 + 0x80 * carry_value(carry)) as u8, carry: value % 2 == 1 }
}

/// [`sum`], computed.
pub fn add_with_carry(a: Byte, m: Byte, carry: bool) -> (r: Sum)
    ensures
        r == sum(a, m, carry),
{
    let total: u16 = a as u16 + m as u16 + if carry { 1 } else { 0 };
    let value = (total % 0x100) as Byte;
    assert((((a ^ value) & (m ^ value) & 0x80) != 0) == ((a < 0x80) == (m < 0x80) && (value < 0x80)
        != (a < 0x80))) by (bit_vector);
    Sum { value, carry: total > 0xFF, overflow: ((a ^ value) & (m ^ value) & 0x80) != 0 }
}

/// [`difference`], computed.
pub fn subtract_with_carry(a: Byte, m: Byte, carry: bool) -> (r: Sum)
    ensures
        r == difference(a, m, carry),
{
    assert(m ^ 0xFF == 0xFF - m) by (bit_vector);
    add_with_carry(a, m ^ 0xFF, carry)
}

/// [`compared`], computed.
pub fn compare(register: Byte, m: Byte) -> (r: Shifted)
    ensures
        r == compared(register, m),
{
    Shifted { value: register.wrapping_sub(m), carry: register >= m }
}

/// [`shifted_left`], computed.
pub fn shift_left(value: Byte) -> (r: Shifted)
    ensures
        r == shifted_left(value),
{
    assert(value << 1 == (2 * value) % 0x100) by (bit_vector);
    assert(((value & 0x80) != 0) == (value >= 0x80)) by (bit_vector);
    Shifted { value: value << 1, carry: (value & 0x80) != 0 }
}

/// [`shifted_right`], computed.
pub fn shift_right(value: Byte) -> (r: Shifted)
    ensures
        r == shifted_right(value),
{
    assert(value >> 1 == value / 2) by (bit_vector);
    assert(((value & 1) != 0) == (value % 2 == 1)) by (bit_vector);
    Shifted { value: value >> 1, carry: (value & 1) != 0 }
}

/// [`rotated_left`], computed.
pub fn rotate_left(value: Byte, carry: bool) -> (r: Shifted)
    ensures
        r == rotated_left(value, carry),
{
    let low: Byte = if carry { 1 } else { 0 };
    assert(low <= 1 ==> (value << 1) | low == (2 * value + low) % 0x100) by (bit_vector);
    assert(((value & 0x80) != 0) == (value >= 0x80)) by (bit_vector);
    Shifted { value: (value << 1) | low, carry: (value & 0x80) != 0 }
}

/// [`rotated_right`], computed.
pub fn rotate_right(value: Byte, carry: bool) -> (r: Shifted)
    ensures
        r == rotated_right(value, carry),
{
    let high: Byte = if carry { 0x80 } else { 0 };
    assert((high == 0 || high == 0x80) ==> (value >> 1) | high == value / 2 + high) by (bit_vector);
    assert(((value & 1) != 0) == (value % 2 == 1)) by (bit_vector);
    Shifted { value: (value >> 1) | high, carry: (value & 1) != 0 }
}

} // verus!
