//! The arithmetic of the 8-bit registers: each operation gives the new
//! register value and the flag that goes to `VF`.

use vstd::prelude::*;
use crate::cpu::wrap8;

verus! {

/// The hundreds, tens and ones digit of `value`, in that order.
pub open spec fn digits(value: u8) -> Seq<u8> {
    seq![value / 100, value / 10 % 10, value % 10]
}

/// The sum reduced to eight bits, and whether the full sum needs a ninth.
pub fn add_with_carry(a: u8, b: u8) -> (r: (u8, bool))
    ensures
        r.0 == wrap8(a + b),
        r.1 <==> a + b >= 0x100,
{
    let sum = a as u16 + b as u16;
    (a.wrapping_add(b), sum > 0xFF)
}

/// The difference `a - b` reduced to eight bits, and whether the
/// subtraction needed no borrow.
pub fn sub_with_borrow(a: u8, b: u8) -> (r: (u8, bool))
    ensures
        r.0 == wrap8(a - b),
        r.1 <==> a >= b,
{
    (a.wrapping_sub(b), a >= b)
}

/// `value` shifted right by one bit, and whether the bit shifted out was set.
pub fn shift_right(value: u8) -> (r: (u8, bool))
    ensures
        r.0 == value / 2,
        r.1 <==> value % 2 == 1,
{
    assert(value >> 1 == value / 2) by (bit_vector);
    assert(value & 1 == value % 2) by (bit_vector);
    (value >> 1, value & 1 == 1)
}

/// `value` shifted left by one bit, and whether the bit shifted out was set.
pub fn shift_left(value: u8) -> (r: (u8, bool))
    ensures
        r.0 == wrap8(value * 2),
        r.1 <==> value >= 0x80,
{
    assert(value << 1 == (value * 2) % 0x100) by (bit_vector);
    assert((value >> 7) & 1 == (if value >= 0x80 { 1u8 } else { 0u8 })) by (bit_vector);
    (value << 1, (value >> 7) & 1 == 1)
}

/// The three decimal digits of `value`, most significant first. Each is
/// below ten, and together they give `value` back.
pub fn bcd(value: u8) -> (r: [u8; 3])
    ensures
        r@ == digits(value),
        r[0] < 10 && r[1] < 10 && r[2] < 10,
        100 * r[0] + 10 * r[1] + r[2] == value,
{
    [value / 100, (value / 10) % 10, value % 10]
}

} // verus!
