use crate::types::Shift;
use vstd::prelude::*;

verus! {

/// The value a barrel shift of `amount` places (0..32) leaves: logical
/// shifts fill with zeroes, the arithmetic shift replicates bit 31, and the
/// rotate wraps the low bits around.  An amount of zero leaves the value
/// unchanged for every kind.
pub open spec fn spec_shift(kind: Shift, value: u32, amount: u32) -> u32 {
    match kind {
        Shift::LSL => value << amount,
        Shift::LSR => value >> amount,
        Shift::ASR => if amount == 0 {
            value
        } else if value & 0x8000_0000u32 == 0 {
            value >> amount
        } else {
            (value >> amount) | (0xFFFF_FFFFu32 << ((32 - amount) as u32))
        },
        Shift::ROR => if amount == 0 {
            value
        } else {
            (value >> amount) | (value << ((32 - amount) as u32))
        },
    }
}

/// The carry the barrel shifter leaves behind: `None` when the amount is
/// zero; otherwise the last bit shifted out, which is bit `32 - amount`
/// for a left shift and bit `amount - 1` for the right shifts and rotates.
pub open spec fn spec_carry(kind: Shift, value: u32, amount: u32) -> Option<bool> {
    if amount == 0 {
        None
    } else {
        match kind {
            Shift::LSL => Some(value & (1u32 << ((32 - amount) as u32)) != 0),
            _ => Some(value & (1u32 << ((amount - 1) as u32)) != 0),
        }
    }
}

pub fn shift(shift_type: Shift, value: u32, amount: u32) -> (r: u32)
    requires
        amount < 32,
    ensures
        r == spec_shift(shift_type, value, amount),
        amount == 0 ==> r == value,
{
    match shift_type {
        Shift::LSL => lsl(value, amount),
        Shift::LSR => lsr(value, amount),
        Shift::ASR => asr(value, amount),
        Shift::ROR => ror(value, amount),
    }
}

pub fn is_carry_over(shift_type: Shift, value: u32, amount: u32) -> (r: Option<bool>)
    requires
        amount < 32,
    ensures
        r == spec_carry(shift_type, value, amount),
        amount == 0 ==> r is None,
{
    if amount == 0 {
        None
    } else {
        match shift_type {
            Shift::LSL => Some(value & (1u32 << (32 - amount)) != 0),
            _ => Some(value & (1u32 << (amount - 1)) != 0),
        }
    }
}

pub fn lsl(value: u32, amount: u32) -> (r: u32)
    requires
        amount < 32,
    ensures
        r == spec_shift(Shift::LSL, value, amount),
        amount == 0 ==> r == value,
{
    proof {
        assert(value << 0u32 == value) by (bit_vector);
    }
    value << amount
}

pub fn lsr(value: u32, amount: u32) -> (r: u32)
    requires
        amount < 32,
    ensures
        r == spec_shift(Shift::LSR, value, amount),
        amount == 0 ==> r == value,
{
    proof {
        assert(value >> 0u32 == value) by (bit_vector);
    }
    value >> amount
}

pub fn asr(value: u32, amount: u32) -> (r: u32)
    requires
        amount < 32,
    ensures
        r == spec_shift(Shift::ASR, value, amount),
        amount == 0 ==> r == value,
{
    if amount == 0 {
        value
    } else if value & 0x8000_0000 == 0 {
        value >> amount
    } else {
        (value >> amount) | (0xFFFF_FFFF << (32 - amount))
    }
}

pub fn ror(value: u32, amount: u32) -> (r: u32)
    requires
        amount < 32,
    ensures
        r == spec_shift(Shift::ROR, value, amount),
        amount == 0 ==> r == value,
{
    if amount == 0 {
        return value;
    }
    (value >> amount) | (value << (32 - amount))
}

} // verus!
