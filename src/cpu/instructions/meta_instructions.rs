//! Width-generic operand helpers shared by the instruction handlers.
use vstd::prelude::*;
use crate::common::{Address, Byte};
use crate::cpu::{compose, high8, low8, wrap_dec, wrap_inc, CPUModifiable};

verus! {

/// Loads the 16-bit value of `b` into `a`.
pub fn ld<Val1: CPUModifiable, Val2: CPUModifiable>(a: &mut Val1, b: Val2)
    ensures
        *final(a) == Val1::from16(b.wide()),
{
    a.set16(b.get16());
}

/// Adds one to the operand, wrapping at 16 bits.
pub fn inc<Val: CPUModifiable>(val: &mut Val)
    ensures
        *final(val) == Val::from16(wrap_inc(old(val).wide())),
{
    let w = val.get16();
    let next: Address = if w == 0xFFFF { 0 } else { w + 1 };
    val.set16(next);
}

/// Subtracts one from the operand, wrapping at 16 bits.
pub fn dec<Val: CPUModifiable>(val: &mut Val)
    ensures
        *final(val) == Val::from16(wrap_dec(old(val).wide())),
{
    let w = val.get16();
    let next: Address = if w == 0 { 0xFFFF } else { w - 1 };
    val.set16(next);
}

/// The word whose high byte is the first operand's low byte and whose low
/// byte is the second operand's low byte.
pub fn bytes_to_dword<Val1: CPUModifiable, Val2: CPUModifiable>(bytes: (Val1, Val2)) -> (r: Address)
    ensures
        r == compose(low8(bytes.0.wide()), low8(bytes.1.wide())),
{
    let h = bytes.0.get8();
    let l = bytes.1.get8();
    (h as Address) * 256 + (l as Address)
}

/// The operand's 16-bit value split into (high, low) bytes.
pub fn dword_to_bytes<Val: CPUModifiable>(dword: Val) -> (r: (Byte, Byte))
    ensures
        r == (high8(dword.wide()), low8(dword.wide())),
{
    let w = dword.get16();
    ((w / 256) as Byte, (w % 256) as Byte)
}

} // verus!
