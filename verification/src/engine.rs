//! The width-generic executable core: computing one lookup-table entry.
//! The per-width modules wrap it for their own table and register types.

use vstd::prelude::*;
use crate::bits::reverse_bits;
use crate::model::poly_div_step;
use crate::model::poly_div_steps;
use crate::model::seed_for;
use crate::model::table_entry;
use crate::model::valid_width;
use crate::model::w_mask;

verus! {

/// The mask keeping the low `w` bits of a register.
pub fn width_mask(w: u64) -> (m: u64)
    requires
        valid_width(w),
    ensures
        m == w_mask(w),
{
    if w == 16 {
        0xFFFF
    } else if w == 32 {
        0xFFFF_FFFF
    } else {
        0xFFFF_FFFF_FFFF_FFFF
    }
}

/// The lookup-table entry for byte value `b` under polynomial `poly` at
/// width `w`: seed a register with `b` in its most significant byte
/// (bit-reversed first when `rfl` is set), run eight polynomial division
/// steps, and bit-reverse the result at width `w` when `rfl` is set.
pub fn crc_entry(poly: u64, rfl: bool, w: u64, b: u8) -> (r: u64)
    requires
        valid_width(w),
    ensures
        r == table_entry(poly, rfl, w, b),
{
    let mask = width_mask(w);
    let seed: u64 = if rfl {
        reverse_bits(b as u64, 8) << (w - 8)
    } else {
        (b as u64) << (w - 8)
    };
    assert(seed == seed_for(b, rfl, w));
    let top: u64 = 1u64 << (w - 1);
    let mut reg: u64 = seed;
    let mut k: u64 = 0;
    while k < 8
        invariant
            k <= 8,
            valid_width(w),
            mask == w_mask(w),
            top == 1u64 << ((w - 1) as u64),
            reg == poly_div_steps(seed_for(b, rfl, w), poly, w, k as nat),
        decreases 8 - k,
    {
        if reg & top != 0 {
            reg = ((reg << 1) ^ poly) & mask;
        } else {
            reg = (reg << 1) & mask;
        }
        k = k + 1;
        assert(reg == poly_div_step(poly_div_steps(seed_for(b, rfl, w), poly, w, (k - 1) as nat), poly, w));
    }
    if rfl {
        reverse_bits(reg, w)
    } else {
        reg
    }
}

} // verus!
