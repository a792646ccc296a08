//! The mathematical model of table-driven CRC computation: what a lookup
//! table holds for a given polynomial and reflection convention, and how a
//! running CRC register folds a byte stream through that table.
//!
//! Every width (16, 32 or 64 bits) runs the same algorithm; the model keeps
//! registers in `u64` and carries the width `w` explicitly, with all values
//! truncated to the low `w` bits.

use vstd::prelude::*;
use crate::bits::lemma_rev_bits_bound;
use crate::bits::rev_bits;

verus! {

/// The register widths the library supports.
pub open spec fn valid_width(w: u64) -> bool {
    w == 16 || w == 32 || w == 64
}

/// The mask keeping the low `w` bits of a register.
pub open spec fn w_mask(w: u64) -> u64 {
    if w == 16 {
        0xFFFFu64
    } else if w == 32 {
        0xFFFF_FFFFu64
    } else {
        0xFFFF_FFFF_FFFF_FFFFu64
    }
}

/// The most significant bit of a `w`-bit register.
pub open spec fn top_bit(w: u64) -> u64 {
    1u64 << ((w - 1) as u64)
}

/// One step of polynomial long division on a `w`-bit register: shift the
/// register left by one and, when the bit shifted out was set, subtract
/// (XOR) the generator polynomial.
pub open spec fn poly_div_step(reg: u64, poly: u64, w: u64) -> u64 {
    if reg & top_bit(w) != 0 {
        ((reg << 1) ^ poly) & w_mask(w)
    } else {
        (reg << 1) & w_mask(w)
    }
}

/// `k` polynomial division steps applied to `reg`.
pub open spec fn poly_div_steps(reg: u64, poly: u64, w: u64, k: nat) -> u64
    decreases k,
{
    if k == 0 {
        reg
    } else {
        poly_div_step(poly_div_steps(reg, poly, w, (k - 1) as nat), poly, w)
    }
}

/// The seed register for byte value `b`: the byte (bit-reversed when the
/// convention is reflected) shifted into the most significant byte of the
/// `w`-bit register.
pub open spec fn seed_for(b: u8, rfl: bool, w: u64) -> u64 {
    if rfl {
        rev_bits(b as u64, 8) << ((w - 8) as u64)
    } else {
        (b as u64) << ((w - 8) as u64)
    }
}

/// The table entry for byte value `b`: eight division steps applied to the
/// seed, bit-reversed once more at width `w` when the convention is
/// reflected.
pub open spec fn table_entry(poly: u64, rfl: bool, w: u64, b: u8) -> u64 {
    if rfl {
        rev_bits(poly_div_steps(seed_for(b, true, w), poly, w, 8), w)
    } else {
        poly_div_steps(seed_for(b, false, w), poly, w, 8)
    }
}

/// The full 256-entry lookup table for `poly` at width `w`.
pub open spec fn crc_table(poly: u64, rfl: bool, w: u64) -> Seq<u64> {
    Seq::new(256, |i: int| table_entry(poly, rfl, w, i as u8))
}

/// Folds one byte into the running register: reflected variants consume the
/// low byte of the register first, unreflected ones the high byte.
pub open spec fn fold_byte(value: u64, x: u8, table: Seq<u64>, rfl: bool, w: u64) -> u64 {
    if rfl {
        (value >> 8) ^ table[((value ^ (x as u64)) & 0xFF) as int]
    } else {
        (((value << 8) & w_mask(w)) ^ table[(((x as u64) ^ (value >> ((w - 8) as u64))) & 0xFF) as int])
    }
}

/// Folds a byte sequence into the running register, first byte first.
pub open spec fn fold_bytes(value: u64, bytes: Seq<u8>, table: Seq<u64>, rfl: bool, w: u64) -> u64
    decreases bytes.len(),
{
    if bytes.len() == 0 {
        value
    } else {
        fold_bytes(fold_byte(value, bytes[0], table, rfl, w), bytes.skip(1), table, rfl, w)
    }
}

/// A 32-bit table widened entry by entry, so the width-generic model can
/// speak of it.
pub open spec fn seq32_to64(t: Seq<u32>) -> Seq<u64> {
    Seq::new(t.len(), |i: int| t[i] as u64)
}

/// A 16-bit table widened entry by entry, so the width-generic model can
/// speak of it.
pub open spec fn seq16_to64(t: Seq<u16>) -> Seq<u64> {
    Seq::new(t.len(), |i: int| t[i] as u64)
}

/// A `w`-bit register has no bits above position `w - 1`.
pub open spec fn fits(x: u64, w: u64) -> bool {
    x <= w_mask(w)
}

/// Any number of division steps leaves the register within `w` bits.
pub proof fn lemma_steps_fit(reg: u64, poly: u64, w: u64, k: nat)
    requires
        valid_width(w),
        k > 0,
    ensures
        fits(poly_div_steps(reg, poly, w, k), w),
    decreases k,
{
    let prev = poly_div_steps(reg, poly, w, (k - 1) as nat);
    assert(fits(poly_div_step(prev, poly, w), w)) by (bit_vector)
        requires
            w == 16 || w == 32 || w == 64,
    ;
}

/// Every table entry fits in `w` bits.
pub proof fn lemma_entry_fits(poly: u64, rfl: bool, w: u64, b: u8)
    requires
        valid_width(w),
    ensures
        fits(table_entry(poly, rfl, w, b), w),
{
    if rfl {
        let raw = poly_div_steps(seed_for(b, true, w), poly, w, 8);
        if w == 64 {
            // every u64 fits in 64 bits
        } else {
            lemma_rev_bits_bound(raw, w);
            let r = rev_bits(raw, w);
            assert(r <= w_mask(w)) by (bit_vector)
                requires
                    r >> w == 0 && (w == 16 || w == 32),
            ;
        }
    } else {
        lemma_steps_fit(seed_for(b, false, w), poly, w, 8);
    }
}

/// The low byte of any value is a valid table index.
pub proof fn lemma_low_byte_index(x: u64)
    ensures
        x & 0xFF < 256,
{
    assert(x & 0xFF < 256) by (bit_vector);
}

/// Masking at 64 bits changes nothing.
pub proof fn lemma_mask64_identity(x: u64)
    ensures
        x & 0xFFFF_FFFF_FFFF_FFFF == x,
{
    assert(x & 0xFFFF_FFFF_FFFF_FFFF == x) by (bit_vector);
}

/// A 32-bit left shift by one byte, widened, is the widened shift masked to
/// 32 bits.
pub proof fn lemma_shl8_u32(a: u32)
    ensures
        ((a << 8) as u64) == ((a as u64) << 8) & 0xFFFF_FFFF,
{
    assert(((a << 8) as u64) == ((a as u64) << 8) & 0xFFFF_FFFF) by (bit_vector);
}

/// A 16-bit left shift by one byte, widened, is the widened shift masked to
/// 16 bits.
pub proof fn lemma_shl8_u16(a: u16)
    ensures
        ((a << 8) as u64) == ((a as u64) << 8) & 0xFFFF,
{
    assert(((a << 8) as u64) == ((a as u64) << 8) & 0xFFFF) by (bit_vector);
}

/// The table built for a polynomial and reflection convention is a pure
/// function of those inputs: any two tables built from equal parameters are
/// bit-identical.
pub proof fn lemma_table_deterministic(t1: Seq<u64>, t2: Seq<u64>, poly: u64, rfl: bool, w: u64)
    requires
        t1 == crc_table(poly, rfl, w),
        t2 == crc_table(poly, rfl, w),
    ensures
        t1 == t2,
{
}

/// Folding no bytes leaves the register unchanged, so on empty input every
/// variant's sum is its initial value XORed with the final mask.
pub proof fn lemma_empty_fold_is_identity(value: u64, table: Seq<u64>, rfl: bool, w: u64)
    ensures
        fold_bytes(value, Seq::<u8>::empty(), table, rfl, w) == value,
{
}

/// Streaming equivalence: folding `a` and then `b` yields the same register
/// as folding the concatenation of `a` and `b` in one call.
pub proof fn lemma_fold_bytes_append(
    value: u64,
    a: Seq<u8>,
    b: Seq<u8>,
    table: Seq<u64>,
    rfl: bool,
    w: u64,
)
    ensures
        fold_bytes(value, a + b, table, rfl, w) == fold_bytes(
            fold_bytes(value, a, table, rfl, w),
            b,
            table,
            rfl,
            w,
        ),
    decreases a.len(),
{
    if a.len() == 0 {
        assert(a + b =~= b);
    } else {
        assert((a + b)[0] == a[0]);
        assert((a + b).skip(1) =~= a.skip(1) + b);
        lemma_fold_bytes_append(fold_byte(value, a[0], table, rfl, w), a.skip(1), b, table, rfl, w);
    }
}

/// Extending a fold by one byte applies `fold_byte` once more.
pub proof fn lemma_fold_bytes_snoc(
    value: u64,
    bytes: Seq<u8>,
    i: int,
    table: Seq<u64>,
    rfl: bool,
    w: u64,
)
    requires
        0 <= i < bytes.len(),
    ensures
        fold_bytes(value, bytes.take(i + 1), table, rfl, w) == fold_byte(
            fold_bytes(value, bytes.take(i), table, rfl, w),
            bytes[i],
            table,
            rfl,
            w,
        ),
{
    let one = seq![bytes[i]];
    assert(bytes.take(i + 1) =~= bytes.take(i) + one);
    lemma_fold_bytes_append(value, bytes.take(i), one, table, rfl, w);
    let x = fold_bytes(value, bytes.take(i), table, rfl, w);
    assert(one.skip(1) =~= Seq::<u8>::empty());
    let y = fold_byte(x, bytes[i], table, rfl, w);
    assert(fold_bytes(y, Seq::<u8>::empty(), table, rfl, w) == y);
    assert(fold_bytes(x, one, table, rfl, w) == fold_bytes(y, one.skip(1), table, rfl, w));
}

/// Reflection symmetry: the reflected table holds, at index `b`, the
/// width-`w` bit reversal of the unreflected table's entry at the
/// bit-reversed index.
pub proof fn lemma_reflection_symmetry(poly: u64, w: u64, b: u8)
    requires
        valid_width(w),
    ensures
        table_entry(poly, true, w, b) == rev_bits(
            table_entry(poly, false, w, rev_bits(b as u64, 8) as u8),
            w,
        ),
{
    let rb = rev_bits(b as u64, 8);
    lemma_rev_bits_bound(b as u64, 8);
    assert(rb < 256 && (rb as u8) as u64 == rb) by (bit_vector)
        requires
            rb >> 8 == 0,
    ;
    assert(seed_for(rb as u8, false, w) == seed_for(b, true, w));
}

} // verus!
