//! 32-bit CRC: table construction, incremental digests and one-shot
//! checksums for the named standards (CRC-32/IEEE, CRC-32C and
//! CRC-32/KOOPMAN).

use vstd::prelude::*;
use crate::engine::crc_entry;
use crate::model::crc_table;
use crate::model::fold_byte;
use crate::model::fold_bytes;
use crate::model::lemma_entry_fits;
use crate::model::lemma_fold_bytes_snoc;
use crate::model::lemma_low_byte_index;
use crate::model::lemma_shl8_u32;
use crate::model::seq32_to64;
use crate::model::table_entry;

verus! {

/// The CRC-32/IEEE generator polynomial.
pub const IEEE: u32 = 0x04C1_1DB7;

/// The CRC-32C (Castagnoli) generator polynomial.
pub const CASTAGNOLI: u32 = 0x1EDC_6F41;

/// The CRC-32/KOOPMAN generator polynomial.
pub const KOOPMAN: u32 = 0x741B_8CD7;

/// Builds the 256-entry lookup table for `poly`, reflected when `rfl` is
/// set. Equal inputs always yield bit-identical tables: the result is pinned
/// to `crc_table(poly, rfl, 32)`.
pub fn make_table(poly: u32, rfl: bool) -> (t: [u32; 256])
    ensures
        seq32_to64(t@) == crc_table(poly as u64, rfl, 32),
{
    let mut t: [u32; 256] = [0u32; 256];
    let mut i: usize = 0;
    while i < 256
        invariant
            i <= 256,
            forall|j: int| 0 <= j < i ==> t@[j] as u64 == table_entry(poly as u64, rfl, 32, j as u8),
        decreases 256 - i,
    {
        let e = crc_entry(poly as u64, rfl, 32, i as u8);
        proof {
            lemma_entry_fits(poly as u64, rfl, 32, i as u8);
        }
        t[i] = e as u32;
        i = i + 1;
    }
    proof {
        assert(seq32_to64(t@) =~= crc_table(poly as u64, rfl, 32));
    }
    t
}

/// Folds `bytes` into the running CRC `value` through `table`. With `rfl`
/// set the register consumes each byte low-byte-first; otherwise
/// high-byte-first.
pub fn update(value: u32, table: &[u32; 256], bytes: &[u8], rfl: bool) -> (r: u32)
    ensures
        r as u64 == fold_bytes(value as u64, bytes@, seq32_to64(table@), rfl, 32),
{
    let mut acc: u32 = value;
    let mut i: usize = 0;
    while i < bytes.len()
        invariant
            i <= bytes@.len(),
            acc as u64 == fold_bytes(value as u64, bytes@.take(i as int), seq32_to64(table@), rfl, 32),
        decreases bytes@.len() - i,
    {
        let x = bytes[i];
        proof {
            lemma_fold_bytes_snoc(value as u64, bytes@, i as int, seq32_to64(table@), rfl, 32);
        }
        if rfl {
            proof {
                lemma_low_byte_index((acc as u64) ^ (x as u64));
            }
            let idx = ((acc ^ (x as u32)) & 0xFF) as usize;
            assert(idx == (((acc as u64) ^ (x as u64)) & 0xFF) as int);
            acc = (acc >> 8) ^ table[idx];
        } else {
            proof {
                lemma_low_byte_index((x as u64) ^ ((acc as u64) >> 24));
            }
            let idx = (((x as u32) ^ (acc >> 24)) & 0xFF) as usize;
            assert(idx == (((x as u64) ^ ((acc as u64) >> 24)) & 0xFF) as int);
            let shifted = acc << 8;
            proof {
                lemma_shl8_u32(acc);
            }
            acc = shifted ^ table[idx];
        }
        proof {
            assert(acc as u64 == fold_byte(
                fold_bytes(value as u64, bytes@.take(i as int), seq32_to64(table@), rfl, 32),
                bytes@[i as int],
                seq32_to64(table@),
                rfl,
                32,
            ));
        }
        i = i + 1;
    }
    proof {
        assert(bytes@.take(bytes@.len() as int) =~= bytes@);
    }
    acc
}

/// One-shot CRC-32/IEEE checksum: all-ones initial value, reflected
/// folding, all-ones final XOR.
pub fn checksum_ieee(bytes: &[u8]) -> (r: u32)
    ensures
        r as u64 == fold_bytes(
            0xFFFF_FFFFu64,
            bytes@,
            crc_table(IEEE as u64, true, 32),
            true,
            32,
        ) ^ 0xFFFF_FFFFu64,
{
    let table = make_table(IEEE, true);
    update(0xFFFF_FFFF, &table, bytes, true) ^ 0xFFFF_FFFF
}

/// One-shot CRC-32C (Castagnoli) checksum: all-ones initial value,
/// reflected folding, all-ones final XOR.
pub fn checksum_castagnoli(bytes: &[u8]) -> (r: u32)
    ensures
        r as u64 == fold_bytes(
            0xFFFF_FFFFu64,
            bytes@,
            crc_table(CASTAGNOLI as u64, true, 32),
            true,
            32,
        ) ^ 0xFFFF_FFFFu64,
{
    let table = make_table(CASTAGNOLI, true);
    update(0xFFFF_FFFF, &table, bytes, true) ^ 0xFFFF_FFFF
}

/// One-shot CRC-32/KOOPMAN checksum: all-ones initial value, reflected
/// folding, all-ones final XOR.
pub fn checksum_koopman(bytes: &[u8]) -> (r: u32)
    ensures
        r as u64 == fold_bytes(
            0xFFFF_FFFFu64,
            bytes@,
            crc_table(KOOPMAN as u64, true, 32),
            true,
            32,
        ) ^ 0xFFFF_FFFFu64,
{
    let table = make_table(KOOPMAN, true);
    update(0xFFFF_FFFF, &table, bytes, true) ^ 0xFFFF_FFFF
}

/// A running 32-bit CRC: a lookup table, the initial and current register
/// values, the reflection convention, and the final XOR mask applied when
/// the sum is read.
pub struct Digest {
    table: [u32; 256],
    initial: u32,
    value: u32,
    reflect: bool,
    final_xor: u32,
}

/// The interface of a streaming 32-bit CRC: reset the register, fold bytes
/// in, read the sum out. The spec members expose the abstract state the
/// contracts speak of.
pub trait Hasher32 {
    /// The lookup table the hasher folds through, in the width-generic
    /// model's terms.
    spec fn spec_table(&self) -> Seq<u64>;

    /// The register value a reset restores.
    spec fn spec_initial(&self) -> u32;

    /// The current register value.
    spec fn spec_value(&self) -> u32;

    /// The reflection convention.
    spec fn spec_reflect(&self) -> bool;

    /// The mask XORed into the register when the sum is read.
    spec fn spec_final_xor(&self) -> u32;

    /// Restores the register to the initial value, discarding all folded
    /// byte history; every other part of the state is kept.
    fn reset(&mut self)
        ensures
            final(self).spec_value() == old(self).spec_initial(),
            final(self).spec_table() == old(self).spec_table(),
            final(self).spec_initial() == old(self).spec_initial(),
            final(self).spec_reflect() == old(self).spec_reflect(),
            final(self).spec_final_xor() == old(self).spec_final_xor(),
    ;

    /// Folds `bytes` into the register; every other part of the state is
    /// kept.
    fn write(&mut self, bytes: &[u8])
        ensures
            final(self).spec_value() as u64 == fold_bytes(
                old(self).spec_value() as u64,
                bytes@,
                old(self).spec_table(),
                old(self).spec_reflect(),
                32,
            ),
            final(self).spec_table() == old(self).spec_table(),
            final(self).spec_initial() == old(self).spec_initial(),
            final(self).spec_reflect() == old(self).spec_reflect(),
            final(self).spec_final_xor() == old(self).spec_final_xor(),
    ;

    /// Reads the sum: the current register XORed with the final mask. The
    /// state is untouched, so repeated reads return the same value.
    fn sum32(&self) -> (r: u32)
        ensures
            r == self.spec_value() ^ self.spec_final_xor(),
    ;
}

impl Digest {
    /// A digest with the reflected convention and all-ones initial value
    /// and final XOR mask, the common convention of the reflected CRC-32
    /// standards.
    pub fn new(poly: u32) -> (d: Digest)
        ensures
            d.spec_table() == crc_table(poly as u64, true, 32),
            d.spec_initial() == 0xFFFF_FFFFu32,
            d.spec_value() == 0xFFFF_FFFFu32,
            d.spec_reflect() == true,
            d.spec_final_xor() == 0xFFFF_FFFFu32,
    {
        Digest {
            table: make_table(poly, true),
            initial: 0xFFFF_FFFF,
            value: 0xFFFF_FFFF,
            reflect: true,
            final_xor: 0xFFFF_FFFF,
        }
    }

    /// A digest with the reflected convention and a caller-supplied initial
    /// register value.
    pub fn new_with_initial(poly: u32, initial: u32) -> (d: Digest)
        ensures
            d.spec_table() == crc_table(poly as u64, true, 32),
            d.spec_initial() == initial,
            d.spec_value() == initial,
            d.spec_reflect() == true,
            d.spec_final_xor() == 0xFFFF_FFFFu32,
    {
        Digest {
            table: make_table(poly, true),
            initial,
            value: initial,
            reflect: true,
            final_xor: 0xFFFF_FFFF,
        }
    }

    /// A digest with every parameter supplied by the caller.
    pub fn new_custom(poly: u32, initial: u32, reflect: bool, final_xor: u32) -> (d: Digest)
        ensures
            d.spec_table() == crc_table(poly as u64, reflect, 32),
            d.spec_initial() == initial,
            d.spec_value() == initial,
            d.spec_reflect() == reflect,
            d.spec_final_xor() == final_xor,
    {
        Digest {
            table: make_table(poly, reflect),
            initial,
            value: initial,
            reflect,
            final_xor,
        }
    }
}

impl Hasher32 for Digest {
    closed spec fn spec_table(&self) -> Seq<u64> {
        seq32_to64(self.table@)
    }

    closed spec fn spec_initial(&self) -> u32 {
        self.initial
    }

    closed spec fn spec_value(&self) -> u32 {
        self.value
    }

    closed spec fn spec_reflect(&self) -> bool {
        self.reflect
    }

    closed spec fn spec_final_xor(&self) -> u32 {
        self.final_xor
    }

    fn reset(&mut self) {
        self.value = self.initial;
    }

    fn write(&mut self, bytes: &[u8]) {
        self.value = update(self.value, &self.table, bytes, self.reflect);
    }

    fn sum32(&self) -> u32 {
        self.value ^ self.final_xor
    }
}

/// After any writes, a reset digest reports the same sum as a freshly
/// constructed digest with the same parameters: both registers stand at the
/// initial value, so both sums are that value XORed with the final mask.
pub proof fn lemma_reset_restores_initial(d: Digest, fresh: Digest)
    requires
        d.spec_value() == d.spec_initial(),
        fresh.spec_value() == fresh.spec_initial(),
        d.spec_initial() == fresh.spec_initial(),
        d.spec_final_xor() == fresh.spec_final_xor(),
    ensures
        d.spec_value() ^ d.spec_final_xor() == fresh.spec_value() ^ fresh.spec_final_xor(),
{
}

} // verus!
