//! 64-bit CRC: table construction, incremental digests and one-shot
//! checksums for the named standards (CRC-64/ECMA and CRC-64/ISO).

use vstd::prelude::*;
use crate::engine::crc_entry;
use crate::model::crc_table;
use crate::model::fold_bytes;
use crate::model::lemma_fold_bytes_snoc;
use crate::model::lemma_low_byte_index;
use crate::model::lemma_mask64_identity;
use crate::model::table_entry;

verus! {

/// The CRC-64/ECMA generator polynomial.
pub const ECMA: u64 = 0x42F0_E1EB_A9EA_3693;

/// The CRC-64/ISO generator polynomial.
pub const ISO: u64 = 0x0000_0000_0000_001B;

/// Builds the 256-entry lookup table for `poly`, reflected when `rfl` is
/// set. Equal inputs always yield bit-identical tables: the result is pinned
/// to `crc_table(poly, rfl, 64)`.
pub fn make_table(poly: u64, rfl: bool) -> (t: [u64; 256])
    ensures
        t@ == crc_table(poly, rfl, 64),
{
    let mut t: [u64; 256] = [0u64; 256];
    let mut i: usize = 0;
    while i < 256
        invariant
            i <= 256,
            forall|j: int| 0 <= j < i ==> t@[j] == table_entry(poly, rfl, 64, j as u8),
        decreases 256 - i,
    {
        let e = crc_entry(poly, rfl, 64, i as u8);
        t[i] = e;
        i = i + 1;
    }
    proof {
        assert(t@ =~= crc_table(poly, rfl, 64));
    }
    t
}

/// Folds `bytes` into the running CRC `value` through `table`. With `rfl`
/// set the register consumes each byte low-byte-first; otherwise
/// high-byte-first.
pub fn update(value: u64, table: &[u64; 256], bytes: &[u8], rfl: bool) -> (r: u64)
    ensures
        r == fold_bytes(value, bytes@, table@, rfl, 64),
{
    let mut acc: u64 = value;
    let mut i: usize = 0;
    while i < bytes.len()
        invariant
            i <= bytes@.len(),
            acc == fold_bytes(value, bytes@.take(i as int), table@, rfl, 64),
        decreases bytes@.len() - i,
    {
        let x = bytes[i];
        proof {
            lemma_fold_bytes_snoc(value, bytes@, i as int, table@, rfl, 64);
        }
        if rfl {
            proof {
                lemma_low_byte_index(acc ^ (x as u64));
            }
            acc = (acc >> 8) ^ table[((acc ^ (x as u64)) & 0xFF) as usize];
        } else {
            proof {
                lemma_low_byte_index((x as u64) ^ (acc >> 56));
                lemma_mask64_identity(acc << 8);
            }
            acc = (acc << 8) ^ table[(((x as u64) ^ (acc >> 56)) & 0xFF) as usize];
        }
        i = i + 1;
    }
    proof {
        assert(bytes@.take(bytes@.len() as int) =~= bytes@);
    }
    acc
}

/// One-shot CRC-64/ECMA checksum: all-ones initial value, reflected
/// folding, all-ones final XOR.
pub fn checksum_ecma(bytes: &[u8]) -> (r: u64)
    ensures
        r == fold_bytes(
            0xFFFF_FFFF_FFFF_FFFFu64,
            bytes@,
            crc_table(ECMA, true, 64),
            true,
            64,
        ) ^ 0xFFFF_FFFF_FFFF_FFFFu64,
{
    let table = make_table(ECMA, true);
    update(0xFFFF_FFFF_FFFF_FFFF, &table, bytes, true) ^ 0xFFFF_FFFF_FFFF_FFFF
}

/// One-shot CRC-64/ISO checksum: all-ones initial value, reflected folding,
/// all-ones final XOR.
pub fn checksum_iso(bytes: &[u8]) -> (r: u64)
    ensures
        r == fold_bytes(
            0xFFFF_FFFF_FFFF_FFFFu64,
            bytes@,
            crc_table(ISO, true, 64),
            true,
            64,
        ) ^ 0xFFFF_FFFF_FFFF_FFFFu64,
{
    let table = make_table(ISO, true);
    update(0xFFFF_FFFF_FFFF_FFFF, &table, bytes, true) ^ 0xFFFF_FFFF_FFFF_FFFF
}

/// A running 64-bit CRC: a lookup table, the initial and current register
/// values, the reflection convention, and the final XOR mask applied when
/// the sum is read.
pub struct Digest {
    table: [u64; 256],
    initial: u64,
    value: u64,
    reflect: bool,
    final_xor: u64,
}

/// The interface of a streaming 64-bit CRC: reset the register, fold bytes
/// in, read the sum out. The spec members expose the abstract state the
/// contracts speak of.
pub trait Hasher64 {
    /// The lookup table the hasher folds through.
    spec fn spec_table(&self) -> Seq<u64>;

    /// The register value a reset restores.
    spec fn spec_initial(&self) -> u64;

    /// The current register value.
    spec fn spec_value(&self) -> u64;

    /// The reflection convention.
    spec fn spec_reflect(&self) -> bool;

    /// The mask XORed into the register when the sum is read.
    spec fn spec_final_xor(&self) -> u64;

    /// Restores the register to the initial value, discarding all folded
    /// byte history; every other part of the state is kept.
    fn reset(&mut self)
        ensures
            final(self).spec_value() == old(self).spec_initial(),
            final(self).spec_table() == old(self).spec_table(),
            final(self).spec_initial() == old(self).spec_initial(),
            final(self).spec_reflect() == old(self).spec_reflect(),
            final(self).spec_final_xor() == old(self).spec_final_xor(),
    ;

    /// Folds `bytes` into the register; every other part of the state is
    /// kept.
    fn write(&mut self, bytes: &[u8])
        ensures
            final(self).spec_value() == fold_bytes(
                old(self).spec_value(),
                bytes@,
                old(self).spec_table(),
                old(self).spec_reflect(),
                64,
            ),
            final(self).spec_table() == old(self).spec_table(),
            final(self).spec_initial() == old(self).spec_initial(),
            final(self).spec_reflect() == old(self).spec_reflect(),
            final(self).spec_final_xor() == old(self).spec_final_xor(),
    ;

    /// Reads the sum: the current register XORed with the final mask. The
    /// state is untouched, so repeated reads return the same value.
    fn sum64(&self) -> (r: u64)
        ensures
            r == self.spec_value() ^ self.spec_final_xor(),
    ;
}

impl Digest {
    /// A digest with the reflected convention and all-ones initial value
    /// and final XOR mask, the common convention of the reflected CRC-64
    /// standards.
    pub fn new(poly: u64) -> (d: Digest)
        ensures
            d.spec_table() == crc_table(poly, true, 64),
            d.spec_initial() == 0xFFFF_FFFF_FFFF_FFFFu64,
            d.spec_value() == 0xFFFF_FFFF_FFFF_FFFFu64,
            d.spec_reflect() == true,
            d.spec_final_xor() == 0xFFFF_FFFF_FFFF_FFFFu64,
    {
        Digest {
            table: make_table(poly, true),
            initial: 0xFFFF_FFFF_FFFF_FFFF,
            value: 0xFFFF_FFFF_FFFF_FFFF,
            reflect: true,
            final_xor: 0xFFFF_FFFF_FFFF_FFFF,
        }
    }

    /// A digest with the reflected convention and a caller-supplied initial
    /// register value.
    pub fn new_with_initial(poly: u64, initial: u64) -> (d: Digest)
        ensures
            d.spec_table() == crc_table(poly, true, 64),
            d.spec_initial() == initial,
            d.spec_value() == initial,
            d.spec_reflect() == true,
            d.spec_final_xor() == 0xFFFF_FFFF_FFFF_FFFFu64,
    {
        Digest {
            table: make_table(poly, true),
            initial,
            value: initial,
            reflect: true,
            final_xor: 0xFFFF_FFFF_FFFF_FFFF,
        }
    }

    /// A digest with every parameter supplied by the caller.
    pub fn new_custom(poly: u64, initial: u64, reflect: bool, final_xor: u64) -> (d: Digest)
        ensures
            d.spec_table() == crc_table(poly, reflect, 64),
            d.spec_initial() == initial,
            d.spec_value() == initial,
            d.spec_reflect() == reflect,
            d.spec_final_xor() == final_xor,
    {
        Digest {
            table: make_table(poly, reflect),
            initial,
            value: initial,
            reflect,
            final_xor,
        }
    }
}

impl Hasher64 for Digest {
    closed spec fn spec_table(&self) -> Seq<u64> {
        self.table@
    }

    closed spec fn spec_initial(&self) -> u64 {
        self.initial
    }

    closed spec fn spec_value(&self) -> u64 {
        self.value
    }

    closed spec fn spec_reflect(&self) -> bool {
        self.reflect
    }

    closed spec fn spec_final_xor(&self) -> u64 {
        self.final_xor
    }

    fn reset(&mut self) {
        self.value = self.initial;
    }

    fn write(&mut self, bytes: &[u8]) {
        self.value = update(self.value, &self.table, bytes, self.reflect);
    }

    fn sum64(&self) -> u64 {
        self.value ^ self.final_xor
    }
}

/// After any writes, a reset digest reports the same sum as a freshly
/// constructed digest with the same parameters: both registers stand at the
/// initial value, so both sums are that value XORed with the final mask.
pub proof fn lemma_reset_restores_initial(d: Digest, fresh: Digest)
    requires
        d.spec_value() == d.spec_initial(),
        fresh.spec_value() == fresh.spec_initial(),
        d.spec_initial() == fresh.spec_initial(),
        d.spec_final_xor() == fresh.spec_final_xor(),
    ensures
        d.spec_value() ^ d.spec_final_xor() == fresh.spec_value() ^ fresh.spec_final_xor(),
{
}

} // verus!
