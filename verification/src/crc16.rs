//! 16-bit CRC: table construction, incremental digests and one-shot
//! checksums for the named standards (CRC-16/X25 and CRC-16/USB).

use vstd::prelude::*;
use crate::engine::crc_entry;
use crate::model::crc_table;
use crate::model::fold_byte;
use crate::model::fold_bytes;
use crate::model::lemma_entry_fits;
use crate::model::lemma_fold_bytes_snoc;
use crate::model::lemma_low_byte_index;
use crate::model::lemma_shl8_u16;
use crate::model::seq16_to64;
use crate::model::table_entry;

verus! {

/// The CRC-16/X25 generator polynomial.
pub const X25: u16 = 0x1021;

/// The CRC-16/USB generator polynomial.
pub const USB: u16 = 0x8005;

/// Builds the 256-entry lookup table for `poly`, reflected when `rfl` is
/// set. Equal inputs always yield bit-identical tables: the result is pinned
/// to `crc_table(poly, rfl, 16)`.
pub fn make_table(poly: u16, rfl: bool) -> (t: [u16; 256])
    ensures
        seq16_to64(t@) == crc_table(poly as u64, rfl, 16),
{
    let mut t: [u16; 256] = [0u16; 256];
    let mut i: usize = 0;
    while i < 256
        invariant
            i <= 256,
            forall|j: int| 0 <= j < i ==> t@[j] as u64 == table_entry(poly as u64, rfl, 16, j as u8),
        decreases 256 - i,
    {
        let e = crc_entry(poly as u64, rfl, 16, i as u8);
        proof {
            lemma_entry_fits(poly as u64, rfl, 16, i as u8);
        }
        t[i] = e as u16;
        i = i + 1;
    }
    proof {
        assert(seq16_to64(t@) =~= crc_table(poly as u64, rfl, 16));
    }
    t
}

/// Folds `bytes` into the running CRC `value` through `table`. With `rfl`
/// set the register consumes each byte low-byte-first; otherwise
/// high-byte-first.
pub fn update(value: u16, table: &[u16; 256], bytes: &[u8], rfl: bool) -> (r: u16)
    ensures
        r as u64 == fold_bytes(value as u64, bytes@, seq16_to64(table@), rfl, 16),
{
    let mut acc: u16 = value;
    let mut i: usize = 0;
    while i < bytes.len()
        invariant
            i <= bytes@.len(),
            acc as u64 == fold_bytes(value as u64, bytes@.take(i as int), seq16_to64(table@), rfl, 16),
        decreases bytes@.len() - i,
    {
        let x = bytes[i];
        proof {
            lemma_fold_bytes_snoc(value as u64, bytes@, i as int, seq16_to64(table@), rfl, 16);
        }
        if rfl {
            proof {
                lemma_low_byte_index((acc as u64) ^ (x as u64));
            }
            let idx = ((acc ^ (x as u16)) & 0xFF) as usize;
            assert(idx == (((acc as u64) ^ (x as u64)) & 0xFF) as int);
            acc = (acc >> 8) ^ table[idx];
        } else {
            proof {
                lemma_low_byte_index((x as u64) ^ ((acc as u64) >> 8));
            }
            let idx = (((x as u16) ^ (acc >> 8)) & 0xFF) as usize;
            assert(idx == (((x as u64) ^ ((acc as u64) >> 8)) & 0xFF) as int);
            let shifted = acc << 8;
            proof {
                lemma_shl8_u16(acc);
            }
            acc = shifted ^ table[idx];
        }
        proof {
            assert(acc as u64 == fold_byte(
                fold_bytes(value as u64, bytes@.take(i as int), seq16_to64(table@), rfl, 16),
                bytes@[i as int],
                seq16_to64(table@),
                rfl,
                16,
            ));
        }
        i = i + 1;
    }
    proof {
        assert(bytes@.take(bytes@.len() as int) =~= bytes@);
    }
    acc
}

/// One-shot CRC-16/X25 checksum: all-ones initial value, reflected folding,
/// all-ones final XOR.
pub fn checksum_x25(bytes: &[u8]) -> (r: u16)
    ensures
        r as u64 == fold_bytes(
            0xFFFFu64,
            bytes@,
            crc_table(X25 as u64, true, 16),
            true,
            16,
        ) ^ 0xFFFFu64,
{
    let table = make_table(X25, true);
    update(0xFFFF, &table, bytes, true) ^ 0xFFFF
}

/// One-shot CRC-16/USB checksum: all-ones initial value, reflected folding,
/// all-ones final XOR.
pub fn checksum_usb(bytes: &[u8]) -> (r: u16)
    ensures
        r as u64 == fold_bytes(
            0xFFFFu64,
            bytes@,
            crc_table(USB as u64, true, 16),
            true,
            16,
        ) ^ 0xFFFFu64,
{
    let table = make_table(USB, true);
    update(0xFFFF, &table, bytes, true) ^ 0xFFFF
}

/// A running 16-bit CRC: a lookup table, the initial and current register
/// values, the reflection convention, and the final XOR mask applied when
/// the sum is read.
pub struct Digest {
    table: [u16; 256],
    initial: u16,
    value: u16,
    reflect: bool,
    final_xor: u16,
}

/// The interface of a streaming 16-bit CRC: reset the register, fold bytes
/// in, read the sum out. The spec members expose the abstract state the
/// contracts speak of.
pub trait Hasher16 {
    /// The lookup table the hasher folds through, in the width-generic
    /// model's terms.
    spec fn spec_table(&self) -> Seq<u64>;

    /// The register value a reset restores.
    spec fn spec_initial(&self) -> u16;

    /// The current register value.
    spec fn spec_value(&self) -> u16;

    /// The reflection convention.
    spec fn spec_reflect(&self) -> bool;

    /// The mask XORed into the register when the sum is read.
    spec fn spec_final_xor(&self) -> u16;

    /// Restores the register to the initial value, discarding all folded
    /// byte history; every other part of the state is kept.
    fn reset(&mut self)
        ensures
            final(self).spec_value() == old(self).spec_initial(),
            final(self).spec_table() == old(self).spec_table(),
            final(self).spec_initial() == old(self).spec_initial(),
            final(self).spec_reflect() == old(self).spec_reflect(),
            final(self).spec_final_xor() == old(self).spec_final_xor(),
    ;

    /// Folds `bytes` into the register; every other part of the state is
    /// kept.
    fn write(&mut self, bytes: &[u8])
        ensures
            final(self).spec_value() as u64 == fold_bytes(
                old(self).spec_value() as u64,
                bytes@,
                old(self).spec_table(),
                old(self).spec_reflect(),
                16,
            ),
            final(self).spec_table() == old(self).spec_table(),
            final(self).spec_initial() == old(self).spec_initial(),
            final(self).spec_reflect() == old(self).spec_reflect(),
            final(self).spec_final_xor() == old(self).spec_final_xor(),
    ;

    /// Reads the sum: the current register XORed with the final mask. The
    /// state is untouched, so repeated reads return the same value.
    fn sum16(&self) -> (r: u16)
        ensures
            r == self.spec_value() ^ self.spec_final_xor(),
    ;
}

impl Digest {
    /// A digest with the reflected convention and all-ones initial value
    /// and final XOR mask, the common convention of the reflected CRC-16
    /// standards.
    pub fn new(poly: u16) -> (d: Digest)
        ensures
            d.spec_table() == crc_table(poly as u64, true, 16),
            d.spec_initial() == 0xFFFFu16,
            d.spec_value() == 0xFFFFu16,
            d.spec_reflect() == true,
            d.spec_final_xor() == 0xFFFFu16,
    {
        Digest {
            table: make_table(poly, true),
            initial: 0xFFFF,
            value: 0xFFFF,
            reflect: true,
            final_xor: 0xFFFF,
        }
    }

    /// A digest with the reflected convention and a caller-supplied initial
    /// register value.
    pub fn new_with_initial(poly: u16, initial: u16) -> (d: Digest)
        ensures
            d.spec_table() == crc_table(poly as u64, true, 16),
            d.spec_initial() == initial,
            d.spec_value() == initial,
            d.spec_reflect() == true,
            d.spec_final_xor() == 0xFFFFu16,
    {
        Digest {
            table: make_table(poly, true),
            initial,
            value: initial,
            reflect: true,
            final_xor: 0xFFFF,
        }
    }

    /// A digest with every parameter supplied by the caller.
    pub fn new_custom(poly: u16, initial: u16, reflect: bool, final_xor: u16) -> (d: Digest)
        ensures
            d.spec_table() == crc_table(poly as u64, reflect, 16),
            d.spec_initial() == initial,
            d.spec_value() == initial,
            d.spec_reflect() == reflect,
            d.spec_final_xor() == final_xor,
    {
        Digest {
            table: make_table(poly, reflect),
            initial,
            value: initial,
            reflect,
            final_xor,
        }
    }
}

impl Hasher16 for Digest {
    closed spec fn spec_table(&self) -> Seq<u64> {
        seq16_to64(self.table@)
    }

    closed spec fn spec_initial(&self) -> u16 {
        self.initial
    }

    closed spec fn spec_value(&self) -> u16 {
        self.value
    }

    closed spec fn spec_reflect(&self) -> bool {
        self.reflect
    }

    closed spec fn spec_final_xor(&self) -> u16 {
        self.final_xor
    }

    fn reset(&mut self) {
        self.value = self.initial;
    }

    fn write(&mut self, bytes: &[u8]) {
        self.value = update(self.value, &self.table, bytes, self.reflect);
    }

    fn sum16(&self) -> u16 {
        self.value ^ self.final_xor
    }
}

/// After any writes, a reset digest reports the same sum as a freshly
/// constructed digest with the same parameters: both registers stand at the
/// initial value, so both sums are that value XORed with the final mask.
pub proof fn lemma_reset_restores_initial(d: Digest, fresh: Digest)
    requires
        d.spec_value() == d.spec_initial(),
        fresh.spec_value() == fresh.spec_initial(),
        d.spec_initial() == fresh.spec_initial(),
        d.spec_final_xor() == fresh.spec_final_xor(),
    ensures
        d.spec_value() ^ d.spec_final_xor() == fresh.spec_value() ^ fresh.spec_final_xor(),
{
}

} // verus!
