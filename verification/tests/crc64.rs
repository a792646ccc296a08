use crc::bits::reverse_bits;
use crc::crc64::{checksum_ecma, checksum_iso, make_table, update, Digest, Hasher64, ECMA, ISO};

const CHECK: &[u8] = b"123456789";

#[test]
fn kat_ecma() {
    assert_eq!(checksum_ecma(CHECK), 0x995DC9BBDF1939FA);
}

#[test]
fn kat_iso() {
    assert_eq!(checksum_iso(CHECK), 0xB90956C775A41001);
}

#[test]
fn digest_matches_oneshot() {
    let mut d = Digest::new(ECMA);
    d.write(CHECK);
    assert_eq!(d.sum64(), 0x995DC9BBDF1939FA);
    let mut d = Digest::new(ISO);
    d.write(CHECK);
    assert_eq!(d.sum64(), 0xB90956C775A41001);
}

#[test]
fn digest_with_initial_matches_default() {
    let mut d = Digest::new_with_initial(ECMA, 0xFFFF_FFFF_FFFF_FFFF);
    d.write(CHECK);
    assert_eq!(d.sum64(), 0x995DC9BBDF1939FA);
}

#[test]
fn digest_custom_matches_default() {
    let mut d = Digest::new_custom(ECMA, 0xFFFF_FFFF_FFFF_FFFF, true, 0xFFFF_FFFF_FFFF_FFFF);
    d.write(CHECK);
    assert_eq!(d.sum64(), 0x995DC9BBDF1939FA);
}

#[test]
fn kat_unreflected_we() {
    // CRC-64/WE: the ECMA polynomial with reflect=false, all-ones initial
    // value and final XOR.
    let mut d = Digest::new_custom(ECMA, 0xFFFF_FFFF_FFFF_FFFF, false, 0xFFFF_FFFF_FFFF_FFFF);
    d.write(CHECK);
    assert_eq!(d.sum64(), 0x62EC59E3F1A4F00A);
}

#[test]
fn reflected_and_unreflected_differ_here() {
    let mut r = Digest::new_custom(ECMA, 0xFFFF_FFFF_FFFF_FFFF, true, 0xFFFF_FFFF_FFFF_FFFF);
    let mut n = Digest::new_custom(ECMA, 0xFFFF_FFFF_FFFF_FFFF, false, 0xFFFF_FFFF_FFFF_FFFF);
    r.write(CHECK);
    n.write(CHECK);
    assert_ne!(r.sum64(), n.sum64());
}

#[test]
fn streaming_split_equals_whole() {
    let mut whole = Digest::new(ECMA);
    whole.write(b"123456789");
    let mut split = Digest::new(ECMA);
    split.write(b"1234");
    split.write(b"56789");
    assert_eq!(whole.sum64(), split.sum64());
}

#[test]
fn streaming_byte_by_byte_equals_whole() {
    let mut whole = Digest::new(ECMA);
    whole.write(CHECK);
    let mut single = Digest::new(ECMA);
    for b in CHECK {
        single.write(&[*b]);
    }
    assert_eq!(whole.sum64(), single.sum64());
}

#[test]
fn sum_is_idempotent() {
    let mut d = Digest::new(ECMA);
    d.write(CHECK);
    let first = d.sum64();
    assert_eq!(d.sum64(), first);
    assert_eq!(d.sum64(), first);
}

#[test]
fn reset_restores_initial() {
    let mut d = Digest::new_custom(ECMA, 0x0123_4567_89AB_CDEF, true, 0xFF00_FF00_FF00_FF00);
    d.write(b"some bytes");
    d.write(b"more bytes");
    d.reset();
    let fresh = Digest::new_custom(ECMA, 0x0123_4567_89AB_CDEF, true, 0xFF00_FF00_FF00_FF00);
    assert_eq!(d.sum64(), fresh.sum64());
}

#[test]
fn empty_input_sums_to_initial_xor_final() {
    assert_eq!(checksum_ecma(b""), 0);
    assert_eq!(checksum_iso(b""), 0);
    let d = Digest::new_custom(ECMA, 0x0123_4567_89AB_CDEF, true, 0xFF00_FF00_FF00_FF00);
    assert_eq!(d.sum64(), 0x0123_4567_89AB_CDEF ^ 0xFF00_FF00_FF00_FF00);
    let mut e = Digest::new_custom(ECMA, 0x0123_4567_89AB_CDEF, false, 0);
    e.write(b"");
    assert_eq!(e.sum64(), 0x0123_4567_89AB_CDEF);
}

#[test]
fn table_is_deterministic() {
    let t1 = make_table(ECMA, true);
    let t2 = make_table(ECMA, true);
    for i in 0..256 {
        assert_eq!(t1[i], t2[i]);
    }
    let n1 = make_table(ECMA, false);
    let n2 = make_table(ECMA, false);
    for i in 0..256 {
        assert_eq!(n1[i], n2[i]);
    }
}

#[test]
fn reflected_table_mirrors_unreflected_table() {
    let t_r = make_table(ECMA, true);
    let t_n = make_table(ECMA, false);
    for b in 0..256u64 {
        let rb = reverse_bits(b, 8) as usize;
        assert_eq!(t_r[b as usize], reverse_bits(t_n[rb], 64));
    }
}

#[test]
fn update_folds_through_any_table() {
    // One-shot ECMA written out over the public pieces.
    let table = make_table(ECMA, true);
    let r = update(0xFFFF_FFFF_FFFF_FFFF, &table, CHECK, true) ^ 0xFFFF_FFFF_FFFF_FFFF;
    assert_eq!(r, 0x995DC9BBDF1939FA);
    // An empty slice leaves the value unchanged.
    assert_eq!(update(0xDEAD_BEEF, &table, b"", true), 0xDEAD_BEEF);
}

#[test]
fn table_entry_zero_unreflected_is_zero() {
    // Entry 0 of the unreflected construction is always 0.
    let t = make_table(ECMA, false);
    assert_eq!(t[0], 0);
}
