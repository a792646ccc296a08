use crc::crc32::{
    checksum_castagnoli, checksum_ieee, checksum_koopman, make_table, update, Digest, Hasher32,
    CASTAGNOLI, IEEE, KOOPMAN,
};

const CHECK: &[u8] = b"123456789";

#[test]
fn kat_ieee() {
    assert_eq!(checksum_ieee(CHECK), 0xCBF43926);
}

#[test]
fn kat_castagnoli() {
    assert_eq!(checksum_castagnoli(CHECK), 0xE3069283);
}

#[test]
fn kat_koopman() {
    assert_eq!(checksum_koopman(CHECK), 0x2D3DD0AE);
}

#[test]
fn kat_unreflected_bzip2() {
    // CRC-32/BZIP2: the IEEE polynomial with reflect=false, all-ones
    // initial value and final XOR.
    let mut d = Digest::new_custom(IEEE, 0xFFFF_FFFF, false, 0xFFFF_FFFF);
    d.write(CHECK);
    assert_eq!(d.sum32(), 0xFC891918);
}

#[test]
fn digest32_matches_oneshot() {
    let mut d = Digest::new(IEEE);
    d.write(CHECK);
    assert_eq!(d.sum32(), 0xCBF43926);
    let mut d = Digest::new_with_initial(CASTAGNOLI, 0xFFFF_FFFF);
    d.write(CHECK);
    assert_eq!(d.sum32(), 0xE3069283);
    let mut d = Digest::new_custom(KOOPMAN, 0xFFFF_FFFF, true, 0xFFFF_FFFF);
    d.write(CHECK);
    assert_eq!(d.sum32(), 0x2D3DD0AE);
}

#[test]
fn streaming32_split_equals_whole() {
    let mut whole = Digest::new(IEEE);
    whole.write(b"123456789");
    let mut split = Digest::new(IEEE);
    split.write(b"12");
    split.write(b"3456");
    split.write(b"789");
    assert_eq!(whole.sum32(), split.sum32());
}

#[test]
fn reset32_restores_initial() {
    let mut d = Digest::new(IEEE);
    d.write(b"anything at all");
    d.reset();
    assert_eq!(d.sum32(), Digest::new(IEEE).sum32());
}

#[test]
fn empty_input32_sums_to_initial_xor_final() {
    assert_eq!(checksum_ieee(b""), 0);
    assert_eq!(checksum_castagnoli(b""), 0);
    let d = Digest::new_custom(IEEE, 0x1234_5678, true, 0x0000_FFFF);
    assert_eq!(d.sum32(), 0x1234_5678 ^ 0x0000_FFFF);
}

#[test]
fn update32_with_explicit_table() {
    let table = make_table(IEEE, true);
    let r = update(0xFFFF_FFFF, &table, CHECK, true) ^ 0xFFFF_FFFF;
    assert_eq!(r, 0xCBF43926);
    assert_eq!(update(0xABCD_EF01, &table, b"", true), 0xABCD_EF01);
}
