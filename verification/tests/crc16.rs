use crc::crc16::{checksum_usb, checksum_x25, make_table, update, Digest, Hasher16, USB, X25};

const CHECK: &[u8] = b"123456789";

#[test]
fn kat_x25() {
    assert_eq!(checksum_x25(CHECK), 0x906E);
}

#[test]
fn kat_usb() {
    assert_eq!(checksum_usb(CHECK), 0xB4C8);
}

#[test]
fn digest16_matches_oneshot() {
    let mut d = Digest::new(X25);
    d.write(CHECK);
    assert_eq!(d.sum16(), 0x906E);
    let mut d = Digest::new_with_initial(USB, 0xFFFF);
    d.write(CHECK);
    assert_eq!(d.sum16(), 0xB4C8);
    let mut d = Digest::new_custom(USB, 0xFFFF, true, 0xFFFF);
    d.write(CHECK);
    assert_eq!(d.sum16(), 0xB4C8);
}

#[test]
fn streaming16_split_equals_whole() {
    let mut whole = Digest::new(X25);
    whole.write(b"123456789");
    let mut split = Digest::new(X25);
    split.write(b"12345");
    split.write(b"6789");
    assert_eq!(whole.sum16(), split.sum16());
}

#[test]
fn reset16_restores_initial() {
    let mut d = Digest::new(X25);
    d.write(b"anything at all");
    d.reset();
    assert_eq!(d.sum16(), Digest::new(X25).sum16());
}

#[test]
fn empty_input16_sums_to_initial_xor_final() {
    assert_eq!(checksum_x25(b""), 0);
    assert_eq!(checksum_usb(b""), 0);
    let d = Digest::new_custom(X25, 0x1D0F, true, 0x00FF);
    assert_eq!(d.sum16(), 0x1D0F ^ 0x00FF);
}

#[test]
fn update16_with_explicit_table() {
    let table = make_table(X25, true);
    let r = update(0xFFFF, &table, CHECK, true) ^ 0xFFFF;
    assert_eq!(r, 0x906E);
    assert_eq!(update(0x1234, &table, b"", true), 0x1234);
}
