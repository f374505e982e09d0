//! Content hashing and hex rendering against externally known values.

use driver_scan::hashing::hash_bytes;
use driver_scan::hex::va_hex;

#[test]
fn sha256_of_empty_input() {
    let b: Vec<u8> = Vec::new();
    assert_eq!(
        hash_bytes(&b),
        "e3b0c44298fc1c149afbf4c8996fb92427ae41e4649b934ca495991b7852b855"
    );
}

#[test]
fn sha256_of_abc() {
    let b = b"abc".to_vec();
    assert_eq!(
        hash_bytes(&b),
        "ba7816bf8f01cfea414140de5dae2223b00361a396177a9cb410ff61f20015ad"
    );
}

#[test]
fn hash_is_content_addressed() {
    let b1 = vec![0u8, 1, 2, 3, 4, 5];
    let b2 = vec![0u8, 1, 2, 3, 4, 5];
    assert_eq!(hash_bytes(&b1), hash_bytes(&b2));
}

#[test]
fn single_bit_change_changes_hash() {
    let b1 = vec![0u8, 1, 2, 3, 4, 5];
    let mut b2 = b1.clone();
    b2[3] ^= 1;
    assert_ne!(hash_bytes(&b1), hash_bytes(&b2));
}

#[test]
fn va_renders_fixed_width_prefixed_hex() {
    assert_eq!(va_hex(0x1234), "0x0000000000001234");
    assert_eq!(va_hex(0), "0x0000000000000000");
    assert_eq!(va_hex(u64::MAX), "0xffffffffffffffff");
    assert_eq!(va_hex(0xfffff80000001000), "0xfffff80000001000");
}
