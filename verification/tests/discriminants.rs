use sha2::Digest;
use tx_assembly::digest::discriminant;

#[test]
fn discriminant_of_empty_input_is_sha256_prefix() {
    // The first eight bytes of the well-known sha-256 digest of the empty
    // string, e3b0c44298fc1c14...
    let d = discriminant(&[]);
    assert_eq!(d, vec![0xe3, 0xb0, 0xc4, 0x42, 0x98, 0xfc, 0x1c, 0x14]);
}

#[test]
fn discriminant_of_abc_is_sha256_prefix() {
    // The first eight bytes of the well-known sha-256 digest of "abc",
    // ba7816bf8f01cfea...
    let d = discriminant(b"abc");
    assert_eq!(d, vec![0xba, 0x78, 0x16, 0xbf, 0x8f, 0x01, 0xcf, 0xea]);
}

#[test]
fn discriminant_matches_direct_digest_of_call_name() {
    let full = sha2::Sha256::digest(b"global:initialize_user");
    let d = discriminant(b"global:initialize_user");
    assert_eq!(d.len(), 8);
    assert_eq!(&d[..], &full[..8]);
}

#[test]
fn discriminant_is_deterministic_and_input_sensitive() {
    let a = discriminant(b"global:stake");
    let b = discriminant(b"global:stake");
    let c = discriminant(b"global:unstake");
    assert_eq!(a, b);
    assert_ne!(a, c);
}
