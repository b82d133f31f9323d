use boh::digest::{calc_digest, to_hex};

#[test]
fn digest_of_empty_input() {
    assert_eq!(
        calc_digest(b"").as_str(),
        "sha256:e3b0c44298fc1c149afbf4c8996fb92427ae41e4649b934ca495991b7852b855"
    );
}

#[test]
fn digest_of_known_bytes() {
    assert_eq!(
        calc_digest(b"abc").as_str(),
        "sha256:ba7816bf8f01cfea414140de5dae2223b00361a396177a9cb410ff61f20015ad"
    );
    assert_eq!(
        calc_digest(b"hello world").as_str(),
        "sha256:b94d27b9934d3e08a52e52d7da7dabfac484efe37a5380ee9088f7ace2efcde9"
    );
}

#[test]
fn digest_is_deterministic() {
    let bytes = b"{\"architecture\":\"amd64\",\"os\":\"linux\"}";
    assert_eq!(calc_digest(bytes), calc_digest(bytes));
}

#[test]
fn digests_differ_for_different_bytes() {
    assert_ne!(calc_digest(b"b1"), calc_digest(b"b2"));
    assert_ne!(calc_digest(b""), calc_digest(b" "));
}

#[test]
fn digest_shape() {
    let d = calc_digest(b"anything");
    assert_eq!(d.len(), 71);
    assert!(d.starts_with("sha256:"));
    assert!(d[7..].chars().all(|c| c.is_ascii_hexdigit() && !c.is_ascii_uppercase()));
}

#[test]
fn hex_encoding() {
    assert_eq!(to_hex(&[]).as_str(), "");
    assert_eq!(to_hex(&[0x00, 0x0f, 0xa5, 0xff]).as_str(), "000fa5ff");
}
