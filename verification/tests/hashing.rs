use plutonium_launcher::hashing::{check_digest, sha1_hex, verify_sha1};

#[test]
fn sha1_hex_of_known_inputs() {
    assert_eq!(sha1_hex(b"abc"), "a9993e364706816aba3e25717850c26c9cd0d89d");
    assert_eq!(sha1_hex(b""), "da39a3ee5e6b4b0d3255bfef95601890afd80709");
    assert_eq!(
        sha1_hex(b"hello world"),
        "2aae6c35c94fcfb415dbe95f408b9ce91ee846ed"
    );
}

#[test]
fn sha1_hex_is_forty_lowercase_hex_digits() {
    let h = sha1_hex(&[0xff, 0x00, 0x10, 0x7f]);
    assert_eq!(h.len(), 40);
    assert!(h.chars().all(|c| c.is_ascii_digit() || ('a'..='f').contains(&c)));
}

#[test]
fn verify_sha1_accepts_matching_hash() {
    assert!(verify_sha1(b"abc", "a9993e364706816aba3e25717850c26c9cd0d89d").is_ok());
}

#[test]
fn verify_sha1_reports_mismatch() {
    let err = verify_sha1(b"abd", "a9993e364706816aba3e25717850c26c9cd0d89d").unwrap_err();
    assert_eq!(err.expected, "a9993e364706816aba3e25717850c26c9cd0d89d");
    assert_eq!(err.actual, sha1_hex(b"abd"));
    assert_ne!(err.actual, err.expected);
}

#[test]
fn verify_sha1_is_case_sensitive() {
    assert!(verify_sha1(b"abc", "A9993E364706816ABA3E25717850C26C9CD0D89D").is_err());
}

#[test]
fn check_digest_compares_the_hex_encoding() {
    assert!(check_digest(&[0x00, 0xab, 0x10], "00ab10").is_ok());
    let err = check_digest(&[0x00, 0xab, 0x10], "00AB10").unwrap_err();
    assert_eq!(err.actual, "00ab10");
    assert_eq!(err.expected, "00AB10");
    assert!(check_digest(&[], "").is_ok());
    assert!(check_digest(&[0x0f], "f").is_err());
}
