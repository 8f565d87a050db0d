use router::crypto::{constant_time_eq, verify_hmac_sha256};

fn hex_bytes(hex: &str) -> Vec<u8> {
    (0..hex.len()).step_by(2).map(|i| u8::from_str_radix(&hex[i..i + 2], 16).unwrap()).collect()
}

#[test]
fn constant_time_eq_is_equality_of_byte_strings() {
    assert!(constant_time_eq(b"", b""));
    assert!(constant_time_eq(b"abc", b"abc"));
    assert!(!constant_time_eq(b"abc", b"abd"));
    assert!(!constant_time_eq(b"abc", b"xbc"));
    assert!(!constant_time_eq(b"abc", b"ab"));
    assert!(!constant_time_eq(b"", b"a"));
}

#[test]
fn verify_hmac_sha256_accepts_the_tag_of_a_known_vector() {
    // RFC 4231, test case 2.
    let tag = hex_bytes("5bdcc146bf60754e6a042426089575c75a003f089d2739839dec58b964ec3843");
    assert!(verify_hmac_sha256(b"Jefe", &tag, b"what do ya want for nothing?"));
}

#[test]
fn verify_hmac_sha256_rejects_anything_but_the_tag() {
    let tag = hex_bytes("5bdcc146bf60754e6a042426089575c75a003f089d2739839dec58b964ec3843");
    let mut flipped = tag.clone();
    flipped[31] ^= 1;
    assert!(!verify_hmac_sha256(b"Jefe", &flipped, b"what do ya want for nothing?"));
    assert!(!verify_hmac_sha256(b"Jefe", &tag[..31], b"what do ya want for nothing?"));
    assert!(!verify_hmac_sha256(b"Jefe", &tag, b"what do ya want for nothing"));
    assert!(!verify_hmac_sha256(b"jefe", &tag, b"what do ya want for nothing?"));
    assert!(!verify_hmac_sha256(b"Jefe", b"what do ya want for nothing?", &tag));
}
