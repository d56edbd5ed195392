use sha2::Digest;
use vault::hash::commitment_of;
use vault::hash::digests_equal;
use vault::hash::secret_matches;

#[test]
fn commitment_is_sha256_of_the_raw_bytes() {
    let expected: [u8; 32] = sha2::Sha256::digest(b"swordfish").into();
    assert_eq!(commitment_of(b"swordfish"), expected);
}

#[test]
fn commitment_matches_known_vector() {
    // SHA-256 of "abc", a published test vector.
    let expected: [u8; 32] = [
        0xba, 0x78, 0x16, 0xbf, 0x8f, 0x01, 0xcf, 0xea, 0x41, 0x41, 0x40, 0xde, 0x5d, 0xae,
        0x22, 0x23, 0xb0, 0x03, 0x61, 0xa3, 0x96, 0x17, 0x7a, 0x9c, 0xb4, 0x10, 0xff, 0x61,
        0xf2, 0x00, 0x15, 0xad,
    ];
    assert_eq!(commitment_of(b"abc"), expected);
}

#[test]
fn hashing_is_deterministic_across_invocations() {
    for secret in [&b"swordfish"[..], b"", b"a", b"open sesame"] {
        assert_eq!(commitment_of(secret), commitment_of(secret));
    }
}

#[test]
fn distinct_secrets_hash_differently() {
    let corpus: [&[u8]; 6] = [
        b"swordfish",
        b"Swordfish",
        b"swordfish\n",
        b"swordfish ",
        b"",
        b"open sesame",
    ];
    for (i, s1) in corpus.iter().enumerate() {
        for (j, s2) in corpus.iter().enumerate() {
            if i != j {
                assert_ne!(commitment_of(s1), commitment_of(s2));
            }
        }
    }
}

#[test]
fn secret_matches_its_own_commitment() {
    let commitment = commitment_of(b"swordfish");
    assert!(secret_matches(b"swordfish", &commitment));
    assert!(!secret_matches(b"Swordfish", &commitment));
    assert!(!secret_matches(b"swordfish\n", &commitment));
    assert!(!secret_matches(b"", &commitment));
}

#[test]
fn digests_equal_compares_every_byte() {
    let a = [3u8; 32];
    let mut b = [3u8; 32];
    assert!(digests_equal(&a, &b));
    b[31] = 4;
    assert!(!digests_equal(&a, &b));
    let mut c = [3u8; 32];
    c[0] = 4;
    assert!(!digests_equal(&a, &c));
}
