use jdk_provision::digest::sha256_digest;
use jdk_provision::hex::hex_encode;
use jdk_provision::hex::hex_matches_ci;
use jdk_provision::integrity::verify;
use sha2::Digest;

fn hex_string(bytes: &[u8]) -> String {
    String::from_utf8(hex_encode(bytes)).unwrap()
}

#[test]
fn test_sha256_known_vector_abc() {
    let digest = sha256_digest(b"abc");
    assert_eq!(
        hex_string(&digest),
        "ba7816bf8f01cfea414140de5dae2223b00361a396177a9cb410ff61f20015ad"
    );
}

#[test]
fn test_sha256_known_vector_empty() {
    let digest = sha256_digest(b"");
    assert_eq!(
        hex_string(&digest),
        "e3b0c44298fc1c149afbf4c8996fb92427ae41e4649b934ca495991b7852b855"
    );
}

#[test]
fn test_sha256_agrees_with_direct_use() {
    let content = b"a staged artifact with some bytes in it";
    let streamed = sha256_digest(content);
    let mut hasher = sha2::Sha256::new();
    hasher.update(content.as_slice());
    let direct = hasher.finalize();
    assert_eq!(streamed.as_slice(), direct.as_slice());
}

#[test]
fn test_sha256_large_input_crosses_chunks() {
    // Longer than one 65536-byte chunk, so the streaming pass really feeds
    // more than one chunk.
    let content = vec![0xabu8; 70_000];
    let streamed = sha256_digest(&content);
    let mut hasher = sha2::Sha256::new();
    hasher.update(content.as_slice());
    let direct = hasher.finalize();
    assert_eq!(streamed.as_slice(), direct.as_slice());
}

#[test]
fn test_hex_matches_case_insensitively() {
    assert!(hex_matches_ci(b"AB12CDef", b"ab12cdEF"));
    assert!(!hex_matches_ci(b"ab12cdef", b"ab12cdee"));
    assert!(!hex_matches_ci(b"abc", b"abcd"));
    assert!(hex_matches_ci(b"", b""));
}

#[test]
fn test_hex_encode_renders_lower_case() {
    assert_eq!(hex_encode(&[0x00, 0x0f, 0xa5, 0xff]), b"000fa5ff".to_vec());
}

#[test]
fn test_verify_finds_first_match() {
    let content = b"artifact bytes";
    let digest_hex = hex_encode(&sha256_digest(content));
    let upper: Vec<u8> = digest_hex.iter().map(|b| b.to_ascii_uppercase()).collect();
    let expected = vec![vec![b'0'; 64], upper];
    let result = verify(content, &expected);
    assert_eq!(result.matched, Some(1));
    assert_eq!(result.computed, digest_hex);
}

#[test]
fn test_verify_reports_no_match() {
    let content = b"artifact bytes";
    let expected = vec![vec![b'0'; 64]];
    let result = verify(content, &expected);
    assert_eq!(result.matched, None);
}

#[test]
fn test_verify_is_deterministic() {
    // The same byte content always yields the same digest.
    let content = b"the same bytes twice";
    let expected: Vec<Vec<u8>> = Vec::new();
    let first = verify(content, &expected);
    let second = verify(content, &expected);
    assert_eq!(first.computed, second.computed);
    // Distinct contents: distinct digests (overwhelmingly likely, and true
    // for these two).
    let other = verify(b"different bytes", &expected);
    assert_ne!(first.computed, other.computed);
}

#[test]
fn test_verify_rejects_flipped_byte() {
    let mut content = b"a downloaded archive".to_vec();
    let published = hex_encode(&sha256_digest(&content));
    content[3] ^= 0x01;
    let result = verify(&content, &vec![published]);
    assert_eq!(result.matched, None);
}
