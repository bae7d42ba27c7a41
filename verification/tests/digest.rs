use sha2::Digest;
use sha2::Sha256;
use zapret_core::digest::calculate_sha256;
use zapret_core::digest::to_hex;

#[test]
fn to_hex_writes_two_lower_case_digits_for_each_byte() {
    assert_eq!(to_hex(&[]), "");
    assert_eq!(to_hex(&[0x00]), "00");
    assert_eq!(to_hex(&[0x0a, 0x14, 0x1e]), "0a141e");
    assert_eq!(to_hex(&[0xab, 0xcd, 0xef, 0x01, 0x90, 0xff]), "abcdef0190ff");
}

#[test]
fn to_hex_covers_every_byte() {
    for byte in 0u8..=255 {
        assert_eq!(to_hex(&[byte]), format!("{:02x}", byte));
    }
}

#[test]
fn calculate_sha256_of_known_contents() {
    assert_eq!(
        calculate_sha256(b"hello world"),
        "b94d27b9934d3e08a52e52d7da7dabfac484efe37a5380ee9088f7ace2efcde9"
    );
    assert_eq!(
        calculate_sha256(b""),
        "e3b0c44298fc1c149afbf4c8996fb92427ae41e4649b934ca495991b7852b855"
    );
    assert_eq!(
        calculate_sha256(b"abc"),
        "ba7816bf8f01cfea414140de5dae2223b00361a396177a9cb410ff61f20015ad"
    );
}

#[test]
fn calculate_sha256_is_not_the_content_itself() {
    let content = b"e3b0c44298fc1c149afbf4c8996fb92427ae41e4649b934ca495991b7852b855".to_vec();
    assert_ne!(calculate_sha256(&content).as_bytes(), &content[..]);
}

#[test]
fn calculate_sha256_agrees_with_the_formatted_hash() {
    let content: Vec<u8> = (0..5000u32).map(|i| (i * 31 % 251) as u8).collect();
    let mut hasher = Sha256::new();
    hasher.update(&content[..1234]);
    hasher.update(&content[1234..]);
    assert_eq!(calculate_sha256(&content), format!("{:x}", hasher.finalize()));
}

#[test]
fn calculate_sha256_tells_contents_apart() {
    assert_ne!(calculate_sha256(b"winws"), calculate_sha256(b"winwt"));
    assert_eq!(calculate_sha256(b"winws").len(), 64);
    assert_eq!(calculate_sha256(b"").len(), 64);
    assert_eq!(calculate_sha256(&vec![7u8; 100_000]).len(), 64);
}
