use joker::bytes_to_hex;
use joker::format_error;
use joker::format_println;
use joker::generate_hash;
use joker::generate_nonce;
use joker::str_starts_with;
use sha2::Digest;

#[test]
fn hash_of_empty_string() {
    assert_eq!(
        generate_hash(""),
        "e3b0c44298fc1c149afbf4c8996fb92427ae41e4649b934ca495991b7852b855"
    );
}

#[test]
fn hash_of_abc() {
    assert_eq!(
        generate_hash("abc"),
        "ba7816bf8f01cfea414140de5dae2223b00361a396177a9cb410ff61f20015ad"
    );
}

#[test]
fn hash_matches_direct_digest() {
    let input = "blockjoker-payload-xyz";
    let direct: String = sha2::Sha256::digest(input)
        .iter()
        .map(|b| format!("{:02x}", b))
        .collect();
    assert_eq!(generate_hash(input), direct);
}

#[test]
fn bytes_to_hex_pads_each_byte() {
    assert_eq!(bytes_to_hex(&vec![0x00u8, 0x1f, 0xff]), "001fff");
    assert_eq!(bytes_to_hex(&vec![]), "");
    assert_eq!(bytes_to_hex(&vec![0x0au8]), "0a");
}

#[test]
fn nonce_has_requested_length() {
    for len in [0usize, 1, 16, 48] {
        let n = generate_nonce(len);
        assert_eq!(n.len(), len);
    }
}

#[test]
fn nonce_draws_from_alphanumeric_alphabet() {
    for _ in 0..20 {
        let n = generate_nonce(48);
        assert!(n.chars().all(|c| c.is_ascii_alphanumeric()));
    }
}

#[test]
fn consecutive_nonces_share_no_state() {
    // Two draws of the same length are both well-formed; they are allowed
    // to differ and, at this length, in practice always do.
    let a = generate_nonce(48);
    let b = generate_nonce(48);
    assert_eq!(a.len(), 48);
    assert_eq!(b.len(), 48);
    assert_ne!(a, b);
}

#[test]
fn starts_with_agrees_with_std() {
    let cases = [
        ("abcdef", "abc"),
        ("abcdef", ""),
        ("abcdef", "abd"),
        ("ab", "abc"),
        ("", ""),
        ("0f3a", "0f"),
    ];
    for (s, p) in cases {
        assert_eq!(str_starts_with(s, p), s.starts_with(p));
    }
}

#[test]
fn formatted_lines_carry_name_and_message() {
    let line = format_println("Joker", "get mission: xyz");
    assert!(line.starts_with('['));
    assert!(line.ends_with("] [Joker]: get mission: xyz"));
    let err = format_error("Joker", "claim failed");
    assert!(err.starts_with('['));
    assert!(err.ends_with("] [Joker]: claim failed"));
}
