use keymint_hal::digest::{absent_digest, decode_digest, parse_digest, zero_digest_bytes};

const SAMPLE: &str = "0123456789abcdefABCDEF00ffFF10207f80819aA9e0E1c3d4b5a6f7e8d9cafe";

fn sample_bytes() -> Vec<u8> {
    vec![
        0x01, 0x23, 0x45, 0x67, 0x89, 0xab, 0xcd, 0xef, 0xab, 0xcd, 0xef, 0x00, 0xff, 0xff, 0x10,
        0x20, 0x7f, 0x80, 0x81, 0x9a, 0xa9, 0xe0, 0xe1, 0xc3, 0xd4, 0xb5, 0xa6, 0xf7, 0xe8, 0xd9,
        0xca, 0xfe,
    ]
}

#[test]
fn digest_is_read_high_digit_first_in_either_case() {
    assert_eq!(SAMPLE.len(), 64);
    assert_eq!(parse_digest(SAMPLE), Some(sample_bytes()));
    assert_eq!(decode_digest(SAMPLE), sample_bytes());
    assert_eq!(parse_digest(&SAMPLE.to_uppercase()), Some(sample_bytes()));
    assert_eq!(parse_digest(&SAMPLE.to_lowercase()), Some(sample_bytes()));
}

#[test]
fn digest_is_not_the_text_handed_back() {
    let decoded = decode_digest(SAMPLE);
    assert_ne!(decoded, SAMPLE.as_bytes().to_vec());
    assert_eq!(decoded.len(), 32);
    assert_eq!(decoded[0], 0x01);
    assert_eq!(decoded[31], 0xfe);
}

#[test]
fn digest_of_wrong_length_is_refused() {
    assert_eq!(parse_digest(""), None);
    assert_eq!(parse_digest("00"), None);
    assert_eq!(parse_digest(&SAMPLE[..62]), None);
    assert_eq!(parse_digest(&SAMPLE[..63]), None);
    assert_eq!(parse_digest(&format!("{}0", SAMPLE)), None);
    assert_eq!(parse_digest(&format!("{}00", SAMPLE)), None);
}

#[test]
fn digest_with_a_foreign_character_is_refused() {
    for bad in ["g", "G", " ", "-", "/", ":", "@", "`", "x", "\n"] {
        let text = format!("{}{}", &SAMPLE[..63], bad);
        assert_eq!(text.len(), 64);
        assert_eq!(parse_digest(&text), None, "for {:?}", bad);
        assert_eq!(decode_digest(&text), vec![0u8; 32]);
    }
    let text = format!("{}\u{e9}", &SAMPLE[..62]);
    assert_eq!(text.len(), 64);
    assert_eq!(parse_digest(&text), None);
}

#[test]
fn unreadable_digest_decodes_to_zeros() {
    assert_eq!(decode_digest(""), vec![0u8; 32]);
    assert_eq!(decode_digest("abc"), vec![0u8; 32]);
    assert_eq!(decode_digest("no digest here"), vec![0u8; 32]);
}

#[test]
fn absent_digest_is_sixty_four_zero_digits() {
    assert_eq!(absent_digest(), "00".repeat(32));
    assert_eq!(parse_digest(absent_digest()), Some(vec![0u8; 32]));
    assert_eq!(decode_digest(absent_digest()), vec![0u8; 32]);
    assert_eq!(zero_digest_bytes(), vec![0u8; 32]);
}
