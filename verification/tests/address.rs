use ix_service::address::Address;

const SAMPLE_TEXT: &str = "2gPihUTjt3FJqf1VpidgrY5cZ6PuyMccGVwQHRfjMPZG";
const SAMPLE_BYTES: [u8; 32] = [
    24, 243, 6, 223, 230, 153, 210, 8, 92, 137, 123, 67, 164, 197, 79, 196, 125, 43, 183, 85, 103,
    91, 232, 167, 73, 131, 104, 131, 0, 101, 214, 231,
];
const TOKEN_PROGRAM_TEXT: &str = "TokenkegQfeZyiNwAJbNbGKPFXCWuBvf9Ss623VQ5DA";
const TOKEN_PROGRAM_BYTES: [u8; 32] = [
    6, 221, 246, 225, 215, 101, 161, 147, 217, 203, 225, 70, 206, 235, 121, 172, 28, 180, 133, 237,
    95, 91, 55, 145, 58, 140, 245, 133, 126, 255, 0, 169,
];
const SYSTEM_PROGRAM_TEXT: &str = "11111111111111111111111111111111";

#[test]
fn decode_reads_a_known_address() {
    let addr = Address::decode(SAMPLE_TEXT).expect("a valid address");
    assert_eq!(addr.bytes, SAMPLE_BYTES);
    assert_eq!(addr.to_bytes(), SAMPLE_BYTES);
}

#[test]
fn encode_writes_a_known_address() {
    assert_eq!(Address::new(SAMPLE_BYTES).encode(), SAMPLE_TEXT);
    assert_eq!(Address::new(TOKEN_PROGRAM_BYTES).encode(), TOKEN_PROGRAM_TEXT);
}

#[test]
fn zero_bytes_are_thirty_two_ones() {
    assert_eq!(Address::new([0u8; 32]).encode(), SYSTEM_PROGRAM_TEXT);
    assert_eq!(Address::decode(SYSTEM_PROGRAM_TEXT).expect("valid").bytes, [0u8; 32]);
}

#[test]
fn leading_zero_bytes_become_leading_ones() {
    let mut bytes = [0u8; 32];
    bytes[31] = 1;
    let text = Address::new(bytes).encode();
    assert_eq!(text, "11111111111111111111111111111112");
    assert_eq!(Address::decode(&text).expect("valid").bytes, bytes);
}

#[test]
fn decode_inverts_encode() {
    let mut samples: Vec<[u8; 32]> = vec![[0u8; 32], [255u8; 32], SAMPLE_BYTES, TOKEN_PROGRAM_BYTES];
    for seed in 0u8..32 {
        let mut bytes = [0u8; 32];
        for (i, b) in bytes.iter_mut().enumerate() {
            *b = if i < seed as usize { 0 } else { seed.wrapping_mul(37).wrapping_add(i as u8 * 11) };
        }
        samples.push(bytes);
    }
    for bytes in samples {
        let text = Address::new(bytes).encode();
        let back = Address::decode(&text).expect("an encoded address decodes");
        assert_eq!(back.bytes, bytes);
    }
}

#[test]
fn encode_inverts_decode() {
    for text in [SAMPLE_TEXT, TOKEN_PROGRAM_TEXT, SYSTEM_PROGRAM_TEXT] {
        assert_eq!(Address::decode(text).expect("valid").encode(), text);
    }
}

#[test]
fn empty_text_is_rejected() {
    assert!(Address::decode("").is_err());
}

#[test]
fn text_of_the_wrong_length_is_rejected() {
    // 31 and 33 ones stand for 31 and 33 zero bytes.
    assert!(Address::decode("1111111111111111111111111111111").is_err());
    assert!(Address::decode("111111111111111111111111111111111").is_err());
    // A short number.
    assert!(Address::decode("abc").is_err());
    // 45 characters are more than any address has.
    assert!(Address::decode("2gPihUTjt3FJqf1VpidgrY5cZ6PuyMccGVwQHRfjMPZG2").is_err());
    // 44 characters can still spell a number of more than 32 bytes.
    assert!(Address::decode("zzzzzzzzzzzzzzzzzzzzzzzzzzzzzzzzzzzzzzzzzzzz").is_err());
}

#[test]
fn characters_outside_the_alphabet_are_rejected() {
    for bad in ['0', 'O', 'I', 'l', ' ', '-', '+', '/', 'é'] {
        let mut text = String::from(&SAMPLE_TEXT[..43]);
        text.push(bad);
        assert!(Address::decode(&text).is_err(), "{text}");
    }
    assert!(Address::decode("not-an-address").is_err());
}

#[test]
fn nothing_is_trimmed_or_folded() {
    assert!(Address::decode(" 2gPihUTjt3FJqf1VpidgrY5cZ6PuyMccGVwQHRfjMPZG").is_err());
    assert!(Address::decode("2gPihUTjt3FJqf1VpidgrY5cZ6PuyMccGVwQHRfjMPZG\n").is_err());
    let lower = SAMPLE_TEXT.to_lowercase();
    match Address::decode(&lower) {
        Ok(addr) => assert_ne!(addr.bytes, SAMPLE_BYTES),
        Err(_) => {}
    }
}

#[test]
fn an_extra_leading_one_is_rejected() {
    let mut text = String::from("1");
    text.push_str(TOKEN_PROGRAM_TEXT);
    assert!(Address::decode(&text).is_err());
}
