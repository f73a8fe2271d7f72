use base64::engine::general_purpose::STANDARD;
use base64::{DecodeError, Engine};
use greco::b64::{char_is_whitespace, decode, strip_whitespace};
use greco::Error;

fn sample_payloads() -> Vec<Vec<u8>> {
    let mut payloads = vec![
        Vec::new(),
        vec![0],
        vec![0, 0],
        vec![0, 0, 0],
        vec![255],
        vec![255, 254, 253, 252],
        b"Hello".to_vec(),
        b"# Title\n\nSome *markdown* text.\n".to_vec(),
    ];
    let mut seed: u32 = 0x2545_f491;
    for length in 0..40usize {
        let mut bytes = Vec::new();
        for _ in 0..length {
            seed = seed.wrapping_mul(1_664_525).wrapping_add(1_013_904_223);
            bytes.push((seed >> 24) as u8);
        }
        payloads.push(bytes);
    }
    payloads
}

#[test]
fn decodes_a_plain_payload() {
    assert_eq!(decode("SGVsbG8=").unwrap(), b"Hello".to_vec());
    assert_eq!(decode("").unwrap(), Vec::<u8>::new());
    assert_eq!(decode("AA==").unwrap(), vec![0u8]);
    assert_eq!(decode("+/+/").unwrap(), vec![0xfb, 0xff, 0xbf]);
}

#[test]
fn decoding_does_not_hand_the_text_back() {
    let decoded = decode("QUJD").unwrap();
    assert_eq!(decoded, b"ABC".to_vec());
    assert_ne!(decoded, b"QUJD".to_vec());
}

#[test]
fn whitespace_in_a_payload_is_ignored() {
    assert_eq!(decode("SGVs\nbG8=\n").unwrap(), b"Hello".to_vec());
    assert_eq!(decode("  S G\tV s\r\nb G 8 =  ").unwrap(), b"Hello".to_vec());
    assert_eq!(decode("SG\u{a0}Vs\u{2003}bG\u{3000}8=\u{85}").unwrap(), b"Hello".to_vec());
    assert_eq!(decode(" \n\t ").unwrap(), Vec::<u8>::new());
}

#[test]
fn decoding_equals_decoding_of_the_stripped_payload() {
    for text in ["SGVs\nbG8=", " Q U J D ", "AA=\n=", "not base64", "SGVsbG8", "\n"] {
        let stripped = strip_whitespace(text);
        match (decode(text), decode(&stripped)) {
            (Ok(direct), Ok(of_stripped)) => assert_eq!(direct, of_stripped),
            (Err(Error::Base64(direct)), Err(Error::Base64(of_stripped))) => {
                assert_eq!(direct, of_stripped)
            }
            (direct, of_stripped) => panic!("{:?} differs from {:?}", direct, of_stripped),
        }
    }
}

#[test]
fn decoding_inverts_standard_encoding() {
    for payload in sample_payloads() {
        let encoded = STANDARD.encode(&payload);
        assert_eq!(decode(&encoded).unwrap(), payload);
    }
}

#[test]
fn decoding_inverts_standard_encoding_broken_into_lines() {
    for payload in sample_payloads() {
        let encoded = STANDARD.encode(&payload);
        let mut broken = String::new();
        for (position, c) in encoded.chars().enumerate() {
            if position % 3 == 0 {
                broken.push('\n');
            }
            if position % 5 == 0 {
                broken.push(' ');
            }
            broken.push(c);
        }
        broken.push_str("\r\n");
        assert_eq!(decode(&broken).unwrap(), payload);
    }
}

#[test]
fn a_character_outside_the_alphabet_is_refused() {
    match decode("SGVs!G8=") {
        Err(Error::Base64(cause)) => assert_eq!(cause, DecodeError::InvalidByte(4, b'!')),
        other => panic!("unexpected {:?}", other),
    }
    assert!(matches!(decode("SGVs-G8_"), Err(Error::Base64(_))));
    assert!(matches!(decode("SGVsbG8=é"), Err(Error::Base64(_))));
}

#[test]
fn the_position_of_a_bad_character_counts_no_whitespace() {
    match decode(" S G V s ! G 8 = ") {
        Err(Error::Base64(cause)) => assert_eq!(cause, DecodeError::InvalidByte(4, b'!')),
        other => panic!("unexpected {:?}", other),
    }
}

#[test]
fn missing_or_wrong_padding_is_refused() {
    assert!(matches!(decode("SGVsbG8"), Err(Error::Base64(DecodeError::InvalidPadding))));
    assert!(matches!(decode("SGVsbG8=="), Err(Error::Base64(_))));
    assert!(matches!(decode("SG=VsbG8"), Err(Error::Base64(_))));
    assert!(matches!(decode("===="), Err(Error::Base64(_))));
}

#[test]
fn a_payload_of_impossible_length_is_refused() {
    assert!(matches!(decode("SGVsb"), Err(Error::Base64(DecodeError::InvalidLength(_)))));
    assert!(matches!(decode("A"), Err(Error::Base64(_))));
}

#[test]
fn leftover_bits_in_the_last_symbol_are_refused() {
    assert!(matches!(
        decode("SGVsbG9="),
        Err(Error::Base64(DecodeError::InvalidLastSymbol(6, b'9')))
    ));
}

#[test]
fn stripping_removes_exactly_the_whitespace() {
    assert_eq!(strip_whitespace(" a b\tc\nd\r\ne "), "abcde");
    assert_eq!(strip_whitespace("\u{2028}x\u{2029}y\u{202f}z\u{205f}"), "xyz");
    assert_eq!(strip_whitespace("a\u{200b}b"), "a\u{200b}b");
    assert_eq!(strip_whitespace(""), "");
    assert_eq!(strip_whitespace("é = ü"), "é=ü");
}

#[test]
fn stripping_twice_is_stripping_once() {
    for text in [" a b ", "\n\n", "SGVs bG8=", "plain"] {
        let once = strip_whitespace(text);
        assert_eq!(strip_whitespace(&once), once);
    }
}

#[test]
fn whitespace_is_what_the_standard_library_calls_whitespace() {
    for code in 0..=0x10ffffu32 {
        if let Some(c) = char::from_u32(code) {
            assert_eq!(char_is_whitespace(c), c.is_whitespace(), "U+{:04X}", code);
        }
    }
}
