use crossterm_winapi::encode::decode_utf8;
use crossterm_winapi::encode::encode_utf16;

#[test]
fn decode_accepts_text_of_every_sequence_length() {
    let bytes = "a\u{e9}\u{20ac}\u{1f600}".as_bytes();
    let scalars = decode_utf8(bytes).unwrap();
    assert_eq!(scalars, vec![0x61, 0xE9, 0x20AC, 0x1F600]);
}

#[test]
fn decode_accepts_the_empty_buffer() {
    let scalars = decode_utf8(&[]).unwrap();
    assert!(scalars.is_empty());
}

#[test]
fn decode_rejects_a_lone_continuation_byte() {
    assert_eq!(decode_utf8(&[0x80]), None);
}

#[test]
fn decode_rejects_an_overlong_encoding() {
    assert_eq!(decode_utf8(&[0xC0, 0x80]), None);
    assert_eq!(decode_utf8(&[0xE0, 0x80, 0x80]), None);
    assert_eq!(decode_utf8(&[0xF0, 0x80, 0x80, 0x80]), None);
}

#[test]
fn decode_rejects_an_encoded_surrogate() {
    assert_eq!(decode_utf8(&[0xED, 0xA0, 0x80]), None);
    assert_eq!(decode_utf8(&[0xED, 0x9F, 0xBF]), Some(vec![0xD7FF]));
}

#[test]
fn decode_rejects_a_truncated_sequence() {
    assert_eq!(decode_utf8(&[0xE2, 0x82]), None);
    assert_eq!(decode_utf8(&[0xF0, 0x9F, 0x98]), None);
    assert_eq!(decode_utf8(&[0xC3]), None);
}

#[test]
fn decode_rejects_code_points_past_the_last_one() {
    assert_eq!(decode_utf8(&[0xF4, 0x90, 0x80, 0x80]), None);
    assert_eq!(decode_utf8(&[0xF5, 0x80, 0x80, 0x80]), None);
    assert_eq!(decode_utf8(&[0xF4, 0x8F, 0xBF, 0xBF]), Some(vec![0x10FFFF]));
}

#[test]
fn decode_agrees_with_the_host_validator_on_samples() {
    let samples: Vec<Vec<u8>> = vec![
        b"plain ascii".to_vec(),
        "gr\u{fc}n \u{2713} \u{1f980}".as_bytes().to_vec(),
        vec![0xC2, 0x80],
        vec![0xDF, 0xBF],
        vec![0xE1, 0x80, 0x80],
        vec![0xEF, 0xBF, 0xBF],
        vec![0xF1, 0x80, 0x80, 0x80],
        vec![0x41, 0x80],
        vec![0xC2, 0x41],
        vec![0xE0, 0x9F, 0xBF],
        vec![0xF0, 0x8F, 0xBF, 0xBF],
    ];
    for bytes in samples {
        assert_eq!(
            decode_utf8(&bytes).is_some(),
            std::str::from_utf8(&bytes).is_ok(),
            "disagreement on {:?}",
            bytes
        );
    }
}

#[test]
fn encode_splits_supplementary_scalars_into_surrogate_pairs() {
    let units = encode_utf16(&vec![0x61, 0x10000, 0x1F600, 0x10FFFF]);
    assert_eq!(
        units,
        vec![0x61, 0xD800, 0xDC00, 0xD83D, 0xDE00, 0xDBFF, 0xDFFF]
    );
}

#[test]
fn encode_agrees_with_the_host_encoder_on_a_sample() {
    let text = "a\u{e9}\u{20ac}\u{1f600} end";
    let scalars = decode_utf8(text.as_bytes()).unwrap();
    let units = encode_utf16(&scalars);
    let expected: Vec<u16> = text.encode_utf16().collect();
    assert_eq!(units, expected);
}
