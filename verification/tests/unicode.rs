use velocity_core::unicode::{decode_scalar, width_of_leading_byte, Utf8Decoder};

fn decode_all(bytes: &[u8]) -> Vec<char> {
    let mut decoder = Utf8Decoder::new();
    let mut out = Vec::new();
    for &b in bytes {
        if let Some(c) = decoder.decode_byte(b) {
            out.push(c);
        }
    }
    out
}

#[test]
fn ascii_comes_out_at_once() {
    let mut decoder = Utf8Decoder::new();
    assert_eq!(decoder.decode_byte(b'A'), Some('A'));
    assert_eq!(decoder.decode_byte(0x00), Some('\0'));
    assert_eq!(decoder.decode_byte(0x7F), Some('\u{7F}'));
    assert!(decoder.is_well_formed());
}

#[test]
fn longer_encodings_come_out_on_their_last_byte() {
    let mut decoder = Utf8Decoder::new();
    assert_eq!(decoder.decode_byte(0xC3), None);
    assert_eq!(decoder.decode_byte(0xA9), Some('é'));
    assert_eq!(decoder.decode_byte(0xE2), None);
    assert_eq!(decoder.decode_byte(0x82), None);
    assert_eq!(decoder.decode_byte(0xAC), Some('€'));
    assert_eq!(decoder.decode_byte(0xF0), None);
    assert_eq!(decoder.decode_byte(0x9F), None);
    assert!(decoder.is_well_formed());
    assert_eq!(decoder.decode_byte(0x98), None);
    assert_eq!(decoder.decode_byte(0x80), Some('😀'));
    assert_eq!(decoder.decode_byte(b'z'), Some('z'));
}

#[test]
fn strings_round_trip() {
    for text in [
        "",
        "Hello, World!",
        "naïve café",
        "€uro ∑ ≠ 日本語",
        "😀🎉 mixed ascii",
        "\u{80}\u{7FF}\u{800}\u{FFFF}\u{10000}\u{10FFFF}\u{D7FF}\u{E000}",
    ] {
        let decoded: String = decode_all(text.as_bytes()).into_iter().collect();
        assert_eq!(decoded, text);
    }
}

#[test]
fn every_scalar_round_trips() {
    let mut buffer = [0u8; 4];
    for n in (0..=0x10FFFFu32).step_by(7).chain([0x7F, 0x80, 0x7FF, 0x800, 0xFFFF, 0x10000, 0x10FFFF]) {
        if let Some(c) = char::from_u32(n) {
            let bytes = c.encode_utf8(&mut buffer).as_bytes();
            assert_eq!(decode_all(bytes), vec![c]);
            assert_eq!(width_of_leading_byte(bytes[0]) as usize, bytes.len());
            assert_eq!(decode_scalar(&bytes.to_vec()), c);
        }
    }
}

#[test]
fn bytes_that_begin_nothing_are_replaced_at_once() {
    for b in [0x80u8, 0xBF, 0xC0, 0xC1, 0xF5, 0xF7, 0xF8, 0xFF] {
        assert_eq!(width_of_leading_byte(b), 0);
        assert_eq!(decode_all(&[b, b'A']), vec!['\u{FFFD}', 'A'], "byte {:#x}", b);
    }
}

#[test]
fn leading_bytes_announce_their_width() {
    assert_eq!(width_of_leading_byte(0x00), 1);
    assert_eq!(width_of_leading_byte(0x7F), 1);
    assert_eq!(width_of_leading_byte(0xC2), 2);
    assert_eq!(width_of_leading_byte(0xDF), 2);
    assert_eq!(width_of_leading_byte(0xE0), 3);
    assert_eq!(width_of_leading_byte(0xEF), 3);
    assert_eq!(width_of_leading_byte(0xF0), 4);
    assert_eq!(width_of_leading_byte(0xF4), 4);
}

#[test]
fn malformed_encodings_give_the_replacement_character() {
    // A continuation byte is missing: the byte in its place is taken with the rest.
    assert_eq!(decode_all(&[0xC3, b'A', b'B']), vec!['\u{FFFD}', 'B']);
    // Longer than needed.
    assert_eq!(decode_all(&[0xE0, 0x80, 0x80, b'x']), vec!['\u{FFFD}', 'x']);
    assert_eq!(decode_all(&[0xF0, 0x80, 0x80, 0x80, b'x']), vec!['\u{FFFD}', 'x']);
    // A surrogate.
    assert_eq!(decode_all(&[0xED, 0xA0, 0x80, b'x']), vec!['\u{FFFD}', 'x']);
    // Above U+10FFFF.
    assert_eq!(decode_all(&[0xF4, 0x90, 0x80, 0x80, b'x']), vec!['\u{FFFD}', 'x']);
    // The decoder goes on afterwards.
    assert_eq!(decode_all(&[0xE2, 0x28, 0xA1, 0xC3, 0xA9]), vec!['\u{FFFD}', 'é']);
}

#[test]
fn decode_scalar_wants_exactly_one_scalar() {
    assert_eq!(decode_scalar(&vec![]), '\u{FFFD}');
    assert_eq!(decode_scalar(&vec![b'A']), 'A');
    assert_eq!(decode_scalar(&vec![b'A', b'B']), '\u{FFFD}');
    assert_eq!(decode_scalar(&vec![0xC3, 0xA9]), 'é');
    assert_eq!(decode_scalar(&vec![0xC3]), '\u{FFFD}');
    assert_eq!(decode_scalar(&vec![0xC3, 0xA9, 0xA9]), '\u{FFFD}');
    assert_eq!(decode_scalar(&vec![0xC0, 0x80]), '\u{FFFD}');
    assert_eq!(decode_scalar(&vec![0xC1, 0xBF]), '\u{FFFD}');
    assert_eq!(decode_scalar(&vec![0xE2, 0x82, 0xAC]), '€');
    assert_eq!(decode_scalar(&vec![0xEF, 0xBF, 0xBD]), '\u{FFFD}');
    assert_eq!(decode_scalar(&vec![0xF0, 0x9F, 0x98, 0x80]), '😀');
    assert_eq!(decode_scalar(&vec![0xF5, 0x80, 0x80, 0x80]), '\u{FFFD}');
    assert_eq!(decode_scalar(&vec![0xF0, 0x9F, 0x98, 0x80, 0x80]), '\u{FFFD}');
    assert_eq!(decode_scalar(&vec![0x80]), '\u{FFFD}');
}
