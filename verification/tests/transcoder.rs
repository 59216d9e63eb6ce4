use spire_save::decode_save;
use spire_save::encode_save;
use spire_save::round_trip;
use spire_save::DecodeError;

#[test]
fn known_vector_encode() {
    // "abc" XORed with "key" is [0x0A, 0x07, 0x1A], whose base64 is "Cgca".
    assert_eq!(encode_save(&[0x61, 0x62, 0x63]), "Cgca");
}

#[test]
fn known_vector_decode() {
    assert_eq!(decode_save("Cgca"), Ok(vec![0x61, 0x62, 0x63]));
}

#[test]
fn empty_encode() {
    assert_eq!(encode_save(&[]), "");
}

#[test]
fn empty_decode() {
    assert_eq!(decode_save(""), Ok(vec![]));
}

#[test]
fn single_byte_vector() {
    // 0x61 ^ 0x6B = 0x0A; one byte pads to "Cg==".
    assert_eq!(encode_save(&[0x61]), "Cg==");
    assert_eq!(decode_save("Cg=="), Ok(vec![0x61]));
}

#[test]
fn round_trip_all_byte_values() {
    let bytes: Vec<u8> = (0u8..=255).collect();
    let text = encode_save(&bytes);
    assert_eq!(decode_save(&text), Ok(bytes));
}

#[test]
fn round_trip_json_text() {
    let json = br#"{"gold": 99, "current_health": 68, "name": "IRONCLAD"}"#;
    let text = encode_save(json);
    assert_eq!(decode_save(&text), Ok(json.to_vec()));
}

#[test]
fn round_trip_function() {
    let bytes = vec![0x00, 0x6B, 0x65, 0x79, 0xFF, 0x10];
    assert_eq!(round_trip(&bytes), Ok(bytes));
}

#[test]
fn rejects_text_outside_alphabet() {
    assert_eq!(decode_save("!!!invalid!!!"), Err(DecodeError::InvalidByte(12, b'!')));
}

#[test]
fn rejects_non_ascii_text() {
    assert!(matches!(decode_save("\u{FF}\u{FF}"), Err(DecodeError::InvalidByte(_, _))));
}

#[test]
fn rejects_embedded_newline() {
    assert_eq!(decode_save("Cgca\n"), Err(DecodeError::InvalidByte(4, b'\n')));
}

#[test]
fn rejects_impossible_length() {
    assert_eq!(decode_save("A"), Err(DecodeError::InvalidLength(1)));
}

#[test]
fn rejects_missing_padding() {
    assert_eq!(decode_save("AA"), Err(DecodeError::InvalidPadding));
}

#[test]
fn rejects_nonzero_trailing_bits() {
    assert_eq!(decode_save("AB=="), Err(DecodeError::InvalidLastSymbol(1, b'B', 1)));
}
