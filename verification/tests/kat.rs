//! Known-answer helpers.
use usg_supplicant::kat::{
    from_hex, to_hex, HexError, EAP_PAYLOAD_IDENTITY, ERROR_2001, IDENTITY_TYPE_MACHINE,
    IDENTITY_TYPE_USER, RESULT_FAILURE, RESULT_SUCCESS,
};

#[test]
fn kat_hex_round_trips() {
    let all: Vec<u8> = (0u8..=255).collect();
    assert_eq!(from_hex(&to_hex(&all)), Ok(all));
    assert_eq!(to_hex(&[]), "");
    assert_eq!(to_hex(&[0x0f, 0xa0]), "0fa0");
}

#[test]
fn kat_hex_ignores_ascii_white_space() {
    assert_eq!(from_hex(" 0\t0 0\n7 d\r1\x0c"), Ok(vec![0x00, 0x07, 0xd1]));
    assert_eq!(from_hex("D1"), Ok(vec![0xd1]));
    assert_eq!(from_hex(""), Ok(vec![]));
}

#[test]
fn kat_hex_errors() {
    assert_eq!(from_hex("abc"), Err(HexError::OddLength));
    // A bad character is reported before an odd length, and the first one wins.
    assert_eq!(from_hex("abcg!"), Err(HexError::BadDigit('g')));
    // Vertical tab and no-break space are no ASCII white space.
    assert_eq!(from_hex("\x0b"), Err(HexError::BadDigit('\x0b')));
    assert_eq!(from_hex("\u{a0}00"), Err(HexError::BadDigit('\u{a0}')));
    assert_eq!(HexError::BadDigit('\'').message(), "invalid hex digit '\\''");
    assert_eq!(HexError::OddLength.message(), "hex string has an odd number of digits");
}

#[test]
fn tlv_vectors_are_canonical() {
    assert_eq!(to_hex(&RESULT_SUCCESS), "800300020001");
    assert_eq!(to_hex(&RESULT_FAILURE), "800300020002");
    assert_eq!(to_hex(&IDENTITY_TYPE_MACHINE), "800200020002");
    assert_eq!(to_hex(&IDENTITY_TYPE_USER), "800200020001");
    assert_eq!(to_hex(&ERROR_2001), "80050004000007d1");
    assert_eq!(to_hex(&EAP_PAYLOAD_IDENTITY), "800b00080201000801616200");
}
