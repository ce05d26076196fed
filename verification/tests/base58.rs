use token_closer::base58::{decode_base58, DecodeError};

#[test]
fn decodes_the_greeting() {
    let bytes = decode_base58("2NEpo7TZRRrLZSi2U").unwrap();
    assert_eq!(bytes, vec![72, 101, 108, 108, 111, 32, 87, 111, 114, 108, 100, 33]);
    assert_eq!(bytes, b"Hello World!".to_vec());
}

#[test]
fn decoding_is_stable() {
    let first = decode_base58("2NEpo7TZRRrLZSi2U");
    let second = decode_base58("2NEpo7TZRRrLZSi2U");
    assert_eq!(first, second);
    assert!(first.is_ok());
}

#[test]
fn decoding_differs_from_the_text() {
    let text = "he11owor1d";
    let bytes = decode_base58(text).unwrap();
    assert_eq!(bytes, vec![0x04, 0x30, 0x5e, 0x2b, 0x24, 0x73, 0xf0, 0x58]);
    assert_ne!(bytes, text.as_bytes().to_vec());
}

#[test]
fn empty_text_decodes_to_nothing() {
    assert_eq!(decode_base58(""), Ok(vec![]));
}

#[test]
fn leading_ones_are_zero_bytes() {
    assert_eq!(decode_base58("1"), Ok(vec![0]));
    assert_eq!(decode_base58("111"), Ok(vec![0, 0, 0]));
    assert_eq!(decode_base58("112"), Ok(vec![0, 0, 1]));
}

#[test]
fn single_digits_decode_to_their_value() {
    assert_eq!(decode_base58("2"), Ok(vec![1]));
    assert_eq!(decode_base58("z"), Ok(vec![57]));
    assert_eq!(decode_base58("21"), Ok(vec![58]));
}

#[test]
fn zero_is_outside_the_alphabet() {
    assert_eq!(
        decode_base58("2NEp0"),
        Err(DecodeError::InvalidCharacter { character: '0', index: 4 })
    );
}

#[test]
fn the_first_character_outside_is_named() {
    assert_eq!(
        decode_base58("abOcIl"),
        Err(DecodeError::InvalidCharacter { character: 'O', index: 2 })
    );
    assert_eq!(
        decode_base58("l"),
        Err(DecodeError::InvalidCharacter { character: 'l', index: 0 })
    );
    assert_eq!(
        decode_base58("ab cd"),
        Err(DecodeError::InvalidCharacter { character: ' ', index: 2 })
    );
}

#[test]
fn a_character_outside_ascii_is_named_by_its_place() {
    assert_eq!(decode_base58("ab\u{e9}cd"), Err(DecodeError::NonAsciiCharacter { index: 2 }));
    assert_eq!(decode_base58("\u{1f600}"), Err(DecodeError::NonAsciiCharacter { index: 0 }));
}

#[test]
fn an_earlier_bad_character_wins() {
    assert_eq!(
        decode_base58("a0\u{e9}"),
        Err(DecodeError::InvalidCharacter { character: '0', index: 1 })
    );
    assert_eq!(decode_base58("a\u{e9}0"), Err(DecodeError::NonAsciiCharacter { index: 1 }));
}

#[test]
fn agrees_with_the_decoder() {
    for text in ["", "1", "2NEpo7TZRRrLZSi2U", "TokenkegQfeZyiNwAJbNbGKPFXCWuBvf9Ss623VQ5DA", "zzzz"] {
        assert_eq!(decode_base58(text).ok(), bs58::decode(text).into_vec().ok());
    }
}
