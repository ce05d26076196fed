//! Decoding of base58 text into bytes.

use vstd::prelude::*;

verus! {

/// Why a text could not be decoded.
#[derive(Clone, Copy, Debug, PartialEq, Eq)]
pub enum DecodeError {
    /// The decoder ran out of room for its output.
    BufferTooSmall,
    /// An ASCII character outside the alphabet stands at `index`.
    InvalidCharacter { character: char, index: usize },
    /// A character outside ASCII starts at `index`.
    NonAsciiCharacter { index: usize },
}

/// Whether `c` belongs to the base58 alphabet: the digits and the Latin
/// letters without `0`, `O`, `I` and `l`.
pub open spec fn is_base58_char(c: char) -> bool {
    ||| '1' <= c <= '9'
    ||| 'A' <= c <= 'H'
    ||| 'J' <= c <= 'N'
    ||| 'P' <= c <= 'Z'
    ||| 'a' <= c <= 'k'
    ||| 'm' <= c <= 'z'
}

/// Whether every character of `text` belongs to the alphabet.
pub open spec fn is_base58(text: Seq<char>) -> bool {
    forall|i: int| 0 <= i < text.len() ==> is_base58_char(#[trigger] text[i])
}

/// Whether `index` is the place of the first character of `text` that is
/// outside the alphabet.
pub open spec fn rejected_at(text: Seq<char>, index: int) -> bool {
    &&& 0 <= index < text.len()
    &&& !is_base58_char(text[index])
    &&& is_base58(text.take(index))
}

/// The error reported for the character at `index`.
pub open spec fn rejection(text: Seq<char>, index: int) -> DecodeError {
    if text[index] > '\u{7f}' {
        DecodeError::NonAsciiCharacter { index: index as usize }
    } else {
        DecodeError::InvalidCharacter { character: text[index], index: index as usize }
    }
}

/// The bytes that a text over the alphabet stands for: the number that its
/// characters spell in base 58, most significant byte first, behind one zero
/// byte for each leading `1`.
pub uninterp spec fn base58_bytes(text: Seq<char>) -> Seq<u8>;

/// What decoding `text` gives.
pub open spec fn decoding(text: Seq<char>, result: Result<Vec<u8>, DecodeError>) -> bool {
    match result {
        Ok(bytes) => is_base58(text) && bytes@ == base58_bytes(text),
        Err(error) => exists|index: int|
            #[trigger] rejected_at(text, index) && error == rejection(text, index),
    }
}

/// Calls `bs58::decode(..).into_vec()` with the default alphabet. The decoder
/// walks the bytes of the text and stops at the first byte that is above 127
/// or outside the alphabet, naming it and its place; every character before
/// it is ASCII, so the place counts characters as well as bytes. Otherwise it
/// returns the decoded bytes, for which its buffer always has room.
#[verifier::external_body]
fn bs58_into_vec(text: &str) -> (result: Result<Vec<u8>, DecodeError>)
    ensures
        decoding(text@, result),
        result matches Ok(bytes) ==> bytes@ == base58_bytes(text@),
{
    match bs58::decode(text).into_vec() {
        Ok(bytes) => Ok(bytes),
        Err(bs58::decode::Error::InvalidCharacter { character, index }) => Err(
            DecodeError::InvalidCharacter { character, index },
        ),
        Err(bs58::decode::Error::NonAsciiCharacter { index }) => Err(
            DecodeError::NonAsciiCharacter { index },
        ),
        Err(_) => Err(DecodeError::BufferTooSmall),
    }
}

/// Decodes base58 text. The text is accepted exactly when all its characters
/// belong to the alphabet; otherwise the error names the first that does not.
pub fn decode_base58(text: &str) -> (result: Result<Vec<u8>, DecodeError>)
    ensures
        decoding(text@, result),
        result is Ok <==> is_base58(text@),
{
    let result = bs58_into_vec(text);
    proof {
        if let Err(error) = result {
            let index = choose|index: int|
                #[trigger] rejected_at(text@, index) && error == rejection(text@, index);
            assert(!is_base58_char(text@[index]));
        }
    }
    result
}

} // verus!
