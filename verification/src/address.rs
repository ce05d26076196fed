//! Account addresses: their text form and the derivation of the associated
//! token account.

use crate::base58::{base58_bytes, is_base58};
use solana_sdk::pubkey::{ParsePubkeyError, Pubkey};
use std::str::FromStr;
use vstd::prelude::*;
use vstd::utf8::encode_utf8;

verus! {

/// The number of bytes in an address.
pub const ADDRESS_BYTES: usize = 32;

/// The longest text, in bytes, that is read as an address.
pub const MAX_ADDRESS_TEXT: usize = 44;

/// The address of an account, a mint or a program.
#[derive(Clone, Copy, Debug, PartialEq, Eq)]
pub struct Address {
    pub bytes: [u8; 32],
}

impl View for Address {
    type V = Seq<u8>;

    open spec fn view(&self) -> Seq<u8> {
        self.bytes@
    }
}

/// Why a text is no address.
#[derive(Clone, Copy, Debug, PartialEq, Eq)]
pub enum ParseAddressError {
    /// The text is too long, or does not stand for 32 bytes.
    WrongSize,
    /// The text is not base58.
    Invalid,
}

/// The address that a text stands for: the 32 bytes of its base58 decoding.
pub open spec fn address_of_text(text: Seq<char>) -> Result<Seq<u8>, ParseAddressError> {
    if encode_utf8(text).len() > MAX_ADDRESS_TEXT {
        Err(ParseAddressError::WrongSize)
    } else if !is_base58(text) {
        Err(ParseAddressError::Invalid)
    } else if base58_bytes(text).len() != ADDRESS_BYTES {
        Err(ParseAddressError::WrongSize)
    } else {
        Ok(base58_bytes(text))
    }
}

/// Whether `result` is what reading `text` as an address gives.
pub open spec fn parsed(text: Seq<char>, result: Result<Address, ParseAddressError>) -> bool {
    match result {
        Ok(address) => address_of_text(text) == Ok::<Seq<u8>, ParseAddressError>(address@),
        Err(error) => address_of_text(text) == Err::<Seq<u8>, ParseAddressError>(error),
    }
}

/// Calls `Pubkey::from_str`. It refuses a text of more than 44 bytes as of
/// the wrong size, decodes the rest as base58 with the default alphabet,
/// reports a failed decoding as invalid, and a decoding that is not 32 bytes
/// long as of the wrong size.
#[verifier::external_body]
fn pubkey_from_str(text: &str) -> (result: Result<Address, ParseAddressError>)
    ensures
        parsed(text@, result),
{
    match Pubkey::from_str(text) {
        Ok(key) => Ok(Address { bytes: key.to_bytes() }),
        Err(ParsePubkeyError::WrongSize) => Err(ParseAddressError::WrongSize),
        Err(ParsePubkeyError::Invalid) => Err(ParseAddressError::Invalid),
    }
}

/// Reads an address from its base58 text.
pub fn parse_address(text: &str) -> (result: Result<Address, ParseAddressError>)
    ensures
        parsed(text@, result),
        result is Ok <==> address_of_text(text@) is Ok,
        result is Ok ==> is_base58(text@) && text@.len() <= MAX_ADDRESS_TEXT,
{
    let result = pubkey_from_str(text);
    proof {
        if result is Ok {
            vstd::utf8::is_ascii_chars_encode_utf8(text@);
        }
    }
    result
}

/// The associated token account of a wallet for a mint under a token
/// program: the address that the derivation finds, if it finds one.
pub uninterp spec fn derived_address(
    owner: Seq<u8>,
    mint: Seq<u8>,
    token_program: Seq<u8>,
) -> Option<Seq<u8>>;

/// Calls `Pubkey::try_find_program_address` with the seeds of the associated
/// token account (wallet, token program, mint) under the associated token
/// program. The search hashes the seeds with each of 255 bump seeds in turn
/// and returns the first hash that is no point of the curve, or `None` when
/// every one of them is.
#[verifier::external_body]
fn try_find_address(
    owner: &Address,
    mint: &Address,
    token_program: &Address,
) -> (found: Option<Address>)
    ensures
        found is Some <==> derived_address(owner@, mint@, token_program@) is Some,
        found matches Some(address) ==> derived_address(owner@, mint@, token_program@) == Some(
            address@,
        ),
{
    let seeds: [&[u8]; 3] = [&owner.bytes, &token_program.bytes, &mint.bytes];
    match Pubkey::try_find_program_address(&seeds, &spl_associated_token_account::id()) {
        Some((key, _)) => Some(Address { bytes: key.to_bytes() }),
        None => None,
    }
}

/// Calls `get_associated_token_address_with_program_id`, which makes the same
/// search and panics where it finds nothing.
#[verifier::external_body]
fn get_associated_token_address(
    owner: &Address,
    mint: &Address,
    token_program: &Address,
) -> (address: Address)
    requires
        derived_address(owner@, mint@, token_program@) is Some,
    ensures
        derived_address(owner@, mint@, token_program@) == Some(address@),
{
    let key = spl_associated_token_account::get_associated_token_address_with_program_id(
        &Pubkey::new_from_array(owner.bytes),
        &Pubkey::new_from_array(mint.bytes),
        &Pubkey::new_from_array(token_program.bytes),
    );
    Address { bytes: key.to_bytes() }
}

/// Derives the associated token account of `owner` for `mint` under
/// `token_program`. The address depends on the three inputs alone: the same
/// inputs give the same address on every call.
pub fn associated_token_address(
    owner: &Address,
    mint: &Address,
    token_program: &Address,
) -> (address: Address)
    requires
        derived_address(owner@, mint@, token_program@) is Some,
    ensures
        derived_address(owner@, mint@, token_program@) == Some(address@),
{
    get_associated_token_address(owner, mint, token_program)
}

/// Derives the associated token account where the derivation finds one, and
/// returns `None` where it does not.
pub fn find_associated_token_address(
    owner: &Address,
    mint: &Address,
    token_program: &Address,
) -> (found: Option<Address>)
    ensures
        found is Some <==> derived_address(owner@, mint@, token_program@) is Some,
        found matches Some(address) ==> derived_address(owner@, mint@, token_program@) == Some(
            address@,
        ),
{
    match try_find_address(owner, mint, token_program) {
        Some(_) => Some(associated_token_address(owner, mint, token_program)),
        None => None,
    }
}

} // verus!
