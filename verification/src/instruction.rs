//! The instruction that closes a token account.

use crate::address::Address;
use solana_sdk::program_error::ProgramError;
use solana_sdk::pubkey::Pubkey;
use vstd::prelude::*;

verus! {

/// One account that an instruction names, with what the instruction asks of
/// it.
#[derive(Clone, Copy, Debug, PartialEq, Eq)]
pub struct AccountMeta {
    pub address: Address,
    /// Whether the transaction must carry this account's signature.
    pub is_signer: bool,
    /// Whether the program may change the account.
    pub is_writable: bool,
}

/// What an [`AccountMeta`] says, over the bytes of its address.
pub struct AccountMetaView {
    pub address: Seq<u8>,
    pub is_signer: bool,
    pub is_writable: bool,
}

impl View for AccountMeta {
    type V = AccountMetaView;

    open spec fn view(&self) -> AccountMetaView {
        AccountMetaView {
            address: self.address@,
            is_signer: self.is_signer,
            is_writable: self.is_writable,
        }
    }
}

/// An instruction to the token program that closes one account and sends
/// the rent it held to a destination.
#[derive(Clone, Debug, PartialEq, Eq)]
pub struct CloseInstruction {
    pub program_id: Address,
    pub accounts: Vec<AccountMeta>,
    pub data: Vec<u8>,
}

/// What a [`CloseInstruction`] says.
pub struct CloseInstructionView {
    pub program_id: Seq<u8>,
    pub accounts: Seq<AccountMetaView>,
    pub data: Seq<u8>,
}

impl View for CloseInstruction {
    type V = CloseInstructionView;

    open spec fn view(&self) -> CloseInstructionView {
        CloseInstructionView {
            program_id: self.program_id@,
            accounts: self.accounts@.map_values(|meta: AccountMeta| meta@),
            data: self.data@,
        }
    }
}

/// Why no instruction was built.
#[derive(Clone, Copy, Debug, PartialEq, Eq)]
pub enum InstructionError {
    /// The program named is not the token program.
    IncorrectProgramId,
    /// The encoder failed for another reason.
    Other,
}

/// The tag of the close instruction in the token program's encoding.
pub const CLOSE_ACCOUNT_TAG: u8 = 9;

/// The address of the token program.
pub open spec fn token_program_id() -> Seq<u8> {
    seq![
        6u8, 221, 246, 225, 215, 101, 161, 147, 217, 203, 225, 70, 206, 235, 121, 172,
        28, 180, 133, 237, 95, 91, 55, 145, 58, 140, 245, 133, 126, 255, 0, 169,
    ]
}

/// The instruction that closes `account` on the authority of `owner` and
/// refunds its rent to `destination`: the account and the destination may
/// change, the owner signs.
pub open spec fn close_of(account: Seq<u8>, destination: Seq<u8>, owner: Seq<u8>) -> CloseInstructionView {
    CloseInstructionView {
        program_id: token_program_id(),
        accounts: seq![
            AccountMetaView { address: account, is_signer: false, is_writable: true },
            AccountMetaView { address: destination, is_signer: false, is_writable: true },
            AccountMetaView { address: owner, is_signer: true, is_writable: false },
        ],
        data: seq![CLOSE_ACCOUNT_TAG],
    }
}

/// What building the close instruction under `program` gives.
pub open spec fn built(
    program: Seq<u8>,
    account: Seq<u8>,
    destination: Seq<u8>,
    owner: Seq<u8>,
    result: Result<CloseInstruction, InstructionError>,
) -> bool {
    match result {
        Ok(instruction) => program == token_program_id() && instruction@ == close_of(
            account,
            destination,
            owner,
        ),
        Err(error) => program != token_program_id() && error
            == InstructionError::IncorrectProgramId,
    }
}

/// Returns `spl_token::id()`, the address that the token program is declared
/// under.
#[verifier::external_body]
fn spl_token_id() -> (program: Address)
    ensures
        program@ == token_program_id(),
{
    Address { bytes: spl_token::id().to_bytes() }
}

/// Calls `spl_token::instruction::close_account` without multisig signers.
/// It refuses every program but the token program, and else names the
/// account and the destination as writable, the owner as the one signer, and
/// packs the close tag as the only byte of data.
#[verifier::external_body]
fn spl_close_account(
    program: &Address,
    account: &Address,
    destination: &Address,
    owner: &Address,
) -> (result: Result<CloseInstruction, InstructionError>)
    ensures
        built(program@, account@, destination@, owner@, result),
{
    let keys = [program, account, destination, owner].map(|a| Pubkey::new_from_array(a.bytes));
    match spl_token::instruction::close_account(&keys[0], &keys[1], &keys[2], &keys[3], &[]) {
        Ok(made) => Ok(CloseInstruction {
            program_id: Address { bytes: made.program_id.to_bytes() },
            accounts: made.accounts.iter().map(|meta| AccountMeta {
                address: Address { bytes: meta.pubkey.to_bytes() },
                is_signer: meta.is_signer,
                is_writable: meta.is_writable,
            }).collect(),
            data: made.data,
        }),
        Err(ProgramError::IncorrectProgramId) => Err(InstructionError::IncorrectProgramId),
        Err(_) => Err(InstructionError::Other),
    }
}

/// The address of the token program.
pub fn token_program() -> (program: Address)
    ensures
        program@ == token_program_id(),
{
    spl_token_id()
}

/// Builds the instruction that closes `account`, with `owner` as the
/// authority and `destination` as the receiver of the rent. It is built
/// exactly when `program` is the token program.
pub fn close_instruction(
    program: &Address,
    account: &Address,
    destination: &Address,
    owner: &Address,
) -> (result: Result<CloseInstruction, InstructionError>)
    ensures
        built(program@, account@, destination@, owner@, result),
        result is Ok <==> program@ == token_program_id(),
{
    spl_close_account(program, account, destination, owner)
}

} // verus!
