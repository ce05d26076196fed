//! The submission of one batch: from the batch to a transaction, and from
//! the network's answer to a report or a failure. Each step consumes the
//! one before it, so that nothing is submitted twice and nothing is retried.

use crate::address::Address;
use crate::batch::{instruction_views, MAX_BATCH};
use crate::instruction::{CloseInstruction, CloseInstructionView};
use vstd::prelude::*;
use vstd::string::StringExecFns;

verus! {

/// Where a command failed.
#[derive(Clone, Copy, Debug, PartialEq, Eq)]
pub enum Failure {
    /// The wallet's key file could not be read.
    KeypairFile,
    /// The wallet's token accounts could not be listed.
    TokenAccounts,
    /// A listed account has no readable address.
    ParsePubkey,
    /// The balance of an account could not be fetched.
    Balance,
    /// The balance of an account has no amount.
    Amount,
    /// No close instruction could be built.
    Instruction,
    /// The latest block reference could not be fetched.
    Blockhash,
    /// The transaction was not submitted or not confirmed.
    Submission,
}

/// The short words that say where a command failed.
pub open spec fn context(failure: Failure) -> Seq<char> {
    match failure {
        Failure::KeypairFile => "Failed to get keypair file"@,
        Failure::TokenAccounts => "Failed to get token accounts by owner"@,
        Failure::ParsePubkey => "Failed to parse pubkey"@,
        Failure::Balance => "Failed to get token account balance"@,
        Failure::Amount => "Could not parse amount"@,
        Failure::Instruction => "Failed to create close account instruction"@,
        Failure::Blockhash => "Failed to get latest blockhash"@,
        Failure::Submission => "Failed to send and confirm transaction"@,
    }
}

/// The message that a failure is reported with: the context, and behind a
/// colon the cause. A missing amount has no cause to name and is reported by
/// its context alone.
pub open spec fn message(failure: Failure, cause: Seq<char>) -> Seq<char> {
    match failure {
        Failure::Amount => context(failure),
        _ => context(failure) + ": "@ + cause,
    }
}

/// Builds the message for a failure and its cause.
pub fn describe(failure: Failure, cause: &str) -> (text: String)
    ensures
        text@ == message(failure, cause@),
{
    let context = match failure {
        Failure::KeypairFile => "Failed to get keypair file",
        Failure::TokenAccounts => "Failed to get token accounts by owner",
        Failure::ParsePubkey => "Failed to parse pubkey",
        Failure::Balance => "Failed to get token account balance",
        Failure::Amount => "Could not parse amount",
        Failure::Instruction => "Failed to create close account instruction",
        Failure::Blockhash => "Failed to get latest blockhash",
        Failure::Submission => "Failed to send and confirm transaction",
    };
    let mut text = String::from_str(context);
    match failure {
        Failure::Amount => {},
        _ => {
            text.append(": ");
            text.append(cause);
        },
    }
    text
}

/// A batch that waits for a block reference.
pub struct Submission {
    instructions: Vec<CloseInstruction>,
    payer: Address,
}

/// What a [`Submission`] carries.
pub struct SubmissionView {
    pub instructions: Seq<CloseInstructionView>,
    pub payer: Seq<u8>,
}

impl View for Submission {
    type V = SubmissionView;

    closed spec fn view(&self) -> SubmissionView {
        SubmissionView { instructions: instruction_views(self.instructions@), payer: self.payer@ }
    }
}

/// A batch anchored to a block reference, ready to be signed by the payer
/// and submitted.
pub struct Transaction {
    instructions: Vec<CloseInstruction>,
    payer: Address,
    recent_blockhash: [u8; 32],
}

/// What a [`Transaction`] carries.
pub struct TransactionView {
    pub instructions: Seq<CloseInstructionView>,
    pub payer: Seq<u8>,
    pub recent_blockhash: Seq<u8>,
}

impl View for Transaction {
    type V = TransactionView;

    closed spec fn view(&self) -> TransactionView {
        TransactionView {
            instructions: instruction_views(self.instructions@),
            payer: self.payer@,
            recent_blockhash: self.recent_blockhash@,
        }
    }
}

/// How a submission ended: the signature of the confirmed transaction.
#[derive(Clone, Copy, Debug, PartialEq, Eq)]
pub struct Confirmation {
    pub signature: [u8; 64],
}

impl Submission {
    /// A submission never carries more than the cap.
    #[verifier::type_invariant]
    spec fn within_cap(self) -> bool {
        self.instructions@.len() <= MAX_BATCH
    }

    /// Takes a batch for submission, with the wallet as the payer.
    pub fn new(instructions: Vec<CloseInstruction>, payer: Address) -> (submission: Submission)
        requires
            instructions@.len() <= MAX_BATCH,
        ensures
            submission@.instructions == instruction_views(instructions@),
            submission@.payer == payer@,
    {
        Submission { instructions, payer }
    }

    /// Takes the outcome of fetching the latest block reference. With a
    /// reference the batch becomes a transaction that holds the same
    /// instructions in the same order; without one the submission fails.
    pub fn on_blockhash(self, fetched: Option<[u8; 32]>) -> (result: Result<Transaction, Failure>)
        ensures
            self@.instructions.len() <= MAX_BATCH,
            match (fetched, result) {
                (Some(blockhash), Ok(transaction)) => {
                    &&& transaction@.instructions == self@.instructions
                    &&& transaction@.payer == self@.payer
                    &&& transaction@.recent_blockhash == blockhash@
                },
                (None, Err(failure)) => failure == Failure::Blockhash,
                _ => false,
            },
    {
        proof {
            use_type_invariant(&self);
        }
        match fetched {
            Some(recent_blockhash) => Ok(
                Transaction { instructions: self.instructions, payer: self.payer, recent_blockhash },
            ),
            None => Err(Failure::Blockhash),
        }
    }
}

impl Transaction {
    /// A transaction never carries more than the cap.
    #[verifier::type_invariant]
    spec fn within_cap(self) -> bool {
        self.instructions@.len() <= MAX_BATCH
    }

    /// The instructions, in the order of the batch.
    pub fn instructions(&self) -> (instructions: &Vec<CloseInstruction>)
        ensures
            instruction_views(instructions@) == self@.instructions,
            instructions@.len() <= MAX_BATCH,
    {
        proof {
            use_type_invariant(self);
        }
        &self.instructions
    }

    /// The account that pays for the transaction and signs it.
    pub fn payer(&self) -> (payer: Address)
        ensures
            payer@ == self@.payer,
    {
        self.payer
    }

    /// The block reference that anchors the transaction.
    pub fn recent_blockhash(&self) -> (blockhash: [u8; 32])
        ensures
            blockhash@ == self@.recent_blockhash,
    {
        self.recent_blockhash
    }

    /// Takes the outcome of submitting the signed transaction and waiting
    /// for its confirmation: the signature to report, or the failure.
    pub fn on_confirmation(
        self,
        confirmed: Option<[u8; 64]>,
    ) -> (result: Result<Confirmation, Failure>)
        ensures
            match (confirmed, result) {
                (Some(signature), Ok(confirmation)) => confirmation.signature@ == signature@,
                (None, Err(failure)) => failure == Failure::Submission,
                _ => false,
            },
    {
        match confirmed {
            Some(signature) => Ok(Confirmation { signature }),
            None => Err(Failure::Submission),
        }
    }
}

} // verus!
