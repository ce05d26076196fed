use token_closer::address::Address;
use token_closer::instruction::{close_instruction, token_program, CloseInstruction};
use token_closer::submit::{describe, Confirmation, Failure, Submission};

fn payer() -> Address {
    Address { bytes: [11; 32] }
}

fn batch(count: u8) -> Vec<CloseInstruction> {
    (0..count)
        .map(|number| {
            close_instruction(&token_program(), &Address { bytes: [number; 32] }, &payer(), &payer())
                .unwrap()
        })
        .collect()
}

#[test]
fn transaction_carries_the_batch_in_order() {
    let submission = Submission::new(batch(15), payer());
    let transaction = submission.on_blockhash(Some([42; 32])).ok().unwrap();
    assert_eq!(transaction.instructions(), &batch(15));
    assert_eq!(transaction.payer(), payer());
    assert_eq!(transaction.recent_blockhash(), [42; 32]);
}

#[test]
fn missing_blockhash_fails_the_submission() {
    let submission = Submission::new(batch(3), payer());
    assert_eq!(submission.on_blockhash(None).err(), Some(Failure::Blockhash));
}

#[test]
fn confirmation_reports_the_signature() {
    let transaction = Submission::new(batch(1), payer()).on_blockhash(Some([1; 32])).ok().unwrap();
    assert_eq!(
        transaction.on_confirmation(Some([9; 64])),
        Ok(Confirmation { signature: [9; 64] })
    );
}

#[test]
fn missing_confirmation_fails_the_submission() {
    let transaction = Submission::new(batch(1), payer()).on_blockhash(Some([1; 32])).ok().unwrap();
    assert_eq!(transaction.on_confirmation(None), Err(Failure::Submission));
}

#[test]
fn failures_with_a_context_name_their_cause() {
    assert_eq!(
        describe(Failure::Blockhash, "timed out"),
        "Failed to get latest blockhash: timed out"
    );
    assert_eq!(
        describe(Failure::KeypairFile, "No such file"),
        "Failed to get keypair file: No such file"
    );
    assert_eq!(
        describe(Failure::TokenAccounts, "refused"),
        "Failed to get token accounts by owner: refused"
    );
    assert_eq!(
        describe(Failure::ParsePubkey, "Invalid Base58 string"),
        "Failed to parse pubkey: Invalid Base58 string"
    );
    assert_eq!(
        describe(Failure::Instruction, "wrong program"),
        "Failed to create close account instruction: wrong program"
    );
    assert_eq!(describe(Failure::Blockhash, ""), "Failed to get latest blockhash: ");
}

#[test]
fn missing_amount_has_no_cause() {
    assert_eq!(describe(Failure::Amount, "ignored"), "Could not parse amount");
}

#[test]
fn balance_and_submission_failures_name_their_step() {
    assert_eq!(
        describe(Failure::Balance, "account not found"),
        "Failed to get token account balance: account not found"
    );
    assert_eq!(
        describe(Failure::Submission, "blockhash expired"),
        "Failed to send and confirm transaction: blockhash expired"
    );
}

#[test]
fn every_failure_but_a_missing_amount_carries_its_cause() {
    let failures = [
        Failure::KeypairFile,
        Failure::TokenAccounts,
        Failure::ParsePubkey,
        Failure::Balance,
        Failure::Instruction,
        Failure::Blockhash,
        Failure::Submission,
    ];
    for failure in failures {
        let text = describe(failure, "the cause");
        assert!(text.ends_with(": the cause"));
        assert!(text.len() > ": the cause".len());
        assert_ne!(text, "the cause");
    }
    assert_eq!(describe(Failure::Amount, "the cause"), "Could not parse amount");
}

#[test]
fn failed_confirmation_is_reported_with_its_step_and_cause() {
    let transaction = Submission::new(batch(2), payer()).on_blockhash(Some([7; 32])).ok().unwrap();
    let failure = transaction.on_confirmation(None).unwrap_err();
    assert_eq!(
        describe(failure, "timed out"),
        "Failed to send and confirm transaction: timed out"
    );
}
