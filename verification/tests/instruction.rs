use solana_sdk::pubkey::Pubkey;
use token_closer::address::Address;
use token_closer::instruction::{
    close_instruction, token_program, AccountMeta, CloseInstruction, InstructionError,
    CLOSE_ACCOUNT_TAG,
};

fn address(byte: u8) -> Address {
    Address { bytes: [byte; 32] }
}

#[test]
fn token_program_is_the_declared_one() {
    assert_eq!(token_program().bytes, spl_token::id().to_bytes());
    assert_eq!(
        token_program().bytes,
        [
            6, 221, 246, 225, 215, 101, 161, 147, 217, 203, 225, 70, 206, 235, 121, 172, 28,
            180, 133, 237, 95, 91, 55, 145, 58, 140, 245, 133, 126, 255, 0, 169
        ]
    );
}

#[test]
fn close_tag_is_nine() {
    assert_eq!(CLOSE_ACCOUNT_TAG, 9);
}

#[test]
fn close_instruction_names_account_destination_and_owner() {
    let built = close_instruction(&token_program(), &address(1), &address(2), &address(3));
    assert_eq!(
        built,
        Ok(CloseInstruction {
            program_id: token_program(),
            accounts: vec![
                AccountMeta { address: address(1), is_signer: false, is_writable: true },
                AccountMeta { address: address(2), is_signer: false, is_writable: true },
                AccountMeta { address: address(3), is_signer: true, is_writable: false },
            ],
            data: vec![9],
        })
    );
}

#[test]
fn close_instruction_with_owner_as_destination() {
    let built = close_instruction(&token_program(), &address(7), &address(8), &address(8)).unwrap();
    assert_eq!(built.accounts.len(), 3);
    assert_eq!(built.accounts[0].address, address(7));
    assert_eq!(built.accounts[1].address, address(8));
    assert_eq!(built.accounts[2].address, address(8));
    assert!(built.accounts[1].is_writable && !built.accounts[1].is_signer);
    assert!(!built.accounts[2].is_writable && built.accounts[2].is_signer);
}

#[test]
fn another_program_is_refused() {
    assert_eq!(
        close_instruction(&address(1), &address(1), &address(2), &address(3)),
        Err(InstructionError::IncorrectProgramId)
    );
    let mut near = token_program();
    near.bytes[31] ^= 1;
    assert_eq!(
        close_instruction(&near, &address(1), &address(2), &address(3)),
        Err(InstructionError::IncorrectProgramId)
    );
}

#[test]
fn close_instruction_agrees_with_the_encoder() {
    let theirs = spl_token::instruction::close_account(
        &spl_token::id(),
        &Pubkey::new_from_array([4; 32]),
        &Pubkey::new_from_array([5; 32]),
        &Pubkey::new_from_array([6; 32]),
        &[],
    )
    .unwrap();
    let ours = close_instruction(&token_program(), &address(4), &address(5), &address(6)).unwrap();
    assert_eq!(ours.program_id.bytes, theirs.program_id.to_bytes());
    assert_eq!(ours.data, theirs.data);
    assert_eq!(ours.accounts.len(), theirs.accounts.len());
    for (mine, other) in ours.accounts.iter().zip(theirs.accounts.iter()) {
        assert_eq!(mine.address.bytes, other.pubkey.to_bytes());
        assert_eq!(mine.is_signer, other.is_signer);
        assert_eq!(mine.is_writable, other.is_writable);
    }
}
