//! Exercises of the instruction builder and the record encoder.

use token_escrow::instruction::{create_escrow_account, CREATE_ESCROW_ACCOUNT_OPCODE};
use token_escrow::state::{serialize_token_owned_escrow, EscrowAuthority, TokenOwnedEscrow};

fn pk(byte: u8) -> Vec<u8> {
    vec![byte; 32]
}

#[test]
fn builds_seven_account_instruction_without_authority() {
    let ix = create_escrow_account(pk(1), pk(2), pk(3), pk(4), pk(5), pk(6), pk(7), None);
    assert_eq!(ix.program_id, pk(1));
    assert_eq!(ix.data, vec![CREATE_ESCROW_ACCOUNT_OPCODE]);
    assert_eq!(ix.accounts.len(), 7);
    let expected_keys =
        vec![pk(2), pk(3), pk(4), pk(5), pk(6), pk(7), vec![0u8; 32]];
    for (meta, key) in ix.accounts.iter().zip(expected_keys.iter()) {
        assert_eq!(&meta.pubkey, key);
    }
    let writable: Vec<bool> = ix.accounts.iter().map(|m| m.is_writable).collect();
    assert_eq!(writable, vec![true, false, false, false, false, true, false]);
    let signer: Vec<bool> = ix.accounts.iter().map(|m| m.is_signer).collect();
    assert_eq!(signer, vec![false, false, false, false, false, true, false]);
}

#[test]
fn builds_eight_account_instruction_with_authority() {
    let ix = create_escrow_account(pk(1), pk(2), pk(3), pk(4), pk(5), pk(6), pk(7), Some(pk(8)));
    assert_eq!(ix.accounts.len(), 8);
    assert_eq!(ix.accounts[7].pubkey, pk(8));
    assert!(ix.accounts[7].is_signer);
    assert!(!ix.accounts[7].is_writable);
    assert_eq!(ix.data, vec![CREATE_ESCROW_ACCOUNT_OPCODE]);
}

#[test]
fn serializes_token_owner_record() {
    let record = TokenOwnedEscrow {
        key: 10,
        base_token: pk(9),
        authority: EscrowAuthority::TokenOwner,
        bump: 254,
    };
    let bytes = serialize_token_owned_escrow(&record);
    let mut expected = vec![10u8];
    expected.extend_from_slice(&pk(9));
    expected.push(0u8);
    expected.push(254u8);
    assert_eq!(bytes, expected);
    assert_eq!(bytes.len(), 35);
}

#[test]
fn serializes_creator_record() {
    let record = TokenOwnedEscrow {
        key: 10,
        base_token: pk(9),
        authority: EscrowAuthority::Creator(pk(12)),
        bump: 255,
    };
    let bytes = serialize_token_owned_escrow(&record);
    let mut expected = vec![10u8];
    expected.extend_from_slice(&pk(9));
    expected.push(1u8);
    expected.extend_from_slice(&pk(12));
    expected.push(255u8);
    assert_eq!(bytes, expected);
    assert_eq!(bytes.len(), 67);
}
