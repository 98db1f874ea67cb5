//! End-to-end exercises of the escrow creation processor against real
//! token-program data layouts and the real address derivation.

use solana_program::program_pack::Pack;
use solana_program::program_option::COption;
use solana_program::pubkey::Pubkey;
use spl_token::state::{Account as SplAccount, AccountState, Mint as SplMint};

use token_escrow::error::EscrowError;
use token_escrow::processor::process_create_escrow_account;
use token_escrow::state::{AccountView, EscrowAuthority};

fn pk(byte: u8) -> Vec<u8> {
    vec![byte; 32]
}

fn packed_mint(supply: u64, decimals: u8) -> Vec<u8> {
    let mint = SplMint {
        mint_authority: COption::None,
        supply,
        decimals,
        is_initialized: true,
        freeze_authority: COption::None,
    };
    let mut out = vec![0u8; SplMint::LEN];
    SplMint::pack(mint, &mut out).unwrap();
    out
}

fn packed_token_account(mint: &[u8], owner: &[u8], amount: u64) -> Vec<u8> {
    let account = SplAccount {
        mint: Pubkey::try_from(mint).unwrap(),
        owner: Pubkey::try_from(owner).unwrap(),
        amount,
        delegate: COption::None,
        state: AccountState::Initialized,
        is_native: COption::None,
        delegated_amount: 0,
        close_authority: COption::None,
    };
    let mut out = vec![0u8; SplAccount::LEN];
    SplAccount::pack(account, &mut out).unwrap();
    out
}

fn metadata_bytes(mint: &[u8]) -> Vec<u8> {
    let mut out = vec![4u8];
    out.extend_from_slice(&[7u8; 32]);
    out.extend_from_slice(mint);
    out.extend_from_slice(&[0u8; 10]);
    out
}

fn token_program_bytes() -> Vec<u8> {
    spl_token::id().to_bytes().to_vec()
}

/// The escrow address the ledger's scheme derives for a mint and an
/// authority-variant seed suffix, computed independently of the crate.
fn expected_derivation(program_id: &[u8], mint: &[u8], variant_seeds: &[&[u8]]) -> (Vec<u8>, u8) {
    let pid = Pubkey::try_from(program_id).unwrap();
    let mut seeds: Vec<&[u8]> = vec![b"metadata", program_id, mint];
    seeds.extend_from_slice(variant_seeds);
    seeds.push(b"escrow");
    let (key, bump) = Pubkey::find_program_address(&seeds, &pid);
    (key.to_bytes().to_vec(), bump)
}

struct Setup {
    program_id: Vec<u8>,
    accounts: Vec<AccountView>,
}

/// A fully valid seven-account list: non-fungible mint, matching
/// metadata and token account with balance one, payer signing, token
/// owner equal to the payer.
fn valid_setup() -> Setup {
    let program_id = pk(11);
    let mint_key = pk(22);
    let payer_key = pk(33);
    let (escrow_key, _bump) = expected_derivation(&program_id, &mint_key, &[&[0u8]]);
    let accounts = vec![
        AccountView { key: escrow_key, owner: pk(0), is_signer: false, data: vec![] },
        AccountView {
            key: pk(44),
            owner: program_id.clone(),
            is_signer: false,
            data: metadata_bytes(&mint_key),
        },
        AccountView {
            key: mint_key.clone(),
            owner: token_program_bytes(),
            is_signer: false,
            data: packed_mint(1, 0),
        },
        AccountView {
            key: pk(55),
            owner: token_program_bytes(),
            is_signer: false,
            data: packed_token_account(&mint_key, &payer_key, 1),
        },
        AccountView { key: pk(66), owner: program_id.clone(), is_signer: false, data: vec![6u8] },
        AccountView { key: payer_key, owner: pk(0), is_signer: true, data: vec![] },
        AccountView { key: vec![0u8; 32], owner: pk(0), is_signer: false, data: vec![] },
    ];
    Setup { program_id, accounts }
}

#[test]
fn creates_escrow_for_token_owner() {
    let s = valid_setup();
    let mint_key = pk(22);
    let (escrow_key, bump) = expected_derivation(&s.program_id, &mint_key, &[&[0u8]]);
    let outcome = process_create_escrow_account(&s.program_id, &s.accounts).unwrap();
    assert_eq!(outcome.escrow_address, escrow_key);
    assert_eq!(outcome.record.key, 10);
    assert_eq!(outcome.record.base_token, mint_key);
    assert_eq!(outcome.record.authority, EscrowAuthority::TokenOwner);
    assert_eq!(outcome.record.bump, bump);
    let mut expected_bytes = vec![10u8];
    expected_bytes.extend_from_slice(&mint_key);
    expected_bytes.push(0u8);
    expected_bytes.push(bump);
    assert_eq!(outcome.serialized, expected_bytes);
    let mut expected_seeds: Vec<Vec<u8>> = vec![
        b"metadata".to_vec(),
        s.program_id.clone(),
        mint_key,
        vec![0u8],
        b"escrow".to_vec(),
    ];
    expected_seeds.push(vec![bump]);
    assert_eq!(outcome.signer_seeds, expected_seeds);
}

#[test]
fn creates_escrow_for_explicit_authority() {
    let mut s = valid_setup();
    let mint_key = pk(22);
    let authority_key = pk(99);
    let (escrow_key, bump) =
        expected_derivation(&s.program_id, &mint_key, &[&[1u8], &authority_key]);
    s.accounts[0].key = escrow_key.clone();
    s.accounts.push(AccountView {
        key: authority_key.clone(),
        owner: pk(0),
        is_signer: true,
        data: vec![],
    });
    let outcome = process_create_escrow_account(&s.program_id, &s.accounts).unwrap();
    assert_eq!(outcome.escrow_address, escrow_key);
    assert_eq!(outcome.record.authority, EscrowAuthority::Creator(authority_key.clone()));
    assert_eq!(outcome.record.bump, bump);
    let mut expected_bytes = vec![10u8];
    expected_bytes.extend_from_slice(&mint_key);
    expected_bytes.push(1u8);
    expected_bytes.extend_from_slice(&authority_key);
    expected_bytes.push(bump);
    assert_eq!(outcome.serialized, expected_bytes);
}

#[test]
fn explicit_authority_equal_to_owner_resolves_token_owner() {
    let mut s = valid_setup();
    let mint_key = pk(22);
    // The token account's recorded owner is the payer; supply it as the
    // explicit authority too, so the variant resolves to the owner.
    let authority_key = pk(33);
    let (escrow_key, _bump) = expected_derivation(&s.program_id, &mint_key, &[&[0u8]]);
    s.accounts[0].key = escrow_key;
    s.accounts.push(AccountView {
        key: authority_key,
        owner: pk(0),
        is_signer: true,
        data: vec![],
    });
    let outcome = process_create_escrow_account(&s.program_id, &s.accounts).unwrap();
    assert_eq!(outcome.record.authority, EscrowAuthority::TokenOwner);
}

#[test]
fn distinct_creator_resolves_creator_variant() {
    let mut s = valid_setup();
    let mint_key = pk(22);
    // Token owner stays the payer, but a distinct explicit authority is
    // supplied: the variant must be the explicit creator.
    let authority_key = pk(77);
    let (escrow_key, _bump) =
        expected_derivation(&s.program_id, &mint_key, &[&[1u8], &authority_key]);
    s.accounts[0].key = escrow_key;
    s.accounts.push(AccountView {
        key: authority_key.clone(),
        owner: pk(0),
        is_signer: true,
        data: vec![],
    });
    let outcome = process_create_escrow_account(&s.program_id, &s.accounts).unwrap();
    assert_eq!(outcome.record.authority, EscrowAuthority::Creator(authority_key));
}

#[test]
fn derivation_is_deterministic_across_invocations() {
    let s = valid_setup();
    let first = process_create_escrow_account(&s.program_id, &s.accounts).unwrap();
    let second = process_create_escrow_account(&s.program_id, &s.accounts).unwrap();
    assert_eq!(first.escrow_address, second.escrow_address);
    assert_eq!(first.record.bump, second.record.bump);
    assert_eq!(first.serialized, second.serialized);
}

#[test]
fn wrong_account_count_rejected() {
    let s = valid_setup();
    let mut six = s.accounts.clone();
    six.pop();
    assert_eq!(
        process_create_escrow_account(&s.program_id, &six),
        Err(EscrowError::InvalidInstructionAccounts)
    );
    let mut nine = s.accounts.clone();
    nine.push(s.accounts[6].clone());
    nine.push(s.accounts[6].clone());
    assert_eq!(
        process_create_escrow_account(&s.program_id, &nine),
        Err(EscrowError::InvalidInstructionAccounts)
    );
}

#[test]
fn wrong_metadata_owner_rejected() {
    let mut s = valid_setup();
    s.accounts[1].owner = pk(250);
    assert_eq!(
        process_create_escrow_account(&s.program_id, &s.accounts),
        Err(EscrowError::IllegalOwner)
    );
}

#[test]
fn wrong_token_account_owner_rejected() {
    let mut s = valid_setup();
    s.accounts[3].owner = pk(250);
    assert_eq!(
        process_create_escrow_account(&s.program_id, &s.accounts),
        Err(EscrowError::IllegalOwner)
    );
}

#[test]
fn unsigned_payer_rejected() {
    let mut s = valid_setup();
    s.accounts[5].is_signer = false;
    assert_eq!(
        process_create_escrow_account(&s.program_id, &s.accounts),
        Err(EscrowError::MissingSignature)
    );
}

#[test]
fn malformed_metadata_rejected() {
    let mut s = valid_setup();
    s.accounts[1].data = vec![4u8, 0, 0];
    assert_eq!(
        process_create_escrow_account(&s.program_id, &s.accounts),
        Err(EscrowError::DataTypeMismatch)
    );
    s.accounts[1].data = metadata_bytes(&pk(22));
    s.accounts[1].data[0] = 9;
    assert_eq!(
        process_create_escrow_account(&s.program_id, &s.accounts),
        Err(EscrowError::DataTypeMismatch)
    );
}

#[test]
fn metadata_mint_mismatch_rejected() {
    let mut s = valid_setup();
    s.accounts[1].data = metadata_bytes(&pk(200));
    assert_eq!(
        process_create_escrow_account(&s.program_id, &s.accounts),
        Err(EscrowError::MintMismatch)
    );
}

#[test]
fn token_account_mint_mismatch_rejected() {
    let mut s = valid_setup();
    s.accounts[3].data = packed_token_account(&pk(200), &pk(33), 1);
    assert_eq!(
        process_create_escrow_account(&s.program_id, &s.accounts),
        Err(EscrowError::MintMismatch)
    );
}

#[test]
fn token_against_metadata_mismatch_rejected() {
    let mut s = valid_setup();
    // All three stores disagree pairwise only through the token account:
    // metadata and mint agree, the token account names another mint.
    let other = pk(201);
    s.accounts[3].data = packed_token_account(&other, &pk(33), 1);
    assert_eq!(
        process_create_escrow_account(&s.program_id, &s.accounts),
        Err(EscrowError::MintMismatch)
    );
}

#[test]
fn uninitialized_mint_rejected() {
    let mut s = valid_setup();
    let mut data = packed_mint(1, 0);
    data[45] = 0;
    s.accounts[2].data = data;
    assert_eq!(
        process_create_escrow_account(&s.program_id, &s.accounts),
        Err(EscrowError::Uninitialized)
    );
}

#[test]
fn uninitialized_token_account_rejected() {
    let mut s = valid_setup();
    let mut data = packed_token_account(&pk(22), &pk(33), 1);
    data[108] = 0;
    s.accounts[3].data = data;
    assert_eq!(
        process_create_escrow_account(&s.program_id, &s.accounts),
        Err(EscrowError::Uninitialized)
    );
}

#[test]
fn truncated_mint_data_rejected() {
    let mut s = valid_setup();
    s.accounts[2].data = vec![0u8; 40];
    assert_eq!(
        process_create_escrow_account(&s.program_id, &s.accounts),
        Err(EscrowError::Uninitialized)
    );
}

#[test]
fn truncated_token_account_data_rejected() {
    let mut s = valid_setup();
    let mut data = packed_token_account(&pk(22), &pk(33), 1);
    data.pop();
    s.accounts[3].data = data;
    assert_eq!(
        process_create_escrow_account(&s.program_id, &s.accounts),
        Err(EscrowError::Uninitialized)
    );
}

#[test]
fn fungible_supply_rejected() {
    let mut s = valid_setup();
    s.accounts[2].data = packed_mint(2, 0);
    assert_eq!(
        process_create_escrow_account(&s.program_id, &s.accounts),
        Err(EscrowError::MustBeNonFungible)
    );
}

#[test]
fn fungible_decimals_rejected() {
    let mut s = valid_setup();
    s.accounts[2].data = packed_mint(1, 6);
    assert_eq!(
        process_create_escrow_account(&s.program_id, &s.accounts),
        Err(EscrowError::MustBeNonFungible)
    );
}

#[test]
fn missing_edition_record_rejected() {
    let mut s = valid_setup();
    s.accounts[4].data = vec![];
    assert_eq!(
        process_create_escrow_account(&s.program_id, &s.accounts),
        Err(EscrowError::MustBeNonFungible)
    );
}

#[test]
fn wrongly_owned_edition_record_rejected() {
    let mut s = valid_setup();
    s.accounts[4].owner = pk(250);
    assert_eq!(
        process_create_escrow_account(&s.program_id, &s.accounts),
        Err(EscrowError::MustBeNonFungible)
    );
}

#[test]
fn fungible_rejected_whatever_the_balance() {
    let mut s = valid_setup();
    s.accounts[2].data = packed_mint(1000, 6);
    s.accounts[3].data = packed_token_account(&pk(22), &pk(33), 1000);
    assert_eq!(
        process_create_escrow_account(&s.program_id, &s.accounts),
        Err(EscrowError::MustBeNonFungible)
    );
}

#[test]
fn zero_balance_rejected() {
    let mut s = valid_setup();
    s.accounts[3].data = packed_token_account(&pk(22), &pk(33), 0);
    assert_eq!(
        process_create_escrow_account(&s.program_id, &s.accounts),
        Err(EscrowError::NotEnoughTokens)
    );
}

#[test]
fn balance_of_exactly_one_accepted() {
    let s = valid_setup();
    assert!(process_create_escrow_account(&s.program_id, &s.accounts).is_ok());
}

#[test]
fn wrong_escrow_address_rejected() {
    let mut s = valid_setup();
    s.accounts[0].key = pk(123);
    assert_eq!(
        process_create_escrow_account(&s.program_id, &s.accounts),
        Err(EscrowError::DerivedKeyInvalid)
    );
}

#[test]
fn escrow_address_of_other_variant_rejected() {
    let mut s = valid_setup();
    let mint_key = pk(22);
    // Address derived for the explicit-creator variant, while the
    // resolved variant is the token owner: not a valid derivation.
    let (other_variant_key, _bump) =
        expected_derivation(&s.program_id, &mint_key, &[&[1u8], &pk(33)]);
    s.accounts[0].key = other_variant_key;
    assert_eq!(
        process_create_escrow_account(&s.program_id, &s.accounts),
        Err(EscrowError::DerivedKeyInvalid)
    );
}

#[test]
fn token_program_id_matches_real_crate() {
    assert_eq!(token_escrow::spl::spl_token_program_id_bytes(), token_program_bytes());
}
