//! The escrow creation processor: validates the supplied accounts,
//! resolves the escrow authority, derives the escrow address and builds
//! the record to persist.
//!
//! The account list is a positional parameter list. Its fixed order is:
//! escrow, metadata, mint, token account, edition, payer, system
//! allocator, then optionally one explicit authority. The processor is
//! pure: it returns the derived outcome (record, bytes, signer seeds)
//! and leaves allocation and the write-through to the runtime shell,
//! which performs them atomically as the only state-mutating steps.

use vstd::prelude::*;

use crate::error::EscrowError;
use crate::pda::{
    escrow_derivation, escrow_seeds_model, find_escrow_seeds, try_find_program_address,
};
use crate::spl::{
    le_bytes_value, mint_bytes_ok, spl_token_program_id, spl_token_program_id_bytes,
    token_account_bytes_ok, unpack_mint, unpack_token_account,
};
use crate::state::{
    copy_bytes, bytes_eq, serialize_token_owned_escrow, serialized_record, AccountView,
    AuthorityModel, EscrowAuthority, RecordModel, TokenOwnedEscrow, EDITION_V1_KEY,
    ESCROW_RECORD_KEY, MASTER_EDITION_V1_KEY, MASTER_EDITION_V2_KEY, METADATA_RECORD_KEY,
};

verus! {

/// Classification of a mint's asset kind.
#[derive(Clone, Copy, Debug, PartialEq, Eq, Structural)]
pub enum TokenStandard {
    /// A unique asset: supply one, zero decimals, with a valid edition
    /// record as evidence.
    NonFungible,
    /// Anything else.
    Fungible,
}

/// Whether the bytes begin a metadata record: at least the fixed prefix
/// (discriminant, update authority, mint) with the metadata discriminant.
pub open spec fn metadata_bytes_ok(d: Seq<u8>) -> bool {
    d.len() >= 65 && d[0] == METADATA_RECORD_KEY
}

/// The mint address stored in a metadata record: bytes 33..65, after the
/// discriminant and the update authority.
pub open spec fn metadata_stored_mint(d: Seq<u8>) -> Seq<u8> {
    d.subrange(33, 65)
}

/// Read the stored mint out of a metadata record's bytes.
pub fn metadata_record_mint(data: &Vec<u8>) -> (r: Option<Vec<u8>>)
    ensures
        r is Some <==> metadata_bytes_ok(data@),
        r matches Some(m) ==> m@ == metadata_stored_mint(data@),
{
    if data.len() < 65 || data[0] != METADATA_RECORD_KEY {
        return None;
    }
    let mut m: Vec<u8> = Vec::new();
    let mut i: usize = 33;
    while i < 65
        invariant
            33 <= i <= 65,
            data@.len() >= 65,
            m@ == data@.subrange(33, i as int),
        decreases 65 - i,
    {
        m.push(data[i]);
        i += 1;
        proof {
            assert(m@ =~= data@.subrange(33, i as int));
        }
    }
    Some(m)
}

/// Whether an account holds a valid edition record of this program: it
/// is owned by the program and tagged as an edition or master edition.
pub open spec fn edition_record_ok(program_id: Seq<u8>, edition: AccountView) -> bool {
    &&& edition.owner@ == program_id
    &&& edition.data@.len() >= 1
    &&& (edition.data@[0] == EDITION_V1_KEY || edition.data@[0] == MASTER_EDITION_V1_KEY
        || edition.data@[0] == MASTER_EDITION_V2_KEY)
}

/// The asset kind of a mint whose bytes parse: non-fungible exactly when
/// the supply is one, the decimals are zero and the edition account
/// holds a valid edition record.
pub open spec fn classify_model(program_id: Seq<u8>, mint_data: Seq<u8>, edition: AccountView) -> TokenStandard {
    if le_bytes_value(mint_data.subrange(36, 44)) == 1 && mint_data[44] == 0
        && edition_record_ok(program_id, edition) {
        TokenStandard::NonFungible
    } else {
        TokenStandard::Fungible
    }
}

/// Classify a mint using the mint account's bytes and the edition
/// account. Fails when the mint bytes do not parse or the mint is not
/// initialized.
pub fn check_token_standard(program_id: &Vec<u8>, mint: &AccountView, edition: &AccountView) -> (r:
    Result<TokenStandard, EscrowError>)
    ensures
        r matches Ok(s) ==> mint_bytes_ok(mint.data@) && mint.data@[45] == 1 && s
            == classify_model(program_id@, mint.data@, *edition),
        r matches Err(e) ==> e == EscrowError::Uninitialized && !(mint_bytes_ok(mint.data@)
            && mint.data@[45] == 1),
{
    let parsed = match unpack_mint(&mint.data) {
        Option::Some(m) => m,
        Option::None => {
            return Err(EscrowError::Uninitialized);
        }
    };
    if !parsed.initialized {
        return Err(EscrowError::Uninitialized);
    }
    let unique = parsed.supply == 1 && parsed.decimals == 0;
    let edition_ok = bytes_eq(&edition.owner, program_id) && edition.data.len() >= 1 && (
    edition.data[0] == EDITION_V1_KEY || edition.data[0] == MASTER_EDITION_V1_KEY
        || edition.data[0] == MASTER_EDITION_V2_KEY);
    if unique && edition_ok {
        Ok(TokenStandard::NonFungible)
    } else {
        Ok(TokenStandard::Fungible)
    }
}

/// Mathematical model of a successful creation outcome.
pub struct OutcomeModel {
    /// The mint the escrow is bound to.
    pub mint: Seq<u8>,
    /// The resolved authority variant.
    pub authority: AuthorityModel,
    /// The bump that made the derivation valid.
    pub bump: u8,
    /// The derived escrow address (equal to the supplied one).
    pub escrow_address: Seq<u8>,
    /// The record's persisted binary form.
    pub serialized: Seq<u8>,
    /// The full seed-plus-bump proof for the allocation.
    pub signer_seeds: Seq<Seq<u8>>,
}

/// Whether the account list has one of its two legal shapes: seven
/// accounts, or eight with an explicit authority.
pub open spec fn intake_ok(accounts: Seq<AccountView>) -> bool {
    accounts.len() == 7 || accounts.len() == 8
}

/// Whether the metadata account is owned by this program and the mint
/// and token accounts by the token program.
pub open spec fn owners_ok(program_id: Seq<u8>, accounts: Seq<AccountView>) -> bool {
    &&& accounts[1].owner@ == program_id
    &&& accounts[2].owner@ == spl_token_program_id()
    &&& accounts[3].owner@ == spl_token_program_id()
}

/// Whether the payer signed.
pub open spec fn payer_signed(accounts: Seq<AccountView>) -> bool {
    accounts[5].is_signer
}

/// Whether the mint account's bytes parse and the mint is initialized.
pub open spec fn mint_ready(accounts: Seq<AccountView>) -> bool {
    mint_bytes_ok(accounts[2].data@) && accounts[2].data@[45] == 1
}

/// Whether the token account's bytes parse and the account is
/// initialized.
pub open spec fn token_ready(accounts: Seq<AccountView>) -> bool {
    token_account_bytes_ok(accounts[3].data@) && accounts[3].data@[108] != 0
}

/// The mint recorded in the token account: bytes 0..32 of its data.
pub open spec fn token_stored_mint(accounts: Seq<AccountView>) -> Seq<u8> {
    accounts[3].data@.subrange(0, 32)
}

/// The owner recorded in the token account: bytes 32..64 of its data.
pub open spec fn token_stored_owner(accounts: Seq<AccountView>) -> Seq<u8> {
    accounts[3].data@.subrange(32, 64)
}

/// The balance recorded in the token account: the little-endian value
/// of bytes 64..72 of its data.
pub open spec fn token_balance(accounts: Seq<AccountView>) -> nat {
    le_bytes_value(accounts[3].data@.subrange(64, 72))
}

/// The effective creator principal: the explicit authority when one was
/// supplied, else the payer.
pub open spec fn creator_key_model(accounts: Seq<AccountView>) -> Seq<u8> {
    if accounts.len() == 8 {
        accounts[7].key@
    } else {
        accounts[5].key@
    }
}

/// The resolved authority variant: the token owner when the token
/// account's recorded owner equals the effective creator, else the
/// explicit creator.
pub open spec fn resolved_authority_model(accounts: Seq<AccountView>) -> AuthorityModel {
    if token_stored_owner(accounts) == creator_key_model(accounts) {
        AuthorityModel::TokenOwner
    } else {
        AuthorityModel::Creator(creator_key_model(accounts))
    }
}

/// Whether every check before the balance check passes.
pub open spec fn balance_stage_reached(program_id: Seq<u8>, accounts: Seq<AccountView>) -> bool {
    &&& intake_ok(accounts)
    &&& owners_ok(program_id, accounts)
    &&& payer_signed(accounts)
    &&& metadata_bytes_ok(accounts[1].data@)
    &&& metadata_stored_mint(accounts[1].data@) == accounts[2].key@
    &&& mint_ready(accounts)
    &&& classify_model(program_id, accounts[2].data@, accounts[4]) == TokenStandard::NonFungible
    &&& token_ready(accounts)
    &&& token_stored_mint(accounts) == accounts[2].key@
}

/// The whole validation, resolution and derivation pipeline, as a
/// function of the program identity and the supplied account list. The
/// checks are ordered; the first violated one names the error.
pub open spec fn process_model(program_id: Seq<u8>, accounts: Seq<AccountView>) -> Result<
    OutcomeModel,
    EscrowError,
> {
    if !intake_ok(accounts) {
        Err(EscrowError::InvalidInstructionAccounts)
    } else if !owners_ok(program_id, accounts) {
        Err(EscrowError::IllegalOwner)
    } else if !payer_signed(accounts) {
        Err(EscrowError::MissingSignature)
    } else if !metadata_bytes_ok(accounts[1].data@) {
        Err(EscrowError::DataTypeMismatch)
    } else if metadata_stored_mint(accounts[1].data@) != accounts[2].key@ {
        Err(EscrowError::MintMismatch)
    } else if !mint_ready(accounts) {
        Err(EscrowError::Uninitialized)
    } else if classify_model(program_id, accounts[2].data@, accounts[4])
        != TokenStandard::NonFungible {
        Err(EscrowError::MustBeNonFungible)
    } else if !token_ready(accounts) {
        Err(EscrowError::Uninitialized)
    } else if token_stored_mint(accounts) != accounts[2].key@ {
        Err(EscrowError::MintMismatch)
    } else if token_balance(accounts) < 1 {
        Err(EscrowError::NotEnoughTokens)
    } else if token_stored_mint(accounts) != metadata_stored_mint(accounts[1].data@) {
        Err(EscrowError::MintMismatch)
    } else {
        let variant = resolved_authority_model(accounts);
        match escrow_derivation(program_id, accounts[2].key@, variant) {
            Option::None => Err(EscrowError::DerivedKeyInvalid),
            Option::Some(p) => if p.0 != accounts[0].key@ {
                Err(EscrowError::DerivedKeyInvalid)
            } else {
                Ok(
                    OutcomeModel {
                        mint: accounts[2].key@,
                        authority: variant,
                        bump: p.1,
                        escrow_address: p.0,
                        serialized: serialized_record(
                            RecordModel {
                                key: ESCROW_RECORD_KEY,
                                base_token: accounts[2].key@,
                                authority: variant,
                                bump: p.1,
                            },
                        ),
                        signer_seeds: escrow_seeds_model(program_id, accounts[2].key@, variant)
                            + seq![seq![p.1]],
                    },
                )
            },
        }
    }
}

/// A successful creation outcome: the escrow record, its persisted
/// bytes, the seed-plus-bump proof for the allocation, and the derived
/// escrow address. The runtime shell allocates the account at that
/// address, sized exactly to the bytes, and copies them in.
#[derive(Clone, Debug, PartialEq, Eq)]
pub struct EscrowOutcome {
    pub record: TokenOwnedEscrow,
    pub serialized: Vec<u8>,
    pub signer_seeds: Vec<Vec<u8>>,
    pub escrow_address: Vec<u8>,
}

/// Validate the account list, resolve the escrow authority, derive the
/// escrow address and build the record to persist. The result is exactly
/// what the pipeline model prescribes for these inputs.
pub fn process_create_escrow_account(program_id: &Vec<u8>, accounts: &Vec<AccountView>) -> (r:
    Result<EscrowOutcome, EscrowError>)
    requires
        program_id@.len() == 32,
    ensures
        r matches Err(e) ==> process_model(program_id@, accounts@) == Err::<
            OutcomeModel,
            EscrowError,
        >(e),
        r matches Ok(o) ==> process_model(program_id@, accounts@) matches Ok(m) && {
            &&& o.record@.key == ESCROW_RECORD_KEY
            &&& o.record@.base_token == m.mint
            &&& o.record@.authority == m.authority
            &&& o.record@.bump == m.bump
            &&& o.serialized@ == m.serialized
            &&& o.signer_seeds.deep_view() == m.signer_seeds
            &&& o.escrow_address@ == m.escrow_address
        },
{
    if !(accounts.len() == 7 || accounts.len() == 8) {
        return Err(EscrowError::InvalidInstructionAccounts);
    }
    let token_program = spl_token_program_id_bytes();
    let owners_ok = bytes_eq(&accounts[1].owner, program_id) && bytes_eq(
        &accounts[2].owner,
        &token_program,
    ) && bytes_eq(&accounts[3].owner, &token_program);
    if !owners_ok {
        return Err(EscrowError::IllegalOwner);
    }
    if !accounts[5].is_signer {
        return Err(EscrowError::MissingSignature);
    }
    let meta_mint = match metadata_record_mint(&accounts[1].data) {
        Option::Some(m) => m,
        Option::None => {
            return Err(EscrowError::DataTypeMismatch);
        }
    };
    if !bytes_eq(&meta_mint, &accounts[2].key) {
        return Err(EscrowError::MintMismatch);
    }
    let standard = match check_token_standard(program_id, &accounts[2], &accounts[4]) {
        Result::Ok(s) => s,
        Result::Err(e) => {
            return Err(e);
        }
    };
    if standard != TokenStandard::NonFungible {
        return Err(EscrowError::MustBeNonFungible);
    }
    let token = match unpack_token_account(&accounts[3].data) {
        Option::Some(t) => t,
        Option::None => {
            return Err(EscrowError::Uninitialized);
        }
    };
    if token.state == 0 {
        return Err(EscrowError::Uninitialized);
    }
    if !bytes_eq(&token.mint, &accounts[2].key) {
        return Err(EscrowError::MintMismatch);
    }
    if token.amount < 1 {
        return Err(EscrowError::NotEnoughTokens);
    }
    if !bytes_eq(&token.mint, &meta_mint) {
        return Err(EscrowError::MintMismatch);
    }
    let creator: Vec<u8> = if accounts.len() == 8 {
        copy_bytes(&accounts[7].key)
    } else {
        copy_bytes(&accounts[5].key)
    };
    let variant: EscrowAuthority = if bytes_eq(&token.owner, &creator) {
        EscrowAuthority::TokenOwner
    } else {
        EscrowAuthority::Creator(creator)
    };
    proof {
        assert(variant@ == resolved_authority_model(accounts@));
    }
    let seeds = find_escrow_seeds(program_id, &accounts[2].key, &variant);
    let derived = match try_find_program_address(&seeds, program_id) {
        Option::Some(p) => p,
        Option::None => {
            return Err(EscrowError::DerivedKeyInvalid);
        }
    };
    let (escrow_address, bump) = derived;
    if !bytes_eq(&escrow_address, &accounts[0].key) {
        return Err(EscrowError::DerivedKeyInvalid);
    }
    let record = TokenOwnedEscrow {
        key: ESCROW_RECORD_KEY,
        base_token: copy_bytes(&accounts[2].key),
        authority: variant,
        bump,
    };
    let serialized = serialize_token_owned_escrow(&record);
    let mut signer_seeds = seeds;
    let bump_seed: Vec<u8> = vec![bump];
    signer_seeds.push(bump_seed);
    proof {
        assert(signer_seeds.deep_view() =~~= escrow_seeds_model(
            program_id@,
            accounts@[2].key@,
            record.authority@,
        ) + seq![seq![bump]]);
    }
    Ok(EscrowOutcome { record, serialized, signer_seeds, escrow_address })
}

/// Determinism of the derived address: two successful creations under
/// the same program, for the same mint and the same resolved authority
/// variant, derive the same escrow address and the same bump, whatever
/// the other accounts held. Together with the allocator's guarantee that
/// an address can be initialized only once, this makes creation
/// at-most-once per mint and authority variant.
pub proof fn lemma_same_pair_same_address(
    program_id: Seq<u8>,
    accounts1: Seq<AccountView>,
    accounts2: Seq<AccountView>,
)
    requires
        process_model(program_id, accounts1) is Ok,
        process_model(program_id, accounts2) is Ok,
        accounts1[2].key@ == accounts2[2].key@,
        resolved_authority_model(accounts1) == resolved_authority_model(accounts2),
    ensures
        process_model(program_id, accounts1)->Ok_0.escrow_address == process_model(
            program_id,
            accounts2,
        )->Ok_0.escrow_address,
        process_model(program_id, accounts1)->Ok_0.bump == process_model(
            program_id,
            accounts2,
        )->Ok_0.bump,
        process_model(program_id, accounts1)->Ok_0.serialized == process_model(
            program_id,
            accounts2,
        )->Ok_0.serialized,
        process_model(program_id, accounts1)->Ok_0.signer_seeds == process_model(
            program_id,
            accounts2,
        )->Ok_0.signer_seeds,
{
}

/// Authority resolution: a successful creation resolves the authority
/// to `TokenOwner` exactly when the owner recorded in the token account
/// equals the effective creator (the explicit authority if supplied,
/// else the payer), and to `Creator` of the effective creator otherwise.
pub proof fn lemma_authority_resolution(program_id: Seq<u8>, accounts: Seq<AccountView>)
    requires
        process_model(program_id, accounts) is Ok,
    ensures
        token_stored_owner(accounts) == creator_key_model(accounts)
            ==> process_model(program_id, accounts)->Ok_0.authority == AuthorityModel::TokenOwner,
        token_stored_owner(accounts) != creator_key_model(accounts)
            ==> process_model(program_id, accounts)->Ok_0.authority == AuthorityModel::Creator(
            creator_key_model(accounts),
        ),
{
}

/// Rejection of fungible assets: once the earlier checks pass, a mint
/// not classified as non-fungible is rejected with `MustBeNonFungible`,
/// whatever the token account's balance holds.
pub proof fn lemma_fungible_rejected(program_id: Seq<u8>, accounts: Seq<AccountView>)
    requires
        intake_ok(accounts),
        owners_ok(program_id, accounts),
        payer_signed(accounts),
        metadata_bytes_ok(accounts[1].data@),
        metadata_stored_mint(accounts[1].data@) == accounts[2].key@,
        mint_ready(accounts),
        classify_model(program_id, accounts[2].data@, accounts[4]) != TokenStandard::NonFungible,
    ensures
        process_model(program_id, accounts) == Err::<OutcomeModel, EscrowError>(
            EscrowError::MustBeNonFungible,
        ),
{
}

/// Balance boundary: the pipeline rejects with `NotEnoughTokens` exactly
/// when every earlier check passes and the token account's recorded
/// balance is zero; any balance of at least one never yields that error.
pub proof fn lemma_balance_boundary(program_id: Seq<u8>, accounts: Seq<AccountView>)
    ensures
        process_model(program_id, accounts) == Err::<OutcomeModel, EscrowError>(
            EscrowError::NotEnoughTokens,
        ) <==> (balance_stage_reached(program_id, accounts) && token_balance(accounts) == 0),
{
}

/// Mint consistency: with every check unrelated to the mint passing, a
/// failure of any of the three mint cross-checks — metadata against the
/// mint account, token account against the mint account, token account
/// against the metadata — yields `MintMismatch`.
pub proof fn lemma_mint_consistency(program_id: Seq<u8>, accounts: Seq<AccountView>)
    requires
        intake_ok(accounts),
        owners_ok(program_id, accounts),
        payer_signed(accounts),
        metadata_bytes_ok(accounts[1].data@),
        mint_ready(accounts),
        classify_model(program_id, accounts[2].data@, accounts[4]) == TokenStandard::NonFungible,
        token_ready(accounts),
        token_balance(accounts) >= 1,
        metadata_stored_mint(accounts[1].data@) != accounts[2].key@ || token_stored_mint(accounts)
            != accounts[2].key@ || token_stored_mint(accounts) != metadata_stored_mint(
            accounts[1].data@,
        ),
    ensures
        process_model(program_id, accounts) == Err::<OutcomeModel, EscrowError>(
            EscrowError::MintMismatch,
        ),
{
}

} // verus!
