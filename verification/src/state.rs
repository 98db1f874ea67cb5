//! The escrow authority, the persisted escrow record and its binary
//! encoding, and the crate's view of a ledger account.
//!
//! The persisted layout is fixed and version-tagged:
//! one discriminant byte, the 32-byte mint address, the authority variant
//! (one tag byte, plus the 32-byte creator address only for the explicit
//! variant), and one bump byte.

use vstd::prelude::*;

verus! {

/// Discriminant byte tagging a persisted record as an escrow record.
pub const ESCROW_RECORD_KEY: u8 = 10;

/// Discriminant byte tagging a persisted record as a metadata record.
pub const METADATA_RECORD_KEY: u8 = 4;

/// Discriminant byte tagging a persisted record as a print edition.
pub const EDITION_V1_KEY: u8 = 1;

/// Discriminant byte tagging a persisted record as a first-version
/// master edition.
pub const MASTER_EDITION_V1_KEY: u8 = 2;

/// Discriminant byte tagging a persisted record as a second-version
/// master edition.
pub const MASTER_EDITION_V2_KEY: u8 = 6;

/// Tag byte of the `TokenOwner` authority variant in seeds and records.
pub const AUTHORITY_TAG_TOKEN_OWNER: u8 = 0;

/// Tag byte of the `Creator` authority variant in seeds and records.
pub const AUTHORITY_TAG_CREATOR: u8 = 1;

/// The resolved escrow authority: either the current owner recorded in
/// the token account, or an explicitly supplied creator principal. The
/// chosen variant is baked permanently into the derived address and the
/// persisted record.
#[derive(Clone, Debug, PartialEq, Eq)]
pub enum EscrowAuthority {
    TokenOwner,
    Creator(Vec<u8>),
}

/// Mathematical model of an escrow authority.
pub enum AuthorityModel {
    TokenOwner,
    Creator(Seq<u8>),
}

impl View for EscrowAuthority {
    type V = AuthorityModel;

    open spec fn view(&self) -> AuthorityModel {
        match self {
            EscrowAuthority::TokenOwner => AuthorityModel::TokenOwner,
            EscrowAuthority::Creator(c) => AuthorityModel::Creator(c@),
        }
    }
}

/// The record persisted in a newly created escrow account.
#[derive(Clone, Debug, PartialEq, Eq)]
pub struct TokenOwnedEscrow {
    /// Type discriminant; always `ESCROW_RECORD_KEY`.
    pub key: u8,
    /// Address of the mint this escrow is bound to.
    pub base_token: Vec<u8>,
    /// The resolved escrow authority.
    pub authority: EscrowAuthority,
    /// The derivation nonce that made the escrow address valid.
    pub bump: u8,
}

/// Mathematical model of a persisted escrow record.
pub struct RecordModel {
    pub key: u8,
    pub base_token: Seq<u8>,
    pub authority: AuthorityModel,
    pub bump: u8,
}

impl View for TokenOwnedEscrow {
    type V = RecordModel;

    open spec fn view(&self) -> RecordModel {
        RecordModel {
            key: self.key,
            base_token: self.base_token@,
            authority: self.authority@,
            bump: self.bump,
        }
    }
}

/// Binary form of an authority variant: its tag byte, followed by the
/// creator address only for the explicit variant.
pub open spec fn authority_bytes(a: AuthorityModel) -> Seq<u8> {
    match a {
        AuthorityModel::TokenOwner => seq![AUTHORITY_TAG_TOKEN_OWNER],
        AuthorityModel::Creator(c) => seq![AUTHORITY_TAG_CREATOR] + c,
    }
}

/// Binary form of a persisted escrow record.
pub open spec fn serialized_record(r: RecordModel) -> Seq<u8> {
    seq![r.key] + r.base_token + authority_bytes(r.authority) + seq![r.bump]
}

/// Encode an escrow record to its persisted binary form. Total: encoding
/// never fails.
pub fn serialize_token_owned_escrow(r: &TokenOwnedEscrow) -> (out: Vec<u8>)
    ensures
        out@ == serialized_record(r@),
{
    let mut out: Vec<u8> = Vec::new();
    out.push(r.key);
    let mut i: usize = 0;
    while i < r.base_token.len()
        invariant
            i <= r.base_token.len(),
            out@ == seq![r.key] + r.base_token@.subrange(0, i as int),
        decreases r.base_token.len() - i,
    {
        out.push(r.base_token[i]);
        i += 1;
        proof {
            assert(out@ =~= seq![r.key] + r.base_token@.subrange(0, i as int));
        }
    }
    proof {
        assert(r.base_token@.subrange(0, r.base_token@.len() as int) =~= r.base_token@);
    }
    match &r.authority {
        EscrowAuthority::TokenOwner => {
            out.push(AUTHORITY_TAG_TOKEN_OWNER);
        }
        EscrowAuthority::Creator(c) => {
            out.push(AUTHORITY_TAG_CREATOR);
            let mut j: usize = 0;
            while j < c.len()
                invariant
                    j <= c.len(),
                    out@ == seq![r.key] + r.base_token@ + seq![AUTHORITY_TAG_CREATOR]
                        + c@.subrange(0, j as int),
                decreases c.len() - j,
            {
                out.push(c[j]);
                j += 1;
                proof {
                    assert(out@ =~= seq![r.key] + r.base_token@ + seq![AUTHORITY_TAG_CREATOR]
                        + c@.subrange(0, j as int));
                }
            }
            proof {
                assert(c@.subrange(0, c@.len() as int) =~= c@);
            }
        }
    }
    out.push(r.bump);
    proof {
        assert(out@ =~= serialized_record(r@));
    }
    out
}

/// What this crate reads of one ledger account: its address, its owning
/// program, whether it signed the enclosing transaction, and its data
/// bytes. The runtime shell fills one of these per supplied account.
#[derive(Clone, Debug, PartialEq, Eq)]
pub struct AccountView {
    pub key: Vec<u8>,
    pub owner: Vec<u8>,
    pub is_signer: bool,
    pub data: Vec<u8>,
}

/// Copy a byte vector.
pub fn copy_bytes(v: &Vec<u8>) -> (out: Vec<u8>)
    ensures
        out@ == v@,
{
    let mut out: Vec<u8> = Vec::new();
    let mut i: usize = 0;
    while i < v.len()
        invariant
            i <= v.len(),
            out@ == v@.subrange(0, i as int),
        decreases v.len() - i,
    {
        out.push(v[i]);
        i += 1;
        proof {
            assert(out@ =~= v@.subrange(0, i as int));
        }
    }
    proof {
        assert(v@.subrange(0, v@.len() as int) =~= v@);
    }
    out
}

/// Whether two byte vectors hold the same bytes.
pub fn bytes_eq(a: &Vec<u8>, b: &Vec<u8>) -> (r: bool)
    ensures
        r == (a@ == b@),
{
    if a.len() != b.len() {
        return false;
    }
    let mut i: usize = 0;
    while i < a.len()
        invariant
            i <= a.len(),
            a@.len() == b@.len(),
            forall|k: int| 0 <= k < i ==> a@[k] == b@[k],
        decreases a.len() - i,
    {
        if a[i] != b[i] {
            return false;
        }
        i += 1;
    }
    proof {
        assert(a@ =~= b@);
    }
    true
}

} // verus!
