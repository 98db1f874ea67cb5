//! Deterministic derivation of the escrow address. The escrow address is
//! not a free choice: it is a pure function of the program identity, the
//! mint address and the authority variant, obtained through the ledger's
//! program-derived-address scheme.

use vstd::prelude::*;

use crate::state::{AuthorityModel, EscrowAuthority, AUTHORITY_TAG_CREATOR, AUTHORITY_TAG_TOKEN_OWNER};

verus! {

/// The derived address and bump that the ledger's program-derived-address
/// scheme assigns to a seed sequence under a program identity, or absence
/// when no bump yields a valid derivation. The scheme is a fixed hash
/// construction: its result depends on the seeds and the program identity
/// alone.
pub uninterp spec fn pda_of(seeds: Seq<Seq<u8>>, program_id: Seq<u8>) -> Option<(Seq<u8>, u8)>;

/// Relies on `solana_program::pubkey::Pubkey::try_find_program_address`:
/// a deterministic function of the seeds and the program identity, whose
/// successful result is a 32-byte address and its bump.
#[verifier::external_body]
pub(crate) fn try_find_program_address(seeds: &Vec<Vec<u8>>, program_id: &Vec<u8>) -> (r: Option<
    (Vec<u8>, u8),
>)
    requires
        program_id@.len() == 32,
    ensures
        r matches Some(p) ==> pda_of(seeds.deep_view(), program_id@) == Some((p.0@, p.1))
            && p.0@.len() == 32,
        r is None ==> pda_of(seeds.deep_view(), program_id@) is None,
{
    let pid = solana_program::pubkey::Pubkey::try_from(program_id.as_slice()).unwrap();
    let seed_refs: Vec<&[u8]> = seeds.iter().map(|s| s.as_slice()).collect();
    match solana_program::pubkey::Pubkey::try_find_program_address(&seed_refs, &pid) {
        Some((key, bump)) => Some((key.to_bytes().to_vec(), bump)),
        None => None,
    }
}

/// First fixed seed: the bytes of the namespace prefix `metadata`.
pub open spec fn prefix_seed() -> Seq<u8> {
    seq![109u8, 101, 116, 97, 100, 97, 116, 97]
}

/// Last fixed seed: the bytes of the namespace postfix `escrow`.
pub open spec fn postfix_seed() -> Seq<u8> {
    seq![101u8, 115, 99, 114, 111, 119]
}

/// The seeds contributed by the authority variant: its tag byte, plus the
/// creator address only for the explicit variant.
pub open spec fn authority_seeds(a: AuthorityModel) -> Seq<Seq<u8>> {
    match a {
        AuthorityModel::TokenOwner => seq![seq![AUTHORITY_TAG_TOKEN_OWNER]],
        AuthorityModel::Creator(c) => seq![seq![AUTHORITY_TAG_CREATOR], c],
    }
}

/// The full seed sequence of an escrow address: prefix, program identity,
/// mint, authority seeds, postfix.
pub open spec fn escrow_seeds_model(program_id: Seq<u8>, mint: Seq<u8>, a: AuthorityModel) -> Seq<
    Seq<u8>,
> {
    seq![prefix_seed(), program_id, mint] + authority_seeds(a) + seq![postfix_seed()]
}

/// The escrow address and bump derived for a mint and an authority
/// variant under a program identity, or absence when no derivation is
/// valid.
pub open spec fn escrow_derivation(program_id: Seq<u8>, mint: Seq<u8>, a: AuthorityModel) -> Option<
    (Seq<u8>, u8),
> {
    pda_of(escrow_seeds_model(program_id, mint, a), program_id)
}

/// Build the seed sequence of an escrow address.
pub fn find_escrow_seeds(program_id: &Vec<u8>, mint: &Vec<u8>, authority: &EscrowAuthority) -> (r:
    Vec<Vec<u8>>)
    ensures
        r.deep_view() == escrow_seeds_model(program_id@, mint@, authority@),
{
    let mut r: Vec<Vec<u8>> = Vec::new();
    let prefix: Vec<u8> = vec![109u8, 101, 116, 97, 100, 97, 116, 97];
    proof {
        assert(prefix@ =~= prefix_seed());
    }
    r.push(prefix);
    r.push(crate::state::copy_bytes(program_id));
    r.push(crate::state::copy_bytes(mint));
    match authority {
        EscrowAuthority::TokenOwner => {
            let tag: Vec<u8> = vec![AUTHORITY_TAG_TOKEN_OWNER];
            r.push(tag);
        }
        EscrowAuthority::Creator(c) => {
            let tag: Vec<u8> = vec![AUTHORITY_TAG_CREATOR];
            r.push(tag);
            r.push(crate::state::copy_bytes(c));
        }
    }
    let postfix: Vec<u8> = vec![101u8, 115, 99, 114, 111, 119];
    proof {
        assert(postfix@ =~= postfix_seed());
    }
    r.push(postfix);
    proof {
        assert(r.deep_view() =~~= escrow_seeds_model(program_id@, mint@, authority@));
    }
    r
}

} // verus!
