//! Reading token-program accounts. The byte layouts below are those of
//! the token program's packed `Mint` and `Account` records; the actual
//! decoding is done by the token program's own crate behind trusted
//! wrappers whose contracts state that layout exactly.

use vstd::prelude::*;

verus! {

/// Value of a little-endian byte string.
pub open spec fn le_bytes_value(s: Seq<u8>) -> nat
    decreases s.len(),
{
    if s.len() == 0 {
        0
    } else {
        (s[0] + 256 * le_bytes_value(s.subrange(1, s.len() as int))) as nat
    }
}

/// Whether four bytes are a valid optional-field tag (absent or present).
pub open spec fn coption_tag_ok(s: Seq<u8>) -> bool {
    s.len() == 4 && (s[0] == 0 || s[0] == 1) && s[1] == 0 && s[2] == 0 && s[3] == 0
}

/// Whether the bytes parse as a token account record: 165 bytes, with
/// valid optional-field tags (delegate, native marker, close authority)
/// and a valid state byte.
pub open spec fn token_account_bytes_ok(d: Seq<u8>) -> bool {
    &&& d.len() == 165
    &&& coption_tag_ok(d.subrange(72, 76))
    &&& d[108] <= 2
    &&& coption_tag_ok(d.subrange(109, 113))
    &&& coption_tag_ok(d.subrange(129, 133))
}

/// Whether the bytes parse as a mint record: 82 bytes, with valid
/// optional-field tags (mint authority, freeze authority) and a valid
/// initialization byte.
pub open spec fn mint_bytes_ok(d: Seq<u8>) -> bool {
    &&& d.len() == 82
    &&& coption_tag_ok(d.subrange(0, 4))
    &&& (d[45] == 0 || d[45] == 1)
    &&& coption_tag_ok(d.subrange(46, 50))
}

/// What the escrow logic reads of a token account: its mint, its
/// recorded owner, its balance and its state byte.
pub struct TokenAccountView {
    pub mint: Vec<u8>,
    pub owner: Vec<u8>,
    pub amount: u64,
    pub state: u8,
}

/// What the escrow logic reads of a mint: its supply, its decimals and
/// whether it is initialized.
pub struct MintView {
    pub supply: u64,
    pub decimals: u8,
    pub initialized: bool,
}

/// Relies on `spl_token::state::Account::unpack_unchecked`: it succeeds
/// exactly on a 165-byte record with valid optional-field tags and state
/// byte, and then returns the mint from bytes 0..32, the owner from
/// bytes 32..64, the little-endian amount from bytes 64..72 and the
/// state from byte 108.
#[verifier::external_body]
pub(crate) fn unpack_token_account(data: &Vec<u8>) -> (r: Option<TokenAccountView>)
    ensures
        r is Some <==> token_account_bytes_ok(data@),
        r matches Some(t) ==> {
            &&& t.mint@ == data@.subrange(0, 32)
            &&& t.owner@ == data@.subrange(32, 64)
            &&& t.amount as nat == le_bytes_value(data@.subrange(64, 72))
            &&& t.state == data@[108]
        },
{
    match <spl_token::state::Account as spl_token::solana_program::program_pack::Pack>::unpack_unchecked(
        data.as_slice(),
    ) {
        Ok(a) => Some(TokenAccountView {
            mint: a.mint.to_bytes().to_vec(),
            owner: a.owner.to_bytes().to_vec(),
            amount: a.amount,
            state: a.state as u8,
        }),
        Err(_) => None,
    }
}

/// Relies on `spl_token::state::Mint::unpack_unchecked`: it succeeds
/// exactly on an 82-byte record with valid optional-field tags and
/// initialization byte, and then returns the little-endian supply from
/// bytes 36..44, the decimals from byte 44 and the initialization flag
/// from byte 45.
#[verifier::external_body]
pub(crate) fn unpack_mint(data: &Vec<u8>) -> (r: Option<MintView>)
    ensures
        r is Some <==> mint_bytes_ok(data@),
        r matches Some(m) ==> {
            &&& m.supply as nat == le_bytes_value(data@.subrange(36, 44))
            &&& m.decimals == data@[44]
            &&& m.initialized == (data@[45] == 1)
        },
{
    match <spl_token::state::Mint as spl_token::solana_program::program_pack::Pack>::unpack_unchecked(
        data.as_slice(),
    ) {
        Ok(m) => Some(MintView {
            supply: m.supply,
            decimals: m.decimals,
            initialized: m.is_initialized,
        }),
        Err(_) => None,
    }
}

/// Address of the token program, which must own every supplied mint and
/// token account.
pub open spec fn spl_token_program_id() -> Seq<u8> {
    seq![
        6u8, 221, 246, 225, 215, 101, 161, 147, 217, 203, 225, 70, 206, 235, 121, 172, 28, 180,
        133, 237, 95, 91, 55, 145, 58, 140, 245, 133, 126, 255, 0, 169,
    ]
}

/// The token program's address as bytes.
pub fn spl_token_program_id_bytes() -> (out: Vec<u8>)
    ensures
        out@ == spl_token_program_id(),
{
    let out: Vec<u8> = vec![
        6u8, 221, 246, 225, 215, 101, 161, 147, 217, 203, 225, 70, 206, 235, 121, 172, 28, 180,
        133, 237, 95, 91, 55, 145, 58, 140, 245, 133, 126, 255, 0, 169,
    ];
    proof {
        assert(out@ =~= spl_token_program_id());
    }
    out
}

} // verus!
