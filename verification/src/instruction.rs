//! Client-side builder of the create-escrow wire instruction: the ordered
//! account-reference list and the one-byte opcode tag. Pure formatting,
//! no validation.

use vstd::prelude::*;

verus! {

/// Opcode tag identifying the create-escrow-account instruction. The
/// instruction carries no payload beyond this tag: all parameters travel
/// in the account list.
pub const CREATE_ESCROW_ACCOUNT_OPCODE: u8 = 38;

/// One entry of an instruction's account list: an address, whether it
/// must sign, and whether it may be written.
#[derive(Clone, Debug, PartialEq, Eq)]
pub struct AccountMeta {
    pub pubkey: Vec<u8>,
    pub is_signer: bool,
    pub is_writable: bool,
}

/// A wire instruction: the target program, the ordered account list and
/// the serialized opcode.
#[derive(Clone, Debug, PartialEq, Eq)]
pub struct Instruction {
    pub program_id: Vec<u8>,
    pub accounts: Vec<AccountMeta>,
    pub data: Vec<u8>,
}

/// The address of the system allocator program: thirty-two zero bytes.
pub open spec fn system_program_id() -> Seq<u8> {
    Seq::new(32, |i: int| 0u8)
}

/// The system allocator program's address as bytes.
pub fn system_program_id_bytes() -> (out: Vec<u8>)
    ensures
        out@ == system_program_id(),
{
    let mut out: Vec<u8> = Vec::new();
    let mut i: usize = 0;
    while i < 32
        invariant
            i <= 32,
            out@.len() == i,
            forall|k: int| 0 <= k < i ==> out@[k] == 0u8,
        decreases 32 - i,
    {
        out.push(0u8);
        i += 1;
    }
    proof {
        assert(out@ =~= system_program_id());
    }
    out
}

/// Whether one account-list entry has the given address and flags.
pub open spec fn meta_is(m: AccountMeta, pubkey: Seq<u8>, is_signer: bool, is_writable: bool) -> bool {
    m.pubkey@ == pubkey && m.is_signer == is_signer && m.is_writable == is_writable
}

/// Build the create-escrow instruction: the fixed seven-account list
/// (escrow writable; metadata, mint, token account, edition and the
/// system allocator read-only; payer writable and signing), followed by
/// the explicit authority (read-only, signing) only when one is
/// supplied, and the one-byte opcode as payload.
pub fn create_escrow_account(
    program_id: Vec<u8>,
    escrow_account: Vec<u8>,
    metadata_account: Vec<u8>,
    mint_account: Vec<u8>,
    token_account: Vec<u8>,
    edition_account: Vec<u8>,
    payer_account: Vec<u8>,
    authority: Option<Vec<u8>>,
) -> (r: Instruction)
    ensures
        r.program_id@ == program_id@,
        r.data@ == seq![CREATE_ESCROW_ACCOUNT_OPCODE],
        r.accounts@.len() == (if authority is Some { 8int } else { 7int }),
        meta_is(r.accounts@[0], escrow_account@, false, true),
        meta_is(r.accounts@[1], metadata_account@, false, false),
        meta_is(r.accounts@[2], mint_account@, false, false),
        meta_is(r.accounts@[3], token_account@, false, false),
        meta_is(r.accounts@[4], edition_account@, false, false),
        meta_is(r.accounts@[5], payer_account@, true, true),
        meta_is(r.accounts@[6], system_program_id(), false, false),
        authority matches Some(a) ==> meta_is(r.accounts@[7], a@, true, false),
{
    let mut accounts: Vec<AccountMeta> = Vec::new();
    accounts.push(AccountMeta { pubkey: escrow_account, is_signer: false, is_writable: true });
    accounts.push(AccountMeta { pubkey: metadata_account, is_signer: false, is_writable: false });
    accounts.push(AccountMeta { pubkey: mint_account, is_signer: false, is_writable: false });
    accounts.push(AccountMeta { pubkey: token_account, is_signer: false, is_writable: false });
    accounts.push(AccountMeta { pubkey: edition_account, is_signer: false, is_writable: false });
    accounts.push(AccountMeta { pubkey: payer_account, is_signer: true, is_writable: true });
    accounts.push(
        AccountMeta { pubkey: system_program_id_bytes(), is_signer: false, is_writable: false },
    );
    match authority {
        Option::Some(a) => {
            accounts.push(AccountMeta { pubkey: a, is_signer: true, is_writable: false });
        }
        Option::None => {
        }
    }
    let data: Vec<u8> = vec![CREATE_ESCROW_ACCOUNT_OPCODE];
    Instruction { program_id, accounts, data }
}

} // verus!
