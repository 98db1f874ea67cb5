//! The errors the escrow creation pipeline can abort with. Every check is
//! local and fails fast; no error is retried or swallowed at this layer.

use vstd::prelude::*;

verus! {

/// Terminal failure of one escrow creation attempt.
#[derive(Clone, Copy, Debug, PartialEq, Eq, Structural)]
pub enum EscrowError {
    /// The account list has neither of the two legal shapes (seven
    /// accounts, or eight with an explicit authority).
    InvalidInstructionAccounts,
    /// An input account is owned by the wrong program.
    IllegalOwner,
    /// The payer did not sign.
    MissingSignature,
    /// The metadata account's bytes do not hold a metadata record.
    DataTypeMismatch,
    /// A token-program account's bytes do not parse, or the account is
    /// not initialized.
    Uninitialized,
    /// The mint referenced by the metadata record, the mint account and
    /// the token account are not all identical.
    MintMismatch,
    /// The mint is not classified as a non-fungible (unique) asset.
    MustBeNonFungible,
    /// The token account balance is zero.
    NotEnoughTokens,
    /// The supplied escrow address does not match any valid derivation.
    DerivedKeyInvalid,
    /// Encoding the escrow record failed. The encoder in this crate is
    /// total, so no input produces this; it is kept as part of the error
    /// interface.
    SerializationError,
}

} // verus!
