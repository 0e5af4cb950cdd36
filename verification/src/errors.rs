//! The failure taxonomy shared by every operation.

use vstd::prelude::*;

verus! {

/// Every operation aborts with exactly one of these kinds and no observable
/// mutation; the host's all-or-nothing commit keeps the records unchanged.
#[derive(Clone, Copy, Debug, PartialEq, Eq, Structural)]
pub enum CustomError {
    /// An amount of zero was requested, or a transfer would move nothing.
    InvalidAmount,
    /// The caller is not the administrator, or the mint authority differs
    /// from the derived authority.
    Unauthorized,
    /// A checked arithmetic step would wrap.
    Overflow,
    /// The resulting supply would pass the active ceiling.
    ExceedsTotalSupply,
    /// The mint record could not be decoded.
    InvalidMintAccount,
    /// A balance record could not be decoded, or is owned by the wrong
    /// program.
    InvalidTokenAccount,
    /// A balance record references a different mint.
    InvalidRecipientMint,
    /// The mint declares no minting authority.
    MintAuthorityMissing,
    /// The destination balance record is not yet initialized.
    AccountNotInitialized,
    /// A fee percentage above ten was requested.
    FeeTooHigh,
}

impl CustomError {
    /// The label belonging to each error kind.
    pub open spec fn spec_message(self) -> Seq<char> {
        match self {
            CustomError::InvalidAmount => "Invalid amount, must be greater than zero."@,
            CustomError::Unauthorized => "Unauthorized action."@,
            CustomError::Overflow => "Overflow error."@,
            CustomError::ExceedsTotalSupply => "Exceeds total supply limit."@,
            CustomError::InvalidMintAccount => "Invalid mint account."@,
            CustomError::InvalidTokenAccount => "Invalid token account."@,
            CustomError::InvalidRecipientMint => "Recipient token account does not match mint."@,
            CustomError::MintAuthorityMissing => "Mint authority is missing."@,
            CustomError::AccountNotInitialized => "Token account is not initialized."@,
            CustomError::FeeTooHigh => "Transfer fee is too high, must be <= 10%."@,
        }
    }

    /// A human-readable label for the error kind.
    pub fn message(&self) -> (r: String)
        ensures
            r@ == self.spec_message(),
    {
        match self {
            CustomError::InvalidAmount => "Invalid amount, must be greater than zero.".to_string(),
            CustomError::Unauthorized => "Unauthorized action.".to_string(),
            CustomError::Overflow => "Overflow error.".to_string(),
            CustomError::ExceedsTotalSupply => "Exceeds total supply limit.".to_string(),
            CustomError::InvalidMintAccount => "Invalid mint account.".to_string(),
            CustomError::InvalidTokenAccount => "Invalid token account.".to_string(),
            CustomError::InvalidRecipientMint => "Recipient token account does not match mint.".to_string(),
            CustomError::MintAuthorityMissing => "Mint authority is missing.".to_string(),
            CustomError::AccountNotInitialized => "Token account is not initialized.".to_string(),
            CustomError::FeeTooHigh => "Transfer fee is too high, must be <= 10%.".to_string(),
        }
    }
}

} // verus!
