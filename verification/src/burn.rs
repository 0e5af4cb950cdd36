//! The burn engine: owner-initiated supply decreases.

use crate::errors::CustomError;
use crate::events::TokensBurned;
use crate::identity::Identity;
use crate::records::{account_bytes_ok, account_mint_of, unpack_token_account};
use vstd::prelude::*;

verus! {

/// Record references for a burn: the mint record's identity, the source
/// balance record with its identity, and the verified owner of the source.
/// No admin gate: holders burn their own tokens.
#[derive(Debug)]
pub struct BurnTokens {
    pub mint_key: Identity,
    pub from_key: Identity,
    pub from_data: Vec<u8>,
    pub authority: Identity,
}

/// The supply decrease the host must commit, with the notification to emit
/// once it has.
#[derive(Clone, Copy, Debug, PartialEq, Eq)]
pub struct BurnPlan {
    /// Amount to remove from the source balance and from the supply.
    pub amount: u64,
    pub burned: TokensBurned,
}

/// What `burn_tokens` decides, first failure first: a zero amount,
/// undecodable source bytes, then a source that references another mint.
/// No floor check here beyond the ledger's own non-negative-balance
/// guarantee.
pub open spec fn spec_burn_tokens(amount: u64, from_bytes: Seq<u8>, mint_key: Identity) -> Result<
    u64,
    CustomError,
> {
    if amount == 0 {
        Err(CustomError::InvalidAmount)
    } else if !account_bytes_ok(from_bytes) {
        Err(CustomError::InvalidTokenAccount)
    } else if account_mint_of(from_bytes) != mint_key@ {
        Err(CustomError::InvalidRecipientMint)
    } else {
        Ok(amount)
    }
}

/// Validates a requested supply decrease and returns the plan the host is
/// to commit under the caller's own identity.
pub fn burn_tokens(ctx: &BurnTokens, amount: u64) -> (r: Result<BurnPlan, CustomError>)
    ensures
        match spec_burn_tokens(amount, ctx.from_data@, ctx.mint_key) {
            Ok(a) => r matches Ok(plan) && plan.amount == a && plan.burned == (TokensBurned {
                owner: ctx.from_key,
                amount,
            }),
            Err(e) => r == Err::<BurnPlan, CustomError>(e),
        },
{
    if amount == 0 {
        return Err(CustomError::InvalidAmount);
    }
    let source = match unpack_token_account(ctx.from_data.as_slice()) {
        Some(a) => a,
        None => {
            return Err(CustomError::InvalidTokenAccount);
        },
    };
    if !source.mint.eq_key(&ctx.mint_key) {
        return Err(CustomError::InvalidRecipientMint);
    }
    Ok(BurnPlan { amount, burned: TokensBurned { owner: ctx.from_key, amount } })
}

} // verus!
