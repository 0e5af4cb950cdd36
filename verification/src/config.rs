//! Creation and admin-gated mutation of the configuration record.

use crate::errors::CustomError;
use crate::identity::Identity;
use crate::state::TokenState;
use vstd::prelude::*;

verus! {

/// Caller references for creating the configuration record.
#[derive(Clone, Copy, Debug)]
pub struct Initialize {
    /// The identity paying for and administering the new record.
    pub payer: Identity,
}

/// Caller references for changing the transfer fee.
#[derive(Clone, Copy, Debug)]
pub struct SetTransferFee {
    /// The verified identity of the caller.
    pub admin: Identity,
}

/// Caller references for opening or closing further minting.
#[derive(Clone, Copy, Debug)]
pub struct SetMintingStatus {
    /// The verified identity of the caller.
    pub admin: Identity,
}

/// The configuration record as created: further minting open, a two percent
/// transfer fee, the payer as administrator.
pub open spec fn initial_state(payer: Identity) -> TokenState {
    TokenState { can_mint_more: true, transfer_fee_percent: 2, admin: payer }
}

/// What `set_transfer_fee` decides: the admin gate first, then the bound of
/// ten on the requested percentage.
pub open spec fn spec_set_transfer_fee(s: TokenState, caller: Identity, p: u8) -> Result<
    TokenState,
    CustomError,
> {
    if !s.spec_is_admin(caller) {
        Err(CustomError::Unauthorized)
    } else if p > 10 {
        Err(CustomError::FeeTooHigh)
    } else {
        Ok(TokenState { can_mint_more: s.can_mint_more, transfer_fee_percent: p, admin: s.admin })
    }
}

/// What `set_minting_status` decides: the admin gate alone.
pub open spec fn spec_set_minting_status(s: TokenState, caller: Identity, can_mint: bool) -> Result<
    TokenState,
    CustomError,
> {
    if !s.spec_is_admin(caller) {
        Err(CustomError::Unauthorized)
    } else {
        Ok(TokenState {
            can_mint_more: can_mint,
            transfer_fee_percent: s.transfer_fee_percent,
            admin: s.admin,
        })
    }
}

/// Creates the configuration record with minting open, a two percent fee and
/// the payer as administrator.  A record that already exists is never
/// overwritten: the call reports failure and leaves it as it was, as the
/// external store's uniqueness rule demands.
pub fn initialize(state: &mut Option<TokenState>, ctx: &Initialize) -> (created: bool)
    ensures
        created == (*old(state) is None),
        created ==> *final(state) == Some(initial_state(ctx.payer)),
        !created ==> *final(state) == *old(state),
{
    match *state {
        Some(_) => false,
        None => {
            *state = Some(TokenState {
                can_mint_more: true,
                transfer_fee_percent: 2,
                admin: ctx.payer,
            });
            true
        },
    }
}

/// Overwrites the transfer fee percentage.  Requires the caller to be the
/// administrator and the new percentage to be at most ten; any failure
/// leaves the record unchanged.
pub fn set_transfer_fee(state: &mut TokenState, ctx: &SetTransferFee, new_fee_percent: u8) -> (r:
    Result<(), CustomError>)
    ensures
        match spec_set_transfer_fee(*old(state), ctx.admin, new_fee_percent) {
            Ok(s2) => r is Ok && *final(state) == s2,
            Err(e) => r == Err::<(), CustomError>(e) && *final(state) == *old(state),
        },
{
    if !state.is_admin(&ctx.admin) {
        return Err(CustomError::Unauthorized);
    }
    if new_fee_percent > 10 {
        return Err(CustomError::FeeTooHigh);
    }
    state.transfer_fee_percent = new_fee_percent;
    Ok(())
}

/// Opens or closes minting beyond the initial ceiling.  Requires the caller
/// to be the administrator; a failure leaves the record unchanged.
pub fn set_minting_status(state: &mut TokenState, ctx: &SetMintingStatus, can_mint: bool) -> (r:
    Result<(), CustomError>)
    ensures
        match spec_set_minting_status(*old(state), ctx.admin, can_mint) {
            Ok(s2) => r is Ok && *final(state) == s2,
            Err(e) => r == Err::<(), CustomError>(e) && *final(state) == *old(state),
        },
{
    if !state.is_admin(&ctx.admin) {
        return Err(CustomError::Unauthorized);
    }
    state.can_mint_more = can_mint;
    Ok(())
}

} // verus!
