//! The mint authorization engine.
//!
//! Minting is gated three ways: the administrator must sign the call, the
//! mint's declared authority must be the derived authority computed from
//! the fixed label and the mint's identity, and the resulting supply must
//! stay under the active ceiling.

use crate::errors::CustomError;
use crate::events::TokensMinted;
use crate::identity::Identity;
use crate::records::{
    account_bytes_ok, account_initialized, account_mint_of, is_spl_token_program, mint_authority_of,
    mint_bytes_ok, mint_supply_of, owner_is_token_program, unpack_mint, unpack_token_account,
    AccountStatus,
};
use crate::state::{TokenState, INITIAL_MINTABLE_SUPPLY, MAX_TOTAL_SUPPLY};
use vstd::prelude::*;

verus! {

/// Record references for a mint: the mint record and its identity, the
/// destination balance record with its identity and owning program, the
/// derived-authority reference, and the verified identity of the caller.
#[derive(Debug)]
pub struct MintTokens {
    pub mint_key: Identity,
    pub mint_data: Vec<u8>,
    pub to_key: Identity,
    pub to_data: Vec<u8>,
    /// The program that owns the destination record on the ledger.
    pub to_owner: Identity,
    /// The derived authority entitled to execute the mint.
    pub mint_auth: Identity,
    /// The verified signing identity of the caller.
    pub admin: Identity,
}

/// The supply increase the host must commit, with the notification to emit
/// once it has.
#[derive(Clone, Copy, Debug, PartialEq, Eq)]
pub struct MintPlan {
    /// The supply after the increase; proved not to pass the ceiling.
    pub new_supply: u64,
    pub minted: TokensMinted,
}

/// The deterministic, non-signing identity derived from the fixed label and
/// a mint's identity under a program's identity; absent in the
/// statistically improbable event that no derivation exists.
pub uninterp spec fn derived_authority_of(mint: Seq<u8>, program: Seq<u8>) -> Option<Seq<u8>>;

/// Relies on `Pubkey::try_find_program_address` over the fixed seed label
/// `mint_auth` and the mint's identity: the derivation is a pure hash of
/// its inputs, so the result depends on the two identities alone.
#[verifier::external_body]
pub fn derive_mint_authority(mint_key: &Identity, program_id: &Identity) -> (r: Option<Identity>)
    ensures
        match r {
            Some(a) => derived_authority_of(mint_key@, program_id@) == Some(a@),
            None => derived_authority_of(mint_key@, program_id@) is None,
        },
{
    let program = solana_pubkey::Pubkey::new_from_array(program_id.bytes);
    match solana_pubkey::Pubkey::try_find_program_address(
        &[b"mint_auth", &mint_key.bytes],
        &program,
    ) {
        Some((pk, _)) => Some(Identity { bytes: pk.to_bytes() }),
        None => None,
    }
}

/// The supply check closing every mint: the grown supply must not wrap and
/// must stay under the active ceiling.
pub open spec fn spec_supply_gate(s: TokenState, supply: u64, amount: u64) -> Result<
    u64,
    CustomError,
> {
    if supply + amount > u64::MAX {
        Err(CustomError::Overflow)
    } else if supply + amount > s.ceiling() {
        Err(CustomError::ExceedsTotalSupply)
    } else {
        Ok((supply + amount) as u64)
    }
}

/// What `mint_tokens` decides, first failure first: a zero amount; a
/// non-admin caller; undecodable mint bytes; a mint without declared
/// authority; undecodable destination bytes; an uninitialized destination;
/// a destination of another mint; a destination owned by the wrong
/// program; a declared authority other than the derived-authority
/// reference; and the supply gate.
pub open spec fn spec_mint_tokens(
    s: TokenState,
    caller: Identity,
    amount: u64,
    mint_bytes: Seq<u8>,
    to_bytes: Seq<u8>,
    to_owner_is_program: bool,
    mint_key: Identity,
    mint_auth: Identity,
) -> Result<u64, CustomError> {
    if amount == 0 {
        Err(CustomError::InvalidAmount)
    } else if !s.spec_is_admin(caller) {
        Err(CustomError::Unauthorized)
    } else if !mint_bytes_ok(mint_bytes) {
        Err(CustomError::InvalidMintAccount)
    } else if mint_authority_of(mint_bytes) is None {
        Err(CustomError::MintAuthorityMissing)
    } else if !account_bytes_ok(to_bytes) {
        Err(CustomError::InvalidTokenAccount)
    } else if !account_initialized(to_bytes) {
        Err(CustomError::AccountNotInitialized)
    } else if account_mint_of(to_bytes) != mint_key@ {
        Err(CustomError::InvalidRecipientMint)
    } else if !to_owner_is_program {
        Err(CustomError::InvalidTokenAccount)
    } else if mint_authority_of(mint_bytes) != Some(mint_auth@) {
        Err(CustomError::Unauthorized)
    } else {
        spec_supply_gate(s, mint_supply_of(mint_bytes) as u64, amount)
    }
}

/// Validates a requested supply increase and returns the plan the host is
/// to commit under the derived authority's proof.  Any failure leaves every
/// record untouched, since nothing has been requested of the ledger.
pub fn mint_tokens(state: &TokenState, ctx: &MintTokens, amount: u64) -> (r: Result<
    MintPlan,
    CustomError,
>)
    ensures
        match spec_mint_tokens(
            *state,
            ctx.admin,
            amount,
            ctx.mint_data@,
            ctx.to_data@,
            is_spl_token_program(ctx.to_owner@),
            ctx.mint_key,
            ctx.mint_auth,
        ) {
            Ok(new_supply) => r matches Ok(plan) && plan.new_supply == new_supply && plan.minted
                == (TokensMinted { recipient: ctx.to_key, amount }),
            Err(e) => r == Err::<MintPlan, CustomError>(e),
        },
{
    if amount == 0 {
        return Err(CustomError::InvalidAmount);
    }
    if !state.is_admin(&ctx.admin) {
        return Err(CustomError::Unauthorized);
    }
    let mint = match unpack_mint(ctx.mint_data.as_slice()) {
        Some(m) => m,
        None => {
            return Err(CustomError::InvalidMintAccount);
        },
    };
    let declared = match mint.mint_authority {
        Some(a) => a,
        None => {
            return Err(CustomError::MintAuthorityMissing);
        },
    };
    let dest = match unpack_token_account(ctx.to_data.as_slice()) {
        Some(a) => a,
        None => {
            return Err(CustomError::InvalidTokenAccount);
        },
    };
    if dest.status != AccountStatus::Initialized {
        return Err(CustomError::AccountNotInitialized);
    }
    if !dest.mint.eq_key(&ctx.mint_key) {
        return Err(CustomError::InvalidRecipientMint);
    }
    if !owner_is_token_program(&ctx.to_owner) {
        return Err(CustomError::InvalidTokenAccount);
    }
    if !declared.eq_key(&ctx.mint_auth) {
        return Err(CustomError::Unauthorized);
    }
    let max_mintable = if state.can_mint_more {
        MAX_TOTAL_SUPPLY
    } else {
        INITIAL_MINTABLE_SUPPLY
    };
    let new_supply = match mint.supply.checked_add(amount) {
        Some(x) => x,
        None => {
            return Err(CustomError::Overflow);
        },
    };
    if new_supply > max_mintable {
        return Err(CustomError::ExceedsTotalSupply);
    }
    Ok(MintPlan { new_supply, minted: TokensMinted { recipient: ctx.to_key, amount } })
}

} // verus!
