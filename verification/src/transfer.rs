//! The transfer fee engine: fee split and the dual sub-transfer plan.

use crate::errors::CustomError;
use crate::events::{TokensTransferred, TransferFeeCharged};
use crate::identity::Identity;
use crate::state::TokenState;
use vstd::arithmetic::div_mod::lemma_div_is_ordered;
use vstd::prelude::*;

verus! {

/// Record references for a transfer: source, destination, fee receiver and
/// the verified owner of the source.
#[derive(Clone, Copy, Debug, PartialEq, Eq)]
pub struct TransferTokens {
    pub from: Identity,
    pub to: Identity,
    pub fee_receiver: Identity,
    pub authority: Identity,
}

/// The two atomic sub-transfers that the host must commit together, with the
/// notifications to emit once it has.
#[derive(Clone, Copy, Debug, PartialEq, Eq)]
pub struct TransferPlan {
    /// Amount moved from the source to the destination.
    pub net_amount: u64,
    /// Amount moved from the source to the fee receiver.
    pub fee_amount: u64,
    pub transferred: TokensTransferred,
    pub fee_charged: TransferFeeCharged,
}

/// The fee deducted from `amount` under fee percentage `p`: the floor of
/// `amount * p / 100`.
pub open spec fn spec_fee_amount(p: u8, amount: u64) -> int {
    (amount * p) / 100
}

/// What `transfer_tokens` decides, as the pair of net amount and fee amount.
/// First failure wins: a zero amount, then overflow of the fee product, then
/// a fee above the amount, then a net amount of zero.  Under a well-formed
/// configuration the last two branches are unreachable (see
/// `lemma_transfer_defensive_checks_unreachable`).
pub open spec fn spec_transfer_plan(s: TokenState, amount: u64) -> Result<(u64, u64), CustomError> {
    if amount == 0 {
        Err(CustomError::InvalidAmount)
    } else if amount * s.transfer_fee_percent > u64::MAX {
        Err(CustomError::Overflow)
    } else if spec_fee_amount(s.transfer_fee_percent, amount) > amount {
        Err(CustomError::Overflow)
    } else if amount - spec_fee_amount(s.transfer_fee_percent, amount) == 0 {
        Err(CustomError::InvalidAmount)
    } else {
        Ok(
            (
                (amount - spec_fee_amount(s.transfer_fee_percent, amount)) as u64,
                spec_fee_amount(s.transfer_fee_percent, amount) as u64,
            ),
        )
    }
}

/// Splits `amount` into the net part owed to the destination and the fee
/// part owed to the fee receiver, under the configured fee percentage.  The
/// two sub-transfers in the returned plan are to be committed both or
/// neither by the host.
pub fn transfer_tokens(state: &TokenState, ctx: &TransferTokens, amount: u64) -> (r: Result<
    TransferPlan,
    CustomError,
>)
    ensures
        match spec_transfer_plan(*state, amount) {
            Ok(parts) => r matches Ok(plan) && plan.net_amount == parts.0 && plan.fee_amount
                == parts.1 && plan.transferred == (TokensTransferred {
                sender: ctx.from,
                recipient: ctx.to,
                amount: parts.0,
            }) && plan.fee_charged == (TransferFeeCharged {
                sender: ctx.from,
                fee_receiver: ctx.fee_receiver,
                fee_amount: parts.1,
            }),
            Err(e) => r == Err::<TransferPlan, CustomError>(e),
        },
{
    if amount == 0 {
        return Err(CustomError::InvalidAmount);
    }
    let fee_percent = state.transfer_fee_percent as u64;
    let product = match amount.checked_mul(fee_percent) {
        Some(x) => x,
        None => {
            return Err(CustomError::Overflow);
        },
    };
    let fee_amount = product / 100;
    let net_amount = match amount.checked_sub(fee_amount) {
        Some(x) => x,
        None => {
            return Err(CustomError::Overflow);
        },
    };
    if net_amount == 0 {
        return Err(CustomError::InvalidAmount);
    }
    Ok(
        TransferPlan {
            net_amount,
            fee_amount,
            transferred: TokensTransferred { sender: ctx.from, recipient: ctx.to, amount: net_amount },
            fee_charged: TransferFeeCharged {
                sender: ctx.from,
                fee_receiver: ctx.fee_receiver,
                fee_amount,
            },
        },
    )
}

/// Under a well-formed configuration the fee never reaches the amount, so
/// the defensive overflow and zero-net branches of the plan cannot fire: a
/// positive amount always yields a plan whose parts sum back to the amount,
/// with a positive net part.
pub proof fn lemma_transfer_defensive_checks_unreachable(s: TokenState, amount: u64)
    requires
        s.wf(),
        amount > 0,
        amount * s.transfer_fee_percent <= u64::MAX,
    ensures
        spec_transfer_plan(s, amount) matches Ok(parts) && parts.0 + parts.1 == amount && parts.0
            > 0,
{
    let p = s.transfer_fee_percent;
    assert(amount * p <= amount * 10) by (nonlinear_arith)
        requires
            p <= 10,
            amount > 0,
    ;
    assert(amount * 10 < amount * 100) by (nonlinear_arith)
        requires
            amount > 0,
    ;
    lemma_div_is_ordered(amount * p, amount * 100 - 1, 100);
    assert((amount * 100 - 1) / 100 < amount) by (nonlinear_arith)
        requires
            amount > 0,
    ;
}

} // verus!
