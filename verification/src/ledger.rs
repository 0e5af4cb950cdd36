//! A model of the external ledger's atomic balance operations.
//!
//! The host commits every mutation that one invocation requests either
//! completely or not at all.  These functions state what a committed
//! transfer, mint or burn does to the plain balance and supply values, so
//! that the engines' plans can be followed through to their effect.

use crate::transfer::TransferPlan;
use vstd::prelude::*;

verus! {

/// A committed transfer: the source loses `amount`, the destination gains
/// it.  `None` when the source balance is too small or the destination
/// would wrap, in which case the ledger commits nothing.
pub open spec fn spec_ledger_transfer(from: u64, to: u64, amount: u64) -> Option<(u64, u64)> {
    if from >= amount && to + amount <= u64::MAX {
        Some(((from - amount) as u64, (to + amount) as u64))
    } else {
        None
    }
}

/// A committed mint: the supply and the destination balance both grow by
/// `amount`.  `None` when either would wrap.
pub open spec fn spec_ledger_mint_to(supply: u64, to: u64, amount: u64) -> Option<(u64, u64)> {
    if supply + amount <= u64::MAX && to + amount <= u64::MAX {
        Some(((supply + amount) as u64, (to + amount) as u64))
    } else {
        None
    }
}

/// A committed burn: the supply and the source balance both shrink by
/// `amount`.  `None` when either would go below zero.
pub open spec fn spec_ledger_burn(supply: u64, from: u64, amount: u64) -> Option<(u64, u64)> {
    if supply >= amount && from >= amount {
        Some(((supply - amount) as u64, (from - amount) as u64))
    } else {
        None
    }
}

/// Moves `amount` from one balance to another, as the ledger's atomic
/// transfer does.
pub fn ledger_transfer(from: u64, to: u64, amount: u64) -> (r: Option<(u64, u64)>)
    ensures
        r == spec_ledger_transfer(from, to, amount),
{
    if amount <= from {
        match to.checked_add(amount) {
            Some(new_to) => Some((from - amount, new_to)),
            None => None,
        }
    } else {
        None
    }
}

/// Grows the supply and a destination balance together, as the ledger's
/// atomic mint does.
pub fn ledger_mint_to(supply: u64, to: u64, amount: u64) -> (r: Option<(u64, u64)>)
    ensures
        r == spec_ledger_mint_to(supply, to, amount),
{
    match (supply.checked_add(amount), to.checked_add(amount)) {
        (Some(new_supply), Some(new_to)) => Some((new_supply, new_to)),
        _ => None,
    }
}

/// Shrinks the supply and a source balance together, as the ledger's atomic
/// burn does.
pub fn ledger_burn(supply: u64, from: u64, amount: u64) -> (r: Option<(u64, u64)>)
    ensures
        r == spec_ledger_burn(supply, from, amount),
{
    if amount <= supply && amount <= from {
        Some((supply - amount, from - amount))
    } else {
        None
    }
}

/// Both sub-transfers of a plan, committed together or not at all: first
/// the net amount to the destination, then the fee to the fee receiver,
/// both leaving the same source.  Returns the new source, destination and
/// fee-receiver balances.
pub open spec fn spec_apply_transfer_plan(
    plan: TransferPlan,
    from: u64,
    to: u64,
    fee_receiver: u64,
) -> Option<(u64, u64, u64)> {
    match spec_ledger_transfer(from, to, plan.net_amount) {
        Some(first) => match spec_ledger_transfer(first.0, fee_receiver, plan.fee_amount) {
            Some(second) => Some((second.0, first.1, second.1)),
            None => None,
        },
        None => None,
    }
}

/// Commits the two sub-transfers of a plan against plain balances,
/// both-or-neither.
pub fn apply_transfer_plan(plan: &TransferPlan, from: u64, to: u64, fee_receiver: u64) -> (r:
    Option<(u64, u64, u64)>)
    ensures
        r == spec_apply_transfer_plan(*plan, from, to, fee_receiver),
{
    match ledger_transfer(from, to, plan.net_amount) {
        Some(first) => match ledger_transfer(first.0, fee_receiver, plan.fee_amount) {
            Some(second) => Some((second.0, first.1, second.1)),
            None => None,
        },
        None => None,
    }
}

} // verus!
