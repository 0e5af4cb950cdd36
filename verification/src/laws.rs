//! The library-wide guarantees, stated and proved over the engines' models.
//!
//! Each law speaks about the specification functions that the executable
//! operations are proved to follow exactly, so it carries over to every
//! call of those operations.

use crate::burn::spec_burn_tokens;
use crate::config::{initial_state, spec_set_minting_status, spec_set_transfer_fee};
use crate::errors::CustomError;
use crate::identity::Identity;
use crate::ledger::{spec_apply_transfer_plan, spec_ledger_burn, spec_ledger_mint_to};
use crate::mint::{spec_mint_tokens, spec_supply_gate};
use crate::records::{
    account_bytes_ok, account_initialized, account_mint_of, mint_authority_of, mint_bytes_ok,
    mint_supply_of,
};
use crate::state::{TokenState, MAX_TOTAL_SUPPLY};
use crate::transfer::{
    lemma_transfer_defensive_checks_unreachable, spec_fee_amount, spec_transfer_plan, TransferPlan,
};
use vstd::prelude::*;

verus! {

/// Any admin-gated call with a non-admin caller fails with `Unauthorized`.
/// Since every such error leaves the engines without a result, and the
/// executable operations keep the configuration record unchanged on every
/// error, the configuration is untouched.  For a mint the zero-amount check
/// comes first, so the guarantee holds for every positive amount.
pub proof fn lemma_non_admin_rejected(
    s: TokenState,
    caller: Identity,
    p: u8,
    can_mint: bool,
    amount: u64,
    mint_bytes: Seq<u8>,
    to_bytes: Seq<u8>,
    to_owner_is_program: bool,
    mint_key: Identity,
    mint_auth: Identity,
)
    requires
        !s.spec_is_admin(caller),
    ensures
        spec_set_transfer_fee(s, caller, p) == Err::<TokenState, CustomError>(
            CustomError::Unauthorized,
        ),
        spec_set_minting_status(s, caller, can_mint) == Err::<TokenState, CustomError>(
            CustomError::Unauthorized,
        ),
        amount > 0 ==> spec_mint_tokens(
            s,
            caller,
            amount,
            mint_bytes,
            to_bytes,
            to_owner_is_program,
            mint_key,
            mint_auth,
        ) == Err::<u64, CustomError>(CustomError::Unauthorized),
{
}

/// An amount of zero is rejected with `InvalidAmount` by mint, transfer and
/// burn alike, before anything else is considered, so nothing is mutated.
pub proof fn lemma_zero_amount_rejected(
    s: TokenState,
    caller: Identity,
    mint_bytes: Seq<u8>,
    to_bytes: Seq<u8>,
    from_bytes: Seq<u8>,
    to_owner_is_program: bool,
    mint_key: Identity,
    mint_auth: Identity,
)
    ensures
        spec_transfer_plan(s, 0) == Err::<(u64, u64), CustomError>(CustomError::InvalidAmount),
        spec_mint_tokens(
            s,
            caller,
            0,
            mint_bytes,
            to_bytes,
            to_owner_is_program,
            mint_key,
            mint_auth,
        ) == Err::<u64, CustomError>(CustomError::InvalidAmount),
        spec_burn_tokens(0, from_bytes, mint_key) == Err::<u64, CustomError>(
            CustomError::InvalidAmount,
        ),
{
}

/// A mint succeeds exactly when every gate opens: a positive amount, the
/// administrator calling, a decodable mint whose declared authority is the
/// given derived-authority reference, a decodable, initialized destination
/// of that same mint owned by the token program, and a resulting supply
/// within the active ceiling.  In particular a mint whose declared
/// authority differs from the derived authority fails even for the
/// administrator, and a successful mint never passes the ceiling.
pub proof fn lemma_mint_success_characterized(
    s: TokenState,
    caller: Identity,
    amount: u64,
    mint_bytes: Seq<u8>,
    to_bytes: Seq<u8>,
    to_owner_is_program: bool,
    mint_key: Identity,
    mint_auth: Identity,
)
    ensures
        (spec_mint_tokens(
            s,
            caller,
            amount,
            mint_bytes,
            to_bytes,
            to_owner_is_program,
            mint_key,
            mint_auth,
        ) is Ok) <==> ({
            &&& amount > 0
            &&& s.spec_is_admin(caller)
            &&& mint_bytes_ok(mint_bytes)
            &&& mint_authority_of(mint_bytes) == Some(mint_auth@)
            &&& account_bytes_ok(to_bytes)
            &&& account_initialized(to_bytes)
            &&& account_mint_of(to_bytes) == mint_key@
            &&& to_owner_is_program
            &&& mint_supply_of(mint_bytes) + amount <= s.ceiling()
        }),
        spec_mint_tokens(
            s,
            caller,
            amount,
            mint_bytes,
            to_bytes,
            to_owner_is_program,
            mint_key,
            mint_auth,
        ) matches Ok(new_supply) ==> new_supply == mint_supply_of(mint_bytes) + amount
            && new_supply <= s.ceiling(),
{
    assert(s.ceiling() <= MAX_TOTAL_SUPPLY);
}

/// A mint whose declared authority is present but differs from the
/// derived-authority reference is rejected with `Unauthorized` when every
/// earlier gate opens, a correct admin identity included.
pub proof fn lemma_wrong_authority_rejected(
    s: TokenState,
    caller: Identity,
    amount: u64,
    mint_bytes: Seq<u8>,
    to_bytes: Seq<u8>,
    to_owner_is_program: bool,
    mint_key: Identity,
    mint_auth: Identity,
)
    requires
        amount > 0,
        s.spec_is_admin(caller),
        mint_bytes_ok(mint_bytes),
        mint_authority_of(mint_bytes) is Some,
        mint_authority_of(mint_bytes) != Some(mint_auth@),
        account_bytes_ok(to_bytes),
        account_initialized(to_bytes),
        account_mint_of(to_bytes) == mint_key@,
        to_owner_is_program,
    ensures
        spec_mint_tokens(
            s,
            caller,
            amount,
            mint_bytes,
            to_bytes,
            to_owner_is_program,
            mint_key,
            mint_auth,
        ) == Err::<u64, CustomError>(CustomError::Unauthorized),
{
}

/// An attempt to cross the active ceiling without wrapping is rejected with
/// `ExceedsTotalSupply`; no plan is produced and the supply stays as it
/// was.
pub proof fn lemma_crossing_attempt_rejected(s: TokenState, supply: u64, amount: u64)
    requires
        supply + amount <= u64::MAX,
        supply + amount > s.ceiling(),
    ensures
        spec_supply_gate(s, supply, amount) == Err::<u64, CustomError>(
            CustomError::ExceedsTotalSupply,
        ),
{
}

/// The supply left after a sequence of mints that all pass the supply gate,
/// starting from the given supply; absent as soon as one of them is
/// rejected.
pub open spec fn spec_supply_after_mints(s: TokenState, supply: u64, amounts: Seq<u64>) -> Option<
    u64,
> decreases amounts.len(),
{
    if amounts.len() == 0 {
        Some(supply)
    } else {
        match spec_supply_gate(s, supply, amounts[0]) {
            Ok(next) => spec_supply_after_mints(s, next, amounts.subrange(1, amounts.len() as int)),
            Err(_) => None,
        }
    }
}

/// Cumulative successful mints never pass the active ceiling: while
/// further minting is closed the supply stays within the initial ceiling,
/// and once it is open, within the lifetime ceiling.
pub proof fn lemma_cumulative_mints_never_pass_ceiling(
    s: TokenState,
    supply: u64,
    amounts: Seq<u64>,
)
    requires
        supply <= s.ceiling(),
        spec_supply_after_mints(s, supply, amounts) is Some,
    ensures
        spec_supply_after_mints(s, supply, amounts) matches Some(left) ==> left <= s.ceiling(),
    decreases amounts.len(),
{
    if amounts.len() > 0 {
        match spec_supply_gate(s, supply, amounts[0]) {
            Ok(next) => {
                lemma_cumulative_mints_never_pass_ceiling(
                    s,
                    next,
                    amounts.subrange(1, amounts.len() as int),
                );
            },
            Err(_) => {},
        }
    }
}

/// A successful transfer plan moves the full amount out of the source:
/// the net part to the destination, the fee part to the fee receiver, and
/// the two parts sum back to the amount.  Under a well-formed
/// configuration a positive amount whose fee product does not wrap always
/// yields such a plan.
pub proof fn lemma_transfer_moves_exact_amounts(
    s: TokenState,
    amount: u64,
    plan: TransferPlan,
    from: u64,
    to: u64,
    fee_receiver: u64,
)
    requires
        s.wf(),
        spec_transfer_plan(s, amount) == Ok::<(u64, u64), CustomError>(
            (plan.net_amount, plan.fee_amount),
        ),
        from >= amount,
        to + plan.net_amount <= u64::MAX,
        fee_receiver + plan.fee_amount <= u64::MAX,
    ensures
        plan.net_amount + plan.fee_amount == amount,
        plan.net_amount > 0,
        plan.fee_amount == spec_fee_amount(s.transfer_fee_percent, amount),
        spec_apply_transfer_plan(plan, from, to, fee_receiver) == Some(
            (
                (from - amount) as u64,
                (to + plan.net_amount) as u64,
                (fee_receiver + plan.fee_amount) as u64,
            ),
        ),
{
    lemma_transfer_defensive_checks_unreachable(s, amount);
}

/// Burning an amount within the balance and the supply shrinks both by
/// exactly that amount; burning against a balance record of another mint
/// is rejected with `InvalidRecipientMint` and changes nothing.
pub proof fn lemma_burn_decreases_exactly(
    amount: u64,
    from_bytes: Seq<u8>,
    mint_key: Identity,
    supply: u64,
    balance: u64,
)
    requires
        amount <= balance,
        amount <= supply,
    ensures
        spec_burn_tokens(amount, from_bytes, mint_key) is Ok ==> spec_ledger_burn(
            supply,
            balance,
            amount,
        ) == Some(((supply - amount) as u64, (balance - amount) as u64)),
        amount > 0 && account_bytes_ok(from_bytes) && account_mint_of(from_bytes) != mint_key@
            ==> spec_burn_tokens(amount, from_bytes, mint_key) == Err::<u64, CustomError>(
            CustomError::InvalidRecipientMint,
        ),
{
}

/// The configuration invariant—a fee percentage of at most ten—holds at
/// creation and is preserved by every configuration change.
pub proof fn lemma_config_invariant_preserved(
    s: TokenState,
    caller: Identity,
    p: u8,
    can_mint: bool,
    payer: Identity,
)
    ensures
        initial_state(payer).wf(),
        spec_set_transfer_fee(s, caller, p) matches Ok(s2) ==> s2.wf(),
        s.wf() ==> (spec_set_minting_status(s, caller, can_mint) matches Ok(s2) ==> s2.wf()),
{
}

/// A committed mint grows the destination balance and the supply by
/// exactly the planned amount, so the ledger's new supply agrees with the
/// plan's.
pub proof fn lemma_mint_commit_agrees(supply: u64, balance: u64, amount: u64, new_supply: u64)
    requires
        supply + amount == new_supply,
        balance + amount <= u64::MAX,
    ensures
        spec_ledger_mint_to(supply, balance, amount) == Some(
            (new_supply, (balance + amount) as u64),
        ),
{
}

/// A fee change succeeds exactly for the administrator and a percentage of
/// at most ten; the new percentage is then the one every subsequent
/// transfer is charged with.
pub proof fn lemma_fee_update_applies(s: TokenState, caller: Identity, p: u8, amount: u64)
    ensures
        (spec_set_transfer_fee(s, caller, p) is Ok) <==> (s.spec_is_admin(caller) && p <= 10),
        spec_set_transfer_fee(s, caller, p) matches Ok(s2) ==> s2.wf()
            && s2.transfer_fee_percent == p && (spec_transfer_plan(s2, amount) matches Ok(parts)
            ==> parts.1 == spec_fee_amount(p, amount)),
{
}

} // verus!
