//! End-to-end exercises of the token core against real SPL-encoded records.

use spl_token::solana_program::program_option::COption;
use spl_token::solana_program::program_pack::Pack;
use spl_token::solana_program::pubkey::Pubkey;
use spl_token::state::AccountState;

use wowgo::burn::{burn_tokens, BurnTokens};
use wowgo::config::{
    initialize, set_minting_status, set_transfer_fee, Initialize, SetMintingStatus, SetTransferFee,
};
use wowgo::errors::CustomError;
use wowgo::identity::Identity;
use wowgo::ledger::{apply_transfer_plan, ledger_burn, ledger_mint_to, ledger_transfer};
use wowgo::mint::{derive_mint_authority, mint_tokens, MintTokens};
use wowgo::records::{unpack_mint, unpack_token_account, AccountStatus};
use wowgo::state::{decode_state, encode_state, TokenState};
use wowgo::transfer::{transfer_tokens, TransferTokens};

fn id(n: u8) -> Identity {
    Identity { bytes: [n; 32] }
}

fn mint_bytes(authority: Option<[u8; 32]>, supply: u64) -> Vec<u8> {
    let m = spl_token::state::Mint {
        mint_authority: match authority {
            Some(a) => COption::Some(Pubkey::new_from_array(a)),
            None => COption::None,
        },
        supply,
        decimals: 9,
        is_initialized: true,
        freeze_authority: COption::None,
    };
    let mut buf = vec![0u8; 82];
    spl_token::state::Mint::pack(m, &mut buf).unwrap();
    buf
}

fn account_bytes(mint: [u8; 32], owner: [u8; 32], amount: u64, state: AccountState) -> Vec<u8> {
    let a = spl_token::state::Account {
        mint: Pubkey::new_from_array(mint),
        owner: Pubkey::new_from_array(owner),
        amount,
        delegate: COption::None,
        state,
        is_native: COption::None,
        delegated_amount: 0,
        close_authority: COption::None,
    };
    let mut buf = vec![0u8; 165];
    spl_token::state::Account::pack(a, &mut buf).unwrap();
    buf
}

fn token_program() -> Identity {
    Identity { bytes: spl_token::id().to_bytes() }
}

fn mint_ctx(
    mint_key: Identity,
    mint_data: Vec<u8>,
    to_owner: Identity,
    mint_auth: Identity,
    admin: Identity,
) -> MintTokens {
    MintTokens {
        mint_key,
        mint_data,
        to_key: id(40),
        to_data: account_bytes(mint_key.bytes, [41; 32], 0, AccountState::Initialized),
        to_owner,
        mint_auth,
        admin,
    }
}

#[test]
fn initialize_creates_configuration() {
    let mut store: Option<TokenState> = None;
    let created = initialize(&mut store, &Initialize { payer: id(1) });
    assert!(created);
    let state = store.unwrap();
    assert!(state.can_mint_more);
    assert_eq!(state.transfer_fee_percent, 2);
    assert_eq!(state.admin, id(1));
}

#[test]
fn second_initialize_fails_and_keeps_record() {
    let mut store: Option<TokenState> = None;
    assert!(initialize(&mut store, &Initialize { payer: id(1) }));
    let created_again = initialize(&mut store, &Initialize { payer: id(2) });
    assert!(!created_again);
    let state = store.unwrap();
    assert_eq!(state.admin, id(1));
    assert_eq!(state.transfer_fee_percent, 2);
}

#[test]
fn non_admin_cannot_change_fee() {
    let mut store: Option<TokenState> = None;
    initialize(&mut store, &Initialize { payer: id(1) });
    let mut state = store.unwrap();
    let r = set_transfer_fee(&mut state, &SetTransferFee { admin: id(9) }, 5);
    assert_eq!(r, Err(CustomError::Unauthorized));
    assert_eq!(state.transfer_fee_percent, 2);
    assert_eq!(state.admin, id(1));
    assert!(state.can_mint_more);
}

#[test]
fn non_admin_cannot_change_minting_status() {
    let mut state = TokenState { can_mint_more: true, transfer_fee_percent: 2, admin: id(1) };
    let r = set_minting_status(&mut state, &SetMintingStatus { admin: id(9) }, false);
    assert_eq!(r, Err(CustomError::Unauthorized));
    assert!(state.can_mint_more);
}

#[test]
fn admin_changes_minting_status() {
    let mut state = TokenState { can_mint_more: true, transfer_fee_percent: 2, admin: id(1) };
    let r = set_minting_status(&mut state, &SetMintingStatus { admin: id(1) }, false);
    assert_eq!(r, Ok(()));
    assert!(!state.can_mint_more);
}

#[test]
fn fee_above_ten_rejected_ten_accepted() {
    let mut state = TokenState { can_mint_more: true, transfer_fee_percent: 2, admin: id(1) };
    let r = set_transfer_fee(&mut state, &SetTransferFee { admin: id(1) }, 11);
    assert_eq!(r, Err(CustomError::FeeTooHigh));
    assert_eq!(state.transfer_fee_percent, 2);
    let r = set_transfer_fee(&mut state, &SetTransferFee { admin: id(1) }, 10);
    assert_eq!(r, Ok(()));
    assert_eq!(state.transfer_fee_percent, 10);
    let ctx = TransferTokens {
        from: id(2),
        to: id(3),
        fee_receiver: id(4),
        authority: id(2),
    };
    let plan = transfer_tokens(&state, &ctx, 1000).unwrap();
    assert_eq!(plan.fee_amount, 100);
    assert_eq!(plan.net_amount, 900);
}

#[test]
fn two_percent_fee_split_and_balances() {
    let state = TokenState { can_mint_more: true, transfer_fee_percent: 2, admin: id(1) };
    let ctx = TransferTokens {
        from: id(2),
        to: id(3),
        fee_receiver: id(4),
        authority: id(2),
    };
    let plan = transfer_tokens(&state, &ctx, 1000).unwrap();
    assert_eq!(plan.fee_amount, 20);
    assert_eq!(plan.net_amount, 980);
    assert_eq!(plan.transferred.amount, 980);
    assert_eq!(plan.transferred.sender, id(2));
    assert_eq!(plan.transferred.recipient, id(3));
    assert_eq!(plan.fee_charged.fee_amount, 20);
    assert_eq!(plan.fee_charged.fee_receiver, id(4));
    let (from, to, fee_receiver) = apply_transfer_plan(&plan, 5000, 100, 7).unwrap();
    assert_eq!(from, 4000);
    assert_eq!(to, 1080);
    assert_eq!(fee_receiver, 27);
}

#[test]
fn zero_fee_percent_still_plans_fee_sub_transfer() {
    let state = TokenState { can_mint_more: true, transfer_fee_percent: 0, admin: id(1) };
    let ctx = TransferTokens {
        from: id(2),
        to: id(3),
        fee_receiver: id(4),
        authority: id(2),
    };
    let plan = transfer_tokens(&state, &ctx, 55).unwrap();
    assert_eq!(plan.fee_amount, 0);
    assert_eq!(plan.net_amount, 55);
    assert_eq!(plan.fee_charged.fee_amount, 0);
}

#[test]
fn zero_amount_transfer_rejected() {
    let state = TokenState { can_mint_more: true, transfer_fee_percent: 2, admin: id(1) };
    let ctx = TransferTokens {
        from: id(2),
        to: id(3),
        fee_receiver: id(4),
        authority: id(2),
    };
    assert_eq!(transfer_tokens(&state, &ctx, 0), Err(CustomError::InvalidAmount));
}

#[test]
fn transfer_fee_product_overflow_rejected() {
    let state = TokenState { can_mint_more: true, transfer_fee_percent: 10, admin: id(1) };
    let ctx = TransferTokens {
        from: id(2),
        to: id(3),
        fee_receiver: id(4),
        authority: id(2),
    };
    assert_eq!(transfer_tokens(&state, &ctx, u64::MAX), Err(CustomError::Overflow));
}

#[test]
fn zero_amount_mint_rejected() {
    let state = TokenState { can_mint_more: true, transfer_fee_percent: 2, admin: id(1) };
    let ctx = mint_ctx(id(7), mint_bytes(Some([8; 32]), 0), token_program(), id(8), id(1));
    assert_eq!(mint_tokens(&state, &ctx, 0), Err(CustomError::InvalidAmount));
}

#[test]
fn zero_amount_burn_rejected() {
    let ctx = BurnTokens {
        mint_key: id(7),
        from_key: id(5),
        from_data: account_bytes([7; 32], [5; 32], 100, AccountState::Initialized),
        authority: id(5),
    };
    assert_eq!(burn_tokens(&ctx, 0), Err(CustomError::InvalidAmount));
}

#[test]
fn mint_requires_admin() {
    let state = TokenState { can_mint_more: true, transfer_fee_percent: 2, admin: id(1) };
    let ctx = mint_ctx(id(7), mint_bytes(Some([8; 32]), 0), token_program(), id(8), id(9));
    assert_eq!(mint_tokens(&state, &ctx, 10), Err(CustomError::Unauthorized));
}

#[test]
fn mint_happy_path_increases_supply() {
    let state = TokenState { can_mint_more: false, transfer_fee_percent: 2, admin: id(1) };
    let ctx = mint_ctx(id(7), mint_bytes(Some([8; 32]), 500), token_program(), id(8), id(1));
    let plan = mint_tokens(&state, &ctx, 1_000).unwrap();
    assert_eq!(plan.new_supply, 1_500);
    assert_eq!(plan.minted.amount, 1_000);
    assert_eq!(plan.minted.recipient, id(40));
    let (supply, balance) = ledger_mint_to(500, 0, 1_000).unwrap();
    assert_eq!(supply, 1_500);
    assert_eq!(balance, 1_000);
}

#[test]
fn mint_with_undeclared_authority_rejected() {
    let state = TokenState { can_mint_more: true, transfer_fee_percent: 2, admin: id(1) };
    let ctx = mint_ctx(id(7), mint_bytes(None, 0), token_program(), id(8), id(1));
    assert_eq!(mint_tokens(&state, &ctx, 10), Err(CustomError::MintAuthorityMissing));
}

#[test]
fn mint_with_wrong_declared_authority_rejected() {
    let state = TokenState { can_mint_more: true, transfer_fee_percent: 2, admin: id(1) };
    let ctx = mint_ctx(id(7), mint_bytes(Some([30; 32]), 0), token_program(), id(8), id(1));
    assert_eq!(mint_tokens(&state, &ctx, 10), Err(CustomError::Unauthorized));
}

#[test]
fn mint_against_derived_authority_succeeds_others_fail() {
    let program = id(99);
    let mint_key = id(7);
    let derived = derive_mint_authority(&mint_key, &program).unwrap();
    let state = TokenState { can_mint_more: true, transfer_fee_percent: 2, admin: id(1) };
    let good = mint_ctx(
        mint_key,
        mint_bytes(Some(derived.bytes), 0),
        token_program(),
        derived,
        id(1),
    );
    assert!(mint_tokens(&state, &good, 10).is_ok());
    let other = id(31);
    assert_ne!(derived, other);
    let bad = mint_ctx(
        mint_key,
        mint_bytes(Some(other.bytes), 0),
        token_program(),
        derived,
        id(1),
    );
    assert_eq!(mint_tokens(&state, &bad, 10), Err(CustomError::Unauthorized));
}

#[test]
fn derived_authority_is_deterministic_per_mint() {
    let program = id(99);
    let a = derive_mint_authority(&id(7), &program).unwrap();
    let b = derive_mint_authority(&id(7), &program).unwrap();
    assert_eq!(a, b);
    let c = derive_mint_authority(&id(13), &program).unwrap();
    assert_ne!(a, c);
    let (expected, _) = Pubkey::find_program_address(&[b"mint_auth", &[7u8; 32]], &Pubkey::new_from_array([99; 32]));
    assert_eq!(a.bytes, expected.to_bytes());
}

#[test]
fn mint_destination_validation() {
    let state = TokenState { can_mint_more: true, transfer_fee_percent: 2, admin: id(1) };
    let mut ctx = mint_ctx(id(7), mint_bytes(Some([8; 32]), 0), token_program(), id(8), id(1));

    ctx.to_data = vec![1, 2, 3];
    assert_eq!(mint_tokens(&state, &ctx, 10), Err(CustomError::InvalidTokenAccount));

    ctx.to_data = account_bytes([7; 32], [41; 32], 0, AccountState::Frozen);
    assert_eq!(mint_tokens(&state, &ctx, 10), Err(CustomError::AccountNotInitialized));

    ctx.to_data = account_bytes([22; 32], [41; 32], 0, AccountState::Initialized);
    assert_eq!(mint_tokens(&state, &ctx, 10), Err(CustomError::InvalidRecipientMint));

    ctx.to_data = account_bytes([7; 32], [41; 32], 0, AccountState::Initialized);
    ctx.to_owner = id(50);
    assert_eq!(mint_tokens(&state, &ctx, 10), Err(CustomError::InvalidTokenAccount));
}

#[test]
fn mint_with_undecodable_mint_bytes_rejected() {
    let state = TokenState { can_mint_more: true, transfer_fee_percent: 2, admin: id(1) };
    let ctx = mint_ctx(id(7), vec![0u8; 10], token_program(), id(8), id(1));
    assert_eq!(mint_tokens(&state, &ctx, 10), Err(CustomError::InvalidMintAccount));
}

#[test]
fn mint_ceiling_closed_then_open() {
    let mut state = TokenState { can_mint_more: false, transfer_fee_percent: 2, admin: id(1) };
    let supply = 9_999_999_000u64;
    let ctx = mint_ctx(id(7), mint_bytes(Some([8; 32]), supply), token_program(), id(8), id(1));
    assert_eq!(mint_tokens(&state, &ctx, 1_001), Err(CustomError::ExceedsTotalSupply));
    let plan = mint_tokens(&state, &ctx, 1_000).unwrap();
    assert_eq!(plan.new_supply, 10_000_000_000);
    state.can_mint_more = true;
    let plan = mint_tokens(&state, &ctx, 1_001).unwrap();
    assert_eq!(plan.new_supply, 10_000_000_001);
    let huge = mint_ctx(
        id(7),
        mint_bytes(Some([8; 32]), 77_000_000_000 - 5),
        token_program(),
        id(8),
        id(1),
    );
    assert_eq!(mint_tokens(&state, &huge, 6), Err(CustomError::ExceedsTotalSupply));
    let plan = mint_tokens(&state, &huge, 5).unwrap();
    assert_eq!(plan.new_supply, 77_000_000_000);
}

#[test]
fn sequential_mints_stop_at_ceiling() {
    let state = TokenState { can_mint_more: false, transfer_fee_percent: 2, admin: id(1) };
    let mut supply = 9_999_999_997u64;
    for _ in 0..3 {
        let ctx = mint_ctx(id(7), mint_bytes(Some([8; 32]), supply), token_program(), id(8), id(1));
        let plan = mint_tokens(&state, &ctx, 1).unwrap();
        supply = plan.new_supply;
        assert!(supply <= 10_000_000_000);
    }
    assert_eq!(supply, 10_000_000_000);
    let ctx = mint_ctx(id(7), mint_bytes(Some([8; 32]), supply), token_program(), id(8), id(1));
    assert_eq!(mint_tokens(&state, &ctx, 1), Err(CustomError::ExceedsTotalSupply));
}

#[test]
fn mint_supply_overflow_rejected() {
    let state = TokenState { can_mint_more: true, transfer_fee_percent: 2, admin: id(1) };
    let ctx = mint_ctx(id(7), mint_bytes(Some([8; 32]), u64::MAX), token_program(), id(8), id(1));
    assert_eq!(mint_tokens(&state, &ctx, 1), Err(CustomError::Overflow));
}

#[test]
fn burn_decreases_balance_and_supply_exactly() {
    let ctx = BurnTokens {
        mint_key: id(7),
        from_key: id(5),
        from_data: account_bytes([7; 32], [5; 32], 400, AccountState::Initialized),
        authority: id(5),
    };
    let plan = burn_tokens(&ctx, 150).unwrap();
    assert_eq!(plan.amount, 150);
    assert_eq!(plan.burned.amount, 150);
    assert_eq!(plan.burned.owner, id(5));
    let (supply, balance) = ledger_burn(1_000, 400, 150).unwrap();
    assert_eq!(supply, 850);
    assert_eq!(balance, 250);
}

#[test]
fn burn_against_mismatched_mint_rejected() {
    let ctx = BurnTokens {
        mint_key: id(7),
        from_key: id(5),
        from_data: account_bytes([22; 32], [5; 32], 400, AccountState::Initialized),
        authority: id(5),
    };
    assert_eq!(burn_tokens(&ctx, 150), Err(CustomError::InvalidRecipientMint));
}

#[test]
fn burn_with_undecodable_source_rejected() {
    let ctx = BurnTokens {
        mint_key: id(7),
        from_key: id(5),
        from_data: vec![9u8; 20],
        authority: id(5),
    };
    assert_eq!(burn_tokens(&ctx, 150), Err(CustomError::InvalidTokenAccount));
}

#[test]
fn ledger_operations_guard_bounds() {
    assert_eq!(ledger_transfer(100, 50, 30), Some((70, 80)));
    assert_eq!(ledger_transfer(20, 50, 30), None);
    assert_eq!(ledger_transfer(100, u64::MAX, 1), None);
    assert_eq!(ledger_mint_to(u64::MAX, 0, 1), None);
    assert_eq!(ledger_burn(5, 100, 10), None);
    assert_eq!(ledger_burn(100, 5, 10), None);
}

#[test]
fn unpack_mint_reads_fields() {
    let record = unpack_mint(&mint_bytes(Some([8; 32]), 12_345)).unwrap();
    assert_eq!(record.supply, 12_345);
    assert_eq!(record.mint_authority.unwrap(), id(8));
    let record = unpack_mint(&mint_bytes(None, 7)).unwrap();
    assert_eq!(record.supply, 7);
    assert!(record.mint_authority.is_none());
    assert!(unpack_mint(&[0u8; 82]).is_none());
    assert!(unpack_mint(&[0u8; 81]).is_none());
}

#[test]
fn unpack_token_account_reads_fields() {
    let record =
        unpack_token_account(&account_bytes([7; 32], [5; 32], 400, AccountState::Initialized))
            .unwrap();
    assert_eq!(record.mint, id(7));
    assert_eq!(record.owner, id(5));
    assert_eq!(record.amount, 400);
    assert_eq!(record.status, AccountStatus::Initialized);
    let frozen =
        unpack_token_account(&account_bytes([7; 32], [5; 32], 400, AccountState::Frozen)).unwrap();
    assert_eq!(frozen.status, AccountStatus::Frozen);
    assert!(unpack_token_account(&[0u8; 165]).is_none());
    assert!(unpack_token_account(&[0u8; 164]).is_none());
}

#[test]
fn state_codec_round_trips() {
    let state = TokenState { can_mint_more: false, transfer_fee_percent: 7, admin: id(42) };
    let bytes = encode_state(&state);
    assert_eq!(bytes.len(), 34);
    assert_eq!(bytes[0], 0);
    assert_eq!(bytes[1], 7);
    assert_eq!(&bytes[2..], &[42u8; 32]);
    let back = decode_state(&bytes).unwrap();
    assert_eq!(back.can_mint_more, state.can_mint_more);
    assert_eq!(back.transfer_fee_percent, state.transfer_fee_percent);
    assert_eq!(back.admin, state.admin);
}

#[test]
fn state_decode_rejects_bad_bytes() {
    assert!(decode_state(&[1u8; 33]).is_none());
    assert!(decode_state(&[1u8; 35]).is_none());
    let mut bytes = encode_state(&TokenState {
        can_mint_more: true,
        transfer_fee_percent: 2,
        admin: id(1),
    });
    bytes[0] = 2;
    assert!(decode_state(&bytes).is_none());
}

#[test]
fn error_messages_match_taxonomy() {
    assert_eq!(
        CustomError::InvalidAmount.message(),
        "Invalid amount, must be greater than zero."
    );
    assert_eq!(CustomError::Unauthorized.message(), "Unauthorized action.");
    assert_eq!(CustomError::Overflow.message(), "Overflow error.");
    assert_eq!(CustomError::ExceedsTotalSupply.message(), "Exceeds total supply limit.");
    assert_eq!(CustomError::FeeTooHigh.message(), "Transfer fee is too high, must be <= 10%.");
}
