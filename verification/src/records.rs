//! Decoded views of the external ledger's mint and balance records.
//!
//! Records arrive as raw account bytes in the SPL token `Pack` layout.  The
//! byte-level meaning is stated here as specification functions; the actual
//! decoding is delegated to the `spl_token` crate behind trusted wrappers
//! whose contracts repeat exactly what its `unpack` accepts and returns.

use crate::identity::Identity;
use spl_token::solana_program::program_option::COption;
use spl_token::solana_program::program_pack::Pack;
use spl_token::state::AccountState;
use vstd::prelude::*;

verus! {

/// A mint record as this core reads it: the declared minting authority, if
/// any, and the current supply.
#[derive(Clone, Copy, Debug)]
pub struct MintRecord {
    /// The only identity the ledger recognizes as entitled to mint, when
    /// one is declared.
    pub mint_authority: Option<Identity>,
    /// Current total supply of the mint.
    pub supply: u64,
}

/// Whether a balance record is ready for use or frozen by the mint's freeze
/// authority.  A record that is not yet initialized never decodes.
#[derive(Clone, Copy, Debug, PartialEq, Eq, Structural)]
pub enum AccountStatus {
    Initialized,
    Frozen,
}

/// A balance record as this core reads it.
#[derive(Clone, Copy, Debug)]
pub struct BalanceRecord {
    /// The mint this balance belongs to.
    pub mint: Identity,
    /// The verified owner of the balance.
    pub owner: Identity,
    /// The amount of tokens held.
    pub amount: u64,
    /// Initialization state of the record.
    pub status: AccountStatus,
}

/// The unsigned 64-bit integer held little-endian in eight bytes.
pub open spec fn le_u64(b: Seq<u8>) -> nat {
    (b[0] as nat) + (b[1] as nat) * 0x100 + (b[2] as nat) * 0x1_0000 + (b[3] as nat) * 0x100_0000
        + (b[4] as nat) * 0x1_0000_0000 + (b[5] as nat) * 0x100_0000_0000 + (b[6] as nat)
        * 0x1_0000_0000_0000 + (b[7] as nat) * 0x100_0000_0000_0000
}

/// A four-byte optional-value tag reading "absent".
pub open spec fn coption_tag_none(b: Seq<u8>, i: int) -> bool {
    b[i] == 0 && b[i + 1] == 0 && b[i + 2] == 0 && b[i + 3] == 0
}

/// A four-byte optional-value tag reading "present".
pub open spec fn coption_tag_some(b: Seq<u8>, i: int) -> bool {
    b[i] == 1 && b[i + 1] == 0 && b[i + 2] == 0 && b[i + 3] == 0
}

/// A four-byte optional-value tag that decodes at all.
pub open spec fn coption_tag_ok(b: Seq<u8>, i: int) -> bool {
    coption_tag_none(b, i) || coption_tag_some(b, i)
}

/// The bytes of a mint record that `spl_token`'s checked unpack accepts:
/// exactly 82 bytes; a valid authority tag at offset 0; the initialization
/// flag at offset 45 set to one; a valid freeze-authority tag at offset 46.
pub open spec fn mint_bytes_ok(b: Seq<u8>) -> bool {
    &&& b.len() == 82
    &&& coption_tag_ok(b, 0)
    &&& b[45] == 1
    &&& coption_tag_ok(b, 46)
}

/// The declared minting authority held in mint-record bytes: the 32 bytes
/// after the tag at offset 0, when that tag reads "present".
pub open spec fn mint_authority_of(b: Seq<u8>) -> Option<Seq<u8>> {
    if coption_tag_some(b, 0) {
        Some(b.subrange(4, 36))
    } else {
        None
    }
}

/// The supply held little-endian at offsets 36 to 44 of mint-record bytes.
pub open spec fn mint_supply_of(b: Seq<u8>) -> nat {
    le_u64(b.subrange(36, 44))
}

impl MintRecord {
    /// This record is what the given mint-record bytes hold.
    pub open spec fn matches_bytes(self, b: Seq<u8>) -> bool {
        &&& match mint_authority_of(b) {
            Some(k) => self.mint_authority matches Some(a) && a@ == k,
            None => self.mint_authority is None,
        }
        &&& self.supply == mint_supply_of(b)
    }
}

/// The bytes of a balance record that `spl_token`'s checked unpack accepts:
/// exactly 165 bytes; valid optional-value tags for the delegate (offset
/// 72), the native marker (offset 109) and the close authority (offset
/// 129); a state byte at offset 108 of one (initialized) or two (frozen).
pub open spec fn account_bytes_ok(b: Seq<u8>) -> bool {
    &&& b.len() == 165
    &&& coption_tag_ok(b, 72)
    &&& (b[108] == 1 || b[108] == 2)
    &&& coption_tag_ok(b, 109)
    &&& coption_tag_ok(b, 129)
}

/// The mint reference held in the first 32 bytes of balance-record bytes.
pub open spec fn account_mint_of(b: Seq<u8>) -> Seq<u8> {
    b.subrange(0, 32)
}

/// The owner held at offsets 32 to 64 of balance-record bytes.
pub open spec fn account_owner_of(b: Seq<u8>) -> Seq<u8> {
    b.subrange(32, 64)
}

/// The balance held little-endian at offsets 64 to 72 of balance-record
/// bytes.
pub open spec fn account_amount_of(b: Seq<u8>) -> nat {
    le_u64(b.subrange(64, 72))
}

/// Whether the state byte of balance-record bytes reads "initialized"
/// rather than "frozen".
pub open spec fn account_initialized(b: Seq<u8>) -> bool {
    b[108] == 1
}

impl BalanceRecord {
    /// This record is what the given balance-record bytes hold.
    pub open spec fn matches_bytes(self, b: Seq<u8>) -> bool {
        &&& self.mint@ == account_mint_of(b)
        &&& self.owner@ == account_owner_of(b)
        &&& self.amount == account_amount_of(b)
        &&& (self.status == AccountStatus::Initialized) == account_initialized(b)
    }
}

/// Relies on `spl_token::state::Mint::unpack`: it accepts exactly the bytes
/// of `mint_bytes_ok` (82 bytes, valid optional-authority tags, the
/// initialization flag set) and returns the tagged optional mint authority
/// and the little-endian supply read from them.
#[verifier::external_body]
pub fn unpack_mint(data: &[u8]) -> (r: Option<MintRecord>)
    ensures
        match r {
            Some(m) => mint_bytes_ok(data@) && m.matches_bytes(data@),
            None => !mint_bytes_ok(data@),
        },
{
    let m = match spl_token::state::Mint::unpack(data) {
        Ok(m) => m,
        Err(_) => return None,
    };
    let mint_authority = match m.mint_authority {
        COption::Some(k) => Some(Identity { bytes: k.to_bytes() }),
        COption::None => None,
    };
    Some(MintRecord { mint_authority, supply: m.supply })
}

/// Relies on `spl_token::state::Account::unpack`: it accepts exactly the
/// bytes of `account_bytes_ok` (165 bytes, valid optional-value tags, a
/// state byte of one or two) and returns the mint reference, owner, amount
/// and state read from them.
#[verifier::external_body]
pub fn unpack_token_account(data: &[u8]) -> (r: Option<BalanceRecord>)
    ensures
        match r {
            Some(a) => account_bytes_ok(data@) && a.matches_bytes(data@),
            None => !account_bytes_ok(data@),
        },
{
    let a = match spl_token::state::Account::unpack(data) {
        Ok(a) => a,
        Err(_) => return None,
    };
    let status = match a.state {
        AccountState::Initialized => AccountStatus::Initialized,
        AccountState::Frozen => AccountStatus::Frozen,
        AccountState::Uninitialized => return None,
    };
    let mint = Identity { bytes: a.mint.to_bytes() };
    let owner = Identity { bytes: a.owner.to_bytes() };
    Some(BalanceRecord { mint, owner, amount: a.amount, status })
}

/// Whether an identity is the external token program that must own every
/// balance record a mint credits.
pub uninterp spec fn is_spl_token_program(owner: Seq<u8>) -> bool;

/// Relies on `spl_token::id`: the token program's identity is a fixed
/// constant, so the comparison depends on the owner bytes alone.
#[verifier::external_body]
pub fn owner_is_token_program(owner: &Identity) -> (r: bool)
    ensures
        r == is_spl_token_program(owner@),
{
    owner.bytes == spl_token::id().to_bytes()
}

} // verus!
