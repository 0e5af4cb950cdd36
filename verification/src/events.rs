//! Notifications emitted toward the host's append-only sink.

use crate::identity::Identity;
use vstd::prelude::*;

verus! {

/// New tokens were credited to a balance record.
#[derive(Clone, Copy, Debug, PartialEq, Eq)]
pub struct TokensMinted {
    pub recipient: Identity,
    pub amount: u64,
}

/// Tokens were destroyed from a balance record.
#[derive(Clone, Copy, Debug, PartialEq, Eq)]
pub struct TokensBurned {
    pub owner: Identity,
    pub amount: u64,
}

/// The net part of a transfer reached its destination.
#[derive(Clone, Copy, Debug, PartialEq, Eq)]
pub struct TokensTransferred {
    pub sender: Identity,
    pub recipient: Identity,
    pub amount: u64,
}

/// The fee part of a transfer reached the fee receiver.
#[derive(Clone, Copy, Debug, PartialEq, Eq)]
pub struct TransferFeeCharged {
    pub sender: Identity,
    pub fee_receiver: Identity,
    pub fee_amount: u64,
}

} // verus!
