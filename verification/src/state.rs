//! The singleton configuration record and the supply ceilings.

use crate::identity::Identity;
use vstd::prelude::*;

verus! {

broadcast use vstd::array::group_array_axioms;

/// Lifetime ceiling on the supply once further minting has been opened.
pub const MAX_TOTAL_SUPPLY: u64 = 77_000_000_000;

/// Ceiling on the supply while further minting is closed.
pub const INITIAL_MINTABLE_SUPPLY: u64 = 10_000_000_000;

/// The singleton configuration record owned by this core.  It is created
/// once, mutated only through admin-gated calls, and never destroyed.
#[derive(Clone, Copy, Debug)]
pub struct TokenState {
    /// Whether minting beyond the initial ceiling is open.
    pub can_mint_more: bool,
    /// Percentage deducted from every transfer; at most ten after creation.
    pub transfer_fee_percent: u8,
    /// The single identity allowed to change configuration and approve mints.
    pub admin: Identity,
}

impl TokenState {
    /// Well-formedness: the fee percentage stays within zero to ten.
    pub open spec fn wf(self) -> bool {
        self.transfer_fee_percent <= 10
    }

    /// The maximum cumulative supply permitted under this configuration.
    pub open spec fn ceiling(self) -> u64 {
        if self.can_mint_more {
            MAX_TOTAL_SUPPLY
        } else {
            INITIAL_MINTABLE_SUPPLY
        }
    }

    /// The shared admin gate: direct equality of the caller's identity with
    /// the stored administrator identity.
    pub open spec fn spec_is_admin(self, caller: Identity) -> bool {
        caller@ == self.admin@
    }

    /// Executable admin gate, reused by every admin-gated operation.
    pub fn is_admin(&self, caller: &Identity) -> (r: bool)
        ensures
            r == self.spec_is_admin(*caller),
    {
        caller.eq_key(&self.admin)
    }
}

/// The persisted layout of the configuration record: the minting flag in
/// one byte, the fee percentage in one byte, then the 32 bytes of the
/// administrator identity, in fixed order with no version field.
pub open spec fn spec_encode_state(s: TokenState) -> Seq<u8> {
    seq![(if s.can_mint_more { 1u8 } else { 0u8 }), s.transfer_fee_percent] + s.admin@
}

/// The byte strings that decode to a configuration record: exactly 34
/// bytes whose leading flag byte is zero or one.
pub open spec fn state_bytes_ok(b: Seq<u8>) -> bool {
    b.len() == 34 && (b[0] == 0 || b[0] == 1)
}

/// Writes a configuration record in its persisted layout.
pub fn encode_state(s: &TokenState) -> (r: Vec<u8>)
    ensures
        r@ == spec_encode_state(*s),
        state_bytes_ok(r@),
{
    let ghost prefix: Seq<u8> = seq![
        (if s.can_mint_more {
            1u8
        } else {
            0u8
        }),
        s.transfer_fee_percent,
    ];
    let mut out: Vec<u8> = Vec::new();
    out.push(if s.can_mint_more {
        1
    } else {
        0
    });
    out.push(s.transfer_fee_percent);
    assert(out@ =~= prefix + s.admin@.subrange(0, 0));
    let mut i: usize = 0;
    while i < 32
        invariant
            i <= 32,
            out@ == prefix + s.admin@.subrange(0, i as int),
        decreases 32 - i,
    {
        out.push(s.admin.bytes[i]);
        assert(out@ =~= prefix + s.admin@.subrange(0, i + 1));
        i += 1;
    }
    assert(out@ =~= spec_encode_state(*s));
    out
}

/// Reads a configuration record back from its persisted layout.  Exactly
/// the byte strings that `encode_state` produces are accepted, and decoding
/// returns the record they encode.
pub fn decode_state(bytes: &[u8]) -> (r: Option<TokenState>)
    ensures
        match r {
            Some(s) => state_bytes_ok(bytes@) && spec_encode_state(s) == bytes@,
            None => !state_bytes_ok(bytes@),
        },
{
    if bytes.len() != 34 {
        return None;
    }
    let flag = bytes[0];
    if flag > 1 {
        return None;
    }
    let mut admin_bytes: [u8; 32] = [0; 32];
    let mut i: usize = 0;
    while i < 32
        invariant
            i <= 32,
            bytes@.len() == 34,
            forall|j: int| 0 <= j < i ==> admin_bytes@[j] == bytes@[2 + j],
        decreases 32 - i,
    {
        admin_bytes[i] = bytes[2 + i];
        i += 1;
    }
    let s = TokenState {
        can_mint_more: flag == 1,
        transfer_fee_percent: bytes[1],
        admin: Identity { bytes: admin_bytes },
    };
    assert(spec_encode_state(s) =~= bytes@);
    Some(s)
}

/// No two distinct configuration records share a persisted form, so the
/// stored bytes determine the record: together with the contracts of
/// `encode_state` and `decode_state`, decoding what was encoded yields the
/// record that was written.
pub proof fn lemma_state_codec_injective(a: TokenState, b: TokenState)
    requires
        spec_encode_state(a) == spec_encode_state(b),
    ensures
        a == b,
{
    let ea = spec_encode_state(a);
    let eb = spec_encode_state(b);
    assert(ea[0] == (if a.can_mint_more {
        1u8
    } else {
        0u8
    }));
    assert(eb[0] == (if b.can_mint_more {
        1u8
    } else {
        0u8
    }));
    assert(a.can_mint_more == b.can_mint_more);
    assert(ea[1] == a.transfer_fee_percent);
    assert(eb[1] == b.transfer_fee_percent);
    assert(forall|j: int| 0 <= j < 32 ==> a.admin@[j] == ea[2 + j]);
    assert(forall|j: int| 0 <= j < 32 ==> b.admin@[j] == eb[2 + j]);
    assert(a.admin@ =~= b.admin@);
    assert(a.admin.bytes == b.admin.bytes);
}

} // verus!
