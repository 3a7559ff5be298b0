use vstd::prelude::*;

use crate::identity::AccountId;

verus! {

/// The singleton emission ledger: the supply cap, the cumulative amount
/// emitted so far, the stored configuration parameters, the epoch counter,
/// the governed mint, and the authority-derivation nonce computed once at
/// creation.
#[derive(Clone, Copy, Debug, PartialEq, Eq)]
#[verifier::ext_equal]
pub struct EmissionState {
    /// Maximum cumulative emission; `emitted` may never pass it.
    pub cap: u64,
    /// Cumulative amount minted so far; never decreases.
    pub emitted: u64,
    /// Stored configuration; validated for width only, consumed by no formula
    /// here (decay scheduling is out of scope).
    pub base_rate_per_day: u64,
    /// Stored configuration, as `base_rate_per_day`.
    pub annual_decay_bps: u16,
    /// Target reward per participant and epoch, in micro-units of the token's
    /// base unit.
    pub throttle_target_per_user_micros: u64,
    /// Stored configuration, as `base_rate_per_day`.
    pub clamp_min_bps: u16,
    /// Stored configuration, as `base_rate_per_day`.
    pub clamp_max_bps: u16,
    /// The monotonically non-decreasing epoch counter: the single source of
    /// truth for "what epoch is it now".
    pub last_epoch: u64,
    /// Identity of the token type this state governs.
    pub mint: AccountId,
    /// The authority-derivation nonce for the singleton, stored at creation
    /// and reproduced exactly on every later signing step.
    pub derivation_nonce: u8,
}

/// One participant's record: the owner identity, the registration counter,
/// the creation time, the record's derivation nonce, and the epoch value of
/// the participant's last successful claim.
#[derive(Clone, Copy, Debug, PartialEq, Eq)]
#[verifier::ext_equal]
pub struct UserAccount {
    /// The participant's identity; immutable after creation.
    pub owner: AccountId,
    /// Count of registration events, saturating-incremented.
    pub device_count: u16,
    /// Timestamp of first registration.
    pub created_at: i64,
    /// The authority-derivation nonce for this record.
    pub derivation_nonce: u8,
    /// The epoch value at which this participant last claimed; a claim may
    /// only succeed while `last_epoch` is strictly greater.
    pub last_claim_epoch: u64,
}

/// An external token holding as the transitions see it: its owner, the token
/// type it holds, and its balance in base units.
#[derive(Clone, Copy, Debug, PartialEq, Eq)]
#[verifier::ext_equal]
pub struct TokenHolding {
    /// The identity authorized to move funds out of this holding.
    pub owner: AccountId,
    /// The token type held.
    pub mint: AccountId,
    /// The balance, in base units.
    pub amount: u64,
}

/// Stored size of the emission singleton: an 8-byte record-kind
/// discriminator prefix plus the 87-byte field payload.
pub const EMISSION_STATE_SIZE: usize = 8 + 87;

/// Stored size of a participant record: an 8-byte record-kind discriminator
/// prefix plus the 59-byte field payload.
pub const USER_ACCOUNT_SIZE: usize = 8 + 59;

/// The emission invariant: cumulative emission never passes the cap.
pub open spec fn emission_within_cap(s: EmissionState) -> bool {
    s.emitted <= s.cap
}

/// The claim-gate invariant for one participant: the recorded claim epoch
/// never passes the global epoch counter.
pub open spec fn claim_gate_consistent(s: EmissionState, u: UserAccount) -> bool {
    u.last_claim_epoch <= s.last_epoch
}

/// Saturating 64-bit addition.
pub open spec fn sat_add_u64(a: u64, b: u64) -> u64 {
    if a + b <= u64::MAX {
        (a + b) as u64
    } else {
        u64::MAX
    }
}

/// Saturating 64-bit subtraction.
pub open spec fn sat_sub_u64(a: u64, b: u64) -> u64 {
    if a >= b {
        (a - b) as u64
    } else {
        0
    }
}

/// The configured target converted from micro-units to base units; integer
/// division truncates toward zero, fractional micro-remainders are discarded.
pub open spec fn target_base_units(s: EmissionState) -> u64 {
    s.throttle_target_per_user_micros / 1_000_000
}

/// How much supply is still available under the cap.
pub open spec fn remaining_supply(s: EmissionState) -> u64 {
    sat_sub_u64(s.cap, s.emitted)
}

/// The amount one successful claim mints: the configured target in base
/// units, capped by the remaining supply.
pub open spec fn claim_amount(s: EmissionState) -> u64 {
    if target_base_units(s) <= remaining_supply(s) {
        target_base_units(s)
    } else {
        remaining_supply(s)
    }
}

/// The emission state after overwriting the six tunable parameters;
/// `emitted`, `last_epoch`, `mint` and the nonce are untouched.
pub open spec fn configured(
    s: EmissionState,
    cap: u64,
    base_rate_per_day: u64,
    annual_decay_bps: u16,
    throttle_target_per_user_micros: u64,
    clamp_min_bps: u16,
    clamp_max_bps: u16,
) -> EmissionState {
    EmissionState {
        cap,
        base_rate_per_day,
        annual_decay_bps,
        throttle_target_per_user_micros,
        clamp_min_bps,
        clamp_max_bps,
        ..s
    }
}

/// A holding after `amount` base units left it.
pub open spec fn debited(h: TokenHolding, amount: u64) -> TokenHolding
    recommends
        amount <= h.amount,
{
    TokenHolding { amount: (h.amount - amount) as u64, ..h }
}

/// A holding after `amount` base units arrived in it.
pub open spec fn credited(h: TokenHolding, amount: u64) -> TokenHolding
    recommends
        h.amount + amount <= u64::MAX,
{
    TokenHolding { amount: (h.amount + amount) as u64, ..h }
}

/// Both ledger invariants at once: cumulative emission within the cap, and
/// one participant's claim gate consistent with the epoch counter.
pub open spec fn ledger_invariant(s: EmissionState, u: UserAccount) -> bool {
    emission_within_cap(s) && claim_gate_consistent(s, u)
}

/// What one transition call may do to the singleton and one participant's
/// record: leave both unchanged (a refused call, a collateral transfer, or
/// a read); overwrite the parameters, here restricted to a cap no lower
/// than what was already emitted; advance the epoch counter by one,
/// saturating; or commit a claim whose gate and amount guards passed.
pub open spec fn ledger_step(
    pre_s: EmissionState,
    pre_u: UserAccount,
    post_s: EmissionState,
    post_u: UserAccount,
) -> bool {
    ||| (post_s == pre_s && post_u == pre_u)
    ||| (exists|cap: u64, base: u64, decay: u16, throttle: u64, lo: u16, hi: u16|
        cap >= pre_s.emitted && post_s == #[trigger] configured(
            pre_s,
            cap,
            base,
            decay,
            throttle,
            lo,
            hi,
        ) && post_u == pre_u)
    ||| (post_s == (EmissionState { last_epoch: sat_add_u64(pre_s.last_epoch, 1), ..pre_s })
        && post_u == pre_u)
    ||| (pre_u.last_claim_epoch < pre_s.last_epoch && claim_amount(pre_s) != 0 && post_s == (
    EmissionState { emitted: sat_add_u64(pre_s.emitted, claim_amount(pre_s)), ..pre_s }) && post_u
        == (UserAccount { last_claim_epoch: pre_s.last_epoch, ..pre_u }))
}

} // verus!
