use vstd::prelude::*;

use crate::derivation::{derived_of, try_derive};
use crate::errors::ErrorCode;
use crate::identity::AccountId;
use crate::records::{
    claim_amount, claim_gate_consistent, configured, credited, debited, emission_within_cap,
    ledger_invariant, ledger_step, sat_add_u64, EmissionState, TokenHolding, UserAccount,
};

verus! {

/// What the initialization transition sees: the system identity under which
/// authorities are derived, the caller, and the mint the new state governs.
#[derive(Clone, Copy, Debug, PartialEq, Eq)]
#[verifier::ext_equal]
pub struct InitializeEmissionState {
    pub program: AccountId,
    pub payer: AccountId,
    pub mint: AccountId,
}

/// What the configuration transition sees: the singleton to overwrite and
/// the caller.
#[derive(Clone, Copy, Debug, PartialEq, Eq)]
#[verifier::ext_equal]
pub struct ConfigureEmissionState {
    pub state: EmissionState,
    pub payer: AccountId,
}

/// What the registration transition sees: the singleton (read only, as
/// proof that the system is initialized), the registering participant, and
/// the system identity.
#[derive(Clone, Copy, Debug, PartialEq, Eq)]
#[verifier::ext_equal]
pub struct StakeDeviceInit {
    pub state: EmissionState,
    pub payer: AccountId,
    pub program: AccountId,
}

/// What the staking transition sees: the singleton (read only, for the
/// governed mint), the participant's record, the participant's personal
/// holding, the vault holding, and the caller.
#[derive(Clone, Copy, Debug, PartialEq, Eq)]
#[verifier::ext_equal]
pub struct StakeDevice {
    pub state: EmissionState,
    pub user: UserAccount,
    pub user_ata: TokenHolding,
    pub vault_ata: TokenHolding,
    pub payer: AccountId,
}

/// What the unstaking transition sees: as staking, plus the system identity
/// under which the vault's signing authority is rederived.
#[derive(Clone, Copy, Debug, PartialEq, Eq)]
#[verifier::ext_equal]
pub struct UnstakeDevice {
    pub state: EmissionState,
    pub user: UserAccount,
    pub user_ata: TokenHolding,
    pub vault_ata: TokenHolding,
    pub payer: AccountId,
    pub program: AccountId,
}

/// What the claim transition sees: the singleton, the participant's record,
/// the participant's personal holding, the caller, and the system identity
/// under which the singleton's signing authority is rederived.
#[derive(Clone, Copy, Debug, PartialEq, Eq)]
#[verifier::ext_equal]
pub struct ClaimRewards {
    pub state: EmissionState,
    pub user: UserAccount,
    pub user_ata: TokenHolding,
    pub payer: AccountId,
    pub program: AccountId,
}

/// What the epoch-advance transition sees: the singleton alone.
#[derive(Clone, Copy, Debug, PartialEq, Eq)]
#[verifier::ext_equal]
pub struct UpdateEpoch {
    pub state: EmissionState,
}

/// The exact result of initialization: the fresh singleton with `emitted`
/// and `last_epoch` zero and the derivation nonce stored, or
/// `DerivationMismatch` when no viable nonce exists.
pub open spec fn initialize_outcome(
    c: InitializeEmissionState,
    cap: u64,
    base_rate_per_day: u64,
    annual_decay_bps: u16,
    throttle_target_per_user_micros: u64,
    clamp_min_bps: u16,
    clamp_max_bps: u16,
) -> Result<EmissionState, ErrorCode> {
    match derived_of(c.program, "emission_state"@, None) {
        Some(kn) => Ok(
            EmissionState {
                cap,
                emitted: 0,
                base_rate_per_day,
                annual_decay_bps,
                throttle_target_per_user_micros,
                clamp_min_bps,
                clamp_max_bps,
                last_epoch: 0,
                mint: c.mint,
                derivation_nonce: kn.1,
            },
        ),
        None => Err(ErrorCode::DerivationMismatch),
    }
}

/// Create the emission singleton: set `emitted = 0` and `last_epoch = 0`,
/// store the six parameters and the governed mint, and derive and store the
/// singleton's authority nonce. Create-once enforcement lives at the storage
/// boundary, outside this ledger.
pub fn initialize_emission_state(
    ctx: &InitializeEmissionState,
    cap: u64,
    base_rate_per_day: u64,
    annual_decay_bps: u16,
    throttle_target_per_user_micros: u64,
    clamp_min_bps: u16,
    clamp_max_bps: u16,
) -> (r: Result<EmissionState, ErrorCode>)
    ensures
        r == initialize_outcome(
            *ctx,
            cap,
            base_rate_per_day,
            annual_decay_bps,
            throttle_target_per_user_micros,
            clamp_min_bps,
            clamp_max_bps,
        ),
        r matches Ok(s) ==> emission_within_cap(s),
{
    match try_derive(&ctx.program, "emission_state", None) {
        Some((_authority, nonce)) => Ok(
            EmissionState {
                cap,
                emitted: 0,
                base_rate_per_day,
                annual_decay_bps,
                throttle_target_per_user_micros,
                clamp_min_bps,
                clamp_max_bps,
                last_epoch: 0,
                mint: ctx.mint,
                derivation_nonce: nonce,
            },
        ),
        None => Err(ErrorCode::DerivationMismatch),
    }
}

/// Overwrite the six tunable parameters on the existing singleton; touch
/// neither `emitted`, `last_epoch`, `mint` nor the stored nonce. The call
/// always succeeds: no numeric range validation is imposed beyond the field
/// widths, so a cap set below the amount already emitted is accepted and
/// merely leaves no remaining supply.
pub fn configure_emission_state(
    ctx: &mut ConfigureEmissionState,
    cap: u64,
    base_rate_per_day: u64,
    annual_decay_bps: u16,
    throttle_target_per_user_micros: u64,
    clamp_min_bps: u16,
    clamp_max_bps: u16,
) -> (r: Result<(), ErrorCode>)
    ensures
        r == Ok::<(), ErrorCode>(()),
        final(ctx).state == configured(
            old(ctx).state,
            cap,
            base_rate_per_day,
            annual_decay_bps,
            throttle_target_per_user_micros,
            clamp_min_bps,
            clamp_max_bps,
        ),
        final(ctx).payer == old(ctx).payer,
        cap >= old(ctx).state.emitted && emission_within_cap(old(ctx).state)
            ==> emission_within_cap(final(ctx).state),
        cap >= old(ctx).state.emitted ==> forall|u: UserAccount| #[trigger] ledger_step(
            old(ctx).state,
            u,
            final(ctx).state,
            u,
        ),
{
    ctx.state.cap = cap;
    ctx.state.base_rate_per_day = base_rate_per_day;
    ctx.state.annual_decay_bps = annual_decay_bps;
    ctx.state.throttle_target_per_user_micros = throttle_target_per_user_micros;
    ctx.state.clamp_min_bps = clamp_min_bps;
    ctx.state.clamp_max_bps = clamp_max_bps;
    proof {
        if cap >= old(ctx).state.emitted {
            assert forall|u: UserAccount| #[trigger] ledger_step(
                old(ctx).state,
                u,
                ctx.state,
                u,
            ) by {
                assert(ctx.state == configured(
                    old(ctx).state,
                    cap,
                    base_rate_per_day,
                    annual_decay_bps,
                    throttle_target_per_user_micros,
                    clamp_min_bps,
                    clamp_max_bps,
                ));
            }
        }
    }
    Ok(())
}

/// The exact result of registration: the fresh participant record, or
/// `DerivationMismatch` when no viable nonce exists for the record's seeds.
pub open spec fn register_outcome(c: StakeDeviceInit, now: i64) -> Result<
    UserAccount,
    ErrorCode,
> {
    match derived_of(c.program, "user"@, Some(c.payer)) {
        Some(kn) => Ok(
            UserAccount {
                owner: c.payer,
                device_count: 1,
                created_at: now,
                derivation_nonce: kn.1,
                last_claim_epoch: 0,
            },
        ),
        None => Err(ErrorCode::DerivationMismatch),
    }
}

/// Register a participant: create the record with the caller as owner, the
/// registration count saturating-incremented from its zeroed start, the
/// creation time `now`, a fresh claim gate, and the record's derivation
/// nonce stored. Duplicate-registration rejection lives at the storage
/// boundary, outside this ledger.
pub fn stake_device_init(ctx: &StakeDeviceInit, now: i64) -> (r: Result<UserAccount, ErrorCode>)
    ensures
        r == register_outcome(*ctx, now),
        r matches Ok(u) ==> claim_gate_consistent(ctx.state, u),
        r matches Ok(u) ==> (emission_within_cap(ctx.state)
            ==> ledger_invariant(ctx.state, u)),
{
    match try_derive(&ctx.program, "user", Some(&ctx.payer)) {
        Some((_record_key, nonce)) => Ok(
            UserAccount {
                owner: ctx.payer,
                device_count: 1,
                created_at: now,
                derivation_nonce: nonce,
                last_claim_epoch: 0,
            },
        ),
        None => Err(ErrorCode::DerivationMismatch),
    }
}

/// The guards of the staking transition, in the order they are checked; the
/// first failing guard names the error returned.
pub open spec fn stake_checks(c: StakeDevice, amount: u64) -> Result<(), ErrorCode> {
    if amount == 0 {
        Err(ErrorCode::InvalidAmount)
    } else if c.user.owner@ != c.payer@ {
        Err(ErrorCode::OwnerMismatch)
    } else if c.user_ata.owner@ != c.payer@ {
        Err(ErrorCode::OwnerMismatch)
    } else if c.user_ata.mint@ != c.state.mint@ {
        Err(ErrorCode::MintMismatch)
    } else if c.vault_ata.mint@ != c.state.mint@ {
        Err(ErrorCode::MintMismatch)
    } else {
        Ok(())
    }
}

/// Stake collateral: move `amount` base units of the governed mint from the
/// participant's personal holding into the vault holding, on the
/// participant's own authority. No record counters change; collateral
/// accounting lives entirely in the holdings' balances. On any failing
/// guard, nothing is mutated. Sufficient balance and room in the vault are
/// the external token ledger's own success conditions and are required of
/// the caller.
pub fn stake_device(ctx: &mut StakeDevice, amount: u64) -> (r: Result<(), ErrorCode>)
    requires
        stake_checks(*old(ctx), amount) is Ok ==> amount <= old(ctx).user_ata.amount
            && old(ctx).vault_ata.amount + amount <= u64::MAX,
    ensures
        r == stake_checks(*old(ctx), amount),
        r is Ok ==> final(ctx).user_ata == debited(old(ctx).user_ata, amount)
            && final(ctx).vault_ata == credited(old(ctx).vault_ata, amount)
            && final(ctx).state == old(ctx).state
            && final(ctx).user == old(ctx).user
            && final(ctx).payer == old(ctx).payer,
        r is Err ==> *final(ctx) == *old(ctx),
        ledger_step(old(ctx).state, old(ctx).user, final(ctx).state, final(ctx).user),
{
    if amount == 0 {
        return Err(ErrorCode::InvalidAmount);
    }
    if !ctx.user.owner.equals(&ctx.payer) {
        return Err(ErrorCode::OwnerMismatch);
    }
    if !ctx.user_ata.owner.equals(&ctx.payer) {
        return Err(ErrorCode::OwnerMismatch);
    }
    if !ctx.user_ata.mint.equals(&ctx.state.mint) {
        return Err(ErrorCode::MintMismatch);
    }
    if !ctx.vault_ata.mint.equals(&ctx.state.mint) {
        return Err(ErrorCode::MintMismatch);
    }
    ctx.user_ata.amount = ctx.user_ata.amount - amount;
    ctx.vault_ata.amount = ctx.vault_ata.amount + amount;
    Ok(())
}

/// The exact result of the unstaking transition: the four staking guards,
/// then the rederivation of the participant record (whose nonce must equal
/// the stored one), then the vault authority derived from that record, which
/// must own the vault holding.
pub open spec fn unstake_outcome(c: UnstakeDevice, amount: u64) -> Result<(), ErrorCode> {
    if amount == 0 {
        Err(ErrorCode::InvalidAmount)
    } else if c.user.owner@ != c.payer@ {
        Err(ErrorCode::OwnerMismatch)
    } else if c.user_ata.owner@ != c.payer@ {
        Err(ErrorCode::OwnerMismatch)
    } else if c.user_ata.mint@ != c.state.mint@ {
        Err(ErrorCode::MintMismatch)
    } else if c.vault_ata.mint@ != c.state.mint@ {
        Err(ErrorCode::MintMismatch)
    } else {
        match derived_of(c.program, "user"@, Some(c.payer)) {
            None => Err(ErrorCode::DerivationMismatch),
            Some(record) => if record.1 != c.user.derivation_nonce {
                Err(ErrorCode::DerivationMismatch)
            } else {
                match derived_of(c.program, "vault"@, Some(record.0)) {
                    None => Err(ErrorCode::DerivationMismatch),
                    Some(vault_auth) => if c.vault_ata.owner@ != vault_auth.0@ {
                        Err(ErrorCode::OwnerMismatch)
                    } else {
                        Ok(())
                    },
                }
            },
        }
    }
}

/// Unstake collateral: the inverse of staking. `amount` base units move from
/// the vault holding back to the participant's personal holding, authorized
/// by the vault's derived authority, which is reconstructed here from the
/// participant's identity and the fixed labels; a reconstruction that
/// disagrees with the stored record nonce rejects the call. On any failing
/// guard, nothing is mutated.
pub fn unstake_device(ctx: &mut UnstakeDevice, amount: u64) -> (r: Result<(), ErrorCode>)
    requires
        unstake_outcome(*old(ctx), amount) is Ok ==> amount <= old(ctx).vault_ata.amount
            && old(ctx).user_ata.amount + amount <= u64::MAX,
    ensures
        r == unstake_outcome(*old(ctx), amount),
        r is Ok ==> final(ctx).vault_ata == debited(old(ctx).vault_ata, amount)
            && final(ctx).user_ata == credited(old(ctx).user_ata, amount)
            && final(ctx).state == old(ctx).state
            && final(ctx).user == old(ctx).user
            && final(ctx).payer == old(ctx).payer
            && final(ctx).program == old(ctx).program,
        r is Err ==> *final(ctx) == *old(ctx),
        ledger_step(old(ctx).state, old(ctx).user, final(ctx).state, final(ctx).user),
{
    if amount == 0 {
        return Err(ErrorCode::InvalidAmount);
    }
    if !ctx.user.owner.equals(&ctx.payer) {
        return Err(ErrorCode::OwnerMismatch);
    }
    if !ctx.user_ata.owner.equals(&ctx.payer) {
        return Err(ErrorCode::OwnerMismatch);
    }
    if !ctx.user_ata.mint.equals(&ctx.state.mint) {
        return Err(ErrorCode::MintMismatch);
    }
    if !ctx.vault_ata.mint.equals(&ctx.state.mint) {
        return Err(ErrorCode::MintMismatch);
    }
    let record = match try_derive(&ctx.program, "user", Some(&ctx.payer)) {
        Some(kn) => kn,
        None => {
            return Err(ErrorCode::DerivationMismatch);
        },
    };
    if record.1 != ctx.user.derivation_nonce {
        return Err(ErrorCode::DerivationMismatch);
    }
    let vault_auth = match try_derive(&ctx.program, "vault", Some(&record.0)) {
        Some(kn) => kn,
        None => {
            return Err(ErrorCode::DerivationMismatch);
        },
    };
    if !ctx.vault_ata.owner.equals(&vault_auth.0) {
        return Err(ErrorCode::OwnerMismatch);
    }
    ctx.vault_ata.amount = ctx.vault_ata.amount - amount;
    ctx.user_ata.amount = ctx.user_ata.amount + amount;
    Ok(())
}

/// The exact result of the claim transition: the holder checks, the strict
/// epoch gate, exhaustion of the computed amount, then the rederivation of
/// the singleton's authority, whose nonce must equal the stored one.
pub open spec fn claim_outcome(c: ClaimRewards) -> Result<(), ErrorCode> {
    if c.user.owner@ != c.payer@ {
        Err(ErrorCode::OwnerMismatch)
    } else if c.user_ata.owner@ != c.payer@ {
        Err(ErrorCode::OwnerMismatch)
    } else if c.user_ata.mint@ != c.state.mint@ {
        Err(ErrorCode::MintMismatch)
    } else if c.state.last_epoch <= c.user.last_claim_epoch {
        Err(ErrorCode::AlreadyClaimedToday)
    } else if claim_amount(c.state) == 0 {
        Err(ErrorCode::EmissionExhausted)
    } else {
        match derived_of(c.program, "emission_state"@, None) {
            None => Err(ErrorCode::DerivationMismatch),
            Some(kn) => if kn.1 != c.state.derivation_nonce {
                Err(ErrorCode::DerivationMismatch)
            } else {
                Ok(())
            },
        }
    }
}

/// Claim the epoch reward: gate on `last_epoch` being strictly past the
/// participant's last claim, convert the configured micro-unit target to
/// base units by truncating division, cap it by the remaining supply, and
/// reject a zero result. The mint is authorized by the singleton's own
/// rederived authority; only after it succeeds are `emitted`
/// (saturating) and the participant's claim epoch updated, so a second
/// claim at the same epoch value always fails. On any failing guard,
/// nothing is mutated.
pub fn claim_rewards(ctx: &mut ClaimRewards) -> (r: Result<(), ErrorCode>)
    requires
        claim_outcome(*old(ctx)) is Ok ==> old(ctx).user_ata.amount + claim_amount(
            old(ctx).state,
        ) <= u64::MAX,
    ensures
        r == claim_outcome(*old(ctx)),
        r is Ok ==> final(ctx).user_ata == credited(
            old(ctx).user_ata,
            claim_amount(old(ctx).state),
        ) && final(ctx).state == (EmissionState {
            emitted: sat_add_u64(old(ctx).state.emitted, claim_amount(old(ctx).state)),
            ..old(ctx).state
        }) && final(ctx).user == (UserAccount {
            last_claim_epoch: old(ctx).state.last_epoch,
            ..old(ctx).user
        }) && final(ctx).payer == old(ctx).payer && final(ctx).program == old(ctx).program,
        r is Err ==> *final(ctx) == *old(ctx),
        ledger_step(old(ctx).state, old(ctx).user, final(ctx).state, final(ctx).user),
        old(ctx).state.emitted <= final(ctx).state.emitted,
        emission_within_cap(old(ctx).state) ==> emission_within_cap(final(ctx).state),
        claim_gate_consistent(old(ctx).state, old(ctx).user) ==> claim_gate_consistent(
            final(ctx).state,
            final(ctx).user,
        ),
        r is Ok ==> claim_outcome(*final(ctx)) == Err::<(), ErrorCode>(
            ErrorCode::AlreadyClaimedToday,
        ),
{
    if !ctx.user.owner.equals(&ctx.payer) {
        return Err(ErrorCode::OwnerMismatch);
    }
    if !ctx.user_ata.owner.equals(&ctx.payer) {
        return Err(ErrorCode::OwnerMismatch);
    }
    if !ctx.user_ata.mint.equals(&ctx.state.mint) {
        return Err(ErrorCode::MintMismatch);
    }
    if ctx.state.last_epoch <= ctx.user.last_claim_epoch {
        return Err(ErrorCode::AlreadyClaimedToday);
    }
    let target: u64 = ctx.state.throttle_target_per_user_micros / 1_000_000;
    let remaining: u64 = if ctx.state.cap >= ctx.state.emitted {
        ctx.state.cap - ctx.state.emitted
    } else {
        0
    };
    let amount: u64 = if target <= remaining {
        target
    } else {
        remaining
    };
    if amount == 0 {
        return Err(ErrorCode::EmissionExhausted);
    }
    let authority = match try_derive(&ctx.program, "emission_state", None) {
        Some(kn) => kn,
        None => {
            return Err(ErrorCode::DerivationMismatch);
        },
    };
    if authority.1 != ctx.state.derivation_nonce {
        return Err(ErrorCode::DerivationMismatch);
    }
    ctx.user_ata.amount = ctx.user_ata.amount + amount;
    ctx.state.emitted = if ctx.state.emitted <= u64::MAX - amount {
        ctx.state.emitted + amount
    } else {
        u64::MAX
    };
    ctx.user.last_claim_epoch = ctx.state.last_epoch;
    Ok(())
}

/// Advance the epoch counter by one, saturating. A manual tick stands in
/// for wall-clock time here on purpose; epoch advancement policy is a
/// boundary concern.
pub fn update_epoch(ctx: &mut UpdateEpoch) -> (r: Result<(), ErrorCode>)
    ensures
        r == Ok::<(), ErrorCode>(()),
        final(ctx).state == (EmissionState {
            last_epoch: sat_add_u64(old(ctx).state.last_epoch, 1),
            ..old(ctx).state
        }),
        old(ctx).state.last_epoch <= final(ctx).state.last_epoch,
        emission_within_cap(old(ctx).state) ==> emission_within_cap(final(ctx).state),
        forall|u: UserAccount|
            claim_gate_consistent(old(ctx).state, u) ==> #[trigger] claim_gate_consistent(
                final(ctx).state,
                u,
            ),
        forall|u: UserAccount| #[trigger] ledger_step(old(ctx).state, u, final(ctx).state, u),
{
    ctx.state.last_epoch = if ctx.state.last_epoch <= u64::MAX - 1 {
        ctx.state.last_epoch + 1
    } else {
        u64::MAX
    };
    Ok(())
}

} // verus!
