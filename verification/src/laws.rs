use vstd::prelude::*;

use crate::records::{
    claim_amount, claim_gate_consistent, configured, credited, debited, emission_within_cap,
    ledger_invariant, ledger_step, sat_add_u64, EmissionState, TokenHolding, UserAccount,
};

verus! {

/// Configuring twice with the same parameters leaves the state identical to
/// configuring once: the configuration transition is idempotent.
pub proof fn lemma_configure_idempotent(
    s: EmissionState,
    cap: u64,
    base_rate_per_day: u64,
    annual_decay_bps: u16,
    throttle_target_per_user_micros: u64,
    clamp_min_bps: u16,
    clamp_max_bps: u16,
)
    ensures
        configured(
            configured(
                s,
                cap,
                base_rate_per_day,
                annual_decay_bps,
                throttle_target_per_user_micros,
                clamp_min_bps,
                clamp_max_bps,
            ),
            cap,
            base_rate_per_day,
            annual_decay_bps,
            throttle_target_per_user_micros,
            clamp_min_bps,
            clamp_max_bps,
        ) == configured(
            s,
            cap,
            base_rate_per_day,
            annual_decay_bps,
            throttle_target_per_user_micros,
            clamp_min_bps,
            clamp_max_bps,
        ),
{
}

/// A claim never pushes cumulative emission past the cap: starting within
/// the cap, adding the claim amount (which is capped by the remaining
/// supply) stays within the cap, and the saturating addition never actually
/// saturates.
pub proof fn lemma_claim_keeps_emission_within_cap(s: EmissionState)
    requires
        emission_within_cap(s),
    ensures
        sat_add_u64(s.emitted, claim_amount(s)) == s.emitted + claim_amount(s),
        emission_within_cap(
            (EmissionState { emitted: sat_add_u64(s.emitted, claim_amount(s)), ..s }),
        ),
{
}

/// Advancing the epoch counter preserves every participant's claim-gate
/// invariant: the counter never decreases, so a recorded claim epoch that
/// was consistent stays consistent.
pub proof fn lemma_epoch_advance_preserves_gate(s: EmissionState, u: UserAccount)
    requires
        claim_gate_consistent(s, u),
    ensures
        claim_gate_consistent(
            (EmissionState { last_epoch: sat_add_u64(s.last_epoch, 1), ..s }),
            u,
        ),
{
}

/// Every single transition preserves both ledger invariants: if emission
/// was within the cap and the participant's claim gate was consistent
/// before a step, both still hold after it. The one restriction is built
/// into the step relation itself: a reconfiguration that sets the cap below
/// what was already emitted is excluded, since it breaks the emission
/// invariant by construction.
pub proof fn lemma_step_preserves_invariant(
    pre_s: EmissionState,
    pre_u: UserAccount,
    post_s: EmissionState,
    post_u: UserAccount,
)
    requires
        ledger_invariant(pre_s, pre_u),
        ledger_step(pre_s, pre_u, post_s, post_u),
    ensures
        ledger_invariant(post_s, post_u),
{
}

/// Both ledger invariants hold in every reachable state: along any trace
/// that starts in a state satisfying them (as a fresh initialization and a
/// fresh registration do) and proceeds by single transitions, every point
/// satisfies them.
pub proof fn lemma_reachable_states_keep_invariant(trace: Seq<(EmissionState, UserAccount)>)
    requires
        forall|i: int|
            0 <= i < trace.len() - 1 ==> #[trigger] ledger_step(
                trace[i].0,
                trace[i].1,
                trace[i + 1].0,
                trace[i + 1].1,
            ),
        trace.len() > 0 ==> ledger_invariant(trace[0].0, trace[0].1),
    ensures
        forall|i: int| 0 <= i < trace.len() ==> #[trigger] ledger_invariant(trace[i].0, trace[i].1),
{
    assert forall|i: int| 0 <= i < trace.len() implies #[trigger] ledger_invariant(
        trace[i].0,
        trace[i].1,
    ) by {
        lemma_invariant_at(trace, i);
    }
}

proof fn lemma_invariant_at(trace: Seq<(EmissionState, UserAccount)>, i: int)
    requires
        0 <= i < trace.len(),
        forall|j: int|
            0 <= j < trace.len() - 1 ==> #[trigger] ledger_step(
                trace[j].0,
                trace[j].1,
                trace[j + 1].0,
                trace[j + 1].1,
            ),
        ledger_invariant(trace[0].0, trace[0].1),
    ensures
        ledger_invariant(trace[i].0, trace[i].1),
    decreases i,
{
    if i > 0 {
        lemma_invariant_at(trace, i - 1);
        let j = i - 1;
        assert(ledger_step(trace[j].0, trace[j].1, trace[j + 1].0, trace[j + 1].1));
        lemma_step_preserves_invariant(
            trace[i - 1].0,
            trace[i - 1].1,
            trace[i].0,
            trace[i].1,
        );
    }
}

/// Staking an amount and then unstaking the same amount restores both
/// holdings exactly, for any positive amount within the participant's
/// balance that the vault has room for.
pub proof fn lemma_stake_unstake_round_trip(
    user_ata: TokenHolding,
    vault_ata: TokenHolding,
    amount: u64,
)
    requires
        0 < amount,
        amount <= user_ata.amount,
        vault_ata.amount + amount <= u64::MAX,
    ensures
        credited(debited(user_ata, amount), amount) == user_ata,
        debited(credited(vault_ata, amount), amount) == vault_ata,
{
}

} // verus!
