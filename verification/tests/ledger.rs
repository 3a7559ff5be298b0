use anchor_lang::prelude::Pubkey;
use stride_emission::errors::ErrorCode;
use stride_emission::identity::AccountId;
use stride_emission::records::{EmissionState, TokenHolding, UserAccount};
use stride_emission::transitions::{
    claim_rewards, configure_emission_state, initialize_emission_state, stake_device,
    stake_device_init, unstake_device, update_epoch, ClaimRewards, ConfigureEmissionState,
    InitializeEmissionState, StakeDevice, StakeDeviceInit, UnstakeDevice, UpdateEpoch,
};

fn id(b: u8) -> AccountId {
    AccountId { bytes: [b; 32] }
}

fn new_state(program: AccountId, mint: AccountId, cap: u64, throttle: u64) -> EmissionState {
    let ctx = InitializeEmissionState { program, payer: id(9), mint };
    initialize_emission_state(&ctx, cap, 7, 300, throttle, 100, 20000).unwrap()
}

fn register(program: AccountId, state: &EmissionState, payer: AccountId) -> UserAccount {
    let ctx = StakeDeviceInit { state: *state, payer, program };
    stake_device_init(&ctx, 1_700_000_000).unwrap()
}

fn vault_owner(program: AccountId, payer: AccountId) -> AccountId {
    let pk = Pubkey::new_from_array(program.bytes);
    let (user_key, _) = Pubkey::try_find_program_address(&[b"user", &payer.bytes], &pk).unwrap();
    let (vault_key, _) =
        Pubkey::try_find_program_address(&[b"vault", &user_key.to_bytes()], &pk).unwrap();
    AccountId { bytes: vault_key.to_bytes() }
}

#[test]
fn identity_equality_is_byte_for_byte() {
    let a = id(5);
    let mut b = id(5);
    assert!(a.equals(&b));
    b.bytes[31] = 6;
    assert!(!a.equals(&b));
}

#[test]
fn initialize_sets_fresh_state() {
    let program = id(1);
    let mint = id(2);
    let st = new_state(program, mint, 1000, 10_000_000);
    assert_eq!(st.cap, 1000);
    assert_eq!(st.emitted, 0);
    assert_eq!(st.last_epoch, 0);
    assert_eq!(st.mint, mint);
    assert_eq!(st.base_rate_per_day, 7);
    assert_eq!(st.annual_decay_bps, 300);
    assert_eq!(st.throttle_target_per_user_micros, 10_000_000);
    assert_eq!(st.clamp_min_bps, 100);
    assert_eq!(st.clamp_max_bps, 20000);
}

#[test]
fn initialize_stores_the_real_derivation_nonce() {
    let program = id(1);
    let st = new_state(program, id(2), 1000, 10_000_000);
    let pk = Pubkey::new_from_array(program.bytes);
    let (_addr, nonce) = Pubkey::try_find_program_address(&[b"emission_state"], &pk).unwrap();
    assert_eq!(st.derivation_nonce, nonce);
}

#[test]
fn register_stores_owner_time_and_nonce() {
    let program = id(1);
    let payer = id(3);
    let st = new_state(program, id(2), 1000, 10_000_000);
    let user = register(program, &st, payer);
    assert_eq!(user.owner, payer);
    assert_eq!(user.device_count, 1);
    assert_eq!(user.created_at, 1_700_000_000);
    assert_eq!(user.last_claim_epoch, 0);
    let pk = Pubkey::new_from_array(program.bytes);
    let (_key, nonce) = Pubkey::try_find_program_address(&[b"user", &payer.bytes], &pk).unwrap();
    assert_eq!(user.derivation_nonce, nonce);
}

#[test]
fn configure_overwrites_parameters_only() {
    let st = new_state(id(1), id(2), 1000, 10_000_000);
    let mut ctx = ConfigureEmissionState { state: st, payer: id(9) };
    assert_eq!(configure_emission_state(&mut ctx, 2000, 8, 400, 5_000_000, 1, 9999), Ok(()));
    assert_eq!(ctx.state.cap, 2000);
    assert_eq!(ctx.state.base_rate_per_day, 8);
    assert_eq!(ctx.state.annual_decay_bps, 400);
    assert_eq!(ctx.state.throttle_target_per_user_micros, 5_000_000);
    assert_eq!(ctx.state.clamp_min_bps, 1);
    assert_eq!(ctx.state.clamp_max_bps, 9999);
    assert_eq!(ctx.state.emitted, st.emitted);
    assert_eq!(ctx.state.last_epoch, st.last_epoch);
    assert_eq!(ctx.state.mint, st.mint);
    assert_eq!(ctx.state.derivation_nonce, st.derivation_nonce);
}

#[test]
fn configure_twice_equals_configure_once() {
    let st = new_state(id(1), id(2), 1000, 10_000_000);
    let mut once = ConfigureEmissionState { state: st, payer: id(9) };
    let mut twice = ConfigureEmissionState { state: st, payer: id(9) };
    configure_emission_state(&mut once, 2000, 8, 400, 5_000_000, 1, 9999).unwrap();
    configure_emission_state(&mut twice, 2000, 8, 400, 5_000_000, 1, 9999).unwrap();
    configure_emission_state(&mut twice, 2000, 8, 400, 5_000_000, 1, 9999).unwrap();
    assert_eq!(once.state, twice.state);
}

#[test]
fn epoch_gate_admits_one_claim_per_epoch() {
    let program = id(1);
    let mint = id(2);
    let payer = id(3);
    let mut st = new_state(program, mint, 1000, 10_000_000);
    st.last_epoch = 5;
    let mut user = register(program, &st, payer);
    user.last_claim_epoch = 5;
    let user_ata = TokenHolding { owner: payer, mint, amount: 0 };
    let mut ctx = ClaimRewards { state: st, user, user_ata, payer, program };
    assert_eq!(claim_rewards(&mut ctx), Err(ErrorCode::AlreadyClaimedToday));
    assert_eq!(ctx.user_ata.amount, 0);
    assert_eq!(ctx.state.emitted, 0);

    let mut tick = UpdateEpoch { state: ctx.state };
    update_epoch(&mut tick).unwrap();
    ctx.state = tick.state;
    assert_eq!(ctx.state.last_epoch, 6);

    assert_eq!(claim_rewards(&mut ctx), Ok(()));
    assert_eq!(ctx.user_ata.amount, 10);
    assert_eq!(ctx.state.emitted, 10);
    assert_eq!(ctx.user.last_claim_epoch, 6);

    assert_eq!(claim_rewards(&mut ctx), Err(ErrorCode::AlreadyClaimedToday));
    assert_eq!(ctx.user_ata.amount, 10);
    assert_eq!(ctx.state.emitted, 10);
}

#[test]
fn cap_limits_the_final_claim() {
    let program = id(1);
    let mint = id(2);
    let payer = id(3);
    let mut st = new_state(program, mint, 1000, 10_000_000);
    st.emitted = 995;
    st.last_epoch = 1;
    let user = register(program, &st, payer);
    let user_ata = TokenHolding { owner: payer, mint, amount: 0 };
    let mut ctx = ClaimRewards { state: st, user, user_ata, payer, program };

    assert_eq!(claim_rewards(&mut ctx), Ok(()));
    assert_eq!(ctx.user_ata.amount, 5);
    assert_eq!(ctx.state.emitted, 1000);

    let mut tick = UpdateEpoch { state: ctx.state };
    update_epoch(&mut tick).unwrap();
    ctx.state = tick.state;
    assert_eq!(claim_rewards(&mut ctx), Err(ErrorCode::EmissionExhausted));
    assert_eq!(ctx.user_ata.amount, 5);
    assert_eq!(ctx.state.emitted, 1000);
}

#[test]
fn micro_units_truncate_toward_zero() {
    let program = id(1);
    let mint = id(2);
    let payer = id(3);
    let mut st = new_state(program, mint, 1_000_000, 1_999_999);
    st.last_epoch = 1;
    let user = register(program, &st, payer);
    let user_ata = TokenHolding { owner: payer, mint, amount: 0 };
    let mut ctx = ClaimRewards { state: st, user, user_ata, payer, program };
    assert_eq!(claim_rewards(&mut ctx), Ok(()));
    assert_eq!(ctx.user_ata.amount, 1);
    assert_eq!(ctx.state.emitted, 1);
}

#[test]
fn sub_unit_target_is_exhausted() {
    let program = id(1);
    let mint = id(2);
    let payer = id(3);
    let mut st = new_state(program, mint, 1_000_000, 999_999);
    st.last_epoch = 1;
    let user = register(program, &st, payer);
    let user_ata = TokenHolding { owner: payer, mint, amount: 0 };
    let mut ctx = ClaimRewards { state: st, user, user_ata, payer, program };
    assert_eq!(claim_rewards(&mut ctx), Err(ErrorCode::EmissionExhausted));
    assert_eq!(ctx.user_ata.amount, 0);
    assert_eq!(ctx.state.emitted, 0);
}

#[test]
fn claim_rejects_a_corrupted_nonce() {
    let program = id(1);
    let mint = id(2);
    let payer = id(3);
    let mut st = new_state(program, mint, 1000, 10_000_000);
    st.last_epoch = 1;
    st.derivation_nonce = st.derivation_nonce.wrapping_add(1);
    let user = register(program, &st, payer);
    let user_ata = TokenHolding { owner: payer, mint, amount: 0 };
    let mut ctx = ClaimRewards { state: st, user, user_ata, payer, program };
    assert_eq!(claim_rewards(&mut ctx), Err(ErrorCode::DerivationMismatch));
    assert_eq!(ctx.user_ata.amount, 0);
    assert_eq!(ctx.state.emitted, 0);
}

#[test]
fn stake_then_unstake_restores_balances() {
    let program = id(1);
    let mint = id(2);
    let payer = id(3);
    let st = new_state(program, mint, 1000, 10_000_000);
    let user = register(program, &st, payer);
    let user_ata = TokenHolding { owner: payer, mint, amount: 100 };
    let vault_ata = TokenHolding { owner: vault_owner(program, payer), mint, amount: 0 };

    let mut sctx = StakeDevice { state: st, user, user_ata, vault_ata, payer };
    assert_eq!(stake_device(&mut sctx, 40), Ok(()));
    assert_eq!(sctx.user_ata.amount, 60);
    assert_eq!(sctx.vault_ata.amount, 40);

    let mut uctx = UnstakeDevice {
        state: st,
        user,
        user_ata: sctx.user_ata,
        vault_ata: sctx.vault_ata,
        payer,
        program,
    };
    assert_eq!(unstake_device(&mut uctx, 40), Ok(()));
    assert_eq!(uctx.user_ata.amount, 100);
    assert_eq!(uctx.vault_ata.amount, 0);
}

#[test]
fn stake_rejects_zero_amount() {
    let program = id(1);
    let mint = id(2);
    let payer = id(3);
    let st = new_state(program, mint, 1000, 10_000_000);
    let user = register(program, &st, payer);
    let user_ata = TokenHolding { owner: payer, mint, amount: 100 };
    let vault_ata = TokenHolding { owner: vault_owner(program, payer), mint, amount: 0 };
    let mut ctx = StakeDevice { state: st, user, user_ata, vault_ata, payer };
    assert_eq!(stake_device(&mut ctx, 0), Err(ErrorCode::InvalidAmount));
    assert_eq!(ctx.user_ata.amount, 100);
    assert_eq!(ctx.vault_ata.amount, 0);
}

#[test]
fn stake_with_foreign_holding_is_rejected() {
    let program = id(1);
    let mint = id(2);
    let payer = id(3);
    let st = new_state(program, mint, 1000, 10_000_000);
    let user = register(program, &st, payer);
    let user_ata = TokenHolding { owner: id(4), mint, amount: 100 };
    let vault_ata = TokenHolding { owner: vault_owner(program, payer), mint, amount: 0 };
    let mut ctx = StakeDevice { state: st, user, user_ata, vault_ata, payer };
    assert_eq!(stake_device(&mut ctx, 40), Err(ErrorCode::OwnerMismatch));
    assert_eq!(ctx.user_ata.amount, 100);
    assert_eq!(ctx.vault_ata.amount, 0);
}

#[test]
fn stake_for_a_foreign_record_is_rejected() {
    let program = id(1);
    let mint = id(2);
    let payer = id(3);
    let st = new_state(program, mint, 1000, 10_000_000);
    let user = register(program, &st, id(4));
    let user_ata = TokenHolding { owner: payer, mint, amount: 100 };
    let vault_ata = TokenHolding { owner: vault_owner(program, payer), mint, amount: 0 };
    let mut ctx = StakeDevice { state: st, user, user_ata, vault_ata, payer };
    assert_eq!(stake_device(&mut ctx, 40), Err(ErrorCode::OwnerMismatch));
    assert_eq!(ctx.user_ata.amount, 100);
}

#[test]
fn stake_rejects_a_wrong_mint() {
    let program = id(1);
    let mint = id(2);
    let payer = id(3);
    let st = new_state(program, mint, 1000, 10_000_000);
    let user = register(program, &st, payer);
    let user_ata = TokenHolding { owner: payer, mint, amount: 100 };
    let vault_ata = TokenHolding { owner: vault_owner(program, payer), mint: id(7), amount: 0 };
    let mut ctx = StakeDevice { state: st, user, user_ata, vault_ata, payer };
    assert_eq!(stake_device(&mut ctx, 40), Err(ErrorCode::MintMismatch));
    assert_eq!(ctx.user_ata.amount, 100);
    assert_eq!(ctx.vault_ata.amount, 0);
}

#[test]
fn unstake_rejects_a_corrupted_record_nonce() {
    let program = id(1);
    let mint = id(2);
    let payer = id(3);
    let st = new_state(program, mint, 1000, 10_000_000);
    let mut user = register(program, &st, payer);
    user.derivation_nonce = user.derivation_nonce.wrapping_add(1);
    let user_ata = TokenHolding { owner: payer, mint, amount: 60 };
    let vault_ata = TokenHolding { owner: vault_owner(program, payer), mint, amount: 40 };
    let mut ctx = UnstakeDevice { state: st, user, user_ata, vault_ata, payer, program };
    assert_eq!(unstake_device(&mut ctx, 40), Err(ErrorCode::DerivationMismatch));
    assert_eq!(ctx.user_ata.amount, 60);
    assert_eq!(ctx.vault_ata.amount, 40);
}

#[test]
fn unstake_rejects_a_foreign_vault() {
    let program = id(1);
    let mint = id(2);
    let payer = id(3);
    let st = new_state(program, mint, 1000, 10_000_000);
    let user = register(program, &st, payer);
    let user_ata = TokenHolding { owner: payer, mint, amount: 60 };
    let vault_ata = TokenHolding { owner: id(8), mint, amount: 40 };
    let mut ctx = UnstakeDevice { state: st, user, user_ata, vault_ata, payer, program };
    assert_eq!(unstake_device(&mut ctx, 40), Err(ErrorCode::OwnerMismatch));
    assert_eq!(ctx.user_ata.amount, 60);
    assert_eq!(ctx.vault_ata.amount, 40);
}

#[test]
fn claim_rejects_a_wrong_holding_mint() {
    let program = id(1);
    let mint = id(2);
    let payer = id(3);
    let mut st = new_state(program, mint, 1000, 10_000_000);
    st.last_epoch = 1;
    let user = register(program, &st, payer);
    let user_ata = TokenHolding { owner: payer, mint: id(7), amount: 0 };
    let mut ctx = ClaimRewards { state: st, user, user_ata, payer, program };
    assert_eq!(claim_rewards(&mut ctx), Err(ErrorCode::MintMismatch));
    assert_eq!(ctx.state.emitted, 0);
}

#[test]
fn record_sizes_match_the_schema() {
    assert_eq!(stride_emission::records::EMISSION_STATE_SIZE, 95);
    assert_eq!(stride_emission::records::USER_ACCOUNT_SIZE, 67);
}

#[test]
fn update_epoch_ticks_and_saturates() {
    let st = new_state(id(1), id(2), 1000, 10_000_000);
    let mut ctx = UpdateEpoch { state: st };
    assert_eq!(update_epoch(&mut ctx), Ok(()));
    assert_eq!(ctx.state.last_epoch, 1);
    ctx.state.last_epoch = u64::MAX;
    assert_eq!(update_epoch(&mut ctx), Ok(()));
    assert_eq!(ctx.state.last_epoch, u64::MAX);
}
