use staking_derivatives::processor::{
    process, process_compound_rewards, process_deposit_and_mint, process_distribute_rewards,
    process_emergency_unstake, process_withdraw, HostContext,
};
use staking_derivatives::state::{Pubkey, StakingPoolState, ValidatorInfo};
use staking_derivatives::{FeeStructure, StakingError, StakingInstruction};

fn delegate(state: &mut StakingPoolState, seed: u8, staked: u64) {
    state
        .register_validator(ValidatorInfo {
            validator_pubkey: Pubkey { bytes: [seed; 32] },
            stake_account_pubkey: Pubkey { bytes: [seed.wrapping_add(1); 32] },
            total_staked: staked,
        })
        .unwrap();
}

fn fresh_pool() -> StakingPoolState {
    let mut state = StakingPoolState {
        is_initialized: false,
        total_staked: 0,
        total_issued_tokens: 0,
        reward_rate_per_token: 0,
        staking_pool_pubkey: Pubkey { bytes: [0u8; 32] },
        accumulated_fees: 0,
        total_compounded_rewards: 0,
        emergency_unstake_penalties: 0,
        validator_list: Vec::new(),
        reward_checkpoint: 0,
    };
    state.initialize(Pubkey { bytes: [9u8; 32] }).unwrap();
    state
}

fn quiet_ctx() -> HostContext {
    HostContext { current_checkpoint: 0, pending_rewards: 0, emergency_unstake_allowed: true }
}

#[test]
fn deposit_then_withdraw_scenario() {
    let fees = FeeStructure::default();
    let mut state = fresh_pool();
    assert_eq!(process_deposit_and_mint(&mut state, 1_000), Ok(()));
    assert_eq!(state.total_staked, 1_000);
    assert_eq!(state.total_issued_tokens, 1_000);
    assert_eq!(process_withdraw(&mut state, 400, &fees), Ok(()));
    assert_eq!(state.total_staked, 600);
    assert_eq!(state.total_issued_tokens, 600);
    assert_eq!(state.accumulated_fees, 4);
}

#[test]
fn deposit_of_zero_is_invalid() {
    let mut state = fresh_pool();
    let before = state.clone();
    assert_eq!(
        process_deposit_and_mint(&mut state, 0),
        Err(StakingError::InvalidAmount)
    );
    assert_eq!(state, before);
}

#[test]
fn deposit_that_would_overflow_is_invalid() {
    let mut state = fresh_pool();
    state.total_staked = u64::MAX - 10;
    state.total_issued_tokens = u64::MAX - 10;
    let before = state.clone();
    assert_eq!(
        process_deposit_and_mint(&mut state, 11),
        Err(StakingError::InvalidAmount)
    );
    assert_eq!(state, before);
}

#[test]
fn withdraw_above_balance_is_uncovered() {
    let fees = FeeStructure::default();
    let mut state = fresh_pool();
    process_deposit_and_mint(&mut state, 100).unwrap();
    let before = state.clone();
    assert_eq!(
        process_withdraw(&mut state, 400, &fees),
        Err(StakingError::InsufficientFunds)
    );
    assert_eq!(state, before);
}

#[test]
fn withdraw_of_zero_is_invalid() {
    let fees = FeeStructure::default();
    let mut state = fresh_pool();
    process_deposit_and_mint(&mut state, 100).unwrap();
    assert_eq!(
        process_withdraw(&mut state, 0, &fees),
        Err(StakingError::InvalidAmount)
    );
}

#[test]
fn withdraw_cannot_take_delegated_principal() {
    let fees = FeeStructure::default();
    let mut state = fresh_pool();
    process_deposit_and_mint(&mut state, 1_000).unwrap();
    delegate(&mut state, 1, 1_000);
    let before = state.clone();
    assert_eq!(
        process_withdraw(&mut state, 400, &fees),
        Err(StakingError::InsufficientFunds)
    );
    assert_eq!(state, before);
}

#[test]
fn withdraw_of_undelegated_principal_succeeds() {
    let fees = FeeStructure::default();
    let mut state = fresh_pool();
    process_deposit_and_mint(&mut state, 1_000).unwrap();
    delegate(&mut state, 1, 600);
    assert_eq!(process_withdraw(&mut state, 400, &fees), Ok(()));
    assert_eq!(state.total_staked, 600);
    assert_eq!(state.accumulated_fees, 4);
    // The remaining principal still covers the recorded delegation.
    assert_eq!(state.registry_stake_sum(), 600);
    assert_eq!(
        process_withdraw(&mut state, 1, &fees),
        Err(StakingError::InsufficientFunds)
    );
}

#[test]
fn emergency_unstake_cannot_take_delegated_principal() {
    let fees = FeeStructure::default();
    let mut state = fresh_pool();
    process_deposit_and_mint(&mut state, 1_000).unwrap();
    delegate(&mut state, 1, 700);
    let before = state.clone();
    assert_eq!(
        process_emergency_unstake(&mut state, 400, &fees, true),
        Err(StakingError::InsufficientFunds)
    );
    assert_eq!(state, before);
    assert_eq!(process_emergency_unstake(&mut state, 300, &fees, true), Ok(()));
    assert_eq!(state.total_staked, 700);
}

#[test]
fn compound_folds_rewards_and_advances_the_rate() {
    let mut state = fresh_pool();
    process_deposit_and_mint(&mut state, 500).unwrap();
    assert_eq!(process_compound_rewards(&mut state, 1, 1_250), Ok(()));
    assert_eq!(state.total_compounded_rewards, 1_250);
    // 1250 rewards over 500 tokens: 2 per token, floored.
    assert_eq!(state.reward_rate_per_token, 2);
    assert_eq!(state.reward_checkpoint, 1);
}

#[test]
fn compound_without_issued_tokens_fails() {
    let mut state = fresh_pool();
    let before = state.clone();
    assert_eq!(
        process_compound_rewards(&mut state, 1, 1_000),
        Err(StakingError::CompoundingError)
    );
    assert_eq!(state, before);
}

#[test]
fn compound_with_stale_checkpoint_fails() {
    let mut state = fresh_pool();
    process_deposit_and_mint(&mut state, 500).unwrap();
    process_distribute_rewards(&mut state, 5, 0).unwrap();
    let before = state.clone();
    assert_eq!(
        process_compound_rewards(&mut state, 5, 1_000),
        Err(StakingError::CompoundingError)
    );
    assert_eq!(state, before);
    assert_eq!(
        process_compound_rewards(&mut state, 4, 1_000),
        Err(StakingError::CompoundingError)
    );
    assert_eq!(state, before);
    assert_eq!(process_compound_rewards(&mut state, 6, 1_000), Ok(()));
    assert_eq!(state.total_compounded_rewards, 1_000);
}

#[test]
fn compound_twice_at_one_checkpoint_folds_once() {
    let mut state = fresh_pool();
    process_deposit_and_mint(&mut state, 500).unwrap();
    process_compound_rewards(&mut state, 3, 1_000).unwrap();
    let after_first = state.clone();
    assert_eq!(
        process_compound_rewards(&mut state, 3, 1_000),
        Err(StakingError::CompoundingError)
    );
    assert_eq!(state, after_first);
    assert_eq!(state.total_compounded_rewards, 1_000);
}

#[test]
fn distribute_records_a_fresh_checkpoint() {
    let mut state = fresh_pool();
    assert_eq!(process_distribute_rewards(&mut state, 5, 300), Ok(()));
    assert_eq!(state.reward_checkpoint, 5);
    assert_eq!(state.total_compounded_rewards, 300);
}

#[test]
fn distribute_twice_at_one_checkpoint_pays_once() {
    let mut state = fresh_pool();
    process_distribute_rewards(&mut state, 5, 300).unwrap();
    let after_first = state.clone();
    assert_eq!(process_distribute_rewards(&mut state, 5, 300), Ok(()));
    assert_eq!(state.total_compounded_rewards, 300);
    assert_eq!(state, after_first);
}

#[test]
fn distribute_at_an_older_checkpoint_changes_nothing() {
    let mut state = fresh_pool();
    process_distribute_rewards(&mut state, 5, 300).unwrap();
    let after_first = state.clone();
    assert_eq!(process_distribute_rewards(&mut state, 3, 900), Ok(()));
    assert_eq!(state, after_first);
}

#[test]
fn emergency_unstake_charges_the_penalty_rate() {
    let fees = FeeStructure::default();
    let mut state = fresh_pool();
    process_deposit_and_mint(&mut state, 1_000).unwrap();
    assert_eq!(process_emergency_unstake(&mut state, 200, &fees, true), Ok(()));
    assert_eq!(state.total_staked, 800);
    assert_eq!(state.total_issued_tokens, 800);
    // 5% of 200.
    assert_eq!(state.emergency_unstake_penalties, 10);
    assert_eq!(state.accumulated_fees, 0);
}

#[test]
fn emergency_unstake_respects_policy() {
    let fees = FeeStructure::default();
    let mut state = fresh_pool();
    process_deposit_and_mint(&mut state, 1_000).unwrap();
    let before = state.clone();
    assert_eq!(
        process_emergency_unstake(&mut state, 200, &fees, false),
        Err(StakingError::EmergencyUnstakeNotAllowed)
    );
    assert_eq!(state, before);
}

#[test]
fn dispatch_routes_each_variant() {
    let fees = FeeStructure::default();
    let ctx = HostContext {
        current_checkpoint: 9,
        pending_rewards: 120,
        emergency_unstake_allowed: true,
    };
    let mut state = fresh_pool();
    assert_eq!(
        process(&mut state, &StakingInstruction::DepositAndMint { amount: 600 }, &fees, &ctx),
        Ok(())
    );
    assert_eq!(state.total_staked, 600);
    assert_eq!(
        process(&mut state, &StakingInstruction::Withdraw { amount: 100 }, &fees, &ctx),
        Ok(())
    );
    assert_eq!(state.total_staked, 500);
    assert_eq!(state.accumulated_fees, 1);
    assert_eq!(
        process(&mut state, &StakingInstruction::CompoundRewards, &fees, &ctx),
        Ok(())
    );
    assert_eq!(state.total_compounded_rewards, 120);
    assert_eq!(state.reward_checkpoint, 9);
    // Checkpoint 9 is recorded now, so its rewards cannot be paid again;
    // the host reaches checkpoint 10 before distributing.
    let later_ctx = HostContext { current_checkpoint: 10, ..ctx };
    assert_eq!(
        process(&mut state, &StakingInstruction::DistributeRewards, &fees, &later_ctx),
        Ok(())
    );
    assert_eq!(state.reward_checkpoint, 10);
    assert_eq!(state.total_compounded_rewards, 240);
    assert_eq!(
        process(&mut state, &StakingInstruction::EmergencyUnstake { amount: 100 }, &fees, &ctx),
        Ok(())
    );
    assert_eq!(state.total_staked, 400);
    assert_eq!(state.emergency_unstake_penalties, 5);
}

#[test]
fn dispatch_leaves_the_ledger_alone_for_collaborator_variants() {
    let fees = FeeStructure::default();
    let ctx = quiet_ctx();
    let mut state = fresh_pool();
    process_deposit_and_mint(&mut state, 1_000).unwrap();
    let before = state.clone();
    assert_eq!(
        process(
            &mut state,
            &StakingInstruction::CreateReferral { referrer: Pubkey { bytes: [3u8; 32] } },
            &fees,
            &ctx
        ),
        Ok(())
    );
    assert_eq!(state, before);
    assert_eq!(
        process(
            &mut state,
            &StakingInstruction::VoteOnProposal { proposal_id: 4, vote: true },
            &fees,
            &ctx
        ),
        Ok(())
    );
    assert_eq!(state, before);
}

#[test]
fn counters_saturate_instead_of_wrapping() {
    let fees = FeeStructure::default();
    let mut state = fresh_pool();
    process_deposit_and_mint(&mut state, 1_000).unwrap();
    state.accumulated_fees = u64::MAX - 1;
    process_withdraw(&mut state, 400, &fees).unwrap();
    assert_eq!(state.accumulated_fees, u64::MAX);
}

#[test]
fn full_wire_scenario() {
    // Decode the deposit instruction from raw bytes, dispatch it, persist
    // the ledger, reload it, and withdraw.
    let fees = FeeStructure::default();
    let ctx = quiet_ctx();
    let mut state = fresh_pool();

    let mut deposit = vec![0u8];
    deposit.extend_from_slice(&1_000u64.to_le_bytes());
    let instruction = StakingInstruction::unpack(&deposit).unwrap();
    assert_eq!(process(&mut state, &instruction, &fees, &ctx), Ok(()));

    let mut buf = vec![0u8; 809];
    state.pack_into_slice(&mut buf);
    let mut reloaded = StakingPoolState::unpack_from_slice(&buf).unwrap();

    let mut withdraw = vec![1u8];
    withdraw.extend_from_slice(&400u64.to_le_bytes());
    let instruction = StakingInstruction::unpack(&withdraw).unwrap();
    assert_eq!(process(&mut reloaded, &instruction, &fees, &ctx), Ok(()));
    assert_eq!(reloaded.total_staked, 600);
    assert_eq!(reloaded.accumulated_fees, 4);
}
