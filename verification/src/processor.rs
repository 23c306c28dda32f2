use vstd::prelude::*;
use crate::error::StakingError;
use crate::fees::FeeStructure;
use crate::instruction::StakingInstruction;
use crate::state::{spec_registry_stake_sum, StakingPoolState};

verus! {

/// Per-invocation values the host environment supplies alongside an
/// instruction: the reward-distribution point it has reached, the rewards
/// it reports as earned and not yet folded in, and whether pool policy
/// currently permits an emergency unstake. The core never reads a clock or
/// an account itself.
#[derive(Debug, Clone, Copy, PartialEq, Eq, Structural)]
pub struct HostContext {
    /// The distribution point the host has reached (an epoch or slot).
    pub current_checkpoint: u64,
    /// Rewards earned since the last compounding or distribution.
    pub pending_rewards: u64,
    /// Whether pool policy permits an emergency unstake right now.
    pub emergency_unstake_allowed: bool,
}

/// `u64` addition that stops at the largest representable value instead of
/// wrapping, so the monotone counters never wrap around.
pub open spec fn sat_add_u64(a: u64, b: u64) -> u64 {
    if a + b <= u64::MAX {
        (a + b) as u64
    } else {
        u64::MAX
    }
}

/// A deposit is accepted when the amount is positive and both balances can
/// absorb it without overflow.
pub open spec fn deposit_accepted(s: StakingPoolState, amount: u64) -> bool {
    &&& amount > 0
    &&& s.total_staked + amount <= u64::MAX
    &&& s.total_issued_tokens + amount <= u64::MAX
}

/// Outcome of a deposit: principal and derivative supply grow by `amount`
/// — tokens are minted one-for-one against deposited principal — or the
/// ledger is left untouched and the deposit is rejected.
pub open spec fn spec_deposit_step(s: StakingPoolState, amount: u64) -> (Result<
    (),
    StakingError,
>, StakingPoolState) {
    if deposit_accepted(s, amount) {
        (
            Ok(()),
            StakingPoolState {
                total_staked: (s.total_staked + amount) as u64,
                total_issued_tokens: (s.total_issued_tokens + amount) as u64,
                ..s
            },
        )
    } else {
        (Err(StakingError::InvalidAmount), s)
    }
}

/// Outcome of a withdrawal: both balances shrink by `amount` and the
/// withdrawal fee joins the retained fees, or the ledger is left untouched
/// — a zero amount is invalid, and an amount above the derivative supply,
/// or above the principal left undelegated to the validator registry, is
/// uncovered. Only undelegated principal is redeemable, so the registry's
/// recorded delegations stay covered by `total_staked`.
pub open spec fn spec_withdraw_step(
    s: StakingPoolState,
    amount: u64,
    fees: FeeStructure,
) -> (Result<(), StakingError>, StakingPoolState) {
    if amount == 0 {
        (Err(StakingError::InvalidAmount), s)
    } else if amount > s.total_issued_tokens || amount + spec_registry_stake_sum(
        s.validator_list@,
    ) > s.total_staked {
        (Err(StakingError::InsufficientFunds), s)
    } else {
        (
            Ok(()),
            StakingPoolState {
                total_staked: (s.total_staked - amount) as u64,
                total_issued_tokens: (s.total_issued_tokens - amount) as u64,
                accumulated_fees: sat_add_u64(
                    s.accumulated_fees,
                    fees.spec_fee(amount, "withdrawal"@),
                ),
                ..s
            },
        )
    }
}

/// Outcome of compounding: the pending rewards join the compounded total,
/// the per-token rate grows by each token's share, and the checkpoint is
/// recorded. Two states are inconsistent and rejected with the ledger
/// untouched: a checkpoint not past the one already recorded — that
/// checkpoint's rewards were folded or distributed already — and a pool
/// with no derivative tokens issued to attribute rewards to.
pub open spec fn spec_compound_step(
    s: StakingPoolState,
    checkpoint: u64,
    rewards: u64,
) -> (Result<(), StakingError>, StakingPoolState) {
    if checkpoint <= s.reward_checkpoint {
        (Err(StakingError::CompoundingError), s)
    } else if s.total_issued_tokens == 0 {
        (Err(StakingError::CompoundingError), s)
    } else {
        (
            Ok(()),
            StakingPoolState {
                total_compounded_rewards: sat_add_u64(s.total_compounded_rewards, rewards),
                reward_rate_per_token: sat_add_u64(
                    s.reward_rate_per_token,
                    (rewards / s.total_issued_tokens) as u64,
                ),
                reward_checkpoint: checkpoint,
                ..s
            },
        )
    }
}

/// Outcome of a distribution: a checkpoint the ledger has already recorded
/// pays nothing and changes nothing, and a fresh checkpoint is recorded
/// together with its rewards. Distribution never fails; re-invocation at
/// an unchanged checkpoint is a no-op, which makes it idempotent.
pub open spec fn spec_distribute_step(
    s: StakingPoolState,
    checkpoint: u64,
    rewards: u64,
) -> StakingPoolState {
    if checkpoint <= s.reward_checkpoint {
        s
    } else {
        StakingPoolState {
            reward_checkpoint: checkpoint,
            total_compounded_rewards: sat_add_u64(s.total_compounded_rewards, rewards),
            ..s
        }
    }
}

/// Outcome of an emergency unstake: like a withdrawal but the penalty rate
/// applies and the penalty is recorded separately; pool policy may forbid
/// it outright. As with a withdrawal, only undelegated principal can
/// leave — undoing a delegation itself belongs to the stake-account
/// collaborator, not to this ledger.
pub open spec fn spec_emergency_unstake_step(
    s: StakingPoolState,
    amount: u64,
    fees: FeeStructure,
    allowed: bool,
) -> (Result<(), StakingError>, StakingPoolState) {
    if !allowed {
        (Err(StakingError::EmergencyUnstakeNotAllowed), s)
    } else if amount == 0 {
        (Err(StakingError::InvalidAmount), s)
    } else if amount > s.total_issued_tokens || amount + spec_registry_stake_sum(
        s.validator_list@,
    ) > s.total_staked {
        (Err(StakingError::InsufficientFunds), s)
    } else {
        (
            Ok(()),
            StakingPoolState {
                total_staked: (s.total_staked - amount) as u64,
                total_issued_tokens: (s.total_issued_tokens - amount) as u64,
                emergency_unstake_penalties: sat_add_u64(
                    s.emergency_unstake_penalties,
                    fees.spec_fee(amount, "emergency"@),
                ),
                ..s
            },
        )
    }
}

/// One dispatch step: what every instruction does to the ledger and what
/// it returns. Referral creation and governance voting live with outside
/// collaborators and leave the ledger untouched here.
pub open spec fn spec_step(
    s: StakingPoolState,
    instruction: StakingInstruction,
    fees: FeeStructure,
    ctx: HostContext,
) -> (Result<(), StakingError>, StakingPoolState) {
    match instruction {
        StakingInstruction::DepositAndMint { amount } => spec_deposit_step(s, amount),
        StakingInstruction::Withdraw { amount } => spec_withdraw_step(s, amount, fees),
        StakingInstruction::CompoundRewards => spec_compound_step(
            s,
            ctx.current_checkpoint,
            ctx.pending_rewards,
        ),
        StakingInstruction::DistributeRewards => (
            Ok(()),
            spec_distribute_step(s, ctx.current_checkpoint, ctx.pending_rewards),
        ),
        StakingInstruction::EmergencyUnstake { amount } => spec_emergency_unstake_step(
            s,
            amount,
            fees,
            ctx.emergency_unstake_allowed,
        ),
        StakingInstruction::CreateReferral { .. } => (Ok(()), s),
        StakingInstruction::VoteOnProposal { .. } => (Ok(()), s),
    }
}

/// `u64` addition that stops at the largest representable value.
fn sat_add(a: u64, b: u64) -> (r: u64)
    ensures
        r == sat_add_u64(a, b),
{
    if b <= u64::MAX - a {
        a + b
    } else {
        u64::MAX
    }
}

/// Deposits principal and mints derivative tokens one-for-one for it.
/// A zero amount, or one either balance cannot absorb, is rejected with
/// [`StakingError::InvalidAmount`] and the ledger is left untouched.
pub fn process_deposit_and_mint(state: &mut StakingPoolState, amount: u64) -> (r: Result<
    (),
    StakingError,
>)
    ensures
        r == spec_deposit_step(*old(state), amount).0,
        *final(state) == spec_deposit_step(*old(state), amount).1,
{
    if amount == 0 {
        return Err(StakingError::InvalidAmount);
    }
    if amount > u64::MAX - state.total_staked || amount > u64::MAX - state.total_issued_tokens {
        return Err(StakingError::InvalidAmount);
    }
    state.total_staked = state.total_staked + amount;
    state.total_issued_tokens = state.total_issued_tokens + amount;
    Ok(())
}

/// Withdraws principal by burning derivative tokens, charging the
/// withdrawal fee into the pool's retained fees. Zero amounts are
/// [`StakingError::InvalidAmount`]; amounts above the derivative supply
/// or above the undelegated principal are
/// [`StakingError::InsufficientFunds`]; a rejected withdrawal leaves the
/// ledger untouched. Because delegated principal stays put, a registry
/// that was backed by `total_staked` stays backed.
pub fn process_withdraw(state: &mut StakingPoolState, amount: u64, fees: &FeeStructure) -> (r:
    Result<(), StakingError>)
    requires
        fees.wf(),
    ensures
        r == spec_withdraw_step(*old(state), amount, *fees).0,
        *final(state) == spec_withdraw_step(*old(state), amount, *fees).1,
{
    if amount == 0 {
        return Err(StakingError::InvalidAmount);
    }
    let delegated = state.registry_stake_sum();
    proof {
        if spec_registry_stake_sum(state.validator_list@) > u64::MAX {
            assert(amount as int + delegated as int > state.total_staked as int);
            assert(amount + spec_registry_stake_sum(state.validator_list@)
                > state.total_staked);
        }
    }
    if amount > state.total_issued_tokens || (amount as u128) + (delegated as u128) > (
    state.total_staked as u128) {
        return Err(StakingError::InsufficientFunds);
    }
    let fee = fees.calculate_fee(amount, "withdrawal");
    state.total_staked = state.total_staked - amount;
    state.total_issued_tokens = state.total_issued_tokens - amount;
    state.accumulated_fees = sat_add(state.accumulated_fees, fee);
    Ok(())
}

/// Folds pending rewards into the compounded total, advances the
/// per-token reward rate by each token's share, and records the
/// checkpoint, so one checkpoint's rewards are folded at most once.
/// Inconsistent state is rejected with
/// [`StakingError::CompoundingError`] and the ledger untouched: a
/// checkpoint not past the recorded one, or a pool with no derivative
/// tokens issued to attribute rewards to.
pub fn process_compound_rewards(
    state: &mut StakingPoolState,
    current_checkpoint: u64,
    rewards: u64,
) -> (r: Result<(), StakingError>)
    ensures
        r == spec_compound_step(*old(state), current_checkpoint, rewards).0,
        *final(state) == spec_compound_step(*old(state), current_checkpoint, rewards).1,
{
    if current_checkpoint <= state.reward_checkpoint {
        return Err(StakingError::CompoundingError);
    }
    if state.total_issued_tokens == 0 {
        return Err(StakingError::CompoundingError);
    }
    let per_token = rewards / state.total_issued_tokens;
    state.total_compounded_rewards = sat_add(state.total_compounded_rewards, rewards);
    state.reward_rate_per_token = sat_add(state.reward_rate_per_token, per_token);
    state.reward_checkpoint = current_checkpoint;
    Ok(())
}

/// Distributes rewards under the checkpoint system: a checkpoint at or
/// before the recorded one pays nothing and changes nothing, a fresh one
/// is recorded together with its rewards. Never fails.
pub fn process_distribute_rewards(
    state: &mut StakingPoolState,
    current_checkpoint: u64,
    rewards: u64,
) -> (r: Result<(), StakingError>)
    ensures
        r == Ok::<(), StakingError>(()),
        *final(state) == spec_distribute_step(*old(state), current_checkpoint, rewards),
{
    if current_checkpoint <= state.reward_checkpoint {
        return Ok(());
    }
    state.reward_checkpoint = current_checkpoint;
    state.total_compounded_rewards = sat_add(state.total_compounded_rewards, rewards);
    Ok(())
}

/// Unstakes immediately at the penalty rate, recording the penalty in its
/// own counter. Fails with [`StakingError::EmergencyUnstakeNotAllowed`]
/// when policy forbids it, and otherwise validates as a withdrawal does; a
/// rejected unstake leaves the ledger untouched.
pub fn process_emergency_unstake(
    state: &mut StakingPoolState,
    amount: u64,
    fees: &FeeStructure,
    allowed: bool,
) -> (r: Result<(), StakingError>)
    requires
        fees.wf(),
    ensures
        r == spec_emergency_unstake_step(*old(state), amount, *fees, allowed).0,
        *final(state) == spec_emergency_unstake_step(*old(state), amount, *fees, allowed).1,
{
    if !allowed {
        return Err(StakingError::EmergencyUnstakeNotAllowed);
    }
    if amount == 0 {
        return Err(StakingError::InvalidAmount);
    }
    let delegated = state.registry_stake_sum();
    proof {
        if spec_registry_stake_sum(state.validator_list@) > u64::MAX {
            assert(amount as int + delegated as int > state.total_staked as int);
            assert(amount + spec_registry_stake_sum(state.validator_list@)
                > state.total_staked);
        }
    }
    if amount > state.total_issued_tokens || (amount as u128) + (delegated as u128) > (
    state.total_staked as u128) {
        return Err(StakingError::InsufficientFunds);
    }
    let penalty = fees.calculate_fee(amount, "emergency");
    state.total_staked = state.total_staked - amount;
    state.total_issued_tokens = state.total_issued_tokens - amount;
    state.emergency_unstake_penalties = sat_add(state.emergency_unstake_penalties, penalty);
    Ok(())
}

/// Dispatches one decoded instruction against the ledger: selects the
/// matching handler and applies it atomically — a rejected instruction
/// returns its error with the ledger exactly as it was.
pub fn process(
    state: &mut StakingPoolState,
    instruction: &StakingInstruction,
    fees: &FeeStructure,
    ctx: &HostContext,
) -> (r: Result<(), StakingError>)
    requires
        fees.wf(),
    ensures
        r == spec_step(*old(state), *instruction, *fees, *ctx).0,
        *final(state) == spec_step(*old(state), *instruction, *fees, *ctx).1,
{
    match instruction {
        StakingInstruction::DepositAndMint { amount } => process_deposit_and_mint(state, *amount),
        StakingInstruction::Withdraw { amount } => process_withdraw(state, *amount, fees),
        StakingInstruction::CompoundRewards => process_compound_rewards(
            state,
            ctx.current_checkpoint,
            ctx.pending_rewards,
        ),
        StakingInstruction::DistributeRewards => process_distribute_rewards(
            state,
            ctx.current_checkpoint,
            ctx.pending_rewards,
        ),
        StakingInstruction::EmergencyUnstake { amount } => process_emergency_unstake(
            state,
            *amount,
            fees,
            ctx.emergency_unstake_allowed,
        ),
        StakingInstruction::CreateReferral { .. } => Ok(()),
        StakingInstruction::VoteOnProposal { .. } => Ok(()),
    }
}

/// Idempotence of distribution: after rewards are distributed at some
/// checkpoint, distributing again at the same checkpoint changes nothing —
/// in particular `total_compounded_rewards` is not paid twice — whatever
/// rewards the host reports the second time.
pub proof fn lemma_distribute_rewards_idempotent(
    s: StakingPoolState,
    checkpoint: u64,
    rewards_first: u64,
    rewards_second: u64,
)
    ensures
        spec_distribute_step(
            spec_distribute_step(s, checkpoint, rewards_first),
            checkpoint,
            rewards_second,
        ) == spec_distribute_step(s, checkpoint, rewards_first),
{
}

/// A compounded checkpoint cannot be compounded again: once compounding
/// succeeds at some checkpoint, compounding once more at that same
/// checkpoint is inconsistent state — it fails with
/// [`StakingError::CompoundingError`] and changes nothing, whatever
/// rewards the host reports the second time.
pub proof fn lemma_compound_rewards_not_reapplied(
    s: StakingPoolState,
    checkpoint: u64,
    rewards_first: u64,
    rewards_second: u64,
)
    requires
        spec_compound_step(s, checkpoint, rewards_first).0 is Ok,
    ensures
        spec_compound_step(
            spec_compound_step(s, checkpoint, rewards_first).1,
            checkpoint,
            rewards_second,
        ).0 == Err::<(), StakingError>(StakingError::CompoundingError),
        spec_compound_step(
            spec_compound_step(s, checkpoint, rewards_first).1,
            checkpoint,
            rewards_second,
        ).1 == spec_compound_step(s, checkpoint, rewards_first).1,
{
}

/// The fee, reward and penalty counters and the checkpoint never move
/// backwards, and an initialized pool never becomes uninitialized,
/// whatever instruction is dispatched.
pub proof fn lemma_step_is_monotonic(
    s: StakingPoolState,
    instruction: StakingInstruction,
    fees: FeeStructure,
    ctx: HostContext,
)
    ensures
        spec_step(s, instruction, fees, ctx).1.accumulated_fees >= s.accumulated_fees,
        spec_step(s, instruction, fees, ctx).1.total_compounded_rewards
            >= s.total_compounded_rewards,
        spec_step(s, instruction, fees, ctx).1.emergency_unstake_penalties
            >= s.emergency_unstake_penalties,
        spec_step(s, instruction, fees, ctx).1.reward_checkpoint >= s.reward_checkpoint,
        s.is_initialized ==> spec_step(s, instruction, fees, ctx).1.is_initialized,
{
}

/// Registry backing is an invariant of dispatch: when the stakes the
/// registry records are covered by the pool's principal, they still are
/// after any instruction — deposits only add principal, withdrawals and
/// emergency unstakes take only undelegated principal, and no instruction
/// touches the registry itself.
pub proof fn lemma_step_preserves_registry_backing(
    s: StakingPoolState,
    instruction: StakingInstruction,
    fees: FeeStructure,
    ctx: HostContext,
)
    requires
        s.registry_backed(),
    ensures
        spec_step(s, instruction, fees, ctx).1.registry_backed(),
        spec_step(s, instruction, fees, ctx).1.validator_list == s.validator_list,
{
}

} // verus!
