use staking_derivatives::instruction::StakingInstruction;
use staking_derivatives::state::Pubkey;
use staking_derivatives::{FeeStructure, StakingError};

#[test]
fn deposit_tag_with_zero_amount() {
    let mut data = vec![0u8];
    data.extend_from_slice(&0u64.to_le_bytes());
    assert_eq!(
        StakingInstruction::unpack(&data),
        Ok(StakingInstruction::DepositAndMint { amount: 0 })
    );
}

#[test]
fn deposit_tag_with_amount() {
    let mut data = vec![0u8];
    data.extend_from_slice(&1_000u64.to_le_bytes());
    assert_eq!(
        StakingInstruction::unpack(&data),
        Ok(StakingInstruction::DepositAndMint { amount: 1_000 })
    );
}

#[test]
fn withdraw_tag_with_short_payload_is_rejected() {
    let data = vec![1u8, 0, 0, 0, 0];
    assert_eq!(
        StakingInstruction::unpack(&data),
        Err(StakingError::InvalidInstruction)
    );
}

#[test]
fn unknown_tag_is_rejected() {
    let mut data = vec![99u8];
    data.extend_from_slice(&7u64.to_le_bytes());
    assert_eq!(
        StakingInstruction::unpack(&data),
        Err(StakingError::InvalidInstruction)
    );
}

#[test]
fn empty_buffer_is_rejected() {
    assert_eq!(
        StakingInstruction::unpack(&[]),
        Err(StakingError::InvalidInstruction)
    );
}

#[test]
fn payload_free_tags_decode() {
    assert_eq!(
        StakingInstruction::unpack(&[2u8]),
        Ok(StakingInstruction::CompoundRewards)
    );
    assert_eq!(
        StakingInstruction::unpack(&[3u8]),
        Ok(StakingInstruction::DistributeRewards)
    );
}

#[test]
fn emergency_unstake_tag_decodes_amount() {
    let mut data = vec![4u8];
    data.extend_from_slice(&250u64.to_le_bytes());
    assert_eq!(
        StakingInstruction::unpack(&data),
        Ok(StakingInstruction::EmergencyUnstake { amount: 250 })
    );
}

#[test]
fn create_referral_tag_decodes_the_referrer() {
    let mut bytes = [0u8; 32];
    for (i, b) in bytes.iter_mut().enumerate() {
        *b = i as u8;
    }
    let mut data = vec![5u8];
    data.extend_from_slice(&bytes);
    assert_eq!(
        StakingInstruction::unpack(&data),
        Ok(StakingInstruction::CreateReferral { referrer: Pubkey { bytes } })
    );
}

#[test]
fn create_referral_tag_with_short_key_is_rejected() {
    let data = vec![5u8; 20];
    assert_eq!(
        StakingInstruction::unpack(&data),
        Err(StakingError::InvalidInstruction)
    );
}

#[test]
fn vote_tag_decodes_id_and_vote() {
    let mut data = vec![6u8];
    data.extend_from_slice(&12u64.to_le_bytes());
    data.push(2);
    assert_eq!(
        StakingInstruction::unpack(&data),
        Ok(StakingInstruction::VoteOnProposal { proposal_id: 12, vote: true })
    );
    let mut data = vec![6u8];
    data.extend_from_slice(&12u64.to_le_bytes());
    data.push(0);
    assert_eq!(
        StakingInstruction::unpack(&data),
        Ok(StakingInstruction::VoteOnProposal { proposal_id: 12, vote: false })
    );
}

#[test]
fn vote_tag_without_vote_byte_is_rejected() {
    let mut data = vec![6u8];
    data.extend_from_slice(&12u64.to_le_bytes());
    assert_eq!(
        StakingInstruction::unpack(&data),
        Err(StakingError::InvalidInstruction)
    );
}

#[test]
fn trailing_bytes_are_ignored() {
    let mut data = vec![0u8];
    data.extend_from_slice(&5u64.to_le_bytes());
    data.extend_from_slice(&[0xFF; 16]);
    assert_eq!(
        StakingInstruction::unpack(&data),
        Ok(StakingInstruction::DepositAndMint { amount: 5 })
    );
}

#[test]
fn default_fee_structure_rates() {
    let fees = FeeStructure::default();
    assert_eq!(fees.staking_fee, 1);
    assert_eq!(fees.withdrawal_fee, 1);
    assert_eq!(fees.emergency_unstake_penalty, 5);
}

#[test]
fn fee_values_under_default_rates() {
    let fees = FeeStructure::default();
    assert_eq!(fees.calculate_fee(1_000, "withdrawal"), 10);
    assert_eq!(fees.calculate_fee(1_000, "emergency"), 50);
    assert_eq!(fees.calculate_fee(1_000, "staking"), 10);
    assert_eq!(fees.calculate_fee(1_000, "unknown"), 0);
    assert_eq!(fees.calculate_fee(1_000, ""), 0);
}

#[test]
fn fee_division_floors() {
    let fees = FeeStructure::default();
    assert_eq!(fees.calculate_fee(199, "withdrawal"), 1);
    assert_eq!(fees.calculate_fee(99, "withdrawal"), 0);
    assert_eq!(fees.calculate_fee(19, "emergency"), 0);
}

#[test]
fn fee_on_huge_amount_does_not_wrap() {
    let fees = FeeStructure::default();
    assert_eq!(fees.calculate_fee(u64::MAX, "emergency"), u64::MAX / 100 * 5 + u64::MAX % 100 * 5 / 100);
    assert_eq!(
        fees.calculate_fee(u64::MAX, "withdrawal"),
        (u128::from(u64::MAX) / 100) as u64
    );
}

#[test]
fn error_codes_are_stable() {
    assert_eq!(StakingError::InvalidInstruction.code(), 0);
    assert_eq!(StakingError::InsufficientFunds.code(), 1);
    assert_eq!(StakingError::AccountAlreadyInitialized.code(), 2);
    assert_eq!(StakingError::ValidatorIndexOutOfBounds.code(), 3);
    assert_eq!(StakingError::InvalidAmount.code(), 4);
    assert_eq!(StakingError::CompoundingError.code(), 5);
    assert_eq!(StakingError::EmergencyUnstakeNotAllowed.code(), 6);
    assert_eq!(StakingError::InvalidAccountData.code(), 7);
}
