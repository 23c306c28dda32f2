//! Core of a liquid-staking pool ledger: the fixed-layout account codec for
//! the pool state and its bounded validator registry, the instruction
//! decoder, the fee arithmetic, and the handlers that mutate the ledger.
//!
//! Everything here is pure computation on plain values; reading accounts,
//! signatures and host plumbing live outside this crate.

pub mod error;
pub mod fees;
pub mod instruction;
pub mod processor;
pub mod state;

pub use error::StakingError;
pub use fees::FeeStructure;
pub use instruction::StakingInstruction;
pub use processor::HostContext;
pub use state::{GovernanceProposal, Pubkey, Referral, StakingPoolState, ValidatorInfo};
