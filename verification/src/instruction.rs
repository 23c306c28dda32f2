use vstd::prelude::*;
use vstd::bytes::{spec_u64_from_le_bytes, u64_from_le_bytes};
use crate::error::StakingError;
use crate::state::Pubkey;

verus! {

/// A fully decoded instruction: the closed set of operations the protocol
/// accepts, one per discriminant tag.
#[derive(Debug, Clone, Copy, PartialEq, Eq)]
pub enum StakingInstruction {
    /// Tag 0: deposit principal and mint derivative tokens for it.
    DepositAndMint { amount: u64 },
    /// Tag 1: burn derivative tokens and withdraw principal.
    Withdraw { amount: u64 },
    /// Tag 2: fold earned rewards back into the pool.
    CompoundRewards,
    /// Tag 3: distribute rewards under the checkpoint system.
    DistributeRewards,
    /// Tag 4: unstake immediately, paying the penalty rate.
    EmergencyUnstake { amount: u64 },
    /// Tag 5: record a referral link for `referrer`.
    CreateReferral { referrer: Pubkey },
    /// Tag 6: cast a vote on a governance proposal.
    VoteOnProposal { proposal_id: u64, vote: bool },
}

/// `r` is exactly what decoding `input` must yield: byte 0 is the tag, the
/// payload follows, and a missing tag, an unknown tag or a payload shorter
/// than the tag requires is rejected. Extra trailing bytes are ignored; no
/// byte past the declared payload is read.
pub open spec fn unpack_result_matches(
    input: Seq<u8>,
    r: Result<StakingInstruction, StakingError>,
) -> bool {
    if input.len() == 0 {
        r == Err::<StakingInstruction, StakingError>(StakingError::InvalidInstruction)
    } else {
        let tag = input[0];
        if tag == 0 || tag == 1 || tag == 4 {
            if input.len() >= 9 {
                let amount = spec_u64_from_le_bytes(input.subrange(1, 9));
                if tag == 0 {
                    r == Ok::<StakingInstruction, StakingError>(
                        StakingInstruction::DepositAndMint { amount },
                    )
                } else if tag == 1 {
                    r == Ok::<StakingInstruction, StakingError>(
                        StakingInstruction::Withdraw { amount },
                    )
                } else {
                    r == Ok::<StakingInstruction, StakingError>(
                        StakingInstruction::EmergencyUnstake { amount },
                    )
                }
            } else {
                r == Err::<StakingInstruction, StakingError>(StakingError::InvalidInstruction)
            }
        } else if tag == 2 {
            r == Ok::<StakingInstruction, StakingError>(StakingInstruction::CompoundRewards)
        } else if tag == 3 {
            r == Ok::<StakingInstruction, StakingError>(StakingInstruction::DistributeRewards)
        } else if tag == 5 {
            if input.len() >= 33 {
                match r {
                    Ok(StakingInstruction::CreateReferral { referrer }) => referrer@
                        == input.subrange(1, 33),
                    _ => false,
                }
            } else {
                r == Err::<StakingInstruction, StakingError>(StakingError::InvalidInstruction)
            }
        } else if tag == 6 {
            if input.len() >= 10 {
                r == Ok::<StakingInstruction, StakingError>(
                    StakingInstruction::VoteOnProposal {
                        proposal_id: spec_u64_from_le_bytes(input.subrange(1, 9)),
                        vote: input[9] != 0,
                    },
                )
            } else {
                r == Err::<StakingInstruction, StakingError>(StakingError::InvalidInstruction)
            }
        } else {
            r == Err::<StakingInstruction, StakingError>(StakingError::InvalidInstruction)
        }
    }
}

impl StakingInstruction {
    /// Decodes an instruction buffer. Either a fully formed variant comes
    /// back or [`StakingError::InvalidInstruction`] does; every slice
    /// access is bounds-checked first, so no input is read out of range
    /// and none panics.
    pub fn unpack(input: &[u8]) -> (r: Result<StakingInstruction, StakingError>)
        ensures
            unpack_result_matches(input@, r),
    {
        proof {
            vstd::slice::axiom_spec_len(input);
        }
        if input.len() == 0 {
            return Err(StakingError::InvalidInstruction);
        }
        let tag = input[0];
        match tag {
            0 => {
                let amount = Self::unpack_u64(input, 1)?;
                Ok(StakingInstruction::DepositAndMint { amount })
            },
            1 => {
                let amount = Self::unpack_u64(input, 1)?;
                Ok(StakingInstruction::Withdraw { amount })
            },
            2 => Ok(StakingInstruction::CompoundRewards),
            3 => Ok(StakingInstruction::DistributeRewards),
            4 => {
                let amount = Self::unpack_u64(input, 1)?;
                Ok(StakingInstruction::EmergencyUnstake { amount })
            },
            5 => {
                if input.len() < 33 {
                    return Err(StakingError::InvalidInstruction);
                }
                let mut bytes: [u8; 32] = [0u8; 32];
                let mut i: usize = 0;
                while i < 32
                    invariant
                        i <= 32,
                        input@.len() >= 33,
                        input@.len() <= usize::MAX,
                        forall|j: int| 0 <= j < i ==> bytes@[j] == input@[1 + j],
                    decreases 32 - i,
                {
                    bytes[i] = input[1 + i];
                    i += 1;
                }
                proof {
                    assert(bytes@ =~= input@.subrange(1, 33));
                }
                Ok(StakingInstruction::CreateReferral { referrer: Pubkey { bytes } })
            },
            6 => {
                if input.len() < 10 {
                    return Err(StakingError::InvalidInstruction);
                }
                let proposal_id = Self::unpack_u64(input, 1)?;
                let vote = input[9] != 0;
                Ok(StakingInstruction::VoteOnProposal { proposal_id, vote })
            },
            _ => Err(StakingError::InvalidInstruction),
        }
    }

    /// Reads the little-endian `u64` payload field at `off`, rejecting a
    /// buffer with fewer than 8 bytes there.
    fn unpack_u64(input: &[u8], off: usize) -> (r: Result<u64, StakingError>)
        requires
            off <= input@.len(),
        ensures
            input@.len() >= off + 8 ==> r == Ok::<u64, StakingError>(
                spec_u64_from_le_bytes(input@.subrange(off as int, off as int + 8)),
            ),
            input@.len() < off + 8 ==> r == Err::<u64, StakingError>(
                StakingError::InvalidInstruction,
            ),
    {
        proof {
            vstd::slice::axiom_spec_len(input);
        }
        if input.len() - off < 8 {
            return Err(StakingError::InvalidInstruction);
        }
        Ok(u64_from_le_bytes(&input[off..off + 8]))
    }
}

} // verus!
