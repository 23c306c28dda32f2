use vstd::prelude::*;
use vstd::bytes::{
    lemma_auto_spec_u64_to_from_le_bytes, spec_u64_from_le_bytes, spec_u64_to_le_bytes,
    u64_from_le_bytes, u64_to_le_bytes,
};
use vstd::arithmetic::div_mod::{lemma_fundamental_div_mod, lemma_mod_division_less_than_divisor};
use crate::error::StakingError;

verus! {

broadcast use vstd::array::group_array_axioms;

/// Greatest number of validators the registry embedded in the ledger buffer
/// can hold.
pub const MAX_VALIDATORS: usize = 10;

/// Width in bytes of one serialized validator record.
pub const VALIDATOR_INFO_SIZE: usize = 72;

/// Width in bytes of the serialized ledger header, before the first
/// validator record.
pub const HEADER_SIZE: usize = 89;

/// Total width in bytes of a ledger buffer sized to full capacity.
pub const STATE_SIZE: usize = 809;

/// A 32-byte account identifier, held as plain bytes.
#[derive(Debug, Clone, Copy, PartialEq, Eq)]
pub struct Pubkey {
    pub bytes: [u8; 32],
}

impl View for Pubkey {
    type V = Seq<u8>;

    open spec fn view(&self) -> Seq<u8> {
        self.bytes@
    }
}

impl Pubkey {
    /// Wraps 32 raw bytes as an identifier.
    pub fn new_from_array(bytes: [u8; 32]) -> (r: Pubkey)
        ensures
            r@ == bytes@,
    {
        Pubkey { bytes }
    }
}

/// One registered validator: its identity, the stake account delegated to
/// it, and the stake delegated through this pool.
#[derive(Debug, Clone, Copy, PartialEq, Eq)]
pub struct ValidatorInfo {
    pub validator_pubkey: Pubkey,
    pub stake_account_pubkey: Pubkey,
    pub total_staked: u64,
}

/// The pool ledger: balances, fee and reward counters, the
/// reward-distribution checkpoint, and the bounded validator registry.
#[derive(Debug, Clone, PartialEq, Eq)]
pub struct StakingPoolState {
    /// Guards against re-initialization; set once, never cleared.
    pub is_initialized: bool,
    /// Principal staked through the pool.
    pub total_staked: u64,
    /// Supply of derivative tokens issued against the principal.
    pub total_issued_tokens: u64,
    /// Accumulator for proportional reward allocation.
    pub reward_rate_per_token: u64,
    /// Identity of the pool account.
    pub staking_pool_pubkey: Pubkey,
    /// Fees retained by the pool; never decreases.
    pub accumulated_fees: u64,
    /// Rewards folded back into the pool; never decreases.
    pub total_compounded_rewards: u64,
    /// Penalties collected from emergency unstakes; never decreases.
    pub emergency_unstake_penalties: u64,
    /// Validator registry, in insertion order, at most [`MAX_VALIDATORS`]
    /// entries. While the ledger is mutated through this crate, the stakes
    /// it records stay covered by `total_staked` (see
    /// [`StakingPoolState::registry_backed`]).
    pub validator_list: Vec<ValidatorInfo>,
    /// Last reward-distribution point processed.
    pub reward_checkpoint: u64,
}

/// A governance proposal as the collaborating proposal store records it.
/// Kept here only as the shape the core hands off; proposal storage and
/// vote tallying are outside the core.
#[derive(Debug, Clone, PartialEq, Eq)]
pub struct GovernanceProposal {
    pub proposal_id: u64,
    pub description: String,
    pub votes_for: u64,
    pub votes_against: u64,
    pub executed: bool,
}

/// A referral pair as the collaborating referral store records it.
#[derive(Debug, Clone, Copy, PartialEq, Eq)]
pub struct Referral {
    pub referrer: Pubkey,
    pub referred_user: Pubkey,
}

/// The stake a registry records as delegated: the sum of every entry's
/// `total_staked`.
pub open spec fn spec_registry_stake_sum(list: Seq<ValidatorInfo>) -> int
    decreases list.len(),
{
    if list.len() == 0 {
        0
    } else {
        spec_registry_stake_sum(list.drop_last()) + list.last().total_staked
    }
}

/// Appending an entry adds exactly its stake to the registry sum.
pub proof fn lemma_registry_stake_sum_push(list: Seq<ValidatorInfo>, v: ValidatorInfo)
    ensures
        spec_registry_stake_sum(list.push(v)) == spec_registry_stake_sum(list) + v.total_staked,
{
    assert(list.push(v).drop_last() =~= list);
}

/// How many whole validator records a buffer of `len` bytes has room for
/// after the header.
pub open spec fn spec_record_capacity(len: int) -> int {
    (len - 89) / 72
}

/// `v` is exactly what the 72 bytes of `b` starting at `off` describe:
/// 32 bytes of validator identity, 32 bytes of stake account, then the
/// delegated stake as a little-endian `u64`.
pub open spec fn validator_record_matches(v: ValidatorInfo, b: Seq<u8>, off: int) -> bool {
    &&& v.validator_pubkey@ == b.subrange(off, off + 32)
    &&& v.stake_account_pubkey@ == b.subrange(off + 32, off + 64)
    &&& v.total_staked == spec_u64_from_le_bytes(b.subrange(off + 64, off + 72))
}

/// The scalar header fields of `s` are exactly what the first 89 bytes of
/// `b` describe, each at its fixed offset.
pub open spec fn header_matches(s: StakingPoolState, b: Seq<u8>) -> bool {
    &&& s.total_staked == spec_u64_from_le_bytes(b.subrange(1, 9))
    &&& s.total_issued_tokens == spec_u64_from_le_bytes(b.subrange(9, 17))
    &&& s.reward_rate_per_token == spec_u64_from_le_bytes(b.subrange(17, 25))
    &&& s.staking_pool_pubkey@ == b.subrange(25, 57)
    &&& s.accumulated_fees == spec_u64_from_le_bytes(b.subrange(57, 65))
    &&& s.total_compounded_rewards == spec_u64_from_le_bytes(b.subrange(65, 73))
    &&& s.emergency_unstake_penalties == spec_u64_from_le_bytes(b.subrange(73, 81))
    &&& s.reward_checkpoint == spec_u64_from_le_bytes(b.subrange(81, 89))
}

/// `s` is exactly the state decoded from buffer `b`: the header fields at
/// their offsets, and one registry entry for every whole 72-byte record
/// after the header. A partial trailing record contributes nothing.
pub open spec fn unpacked_state_matches(s: StakingPoolState, b: Seq<u8>) -> bool {
    &&& s.is_initialized == (b[0] != 0)
    &&& header_matches(s, b)
    &&& s.validator_list@.len() == spec_record_capacity(b.len() as int)
    &&& forall|i: int|
        0 <= i < s.validator_list@.len() ==> validator_record_matches(
            #[trigger] s.validator_list@[i],
            b,
            89 + 72 * i,
        )
}

/// How many registry entries encoding writes: every entry, unless the
/// buffer runs out of room first, in which case encoding stops at the last
/// record that fits.
pub open spec fn spec_records_written(count: int, len: int) -> int {
    if count <= spec_record_capacity(len) {
        count
    } else {
        spec_record_capacity(len)
    }
}

/// `b` is exactly buffer `b0` after `s` is encoded into it: the header at
/// its fixed offsets, the registry entries that fit in order from offset
/// 89, and every other byte as it was in `b0`.
pub open spec fn packed_state_matches(s: StakingPoolState, b0: Seq<u8>, b: Seq<u8>) -> bool {
    let k = spec_records_written(s.validator_list@.len() as int, b0.len() as int);
    &&& b.len() == b0.len()
    &&& b[0] == (if s.is_initialized { 1u8 } else { 0u8 })
    &&& header_matches(s, b)
    &&& forall|i: int|
        0 <= i < k ==> validator_record_matches(#[trigger] s.validator_list@[i], b, 89 + 72 * i)
    &&& forall|j: int| 89 + 72 * k <= j < b.len() ==> b[j] == b0[j]
}

/// Reads the little-endian `u64` stored at `off`.
fn read_u64_at(src: &[u8], off: usize) -> (r: u64)
    requires
        off + 8 <= src@.len(),
    ensures
        r == spec_u64_from_le_bytes(src@.subrange(off as int, off as int + 8)),
{
    proof {
        vstd::slice::axiom_spec_len(src);
    }
    u64_from_le_bytes(&src[off..off + 8])
}

/// Reads the 32-byte identifier stored at `off`.
fn read_pubkey_at(src: &[u8], off: usize) -> (r: Pubkey)
    requires
        off + 32 <= src@.len(),
    ensures
        r@ == src@.subrange(off as int, off as int + 32),
{
    proof {
        vstd::slice::axiom_spec_len(src);
    }
    let mut bytes: [u8; 32] = [0u8; 32];
    let mut i: usize = 0;
    while i < 32
        invariant
            i <= 32,
            off + 32 <= src@.len(),
            src@.len() <= usize::MAX,
            forall|j: int| 0 <= j < i ==> bytes@[j] == src@[off + j],
        decreases 32 - i,
    {
        bytes[i] = src[off + i];
        i += 1;
    }
    proof {
        assert(bytes@ =~= src@.subrange(off as int, off as int + 32));
    }
    Pubkey { bytes }
}

/// Writes `v` at `off` as 8 little-endian bytes, leaving every other byte
/// in place.
fn write_u64_at(dst: &mut Vec<u8>, off: usize, v: u64)
    requires
        off + 8 <= old(dst)@.len(),
    ensures
        final(dst)@.len() == old(dst)@.len(),
        spec_u64_from_le_bytes(final(dst)@.subrange(off as int, off as int + 8)) == v,
        forall|j: int|
            0 <= j < old(dst)@.len() && !(off <= j < off + 8) ==> final(dst)@[j] == old(dst)@[j],
{
    proof {
        vstd::std_specs::vec::axiom_spec_len(&*dst);
    }
    let bytes = u64_to_le_bytes(v);
    let mut i: usize = 0;
    while i < 8
        invariant
            i <= 8,
            off + 8 <= dst@.len(),
            dst@.len() <= usize::MAX,
            dst@.len() == old(dst)@.len(),
            bytes@ == spec_u64_to_le_bytes(v),
            bytes@.len() == 8,
            forall|j: int| 0 <= j < i ==> dst@[off + j] == bytes@[j],
            forall|j: int|
                0 <= j < old(dst)@.len() && !(off <= j < off + i) ==> dst@[j] == old(dst)@[j],
        decreases 8 - i,
    {
        dst[off + i] = bytes[i];
        i += 1;
    }
    proof {
        assert(dst@.subrange(off as int, off as int + 8) =~= spec_u64_to_le_bytes(v));
        lemma_auto_spec_u64_to_from_le_bytes();
    }
}

/// Writes the 32 bytes of `key` at `off`, leaving every other byte in
/// place.
fn write_pubkey_at(dst: &mut Vec<u8>, off: usize, key: &Pubkey)
    requires
        off + 32 <= old(dst)@.len(),
    ensures
        final(dst)@.len() == old(dst)@.len(),
        final(dst)@.subrange(off as int, off as int + 32) == key@,
        forall|j: int|
            0 <= j < old(dst)@.len() && !(off <= j < off + 32) ==> final(dst)@[j] == old(dst)@[j],
{
    proof {
        vstd::std_specs::vec::axiom_spec_len(&*dst);
    }
    let mut i: usize = 0;
    while i < 32
        invariant
            i <= 32,
            off + 32 <= dst@.len(),
            dst@.len() <= usize::MAX,
            dst@.len() == old(dst)@.len(),
            forall|j: int| 0 <= j < i ==> dst@[off + j] == key@[j],
            forall|j: int|
                0 <= j < old(dst)@.len() && !(off <= j < off + i) ==> dst@[j] == old(dst)@[j],
        decreases 32 - i,
    {
        dst[off + i] = key.bytes[i];
        i += 1;
    }
    proof {
        assert(dst@.subrange(off as int, off as int + 32) =~= key@);
    }
}

/// A buffer of `len` bytes holds `(len - 89) / 72` whole records, and they
/// all lie within the buffer.
proof fn lemma_record_capacity_fits(len: int)
    requires
        len >= 89,
    ensures
        0 <= spec_record_capacity(len),
        89 + 72 * spec_record_capacity(len) <= len,
{
    lemma_fundamental_div_mod(len - 89, 72);
    lemma_mod_division_less_than_divisor(len - 89, 72);
}

/// A header that matches a buffer still matches after bytes at or past the
/// first record offset change.
proof fn lemma_header_matches_unchanged(s: StakingPoolState, b1: Seq<u8>, b2: Seq<u8>)
    requires
        b1.len() == b2.len(),
        b1.len() >= 89,
        header_matches(s, b1),
        forall|j: int| 0 <= j < 89 ==> b2[j] == b1[j],
    ensures
        header_matches(s, b2),
{
    assert(b2.subrange(1, 9) =~= b1.subrange(1, 9));
    assert(b2.subrange(9, 17) =~= b1.subrange(9, 17));
    assert(b2.subrange(17, 25) =~= b1.subrange(17, 25));
    assert(b2.subrange(25, 57) =~= b1.subrange(25, 57));
    assert(b2.subrange(57, 65) =~= b1.subrange(57, 65));
    assert(b2.subrange(65, 73) =~= b1.subrange(65, 73));
    assert(b2.subrange(73, 81) =~= b1.subrange(73, 81));
    assert(b2.subrange(81, 89) =~= b1.subrange(81, 89));
}

/// A record that matches a buffer still matches after bytes outside its 72
/// positions change.
proof fn lemma_record_matches_unchanged(v: ValidatorInfo, b1: Seq<u8>, b2: Seq<u8>, off: int)
    requires
        b1.len() == b2.len(),
        0 <= off,
        off + 72 <= b1.len(),
        validator_record_matches(v, b1, off),
        forall|j: int| off <= j < off + 72 ==> b2[j] == b1[j],
    ensures
        validator_record_matches(v, b2, off),
{
    assert(b2.subrange(off, off + 32) =~= b1.subrange(off, off + 32));
    assert(b2.subrange(off + 32, off + 64) =~= b1.subrange(off + 32, off + 64));
    assert(b2.subrange(off + 64, off + 72) =~= b1.subrange(off + 64, off + 72));
}

impl ValidatorInfo {
    /// Decodes one 72-byte validator record. A buffer shorter than one
    /// record is rejected with [`StakingError::InvalidAccountData`].
    pub fn unpack_from_slice(src: &[u8]) -> (r: Result<ValidatorInfo, StakingError>)
        ensures
            src@.len() < 72 ==> r == Err::<ValidatorInfo, StakingError>(
                StakingError::InvalidAccountData,
            ),
            src@.len() >= 72 ==> (r matches Ok(v) && validator_record_matches(v, src@, 0)),
    {
        if src.len() < 72 {
            return Err(StakingError::InvalidAccountData);
        }
        let validator_pubkey = read_pubkey_at(src, 0);
        let stake_account_pubkey = read_pubkey_at(src, 32);
        let total_staked = read_u64_at(src, 64);
        Ok(ValidatorInfo { validator_pubkey, stake_account_pubkey, total_staked })
    }

    /// Encodes this record into the first 72 bytes of `dst`, leaving every
    /// other byte in place.
    pub fn pack_into_slice(&self, dst: &mut Vec<u8>)
        requires
            old(dst)@.len() >= 72,
        ensures
            final(dst)@.len() == old(dst)@.len(),
            validator_record_matches(*self, final(dst)@, 0),
            forall|j: int| 72 <= j < old(dst)@.len() ==> final(dst)@[j] == old(dst)@[j],
    {
        write_pubkey_at(dst, 0, &self.validator_pubkey);
        write_pubkey_at(dst, 32, &self.stake_account_pubkey);
        write_u64_at(dst, 64, self.total_staked);
        proof {
            assert(dst@.subrange(0, 32) =~= self.validator_pubkey@);
            assert(dst@.subrange(32, 64) =~= self.stake_account_pubkey@);
        }
    }
}

/// Reads the registry sum exactly, for a registry within its capacity.
fn registry_stake_sum_exact(list: &Vec<ValidatorInfo>) -> (r: u128)
    requires
        list@.len() <= MAX_VALIDATORS,
    ensures
        r as int == spec_registry_stake_sum(list@),
        r as int <= 10 * (u64::MAX as int),
{
    let mut acc: u128 = 0;
    let mut i: usize = 0;
    let n = list.len();
    while i < n
        invariant
            i <= n,
            n == list@.len(),
            n <= 10,
            acc as int == spec_registry_stake_sum(list@.subrange(0, i as int)),
            acc as int <= i * (u64::MAX as int),
        decreases n - i,
    {
        proof {
            assert(list@.subrange(0, i as int + 1).drop_last() =~= list@.subrange(0, i as int));
            assert(list@.subrange(0, i as int + 1).last() == list@[i as int]);
        }
        acc = acc + (list[i].total_staked as u128);
        i += 1;
    }
    proof {
        assert(list@.subrange(0, n as int) =~= list@);
    }
    acc
}

impl StakingPoolState {
    /// The registry's recorded delegations are covered by the pool's
    /// staked principal: the stakes of all registered validators sum to at
    /// most `total_staked`. Initialization establishes this, and every
    /// mutation in this crate preserves it — registration checks the sum,
    /// and withdrawals touch only undelegated principal.
    pub open spec fn registry_backed(self) -> bool {
        spec_registry_stake_sum(self.validator_list@) <= self.total_staked
    }

    /// Whether the pool has been initialized.
    pub fn is_initialized(&self) -> (r: bool)
        ensures
            r == self.is_initialized,
    {
        self.is_initialized
    }

    /// The stake the registry records as delegated, stopping at
    /// `u64::MAX` should the entries ever sum past it.
    pub fn registry_stake_sum(&self) -> (r: u64)
        ensures
            r as int == (if spec_registry_stake_sum(self.validator_list@) <= u64::MAX {
                spec_registry_stake_sum(self.validator_list@)
            } else {
                u64::MAX as int
            }),
    {
        let mut acc: u64 = 0;
        let mut i: usize = 0;
        proof {
            vstd::std_specs::vec::axiom_spec_len(&self.validator_list);
        }
        let n = self.validator_list.len();
        while i < n
            invariant
                i <= n,
                n == self.validator_list@.len(),
                acc as int == (if spec_registry_stake_sum(self.validator_list@.subrange(0, i as int))
                    <= u64::MAX {
                    spec_registry_stake_sum(self.validator_list@.subrange(0, i as int))
                } else {
                    u64::MAX as int
                }),
            decreases n - i,
        {
            proof {
                assert(self.validator_list@.subrange(0, i as int + 1).drop_last()
                    =~= self.validator_list@.subrange(0, i as int));
                assert(self.validator_list@.subrange(0, i as int + 1).last()
                    == self.validator_list@[i as int]);
            }
            let v = self.validator_list[i].total_staked;
            if v <= u64::MAX - acc {
                acc = acc + v;
            } else {
                acc = u64::MAX;
            }
            i += 1;
        }
        proof {
            assert(self.validator_list@.subrange(0, n as int) =~= self.validator_list@);
        }
        acc
    }

    /// Creates the pool ledger: marks it initialized under `pool_pubkey`
    /// with every balance, counter and registry empty. Initialization
    /// happens once; on a pool already initialized it fails with
    /// [`StakingError::AccountAlreadyInitialized`] and changes nothing.
    pub fn initialize(&mut self, pool_pubkey: Pubkey) -> (r: Result<(), StakingError>)
        ensures
            old(self).is_initialized ==> r == Err::<(), StakingError>(
                StakingError::AccountAlreadyInitialized,
            ) && *final(self) == *old(self),
            !old(self).is_initialized ==> {
                &&& r == Ok::<(), StakingError>(())
                &&& final(self).is_initialized
                &&& final(self).total_staked == 0
                &&& final(self).total_issued_tokens == 0
                &&& final(self).reward_rate_per_token == 0
                &&& final(self).staking_pool_pubkey == pool_pubkey
                &&& final(self).accumulated_fees == 0
                &&& final(self).total_compounded_rewards == 0
                &&& final(self).emergency_unstake_penalties == 0
                &&& final(self).validator_list@ == Seq::<ValidatorInfo>::empty()
                &&& final(self).reward_checkpoint == 0
                &&& final(self).registry_backed()
            },
    {
        if self.is_initialized {
            return Err(StakingError::AccountAlreadyInitialized);
        }
        self.is_initialized = true;
        self.total_staked = 0;
        self.total_issued_tokens = 0;
        self.reward_rate_per_token = 0;
        self.staking_pool_pubkey = pool_pubkey;
        self.accumulated_fees = 0;
        self.total_compounded_rewards = 0;
        self.emergency_unstake_penalties = 0;
        self.validator_list = Vec::new();
        self.reward_checkpoint = 0;
        Ok(())
    }

    /// Appends one validator to the registry, keeping insertion order.
    /// The registry is bounded: a registration past [`MAX_VALIDATORS`]
    /// entries fails with [`StakingError::ValidatorIndexOutOfBounds`] and
    /// changes nothing, rather than dropping or overwriting an entry. A
    /// registration whose stake the pool's principal does not cover —
    /// the recorded delegations would sum past `total_staked` — fails
    /// with [`StakingError::InsufficientFunds`], so a registry that was
    /// backed stays backed.
    pub fn register_validator(&mut self, info: ValidatorInfo) -> (r: Result<(), StakingError>)
        ensures
            old(self).validator_list@.len() >= MAX_VALIDATORS ==> r == Err::<(), StakingError>(
                StakingError::ValidatorIndexOutOfBounds,
            ) && *final(self) == *old(self),
            old(self).validator_list@.len() < MAX_VALIDATORS
                && spec_registry_stake_sum(old(self).validator_list@) + info.total_staked > old(
                self,
            ).total_staked ==> r == Err::<(), StakingError>(StakingError::InsufficientFunds)
                && *final(self) == *old(self),
            old(self).validator_list@.len() < MAX_VALIDATORS
                && spec_registry_stake_sum(old(self).validator_list@) + info.total_staked <= old(
                self,
            ).total_staked ==> {
                &&& r == Ok::<(), StakingError>(())
                &&& final(self).registry_backed()
                &&& final(self).validator_list@ == old(self).validator_list@.push(info)
                &&& final(self).is_initialized == old(self).is_initialized
                &&& final(self).total_staked == old(self).total_staked
                &&& final(self).total_issued_tokens == old(self).total_issued_tokens
                &&& final(self).reward_rate_per_token == old(self).reward_rate_per_token
                &&& final(self).staking_pool_pubkey == old(self).staking_pool_pubkey
                &&& final(self).accumulated_fees == old(self).accumulated_fees
                &&& final(self).total_compounded_rewards == old(self).total_compounded_rewards
                &&& final(self).emergency_unstake_penalties == old(
                    self,
                ).emergency_unstake_penalties
                &&& final(self).reward_checkpoint == old(self).reward_checkpoint
            },
    {
        if self.validator_list.len() >= MAX_VALIDATORS {
            return Err(StakingError::ValidatorIndexOutOfBounds);
        }
        let recorded = registry_stake_sum_exact(&self.validator_list);
        if (info.total_staked as u128) + recorded > (self.total_staked as u128) {
            return Err(StakingError::InsufficientFunds);
        }
        proof {
            lemma_registry_stake_sum_push(self.validator_list@, info);
        }
        self.validator_list.push(info);
        Ok(())
    }

    /// Decodes a ledger from `src`. The header is read from its fixed
    /// offsets; after it, every whole 72-byte record becomes one registry
    /// entry, and truncated trailing bytes are dropped silently, so that a
    /// buffer sized to capacity or cut mid-record still decodes. The
    /// buffer must hold at least the 89-byte header.
    pub fn unpack_from_slice(src: &[u8]) -> (r: Result<StakingPoolState, StakingError>)
        requires
            src@.len() >= 89,
        ensures
            r matches Ok(s) && unpacked_state_matches(s, src@),
    {
        let is_initialized = src[0] != 0;
        let total_staked = read_u64_at(src, 1);
        let total_issued_tokens = read_u64_at(src, 9);
        let reward_rate_per_token = read_u64_at(src, 17);
        let staking_pool_pubkey = read_pubkey_at(src, 25);
        let accumulated_fees = read_u64_at(src, 57);
        let total_compounded_rewards = read_u64_at(src, 65);
        let emergency_unstake_penalties = read_u64_at(src, 73);
        let reward_checkpoint = read_u64_at(src, 81);

        let n = (src.len() - 89) / 72;
        proof {
            lemma_record_capacity_fits(src@.len() as int);
        }
        let mut validator_list: Vec<ValidatorInfo> = Vec::new();
        let mut i: usize = 0;
        while i < n
            invariant
                i <= n,
                src@.len() >= 89,
                src@.len() <= usize::MAX,
                n == spec_record_capacity(src@.len() as int),
                89 + 72 * n <= src@.len(),
                validator_list@.len() == i,
                forall|j: int|
                    0 <= j < i ==> validator_record_matches(
                        #[trigger] validator_list@[j],
                        src@,
                        89 + 72 * j,
                    ),
            decreases n - i,
        {
            let off = 89 + i * 72;
            let validator_pubkey = read_pubkey_at(src, off);
            let stake_account_pubkey = read_pubkey_at(src, off + 32);
            let total_staked = read_u64_at(src, off + 64);
            validator_list.push(
                ValidatorInfo { validator_pubkey, stake_account_pubkey, total_staked },
            );
            i += 1;
        }

        Ok(
            StakingPoolState {
                is_initialized,
                total_staked,
                total_issued_tokens,
                reward_rate_per_token,
                staking_pool_pubkey,
                accumulated_fees,
                total_compounded_rewards,
                emergency_unstake_penalties,
                validator_list,
                reward_checkpoint,
            },
        )
    }

    /// Encodes this ledger into `dst`, which must hold at least the
    /// 89-byte header. Registry entries are written in order from offset
    /// 89; if the buffer cannot hold the next whole record, encoding stops
    /// there silently, so callers must size `dst` to [`STATE_SIZE`] to be
    /// sure every entry is kept. Bytes not written keep their old values.
    pub fn pack_into_slice(&self, dst: &mut Vec<u8>)
        requires
            old(dst)@.len() >= 89,
        ensures
            final(dst)@.len() == old(dst)@.len(),
            packed_state_matches(*self, old(dst)@, final(dst)@),
    {
        dst[0] = if self.is_initialized {
            1
        } else {
            0
        };
        write_u64_at(dst, 1, self.total_staked);
        let ghost g1 = dst@;
        write_u64_at(dst, 9, self.total_issued_tokens);
        let ghost g2 = dst@;
        write_u64_at(dst, 17, self.reward_rate_per_token);
        let ghost g3 = dst@;
        write_pubkey_at(dst, 25, &self.staking_pool_pubkey);
        let ghost g4 = dst@;
        write_u64_at(dst, 57, self.accumulated_fees);
        let ghost g5 = dst@;
        write_u64_at(dst, 65, self.total_compounded_rewards);
        let ghost g6 = dst@;
        write_u64_at(dst, 73, self.emergency_unstake_penalties);
        let ghost g7 = dst@;
        write_u64_at(dst, 81, self.reward_checkpoint);
        proof {
            assert(dst@.subrange(1, 9) =~= g1.subrange(1, 9));
            assert(dst@.subrange(9, 17) =~= g2.subrange(9, 17));
            assert(dst@.subrange(17, 25) =~= g3.subrange(17, 25));
            assert(dst@.subrange(25, 57) =~= g4.subrange(25, 57));
            assert(dst@.subrange(57, 65) =~= g5.subrange(57, 65));
            assert(dst@.subrange(65, 73) =~= g6.subrange(65, 73));
            assert(dst@.subrange(73, 81) =~= g7.subrange(73, 81));
            lemma_record_capacity_fits(dst@.len() as int);
        }

        let cap = (dst.len() - 89) / 72;
        let count = self.validator_list.len();
        let k = if count <= cap {
            count
        } else {
            cap
        };
        let mut i: usize = 0;
        while i < k
            invariant
                i <= k,
                dst@.len() == old(dst)@.len(),
                dst@.len() <= usize::MAX,
                dst@.len() >= 89,
                cap == spec_record_capacity(dst@.len() as int),
                89 + 72 * cap <= dst@.len(),
                k <= cap,
                k <= self.validator_list@.len(),
                k == spec_records_written(
                    self.validator_list@.len() as int,
                    old(dst)@.len() as int,
                ),
                dst@[0] == (if self.is_initialized { 1u8 } else { 0u8 }),
                header_matches(*self, dst@),
                forall|j: int|
                    0 <= j < i ==> validator_record_matches(
                        #[trigger] self.validator_list@[j],
                        dst@,
                        89 + 72 * j,
                    ),
                forall|j: int| 89 + 72 * i <= j < dst@.len() ==> dst@[j] == old(dst)@[j],
            decreases k - i,
        {
            let ghost before = dst@;
            let off = 89 + i * 72;
            let v = &self.validator_list[i];
            write_pubkey_at(dst, off, &v.validator_pubkey);
            write_pubkey_at(dst, off + 32, &v.stake_account_pubkey);
            write_u64_at(dst, off + 64, v.total_staked);
            proof {
                assert(dst@.subrange(off as int, off as int + 32) =~= v.validator_pubkey@);
                assert(dst@.subrange(off as int + 32, off as int + 64)
                    =~= v.stake_account_pubkey@);
                lemma_header_matches_unchanged(*self, before, dst@);
                assert forall|j: int| 0 <= j < i implies validator_record_matches(
                    #[trigger] self.validator_list@[j],
                    dst@,
                    89 + 72 * j,
                ) by {
                    lemma_record_matches_unchanged(
                        self.validator_list@[j],
                        before,
                        dst@,
                        89 + 72 * j,
                    );
                }
            }
            i += 1;
        }
    }
}

/// Round-trip law: a ledger encoded into a buffer whose record capacity
/// equals its registry size — in particular a full registry into a buffer
/// of exactly [`STATE_SIZE`] bytes — decodes back to the same ledger,
/// field for field and entry for entry. A buffer with spare record slots
/// decodes to extra entries read from the untouched slots, so the law asks
/// the capacity to be exact.
pub proof fn lemma_pack_unpack_round_trip(
    s: StakingPoolState,
    b0: Seq<u8>,
    b: Seq<u8>,
    s2: StakingPoolState,
)
    requires
        b0.len() >= 89,
        s.validator_list@.len() == spec_record_capacity(b0.len() as int),
        packed_state_matches(s, b0, b),
        unpacked_state_matches(s2, b),
    ensures
        s2.is_initialized == s.is_initialized,
        s2.total_staked == s.total_staked,
        s2.total_issued_tokens == s.total_issued_tokens,
        s2.reward_rate_per_token == s.reward_rate_per_token,
        s2.staking_pool_pubkey == s.staking_pool_pubkey,
        s2.accumulated_fees == s.accumulated_fees,
        s2.total_compounded_rewards == s.total_compounded_rewards,
        s2.emergency_unstake_penalties == s.emergency_unstake_penalties,
        s2.reward_checkpoint == s.reward_checkpoint,
        s2.validator_list@ == s.validator_list@,
{
    assert(s2.staking_pool_pubkey.bytes =~= s.staking_pool_pubkey.bytes);
    let n = s.validator_list@.len() as int;
    assert(spec_records_written(n, b0.len() as int) == n);
    assert(s2.validator_list@.len() == n);
    assert forall|i: int| 0 <= i < n implies s2.validator_list@[i] == s.validator_list@[i] by {
        assert(validator_record_matches(s.validator_list@[i], b, 89 + 72 * i));
        assert(validator_record_matches(s2.validator_list@[i], b, 89 + 72 * i));
        assert(s2.validator_list@[i].validator_pubkey.bytes
            =~= s.validator_list@[i].validator_pubkey.bytes);
        assert(s2.validator_list@[i].stake_account_pubkey.bytes
            =~= s.validator_list@[i].stake_account_pubkey.bytes);
    }
    assert(s2.validator_list@ =~= s.validator_list@);
}

/// Capacity law: encoding a ledger with a full registry of
/// [`MAX_VALIDATORS`] entries into a buffer of exactly [`STATE_SIZE`]
/// bytes writes every entry.
pub proof fn lemma_pack_full_capacity(s: StakingPoolState, b0: Seq<u8>, b: Seq<u8>)
    requires
        b0.len() == 809,
        s.validator_list@.len() == 10,
        packed_state_matches(s, b0, b),
    ensures
        forall|i: int|
            0 <= i < 10 ==> validator_record_matches(#[trigger] s.validator_list@[i], b, 89 + 72 * i),
{
    assert(spec_record_capacity(809) == 10);
}

} // verus!
