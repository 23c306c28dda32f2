use vstd::prelude::*;
use vstd::string::StrSliceExecFns;

verus! {

/// Process-wide fee configuration. Each field is a percentage in `[0, 100]`
/// of the amount the fee applies to. The configuration is not persisted in
/// the ledger; callers pass it explicitly on every invocation.
#[derive(Debug, Clone, Copy, PartialEq, Eq, Structural)]
pub struct FeeStructure {
    /// Percentage charged when staking.
    pub staking_fee: u64,
    /// Percentage charged on a regular withdrawal.
    pub withdrawal_fee: u64,
    /// Percentage charged as the emergency-unstake penalty.
    pub emergency_unstake_penalty: u64,
}

impl FeeStructure {
    /// A fee structure is well formed when every rate is a percentage.
    pub open spec fn wf(self) -> bool {
        &&& self.staking_fee <= 100
        &&& self.withdrawal_fee <= 100
        &&& self.emergency_unstake_penalty <= 100
    }

    /// The percentage selected by a fee kind. An unknown kind selects 0%:
    /// a deliberately permissive default, not an error.
    pub open spec fn spec_fee_percentage(self, kind: Seq<char>) -> u64 {
        if kind == "staking"@ {
            self.staking_fee
        } else if kind == "withdrawal"@ {
            self.withdrawal_fee
        } else if kind == "emergency"@ {
            self.emergency_unstake_penalty
        } else {
            0
        }
    }

    /// The fee owed on `amount` under a kind: `amount * percentage / 100`,
    /// in integer (floor) division. The truncating cast is exact whenever
    /// the percentage is at most 100, since the quotient is then at most
    /// `amount`.
    pub open spec fn spec_fee(self, amount: u64, kind: Seq<char>) -> u64 {
        ((amount * self.spec_fee_percentage(kind)) / 100) as u64
    }

    /// The default configuration: 1% staking fee, 1% withdrawal fee,
    /// 5% emergency-unstake penalty.
    pub fn default() -> (r: Self)
        ensures
            r == (FeeStructure { staking_fee: 1, withdrawal_fee: 1, emergency_unstake_penalty: 5 }),
            r.wf(),
    {
        Self { staking_fee: 1, withdrawal_fee: 1, emergency_unstake_penalty: 5 }
    }

    /// Computes the fee owed on `amount` for a fee kind, named by string:
    /// `"staking"`, `"withdrawal"` or `"emergency"`. Any other kind yields
    /// a fee of 0.
    pub fn calculate_fee(&self, amount: u64, fee_type: &str) -> (r: u64)
        requires
            self.wf(),
        ensures
            r == self.spec_fee(amount, fee_type@),
    {
        let fee_percentage: u64 = if str_eq(fee_type, "staking") {
            self.staking_fee
        } else if str_eq(fee_type, "withdrawal") {
            self.withdrawal_fee
        } else if str_eq(fee_type, "emergency") {
            self.emergency_unstake_penalty
        } else {
            0
        };
        proof {
            lemma_fee_quotient_bounded(amount, fee_percentage);
        }
        let wide: u128 = (amount as u128) * (fee_percentage as u128) / 100;
        wide as u64
    }
}

/// The quotient `amount * pct / 100` never exceeds `amount` while `pct` is a
/// percentage, so it fits in a `u64`.
proof fn lemma_fee_quotient_bounded(amount: u64, pct: u64)
    requires
        pct <= 100,
    ensures
        amount * pct / 100 <= amount,
        amount * pct <= u64::MAX * 100,
{
    assert(amount * pct <= amount * 100) by (nonlinear_arith)
        requires pct <= 100,
    ;
    assert(amount * 100 <= u64::MAX * 100) by (nonlinear_arith)
        requires amount <= u64::MAX,
    ;
    assert(amount * 100 / 100 == amount) by (nonlinear_arith);
    assert(amount * pct / 100 <= amount * 100 / 100) by (nonlinear_arith)
        requires amount * pct <= amount * 100,
    ;
}

/// Character-for-character equality of two string slices.
fn str_eq(a: &str, b: &str) -> (r: bool)
    ensures
        r == (a@ == b@),
{
    let a_len = a.unicode_len();
    let b_len = b.unicode_len();
    if a_len != b_len {
        return false;
    }
    let mut i: usize = 0;
    while i < a_len
        invariant
            i <= a_len,
            a_len == a@.len(),
            b_len == b@.len(),
            a_len == b_len,
            forall|j: int| 0 <= j < i ==> a@[j] == b@[j],
        decreases a_len - i,
    {
        if a.get_char(i) != b.get_char(i) {
            return false;
        }
        i += 1;
    }
    proof {
        assert(a@ =~= b@);
    }
    true
}

} // verus!
