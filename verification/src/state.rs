use vstd::prelude::*;

verus! {

/// Fixed-point scale of the reward-per-unit accumulator. The accumulator
/// grows by `elapsed * reward_rate * SCALE / total_supply`, and a settlement
/// divides the accumulated difference back down by `SCALE`, so the factor is
/// applied symmetrically on the way in and on the way out. The value is chosen
/// so that scaled accumulator values still fit comfortably in 64 bits.
pub const SCALE: u64 = 1_000_000_000;

/// Ledger-wide accrual state: one record per pool.
pub struct ContractState {
    /// Identifier of the token accounts deposit as principal.
    pub staking_token: String,
    /// Identifier of the token paid out as yield.
    pub reward_token: String,
    /// Time after which no further reward accrues.
    pub period_finish_at: u64,
    /// Reward units emitted per unit time, fixed at pool creation.
    pub reward_rate: u64,
    /// Time of the last accumulator settlement, clamped to the period end.
    pub last_update_at: u64,
    /// Sum of all account balances staked in the pool.
    pub total_supply: u64,
    /// Cumulative scaled reward per staked unit since pool creation.
    pub reward_per_token_stored: u64,
}

/// Per-account ledger state.
pub struct UserState {
    /// Stable identifier of the account.
    pub owner: String,
    /// Principal currently deposited by this account.
    pub balance: u64,
    /// Reward units accrued but not yet claimed.
    pub reward: u64,
    /// Snapshot of the pool accumulator at this account's last settlement.
    pub reward_per_token_paid: u64,
}

/// The smaller of two timestamps.
pub open spec fn min_u64(a: u64, b: u64) -> u64 {
    if a <= b {
        a
    } else {
        b
    }
}

/// A pool is well formed when its settlement clock never passed the end of
/// the reward period.
pub open spec fn pool_wf(s: ContractState) -> bool {
    s.last_update_at <= s.period_finish_at
}

/// An account ledger is consistent with its pool when its accumulator
/// snapshot does not run ahead of the stored accumulator.
pub open spec fn user_wf(s: ContractState, u: UserState) -> bool {
    u.reward_per_token_paid <= s.reward_per_token_stored
}

/// One account can never hold more stake than the whole pool: a consequence
/// of the pool total being the sum of all account balances.
pub open spec fn user_bounded(s: ContractState, u: UserState) -> bool {
    u.balance <= s.total_supply
}

/// Scaled reward added per staked unit over the clamped accrual window
/// `[last_update_at, min(now, period_finish_at)]`. Zero whenever nothing is
/// staked: with no stake base there is nobody to hand the emission to.
pub open spec fn spec_accrual(s: ContractState, now: u64) -> int {
    if s.total_supply == 0 {
        0
    } else {
        (min_u64(now, s.period_finish_at) - s.last_update_at) * s.reward_rate * SCALE
            / (s.total_supply as int)
    }
}

/// Value of the reward-per-unit accumulator once settled at time `now`.
pub open spec fn spec_reward_per_token(s: ContractState, now: u64) -> int {
    s.reward_per_token_stored + spec_accrual(s, now)
}

/// The accumulator update at time `now` fits the machine arithmetic: the
/// scaled emission fits 128 bits and the settled accumulator fits 64 bits.
pub open spec fn accrual_fits(s: ContractState, now: u64) -> bool {
    s.total_supply == 0 || {
        &&& (min_u64(now, s.period_finish_at) - s.last_update_at) * s.reward_rate * SCALE
            <= u128::MAX
        &&& spec_reward_per_token(s, now) <= u64::MAX
    }
}

/// Reward units newly owed to account `u` by a settlement at time `now`:
/// the account's stake times the accumulator growth since its last
/// settlement, scaled back down. Integer division rounds down, so remainders
/// below one unit are lost to the claimant, never carried forward.
pub open spec fn spec_accrued_reward(s: ContractState, u: UserState, now: u64) -> int {
    u.balance * (spec_reward_per_token(s, now) - u.reward_per_token_paid) / (SCALE as int)
}

/// A full settlement of account `u` at time `now` fits 64-bit arithmetic.
pub open spec fn settle_fits(s: ContractState, u: UserState, now: u64) -> bool {
    &&& accrual_fits(s, now)
    &&& u.reward + spec_accrued_reward(s, u, now) <= u64::MAX
}

/// The pool after a settlement at time `now`: the accumulator is brought up
/// to date and the settlement clock advances to the clamped current time.
pub open spec fn spec_settled_pool(s: ContractState, now: u64) -> ContractState {
    ContractState {
        staking_token: s.staking_token,
        reward_token: s.reward_token,
        period_finish_at: s.period_finish_at,
        reward_rate: s.reward_rate,
        last_update_at: min_u64(now, s.period_finish_at),
        total_supply: s.total_supply,
        reward_per_token_stored: spec_reward_per_token(s, now) as u64,
    }
}

/// The account ledger after a settlement at time `now`: newly accrued reward
/// is added to the owed balance and the accumulator snapshot catches up.
pub open spec fn spec_settled_user(s: ContractState, u: UserState, now: u64) -> UserState {
    UserState {
        owner: u.owner,
        balance: u.balance,
        reward: (u.reward + spec_accrued_reward(s, u, now)) as u64,
        reward_per_token_paid: spec_reward_per_token(s, now) as u64,
    }
}

/// The ledger record an operation starts from: the existing record if the
/// account has one, else a fresh all-zero record owned by `sender`, so that
/// the first settlement has a zero baseline and credits no past reward.
pub open spec fn base_user(user: Option<UserState>, sender: String) -> UserState {
    match user {
        Some(u) => u,
        None => UserState { owner: sender, balance: 0, reward: 0, reward_per_token_paid: 0 },
    }
}

} // verus!
