use vstd::prelude::*;

use crate::error::ContractError;
use crate::execute::OpResult;
use crate::execute::stake_post;
use crate::execute::withdraw_post;
use crate::msg::TransferRequest;
use crate::state::ContractState;
use crate::state::base_user;
use crate::state::UserState;
use crate::state::accrual_fits;
use crate::state::min_u64;
use crate::state::pool_wf;
use crate::state::settle_fits;
use crate::state::spec_accrued_reward;
use crate::state::spec_reward_per_token;
use crate::state::spec_settled_pool;
use crate::state::spec_settled_user;
use crate::state::user_wf;

verus! {

/// Sum of a sequence of staked balances.
pub open spec fn sum_balances(balances: Seq<u64>) -> int
    decreases balances.len(),
{
    if balances.len() == 0 {
        0
    } else {
        balances[0] + sum_balances(balances.subrange(1, balances.len() as int))
    }
}

proof fn lemma_sum_update(balances: Seq<u64>, i: int, v: u64)
    requires
        0 <= i < balances.len(),
    ensures
        sum_balances(balances.update(i, v)) == sum_balances(balances) - balances[i] + v,
    decreases balances.len(),
{
    let len = balances.len() as int;
    let tail = balances.subrange(1, len);
    if i == 0 {
        assert(balances.update(0, v).subrange(1, len) =~= tail);
    } else {
        lemma_sum_update(tail, i - 1, v);
        assert(balances.update(i, v).subrange(1, len) =~= tail.update(i - 1, v));
    }
}

proof fn lemma_sum_nonneg(balances: Seq<u64>)
    ensures
        sum_balances(balances) >= 0,
    decreases balances.len(),
{
    if balances.len() != 0 {
        lemma_sum_nonneg(balances.subrange(1, balances.len() as int));
    }
}

proof fn lemma_element_le_sum(balances: Seq<u64>, i: int)
    requires
        0 <= i < balances.len(),
    ensures
        balances[i] <= sum_balances(balances),
    decreases balances.len(),
{
    let tail = balances.subrange(1, balances.len() as int);
    if i == 0 {
        lemma_sum_nonneg(tail);
    } else {
        lemma_element_le_sum(tail, i - 1);
    }
}

/// Conservation of the staked supply: an operation that changes one
/// account's balance and the pool total by the same signed amount keeps the
/// total equal to the sum of all account balances. Stake and withdraw do
/// exactly that (their postconditions add, or subtract, the same amount on
/// both sides), and settlement and claim touch neither side, so the equality
/// holds at every quiescent point of any operation sequence.
pub proof fn lemma_conservation(
    balances: Seq<u64>,
    i: int,
    total: int,
    new_total: int,
    new_balance: u64,
)
    requires
        0 <= i < balances.len(),
        total == sum_balances(balances),
        new_total - total == new_balance - balances[i],
    ensures
        new_total == sum_balances(balances.update(i, new_balance)),
{
    lemma_sum_update(balances, i, new_balance);
}

/// Conservation under a successful stake: if the pool total was the sum of
/// all account balances, with the staker's balance at position `i`, then the
/// staged total is again the sum once the staged balance replaces the old
/// one. A first-time staker enters as a zero balance at `i`.
pub proof fn lemma_stake_conservation(
    balances: Seq<u64>,
    i: int,
    s: ContractState,
    user: Option<UserState>,
    sender: String,
    now: u64,
    amount: u64,
    r: OpResult,
)
    requires
        stake_post(s, user, sender, now, amount, r),
        0 <= i < balances.len(),
        balances[i] == base_user(user, sender).balance,
        s.total_supply == sum_balances(balances),
    ensures
        r matches Ok(t) ==> t.0.total_supply == sum_balances(balances.update(i, t.1.balance)),
{
    if let Ok(t) = r {
        lemma_sum_update(balances, i, t.1.balance);
    }
}

/// Conservation under a successful withdrawal, stated as for a stake.
pub proof fn lemma_withdraw_conservation(
    balances: Seq<u64>,
    i: int,
    s: ContractState,
    user: Option<UserState>,
    now: u64,
    amount: u64,
    r: OpResult,
)
    requires
        withdraw_post(s, user, now, amount, r),
        0 <= i < balances.len(),
        user matches Some(u) ==> balances[i] == u.balance,
        s.total_supply == sum_balances(balances),
    ensures
        r matches Ok(t) ==> t.0.total_supply == sum_balances(balances.update(i, t.1.balance)),
{
    if let Ok(t) = r {
        lemma_element_le_sum(balances, i);
        lemma_sum_update(balances, i, t.1.balance);
    }
}

/// An overdrawn withdrawal is refused: provided the settlement itself fits
/// 64-bit arithmetic (otherwise the hard `Overflow` error precedes the
/// balance check), a withdrawal fails with `InsufficientBalance` exactly
/// when the amount exceeds the account's settled staked balance. Operations
/// stage their results, so a refused withdrawal leaves every balance
/// untouched.
pub proof fn lemma_overdrawn_withdraw(
    s: ContractState,
    u: UserState,
    now: u64,
    amount: u64,
    r: OpResult,
)
    requires
        withdraw_post(s, Some(u), now, amount, r),
        settle_fits(s, u, now),
    ensures
        r == Err::<(ContractState, UserState, TransferRequest), ContractError>(
            ContractError::InsufficientBalance,
        ) <==> u.balance < amount,
{
}

/// The accumulator never decreases: a settlement at any admissible time only
/// adds a non-negative accrual to the stored reward-per-unit value, so the
/// accumulator is non-decreasing across any sequence of settlements.
pub proof fn lemma_monotonic_accumulator(s: ContractState, now: u64)
    requires
        pool_wf(s),
        now >= s.last_update_at,
    ensures
        spec_reward_per_token(s, now) >= s.reward_per_token_stored,
        accrual_fits(s, now) ==> spec_settled_pool(s, now).reward_per_token_stored
            >= s.reward_per_token_stored,
{
    if s.total_supply != 0 {
        let emission = (min_u64(now, s.period_finish_at) - s.last_update_at) * s.reward_rate
            * crate::state::SCALE;
        vstd::arithmetic::mul::lemma_mul_nonnegative(
            (min_u64(now, s.period_finish_at) - s.last_update_at) * s.reward_rate,
            crate::state::SCALE as int,
        );
        vstd::arithmetic::mul::lemma_mul_nonnegative(
            min_u64(now, s.period_finish_at) - s.last_update_at,
            s.reward_rate as int,
        );
        vstd::arithmetic::div_mod::lemma_div_pos_is_pos(emission, s.total_supply as int);
    }
}

/// No accrual without stake: while nothing is staked, settlements advance the
/// clock but leave the accumulator untouched, over any interval.
pub proof fn lemma_no_accrual_without_stake(s: ContractState, now: u64)
    requires
        s.total_supply == 0,
    ensures
        spec_reward_per_token(s, now) == s.reward_per_token_stored,
        spec_settled_pool(s, now).reward_per_token_stored == s.reward_per_token_stored,
        spec_settled_pool(s, now).total_supply == 0,
{
}

/// Settlement is idempotent: settling pool and account a second time at the
/// same timestamp, with no mutation in between, fits again and changes
/// neither the pool nor the account — in particular the account's owed
/// reward is unchanged after the second call.
pub proof fn lemma_idempotent_settlement(s: ContractState, u: UserState, now: u64)
    requires
        pool_wf(s),
        user_wf(s, u),
        now >= s.last_update_at,
        settle_fits(s, u, now),
    ensures
        ({
            let s1 = spec_settled_pool(s, now);
            let u1 = spec_settled_user(s, u, now);
            &&& settle_fits(s1, u1, now)
            &&& spec_settled_pool(s1, now) == s1
            &&& spec_settled_user(s1, u1, now) == u1
        }),
{
    lemma_monotonic_accumulator(s, now);
    let s1 = spec_settled_pool(s, now);
    let u1 = spec_settled_user(s, u, now);
    assert(min_u64(now, s1.period_finish_at) == s1.last_update_at);
    if s1.total_supply != 0 {
        assert((min_u64(now, s1.period_finish_at) - s1.last_update_at) * s1.reward_rate
            * crate::state::SCALE == 0);
        vstd::arithmetic::div_mod::lemma_div_of0(s1.total_supply as int);
    }
    assert(spec_reward_per_token(s1, now) == s1.reward_per_token_stored);
    assert(u1.reward_per_token_paid == s1.reward_per_token_stored);
    vstd::arithmetic::mul::lemma_mul_by_zero_is_zero(u1.balance as int);
    assert(u1.balance * (spec_reward_per_token(s1, now) - u1.reward_per_token_paid) == 0);
    vstd::arithmetic::div_mod::lemma_div_of0(crate::state::SCALE as int);
    assert(spec_accrued_reward(s1, u1, now) == 0);
}

/// The accrual window is clamped: settling later than the end of the reward
/// period gives exactly the settlement at the period end, for the pool and
/// for any account.
pub proof fn lemma_clamped_accrual(s: ContractState, u: UserState, now: u64)
    requires
        now >= s.period_finish_at,
    ensures
        spec_reward_per_token(s, now) == spec_reward_per_token(s, s.period_finish_at),
        spec_settled_pool(s, now) == spec_settled_pool(s, s.period_finish_at),
        spec_accrued_reward(s, u, now) == spec_accrued_reward(s, u, s.period_finish_at),
        spec_settled_user(s, u, now) == spec_settled_user(s, u, s.period_finish_at),
{
    assert(min_u64(now, s.period_finish_at) == min_u64(s.period_finish_at, s.period_finish_at));
}

} // verus!
