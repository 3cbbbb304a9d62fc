use vstd::prelude::*;

use crate::error::ContractError;
use crate::msg::TransferDirection;
use crate::msg::TransferRequest;
use crate::state::ContractState;
use crate::state::base_user;
use crate::state::SCALE;
use crate::state::UserState;
use crate::state::accrual_fits;
use crate::state::pool_wf;
use crate::state::settle_fits;
use crate::state::spec_accrued_reward;
use crate::state::spec_reward_per_token;
use crate::state::spec_settled_pool;
use crate::state::spec_settled_user;
use crate::state::user_bounded;
use crate::state::user_wf;

verus! {

/// A staged state, the staged account record and the transfer the operation
/// asks the host to perform.
pub type OpResult = Result<(ContractState, UserState, TransferRequest), ContractError>;

/// A staged state, the staged account record and the payout a claim asks the
/// host to perform — `None` when nothing is owed, so that a zero claim is a
/// no-op that asks for no transfer at all.
pub type ClaimResult = Result<(ContractState, UserState, Option<TransferRequest>), ContractError>;

/// A stake of `amount` by the account whose record is `b` succeeds exactly
/// when the amount is positive, the settlement fits the machine arithmetic,
/// and both the pool total and the account balance stay within 64 bits.
pub open spec fn stake_ok(s: ContractState, b: UserState, now: u64, amount: u64) -> bool {
    &&& amount > 0
    &&& settle_fits(s, b, now)
    &&& s.total_supply + amount <= u64::MAX
    &&& b.balance + amount <= u64::MAX
}

/// Exact relation between the inputs of a stake and its outcome: the account
/// (created fresh if absent) is settled, then the amount is added to both its
/// balance and the pool total, and a matching deposit transfer of the staking
/// token is requested.
pub open spec fn stake_post(
    s: ContractState,
    user: Option<UserState>,
    sender: String,
    now: u64,
    amount: u64,
    r: OpResult,
) -> bool {
    let b = base_user(user, sender);
    &&& (r is Ok <==> stake_ok(s, b, now, amount))
    &&& (r matches Ok(t) ==> {
        &&& t.0 == ContractState {
            total_supply: (s.total_supply + amount) as u64,
            ..spec_settled_pool(s, now)
        }
        &&& t.1 == UserState { balance: (b.balance + amount) as u64, ..spec_settled_user(s, b, now) }
        &&& t.2 == TransferRequest {
            token: s.staking_token,
            direction: TransferDirection::IntoPool,
            amount: amount,
        }
    })
    &&& (r matches Err(e) ==> e == if amount == 0 {
        ContractError::InvalidAmount
    } else {
        ContractError::Overflow
    })
}

/// Exact relation between the inputs of a withdrawal and its outcome: the
/// account is settled, then the amount is removed from both its balance and
/// the pool total, and a matching payout transfer of the staking token is
/// requested. A missing record, an arithmetic overflow and an amount above
/// the settled balance each map to their own error.
pub open spec fn withdraw_post(
    s: ContractState,
    user: Option<UserState>,
    now: u64,
    amount: u64,
    r: OpResult,
) -> bool {
    &&& (r is Ok <==> ({
        &&& user matches Some(u)
        &&& settle_fits(s, u, now)
        &&& u.balance >= amount
    }))
    &&& (user matches Some(u) ==> (r matches Ok(t) ==> {
        &&& t.0 == ContractState {
            total_supply: (s.total_supply - amount) as u64,
            ..spec_settled_pool(s, now)
        }
        &&& t.1 == UserState { balance: (u.balance - amount) as u64, ..spec_settled_user(s, u, now) }
        &&& t.2 == TransferRequest {
            token: s.staking_token,
            direction: TransferDirection::OutOfPool,
            amount: amount,
        }
    }))
    &&& (r matches Err(e) ==> {
        ||| (user is None && e == ContractError::AccountNotFound)
        ||| (user matches Some(u) && !settle_fits(s, u, now) && e == ContractError::Overflow)
        ||| (user matches Some(u) && settle_fits(s, u, now) && u.balance < amount && e
            == ContractError::InsufficientBalance)
    })
}

/// Exact relation between the inputs of a claim and its outcome: the account
/// is settled, its owed balance is zeroed, and a transfer of the whole
/// settled reward balance in the reward token is requested when, and only
/// when, that balance is positive. A zero claim still succeeds but is a
/// no-op that asks for no transfer.
pub open spec fn claim_post(
    s: ContractState,
    user: Option<UserState>,
    now: u64,
    r: ClaimResult,
) -> bool {
    &&& (r is Ok <==> ({
        &&& user matches Some(u)
        &&& settle_fits(s, u, now)
    }))
    &&& (user matches Some(u) ==> (r matches Ok(t) ==> {
        let owed = (u.reward + spec_accrued_reward(s, u, now)) as u64;
        &&& t.0 == spec_settled_pool(s, now)
        &&& t.1 == UserState { reward: 0, ..spec_settled_user(s, u, now) }
        &&& t.2 == (if owed == 0 {
            None
        } else {
            Some(
                TransferRequest {
                    token: s.reward_token,
                    direction: TransferDirection::OutOfPool,
                    amount: owed,
                },
            )
        })
    }))
    &&& (r matches Err(e) ==> {
        ||| (user is None && e == ContractError::AccountNotFound)
        ||| (user matches Some(u) && !settle_fits(s, u, now) && e == ContractError::Overflow)
    })
}

/// The reward-per-unit accumulator as of time `now`: the stored value plus
/// the scaled emission of the clamped window `[last_update_at,
/// min(now, period_finish_at)]` divided over the staked supply. With nothing
/// staked the stored value is returned unchanged. Fails with `Overflow`
/// exactly when the updated accumulator does not fit the machine arithmetic.
pub fn get_reward_per_token_stored(state: &ContractState, now: u64) -> (r: Result<
    u64,
    ContractError,
>)
    requires
        pool_wf(*state),
        now >= state.last_update_at,
    ensures
        r is Ok <==> accrual_fits(*state, now),
        r matches Ok(v) ==> v == spec_reward_per_token(*state, now),
        r matches Ok(v) ==> v >= state.reward_per_token_stored,
        r matches Err(e) ==> e == ContractError::Overflow,
{
    if state.total_supply == 0 {
        return Ok(state.reward_per_token_stored);
    }
    let clamped: u64 = if now <= state.period_finish_at {
        now
    } else {
        state.period_finish_at
    };
    let dt: u64 = clamped - state.last_update_at;
    proof {
        vstd::arithmetic::mul::lemma_mul_upper_bound(
            dt as int,
            u64::MAX as int,
            state.reward_rate as int,
            u64::MAX as int,
        );
    }
    let emitted: u128 = (dt as u128) * (state.reward_rate as u128);
    let scale_room: u128 = u128::MAX / (SCALE as u128);
    if emitted > scale_room {
        proof {
            vstd::arithmetic::div_mod::lemma_fundamental_div_mod(u128::MAX as int, SCALE as int);
            vstd::arithmetic::mul::lemma_mul_inequality(
                scale_room as int + 1,
                emitted as int,
                SCALE as int,
            );
        }
        return Err(ContractError::Overflow);
    }
    proof {
        vstd::arithmetic::div_mod::lemma_fundamental_div_mod(u128::MAX as int, SCALE as int);
        vstd::arithmetic::mul::lemma_mul_inequality(emitted as int, scale_room as int, SCALE as int);
    }
    let scaled: u128 = emitted * (SCALE as u128);
    let per_unit: u128 = scaled / (state.total_supply as u128);
    let head_room: u64 = u64::MAX - state.reward_per_token_stored;
    if per_unit > (head_room as u128) {
        return Err(ContractError::Overflow);
    }
    Ok(state.reward_per_token_stored + (per_unit as u64))
}

/// Settle the pool and one account at time `now`: bring the accumulator up to
/// date, advance the settlement clock, credit the account the reward its
/// stake earned since its own last settlement, and move its snapshot forward.
/// Fails with `Overflow` exactly when the settled values do not fit 64-bit
/// arithmetic, and then changes nothing.
pub fn update_reward(state: &ContractState, user: &UserState, now: u64) -> (r: Result<
    (ContractState, UserState),
    ContractError,
>)
    requires
        pool_wf(*state),
        user_wf(*state, *user),
        now >= state.last_update_at,
    ensures
        r is Ok <==> settle_fits(*state, *user, now),
        r matches Ok(p) ==> p.0 == spec_settled_pool(*state, now),
        r matches Ok(p) ==> p.1 == spec_settled_user(*state, *user, now),
        r matches Err(e) ==> e == ContractError::Overflow,
{
    let rpt: u64 = match get_reward_per_token_stored(state, now) {
        Ok(v) => v,
        Err(e) => {
            return Err(e);
        },
    };
    let diff: u64 = rpt - user.reward_per_token_paid;
    proof {
        vstd::arithmetic::mul::lemma_mul_upper_bound(
            user.balance as int,
            u64::MAX as int,
            diff as int,
            u64::MAX as int,
        );
    }
    let scaled_gain: u128 = (user.balance as u128) * (diff as u128);
    let accrued: u128 = scaled_gain / (SCALE as u128);
    let reward_room: u64 = u64::MAX - user.reward;
    if accrued > (reward_room as u128) {
        return Err(ContractError::Overflow);
    }
    let clamped: u64 = if now <= state.period_finish_at {
        now
    } else {
        state.period_finish_at
    };
    let new_pool = ContractState {
        staking_token: state.staking_token.clone(),
        reward_token: state.reward_token.clone(),
        period_finish_at: state.period_finish_at,
        reward_rate: state.reward_rate,
        last_update_at: clamped,
        total_supply: state.total_supply,
        reward_per_token_stored: rpt,
    };
    let new_user = UserState {
        owner: user.owner.clone(),
        balance: user.balance,
        reward: user.reward + (accrued as u64),
        reward_per_token_paid: rpt,
    };
    Ok((new_pool, new_user))
}

/// A fresh, all-zero ledger record for an account staking for the first
/// time. The zero balance and zero accumulator snapshot give the first
/// settlement a zero baseline, so a new account is credited no past reward.
pub fn create_new_user(owner: String) -> (u: UserState)
    ensures
        u == (UserState { owner: owner, balance: 0, reward: 0, reward_per_token_paid: 0 }),
{
    UserState { owner, balance: 0, reward: 0, reward_per_token_paid: 0 }
}

/// Stake `amount` of the staking token for `sender`: settle the account
/// (creating a fresh zero record on a first stake), then add the amount to
/// the account's balance and to the pool total, and request the matching
/// deposit transfer. The caller must commit the staged state only if that
/// transfer succeeds.
pub fn stake(
    state: &ContractState,
    user: &Option<UserState>,
    sender: &String,
    now: u64,
    amount: u64,
) -> (r: OpResult)
    requires
        pool_wf(*state),
        *user matches Some(u) ==> user_wf(*state, u),
        now >= state.last_update_at,
    ensures
        stake_post(*state, *user, *sender, now, amount, r),
{
    if amount == 0 {
        return Err(ContractError::InvalidAmount);
    }
    let base: UserState = match user {
        Some(u) => UserState {
            owner: u.owner.clone(),
            balance: u.balance,
            reward: u.reward,
            reward_per_token_paid: u.reward_per_token_paid,
        },
        None => create_new_user(sender.clone()),
    };
    let settled = match update_reward(state, &base, now) {
        Ok(p) => p,
        Err(e) => {
            return Err(e);
        },
    };
    let (mut new_pool, mut new_user) = settled;
    if new_pool.total_supply > u64::MAX - amount {
        return Err(ContractError::Overflow);
    }
    if new_user.balance > u64::MAX - amount {
        return Err(ContractError::Overflow);
    }
    new_pool.total_supply = new_pool.total_supply + amount;
    new_user.balance = new_user.balance + amount;
    let req = TransferRequest {
        token: new_pool.staking_token.clone(),
        direction: TransferDirection::IntoPool,
        amount,
    };
    Ok((new_pool, new_user, req))
}

/// Withdraw `amount` of staked principal: settle the account, require the
/// settled balance to cover the amount, remove the amount from the balance
/// and the pool total, and request the matching payout transfer. The caller
/// must commit the staged state only if that transfer succeeds.
pub fn withdraw(state: &ContractState, user: &Option<UserState>, now: u64, amount: u64) -> (r:
    OpResult)
    requires
        pool_wf(*state),
        *user matches Some(u) ==> user_wf(*state, u) && user_bounded(*state, u),
        now >= state.last_update_at,
    ensures
        withdraw_post(*state, *user, now, amount, r),
{
    let existing: &UserState = match user {
        Some(u) => u,
        None => {
            return Err(ContractError::AccountNotFound);
        },
    };
    let settled = match update_reward(state, existing, now) {
        Ok(p) => p,
        Err(e) => {
            return Err(e);
        },
    };
    let (mut new_pool, mut new_user) = settled;
    if new_user.balance < amount {
        return Err(ContractError::InsufficientBalance);
    }
    new_pool.total_supply = new_pool.total_supply - amount;
    new_user.balance = new_user.balance - amount;
    let req = TransferRequest {
        token: new_pool.staking_token.clone(),
        direction: TransferDirection::OutOfPool,
        amount,
    };
    Ok((new_pool, new_user, req))
}

/// Claim the account's accrued reward: settle the account, zero the owed
/// balance, and request a payout transfer of the whole settled reward balance
/// in the reward token — unless nothing is owed, in which case the claim
/// still succeeds as a no-op and requests no transfer. The caller must commit
/// the staged state only if the requested transfer succeeds, so a failed
/// payout loses no accrued reward.
pub fn claim_reward(state: &ContractState, user: &Option<UserState>, now: u64) -> (r: ClaimResult)
    requires
        pool_wf(*state),
        *user matches Some(u) ==> user_wf(*state, u),
        now >= state.last_update_at,
    ensures
        claim_post(*state, *user, now, r),
{
    let existing: &UserState = match user {
        Some(u) => u,
        None => {
            return Err(ContractError::AccountNotFound);
        },
    };
    let settled = match update_reward(state, existing, now) {
        Ok(p) => p,
        Err(e) => {
            return Err(e);
        },
    };
    let (new_pool, mut new_user) = settled;
    let owed: u64 = new_user.reward;
    new_user.reward = 0;
    let req: Option<TransferRequest> = if owed == 0 {
        None
    } else {
        Some(
            TransferRequest {
                token: new_pool.reward_token.clone(),
                direction: TransferDirection::OutOfPool,
                amount: owed,
            },
        )
    };
    Ok((new_pool, new_user, req))
}

} // verus!
