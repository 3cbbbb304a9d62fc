use vstd::prelude::*;

use crate::error::ContractError;
use crate::execute::OpResult;
use crate::execute::stake;
use crate::execute::stake_post;
use crate::execute::withdraw;
use crate::execute::withdraw_post;
use crate::msg::ExecuteMsg;
use crate::msg::GetStakedResponse;
use crate::msg::InstantiateMsg;
use crate::state::ContractState;
use crate::state::UserState;
use crate::state::pool_wf;
use crate::state::user_bounded;
use crate::state::user_wf;

verus! {

/// The initial pool state: creation parameters are taken over unchanged,
/// nothing is staked yet, the accumulator starts at zero and the settlement
/// clock starts at time zero.
pub fn instantiate(msg: InstantiateMsg) -> (s: ContractState)
    ensures
        s == (ContractState {
            staking_token: msg.staking_token,
            reward_token: msg.reward_token,
            period_finish_at: msg.period_finish_at,
            reward_rate: msg.reward_rate,
            last_update_at: 0,
            total_supply: 0,
            reward_per_token_stored: 0,
        }),
        pool_wf(s),
{
    ContractState {
        staking_token: msg.staking_token,
        reward_token: msg.reward_token,
        period_finish_at: msg.period_finish_at,
        reward_rate: msg.reward_rate,
        last_update_at: 0,
        total_supply: 0,
        reward_per_token_stored: 0,
    }
}

/// Dispatch an operation request from `sender` at time `now`. Stake and
/// withdraw requests are wired to the ledger; a transfer request is an
/// outgoing wire message the ledger sends, never an operation it serves, so
/// it is refused as `Unauthorized` and changes nothing.
pub fn execute(
    state: &ContractState,
    user: &Option<UserState>,
    sender: &String,
    now: u64,
    msg: &ExecuteMsg,
) -> (r: OpResult)
    requires
        pool_wf(*state),
        *user matches Some(u) ==> user_wf(*state, u) && user_bounded(*state, u),
        now >= state.last_update_at,
    ensures
        *msg matches ExecuteMsg::StakeMsg { amount } ==> stake_post(
            *state,
            *user,
            *sender,
            now,
            amount,
            r,
        ),
        *msg matches ExecuteMsg::Withdraw { amount } ==> withdraw_post(
            *state,
            *user,
            now,
            amount,
            r,
        ),
        *msg is TransferFrom ==> r == Err::<
            (ContractState, UserState, crate::msg::TransferRequest),
            ContractError,
        >(ContractError::Unauthorized),
{
    match msg {
        ExecuteMsg::StakeMsg { amount } => stake(state, user, sender, now, *amount),
        ExecuteMsg::Withdraw { amount } => withdraw(state, user, now, *amount),
        ExecuteMsg::TransferFrom { .. } => Err(ContractError::Unauthorized),
    }
}

/// Answer the staked-balance query from an account's ledger record: its
/// staked principal and its reward balance as of its last settlement. No
/// settlement is performed and nothing is changed.
pub fn get_staked(user: &Option<UserState>) -> (r: Result<GetStakedResponse, ContractError>)
    ensures
        r is Ok <==> *user is Some,
        *user matches Some(u) ==> r matches Ok(g) && g == (GetStakedResponse {
            balance: u.balance,
            reward: u.reward,
        }),
        r matches Err(e) ==> e == ContractError::AccountNotFound,
{
    match user {
        Some(u) => Ok(GetStakedResponse { balance: u.balance, reward: u.reward }),
        None => Err(ContractError::AccountNotFound),
    }
}

} // verus!
