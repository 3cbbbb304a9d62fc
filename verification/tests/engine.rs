use staking_rewards::contract::execute;
use staking_rewards::contract::get_staked;
use staking_rewards::contract::instantiate;
use staking_rewards::execute::claim_reward;
use staking_rewards::execute::create_new_user;
use staking_rewards::execute::get_reward_per_token_stored;
use staking_rewards::execute::stake;
use staking_rewards::execute::update_reward;
use staking_rewards::execute::withdraw;
use staking_rewards::msg::ExecuteMsg;
use staking_rewards::msg::InstantiateMsg;
use staking_rewards::msg::TransferDirection;
use staking_rewards::state::ContractState;
use staking_rewards::state::SCALE;
use staking_rewards::state::UserState;
use staking_rewards::ContractError;

fn fresh_pool(reward_rate: u64, period_finish_at: u64) -> ContractState {
    instantiate(InstantiateMsg {
        staking_token: String::from("stake-token"),
        reward_token: String::from("reward-token"),
        period_finish_at,
        reward_rate,
    })
}

#[test]
fn instantiate_sets_initial_state() {
    let pool = fresh_pool(100, 1000);
    assert_eq!(pool.staking_token, "stake-token");
    assert_eq!(pool.reward_token, "reward-token");
    assert_eq!(pool.period_finish_at, 1000);
    assert_eq!(pool.reward_rate, 100);
    assert_eq!(pool.last_update_at, 0);
    assert_eq!(pool.total_supply, 0);
    assert_eq!(pool.reward_per_token_stored, 0);
}

#[test]
fn create_new_user_is_all_zero() {
    let user = create_new_user(String::from("alice"));
    assert_eq!(user.owner, "alice");
    assert_eq!(user.balance, 0);
    assert_eq!(user.reward, 0);
    assert_eq!(user.reward_per_token_paid, 0);
}

#[test]
fn first_stake_creates_record_and_requests_deposit() {
    let pool = fresh_pool(100, 1000);
    let alice = String::from("alice");
    let (pool, user, req) = stake(&pool, &None, &alice, 0, 50).unwrap();
    assert_eq!(pool.total_supply, 50);
    assert_eq!(pool.reward_per_token_stored, 0);
    assert_eq!(pool.last_update_at, 0);
    assert_eq!(user.owner, "alice");
    assert_eq!(user.balance, 50);
    assert_eq!(user.reward, 0);
    assert_eq!(user.reward_per_token_paid, 0);
    assert_eq!(req.token, "stake-token");
    assert_eq!(req.direction, TransferDirection::IntoPool);
    assert_eq!(req.amount, 50);
}

#[test]
fn single_staker_accrual_scenario() {
    // Pool with reward_rate = 100 and period_finish_at = 1000; A stakes 50 at
    // t = 0; a settlement at t = 100 raises the accumulator by
    // 100 * 100 / 50 = 200 scaled units and owes A 50 * 200 = 10000 units.
    let pool = fresh_pool(100, 1000);
    let alice = String::from("alice");
    let (pool, user, _req) = stake(&pool, &None, &alice, 0, 50).unwrap();
    let (pool, user) = update_reward(&pool, &user, 100).unwrap();
    assert_eq!(pool.reward_per_token_stored, 200 * SCALE);
    assert_eq!(pool.last_update_at, 100);
    assert_eq!(user.reward, 10_000);
    assert_eq!(user.reward_per_token_paid, 200 * SCALE);
    assert_eq!(user.balance, 50);
}

#[test]
fn late_staker_splits_subsequent_emission_evenly() {
    // A stakes 50 at t = 0, B stakes 50 at t = 100. The 10000 units emitted
    // in [0, 100) all belong to A; the 10000 units emitted in [100, 200)
    // split evenly, so at t = 200 A is owed 15000 and B is owed 5000.
    let pool = fresh_pool(100, 1000);
    let alice = String::from("alice");
    let bob = String::from("bob");
    let (pool, a, _) = stake(&pool, &None, &alice, 0, 50).unwrap();
    let (pool, b, _) = stake(&pool, &None, &bob, 100, 50).unwrap();
    assert_eq!(pool.total_supply, 100);
    assert_eq!(b.reward, 0);
    assert_eq!(b.reward_per_token_paid, 200 * SCALE);
    let (pool_after_a, a) = update_reward(&pool, &a, 200).unwrap();
    assert_eq!(pool_after_a.reward_per_token_stored, 300 * SCALE);
    assert_eq!(a.reward, 15_000);
    let (_pool_after_b, b) = update_reward(&pool, &b, 200).unwrap();
    assert_eq!(b.reward, 5_000);
    // A and B split the emission of [100, 200) evenly, 5000 each, while A
    // keeps the 10000 earned alone in [0, 100).
    assert_eq!(a.reward - 10_000, b.reward);
}

#[test]
fn settlement_is_idempotent_at_same_timestamp() {
    let pool = fresh_pool(100, 1000);
    let alice = String::from("alice");
    let (pool, user, _) = stake(&pool, &None, &alice, 0, 50).unwrap();
    let (pool1, user1) = update_reward(&pool, &user, 100).unwrap();
    let (pool2, user2) = update_reward(&pool1, &user1, 100).unwrap();
    assert_eq!(pool2.reward_per_token_stored, pool1.reward_per_token_stored);
    assert_eq!(pool2.last_update_at, pool1.last_update_at);
    assert_eq!(user2.reward, user1.reward);
    assert_eq!(user2.reward_per_token_paid, user1.reward_per_token_paid);
    assert_eq!(user2.balance, user1.balance);
}

#[test]
fn accrual_stops_at_period_finish() {
    // Settling past the end of the reward period pays exactly what settling
    // at the period end pays.
    let pool = fresh_pool(100, 1000);
    let alice = String::from("alice");
    let (pool, user, _) = stake(&pool, &None, &alice, 0, 50).unwrap();
    let (at_finish_pool, at_finish_user) = update_reward(&pool, &user, 1000).unwrap();
    let (late_pool, late_user) = update_reward(&pool, &user, 5000).unwrap();
    assert_eq!(late_pool.reward_per_token_stored, at_finish_pool.reward_per_token_stored);
    assert_eq!(late_pool.last_update_at, 1000);
    assert_eq!(late_user.reward, at_finish_user.reward);
    assert_eq!(late_user.reward, 2000 * 50);
}

#[test]
fn no_accrual_without_stake() {
    // With nothing staked the accumulator stays put while the clock advances.
    let pool = fresh_pool(100, 1000);
    assert_eq!(get_reward_per_token_stored(&pool, 500).unwrap(), 0);
    let ghost_record = create_new_user(String::from("nobody"));
    let (pool, _) = update_reward(&pool, &ghost_record, 500).unwrap();
    assert_eq!(pool.reward_per_token_stored, 0);
    assert_eq!(pool.last_update_at, 500);
}

#[test]
fn claim_zeroes_owed_and_requests_exact_payout() {
    let pool = fresh_pool(100, 1000);
    let alice = String::from("alice");
    let (pool, user, _) = stake(&pool, &None, &alice, 0, 50).unwrap();
    let (pool, user, req) = claim_reward(&pool, &Some(user), 100).unwrap();
    let req = req.unwrap();
    assert_eq!(req.token, "reward-token");
    assert_eq!(req.direction, TransferDirection::OutOfPool);
    assert_eq!(req.amount, 10_000);
    assert_eq!(user.reward, 0);
    assert_eq!(user.balance, 50);
    assert_eq!(pool.total_supply, 50);
    // A second claim immediately after finds nothing owed: it still succeeds
    // but is a no-op that requests no transfer at all.
    let (_pool, user, req) = claim_reward(&pool, &Some(user), 100).unwrap();
    assert!(req.is_none());
    assert_eq!(user.reward, 0);
}

#[test]
fn withdraw_pays_out_and_shrinks_pool() {
    let pool = fresh_pool(100, 1000);
    let alice = String::from("alice");
    let (pool, user, _) = stake(&pool, &None, &alice, 0, 50).unwrap();
    let (pool, user, req) = withdraw(&pool, &Some(user), 100, 20).unwrap();
    assert_eq!(pool.total_supply, 30);
    assert_eq!(user.balance, 30);
    assert_eq!(user.reward, 10_000);
    assert_eq!(req.token, "stake-token");
    assert_eq!(req.direction, TransferDirection::OutOfPool);
    assert_eq!(req.amount, 20);
    // Withdrawing the rest leaves an unstaked record that keeps its reward.
    let (pool, user, _) = withdraw(&pool, &Some(user), 100, 30).unwrap();
    assert_eq!(pool.total_supply, 0);
    assert_eq!(user.balance, 0);
    assert_eq!(user.reward, 10_000);
}

#[test]
fn overdrawn_withdraw_fails_and_changes_nothing() {
    let pool = fresh_pool(100, 1000);
    let alice = String::from("alice");
    let (pool, user, _) = stake(&pool, &None, &alice, 0, 50).unwrap();
    let record = Some(user);
    let r = withdraw(&pool, &record, 100, 51);
    assert!(matches!(r, Err(ContractError::InsufficientBalance)));
    // The staged-state style leaves the caller's pool and record untouched on
    // failure: the inputs still hold the pre-call balances.
    let user: &UserState = record.as_ref().unwrap();
    assert_eq!(pool.total_supply, 50);
    assert_eq!(user.balance, 50);
    assert_eq!(user.reward, 0);
}

#[test]
fn zero_stake_is_rejected() {
    let pool = fresh_pool(100, 1000);
    let alice = String::from("alice");
    let r = stake(&pool, &None, &alice, 0, 0);
    assert!(matches!(r, Err(ContractError::InvalidAmount)));
}

#[test]
fn missing_account_is_reported() {
    let pool = fresh_pool(100, 1000);
    assert!(matches!(withdraw(&pool, &None, 0, 1), Err(ContractError::AccountNotFound)));
    assert!(matches!(claim_reward(&pool, &None, 0), Err(ContractError::AccountNotFound)));
    assert!(matches!(get_staked(&None), Err(ContractError::AccountNotFound)));
}

#[test]
fn oversized_accrual_is_a_hard_error() {
    // One second of an absurd reward rate on a one-unit stake does not fit
    // 64-bit accumulator arithmetic and must be refused, not wrapped.
    let pool = fresh_pool(u64::MAX, 1000);
    let alice = String::from("alice");
    let (pool, user, _) = stake(&pool, &None, &alice, 0, 1).unwrap();
    let r = update_reward(&pool, &user, 1);
    assert!(matches!(r, Err(ContractError::Overflow)));
    let r = withdraw(&pool, &Some(user), 1, 1);
    assert!(matches!(r, Err(ContractError::Overflow)));
}

#[test]
fn dispatch_wires_operations_and_refuses_wire_messages() {
    let pool = fresh_pool(100, 1000);
    let alice = String::from("alice");
    let r = execute(&pool, &None, &alice, 0, &ExecuteMsg::StakeMsg { amount: 50 });
    let (pool, user, _req) = r.unwrap();
    assert_eq!(pool.total_supply, 50);
    assert_eq!(user.balance, 50);
    let r = execute(&pool, &Some(user), &alice, 0, &ExecuteMsg::Withdraw { amount: 10 });
    let (pool, user, req) = r.unwrap();
    assert_eq!(pool.total_supply, 40);
    assert_eq!(user.balance, 40);
    assert_eq!(req.direction, TransferDirection::OutOfPool);
    assert_eq!(req.amount, 10);
    let wire = ExecuteMsg::TransferFrom {
        owner: String::from("alice"),
        recipient: String::from("bob"),
        amount: 1,
    };
    let r = execute(&pool, &Some(user), &alice, 0, &wire);
    assert!(matches!(r, Err(ContractError::Unauthorized)));
}

#[test]
fn query_reads_last_settled_figures() {
    let pool = fresh_pool(100, 1000);
    let alice = String::from("alice");
    let (_pool, user, _) = stake(&pool, &None, &alice, 0, 50).unwrap();
    let g = get_staked(&Some(user)).unwrap();
    assert_eq!(g.balance, 50);
    assert_eq!(g.reward, 0);
}

#[test]
fn totals_track_the_sum_of_balances() {
    // Conservation at quiescent points of a mixed operation sequence.
    let pool = fresh_pool(100, 1000);
    let alice = String::from("alice");
    let bob = String::from("bob");
    let (pool, a, _) = stake(&pool, &None, &alice, 0, 70).unwrap();
    let (pool, b, _) = stake(&pool, &None, &bob, 10, 30).unwrap();
    assert_eq!(pool.total_supply, a.balance + b.balance);
    let (pool, a, _) = withdraw(&pool, &Some(a), 20, 25).unwrap();
    assert_eq!(pool.total_supply, a.balance + b.balance);
    let (pool, b, _) = stake(&pool, &Some(b), &bob, 30, 5).unwrap();
    assert_eq!(pool.total_supply, a.balance + b.balance);
    let (pool, a, _) = claim_reward(&pool, &Some(a), 40).unwrap();
    assert_eq!(pool.total_supply, a.balance + b.balance);
}
