use vstd::prelude::*;

verus! {

/// Parameters fixed at pool creation.
pub struct InstantiateMsg {
    pub staking_token: String,
    pub reward_token: String,
    pub period_finish_at: u64,
    pub reward_rate: u64,
}

/// The operations a caller can request from the ledger.
#[allow(inconsistent_fields)]
pub enum ExecuteMsg {
    StakeMsg { amount: u64 },
    Withdraw { amount: u64 },
    TransferFrom { owner: String, recipient: String, amount: u128 },
}

/// The read-only queries the ledger answers.
pub enum QueryMsg {
    GetStaked { account: String },
}

/// Answer to [`QueryMsg::GetStaked`]: the account's staked principal and its
/// reward balance as of the account's last settlement (no settlement is
/// performed by the query, so the figure may be stale).
pub struct GetStakedResponse {
    pub balance: u64,
    pub reward: u64,
}

/// Which way a requested token transfer moves value.
#[derive(Clone, Copy, Debug, PartialEq, Eq, Structural)]
pub enum TransferDirection {
    /// From the acting account into the pool (staking a deposit).
    IntoPool,
    /// From the pool back to the acting account (withdrawal or claim).
    OutOfPool,
}

/// The external token movement an operation requires. The host must perform
/// it and commit the staged ledger state only if it succeeds, so that the
/// operation is atomic.
pub struct TransferRequest {
    /// Identifier of the token to move.
    pub token: String,
    pub direction: TransferDirection,
    pub amount: u64,
}

} // verus!
