use vstd::prelude::*;

verus! {

/// Every way an operation on the ledger can fail. Operations are
/// all-or-nothing: an error means no state was changed at all.
#[derive(Clone, Copy, Debug, PartialEq, Eq, Structural)]
pub enum ContractError {
    /// The caller asked for an operation outside the ledger's surface.
    Unauthorized,
    /// A zero (or otherwise disallowed) amount was supplied.
    InvalidAmount,
    /// A withdrawal asked for more than the account has staked.
    InsufficientBalance,
    /// The operation needs an existing ledger record and none exists.
    AccountNotFound,
    /// The external token movement did not complete.
    TransferFailed,
    /// The requested update does not fit 64-bit ledger arithmetic.
    Overflow,
}

} // verus!
