use vstd::prelude::*;

verus! {

/// Why a claim was turned down.
#[derive(Clone, Copy, Debug, PartialEq, Eq, Structural)]
pub enum ErrorCode {
    /// The global state account is not the program's well-known one.
    InvalidGlobalAccount,
    /// The request names another season than the current one.
    WrongSeasonNumber,
    /// Wrong phase, supply exhausted, or wrong cost.
    ConditionMismatch,
    /// The claimant has already minted their quota for this phase.
    OutOfUserMaxQuantity,
    /// The claimant did not sign the transaction.
    MissingRequiredSignature,
    /// The claimant cannot pay the mint cost.
    NotEnoughBalanceInUserWallet,
    /// The host could not move the payment to the treasury.
    EscrowFailed,
    /// The host could not move the token to the claimant.
    AssetTransferFailed,
}

} // verus!
