use vstd::prelude::*;
use cosmwasm_std::StdError;

verus! {

/// The error type of the standard library of the chain, carried through unread.
#[verifier::external_type_specification]
#[verifier::external_body]
pub struct ExStdError(StdError);

/// The generic standard error that carries the message `msg`.
pub uninterp spec fn generic_error(msg: Seq<char>) -> StdError;

/// Builds the generic standard error with the given message, through
/// `cosmwasm_std::StdError::generic_err`, which wraps the message in the
/// `GenericErr` variant and nothing else (a backtrace is added only under the
/// crate's `backtraces` feature, which is not enabled): the error is a
/// function of the message, named `generic_error`.
#[verifier::external_body]
pub(crate) fn generic_err(msg: &str) -> (e: StdError)
    ensures
        e == generic_error(msg@),
{
    StdError::generic_err(msg)
}

/// Everything that can go wrong while running the lottery.
#[derive(Debug, PartialEq)]
pub enum LotteryError {
    /// An error of the chain's standard library (storage, serialisation).
    Std(StdError),
    /// The sender is not the owner of the lottery.
    Unauthorized { sender: String },
    /// The funds sent do not cover the ticket price.
    InsufficientFunds {},
    /// There is no round to enter.
    NoRoundAvailable {},
    /// The lottery is not active for this request.
    NotActive {},
    /// The message type is not handled.
    InvalidMsgType {},
    /// The requested round does not exist.
    RoundNotFound {},
    /// Querying the NFT contracts failed.
    NftQueryFaied {},
    /// The contract balance could not be read.
    BalanceFailed {},
    /// An account may not be set to the sender's own account.
    CannotSetOwnAccount {},
    /// Kept for compatibility: zero amounts are accepted like any other amount.
    InvalidZeroAmount {},
    /// An expiration value is invalid.
    InvalidExpiration {},
    /// The randomness proxy address failed validation.
    InvalidProxyAddress {},
    /// Randomness was delivered by someone other than the proxy.
    UnauthorizedReceive {},
    /// The delivered randomness is not 32 bytes long.
    InvalidRandomness {},
    /// Initial balances named one address twice.
    DuplicateInitialBalanceAddresses {},
}

} // verus!
