use vstd::prelude::*;

verus! {

/// Every way a ledger operation can be rejected.
///
/// An error always aborts the whole operation: the store is left exactly as
/// it was, and no settlement message is emitted.
#[derive(Clone, Debug, PartialEq, Eq, Structural)]
pub enum ContractError {
    /// A singleton (configuration or global state) was read before it was
    /// written.
    Uninitialized,
    /// The instantiation funds did not carry exactly the required initial
    /// deposit in the base denomination.
    InitialFundsNotDeposited,
    /// The interest-rate string was malformed.
    FormatError,
    /// A deposit carried no funds in the base denomination.
    ZeroDeposit,
    /// The caller was not entitled to the operation: an unregistered
    /// companion token, a duplicate registration, or an unauthorized hook
    /// caller.
    Unauthorized,
    /// A callback arrived with a correlation id that matches no pending
    /// request.
    InvalidReplyId,
    /// A callback arrived whose payload could not be parsed into the
    /// companion token's identity.
    ParseError,
    /// A receipt-token transfer arrived without a recognizable redemption
    /// hook message.
    MissingRedeemStableHook,
    /// The snapshot index counter points at an already-occupied slot of the
    /// TVL history: the counter state is corrupted.
    Overflow,
    /// A redemption asked for more than the ledger balance.
    InsufficientBalance,
}

} // verus!
