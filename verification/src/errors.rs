use vstd::prelude::*;

verus! {

/// Everything that can end one invocation of the engine early. Every error
/// is terminal for the current invocation; nothing is retried internally.
#[derive(Clone, Copy, Debug, PartialEq, Eq, Structural)]
pub enum WagerError {
    /// The operation payload is missing or shorter than the operation needs.
    MalformedInput,
    /// The record is still active where a terminated one is required.
    AlreadyActive,
    /// The record is not in the lifecycle state the operation requires.
    NotActive,
    /// A second party is already admitted; admission happens exactly once.
    PartyAlreadySet,
    /// Admission rejected: the price drifted more than one percent from the
    /// entry price.
    PriceDrifted,
    /// The price feed could not be loaded or yields no current price.
    OracleUnavailable,
    /// Unwinding is disallowed once a second party has staked.
    UnwindNotAllowed,
    /// No funding record's owner matches the party owed the payout.
    AuthorizationMismatch,
    /// The token-move collaborator rejected a transfer.
    TransferFailed,
    /// The leading opcode byte selects no operation.
    UnknownOperation,
    /// A drift percentage cannot be computed from an entry price of zero.
    DivideByZero,
}

} // verus!
