use vstd::prelude::*;

verus! {

/// Errors returned by the token registry. Each variant corresponds to exactly
/// one precondition failure; no operation that returns an error leaves any
/// trace in the registry state.
#[derive(Clone, Copy, Debug, PartialEq, Eq)]
pub enum Error {
    /// An operation that requires prior initialization was called first.
    NotInitialized,
    /// `initialize` was called on an already-initialized registry.
    AlreadyInitialized,
    /// The principal whose approval the operation requires has not approved
    /// the current call.
    Unauthorized,
    /// The referenced token id has no record.
    TokenNotFound,
    /// The operation requires an active token but found it deactivated.
    TokenInactive,
    /// The declared escrow amount is below the token's yield threshold.
    InsufficientEscrow,
    /// Reserved for a settlement-layer failure; no operation in this core
    /// raises it.
    TransferFailed,
}

} // verus!
