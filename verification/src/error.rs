//! What can go wrong, as far as the decisions depend on it.

use vstd::prelude::*;

verus! {

/// What the logic reads of a failed call on the transport.
#[derive(Clone, Copy, Debug, PartialEq, Eq, Structural)]
pub enum RpcFailure {
    /// The connection is gone and the client has to be built anew.
    RestartNeeded,
    /// The server sent notice that it closed the subscription.
    SubscriptionClosed,
    /// Anything else: a value that cannot be decoded, a rejected request.
    Other,
}

/// Why a run stopped short of a finalized submission.
#[derive(Clone, Copy, Debug, PartialEq, Eq, Structural)]
pub enum Error {
    /// The election is not in its signed phase.
    IncorrectPhase,
    /// A solution of this signer is already queued.
    AlreadySubmitted,
    /// The chain already holds a solution that the mined one does not beat.
    AlreadyExistSolutionWithBetterScore,
    /// The ledger runs another runtime version than the one this build knows.
    VersionMismatch,
    /// The signer's account is not on the chain.
    AccountDoesNotExists,
    /// No snapshot of the election state could be taken.
    Snapshot,
    /// The solver failed, or its solution is not feasible.
    Solver,
    /// A call on the transport failed.
    Rpc(RpcFailure),
    /// An answer arrived that the pending request did not ask for.
    UnexpectedAnswer,
}

} // verus!
