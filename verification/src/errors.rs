//! The ways an operation can be refused.

use vstd::prelude::*;

verus! {

/// Why an operation was refused. A refused operation changes nothing.
#[derive(Clone, Copy, Debug, PartialEq, Eq, Structural)]
pub enum SmartAccountError {
    /// The caller lacks the permission or the role that the operation asks for.
    Unauthorized,
    /// The operation was attempted outside the lifecycle state that admits it.
    InvalidState,
    /// The settings would no longer be a valid signer policy.
    InvalidConfiguration,
    /// The transaction was created before the settings last changed.
    StaleProposal,
    /// The time lock since approval has not run out.
    TimeLockNotElapsed,
    /// Fewer signers than the threshold stand behind the operation.
    ThresholdNotMet,
    /// The staged bytes do not hash to the digest announced for them.
    BufferHashMismatch,
    /// The batch entry is not the next one to execute.
    OutOfOrderExecution,
    /// A counter or a size left the range of its type.
    ArithmeticOverflow,
    /// An account that was passed in is not the one the operation expects.
    InvalidAccount,
    /// A call that the transaction makes failed, and none took effect.
    ExecutionFailed,
}

/// Why a restricted action was refused.
#[derive(Clone, Copy, Debug, PartialEq, Eq, Structural)]
pub enum CustomError {
    /// The signer is no restricted signer with the permission asked for.
    UnauthorizedRestrictedSigner,
}

} // verus!
