use vstd::prelude::*;

verus! {

/// Every failure an operation can report. A failing operation has no effect:
/// the caller must treat any non-`Ok` outcome as "nothing happened".
#[derive(Clone, Copy, Debug, PartialEq, Eq, Structural)]
pub enum Error {
    /// The contract instance already holds its one configuration record.
    AlreadyInitialized,
    /// The contract instance holds no configuration record yet.
    NotInitialized,
    /// The call carries no proof of consent from the required principal.
    Unauthorized,
    /// A vesting schedule whose duration is shorter than its cliff.
    InvalidSchedule,
    /// A vesting grant over a non-positive amount.
    InvalidAmount,
    /// A share table whose basis points do not sum to exactly 10000.
    InvalidShareSum,
    /// A clawback on a grant that was already revoked.
    AlreadyRevoked,
    /// A checked multiplication or division left the amount type's range.
    ArithmeticOverflow,
    /// Reported by the external transfer capability: the source holds too
    /// little of the asset. Never produced by this crate's own logic.
    InsufficientBalance,
    /// Reported by the external transfer capability: the movement was
    /// refused. Never produced by this crate's own logic.
    TransferRejected,
    /// No payment record is stored under the given identifier.
    PaymentNotFound,
}

} // verus!
