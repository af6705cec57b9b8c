use vstd::prelude::*;

verus! {

/// Why an operation was rejected.  Every failure leaves all state untouched.
#[derive(Clone, Copy, Debug, PartialEq, Eq, Structural)]
pub enum ErrorCode {
    /// The caller is not permitted to perform the operation.
    Unauthorized,
    /// A checked arithmetic step would have wrapped.
    Overflow,
    /// The winner or payout list does not have the required length.
    InvalidWinnersCount,
    /// The pool cannot cover the requested payouts plus the platform fee.
    InsufficientPool,
    /// The contest is not in the status the operation needs.
    InvalidContestStatus,
    /// A disbursement target does not match the identity bound to its position.
    MissingWinnerAccount,
    /// The amount offered does not equal the contest's entry fee.
    IncorrectAmount,
    /// A bounded collection is already at its capacity.
    CapacityExceeded,
}

} // verus!
