//! Failures that the controller reports to its caller.

use vstd::prelude::*;

verus! {

/// Why the ledger refused a transfer.
#[derive(Clone, Copy, Debug, PartialEq, Eq, Structural)]
pub enum LedgerError {
    /// The owner holds less than the amount asked for.
    InsufficientBalance,
    /// The owner has approved less than the amount asked for.
    InsufficientAllowance,
    /// The owner's account is frozen.
    AccountFrozen,
    /// The ledger rejected the transfer for a reason of its own.
    TransferRejected,
    /// The ledger could not be reached.
    Unavailable,
}

/// Why a call on the controller failed. Every failure leaves the controller as it was.
#[derive(Clone, Copy, Debug, PartialEq, Eq, Structural)]
pub enum Error {
    /// `subscribe` by an account that is subscribed already.
    AlreadySubscribed,
    /// `cancel` or `bill` for an account that is not subscribed.
    NotSubscribed,
    /// The amount billed exceeds what the subscriber has approved on the ledger.
    NoAllowance,
    /// The ledger refused the transfer.
    TransferFailed(LedgerError),
}

} // verus!
