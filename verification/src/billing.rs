//! The pull protocol: subscription gate, then allowance, then transfer.
//!
//! A bill alternates between the controller's decisions and the ledger's answers.
//! Each decision is a function of its own here, from what is known so far and the
//! ledger's latest answer to either the next call to make or the bill's outcome.

use vstd::prelude::*;
use crate::account::{Account, Amount};
use crate::error::{Error, LedgerError};
use crate::events::Billed;

verus! {

/// The outcome of billing `subscriber` for `amount`, given who is subscribed and
/// what the ledger answers: `allowance` to the allowance query and `transfer` to
/// the transfer request. The checks come in this order, and the first that fails
/// decides.
pub open spec fn bill_result(
    subscribed: Set<Account>,
    subscriber: Account,
    amount: Amount,
    allowance: Amount,
    transfer: Result<(), LedgerError>,
) -> Result<Billed, Error> {
    if !subscribed.contains(subscriber) {
        Err(Error::NotSubscribed)
    } else if allowance < amount {
        Err(Error::NoAllowance)
    } else {
        match transfer {
            Ok(_) => Ok(Billed { subscriber, amount }),
            Err(reason) => Err(Error::TransferFailed(reason)),
        }
    }
}

/// A bill that has passed the subscription gate and waits for the ledger to say
/// how much `owner` has approved `spender` to pull on the ledger at `token`.
#[derive(Clone, Copy, Debug, PartialEq, Eq)]
pub struct AllowanceQuery {
    pub token: Account,
    pub owner: Account,
    pub spender: Account,
    pub amount: Amount,
}

/// A bill that is covered by the allowance and waits for the ledger at `token` to
/// move `amount` from `owner` to `to`.
#[derive(Clone, Copy, Debug, PartialEq, Eq)]
pub struct TransferRequest {
    pub token: Account,
    pub owner: Account,
    pub to: Account,
    pub amount: Amount,
}

impl AllowanceQuery {
    /// What follows from the ledger's answer `allowance`.
    pub open spec fn allowance_result(self, allowance: Amount) -> Result<TransferRequest, Error> {
        if allowance < self.amount {
            Err(Error::NoAllowance)
        } else {
            Ok(
                TransferRequest {
                    token: self.token,
                    owner: self.owner,
                    to: self.spender,
                    amount: self.amount,
                },
            )
        }
    }

    /// Takes the ledger's answer to the query. An allowance below the amount ends the
    /// bill with `NoAllowance`; any other leads to the transfer of exactly that amount
    /// to the spender.
    pub fn on_allowance(self, allowance: Amount) -> (next: Result<TransferRequest, Error>)
        ensures
            next == self.allowance_result(allowance),
    {
        if allowance < self.amount {
            Err(Error::NoAllowance)
        } else {
            Ok(
                TransferRequest {
                    token: self.token,
                    owner: self.owner,
                    to: self.spender,
                    amount: self.amount,
                },
            )
        }
    }
}

impl TransferRequest {
    /// What follows from the ledger's answer `transfer`.
    pub open spec fn transfer_result(self, transfer: Result<(), LedgerError>) -> Result<
        Billed,
        Error,
    > {
        match transfer {
            Ok(_) => Ok(Billed { subscriber: self.owner, amount: self.amount }),
            Err(reason) => Err(Error::TransferFailed(reason)),
        }
    }

    /// Takes the ledger's answer to the request. A transfer that went through ends the
    /// bill with its `Billed` record; a refusal ends it with `TransferFailed` and the
    /// ledger's reason.
    pub fn on_transfer(self, transfer: Result<(), LedgerError>) -> (outcome: Result<Billed, Error>)
        ensures
            outcome == self.transfer_result(transfer),
    {
        match transfer {
            Ok(_) => Ok(Billed { subscriber: self.owner, amount: self.amount }),
            Err(reason) => Err(Error::TransferFailed(reason)),
        }
    }
}

} // verus!
