//! The token ledger, as far as the controller deals with it.

use vstd::prelude::*;
use crate::account::{Account, Amount};
use crate::error::LedgerError;

verus! {

/// Access to the ledger that the controller bills against.
///
/// Nothing is assumed of an implementation: the controller is proved to decide
/// rightly on whatever the two methods answer.
pub trait LedgerClient {
    /// The amount that `spender` may still pull from `owner`. A read: the ledger
    /// stays as it is.
    fn allowance(&self, owner: Account, spender: Account) -> Amount;

    /// Pulls `amount` from `owner` to `to`, all of it or nothing.
    fn transfer_from(&mut self, owner: Account, to: Account, amount: Amount) -> Result<
        (),
        LedgerError,
    >;
}

} // verus!
