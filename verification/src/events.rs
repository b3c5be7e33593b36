//! Notifications that the controller hands to its host for the audit log.

use vstd::prelude::*;
use crate::account::{Account, Amount};

verus! {

/// `account` has opted in to being billed.
#[derive(Clone, Copy, Debug, PartialEq, Eq)]
pub struct Subscribed {
    pub account: Account,
}

/// `account` has withdrawn its opt-in.
#[derive(Clone, Copy, Debug, PartialEq, Eq)]
pub struct Canceled {
    pub account: Account,
}

/// `amount` was pulled from `subscriber` into the controller's account.
#[derive(Clone, Copy, Debug, PartialEq, Eq)]
pub struct Billed {
    pub subscriber: Account,
    pub amount: Amount,
}

} // verus!
