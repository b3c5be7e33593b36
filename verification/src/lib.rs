//! Subscription-gated billing: accounts opt in, and an operator pulls bounded
//! amounts from their pre-approved allowance on a token ledger.

pub mod account;
pub mod billing;
pub mod controller;
pub mod error;
pub mod events;
pub mod guarantees;
pub mod ledger;
pub mod registry;
