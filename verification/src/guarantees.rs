//! What holds across calls of the controller, for every account, amount and answer
//! of the ledger. Each statement is over the functions that the contracts of
//! `subscribe`, `cancel`, `is_subscribed`, `begin_bill`, `on_allowance`,
//! `on_transfer` and `bill` are written in.

use vstd::prelude::*;
use crate::account::{Account, Amount};
use crate::billing::bill_result;
use crate::controller::ControllerView;
use crate::error::{Error, LedgerError};
use crate::events::{Billed, Canceled, Subscribed};
use crate::registry::{
    cancel_result,
    members_after_cancel,
    members_after_subscribe,
    subscribe_result,
};

verus! {

/// After a subscription that succeeded the account is subscribed, and subscribing it
/// again fails with `AlreadySubscribed` and leaves the members as they are.
pub proof fn lemma_subscribe_once(members: Set<Account>, account: Account)
    requires
        subscribe_result(members, account) is Ok,
    ensures
        members_after_subscribe(members, account).contains(account),
        subscribe_result(members_after_subscribe(members, account), account) == Err::<
            Subscribed,
            Error,
        >(Error::AlreadySubscribed),
        members_after_subscribe(members_after_subscribe(members, account), account)
            == members_after_subscribe(members, account),
{
}

/// Subscribing changes the standing of no other account.
pub proof fn lemma_subscribe_touches_one(members: Set<Account>, account: Account, other: Account)
    requires
        other != account,
    ensures
        members_after_subscribe(members, account).contains(other) == members.contains(other),
{
}

/// Canceling an account that is not subscribed, whether it never was or has canceled
/// before, fails with `NotSubscribed` and leaves the members as they are.
pub proof fn lemma_cancel_needs_subscription(members: Set<Account>, account: Account)
    requires
        !members.contains(account),
    ensures
        cancel_result(members, account) == Err::<Canceled, Error>(Error::NotSubscribed),
        members_after_cancel(members, account) == members,
{
}

/// After a cancellation that succeeded the account is not subscribed, and canceling
/// it again fails with `NotSubscribed`.
pub proof fn lemma_cancel_once(members: Set<Account>, account: Account)
    requires
        cancel_result(members, account) is Ok,
    ensures
        !members_after_cancel(members, account).contains(account),
        cancel_result(members_after_cancel(members, account), account) == Err::<Canceled, Error>(
            Error::NotSubscribed,
        ),
{
}

/// Canceling changes the standing of no other account.
pub proof fn lemma_cancel_touches_one(members: Set<Account>, account: Account, other: Account)
    requires
        other != account,
    ensures
        members_after_cancel(members, account).contains(other) == members.contains(other),
{
}

/// An account that is not subscribed when it subscribes, cancels and subscribes again
/// succeeds each time, with the records `Subscribed`, `Canceled`, `Subscribed` in that
/// order, and is subscribed at the end.
pub proof fn lemma_subscribe_cancel_subscribe(members: Set<Account>, account: Account)
    requires
        !members.contains(account),
    ensures
        ({
            let first = members_after_subscribe(members, account);
            let second = members_after_cancel(first, account);
            let third = members_after_subscribe(second, account);
            &&& subscribe_result(members, account) == Ok::<Subscribed, Error>(
                Subscribed { account },
            )
            &&& cancel_result(first, account) == Ok::<Canceled, Error>(Canceled { account })
            &&& subscribe_result(second, account) == Ok::<Subscribed, Error>(
                Subscribed { account },
            )
            &&& third.contains(account)
            &&& second == members
            &&& third == first
        }),
{
    let first = members_after_subscribe(members, account);
    let second = members_after_cancel(first, account);
    assert(second =~= members);
}

/// A bill against an account that is not subscribed fails with `NotSubscribed`,
/// whatever the amount, zero included, and whatever the ledger would answer; and it
/// leads to no call on the ledger.
pub proof fn lemma_bill_needs_subscription(
    view: ControllerView,
    controller: Account,
    subscriber: Account,
    amount: Amount,
    allowance: Amount,
    transfer: Result<(), LedgerError>,
)
    requires
        !view.subscribed.contains(subscriber),
    ensures
        bill_result(view.subscribed, subscriber, amount, allowance, transfer) == Err::<
            Billed,
            Error,
        >(Error::NotSubscribed),
        view.begin_bill_result(controller, subscriber, amount) is Err,
{
}

/// A bill against a subscribed account for more than the ledger's allowance fails with
/// `NoAllowance`, whatever a transfer would have given: there is no `Billed` record,
/// and the bill ends at the allowance, before any transfer is asked for.
pub proof fn lemma_bill_needs_allowance(
    view: ControllerView,
    controller: Account,
    subscriber: Account,
    amount: Amount,
    allowance: Amount,
    transfer: Result<(), LedgerError>,
)
    requires
        view.subscribed.contains(subscriber),
        allowance < amount,
    ensures
        bill_result(view.subscribed, subscriber, amount, allowance, transfer) == Err::<
            Billed,
            Error,
        >(Error::NoAllowance),
        view.begin_bill_result(controller, subscriber, amount) is Ok,
        view.begin_bill_result(controller, subscriber, amount).unwrap().allowance_result(allowance)
            is Err,
{
}

/// A bill succeeds exactly when the account is subscribed, the allowance covers the
/// amount and the ledger's transfer succeeds; and then its one record is `Billed` with
/// that subscriber and that amount.
pub proof fn lemma_bill_succeeds_iff(
    subscribed: Set<Account>,
    subscriber: Account,
    amount: Amount,
    allowance: Amount,
    transfer: Result<(), LedgerError>,
)
    ensures
        bill_result(subscribed, subscriber, amount, allowance, transfer) is Ok <==> (
        subscribed.contains(subscriber) && allowance >= amount && transfer is Ok),
        bill_result(subscribed, subscriber, amount, allowance, transfer) is Ok ==> bill_result(
            subscribed,
            subscriber,
            amount,
            allowance,
            transfer,
        ) == Ok::<Billed, Error>(Billed { subscriber, amount }),
        bill_result(subscribed, subscriber, amount, allowance, transfer) is Err ==> bill_result(
            subscribed,
            subscriber,
            amount,
            allowance,
            transfer,
        ) != Err::<Billed, Error>(Error::AlreadySubscribed),
{
}

/// The three decisions of a bill, taken in order on the ledger's answers, give the
/// outcome that `bill_result` states. What they ask of the ledger is fixed: the
/// allowance that the subscriber has granted the controller on the controller's
/// token, and then a transfer of the amount billed, which the allowance covers, from
/// the subscriber to the controller.
pub proof fn lemma_bill_by_steps(
    view: ControllerView,
    controller: Account,
    subscriber: Account,
    amount: Amount,
    allowance: Amount,
    transfer: Result<(), LedgerError>,
)
    ensures
        bill_result(view.subscribed, subscriber, amount, allowance, transfer) == (
        match view.begin_bill_result(controller, subscriber, amount) {
            Err(error) => Err(error),
            Ok(query) => match query.allowance_result(allowance) {
                Err(error) => Err(error),
                Ok(request) => request.transfer_result(transfer),
            },
        }),
        view.begin_bill_result(controller, subscriber, amount) matches Ok(query) ==> {
            &&& query.token == view.token
            &&& query.owner == subscriber
            &&& query.spender == controller
            &&& query.amount == amount
        },
        view.begin_bill_result(controller, subscriber, amount) matches Ok(query) ==> (
        query.allowance_result(allowance) matches Ok(request) ==> {
            &&& request.token == view.token
            &&& request.owner == subscriber
            &&& request.to == controller
            &&& request.amount == amount
            &&& request.amount <= allowance
        }),
{
}

} // verus!
