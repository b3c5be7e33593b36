//! The billing controller: a subscription registry bound to one token ledger.

use vstd::prelude::*;
use crate::account::{Account, Amount};
use crate::billing::{bill_result, AllowanceQuery};
use crate::error::{Error, LedgerError};
use crate::events::{Billed, Canceled, Subscribed};
use crate::ledger::LedgerClient;
use crate::registry::{
    cancel_result,
    members_after_cancel,
    members_after_subscribe,
    subscribe_result,
    SubscriptionRegistry,
};

verus! {

/// What a controller stands for: the ledger it bills against and who is opted in.
pub struct ControllerView {
    pub token: Account,
    pub subscribed: Set<Account>,
}

impl ControllerView {
    /// The first decision of a bill: the subscription gate.
    pub open spec fn begin_bill_result(
        self,
        controller: Account,
        subscriber: Account,
        amount: Amount,
    ) -> Result<AllowanceQuery, Error> {
        if self.subscribed.contains(subscriber) {
            Ok(AllowanceQuery { token: self.token, owner: subscriber, spender: controller, amount })
        } else {
            Err(Error::NotSubscribed)
        }
    }
}

/// A controller that lets accounts opt in to being billed and pulls what they have
/// approved from the ledger it was made for.
pub struct MinimalSubPull {
    token: Account,
    subscribed: SubscriptionRegistry,
}

impl View for MinimalSubPull {
    type V = ControllerView;

    closed spec fn view(&self) -> ControllerView {
        ControllerView { token: self.token, subscribed: self.subscribed@ }
    }
}

impl MinimalSubPull {
    /// A controller for the ledger at `token`, with nobody subscribed. The ledger is
    /// fixed from here on.
    pub fn new(token: Account) -> (controller: Self)
        ensures
            controller@.token == token,
            controller@.subscribed == Set::<Account>::empty(),
    {
        MinimalSubPull { token, subscribed: SubscriptionRegistry::new() }
    }

    /// A controller for the ledger at `token` with the accounts in `subscribers`
    /// subscribed, as a controller that was stored by `subscribers` is brought back.
    pub fn restore(token: Account, subscribers: &[Account]) -> (controller: Self)
        ensures
            controller@.token == token,
            controller@.subscribed == subscribers@.to_set(),
    {
        MinimalSubPull { token, subscribed: SubscriptionRegistry::from_accounts(subscribers) }
    }

    /// The subscribed accounts, each of them once, in no particular order.
    pub fn subscribers(&self) -> (list: Vec<Account>)
        ensures
            list@.to_set() == self@.subscribed,
            list@.no_duplicates(),
    {
        self.subscribed.accounts()
    }

    /// Opts `caller` in. Fails with `AlreadySubscribed`, changing nothing, if `caller`
    /// is subscribed already.
    pub fn subscribe(&mut self, caller: Account) -> (result: Result<Subscribed, Error>)
        ensures
            result == subscribe_result(old(self)@.subscribed, caller),
            final(self)@.subscribed == members_after_subscribe(old(self)@.subscribed, caller),
            final(self)@.token == old(self)@.token,
    {
        self.subscribed.subscribe(caller)
    }

    /// Opts `caller` out. Fails with `NotSubscribed`, changing nothing, if `caller` is
    /// not subscribed.
    pub fn cancel(&mut self, caller: Account) -> (result: Result<Canceled, Error>)
        ensures
            result == cancel_result(old(self)@.subscribed, caller),
            final(self)@.subscribed == members_after_cancel(old(self)@.subscribed, caller),
            final(self)@.token == old(self)@.token,
    {
        self.subscribed.cancel(caller)
    }

    /// Whether `who` is subscribed.
    pub fn is_subscribed(&self, who: Account) -> (subscribed: bool)
        ensures
            subscribed == self@.subscribed.contains(who),
    {
        self.subscribed.is_subscribed(who)
    }

    /// The ledger that this controller bills against.
    pub fn contract_token_address(&self) -> (token: Account)
        ensures
            token == self@.token,
    {
        self.token
    }

    /// Opens a bill of `amount` against `subscriber`, to be paid to `controller`, this
    /// controller's own account. Only a subscribed account passes; for it the result
    /// is the allowance query to put to the ledger.
    pub fn begin_bill(&self, controller: Account, subscriber: Account, amount: Amount) -> (next:
        Result<AllowanceQuery, Error>)
        ensures
            next == self@.begin_bill_result(controller, subscriber, amount),
    {
        if self.subscribed.is_subscribed(subscriber) {
            Ok(AllowanceQuery { token: self.token, owner: subscriber, spender: controller, amount })
        } else {
            Err(Error::NotSubscribed)
        }
    }

    /// Bills `subscriber` for `amount` on `ledger`, to be paid to `controller`, this
    /// controller's own account.
    ///
    /// The outcome is the one that `bill_result` gives for the answers of the ledger.
    /// The ledger is asked for the allowance that `subscriber` has granted
    /// `controller` only if `subscriber` is subscribed, and for a transfer of `amount`
    /// from `subscriber` to `controller` only if that allowance covers `amount`; it
    /// is asked for none of them twice. Where the bill ends with `NotSubscribed` or
    /// `NoAllowance`, the ledger is left as it was.
    pub fn bill<L: LedgerClient>(
        &self,
        ledger: &mut L,
        controller: Account,
        subscriber: Account,
        amount: Amount,
    ) -> (outcome: Result<Billed, Error>)
        ensures
            exists|allowance: Amount, transfer: Result<(), LedgerError>|
                {
                    &&& outcome == bill_result(
                        self@.subscribed,
                        subscriber,
                        amount,
                        allowance,
                        transfer,
                    )
                    &&& self@.subscribed.contains(subscriber) ==> call_ensures(
                        L::allowance,
                        (&*old(ledger), subscriber, controller),
                        allowance,
                    )
                    &&& self@.subscribed.contains(subscriber) && allowance >= amount ==> exists|
                        handle: &mut L,
                    |
                        {
                            &&& #[trigger] call_ensures(
                                L::transfer_from,
                                (handle, subscriber, controller, amount),
                                transfer,
                            )
                            &&& *handle == *old(ledger)
                            &&& *final(handle) == *final(ledger)
                        }
                },
            !self@.subscribed.contains(subscriber) ==> *final(ledger) == *old(ledger),
            outcome == Err::<Billed, Error>(Error::NoAllowance) ==> *final(ledger) == *old(ledger),
    {
        let query = match self.begin_bill(controller, subscriber, amount) {
            Ok(query) => query,
            Err(error) => {
                assert(Err::<Billed, Error>(error) == bill_result(
                    self@.subscribed,
                    subscriber,
                    amount,
                    0,
                    Ok(()),
                ));
                return Err(error);
            },
        };
        let allowance = ledger.allowance(query.owner, query.spender);
        let request = match query.on_allowance(allowance) {
            Ok(request) => request,
            Err(error) => {
                assert(Err::<Billed, Error>(error) == bill_result(
                    self@.subscribed,
                    subscriber,
                    amount,
                    allowance,
                    Ok(()),
                ));
                return Err(error);
            },
        };
        let transfer = ledger.transfer_from(request.owner, request.to, request.amount);
        let outcome = request.on_transfer(transfer);
        assert(outcome == bill_result(self@.subscribed, subscriber, amount, allowance, transfer));
        outcome
    }
}

} // verus!
