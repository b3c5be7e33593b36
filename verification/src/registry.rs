//! The set of accounts that are currently opted in.

use vstd::prelude::*;
use crate::account::Account;
use crate::error::Error;
use crate::events::{Canceled, Subscribed};

verus! {

/// What `subscribe` answers when `caller` asks to join `members`.
pub open spec fn subscribe_result(members: Set<Account>, caller: Account) -> Result<
    Subscribed,
    Error,
> {
    if members.contains(caller) {
        Err(Error::AlreadySubscribed)
    } else {
        Ok(Subscribed { account: caller })
    }
}

/// The members once `caller` has asked to join `members`.
pub open spec fn members_after_subscribe(members: Set<Account>, caller: Account) -> Set<Account> {
    if members.contains(caller) {
        members
    } else {
        members.insert(caller)
    }
}

/// What `cancel` answers when `caller` asks to leave `members`.
pub open spec fn cancel_result(members: Set<Account>, caller: Account) -> Result<Canceled, Error> {
    if members.contains(caller) {
        Ok(Canceled { account: caller })
    } else {
        Err(Error::NotSubscribed)
    }
}

/// The members once `caller` has asked to leave `members`.
pub open spec fn members_after_cancel(members: Set<Account>, caller: Account) -> Set<Account> {
    if members.contains(caller) {
        members.remove(caller)
    } else {
        members
    }
}

/// The accounts that are opted in. Membership is all there is to a subscription:
/// an account is in the registry once or not at all.
pub struct SubscriptionRegistry {
    members: Vec<Account>,
}

impl View for SubscriptionRegistry {
    type V = Set<Account>;

    closed spec fn view(&self) -> Set<Account> {
        self.members@.to_set()
    }
}

impl SubscriptionRegistry {
    #[verifier::type_invariant]
    spec fn each_member_once(&self) -> bool {
        self.members@.no_duplicates()
    }

    /// A registry with no member.
    pub fn new() -> (registry: Self)
        ensures
            registry@ == Set::<Account>::empty(),
    {
        let registry = SubscriptionRegistry { members: Vec::new() };
        assert(registry.members@.to_set() =~= Set::<Account>::empty());
        registry
    }

    /// A registry of the accounts in `list`. An account that is listed more than once
    /// is a member once.
    pub fn from_accounts(list: &[Account]) -> (registry: Self)
        ensures
            registry@ == list@.to_set(),
    {
        let mut registry = SubscriptionRegistry::new();
        let mut i: usize = 0;
        while i < list.len()
            invariant
                i <= list@.len(),
                registry@ == list@.take(i as int).to_set(),
            decreases list@.len() - i,
        {
            let ghost before = list@.take(i as int);
            let ghost after = list@.take(i + 1);
            let account = list[i];
            let _ = registry.subscribe(account);
            proof {
                assert forall|a: Account| after.to_set().contains(a) implies before.to_set().insert(
                    account,
                ).contains(a) by {
                    let k = choose|k: int| 0 <= k < after.len() && after[k] == a;
                    if k < i {
                        assert(before[k] == a);
                    }
                }
                assert forall|a: Account| before.to_set().insert(account).contains(
                    a,
                ) implies after.to_set().contains(a) by {
                    if a == account {
                        assert(after[i as int] == a);
                    } else {
                        let k = choose|k: int| 0 <= k < before.len() && before[k] == a;
                        assert(after[k] == a);
                    }
                }
                assert(after.to_set() =~= before.to_set().insert(account));
            }
            i += 1;
        }
        assert(list@.take(i as int) =~= list@);
        registry
    }

    /// The members, each of them once, in no particular order.
    pub fn accounts(&self) -> (list: Vec<Account>)
        ensures
            list@.to_set() == self@,
            list@.no_duplicates(),
    {
        proof {
            use_type_invariant(self);
        }
        let mut list: Vec<Account> = Vec::new();
        let mut i: usize = 0;
        while i < self.members.len()
            invariant
                i <= self.members@.len(),
                list@ == self.members@.take(i as int),
            decreases self.members@.len() - i,
        {
            list.push(self.members[i]);
            assert(list@ =~= self.members@.take(i + 1));
            i += 1;
        }
        assert(list@ =~= self.members@);
        list
    }

    /// Moves the members out and leaves the registry empty, so that they can be
    /// changed and put back as a whole.
    fn take_members(&mut self) -> (members: Vec<Account>)
        ensures
            members == old(self).members,
            final(self).members@ == Seq::<Account>::empty(),
    {
        let mut members: Vec<Account> = Vec::new();
        std::mem::swap(&mut members, &mut self.members);
        members
    }

    /// Where `who` stands among the members, if anywhere.
    fn position(&self, who: Account) -> (found: Option<usize>)
        ensures
            match found {
                Some(i) => i < self.members@.len() && self.members@[i as int] == who,
                None => !self@.contains(who),
            },
    {
        let mut i: usize = 0;
        while i < self.members.len()
            invariant
                i <= self.members@.len(),
                forall|j: int| 0 <= j < i ==> self.members@[j] != who,
            decreases self.members@.len() - i,
        {
            if self.members[i] == who {
                return Some(i);
            }
            i += 1;
        }
        None
    }

    /// Whether `who` is opted in.
    pub fn is_subscribed(&self, who: Account) -> (subscribed: bool)
        ensures
            subscribed == self@.contains(who),
    {
        self.position(who).is_some()
    }

    /// Opts `caller` in. An account that is a member already is refused, and the
    /// registry stays as it was.
    pub fn subscribe(&mut self, caller: Account) -> (result: Result<Subscribed, Error>)
        ensures
            result == subscribe_result(old(self)@, caller),
            final(self)@ == members_after_subscribe(old(self)@, caller),
    {
        if self.is_subscribed(caller) {
            return Err(Error::AlreadySubscribed);
        }
        proof {
            use_type_invariant(&*self);
            let before = self.members@;
            let after = before.push(caller);
            assert(after.no_duplicates());
            assert(after.to_set() =~= before.to_set().insert(caller)) by {
                assert forall|a: Account| after.to_set().contains(a) implies before.to_set().insert(
                    caller,
                ).contains(a) by {
                    let k = choose|k: int| 0 <= k < after.len() && after[k] == a;
                    if k < before.len() {
                        assert(before[k] == a);
                    }
                }
                assert forall|a: Account| before.to_set().insert(caller).contains(
                    a,
                ) implies after.to_set().contains(a) by {
                    if a == caller {
                        assert(after[before.len() as int] == a);
                    } else {
                        let k = choose|k: int| 0 <= k < before.len() && before[k] == a;
                        assert(after[k] == a);
                    }
                }
            }
        }
        let mut members = self.take_members();
        members.push(caller);
        self.members = members;
        Ok(Subscribed { account: caller })
    }

    /// Opts `caller` out. An account that is no member is refused, and the registry
    /// stays as it was.
    pub fn cancel(&mut self, caller: Account) -> (result: Result<Canceled, Error>)
        ensures
            result == cancel_result(old(self)@, caller),
            final(self)@ == members_after_cancel(old(self)@, caller),
    {
        match self.position(caller) {
            None => Err(Error::NotSubscribed),
            Some(i) => {
                proof {
                    use_type_invariant(&*self);
                    let before = self.members@;
                    let after = before.update(i as int, before.last()).drop_last();
                    assert forall|j: int, k: int|
                        0 <= j < after.len() && 0 <= k < after.len() && j != k implies after[j]
                        != after[k] by {
                        let last = before.len() - 1;
                        let jj = if j == i as int { last } else { j };
                        let kk = if k == i as int { last } else { k };
                        assert(after[j] == before[jj]);
                        assert(after[k] == before[kk]);
                        assert(jj != kk);
                    }
                    assert(after.to_set() =~= before.to_set().remove(caller)) by {
                        assert forall|a: Account| after.to_set().contains(a) implies before.to_set().remove(
                            caller,
                        ).contains(a) by {
                            let k = choose|k: int| 0 <= k < after.len() && after[k] == a;
                            let last = before.len() - 1;
                            let kk = if k == i as int { last } else { k };
                            assert(before[kk] == a);
                            assert(kk != i as int);
                        }
                        assert forall|a: Account| before.to_set().remove(caller).contains(
                            a,
                        ) implies after.to_set().contains(a) by {
                            let k = choose|k: int| 0 <= k < before.len() && before[k] == a;
                            assert(k != i as int);
                            let last = before.len() - 1;
                            if k == last {
                                assert(after[i as int] == a);
                            } else {
                                assert(after[k] == a);
                            }
                        }
                    }
                }
                let mut members = self.take_members();
                members.swap_remove(i);
                self.members = members;
                Ok(Canceled { account: caller })
            },
        }
    }
}

} // verus!
