//! An ordered set of delegate accounts.

use vstd::prelude::*;
use crate::types::AccountId;

verus! {

/// `members` without `account`, the others in their old order.
pub open spec fn without(members: Seq<AccountId>, account: AccountId) -> Seq<AccountId> {
    if members.contains(account) {
        members.remove(members.index_of(account))
    } else {
        members
    }
}

/// Removing an account that occurs once leaves every other account where it stood
/// relative to the rest, and the account itself is gone.
pub proof fn lemma_without(members: Seq<AccountId>, account: AccountId)
    requires
        members.no_duplicates(),
        members.contains(account),
    ensures
        without(members, account).no_duplicates(),
        without(members, account).len() == members.len() - 1,
        !without(members, account).contains(account),
        forall|other: AccountId|
            other != account ==> (without(members, account).contains(other) <==> members.contains(
                other,
            )),
{
    let i = members.index_of(account);
    let rest = without(members, account);
    members.remove_ensures(i);
    assert forall|other: AccountId| other != account && members.contains(other) implies rest.contains(
        other,
    ) by {
        let j = members.index_of(other);
        if j < i {
            assert(rest[j] == other);
        } else {
            assert(rest[j - 1] == other);
        }
    }
}

/// Delegate accounts in the order in which they were added, none of them twice.
pub struct DelegateSet {
    members: Vec<AccountId>,
}

impl View for DelegateSet {
    type V = Seq<AccountId>;

    closed spec fn view(&self) -> Seq<AccountId> {
        self.members@
    }
}

impl DelegateSet {
    /// No account occurs twice.
    pub open spec fn wf(&self) -> bool {
        self@.no_duplicates()
    }

    /// The empty set.
    pub fn new() -> (set: Self)
        ensures
            set.wf(),
            set@ == Seq::<AccountId>::empty(),
    {
        DelegateSet { members: Vec::new() }
    }

    /// The number of delegates.
    pub fn len(&self) -> (n: usize)
        ensures
            n == self@.len(),
    {
        self.members.len()
    }

    /// The delegate at `index` in order of addition, if there is one.
    pub fn get(&self, index: usize) -> (account: Option<AccountId>)
        ensures
            account == (if index < self@.len() {
                Some(self@[index as int])
            } else {
                None
            }),
    {
        if index < self.members.len() {
            Some(self.members[index])
        } else {
            None
        }
    }

    /// Where `account` stands in the set, if it is a delegate.
    pub fn position(&self, account: AccountId) -> (found: Option<usize>)
        ensures
            match found {
                Some(i) => i < self@.len() && self@[i as int] == account && forall|j: int|
                    0 <= j < i ==> self@[j] != account,
                None => !self@.contains(account),
            },
    {
        let mut i: usize = 0;
        while i < self.members.len()
            invariant
                i <= self.members.len(),
                forall|j: int| 0 <= j < i ==> self.members@[j] != account,
            decreases self.members.len() - i,
        {
            if self.members[i] == account {
                return Some(i);
            }
            i += 1;
        }
        None
    }

    /// Whether `account` is a delegate.
    pub fn contains(&self, account: AccountId) -> (found: bool)
        ensures
            found == self@.contains(account),
    {
        self.position(account).is_some()
    }

    /// Adds `account` at the end, unless it is a delegate already.
    pub fn insert(&mut self, account: AccountId) -> (added: bool)
        requires
            old(self).wf(),
        ensures
            final(self).wf(),
            added == !old(self)@.contains(account),
            final(self)@ == (if added {
                old(self)@.push(account)
            } else {
                old(self)@
            }),
    {
        if self.contains(account) {
            return false;
        }
        self.members.push(account);
        true
    }

    /// Takes `account` out, keeping the others in order, if it is a delegate.
    pub fn remove(&mut self, account: AccountId) -> (removed: bool)
        requires
            old(self).wf(),
        ensures
            final(self).wf(),
            removed == old(self)@.contains(account),
            final(self)@ == without(old(self)@, account),
    {
        match self.position(account) {
            Some(i) => {
                proof {
                    lemma_without(self@, account);
                    assert(self@.index_of(account) == i as int);
                }
                let _ = self.members.remove(i);
                true
            },
            None => false,
        }
    }
}

} // verus!
