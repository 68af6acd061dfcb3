//! The custody ledger: a lamport balance per account address. Balances move
//! only through [`Ledger::transfer`], whose contract carries conservation:
//! the sum of all balances is the same before and after the move.

use vstd::prelude::*;
use crate::addr::Address;
use crate::store::{distinct_keys, lemma_distinct_push, lemma_distinct_remove, lemma_lookup_at,
    lemma_lookup_occurs, lemma_lookup_push, lemma_lookup_remove, lookup};

verus! {

/// The sum of the balances of all entries.
pub open spec fn sum(s: Seq<(Address, u64)>) -> int
    decreases s.len(),
{
    if s.len() == 0 {
        0
    } else {
        sum(s.drop_last()) + s.last().1
    }
}

/// Appending an entry adds its balance to the sum.
pub proof fn lemma_sum_push(s: Seq<(Address, u64)>, e: (Address, u64))
    ensures
        sum(s.push(e)) == sum(s) + e.1,
{
    assert(s.push(e).drop_last() =~= s);
}

/// Replacing the entry at `i` changes the sum by the difference.
pub proof fn lemma_sum_update(s: Seq<(Address, u64)>, i: int, e: (Address, u64))
    requires
        0 <= i < s.len(),
    ensures
        sum(s.update(i, e)) == sum(s) - s[i].1 + e.1,
    decreases s.len(),
{
    if i == s.len() - 1 {
        assert(s.update(i, e).drop_last() =~= s.drop_last());
    } else {
        assert(s.update(i, e).drop_last() =~= s.drop_last().update(i, e));
        lemma_sum_update(s.drop_last(), i, e);
    }
}

/// Removing the entry at `i` subtracts its balance from the sum.
pub proof fn lemma_sum_remove(s: Seq<(Address, u64)>, i: int)
    requires
        0 <= i < s.len(),
    ensures
        sum(s.remove(i)) == sum(s) - s[i].1,
    decreases s.len(),
{
    if i == s.len() - 1 {
        assert(s.remove(i) =~= s.drop_last());
    } else {
        assert(s.remove(i).drop_last() =~= s.drop_last().remove(i));
        assert(s.remove(i).last() == s.last());
        lemma_sum_remove(s.drop_last(), i);
    }
}

/// Lamport balances per account address. An address without an entry holds
/// nothing; an entry may exist with a zero balance.
pub struct Ledger {
    pub accounts: Vec<(Address, u64)>,
}

impl View for Ledger {
    type V = Seq<(Address, u64)>;

    open spec fn view(&self) -> Seq<(Address, u64)> {
        self.accounts@
    }
}

impl Ledger {
    /// Account addresses are pairwise distinct.
    pub open spec fn wf(self) -> bool {
        distinct_keys(self@)
    }

    /// Whether an entry exists for `k`.
    pub open spec fn has_account(self, k: Address) -> bool {
        lookup(self@, k) is Some
    }

    /// The balance held at `k`: zero when no entry exists.
    pub open spec fn bal(self, k: Address) -> u64 {
        match lookup(self@, k) {
            Some(b) => b,
            None => 0,
        }
    }

    /// The sum of all balances the ledger holds.
    pub open spec fn total(self) -> int {
        sum(self@)
    }

    /// An empty ledger.
    pub fn new() -> (r: Ledger)
        ensures
            r.wf(),
            forall|k: Address| !r.has_account(k) && r.bal(k) == 0,
            r.total() == 0,
    {
        let r = Ledger { accounts: Vec::new() };
        proof {
            assert forall|k: Address| !r.has_account(k) && r.bal(k) == 0 by {
                lemma_lookup_occurs(r@, k);
            }
        }
        r
    }

    /// The position of the entry for `k`, if any.
    fn index_of(&self, k: &Address) -> (r: Option<usize>)
        requires
            self.wf(),
        ensures
            match r {
                Some(i) => i < self@.len() && self@[i as int].0 == *k && self.has_account(*k)
                    && self.bal(*k) == self@[i as int].1,
                None => !self.has_account(*k) && self.bal(*k) == 0,
            },
    {
        let n = self.accounts.len();
        let mut i: usize = 0;
        while i < n
            invariant
                self.wf(),
                n == self@.len(),
                i <= n,
                forall|j: int| 0 <= j < i ==> (#[trigger] self@[j]).0 != *k,
            decreases n - i,
        {
            if self.accounts[i].0 == *k {
                proof {
                    lemma_lookup_at(self@, i as int);
                }
                return Some(i);
            }
            i = i + 1;
        }
        proof {
            lemma_lookup_occurs(self@, *k);
        }
        None
    }

    /// Whether an entry exists for `k`.
    pub fn contains_account(&self, k: &Address) -> (r: bool)
        requires
            self.wf(),
        ensures
            r <==> self.has_account(*k),
    {
        self.index_of(k).is_some()
    }

    /// The balance held at `k`.
    pub fn balance(&self, k: &Address) -> (r: u64)
        requires
            self.wf(),
        ensures
            r == self.bal(*k),
    {
        match self.index_of(k) {
            Some(i) => self.accounts[i].1,
            None => 0,
        }
    }

    /// Opens an empty entry for the fresh address `k`.
    pub fn open_account(&mut self, k: Address)
        requires
            old(self).wf(),
            !old(self).has_account(k),
        ensures
            final(self).wf(),
            final(self).has_account(k),
            final(self).bal(k) == 0,
            forall|q: Address| q != k ==> final(self).has_account(q) == old(self).has_account(q)
                && final(self).bal(q) == old(self).bal(q),
            final(self).total() == old(self).total(),
    {
        proof {
            lemma_distinct_push(self@, k, 0u64);
            lemma_sum_push(self@, (k, 0u64));
        }
        self.accounts.push((k, 0));
        proof {
            lemma_lookup_push(old(self)@, k, 0u64, k);
            assert forall|q: Address| q != k implies final(self).has_account(q) == old(
                self,
            ).has_account(q) && final(self).bal(q) == old(self).bal(q) by {
                lemma_lookup_push(old(self)@, k, 0u64, q);
            }
        }
    }

    /// Removes the entry for `k`, which must hold nothing.
    pub fn close_account(&mut self, k: &Address)
        requires
            old(self).wf(),
            old(self).bal(*k) == 0,
        ensures
            final(self).wf(),
            !final(self).has_account(*k),
            final(self).bal(*k) == 0,
            forall|q: Address| q != *k ==> final(self).has_account(q) == old(self).has_account(q)
                && final(self).bal(q) == old(self).bal(q),
            final(self).total() == old(self).total(),
    {
        match self.index_of(k) {
            Some(i) => {
                proof {
                    lemma_distinct_remove(self@, i as int);
                    lemma_sum_remove(self@, i as int);
                }
                let _ = self.accounts.remove(i);
                proof {
                    lemma_lookup_remove(old(self)@, i as int, *k);
                    assert forall|q: Address| q != *k implies final(self).has_account(q) == old(
                        self,
                    ).has_account(q) && final(self).bal(q) == old(self).bal(q) by {
                        lemma_lookup_remove(old(self)@, i as int, q);
                    }
                }
            },
            None => {
            },
        }
    }

    /// Credits `k` by `amount`, opening an entry if none exists and the
    /// credit is positive. The caller rules out overflow beforehand.
    pub(crate) fn credit(&mut self, k: &Address, amount: u64)
        requires
            old(self).wf(),
            old(self).bal(*k) as int + amount <= u64::MAX,
        ensures
            final(self).wf(),
            final(self).bal(*k) == old(self).bal(*k) + amount,
            final(self).has_account(*k) == (old(self).has_account(*k) || amount > 0),
            forall|q: Address| q != *k ==> final(self).has_account(q) == old(self).has_account(q)
                && final(self).bal(q) == old(self).bal(q),
            final(self).total() == old(self).total() + amount,
    {
        match self.index_of(k) {
            Some(i) => {
                let b = self.accounts[i].1;
                proof {
                    lemma_sum_update(self@, i as int, (*k, (b + amount) as u64));
                }
                self.accounts.set(i, (*k, b + amount));
                proof {
                    lemma_lookup_update(old(self)@, i as int, (b + amount) as u64, *k);
                    assert forall|q: Address| q != *k implies final(self).has_account(q) == old(
                        self,
                    ).has_account(q) && final(self).bal(q) == old(self).bal(q) by {
                        lemma_lookup_update(old(self)@, i as int, (b + amount) as u64, q);
                    }
                }
            },
            None => {
                if amount > 0 {
                    proof {
                        lemma_distinct_push(self@, *k, amount);
                        lemma_sum_push(self@, (*k, amount));
                    }
                    self.accounts.push((*k, amount));
                    proof {
                        lemma_lookup_push(old(self)@, *k, amount, *k);
                        assert forall|q: Address| q != *k implies final(self).has_account(q)
                            == old(self).has_account(q) && final(self).bal(q) == old(self).bal(
                            q,
                        ) by {
                            lemma_lookup_push(old(self)@, *k, amount, q);
                        }
                    }
                }
            },
        }
    }

    /// Debits `k` by `amount`, which its balance must cover.
    pub(crate) fn debit(&mut self, k: &Address, amount: u64)
        requires
            old(self).wf(),
            amount <= old(self).bal(*k),
        ensures
            final(self).wf(),
            final(self).bal(*k) == old(self).bal(*k) - amount,
            final(self).has_account(*k) == old(self).has_account(*k),
            forall|q: Address| q != *k ==> final(self).has_account(q) == old(self).has_account(q)
                && final(self).bal(q) == old(self).bal(q),
            final(self).total() == old(self).total() - amount,
    {
        match self.index_of(k) {
            Some(i) => {
                let b = self.accounts[i].1;
                proof {
                    lemma_sum_update(self@, i as int, (*k, (b - amount) as u64));
                }
                self.accounts.set(i, (*k, b - amount));
                proof {
                    lemma_lookup_update(old(self)@, i as int, (b - amount) as u64, *k);
                    assert forall|q: Address| q != *k implies final(self).has_account(q) == old(
                        self,
                    ).has_account(q) && final(self).bal(q) == old(self).bal(q) by {
                        lemma_lookup_update(old(self)@, i as int, (b - amount) as u64, q);
                    }
                }
            },
            None => {
            },
        }
    }

    /// Moves `amount` from `from` to `to`. Conservation: the total is
    /// unchanged; a move to the same address leaves every balance as it was.
    pub fn transfer(&mut self, from: &Address, to: &Address, amount: u64)
        requires
            old(self).wf(),
            amount <= old(self).bal(*from),
            *from != *to ==> old(self).bal(*to) as int + amount <= u64::MAX,
        ensures
            final(self).wf(),
            final(self).total() == old(self).total(),
            *from == *to ==> forall|q: Address|
                final(self).bal(q) == old(self).bal(q) && final(self).has_account(q) == old(
                    self,
                ).has_account(q),
            *from != *to ==> final(self).bal(*from) == old(self).bal(*from) - amount
                && final(self).bal(*to) == old(self).bal(*to) + amount,
            *from != *to ==> final(self).has_account(*from) == old(self).has_account(*from)
                && final(self).has_account(*to) == (old(self).has_account(*to) || amount > 0),
            forall|q: Address| q != *from && q != *to ==> final(self).bal(q) == old(self).bal(q)
                && final(self).has_account(q) == old(self).has_account(q),
    {
        if from == to {
            return ;
        }
        self.debit(from, amount);
        self.credit(to, amount);
    }
}

/// Replacing the entry at `i` with one of the same key rebinds that key and
/// no other.
pub proof fn lemma_lookup_update(s: Seq<(Address, u64)>, i: int, v: u64, q: Address)
    requires
        distinct_keys(s),
        0 <= i < s.len(),
    ensures
        distinct_keys(s.update(i, (s[i].0, v))),
        lookup(s.update(i, (s[i].0, v)), q) == if q == s[i].0 {
            Some(v)
        } else {
            lookup(s, q)
        },
    decreases s.len(),
{
    let t = s.update(i, (s[i].0, v));
    assert forall|a: int, b: int| 0 <= a < b < t.len() implies (#[trigger] t[a]).0 != (
    #[trigger] t[b]).0 by {
        assert(t[a].0 == s[a].0 && t[b].0 == s[b].0);
    }
    if i == 0 {
        assert(t.drop_first() =~= s.drop_first());
    } else {
        assert(t.drop_first() =~= s.drop_first().update(i - 1, (s[i].0, v)));
        assert(s.drop_first()[i - 1] == s[i]);
        lemma_lookup_update(s.drop_first(), i - 1, v, q);
    }
}

} // verus!
