use vstd::prelude::*;
use vstd::pervasive::VecAdditionalExecFns;

verus! {

use crate::account::Account;
use crate::errors::MintFault;

/// The capability through which minted amounts reach the external token
/// ledger.  The ledger keeps balances and a total supply; `mint` either
/// credits the recipient and grows the supply by exactly the amount, or
/// fails and changes nothing.  Which recipients it accepts is the ledger's
/// own affair (a structurally invalid recipient is refused).  An adapter for
/// the real ledger performs the external call; the `InMemoryLedger` below is
/// a verified ledger for tests.
pub trait MintLedger {
    /// Ledger model: the balance credited to `account`.
    spec fn balance_of(&self, account: Account) -> int;

    /// Ledger model: the total of all balances ever minted.
    spec fn total_supply(&self) -> int;

    /// Credit `amount` to `to`, growing the total supply accordingly, or
    /// fail with no effect at all.
    fn mint(&mut self, to: Account, amount: u128) -> (r: Result<(), MintFault>)
        ensures
            r is Ok ==> final(self).balance_of(to) == old(self).balance_of(to) + amount,
            r is Ok ==> final(self).total_supply() == old(self).total_supply() + amount,
            r is Ok ==> forall|a: Account|
                a != to ==> final(self).balance_of(a) == old(self).balance_of(a),
            r is Err ==> (forall|a: Account|
                final(self).balance_of(a) == old(self).balance_of(a)),
            r is Err ==> final(self).total_supply() == old(self).total_supply(),
    ;
}

/// No balance and no supply differs between the two ledger states.
pub open spec fn balances_unchanged<L: MintLedger>(pre: &L, post: &L) -> bool {
    &&& forall|a: Account| post.balance_of(a) == pre.balance_of(a)
    &&& post.total_supply() == pre.total_supply()
}

/// A verified in-memory ledger for tests: balances in a vector with unique
/// accounts, alongside the running total.  It refuses the all-zero account
/// as recipient, as the real ledger does, and refuses a mint its 128-bit
/// counters could not represent.
pub struct InMemoryLedger {
    balances: Vec<(Account, u128)>,
    total: u128,
}

/// The balance an entry sequence records for `a`, zero when absent.
spec fn seq_balance(s: Seq<(Account, u128)>, a: Account) -> int
    decreases s.len(),
{
    if s.len() == 0 {
        0
    } else if s.last().0 == a {
        s.last().1 as int
    } else {
        seq_balance(s.drop_last(), a)
    }
}

spec fn accounts_unique(s: Seq<(Account, u128)>) -> bool {
    forall|i: int, j: int| 0 <= i < j < s.len() ==> s[i].0 != s[j].0
}

/// An account no entry carries has balance zero.
proof fn lemma_seq_balance_absent(s: Seq<(Account, u128)>, a: Account)
    requires
        forall|i: int| 0 <= i < s.len() ==> #[trigger] s[i].0 != a,
    ensures
        seq_balance(s, a) == 0,
    decreases s.len(),
{
    if s.len() > 0 {
        assert(s[s.len() - 1].0 != a);
        assert forall|i: int| 0 <= i < s.drop_last().len() implies #[trigger] s.drop_last()[i].0
            != a by {
            assert(s[i].0 != a);
        }
        lemma_seq_balance_absent(s.drop_last(), a);
    }
}

/// With unique accounts, the entry at any index gives its account's balance.
proof fn lemma_seq_balance_at(s: Seq<(Account, u128)>, i: int)
    requires
        accounts_unique(s),
        0 <= i < s.len(),
    ensures
        seq_balance(s, s[i].0) == s[i].1,
    decreases s.len(),
{
    if i < s.len() - 1 {
        assert(accounts_unique(s.drop_last()));
        assert(s.drop_last()[i] == s[i]);
        assert(s.last().0 != s[i].0);
        lemma_seq_balance_at(s.drop_last(), i);
    }
}

/// Updating the amount at one index leaves every other account's balance as
/// it was.
proof fn lemma_seq_balance_update(s: Seq<(Account, u128)>, i: int, v: u128)
    requires
        0 <= i < s.len(),
    ensures
        forall|b: Account|
            b != s[i].0 ==> seq_balance(s.update(i, (s[i].0, v)), b) == #[trigger] seq_balance(
                s,
                b,
            ),
    decreases s.len(),
{
    let upd = s.update(i, (s[i].0, v));
    if i == s.len() - 1 {
        assert(upd.drop_last() =~= s.drop_last());
        assert(upd.last() == (s[i].0, v));
        assert forall|b: Account| b != s[i].0 implies seq_balance(upd, b) == #[trigger] seq_balance(
            s,
            b,
        ) by {
            assert(seq_balance(upd, b) == seq_balance(upd.drop_last(), b));
            assert(seq_balance(s, b) == seq_balance(s.drop_last(), b));
        }
    } else {
        lemma_seq_balance_update(s.drop_last(), i, v);
        assert(s.drop_last()[i] == s[i]);
        assert(upd.drop_last() =~= s.drop_last().update(i, (s[i].0, v)));
        assert(upd.last() == s.last());
        assert forall|b: Account| b != s[i].0 implies seq_balance(upd, b) == #[trigger] seq_balance(
            s,
            b,
        ) by {
            if s.last().0 == b {
                assert(seq_balance(upd, b) == s.last().1);
                assert(seq_balance(s, b) == s.last().1);
            } else {
                assert(seq_balance(upd, b) == seq_balance(upd.drop_last(), b));
                assert(seq_balance(s, b) == seq_balance(s.drop_last(), b));
                assert(seq_balance(upd.drop_last(), b) == seq_balance(s.drop_last(), b));
            }
        }
    }
}

impl InMemoryLedger {
    #[verifier::type_invariant]
    spec fn wf(self) -> bool {
        &&& accounts_unique(self.balances@)
        &&& forall|i: int|
            0 <= i < self.balances@.len() ==> #[trigger] self.balances@[i].1 <= self.total
    }

    /// A fresh ledger: every balance is zero and nothing has been minted.
    pub fn new() -> (l: InMemoryLedger)
        ensures
            forall|a: Account| l.balance_of(a) == 0,
            l.total_supply() == 0,
    {
        InMemoryLedger { balances: Vec::new(), total: 0 }
    }

    /// The index holding `account`, if any entry does.
    fn find(&self, account: Account) -> (r: Option<usize>)
        ensures
            match r {
                Some(i) => i < self.balances@.len() && self.balances@[i as int].0 == account,
                None => forall|i: int|
                    0 <= i < self.balances@.len() ==> #[trigger] self.balances@[i].0 != account,
            },
    {
        let mut i: usize = 0;
        while i < self.balances.len()
            invariant
                i <= self.balances@.len(),
                forall|k: int| 0 <= k < i ==> #[trigger] self.balances@[k].0 != account,
            decreases self.balances@.len() - i,
        {
            if self.balances[i].0 == account {
                return Some(i);
            }
            i = i + 1;
        }
        None
    }

    /// The balance credited to `account`.
    pub fn balance(&self, account: Account) -> (b: u128)
        ensures
            b == self.balance_of(account),
    {
        proof {
            use_type_invariant(self);
        }
        match self.find(account) {
            Some(i) => {
                proof {
                    lemma_seq_balance_at(self.balances@, i as int);
                }
                self.balances[i].1
            },
            None => {
                proof {
                    lemma_seq_balance_absent(self.balances@, account);
                }
                0
            },
        }
    }

    /// The total of all balances.
    pub fn supply(&self) -> (t: u128)
        ensures
            t == self.total_supply(),
    {
        self.total
    }
}

impl MintLedger for InMemoryLedger {
    closed spec fn balance_of(&self, account: Account) -> int {
        seq_balance(self.balances@, account)
    }

    closed spec fn total_supply(&self) -> int {
        self.total as int
    }

    /// Succeeds exactly when the recipient is not the all-zero account and
    /// the grown supply still fits the 128-bit counters.
    fn mint(&mut self, to: Account, amount: u128) -> (r: Result<(), MintFault>)
        ensures
            r is Ok <==> !to.is_zero() && old(self).total_supply() + amount <= u128::MAX,
            to.is_zero() ==> r == Err::<(), MintFault>(MintFault::InvalidRecipient),
            !to.is_zero() && old(self).total_supply() + amount > u128::MAX ==> r == Err::<
                (),
                MintFault,
            >(MintFault::CapacityExceeded),
    {
        proof {
            use_type_invariant(&*self);
        }
        if to.hi == 0 && to.lo == 0 {
            return Err(MintFault::InvalidRecipient);
        }
        let new_total = match self.total.checked_add(amount) {
            Some(t) => t,
            None => {
                return Err(MintFault::CapacityExceeded);
            },
        };
        let found = self.find(to);
        let ghost s = self.balances@;
        let mut balances: Vec<(Account, u128)> = Vec::new();
        core::mem::swap(&mut balances, &mut self.balances);
        match found {
            Some(i) => {
                proof {
                    lemma_seq_balance_at(s, i as int);
                    lemma_seq_balance_update(s, i as int, (s[i as int].1 + amount) as u128);
                }
                let grown = balances[i].1 + amount;
                balances.set(i, (to, grown));
                proof {
                    lemma_seq_balance_at(balances@, i as int);
                }
            },
            None => {
                proof {
                    lemma_seq_balance_absent(s, to);
                }
                balances.push((to, amount));
                proof {
                    assert(balances@.drop_last() =~= s);
                    assert forall|b: Account| b != to implies seq_balance(balances@, b)
                        == #[trigger] seq_balance(s, b) by {}
                }
            },
        }
        self.total = new_total;
        core::mem::swap(&mut balances, &mut self.balances);
        Ok(())
    }
}

} // verus!
