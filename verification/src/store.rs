use vstd::prelude::*;

verus! {

use crate::account::Account;
use crate::errors::Error;

/// The durable association between a request handle and the recipient
/// awaiting the mint it authorizes.  Modeled as the finite map from handle
/// to recipient; the backing vector is an implementation detail with unique
/// keys.
pub struct PendingRequestStore {
    entries: Vec<(u128, Account)>,
}

/// The map an entry sequence denotes.
pub open spec fn entries_map(s: Seq<(u128, Account)>) -> Map<u128, Account>
    decreases s.len(),
{
    if s.len() == 0 {
        Map::empty()
    } else {
        entries_map(s.drop_last()).insert(s.last().0, s.last().1)
    }
}

spec fn keys_unique(s: Seq<(u128, Account)>) -> bool {
    forall|i: int, j: int| 0 <= i < j < s.len() ==> s[i].0 != s[j].0
}

/// A handle is in the denoted map exactly when some entry carries it.
proof fn lemma_entries_map_contains(s: Seq<(u128, Account)>, h: u128)
    ensures
        entries_map(s).dom().contains(h) <==> exists|i: int| 0 <= i < s.len() && #[trigger] s[i].0 == h,
    decreases s.len(),
{
    if s.len() > 0 {
        lemma_entries_map_contains(s.drop_last(), h);
        if s.last().0 == h {
            assert(s[s.len() - 1].0 == h);
        } else if entries_map(s).dom().contains(h) {
            let i = choose|i: int| 0 <= i < s.drop_last().len() && #[trigger] s.drop_last()[i].0 == h;
            assert(s[i].0 == h);
        } else {
            assert forall|i: int| 0 <= i < s.len() implies #[trigger] s[i].0 != h by {
                if i < s.len() - 1 {
                    assert(s.drop_last()[i].0 != h);
                }
            }
        }
    }
}

/// With unique keys, the entry at any index gives the denoted map's value.
proof fn lemma_entries_map_at(s: Seq<(u128, Account)>, i: int)
    requires
        keys_unique(s),
        0 <= i < s.len(),
    ensures
        entries_map(s).dom().contains(s[i].0),
        entries_map(s)[s[i].0] == s[i].1,
    decreases s.len(),
{
    if i < s.len() - 1 {
        assert(keys_unique(s.drop_last()));
        assert(s.drop_last()[i] == s[i]);
        lemma_entries_map_at(s.drop_last(), i);
        assert(s.last().0 != s[i].0);
    }
}

/// With unique keys, dropping the entry at an index removes exactly its
/// handle from the denoted map.
proof fn lemma_entries_map_remove(s: Seq<(u128, Account)>, i: int)
    requires
        keys_unique(s),
        0 <= i < s.len(),
    ensures
        entries_map(s.remove(i)) == entries_map(s).remove(s[i].0),
    decreases s.len(),
{
    if i == s.len() - 1 {
        assert(s.remove(i) =~= s.drop_last());
        lemma_entries_map_contains(s.drop_last(), s[i].0);
        assert(!entries_map(s.drop_last()).dom().contains(s[i].0));
        assert(entries_map(s.drop_last()).insert(s[i].0, s[i].1).remove(s[i].0)
            =~= entries_map(s.drop_last()));
    } else {
        assert(keys_unique(s.drop_last()));
        lemma_entries_map_remove(s.drop_last(), i);
        assert(s.remove(i).drop_last() =~= s.drop_last().remove(i));
        assert(s.remove(i).last() == s.last());
        assert(s.remove(i).len() == s.len() - 1);
        assert(entries_map(s.remove(i))
            == entries_map(s.drop_last().remove(i)).insert(s.last().0, s.last().1));
        assert(s[i].0 != s.last().0);
        assert(entries_map(s.drop_last()).remove(s[i].0).insert(s.last().0, s.last().1)
            =~= entries_map(s.drop_last()).insert(s.last().0, s.last().1).remove(s[i].0));
    }
}

impl View for PendingRequestStore {
    type V = Map<u128, Account>;

    closed spec fn view(&self) -> Map<u128, Account> {
        entries_map(self.entries@)
    }
}

impl PendingRequestStore {
    #[verifier::type_invariant]
    spec fn wf(self) -> bool {
        keys_unique(self.entries@)
    }

    /// An empty store: no request is pending.
    pub fn new() -> (s: PendingRequestStore)
        ensures
            s@ == Map::<u128, Account>::empty(),
    {
        PendingRequestStore { entries: Vec::new() }
    }

    /// The index holding `handle`, if any entry does.
    fn find(&self, handle: u128) -> (r: Option<usize>)
        ensures
            match r {
                Some(i) => i < self.entries@.len() && self.entries@[i as int].0 == handle,
                None => forall|i: int|
                    0 <= i < self.entries@.len() ==> #[trigger] self.entries@[i].0 != handle,
            },
    {
        let mut i: usize = 0;
        while i < self.entries.len()
            invariant
                i <= self.entries@.len(),
                forall|k: int| 0 <= k < i ==> #[trigger] self.entries@[k].0 != handle,
            decreases self.entries@.len() - i,
        {
            if self.entries[i].0 == handle {
                return Some(i);
            }
            i = i + 1;
        }
        None
    }

    /// Record a new pending request.  Succeeds exactly when the handle is not
    /// already pending; a handle the oracle has already handed out is refused
    /// defensively with `DuplicateHandle`, and nothing changes.
    pub fn put(&mut self, handle: u128, recipient: Account) -> (r: Result<(), Error>)
        ensures
            r is Ok <==> !old(self)@.dom().contains(handle),
            r is Ok ==> final(self)@ == old(self)@.insert(handle, recipient),
            r is Err ==> final(self)@ == old(self)@ && r == Err::<(), Error>(Error::DuplicateHandle),
    {
        proof {
            use_type_invariant(&*self);
            lemma_entries_map_contains(self.entries@, handle);
        }
        match self.find(handle) {
            Some(i) => {
                proof {
                    lemma_entries_map_at(self.entries@, i as int);
                }
                Err(Error::DuplicateHandle)
            },
            None => {
                let ghost s = self.entries@;
                let mut entries: Vec<(u128, Account)> = Vec::new();
                core::mem::swap(&mut entries, &mut self.entries);
                entries.push((handle, recipient));
                core::mem::swap(&mut entries, &mut self.entries);
                proof {
                    assert(self.entries@.drop_last() =~= s);
                }
                Ok(())
            },
        }
    }

    /// The recipient recorded for `handle`, or `None` when no such request is
    /// pending.  The record itself is left in place.
    pub fn resolve(&self, handle: u128) -> (r: Option<Account>)
        ensures
            r == if self@.dom().contains(handle) {
                Some(self@[handle])
            } else {
                None::<Account>
            },
    {
        proof {
            use_type_invariant(&*self);
            lemma_entries_map_contains(self.entries@, handle);
        }
        match self.find(handle) {
            Some(i) => {
                proof {
                    lemma_entries_map_at(self.entries@, i as int);
                }
                Some(self.entries[i].1)
            },
            None => None,
        }
    }

    /// Consume the record for `handle`, returning its recipient, so that the
    /// same handle can never authorize a second mint.  Removing an unknown
    /// handle returns `None` and changes nothing.
    pub fn remove(&mut self, handle: u128) -> (r: Option<Account>)
        ensures
            r == if old(self)@.dom().contains(handle) {
                Some(old(self)@[handle])
            } else {
                None::<Account>
            },
            final(self)@ == old(self)@.remove(handle),
    {
        proof {
            use_type_invariant(&*self);
            lemma_entries_map_contains(self.entries@, handle);
        }
        match self.find(handle) {
            Some(i) => {
                proof {
                    lemma_entries_map_at(self.entries@, i as int);
                    lemma_entries_map_remove(self.entries@, i as int);
                }
                let ghost s = self.entries@;
                let mut entries: Vec<(u128, Account)> = Vec::new();
                core::mem::swap(&mut entries, &mut self.entries);
                let pair = entries.remove(i);
                core::mem::swap(&mut entries, &mut self.entries);
                proof {
                    assert forall|a: int, b: int|
                        0 <= a < b < self.entries@.len() implies #[trigger] self.entries@[a].0
                        != #[trigger] self.entries@[b].0 by {
                        if b < i {
                            assert(s[a].0 != s[b].0);
                        } else if a < i {
                            assert(s[a].0 != s[b + 1].0);
                        } else {
                            assert(s[a + 1].0 != s[b + 1].0);
                        }
                    }
                }
                Some(pair.1)
            },
            None => {
                proof {
                    assert(entries_map(self.entries@).remove(handle) =~= entries_map(self.entries@));
                }
                None
            },
        }
    }
}

} // verus!
