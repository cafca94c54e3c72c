use vstd::prelude::*;

use crate::hotkey::Error;
use crate::hotkey::Key;

verus! {

/// The contents of an association list of registrations, as a map from
/// hotkey to callback. Later entries win, but the table keeps its keys
/// unique, so the order never matters.
pub open spec fn as_map<C>(s: Seq<(Key, C)>) -> Map<Key, C>
    decreases s.len(),
{
    if s.len() == 0 {
        Map::empty()
    } else {
        as_map(s.drop_last()).insert(s.last().0, s.last().1)
    }
}

/// No two entries carry the same hotkey.
pub open spec fn unique_keys<C>(s: Seq<(Key, C)>) -> bool {
    forall|i: int, j: int| 0 <= i < j < s.len() ==> s[i].0 != s[j].0
}

/// `register` succeeds exactly on hotkeys with no current registration.
pub open spec fn register_accepted<C>(m: Map<Key, C>, key: Key) -> bool {
    !m.dom().contains(key)
}

/// `unregister` succeeds exactly on hotkeys with a current registration.
pub open spec fn unregister_accepted<C>(m: Map<Key, C>, key: Key) -> bool {
    m.dom().contains(key)
}

proof fn lemma_as_map_contains<C>(s: Seq<(Key, C)>, k: Key)
    ensures
        as_map(s).dom().contains(k) <==> exists|i: int| 0 <= i < s.len() && s[i].0 == k,
    decreases s.len(),
{
    if s.len() > 0 {
        lemma_as_map_contains(s.drop_last(), k);
        if as_map(s).dom().contains(k) {
            if k == s.last().0 {
                assert(s[s.len() - 1].0 == k);
            } else {
                let i = choose|i: int| 0 <= i < s.drop_last().len() && s.drop_last()[i].0 == k;
                assert(s[i].0 == k);
            }
        }
        if exists|i: int| 0 <= i < s.len() && s[i].0 == k {
            let i = choose|i: int| 0 <= i < s.len() && s[i].0 == k;
            if i < s.len() - 1 {
                assert(s.drop_last()[i].0 == k);
            }
        }
    }
}

proof fn lemma_as_map_index<C>(s: Seq<(Key, C)>, i: int)
    requires
        unique_keys(s),
        0 <= i < s.len(),
    ensures
        as_map(s).dom().contains(s[i].0),
        as_map(s)[s[i].0] == s[i].1,
    decreases s.len(),
{
    if i < s.len() - 1 {
        assert(unique_keys(s.drop_last())) by {
            assert forall|a: int, b: int| 0 <= a < b < s.drop_last().len() implies s.drop_last()[a].0
                != s.drop_last()[b].0 by {
                assert(s.drop_last()[a] == s[a]);
                assert(s.drop_last()[b] == s[b]);
            }
        }
        lemma_as_map_index(s.drop_last(), i);
        assert(s.drop_last()[i] == s[i]);
        assert(s[i].0 != s.last().0);
    }
}

proof fn lemma_as_map_remove<C>(s: Seq<(Key, C)>, i: int)
    requires
        unique_keys(s),
        0 <= i < s.len(),
    ensures
        as_map(s.remove(i)) == as_map(s).remove(s[i].0),
    decreases s.len(),
{
    assert(unique_keys(s.drop_last())) by {
        assert forall|a: int, b: int| 0 <= a < b < s.drop_last().len() implies s.drop_last()[a].0
            != s.drop_last()[b].0 by {
            assert(s.drop_last()[a] == s[a]);
            assert(s.drop_last()[b] == s[b]);
        }
    }
    if i == s.len() - 1 {
        assert(s.remove(i) =~= s.drop_last());
        lemma_as_map_contains(s.drop_last(), s[i].0);
        assert forall|j: int| 0 <= j < s.drop_last().len() implies s.drop_last()[j].0 != s[i].0 by {
            assert(s.drop_last()[j] == s[j]);
        }
        assert(as_map(s.drop_last()).insert(s[i].0, s[i].1).remove(s[i].0) =~= as_map(
            s.drop_last(),
        ));
    } else {
        assert(s.remove(i).drop_last() =~= s.drop_last().remove(i));
        assert(s.remove(i).last() == s.last());
        lemma_as_map_remove(s.drop_last(), i);
        assert(s.drop_last()[i] == s[i]);
        assert(s[i].0 != s.last().0);
        assert(as_map(s.drop_last()).remove(s[i].0).insert(s.last().0, s.last().1) =~= as_map(
            s.drop_last(),
        ).insert(s.last().0, s.last().1).remove(s[i].0));
    }
}

/// The shared registration table: a mapping from hotkey identity to the
/// callback registered for it, with at most one callback per hotkey.
pub struct RegistrationTable<C> {
    entries: Vec<(Key, C)>,
}

impl<C> View for RegistrationTable<C> {
    type V = Map<Key, C>;

    closed spec fn view(&self) -> Map<Key, C> {
        as_map(self.entries@)
    }
}

impl<C> RegistrationTable<C> {
    pub closed spec fn well_formed(self) -> bool {
        unique_keys(self.entries@)
    }

    /// An empty table.
    pub fn new() -> (t: Self)
        ensures
            t.well_formed(),
            t@ == Map::<Key, C>::empty(),
    {
        RegistrationTable { entries: Vec::new() }
    }

    /// Insert a callback for `key` iff no callback is present for it;
    /// otherwise fail with `AlreadyRegistered` and leave the table unchanged.
    pub fn register(&mut self, key: Key, callback: C) -> (r: Result<(), Error>)
        requires
            old(self).well_formed(),
        ensures
            final(self).well_formed(),
            r is Ok <==> register_accepted(old(self)@, key),
            r is Ok ==> final(self)@ == old(self)@.insert(key, callback),
            r is Err ==> r == Err::<(), Error>(Error::AlreadyRegistered) && final(self)@ == old(
                self,
            )@,
    {
        let ghost s0 = self.entries@;
        let n = self.entries.len();
        let mut i: usize = 0;
        while i < n
            invariant
                self.entries@ == s0,
                s0 == old(self).entries@,
                unique_keys(s0),
                n == s0.len(),
                i <= n,
                forall|j: int| 0 <= j < i ==> s0[j].0 != key,
            decreases n - i,
        {
            if self.entries[i].0 == key {
                proof {
                    lemma_as_map_index(s0, i as int);
                }
                return Err(Error::AlreadyRegistered);
            }
            i += 1;
        }
        proof {
            lemma_as_map_contains(s0, key);
        }
        self.entries.push((key, callback));
        proof {
            assert(self.entries@.drop_last() =~= s0);
        }
        Ok(())
    }

    /// Remove the callback for `key` iff one is present; otherwise fail with
    /// `NotRegistered` and leave the table unchanged.
    pub fn unregister(&mut self, key: Key) -> (r: Result<(), Error>)
        requires
            old(self).well_formed(),
        ensures
            final(self).well_formed(),
            r is Ok <==> unregister_accepted(old(self)@, key),
            r is Ok ==> final(self)@ == old(self)@.remove(key),
            r is Err ==> r == Err::<(), Error>(Error::NotRegistered) && final(self)@ == old(
                self,
            )@,
    {
        let ghost s0 = self.entries@;
        let n = self.entries.len();
        let mut i: usize = 0;
        while i < n
            invariant
                self.entries@ == s0,
                s0 == old(self).entries@,
                unique_keys(s0),
                n == s0.len(),
                i <= n,
                forall|j: int| 0 <= j < i ==> s0[j].0 != key,
            decreases n - i,
        {
            if self.entries[i].0 == key {
                proof {
                    lemma_as_map_index(s0, i as int);
                    lemma_as_map_remove(s0, i as int);
                    assert forall|a: int, b: int| 0 <= a < b < s0.remove(i as int).len() implies s0
                        .remove(i as int)[a].0 != s0.remove(i as int)[b].0 by {
                        assert(s0.remove(i as int)[a] == if a < i {
                            s0[a]
                        } else {
                            s0[a + 1]
                        });
                        assert(s0.remove(i as int)[b] == if b < i {
                            s0[b]
                        } else {
                            s0[b + 1]
                        });
                    }
                }
                self.entries.remove(i);
                return Ok(());
            }
            i += 1;
        }
        proof {
            lemma_as_map_contains(s0, key);
        }
        Err(Error::NotRegistered)
    }

    /// The callback registered for `key`, if any. The dispatch loop calls
    /// this for each semantic event it drains from the channel.
    pub fn lookup(&self, key: Key) -> (r: Option<&C>)
        requires
            self.well_formed(),
        ensures
            match r {
                Some(cb) => self@.dom().contains(key) && *cb == self@[key],
                None => !self@.dom().contains(key),
            },
    {
        let n = self.entries.len();
        let mut i: usize = 0;
        while i < n
            invariant
                n == self.entries@.len(),
                i <= n,
                self.well_formed(),
                forall|j: int| 0 <= j < i ==> self.entries@[j].0 != key,
            decreases n - i,
        {
            if self.entries[i].0 == key {
                proof {
                    lemma_as_map_index(self.entries@, i as int);
                }
                return Some(&self.entries[i].1);
            }
            i += 1;
        }
        proof {
            lemma_as_map_contains(self.entries@, key);
        }
        None
    }
}

/// A registration that succeeded blocks an immediate second registration of
/// the same hotkey: the table then contains the key, and `register` accepts
/// exactly the keys it does not contain.
pub proof fn lemma_register_then_register<C>(m: Map<Key, C>, key: Key, cb: C)
    requires
        register_accepted(m, key),
    ensures
        !register_accepted(m.insert(key, cb), key),
        unregister_accepted(m.insert(key, cb), key),
{
}

/// Unregistering a hotkey makes a new registration for it acceptable again.
pub proof fn lemma_unregister_then_register<C>(m: Map<Key, C>, key: Key)
    ensures
        register_accepted(m.remove(key), key),
{
}

} // verus!
