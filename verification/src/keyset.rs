//! A small set of keys, stored as a vector and specified as a `Set<Key>`.
//!
//! The switching state machine tracks which hotkeys are held and compares the
//! held set against configured combinations.  Those sets are tiny (a handful
//! of keys), so a vector with linear scans is the right executable shape; the
//! contracts speak only of the mathematical set of members.

use vstd::prelude::*;

use crate::key::Key;

verus! {

broadcast use vstd::seq_lib::lemma_seq_contains_after_push;

/// A finite set of keys.
#[derive(Clone, Debug)]
pub struct KeySet {
    items: Vec<Key>,
}

impl View for KeySet {
    type V = Set<Key>;

    closed spec fn view(&self) -> Set<Key> {
        Set::new(|k: Key| self.items@.contains(k))
    }
}

impl KeySet {
    /// The empty set.
    pub fn new() -> (r: KeySet)
        ensures
            r@ == Set::<Key>::empty(),
    {
        let r = KeySet { items: Vec::new() };
        proof {
            assert(r@ =~= Set::<Key>::empty());
        }
        r
    }

    /// A set holding the given keys.
    pub fn from_vec(items: Vec<Key>) -> (r: KeySet)
        ensures
            r@ == items@.to_set(),
    {
        let r = KeySet { items };
        proof {
            assert(r@ =~= r.items@.to_set());
        }
        r
    }

    /// Whether `key` is a member.
    pub fn contains(&self, key: Key) -> (r: bool)
        ensures
            r == self@.contains(key),
    {
        let mut i: usize = 0;
        while i < self.items.len()
            invariant
                i <= self.items.len(),
                forall|j: int| 0 <= j < i ==> self.items@[j] != key,
            decreases self.items.len() - i,
        {
            if self.items[i] == key {
                return true;
            }
            i += 1;
        }
        false
    }

    /// Whether the set is empty.
    pub fn is_empty(&self) -> (r: bool)
        ensures
            r == (self@ == Set::<Key>::empty()),
    {
        if self.items.len() == 0 {
            proof {
                assert(self@ =~= Set::<Key>::empty());
            }
            true
        } else {
            proof {
                assert(self@.contains(self.items@[0]));
            }
            false
        }
    }

    /// Add a key.
    pub fn insert(&mut self, key: Key)
        ensures
            final(self)@ == old(self)@.insert(key),
    {
        if !self.contains(key) {
            self.items.push(key);
        }
        proof {
            assert(self@ =~= old(self)@.insert(key));
        }
    }

    /// Take a key out; without the key the set is unchanged.
    pub fn remove(&mut self, key: Key)
        ensures
            final(self)@ == old(self)@.remove(key),
    {
        let mut kept: Vec<Key> = Vec::new();
        let mut i: usize = 0;
        while i < self.items.len()
            invariant
                i <= self.items.len(),
                forall|k: Key| #[trigger] kept@.contains(k)
                    <==> (self.items@.take(i as int).contains(k) && k != key),
            decreases self.items.len() - i,
        {
            let item = self.items[i];
            proof {
                assert(self.items@.take(i + 1)
                    =~= self.items@.take(i as int).push(self.items@[i as int]));
            }
            if item != key {
                kept.push(item);
            }
            i += 1;
        }
        proof {
            assert(self.items@.take(self.items@.len() as int) =~= self.items@);
        }
        self.items = kept;
        proof {
            assert(self@ =~= old(self)@.remove(key));
        }
    }

    /// Whether every member of `self` is held in `other`.
    pub fn is_subset_of(&self, other: &KeySet) -> (r: bool)
        ensures
            r == self@.subset_of(other@),
    {
        let mut i: usize = 0;
        while i < self.items.len()
            invariant
                i <= self.items.len(),
                forall|j: int| 0 <= j < i ==> other@.contains(#[trigger] self.items@[j]),
            decreases self.items.len() - i,
        {
            if !other.contains(self.items[i]) {
                return false;
            }
            i += 1;
        }
        true
    }

    /// Add every member of `other`.
    pub fn extend(&mut self, other: &KeySet)
        ensures
            final(self)@ == old(self)@.union(other@),
    {
        let mut i: usize = 0;
        while i < other.items.len()
            invariant
                i <= other.items.len(),
                forall|k: Key| #[trigger] self@.contains(k)
                    <==> (old(self)@.contains(k) || other.items@.take(i as int).contains(k)),
            decreases other.items.len() - i,
        {
            proof {
                assert(other.items@.take(i + 1)
                    =~= other.items@.take(i as int).push(other.items@[i as int]));
            }
            self.insert(other.items[i]);
            i += 1;
        }
        proof {
            assert(other.items@.take(other.items@.len() as int) =~= other.items@);
            assert(self@ =~= old(self)@.union(other@));
        }
    }

    /// The members, one copy each, in storage order.
    pub fn to_vec(&self) -> (r: Vec<Key>)
        ensures
            r@.to_set() == self@,
    {
        let mut out: Vec<Key> = Vec::new();
        let mut i: usize = 0;
        while i < self.items.len()
            invariant
                i <= self.items.len(),
                out@ == self.items@.take(i as int),
            decreases self.items.len() - i,
        {
            out.push(self.items[i]);
            i += 1;
        }
        proof {
            assert(out@ =~= self.items@);
            assert(out@.to_set() =~= self@);
        }
        out
    }
}

} // verus!
