//! A small string-keyed store, the explicit stand-in for every ambient
//! map of this library: breakpoints, session variables, request headers.
//! One owner holds it and passes it by reference; keys are unique.

use vstd::prelude::*;
use vstd::string::StringExecFns;
use crate::text::str_eq;

verus! {

/// The value under `key`, if any.
pub open spec fn kv_lookup<V>(s: Seq<(String, V)>, key: Seq<char>) -> Option<V>
    decreases s.len(),
{
    if s.len() == 0 {
        None
    } else if s.last().0@ == key {
        Some(s.last().1)
    } else {
        kv_lookup(s.drop_last(), key)
    }
}

/// A string-keyed map with unique keys, stored as an entry list.
#[derive(Debug)]
pub struct KvMap<V> {
    pub entries: Vec<(String, V)>,
}

impl<V> KvMap<V> {
    /// Keys are unique.
    pub open spec fn wf(self) -> bool {
        forall|i: int, j: int|
            0 <= i < j < self.entries@.len() ==> (#[trigger] self.entries@[i]).0@ != (
            #[trigger] self.entries@[j]).0@
    }

    pub open spec fn spec_get(self, key: Seq<char>) -> Option<V> {
        kv_lookup(self.entries@, key)
    }

    pub fn new() -> (m: KvMap<V>)
        ensures
            m.entries@.len() == 0,
            m.wf(),
            forall|k: Seq<char>| #[trigger] m.spec_get(k) is None,
    {
        KvMap { entries: Vec::new() }
    }

    /// Number of keys held.
    pub fn len(&self) -> (n: usize)
        ensures
            n == self.entries@.len(),
    {
        self.entries.len()
    }

    /// No key is held.
    pub fn is_empty(&self) -> (r: bool)
        ensures
            r == (self.entries@.len() == 0),
    {
        self.entries.len() == 0
    }

    /// Drop every entry.
    pub fn clear(&mut self)
        ensures
            final(self).entries@.len() == 0,
            final(self).wf(),
            forall|k: Seq<char>| #[trigger] final(self).spec_get(k) is None,
    {
        self.entries.clear();
    }

    fn find_index(&self, key: &str) -> (r: Option<usize>)
        ensures
            match r {
                Some(i) => i < self.entries@.len() && self.entries@[i as int].0@ == key@,
                None => forall|i: int|
                    0 <= i < self.entries@.len() ==> (#[trigger] self.entries@[i]).0@ != key@,
            },
    {
        let n = self.entries.len();
        let mut i: usize = 0;
        while i < n
            invariant
                i <= n,
                n == self.entries@.len(),
                forall|k: int| 0 <= k < i ==> (#[trigger] self.entries@[k]).0@ != key@,
            decreases n - i,
        {
            if str_eq(self.entries[i].0.as_str(), key) {
                return Some(i);
            }
            i = i + 1;
        }
        None
    }

    /// Bind `key` to `value`, replacing any earlier binding.
    pub fn insert(&mut self, key: &str, value: V)
        requires
            old(self).wf(),
        ensures
            final(self).wf(),
            final(self).spec_get(key@) == Some(value),
            forall|k: Seq<char>|
                k != key@ ==> #[trigger] final(self).spec_get(k) == old(self).spec_get(k),
    {
        let owned = String::from_str(key);
        match self.find_index(key) {
            Some(i) => {
                let ghost e0 = self.entries@;
                self.entries[i] = (owned, value);
                proof {
                    lemma_kv_update(e0, self.entries@, i as int, key@);
                }
            },
            None => {
                let ghost e0 = self.entries@;
                self.entries.push((owned, value));
                proof {
                    assert(self.entries@.drop_last() =~= e0);
                    lemma_kv_absent(e0, key@);
                }
            },
        }
    }

    /// Read the binding of `key`.
    pub fn get(&self, key: &str) -> (r: Option<&V>)
        requires
            self.wf(),
        ensures
            match r {
                Some(v) => self.spec_get(key@) == Some(*v),
                None => self.spec_get(key@) is None,
            },
    {
        match self.find_index(key) {
            Some(i) => {
                proof {
                    lemma_kv_found(self.entries@, i as int, key@);
                }
                Some(&self.entries[i].1)
            },
            None => {
                proof {
                    lemma_kv_absent(self.entries@, key@);
                }
                None
            },
        }
    }

    /// Is `key` bound?
    pub fn contains_key(&self, key: &str) -> (r: bool)
        requires
            self.wf(),
        ensures
            r == (self.spec_get(key@) is Some),
    {
        match self.get(key) {
            Some(_) => true,
            None => false,
        }
    }
}

proof fn lemma_kv_absent<V>(s: Seq<(String, V)>, key: Seq<char>)
    requires
        forall|i: int| 0 <= i < s.len() ==> (#[trigger] s[i]).0@ != key,
    ensures
        kv_lookup(s, key) is None,
    decreases s.len(),
{
    if s.len() > 0 {
        assert(forall|i: int| 0 <= i < s.len() - 1 ==> s.drop_last()[i] == s[i]);
        lemma_kv_absent(s.drop_last(), key);
    }
}

proof fn lemma_kv_found<V>(s: Seq<(String, V)>, i: int, key: Seq<char>)
    requires
        0 <= i < s.len(),
        s[i].0@ == key,
        forall|p: int, q: int|
            0 <= p < q < s.len() ==> (#[trigger] s[p]).0@ != (#[trigger] s[q]).0@,
    ensures
        kv_lookup(s, key) == Some(s[i].1),
    decreases s.len(),
{
    if i == s.len() - 1 {
    } else {
        assert(s.last().0@ != key);
        assert(forall|p: int| 0 <= p < s.len() - 1 ==> s.drop_last()[p] == s[p]);
        lemma_kv_found(s.drop_last(), i, key);
    }
}

proof fn lemma_kv_update<V>(e0: Seq<(String, V)>, e1: Seq<(String, V)>, i: int, key: Seq<char>)
    requires
        0 <= i < e0.len(),
        e1 == e0.update(i, e1[i]),
        e1.len() == e0.len(),
        e1[i].0@ == key,
        e0[i].0@ == key,
        forall|p: int, q: int|
            0 <= p < q < e0.len() ==> (#[trigger] e0[p]).0@ != (#[trigger] e0[q]).0@,
    ensures
        forall|p: int, q: int|
            0 <= p < q < e1.len() ==> (#[trigger] e1[p]).0@ != (#[trigger] e1[q]).0@,
        kv_lookup(e1, key) == Some(e1[i].1),
        forall|k: Seq<char>| k != key ==> #[trigger] kv_lookup(e1, k) == kv_lookup(e0, k),
{
    assert forall|p: int, q: int|
        0 <= p < q < e1.len() implies (#[trigger] e1[p]).0@ != (#[trigger] e1[q]).0@ by {
        if p == i {
            assert(e1[q] == e0[q]);
            assert(e0[i].0@ != e0[q].0@);
        } else if q == i {
            assert(e1[p] == e0[p]);
            assert(e0[p].0@ != e0[i].0@);
        } else {
            assert(e1[p] == e0[p]);
            assert(e1[q] == e0[q]);
        }
    }
    lemma_kv_found(e1, i, key);
    assert forall|k: Seq<char>| k != key implies #[trigger] kv_lookup(e1, k) == kv_lookup(
        e0,
        k,
    ) by {
        lemma_kv_frame(e0, e1, i, k);
    }
}

proof fn lemma_kv_frame<V>(e0: Seq<(String, V)>, e1: Seq<(String, V)>, i: int, k: Seq<char>)
    requires
        0 <= i < e0.len(),
        e1.len() == e0.len(),
        forall|p: int| 0 <= p < e0.len() && p != i ==> e1[p] == e0[p],
        e1[i].0@ == e0[i].0@,
        k != e0[i].0@,
    ensures
        kv_lookup(e1, k) == kv_lookup(e0, k),
    decreases e0.len(),
{
    if e0.len() > 0 {
        if i == e0.len() - 1 {
            assert(e1.drop_last() =~= e0.drop_last());
        } else {
            assert(e1.last() == e0.last());
            if e0.last().0@ == k {
            } else {
                assert(forall|p: int|
                    0 <= p < e0.len() - 1 && p != i ==> e1.drop_last()[p] == e0.drop_last()[p]);
                assert(e1.drop_last()[i] == e1[i]);
                assert(e0.drop_last()[i] == e0[i]);
                lemma_kv_frame(e0.drop_last(), e1.drop_last(), i, k);
            }
        }
    }
}

} // verus!
