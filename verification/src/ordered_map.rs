//! An insertion-ordered mapping from names to entries. Declaration order is
//! an observable part of the compiler's output, so the map is modelled as a
//! sequence of key/value pairs in which each key occurs once; inserting an
//! existing key replaces its value in place, keeping the first occurrence's
//! position.
use vstd::prelude::*;

verus! {

/// The index of the first pair whose key is `k`, or `-1` when no pair has it.
pub open spec fn om_first_index<T>(m: Seq<(Seq<char>, T)>, k: Seq<char>) -> int
    decreases m.len(),
{
    if m.len() == 0 {
        -1
    } else if m[0].0 == k {
        0
    } else {
        let r = om_first_index(m.subrange(1, m.len() as int), k);
        if r < 0 {
            -1
        } else {
            r + 1
        }
    }
}

pub open spec fn om_contains<T>(m: Seq<(Seq<char>, T)>, k: Seq<char>) -> bool {
    om_first_index(m, k) >= 0
}

pub open spec fn om_get<T>(m: Seq<(Seq<char>, T)>, k: Seq<char>) -> Option<T> {
    if om_contains(m, k) {
        Option::Some(m[om_first_index(m, k)].1)
    } else {
        Option::None
    }
}

/// Replace the value at the key's first occurrence, or append a new pair.
pub open spec fn om_insert<T>(m: Seq<(Seq<char>, T)>, k: Seq<char>, v: T) -> Seq<(Seq<char>, T)> {
    if om_contains(m, k) {
        m.update(om_first_index(m, k), (k, v))
    } else {
        m.push((k, v))
    }
}

/// What `om_first_index` finds: a pair with the key, preceded by none.
pub proof fn lemma_om_first_index<T>(m: Seq<(Seq<char>, T)>, k: Seq<char>)
    ensures
        om_first_index(m, k) >= 0 ==> {
            &&& om_first_index(m, k) < m.len()
            &&& m[om_first_index(m, k)].0 == k
            &&& forall|j: int| 0 <= j < om_first_index(m, k) ==> (#[trigger] m[j]).0 != k
        },
        om_first_index(m, k) < 0 ==> (forall|j: int| 0 <= j < m.len() ==> (#[trigger] m[j]).0 != k),
    decreases m.len(),
{
    if m.len() > 0 && m[0].0 != k {
        lemma_om_first_index(m.subrange(1, m.len() as int), k);
        assert forall|j: int| 1 <= j < m.len() implies m.subrange(1, m.len() as int)[j - 1] == m[j] by {}
    }
}

/// If some pair at `i` has the key and no earlier pair does, `i` is found.
pub proof fn lemma_om_first_index_at<T>(m: Seq<(Seq<char>, T)>, k: Seq<char>, i: int)
    requires
        0 <= i < m.len(),
        m[i].0 == k,
        forall|j: int| 0 <= j < i ==> (#[trigger] m[j]).0 != k,
    ensures
        om_first_index(m, k) == i,
{
    lemma_om_first_index(m, k);
}

/// Appending a pair under a different key does not make a key present.
pub proof fn lemma_om_contains_push<T>(m: Seq<(Seq<char>, T)>, k2: Seq<char>, v: T, k: Seq<char>)
    requires
        k != k2,
        !om_contains(m, k),
    ensures
        !om_contains(m.push((k2, v)), k),
{
    lemma_om_first_index(m, k);
    lemma_om_first_index(m.push((k2, v)), k);
    if om_first_index(m.push((k2, v)), k) >= 0 {
        let i = om_first_index(m.push((k2, v)), k);
        if i < m.len() {
            assert(m.push((k2, v))[i] == m[i]);
        } else {
            assert(m.push((k2, v))[i] == (k2, v));
        }
    }
}

/// An insertion-ordered name-to-entry map.
#[derive(Debug, PartialEq)]
pub struct OrderedMap<V> {
    entries: Vec<(String, V)>,
}

impl<V: View> View for OrderedMap<V> {
    type V = Seq<(Seq<char>, <V as View>::V)>;

    closed spec fn view(&self) -> Seq<(Seq<char>, <V as View>::V)> {
        self.entries@.map_values(|p: (String, V)| (p.0@, p.1@))
    }
}

impl<V: View> OrderedMap<V> {
    pub fn new() -> (r: Self)
        ensures
            r@ == Seq::<(Seq<char>, <V as View>::V)>::empty(),
    {
        let r = OrderedMap { entries: Vec::new() };
        proof {
            assert(r@ =~= Seq::<(Seq<char>, <V as View>::V)>::empty());
        }
        r
    }

    pub fn len(&self) -> (r: usize)
        ensures
            r == self@.len(),
    {
        self.entries.len()
    }

    /// The index of the first entry under `key`, if the map has one.
    pub fn index_of(&self, key: &String) -> (r: Option<usize>)
        ensures
            match r {
                Some(i) => om_first_index(self@, key@) == i as int,
                None => om_first_index(self@, key@) == -1,
            },
    {
        proof {
            lemma_om_first_index(self@, key@);
        }
        let n = self.entries.len();
        for i in 0..n
            invariant
                n == self@.len(),
                forall|j: int| 0 <= j < i ==> (#[trigger] self@[j]).0 != key@,
        {
            if self.entries[i].0 == *key {
                proof {
                    lemma_om_first_index_at(self@, key@, i as int);
                }
                return Some(i);
            }
        }
        proof {
            lemma_om_first_index(self@, key@);
        }
        None
    }

    pub fn get<'a>(&'a self, key: &String) -> (r: Option<&'a V>)
        ensures
            match r {
                Some(v) => om_get(self@, key@) == Option::Some(v@),
                None => om_get(self@, key@) is None,
            },
    {
        match self.index_of(key) {
            Some(i) => {
                proof {
                    lemma_om_first_index(self@, key@);
                }
                Some(&self.entries[i].1)
            },
            None => None,
        }
    }

    pub fn insert(&mut self, key: String, v: V)
        ensures
            final(self)@ == om_insert(old(self)@, key@, v@),
    {
        match self.index_of(&key) {
            Some(i) => {
                proof {
                    lemma_om_first_index(old(self)@, key@);
                }
                let (k0, _old_v) = self.entries.remove(i);
                self.entries.insert(i, (k0, v));
                proof {
                    assert(self@ =~= om_insert(old(self)@, key@, v@));
                }
            },
            None => {
                self.entries.push((key, v));
                proof {
                    assert(self@ =~= om_insert(old(self)@, key@, v@));
                }
            },
        }
    }

    pub fn key_at(&self, i: usize) -> (r: &String)
        requires
            i < self@.len(),
        ensures
            r@ == self@[i as int].0,
    {
        &self.entries[i].0
    }

    pub fn val_at(&self, i: usize) -> (r: &V)
        requires
            i < self@.len(),
        ensures
            r@ == self@[i as int].1,
    {
        &self.entries[i].1
    }

    /// Swap the value stored at position `i` for `v`, keeping the key, and
    /// hand back the value that was there.
    pub fn swap_at(&mut self, i: usize, v: V) -> (r: V)
        requires
            i < old(self)@.len(),
        ensures
            r@ == old(self)@[i as int].1,
            final(self)@ == old(self)@.update(i as int, (old(self)@[i as int].0, v@)),
    {
        let (k0, old_v) = self.entries.remove(i);
        self.entries.insert(i, (k0, v));
        proof {
            assert(self@ =~= old(self)@.update(i as int, (old(self)@[i as int].0, v@)));
        }
        old_v
    }
}

} // verus!
