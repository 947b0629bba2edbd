use crate::address::Address;
use vstd::prelude::*;

verus! {

/// The map that a list of entries denotes; a later entry for a key replaces
/// an earlier one.
pub open spec fn map_of<V>(s: Seq<(Address, V)>) -> Map<Seq<u8>, V>
    decreases s.len(),
{
    if s.len() == 0 {
        Map::empty()
    } else {
        map_of(s.drop_last()).insert(s.last().0@, s.last().1)
    }
}

/// No two entries share a key.
pub open spec fn keys_unique<V>(s: Seq<(Address, V)>) -> bool {
    forall|i: int, j: int| 0 <= i < j < s.len() ==> s[i].0@ != s[j].0@
}

proof fn lemma_map_of<V>(s: Seq<(Address, V)>)
    requires
        keys_unique(s),
    ensures
        forall|k: Seq<u8>|
            #![trigger map_of(s).contains_key(k)]
            map_of(s).contains_key(k) <==> exists|i: int| 0 <= i < s.len() && s[i].0@ == k,
        forall|i: int| 0 <= i < s.len() ==> map_of(s)[#[trigger] s[i].0@] == s[i].1,
    decreases s.len(),
{
    if s.len() > 0 {
        let t = s.drop_last();
        let n = s.len() - 1;
        assert(keys_unique(t)) by {
            assert forall|i: int, j: int| 0 <= i < j < t.len() implies t[i].0@ != t[j].0@ by {
                assert(t[i] == s[i] && t[j] == s[j]);
            }
        }
        lemma_map_of(t);
        assert forall|k: Seq<u8>|
            #![trigger map_of(s).contains_key(k)]
            map_of(s).contains_key(k) <==> exists|i: int| 0 <= i < s.len() && s[i].0@ == k by {
            if map_of(s).contains_key(k) {
                if k == s[n].0@ {
                    assert(s[n].0@ == k);
                } else {
                    assert(map_of(t).contains_key(k));
                    let i = choose|i: int| 0 <= i < t.len() && t[i].0@ == k;
                    assert(s[i] == t[i]);
                }
            }
            if exists|i: int| 0 <= i < s.len() && s[i].0@ == k {
                let i = choose|i: int| 0 <= i < s.len() && s[i].0@ == k;
                if i < n {
                    assert(t[i] == s[i]);
                    assert(map_of(t).contains_key(t[i].0@));
                }
            }
        }
        assert forall|i: int| 0 <= i < s.len() implies map_of(s)[#[trigger] s[i].0@] == s[i].1 by {
            if i < n {
                assert(t[i] == s[i]);
                assert(s[i].0@ != s[n].0@);
                assert(map_of(t)[t[i].0@] == t[i].1);
            }
        }
    }
}

/// A store of values keyed by address, with at most one entry per key.
pub struct AddressMap<V> {
    entries: Vec<(Address, V)>,
}

impl<V: Copy> View for AddressMap<V> {
    type V = Map<Seq<u8>, V>;

    closed spec fn view(&self) -> Map<Seq<u8>, V> {
        map_of(self.entries@)
    }
}

impl<V: Copy> AddressMap<V> {
    pub closed spec fn wf(&self) -> bool {
        keys_unique(self.entries@)
    }

    /// An empty store.
    pub fn new() -> (r: AddressMap<V>)
        ensures
            r.wf(),
            r@ == Map::<Seq<u8>, V>::empty(),
    {
        AddressMap { entries: Vec::new() }
    }

    fn find(&self, key: &Address) -> (r: Option<usize>)
        requires
            self.wf(),
        ensures
            r matches Some(i) ==> i < self.entries@.len() && self.entries@[i as int].0@ == key@,
            r is None ==> forall|j: int|
                0 <= j < self.entries@.len() ==> self.entries@[j].0@ != key@,
    {
        let mut i: usize = 0;
        while i < self.entries.len()
            invariant
                i <= self.entries@.len(),
                forall|j: int| 0 <= j < i ==> self.entries@[j].0@ != key@,
            decreases self.entries@.len() - i,
        {
            if self.entries[i].0.same(key) {
                return Some(i);
            }
            i = i + 1;
        }
        None
    }

    /// The value stored under `key`, if any.
    pub fn get(&self, key: &Address) -> (r: Option<V>)
        requires
            self.wf(),
        ensures
            r == (if self@.contains_key(key@) {
                Some(self@[key@])
            } else {
                None::<V>
            }),
    {
        proof {
            lemma_map_of(self.entries@);
        }
        match self.find(key) {
            Some(i) => Some(self.entries[i].1),
            None => None,
        }
    }

    /// Whether an entry is stored under `key`.
    pub fn contains(&self, key: &Address) -> (r: bool)
        requires
            self.wf(),
        ensures
            r == self@.contains_key(key@),
    {
        proof {
            lemma_map_of(self.entries@);
        }
        self.find(key).is_some()
    }

    /// Stores `value` under `key` unless an entry is already there; says
    /// whether it did.
    pub fn insert_new(&mut self, key: Address, value: V) -> (r: bool)
        requires
            old(self).wf(),
        ensures
            final(self).wf(),
            r == !old(self)@.contains_key(key@),
            r ==> final(self)@ == old(self)@.insert(key@, value),
            !r ==> final(self)@ == old(self)@,
    {
        if self.contains(&key) {
            return false;
        }
        proof {
            lemma_map_of(self.entries@);
        }
        self.entries.push((key, value));
        assert(self.entries@.drop_last() =~= old(self).entries@);
        true
    }

    /// Stores `value` under `key`, replacing what was there.
    pub fn set(&mut self, key: Address, value: V)
        requires
            old(self).wf(),
        ensures
            final(self).wf(),
            final(self)@ == old(self)@.insert(key@, value),
    {
        proof {
            lemma_map_of(self.entries@);
        }
        match self.find(&key) {
            Some(i) => {
                self.entries.set(i, (key, value));
                let ghost s = self.entries@;
                proof {
                    assert(keys_unique(s)) by {
                        assert forall|a: int, b: int| 0 <= a < b < s.len() implies s[a].0@ != s[b].0@ by {
                            assert(old(self).entries@[a].0@ == s[a].0@);
                            assert(old(self).entries@[b].0@ == s[b].0@);
                        }
                    }
                    lemma_map_of(s);
                    assert(self@ =~= old(self)@.insert(key@, value)) by {
                        assert forall|k: Seq<u8>| #[trigger] self@.contains_key(k) <==> old(self)@.insert(key@, value).contains_key(k) by {
                            if old(self)@.contains_key(k) {
                                let j = choose|j: int| 0 <= j < old(self).entries@.len() && old(self).entries@[j].0@ == k;
                                assert(s[j].0@ == k);
                            }
                            if self@.contains_key(k) {
                                let j = choose|j: int| 0 <= j < s.len() && s[j].0@ == k;
                                if j != i {
                                    assert(old(self).entries@[j].0@ == k);
                                }
                            }
                            assert(s[i as int].0@ == key@);
                        }
                        assert forall|k: Seq<u8>| #[trigger] self@.contains_key(k) implies self@[k] == old(self)@.insert(key@, value)[k] by {
                            let j = choose|j: int| 0 <= j < s.len() && s[j].0@ == k;
                            if j != i {
                                assert(old(self).entries@[j] == s[j]);
                                assert(old(self)@[old(self).entries@[j].0@] == old(self).entries@[j].1);
                            } else {
                                assert(self@[s[i as int].0@] == s[i as int].1);
                            }
                        }
                    }
                }
            },
            None => {
                self.entries.push((key, value));
                assert(self.entries@.drop_last() =~= old(self).entries@);
            },
        }
    }

    /// Removes the entry stored under `key`, if any.
    pub fn remove(&mut self, key: &Address)
        requires
            old(self).wf(),
        ensures
            final(self).wf(),
            final(self)@ == old(self)@.remove(key@),
    {
        proof {
            lemma_map_of(self.entries@);
        }
        match self.find(key) {
            Some(i) => {
                self.entries.remove(i);
                let ghost s = self.entries@;
                let ghost o = old(self).entries@;
                proof {
                    assert forall|j: int| 0 <= j < s.len() implies #[trigger] s[j] == (if j < i { o[j] } else { o[j + 1] }) by {}
                    assert(keys_unique(s)) by {
                        assert forall|a: int, b: int| 0 <= a < b < s.len() implies s[a].0@ != s[b].0@ by {
                            assert(s[a] == (if a < i { o[a] } else { o[a + 1] }));
                            assert(s[b] == (if b < i { o[b] } else { o[b + 1] }));
                        }
                    }
                    lemma_map_of(s);
                    assert(self@ =~= old(self)@.remove(key@)) by {
                        assert forall|k: Seq<u8>| #[trigger] self@.contains_key(k) <==> old(self)@.remove(key@).contains_key(k) by {
                            if self@.contains_key(k) {
                                let j = choose|j: int| 0 <= j < s.len() && s[j].0@ == k;
                                assert(s[j] == (if j < i { o[j] } else { o[j + 1] }));
                            }
                            if old(self)@.remove(key@).contains_key(k) {
                                let j = choose|j: int| 0 <= j < o.len() && o[j].0@ == k;
                                assert(j != i);
                                if j < i {
                                    assert(s[j] == o[j]);
                                } else {
                                    assert(s[j - 1] == o[j]);
                                }
                            }
                        }
                        assert forall|k: Seq<u8>| #[trigger] self@.contains_key(k) implies self@[k] == old(self)@.remove(key@)[k] by {
                            let j = choose|j: int| 0 <= j < s.len() && s[j].0@ == k;
                            let oj = if j < i { j } else { j + 1 };
                            assert(s[j] == o[oj]);
                            assert(old(self)@[o[oj].0@] == o[oj].1);
                            assert(self@[s[j].0@] == s[j].1);
                        }
                    }
                }
            },
            None => {
                assert(self@ =~= old(self)@.remove(key@));
            },
        }
    }
}

} // verus!
