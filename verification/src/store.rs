//! A keyed collection of entries that expire: the backing store for sessions,
//! authorization codes and pending re-authentication state.

use vstd::prelude::*;

use crate::time::UtcTime;

verus! {

/// An entry with a string key and an expiry instant.
pub trait Expiring {
    spec fn key_view(&self) -> Seq<char>;

    spec fn expiry(&self) -> UtcTime;

    fn key(&self) -> (k: &str)
        ensures
            k@ == self.key_view(),
    ;

    fn expires_at(&self) -> (t: UtcTime)
        ensures
            t == self.expiry(),
    ;
}

pub open spec fn unique_keys<V: Expiring>(s: Seq<V>) -> bool {
    forall|i: int, j: int|
        0 <= i < s.len() && 0 <= j < s.len() && i != j ==> #[trigger] s[i].key_view()
            != #[trigger] s[j].key_view()
}

pub open spec fn has_key<V: Expiring>(s: Seq<V>, k: Seq<char>) -> bool {
    exists|i: int| 0 <= i < s.len() && #[trigger] s[i].key_view() == k
}

/// The entries of `s` by key.
pub open spec fn seq_map<V: Expiring>(s: Seq<V>) -> Map<Seq<char>, V> {
    Map::new(
        |k: Seq<char>| has_key(s, k),
        |k: Seq<char>| s[choose|i: int| 0 <= i < s.len() && #[trigger] s[i].key_view() == k],
    )
}

/// The entries of `m` that have not expired at `now`.
pub open spec fn live<V: Expiring>(m: Map<Seq<char>, V>, now: UtcTime) -> Map<Seq<char>, V> {
    Map::new(|k: Seq<char>| m.contains_key(k) && m[k].expiry().after(now), |k: Seq<char>| m[k])
}

pub proof fn lemma_seq_map_entry<V: Expiring>(s: Seq<V>, i: int)
    requires
        unique_keys(s),
        0 <= i < s.len(),
    ensures
        seq_map(s).contains_key(s[i].key_view()),
        seq_map(s)[s[i].key_view()] == s[i],
{
    let k = s[i].key_view();
    assert(has_key(s, k));
    let j = choose|j: int| 0 <= j < s.len() && #[trigger] s[j].key_view() == k;
    assert(s[j].key_view() == s[i].key_view());
}

/// A sequence of entries with distinct keys has as many keys as entries.
pub proof fn lemma_seq_map_len<V: Expiring>(s: Seq<V>)
    requires
        unique_keys(s),
    ensures
        seq_map(s).dom().finite(),
        seq_map(s).dom().len() == s.len(),
    decreases s.len(),
{
    if s.len() == 0 {
        assert(seq_map(s).dom() =~= Set::<Seq<char>>::empty());
    } else {
        let t = s.drop_last();
        assert(unique_keys(t)) by {
            assert forall|i: int, j: int|
                0 <= i < t.len() && 0 <= j < t.len() && i != j implies #[trigger] t[i].key_view()
                != #[trigger] t[j].key_view() by {
                assert(t[i] == s[i] && t[j] == s[j]);
            }
        }
        lemma_seq_map_len(t);
        let k = s[s.len() - 1].key_view();
        assert(!seq_map(t).dom().contains(k)) by {
            if has_key(t, k) {
                let i = choose|i: int| 0 <= i < t.len() && #[trigger] t[i].key_view() == k;
                assert(t[i] == s[i]);
            }
        }
        assert forall|x: Seq<char>| #[trigger] seq_map(s).dom().contains(x) == seq_map(t).dom().insert(
            k,
        ).contains(x) by {
            if has_key(s, x) {
                let i = choose|i: int| 0 <= i < s.len() && #[trigger] s[i].key_view() == x;
                if i < t.len() {
                    assert(t[i] == s[i]);
                    assert(has_key(t, x));
                }
            }
            if has_key(t, x) {
                let i = choose|i: int| 0 <= i < t.len() && #[trigger] t[i].key_view() == x;
                assert(s[i] == t[i]);
                assert(has_key(s, x));
            }
            if x == k {
                assert(has_key(s, x));
            }
        }
        assert(seq_map(s).dom() =~= seq_map(t).dom().insert(k));
    }
}

/// A collection of entries with distinct keys.
pub struct ExpiringStore<V> {
    entries: Vec<V>,
}

impl<V: Expiring> View for ExpiringStore<V> {
    type V = Map<Seq<char>, V>;

    closed spec fn view(&self) -> Map<Seq<char>, V> {
        seq_map(self.entries@)
    }
}

impl<V: Expiring> ExpiringStore<V> {
    pub closed spec fn wf(&self) -> bool {
        unique_keys(self.entries@)
    }

    pub fn new() -> (r: Self)
        ensures
            r.wf(),
            r@ == Map::<Seq<char>, V>::empty(),
    {
        let r = ExpiringStore { entries: Vec::new() };
        assert(r@ =~= Map::<Seq<char>, V>::empty());
        r
    }

    fn find(&self, key: &str) -> (r: Option<usize>)
        requires
            self.wf(),
        ensures
            match r {
                Some(i) => i < self.entries@.len() && self.entries@[i as int].key_view() == key@,
                None => !self@.contains_key(key@),
            },
    {
        for i in 0..self.entries.len()
            invariant
                forall|j: int| 0 <= j < i ==> #[trigger] self.entries@[j].key_view() != key@,
        {
            if crate::text::str_eq(self.entries[i].key(), key) {
                return Some(i);
            }
        }
        None
    }

    /// A well-formed store holds finitely many entries.
    pub proof fn lemma_finite(&self)
        requires
            self.wf(),
        ensures
            self@.dom().finite(),
    {
        lemma_seq_map_len(self.entries@);
    }

    /// The number of entries.
    pub fn len(&self) -> (r: usize)
        requires
            self.wf(),
        ensures
            self@.dom().finite(),
            r == self@.dom().len(),
    {
        proof {
            lemma_seq_map_len(self.entries@);
        }
        self.entries.len()
    }

    /// Whether an entry has this key.
    pub fn contains_key(&self, key: &str) -> (r: bool)
        requires
            self.wf(),
        ensures
            r == self@.contains_key(key@),
    {
        match self.find(key) {
            Some(i) => {
                proof {
                    lemma_seq_map_entry(self.entries@, i as int);
                }
                true
            },
            None => false,
        }
    }

    /// The entry with this key.
    pub fn get(&self, key: &str) -> (r: Option<&V>)
        requires
            self.wf(),
        ensures
            match r {
                Some(v) => self@.contains_key(key@) && self@[key@] == *v,
                None => !self@.contains_key(key@),
            },
    {
        match self.find(key) {
            Some(i) => {
                proof {
                    lemma_seq_map_entry(self.entries@, i as int);
                }
                Some(&self.entries[i])
            },
            None => None,
        }
    }

    /// Removes and returns the entry with this key.
    pub fn remove(&mut self, key: &str) -> (r: Option<V>)
        requires
            old(self).wf(),
        ensures
            final(self).wf(),
            final(self)@ == old(self)@.remove(key@),
            match r {
                Some(v) => old(self)@.contains_key(key@) && old(self)@[key@] == v,
                None => !old(self)@.contains_key(key@),
            },
    {
        match self.find(key) {
            Some(i) => {
                let ghost s = self.entries@;
                proof {
                    lemma_seq_map_entry(s, i as int);
                }
                let v = self.entries.swap_remove(i);
                proof {
                    let t = self.entries@;
                    assert(t =~= s.update(i as int, s.last()).drop_last());
                    // every entry of t is an entry of s other than s[i]
                    assert forall|j: int| 0 <= j < t.len() implies (#[trigger] t[j] == s[j] && j
                        != i) || (t[j] == s[s.len() - 1] && j == i) by {}
                    assert(unique_keys(t)) by {
                        assert forall|a: int, b: int|
                            0 <= a < t.len() && 0 <= b < t.len() && a != b implies #[trigger] t[a].key_view()
                            != #[trigger] t[b].key_view() by {
                            let a2 = if a == i { s.len() - 1 } else { a };
                            let b2 = if b == i { s.len() - 1 } else { b };
                            assert(t[a] == s[a2]);
                            assert(t[b] == s[b2]);
                        }
                    }
                    assert forall|k: Seq<char>| #[trigger] seq_map(t).contains_key(k)
                        == old(self)@.remove(key@).contains_key(k) by {
                        if has_key(t, k) {
                            let j = choose|j: int| 0 <= j < t.len() && #[trigger] t[j].key_view() == k;
                            let j2 = if j == i { s.len() - 1 } else { j };
                            assert(t[j] == s[j2]);
                            assert(s[j2].key_view() == k);
                            assert(has_key(s, k));
                            assert(j2 != i);
                        }
                        if has_key(s, k) && k != key@ {
                            let j = choose|j: int| 0 <= j < s.len() && #[trigger] s[j].key_view() == k;
                            assert(j != i);
                            let j2 = if j == s.len() - 1 { i as int } else { j };
                            assert(t[j2] == s[j]);
                            assert(has_key(t, k));
                        }
                    }
                    assert forall|k: Seq<char>| #[trigger] seq_map(t).contains_key(k) implies seq_map(
                        t,
                    )[k] == old(self)@.remove(key@)[k] by {
                        let j = choose|j: int| 0 <= j < t.len() && #[trigger] t[j].key_view() == k;
                        lemma_seq_map_entry(t, j);
                        let j2 = if j == i { s.len() - 1 } else { j };
                        assert(t[j] == s[j2]);
                        lemma_seq_map_entry(s, j2);
                    }
                    assert(seq_map(t) =~= old(self)@.remove(key@));
                }
                Some(v)
            },
            None => {
                assert(old(self)@.remove(key@) =~= old(self)@);
                None
            },
        }
    }

    /// Adds an entry, replacing any entry with the same key.
    pub fn insert(&mut self, v: V)
        requires
            old(self).wf(),
        ensures
            final(self).wf(),
            final(self)@ == old(self)@.insert(v.key_view(), v),
    {
        let ghost key = v.key_view();
        let _ = self.remove(v.key());
        let ghost s = self.entries@;
        let ghost removed = self@;
        self.entries.push(v);
        proof {
            let t = self.entries@;
            assert(t =~= s.push(v));
            assert(!removed.contains_key(key));
            assert forall|j: int| 0 <= j < s.len() implies #[trigger] s[j].key_view() != key by {
                lemma_seq_map_entry(s, j);
            }
            assert(unique_keys(t)) by {
                assert forall|a: int, b: int|
                    0 <= a < t.len() && 0 <= b < t.len() && a != b implies #[trigger] t[a].key_view()
                    != #[trigger] t[b].key_view() by {
                    if a < s.len() && b < s.len() {
                        assert(t[a] == s[a] && t[b] == s[b]);
                    } else if a < s.len() {
                        assert(t[a] == s[a]);
                    } else {
                        assert(t[b] == s[b]);
                    }
                }
            }
            let target = old(self)@.insert(key, v);
            assert forall|k: Seq<char>| #[trigger] seq_map(t).contains_key(k) == target.contains_key(
                k,
            ) by {
                if has_key(t, k) {
                    let j = choose|j: int| 0 <= j < t.len() && #[trigger] t[j].key_view() == k;
                    if j < s.len() {
                        assert(t[j] == s[j]);
                        lemma_seq_map_entry(s, j);
                    }
                }
                if k == key {
                    assert(t[s.len() as int] == v);
                    assert(has_key(t, k));
                } else if old(self)@.contains_key(k) {
                    assert(removed.contains_key(k));
                    let j = choose|j: int| 0 <= j < s.len() && #[trigger] s[j].key_view() == k;
                    assert(t[j] == s[j]);
                    assert(has_key(t, k));
                }
            }
            assert forall|k: Seq<char>| #[trigger] seq_map(t).contains_key(k) implies seq_map(t)[k]
                == target[k] by {
                let j = choose|j: int| 0 <= j < t.len() && #[trigger] t[j].key_view() == k;
                lemma_seq_map_entry(t, j);
                if j < s.len() {
                    assert(t[j] == s[j]);
                    lemma_seq_map_entry(s, j);
                }
            }
            assert(seq_map(t) =~= target);
        }
    }

    /// Drops every entry that has expired at `now`.
    pub fn purge_expired(&mut self, now: UtcTime)
        requires
            old(self).wf(),
        ensures
            final(self).wf(),
            final(self)@ == live(old(self)@, now),
    {
        let mut rest: Vec<V> = Vec::new();
        std::mem::swap(&mut rest, &mut self.entries);
        let ghost orig = rest@;
        let mut kept: Vec<V> = Vec::new();
        let ghost mut src: Seq<int> = Seq::empty();
        while rest.len() > 0
            invariant
                unique_keys(orig),
                rest@.len() <= orig.len(),
                rest@ == orig.take(rest@.len() as int),
                unique_keys(kept@),
                src.len() == kept@.len(),
                forall|j: int|
                    #![trigger kept@[j]]
                    #![trigger src[j]]
                    0 <= j < kept@.len() ==> rest@.len() <= src[j] < orig.len() && kept@[j]
                        == orig[src[j]] && orig[src[j]].expiry().after(now),
                forall|i: int|
                    rest@.len() <= i < orig.len() && #[trigger] orig[i].expiry().after(now)
                        ==> exists|j: int| 0 <= j < kept@.len() && src[j] == i,
            decreases rest@.len(),
        {
            let ghost idx = rest@.len() - 1;
            let v = rest.pop().unwrap();
            assert(v == orig[idx]);
            assert(rest@ =~= orig.take(rest@.len() as int));
            if v.expires_at().is_after(&now) {
                let ghost before = kept@;
                let ghost src_before = src;
                kept.push(v);
                proof {
                    src = src.push(idx);
                    assert forall|j: int| 0 <= j < before.len() implies #[trigger] before[j].key_view()
                        != orig[idx].key_view() by {
                        assert(before[j] == kept@[j]);
                        assert(before[j] == orig[src_before[j]]);
                    }
                    assert(unique_keys(kept@)) by {
                        assert forall|a: int, b: int|
                            0 <= a < kept@.len() && 0 <= b < kept@.len() && a != b implies #[trigger] kept@[a].key_view()
                            != #[trigger] kept@[b].key_view() by {
                            if a < before.len() && b < before.len() {
                                assert(kept@[a] == before[a] && kept@[b] == before[b]);
                            } else if a < before.len() {
                                assert(kept@[a] == before[a]);
                            } else {
                                assert(kept@[b] == before[b]);
                            }
                        }
                    }
                    assert forall|j: int| #![trigger kept@[j]] #![trigger src[j]] 0 <= j < kept@.len() implies rest@.len() <= src[j]
                        < orig.len() && kept@[j] == orig[src[j]] && orig[src[j]].expiry().after(now) by {
                        let x = kept@[j];
                        if j < before.len() {
                            let y = before[j];
                            assert(kept@[j] == before[j]);
                            assert(src[j] == src_before[j]);
                        } else {
                            assert(src[j] == idx);
                            assert(kept@[j] == orig[idx]);
                        }
                    }
                    assert forall|i: int|
                        rest@.len() <= i < orig.len() && #[trigger] orig[i].expiry().after(now) implies exists|j: int| 0 <= j < kept@.len() && src[j] == i by {
                        if i > idx {
                            let j = choose|j: int| 0 <= j < before.len() && src_before[j] == i;
                            assert(src[j] == src_before[j]);
                        } else {
                            assert(src[before.len() as int] == i);
                        }
                    }
                }
            } else {
                proof {
                    assert forall|j: int| #![trigger kept@[j]] #![trigger src[j]] 0 <= j < kept@.len() implies rest@.len() <= src[j]
                        < orig.len() && kept@[j] == orig[src[j]] && orig[src[j]].expiry().after(now) by {
                        let x = kept@[j];
                        assert(idx < src[j] < orig.len());
                    }
                    assert forall|i: int|
                        rest@.len() <= i < orig.len() && #[trigger] orig[i].expiry().after(now) implies exists|j: int| 0 <= j < kept@.len() && src[j] == i by {
                        assert(i > idx);
                    }
                }
            }
        }
        proof {
            let m = seq_map(orig);
            let t = kept@;
            assert forall|k: Seq<char>| #[trigger] seq_map(t).contains_key(k) == live(m, now).contains_key(
                k,
            ) by {
                if has_key(t, k) {
                    let j = choose|j: int| 0 <= j < t.len() && #[trigger] t[j].key_view() == k;
                    assert(t[j] == kept@[j]);
                    lemma_seq_map_entry(orig, src[j]);
                }
                if m.contains_key(k) && m[k].expiry().after(now) {
                    let i = choose|i: int| 0 <= i < orig.len() && #[trigger] orig[i].key_view() == k;
                    lemma_seq_map_entry(orig, i);
                    assert(orig[i].expiry().after(now));
                    let j = choose|j: int| 0 <= j < t.len() && src[j] == i;
                    assert(t[j] == kept@[j]);
                    assert(t[j].key_view() == k);
                    assert(has_key(t, k));
                }
            }
            assert forall|k: Seq<char>| #[trigger] seq_map(t).contains_key(k) implies seq_map(t)[k]
                == live(m, now)[k] by {
                let j = choose|j: int| 0 <= j < t.len() && #[trigger] t[j].key_view() == k;
                lemma_seq_map_entry(t, j);
                assert(t[j] == kept@[j]);
                lemma_seq_map_entry(orig, src[j]);
            }
            assert(seq_map(t) =~= live(m, now));
        }
        self.entries = kept;
    }
}

} // verus!
