//! Lookup over string-keyed association lists.
//!
//! Scene-keyed data is held as a `Vec` of `(key, value)` pairs whose keys are
//! pairwise distinct, which is the view a hash map offers minus the hashing.

use vstd::prelude::*;

verus! {

/// No two entries share a key.
pub open spec fn keys_distinct<V>(s: Seq<(String, V)>) -> bool {
    forall|i: int, j: int| 0 <= i < j < s.len() ==> s[i].0@ != s[j].0@
}

/// Some entry is keyed by `k`.
pub open spec fn has_key<V>(s: Seq<(String, V)>, k: Seq<char>) -> bool {
    exists|i: int| 0 <= i < s.len() && s[i].0@ == k
}

/// Position of the first entry keyed by `k`.
pub fn find_key<V>(s: &Vec<(String, V)>, k: &str) -> (r: Option<usize>)
    ensures
        match r {
            Some(i) => i < s@.len() && s@[i as int].0@ == k@ && forall|j: int|
                0 <= j < i ==> s@[j].0@ != k@,
            None => !has_key(s@, k@),
        },
{
    let key = k.to_owned();
    let mut i: usize = 0;
    while i < s.len()
        invariant
            i <= s@.len(),
            key@ == k@,
            forall|j: int| 0 <= j < i ==> s@[j].0@ != k@,
        decreases s@.len() - i,
    {
        if s[i].0 == key {
            return Some(i);
        }
        i = i + 1;
    }
    None
}

/// Whether `items` holds a string equal to `k`.
pub fn contains_text(items: &Vec<String>, k: &str) -> (r: bool)
    ensures
        r == exists|i: int| 0 <= i < items@.len() && items@[i]@ == k@,
{
    let key = k.to_owned();
    let mut i: usize = 0;
    while i < items.len()
        invariant
            i <= items@.len(),
            key@ == k@,
            forall|j: int| 0 <= j < i ==> items@[j]@ != k@,
        decreases items@.len() - i,
    {
        if items[i] == key {
            return true;
        }
        i = i + 1;
    }
    false
}

/// Views of a list of strings.
pub open spec fn views(items: Seq<String>) -> Seq<Seq<char>> {
    items.map_values(|s: String| s@)
}

} // verus!

verus! {

/// Element-wise copy of a list of strings.
pub fn clone_strings(v: &Vec<String>) -> (r: Vec<String>)
    ensures
        r@ == v@,
{
    let mut r: Vec<String> = Vec::new();
    let mut i: usize = 0;
    while i < v.len()
        invariant
            i <= v@.len(),
            r@ == v@.take(i as int),
        decreases v@.len() - i,
    {
        r.push(v[i].clone());
        assert(v@.take(i as int).push(v@[i as int]) =~= v@.take(i + 1));
        i = i + 1;
    }
    assert(v@.take(v@.len() as int) =~= v@);
    r
}

} // verus!

verus! {

/// Index of the entry keyed by `k`.
pub open spec fn key_index<V>(s: Seq<(String, V)>, k: Seq<char>) -> int {
    choose|i: int| 0 <= i < s.len() && s[i].0@ == k
}

/// A map from strings to values, kept as a list of distinct-key entries in
/// insertion order.
#[verifier::reject_recursive_types(V)]
#[derive(Debug)]
pub struct StrMap<V> {
    entries: Vec<(String, V)>,
}

impl<V> View for StrMap<V> {
    type V = Map<Seq<char>, V>;

    closed spec fn view(&self) -> Map<Seq<char>, V> {
        Map::new(
            |k: Seq<char>| has_key(self.entries@, k),
            |k: Seq<char>| self.entries@[key_index(self.entries@, k)].1,
        )
    }
}

impl<V> StrMap<V> {
    #[verifier::type_invariant]
    spec fn distinct(self) -> bool {
        keys_distinct(self.entries@)
    }

    /// The entries, in insertion order.
    pub closed spec fn entry_seq(self) -> Seq<(String, V)> {
        self.entries@
    }

    /// An empty map.
    pub fn new() -> (m: StrMap<V>)
        ensures
            m@ == Map::<Seq<char>, V>::empty(),
            m.entry_seq().len() == 0,
    {
        let m = StrMap { entries: Vec::new() };
        assert(m@ =~= Map::<Seq<char>, V>::empty());
        m
    }

    proof fn lemma_entries_match_view(self)
        requires
            keys_distinct(self.entries@),
        ensures
            keys_distinct(self.entry_seq()),
            forall|k: Seq<char>| #[trigger] self@.contains_key(k) <==> has_key(self.entry_seq(), k),
            forall|i: int| 0 <= i < self.entry_seq().len() ==> #[trigger] self@[self.entry_seq()[i].0@] == self.entry_seq()[i].1,
    {
        assert forall|i: int| 0 <= i < self.entries@.len() implies #[trigger] self@[self.entries@[i].0@] == self.entries@[i].1 by {
            assert(has_key(self.entries@, self.entries@[i].0@));
        }
    }

    /// The entries, in insertion order; their keys are distinct and they are
    /// exactly the map's contents.
    pub fn entries(&self) -> (e: &Vec<(String, V)>)
        ensures
            e@ == self.entry_seq(),
            keys_distinct(e@),
            forall|k: Seq<char>| #[trigger] self@.contains_key(k) <==> has_key(e@, k),
            forall|i: int| 0 <= i < e@.len() ==> #[trigger] self@[e@[i].0@] == e@[i].1,
    {
        proof {
            use_type_invariant(self);
            self.lemma_entries_match_view();
        }
        &self.entries
    }

    /// Number of keys.
    pub fn len(&self) -> (n: usize)
        ensures
            n == self.entry_seq().len(),
            n == self@.dom().len(),
    {
        proof {
            use_type_invariant(self);
            lemma_distinct_len(self.entries@);
        }
        self.entries.len()
    }

    /// The value stored for `k`.
    pub fn get(&self, k: &str) -> (r: Option<&V>)
        ensures
            match r {
                Some(v) => self@.contains_key(k@) && *v == self@[k@],
                None => !self@.contains_key(k@),
            },
    {
        proof {
            use_type_invariant(self);
        }
        match find_key(&self.entries, k) {
            Some(i) => {
                proof {
                    assert(has_key(self.entries@, k@));
                }
                Some(&self.entries[i].1)
            },
            None => None,
        }
    }

    /// Whether `k` has a value.
    pub fn contains_key(&self, k: &str) -> (b: bool)
        ensures
            b == self@.contains_key(k@),
    {
        proof {
            use_type_invariant(self);
        }
        find_key(&self.entries, k).is_some()
    }

    /// Store `v` for `k`, replacing any earlier value in place; a new key goes
    /// last.
    pub fn insert(&mut self, k: String, v: V)
        ensures
            final(self)@ == old(self)@.insert(k@, v),
    {
        proof {
            use_type_invariant(&*self);
        }
        let ghost kv = k@;
        let ghost before = self.entries@;
        let mut entries = Vec::new();
        std::mem::swap(&mut entries, &mut self.entries);
        let ghost mut idx: int = 0;
        match find_key(&entries, k.as_str()) {
            Some(i) => {
                entries.set(i, (k, v));
                proof {
                    idx = i as int;
                    assert forall|a: int, b: int| 0 <= a < b < entries@.len() implies entries@[a].0@ != entries@[b].0@ by {
                        if a != i as int {
                            assert(entries@[a] == before[a]);
                        }
                        if b != i as int {
                            assert(entries@[b] == before[b]);
                        }
                    }
                }
            },
            None => {
                entries.push((k, v));
                proof {
                    idx = before.len() as int;
                    assert forall|a: int, b: int| 0 <= a < b < entries@.len() implies entries@[a].0@ != entries@[b].0@ by {
                        assert(entries@[a] == before[a]);
                        if b < before.len() {
                            assert(entries@[b] == before[b]);
                        }
                    }
                }
            },
        }
        self.entries = entries;
        proof {
            let old_map = Map::new(
                |q: Seq<char>| has_key(before, q),
                |q: Seq<char>| before[key_index(before, q)].1,
            );
            assert(old_map == old(self)@);
            assert forall|q: Seq<char>| #[trigger] self@.contains_key(q) == old_map.insert(kv, v).contains_key(q) by {
                if q != kv && has_key(before, q) {
                    let w = choose|w: int| 0 <= w < before.len() && before[w].0@ == q;
                    assert(self.entries@[w] == before[w]);
                }
                if q != kv && has_key(self.entries@, q) {
                    let w = choose|w: int| 0 <= w < self.entries@.len() && self.entries@[w].0@ == q;
                    assert(before[w] == self.entries@[w]);
                }
                if q == kv {
                    assert(self.entries@[idx].0@ == q);
                }
            }
            assert forall|q: Seq<char>| #[trigger] self@.contains_key(q) implies self@[q] == old_map.insert(kv, v)[q] by {
                let w = key_index(self.entries@, q);
                if q == kv {
                    assert(w == idx);
                } else {
                    let w2 = key_index(before, q);
                    assert(self.entries@[w2] == before[w2]);
                }
            }
            assert(self@ =~= old_map.insert(kv, v));
        }
    }

    /// Remove the value for `k`, handing it back if there was one.
    pub fn remove(&mut self, k: &str) -> (r: Option<V>)
        ensures
            final(self)@ == old(self)@.remove(k@),
            match r {
                Some(v) => old(self)@.contains_key(k@) && v == old(self)@[k@],
                None => !old(self)@.contains_key(k@),
            },
    {
        proof {
            use_type_invariant(&*self);
        }
        let ghost before = self.entries@;
        match find_key(&self.entries, k) {
            None => {
                assert(self@ =~= old(self)@.remove(k@));
                None
            },
            Some(i) => {
                let mut entries = Vec::new();
                std::mem::swap(&mut entries, &mut self.entries);
                let (_key, value) = entries.remove(i);
                proof {
                    assert forall|a: int, b: int| 0 <= a < b < entries@.len() implies entries@[a].0@ != entries@[b].0@ by {
                        let a2 = if a < i { a } else { a + 1 };
                        let b2 = if b < i { b } else { b + 1 };
                        assert(entries@[a] == before[a2]);
                        assert(entries@[b] == before[b2]);
                    }
                }
                self.entries = entries;
                proof {
                    assert(has_key(before, k@));
                    assert(key_index(before, k@) == i as int);
                    let old_map = old(self)@;
                    assert forall|q: Seq<char>| #[trigger] self@.contains_key(q) == old_map.remove(k@).contains_key(q) by {
                        if has_key(self.entries@, q) {
                            let w = choose|w: int| 0 <= w < self.entries@.len() && self.entries@[w].0@ == q;
                            let w2 = if w < i { w } else { w + 1 };
                            assert(self.entries@[w] == before[w2]);
                            assert(has_key(before, q));
                        }
                        if q != k@ && has_key(before, q) {
                            let w = choose|w: int| 0 <= w < before.len() && before[w].0@ == q;
                            let w2 = if w < i { w } else { w - 1 };
                            assert(self.entries@[w2] == before[w]);
                        }
                    }
                    assert forall|q: Seq<char>| #[trigger] self@.contains_key(q) implies self@[q] == old_map.remove(k@)[q] by {
                        let w = key_index(self.entries@, q);
                        let w2 = if w < i { w } else { w + 1 };
                        assert(self.entries@[w] == before[w2]);
                        assert(key_index(before, q) == w2);
                    }
                    assert(self@ =~= old_map.remove(k@));
                }
                Some(value)
            },
        }
    }
}

/// Distinct keys: the key set has as many members as there are entries.
pub proof fn lemma_distinct_len<V>(s: Seq<(String, V)>)
    requires
        keys_distinct(s),
    ensures
        Set::new(|k: Seq<char>| has_key(s, k)).len() == s.len(),
        Set::new(|k: Seq<char>| has_key(s, k)).finite(),
    decreases s.len(),
{
    let ks = Set::new(|k: Seq<char>| has_key(s, k));
    if s.len() == 0 {
        assert(ks =~= Set::empty());
    } else {
        let p = s.drop_last();
        lemma_distinct_len(p);
        let kp = Set::new(|k: Seq<char>| has_key(p, k));
        assert forall|k: Seq<char>| ks.contains(k) == kp.insert(s.last().0@).contains(k) by {
            if has_key(p, k) {
                let w = choose|w: int| 0 <= w < p.len() && p[w].0@ == k;
                assert(s[w] == p[w]);
            }
            if ks.contains(k) && k != s.last().0@ {
                let w = choose|w: int| 0 <= w < s.len() && s[w].0@ == k;
                assert(p[w] == s[w]);
            }
        }
        assert(ks =~= kp.insert(s.last().0@));
        assert(!kp.contains(s.last().0@)) by {
            if kp.contains(s.last().0@) {
                let w = choose|w: int| 0 <= w < p.len() && p[w].0@ == s.last().0@;
                assert(s[w] == p[w]);
            }
        }
    }
}

} // verus!

verus! {

/// `s` with every repeated element after its first occurrence dropped.
pub open spec fn dedup(s: Seq<Seq<char>>) -> Seq<Seq<char>>
    decreases s.len(),
{
    if s.len() == 0 {
        Seq::empty()
    } else {
        let d = dedup(s.drop_last());
        if d.contains(s.last()) {
            d
        } else {
            d.push(s.last())
        }
    }
}

/// Deduplicating keeps exactly the elements of the input, once each.
pub proof fn lemma_dedup_contains(s: Seq<Seq<char>>)
    ensures
        forall|x: Seq<char>| #[trigger] dedup(s).contains(x) <==> s.contains(x),
        dedup(s).no_duplicates(),
    decreases s.len(),
{
    if s.len() > 0 {
        lemma_dedup_contains(s.drop_last());
        let d = dedup(s.drop_last());
        assert forall|x: Seq<char>| #[trigger] dedup(s).contains(x) <==> s.contains(x) by {
            if s.contains(x) && x != s.last() {
                let i = choose|i: int| 0 <= i < s.len() && s[i] == x;
                assert(s.drop_last()[i] == x);
            }
            if s.drop_last().contains(x) {
                let i = choose|i: int| 0 <= i < s.drop_last().len() && s.drop_last()[i] == x;
                assert(s[i] == x);
            }
            if !d.contains(s.last()) && dedup(s).contains(x) && x != s.last() {
                let i = choose|i: int| 0 <= i < d.push(s.last()).len() && d.push(s.last())[i] == x;
                assert(d[i] == x);
            }
            if !d.contains(s.last()) && d.contains(x) {
                let i = choose|i: int| 0 <= i < d.len() && d[i] == x;
                assert(d.push(s.last())[i] == x);
            }
            if !d.contains(s.last()) && x == s.last() {
                assert(d.push(s.last())[d.len() as int] == x);
            }
        }
    }
}

/// Copy a list of strings, dropping repeats after their first occurrence.
pub fn dedup_strings(v: &Vec<String>) -> (r: Vec<String>)
    ensures
        views(r@) == dedup(views(v@)),
{
    let ghost vs = views(v@);
    let mut r: Vec<String> = Vec::new();
    let mut i: usize = 0;
    while i < v.len()
        invariant
            i <= v@.len(),
            vs == views(v@),
            views(r@) == dedup(vs.take(i as int)),
        decreases v@.len() - i,
    {
        proof {
            assert(vs.take(i + 1).drop_last() =~= vs.take(i as int));
            assert(vs.take(i + 1).last() == v@[i as int]@);
        }
        if !contains_text(&r, v[i].as_str()) {
            proof {
                assert(!views(r@).contains(v@[i as int]@)) by {
                    if views(r@).contains(v@[i as int]@) {
                        let j = choose|j: int| 0 <= j < views(r@).len() && views(r@)[j] == v@[i as int]@;
                        assert(r@[j]@ == v@[i as int]@);
                    }
                }
            }
            r.push(v[i].clone());
            assert(views(r@) =~= dedup(vs.take(i as int)).push(v@[i as int]@));
        } else {
            proof {
                let j = choose|j: int| 0 <= j < r@.len() && r@[j]@ == v@[i as int]@;
                assert(views(r@)[j] == v@[i as int]@);
            }
        }
        i = i + 1;
    }
    assert(vs.take(v@.len() as int) =~= vs);
    r
}

/// Whether two string lists hold the same texts in the same order.
pub fn same_strings(a: &Vec<String>, b: &Vec<String>) -> (r: bool)
    ensures
        r == (views(a@) == views(b@)),
{
    if a.len() != b.len() {
        proof {
            assert(views(a@).len() != views(b@).len());
        }
        return false;
    }
    let mut i: usize = 0;
    while i < a.len()
        invariant
            i <= a@.len(),
            a@.len() == b@.len(),
            forall|j: int| 0 <= j < i ==> a@[j]@ == b@[j]@,
        decreases a@.len() - i,
    {
        if a[i] != b[i] {
            proof {
                assert(views(a@)[i as int] != views(b@)[i as int]);
            }
            return false;
        }
        i = i + 1;
    }
    assert(views(a@) =~= views(b@));
    true
}

} // verus!
