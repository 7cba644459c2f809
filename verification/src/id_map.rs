//! A map from identifiers to values that keeps the order of insertion.

use crate::text::same_text;
use vstd::prelude::*;

verus! {

/// Values found by an identifier. An identifier occurs once.
#[derive(Debug)]
pub struct IdMap<V> {
    entries: Vec<(String, V)>,
}

/// No identifier occurs twice.
spec fn distinct<V>(s: Seq<(String, V)>) -> bool {
    forall|i: int, j: int| 0 <= i < j < s.len() ==> (#[trigger] s[i]).0@ != (#[trigger] s[j]).0@
}

spec fn has_key<V>(s: Seq<(String, V)>, k: Seq<char>) -> bool {
    exists|i: int| 0 <= i < s.len() && (#[trigger] s[i]).0@ == k
}

spec fn place<V>(s: Seq<(String, V)>, k: Seq<char>) -> int {
    choose|i: int| 0 <= i < s.len() && (#[trigger] s[i]).0@ == k
}

spec fn as_map<V>(s: Seq<(String, V)>) -> Map<Seq<char>, V> {
    Map::new(|k: Seq<char>| has_key(s, k), |k: Seq<char>| s[place(s, k)].1)
}

proof fn lemma_at<V>(s: Seq<(String, V)>, i: int)
    requires
        distinct(s),
        0 <= i < s.len(),
    ensures
        as_map(s).contains_key(s[i].0@),
        as_map(s)[s[i].0@] == s[i].1,
{
    let k = s[i].0@;
    assert(has_key(s, k));
    let p = place(s, k);
    assert(0 <= p < s.len() && s[p].0@ == k);
    if p < i {
        assert(s[p].0@ != s[i].0@);
    }
    if i < p {
        assert(s[i].0@ != s[p].0@);
    }
}

proof fn lemma_push<V>(s: Seq<(String, V)>, k: String, v: V)
    requires
        distinct(s),
        !has_key(s, k@),
    ensures
        distinct(s.push((k, v))),
        as_map(s.push((k, v))) == as_map(s).insert(k@, v),
{
    let t = s.push((k, v));
    assert forall|i: int, j: int| 0 <= i < j < t.len() implies (#[trigger] t[i]).0@ != (
    #[trigger] t[j]).0@ by {
        if j == s.len() {
            assert(s[i].0@ != k@);
        }
    }
    lemma_at(t, s.len() as int);
    assert forall|q: Seq<char>| q != k@ implies has_key(t, q) == has_key(s, q) && (has_key(s, q)
        ==> as_map(t)[q] == as_map(s)[q]) by {
        if has_key(s, q) {
            let i = place(s, q);
            assert(t[i].0@ == q);
            lemma_at(s, i);
            lemma_at(t, i);
        }
        if has_key(t, q) {
            let i = place(t, q);
            assert(s[i].0@ == q);
        }
    }
    assert(as_map(t) =~= as_map(s).insert(k@, v));
}

proof fn lemma_remove<V>(s: Seq<(String, V)>, p: int)
    requires
        distinct(s),
        0 <= p < s.len(),
    ensures
        distinct(s.remove(p)),
        as_map(s.remove(p)) == as_map(s).remove(s[p].0@),
{
    let t = s.remove(p);
    let k = s[p].0@;
    assert forall|i: int, j: int| 0 <= i < j < t.len() implies (#[trigger] t[i]).0@ != (
    #[trigger] t[j]).0@ by {
        let a = if i < p {
            i
        } else {
            i + 1
        };
        let b = if j < p {
            j
        } else {
            j + 1
        };
        assert(s[a].0@ != s[b].0@);
    }
    assert forall|q: Seq<char>| has_key(t, q) == (q != k && has_key(s, q)) && (has_key(t, q)
        ==> as_map(t)[q] == as_map(s)[q]) by {
        if has_key(t, q) {
            let i = place(t, q);
            let a = if i < p {
                i
            } else {
                i + 1
            };
            assert(s[a] == t[i]);
            assert(s[a].0@ == q);
            if a < p {
                assert(s[a].0@ != s[p].0@);
            } else {
                assert(s[p].0@ != s[a].0@);
            }
            lemma_at(s, a);
            lemma_at(t, i);
        }
        if q != k && has_key(s, q) {
            let a = place(s, q);
            let i = if a < p {
                a
            } else {
                a - 1
            };
            assert(t[i] == s[a]);
            assert(t[i].0@ == q);
        }
    }
    assert(as_map(t) =~= as_map(s).remove(k));
}

spec fn key_seq<V>(s: Seq<(String, V)>) -> Seq<Seq<char>> {
    Seq::new(s.len(), |i: int| s[i].0@)
}

proof fn lemma_size<V>(s: Seq<(String, V)>)
    requires
        distinct(s),
    ensures
        as_map(s).dom().finite(),
        as_map(s).dom().len() == s.len(),
        key_seq(s).no_duplicates(),
        key_seq(s).to_set() == as_map(s).dom(),
{
    let ks = key_seq(s);
    assert(ks.no_duplicates()) by {
        assert forall|i: int, j: int| 0 <= i < ks.len() && 0 <= j < ks.len() && i != j implies ks[i]
            != ks[j] by {
            if i < j {
                assert(s[i].0@ != s[j].0@);
            } else {
                assert(s[j].0@ != s[i].0@);
            }
        }
    }
    assert forall|q: Seq<char>| ks.to_set().contains(q) == as_map(s).dom().contains(q) by {
        if ks.contains(q) {
            let i = choose|i: int| 0 <= i < ks.len() && ks[i] == q;
            assert(s[i].0@ == q);
        }
        if has_key(s, q) {
            let i = place(s, q);
            assert(ks[i] == q);
        }
    }
    assert(ks.to_set() =~= as_map(s).dom());
    ks.unique_seq_to_set();
    vstd::seq_lib::seq_to_set_is_finite(ks);
}

proof fn lemma_remove_key<V>(s: Seq<(String, V)>, p: int)
    requires
        distinct(s),
        0 <= p < s.len(),
    ensures
        key_seq(s.remove(p)) == key_seq(s).remove_value(s[p].0@),
{
    let ks = key_seq(s);
    lemma_size(s);
    assert(ks[p] == s[p].0@);
    ks.index_of_first_ensures(s[p].0@);
    let i = ks.index_of_first(s[p].0@)->0;
    assert(ks[i] == ks[p]);
    assert(i == p);
    assert(key_seq(s.remove(p)) =~= ks.remove(p));
}

impl<V> View for IdMap<V> {
    type V = Map<Seq<char>, V>;

    closed spec fn view(&self) -> Map<Seq<char>, V> {
        as_map(self.entries@)
    }
}

impl<V> IdMap<V> {
    #[verifier::type_invariant]
    spec fn inv(self) -> bool {
        distinct(self.entries@)
    }

    /// The identifiers, in the order in which they were inserted.
    pub closed spec fn keys(&self) -> Seq<Seq<char>> {
        key_seq(self.entries@)
    }

    /// A map without entries.
    pub fn new() -> (res: Self)
        ensures
            res@ == Map::<Seq<char>, V>::empty(),
            res.keys() == Seq::<Seq<char>>::empty(),
    {
        let entries: Vec<(String, V)> = Vec::new();
        let res = IdMap { entries };
        assert(res@ =~= Map::<Seq<char>, V>::empty());
        res
    }

    /// The number of entries. The identifiers in `keys` are those of the map,
    /// each of them once.
    pub fn len(&self) -> (res: usize)
        ensures
            res == self@.dom().len(),
            res == self.keys().len(),
            self@.dom().finite(),
            self.keys().no_duplicates(),
            self.keys().to_set() == self@.dom(),
    {
        proof {
            use_type_invariant(self);
            lemma_size(self.entries@);
        }
        self.entries.len()
    }

    /// True when the map has no entry.
    pub fn is_empty(&self) -> (res: bool)
        ensures
            res == (self@ == Map::<Seq<char>, V>::empty()),
            res == (self@.dom().len() == 0),
            self@.dom().finite(),
    {
        let n = self.len();
        proof {
            if n == 0 {
                assert(self@ =~= Map::<Seq<char>, V>::empty());
            } else {
                assert(self.keys().to_set().contains(self.keys()[0]));
                assert(self@.dom().contains(self.keys()[0]));
            }
        }
        n == 0
    }

    fn find(&self, key: &str) -> (res: Option<usize>)
        ensures
            match res {
                Some(i) => i < self.entries@.len() && self.entries@[i as int].0@ == key@,
                None => !has_key(self.entries@, key@),
            },
    {
        let mut i: usize = 0;
        while i < self.entries.len()
            invariant
                i <= self.entries@.len(),
                forall|j: int| 0 <= j < i ==> (#[trigger] self.entries@[j]).0@ != key@,
            decreases self.entries@.len() - i,
        {
            if same_text(self.entries[i].0.as_str(), key) {
                return Some(i);
            }
            i = i + 1;
        }
        None
    }

    /// True when `key` has a value.
    pub fn contains_key(&self, key: &str) -> (res: bool)
        ensures
            res == self@.contains_key(key@),
    {
        self.find(key).is_some()
    }

    /// The value of `key`.
    pub fn get(&self, key: &str) -> (res: Option<&V>)
        ensures
            match res {
                Some(v) => self@.contains_key(key@) && *v == self@[key@],
                None => !self@.contains_key(key@),
            },
    {
        match self.find(key) {
            Some(i) => {
                proof {
                    use_type_invariant(self);
                    lemma_at(self.entries@, i as int);
                }
                Some(&self.entries[i].1)
            },
            None => None,
        }
    }

    /// Takes `key` and its value out.
    pub fn remove(&mut self, key: &str) -> (res: Option<V>)
        ensures
            final(self)@ == old(self)@.remove(key@),
            final(self).keys() == old(self).keys().remove_value(key@),
            match res {
                Some(v) => old(self)@.contains_key(key@) && v == old(self)@[key@],
                None => !old(self)@.contains_key(key@),
            },
    {
        proof {
            use_type_invariant(&*self);
        }
        match self.find(key) {
            Some(i) => {
                let mut entries: Vec<(String, V)> = Vec::new();
                std::mem::swap(&mut entries, &mut self.entries);
                proof {
                    lemma_at(entries@, i as int);
                    lemma_remove(entries@, i as int);
                    lemma_remove_key(entries@, i as int);
                }
                let (_, value) = entries.remove(i);
                self.entries = entries;
                Some(value)
            },
            None => {
                proof {
                    assert(self@ =~= self@.remove(key@));
                    let ks = self.keys();
                    ks.index_of_first_ensures(key@);
                    if ks.contains(key@) {
                        let j = choose|j: int| 0 <= j < ks.len() && ks[j] == key@;
                        assert(self.entries@[j].0@ == key@);
                    }
                }
                None
            },
        }
    }

    /// Gives `key` the value `value`, in place of the one it had. It is the
    /// last in the order now.
    pub fn insert(&mut self, key: String, value: V)
        ensures
            final(self)@ == old(self)@.insert(key@, value),
            final(self).keys() == old(self).keys().remove_value(key@).push(key@),
    {
        let ghost before = self@;
        self.remove(key.as_str());
        proof {
            use_type_invariant(&*self);
            assert(!self@.contains_key(key@));
        }
        let mut entries: Vec<(String, V)> = Vec::new();
        std::mem::swap(&mut entries, &mut self.entries);
        proof {
            lemma_push(entries@, key, value);
        }
        entries.push((key, value));
        self.entries = entries;
        assert(self@ =~= before.insert(key@, value));
    }

    /// The identifier at place `i`.
    pub fn key_at(&self, i: usize) -> (res: &String)
        requires
            i < self.keys().len(),
        ensures
            res@ == self.keys()[i as int],
            self@.contains_key(res@),
    {
        proof {
            use_type_invariant(self);
            lemma_at(self.entries@, i as int);
        }
        &self.entries[i].0
    }

    /// The value at place `i`.
    pub fn value_at(&self, i: usize) -> (res: &V)
        requires
            i < self.keys().len(),
        ensures
            self@.contains_key(self.keys()[i as int]),
            *res == self@[self.keys()[i as int]],
    {
        proof {
            use_type_invariant(self);
            lemma_at(self.entries@, i as int);
        }
        &self.entries[i].1
    }
}

impl<V: Clone> Clone for IdMap<V> {
    fn clone(&self) -> (res: Self)
        ensures
            res.keys() == self.keys(),
            res@.dom() == self@.dom(),
            forall|k: Seq<char>| #[trigger]
                self@.contains_key(k) ==> cloned::<V>(self@[k], res@[k]),
    {
        proof {
            use_type_invariant(self);
        }
        let mut entries: Vec<(String, V)> = Vec::new();
        let mut i: usize = 0;
        while i < self.entries.len()
            invariant
                i <= self.entries@.len(),
                entries@.len() == i,
                forall|j: int|
                    0 <= j < i ==> (#[trigger] entries@[j]).0@ == self.entries@[j].0@ && cloned::<V>(
                        self.entries@[j].1,
                        entries@[j].1,
                    ),
            decreases self.entries@.len() - i,
        {
            entries.push((self.entries[i].0.clone(), self.entries[i].1.clone()));
            i = i + 1;
        }
        proof {
            let s = self.entries@;
            let t = entries@;
            assert forall|a: int, b: int| 0 <= a < b < t.len() implies (#[trigger] t[a]).0@ != (
            #[trigger] t[b]).0@ by {
                assert(s[a].0@ != s[b].0@);
            }
            assert forall|k: Seq<char>| has_key(s, k) == has_key(t, k) && (has_key(s, k)
                ==> cloned::<V>(as_map(s)[k], as_map(t)[k])) by {
                if has_key(s, k) {
                    let a = place(s, k);
                    assert(t[a].0@ == k);
                    lemma_at(s, a);
                    lemma_at(t, a);
                }
                if has_key(t, k) {
                    let a = place(t, k);
                    assert(s[a].0@ == k);
                }
            }
            assert(as_map(s).dom() =~= as_map(t).dom());
            assert(key_seq(s) =~= key_seq(t));
        }
        IdMap { entries }
    }
}

} // verus!
