//! A map from names to values, held in the order of the names.

use vstd::prelude::*;

use crate::order::is_increasing;
use crate::order::lemma_increasing_distinct;
use crate::order::lemma_sorted_names;
use crate::order::lemma_text_lt_total;
use crate::order::lemma_text_lt_transitive;
use crate::order::sorted_names;
use crate::order::text_before;
use crate::order::text_lt;
use crate::text::same;

verus! {

#[derive(Debug)]
#[verifier::reject_recursive_types(V)]
pub struct TextMap<V> {
    entries: Vec<(String, V)>,
}

spec fn names_of<V>(e: Seq<(String, V)>) -> Seq<Seq<char>> {
    Seq::new(e.len(), |i: int| e[i].0@)
}

spec fn has_name<V>(e: Seq<(String, V)>, key: Seq<char>) -> bool {
    exists|i: int| 0 <= i < e.len() && (#[trigger] e[i]).0@ == key
}

/// The value of the first entry with the name.
spec fn value_of<V>(e: Seq<(String, V)>, key: Seq<char>) -> V
    decreases e.len(),
{
    if e.len() == 0 {
        arbitrary()
    } else if e[0].0@ == key {
        e[0].1
    } else {
        value_of(e.drop_first(), key)
    }
}

spec fn as_map<V>(e: Seq<(String, V)>) -> Map<Seq<char>, V> {
    Map::new(|key: Seq<char>| has_name(e, key), |key: Seq<char>| value_of(e, key))
}

proof fn lemma_value_at<V>(e: Seq<(String, V)>, i: int)
    requires
        is_increasing(names_of(e)),
        0 <= i < e.len(),
    ensures
        has_name(e, e[i].0@),
        value_of(e, e[i].0@) == e[i].1,
    decreases e.len(),
{
    if i > 0 {
        lemma_increasing_distinct(names_of(e));
        assert(names_of(e)[0] != names_of(e)[i]);
        let t = e.drop_first();
        assert forall|a: int, b: int| 0 <= a < b < t.len() implies text_lt(
            #[trigger] names_of(t)[a],
            #[trigger] names_of(t)[b],
        ) by {
            assert(text_lt(names_of(e)[a + 1], names_of(e)[b + 1]));
        }
        lemma_value_at(t, i - 1);
    }
}

proof fn lemma_remove<V>(e: Seq<(String, V)>, i: int)
    requires
        is_increasing(names_of(e)),
        0 <= i < e.len(),
    ensures
        is_increasing(names_of(e.remove(i))),
        as_map(e.remove(i)) == as_map(e).remove(e[i].0@),
{
    let r = e.remove(i);
    let n = names_of(e);
    lemma_increasing_distinct(n);
    assert forall|a: int, b: int| 0 <= a < b < r.len() implies text_lt(
        #[trigger] names_of(r)[a],
        #[trigger] names_of(r)[b],
    ) by {
        let a2 = if a < i {
            a
        } else {
            a + 1
        };
        let b2 = if b < i {
            b
        } else {
            b + 1
        };
        assert(text_lt(n[a2], n[b2]));
    }
    let m = as_map(e).remove(e[i].0@);
    assert forall|key: Seq<char>| as_map(r).dom().contains(key) <==> m.dom().contains(key) by {
        if has_name(r, key) {
            let k = choose|k: int| 0 <= k < r.len() && (#[trigger] r[k]).0@ == key;
            let k2 = if k < i {
                k
            } else {
                k + 1
            };
            assert(e[k2].0@ == key);
            assert(n[k2] != n[i]);
        }
        if has_name(e, key) && key != e[i].0@ {
            let k = choose|k: int| 0 <= k < e.len() && (#[trigger] e[k]).0@ == key;
            let k2 = if k < i {
                k
            } else {
                k - 1
            };
            assert(r[k2].0@ == key);
        }
    }
    assert forall|key: Seq<char>| as_map(r).dom().contains(key) implies as_map(r)[key] == m[key] by {
        assert(m.dom().contains(key));
        let k = choose|k: int| 0 <= k < r.len() && (#[trigger] r[k]).0@ == key;
        let k2 = if k < i {
            k
        } else {
            k + 1
        };
        assert(e[k2].0@ == key);
        lemma_value_at(r, k);
        lemma_value_at(e, k2);
    }
    assert(as_map(r) =~= m);
}

proof fn lemma_insert<V>(e: Seq<(String, V)>, i: int, x: (String, V))
    requires
        is_increasing(names_of(e)),
        0 <= i <= e.len(),
        forall|k: int| 0 <= k < i ==> text_lt((#[trigger] e[k]).0@, x.0@),
        forall|k: int| i <= k < e.len() ==> text_lt(x.0@, (#[trigger] e[k]).0@),
    ensures
        is_increasing(names_of(e.insert(i, x))),
        as_map(e.insert(i, x)) == as_map(e).insert(x.0@, x.1),
{
    let s = e.insert(i, x);
    let n = names_of(e);
    assert forall|a: int, b: int| 0 <= a < b < s.len() implies text_lt(
        #[trigger] names_of(s)[a],
        #[trigger] names_of(s)[b],
    ) by {
        let a2 = if a < i {
            a
        } else {
            a - 1
        };
        let b2 = if b < i {
            b
        } else {
            b - 1
        };
        if a != i && b != i {
            assert(text_lt(n[a2], n[b2]));
        } else if a == i {
            assert(text_lt(x.0@, e[b2].0@));
        } else {
            assert(text_lt(e[a2].0@, x.0@));
        }
    }
    lemma_remove(s, i);
    assert(s.remove(i) =~= e);
    lemma_value_at(s, i);
    assert(as_map(s) =~= as_map(e).insert(x.0@, x.1));
}

impl<V> TextMap<V> {
    pub closed spec fn view(&self) -> Map<Seq<char>, V> {
        as_map(self.entries@)
    }

    /// The names in order.
    pub closed spec fn names(&self) -> Seq<Seq<char>> {
        names_of(self.entries@)
    }

    #[verifier::type_invariant]
    spec fn in_order(self) -> bool {
        is_increasing(names_of(self.entries@))
    }

    pub fn new() -> (r: Self)
        ensures
            r@ == Map::<Seq<char>, V>::empty(),
    {
        let r = TextMap { entries: Vec::new() };
        assert(r@ =~= Map::<Seq<char>, V>::empty());
        r
    }

    fn position(entries: &Vec<(String, V)>, key: &str) -> (r: Option<usize>)
        ensures
            match r {
                Some(i) => i < entries@.len() && entries@[i as int].0@ == key@,
                None => !has_name(entries@, key@),
            },
    {
        let mut i: usize = 0;
        while i < entries.len()
            invariant
                i <= entries@.len(),
                forall|j: int| 0 <= j < i ==> (#[trigger] entries@[j]).0@ != key@,
            decreases entries.len() - i,
        {
            if same(entries[i].0.as_str(), key) {
                return Some(i);
            }
            i = i + 1;
        }
        None
    }

    pub fn get(&self, key: &str) -> (r: Option<&V>)
        ensures
            match r {
                Some(v) => self@.dom().contains(key@) && *v == self@[key@],
                None => !self@.dom().contains(key@),
            },
    {
        proof {
            use_type_invariant(self);
        }
        match Self::position(&self.entries, key) {
            Some(i) => {
                proof {
                    lemma_value_at(self.entries@, i as int);
                }
                Some(&self.entries[i].1)
            },
            None => None,
        }
    }

    pub fn contains_key(&self, key: &str) -> (r: bool)
        ensures
            r == self@.dom().contains(key@),
    {
        self.get(key).is_some()
    }

    /// Takes the value under `key` out.
    pub fn remove(&mut self, key: &str) -> (r: Option<V>)
        ensures
            final(self)@ == old(self)@.remove(key@),
            match r {
                Some(v) => old(self)@.dom().contains(key@) && v == old(self)@[key@],
                None => !old(self)@.dom().contains(key@),
            },
    {
        proof {
            use_type_invariant(&*self);
        }
        let mut entries: Vec<(String, V)> = Vec::new();
        std::mem::swap(&mut entries, &mut self.entries);
        let ghost before = entries@;
        match Self::position(&entries, key) {
            Some(i) => {
                proof {
                    lemma_value_at(before, i as int);
                    lemma_remove(before, i as int);
                }
                let entry = entries.remove(i);
                self.entries = entries;
                Some(entry.1)
            },
            None => {
                assert(as_map(before).remove(key@) =~= as_map(before));
                self.entries = entries;
                None
            },
        }
    }

    /// Puts a value under `key`.
    pub fn insert(&mut self, key: &str, value: V)
        ensures
            final(self)@ == old(self)@.insert(key@, value),
    {
        let ghost before = self@;
        let _ = self.remove(key);
        proof {
            use_type_invariant(&*self);
        }
        let mut entries: Vec<(String, V)> = Vec::new();
        std::mem::swap(&mut entries, &mut self.entries);
        let ghost e = entries@;
        proof {
            assert(!has_name(e, key@)) by {
                assert(!as_map(e).dom().contains(key@));
            }
        }
        let mut i: usize = 0;
        while i < entries.len() && text_before(entries[i].0.as_str(), key)
            invariant
                entries@ == e,
                i <= e.len(),
                forall|k: int| 0 <= k < i ==> text_lt((#[trigger] e[k]).0@, key@),
            decreases entries.len() - i,
        {
            i = i + 1;
        }
        let entry = (key.to_owned(), value);
        proof {
            assert forall|k: int| i <= k < e.len() implies text_lt(key@, (#[trigger] e[k]).0@) by {
                assert(e[i as int].0@ != key@);
                lemma_text_lt_total(e[i as int].0@, key@);
                if k > i {
                    assert(text_lt(names_of(e)[i as int], names_of(e)[k]));
                    lemma_text_lt_transitive(key@, e[i as int].0@, e[k].0@);
                }
            }
            lemma_insert(e, i as int, entry);
            assert(before.remove(key@).insert(key@, value) =~= before.insert(key@, value));
        }
        entries.insert(i, entry);
        self.entries = entries;
    }

    /// The number of values. The names stand in order, each once.
    pub fn len(&self) -> (r: usize)
        ensures
            r == self.names().len(),
            self.names() == sorted_names(self@.dom()),
            is_increasing(self.names()),
            self.names().no_duplicates(),
            forall|key: Seq<char>|
                self@.dom().contains(key) <==> #[trigger] self.names().contains(key),
    {
        proof {
            use_type_invariant(self);
            let e = self.entries@;
            lemma_increasing_distinct(names_of(e));
            assert forall|key: Seq<char>|
                self@.dom().contains(key) <==> #[trigger] self.names().contains(key) by {
                if has_name(e, key) {
                    let i = choose|i: int| 0 <= i < e.len() && (#[trigger] e[i]).0@ == key;
                    assert(self.names()[i] == key);
                }
                if self.names().contains(key) {
                    let i = choose|i: int| 0 <= i < self.names().len() && self.names()[i] == key;
                    assert(e[i].0@ == key);
                }
            }
            lemma_sorted_names(self@.dom(), self.names());
        }
        self.entries.len()
    }

    pub fn key_at(&self, i: usize) -> (r: &str)
        requires
            i < self.names().len(),
        ensures
            r@ == self.names()[i as int],
    {
        self.entries[i].0.as_str()
    }

    pub fn value_at(&self, i: usize) -> (r: &V)
        requires
            i < self.names().len(),
        ensures
            self@.dom().contains(self.names()[i as int]),
            *r == self@[self.names()[i as int]],
    {
        proof {
            use_type_invariant(self);
            lemma_value_at(self.entries@, i as int);
        }
        &self.entries[i].1
    }
}

} // verus!
