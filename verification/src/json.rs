//! JSON values: the data that requests, results and stored state are made of.

use vstd::prelude::*;

use crate::number::decimal;
use crate::number::write_decimal;
use crate::order::is_increasing;
use crate::order::lemma_increasing_distinct;
use crate::order::lemma_sorted_names;
use crate::order::lemma_text_lt_total;
use crate::order::lemma_text_lt_transitive;
use crate::order::sorted_names;
use crate::order::text_before;
use crate::order::text_lt;
use crate::text::joined;
use crate::text::low_hex_char;
use crate::text::same;
use crate::text::texts;

verus! {

/// A JSON value. A number that is not an integer of at most 64 bits is kept as its
/// text.
#[derive(Debug, PartialEq, Eq)]
pub enum Json {
    Null,
    Bool(bool),
    Int(i128),
    Float(String),
    Str(String),
    Array(Vec<Json>),
    Object(JsonObject),
}

/// The members of a JSON object, in the order of their names; each name occurs once.
#[derive(Debug, PartialEq, Eq)]
pub struct JsonObject {
    entries: Vec<(String, Json)>,
}

/// A JSON value as mathematics has it.
#[verifier::ext_equal]
pub ghost enum JsonView {
    Null,
    Bool(bool),
    Int(int),
    Float(Seq<char>),
    Str(Seq<char>),
    Arr(Seq<JsonView>),
    Obj(Map<Seq<char>, JsonView>),
}

pub open spec fn views(s: Seq<Json>) -> Seq<JsonView> {
    Seq::new(s.len(), |i: int| s[i].view())
}

pub open spec fn opt_view(v: Option<Json>) -> Option<JsonView> {
    match v {
        Some(v) => Some(v.view()),
        None => None,
    }
}

pub open spec fn opt_ref_view(v: Option<&Json>) -> Option<JsonView> {
    match v {
        Some(v) => Some(v.view()),
        None => None,
    }
}

impl JsonObject {
    spec fn fold(e: Seq<(String, Json)>) -> Map<Seq<char>, JsonView>
        decreases e,
    {
        if e.len() == 0 {
            Map::empty()
        } else {
            Self::fold(e.drop_last()).insert(e.last().0@, e.last().1.view())
        }
    }

    pub closed spec fn view(&self) -> Map<Seq<char>, JsonView>
        decreases self,
    {
        Self::fold(self.entries@)
    }

    /// The names, in the order in which the members are held.
    pub closed spec fn names(&self) -> Seq<Seq<char>> {
        names_of(self.entries@)
    }

    #[verifier::type_invariant]
    spec fn in_order(self) -> bool {
        is_increasing(names_of(self.entries@))
    }
}

spec fn names_of(e: Seq<(String, Json)>) -> Seq<Seq<char>> {
    Seq::new(e.len(), |i: int| e[i].0@)
}

spec fn distinct_names(e: Seq<(String, Json)>) -> bool {
    forall|i: int, j: int| 0 <= i < j < e.len() ==> (#[trigger] e[i]).0@ != (#[trigger] e[j]).0@
}

impl Json {
    pub open spec fn view(&self) -> JsonView
        decreases self,
    {
        match self {
            Json::Null => JsonView::Null,
            Json::Bool(b) => JsonView::Bool(*b),
            Json::Int(n) => JsonView::Int(*n as int),
            Json::Float(s) => JsonView::Float(s@),
            Json::Str(s) => JsonView::Str(s@),
            Json::Array(a) => JsonView::Arr(
                Seq::new(
                    a@.len(),
                    |i: int|
                        if 0 <= i < a@.len() {
                            a@[i].view()
                        } else {
                            JsonView::Null
                        },
                ),
            ),
            Json::Object(o) => JsonView::Obj(o.view()),
        }
    }
}

impl JsonView {
    pub open spec fn field(self, key: Seq<char>) -> Option<JsonView> {
        match self {
            JsonView::Obj(m) => if m.dom().contains(key) {
                Some(m[key])
            } else {
                None
            },
            _ => None,
        }
    }
}

// ---------------------------------------------------------------------------
// Reading a value, as mathematics has it
// ---------------------------------------------------------------------------

impl JsonView {
    /// The member `inner` of the member `outer`.
    pub open spec fn field2(self, outer: Seq<char>, inner: Seq<char>) -> Option<JsonView> {
        match self.field(outer) {
            Some(v) => v.field(inner),
            None => None,
        }
    }

    pub open spec fn field3(
        self,
        first: Seq<char>,
        second: Seq<char>,
        third: Seq<char>,
    ) -> Option<JsonView> {
        match self.field2(first, second) {
            Some(v) => v.field(third),
            None => None,
        }
    }

    pub open spec fn string(self) -> Option<Seq<char>> {
        match self {
            JsonView::Str(s) => Some(s),
            _ => None,
        }
    }

    pub open spec fn boolean(self) -> Option<bool> {
        match self {
            JsonView::Bool(b) => Some(b),
            _ => None,
        }
    }

    pub open spec fn int_in(self, low: int, high: int) -> Option<int> {
        match self {
            JsonView::Int(n) => if low <= n <= high {
                Some(n)
            } else {
                None
            },
            _ => None,
        }
    }

    pub open spec fn signed(self) -> Option<int> {
        self.int_in(i64::MIN as int, i64::MAX as int)
    }

    pub open spec fn unsigned(self) -> Option<int> {
        self.int_in(0, u64::MAX as int)
    }

    pub open spec fn items(self) -> Option<Seq<JsonView>> {
        match self {
            JsonView::Arr(a) => Some(a),
            _ => None,
        }
    }

    pub open spec fn members(self) -> Option<Map<Seq<char>, JsonView>> {
        match self {
            JsonView::Obj(m) => Some(m),
            _ => None,
        }
    }

    /// The text in the member `key`.
    pub open spec fn text_field(self, key: Seq<char>) -> Option<Seq<char>> {
        opt_string(self.field(key))
    }

    pub open spec fn text_field2(self, outer: Seq<char>, inner: Seq<char>) -> Option<Seq<char>> {
        opt_string(self.field2(outer, inner))
    }

    /// The value with its member `key` set; a value that is not an object is kept.
    pub open spec fn with(self, key: Seq<char>, value: JsonView) -> JsonView {
        match self {
            JsonView::Obj(m) => JsonView::Obj(m.insert(key, value)),
            _ => self,
        }
    }

    /// The value without its member `key`.
    pub open spec fn without(self, key: Seq<char>) -> JsonView {
        match self {
            JsonView::Obj(m) => JsonView::Obj(m.remove(key)),
            _ => self,
        }
    }
}

pub open spec fn opt_string(v: Option<JsonView>) -> Option<Seq<char>> {
    match v {
        Some(v) => v.string(),
        None => None,
    }
}

pub open spec fn opt_str(s: Option<&str>) -> Option<Seq<char>> {
    match s {
        Some(s) => Some(s@),
        None => None,
    }
}

// ---------------------------------------------------------------------------
// Objects
// ---------------------------------------------------------------------------

proof fn lemma_names_distinct(e: Seq<(String, Json)>)
    requires
        is_increasing(names_of(e)),
    ensures
        distinct_names(e),
{
    lemma_increasing_distinct(names_of(e));
    assert forall|i: int, j: int| 0 <= i < j < e.len() implies (#[trigger] e[i]).0@ != (
    #[trigger] e[j]).0@ by {
        assert(names_of(e)[i] != names_of(e)[j]);
    }
}

proof fn lemma_fold_get(e: Seq<(String, Json)>, i: int)
    requires
        distinct_names(e),
        0 <= i < e.len(),
    ensures
        JsonObject::fold(e).dom().contains(e[i].0@),
        JsonObject::fold(e)[e[i].0@] == e[i].1.view(),
    decreases e.len(),
{
    if i < e.len() - 1 {
        assert(e.drop_last()[i] == e[i]);
        assert(e[i].0@ != e[e.len() - 1].0@);
        assert forall|a: int, b: int| 0 <= a < b < e.drop_last().len() implies (
        #[trigger] e.drop_last()[a]).0@ != (#[trigger] e.drop_last()[b]).0@ by {
            assert(e[a].0@ != e[b].0@);
        }
        lemma_fold_get(e.drop_last(), i);
    }
}

proof fn lemma_fold_absent(e: Seq<(String, Json)>, key: Seq<char>)
    requires
        forall|i: int| 0 <= i < e.len() ==> (#[trigger] e[i]).0@ != key,
    ensures
        !JsonObject::fold(e).dom().contains(key),
    decreases e.len(),
{
    if e.len() > 0 {
        assert forall|i: int| 0 <= i < e.drop_last().len() implies (
        #[trigger] e.drop_last()[i]).0@ != key by {
            assert(e[i].0@ != key);
        }
        assert(e[e.len() - 1].0@ != key);
        lemma_fold_absent(e.drop_last(), key);
    }
}

proof fn lemma_fold_names(e: Seq<(String, Json)>)
    ensures
        forall|key: Seq<char>| #[trigger]
            JsonObject::fold(e).dom().contains(key) <==> exists|i: int|
                0 <= i < e.len() && (#[trigger] e[i]).0@ == key,
        JsonObject::fold(e).dom().finite(),
    decreases e.len(),
{
    if e.len() > 0 {
        lemma_fold_names(e.drop_last());
        assert forall|key: Seq<char>| #[trigger]
            JsonObject::fold(e).dom().contains(key) <==> exists|i: int|
                0 <= i < e.len() && (#[trigger] e[i]).0@ == key by {
            if JsonObject::fold(e.drop_last()).dom().contains(key) {
                let i = choose|i: int|
                    0 <= i < e.drop_last().len() && (#[trigger] e.drop_last()[i]).0@ == key;
                assert(e[i].0@ == key);
            }
            if key == e.last().0@ {
                assert(e[e.len() - 1].0@ == key);
            }
            if exists|i: int| 0 <= i < e.len() && (#[trigger] e[i]).0@ == key {
                let i = choose|i: int| 0 <= i < e.len() && (#[trigger] e[i]).0@ == key;
                if i < e.len() - 1 {
                    assert(e.drop_last()[i].0@ == key);
                }
            }
        }
    }
}

proof fn lemma_fold_remove(e: Seq<(String, Json)>, i: int)
    requires
        distinct_names(e),
        0 <= i < e.len(),
    ensures
        distinct_names(e.remove(i)),
        JsonObject::fold(e.remove(i)) == JsonObject::fold(e).remove(e[i].0@),
{
    let r = e.remove(i);
    assert forall|a: int, b: int| 0 <= a < b < r.len() implies (#[trigger] r[a]).0@ != (
    #[trigger] r[b]).0@ by {
        let a2 = if a < i {
            a
        } else {
            a + 1
        };
        let b2 = if b < i {
            b
        } else {
            b + 1
        };
        assert(e[a2].0@ != e[b2].0@);
    }
    lemma_fold_names(e);
    lemma_fold_names(r);
    let m = JsonObject::fold(e);
    let n = JsonObject::fold(r);
    assert forall|key: Seq<char>| n.dom().contains(key) <==> m.remove(e[i].0@).dom().contains(
        key,
    ) by {
        if n.dom().contains(key) {
            let k = choose|k: int| 0 <= k < r.len() && (#[trigger] r[k]).0@ == key;
            let k2 = if k < i {
                k
            } else {
                k + 1
            };
            assert(e[k2].0@ == key);
            if k2 < i {
                assert(e[k2].0@ != e[i].0@);
            } else {
                assert(e[i].0@ != e[k2].0@);
            }
        }
        if m.remove(e[i].0@).dom().contains(key) {
            let k = choose|k: int| 0 <= k < e.len() && (#[trigger] e[k]).0@ == key;
            let k2 = if k < i {
                k
            } else {
                k - 1
            };
            assert(r[k2].0@ == key);
        }
    }
    assert forall|key: Seq<char>| n.dom().contains(key) implies n[key] == m[key] by {
        let k = choose|k: int| 0 <= k < r.len() && (#[trigger] r[k]).0@ == key;
        let k2 = if k < i {
            k
        } else {
            k + 1
        };
        assert(e[k2].0@ == key);
        lemma_fold_get(r, k);
        lemma_fold_get(e, k2);
    }
    assert(n =~= m.remove(e[i].0@));
}

proof fn lemma_fold_push(e: Seq<(String, Json)>, x: (String, Json))
    ensures
        JsonObject::fold(e.push(x)) == JsonObject::fold(e).insert(x.0@, x.1.view()),
{
    assert(e.push(x).drop_last() =~= e);
}

proof fn lemma_remove_increasing(e: Seq<(String, Json)>, i: int)
    requires
        is_increasing(names_of(e)),
        0 <= i < e.len(),
    ensures
        is_increasing(names_of(e.remove(i))),
{
    let r = names_of(e.remove(i));
    let n = names_of(e);
    assert forall|a: int, b: int| 0 <= a < b < r.len() implies text_lt(
        #[trigger] r[a],
        #[trigger] r[b],
    ) by {
        let a2 = if a < i {
            a
        } else {
            a + 1
        };
        let b2 = if b < i {
            b
        } else {
            b + 1
        };
        assert(text_lt(n[a2], n[b2]));
    }
}

/// Where a new name belongs.
proof fn lemma_insert_increasing(e: Seq<(String, Json)>, i: int, x: (String, Json))
    requires
        is_increasing(names_of(e)),
        0 <= i <= e.len(),
        forall|k: int| 0 <= k < i ==> text_lt((#[trigger] e[k]).0@, x.0@),
        forall|k: int| i <= k < e.len() ==> text_lt(x.0@, (#[trigger] e[k]).0@),
    ensures
        is_increasing(names_of(e.insert(i, x))),
        JsonObject::fold(e.insert(i, x)) == JsonObject::fold(e).insert(x.0@, x.1.view()),
{
    let s = e.insert(i, x);
    let r = names_of(s);
    let n = names_of(e);
    assert forall|a: int, b: int| 0 <= a < b < r.len() implies text_lt(
        #[trigger] r[a],
        #[trigger] r[b],
    ) by {
        let a2 = if a < i {
            a
        } else {
            a - 1
        };
        let b2 = if b < i {
            b
        } else {
            b - 1
        };
        if a != i && b != i {
            assert(text_lt(n[a2], n[b2]));
        } else if a == i {
            assert(text_lt(x.0@, e[b2].0@));
        } else {
            assert(text_lt(e[a2].0@, x.0@));
        }
    }
    lemma_names_distinct(s);
    lemma_names_distinct(e);
    lemma_fold_remove(s, i);
    assert(s.remove(i) =~= e);
    lemma_fold_get(s, i);
    let f = JsonObject::fold(s);
    assert(f =~= f.remove(x.0@).insert(x.0@, x.1.view()));
}

impl JsonObject {
    pub fn new() -> (r: Self)
        ensures
            r@ == Map::<Seq<char>, JsonView>::empty(),
    {
        JsonObject { entries: Vec::new() }
    }

    fn position(entries: &Vec<(String, Json)>, key: &str) -> (r: Option<usize>)
        ensures
            match r {
                Some(i) => i < entries@.len() && entries@[i as int].0@ == key@,
                None => forall|i: int| 0 <= i < entries@.len() ==> (#[trigger] entries@[i]).0@ != key@,
            },
    {
        let mut i: usize = 0;
        while i < entries.len()
            invariant
                i <= entries@.len(),
                forall|j: int| 0 <= j < i ==> (#[trigger] entries@[j]).0@ != key@,
            decreases entries.len() - i,
        {
            if same(entries[i].0.as_str(), key) {
                return Some(i);
            }
            i = i + 1;
        }
        None
    }

    /// The member `key`.
    pub fn get(&self, key: &str) -> (r: Option<&Json>)
        ensures
            opt_ref_view(r) == JsonView::Obj(self@).field(key@),
    {
        proof {
            use_type_invariant(self);
            lemma_names_distinct(self.entries@);
        }
        match Self::position(&self.entries, key) {
            Some(i) => {
                proof {
                    lemma_fold_get(self.entries@, i as int);
                }
                Some(&self.entries[i].1)
            },
            None => {
                proof {
                    lemma_fold_absent(self.entries@, key@);
                }
                None
            },
        }
    }

    pub fn contains_key(&self, key: &str) -> (r: bool)
        ensures
            r == self@.dom().contains(key@),
    {
        self.get(key).is_some()
    }

    /// Takes the member `key` out and hands it back.
    pub fn remove(&mut self, key: &str) -> (r: Option<Json>)
        ensures
            final(self)@ == old(self)@.remove(key@),
            opt_view(r) == JsonView::Obj(old(self)@).field(key@),
    {
        proof {
            use_type_invariant(&*self);
        }
        let mut entries: Vec<(String, Json)> = Vec::new();
        std::mem::swap(&mut entries, &mut self.entries);
        let ghost before = entries@;
        match Self::position(&entries, key) {
            Some(i) => {
                proof {
                    lemma_names_distinct(before);
                    lemma_fold_get(before, i as int);
                    lemma_fold_remove(before, i as int);
                    lemma_remove_increasing(before, i as int);
                }
                let entry = entries.remove(i);
                self.entries = entries;
                Some(entry.1)
            },
            None => {
                proof {
                    lemma_fold_absent(before, key@);
                    assert(JsonObject::fold(before).remove(key@) =~= JsonObject::fold(before));
                }
                self.entries = entries;
                None
            },
        }
    }

    /// Sets the member `key`.
    pub fn insert(&mut self, key: &str, value: Json)
        ensures
            final(self)@ == old(self)@.insert(key@, value@),
    {
        let ghost before = self@;
        let _ = self.remove(key);
        proof {
            use_type_invariant(&*self);
        }
        let mut entries: Vec<(String, Json)> = Vec::new();
        std::mem::swap(&mut entries, &mut self.entries);
        let ghost e = entries@;
        proof {
            lemma_fold_names(e);
            assert(!JsonObject::fold(e).dom().contains(key@));
            assert forall|i: int| 0 <= i < e.len() implies (#[trigger] e[i]).0@ != key@ by {}
        }
        let mut i: usize = 0;
        while i < entries.len() && text_before(entries[i].0.as_str(), key)
            invariant
                entries@ == e,
                i <= e.len(),
                forall|k: int| 0 <= k < i ==> text_lt((#[trigger] e[k]).0@, key@),
            decreases entries.len() - i,
        {
            i = i + 1;
        }
        let entry = (key.to_owned(), value);
        proof {
            assert forall|k: int| i <= k < e.len() implies text_lt(key@, (#[trigger] e[k]).0@) by {
                assert(e[i as int].0@ != key@);
                lemma_text_lt_total(e[i as int].0@, key@);
                if k > i {
                    assert(text_lt(names_of(e)[i as int], names_of(e)[k]));
                    lemma_text_lt_transitive(key@, e[i as int].0@, e[k].0@);
                }
            }
            lemma_insert_increasing(e, i as int, entry);
            assert(before.remove(key@).insert(key@, value@) =~= before.insert(key@, value@));
        }
        entries.insert(i, entry);
        self.entries = entries;
    }

    /// The object with its member `key` set.
    pub fn with(self, key: &str, value: Json) -> (r: Self)
        ensures
            r@ == self@.insert(key@, value@),
    {
        let mut r = self;
        r.insert(key, value);
        r
    }

    pub fn is_empty(&self) -> (r: bool)
        ensures
            r == (self@ == Map::<Seq<char>, JsonView>::empty()),
    {
        proof {
            lemma_fold_names(self.entries@);
            if self.entries@.len() > 0 {
                assert(self.entries@[0].0@ == self.entries@[0].0@);
                assert(self@.dom().contains(self.entries@[0].0@));
            }
        }
        self.entries.len() == 0
    }

    /// The number of members. Every member has its place among the names, and only one.
    pub fn len(&self) -> (r: usize)
        ensures
            r == self.names().len(),
            self.names() == sorted_names(self@.dom()),
            self.names().no_duplicates(),
            is_increasing(self.names()),
            forall|key: Seq<char>|
                self@.dom().contains(key) <==> #[trigger] self.names().contains(key),
            self@.dom().finite(),
    {
        proof {
            use_type_invariant(self);
            let e = self.entries@;
            lemma_fold_names(e);
            lemma_names_distinct(e);
            assert forall|i: int, j: int|
                0 <= i < self.names().len() && 0 <= j < self.names().len() && i
                    != j implies self.names()[i] != self.names()[j] by {
                if i < j {
                    assert(e[i].0@ != e[j].0@);
                } else {
                    assert(e[j].0@ != e[i].0@);
                }
            }
            assert forall|key: Seq<char>|
                self@.dom().contains(key) <==> #[trigger] self.names().contains(key) by {
                if self@.dom().contains(key) {
                    let i = choose|i: int| 0 <= i < e.len() && (#[trigger] e[i]).0@ == key;
                    assert(self.names()[i] == key);
                }
                if self.names().contains(key) {
                    let i = choose|i: int| 0 <= i < self.names().len() && self.names()[i] == key;
                    assert(e[i].0@ == key);
                }
            }
            lemma_sorted_names(self@.dom(), self.names());
        }
        self.entries.len()
    }

    pub fn key_at(&self, i: usize) -> (r: &str)
        requires
            i < self.names().len(),
        ensures
            r@ == self.names()[i as int],
    {
        self.entries[i].0.as_str()
    }

    pub fn value_at(&self, i: usize) -> (r: &Json)
        requires
            i < self.names().len(),
        ensures
            self@.dom().contains(self.names()[i as int]),
            r@ == self@[self.names()[i as int]],
    {
        proof {
            use_type_invariant(self);
            lemma_names_distinct(self.entries@);
            lemma_fold_get(self.entries@, i as int);
        }
        &self.entries[i].1
    }
}

impl Clone for JsonObject {
    fn clone(&self) -> (r: Self)
        ensures
            r@ == self@,
        decreases self,
    {
        proof {
            use_type_invariant(self);
        }
        let mut entries: Vec<(String, Json)> = Vec::new();
        let mut i: usize = 0;
        while i < self.entries.len()
            invariant
                i <= self.entries@.len(),
                entries@.len() == i,
                forall|j: int| 0 <= j < i ==> (#[trigger] entries@[j]).0 == self.entries@[j].0,
                JsonObject::fold(entries@) == JsonObject::fold(self.entries@.take(i as int)),
            decreases self.entries.len() - i,
        {
            let ghost e = entries@;
            let ghost s = self.entries@;
            let value = self.entries[i].1.clone();
            entries.push((self.entries[i].0.clone(), value));
            proof {
                lemma_fold_push(e, entries@.last());
                assert(entries@ =~= e.push(entries@.last()));
                lemma_fold_push(s.take(i as int), s[i as int]);
                assert(s.take(i + 1) =~= s.take(i as int).push(s[i as int]));
            }
            i = i + 1;
        }
        assert(self.entries@.take(i as int) =~= self.entries@);
        assert(names_of(entries@) =~= names_of(self.entries@));
        JsonObject { entries }
    }
}

impl Clone for Json {
    fn clone(&self) -> (r: Self)
        ensures
            r@ == self@,
        decreases self,
    {
        match self {
            Json::Null => Json::Null,
            Json::Bool(b) => Json::Bool(*b),
            Json::Int(n) => Json::Int(*n),
            Json::Float(s) => Json::Float(s.clone()),
            Json::Str(s) => Json::Str(s.clone()),
            Json::Array(a) => {
                let mut v: Vec<Json> = Vec::new();
                let mut i: usize = 0;
                while i < a.len()
                    invariant
                        i <= a@.len(),
                        v@.len() == i,
                        forall|j: int| 0 <= j < i ==> (#[trigger] v@[j]).view() == a@[j].view(),
                        decreases_to!(self => a@),
                    decreases a.len() - i,
                {
                    let x = a[i].clone();
                    v.push(x);
                    i = i + 1;
                }
                let r = Json::Array(v);
                assert(r.view()->Arr_0 =~= self.view()->Arr_0);
                r
            },
            Json::Object(o) => Json::Object(o.clone()),
        }
    }
}

// ---------------------------------------------------------------------------
// Values
// ---------------------------------------------------------------------------

pub open spec fn opt_int<T>(n: Option<T>, value: spec_fn(T) -> int) -> Option<int> {
    match n {
        Some(n) => Some(value(n)),
        None => None,
    }
}

impl Json {
    pub fn str(s: &str) -> (r: Json)
        ensures
            r@ == JsonView::Str(s@),
    {
        Json::Str(s.to_owned())
    }

    pub fn array(a: Vec<Json>) -> (r: Json)
        ensures
            r@ == JsonView::Arr(views(a@)),
    {
        let r = Json::Array(a);
        assert(r.view()->Arr_0 =~= views(a@));
        r
    }

    pub fn get(&self, key: &str) -> (r: Option<&Json>)
        ensures
            opt_ref_view(r) == self@.field(key@),
    {
        match self {
            Json::Object(o) => o.get(key),
            _ => None,
        }
    }

    pub fn get2(&self, outer: &str, inner: &str) -> (r: Option<&Json>)
        ensures
            opt_ref_view(r) == self@.field2(outer@, inner@),
    {
        match self.get(outer) {
            Some(v) => v.get(inner),
            None => None,
        }
    }

    pub fn get3(&self, first: &str, second: &str, third: &str) -> (r: Option<&Json>)
        ensures
            opt_ref_view(r) == self@.field3(first@, second@, third@),
    {
        match self.get2(first, second) {
            Some(v) => v.get(third),
            None => None,
        }
    }

    pub fn as_str(&self) -> (r: Option<&str>)
        ensures
            opt_str(r) == self@.string(),
    {
        match self {
            Json::Str(s) => Some(s.as_str()),
            _ => None,
        }
    }

    pub fn as_bool(&self) -> (r: Option<bool>)
        ensures
            r == self@.boolean(),
    {
        match self {
            Json::Bool(b) => Some(*b),
            _ => None,
        }
    }

    pub fn as_i64(&self) -> (r: Option<i64>)
        ensures
            opt_int(r, |n: i64| n as int) == self@.signed(),
    {
        match self {
            Json::Int(n) => if -0x8000_0000_0000_0000 <= *n && *n <= 0x7fff_ffff_ffff_ffff {
                Some(*n as i64)
            } else {
                None
            },
            _ => None,
        }
    }

    pub fn as_u64(&self) -> (r: Option<u64>)
        ensures
            opt_int(r, |n: u64| n as int) == self@.unsigned(),
    {
        match self {
            Json::Int(n) => if 0 <= *n && *n <= 0xffff_ffff_ffff_ffff {
                Some(*n as u64)
            } else {
                None
            },
            _ => None,
        }
    }

    pub fn as_array(&self) -> (r: Option<&Vec<Json>>)
        ensures
            match r {
                Some(a) => self@ == JsonView::Arr(views(a@)),
                None => self@.items() is None,
            },
    {
        match self {
            Json::Array(a) => {
                assert(self.view()->Arr_0 =~= views(a@));
                Some(a)
            },
            _ => None,
        }
    }

    pub fn as_object(&self) -> (r: Option<&JsonObject>)
        ensures
            match r {
                Some(o) => self@ == JsonView::Obj(o@),
                None => self@.members() is None,
            },
    {
        match self {
            Json::Object(o) => Some(o),
            _ => None,
        }
    }

    pub fn is_object(&self) -> (r: bool)
        ensures
            r == (self@ is Obj),
    {
        match self {
            Json::Object(_) => true,
            _ => false,
        }
    }

    pub fn is_null(&self) -> (r: bool)
        ensures
            r == (self@ is Null),
    {
        match self {
            Json::Null => true,
            _ => false,
        }
    }

    /// The text in the member `key`.
    pub fn text_of(&self, key: &str) -> (r: Option<&str>)
        ensures
            opt_str(r) == self@.text_field(key@),
    {
        match self.get(key) {
            Some(v) => v.as_str(),
            None => None,
        }
    }

    pub fn text_of2(&self, outer: &str, inner: &str) -> (r: Option<&str>)
        ensures
            opt_str(r) == self@.text_field2(outer@, inner@),
    {
        match self.get2(outer, inner) {
            Some(v) => v.as_str(),
            None => None,
        }
    }

    pub fn with(self, key: &str, value: Json) -> (r: Json)
        ensures
            r@ == self@.with(key@, value@),
    {
        match self {
            Json::Object(o) => Json::Object(o.with(key, value)),
            other => other,
        }
    }

    pub fn without(self, key: &str) -> (r: Json)
        ensures
            r@ == self@.without(key@),
    {
        match self {
            Json::Object(o) => {
                let mut o = o;
                let _ = o.remove(key);
                Json::Object(o)
            },
            other => other,
        }
    }
}

pub fn copy_values(v: &Vec<Json>) -> (r: Vec<Json>)
    ensures
        views(r@) == views(v@),
{
    let mut r: Vec<Json> = Vec::new();
    let mut i: usize = 0;
    while i < v.len()
        invariant
            i <= v@.len(),
            r@.len() == i,
            forall|j: int| 0 <= j < i ==> (#[trigger] r@[j]).view() == v@[j].view(),
        decreases v.len() - i,
    {
        let x = v[i].clone();
        r.push(x);
        i = i + 1;
    }
    assert(views(r@) =~= views(v@));
    r
}

/// A list of texts as a JSON array.
pub open spec fn text_array(s: Seq<Seq<char>>) -> JsonView {
    JsonView::Arr(s.map_values(|t: Seq<char>| JsonView::Str(t)))
}

pub fn text_values(v: &Vec<String>) -> (r: Json)
    ensures
        r@ == text_array(texts(v@)),
{
    let mut r: Vec<Json> = Vec::new();
    let mut i: usize = 0;
    while i < v.len()
        invariant
            i <= v@.len(),
            r@.len() == i,
            forall|j: int| 0 <= j < i ==> (#[trigger] r@[j]).view() == JsonView::Str(v@[j]@),
        decreases v.len() - i,
    {
        r.push(Json::Str(v[i].clone()));
        i = i + 1;
    }
    assert(views(r@) =~= texts(v@).map_values(|t: Seq<char>| JsonView::Str(t)));
    Json::array(r)
}

// ---------------------------------------------------------------------------
// Compact text
// ---------------------------------------------------------------------------

/// A character as it stands in a JSON string: quotation marks, reverse solidi and control
/// characters are escaped, all others stand for themselves.
pub open spec fn escaped(c: char) -> Seq<char> {
    if c == '"' {
        "\\\""@
    } else if c == '\\' {
        "\\\\"@
    } else if c == '\u{8}' {
        "\\b"@
    } else if c == '\u{c}' {
        "\\f"@
    } else if c == '\n' {
        "\\n"@
    } else if c == '\r' {
        "\\r"@
    } else if c == '\t' {
        "\\t"@
    } else if 0x20 > c as int {
        "\\u00"@ + seq![low_hex_char(c as int / 16), low_hex_char(c as int % 16)]
    } else {
        seq![c]
    }
}

pub open spec fn escaped_all(s: Seq<char>) -> Seq<char>
    decreases s.len(),
{
    if s.len() == 0 {
        Seq::empty()
    } else {
        escaped_all(s.drop_last()) + escaped(s.last())
    }
}

/// A text as a JSON string, in quotation marks.
pub open spec fn quoted(s: Seq<char>) -> Seq<char> {
    "\""@ + escaped_all(s) + "\""@
}

/// `serde_json::to_string` on a string: the string in quotation marks, each character
/// escaped as JSON asks. On a string nothing can fail, so the call always has a result.
#[verifier::external_body]
fn quote(s: &str) -> (r: String)
    ensures
        r@ == quoted(s@),
{
    serde_json::to_string(s).unwrap_or_default()
}

/// The text of a value without white space, members in the order of their names.
pub open spec fn compact(v: JsonView) -> Seq<char>
    decreases v, 0nat,
{
    match v {
        JsonView::Null => "null"@,
        JsonView::Bool(b) => if b {
            "true"@
        } else {
            "false"@
        },
        JsonView::Int(n) => decimal(n),
        JsonView::Float(s) => s,
        JsonView::Str(s) => quoted(s),
        JsonView::Arr(a) => "["@ + joined(compact_items(a), ","@) + "]"@,
        JsonView::Obj(m) => "{"@ + joined(compact_members(m, sorted_names(m.dom())), ","@) + "}"@,
    }
}

pub open spec fn compact_items(a: Seq<JsonView>) -> Seq<Seq<char>>
    decreases a, 0nat,
{
    if a.len() == 0 {
        Seq::empty()
    } else {
        compact_items(a.drop_last()).push(compact(a.last()))
    }
}

/// The texts of the members of these names.
pub open spec fn compact_members(m: Map<Seq<char>, JsonView>, names: Seq<Seq<char>>) -> Seq<
    Seq<char>,
>
    decreases m, names.len(),
{
    if names.len() == 0 {
        Seq::empty()
    } else {
        let name = names.last();
        let value = if m.dom().finite() && m.dom().contains(name) {
            compact(m[name])
        } else {
            Seq::empty()
        };
        compact_members(m, names.drop_last()).push(quoted(name) + ":"@ + value)
    }
}

impl JsonObject {
    fn to_text(&self) -> (r: String)
        ensures
            r@ == compact(JsonView::Obj(self@)),
        decreases self,
    {
        proof {
            use_type_invariant(self);
            lemma_names_distinct(self.entries@);
        }
        let n: usize = self.len();
        let mut parts: Vec<String> = Vec::new();
        let mut i: usize = 0;
        assert(self.names().take(0) =~= Seq::empty());
        assert(texts(parts@) =~= Seq::empty());
        while i < n
            invariant
                n == self.entries@.len(),
                i <= n,
                self.names() == names_of(self.entries@),
                self@.dom().finite(),
                distinct_names(self.entries@),
                texts(parts@) == compact_members(self@, self.names().take(i as int)),
            decreases n - i,
        {
            proof {
                lemma_fold_get(self.entries@, i as int);
                assert(self.names().take(i + 1).drop_last() =~= self.names().take(i as int));
            }
            let name = quote(self.entries[i].0.as_str());
            let value = self.entries[i].1.to_text();
            let ghost before = texts(parts@);
            parts.push(crate::text::cat3(name.as_str(), ":", value.as_str()));
            assert(texts(parts@) =~= before.push(parts@.last()@));
            i = i + 1;
        }
        assert(self.names().take(i as int) =~= self.names());
        let body = crate::text::join(&parts, ",");
        crate::text::cat3("{", body.as_str(), "}")
    }
}

impl Json {
    pub fn to_text(&self) -> (r: String)
        ensures
            r@ == compact(self@),
        decreases self,
    {
        match self {
            Json::Null => "null".to_owned(),
            Json::Bool(b) => if *b {
                "true".to_owned()
            } else {
                "false".to_owned()
            },
            Json::Int(n) => write_decimal(*n),
            Json::Float(s) => s.clone(),
            Json::Str(s) => quote(s.as_str()),
            Json::Array(a) => {
                let mut parts: Vec<String> = Vec::new();
                let mut i: usize = 0;
                let ghost items = self@->Arr_0;
                assert(items.take(0) =~= Seq::empty());
                assert(texts(parts@) =~= Seq::empty());
                while i < a.len()
                    invariant
                        i <= a@.len(),
                        decreases_to!(self => a@),
                        items.len() == a@.len(),
                        forall|j: int| 0 <= j < a@.len() ==> #[trigger] items[j] == a@[j].view(),
                        texts(parts@) == compact_items(items.take(i as int)),
                    decreases a.len() - i,
                {
                    assert(items.take(i + 1).drop_last() =~= items.take(i as int));
                    let ghost before = texts(parts@);
                    let part = a[i].to_text();
                    parts.push(part);
                    assert(texts(parts@) =~= before.push(part@));
                    i = i + 1;
                }
                assert(items.take(i as int) =~= items);
                let body = crate::text::join(&parts, ",");
                crate::text::cat3("[", body.as_str(), "]")
            },
            Json::Object(o) => o.to_text(),
        }
    }

    /// A text as it is, any other value as compact JSON.
    pub fn plain_text(&self) -> (r: String)
        ensures
            r@ == plain(self@),
    {
        match self {
            Json::Str(s) => s.clone(),
            _ => self.to_text(),
        }
    }
}

/// A text as it is, any other value as compact JSON.
pub open spec fn plain(v: JsonView) -> Seq<char> {
    match v {
        JsonView::Str(s) => s,
        _ => compact(v),
    }
}

} // verus!
