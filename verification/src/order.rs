//! The order of text: character by character, a prefix before what extends it.

use vstd::prelude::*;

use crate::text::chars_of;
use crate::text::texts;

verus! {

/// `a` comes before `b` in dictionary order of the code points.
pub open spec fn text_lt(a: Seq<char>, b: Seq<char>) -> bool
    decreases a.len(),
{
    if b.len() == 0 {
        false
    } else if a.len() == 0 {
        true
    } else if a[0] != b[0] {
        a[0] < b[0]
    } else {
        text_lt(a.drop_first(), b.drop_first())
    }
}

pub proof fn lemma_text_lt_irreflexive(a: Seq<char>)
    ensures
        !text_lt(a, a),
    decreases a.len(),
{
    if a.len() > 0 {
        lemma_text_lt_irreflexive(a.drop_first());
    }
}

pub proof fn lemma_text_lt_transitive(a: Seq<char>, b: Seq<char>, c: Seq<char>)
    requires
        text_lt(a, b),
        text_lt(b, c),
    ensures
        text_lt(a, c),
    decreases a.len(),
{
    if a.len() > 0 && a[0] == b[0] && b[0] == c[0] {
        lemma_text_lt_transitive(a.drop_first(), b.drop_first(), c.drop_first());
    }
}

pub proof fn lemma_text_lt_total(a: Seq<char>, b: Seq<char>)
    ensures
        a == b || text_lt(a, b) || text_lt(b, a),
    decreases a.len(),
{
    if a.len() == 0 && b.len() == 0 {
        assert(a =~= b);
    } else if a.len() > 0 && b.len() > 0 && a[0] == b[0] {
        lemma_text_lt_total(a.drop_first(), b.drop_first());
        if a.drop_first() == b.drop_first() {
            assert(a =~= seq![a[0]] + a.drop_first());
            assert(b =~= seq![b[0]] + b.drop_first());
        }
    }
}

/// `a` comes before `b`.
pub fn text_before(a: &str, b: &str) -> (r: bool)
    ensures
        r == text_lt(a@, b@),
{
    let x = chars_of(a);
    let y = chars_of(b);
    let mut i: usize = 0;
    assert(x@.skip(0) =~= x@);
    assert(y@.skip(0) =~= y@);
    while i < x.len() && i < y.len() && x[i] == y[i]
        invariant
            i <= x@.len(),
            i <= y@.len(),
            text_lt(x@.skip(i as int), y@.skip(i as int)) == text_lt(x@, y@),
        decreases x.len() - i,
    {
        assert(x@.skip(i as int).drop_first() =~= x@.skip(i + 1));
        assert(y@.skip(i as int).drop_first() =~= y@.skip(i + 1));
        i = i + 1;
    }
    if i == y.len() {
        false
    } else if i == x.len() {
        true
    } else {
        x[i] < y[i]
    }
}

/// `s` with `x` put behind every element that is not after it; `after(a, b)` says that
/// `a` belongs behind `b`.
pub open spec fn put_in_order<T>(s: Seq<T>, x: T, after: spec_fn(T, T) -> bool) -> Seq<T>
    decreases s.len(),
{
    if s.len() > 0 && after(s.last(), x) {
        put_in_order(s.drop_last(), x, after).push(s.last())
    } else {
        s.push(x)
    }
}

/// The elements of `s` in order; those of which neither is after the other keep their
/// places among each other.
pub open spec fn in_order<T>(s: Seq<T>, after: spec_fn(T, T) -> bool) -> Seq<T>
    decreases s.len(),
{
    if s.len() == 0 {
        s
    } else {
        put_in_order(in_order(s.drop_last(), after), s.last(), after)
    }
}

/// No element is after one that stands behind it.
pub open spec fn is_ordered<T>(s: Seq<T>, after: spec_fn(T, T) -> bool) -> bool {
    forall|i: int, j: int| 0 <= i < j < s.len() ==> !after(#[trigger] s[i], #[trigger] s[j])
}

/// `after` orders its elements: nothing is after itself or after something that is
/// after it, and of three elements, what is not after the second, which is not after
/// the third, is not after the third.
pub open spec fn is_weak_order<T>(after: spec_fn(T, T) -> bool) -> bool {
    &&& forall|a: T| !#[trigger] after(a, a)
    &&& forall|a: T, b: T| #[trigger] after(a, b) ==> !after(b, a)
    &&& forall|a: T, b: T, c: T| !#[trigger] after(a, b) && !#[trigger] after(b, c) ==> !after(a, c)
}

proof fn lemma_put_in_order<T>(s: Seq<T>, x: T, after: spec_fn(T, T) -> bool)
    requires
        is_weak_order(after),
        is_ordered(s, after),
    ensures
        is_ordered(put_in_order(s, x, after), after),
        put_in_order(s, x, after).to_multiset() == s.to_multiset().insert(x),
        put_in_order(s, x, after).len() == s.len() + 1,
    decreases s.len(),
{
    broadcast use vstd::seq_lib::group_to_multiset_ensures;

    let r = put_in_order(s, x, after);
    if s.len() > 0 && after(s.last(), x) {
        let front = put_in_order(s.drop_last(), x, after);
        lemma_put_in_order(s.drop_last(), x, after);
        assert(s =~= s.drop_last().push(s.last()));
        assert forall|i: int, j: int| 0 <= i < j < r.len() implies !after(
            #[trigger] r[i],
            #[trigger] r[j],
        ) by {
            if j == r.len() - 1 {
                assert(front.to_multiset().contains(front[i])) by {
                    assert(front.contains(front[i]));
                }
                if r[i] != x {
                    assert(s.drop_last().to_multiset().contains(r[i]));
                    assert(s.drop_last().contains(r[i]));
                    let k = choose|k: int| 0 <= k < s.len() - 1 && s.drop_last()[k] == r[i];
                    assert(!after(s[k], s[s.len() - 1]));
                } else {
                    assert(after(s.last(), x));
                }
            } else {
                assert(!after(front[i], front[j]));
            }
        }
        assert(r.to_multiset() =~= s.to_multiset().insert(x));
    } else {
        assert forall|i: int, j: int| 0 <= i < j < r.len() implies !after(
            #[trigger] r[i],
            #[trigger] r[j],
        ) by {
            if j == r.len() - 1 {
                if i < s.len() - 1 {
                    assert(!after(s[i], s[s.len() - 1]));
                    assert(!after(s.last(), x));
                }
            } else {
                assert(!after(s[i], s[j]));
            }
        }
        assert(r.to_multiset() =~= s.to_multiset().insert(x));
    }
}

/// Where an element is put in order.
pub proof fn lemma_put_at<T>(s: Seq<T>, x: T, after: spec_fn(T, T) -> bool, i: int)
    requires
        0 <= i <= s.len(),
        forall|k: int| i <= k < s.len() ==> after(#[trigger] s[k], x),
        i == 0 || !after(s[i - 1], x),
    ensures
        put_in_order(s, x, after) == s.insert(i, x),
    decreases s.len(),
{
    if i < s.len() {
        assert(after(s[s.len() - 1], x));
        let t = s.drop_last();
        assert forall|k: int| i <= k < t.len() implies after(#[trigger] t[k], x) by {
            assert(after(s[k], x));
        }
        lemma_put_at(t, x, after, i);
        assert(t.insert(i, x).push(s.last()) =~= s.insert(i, x));
    } else {
        assert(s.insert(i, x) =~= s.push(x));
    }
}

/// Putting in order keeps exactly the elements and leaves none before one that it is
/// after.
pub proof fn lemma_in_order<T>(s: Seq<T>, after: spec_fn(T, T) -> bool)
    requires
        is_weak_order(after),
    ensures
        is_ordered(in_order(s, after), after),
        in_order(s, after).to_multiset() == s.to_multiset(),
        in_order(s, after).len() == s.len(),
    decreases s.len(),
{
    broadcast use vstd::seq_lib::group_to_multiset_ensures;

    if s.len() > 0 {
        lemma_in_order(s.drop_last(), after);
        lemma_put_in_order(in_order(s.drop_last(), after), s.last(), after);
        assert(s =~= s.drop_last().push(s.last()));
    }
}

pub open spec fn text_order() -> spec_fn(Seq<char>, Seq<char>) -> bool {
    |a: Seq<char>, b: Seq<char>| text_lt(b, a)
}

pub fn sort_texts(v: &Vec<String>) -> (r: Vec<String>)
    ensures
        texts(r@) == in_order(texts(v@), text_order()),
{
    let mut sorted: Vec<String> = Vec::new();
    let ghost all = texts(v@);
    let mut i: usize = 0;
    assert(all.take(0) =~= Seq::empty());
    assert(texts(sorted@) =~= Seq::empty());
    while i < v.len()
        invariant
            i <= v@.len(),
            all == texts(v@),
            texts(sorted@) == in_order(all.take(i as int), text_order()),
        decreases v.len() - i,
    {
        let item = v[i].clone();
        let ghost before = texts(sorted@);
        let mut k: usize = sorted.len();
        while k > 0 && text_before(item.as_str(), sorted[k - 1].as_str())
            invariant
                k <= sorted@.len(),
                before == texts(sorted@),
                forall|j: int| k <= j < before.len() ==> text_order()(#[trigger] before[j], item@),
            decreases k,
        {
            assert(before[k - 1] == sorted@[k - 1]@);
            k = k - 1;
        }
        proof {
            assert(k > 0 ==> before[k - 1] == sorted@[k - 1]@);
            lemma_put_at(before, item@, text_order(), k as int);
            assert(all.take(i + 1).drop_last() =~= all.take(i as int));
        }
        sorted.insert(k, item);
        assert(texts(sorted@) =~= before.insert(k as int, item@));
        i = i + 1;
    }
    assert(all.take(i as int) =~= all);
    sorted
}

// ---------------------------------------------------------------------------
// Names in order
// ---------------------------------------------------------------------------

/// Each name comes before those behind it.
pub open spec fn is_increasing(names: Seq<Seq<char>>) -> bool {
    forall|i: int, j: int|
        0 <= i < j < names.len() ==> text_lt(#[trigger] names[i], #[trigger] names[j])
}

/// The names of a set in order.
pub open spec fn sorted_names(names: Set<Seq<char>>) -> Seq<Seq<char>> {
    choose|s: Seq<Seq<char>>|
        is_increasing(s) && forall|x: Seq<char>| names.contains(x) <==> #[trigger] s.contains(x)
}

pub proof fn lemma_increasing_distinct(s: Seq<Seq<char>>)
    requires
        is_increasing(s),
    ensures
        s.no_duplicates(),
{
    assert forall|i: int, j: int| 0 <= i < s.len() && 0 <= j < s.len() && i != j implies s[i]
        != s[j] by {
        lemma_text_lt_irreflexive(s[i]);
        if i < j {
            assert(text_lt(s[i], s[j]));
        } else {
            assert(text_lt(s[j], s[i]));
        }
    }
}

/// There is one way only to write a set of names in order.
pub proof fn lemma_increasing_unique(a: Seq<Seq<char>>, b: Seq<Seq<char>>)
    requires
        is_increasing(a),
        is_increasing(b),
        forall|x: Seq<char>| #[trigger] a.contains(x) <==> b.contains(x),
    ensures
        a == b,
    decreases a.len(),
{
    if a.len() == 0 {
        if b.len() > 0 {
            assert(b.contains(b[0]));
            assert(a.contains(b[0]));
        }
        assert(a =~= b);
    } else {
        assert(a.contains(a[0]));
        assert(b.contains(a[0]));
        let x = a.last();
        let y = b.last();
        assert(a.contains(x));
        assert(b.contains(y));
        if x != y {
            assert(b.contains(x));
            assert(a.contains(y));
            let j = choose|j: int| 0 <= j < b.len() && b[j] == x;
            let i = choose|i: int| 0 <= i < a.len() && a[i] == y;
            assert(text_lt(b[j], b[b.len() - 1]));
            assert(text_lt(a[i], a[a.len() - 1]));
            lemma_text_lt_transitive(x, y, x);
            lemma_text_lt_irreflexive(x);
        }
        let a1 = a.drop_last();
        let b1 = b.drop_last();
        lemma_increasing_distinct(a);
        lemma_increasing_distinct(b);
        assert forall|z: Seq<char>| #[trigger] a1.contains(z) <==> b1.contains(z) by {
            if a1.contains(z) {
                let i = choose|i: int| 0 <= i < a1.len() && a1[i] == z;
                assert(a[i] == z && z != x);
                assert(a.contains(z));
                let j = choose|j: int| 0 <= j < b.len() && b[j] == z;
                assert(b1[j] == z);
            }
            if b1.contains(z) {
                let i = choose|i: int| 0 <= i < b1.len() && b1[i] == z;
                assert(b[i] == z && z != y);
                assert(b.contains(z));
                assert(a.contains(z));
                let j = choose|j: int| 0 <= j < a.len() && a[j] == z;
                assert(a1[j] == z);
            }
        }
        assert(is_increasing(a1)) by {
            assert forall|i: int, j: int| 0 <= i < j < a1.len() implies text_lt(
                #[trigger] a1[i],
                #[trigger] a1[j],
            ) by {
                assert(text_lt(a[i], a[j]));
            }
        }
        assert(is_increasing(b1)) by {
            assert forall|i: int, j: int| 0 <= i < j < b1.len() implies text_lt(
                #[trigger] b1[i],
                #[trigger] b1[j],
            ) by {
                assert(text_lt(b[i], b[j]));
            }
        }
        lemma_increasing_unique(a1, b1);
        assert(a =~= a1.push(x));
        assert(b =~= b1.push(y));
    }
}

pub proof fn lemma_sorted_names(names: Set<Seq<char>>, s: Seq<Seq<char>>)
    requires
        is_increasing(s),
        forall|x: Seq<char>| names.contains(x) <==> #[trigger] s.contains(x),
    ensures
        sorted_names(names) == s,
{
    let t = sorted_names(names);
    assert forall|x: Seq<char>| #[trigger] t.contains(x) <==> s.contains(x) by {
        assert(names.contains(x) <==> s.contains(x));
    }
    lemma_increasing_unique(t, s);
}

} // verus!
