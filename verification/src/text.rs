//! Text as sequences of characters: the operations on strings that the rest of the
//! library uses, each stated over `Seq<char>`.

use vstd::prelude::*;

verus! {

/// `String::push`: the character is appended at the end.
pub assume_specification[ std::string::String::push ](s: &mut String, c: char)
    ensures
        final(s)@ == old(s)@.push(c),
;

// ---------------------------------------------------------------------------
// Characters
// ---------------------------------------------------------------------------

/// The characters with the Unicode property `White_Space`.
pub open spec fn is_space(c: char) -> bool {
    let n = c as int;
    ||| 9 <= n <= 13
    ||| n == 0x20
    ||| n == 0x85
    ||| n == 0xA0
    ||| n == 0x1680
    ||| 0x2000 <= n <= 0x200A
    ||| n == 0x2028
    ||| n == 0x2029
    ||| n == 0x202F
    ||| n == 0x205F
    ||| n == 0x3000
}

pub fn is_whitespace(c: char) -> (r: bool)
    ensures
        r == is_space(c),
{
    let n = c as u32;
    (9 <= n && n <= 13) || n == 0x20 || n == 0x85 || n == 0xA0 || n == 0x1680 || (0x2000 <= n && n
        <= 0x200A) || n == 0x2028 || n == 0x2029 || n == 0x202F || n == 0x205F || n == 0x3000
}

pub open spec fn is_digit(c: char) -> bool {
    '0' <= c <= '9'
}

pub open spec fn is_hex_digit(c: char) -> bool {
    is_digit(c) || 'a' <= c <= 'f' || 'A' <= c <= 'F'
}

/// A lower-case hexadecimal digit.
pub open spec fn low_hex_char(n: int) -> char {
    if n < 10 {
        ('0' as int + n) as char
    } else {
        ('a' as int + n - 10) as char
    }
}

/// The lower-case form of an ASCII letter; every other character is kept.
pub open spec fn lower_char(c: char) -> char {
    if 'A' <= c <= 'Z' {
        (c as int + 32) as char
    } else {
        c
    }
}

/// The upper-case form of an ASCII letter; every other character is kept.
pub open spec fn upper_char(c: char) -> char {
    if 'a' <= c <= 'z' {
        (c as int - 32) as char
    } else {
        c
    }
}

fn to_lower_char(c: char) -> (r: char)
    ensures
        r == lower_char(c),
{
    if 'A' <= c && c <= 'Z' {
        (c as u8 + 32) as char
    } else {
        c
    }
}

// ---------------------------------------------------------------------------
// Conversions
// ---------------------------------------------------------------------------

/// The characters of a string, one by one.
pub fn chars_of(s: &str) -> (v: Vec<char>)
    ensures
        v@ == s@,
{
    let mut v: Vec<char> = Vec::new();
    for c in it: s.chars()
        invariant
            it.seq() == s@,
            v@ == s@.take(it.index() as int),
    {
        v.push(c);
    }
    v
}

/// The string made of the characters at the positions from `from` up to `to`.
pub fn string_between(v: &Vec<char>, from: usize, to: usize) -> (s: String)
    requires
        from <= to <= v@.len(),
    ensures
        s@ == v@.subrange(from as int, to as int),
{
    let mut s = String::new();
    let mut i: usize = from;
    while i < to
        invariant
            from <= i <= to <= v@.len(),
            s@ == v@.subrange(from as int, i as int),
        decreases to - i,
    {
        s.push(v[i]);
        i = i + 1;
    }
    s
}

pub fn string_of(v: &Vec<char>) -> (s: String)
    ensures
        s@ == v@,
{
    let s = string_between(v, 0, v.len());
    assert(v@.subrange(0, v@.len() as int) =~= v@);
    s
}

/// The contents of a list of strings.
pub open spec fn texts(v: Seq<String>) -> Seq<Seq<char>> {
    v.map_values(|s: String| s@)
}

/// The content of an optional string.
pub open spec fn opt_text(s: Option<String>) -> Option<Seq<char>> {
    match s {
        Some(s) => Some(s@),
        None => None,
    }
}

pub fn same(a: &str, b: &str) -> (r: bool)
    ensures
        r == (a@ == b@),
{
    a.to_owned() == b.to_owned()
}

/// `prefix` and `suffix` written one after the other.
pub fn cat(prefix: &str, suffix: &str) -> (r: String)
    ensures
        r@ == prefix@ + suffix@,
{
    let mut r = prefix.to_owned();
    r.append(suffix);
    r
}

pub fn cat3(a: &str, b: &str, c: &str) -> (r: String)
    ensures
        r@ == a@ + b@ + c@,
{
    let mut r = a.to_owned();
    r.append(b);
    r.append(c);
    r
}

pub fn cat4(a: &str, b: &str, c: &str, d: &str) -> (r: String)
    ensures
        r@ == a@ + b@ + c@ + d@,
{
    let mut r = cat3(a, b, c);
    r.append(d);
    r
}

pub fn cat5(a: &str, b: &str, c: &str, d: &str, e: &str) -> (r: String)
    ensures
        r@ == a@ + b@ + c@ + d@ + e@,
{
    let mut r = cat4(a, b, c, d);
    r.append(e);
    r
}

// ---------------------------------------------------------------------------
// Trimming
// ---------------------------------------------------------------------------

pub open spec fn trim_start_of(s: Seq<char>) -> Seq<char>
    decreases s.len(),
{
    if s.len() > 0 && is_space(s[0]) {
        trim_start_of(s.drop_first())
    } else {
        s
    }
}

pub open spec fn trim_end_of(s: Seq<char>) -> Seq<char>
    decreases s.len(),
{
    if s.len() > 0 && is_space(s.last()) {
        trim_end_of(s.drop_last())
    } else {
        s
    }
}

/// `s` without the white space at both of its ends.
pub open spec fn trimmed(s: Seq<char>) -> Seq<char> {
    trim_end_of(trim_start_of(s))
}

/// The number of characters of white space at the start of `v`.
fn leading_spaces(v: &Vec<char>) -> (i: usize)
    ensures
        i <= v@.len(),
        v@.skip(i as int) == trim_start_of(v@),
{
    let mut i: usize = 0;
    assert(v@.skip(0) =~= v@);
    while i < v.len() && is_whitespace(v[i])
        invariant
            i <= v@.len(),
            trim_start_of(v@.skip(i as int)) == trim_start_of(v@),
        decreases v.len() - i,
    {
        assert(v@.skip(i as int).drop_first() =~= v@.skip(i as int + 1));
        i = i + 1;
    }
    i
}

/// The white space at the start of a text is cut off, and nothing else.
pub proof fn lemma_trim_start_cuts(s: Seq<char>)
    ensures
        exists|n: int|
            0 <= n <= s.len() && trim_start_of(s) == #[trigger] s.skip(n) && forall|i: int|
                0 <= i < n ==> is_space(#[trigger] s[i]),
        trim_start_of(s).len() > 0 ==> !is_space(trim_start_of(s)[0]),
    decreases s.len(),
{
    if s.len() > 0 && is_space(s[0]) {
        let t = s.drop_first();
        lemma_trim_start_cuts(t);
        let n = choose|n: int|
            0 <= n <= t.len() && trim_start_of(t) == #[trigger] t.skip(n) && forall|i: int|
                0 <= i < n ==> is_space(#[trigger] t[i]);
        assert(t.skip(n) =~= s.skip(n + 1));
        assert forall|i: int| 0 <= i < n + 1 implies is_space(#[trigger] s[i]) by {
            if i > 0 {
                assert(s[i] == t[i - 1]);
            }
        }
    } else {
        assert(s.skip(0) =~= s);
    }
}

/// The white space at the end of a text is cut off, and nothing else.
pub proof fn lemma_trim_end_cuts(s: Seq<char>)
    ensures
        exists|n: int|
            0 <= n <= s.len() && trim_end_of(s) == #[trigger] s.take(n) && forall|i: int|
                n <= i < s.len() ==> is_space(#[trigger] s[i]),
        trim_end_of(s).len() > 0 ==> !is_space(trim_end_of(s).last()),
    decreases s.len(),
{
    if s.len() > 0 && is_space(s.last()) {
        let t = s.drop_last();
        lemma_trim_end_cuts(t);
        let n = choose|n: int|
            0 <= n <= t.len() && trim_end_of(t) == #[trigger] t.take(n) && forall|i: int|
                n <= i < t.len() ==> is_space(#[trigger] t[i]);
        assert(t.take(n) =~= s.take(n));
        assert forall|i: int| n <= i < s.len() implies is_space(#[trigger] s[i]) by {
            if i < t.len() {
                assert(s[i] == t[i]);
            }
        }
    } else {
        assert(s.take(s.len() as int) =~= s);
    }
}

/// Trimming takes the white space at both ends and nothing else: the text is what is left
/// with white space around it, and what is left neither starts nor ends with white space.
pub proof fn law_trimming_cuts_white_space(s: Seq<char>)
    ensures
        exists|a: int, b: int|
            0 <= a <= b <= s.len() && trimmed(s) == #[trigger] s.subrange(a, b) && (forall|i: int|
                0 <= i < a || b <= i < s.len() ==> is_space(#[trigger] s[i])),
        trimmed(s).len() > 0 ==> !is_space(trimmed(s)[0]) && !is_space(trimmed(s).last()),
{
    lemma_trim_start_cuts(s);
    let t = trim_start_of(s);
    let a = choose|n: int|
        0 <= n <= s.len() && t == #[trigger] s.skip(n) && forall|i: int|
            0 <= i < n ==> is_space(#[trigger] s[i]);
    lemma_trim_end_cuts(t);
    let m = choose|n: int|
        0 <= n <= t.len() && trim_end_of(t) == #[trigger] t.take(n) && forall|i: int|
            n <= i < t.len() ==> is_space(#[trigger] t[i]);
    assert(s.subrange(a, a + m) =~= t.take(m));
    assert forall|i: int| 0 <= i < a || a + m <= i < s.len() implies is_space(#[trigger] s[i]) by {
        if i >= a + m {
            assert(t[i - a] == s[i]);
        }
    }
    if trimmed(s).len() > 0 {
        assert(trimmed(s)[0] == t[0]);
    }
}

/// Trimming twice is trimming once.
pub proof fn lemma_trimmed_again(s: Seq<char>)
    ensures
        trimmed(trimmed(s)) == trimmed(s),
{
    law_trimming_cuts_white_space(s);
}

pub fn trim_start(s: &str) -> (r: String)
    ensures
        r@ == trim_start_of(s@),
{
    let v = chars_of(s);
    let i: usize = leading_spaces(&v);
    string_between(&v, i, v.len())
}

pub fn trim(s: &str) -> (r: String)
    ensures
        r@ == trimmed(s@),
{
    let v = chars_of(s);
    let i: usize = leading_spaces(&v);
    let mut j: usize = v.len();
    assert(v@.subrange(i as int, j as int) =~= v@.skip(i as int));
    while i < j && is_whitespace(v[j - 1])
        invariant
            i <= j <= v@.len(),
            trim_end_of(v@.subrange(i as int, j as int)) == trim_end_of(v@.skip(i as int)),
        decreases j,
    {
        assert(v@.subrange(i as int, j as int).drop_last() =~= v@.subrange(i as int, j - 1));
        j = j - 1;
    }
    string_between(&v, i, j)
}

/// `s` without the longest prefix made of characters of `set`.
pub open spec fn trim_start_matches_of(s: Seq<char>, set: Seq<char>) -> Seq<char>
    decreases s.len(),
{
    if s.len() > 0 && set.contains(s[0]) {
        trim_start_matches_of(s.drop_first(), set)
    } else {
        s
    }
}

pub fn has_char(set: &str, c: char) -> (r: bool)
    ensures
        r == set@.contains(c),
{
    let v = chars_of(set);
    let mut i: usize = 0;
    while i < v.len()
        invariant
            v@ == set@,
            i <= v@.len(),
            forall|j: int| 0 <= j < i ==> v@[j] != c,
        decreases v.len() - i,
    {
        if v[i] == c {
            assert(set@[i as int] == c);
            return true;
        }
        i = i + 1;
    }
    false
}

pub fn trim_start_matches(s: &str, set: &str) -> (r: String)
    ensures
        r@ == trim_start_matches_of(s@, set@),
{
    let v = chars_of(s);
    let mut i: usize = 0;
    assert(v@.skip(0) =~= v@);
    while i < v.len() && has_char(set, v[i])
        invariant
            i <= v@.len(),
            trim_start_matches_of(v@.skip(i as int), set@) == trim_start_matches_of(v@, set@),
        decreases v.len() - i,
    {
        assert(v@.skip(i as int).drop_first() =~= v@.skip(i as int + 1));
        i = i + 1;
    }
    string_between(&v, i, v.len())
}

// ---------------------------------------------------------------------------
// Searching
// ---------------------------------------------------------------------------

/// `p` stands in `s` at position `i`.
pub open spec fn occurs_at(s: Seq<char>, p: Seq<char>, i: int) -> bool {
    0 <= i && i + p.len() <= s.len() && s.subrange(i, i + p.len()) == p
}

pub open spec fn has_text(s: Seq<char>, p: Seq<char>) -> bool {
    exists|i: int| occurs_at(s, p, i)
}

pub open spec fn has_prefix(s: Seq<char>, p: Seq<char>) -> bool {
    occurs_at(s, p, 0)
}

pub open spec fn has_suffix(s: Seq<char>, p: Seq<char>) -> bool {
    occurs_at(s, p, s.len() - p.len())
}

/// The first position from `from` on at which `p` stands in `s`.
pub open spec fn first_at(s: Seq<char>, p: Seq<char>, from: int) -> Option<int>
    decreases s.len() - from + 1,
{
    if from + p.len() > s.len() {
        None
    } else if occurs_at(s, p, from) {
        Some(from)
    } else {
        first_at(s, p, from + 1)
    }
}

/// The last position up to `to` at which `p` stands in `s`.
pub open spec fn last_at(s: Seq<char>, p: Seq<char>, to: int) -> Option<int>
    decreases to + 1,
{
    if to < 0 {
        None
    } else if occurs_at(s, p, to) {
        Some(to)
    } else {
        last_at(s, p, to - 1)
    }
}

pub proof fn lemma_first_at(s: Seq<char>, p: Seq<char>, from: int)
    requires
        0 <= from,
    ensures
        match first_at(s, p, from) {
            Some(i) => from <= i && occurs_at(s, p, i) && forall|j: int|
                from <= j < i ==> !occurs_at(s, p, j),
            None => forall|j: int| from <= j ==> !occurs_at(s, p, j),
        },
    decreases s.len() - from + 1,
{
    if from + p.len() > s.len() {
    } else if occurs_at(s, p, from) {
    } else {
        lemma_first_at(s, p, from + 1);
    }
}

fn matches_at(v: &Vec<char>, p: &Vec<char>, i: usize) -> (r: bool)
    ensures
        r == occurs_at(v@, p@, i as int),
{
    if p.len() > v.len() || i > v.len() - p.len() {
        return false;
    }
    let mut j: usize = 0;
    while j < p.len()
        invariant
            j <= p@.len(),
            i + p@.len() <= v.len(),
            forall|k: int| 0 <= k < j ==> v@[i + k] == p@[k],
        decreases p.len() - j,
    {
        if v[i + j] != p[j] {
            assert(v@.subrange(i as int, i + p@.len())[j as int] != p@[j as int]);
            return false;
        }
        j = j + 1;
    }
    assert(v@.subrange(i as int, i + p@.len()) =~= p@);
    true
}

fn find_in(v: &Vec<char>, p: &Vec<char>, from: usize) -> (r: Option<usize>)
    requires
        from <= v@.len(),
    ensures
        match r {
            Some(i) => first_at(v@, p@, from as int) == Some(i as int) && i + p@.len() <= v.len(),
            None => first_at(v@, p@, from as int) is None,
        },
{
    let mut i: usize = from;
    while i <= v.len() && p.len() <= v.len() - i
        invariant
            from <= i <= v@.len() + 1,
            first_at(v@, p@, i as int) == first_at(v@, p@, from as int),
        decreases v.len() + 1 - i,
    {
        if matches_at(v, p, i) {
            return Some(i);
        }
        if i == v.len() {
            assert(first_at(v@, p@, i + 1) is None);
            return None;
        }
        i = i + 1;
    }
    None
}

pub fn contains(s: &str, p: &str) -> (r: bool)
    ensures
        r == has_text(s@, p@),
{
    let v = chars_of(s);
    let q = chars_of(p);
    proof {
        lemma_first_at(v@, q@, 0);
    }
    find_in(&v, &q, 0).is_some()
}

pub fn starts_with(s: &str, p: &str) -> (r: bool)
    ensures
        r == has_prefix(s@, p@),
{
    matches_at(&chars_of(s), &chars_of(p), 0)
}

pub fn ends_with(s: &str, p: &str) -> (r: bool)
    ensures
        r == has_suffix(s@, p@),
{
    let v = chars_of(s);
    let q = chars_of(p);
    if q.len() > v.len() {
        false
    } else {
        matches_at(&v, &q, v.len() - q.len())
    }
}

/// `s` after the prefix `p`, where it has that prefix.
pub fn strip_prefix(s: &str, p: &str) -> (r: Option<String>)
    ensures
        match r {
            Some(rest) => has_prefix(s@, p@) && rest@ == s@.skip(p@.len() as int),
            None => !has_prefix(s@, p@),
        },
{
    let v = chars_of(s);
    let q = chars_of(p);
    if matches_at(&v, &q, 0) {
        let rest = string_between(&v, q.len(), v.len());
        assert(rest@ =~= s@.skip(p@.len() as int));
        Some(rest)
    } else {
        None
    }
}

/// What stands before and after the first `p` in `s`.
pub open spec fn split_first(s: Seq<char>, p: Seq<char>) -> Option<(Seq<char>, Seq<char>)> {
    match first_at(s, p, 0) {
        Some(i) => Some((s.take(i), s.skip(i + p.len()))),
        None => None,
    }
}

/// What stands before and after the last `p` in `s`.
pub open spec fn split_last(s: Seq<char>, p: Seq<char>) -> Option<(Seq<char>, Seq<char>)> {
    match last_at(s, p, s.len() - p.len()) {
        Some(i) => Some((s.take(i), s.skip(i + p.len()))),
        None => None,
    }
}

pub open spec fn opt_pair(p: Option<(String, String)>) -> Option<(Seq<char>, Seq<char>)> {
    match p {
        Some((a, b)) => Some((a@, b@)),
        None => None,
    }
}

pub fn split_once(s: &str, p: &str) -> (r: Option<(String, String)>)
    ensures
        opt_pair(r) == split_first(s@, p@),
{
    let v = chars_of(s);
    let q = chars_of(p);
    match find_in(&v, &q, 0) {
        Some(i) => {
            let a = string_between(&v, 0, i);
            let b = string_between(&v, i + q.len(), v.len());
            assert(a@ =~= s@.take(i as int));
            assert(b@ =~= s@.skip(i + p@.len()));
            Some((a, b))
        },
        None => None,
    }
}

pub fn rsplit_once(s: &str, p: &str) -> (r: Option<(String, String)>)
    ensures
        opt_pair(r) == split_last(s@, p@),
{
    let v = chars_of(s);
    let q = chars_of(p);
    if q.len() > v.len() {
        return None;
    }
    let mut i: usize = v.len() - q.len();
    loop
        invariant
            v@ == s@,
            q@ == p@,
            i + q@.len() <= v.len(),
            last_at(s@, p@, i as int) == last_at(s@, p@, s@.len() - p@.len()),
        decreases i,
    {
        if matches_at(&v, &q, i) {
            let a = string_between(&v, 0, i);
            let b = string_between(&v, i + q.len(), v.len());
            assert(a@ =~= s@.take(i as int));
            assert(b@ =~= s@.skip(i + p@.len()));
            return Some((a, b));
        }
        if i == 0 {
            assert(last_at(s@, p@, -1) is None);
            return None;
        }
        i = i - 1;
    }
}

// ---------------------------------------------------------------------------
// Splitting
// ---------------------------------------------------------------------------

/// The parts of `s` between the characters of `set`.
pub open spec fn split_on(s: Seq<char>, set: Seq<char>) -> Seq<Seq<char>>
    decreases s.len(),
{
    if s.len() == 0 {
        seq![Seq::empty()]
    } else {
        let head = split_on(s.drop_last(), set);
        if set.contains(s.last()) {
            head.push(Seq::empty())
        } else {
            head.update(head.len() - 1, head.last().push(s.last()))
        }
    }
}

pub proof fn lemma_split_on_some(s: Seq<char>, set: Seq<char>)
    ensures
        split_on(s, set).len() > 0,
    decreases s.len(),
{
    if s.len() > 0 {
        lemma_split_on_some(s.drop_last(), set);
    }
}

pub fn split(s: &str, set: &str) -> (r: Vec<String>)
    ensures
        texts(r@) == split_on(s@, set@),
        r@.len() > 0,
{
    let v = chars_of(s);
    let mut parts: Vec<String> = Vec::new();
    let mut part = String::new();
    let mut i: usize = 0;
    assert(v@.take(0) =~= Seq::empty());
    assert(texts(parts@).push(part@) =~= split_on(v@.take(0), set@));
    while i < v.len()
        invariant
            i <= v@.len(),
            texts(parts@).push(part@) == split_on(v@.take(i as int), set@),
        decreases v.len() - i,
    {
        let ghost before = texts(parts@).push(part@);
        let ghost old_parts = parts@;
        let ghost old_part = part@;
        proof {
            assert(v@.take(i + 1).drop_last() =~= v@.take(i as int));
            lemma_split_on_some(v@.take(i as int), set@);
        }
        if has_char(set, v[i]) {
            parts.push(part);
            part = String::new();
            assert(texts(parts@) =~= before);
        } else {
            part.push(v[i]);
            assert(texts(parts@).push(part@) =~= before.update(
                before.len() - 1,
                before.last().push(v@[i as int]),
            ));
        }
        i = i + 1;
    }
    assert(v@.take(i as int) =~= v@);
    let ghost before = texts(parts@).push(part@);
    parts.push(part);
    assert(texts(parts@) =~= before);
    parts
}

pub open spec fn strip_cr(s: Seq<char>) -> Seq<char> {
    if s.len() > 0 && s.last() == '\r' {
        s.drop_last()
    } else {
        s
    }
}

/// The lines of `s`: a line ends at `'\n'`, which does not belong to it, nor does a
/// `'\r'` right before it; nothing is left after a last `'\n'`.
pub open spec fn lines_of(s: Seq<char>) -> Seq<Seq<char>>
    decreases s.len(),
{
    if s.len() == 0 {
        Seq::empty()
    } else {
        match first_at(s, seq!['\n'], 0) {
            Some(i) => if 0 <= i < s.len() {
                seq![strip_cr(s.take(i))] + lines_of(s.skip(i + 1))
            } else {
                seq![s]
            },
            None => seq![s],
        }
    }
}

pub fn lines(s: &str) -> (r: Vec<String>)
    ensures
        texts(r@) == lines_of(s@),
{
    let v = chars_of(s);
    let mut nl: Vec<char> = Vec::new();
    nl.push('\n');
    assert(nl@ =~= seq!['\n']);
    let mut r: Vec<String> = Vec::new();
    let mut i: usize = 0;
    assert(v@.skip(0) =~= v@);
    assert(texts(r@) + lines_of(v@.skip(0)) =~= lines_of(v@));
    while i < v.len()
        invariant
            i <= v@.len(),
            nl@ == seq!['\n'],
            texts(r@) + lines_of(v@.skip(i as int)) == lines_of(v@),
        decreases v.len() - i,
    {
        let ghost rest = v@.skip(i as int);
        let ghost done = texts(r@);
        proof {
            lemma_first_at(rest, nl@, 0);
            lemma_first_at(v@, nl@, i as int);
            lemma_skip_occurs(v@, nl@, i as int);
        }
        match find_in(&v, &nl, i) {
            Some(k) => {
                proof {
                    lemma_first_skip(v@, nl@, i as int, k as int);
                    assert(rest.take(k - i) =~= v@.subrange(i as int, k as int));
                    assert(rest.skip(k - i + 1) =~= v@.skip(k + 1));
                }
                let mut end: usize = k;
                if i < k && v[k - 1] == '\r' {
                    end = k - 1;
                    assert(v@.subrange(i as int, k as int).drop_last() =~= v@.subrange(
                        i as int,
                        k - 1,
                    ));
                }
                r.push(string_between(&v, i, end));
                assert(texts(r@) =~= done + seq![strip_cr(rest.take(k - i))]);
                i = k + 1;
                assert(texts(r@) + lines_of(v@.skip(i as int)) =~= done + lines_of(rest));
            },
            None => {
                proof {
                    lemma_first_skip_none(v@, nl@, i as int);
                }
                let last = string_between(&v, i, v.len());
                assert(last@ =~= rest);
                r.push(last);
                assert(texts(r@) =~= done + seq![rest]);
                i = v.len();
                assert(v@.skip(i as int) =~= Seq::empty());
                assert(texts(r@) + lines_of(v@.skip(i as int)) =~= done + lines_of(rest));
            },
        }
    }
    assert(v@.skip(i as int) =~= Seq::empty());
    assert(texts(r@) + lines_of(v@.skip(i as int)) =~= texts(r@));
    r
}

/// Positions in a suffix are positions in the whole, moved by the length cut off.
pub proof fn lemma_skip_occurs(s: Seq<char>, p: Seq<char>, n: int)
    requires
        0 <= n <= s.len(),
    ensures
        forall|j: int| #![trigger occurs_at(s.skip(n), p, j)]
            0 <= j ==> (occurs_at(s.skip(n), p, j) <==> occurs_at(s, p, n + j)),
{
    assert forall|j: int| #![trigger occurs_at(s.skip(n), p, j)] 0 <= j implies (occurs_at(
        s.skip(n),
        p,
        j,
    ) <==> occurs_at(s, p, n + j)) by {
        if n + j + p.len() <= s.len() {
            assert(s.skip(n).subrange(j, j + p.len()) =~= s.subrange(n + j, n + j + p.len()));
        }
    }
}

proof fn lemma_first_skip(s: Seq<char>, p: Seq<char>, n: int, k: int)
    requires
        0 <= n <= s.len(),
        first_at(s, p, n) == Some(k),
    ensures
        n <= k,
        first_at(s.skip(n), p, 0) == Some(k - n),
{
    lemma_first_at(s, p, n);
    lemma_first_at(s.skip(n), p, 0);
    lemma_skip_occurs(s, p, n);
    assert(occurs_at(s.skip(n), p, k - n));
    let j = first_at(s.skip(n), p, 0)->0;
    assert(occurs_at(s.skip(n), p, j));
    assert(occurs_at(s, p, n + j));
}

proof fn lemma_first_skip_none(s: Seq<char>, p: Seq<char>, n: int)
    requires
        0 <= n <= s.len(),
        first_at(s, p, n) is None,
    ensures
        first_at(s.skip(n), p, 0) is None,
{
    lemma_first_at(s, p, n);
    lemma_first_at(s.skip(n), p, 0);
    lemma_skip_occurs(s, p, n);
    if first_at(s.skip(n), p, 0) is Some {
        let j = first_at(s.skip(n), p, 0)->0;
        assert(occurs_at(s.skip(n), p, j));
        assert(occurs_at(s, p, n + j));
    }
}

/// `s` with each `p` replaced by `by`, from left to right.
pub open spec fn replaced(s: Seq<char>, p: Seq<char>, by: Seq<char>) -> Seq<char>
    decreases s.len(),
{
    if p.len() == 0 {
        s
    } else {
        match first_at(s, p, 0) {
            Some(i) => if 0 <= i && i + p.len() <= s.len() {
                s.take(i) + by + replaced(s.skip(i + p.len()), p, by)
            } else {
                s
            },
            None => s,
        }
    }
}

pub fn replace(s: &str, p: &str, by: &str) -> (r: String)
    requires
        p@.len() > 0,
    ensures
        r@ == replaced(s@, p@, by@),
{
    let v = chars_of(s);
    let q = chars_of(p);
    let mut r = String::new();
    let mut i: usize = 0;
    assert(v@.skip(0) =~= v@);
    assert(r@ + replaced(v@.skip(0), q@, by@) =~= replaced(v@, q@, by@));
    loop
        invariant
            v@ == s@,
            q@ == p@,
            q@.len() > 0,
            i <= v@.len(),
            r@ + replaced(v@.skip(i as int), q@, by@) == replaced(v@, q@, by@),
        decreases v.len() - i,
    {
        let ghost rest = v@.skip(i as int);
        let ghost done = r@;
        proof {
            lemma_first_at(v@, q@, i as int);
        }
        match find_in(&v, &q, i) {
            Some(k) => {
                proof {
                    lemma_first_skip(v@, q@, i as int, k as int);
                    assert(rest.take(k - i) =~= v@.subrange(i as int, k as int));
                    assert(rest.skip(k - i + q@.len()) =~= v@.skip(k + q@.len()));
                }
                let piece = string_between(&v, i, k);
                r.append(piece.as_str());
                r.append(by);
                i = k + q.len();
                assert(r@ + replaced(v@.skip(i as int), q@, by@) =~= done + replaced(
                    rest,
                    q@,
                    by@,
                ));
            },
            None => {
                proof {
                    lemma_first_skip_none(v@, q@, i as int);
                }
                let piece = string_between(&v, i, v.len());
                assert(piece@ =~= rest);
                r.append(piece.as_str());
                return r;
            },
        }
    }
}

/// `s` with each character of `set` replaced by `by`.
pub open spec fn replaced_chars(s: Seq<char>, set: Seq<char>, by: Seq<char>) -> Seq<char>
    decreases s.len(),
{
    if s.len() == 0 {
        s
    } else {
        replaced_chars(s.drop_last(), set, by) + if set.contains(s.last()) {
            by
        } else {
            seq![s.last()]
        }
    }
}

pub fn replace_chars(s: &str, set: &str, by: &str) -> (r: String)
    ensures
        r@ == replaced_chars(s@, set@, by@),
{
    let v = chars_of(s);
    let mut r = String::new();
    let mut i: usize = 0;
    while i < v.len()
        invariant
            i <= v@.len(),
            r@ == replaced_chars(v@.take(i as int), set@, by@),
        decreases v.len() - i,
    {
        assert(v@.take(i + 1).drop_last() =~= v@.take(i as int));
        let ghost done = r@;
        if has_char(set, v[i]) {
            r.append(by);
        } else {
            r.push(v[i]);
            assert(r@ =~= done + seq![v@[i as int]]);
        }
        i = i + 1;
    }
    assert(v@.take(i as int) =~= v@);
    r
}

/// The longest runs of `s` without white space, in order; `run` is the run that ends
/// where `s` starts.
pub open spec fn words_from(run: Seq<char>, s: Seq<char>) -> Seq<Seq<char>>
    decreases s.len(),
{
    if s.len() == 0 {
        if run.len() == 0 {
            Seq::empty()
        } else {
            seq![run]
        }
    } else if is_space(s[0]) {
        if run.len() == 0 {
            words_from(run, s.drop_first())
        } else {
            seq![run] + words_from(Seq::empty(), s.drop_first())
        }
    } else {
        words_from(run.push(s[0]), s.drop_first())
    }
}

pub open spec fn words_of(s: Seq<char>) -> Seq<Seq<char>> {
    words_from(Seq::empty(), s)
}

pub fn split_whitespace(s: &str) -> (r: Vec<String>)
    ensures
        texts(r@) == words_of(s@),
{
    let v = chars_of(s);
    let mut r: Vec<String> = Vec::new();
    let mut run = String::new();
    let mut run_len: usize = 0;
    let mut i: usize = 0;
    assert(v@.skip(0) =~= v@);
    assert(run@ =~= Seq::empty());
    assert(texts(r@) + words_from(run@, v@.skip(0)) =~= words_of(v@));
    while i < v.len()
        invariant
            i <= v@.len(),
            run@.len() == run_len,
            run_len <= i,
            texts(r@) + words_from(run@, v@.skip(i as int)) == words_of(v@),
        decreases v.len() - i,
    {
        let ghost rest = v@.skip(i as int);
        let ghost done = texts(r@);
        let ghost before = run@;
        assert(rest.drop_first() =~= v@.skip(i + 1));
        if is_whitespace(v[i]) {
            if run_len > 0 {
                r.push(run);
                run = String::new();
                run_len = 0;
                assert(run@ =~= Seq::empty());
                assert(texts(r@) =~= done + seq![before]);
                assert(texts(r@) + words_from(run@, v@.skip(i + 1)) =~= done + words_from(
                    before,
                    rest,
                ));
            }
        } else {
            run.push(v[i]);
            run_len = run_len + 1;
        }
        i = i + 1;
    }
    assert(v@.skip(i as int) =~= Seq::empty());
    let ghost done = texts(r@);
    if run_len > 0 {
        let ghost before = run@;
        r.push(run);
        assert(texts(r@) =~= done + seq![before]);
    } else {
        assert(done + Seq::<Seq<char>>::empty() =~= done);
    }
    r
}

// ---------------------------------------------------------------------------
// Joining
// ---------------------------------------------------------------------------

/// The parts one after the other, with `sep` between neighbours.
pub open spec fn joined(parts: Seq<Seq<char>>, sep: Seq<char>) -> Seq<char>
    decreases parts.len(),
{
    if parts.len() == 0 {
        Seq::empty()
    } else if parts.len() == 1 {
        parts[0]
    } else {
        joined(parts.drop_last(), sep) + sep + parts.last()
    }
}

pub fn join(parts: &Vec<String>, sep: &str) -> (r: String)
    ensures
        r@ == joined(texts(parts@), sep@),
{
    let mut r = String::new();
    let mut i: usize = 0;
    while i < parts.len()
        invariant
            i <= parts@.len(),
            r@ == joined(texts(parts@).take(i as int), sep@),
        decreases parts.len() - i,
    {
        let ghost done = r@;
        assert(texts(parts@).take(i + 1).drop_last() =~= texts(parts@).take(i as int));
        if i > 0 {
            r.append(sep);
        }
        r.append(parts[i].as_str());
        if i == 0 {
            assert(r@ =~= parts@[0]@);
        }
        i = i + 1;
    }
    assert(texts(parts@).take(i as int) =~= texts(parts@));
    r
}

/// `s` written `n` times.
pub open spec fn repeated(s: Seq<char>, n: int) -> Seq<char>
    decreases n,
{
    if n <= 0 {
        Seq::empty()
    } else {
        repeated(s, n - 1) + s
    }
}

pub fn repeat(s: &str, n: usize) -> (r: String)
    ensures
        r@ == repeated(s@, n as int),
{
    let mut r = String::new();
    let mut i: usize = 0;
    while i < n
        invariant
            i <= n,
            r@ == repeated(s@, i as int),
        decreases n - i,
    {
        r.append(s);
        i = i + 1;
    }
    r
}

// ---------------------------------------------------------------------------
// Letter case
// ---------------------------------------------------------------------------

pub open spec fn lowered(s: Seq<char>) -> Seq<char> {
    s.map_values(|c: char| lower_char(c))
}

pub fn to_ascii_lowercase(s: &str) -> (r: String)
    ensures
        r@ == lowered(s@),
{
    let v = chars_of(s);
    let mut r = String::new();
    let mut i: usize = 0;
    while i < v.len()
        invariant
            i <= v@.len(),
            r@ == lowered(v@).take(i as int),
        decreases v.len() - i,
    {
        r.push(to_lower_char(v[i]));
        i = i + 1;
        assert(r@ =~= lowered(v@).take(i as int));
    }
    assert(lowered(v@).take(i as int) =~= lowered(v@));
    r
}

pub fn eq_ignore_ascii_case(a: &str, b: &str) -> (r: bool)
    ensures
        r == (lowered(a@) == lowered(b@)),
{
    let x = to_ascii_lowercase(a);
    let y = to_ascii_lowercase(b);
    same(x.as_str(), y.as_str())
}

// ---------------------------------------------------------------------------
// Prefixes by length
// ---------------------------------------------------------------------------

/// The first `n` characters of `s`, or all of it.
pub open spec fn head_of(s: Seq<char>, n: int) -> Seq<char> {
    if s.len() <= n {
        s
    } else {
        s.take(n)
    }
}

pub fn take_chars(s: &str, n: usize) -> (r: String)
    ensures
        r@ == head_of(s@, n as int),
{
    let v = chars_of(s);
    if v.len() <= n {
        string_of(&v)
    } else {
        let r = string_between(&v, 0, n);
        assert(r@ =~= s@.take(n as int));
        r
    }
}

// ---------------------------------------------------------------------------
// Texts that are put together
// ---------------------------------------------------------------------------

/// Each part stands in the text that the parts make.
pub proof fn lemma_joined_holds(parts: Seq<Seq<char>>, sep: Seq<char>, i: int)
    requires
        0 <= i < parts.len(),
    ensures
        has_text(joined(parts, sep), parts[i]),
    decreases parts.len(),
{
    let all = joined(parts, sep);
    if parts.len() == 1 {
        assert(all.subrange(0, all.len() as int) =~= parts[0]);
        assert(occurs_at(all, parts[0], 0));
    } else {
        let before = joined(parts.drop_last(), sep);
        if i == parts.len() - 1 {
            let n = before.len() + sep.len();
            assert(all.subrange(n as int, (n + parts[i].len()) as int) =~= parts[i]);
            assert(occurs_at(all, parts[i], n as int));
        } else {
            lemma_joined_holds(parts.drop_last(), sep, i);
            let at = choose|at: int| occurs_at(before, parts[i], at);
            assert(all.subrange(at, at + parts[i].len()) =~= before.subrange(
                at,
                at + parts[i].len(),
            ));
            assert(occurs_at(all, parts[i], at));
        }
    }
}

/// The first part starts the text that the parts make.
pub proof fn lemma_joined_starts(parts: Seq<Seq<char>>, sep: Seq<char>)
    requires
        parts.len() > 0,
    ensures
        has_prefix(joined(parts, sep), parts[0]),
    decreases parts.len(),
{
    let all = joined(parts, sep);
    if parts.len() == 1 {
        assert(all.subrange(0, all.len() as int) =~= parts[0]);
    } else {
        lemma_joined_starts(parts.drop_last(), sep);
        let before = joined(parts.drop_last(), sep);
        assert(before.subrange(0, parts[0].len() as int) == parts[0]);
        assert(all.subrange(0, parts[0].len() as int) =~= before.subrange(
            0,
            parts[0].len() as int,
        ));
    }
}

/// The length of a text that parts make is that of the parts and of what stands between them.
pub proof fn law_joining_keeps_the_parts(parts: Seq<Seq<char>>, more: Seq<char>, sep: Seq<char>)
    ensures
        joined(Seq::empty(), sep) == Seq::<char>::empty(),
        joined(seq![more], sep) == more,
        parts.len() > 0 ==> joined(parts.push(more), sep) == joined(parts, sep) + sep + more,
{
    assert(parts.push(more).drop_last() =~= parts);
}

} // verus!
