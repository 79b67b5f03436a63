//! What holds of texts, numbers, values and the outputs of tools.

use vstd::prelude::*;

use crate::exbash::clipped;
use crate::exbash::is_cleanup_candidate;
use crate::exbash::is_stopped;
use crate::exbash::is_temporary;
use crate::exbash::one_line;
use crate::exbash::remove_warning;
use crate::exbash::tells_lost_connection;
use crate::exbash::tells_missing;
use crate::exbash::tells_storage_rejection;
use crate::json::compact;
use crate::json::compact_items;
use crate::json::escaped_all;
use crate::json::plain;
use crate::json::JsonView;
use crate::number::all_digits;
use crate::number::decimal;
use crate::number::digits;
use crate::number::digits_value;
use crate::number::parsed_int;
use crate::output::has_line;
use crate::output::merged;
use crate::output::non_empty;
use crate::output::output_text;
use crate::output::stacked;
use crate::output::stripped;
use crate::output::with_blank_line;
use crate::output::with_footer;
use crate::output::with_line;
use crate::output::without_hash_lines;
use crate::text::first_at;
use crate::text::has_prefix;
use crate::text::has_suffix;
use crate::text::has_text;
use crate::text::is_digit;
use crate::text::is_space;
use crate::text::joined;
use crate::text::last_at;
use crate::text::lemma_first_at;
use crate::text::lines_of;
use crate::text::lowered;
use crate::text::occurs_at;
use crate::text::replaced;
use crate::text::replaced_chars;
use crate::text::split_first;
use crate::text::split_last;
use crate::text::trim_start_of;
use crate::text::trimmed;
use crate::text::words_from;
use crate::text::words_of;
use crate::types::ExbashTaskSnapshotView;

verus! {

// ---------------------------------------------------------------------------
// Numbers
// ---------------------------------------------------------------------------

proof fn lemma_digits_read_back(n: nat)
    ensures
        all_digits(digits(n)),
        digits_value(digits(n)) == n,
    decreases n,
{
    let s = digits(n);
    if n < 10 {
        assert(s.drop_last() =~= Seq::empty());
        assert(digits_value(s.drop_last()) == 0);
        assert(s.last() as int == '0' as int + n);
    } else {
        lemma_digits_read_back(n / 10);
        assert(s.drop_last() =~= digits(n / 10));
        assert(s.last() as int == '0' as int + n % 10);
        assert forall|i: int| 0 <= i < s.len() implies is_digit(#[trigger] s[i]) by {
            if i < s.len() - 1 {
                assert(s[i] == digits(n / 10)[i]);
            }
        }
    }
}

/// A number that is written reads back, so no two numbers are written alike; it starts with a
/// `-` exactly where it is negative.
pub proof fn law_numbers_read_back(n: int, other: int)
    ensures
        parsed_int(decimal(n)) == Some(n),
        decimal(n) == decimal(other) ==> n == other,
        n < 0 <==> decimal(n)[0] == '-',
{
    lemma_number(n);
    lemma_number(other);
}

proof fn lemma_number(n: int)
    ensures
        parsed_int(decimal(n)) == Some(n),
        n < 0 <==> decimal(n)[0] == '-',
{
    if n < 0 {
        lemma_digits_read_back((-n) as nat);
        assert(decimal(n).skip(1) =~= digits((-n) as nat));
    } else {
        lemma_digits_read_back(n as nat);
        let s = decimal(n);
        assert(is_digit(s[0]));
    }
}

// ---------------------------------------------------------------------------
// Texts
// ---------------------------------------------------------------------------

/// Splitting at a text gives what stands around its first place, or around its last one; it fails
/// exactly where the text does not occur.
pub proof fn law_splitting(s: Seq<char>, p: Seq<char>)
    ensures
        split_first(s, p) is Some <==> has_text(s, p),
        split_first(s, p) matches Some((a, b)) ==> s == a + p + b && forall|i: int|
            0 <= i < a.len() ==> !#[trigger] occurs_at(s, p, i),
        split_last(s, p) is Some <==> has_text(s, p),
        split_last(s, p) matches Some((a, b)) ==> s == a + p + b && forall|i: int|
            i > a.len() ==> !#[trigger] occurs_at(s, p, i),
{
    lemma_first_at(s, p, 0);
    lemma_last(s, p, s.len() - p.len());
    if let Some((a, b)) = split_first(s, p) {
        let i = first_at(s, p, 0)->0;
        assert(s =~= a + s.subrange(i, i + p.len()) + b);
    }
    if let Some((a, b)) = split_last(s, p) {
        let i = last_at(s, p, s.len() - p.len())->0;
        assert(s =~= a + s.subrange(i, i + p.len()) + b);
    }
}

proof fn lemma_last(s: Seq<char>, p: Seq<char>, to: int)
    ensures
        match last_at(s, p, to) {
            Some(i) => 0 <= i <= to && occurs_at(s, p, i) && forall|j: int|
                i < j <= to ==> !occurs_at(s, p, j),
            None => forall|j: int| j <= to ==> !occurs_at(s, p, j),
        },
    decreases to + 1,
{
    if to >= 0 && !occurs_at(s, p, to) {
        lemma_last(s, p, to - 1);
    }
}

proof fn lemma_first_char(a: Seq<char>, c: char, b: Seq<char>)
    requires
        !a.contains(c),
    ensures
        first_at(a.push(c) + b, seq![c], 0) == Some(a.len() as int),
{
    let s = a.push(c) + b;
    let n = a.len() as int;
    lemma_first_at(s, seq![c], 0);
    assert(s.subrange(n, n + 1) =~= seq![c]);
    assert(occurs_at(s, seq![c], n));
    let i = first_at(s, seq![c], 0)->0;
    if i < n {
        assert(s.subrange(i, i + 1)[0] == s[i]);
        assert(s[i] == a[i]);
        assert(a.contains(a[i]));
    }
}

/// A text has the lines that stand in it: each ends at a line feed, to which a carriage return
/// before it belongs; a text without one is one line, and an empty text has none.
pub proof fn law_lines(line: Seq<char>, rest: Seq<char>)
    requires
        !line.contains('\n'),
    ensures
        lines_of(Seq::empty()) == Seq::<Seq<char>>::empty(),
        line.len() > 0 ==> lines_of(line) == seq![line],
        (line.len() == 0 || line.last() != '\r') ==> lines_of(line.push('\n') + rest) == seq![line]
            + lines_of(rest),
        lines_of(line.push('\r').push('\n') + rest) == seq![line] + lines_of(rest),
{
    lemma_first_at(line, seq!['\n'], 0);
    if let Some(i) = first_at(line, seq!['\n'], 0) {
        assert(line.subrange(i, i + 1)[0] == '\n');
        assert(line.contains(line[i]));
    }
    lemma_first_char(line, '\n', rest);
    let s = line.push('\n') + rest;
    assert(s.take(line.len() as int) =~= line);
    assert(s.skip((line.len() + 1) as int) =~= rest);
    let with = line.push('\r');
    assert(!with.contains('\n')) by {
        if with.contains('\n') {
            let i = choose|i: int| 0 <= i < with.len() && with[i] == '\n';
            assert(line[i] == '\n');
        }
    }
    lemma_first_char(with, '\n', rest);
    let t = with.push('\n') + rest;
    assert(t.take(with.len() as int) =~= with);
    assert(t.skip((with.len() + 1) as int) =~= rest);
    assert(with.drop_last() =~= line);
}

proof fn lemma_words(run: Seq<char>, word: Seq<char>, rest: Seq<char>)
    requires
        forall|i: int| 0 <= i < word.len() ==> !is_space(#[trigger] word[i]),
    ensures
        words_from(run, word + rest) == words_from(run + word, rest),
    decreases word.len(),
{
    if word.len() == 0 {
        assert(word + rest =~= rest);
        assert(run + word =~= run);
    } else {
        let tail = word.drop_first();
        assert forall|i: int| 0 <= i < tail.len() implies !is_space(#[trigger] tail[i]) by {
            assert(tail[i] == word[i + 1]);
        }
        lemma_words(run.push(word[0]), tail, rest);
        assert((word + rest).drop_first() =~= tail + rest);
        assert(run.push(word[0]) + tail =~= run + word);
        assert((word + rest)[0] == word[0]);
    }
}

/// The words of a text are the runs without white space in it, in their order.
pub proof fn law_words(word: Seq<char>, space: char, rest: Seq<char>)
    requires
        word.len() > 0,
        forall|i: int| 0 <= i < word.len() ==> !is_space(#[trigger] word[i]),
        is_space(space),
    ensures
        words_of(Seq::empty()) == Seq::<Seq<char>>::empty(),
        words_of(word) == seq![word],
        words_of(word.push(space) + rest) == seq![word] + words_of(rest),
        words_of(seq![space] + rest) == words_of(rest),
{
    let e = Seq::<char>::empty();
    lemma_words(e, word, e);
    assert(word + e =~= word);
    assert(e + word =~= word);
    lemma_words(e, word, seq![space] + rest);
    assert(word + (seq![space] + rest) =~= word.push(space) + rest);
    assert((seq![space] + rest).drop_first() =~= rest);
}

proof fn lemma_replaced_chars(s: Seq<char>, set: Seq<char>, by: Seq<char>, c: char)
    requires
        !by.contains(c),
        set.contains(c),
    ensures
        !replaced_chars(s, set, by).contains(c),
    decreases s.len(),
{
    if s.len() > 0 {
        lemma_replaced_chars(s.drop_last(), set, by, c);
        let head = replaced_chars(s.drop_last(), set, by);
        let all = replaced_chars(s, set, by);
        if all.contains(c) {
            let i = choose|i: int| 0 <= i < all.len() && all[i] == c;
            if i < head.len() {
                assert(head[i] == c);
            } else if set.contains(s.last()) {
                assert(by[i - head.len()] == c);
            }
        }
    }
}

proof fn lemma_nothing_replaced(s: Seq<char>, set: Seq<char>, by: Seq<char>)
    requires
        forall|i: int| 0 <= i < s.len() ==> !set.contains(#[trigger] s[i]),
    ensures
        replaced_chars(s, set, by) == s,
    decreases s.len(),
{
    if s.len() > 0 {
        let fewer = s.drop_last();
        assert forall|i: int| 0 <= i < fewer.len() implies !set.contains(#[trigger] fewer[i]) by {
            assert(fewer[i] == s[i]);
        }
        lemma_nothing_replaced(fewer, set, by);
        assert(!set.contains(s[s.len() - 1]));
        assert(fewer + seq![s.last()] =~= s);
    }
}

/// A text on one line has no line break, and a text without one is kept as it is. Clipped, it has
/// at most thirty characters, which are its first ones.
pub proof fn law_one_line(text: Seq<char>)
    ensures
        !one_line(text).contains('\n') && !one_line(text).contains('\r'),
        !text.contains('\n') && !text.contains('\r') ==> one_line(text) == text,
        clipped(text).len() <= 30,
        has_prefix(one_line(text), clipped(text)),
        one_line(text).len() <= 30 ==> clipped(text) == one_line(text),
        one_line(text).len() > 30 ==> clipped(text).len() == 30,
{
    reveal_strlit("\r\n");
    reveal_strlit("\\n");
    reveal_strlit("\n\r");
    let set = "\n\r"@;
    assert(set =~= seq!['\n', '\r']);
    assert(set[0] == '\n' && set[1] == '\r');
    let by = "\\n"@;
    assert(by =~= seq!['\\', 'n']);
    let first = replaced(text, "\r\n"@, by);
    lemma_replaced_chars(first, set, by, '\n');
    lemma_replaced_chars(first, set, by, '\r');
    if !text.contains('\n') && !text.contains('\r') {
        lemma_first_at(text, "\r\n"@, 0);
        if let Some(i) = first_at(text, "\r\n"@, 0) {
            assert(text.subrange(i, i + 2)[0] == text[i]);
            assert("\r\n"@[0] == '\r');
            assert(text.contains(text[i]));
        }
        assert forall|i: int| 0 <= i < text.len() implies !set.contains(#[trigger] text[i]) by {
            assert(text.contains(text[i]));
        }
        lemma_nothing_replaced(text, set, by);
    }
    let line = one_line(text);
    assert(line.subrange(0, clipped(text).len() as int) =~= clipped(text));
}

/// Lowering a text changes its large letters to small ones and nothing else, so lowering twice is
/// lowering once.
pub proof fn law_lowering(s: Seq<char>, i: int)
    requires
        0 <= i < s.len(),
    ensures
        lowered(s).len() == s.len(),
        'A' <= s[i] <= 'Z' ==> lowered(s)[i] as int == s[i] as int + 32,
        !('A' <= s[i] <= 'Z') ==> lowered(s)[i] == s[i],
        lowered(lowered(s)) == lowered(s),
{
    assert(lowered(lowered(s)) =~= lowered(s));
}

// ---------------------------------------------------------------------------
// Values as text
// ---------------------------------------------------------------------------

proof fn lemma_compact_items(a: Seq<JsonView>)
    ensures
        compact_items(a).len() == a.len(),
        forall|i: int| 0 <= i < a.len() ==> #[trigger] compact_items(a)[i] == compact(a[i]),
    decreases a.len(),
{
    if a.len() > 0 {
        lemma_compact_items(a.drop_last());
    }
}

proof fn lemma_escaped_plain(s: Seq<char>)
    requires
        forall|i: int|
            0 <= i < s.len() ==> (#[trigger] s[i]) as int >= 0x20 && s[i] != '"' && s[i] != '\\',
    ensures
        escaped_all(s) == s,
    decreases s.len(),
{
    if s.len() > 0 {
        let fewer = s.drop_last();
        assert forall|i: int| 0 <= i < fewer.len() implies (#[trigger] fewer[i]) as int >= 0x20
            && fewer[i] != '"' && fewer[i] != '\\' by {
            assert(fewer[i] == s[i]);
        }
        lemma_escaped_plain(fewer);
        let c = s[s.len() - 1];
        assert(c as int >= 0x20);
        assert(crate::json::escaped(c) == seq![c]);
        assert(fewer + seq![c] =~= s);
    }
}

/// A text stands for itself; in JSON it stands in quotation marks, as it is where it needs no
/// escapes. A number is written in decimal, and the items of an array one behind the other.
pub proof fn law_values_are_written(s: Seq<char>, n: int, items: Seq<JsonView>, item: JsonView)
    ensures
        plain(JsonView::Str(s)) == s,
        plain(JsonView::Int(n)) == decimal(n),
        plain(JsonView::Bool(true)) == "true"@,
        plain(JsonView::Bool(false)) == "false"@,
        plain(JsonView::Null) == "null"@,
        (forall|i: int|
            0 <= i < s.len() ==> (#[trigger] s[i]) as int >= 0x20 && s[i] != '"' && s[i] != '\\')
            ==> compact(JsonView::Str(s)) == "\""@ + s + "\""@,
        compact(JsonView::Arr(Seq::empty())) == "[]"@,
        compact(JsonView::Arr(seq![item])) == "["@ + compact(item) + "]"@,
        items.len() > 0 ==> compact(JsonView::Arr(items.push(item))) == "["@ + joined(
            compact_items(items),
            ","@,
        ) + ","@ + compact(item) + "]"@,
        compact_items(items).len() == items.len(),
        forall|i: int|
            0 <= i < items.len() ==> #[trigger] compact_items(items)[i] == compact(items[i]),
{
    if forall|i: int|
        0 <= i < s.len() ==> (#[trigger] s[i]) as int >= 0x20 && s[i] != '"' && s[i] != '\\' {
        lemma_escaped_plain(s);
    }
    lemma_compact_items(items);
    lemma_compact_items(items.push(item));
    lemma_compact_items(seq![item]);
    lemma_compact_items(Seq::empty());
    reveal_strlit("[");
    reveal_strlit("]");
    reveal_strlit("[]");
    let none = Seq::<JsonView>::empty();
    assert(compact_items(none) =~= Seq::empty());
    assert(joined(Seq::empty(), ","@) == Seq::<char>::empty());
    assert("["@ + Seq::<char>::empty() + "]"@ =~= "[]"@);
    assert(compact_items(seq![item]) =~= seq![compact(item)]);
    assert(items.push(item).drop_last() =~= items);
    assert(compact_items(items.push(item)) =~= compact_items(items).push(compact(item)));
    let parts = compact_items(items).push(compact(item));
    assert(parts.drop_last() =~= compact_items(items));
    assert("["@ + (joined(compact_items(items), ","@) + ","@ + compact(item)) + "]"@ =~= "["@
        + joined(compact_items(items), ","@) + ","@ + compact(item) + "]"@);
}

// ---------------------------------------------------------------------------
// Outputs
// ---------------------------------------------------------------------------

proof fn lemma_part_names()
    ensures
        "output"@ != "result"@,
        "output"@ != "message"@,
        "output"@ != "text"@,
        "output"@ != "info"@,
        "result"@ != "message"@,
        "result"@ != "text"@,
        "result"@ != "info"@,
        "message"@ != "text"@,
        "message"@ != "info"@,
        "text"@ != "info"@,
{
    reveal_strlit("output");
    reveal_strlit("result");
    reveal_strlit("message");
    reveal_strlit("text");
    reveal_strlit("info");
    assert("output"@.len() == 6);
    assert("result"@.len() == 6);
    assert("message"@.len() == 7);
    assert("text"@.len() == 4);
    assert("info"@.len() == 4);
    assert("output"@[0] == 'o' && "result"@[0] == 'r');
    assert("text"@[0] == 't' && "info"@[0] == 'i');
}

/// The parts of an output stand on lines of their own, the message first and the information last;
/// an empty part takes no line.
pub proof fn law_parts_are_stacked(message: Seq<char>, text: Seq<char>, info: Seq<char>)
    requires
        message.len() > 0 && text.len() > 0 && info.len() > 0,
    ensures
        stacked(message, text, info) == message + "\n"@ + text + "\n"@ + info,
        stacked(message, text, Seq::empty()) == message + "\n"@ + text,
        stacked(message, Seq::empty(), info) == message + "\n"@ + info,
        stacked(Seq::empty(), text, info) == text + "\n"@ + info,
        stacked(message, Seq::empty(), Seq::empty()) == message,
        stacked(Seq::empty(), text, Seq::empty()) == text,
        stacked(Seq::empty(), Seq::empty(), info) == info,
        stacked(Seq::empty(), Seq::empty(), Seq::empty()) == Seq::<char>::empty(),
{
    let e = Seq::<char>::empty();
    lemma_stack(message, text, info);
    lemma_stack(message, text, e);
    lemma_stack(message, e, info);
    lemma_stack(e, text, info);
    lemma_stack(message, e, e);
    lemma_stack(e, text, e);
    lemma_stack(e, e, info);
    lemma_stack(e, e, e);
    let two = seq![message, text];
    assert(two.drop_last() =~= seq![message]);
    assert(seq![message, info].drop_last() =~= seq![message]);
    assert(seq![text, info].drop_last() =~= seq![text]);
    assert(seq![message, text, info].drop_last() =~= two);
    reveal_with_fuel(joined, 4);
}

proof fn lemma_stack(a: Seq<char>, b: Seq<char>, c: Seq<char>)
    ensures
        non_empty(seq![a, b, c]) == (if a.len() > 0 {
            seq![a]
        } else {
            Seq::empty()
        }) + (if b.len() > 0 {
            seq![b]
        } else {
            Seq::empty()
        }) + (if c.len() > 0 {
            seq![c]
        } else {
            Seq::empty()
        }),
        a.len() > 0 && b.len() > 0 && c.len() > 0 ==> non_empty(seq![a, b, c]) == seq![a, b, c],
        a.len() > 0 && b.len() > 0 && c.len() == 0 ==> non_empty(seq![a, b, c]) == seq![a, b],
        a.len() > 0 && b.len() == 0 && c.len() > 0 ==> non_empty(seq![a, b, c]) == seq![a, c],
        a.len() == 0 && b.len() > 0 && c.len() > 0 ==> non_empty(seq![a, b, c]) == seq![b, c],
        a.len() > 0 && b.len() == 0 && c.len() == 0 ==> non_empty(seq![a, b, c]) == seq![a],
        a.len() == 0 && b.len() > 0 && c.len() == 0 ==> non_empty(seq![a, b, c]) == seq![b],
        a.len() == 0 && b.len() == 0 && c.len() > 0 ==> non_empty(seq![a, b, c]) == seq![c],
        a.len() == 0 && b.len() == 0 && c.len() == 0 ==> non_empty(seq![a, b, c]) == Seq::<
            Seq<char>,
        >::empty(),
{
    assert(seq![a, b, c].drop_last() =~= seq![a, b]);
    assert(seq![a, b].drop_last() =~= seq![a]);
    assert(seq![a].drop_last() =~= Seq::empty());
    reveal_with_fuel(non_empty, 5);
    let one = non_empty(seq![a]);
    assert(one =~= if a.len() > 0 {
        seq![a]
    } else {
        Seq::empty()
    });
    let two = non_empty(seq![a, b]);
    assert(two =~= one + (if b.len() > 0 {
        seq![b]
    } else {
        Seq::empty()
    }));
    assert(non_empty(seq![a, b, c]) =~= two + (if c.len() > 0 {
        seq![c]
    } else {
        Seq::empty()
    }));
    assert(seq![a] + seq![b] =~= seq![a, b]);
    assert(seq![a] + seq![b] + seq![c] =~= seq![a, b, c]);
}

/// What a result shows is its output: a text as it is, or the parts of it by their names.
pub proof fn law_outputs_are_shown(result: JsonView, text: Seq<char>)
    ensures
        result.field("output"@) == Some(JsonView::Str(text)) ==> output_text(result) == text,
        merged(JsonView::Str(text)) == text,
        text.len() > 0 && (result.field("output"@) matches Some(v) && v is Obj) && result.field2(
            "output"@,
            "text"@,
        ) == Some(JsonView::Str(text)) && result.field2("output"@, "message"@) is None
            && result.field2("output"@, "info"@) is None ==> output_text(result) == text,
        result.field("output"@) is None ==> output_text(result).len() == 0,
{
    reveal_strlit("");
    assert(""@ =~= Seq::<char>::empty());
    if text.len() > 0 {
        law_parts_are_stacked(text, text, text);
    }
}

/// Stripping a result takes its output away, and that of the result in it, and keeps everything
/// else.
pub proof fn law_only_outputs_are_stripped(result: JsonView, key: Seq<char>)
    ensures
        stripped(result).field("output"@) is None,
        stripped(result).field2("result"@, "output"@) is None,
        key != "output"@ && key != "result"@ ==> stripped(result).field(key) == result.field(key),
        key != "output"@ ==> stripped(result).field2("result"@, key) == result.field2(
            "result"@,
            key,
        ),
{
    lemma_part_names();
}

/// A footer stands behind the text and a blank line; without a footer the text is kept.
pub proof fn law_footers_stand_behind(text: Seq<char>, footer: Seq<Seq<char>>)
    ensures
        has_prefix(with_footer(text, footer), text),
        footer.len() == 0 ==> with_footer(text, footer) == text,
        footer.len() > 0 ==> has_suffix(with_footer(text, footer), joined(footer, "\n"@)),
        footer.len() > 0 ==> with_footer(text, footer) == with_blank_line(text) + joined(
            footer,
            "\n"@,
        ),
        has_prefix(with_blank_line(text), text),
        has_suffix(with_blank_line(text), "\n\n"@) || has_suffix(with_blank_line(text), "\n\r\n"@),
{
    reveal_strlit("\n\n");
    reveal_strlit("\n");
    reveal_strlit("\r\n\n");
    reveal_strlit("\r\n\r\n");
    reveal_strlit("\n\r\n");
    assert("\n\n"@ =~= seq!['\n', '\n']);
    assert("\n"@ =~= seq!['\n']);
    assert("\r\n\n"@ =~= seq!['\r', '\n', '\n']);
    assert("\r\n\r\n"@ =~= seq!['\r', '\n', '\r', '\n']);
    assert("\n\r\n"@ =~= seq!['\n', '\r', '\n']);
    let blank = with_blank_line(text);
    assert(text.subrange(0, text.len() as int) =~= text);
    assert(blank.subrange(0, text.len() as int) =~= text);
    let n = blank.len() as int;
    if has_suffix(text, "\r\n\n"@) {
        let k = text.len() - 3;
        assert(text.subrange(k, k + 3)[1] == text[k + 1]);
        assert(text.subrange(k, k + 3)[2] == text[k + 2]);
        assert(text.subrange(k + 1, k + 3) =~= "\n\n"@);
    } else if has_suffix(text, "\r\n\r\n"@) {
        let k = text.len() - 4;
        assert(text.subrange(k, k + 4)[1] == text[k + 1]);
        assert(text.subrange(k, k + 4)[2] == text[k + 2]);
        assert(text.subrange(k, k + 4)[3] == text[k + 3]);
        assert(text.subrange(k + 1, k + 4) =~= "\n\r\n"@);
    } else if !has_suffix(text, "\n\n"@) {
        if has_suffix(text, "\n"@) {
            let k = text.len() - 1;
            assert(text.subrange(k, k + 1)[0] == text[k]);
            if text.len() > 0 {
                assert(blank.subrange(n - 2, n) =~= "\n\n"@);
            }
        } else {
            assert(blank.subrange(n - 2, n) =~= "\n\n"@);
        }
    }
    if footer.len() > 0 {
        let all = with_footer(text, footer);
        let tail = joined(footer, "\n"@);
        assert(all.subrange(0, text.len() as int) =~= text);
        assert(all.subrange(all.len() - tail.len(), all.len() as int) =~= tail);
    }
}

/// A line that is to be seen is seen: the text shows it already or ends with it, and keeps what it
/// had.
pub proof fn law_lines_are_seen(text: Seq<char>, line: Seq<char>)
    ensures
        has_prefix(with_line(text, line), text),
        has_line(text, line) ==> with_line(text, line) == text,
        !has_line(text, line) ==> has_suffix(with_line(text, line), seq!['\n'] + line),
{
    let all = with_line(text, line);
    assert(all.subrange(0, text.len() as int) =~= text);
    reveal_strlit("\n");
    assert("\n"@ =~= seq!['\n']);
    let tail = seq!['\n'] + line;
    if !has_line(text, line) {
        if has_suffix(text, "\n"@) {
            assert(text.subrange(text.len() - 1, text.len() as int)[0] == text.last());
        }
        assert(all.subrange(all.len() - tail.len(), all.len() as int) =~= tail);
    }
}

/// Lines that tell a hash are left out, and every other line is kept, in its order.
pub proof fn law_hash_lines_are_left_out(first: Seq<Seq<char>>, second: Seq<Seq<char>>, line: Seq<char>)
    ensures
        without_hash_lines(first + second) == without_hash_lines(first) + without_hash_lines(
            second,
        ),
        without_hash_lines(seq![line]) == if has_prefix(trim_start_of(line), "hashCode:"@) {
            Seq::empty()
        } else {
            seq![line]
        },
    decreases second.len(),
{
    reveal_with_fuel(without_hash_lines, 2);
    assert(seq![line].drop_last() =~= Seq::empty());
    assert(without_hash_lines(seq![line]) =~= if has_prefix(trim_start_of(line), "hashCode:"@) {
        Seq::empty()
    } else {
        seq![line]
    });
    if second.len() == 0 {
        assert(first + second =~= first);
        assert(without_hash_lines(first) + without_hash_lines(second) =~= without_hash_lines(
            first,
        ));
    } else {
        law_hash_lines_are_left_out(first, second.drop_last(), line);
        assert((first + second).drop_last() =~= first + second.drop_last());
        assert(without_hash_lines(first + second) =~= without_hash_lines(first)
            + without_hash_lines(second));
    }
}

// ---------------------------------------------------------------------------
// Kinds of tasks
// ---------------------------------------------------------------------------

/// A task that came to its end, and that nobody described, may be forgotten to make room; one that
/// runs, or that somebody described, may not.
pub proof fn law_ended_tasks_make_room(task: ExbashTaskSnapshotView)
    ensures
        task.description is None && (task.exit_code is Some || task.ended_at is Some)
            && task.state is None ==> is_cleanup_candidate(task),
        task.description is None && (task.state matches Some(s) && (trimmed(s) == "stop"@ || trimmed(
            s,
        ) == "stopped"@ || trimmed(s) == "timeout"@)) ==> is_cleanup_candidate(task),
        task.description is None && (task.state matches Some(s) && has_prefix(
            trimmed(s),
            "exit:"@,
        )) ==> is_cleanup_candidate(task),
        is_cleanup_candidate(task) ==> is_temporary(task) && is_stopped(task),
        (task.state matches Some(s) && (trimmed(s) == "running"@ || trimmed(s) == "unknown"@))
            ==> !is_stopped(task),
        task.state is None && task.exit_code is None && task.ended_at is None ==> !is_stopped(task),
        (task.description matches Some(d) && trimmed(d).len() > 0 && trimmed(d) != "Tmp Running"@)
            ==> !is_temporary(task),
        (task.description matches Some(d) && trimmed(d) == "Tmp Running"@) ==> is_temporary(task),
{
    reveal_strlit("running");
    reveal_strlit("unknown");
    reveal_strlit("stop");
    reveal_strlit("stopped");
    reveal_strlit("timeout");
    reveal_strlit("exit:");
    assert("running"@.len() == 7 && "unknown"@.len() == 7 && "stop"@.len() == 4 && "stopped"@.len()
        == 7 && "timeout"@.len() == 7 && "exit:"@.len() == 5);
    assert("running"@[0] == 'r' && "unknown"@[0] == 'u' && "stopped"@[0] == 's' && "timeout"@[0]
        == 't' && "exit:"@[0] == 'e');
    if let Some(s) = task.state {
        let t = trimmed(s);
        if has_prefix(t, "exit:"@) {
            assert(t.subrange(0, 5)[0] == t[0]);
        }
    }
}

/// What an executor says of a task that it lost or does not have is understood in any letter case.
pub proof fn law_messages_are_understood(message: Seq<char>)
    ensures
        tells_missing(message) <==> tells_missing(lowered(message)),
        tells_lost_connection(message) <==> tells_lost_connection(lowered(message)),
        tells_storage_rejection(message) <==> tells_storage_rejection(lowered(message)),
        has_text(lowered(message), "not found"@) ==> tells_missing(message),
        has_text(lowered(message), "does not exist"@) ==> tells_missing(message),
        has_text(lowered(message), "closed before responding"@) ==> tells_lost_connection(message),
        has_text(lowered(message), "disconnected"@) ==> tells_lost_connection(message),
        has_text(lowered(message), "timed out"@) ==> tells_lost_connection(message),
        has_text(lowered(message), "connection"@) ==> tells_lost_connection(message),
        has_text(lowered(message), "task stack is full"@) ==> tells_storage_rejection(message),
        has_text(lowered(message), "quota"@) ==> tells_storage_rejection(message),
        has_text(lowered(message), "limit"@) ==> tells_storage_rejection(message),
        has_text(lowered(message), "rejected"@) ==> tells_storage_rejection(message),
        tells_lost_connection(message) ==> remove_warning(message) == "notReplayable"@,
        !tells_lost_connection(message) ==> remove_warning(message) == "asyncTaskNotFound"@,
{
    assert(lowered(lowered(message)) =~= lowered(message));
}

} // verus!
