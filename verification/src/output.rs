//! The text that a result shows.

use vstd::prelude::*;

use crate::json::opt_string;
use crate::json::Json;
use crate::json::JsonView;
use crate::text::has_prefix;
use crate::text::has_suffix;
use crate::text::join;
use crate::text::joined;
use crate::text::lines;
use crate::text::lines_of;
use crate::text::same;
use crate::text::starts_with;
use crate::text::texts;
use crate::text::trim;
use crate::text::trim_start;
use crate::text::trim_start_of;
use crate::text::trimmed;

verus! {

#[derive(Debug, Clone, PartialEq, Eq)]
pub struct OutputParts {
    pub message: String,
    pub text: String,
    pub info: String,
}

#[verifier::ext_equal]
pub ghost struct OutputPartsView {
    pub message: Seq<char>,
    pub text: Seq<char>,
    pub info: Seq<char>,
}

impl OutputParts {
    pub open spec fn view(&self) -> OutputPartsView {
        OutputPartsView { message: self.message@, text: self.text@, info: self.info@ }
    }
}

impl Default for OutputParts {
    fn default() -> (r: Self)
        ensures
            r@ == no_parts(),
    {
        OutputParts { message: String::new(), text: String::new(), info: String::new() }
    }
}

pub open spec fn no_parts() -> OutputPartsView {
    OutputPartsView { message: Seq::empty(), text: Seq::empty(), info: Seq::empty() }
}

/// A part that may be left out; `None` where it is something other than text.
pub open spec fn part_of(v: Option<JsonView>) -> Option<Seq<char>> {
    match v {
        None => Some(Seq::empty()),
        Some(JsonView::Str(s)) => Some(s),
        _ => None,
    }
}

pub open spec fn item_at(a: Seq<JsonView>, i: int) -> Option<JsonView> {
    if 0 <= i < a.len() {
        Some(a[i])
    } else {
        None
    }
}

pub open spec fn parts_from(
    message: Option<JsonView>,
    text: Option<JsonView>,
    info: Option<JsonView>,
) -> Option<OutputPartsView> {
    match (part_of(message), part_of(text), part_of(info)) {
        (Some(message), Some(text), Some(info)) => Some(OutputPartsView { message, text, info }),
        _ => None,
    }
}

/// The parts of an output: the members of an object, or the items of an array of at most
/// three in the order message, text, info.
pub open spec fn output_parts_of(v: JsonView) -> Option<OutputPartsView> {
    match v {
        JsonView::Obj(_) => parts_from(v.field("message"@), v.field("text"@), v.field("info"@)),
        JsonView::Arr(a) => if a.len() <= 3 {
            parts_from(item_at(a, 0), item_at(a, 1), item_at(a, 2))
        } else {
            None
        },
        _ => None,
    }
}

fn read_part(v: Option<&Json>) -> (r: Option<String>)
    ensures
        crate::text::opt_text(r) == part_of(crate::json::opt_ref_view(v)),
{
    match v {
        None => Some(String::new()),
        Some(Json::Str(s)) => Some(s.clone()),
        _ => None,
    }
}

fn read_parts(message: Option<&Json>, text: Option<&Json>, info: Option<&Json>) -> (r: Option<
    OutputParts,
>)
    ensures
        (match r {
            Some(p) => Some(p@),
            None => None,
        }) == parts_from(
            crate::json::opt_ref_view(message),
            crate::json::opt_ref_view(text),
            crate::json::opt_ref_view(info),
        ),
{
    match (read_part(message), read_part(text), read_part(info)) {
        (Some(message), Some(text), Some(info)) => Some(OutputParts { message, text, info }),
        _ => None,
    }
}

impl OutputParts {
    pub fn from_json(v: &Json) -> (r: Option<Self>)
        ensures
            (match r {
                Some(p) => Some(p@),
                None => None,
            }) == output_parts_of(v@),
    {
        match v {
            Json::Object(o) => read_parts(o.get("message"), o.get("text"), o.get("info")),
            Json::Array(a) => {
                if a.len() > 3 {
                    return None;
                }
                let message = if a.len() > 0 {
                    Some(&a[0])
                } else {
                    None
                };
                let text = if a.len() > 1 {
                    Some(&a[1])
                } else {
                    None
                };
                let info = if a.len() > 2 {
                    Some(&a[2])
                } else {
                    None
                };
                read_parts(message, text, info)
            },
            _ => None,
        }
    }
}

/// The texts that are not empty, in order.
pub open spec fn non_empty(parts: Seq<Seq<char>>) -> Seq<Seq<char>>
    decreases parts.len(),
{
    if parts.len() == 0 {
        Seq::empty()
    } else if parts.last().len() > 0 {
        non_empty(parts.drop_last()).push(parts.last())
    } else {
        non_empty(parts.drop_last())
    }
}

/// Three texts on lines of their own, without those that are empty.
pub open spec fn stacked(message: Seq<char>, text: Seq<char>, info: Seq<char>) -> Seq<char> {
    joined(non_empty(seq![message, text, info]), "\n"@)
}

pub fn stack(message: &str, text: &str, info: &str) -> (r: String)
    ensures
        r@ == stacked(message@, text@, info@),
{
    let mut parts: Vec<String> = Vec::new();
    proof {
        let all = seq![message@, text@, info@];
        assert(all.drop_last() =~= seq![message@, text@]);
        assert(seq![message@, text@].drop_last() =~= seq![message@]);
        assert(seq![message@].drop_last() =~= Seq::empty());
        assert(texts(parts@) =~= non_empty(Seq::empty()));
    }
    if message.unicode_len() > 0 {
        parts.push(message.to_owned());
    }
    assert(texts(parts@) =~= non_empty(seq![message@]));
    if text.unicode_len() > 0 {
        parts.push(text.to_owned());
    }
    assert(texts(parts@) =~= non_empty(seq![message@, text@]));
    if info.unicode_len() > 0 {
        parts.push(info.to_owned());
    }
    assert(texts(parts@) =~= non_empty(seq![message@, text@, info@]));
    join(&parts, "\n")
}

/// The text that an output shows: text as it is, else its parts on lines of their own;
/// nothing where it cannot be read.
pub open spec fn merged(v: JsonView) -> Seq<char> {
    match v {
        JsonView::Str(s) => s,
        _ => {
            let p = match output_parts_of(v) {
                Some(p) => p,
                None => no_parts(),
            };
            stacked(p.message, p.text, p.info)
        },
    }
}

pub fn merge_output(output: &Json) -> (r: String)
    ensures
        r@ == merged(output@),
{
    match output {
        Json::Str(s) => s.clone(),
        _ => {
            let p = match OutputParts::from_json(output) {
                Some(p) => p,
                None => OutputParts::default(),
            };
            stack(p.message.as_str(), p.text.as_str(), p.info.as_str())
        },
    }
}

pub open spec fn text_or_empty(v: Option<JsonView>) -> Seq<char> {
    match opt_string(v) {
        Some(s) => s,
        None => ""@,
    }
}

/// The text that a result shows: its `output` as text, or the parts of it on lines of
/// their own.
pub open spec fn output_text(v: JsonView) -> Seq<char> {
    match v.field("output"@) {
        Some(JsonView::Str(s)) => s,
        Some(JsonView::Obj(m)) => {
            let o = JsonView::Obj(m);
            stacked(
                text_or_empty(o.field("message"@)),
                text_or_empty(o.field("text"@)),
                text_or_empty(o.field("info"@)),
            )
        },
        _ => ""@,
    }
}

pub fn extract_output_text(result: &Json) -> (r: String)
    ensures
        r@ == output_text(result@),
{
    match result.get("output") {
        Some(output) => match output {
            Json::Str(s) => s.clone(),
            Json::Object(_) => stack(
                output.text_of("message").unwrap_or(""),
                output.text_of("text").unwrap_or(""),
                output.text_of("info").unwrap_or(""),
            ),
            _ => "".to_owned(),
        },
        None => "".to_owned(),
    }
}

/// A result without its `output` and that of a nested `result`.
pub open spec fn stripped(v: JsonView) -> JsonView {
    match v {
        JsonView::Obj(m) => {
            let m = m.remove("output"@);
            if m.dom().contains("result"@) {
                JsonView::Obj(m.insert("result"@, m["result"@].without("output"@)))
            } else {
                JsonView::Obj(m)
            }
        },
        _ => v,
    }
}

pub fn strip_output(result: Json) -> (r: Json)
    ensures
        r@ == stripped(result@),
{
    match result {
        Json::Object(o) => {
            let mut o = o;
            let _ = o.remove("output");
            let ghost m = o@;
            match o.remove("result") {
                Some(nested) => {
                    o.insert("result", nested.without("output"));
                    assert(o@ =~= m.insert("result"@, m["result"@].without("output"@)));
                },
                None => {
                    assert(o@ =~= m);
                },
            }
            Json::Object(o)
        },
        other => other,
    }
}

/// The lines that do not start, after white space, with `hashCode:`.
pub open spec fn without_hash_lines(l: Seq<Seq<char>>) -> Seq<Seq<char>>
    decreases l.len(),
{
    if l.len() == 0 {
        Seq::empty()
    } else if has_prefix(trim_start_of(l.last()), "hashCode:"@) {
        without_hash_lines(l.drop_last())
    } else {
        without_hash_lines(l.drop_last()).push(l.last())
    }
}

pub fn strip_hash_code_lines(text: &str) -> (r: String)
    ensures
        r@ == joined(without_hash_lines(lines_of(text@)), "\n"@),
{
    let all = lines(text);
    let mut kept: Vec<String> = Vec::new();
    let mut i: usize = 0;
    assert(texts(all@).take(0) =~= Seq::empty());
    assert(texts(kept@) =~= Seq::empty());
    while i < all.len()
        invariant
            i <= all@.len(),
            texts(kept@) == without_hash_lines(texts(all@).take(i as int)),
        decreases all.len() - i,
    {
        assert(texts(all@).take(i + 1).drop_last() =~= texts(all@).take(i as int));
        let ghost before = texts(kept@);
        if !starts_with(trim_start(all[i].as_str()).as_str(), "hashCode:") {
            kept.push(all[i].clone());
            assert(texts(kept@) =~= before.push(all@[i as int]@));
        }
        i = i + 1;
    }
    assert(texts(all@).take(i as int) =~= texts(all@));
    join(&kept, "\n")
}

// ---------------------------------------------------------------------------
// Building text
// ---------------------------------------------------------------------------

/// The text with what it takes for the next line to stand after a blank one.
pub open spec fn with_blank_line(text: Seq<char>) -> Seq<char> {
    if text.len() == 0 {
        text + "\n\n"@
    } else if has_suffix(text, "\n\n"@) || has_suffix(text, "\r\n\n"@) || has_suffix(
        text,
        "\r\n\r\n"@,
    ) {
        text
    } else if has_suffix(text, "\n"@) {
        text + "\n"@
    } else {
        text + "\n\n"@
    }
}

pub fn ensure_blank_line(text: String) -> (r: String)
    ensures
        r@ == with_blank_line(text@),
{
    let mut text = text;
    if text.as_str().unicode_len() == 0 {
        text.append("\n\n");
    } else if crate::text::ends_with(text.as_str(), "\n\n") || crate::text::ends_with(
        text.as_str(),
        "\r\n\n",
    ) || crate::text::ends_with(text.as_str(), "\r\n\r\n") {
    } else if crate::text::ends_with(text.as_str(), "\n") {
        text.append("\n");
    } else {
        text.append("\n\n");
    }
    text
}

/// The text with lines behind a blank one.
pub open spec fn with_footer(text: Seq<char>, footer: Seq<Seq<char>>) -> Seq<char> {
    if footer.len() == 0 {
        text
    } else {
        with_blank_line(text) + joined(footer, "\n"@)
    }
}

pub fn append_footer_lines(text: String, footer: &Vec<String>) -> (r: String)
    ensures
        r@ == with_footer(text@, texts(footer@)),
{
    if footer.len() == 0 {
        return text;
    }
    let mut r = ensure_blank_line(text);
    let tail = join(footer, "\n");
    r.append(tail.as_str());
    r
}

/// One of the lines is, white space around it aside, `line`.
pub open spec fn has_line(text: Seq<char>, line: Seq<char>) -> bool {
    exists|i: int| 0 <= i < lines_of(text).len() && trimmed(#[trigger] lines_of(text)[i]) == line
}

/// The text with `line` as its last one, unless it shows that line already.
pub open spec fn with_line(text: Seq<char>, line: Seq<char>) -> Seq<char> {
    if has_line(text, line) {
        text
    } else if has_suffix(text, "\n"@) {
        text + line
    } else {
        text.push('\n') + line
    }
}

pub fn append_visible_line(text: String, line: &str) -> (r: String)
    ensures
        r@ == with_line(text@, line@),
{
    let all = lines(text.as_str());
    let mut i: usize = 0;
    while i < all.len()
        invariant
            i <= all@.len(),
            texts(all@) == lines_of(text@),
            forall|j: int| 0 <= j < i ==> trimmed(#[trigger] lines_of(text@)[j]) != line@,
        decreases all.len() - i,
    {
        assert(lines_of(text@)[i as int] == all@[i as int]@);
        if same(trim(all[i].as_str()).as_str(), line) {
            return text;
        }
        i = i + 1;
    }
    let mut text = text;
    if !crate::text::ends_with(text.as_str(), "\n") {
        text.push('\n');
    }
    text.append(line);
    text
}

} // verus!
