//! Searching: in the content of files and for files by name.

use vstd::prelude::*;

use crate::args::CallScope;
use crate::args::executor_value;
use crate::fields::count_of;
use crate::fields::filled;
use crate::fields::filled_field;
use crate::fields::meta;
use crate::fields::meta_text;
use crate::fields::optional_string_field2;
use crate::fields::or_else;
use crate::fields::or_text;
use crate::fields::read_count;
use crate::json::copy_values;
use crate::json::plain;
use crate::json::views;
use crate::json::Json;
use crate::json::JsonObject;
use crate::json::JsonView;
use crate::jsonrpc::bad_params;
use crate::jsonrpc::JsonRpcError;
use crate::jsonrpc::JsonRpcErrorView;
use crate::output::ensure_blank_line;
use crate::output::extract_output_text;
use crate::output::output_text;
use crate::output::with_blank_line;
use crate::text::cat;
use crate::text::cat3;
use crate::text::chars_of;
use crate::text::contains;
use crate::text::ends_with;
use crate::text::has_prefix;
use crate::text::has_suffix;
use crate::text::has_text;
use crate::text::join;
use crate::text::joined;
use crate::text::same;
use crate::text::split_whitespace;
use crate::text::starts_with;
use crate::text::texts;
use crate::text::trim;
use crate::text::trimmed;
use crate::text::words_of;

verus! {

#[derive(Debug, Clone, Copy, PartialEq, Eq, Structural)]
pub enum RgMode {
    Content,
    Files,
}

/// One search, or one for each of several paths.
#[derive(Debug, Clone, PartialEq, Eq)]
pub enum RgPathList {
    Single,
    Multi(Vec<String>),
}

#[verifier::ext_equal]
pub ghost enum RgPathListView {
    Single,
    Multi(Seq<Seq<char>>),
}

impl RgPathList {
    pub open spec fn view(&self) -> RgPathListView {
        match self {
            RgPathList::Single => RgPathListView::Single,
            RgPathList::Multi(paths) => RgPathListView::Multi(texts(paths@)),
        }
    }
}

// ---------------------------------------------------------------------------
// Modes
// ---------------------------------------------------------------------------

/// The mode that is asked for; `type` is understood too.
pub open spec fn asked_rg_mode(arguments: JsonView) -> Seq<char> {
    or_text(
        or_else(filled_field(arguments, "mode"@), filled_field(arguments, "type"@)),
        "content"@,
    )
}

pub open spec fn rg_mode_of(arguments: JsonView) -> Result<RgMode, JsonRpcErrorView> {
    let mode = asked_rg_mode(arguments);
    if mode == "content"@ || mode == "text"@ || mode == "search"@ {
        Ok(RgMode::Content)
    } else if mode == "files"@ || mode == "file"@ || mode == "paths"@ || mode == "path"@ || mode
        == "glob"@ {
        Ok(RgMode::Files)
    } else {
        Err(bad_params("invalid rg mode: "@ + mode + "; expected content or files"@))
    }
}

pub open spec fn mode_outcome(r: Result<RgMode, JsonRpcError>) -> Result<RgMode, JsonRpcErrorView> {
    match r {
        Ok(m) => Ok(m),
        Err(e) => Err(e@),
    }
}

pub fn extract_rg_mode(arguments: &Json) -> (r: Result<RgMode, JsonRpcError>)
    ensures
        mode_outcome(r) == rg_mode_of(arguments@),
{
    let asked = match optional_string_field2(arguments, "mode", "type") {
        Some(m) => m,
        None => "content".to_owned(),
    };
    let mode = asked.as_str();
    if same(mode, "content") || same(mode, "text") || same(mode, "search") {
        Ok(RgMode::Content)
    } else if same(mode, "files") || same(mode, "file") || same(mode, "paths") || same(mode, "path")
        || same(mode, "glob") {
        Ok(RgMode::Files)
    } else {
        let message = cat3("invalid rg mode: ", mode, "; expected content or files");
        Err(JsonRpcError::invalid_params(message.as_str()))
    }
}

// ---------------------------------------------------------------------------
// Globs
// ---------------------------------------------------------------------------

/// A glob without a directory, which is meant at any depth.
pub open spec fn names_no_directory(glob: Seq<char>) -> bool {
    let g = trimmed(glob);
    g.len() > 0 && !has_prefix(g, "**/"@) && !has_text(g, "/"@) && !has_text(g, "\\"@)
}

pub fn needs_recursive_basename_glob(glob: &str) -> (r: bool)
    ensures
        r == names_no_directory(glob@),
{
    let t = trim(glob);
    let g = t.as_str();
    g.unicode_len() > 0 && !starts_with(g, "**/") && !contains(g, "/") && !contains(g, "\\")
}

/// The globs that are added for the first ones of a list, so that a glob without a
/// directory also finds files in directories; none that the list has already.
pub open spec fn added_globs(first: Seq<JsonView>, all: Seq<JsonView>) -> Seq<Seq<char>>
    decreases first.len(),
{
    if first.len() == 0 {
        Seq::empty()
    } else {
        let head = added_globs(first.drop_last(), all);
        match first.last() {
            JsonView::Str(g) => {
                let deep = "**/"@ + g;
                if names_no_directory(g) && !all.contains(JsonView::Str(deep)) && !head.contains(
                    deep,
                ) {
                    head.push(deep)
                } else {
                    head
                }
            },
            _ => head,
        }
    }
}

pub open spec fn expanded_globs(globs: Seq<JsonView>) -> Seq<JsonView> {
    globs + added_globs(globs, globs).map_values(|g: Seq<char>| JsonView::Str(g))
}

/// The arguments with the globs that their globs ask for.
pub open spec fn with_deep_globs(arguments: JsonView) -> JsonView {
    match arguments.field("globs"@) {
        Some(JsonView::Arr(globs)) => arguments.with(
            "globs"@,
            JsonView::Arr(expanded_globs(globs)),
        ),
        _ => arguments,
    }
}

fn lists_text(values: &Vec<Json>, text: &str) -> (r: bool)
    ensures
        r == views(values@).contains(JsonView::Str(text@)),
{
    let mut i: usize = 0;
    while i < values.len()
        invariant
            i <= values@.len(),
            forall|j: int| 0 <= j < i ==> views(values@)[j] != JsonView::Str(text@),
        decreases values.len() - i,
    {
        assert(views(values@)[i as int] == values@[i as int]@);
        match values[i].as_str() {
            Some(s) => if same(s, text) {
                return true;
            },
            None => {},
        }
        i = i + 1;
    }
    false
}

fn has_entry(entries: &Vec<String>, text: &str) -> (r: bool)
    ensures
        r == texts(entries@).contains(text@),
{
    let mut i: usize = 0;
    while i < entries.len()
        invariant
            i <= entries@.len(),
            forall|j: int| 0 <= j < i ==> texts(entries@)[j] != text@,
        decreases entries.len() - i,
    {
        assert(texts(entries@)[i as int] == entries@[i as int]@);
        if same(entries[i].as_str(), text) {
            return true;
        }
        i = i + 1;
    }
    false
}

fn expand_globs(globs: &Vec<Json>) -> (r: Vec<Json>)
    ensures
        views(r@) == expanded_globs(views(globs@)),
{
    let ghost all = views(globs@);
    let mut additions: Vec<String> = Vec::new();
    let mut i: usize = 0;
    assert(all.take(0) =~= Seq::empty());
    assert(texts(additions@) =~= Seq::empty());
    while i < globs.len()
        invariant
            i <= globs@.len(),
            all == views(globs@),
            texts(additions@) == added_globs(all.take(i as int), all),
        decreases globs.len() - i,
    {
        assert(all.take(i + 1).drop_last() =~= all.take(i as int));
        assert(all[i as int] == globs@[i as int]@);
        let ghost before = texts(additions@);
        match globs[i].as_str() {
            Some(g) => if needs_recursive_basename_glob(g) {
                let deep = cat("**/", g);
                if !lists_text(globs, deep.as_str()) && !has_entry(&additions, deep.as_str()) {
                    additions.push(deep);
                    assert(texts(additions@) =~= before.push(deep@));
                }
            },
            None => {},
        }
        i = i + 1;
    }
    assert(all.take(i as int) =~= all);
    let ghost tail = texts(additions@).map_values(|g: Seq<char>| JsonView::Str(g));
    let mut r = copy_values(globs);
    i = 0;
    assert(views(r@) =~= all + tail.take(0));
    while i < additions.len()
        invariant
            i <= additions@.len(),
            tail == texts(additions@).map_values(|g: Seq<char>| JsonView::Str(g)),
            views(r@) == all + tail.take(i as int),
        decreases additions.len() - i,
    {
        let ghost before = views(r@);
        let value = Json::Str(additions[i].clone());
        assert(tail[i as int] == value@);
        r.push(value);
        assert(views(r@) =~= before.push(value@));
        i = i + 1;
        assert(all + tail.take(i as int) =~= before.push(value@));
    }
    assert(tail.take(i as int) =~= tail);
    r
}

pub fn expand_basename_globs(arguments: Json) -> (r: Json)
    ensures
        r@ == with_deep_globs(arguments@),
{
    let expanded = match arguments.get("globs") {
        Some(globs) => match globs.as_array() {
            Some(globs) => Some(expand_globs(globs)),
            None => None,
        },
        None => None,
    };
    match expanded {
        Some(globs) => arguments.with("globs", Json::array(globs)),
        None => arguments,
    }
}

// ---------------------------------------------------------------------------
// Arguments
// ---------------------------------------------------------------------------

/// The executor that a search goes to.
pub open spec fn searched_executor(arguments: JsonView) -> Seq<char> {
    match executor_value(arguments) {
        Some(v) => or_text(filled(v.string()), "local"@),
        None => "local"@,
    }
}

/// The arguments of a search in content: on the local executor it starts at the
/// workspace unless they say otherwise.
pub open spec fn prepared_rg(workdir: Seq<char>, mode: RgMode, arguments: JsonView) -> JsonView {
    if mode == RgMode::Content && arguments is Obj {
        let rooted = if searched_executor(arguments) == "local"@ && arguments.field("root"@) is None {
            arguments.with("root"@, JsonView::Str(workdir))
        } else {
            arguments
        };
        with_deep_globs(rooted)
    } else {
        arguments
    }
}

pub fn prepare_rg_arguments(scope: &CallScope, mode: RgMode, arguments: Json) -> (r: Json)
    ensures
        r@ == prepared_rg(scope.workdir@, mode, arguments@),
{
    if mode != RgMode::Content {
        return arguments;
    }
    if !arguments.is_object() {
        return arguments;
    }
    let value = match arguments.get("executor") {
        Some(v) => Some(v),
        None => arguments.get("targetExecutor"),
    };
    let local = match value {
        Some(v) => match v.as_str() {
            Some(s) => {
                let t = trim(s);
                t.as_str().unicode_len() == 0 || same(t.as_str(), "local")
            },
            None => true,
        },
        None => true,
    };
    let rooted = if local && arguments.get("root").is_none() {
        arguments.with("root", Json::Str(scope.workdir.clone()))
    } else {
        arguments
    };
    expand_basename_globs(rooted)
}

/// A path from the root of a file system: after `/`, `\` or a drive letter.
pub open spec fn is_absolute(path: Seq<char>) -> bool {
    has_prefix(path, "/"@) || has_prefix(path, "\\"@) || (path.len() >= 2 && path[0] < '\u{80}'
        && path[1] == ':')
}

pub fn looks_like_absolute_path(value: &str) -> (r: bool)
    ensures
        r == is_absolute(value@),
{
    let v = chars_of(value);
    starts_with(value, "/") || starts_with(value, "\\") || (v.len() >= 2 && v[0] < '\u{80}' && v[1]
        == ':')
}

pub open spec fn all_absolute(paths: Seq<Seq<char>>) -> bool {
    forall|i: int| 0 <= i < paths.len() ==> is_absolute(#[trigger] paths[i])
}

/// The paths that a text stands for: its words, where it is said to hold several or all
/// of them are absolute; else the one path that it is.
pub open spec fn path_list(path: Seq<char>, explicit_multi: bool) -> Seq<Seq<char>> {
    let words = words_of(path);
    if words.len() <= 1 || (!explicit_multi && !all_absolute(words)) {
        if trimmed(path).len() > 0 {
            seq![trimmed(path)]
        } else {
            Seq::empty()
        }
    } else {
        words
    }
}

pub fn split_rg_path_list(path: &str, explicit_multi: bool) -> (r: Vec<String>)
    ensures
        texts(r@) == path_list(path@, explicit_multi),
{
    let words = split_whitespace(path);
    let mut all = true;
    let mut i: usize = 0;
    while i < words.len()
        invariant
            i <= words@.len(),
            all == (forall|j: int| 0 <= j < i ==> is_absolute(#[trigger] texts(words@)[j])),
        decreases words.len() - i,
    {
        assert(texts(words@)[i as int] == words@[i as int]@);
        if !looks_like_absolute_path(words[i].as_str()) {
            all = false;
        }
        i = i + 1;
    }
    if words.len() <= 1 || (!explicit_multi && !all) {
        let t = trim(path);
        let mut r: Vec<String> = Vec::new();
        if t.as_str().unicode_len() > 0 {
            r.push(t);
            assert(texts(r@) =~= seq![t@]);
        } else {
            assert(texts(r@) =~= Seq::empty());
        }
        r
    } else {
        words
    }
}

/// The texts of an array that are filled in, without the white space around them.
pub open spec fn filled_items(a: Seq<JsonView>) -> Seq<Seq<char>>
    decreases a.len(),
{
    if a.len() == 0 {
        Seq::empty()
    } else {
        match filled(a.last().string()) {
            Some(s) => filled_items(a.drop_last()).push(s),
            None => filled_items(a.drop_last()),
        }
    }
}

fn read_filled_items(a: &Vec<Json>) -> (r: Vec<String>)
    ensures
        texts(r@) == filled_items(views(a@)),
{
    let ghost all = views(a@);
    let mut r: Vec<String> = Vec::new();
    let mut i: usize = 0;
    assert(all.take(0) =~= Seq::empty());
    assert(texts(r@) =~= Seq::empty());
    while i < a.len()
        invariant
            i <= a@.len(),
            all == views(a@),
            texts(r@) == filled_items(all.take(i as int)),
        decreases a.len() - i,
    {
        assert(all.take(i + 1).drop_last() =~= all.take(i as int));
        assert(all[i as int] == a@[i as int]@);
        let ghost before = texts(r@);
        match a[i].as_str() {
            Some(s) => {
                let t = trim(s);
                if t.as_str().unicode_len() > 0 {
                    r.push(t);
                    assert(texts(r@) =~= before.push(t@));
                }
            },
            None => {},
        }
        i = i + 1;
    }
    assert(all.take(i as int) =~= all);
    r
}

/// The paths that `paths` gives, where it is an array or text.
pub open spec fn given_paths(v: Option<JsonView>) -> Option<Seq<Seq<char>>> {
    match v {
        Some(JsonView::Arr(a)) => Some(filled_items(a)),
        Some(JsonView::Str(s)) => Some(path_list(s, true)),
        _ => None,
    }
}

/// What is searched, and the arguments for each search.
pub open spec fn rg_paths(arguments: JsonView) -> (RgPathListView, JsonView) {
    let rest = arguments.without("paths"@);
    match given_paths(arguments.field("paths"@)) {
        Some(paths) => if paths.len() > 1 {
            (RgPathListView::Multi(paths), rest.without("path"@))
        } else if paths.len() == 1 {
            (RgPathListView::Single, rest.with("path"@, JsonView::Str(paths[0])))
        } else {
            (RgPathListView::Single, rest)
        },
        None => match rest.text_field("path"@) {
            Some(path) => {
                let paths = path_list(path, false);
                if paths.len() <= 1 {
                    (RgPathListView::Single, rest)
                } else {
                    (RgPathListView::Multi(paths), rest.without("path"@))
                }
            },
            None => (RgPathListView::Single, rest),
        },
    }
}

pub fn extract_rg_paths(arguments: Json) -> (r: (RgPathList, Json))
    ensures
        (r.0@, r.1@) == rg_paths(arguments@),
{
    let given = match arguments.get("paths") {
        Some(v) => match v {
            Json::Array(_) => match v.as_array() {
                Some(a) => Some(read_filled_items(a)),
                None => None,
            },
            Json::Str(s) => Some(split_rg_path_list(s.as_str(), true)),
            _ => None,
        },
        None => None,
    };
    let rest = arguments.without("paths");
    match given {
        Some(paths) => {
            if paths.len() > 1 {
                (RgPathList::Multi(paths), rest.without("path"))
            } else if paths.len() == 1 {
                let path = paths[0].clone();
                (RgPathList::Single, rest.with("path", Json::Str(path)))
            } else {
                (RgPathList::Single, rest)
            }
        },
        None => {
            let paths = match rest.text_of("path") {
                Some(path) => split_rg_path_list(path, false),
                None => {
                    return (RgPathList::Single, rest);
                },
            };
            if paths.len() <= 1 {
                (RgPathList::Single, rest)
            } else {
                (RgPathList::Multi(paths), rest.without("path"))
            }
        },
    }
}

// ---------------------------------------------------------------------------
// Results
// ---------------------------------------------------------------------------

/// The number of matches that a result reports: `matches`, else `count`.
pub open spec fn match_count(result: JsonView) -> int {
    match meta(result, "matches"@) {
        Some(v) => count_of(Some(v)),
        None => count_of(meta(result, "count"@)),
    }
}

pub fn rg_result_match_count(result: &Json) -> (r: u64)
    ensures
        r == match_count(result@),
{
    match result.get2("metadata", "matches") {
        Some(v) => read_count(Some(v)),
        None => read_count(result.get2("metadata", "count")),
    }
}

pub open spec fn sum_matches(results: Seq<JsonView>) -> int
    decreases results.len(),
{
    if results.len() == 0 {
        0
    } else {
        sum_matches(results.drop_last()) + match_count(results.last())
    }
}

pub open spec fn sum_meta(results: Seq<JsonView>, field: Seq<char>) -> int
    decreases results.len(),
{
    if results.len() == 0 {
        0
    } else {
        sum_meta(results.drop_last(), field) + count_of(meta(results.last(), field))
    }
}

/// The texts that the results show, one after the other, each ending a line.
pub open spec fn all_stdout(results: Seq<JsonView>) -> Seq<char>
    decreases results.len(),
{
    if results.len() == 0 {
        Seq::empty()
    } else {
        let head = all_stdout(results.drop_last());
        match results.last().text_field2("output"@, "text"@) {
            Some(text) => {
                let s = head + text;
                if s.len() > 0 && !has_suffix(s, "\n"@) {
                    s.push('\n')
                } else {
                    s
                }
            },
            None => head,
        }
    }
}

pub open spec fn all_stderr(results: Seq<JsonView>) -> Seq<char>
    decreases results.len(),
{
    if results.len() == 0 {
        Seq::empty()
    } else {
        let head = all_stderr(results.drop_last());
        match meta_text(results.last(), "stderr"@) {
            Some(text) => head + text,
            None => head,
        }
    }
}

pub open spec fn timed_out(result: JsonView) -> bool {
    meta(result, "timedOut"@) == Some(JsonView::Bool(true))
}

pub open spec fn any_timed_out(results: Seq<JsonView>) -> bool {
    exists|i: int| 0 <= i < results.len() && timed_out(#[trigger] results[i])
}

/// The exit code of a search with so many matches.
pub open spec fn code_for(matches: int) -> int {
    if matches > 0 {
        0
    } else {
        1
    }
}

/// The results of several searches as one.
pub open spec fn merged_results(results: Seq<JsonView>) -> JsonView {
    let stdout = JsonView::Str(all_stdout(results));
    JsonView::Obj(
        map![
            "output"@ => JsonView::Obj(map!["text"@ => stdout]),
            "metadata"@ => JsonView::Obj(
                map![
                    "stdout"@ => stdout,
                    "stderr"@ => JsonView::Str(all_stderr(results)),
                    "matches"@ => JsonView::Int(sum_matches(results)),
                    "filesWalked"@ => JsonView::Int(sum_meta(results, "filesWalked"@)),
                    "timedOut"@ => JsonView::Bool(any_timed_out(results)),
                    "code"@ => JsonView::Int(code_for(sum_matches(results))),
                    "count"@ => JsonView::Int(sum_meta(results, "count"@)),
                ],
            ),
        ],
    )
}

/// The totals of the results are numbers of 64 bits.
pub open spec fn totals_fit(results: Seq<JsonView>) -> bool {
    &&& sum_matches(results) <= u64::MAX
    &&& sum_meta(results, "filesWalked"@) <= u64::MAX
    &&& sum_meta(results, "count"@) <= u64::MAX
}

proof fn lemma_sums(results: Seq<JsonView>, i: int, field: Seq<char>)
    requires
        0 <= i <= results.len(),
    ensures
        0 <= sum_matches(results.take(i)) <= sum_matches(results),
        0 <= sum_meta(results.take(i), field) <= sum_meta(results, field),
    decreases results.len() - i,
{
    if i == results.len() {
        assert(results.take(i) =~= results);
        lemma_sums_low(results, field);
    } else {
        lemma_sums(results, i + 1, field);
        assert(results.take(i + 1).drop_last() =~= results.take(i));
        lemma_sums_low(results.take(i), field);
    }
}

proof fn lemma_sums_low(results: Seq<JsonView>, field: Seq<char>)
    ensures
        0 <= sum_matches(results),
        0 <= sum_meta(results, field),
    decreases results.len(),
{
    if results.len() > 0 {
        lemma_sums_low(results.drop_last(), field);
    }
}

/// Whether the totals of the results are numbers of 64 bits.
pub fn rg_totals_fit(results: &Vec<Json>) -> (r: bool)
    ensures
        r == totals_fit(views(results@)),
{
    let ghost all = views(results@);
    let mut matches_total: u64 = 0;
    let mut walked: u64 = 0;
    let mut count: u64 = 0;
    let mut i: usize = 0;
    assert(all.take(0) =~= Seq::empty());
    while i < results.len()
        invariant
            i <= results@.len(),
            all == views(results@),
            matches_total == sum_matches(all.take(i as int)),
            walked == sum_meta(all.take(i as int), "filesWalked"@),
            count == sum_meta(all.take(i as int), "count"@),
        decreases results.len() - i,
    {
        proof {
            assert(all.take(i + 1).drop_last() =~= all.take(i as int));
            assert(all[i as int] == results@[i as int]@);
            lemma_sums(all, i + 1, "filesWalked"@);
            lemma_sums(all, i + 1, "count"@);
        }
        let a: u64 = rg_result_match_count(&results[i]);
        let b: u64 = read_count(results[i].get2("metadata", "filesWalked"));
        let c: u64 = read_count(results[i].get2("metadata", "count"));
        if a > u64::MAX - matches_total || b > u64::MAX - walked || c > u64::MAX - count {
            return false;
        }
        matches_total = matches_total + a;
        walked = walked + b;
        count = count + c;
        i = i + 1;
    }
    assert(all.take(i as int) =~= all);
    true
}

pub fn merge_rg_results(results: &Vec<Json>) -> (r: Json)
    requires
        totals_fit(views(results@)),
    ensures
        r@ == merged_results(views(results@)),
{
    let ghost all = views(results@);
    let mut stdout = String::new();
    let mut stderr = String::new();
    let mut matches_total: u64 = 0;
    let mut walked: u64 = 0;
    let mut late = false;
    let mut count: u64 = 0;
    let mut i: usize = 0;
    assert(all.take(0) =~= Seq::empty());
    assert(stdout@ =~= Seq::empty());
    assert(stderr@ =~= Seq::empty());
    while i < results.len()
        invariant
            i <= results@.len(),
            all == views(results@),
            totals_fit(all),
            matches_total == sum_matches(all.take(i as int)),
            walked == sum_meta(all.take(i as int), "filesWalked"@),
            count == sum_meta(all.take(i as int), "count"@),
            stdout@ == all_stdout(all.take(i as int)),
            stderr@ == all_stderr(all.take(i as int)),
            late == (exists|j: int| 0 <= j < i && timed_out(#[trigger] all[j])),
        decreases results.len() - i,
    {
        proof {
            assert(all.take(i + 1).drop_last() =~= all.take(i as int));
            assert(all[i as int] == results@[i as int]@);
            lemma_sums(all, i + 1, "filesWalked"@);
            lemma_sums(all, i + 1, "count"@);
        }
        match results[i].text_of2("output", "text") {
            Some(text) => {
                stdout.append(text);
                if stdout.as_str().unicode_len() > 0 && !ends_with(stdout.as_str(), "\n") {
                    stdout.push('\n');
                }
            },
            None => {},
        }
        match results[i].text_of2("metadata", "stderr") {
            Some(text) => stderr.append(text),
            None => {},
        }
        matches_total = matches_total + rg_result_match_count(&results[i]);
        walked = walked + read_count(results[i].get2("metadata", "filesWalked"));
        count = count + read_count(results[i].get2("metadata", "count"));
        let flag = match results[i].get2("metadata", "timedOut") {
            Some(v) => v.as_bool(),
            None => None,
        };
        assert((flag == Some(true)) == timed_out(all[i as int]));
        if flag == Some(true) {
            late = true;
        }
        i = i + 1;
    }
    assert(all.take(i as int) =~= all);
    let code: i128 = if matches_total > 0 {
        0
    } else {
        1
    };
    let metadata = JsonObject::new().with("stdout", Json::Str(stdout.clone())).with(
        "stderr",
        Json::Str(stderr),
    ).with("matches", Json::Int(matches_total as i128)).with(
        "filesWalked",
        Json::Int(walked as i128),
    ).with("timedOut", Json::Bool(late)).with("code", Json::Int(code)).with(
        "count",
        Json::Int(count as i128),
    );
    let output = JsonObject::new().with("text", Json::Str(stdout));
    Json::Object(
        JsonObject::new().with("output", Json::Object(output)).with(
            "metadata",
            Json::Object(metadata),
        ),
    )
}

pub open spec fn files_metadata(
    m: Map<Seq<char>, JsonView>,
    matches: int,
) -> Map<Seq<char>, JsonView> {
    m.insert("mode"@, JsonView::Str("files"@)).insert("matches"@, JsonView::Int(matches)).insert(
        "code"@,
        JsonView::Int(code_for(matches)),
    )
}

/// A result of a search for files in the form of one in content.
pub open spec fn files_result(result: JsonView) -> JsonView {
    let matches = count_of(meta(result, "count"@));
    match result.field("metadata"@) {
        Some(JsonView::Obj(m)) => result.with(
            "metadata"@,
            JsonView::Obj(files_metadata(m, matches)),
        ),
        _ => result.with("metadata"@, JsonView::Obj(files_metadata(Map::empty(), matches))),
    }
}

pub fn normalize_rg_files_result(result: Json) -> (r: Json)
    ensures
        r@ == files_result(result@),
{
    let matches_total: u64 = read_count(result.get2("metadata", "count"));
    let code: i128 = if matches_total == 0 {
        1
    } else {
        0
    };
    let base = match result.get("metadata") {
        Some(v) => match v.as_object() {
            Some(m) => m.clone(),
            None => JsonObject::new(),
        },
        None => JsonObject::new(),
    };
    let metadata = base.with("mode", Json::str("files")).with(
        "matches",
        Json::Int(matches_total as i128),
    ).with("code", Json::Int(code));
    result.with("metadata", Json::Object(metadata))
}

/// The lines below the text of a search.
pub open spec fn rg_footer(result: JsonView) -> Seq<Seq<char>> {
    let f = Seq::<Seq<char>>::empty();
    let f = match meta(result, "matches"@) {
        Some(v) => f.push("matches:"@ + plain(v)),
        None => f,
    };
    let f = match meta(result, "filesWalked"@) {
        Some(v) => f.push("filesWalked:"@ + plain(v)),
        None => f,
    };
    let f = if timed_out(result) {
        f.push("timedOut:true"@)
    } else {
        f
    };
    match meta(result, "code"@) {
        Some(v) => f.push("code:"@ + plain(v)),
        None => f,
    }
}

pub open spec fn rg_text(result: JsonView) -> Seq<char> {
    if rg_footer(result).len() == 0 {
        output_text(result)
    } else {
        with_blank_line(output_text(result)) + joined(rg_footer(result), "\n"@)
    }
}

fn push_entry(list: Vec<String>, name: &str, value: Option<&Json>) -> (r: Vec<String>)
    ensures
        texts(r@) == match value {
            Some(v) => texts(list@).push(name@ + plain(v@)),
            None => texts(list@),
        },
{
    match value {
        Some(v) => {
            let ghost before = texts(list@);
            let text = v.plain_text();
            let mut list = list;
            let line = cat(name, text.as_str());
            list.push(line);
            assert(texts(list@) =~= before.push(line@));
            list
        },
        None => list,
    }
}

pub fn format_rg_output(result: &Json) -> (r: String)
    ensures
        r@ == rg_text(result@),
{
    let text = extract_output_text(result);
    let f: Vec<String> = Vec::new();
    assert(texts(f@) =~= Seq::empty());
    let f = push_entry(f, "matches:", result.get2("metadata", "matches"));
    let f = push_entry(f, "filesWalked:", result.get2("metadata", "filesWalked"));
    let flag = match result.get2("metadata", "timedOut") {
        Some(v) => v.as_bool(),
        None => None,
    };
    let mut f = f;
    let ghost before = texts(f@);
    if flag == Some(true) {
        f.push("timedOut:true".to_owned());
        assert(texts(f@) =~= before.push("timedOut:true"@));
    }
    let f = push_entry(f, "code:", result.get2("metadata", "code"));
    if f.len() == 0 {
        return text;
    }
    let mut r = ensure_blank_line(text);
    let tail = join(&f, "\n");
    r.append(tail.as_str());
    r
}

} // verus!
