//! Skills: documents that tell how something is done, found by name.

use vstd::prelude::*;

use crate::fields::filled_field;
use crate::fields::optional_string_field;
use crate::json::Json;
use crate::json::JsonView;
use crate::jsonrpc::bad_params;
use crate::jsonrpc::JsonRpcError;
use crate::jsonrpc::JsonRpcErrorView;
use crate::number::all_digits;
use crate::order::in_order;
use crate::order::lemma_put_at;
use crate::order::text_before;
use crate::order::text_lt;
use crate::text::cat;
use crate::text::cat3;
use crate::text::chars_of;
use crate::text::ends_with;
use crate::text::has_prefix;
use crate::text::has_suffix;
use crate::text::is_digit;
use crate::text::join;
use crate::text::joined;
use crate::text::lines;
use crate::text::lines_of;
use crate::text::opt_text;
use crate::text::replace_chars;
use crate::text::replaced_chars;
use crate::text::same;
use crate::text::split_first;
use crate::text::split_once;
use crate::text::starts_with;
use crate::text::string_between;
use crate::text::strip_prefix;
use crate::text::texts;
use crate::text::trim;
use crate::text::trim_start;
use crate::text::trim_start_matches;
use crate::text::trim_start_matches_of;
use crate::text::trim_start_of;
use crate::text::trimmed;

verus! {

// ---------------------------------------------------------------------------
// Regular expressions
// ---------------------------------------------------------------------------

/// Whether a text holds a match of a regular expression, or what is wrong with the
/// expression.
pub uninterp spec fn regex_search(pattern: Seq<char>, text: Seq<char>) -> Result<bool, Seq<char>>;

/// `regex::Regex::new` and then `Regex::is_match`: whether a match of the expression
/// stands anywhere in the text, or the message of the error with which the expression was
/// refused. Both depend on the expression and the text alone.
#[verifier::external_body]
fn search_regex(pattern: &str, text: &str) -> (r: Result<bool, String>)
    ensures
        (match r {
            Ok(b) => Ok(b),
            Err(m) => Err(m@),
        }) == regex_search(pattern@, text@),
{
    match regex::Regex::new(pattern) {
        Ok(re) => Ok(re.is_match(text)),
        Err(e) => Err(e.to_string()),
    }
}

/// What is wrong with an expression, where it is refused.
pub open spec fn regex_refused(pattern: Seq<char>) -> Option<Seq<char>> {
    match regex_search(pattern, ""@) {
        Ok(_) => None,
        Err(m) => Some(m),
    }
}

pub fn check_regex(pattern: &str) -> (r: Option<String>)
    ensures
        opt_text(r) == regex_refused(pattern@),
{
    match search_regex(pattern, "") {
        Ok(_) => None,
        Err(m) => Some(m),
    }
}

// ---------------------------------------------------------------------------
// Where to look
// ---------------------------------------------------------------------------

#[derive(Debug, Clone, PartialEq, Eq)]
pub struct SkillTarget {
    pub executor: String,
    pub path: String,
}

#[verifier::ext_equal]
pub ghost struct SkillTargetView {
    pub executor: Seq<char>,
    pub path: Seq<char>,
}

impl SkillTarget {
    pub open spec fn view(&self) -> SkillTargetView {
        SkillTargetView { executor: self.executor@, path: self.path@ }
    }
}

pub open spec fn is_letter(c: char) -> bool {
    'a' <= c <= 'z' || 'A' <= c <= 'Z'
}

/// The executor and the path that a text such as `box:/skills` means; a drive letter is
/// no executor.
pub open spec fn target_in(path: Seq<char>) -> SkillTargetView {
    match split_first(path, ":"@) {
        Some((executor, rest)) => if (executor.len() == 1 && is_letter(executor[0])) || rest.len()
            == 0 {
            SkillTargetView { executor: "local"@, path: executor + ":"@ + rest }
        } else {
            SkillTargetView { executor, path: rest }
        },
        None => SkillTargetView { executor: "local"@, path },
    }
}

pub open spec fn skill_target_of(arguments: JsonView) -> Result<SkillTargetView, JsonRpcErrorView> {
    match filled_field(arguments, "path"@) {
        Some(path) => Ok(target_in(path)),
        None => Err(bad_params("skill path is required"@)),
    }
}

pub open spec fn target_outcome(r: Result<SkillTarget, JsonRpcError>) -> Result<
    SkillTargetView,
    JsonRpcErrorView,
> {
    match r {
        Ok(t) => Ok(t@),
        Err(e) => Err(e@),
    }
}

pub fn skill_target(arguments: &Json) -> (r: Result<SkillTarget, JsonRpcError>)
    ensures
        target_outcome(r) == skill_target_of(arguments@),
{
    let path = match optional_string_field(arguments, "path") {
        Some(p) => p,
        None => {
            return Err(JsonRpcError::invalid_params("skill path is required"));
        },
    };
    match split_once(path.as_str(), ":") {
        Some((executor, rest)) => {
            let v = chars_of(executor.as_str());
            let drive = v.len() == 1 && (('a' <= v[0] && v[0] <= 'z') || ('A' <= v[0] && v[0]
                <= 'Z'));
            if drive || rest.as_str().unicode_len() == 0 {
                Ok(
                    SkillTarget {
                        executor: "local".to_owned(),
                        path: cat3(executor.as_str(), ":", rest.as_str()),
                    },
                )
            } else {
                Ok(SkillTarget { executor, path: rest })
            }
        },
        None => Ok(SkillTarget { executor: "local".to_owned(), path }),
    }
}

/// A path that names the document of a skill itself.
pub open spec fn is_skill_file(path: Seq<char>) -> bool {
    let p = replaced_chars(path, "\\"@, "/"@);
    p == "SKILL.md"@ || has_suffix(p, "/SKILL.md"@)
}

pub fn skill_path_is_file(path: &str) -> (r: bool)
    ensures
        r == is_skill_file(path@),
{
    let p = replace_chars(path, "\\", "/");
    same(p.as_str(), "SKILL.md") || ends_with(p.as_str(), "/SKILL.md")
}

/// A line of the output of a search for files that names a file.
pub open spec fn names_file(line: Seq<char>) -> bool {
    line.len() > 0 && line != "No files found"@ && !has_prefix(line, "(Results are truncated"@)
        && !has_prefix(line, "matches:"@) && !has_prefix(line, "filesWalked:"@) && !has_prefix(
        line,
        "code:"@,
    )
}

pub open spec fn files_in(l: Seq<Seq<char>>) -> Seq<Seq<char>>
    decreases l.len(),
{
    if l.len() == 0 {
        Seq::empty()
    } else if names_file(trimmed(l.last())) {
        files_in(l.drop_last()).push(trimmed(l.last()))
    } else {
        files_in(l.drop_last())
    }
}

pub fn skill_files_from_glob(text: &str) -> (r: Vec<String>)
    ensures
        texts(r@) == files_in(lines_of(text@)),
{
    let all = lines(text);
    let ghost l = texts(all@);
    let mut r: Vec<String> = Vec::new();
    let mut i: usize = 0;
    assert(l.take(0) =~= Seq::empty());
    assert(texts(r@) =~= Seq::empty());
    while i < all.len()
        invariant
            i <= all@.len(),
            l == texts(all@),
            texts(r@) == files_in(l.take(i as int)),
        decreases all.len() - i,
    {
        assert(l.take(i + 1).drop_last() =~= l.take(i as int));
        let ghost before = texts(r@);
        let t = trim(all[i].as_str());
        let line = t.as_str();
        if line.unicode_len() > 0 && !same(line, "No files found") && !starts_with(
            line,
            "(Results are truncated",
        ) && !starts_with(line, "matches:") && !starts_with(line, "filesWalked:") && !starts_with(
            line,
            "code:",
        ) {
            r.push(t);
            assert(texts(r@) =~= before.push(t@));
        }
        i = i + 1;
    }
    assert(l.take(i as int) =~= l);
    r
}

/// The files beside the document of a skill, ten at most.
pub open spec fn side_files(files: Seq<Seq<char>>) -> Seq<Seq<char>>
    decreases files.len(),
{
    if files.len() == 0 {
        Seq::empty()
    } else {
        let head = side_files(files.drop_last());
        if is_skill_file(files.last()) || head.len() >= 10 {
            head
        } else {
            head.push(files.last())
        }
    }
}

pub fn skill_side_files(files: &Vec<String>) -> (r: Vec<String>)
    ensures
        texts(r@) == side_files(texts(files@)),
{
    let ghost l = texts(files@);
    let mut r: Vec<String> = Vec::new();
    let mut i: usize = 0;
    assert(l.take(0) =~= Seq::empty());
    assert(texts(r@) =~= Seq::empty());
    while i < files.len()
        invariant
            i <= files@.len(),
            l == texts(files@),
            texts(r@) == side_files(l.take(i as int)),
        decreases files.len() - i,
    {
        assert(l.take(i + 1).drop_last() =~= l.take(i as int));
        let ghost before = texts(r@);
        if !skill_path_is_file(files[i].as_str()) && r.len() < 10 {
            r.push(files[i].clone());
            assert(texts(r@) =~= before.push(files@[i as int]@));
        }
        i = i + 1;
    }
    assert(l.take(i as int) =~= l);
    r
}

// ---------------------------------------------------------------------------
// Reading a document
// ---------------------------------------------------------------------------

/// A line without the number that a reader puts in front of it.
pub open spec fn without_number(line: Seq<char>) -> Seq<char> {
    match split_first(line, ": "@) {
        Some((prefix, rest)) => if prefix.len() == 0 || all_digits(prefix) {
            rest
        } else {
            line
        },
        None => line,
    }
}

fn is_number(s: &str) -> (r: bool)
    ensures
        r == (s@.len() == 0 || all_digits(s@)),
{
    let v = chars_of(s);
    let mut i: usize = 0;
    while i < v.len()
        invariant
            i <= v@.len(),
            v@ == s@,
            forall|j: int| 0 <= j < i ==> is_digit(#[trigger] v@[j]),
        decreases v.len() - i,
    {
        if !('0' <= v[i] && v[i] <= '9') {
            assert(!is_digit(s@[i as int]));
            return false;
        }
        i = i + 1;
    }
    true
}

pub open spec fn unnumbered(l: Seq<Seq<char>>) -> Seq<Seq<char>> {
    l.map_values(|line: Seq<char>| without_number(line))
}

/// The text of a file from what a reader shows of it.
pub fn plain_read_text(text: &str) -> (r: String)
    ensures
        r@ == joined(unnumbered(lines_of(text@)), "\n"@),
{
    let all = lines(text);
    let ghost target = unnumbered(texts(all@));
    let mut kept: Vec<String> = Vec::new();
    let mut i: usize = 0;
    while i < all.len()
        invariant
            i <= all@.len(),
            target == unnumbered(texts(all@)),
            texts(kept@) == target.take(i as int),
        decreases all.len() - i,
    {
        let line = match split_once(all[i].as_str(), ": ") {
            Some((prefix, rest)) => if is_number(prefix.as_str()) {
                rest
            } else {
                all[i].clone()
            },
            None => all[i].clone(),
        };
        let ghost before = texts(kept@);
        assert(target[i as int] == line@);
        kept.push(line);
        assert(texts(kept@) =~= before.push(line@));
        i = i + 1;
        assert(target.take(i as int) =~= before.push(line@));
    }
    assert(target.take(i as int) =~= target);
    join(&kept, "\n")
}

pub open spec fn in_quotes(s: Seq<char>) -> bool {
    s.len() >= 2 && ((s[0] == '"' && s.last() == '"') || (s[0] == '\'' && s.last() == '\''))
}

/// A value without white space and one pair of quotation marks around it.
pub open spec fn unquoted(value: Seq<char>) -> Seq<char> {
    let v = trimmed(value);
    if in_quotes(v) {
        trimmed(v.subrange(1, v.len() - 1))
    } else {
        v
    }
}

pub fn strip_frontmatter_quotes(value: &str) -> (r: String)
    ensures
        r@ == unquoted(value@),
{
    let t = trim(value);
    let v = chars_of(t.as_str());
    let n: usize = v.len();
    if n >= 2 && ((v[0] == '"' && v[n - 1] == '"') || (v[0] == '\'' && v[n - 1] == '\'')) {
        let inner = string_between(&v, 1, n - 1);
        trim(inner.as_str())
    } else {
        t
    }
}

/// The value of the last line of the front matter with the key.
pub open spec fn front_value(l: Seq<Seq<char>>, key: Seq<char>) -> Option<Seq<char>>
    decreases l.len(),
{
    if l.len() == 0 {
        None
    } else {
        match split_first(l.last(), ":"@) {
            Some((k, v)) => if trimmed(k) == key {
                Some(unquoted(v))
            } else {
                front_value(l.drop_last(), key)
            },
            None => front_value(l.drop_last(), key),
        }
    }
}

fn read_front_value(all: &Vec<String>, key: &str) -> (r: Option<String>)
    ensures
        opt_text(r) == front_value(texts(all@), key@),
{
    let ghost l = texts(all@);
    let mut i: usize = all.len();
    assert(l.take(i as int) =~= l);
    while i > 0
        invariant
            i <= all@.len(),
            l == texts(all@),
            front_value(l.take(i as int), key@) == front_value(l, key@),
        decreases i,
    {
        assert(l.take(i as int).drop_last() =~= l.take(i - 1));
        assert(l.take(i as int).last() == all@[i - 1]@);
        match split_once(all[i - 1].as_str(), ":") {
            Some((k, v)) => if same(trim(k.as_str()).as_str(), key) {
                return Some(strip_frontmatter_quotes(v.as_str()));
            },
            None => {},
        }
        i = i - 1;
    }
    None
}

#[derive(Debug, Clone, PartialEq, Eq)]
pub struct SkillInfo {
    pub name: String,
    pub description: String,
    pub location: String,
    pub content: String,
}

#[verifier::ext_equal]
pub ghost struct SkillInfoView {
    pub name: Seq<char>,
    pub description: Seq<char>,
    pub location: Seq<char>,
    pub content: Seq<char>,
}

impl SkillInfo {
    pub open spec fn view(&self) -> SkillInfoView {
        SkillInfoView {
            name: self.name@,
            description: self.description@,
            location: self.location@,
            content: self.content@,
        }
    }

    pub fn copy(&self) -> (r: Self)
        ensures
            r@ == self@,
    {
        SkillInfo {
            name: self.name.clone(),
            description: self.description.clone(),
            location: self.location.clone(),
            content: self.content.clone(),
        }
    }
}

pub open spec fn skill_views(s: Seq<SkillInfo>) -> Seq<SkillInfoView> {
    s.map_values(|k: SkillInfo| k.view())
}

pub open spec fn opt_skill(s: Option<SkillInfo>) -> Option<SkillInfoView> {
    match s {
        Some(s) => Some(s@),
        None => None,
    }
}

/// The skill that a document describes: front matter between lines of `---` with a name
/// and a description, and the content behind it.
pub open spec fn skill_of(text: Seq<char>, location: Seq<char>) -> Option<SkillInfoView> {
    let t = trim_start_of(text);
    if has_prefix(t, "---"@) {
        let rest = trim_start_matches_of(t.skip("---"@.len() as int), "\r\n"@);
        match split_first(rest, "\n---"@) {
            Some((front, content)) => {
                let l = lines_of(front);
                match front_value(l, "name"@) {
                    Some(name) => if trimmed(name).len() > 0 {
                        Some(
                            SkillInfoView {
                                name: trimmed(name),
                                description: match front_value(l, "description"@) {
                                    Some(d) => d,
                                    None => Seq::empty(),
                                },
                                location,
                                content: trimmed(trim_start_matches_of(content, "-\r\n"@)),
                            },
                        )
                    } else {
                        None
                    },
                    None => None,
                }
            },
            None => None,
        }
    } else {
        None
    }
}

pub fn parse_skill_info(text: &str, location: &str) -> (r: Option<SkillInfo>)
    ensures
        opt_skill(r) == skill_of(text@, location@),
{
    let t = trim_start(text);
    let body = match strip_prefix(t.as_str(), "---") {
        Some(b) => b,
        None => {
            return None;
        },
    };
    let rest = trim_start_matches(body.as_str(), "\r\n");
    match split_once(rest.as_str(), "\n---") {
        Some((front, content)) => {
            let all = lines(front.as_str());
            let name = match read_front_value(&all, "name") {
                Some(n) => trim(n.as_str()),
                None => {
                    return None;
                },
            };
            if name.as_str().unicode_len() == 0 {
                return None;
            }
            let description = match read_front_value(&all, "description") {
                Some(d) => d,
                None => String::new(),
            };
            let inner = trim_start_matches(content.as_str(), "-\r\n");
            let content = trim(inner.as_str());
            Some(SkillInfo { name, description, location: location.to_owned(), content })
        },
        None => None,
    }
}

// ---------------------------------------------------------------------------
// Showing skills
// ---------------------------------------------------------------------------

pub open spec fn is_separator(c: char) -> bool {
    c == '/' || c == '\\'
}

/// The directory of a path: what stands before the last `/` or `\`, or `.`.
pub open spec fn dir_of(location: Seq<char>) -> Seq<char>
    decreases location.len(),
{
    if location.len() == 0 {
        "."@
    } else if is_separator(location.last()) {
        location.drop_last()
    } else {
        dir_of(location.drop_last())
    }
}

pub fn skill_dir(location: &str) -> (r: String)
    ensures
        r@ == dir_of(location@),
{
    let v = chars_of(location);
    let mut i: usize = v.len();
    assert(v@.take(i as int) =~= v@);
    while i > 0
        invariant
            i <= v@.len(),
            v@ == location@,
            dir_of(v@.take(i as int)) == dir_of(v@),
        decreases i,
    {
        assert(v@.take(i as int).drop_last() =~= v@.take(i - 1));
        assert(v@.take(i as int).last() == v@[i - 1]);
        if v[i - 1] == '/' || v[i - 1] == '\\' {
            let r = string_between(&v, 0, i - 1);
            assert(r@ =~= v@.take(i - 1));
            return r;
        }
        i = i - 1;
    }
    ".".to_owned()
}

pub open spec fn skill_entry(s: SkillInfoView) -> Seq<char> {
    "name: "@ + s.name + "\ndescription: "@ + s.description + "\npath: "@ + s.location
}

pub open spec fn skill_list_text(skills: Seq<SkillInfoView>) -> Seq<char> {
    if skills.len() == 0 {
        "No skills found."@
    } else {
        joined(skills.map_values(|s: SkillInfoView| skill_entry(s)), "\n\n"@)
    }
}

pub fn format_skill_list(skills: &Vec<SkillInfo>) -> (r: String)
    ensures
        r@ == skill_list_text(skill_views(skills@)),
{
    if skills.len() == 0 {
        return "No skills found.".to_owned();
    }
    let ghost target = skill_views(skills@).map_values(|s: SkillInfoView| skill_entry(s));
    let mut parts: Vec<String> = Vec::new();
    let mut i: usize = 0;
    while i < skills.len()
        invariant
            i <= skills@.len(),
            target == skill_views(skills@).map_values(|s: SkillInfoView| skill_entry(s)),
            texts(parts@) == target.take(i as int),
        decreases skills.len() - i,
    {
        let mut entry = cat("name: ", skills[i].name.as_str());
        entry.append("\ndescription: ");
        entry.append(skills[i].description.as_str());
        entry.append("\npath: ");
        entry.append(skills[i].location.as_str());
        let ghost before = texts(parts@);
        assert(target[i as int] == entry@);
        parts.push(entry);
        assert(texts(parts@) =~= before.push(entry@));
        i = i + 1;
        assert(target.take(i as int) =~= before.push(entry@));
    }
    assert(target.take(i as int) =~= target);
    join(&parts, "\n\n")
}

pub open spec fn file_lines(files: Seq<Seq<char>>) -> Seq<char> {
    if files.len() == 0 {
        "  <file>SKILL.md</file>"@
    } else {
        joined(files.map_values(|f: Seq<char>| "  <file>"@ + f + "</file>"@), "\n"@)
    }
}

/// What reading a skill shows.
pub open spec fn skill_read_text(s: SkillInfoView, files: Seq<Seq<char>>) -> Seq<char> {
    joined(
        seq![
            "<skill_content name=\""@ + s.name + "\">"@,
            "# Skill: "@ + s.name,
            Seq::empty(),
            trimmed(s.content),
            Seq::empty(),
            "Base directory for this skill: "@ + dir_of(s.location),
            "Relative paths in this skill (e.g., scripts/, reference/) are relative to this base directory."@,
            "Note: file list is sampled."@,
            "<skill_files>"@,
            file_lines(files),
            "</skill_files>"@,
            "</skill_content>"@,
        ],
        "\n"@,
    )
}

fn format_files(files: &Vec<String>) -> (r: String)
    ensures
        r@ == file_lines(texts(files@)),
{
    if files.len() == 0 {
        return "  <file>SKILL.md</file>".to_owned();
    }
    let ghost target = texts(files@).map_values(|f: Seq<char>| "  <file>"@ + f + "</file>"@);
    let mut parts: Vec<String> = Vec::new();
    let mut i: usize = 0;
    while i < files.len()
        invariant
            i <= files@.len(),
            target == texts(files@).map_values(|f: Seq<char>| "  <file>"@ + f + "</file>"@),
            texts(parts@) == target.take(i as int),
        decreases files.len() - i,
    {
        let entry = cat3("  <file>", files[i].as_str(), "</file>");
        let ghost before = texts(parts@);
        assert(target[i as int] == entry@);
        parts.push(entry);
        assert(texts(parts@) =~= before.push(entry@));
        i = i + 1;
        assert(target.take(i as int) =~= before.push(entry@));
    }
    assert(target.take(i as int) =~= target);
    join(&parts, "\n")
}

pub fn format_skill_read(skill: &SkillInfo, files: &Vec<String>) -> (r: String)
    ensures
        r@ == skill_read_text(skill@, texts(files@)),
{
    let base = skill_dir(skill.location.as_str());
    let mut parts: Vec<String> = Vec::new();
    parts.push(cat3("<skill_content name=\"", skill.name.as_str(), "\">"));
    parts.push(cat("# Skill: ", skill.name.as_str()));
    parts.push(String::new());
    parts.push(trim(skill.content.as_str()));
    parts.push(String::new());
    parts.push(cat("Base directory for this skill: ", base.as_str()));
    parts.push(
        "Relative paths in this skill (e.g., scripts/, reference/) are relative to this base directory.".to_owned(),
    );
    parts.push("Note: file list is sampled.".to_owned());
    parts.push("<skill_files>".to_owned());
    parts.push(format_files(files));
    parts.push("</skill_files>".to_owned());
    parts.push("</skill_content>".to_owned());
    assert(texts(parts@) =~= seq![
        "<skill_content name=\""@ + skill.name@ + "\">"@,
        "# Skill: "@ + skill.name@,
        Seq::empty(),
        trimmed(skill.content@),
        Seq::empty(),
        "Base directory for this skill: "@ + dir_of(skill.location@),
        "Relative paths in this skill (e.g., scripts/, reference/) are relative to this base directory."@,
        "Note: file list is sampled."@,
        "<skill_files>"@,
        file_lines(texts(files@)),
        "</skill_files>"@,
        "</skill_content>"@,
    ]);
    join(&parts, "\n")
}

// ---------------------------------------------------------------------------
// Choosing skills
// ---------------------------------------------------------------------------

/// The skills at the places that are marked.
pub open spec fn marked(skills: Seq<SkillInfoView>, hits: Seq<bool>) -> Seq<SkillInfoView>
    decreases skills.len(),
{
    if skills.len() == 0 || hits.len() < skills.len() {
        Seq::empty()
    } else if hits[skills.len() - 1] {
        marked(skills.drop_last(), hits).push(skills.last())
    } else {
        marked(skills.drop_last(), hits)
    }
}

/// For each skill, whether its name matches.
pub open spec fn name_hits(skills: Seq<SkillInfoView>, pattern: Seq<char>) -> Seq<bool> {
    skills.map_values(
        |s: SkillInfoView| regex_search(pattern, s.name) == Ok::<bool, Seq<char>>(true),
    )
}

/// The skills whose names match, in order.
pub open spec fn selected(skills: Seq<SkillInfoView>, pattern: Seq<char>) -> Seq<SkillInfoView> {
    in_order(marked(skills, name_hits(skills, pattern)), skill_order())
}

/// By name, and by place among skills of one name.
pub open spec fn skill_after(a: SkillInfoView, b: SkillInfoView) -> bool {
    text_lt(b.name, a.name) || (a.name == b.name && text_lt(b.location, a.location))
}

pub open spec fn skill_order() -> spec_fn(SkillInfoView, SkillInfoView) -> bool {
    |a: SkillInfoView, b: SkillInfoView| skill_after(a, b)
}

fn comes_after(a: &SkillInfo, b: &SkillInfo) -> (r: bool)
    ensures
        r == skill_after(a@, b@),
{
    text_before(b.name.as_str(), a.name.as_str()) || (same(a.name.as_str(), b.name.as_str())
        && text_before(b.location.as_str(), a.location.as_str()))
}

/// The marked skills, in order.
pub fn order_marked(skills: &Vec<SkillInfo>, hits: &Vec<bool>) -> (r: Vec<SkillInfo>)
    requires
        hits@.len() == skills@.len(),
    ensures
        skill_views(r@) == in_order(marked(skill_views(skills@), hits@), skill_order()),
{
    let mut sorted: Vec<SkillInfo> = Vec::new();
    let ghost all = skill_views(skills@);
    let mut i: usize = 0;
    assert(all.take(0) =~= Seq::empty());
    assert(skill_views(sorted@) =~= Seq::empty());
    while i < skills.len()
        invariant
            i <= skills@.len(),
            hits@.len() == skills@.len(),
            all == skill_views(skills@),
            skill_views(sorted@) == in_order(marked(all.take(i as int), hits@), skill_order()),
        decreases skills.len() - i,
    {
        let ghost chosen = marked(all.take(i as int), hits@);
        proof {
            assert(all.take(i + 1).drop_last() =~= all.take(i as int));
            assert(all.take(i + 1).last() == skills@[i as int]@);
        }
        if hits[i] {
            let skill = skills[i].copy();
            let ghost before = skill_views(sorted@);
            let mut k: usize = sorted.len();
            while k > 0 && comes_after(&sorted[k - 1], &skill)
                invariant
                    k <= sorted@.len(),
                    before == skill_views(sorted@),
                    forall|j: int|
                        k <= j < before.len() ==> skill_order()(#[trigger] before[j], skill@),
                decreases k,
            {
                assert(before[k - 1] == sorted@[k - 1]@);
                k = k - 1;
            }
            proof {
                assert(k > 0 ==> before[k - 1] == sorted@[k - 1]@);
                lemma_put_at(before, skill@, skill_order(), k as int);
                assert(chosen.push(skill@).drop_last() =~= chosen);
            }
            sorted.insert(k, skill);
            assert(skill_views(sorted@) =~= before.insert(k as int, skill@));
        }
        i = i + 1;
    }
    assert(all.take(i as int) =~= all);
    sorted
}

/// The skills whose names match, in order.
pub fn select_skills(skills: &Vec<SkillInfo>, pattern: &str) -> (r: Vec<SkillInfo>)
    ensures
        skill_views(r@) == selected(skill_views(skills@), pattern@),
{
    let ghost target = name_hits(skill_views(skills@), pattern@);
    let mut hits: Vec<bool> = Vec::new();
    let mut i: usize = 0;
    while i < skills.len()
        invariant
            i <= skills@.len(),
            target == name_hits(skill_views(skills@), pattern@),
            hits@ == target.take(i as int),
        decreases skills.len() - i,
    {
        let hit = match search_regex(pattern, skills[i].name.as_str()) {
            Ok(b) => b,
            Err(_) => false,
        };
        assert(target[i as int] == hit);
        hits.push(hit);
        i = i + 1;
        assert(hits@ =~= target.take(i as int));
    }
    assert(target.take(i as int) =~= target);
    order_marked(skills, &hits)
}

pub open spec fn skill_names(skills: Seq<SkillInfoView>) -> Seq<Seq<char>> {
    skills.map_values(|s: SkillInfoView| s.name)
}

pub fn join_names(skills: &Vec<SkillInfo>) -> (r: String)
    ensures
        r@ == joined(skill_names(skill_views(skills@)), ", "@),
{
    let ghost target = skill_names(skill_views(skills@));
    let mut parts: Vec<String> = Vec::new();
    let mut i: usize = 0;
    while i < skills.len()
        invariant
            i <= skills@.len(),
            target == skill_names(skill_views(skills@)),
            texts(parts@) == target.take(i as int),
        decreases skills.len() - i,
    {
        let ghost before = texts(parts@);
        let name = skills[i].name.clone();
        assert(target[i as int] == name@);
        parts.push(name);
        assert(texts(parts@) =~= before.push(name@));
        i = i + 1;
        assert(target.take(i as int) =~= before.push(name@));
    }
    assert(target.take(i as int) =~= target);
    join(&parts, ", ")
}

} // verus!
