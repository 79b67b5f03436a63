//! File references: labels such as `App.ts #A1B2` that stand for a file and the hash of
//! its content.

use vstd::prelude::*;
use vstd::utf8::encode_utf8;

use crate::json::Json;
use crate::json::JsonObject;
use crate::json::JsonView;
use crate::text::cat3;
use crate::text::chars_of;
use crate::text::is_hex_digit;
use crate::text::is_space;
use crate::text::last_at;
use crate::text::occurs_at;
use crate::text::replace_chars;
use crate::text::replaced_chars;
use crate::text::rsplit_once;
use crate::text::same;
use crate::text::split;
use crate::text::split_last;
use crate::text::split_on;
use crate::text::texts;
use crate::text::trim;
use crate::text::trim_start_of;
use crate::text::trimmed;
use crate::text::upper_char;
use crate::types::stamp_of;
use crate::types::FileRefEntry;
use crate::types::FileRefEntryView;
use crate::types::FileRefUpdate;
use crate::types::FileRefUpdateView;
use crate::types::FileStamp;
use crate::types::RecToolResult;

verus! {

// ---------------------------------------------------------------------------
// Outside functions
// ---------------------------------------------------------------------------

/// The SHA-1 digest of some bytes.
pub uninterp spec fn sha1_digest(data: Seq<u8>) -> Seq<u8>;

/// `sha1::Sha1::digest`: the digest of the bytes, which is a function of them alone and
/// has 20 bytes.
#[verifier::external_body]
fn sha1(data: &[u8]) -> (r: Vec<u8>)
    ensures
        r@ == sha1_digest(data@),
        r@.len() == 20,
{
    <sha1::Sha1 as sha1::Digest>::digest(data).to_vec()
}

/// The upper-case form of a text after the rules of Unicode.
pub uninterp spec fn uppercase(s: Seq<char>) -> Seq<char>;

/// `str::to_uppercase`: a function of the text alone, which on a text of ASCII
/// characters turns the letters from `a` to `z` into those from `A` to `Z` and keeps the
/// rest.
#[verifier::external_body]
fn to_uppercase(s: &str) -> (r: String)
    ensures
        r@ == uppercase(s@),
        (forall|i: int| 0 <= i < s@.len() ==> s@[i] < '\u{80}') ==> r@ == uppered(s@),
{
    s.to_uppercase()
}

pub open spec fn uppered(s: Seq<char>) -> Seq<char> {
    s.map_values(|c: char| upper_char(c))
}

// ---------------------------------------------------------------------------
// Names
// ---------------------------------------------------------------------------

/// The last of the parts that is not empty.
pub open spec fn last_part(parts: Seq<Seq<char>>) -> Option<Seq<char>>
    decreases parts.len(),
{
    if parts.len() == 0 {
        None
    } else if parts.last().len() > 0 {
        Some(parts.last())
    } else {
        last_part(parts.drop_last())
    }
}

/// The last component of a path, with `/` or `\` between components; the path itself
/// where it has none.
pub open spec fn basename_of(path: Seq<char>) -> Seq<char> {
    match last_part(split_on(replaced_chars(path, "\\"@, "/"@), "/"@)) {
        Some(part) => part,
        None => path,
    }
}

pub fn basename(input: &str) -> (r: String)
    ensures
        r@ == basename_of(input@),
{
    let normalized = replace_chars(input, "\\", "/");
    let parts = split(normalized.as_str(), "/");
    let mut i: usize = parts.len();
    assert(texts(parts@).take(i as int) =~= texts(parts@));
    while i > 0
        invariant
            i <= parts@.len(),
            last_part(texts(parts@).take(i as int)) == last_part(texts(parts@)),
            texts(parts@) == split_on(replaced_chars(input@, "\\"@, "/"@), "/"@),
        decreases i,
    {
        assert(texts(parts@).take(i as int).drop_last() =~= texts(parts@).take(i - 1));
        assert(texts(parts@).take(i as int).last() == parts@[i - 1]@);
        if parts[i - 1].as_str().unicode_len() > 0 {
            return parts[i - 1].clone();
        }
        i = i - 1;
    }
    input.to_owned()
}

/// The executor that a call means: `local` where it names none.
pub open spec fn executor_or_local(executor: Option<Seq<char>>) -> Seq<char> {
    match executor {
        Some(e) => if trimmed(e).len() > 0 {
            trimmed(e)
        } else {
            "local"@
        },
        None => "local"@,
    }
}

pub open spec fn file_key_ref_of(executor: Option<Seq<char>>, file_key: Seq<char>) -> Seq<char> {
    executor_or_local(executor) + ":"@ + file_key
}

pub fn file_key_ref(executor: Option<&str>, file_key: &str) -> (r: String)
    ensures
        r@ == file_key_ref_of(crate::json::opt_str(executor), file_key@),
{
    match executor {
        Some(e) => {
            let e = trim(e);
            if e.as_str().unicode_len() > 0 {
                cat3(e.as_str(), ":", file_key)
            } else {
                cat3("local", ":", file_key)
            }
        },
        None => cat3("local", ":", file_key),
    }
}

// ---------------------------------------------------------------------------
// Small hashes
// ---------------------------------------------------------------------------

/// An upper-case hexadecimal digit.
pub open spec fn hex_char(n: int) -> char {
    if n < 10 {
        ('0' as int + n) as char
    } else {
        ('A' as int + (n - 10)) as char
    }
}

fn hex_digit(n: u8) -> (r: char)
    requires
        n < 16,
    ensures
        r == hex_char(n as int),
{
    if n < 10 {
        (48 + n) as char
    } else {
        (55 + n) as char
    }
}

/// The first two bytes of a digest in upper-case hexadecimal.
pub open spec fn short_hex(digest: Seq<u8>) -> Seq<char> {
    seq![
        hex_char(digest[0] as int / 16),
        hex_char(digest[0] as int % 16),
        hex_char(digest[1] as int / 16),
        hex_char(digest[1] as int % 16),
    ]
}

/// The four hexadecimal digits for a digest.
pub fn short_hash(digest: &Vec<u8>) -> (r: String)
    requires
        digest@.len() >= 2,
    ensures
        r@ == short_hex(digest@),
{
    let mut r = String::new();
    r.push(hex_digit(digest[0] / 16));
    r.push(hex_digit(digest[0] % 16));
    r.push(hex_digit(digest[1] / 16));
    r.push(hex_digit(digest[1] % 16));
    assert(r@ =~= short_hex(digest@));
    r
}

/// The four hexadecimal digits that tell the states of a file apart.
pub open spec fn small_hash_of(file_key_ref: Seq<char>, hash_code: Seq<char>) -> Seq<char> {
    short_hex(sha1_digest(encode_utf8(file_key_ref + ":"@ + hash_code)))
}

pub fn small_hash_code(file_key_ref: &str, hash_code: &str) -> (r: String)
    ensures
        r@ == small_hash_of(file_key_ref@, hash_code@),
{
    let input = cat3(file_key_ref, ":", hash_code);
    let digest = sha1(input.as_str().as_bytes());
    short_hash(&digest)
}

/// A small hash is made of four upper-case hexadecimal digits.
pub proof fn law_small_hash_is_four_digits(file_key_ref: Seq<char>, hash_code: Seq<char>)
    ensures
        is_code(small_hash_of(file_key_ref, hash_code)),
        uppered(small_hash_of(file_key_ref, hash_code)) == small_hash_of(file_key_ref, hash_code),
{
    let d = sha1_digest(encode_utf8(file_key_ref + ":"@ + hash_code));
    let s = short_hex(d);
    assert(0 <= d[0] as int / 16 < 16 && 0 <= d[1] as int / 16 < 16);
    assert forall|i: int| 0 <= i < 4 implies is_hex_digit(#[trigger] s[i]) && upper_char(s[i])
        == s[i] by {
        assert(i == 0 || i == 1 || i == 2 || i == 3);
    }
    assert(uppered(s) =~= s);
}

// ---------------------------------------------------------------------------
// Labels
// ---------------------------------------------------------------------------

/// The label of a file in a state.
pub open spec fn label_of(filename: Seq<char>, small_hash_code: Seq<char>) -> Seq<char> {
    filename + " #"@ + uppercase(small_hash_code)
}

pub fn label_hash_ref(filename: &str, small_hash_code: &str) -> (r: String)
    ensures
        r@ == label_of(filename@, small_hash_code@),
        (forall|i: int| 0 <= i < small_hash_code@.len() ==> small_hash_code@[i] < '\u{80}') ==> r@
            == label_with(filename@, uppered(small_hash_code@)),
{
    let code = to_uppercase(small_hash_code);
    cat3(filename, " #", code.as_str())
}

/// A file name and the code after it.
pub open spec fn label_with(filename: Seq<char>, code: Seq<char>) -> Seq<char> {
    filename + " #"@ + code
}

#[derive(Debug, Clone, PartialEq, Eq)]
pub struct HashRefTarget {
    pub filename: String,
    pub small_hash_code: String,
}

#[verifier::ext_equal]
pub ghost struct HashRefTargetView {
    pub filename: Seq<char>,
    pub small_hash_code: Seq<char>,
}

impl HashRefTarget {
    pub open spec fn view(&self) -> HashRefTargetView {
        HashRefTargetView { filename: self.filename@, small_hash_code: self.small_hash_code@ }
    }
}

pub open spec fn opt_target(t: Option<HashRefTarget>) -> Option<HashRefTargetView> {
    match t {
        Some(t) => Some(t@),
        None => None,
    }
}

/// Four hexadecimal digits.
pub open spec fn is_code(s: Seq<char>) -> bool {
    s.len() == 4 && forall|i: int| 0 <= i < s.len() ==> is_hex_digit(#[trigger] s[i])
}

/// What a label names: the text before the last ` #` and the four hexadecimal digits
/// behind it.
pub open spec fn target_of(label: Seq<char>) -> Option<HashRefTargetView> {
    match split_last(trimmed(label), " #"@) {
        Some((filename, code)) => if is_code(trimmed(code)) && trimmed(filename).len() > 0 {
            Some(
                HashRefTargetView {
                    filename: trimmed(filename),
                    small_hash_code: uppered(trimmed(code)),
                },
            )
        } else {
            None
        },
        None => None,
    }
}

fn upper_code(s: &str) -> (r: Option<String>)
    ensures
        match r {
            Some(code) => is_code(s@) && code@ == uppered(s@),
            None => !is_code(s@),
        },
{
    let v = chars_of(s);
    if v.len() != 4 {
        return None;
    }
    let mut r = String::new();
    let mut i: usize = 0;
    while i < v.len()
        invariant
            i <= v@.len(),
            v@ == s@,
            v@.len() == 4,
            forall|j: int| 0 <= j < i ==> is_hex_digit(#[trigger] v@[j]),
            r@ == uppered(v@).take(i as int),
        decreases v.len() - i,
    {
        let c = v[i];
        if 'a' <= c && c <= 'f' {
            r.push((c as u8 - 32) as char);
        } else if ('0' <= c && c <= '9') || ('A' <= c && c <= 'F') {
            r.push(c);
        } else {
            assert(!is_hex_digit(s@[i as int]));
            return None;
        }
        i = i + 1;
        assert(r@ =~= uppered(v@).take(i as int));
    }
    assert(uppered(v@).take(i as int) =~= uppered(v@));
    Some(r)
}

pub fn parse_hash_ref(target: &str) -> (r: Option<HashRefTarget>)
    ensures
        opt_target(r) == target_of(target@),
{
    let t = trim(target);
    match rsplit_once(t.as_str(), " #") {
        Some((filename, code)) => {
            let code = trim(code.as_str());
            let filename = trim(filename.as_str());
            match upper_code(code.as_str()) {
                Some(small_hash_code) => if filename.as_str().unicode_len() > 0 {
                    Some(HashRefTarget { filename, small_hash_code })
                } else {
                    None
                },
                None => None,
            }
        },
        None => None,
    }
}

/// Trimming keeps a text that starts and ends without white space.
proof fn lemma_trim_keeps(s: Seq<char>)
    requires
        s.len() > 0 ==> !is_space(s[0]) && !is_space(s.last()),
    ensures
        trimmed(s) == s,
{
}

/// White space in front is cut off in the same way whatever follows the text.
proof fn lemma_trim_start_append(a: Seq<char>, b: Seq<char>)
    requires
        trim_start_of(a).len() > 0,
    ensures
        trim_start_of(a + b) == trim_start_of(a) + b,
    decreases a.len(),
{
    if is_space(a[0]) {
        assert((a + b).drop_first() =~= a.drop_first() + b);
        lemma_trim_start_append(a.drop_first(), b);
    } else {
        assert(trim_start_of(a + b) == a + b);
    }
}

proof fn lemma_trim_twice(s: Seq<char>)
    ensures
        trimmed(trim_start_of(s)) == trimmed(s),
        trimmed(s).len() > 0 ==> trim_start_of(s).len() > 0,
    decreases s.len(),
{
    if s.len() > 0 && is_space(s[0]) {
        lemma_trim_twice(s.drop_first());
    }
}

/// Reading a label gives back the file name, without white space around it, and the
/// code in upper case.
pub proof fn law_label_reads_back(filename: Seq<char>, code: Seq<char>)
    requires
        trimmed(filename).len() > 0,
        is_code(code),
    ensures
        target_of(label_with(filename, uppered(code))) == Some(
            HashRefTargetView { filename: trimmed(filename), small_hash_code: uppered(code) },
        ),
{
    reveal_strlit(" #");
    let up = uppered(code);
    let tail = " #"@ + up;
    let label = label_with(filename, up);
    assert(label =~= filename + tail);
    lemma_trim_twice(filename);
    lemma_trim_start_append(filename, tail);
    let body = trim_start_of(filename);
    let s = body + tail;
    assert(s.last() == up[3]);
    assert(is_hex_digit(code[3]));
    assert(trimmed(label) == s);
    let n = body.len() as int;
    assert(s.subrange(n, n + 2) =~= " #"@);
    assert(occurs_at(s, " #"@, n));
    assert forall|i: int| n < i <= s.len() - 2 implies !occurs_at(s, " #"@, i) by {
        assert(s.subrange(i, i + 2)[0] == s[i]);
        assert(" #"@[0] == ' ');
        if i > n + 1 {
            assert(s[i] == up[i - n - 2]);
            assert(is_hex_digit(code[i - n - 2]));
        } else {
            assert(s[i] == '#');
        }
    }
    lemma_last_at(s, " #"@, s.len() - 2, n);
    assert(s.take(n) =~= body);
    assert(s.skip(n + 2) =~= up);
    assert forall|i: int| 0 <= i < 4 implies is_hex_digit(#[trigger] up[i]) && !is_space(up[i])
        && upper_char(up[i]) == up[i] by {
        assert(is_hex_digit(code[i]));
    }
    lemma_trim_keeps(up);
    assert(uppered(up) =~= up);
}

proof fn lemma_last_at(s: Seq<char>, p: Seq<char>, to: int, n: int)
    requires
        0 <= n <= to,
        occurs_at(s, p, n),
        forall|i: int| n < i <= to ==> !occurs_at(s, p, i),
    ensures
        last_at(s, p, to) == Some(n),
    decreases to,
{
    if n < to {
        lemma_last_at(s, p, to - 1, n);
    }
}

/// The reference, the file name, the small hash and the label of a file in a state.
pub fn make_entry_parts(
    executor: Option<&str>,
    file_key: &str,
    file_path: &str,
    hash_code: &str,
) -> (r: (String, String, String, String))
    ensures
        r.0@ == file_key_ref_of(crate::json::opt_str(executor), file_key@),
        r.1@ == basename_of(file_path@),
        r.2@ == small_hash_of(r.0@, hash_code@),
        r.3@ == label_with(r.1@, r.2@),
        r.3@ == label_of(r.1@, r.2@),
{
    let key_ref = file_key_ref(executor, file_key);
    let filename = basename(file_path);
    let small = small_hash_code(key_ref.as_str(), hash_code);
    let label = label_hash_ref(filename.as_str(), small.as_str());
    proof {
        law_small_hash_is_four_digits(key_ref@, hash_code@);
        assert forall|i: int| 0 <= i < small@.len() implies small@[i] < '\u{80}' by {
            assert(is_hex_digit(small@[i]));
        }
    }
    (key_ref, filename, small, label)
}

// ---------------------------------------------------------------------------
// References in the arguments of a call
// ---------------------------------------------------------------------------

/// The arguments of a call with a file reference filled in, and the executor that the
/// call goes to.
#[derive(Debug, Clone, PartialEq, Eq)]
pub struct FileRefInjection {
    pub args: Json,
    pub executor: String,
}

pub open spec fn members_or_none(args: JsonView) -> Map<Seq<char>, JsonView> {
    match args {
        JsonView::Obj(m) => m,
        _ => Map::empty(),
    }
}

/// The arguments with the file that the entry stands for: its path, its hash, which the
/// executor is told to check, and the executor that has the file.
pub open spec fn with_entry(
    m: Map<Seq<char>, JsonView>,
    entry: FileRefEntryView,
) -> Map<Seq<char>, JsonView> {
    let m = m.insert("filePath"@, JsonView::Str(entry.file_path)).insert(
        "hashCheckMode"@,
        JsonView::Bool(true),
    ).insert("hashCode"@, JsonView::Str(entry.hash_code));
    if entry.executor == "local"@ {
        m.remove("executor"@).remove("targetExecutor"@)
    } else {
        m.insert("targetExecutor"@, JsonView::Str(entry.executor)).remove("executor"@)
    }
}

/// The executor that the arguments name as text, `executor` before `targetExecutor`.
pub open spec fn named_executor(args: JsonView) -> Seq<char> {
    match args.text_field("executor"@) {
        Some(e) => e,
        None => match args.text_field("targetExecutor"@) {
            Some(e) => e,
            None => "local"@,
        },
    }
}

pub open spec fn opt_entry(e: Option<&FileRefEntry>) -> Option<FileRefEntryView> {
    match e {
        Some(e) => Some(e@),
        None => None,
    }
}

pub open spec fn injected_args(args: JsonView, entry: Option<FileRefEntryView>) -> JsonView {
    match entry {
        Some(entry) => JsonView::Obj(with_entry(members_or_none(args), entry)),
        None => JsonView::Obj(members_or_none(args)),
    }
}

pub open spec fn injected_executor(args: JsonView, entry: Option<FileRefEntryView>) -> Seq<char> {
    match entry {
        Some(entry) => entry.executor,
        None => named_executor(args),
    }
}

pub fn inject_file_ref(args: &Json, entry: Option<&FileRefEntry>) -> (r: FileRefInjection)
    ensures
        r.args@ == injected_args(args@, opt_entry(entry)),
        r.executor@ == injected_executor(args@, opt_entry(entry)),
{
    let mut object = match args.as_object() {
        Some(o) => o.clone(),
        None => JsonObject::new(),
    };
    let executor = match entry {
        Some(entry) => entry.executor.clone(),
        None => match args.text_of("executor") {
            Some(e) => e.to_owned(),
            None => match args.text_of("targetExecutor") {
                Some(e) => e.to_owned(),
                None => "local".to_owned(),
            },
        },
    };
    match entry {
        Some(entry) => {
            object.insert("filePath", Json::Str(entry.file_path.clone()));
            object.insert("hashCheckMode", Json::Bool(true));
            object.insert("hashCode", Json::Str(entry.hash_code.clone()));
            if same(entry.executor.as_str(), "local") {
                let _ = object.remove("executor");
                let _ = object.remove("targetExecutor");
            } else {
                object.insert("targetExecutor", Json::Str(entry.executor.clone()));
                let _ = object.remove("executor");
            }
        },
        None => {},
    }
    FileRefInjection { args: Json::Object(object), executor }
}

/// A call with a file reference reaches the file that the reference stands for, with the
/// hash to check, on the executor that has it.
pub proof fn law_injection_names_the_file(args: JsonView, entry: FileRefEntryView)
    ensures
        injected_args(args, Some(entry)).field("filePath"@) == Some(
            JsonView::Str(entry.file_path),
        ),
        injected_args(args, Some(entry)).field("hashCheckMode"@) == Some(JsonView::Bool(true)),
        injected_args(args, Some(entry)).field("hashCode"@) == Some(
            JsonView::Str(entry.hash_code),
        ),
        named_executor(injected_args(args, Some(entry))) == entry.executor,
{
    reveal_strlit("filePath");
    reveal_strlit("hashCheckMode");
    reveal_strlit("hashCode");
    reveal_strlit("executor");
    reveal_strlit("targetExecutor");
    assert("filePath"@.len() == 8 && "hashCheckMode"@.len() == 13 && "hashCode"@.len() == 8
        && "executor"@.len() == 8 && "targetExecutor"@.len() == 14);
    assert("filePath"@[0] == 'f' && "hashCode"@[0] == 'h' && "executor"@[0] == 'e');
}

// ---------------------------------------------------------------------------
// References in the result of a call
// ---------------------------------------------------------------------------

/// The file in a state that a result reports: `metadata.file` of kind `file`, with the
/// text in `metadata.hashCode`.
pub open spec fn update_of(metadata: JsonView, executor: Seq<char>) -> Option<FileRefUpdateView> {
    match metadata.field("file"@) {
        Some(file) => match stamp_of(file) {
            Some(file) => if file.kind == "file"@ {
                match metadata.text_field("hashCode"@) {
                    Some(hash_code) => Some(FileRefUpdateView { executor, file, hash_code }),
                    None => None,
                }
            } else {
                None
            },
            None => None,
        },
        None => None,
    }
}

pub open spec fn opt_update(u: Option<FileRefUpdate>) -> Option<FileRefUpdateView> {
    match u {
        Some(u) => Some(u@),
        None => None,
    }
}

pub fn extract_file_ref_update(result: &RecToolResult, executor: &str) -> (r: Option<FileRefUpdate>)
    ensures
        opt_update(r) == update_of(result.metadata@, executor@),
{
    match result.metadata.get("file") {
        Some(file) => match FileStamp::from_json(file) {
            Some(file) => {
                if !same(file.kind.as_str(), "file") {
                    return None;
                }
                match result.metadata.text_of("hashCode") {
                    Some(hash_code) => Some(
                        FileRefUpdate {
                            executor: executor.to_owned(),
                            file,
                            hash_code: hash_code.to_owned(),
                        },
                    ),
                    None => None,
                }
            },
            None => None,
        },
        None => None,
    }
}

} // verus!
