//! Files that are kept under labels.

use vstd::prelude::*;

use crate::order::lemma_text_lt_irreflexive;
use crate::order::lemma_text_lt_transitive;
use crate::order::text_lt;
use crate::refs::basename;
use crate::refs::basename_of;
use crate::refs::file_key_ref_of;
use crate::refs::label_with;
use crate::refs::make_entry_parts;
use crate::refs::parse_hash_ref;
use crate::refs::small_hash_code;
use crate::refs::small_hash_of;
use crate::refs::target_of;
use crate::refs::HashRefTargetView;
use crate::store::TextMap;
use crate::text::cat;
use crate::text::has_prefix;
use crate::text::same;
use crate::text::starts_with;
use crate::types::FileRefEntry;
use crate::types::FileRefEntryView;
use crate::types::FileRefUpdate;
use crate::types::FileRefUpdateView;

verus! {

pub type Refs = Map<Seq<char>, FileRefEntryView>;

pub open spec fn entry_views(m: Map<Seq<char>, FileRefEntry>) -> Refs {
    m.map_values(|e: FileRefEntry| e.view())
}

pub open spec fn opt_entry_view(e: Option<FileRefEntry>) -> Option<FileRefEntryView> {
    match e {
        Some(e) => Some(e@),
        None => None,
    }
}

pub open spec fn entry_outcome(r: Result<FileRefEntry, String>) -> Result<
    FileRefEntryView,
    Seq<char>,
> {
    match r {
        Ok(e) => Ok(e@),
        Err(m) => Err(m@),
    }
}

/// What is kept of a reported file.
pub open spec fn kept_entry(update: FileRefUpdateView) -> FileRefEntryView {
    FileRefEntryView {
        executor: update.executor,
        file_path: update.file.canonical_path,
        hash_code: update.hash_code,
        file_key_ref: file_key_ref_of(Some(update.executor), update.file.file_key),
    }
}

/// The label of a kept file.
pub open spec fn kept_label(entry: FileRefEntryView) -> Seq<char> {
    label_with(
        basename_of(entry.file_path),
        small_hash_of(entry.file_key_ref, entry.hash_code),
    )
}

/// What is kept of a reported file, and its label.
pub fn keep_entry(update: FileRefUpdate) -> (r: (String, FileRefEntry))
    ensures
        r.0@ == kept_label(kept_entry(update@)),
        r.1@ == kept_entry(update@),
{
    let (file_key_ref, _filename, _small, label) = make_entry_parts(
        Some(update.executor.as_str()),
        update.file.file_key.as_str(),
        update.file.canonical_path.as_str(),
        update.hash_code.as_str(),
    );
    let entry = FileRefEntry {
        executor: update.executor,
        file_path: update.file.canonical_path,
        hash_code: update.hash_code,
        file_key_ref,
    };
    (label, entry)
}

/// A kept file that the label names.
pub open spec fn is_named(entry: FileRefEntryView, target: HashRefTargetView) -> bool {
    basename_of(entry.file_path) == target.filename && small_hash_of(
        entry.file_key_ref,
        entry.hash_code,
    ) == target.small_hash_code
}

/// A name under the prefix whose file the label names.
pub open spec fn resolves_to(
    refs: Refs,
    prefix: Seq<char>,
    target: HashRefTargetView,
    name: Seq<char>,
) -> bool {
    refs.dom().contains(name) && has_prefix(name, prefix) && is_named(refs[name], target)
}

/// The first of these names.
pub open spec fn resolves_first(
    refs: Refs,
    prefix: Seq<char>,
    target: HashRefTargetView,
    name: Seq<char>,
) -> bool {
    resolves_to(refs, prefix, target, name) && forall|other: Seq<char>| #[trigger]
        resolves_to(refs, prefix, target, other) ==> !text_lt(other, name)
}

/// What resolving a label comes to: the file that it names, the first by name where it
/// names several, or an error where the text is no label or names none.
pub open spec fn is_resolution(
    refs: Refs,
    prefix: Seq<char>,
    label: Seq<char>,
    outcome: Result<FileRefEntryView, Seq<char>>,
) -> bool {
    match target_of(label) {
        None => outcome == Err::<FileRefEntryView, Seq<char>>("invalid hashRef: "@ + label),
        Some(t) => match outcome {
            Ok(entry) => exists|name: Seq<char>| #[trigger]
                resolves_first(refs, prefix, t, name) && entry == refs[name],
            Err(m) => m == "hashRef not found: "@ + label && forall|name: Seq<char>|
                !#[trigger] resolves_to(refs, prefix, t, name),
        },
    }
}

#[verifier::loop_isolation(false)]
pub fn resolve_in(refs: &TextMap<FileRefEntry>, prefix: &str, target: &str) -> (r: Result<
    FileRefEntry,
    String,
>)
    ensures
        is_resolution(entry_views(refs@), prefix@, target@, entry_outcome(r)),
{
    let parsed = match parse_hash_ref(target) {
        Some(p) => p,
        None => {
            return Err(cat("invalid hashRef: ", target));
        },
    };
    let n: usize = refs.len();
    let ghost names = refs.names();
    let ghost m = entry_views(refs@);
    let ghost t = parsed@;
    let mut i: usize = 0;
    while i < n
        invariant
            i <= n,
            forall|j: int| 0 <= j < i ==> !resolves_to(m, prefix@, t, #[trigger] names[j]),
        decreases n - i,
    {
        let name = refs.key_at(i);
        let entry = refs.value_at(i);
        assert(m[names[i as int]] == entry@);
        if starts_with(name, prefix) && same(
            basename(entry.file_path.as_str()).as_str(),
            parsed.filename.as_str(),
        ) && same(
            small_hash_code(entry.file_key_ref.as_str(), entry.hash_code.as_str()).as_str(),
            parsed.small_hash_code.as_str(),
        ) {
            proof {
                let found = names[i as int];
                assert(resolves_to(m, prefix@, t, found));
                assert forall|other: Seq<char>| #[trigger]
                    resolves_to(m, prefix@, t, other) implies !text_lt(other, found) by {
                    assert(names.contains(other));
                    let j = choose|j: int| 0 <= j < names.len() && names[j] == other;
                    assert(j >= i);
                    if j > i {
                        assert(text_lt(names[i as int], names[j]));
                        if text_lt(other, found) {
                            lemma_text_lt_transitive(found, other, found);
                        }
                    }
                    lemma_text_lt_irreflexive(found);
                }
                assert(target_of(target@)->0 == t);
                assert(resolves_first(m, prefix@, target_of(target@)->0, found));
            }
            return Ok(entry.copy());
        }
        i = i + 1;
    }
    proof {
        assert forall|name: Seq<char>| !#[trigger] resolves_to(m, prefix@, t, name) by {
            if resolves_to(m, prefix@, t, name) {
                assert(names.contains(name));
                let j = choose|j: int| 0 <= j < names.len() && names[j] == name;
                assert(!resolves_to(m, prefix@, t, names[j]));
            }
        }
    }
    Err(cat("hashRef not found: ", target))
}

/// A name under the prefix whose file has the key.
pub open spec fn has_key(
    refs: Refs,
    prefix: Seq<char>,
    file_key_ref: Seq<char>,
    name: Seq<char>,
) -> bool {
    refs.dom().contains(name) && has_prefix(name, prefix) && refs[name].file_key_ref
        == file_key_ref
}

/// The first of these names.
pub open spec fn has_key_first(
    refs: Refs,
    prefix: Seq<char>,
    file_key_ref: Seq<char>,
    name: Seq<char>,
) -> bool {
    has_key(refs, prefix, file_key_ref, name) && forall|other: Seq<char>| #[trigger]
        has_key(refs, prefix, file_key_ref, other) ==> !text_lt(other, name)
}

/// What giving a file another hash comes to: the file with the key, the first by name where
/// there are several, keeps its name and gets the hash; nothing changes where there is none.
pub open spec fn is_retouch(
    before: Refs,
    after: Refs,
    prefix: Seq<char>,
    file_key_ref: Seq<char>,
    hash_code: Seq<char>,
    outcome: Option<FileRefEntryView>,
) -> bool {
    match outcome {
        Some(entry) => exists|name: Seq<char>| #[trigger]
            has_key_first(before, prefix, file_key_ref, name) && entry == (FileRefEntryView {
                hash_code,
                ..before[name]
            }) && after == before.insert(name, entry),
        None => after == before && forall|name: Seq<char>|
            !#[trigger] has_key(before, prefix, file_key_ref, name),
    }
}

#[verifier::loop_isolation(false)]
pub fn retouch_in(
    refs: &mut TextMap<FileRefEntry>,
    prefix: &str,
    file_key_ref: &str,
    hash_code: &str,
) -> (r: Option<FileRefEntry>)
    ensures
        is_retouch(
            entry_views(old(refs)@),
            entry_views(final(refs)@),
            prefix@,
            file_key_ref@,
            hash_code@,
            opt_entry_view(r),
        ),
{
    let n: usize = refs.len();
    let ghost names = refs.names();
    let ghost m = entry_views(refs@);
    let mut found: Option<(String, FileRefEntry)> = None;
    let mut i: usize = 0;
    while i < n && found.is_none()
        invariant
            i <= n,
            match found {
                None => forall|j: int|
                    0 <= j < i ==> !has_key(m, prefix@, file_key_ref@, #[trigger] names[j]),
                Some((name, entry)) => has_key_first(m, prefix@, file_key_ref@, name@) && entry@
                    == m[name@],
            },
        decreases n - i,
    {
        let name = refs.key_at(i);
        let entry = refs.value_at(i);
        assert(m[names[i as int]] == entry@);
        if starts_with(name, prefix) && same(entry.file_key_ref.as_str(), file_key_ref) {
            proof {
                let first = names[i as int];
                assert(has_key(m, prefix@, file_key_ref@, first));
                assert forall|other: Seq<char>| #[trigger]
                    has_key(m, prefix@, file_key_ref@, other) implies !text_lt(other, first) by {
                    assert(names.contains(other));
                    let j = choose|j: int| 0 <= j < names.len() && names[j] == other;
                    assert(j >= i);
                    if j > i {
                        assert(text_lt(names[i as int], names[j]));
                        if text_lt(other, first) {
                            lemma_text_lt_transitive(first, other, first);
                        }
                    }
                    lemma_text_lt_irreflexive(first);
                }
            }
            found = Some((name.to_owned(), entry.copy()));
        }
        i = i + 1;
    }
    match found {
        Some((name, entry)) => {
            let mut entry = entry;
            entry.hash_code = hash_code.to_owned();
            refs.insert(name.as_str(), entry.copy());
            assert(entry_views(refs@) =~= m.insert(name@, entry@));
            Some(entry)
        },
        None => {
            proof {
                assert forall|name: Seq<char>|
                    !#[trigger] has_key(m, prefix@, file_key_ref@, name) by {
                    if has_key(m, prefix@, file_key_ref@, name) {
                        assert(names.contains(name));
                        let j = choose|j: int| 0 <= j < names.len() && names[j] == name;
                        assert(!has_key(m, prefix@, file_key_ref@, names[j]));
                    }
                }
            }
            None
        },
    }
}

} // verus!
