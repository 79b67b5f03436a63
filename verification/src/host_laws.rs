//! What holds of the files and the tasks that a host keeps for its sessions.

use vstd::prelude::*;

use crate::host::ExbashSyncInputView;
use crate::json::JsonView;
use crate::kept_refs::has_key_first;
use crate::kept_refs::is_resolution;
use crate::kept_refs::is_retouch;
use crate::kept_refs::kept_entry;
use crate::kept_refs::kept_label;
use crate::kept_refs::resolves_first;
use crate::memory_host::count_under;
use crate::memory_host::listed_tasks;
use crate::memory_host::listed_under;
use crate::memory_host::ref_name;
use crate::memory_host::scope_prefix;
use crate::memory_host::session_snapshot;
use crate::memory_host::session_task_name;
use crate::memory_host::start_order;
use crate::memory_host::takes_task;
use crate::memory_host::task_count;
use crate::memory_host::workdir_snapshot;
use crate::memory_host::workdir_task_name;
use crate::order::is_increasing;
use crate::order::is_weak_order;
use crate::order::lemma_in_order;
use crate::order::lemma_sorted_names;
use crate::refs::basename_of;
use crate::refs::injected_args;
use crate::refs::injected_executor;
use crate::refs::small_hash_of;
use crate::refs::target_of;
use crate::refs::update_of;
use crate::session_file::file_task_name;
use crate::session_file::file_workdir_snapshot;
use crate::session_file::file_workdir_task_name;
use crate::text::has_prefix;
use crate::text::replaced_chars;
use crate::text::split_on;
use crate::text::trimmed;
use crate::types::ExbashTaskSnapshotView;
use crate::types::FileRefEntryView;
use crate::types::FileRefUpdateView;

verus! {

proof fn lemma_reference_names()
    ensures
        "filePath"@ != "hashCheckMode"@,
        "filePath"@ != "hashCode"@,
        "filePath"@ != "executor"@,
        "filePath"@ != "targetExecutor"@,
        "filePath"@ != "file"@,
        "filePath"@ != "kind"@,
        "filePath"@ != "fileKey"@,
        "filePath"@ != "canonicalPath"@,
        "hashCheckMode"@ != "hashCode"@,
        "hashCheckMode"@ != "executor"@,
        "hashCheckMode"@ != "targetExecutor"@,
        "hashCheckMode"@ != "file"@,
        "hashCheckMode"@ != "kind"@,
        "hashCheckMode"@ != "fileKey"@,
        "hashCheckMode"@ != "canonicalPath"@,
        "hashCode"@ != "executor"@,
        "hashCode"@ != "targetExecutor"@,
        "hashCode"@ != "file"@,
        "hashCode"@ != "kind"@,
        "hashCode"@ != "fileKey"@,
        "hashCode"@ != "canonicalPath"@,
        "executor"@ != "targetExecutor"@,
        "executor"@ != "file"@,
        "executor"@ != "kind"@,
        "executor"@ != "fileKey"@,
        "executor"@ != "canonicalPath"@,
        "targetExecutor"@ != "file"@,
        "targetExecutor"@ != "kind"@,
        "targetExecutor"@ != "fileKey"@,
        "targetExecutor"@ != "canonicalPath"@,
        "file"@ != "kind"@,
        "file"@ != "fileKey"@,
        "file"@ != "canonicalPath"@,
        "kind"@ != "fileKey"@,
        "kind"@ != "canonicalPath"@,
        "fileKey"@ != "canonicalPath"@,
{
    reveal_strlit("filePath");
    reveal_strlit("hashCheckMode");
    reveal_strlit("hashCode");
    reveal_strlit("executor");
    reveal_strlit("targetExecutor");
    reveal_strlit("file");
    reveal_strlit("kind");
    reveal_strlit("fileKey");
    reveal_strlit("canonicalPath");
    assert("filePath"@.len() == 8);
    assert("hashCheckMode"@.len() == 13);
    assert("hashCode"@.len() == 8);
    assert("executor"@.len() == 8);
    assert("targetExecutor"@.len() == 14);
    assert("file"@.len() == 4);
    assert("kind"@.len() == 4);
    assert("fileKey"@.len() == 7);
    assert("canonicalPath"@.len() == 13);
    assert("filePath"@[0] == 'f' && "hashCode"@[0] == 'h');
    assert("filePath"@[0] == 'f' && "executor"@[0] == 'e');
    assert("hashCheckMode"@[0] == 'h' && "canonicalPath"@[0] == 'c');
    assert("hashCode"@[0] == 'h' && "executor"@[0] == 'e');
    assert("file"@[0] == 'f' && "kind"@[0] == 'k');
}

// ---------------------------------------------------------------------------
// Files
// ---------------------------------------------------------------------------

/// A separator of the components of a path.
pub open spec fn is_separator(c: char) -> bool {
    c == '/' || c == '\\'
}

proof fn lemma_replaced(s: Seq<char>)
    ensures
        replaced_chars(s, "\\"@, "/"@).len() == s.len(),
        forall|i: int|
            0 <= i < s.len() ==> #[trigger] replaced_chars(s, "\\"@, "/"@)[i] == if is_separator(
                s[i],
            ) {
                '/'
            } else {
                s[i]
            },
    decreases s.len(),
{
    reveal_strlit("\\");
    reveal_strlit("/");
    assert("/"@ =~= seq!['/']);
    assert("\\"@ =~= seq!['\\']);
    if s.len() > 0 {
        lemma_replaced(s.drop_last());
        let c = s.last();
        assert("\\"@.contains(c) <==> c == '\\') by {
            if c == '\\' {
                assert("\\"@[0] == c);
            }
        }
    }
}

proof fn lemma_last_component(dir: Seq<char>, name: Seq<char>)
    requires
        !name.contains('/'),
    ensures
        split_on(dir + "/"@ + name, "/"@).len() > 0,
        split_on(dir + "/"@ + name, "/"@).last() == name,
    decreases name.len(),
{
    reveal_strlit("/");
    assert("/"@ =~= seq!['/']);
    let s = dir + "/"@ + name;
    if name.len() == 0 {
        assert(s.last() == '/');
        assert("/"@[0] == '/');
        assert("/"@.contains('/'));
        assert(split_on(s, "/"@).last() =~= name);
    } else {
        assert(!name.drop_last().contains('/')) by {
            if name.drop_last().contains('/') {
                let i = choose|i: int|
                    0 <= i < name.drop_last().len() && name.drop_last()[i] == '/';
                assert(name[i] == '/');
            }
        }
        lemma_last_component(dir, name.drop_last());
        assert(s.drop_last() =~= dir + "/"@ + name.drop_last());
        assert(s.last() == name.last());
        assert(name.contains(name.last()));
        assert(name.drop_last().push(name.last()) =~= name);
    }
}

/// The name of a file is what stands behind the last separator of its path.
pub proof fn law_files_are_named_by_their_paths(dir: Seq<char>, separator: char, name: Seq<char>)
    requires
        is_separator(separator),
        name.len() > 0,
        forall|i: int| 0 <= i < name.len() ==> !is_separator(#[trigger] name[i]),
    ensures
        basename_of(dir.push(separator) + name) == name,
{
    reveal_strlit("/");
    assert("/"@ =~= seq!['/']);
    let path = dir.push(separator) + name;
    let plain = replaced_chars(path, "\\"@, "/"@);
    lemma_replaced(path);
    let front = plain.take(dir.len() as int);
    assert(plain =~= front + "/"@ + name) by {
        assert forall|i: int| 0 <= i < plain.len() implies plain[i] == (front + "/"@ + name)[i] by {
            if i > dir.len() {
                assert(path[i] == name[i - dir.len() - 1]);
            } else if i == dir.len() {
                assert(path[i] == separator);
            }
        }
    }
    assert(!name.contains('/')) by {
        if name.contains('/') {
            let i = choose|i: int| 0 <= i < name.len() && name[i] == '/';
            assert(!is_separator(name[i]));
        }
    }
    lemma_last_component(front, name);
}

/// What is kept of a reported file is where it is, on which executor, and its hash; its key
/// begins with the executor, so that one file of two executors has two keys, and its label
/// begins with the name of the file.
pub proof fn law_reported_files_are_kept(update: FileRefUpdateView)
    ensures
        ({
            let entry = kept_entry(update);
            &&& entry.executor == update.executor
            &&& entry.file_path == update.file.canonical_path
            &&& entry.hash_code == update.hash_code
            &&& trimmed(update.executor).len() > 0 ==> entry.file_key_ref == trimmed(
                update.executor,
            ) + ":"@ + update.file.file_key
            &&& trimmed(update.executor).len() == 0 ==> entry.file_key_ref == "local:"@
                + update.file.file_key
            &&& has_prefix(kept_label(entry), basename_of(update.file.canonical_path) + " #"@)
            &&& kept_label(entry) == basename_of(update.file.canonical_path) + " #"@
                + small_hash_of(entry.file_key_ref, update.hash_code)
        }),
{
    let entry = kept_entry(update);
    let head = basename_of(update.file.canonical_path) + " #"@;
    assert(kept_label(entry).subrange(0, head.len() as int) =~= head);
    reveal_strlit("local");
    reveal_strlit(":");
    reveal_strlit("local:");
    assert("local"@ + ":"@ =~= "local:"@);
}

/// A result reports a file where it names one of kind `file`, by its key and its path, and the
/// hash of its content; the file is on the executor that was asked.
pub proof fn law_results_report_files(
    metadata: JsonView,
    executor: Seq<char>,
    key: Seq<char>,
    path: Seq<char>,
    hash_code: Seq<char>,
)
    requires
        metadata.field2("file"@, "fileKey"@) == Some(JsonView::Str(key)),
        metadata.field2("file"@, "canonicalPath"@) == Some(JsonView::Str(path)),
        metadata.field2("file"@, "size"@) is None,
        metadata.field2("file"@, "mtimeMs"@) is None,
        metadata.field("hashCode"@) == Some(JsonView::Str(hash_code)),
    ensures
        metadata.field2("file"@, "kind"@) == Some(JsonView::Str("file"@)) <==> update_of(
            metadata,
            executor,
        ) is Some,
        update_of(metadata, executor) matches Some(u) ==> u.executor == executor
            && u.file.canonical_path == path && u.file.file_key == key && u.hash_code == hash_code,
{
}

/// A call with a reference reaches the file that the reference stands for; everything else that
/// the call says is kept.
pub proof fn law_references_change_nothing_else(
    args: JsonView,
    entry: FileRefEntryView,
    key: Seq<char>,
)
    requires
        args is Obj,
    ensures
        key != "filePath"@ && key != "hashCheckMode"@ && key != "hashCode"@ && key != "executor"@
            && key != "targetExecutor"@ ==> injected_args(args, Some(entry)).field(key)
            == args.field(key),
        injected_args(args, None).field(key) == args.field(key),
        injected_args(args, Some(entry)).field("filePath"@) == Some(JsonView::Str(entry.file_path)),
        injected_args(args, Some(entry)).field("hashCode"@) == Some(JsonView::Str(entry.hash_code)),
        injected_args(args, Some(entry)).field("executor"@) is None,
        entry.executor == "local"@ ==> injected_args(args, Some(entry)).field(
            "targetExecutor"@,
        ) is None,
        entry.executor != "local"@ ==> injected_args(args, Some(entry)).field("targetExecutor"@)
            == Some(JsonView::Str(entry.executor)),
        injected_executor(args, Some(entry)) == entry.executor,
        args.field("executor"@) matches Some(JsonView::Str(e)) ==> injected_executor(args, None)
            == e,
{
    lemma_reference_names();
}

/// A label resolves to a file only that the session keeps and that has this label; where it does
/// not resolve, the session keeps no such file.
pub proof fn law_labels_resolve_in_their_session(
    refs: Map<Seq<char>, FileRefEntryView>,
    session_id: Seq<char>,
    label: Seq<char>,
    outcome: Result<FileRefEntryView, Seq<char>>,
    name: Seq<char>,
)
    requires
        is_resolution(refs, scope_prefix(session_id), label, outcome),
    ensures
        outcome matches Ok(entry) ==> (exists|n: Seq<char>| #[trigger]
            refs.dom().contains(n) && has_prefix(n, session_id + ":"@) && refs[n] == entry),
        outcome matches Ok(entry) ==> target_of(label) is Some && kept_label(entry) == target_of(
            label,
        )->0.filename + " #"@ + target_of(label)->0.small_hash_code,
        outcome is Err && target_of(label) is Some && refs.dom().contains(name) && has_prefix(
            name,
            session_id + ":"@,
        ) ==> kept_label(refs[name]) != target_of(label)->0.filename + " #"@ + target_of(
            label,
        )->0.small_hash_code || basename_of(refs[name].file_path) != target_of(label)->0.filename,
{
    if let Ok(entry) = outcome {
        let t = target_of(label)->0;
        let n = choose|n: Seq<char>| #[trigger]
            resolves_first(refs, scope_prefix(session_id), t, n) && entry == refs[n];
        assert(refs.dom().contains(n) && refs[n] == entry);
    } else if target_of(label) is Some && refs.dom().contains(name) && has_prefix(
        name,
        session_id + ":"@,
    ) {
        let t = target_of(label)->0;
        assert(!crate::kept_refs::resolves_to(refs, scope_prefix(session_id), t, name));
        let entry = refs[name];
        if basename_of(entry.file_path) == t.filename && kept_label(entry) == t.filename + " #"@
            + t.small_hash_code {
            let head = t.filename + " #"@;
            let small = small_hash_of(entry.file_key_ref, entry.hash_code);
            assert((head + small).skip(head.len() as int) =~= small);
            assert((head + t.small_hash_code).skip(head.len() as int) =~= t.small_hash_code);
        }
    }
}

/// Giving a file another hash changes nothing but the hash of one file of the session that has
/// the key.
pub proof fn law_only_the_hash_is_retouched(
    before: Map<Seq<char>, FileRefEntryView>,
    after: Map<Seq<char>, FileRefEntryView>,
    session_id: Seq<char>,
    file_key_ref: Seq<char>,
    hash_code: Seq<char>,
    outcome: Option<FileRefEntryView>,
    name: Seq<char>,
)
    requires
        is_retouch(before, after, scope_prefix(session_id), file_key_ref, hash_code, outcome),
    ensures
        after.dom() == before.dom(),
        before.dom().contains(name) && after[name] != before[name] ==> {
            &&& has_prefix(name, session_id + ":"@)
            &&& before[name].file_key_ref == file_key_ref
            &&& after[name].hash_code == hash_code
            &&& after[name].file_path == before[name].file_path
            &&& after[name].executor == before[name].executor
            &&& outcome == Some(after[name])
        },
        before.dom().contains(name) && has_prefix(name, session_id + ":"@)
            && before[name].file_key_ref == file_key_ref ==> outcome is Some,
{
    if let Some(entry) = outcome {
        let n = choose|n: Seq<char>| #[trigger]
            has_key_first(before, scope_prefix(session_id), file_key_ref, n) && entry == (
            FileRefEntryView { hash_code, ..before[n] }) && after == before.insert(n, entry);
        assert(before.dom().contains(n));
        assert(after.dom() =~= before.dom());
    } else if before.dom().contains(name) && has_prefix(name, session_id + ":"@) {
        assert(!crate::kept_refs::has_key(before, scope_prefix(session_id), file_key_ref, name));
    }
}

// ---------------------------------------------------------------------------
// Tasks
// ---------------------------------------------------------------------------

/// What is kept of a task is what was reported of it; one that names no executor runs on the
/// local one.
pub proof fn law_reported_tasks_are_kept(
    session_id: Seq<char>,
    workdir: Seq<char>,
    input: ExbashSyncInputView,
)
    ensures
        keeps_report(session_snapshot(session_id, input), input),
        keeps_report(workdir_snapshot(session_id, workdir, input), input),
        keeps_report(file_workdir_snapshot(workdir, input), input),
        session_snapshot(session_id, input).session_id == Some(session_id),
        session_snapshot(session_id, input).workdir is None,
        workdir_snapshot(session_id, workdir, input).workdir == Some(workdir),
        workdir_snapshot(session_id, workdir, input).session_id == match input.session_id {
            Some(s) => Some(s),
            None => Some(session_id),
        },
        file_workdir_snapshot(workdir, input).workdir == Some(workdir),
        file_workdir_snapshot(workdir, input).session_id == input.session_id,
{
}

/// The task is the one that was reported.
pub open spec fn keeps_report(task: ExbashTaskSnapshotView, input: ExbashSyncInputView) -> bool {
    &&& input.async_id matches Some(id) ==> task.async_id == id
    &&& input.executor matches Some(e) ==> task.executor == e
    &&& input.executor is None ==> task.executor == "local"@
    &&& task.state == input.state
    &&& task.pid == input.pid
    &&& task.exit_code == input.exit_code
    &&& task.started_at == input.started_at
    &&& task.ended_at == input.ended_at
    &&& task.command == input.command
    &&& task.description == input.description
    &&& task.total_output == input.total_output
}

/// A task is kept under its session or its workspace, and two tasks whose ids and executors have
/// no colon are kept under two names.
pub proof fn law_tasks_have_their_own_names(
    scope: Seq<char>,
    id: Seq<char>,
    executor: Seq<char>,
    other_id: Seq<char>,
    other_executor: Seq<char>,
)
    requires
        !id.contains(':') && !executor.contains(':'),
        !other_id.contains(':') && !other_executor.contains(':'),
        id != other_id || executor != other_executor,
    ensures
        has_prefix(session_task_name(scope, id, executor), scope + ":"@),
        has_prefix(workdir_task_name(scope, executor, id), scope + ":"@),
        has_prefix(file_workdir_task_name(scope, id, executor), scope + ":"@),
        session_task_name(scope, id, executor) != session_task_name(
            scope,
            other_id,
            other_executor,
        ),
        workdir_task_name(scope, executor, id) != workdir_task_name(
            scope,
            other_executor,
            other_id,
        ),
        file_workdir_task_name(scope, id, executor) != file_workdir_task_name(
            scope,
            other_id,
            other_executor,
        ),
        file_task_name(id, executor) != file_task_name(other_id, other_executor),
{
    let p = scope + ":"@;
    lemma_parts(Seq::empty(), id, executor, other_id, other_executor);
    assert(Seq::<char>::empty() + id =~= id && Seq::<char>::empty() + other_id =~= other_id);
    lemma_parts(p, id, executor, other_id, other_executor);
    lemma_parts(p, executor, id, other_executor, other_id);
    assert(session_task_name(scope, id, executor).subrange(0, p.len() as int) =~= p);
    assert(workdir_task_name(scope, executor, id).subrange(0, p.len() as int) =~= p);
    assert(file_workdir_task_name(scope, id, executor).subrange(0, p.len() as int) =~= p);
}

proof fn lemma_parts(p: Seq<char>, a: Seq<char>, b: Seq<char>, c: Seq<char>, d: Seq<char>)
    requires
        !a.contains(':') && !c.contains(':'),
        a != c || b != d,
    ensures
        p + a + ":"@ + b != p + c + ":"@ + d,
{
    reveal_strlit(":");
    assert(":"@ =~= seq![':']);
    let x = p + a + ":"@ + b;
    let y = p + c + ":"@ + d;
    if x == y {
        let n = p.len() as int;
        if a.len() < c.len() {
            assert(x[n + a.len()] == ':');
            assert(y[n + a.len()] == c[a.len() as int]);
            assert(c.contains(c[a.len() as int]));
        } else if c.len() < a.len() {
            assert(y[n + c.len()] == ':');
            assert(x[n + c.len()] == a[c.len() as int]);
            assert(a.contains(a[c.len() as int]));
        } else {
            assert(a =~= c) by {
                assert forall|i: int| 0 <= i < a.len() implies a[i] == c[i] by {
                    assert(x[n + i] == a[i]);
                    assert(y[n + i] == c[i]);
                }
            }
            let m = n + a.len() + 1;
            assert(x.skip(m) =~= b);
            assert(y.skip(m) =~= d);
        }
    }
}

proof fn lemma_listed(
    tasks: Map<Seq<char>, ExbashTaskSnapshotView>,
    names: Seq<Seq<char>>,
    prefix: Seq<char>,
    executor: Option<Seq<char>>,
    task: ExbashTaskSnapshotView,
)
    ensures
        listed_under(tasks, names, prefix, executor).contains(task) <==> exists|i: int|
            0 <= i < names.len() && has_prefix(#[trigger] names[i], prefix) && tasks[names[i]]
                == task && (executor is None || executor == Some(task.executor)),
        executor is None ==> listed_under(tasks, names, prefix, executor).len() == count_under(
            names,
            prefix,
        ),
    decreases names.len(),
{
    if names.len() > 0 {
        let fewer = names.drop_last();
        lemma_listed(tasks, fewer, prefix, executor, task);
        let head = listed_under(tasks, fewer, prefix, executor);
        let all = listed_under(tasks, names, prefix, executor);
        let n = names.len() - 1;
        if all.contains(task) {
            let k = choose|k: int| 0 <= k < all.len() && all[k] == task;
            if k < head.len() {
                assert(head[k] == task);
                let i = choose|i: int|
                    0 <= i < fewer.len() && has_prefix(#[trigger] fewer[i], prefix)
                        && tasks[fewer[i]] == task && (executor is None || executor == Some(
                        task.executor,
                    ));
                assert(names[i] == fewer[i]);
            } else {
                assert(names[n] == names.last());
            }
        }
        if exists|i: int|
            0 <= i < names.len() && has_prefix(#[trigger] names[i], prefix) && tasks[names[i]]
                == task && (executor is None || executor == Some(task.executor)) {
            let i = choose|i: int|
                0 <= i < names.len() && has_prefix(#[trigger] names[i], prefix) && tasks[names[i]]
                    == task && (executor is None || executor == Some(task.executor));
            if i < n {
                assert(fewer[i] == names[i]);
                let k = choose|k: int| 0 <= k < head.len() && head[k] == task;
                assert(all[k] == task);
            } else {
                assert(all[all.len() - 1] == task);
            }
        }
    }
}

/// A list shows the tasks of its session or workspace, those of the executor where one is named:
/// each of them and no other, by their start. Without an executor it shows as many as are
/// counted against the limit.
pub proof fn law_lists_show_what_is_kept(
    tasks: Map<Seq<char>, ExbashTaskSnapshotView>,
    names: Seq<Seq<char>>,
    scope: Seq<char>,
    executor: Option<Seq<char>>,
    task: ExbashTaskSnapshotView,
)
    requires
        is_increasing(names),
        forall|x: Seq<char>| tasks.dom().contains(x) <==> #[trigger] names.contains(x),
    ensures
        listed_tasks(tasks, scope, executor).contains(task) <==> (executor is None || executor
            == Some(task.executor)) && exists|name: Seq<char>| #[trigger]
            tasks.dom().contains(name) && has_prefix(name, scope + ":"@) && tasks[name] == task,
        forall|i: int, j: int|
            0 <= i < j < listed_tasks(tasks, scope, executor).len() ==> crate::exbash::started(
                #[trigger] listed_tasks(tasks, scope, executor)[i],
            ) <= crate::exbash::started(#[trigger] listed_tasks(tasks, scope, executor)[j]),
        listed_tasks(tasks, scope, None).len() == task_count(tasks, scope),
{
    lemma_sorted_names(tasks.dom(), names);
    let prefix = scope_prefix(scope);
    let some = listed_under(tasks, names, prefix, executor);
    lemma_listed(tasks, names, prefix, executor, task);
    lemma_listed(tasks, names, prefix, None, task);
    assert(is_weak_order(start_order()));
    lemma_in_order(some, start_order());
    lemma_in_order(listed_under(tasks, names, prefix, None), start_order());
    let all = listed_tasks(tasks, scope, executor);
    some.to_multiset_ensures();
    all.to_multiset_ensures();
    assert(all.contains(task) <==> all.to_multiset().count(task) > 0);
    assert(some.contains(task) <==> some.to_multiset().count(task) > 0);
    if some.contains(task) {
        let i = choose|i: int|
            0 <= i < names.len() && has_prefix(#[trigger] names[i], prefix) && tasks[names[i]]
                == task && (executor is None || executor == Some(task.executor));
        assert(names.contains(names[i]));
        assert(tasks.dom().contains(names[i]));
    }
    if exists|name: Seq<char>| #[trigger]
        tasks.dom().contains(name) && has_prefix(name, scope + ":"@) && tasks[name] == task {
        let name = choose|name: Seq<char>| #[trigger]
            tasks.dom().contains(name) && has_prefix(name, scope + ":"@) && tasks[name] == task;
        assert(names.contains(name));
        let i = choose|i: int| 0 <= i < names.len() && names[i] == name;
        assert(has_prefix(names[i], prefix));
    }
    assert forall|i: int, j: int| 0 <= i < j < all.len() implies crate::exbash::started(
        #[trigger] all[i],
    ) <= crate::exbash::started(#[trigger] all[j]) by {
        assert(!start_order()(all[i], all[j]));
    }
}

/// A host with a limit takes a new task exactly while a list of the session is shorter than the
/// limit, and a task that it keeps already in any case; a host without one takes every task.
pub proof fn law_limits_are_kept(
    tasks: Map<Seq<char>, ExbashTaskSnapshotView>,
    names: Seq<Seq<char>>,
    limit: usize,
    scope: Seq<char>,
    id: Seq<char>,
    name: Seq<char>,
)
    requires
        is_increasing(names),
        forall|x: Seq<char>| tasks.dom().contains(x) <==> #[trigger] names.contains(x),
    ensures
        takes_task(tasks, None, scope, Some(id), name),
        takes_task(tasks, Some(limit), scope, None, name) <==> listed_tasks(
            tasks,
            scope,
            None,
        ).len() < limit,
        !tasks.dom().contains(name) ==> (takes_task(tasks, Some(limit), scope, Some(id), name)
            <==> listed_tasks(tasks, scope, None).len() < limit),
        tasks.dom().contains(name) && id.len() > 0 ==> takes_task(
            tasks,
            Some(limit),
            scope,
            Some(id),
            name,
        ),
{
    law_lists_show_what_is_kept(tasks, names, scope, None, tasks[name]);
}

/// A file of a session is kept under the session.
pub proof fn law_files_are_kept_in_their_session(session_id: Seq<char>, label: Seq<char>)
    ensures
        has_prefix(ref_name(session_id, label), session_id + ":"@),
        ref_name(session_id, label).skip((session_id.len() + 1) as int) == label,
{
    reveal_strlit(":");
    assert(":"@.len() == 1);
    let p = session_id + ":"@;
    assert(ref_name(session_id, label).subrange(0, p.len() as int) =~= p);
    assert(ref_name(session_id, label).skip((session_id.len() + 1) as int) =~= label);
}

} // verus!
