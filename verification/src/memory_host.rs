//! A host that keeps everything in memory.

use vstd::prelude::*;

use crate::exbash::started;
use crate::host::ExbashSessionStore;
use crate::host::ExbashSyncInput;
use crate::host::ExbashSyncInputView;
use crate::host::ExbashWorkdirStore;
use crate::host::HashRefSessionStore;
use crate::host::RemoteExecutorConfigStore;
use crate::host::SessionWorkdirProvider;
use crate::host::EXBASH_TASK_STACK_FULL_MESSAGE;
use crate::json::opt_str;
use crate::json::Json;
use crate::json::JsonObject;
use crate::json::JsonView;
use crate::kept_refs::entry_outcome;
use crate::kept_refs::entry_views;
use crate::kept_refs::is_resolution;
use crate::kept_refs::is_retouch;
use crate::kept_refs::keep_entry;
use crate::kept_refs::kept_entry;
use crate::kept_refs::kept_label;
use crate::kept_refs::opt_entry_view;
use crate::kept_refs::resolve_in;
use crate::kept_refs::resolves_to;
use crate::kept_refs::retouch_in;
use crate::order::in_order;
use crate::order::lemma_put_at;
use crate::order::sorted_names;
use crate::refs::basename_of;
use crate::refs::law_label_reads_back;
use crate::refs::law_small_hash_is_four_digits;
use crate::refs::parse_hash_ref;
use crate::refs::small_hash_of;
use crate::refs::target_of;
use crate::store::TextMap;
use crate::text::cat;
use crate::text::cat3;
use crate::text::cat5;
use crate::text::has_prefix;
use crate::text::opt_text;
use crate::text::same;
use crate::text::starts_with;
use crate::text::trimmed;
use crate::types::snapshot_views;
use crate::types::ExbashTaskSnapshot;
use crate::types::ExbashTaskSnapshotView;
use crate::types::FileRefEntry;
use crate::types::FileRefEntryView;
use crate::types::FileRefUpdate;
use crate::types::FileRefUpdateView;
use crate::types::RemoteExecutorConfigSnapshot;

verus! {

#[derive(Debug)]
pub struct MemorySessionHost {
    session_id: String,
    workdir: String,
    session_workdirs: TextMap<String>,
    hash_refs: TextMap<FileRefEntry>,
    session_tasks: TextMap<ExbashTaskSnapshot>,
    workdir_tasks: TextMap<ExbashTaskSnapshot>,
    configs: TextMap<Json>,
    exbash_task_limit: Option<usize>,
}

/// What the host keeps: the workspaces of its sessions and the one of all others, the file
/// references by session and label, the tasks by session or workspace, the executors by
/// workspace, and the number of tasks that it takes.
#[verifier::ext_equal]
pub ghost struct MemoryHostView {
    pub workdir: Seq<char>,
    pub session_workdirs: Map<Seq<char>, Seq<char>>,
    pub hash_refs: Map<Seq<char>, FileRefEntryView>,
    pub session_tasks: Map<Seq<char>, ExbashTaskSnapshotView>,
    pub workdir_tasks: Map<Seq<char>, ExbashTaskSnapshotView>,
    pub configs: Map<Seq<char>, JsonView>,
    pub limit: Option<usize>,
}

pub open spec fn task_views(m: Map<Seq<char>, ExbashTaskSnapshot>) -> Map<
    Seq<char>,
    ExbashTaskSnapshotView,
> {
    m.map_values(|t: ExbashTaskSnapshot| t.view())
}

impl MemorySessionHost {
    pub closed spec fn view(&self) -> MemoryHostView {
        MemoryHostView {
            workdir: self.workdir@,
            session_workdirs: self.session_workdirs@.map_values(|s: String| s@),
            hash_refs: entry_views(self.hash_refs@),
            session_tasks: task_views(self.session_tasks@),
            workdir_tasks: task_views(self.workdir_tasks@),
            configs: self.configs@.map_values(|v: Json| v.view()),
            limit: self.exbash_task_limit,
        }
    }

    /// A host that knows the workspace of one session and takes any number of tasks.
    pub fn new(session_id: &str, workdir: &str) -> (r: Self)
        ensures
            r@ == (MemoryHostView {
                workdir: workdir@,
                session_workdirs: map![session_id@ => workdir@],
                hash_refs: Map::empty(),
                session_tasks: Map::empty(),
                workdir_tasks: Map::empty(),
                configs: Map::empty(),
                limit: None,
            }),
    {
        let mut session_workdirs: TextMap<String> = TextMap::new();
        session_workdirs.insert(session_id, workdir.to_owned());
        let r = MemorySessionHost {
            session_id: session_id.to_owned(),
            workdir: workdir.to_owned(),
            session_workdirs,
            hash_refs: TextMap::new(),
            session_tasks: TextMap::new(),
            workdir_tasks: TextMap::new(),
            configs: TextMap::new(),
            exbash_task_limit: None,
        };
        assert(r@.session_workdirs =~= map![session_id@ => workdir@]);
        assert(r@.hash_refs =~= Map::empty());
        assert(r@.session_tasks =~= Map::empty());
        assert(r@.workdir_tasks =~= Map::empty());
        assert(r@.configs =~= Map::empty());
        r
    }

    /// The host with a limit of tasks for each session and each workspace.
    pub fn with_exbash_task_limit(self, limit: usize) -> (r: Self)
        ensures
            r@ == (MemoryHostView { limit: Some(limit), ..self@ }),
    {
        let mut r = self;
        r.exbash_task_limit = Some(limit);
        r
    }
}

// ---------------------------------------------------------------------------
// Names
// ---------------------------------------------------------------------------

pub open spec fn scope_prefix(scope: Seq<char>) -> Seq<char> {
    scope + ":"@
}

/// The name of a file reference of a session.
pub open spec fn ref_name(session_id: Seq<char>, label: Seq<char>) -> Seq<char> {
    session_id + ":"@ + label
}

pub open spec fn session_task_name(
    session_id: Seq<char>,
    async_id: Seq<char>,
    executor: Seq<char>,
) -> Seq<char> {
    session_id + ":"@ + async_id + ":"@ + executor
}

pub open spec fn workdir_task_name(
    workdir: Seq<char>,
    executor: Seq<char>,
    async_id: Seq<char>,
) -> Seq<char> {
    workdir + ":"@ + executor + ":"@ + async_id
}

impl SessionWorkdirProvider for MemorySessionHost {
    type Error = String;

    fn session_workdir(&self, session_id: &str) -> (r: Result<String, String>)
        ensures
            r matches Ok(w) && w@ == (if self@.session_workdirs.dom().contains(session_id@) {
                self@.session_workdirs[session_id@]
            } else {
                self@.workdir
            }),
    {
        match self.session_workdirs.get(session_id) {
            Some(w) => Ok(w.clone()),
            None => Ok(self.workdir.clone()),
        }
    }
}

// ---------------------------------------------------------------------------
// File references
// ---------------------------------------------------------------------------

impl HashRefSessionStore for MemorySessionHost {
    type Error = String;

    fn is_hash_ref(&self, target: &str) -> (r: bool)
        ensures
            r == (target_of(target@) is Some),
    {
        parse_hash_ref(target).is_some()
    }

    /// The file of the session that a label names.
    fn resolve_hash_ref(&self, session_id: &str, target: &str) -> (r: Result<FileRefEntry, String>)
        ensures
            is_resolution(self@.hash_refs, scope_prefix(session_id@), target@, entry_outcome(r)),
    {
        let prefix = cat(session_id, ":");
        resolve_in(&self.hash_refs, prefix.as_str(), target)
    }

    /// Keeps a reported file under its session and label.
    fn store_hash_ref(&mut self, session_id: &str, update: FileRefUpdate) -> (r: Result<
        FileRefEntry,
        String,
    >)
        ensures
            r matches Ok(entry) && entry@ == kept_entry(update@),
            final(self)@ == (MemoryHostView {
                hash_refs: old(self)@.hash_refs.insert(
                    ref_name(session_id@, kept_label(kept_entry(update@))),
                    kept_entry(update@),
                ),
                ..old(self)@
            }),
    {
        let ghost before = self@;
        let (label, entry) = keep_entry(update);
        let name = cat3(session_id, ":", label.as_str());
        self.hash_refs.insert(name.as_str(), entry.copy());
        assert(self@.hash_refs =~= before.hash_refs.insert(name@, entry@));
        Ok(entry)
    }

    /// Gives the kept file of the session with the key another hash.
    fn retouch_hash_ref(&mut self, session_id: &str, file_key_ref: &str, hash_code: &str) -> (r:
        Result<Option<FileRefEntry>, String>)
        ensures
            r matches Ok(entry) && is_retouch(
                old(self)@.hash_refs,
                final(self)@.hash_refs,
                scope_prefix(session_id@),
                file_key_ref@,
                hash_code@,
                opt_entry_view(entry),
            ),
            final(self)@ == (MemoryHostView { hash_refs: final(self)@.hash_refs, ..old(self)@ }),
    {
        let prefix = cat(session_id, ":");
        Ok(retouch_in(&mut self.hash_refs, prefix.as_str(), file_key_ref, hash_code))
    }
}

/// The label of a file that was kept resolves to that file, where no other kept file of
/// the session has the same file name and small hash, and the file name has no white space
/// around it.
pub proof fn law_kept_file_resolves(
    refs: Map<Seq<char>, FileRefEntryView>,
    session_id: Seq<char>,
    update: FileRefUpdateView,
    outcome: Result<FileRefEntryView, Seq<char>>,
)
    requires
        ({
            let entry = kept_entry(update);
            let b = basename_of(entry.file_path);
            let own = ref_name(session_id, kept_label(entry));
            &&& b.len() > 0
            &&& trimmed(b) == b
            &&& forall|other: Seq<char>|
                refs.dom().contains(other) && has_prefix(other, scope_prefix(session_id)) && other
                    != own ==> basename_of((#[trigger] refs[other]).file_path) != b
                    || small_hash_of(refs[other].file_key_ref, refs[other].hash_code)
                    != small_hash_of(entry.file_key_ref, entry.hash_code)
            &&& is_resolution(
                refs.insert(own, entry),
                scope_prefix(session_id),
                kept_label(entry),
                outcome,
            )
        }),
    ensures
        outcome == Ok::<FileRefEntryView, Seq<char>>(kept_entry(update)),
{
    let entry = kept_entry(update);
    let b = basename_of(entry.file_path);
    let small = small_hash_of(entry.file_key_ref, entry.hash_code);
    let label = kept_label(entry);
    law_small_hash_is_four_digits(entry.file_key_ref, entry.hash_code);
    law_label_reads_back(b, small);
    let own = ref_name(session_id, label);
    let prefix = scope_prefix(session_id);
    assert(own.subrange(0, prefix.len() as int) =~= prefix);
    let after = refs.insert(own, entry);
    let t = target_of(label)->0;
    assert(resolves_to(after, prefix, t, own));
    assert forall|name: Seq<char>| #[trigger] resolves_to(after, prefix, t, name) implies name
        == own by {
        if name != own {
            assert(refs.dom().contains(name));
            assert(after[name] == refs[name]);
        }
    }
}

// ---------------------------------------------------------------------------
// Tasks
// ---------------------------------------------------------------------------

pub open spec fn or_local(executor: Option<Seq<char>>) -> Seq<char> {
    match executor {
        Some(e) => e,
        None => "local"@,
    }
}

pub open spec fn or_nothing(s: Option<Seq<char>>) -> Seq<char> {
    match s {
        Some(s) => s,
        None => Seq::empty(),
    }
}

/// What is kept of a task with a session.
pub open spec fn session_snapshot(
    session_id: Seq<char>,
    input: ExbashSyncInputView,
) -> ExbashTaskSnapshotView {
    ExbashTaskSnapshotView {
        async_id: or_nothing(input.async_id),
        executor: or_local(input.executor),
        session_id: Some(session_id),
        workdir: None,
        state: input.state,
        pid: input.pid,
        exit_code: input.exit_code,
        started_at: input.started_at,
        ended_at: input.ended_at,
        command: input.command,
        description: input.description,
        total_output: input.total_output,
    }
}

/// What is kept of a task with a workspace.
pub open spec fn workdir_snapshot(
    session_id: Seq<char>,
    workdir: Seq<char>,
    input: ExbashSyncInputView,
) -> ExbashTaskSnapshotView {
    ExbashTaskSnapshotView {
        session_id: match input.session_id {
            Some(s) => Some(s),
            None => Some(session_id),
        },
        workdir: Some(workdir),
        ..session_snapshot(session_id, input)
    }
}

/// The names under a prefix, counted.
pub open spec fn count_under(names: Seq<Seq<char>>, prefix: Seq<char>) -> nat
    decreases names.len(),
{
    if names.len() == 0 {
        0
    } else {
        count_under(names.drop_last(), prefix) + if has_prefix(names.last(), prefix) {
            1nat
        } else {
            0nat
        }
    }
}

/// The number of tasks that are kept for a session or a workspace.
pub open spec fn task_count(
    tasks: Map<Seq<char>, ExbashTaskSnapshotView>,
    scope: Seq<char>,
) -> nat {
    count_under(sorted_names(tasks.dom()), scope_prefix(scope))
}

/// A further task is taken: there is no limit, the task is kept already, or the limit is
/// not reached.
pub open spec fn takes_task(
    tasks: Map<Seq<char>, ExbashTaskSnapshotView>,
    limit: Option<usize>,
    scope: Seq<char>,
    async_id: Option<Seq<char>>,
    name: Seq<char>,
) -> bool {
    match limit {
        None => true,
        Some(n) => (async_id matches Some(id) && id.len() > 0 && tasks.dom().contains(name))
            || task_count(tasks, scope) < n,
    }
}

fn count_tasks(tasks: &TextMap<ExbashTaskSnapshot>, prefix: &str) -> (r: usize)
    ensures
        r == count_under(sorted_names(tasks@.dom()), prefix@),
{
    let n: usize = tasks.len();
    let ghost names = tasks.names();
    let mut count: usize = 0;
    let mut i: usize = 0;
    assert(names.take(0) =~= Seq::empty());
    while i < n
        invariant
            n == tasks.names().len(),
            names == tasks.names(),
            i <= n,
            count <= i,
            count == count_under(names.take(i as int), prefix@),
        decreases n - i,
    {
        assert(names.take(i + 1).drop_last() =~= names.take(i as int));
        if starts_with(tasks.key_at(i), prefix) {
            count = count + 1;
        }
        i = i + 1;
    }
    assert(names.take(i as int) =~= names);
    count
}

fn check_tasks(
    tasks: &TextMap<ExbashTaskSnapshot>,
    limit: Option<usize>,
    scope: &str,
    async_id: &Option<String>,
    name: &str,
) -> (r: Result<(), String>)
    ensures
        match r {
            Ok(_) => takes_task(task_views(tasks@), limit, scope@, opt_text(*async_id), name@),
            Err(m) => !takes_task(task_views(tasks@), limit, scope@, opt_text(*async_id), name@)
                && m@ == EXBASH_TASK_STACK_FULL_MESSAGE@,
        },
{
    assert(task_views(tasks@).dom() =~= tasks@.dom());
    let limit: usize = match limit {
        Some(n) => n,
        None => {
            return Ok(());
        },
    };
    match async_id {
        Some(id) => if id.as_str().unicode_len() > 0 && tasks.contains_key(name) {
            return Ok(());
        },
        None => {},
    }
    let prefix = cat(scope, ":");
    if count_tasks(tasks, prefix.as_str()) >= limit {
        Err(EXBASH_TASK_STACK_FULL_MESSAGE.to_owned())
    } else {
        Ok(())
    }
}

/// A task that a list shows: under the prefix and, where an executor is named, of that
/// executor.
pub open spec fn is_listed(
    name: Seq<char>,
    task: ExbashTaskSnapshotView,
    prefix: Seq<char>,
    executor: Option<Seq<char>>,
) -> bool {
    has_prefix(name, prefix) && (executor is None || executor == Some(task.executor))
}

pub open spec fn listed_under(
    tasks: Map<Seq<char>, ExbashTaskSnapshotView>,
    names: Seq<Seq<char>>,
    prefix: Seq<char>,
    executor: Option<Seq<char>>,
) -> Seq<ExbashTaskSnapshotView>
    decreases names.len(),
{
    if names.len() == 0 {
        Seq::empty()
    } else {
        let head = listed_under(tasks, names.drop_last(), prefix, executor);
        if is_listed(names.last(), tasks[names.last()], prefix, executor) {
            head.push(tasks[names.last()])
        } else {
            head
        }
    }
}

pub open spec fn start_order() -> spec_fn(ExbashTaskSnapshotView, ExbashTaskSnapshotView) -> bool {
    |a: ExbashTaskSnapshotView, b: ExbashTaskSnapshotView| started(a) > started(b)
}

/// The tasks of a session or a workspace by their start, those of one start by name.
pub open spec fn listed_tasks(
    tasks: Map<Seq<char>, ExbashTaskSnapshotView>,
    scope: Seq<char>,
    executor: Option<Seq<char>>,
) -> Seq<ExbashTaskSnapshotView> {
    in_order(
        listed_under(tasks, sorted_names(tasks.dom()), scope_prefix(scope), executor),
        start_order(),
    )
}

fn start_of(task: &ExbashTaskSnapshot) -> (r: i64)
    ensures
        r == started(task@),
{
    match task.started_at {
        Some(t) => t,
        None => 0,
    }
}

fn list_tasks(tasks: &TextMap<ExbashTaskSnapshot>, scope: &str, executor: Option<&str>) -> (r: Vec<
    ExbashTaskSnapshot,
>)
    ensures
        snapshot_views(r@) == listed_tasks(task_views(tasks@), scope@, opt_str(executor)),
{
    let prefix = cat(scope, ":");
    let n: usize = tasks.len();
    let ghost names = tasks.names();
    let ghost m = task_views(tasks@);
    assert(m.dom() =~= tasks@.dom());
    let mut sorted: Vec<ExbashTaskSnapshot> = Vec::new();
    let mut i: usize = 0;
    assert(names.take(0) =~= Seq::empty());
    assert(snapshot_views(sorted@) =~= Seq::empty());
    while i < n
        invariant
            n == tasks.names().len(),
            names == tasks.names(),
            m == task_views(tasks@),
            i <= n,
            snapshot_views(sorted@) == in_order(
                listed_under(m, names.take(i as int), prefix@, opt_str(executor)),
                start_order(),
            ),
        decreases n - i,
    {
        let ghost chosen = listed_under(m, names.take(i as int), prefix@, opt_str(executor));
        assert(names.take(i + 1).drop_last() =~= names.take(i as int));
        let task = tasks.value_at(i);
        assert(m[names[i as int]] == task@);
        let fits = match executor {
            Some(e) => same(task.executor.as_str(), e),
            None => true,
        };
        if starts_with(tasks.key_at(i), prefix.as_str()) && fits {
            let task = task.copy();
            let ghost before = snapshot_views(sorted@);
            let mut k: usize = sorted.len();
            while k > 0 && start_of(&sorted[k - 1]) > start_of(&task)
                invariant
                    k <= sorted@.len(),
                    before == snapshot_views(sorted@),
                    forall|j: int|
                        k <= j < before.len() ==> start_order()(#[trigger] before[j], task@),
                decreases k,
            {
                assert(before[k - 1] == sorted@[k - 1]@);
                k = k - 1;
            }
            proof {
                assert(k > 0 ==> before[k - 1] == sorted@[k - 1]@);
                lemma_put_at(before, task@, start_order(), k as int);
                assert(chosen.push(task@).drop_last() =~= chosen);
            }
            sorted.insert(k, task);
            assert(snapshot_views(sorted@) =~= before.insert(k as int, task@));
        }
        i = i + 1;
    }
    assert(names.take(i as int) =~= names);
    sorted
}

pub open spec fn kept_task(tasks: Map<Seq<char>, ExbashTaskSnapshotView>, name: Seq<char>) -> Option<
    ExbashTaskSnapshotView,
> {
    if tasks.dom().contains(name) {
        Some(tasks[name])
    } else {
        None
    }
}

fn find_task(tasks: &TextMap<ExbashTaskSnapshot>, name: &str) -> (r: Option<ExbashTaskSnapshot>)
    ensures
        crate::calls::opt_snapshot(r) == kept_task(task_views(tasks@), name@),
{
    match tasks.get(name) {
        Some(t) => Some(t.copy()),
        None => None,
    }
}

impl ExbashSessionStore for MemorySessionHost {
    type Error = String;

    fn check_session_exbash_create(&self, session_id: &str, input: &ExbashSyncInput) -> (r: Result<
        (),
        String,
    >)
        ensures
            ({
                let taken = takes_task(
                    self@.session_tasks,
                    self@.limit,
                    session_id@,
                    input@.async_id,
                    session_task_name(
                        session_id@,
                        or_nothing(input@.async_id),
                        or_local(input@.executor),
                    ),
                );
                match r {
                    Ok(_) => taken,
                    Err(m) => !taken && m@ == EXBASH_TASK_STACK_FULL_MESSAGE@,
                }
            }),
    {
        let executor = match &input.executor {
            Some(e) => e.as_str(),
            None => "local",
        };
        let name = match &input.async_id {
            Some(id) => cat5(session_id, ":", id.as_str(), ":", executor),
            None => {
                let empty = String::new();
                assert(empty@ =~= Seq::empty());
                cat5(session_id, ":", empty.as_str(), ":", executor)
            },
        };
        check_tasks(
            &self.session_tasks,
            self.exbash_task_limit,
            session_id,
            &input.async_id,
            name.as_str(),
        )
    }

    fn session_exbash_snapshot(&self, session_id: &str, async_id: &str, executor: &str) -> (r: Result<
        Option<ExbashTaskSnapshot>,
        String,
    >)
        ensures
            r matches Ok(s) && crate::calls::opt_snapshot(s) == kept_task(
                self@.session_tasks,
                session_task_name(session_id@, async_id@, executor@),
            ),
    {
        let name = cat5(session_id, ":", async_id, ":", executor);
        Ok(find_task(&self.session_tasks, name.as_str()))
    }

    fn upsert_session_exbash(&mut self, session_id: &str, input: ExbashSyncInput) -> (r: Result<
        ExbashTaskSnapshot,
        String,
    >)
        ensures
            r matches Ok(s) && s@ == session_snapshot(session_id@, input@),
            final(self)@ == (MemoryHostView {
                session_tasks: old(self)@.session_tasks.insert(
                    session_task_name(
                        session_id@,
                        or_nothing(input@.async_id),
                        or_local(input@.executor),
                    ),
                    session_snapshot(session_id@, input@),
                ),
                ..old(self)@
            }),
    {
        let ghost before = self@;
        let async_id = match input.async_id {
            Some(id) => id,
            None => String::new(),
        };
        let executor = match input.executor {
            Some(e) => e,
            None => "local".to_owned(),
        };
        let name = cat5(session_id, ":", async_id.as_str(), ":", executor.as_str());
        assert(async_id@ =~= or_nothing(input@.async_id));
        let snapshot = ExbashTaskSnapshot {
            async_id,
            executor,
            session_id: Some(session_id.to_owned()),
            workdir: None,
            state: input.state,
            pid: input.pid,
            exit_code: input.exit_code,
            started_at: input.started_at,
            ended_at: input.ended_at,
            command: input.command,
            description: input.description,
            total_output: input.total_output,
        };
        self.session_tasks.insert(name.as_str(), snapshot.copy());
        assert(self@.session_tasks =~= before.session_tasks.insert(name@, snapshot@));
        Ok(snapshot)
    }

    fn list_session_exbash(&self, session_id: &str, executor: Option<&str>) -> (r: Result<
        Vec<ExbashTaskSnapshot>,
        String,
    >)
        ensures
            r matches Ok(tasks) && snapshot_views(tasks@) == listed_tasks(
                self@.session_tasks,
                session_id@,
                opt_str(executor),
            ),
    {
        Ok(list_tasks(&self.session_tasks, session_id, executor))
    }

    fn remove_session_exbash(&mut self, session_id: &str, async_id: &str, executor: &str) -> (r:
        Result<bool, String>)
        ensures
            r matches Ok(gone) && gone == old(self)@.session_tasks.dom().contains(
                session_task_name(session_id@, async_id@, executor@),
            ),
            final(self)@ == (MemoryHostView {
                session_tasks: old(self)@.session_tasks.remove(
                    session_task_name(session_id@, async_id@, executor@),
                ),
                ..old(self)@
            }),
    {
        let ghost before = self@;
        let name = cat5(session_id, ":", async_id, ":", executor);
        let gone = self.session_tasks.remove(name.as_str()).is_some();
        assert(self@.session_tasks =~= before.session_tasks.remove(name@));
        Ok(gone)
    }
}

impl ExbashWorkdirStore for MemorySessionHost {
    type Error = String;

    fn check_workdir_exbash_create(
        &self,
        _session_id: &str,
        workdir: &str,
        input: &ExbashSyncInput,
    ) -> (r: Result<(), String>)
        ensures
            ({
                let taken = takes_task(
                    self@.workdir_tasks,
                    self@.limit,
                    workdir@,
                    input@.async_id,
                    workdir_task_name(
                        workdir@,
                        or_local(input@.executor),
                        or_nothing(input@.async_id),
                    ),
                );
                match r {
                    Ok(_) => taken,
                    Err(m) => !taken && m@ == EXBASH_TASK_STACK_FULL_MESSAGE@,
                }
            }),
    {
        let executor = match &input.executor {
            Some(e) => e.as_str(),
            None => "local",
        };
        let name = match &input.async_id {
            Some(id) => cat5(workdir, ":", executor, ":", id.as_str()),
            None => {
                let empty = String::new();
                assert(empty@ =~= Seq::empty());
                cat5(workdir, ":", executor, ":", empty.as_str())
            },
        };
        check_tasks(
            &self.workdir_tasks,
            self.exbash_task_limit,
            workdir,
            &input.async_id,
            name.as_str(),
        )
    }

    fn workdir_exbash_snapshot(
        &self,
        _session_id: &str,
        workdir: &str,
        async_id: &str,
        executor: &str,
    ) -> (r: Result<Option<ExbashTaskSnapshot>, String>)
        ensures
            r matches Ok(s) && crate::calls::opt_snapshot(s) == kept_task(
                self@.workdir_tasks,
                workdir_task_name(workdir@, executor@, async_id@),
            ),
    {
        let name = cat5(workdir, ":", executor, ":", async_id);
        Ok(find_task(&self.workdir_tasks, name.as_str()))
    }

    fn upsert_workdir_exbash(
        &mut self,
        session_id: &str,
        workdir: &str,
        input: ExbashSyncInput,
    ) -> (r: Result<ExbashTaskSnapshot, String>)
        ensures
            r matches Ok(s) && s@ == workdir_snapshot(session_id@, workdir@, input@),
            final(self)@ == (MemoryHostView {
                workdir_tasks: old(self)@.workdir_tasks.insert(
                    workdir_task_name(
                        workdir@,
                        or_local(input@.executor),
                        or_nothing(input@.async_id),
                    ),
                    workdir_snapshot(session_id@, workdir@, input@),
                ),
                ..old(self)@
            }),
    {
        let ghost before = self@;
        let async_id = match input.async_id {
            Some(id) => id,
            None => String::new(),
        };
        let executor = match input.executor {
            Some(e) => e,
            None => "local".to_owned(),
        };
        let session = match input.session_id {
            Some(s) => s,
            None => session_id.to_owned(),
        };
        let name = cat5(workdir, ":", executor.as_str(), ":", async_id.as_str());
        assert(async_id@ =~= or_nothing(input@.async_id));
        let snapshot = ExbashTaskSnapshot {
            async_id,
            executor,
            session_id: Some(session),
            workdir: Some(workdir.to_owned()),
            state: input.state,
            pid: input.pid,
            exit_code: input.exit_code,
            started_at: input.started_at,
            ended_at: input.ended_at,
            command: input.command,
            description: input.description,
            total_output: input.total_output,
        };
        self.workdir_tasks.insert(name.as_str(), snapshot.copy());
        assert(self@.workdir_tasks =~= before.workdir_tasks.insert(name@, snapshot@));
        Ok(snapshot)
    }

    fn list_workdir_exbash(&self, _session_id: &str, workdir: &str, executor: Option<&str>) -> (r:
        Result<Vec<ExbashTaskSnapshot>, String>)
        ensures
            r matches Ok(tasks) && snapshot_views(tasks@) == listed_tasks(
                self@.workdir_tasks,
                workdir@,
                opt_str(executor),
            ),
    {
        Ok(list_tasks(&self.workdir_tasks, workdir, executor))
    }

    fn remove_workdir_exbash(
        &mut self,
        _session_id: &str,
        workdir: &str,
        async_id: &str,
        executor: &str,
    ) -> (r: Result<bool, String>)
        ensures
            r matches Ok(gone) && gone == old(self)@.workdir_tasks.dom().contains(
                workdir_task_name(workdir@, executor@, async_id@),
            ),
            final(self)@ == (MemoryHostView {
                workdir_tasks: old(self)@.workdir_tasks.remove(
                    workdir_task_name(workdir@, executor@, async_id@),
                ),
                ..old(self)@
            }),
    {
        let ghost before = self@;
        let name = cat5(workdir, ":", executor, ":", async_id);
        let gone = self.workdir_tasks.remove(name.as_str()).is_some();
        assert(self@.workdir_tasks =~= before.workdir_tasks.remove(name@));
        Ok(gone)
    }
}

// ---------------------------------------------------------------------------
// Executors
// ---------------------------------------------------------------------------

impl RemoteExecutorConfigStore for MemorySessionHost {
    type Error = String;

    fn read_remote_executor_config(&self, workdir: &str) -> (r: Result<
        RemoteExecutorConfigSnapshot,
        String,
    >)
        ensures
            r matches Ok(s) && s.workdir@ == workdir@ && s.config@ == (
            if self@.configs.dom().contains(workdir@) {
                self@.configs[workdir@]
            } else {
                JsonView::Obj(Map::empty())
            }),
    {
        let config = match self.configs.get(workdir) {
            Some(c) => c.clone(),
            None => Json::Object(JsonObject::new()),
        };
        Ok(RemoteExecutorConfigSnapshot { workdir: workdir.to_owned(), config })
    }

    fn update_remote_executor_config(&mut self, workdir: &str, patch: Json) -> (r: Result<
        RemoteExecutorConfigSnapshot,
        String,
    >)
        ensures
            r matches Ok(s) && s.workdir@ == workdir@ && s.config@ == patch@,
            final(self)@ == (MemoryHostView {
                configs: old(self)@.configs.insert(workdir@, patch@),
                ..old(self)@
            }),
    {
        let ghost before = self@;
        let config = patch.clone();
        self.configs.insert(workdir, patch);
        assert(self@.configs =~= before.configs.insert(workdir@, config@));
        Ok(RemoteExecutorConfigSnapshot { workdir: workdir.to_owned(), config })
    }
}

/// A task that was kept is found again, and only its own name is touched; a task that was
/// removed is not found.
pub proof fn law_tasks_read_back(
    tasks: Map<Seq<char>, ExbashTaskSnapshotView>,
    session_id: Seq<char>,
    input: ExbashSyncInputView,
    other: Seq<char>,
)
    ensures
        ({
            let s = session_snapshot(session_id, input);
            let name = session_task_name(session_id, s.async_id, s.executor);
            let after = tasks.insert(
                session_task_name(
                    session_id,
                    or_nothing(input.async_id),
                    or_local(input.executor),
                ),
                s,
            );
            &&& kept_task(after, name) == Some(s)
            &&& other != name ==> kept_task(after, other) == kept_task(tasks, other)
            &&& kept_task(after.remove(name), name) is None
        }),
{
}

} // verus!
