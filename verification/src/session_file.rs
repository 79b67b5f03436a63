//! What a session keeps in a file of its own.

use vstd::prelude::*;

use crate::calls::opt_snapshot;
use crate::host::ExbashSyncInput;
use crate::host::ExbashSyncInputView;
use crate::json::Json;
use crate::json::JsonObject;
use crate::json::JsonView;
use crate::kept_refs::entry_outcome;
use crate::kept_refs::entry_views;
use crate::kept_refs::is_resolution;
use crate::kept_refs::is_retouch;
use crate::kept_refs::keep_entry;
use crate::kept_refs::kept_entry;
use crate::kept_refs::kept_label;
use crate::kept_refs::opt_entry_view;
use crate::kept_refs::resolve_in;
use crate::kept_refs::retouch_in;
use crate::memory_host::kept_task;
use crate::memory_host::or_local;
use crate::memory_host::or_nothing;
use crate::memory_host::session_snapshot;
use crate::memory_host::task_views;
use crate::store::TextMap;
use crate::text::cat3;
use crate::text::cat5;
use crate::types::ExbashTaskSnapshot;
use crate::types::ExbashTaskSnapshotView;
use crate::types::FileRefEntry;
use crate::types::FileRefEntryView;
use crate::types::FileRefUpdate;
use crate::types::RemoteExecutorConfigSnapshot;

verus! {

/// File references by label, tasks of the session and of its workspaces, and the executors
/// of its workspaces.
#[derive(Debug)]
pub struct JsonSessionFile {
    pub hash_refs: TextMap<FileRefEntry>,
    pub session_tasks: TextMap<ExbashTaskSnapshot>,
    pub workdir_tasks: TextMap<ExbashTaskSnapshot>,
    pub configs: TextMap<Json>,
}

#[verifier::ext_equal]
pub ghost struct JsonSessionFileView {
    pub hash_refs: Map<Seq<char>, FileRefEntryView>,
    pub session_tasks: Map<Seq<char>, ExbashTaskSnapshotView>,
    pub workdir_tasks: Map<Seq<char>, ExbashTaskSnapshotView>,
    pub configs: Map<Seq<char>, JsonView>,
}

pub open spec fn config_views(m: Map<Seq<char>, Json>) -> Map<Seq<char>, JsonView> {
    m.map_values(|v: Json| v.view())
}

pub open spec fn file_task_name(async_id: Seq<char>, executor: Seq<char>) -> Seq<char> {
    async_id + ":"@ + executor
}

pub open spec fn file_workdir_task_name(
    workdir: Seq<char>,
    async_id: Seq<char>,
    executor: Seq<char>,
) -> Seq<char> {
    workdir + ":"@ + async_id + ":"@ + executor
}

/// What is kept of a task of a workspace.
pub open spec fn file_workdir_snapshot(
    workdir: Seq<char>,
    input: ExbashSyncInputView,
) -> ExbashTaskSnapshotView {
    ExbashTaskSnapshotView {
        session_id: input.session_id,
        workdir: Some(workdir),
        ..session_snapshot(workdir, input)
    }
}

impl JsonSessionFile {
    pub open spec fn view(&self) -> JsonSessionFileView {
        JsonSessionFileView {
            hash_refs: entry_views(self.hash_refs@),
            session_tasks: task_views(self.session_tasks@),
            workdir_tasks: task_views(self.workdir_tasks@),
            configs: config_views(self.configs@),
        }
    }

    pub fn new() -> (r: Self)
        ensures
            r@ == (JsonSessionFileView {
                hash_refs: Map::empty(),
                session_tasks: Map::empty(),
                workdir_tasks: Map::empty(),
                configs: Map::empty(),
            }),
    {
        let r = JsonSessionFile {
            hash_refs: TextMap::new(),
            session_tasks: TextMap::new(),
            workdir_tasks: TextMap::new(),
            configs: TextMap::new(),
        };
        assert(r@.hash_refs =~= Map::empty());
        assert(r@.session_tasks =~= Map::empty());
        assert(r@.workdir_tasks =~= Map::empty());
        assert(r@.configs =~= Map::empty());
        r
    }

    pub fn resolve_hash_ref(&self, target: &str) -> (r: Result<FileRefEntry, String>)
        ensures
            is_resolution(self@.hash_refs, ""@, target@, entry_outcome(r)),
    {
        resolve_in(&self.hash_refs, "", target)
    }

    pub fn store_hash_ref(&mut self, update: FileRefUpdate) -> (r: FileRefEntry)
        ensures
            r@ == kept_entry(update@),
            final(self)@ == (JsonSessionFileView {
                hash_refs: old(self)@.hash_refs.insert(
                    kept_label(kept_entry(update@)),
                    kept_entry(update@),
                ),
                ..old(self)@
            }),
    {
        let ghost before = self@;
        let (label, entry) = keep_entry(update);
        self.hash_refs.insert(label.as_str(), entry.copy());
        assert(self@.hash_refs =~= before.hash_refs.insert(label@, entry@));
        entry
    }

    pub fn retouch_hash_ref(&mut self, file_key_ref: &str, hash_code: &str) -> (r: Option<
        FileRefEntry,
    >)
        ensures
            is_retouch(
                old(self)@.hash_refs,
                final(self)@.hash_refs,
                ""@,
                file_key_ref@,
                hash_code@,
                opt_entry_view(r),
            ),
            final(self)@ == (JsonSessionFileView {
                hash_refs: final(self)@.hash_refs,
                ..old(self)@
            }),
    {
        retouch_in(&mut self.hash_refs, "", file_key_ref, hash_code)
    }

    pub fn session_exbash_snapshot(&self, async_id: &str, executor: &str) -> (r: Option<
        ExbashTaskSnapshot,
    >)
        ensures
            opt_snapshot(r) == kept_task(
                self@.session_tasks,
                file_task_name(async_id@, executor@),
            ),
    {
        let name = cat3(async_id, ":", executor);
        match self.session_tasks.get(name.as_str()) {
            Some(t) => Some(t.copy()),
            None => None,
        }
    }

    pub fn upsert_session_exbash(&mut self, session_id: &str, input: ExbashSyncInput) -> (r:
        ExbashTaskSnapshot)
        ensures
            r@ == session_snapshot(session_id@, input@),
            final(self)@ == (JsonSessionFileView {
                session_tasks: old(self)@.session_tasks.insert(
                    file_task_name(or_nothing(input@.async_id), or_local(input@.executor)),
                    session_snapshot(session_id@, input@),
                ),
                ..old(self)@
            }),
    {
        let ghost before = self@;
        let async_id = match input.async_id {
            Some(id) => id,
            None => String::new(),
        };
        let executor = match input.executor {
            Some(e) => e,
            None => "local".to_owned(),
        };
        assert(async_id@ =~= or_nothing(input@.async_id));
        let name = cat3(async_id.as_str(), ":", executor.as_str());
        let snapshot = ExbashTaskSnapshot {
            async_id,
            executor,
            session_id: Some(session_id.to_owned()),
            workdir: None,
            state: input.state,
            pid: input.pid,
            exit_code: input.exit_code,
            started_at: input.started_at,
            ended_at: input.ended_at,
            command: input.command,
            description: input.description,
            total_output: input.total_output,
        };
        self.session_tasks.insert(name.as_str(), snapshot.copy());
        assert(self@.session_tasks =~= before.session_tasks.insert(name@, snapshot@));
        snapshot
    }

    pub fn remove_session_exbash(&mut self, async_id: &str, executor: &str) -> (r: bool)
        ensures
            r == old(self)@.session_tasks.dom().contains(file_task_name(async_id@, executor@)),
            final(self)@ == (JsonSessionFileView {
                session_tasks: old(self)@.session_tasks.remove(
                    file_task_name(async_id@, executor@),
                ),
                ..old(self)@
            }),
    {
        let ghost before = self@;
        let name = cat3(async_id, ":", executor);
        let gone = self.session_tasks.remove(name.as_str()).is_some();
        assert(self@.session_tasks =~= before.session_tasks.remove(name@));
        gone
    }

    pub fn workdir_exbash_snapshot(&self, workdir: &str, async_id: &str, executor: &str) -> (r:
        Option<ExbashTaskSnapshot>)
        ensures
            opt_snapshot(r) == kept_task(
                self@.workdir_tasks,
                file_workdir_task_name(workdir@, async_id@, executor@),
            ),
    {
        let name = cat5(workdir, ":", async_id, ":", executor);
        match self.workdir_tasks.get(name.as_str()) {
            Some(t) => Some(t.copy()),
            None => None,
        }
    }

    pub fn upsert_workdir_exbash(&mut self, workdir: &str, input: ExbashSyncInput) -> (r:
        ExbashTaskSnapshot)
        ensures
            r@ == file_workdir_snapshot(workdir@, input@),
            final(self)@ == (JsonSessionFileView {
                workdir_tasks: old(self)@.workdir_tasks.insert(
                    file_workdir_task_name(
                        workdir@,
                        or_nothing(input@.async_id),
                        or_local(input@.executor),
                    ),
                    file_workdir_snapshot(workdir@, input@),
                ),
                ..old(self)@
            }),
    {
        let ghost before = self@;
        let async_id = match input.async_id {
            Some(id) => id,
            None => String::new(),
        };
        let executor = match input.executor {
            Some(e) => e,
            None => "local".to_owned(),
        };
        assert(async_id@ =~= or_nothing(input@.async_id));
        let name = cat5(workdir, ":", async_id.as_str(), ":", executor.as_str());
        let snapshot = ExbashTaskSnapshot {
            async_id,
            executor,
            session_id: input.session_id,
            workdir: Some(workdir.to_owned()),
            state: input.state,
            pid: input.pid,
            exit_code: input.exit_code,
            started_at: input.started_at,
            ended_at: input.ended_at,
            command: input.command,
            description: input.description,
            total_output: input.total_output,
        };
        self.workdir_tasks.insert(name.as_str(), snapshot.copy());
        assert(self@.workdir_tasks =~= before.workdir_tasks.insert(name@, snapshot@));
        snapshot
    }

    pub fn remove_workdir_exbash(&mut self, workdir: &str, async_id: &str, executor: &str) -> (r:
        bool)
        ensures
            r == old(self)@.workdir_tasks.dom().contains(
                file_workdir_task_name(workdir@, async_id@, executor@),
            ),
            final(self)@ == (JsonSessionFileView {
                workdir_tasks: old(self)@.workdir_tasks.remove(
                    file_workdir_task_name(workdir@, async_id@, executor@),
                ),
                ..old(self)@
            }),
    {
        let ghost before = self@;
        let name = cat5(workdir, ":", async_id, ":", executor);
        let gone = self.workdir_tasks.remove(name.as_str()).is_some();
        assert(self@.workdir_tasks =~= before.workdir_tasks.remove(name@));
        gone
    }

    pub fn read_remote_executor_config(&self, workdir: &str) -> (r: RemoteExecutorConfigSnapshot)
        ensures
            r.workdir@ == workdir@,
            r.config@ == (if self@.configs.dom().contains(workdir@) {
                self@.configs[workdir@]
            } else {
                JsonView::Obj(Map::empty())
            }),
    {
        let config = match self.configs.get(workdir) {
            Some(c) => c.clone(),
            None => Json::Object(JsonObject::new()),
        };
        RemoteExecutorConfigSnapshot { workdir: workdir.to_owned(), config }
    }

    pub fn update_remote_executor_config(&mut self, workdir: &str, patch: Json) -> (r:
        RemoteExecutorConfigSnapshot)
        ensures
            r.workdir@ == workdir@,
            r.config@ == patch@,
            final(self)@ == (JsonSessionFileView {
                configs: old(self)@.configs.insert(workdir@, patch@),
                ..old(self)@
            }),
    {
        let ghost before = self@;
        let config = patch.clone();
        self.configs.insert(workdir, patch);
        assert(self@.configs =~= before.configs.insert(workdir@, config@));
        RemoteExecutorConfigSnapshot { workdir: workdir.to_owned(), config }
    }
}

} // verus!
