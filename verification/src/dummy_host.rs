//! A host that keeps nothing.

use vstd::prelude::*;

use crate::host::ExbashSessionStore;
use crate::host::ExbashSyncInput;
use crate::host::ExbashWorkdirStore;
use crate::host::HashRefSessionStore;
use crate::host::RemoteExecutorConfigStore;
use crate::host::SessionWorkdirProvider;
use crate::json::Json;
use crate::json::JsonObject;
use crate::json::JsonView;
use crate::memory_host::session_snapshot;
use crate::memory_host::workdir_snapshot;
use crate::refs::parse_hash_ref;
use crate::refs::target_of;
use crate::types::ExbashTaskSnapshot;
use crate::types::FileRefEntry;
use crate::types::FileRefUpdate;
use crate::types::RemoteExecutorConfigSnapshot;

verus! {

/// A host for calls that need none: it has no workspace, so that no tool can be called.
#[derive(Debug, Clone, Copy)]
pub struct DummySessionHost;

impl SessionWorkdirProvider for DummySessionHost {
    type Error = String;

    fn session_workdir(&self, _session_id: &str) -> (r: Result<String, String>)
        ensures
            r matches Ok(w) && w@ == ""@,
    {
        Ok("".to_owned())
    }
}

impl HashRefSessionStore for DummySessionHost {
    type Error = String;

    fn is_hash_ref(&self, target: &str) -> (r: bool)
        ensures
            r == (target_of(target@) is Some),
    {
        parse_hash_ref(target).is_some()
    }

    fn resolve_hash_ref(&self, _session_id: &str, _target: &str) -> (r: Result<FileRefEntry, String>)
        ensures
            r matches Err(e) && e@ == "hashRef host is not configured"@,
    {
        Err("hashRef host is not configured".to_owned())
    }

    fn store_hash_ref(&mut self, _session_id: &str, _update: FileRefUpdate) -> (r: Result<
        FileRefEntry,
        String,
    >)
        ensures
            r matches Err(e) && e@ == "hashRef host is not configured"@,
    {
        Err("hashRef host is not configured".to_owned())
    }

    fn retouch_hash_ref(&mut self, _session_id: &str, _file_key_ref: &str, _hash_code: &str) -> (r:
        Result<Option<FileRefEntry>, String>)
        ensures
            r matches Err(e) && e@ == "hashRef host is not configured"@,
    {
        Err("hashRef host is not configured".to_owned())
    }
}

impl ExbashSessionStore for DummySessionHost {
    type Error = String;

    fn session_exbash_snapshot(&self, _session_id: &str, _async_id: &str, _executor: &str) -> (r:
        Result<Option<ExbashTaskSnapshot>, String>)
        ensures
            r matches Ok(s) && s is None,
    {
        Ok(None)
    }

    fn upsert_session_exbash(&mut self, session_id: &str, input: ExbashSyncInput) -> (r: Result<
        ExbashTaskSnapshot,
        String,
    >)
        ensures
            r matches Ok(s) && s@ == session_snapshot(session_id@, input@),
    {
        let async_id = match input.async_id {
            Some(id) => id,
            None => String::new(),
        };
        let executor = match input.executor {
            Some(e) => e,
            None => "local".to_owned(),
        };
        assert(async_id@ =~= session_snapshot(session_id@, input@).async_id);
        Ok(
            ExbashTaskSnapshot {
                async_id,
                executor,
                session_id: Some(session_id.to_owned()),
                workdir: None,
                state: input.state,
                pid: input.pid,
                exit_code: input.exit_code,
                started_at: input.started_at,
                ended_at: input.ended_at,
                command: input.command,
                description: input.description,
                total_output: input.total_output,
            },
        )
    }

    fn remove_session_exbash(&mut self, _session_id: &str, _async_id: &str, _executor: &str) -> (r:
        Result<bool, String>)
        ensures
            r matches Ok(gone) && !gone,
    {
        Ok(false)
    }
}

impl ExbashWorkdirStore for DummySessionHost {
    type Error = String;

    fn workdir_exbash_snapshot(
        &self,
        _session_id: &str,
        _workdir: &str,
        _async_id: &str,
        _executor: &str,
    ) -> (r: Result<Option<ExbashTaskSnapshot>, String>)
        ensures
            r matches Ok(s) && s is None,
    {
        Ok(None)
    }

    fn upsert_workdir_exbash(
        &mut self,
        session_id: &str,
        workdir: &str,
        input: ExbashSyncInput,
    ) -> (r: Result<ExbashTaskSnapshot, String>)
        ensures
            r matches Ok(s) && s@ == workdir_snapshot(session_id@, workdir@, input@),
    {
        let async_id = match input.async_id {
            Some(id) => id,
            None => String::new(),
        };
        let executor = match input.executor {
            Some(e) => e,
            None => "local".to_owned(),
        };
        let session = match input.session_id {
            Some(s) => s,
            None => session_id.to_owned(),
        };
        assert(async_id@ =~= workdir_snapshot(session_id@, workdir@, input@).async_id);
        Ok(
            ExbashTaskSnapshot {
                async_id,
                executor,
                session_id: Some(session),
                workdir: Some(workdir.to_owned()),
                state: input.state,
                pid: input.pid,
                exit_code: input.exit_code,
                started_at: input.started_at,
                ended_at: input.ended_at,
                command: input.command,
                description: input.description,
                total_output: input.total_output,
            },
        )
    }

    fn remove_workdir_exbash(
        &mut self,
        _session_id: &str,
        _workdir: &str,
        _async_id: &str,
        _executor: &str,
    ) -> (r: Result<bool, String>)
        ensures
            r matches Ok(gone) && !gone,
    {
        Ok(false)
    }
}

impl RemoteExecutorConfigStore for DummySessionHost {
    type Error = String;

    fn read_remote_executor_config(&self, workdir: &str) -> (r: Result<
        RemoteExecutorConfigSnapshot,
        String,
    >)
        ensures
            r matches Ok(s) && s.workdir@ == workdir@ && s.config@ == JsonView::Obj(Map::empty()),
    {
        Ok(
            RemoteExecutorConfigSnapshot {
                workdir: workdir.to_owned(),
                config: Json::Object(JsonObject::new()),
            },
        )
    }

    fn update_remote_executor_config(&mut self, workdir: &str, patch: Json) -> (r: Result<
        RemoteExecutorConfigSnapshot,
        String,
    >)
        ensures
            r matches Ok(s) && s.workdir@ == workdir@ && s.config@ == patch@,
    {
        Ok(RemoteExecutorConfigSnapshot { workdir: workdir.to_owned(), config: patch })
    }
}

} // verus!
