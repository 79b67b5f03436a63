//! What a host provides: the store behind the sessions.

use vstd::prelude::*;

use crate::json::Json;
use crate::text::opt_text;
use crate::types::copy_opt;
use crate::types::ExbashTaskSnapshot;
use crate::types::FileRefEntry;
use crate::types::FileRefUpdate;
use crate::types::RemoteExecutorConfigSnapshot;

verus! {

/// The message of a host that takes no further task.
pub const EXBASH_TASK_STACK_FULL_MESSAGE: &'static str = "exbash task stack is full";

/// What a host is told of a shell task.
#[derive(Debug, Clone, PartialEq, Eq)]
pub struct ExbashSyncInput {
    pub async_id: Option<String>,
    pub session_id: Option<String>,
    pub workdir: Option<String>,
    pub executor: Option<String>,
    pub state: Option<String>,
    pub pid: Option<i64>,
    pub exit_code: Option<i32>,
    pub started_at: Option<i64>,
    pub ended_at: Option<i64>,
    pub command: Option<String>,
    pub description: Option<String>,
    pub total_output: Option<i64>,
}

#[verifier::ext_equal]
pub ghost struct ExbashSyncInputView {
    pub async_id: Option<Seq<char>>,
    pub session_id: Option<Seq<char>>,
    pub workdir: Option<Seq<char>>,
    pub executor: Option<Seq<char>>,
    pub state: Option<Seq<char>>,
    pub pid: Option<i64>,
    pub exit_code: Option<i32>,
    pub started_at: Option<i64>,
    pub ended_at: Option<i64>,
    pub command: Option<Seq<char>>,
    pub description: Option<Seq<char>>,
    pub total_output: Option<i64>,
}

impl ExbashSyncInput {
    pub open spec fn view(&self) -> ExbashSyncInputView {
        ExbashSyncInputView {
            async_id: opt_text(self.async_id),
            session_id: opt_text(self.session_id),
            workdir: opt_text(self.workdir),
            executor: opt_text(self.executor),
            state: opt_text(self.state),
            pid: self.pid,
            exit_code: self.exit_code,
            started_at: self.started_at,
            ended_at: self.ended_at,
            command: opt_text(self.command),
            description: opt_text(self.description),
            total_output: self.total_output,
        }
    }

    pub fn copy(&self) -> (r: Self)
        ensures
            r@ == self@,
            r == *self,
    {
        ExbashSyncInput {
            async_id: copy_opt(&self.async_id),
            session_id: copy_opt(&self.session_id),
            workdir: copy_opt(&self.workdir),
            executor: copy_opt(&self.executor),
            state: copy_opt(&self.state),
            pid: self.pid,
            exit_code: self.exit_code,
            started_at: self.started_at,
            ended_at: self.ended_at,
            command: copy_opt(&self.command),
            description: copy_opt(&self.description),
            total_output: self.total_output,
        }
    }
}

impl Default for ExbashSyncInput {
    fn default() -> (r: Self)
        ensures
            r@ == no_input(),
    {
        ExbashSyncInput {
            async_id: None,
            session_id: None,
            workdir: None,
            executor: None,
            state: None,
            pid: None,
            exit_code: None,
            started_at: None,
            ended_at: None,
            command: None,
            description: None,
            total_output: None,
        }
    }
}

/// An input that tells nothing.
pub open spec fn no_input() -> ExbashSyncInputView {
    ExbashSyncInputView {
        async_id: None,
        session_id: None,
        workdir: None,
        executor: None,
        state: None,
        pid: None,
        exit_code: None,
        started_at: None,
        ended_at: None,
        command: None,
        description: None,
        total_output: None,
    }
}

/// The workspace of a session.
pub trait SessionWorkdirProvider: Send + Sync {
    type Error: Send + Sync + 'static;

    fn session_workdir(&self, session_id: &str) -> Result<String, Self::Error>;
}

/// The file references of a session.
pub trait HashRefSessionStore: Send + Sync {
    type Error: Send + Sync + 'static;

    fn is_hash_ref(&self, target: &str) -> bool;

    fn resolve_hash_ref(&self, session_id: &str, target: &str) -> Result<
        FileRefEntry,
        Self::Error,
    >;

    fn store_hash_ref(&mut self, session_id: &str, update: FileRefUpdate) -> Result<
        FileRefEntry,
        Self::Error,
    >;

    fn retouch_hash_ref(&mut self, session_id: &str, file_key_ref: &str, hash_code: &str) -> Result<
        Option<FileRefEntry>,
        Self::Error,
    >;
}

/// The shell tasks of a session.
pub trait ExbashSessionStore: Send + Sync {
    type Error: Send + Sync + 'static;

    /// Whether a further task is taken; a host without a limit takes any.
    fn check_session_exbash_create(&self, _session_id: &str, _input: &ExbashSyncInput) -> Result<
        (),
        Self::Error,
    > {
        Ok(())
    }

    fn session_exbash_snapshot(&self, session_id: &str, async_id: &str, executor: &str) -> Result<
        Option<ExbashTaskSnapshot>,
        Self::Error,
    >;

    fn upsert_session_exbash(&mut self, session_id: &str, input: ExbashSyncInput) -> Result<
        ExbashTaskSnapshot,
        Self::Error,
    >;

    fn list_session_exbash(&self, _session_id: &str, _executor: Option<&str>) -> Result<
        Vec<ExbashTaskSnapshot>,
        Self::Error,
    > {
        Ok(Vec::new())
    }

    fn remove_session_exbash(&mut self, session_id: &str, async_id: &str, executor: &str) -> Result<
        bool,
        Self::Error,
    >;
}

/// The shell tasks of a workspace.
pub trait ExbashWorkdirStore: Send + Sync {
    type Error: Send + Sync + 'static;

    /// Whether a further task is taken; a host without a limit takes any.
    fn check_workdir_exbash_create(
        &self,
        _session_id: &str,
        _workdir: &str,
        _input: &ExbashSyncInput,
    ) -> Result<(), Self::Error> {
        Ok(())
    }

    fn workdir_exbash_snapshot(
        &self,
        session_id: &str,
        workdir: &str,
        async_id: &str,
        executor: &str,
    ) -> Result<Option<ExbashTaskSnapshot>, Self::Error>;

    fn upsert_workdir_exbash(
        &mut self,
        session_id: &str,
        workdir: &str,
        input: ExbashSyncInput,
    ) -> Result<ExbashTaskSnapshot, Self::Error>;

    fn list_workdir_exbash(
        &self,
        _session_id: &str,
        _workdir: &str,
        _executor: Option<&str>,
    ) -> Result<Vec<ExbashTaskSnapshot>, Self::Error> {
        Ok(Vec::new())
    }

    fn remove_workdir_exbash(
        &mut self,
        session_id: &str,
        workdir: &str,
        async_id: &str,
        executor: &str,
    ) -> Result<bool, Self::Error>;
}

/// The executors of a workspace.
pub trait RemoteExecutorConfigStore: Send + Sync {
    type Error: Send + Sync + 'static;

    fn read_remote_executor_config(&self, workdir: &str) -> Result<
        RemoteExecutorConfigSnapshot,
        Self::Error,
    >;

    fn update_remote_executor_config(&mut self, workdir: &str, patch: Json) -> Result<
        RemoteExecutorConfigSnapshot,
        Self::Error,
    >;
}

/// Everything that a session keeps.
pub trait SessionHost:
    SessionWorkdirProvider
    + HashRefSessionStore
    + ExbashSessionStore
    + ExbashWorkdirStore
    + RemoteExecutorConfigStore
    + Send
    + Sync
{

}

impl<T> SessionHost for T where
    T: SessionWorkdirProvider
        + HashRefSessionStore
        + ExbashSessionStore
        + ExbashWorkdirStore
        + RemoteExecutorConfigStore
        + Send
        + Sync
{

}

/// An optional way for a host to read and write files itself.
pub trait HostIo: Send + Sync {
    type Error: Send + Sync + 'static;

    fn read_bytes(&self, path: &str) -> Result<Vec<u8>, Self::Error>;

    fn write_bytes(&self, path: &str, bytes: &[u8]) -> Result<(), Self::Error>;
}

} // verus!
