//! The data that the host keeps for a session.

use vstd::prelude::*;

use crate::json::opt_int;
use crate::json::Json;
use crate::json::JsonObject;
use crate::json::JsonView;
use crate::text::opt_text;

verus! {

pub fn copy_opt(s: &Option<String>) -> (r: Option<String>)
    ensures
        r == *s,
{
    match s {
        Some(s) => Some(s.clone()),
        None => None,
    }
}

/// What is kept of a shell task.
#[derive(Debug, Clone, PartialEq, Eq)]
pub struct ExbashTaskSnapshot {
    pub async_id: String,
    pub executor: String,
    pub session_id: Option<String>,
    pub workdir: Option<String>,
    pub state: Option<String>,
    pub pid: Option<i64>,
    pub exit_code: Option<i32>,
    pub started_at: Option<i64>,
    pub ended_at: Option<i64>,
    pub command: Option<String>,
    pub description: Option<String>,
    pub total_output: Option<i64>,
}

#[verifier::ext_equal]
pub ghost struct ExbashTaskSnapshotView {
    pub async_id: Seq<char>,
    pub executor: Seq<char>,
    pub session_id: Option<Seq<char>>,
    pub workdir: Option<Seq<char>>,
    pub state: Option<Seq<char>>,
    pub pid: Option<i64>,
    pub exit_code: Option<i32>,
    pub started_at: Option<i64>,
    pub ended_at: Option<i64>,
    pub command: Option<Seq<char>>,
    pub description: Option<Seq<char>>,
    pub total_output: Option<i64>,
}

impl ExbashTaskSnapshot {
    pub open spec fn view(&self) -> ExbashTaskSnapshotView {
        ExbashTaskSnapshotView {
            async_id: self.async_id@,
            executor: self.executor@,
            session_id: opt_text(self.session_id),
            workdir: opt_text(self.workdir),
            state: opt_text(self.state),
            pid: self.pid,
            exit_code: self.exit_code,
            started_at: self.started_at,
            ended_at: self.ended_at,
            command: opt_text(self.command),
            description: opt_text(self.description),
            total_output: self.total_output,
        }
    }

    pub fn copy(&self) -> (r: Self)
        ensures
            r@ == self@,
            r == *self,
    {
        ExbashTaskSnapshot {
            async_id: self.async_id.clone(),
            executor: self.executor.clone(),
            session_id: copy_opt(&self.session_id),
            workdir: copy_opt(&self.workdir),
            state: copy_opt(&self.state),
            pid: self.pid,
            exit_code: self.exit_code,
            started_at: self.started_at,
            ended_at: self.ended_at,
            command: copy_opt(&self.command),
            description: copy_opt(&self.description),
            total_output: self.total_output,
        }
    }
}

/// What a file reference stands for.
#[derive(Debug, Clone, PartialEq, Eq)]
pub struct FileRefEntry {
    pub executor: String,
    pub file_path: String,
    pub hash_code: String,
    pub file_key_ref: String,
}

#[verifier::ext_equal]
pub ghost struct FileRefEntryView {
    pub executor: Seq<char>,
    pub file_path: Seq<char>,
    pub hash_code: Seq<char>,
    pub file_key_ref: Seq<char>,
}

impl FileRefEntry {
    pub open spec fn view(&self) -> FileRefEntryView {
        FileRefEntryView {
            executor: self.executor@,
            file_path: self.file_path@,
            hash_code: self.hash_code@,
            file_key_ref: self.file_key_ref@,
        }
    }

    pub fn copy(&self) -> (r: Self)
        ensures
            r@ == self@,
            r == *self,
    {
        FileRefEntry {
            executor: self.executor.clone(),
            file_path: self.file_path.clone(),
            hash_code: self.hash_code.clone(),
            file_key_ref: self.file_key_ref.clone(),
        }
    }
}

/// A file as an executor names it.
#[derive(Debug, Clone, PartialEq, Eq)]
pub struct FileStamp {
    pub file_key: String,
    pub canonical_path: String,
    pub kind: String,
    pub size: Option<u64>,
    pub mtime_ms: Option<i64>,
}

#[verifier::ext_equal]
pub ghost struct FileStampView {
    pub file_key: Seq<char>,
    pub canonical_path: Seq<char>,
    pub kind: Seq<char>,
    pub size: Option<u64>,
    pub mtime_ms: Option<i64>,
}

impl FileStamp {
    pub open spec fn view(&self) -> FileStampView {
        FileStampView {
            file_key: self.file_key@,
            canonical_path: self.canonical_path@,
            kind: self.kind@,
            size: self.size,
            mtime_ms: self.mtime_ms,
        }
    }

    pub fn copy(&self) -> (r: Self)
        ensures
            r@ == self@,
            r == *self,
    {
        FileStamp {
            file_key: self.file_key.clone(),
            canonical_path: self.canonical_path.clone(),
            kind: self.kind.clone(),
            size: self.size,
            mtime_ms: self.mtime_ms,
        }
    }
}

/// A file and the hash of its content, as an executor reports them.
#[derive(Debug, Clone, PartialEq, Eq)]
pub struct FileRefUpdate {
    pub executor: String,
    pub file: FileStamp,
    pub hash_code: String,
}

#[verifier::ext_equal]
pub ghost struct FileRefUpdateView {
    pub executor: Seq<char>,
    pub file: FileStampView,
    pub hash_code: Seq<char>,
}

impl FileRefUpdate {
    pub open spec fn view(&self) -> FileRefUpdateView {
        FileRefUpdateView {
            executor: self.executor@,
            file: self.file@,
            hash_code: self.hash_code@,
        }
    }
}

/// What a tool of an executor returns.
#[derive(Debug, Clone, PartialEq, Eq)]
pub struct RecToolResult {
    pub metadata: Json,
    pub output: Json,
}

/// The settings that a workspace keeps of its executors.
#[derive(Debug, Clone, PartialEq, Eq)]
pub struct RemoteExecutorConfigSnapshot {
    pub workdir: String,
    pub config: Json,
}

// ---------------------------------------------------------------------------
// Tasks as JSON
// ---------------------------------------------------------------------------

pub open spec fn snapshot_views(s: Seq<ExbashTaskSnapshot>) -> Seq<ExbashTaskSnapshotView> {
    s.map_values(|t: ExbashTaskSnapshot| t.view())
}

/// `m` with the member `key` where there is a value for it.
pub open spec fn put_opt(
    m: Map<Seq<char>, JsonView>,
    key: Seq<char>,
    value: Option<JsonView>,
) -> Map<Seq<char>, JsonView> {
    match value {
        Some(v) => m.insert(key, v),
        None => m,
    }
}

pub open spec fn text_json(s: Option<Seq<char>>) -> Option<JsonView> {
    match s {
        Some(s) => Some(JsonView::Str(s)),
        None => None,
    }
}

pub open spec fn long_json(n: Option<i64>) -> Option<JsonView> {
    match n {
        Some(n) => Some(JsonView::Int(n as int)),
        None => None,
    }
}

pub open spec fn word_json(n: Option<i32>) -> Option<JsonView> {
    match n {
        Some(n) => Some(JsonView::Int(n as int)),
        None => None,
    }
}

/// A task as a JSON object with exactly the members that are known.
pub open spec fn snapshot_json(t: ExbashTaskSnapshotView) -> JsonView {
    let m = map!["asyncId"@ => JsonView::Str(t.async_id), "executor"@ => JsonView::Str(t.executor)];
    let m = put_opt(m, "sessionId"@, text_json(t.session_id));
    let m = put_opt(m, "workdir"@, text_json(t.workdir));
    let m = put_opt(m, "state"@, text_json(t.state));
    let m = put_opt(m, "pid"@, long_json(t.pid));
    let m = put_opt(m, "exitCode"@, word_json(t.exit_code));
    let m = put_opt(m, "startedAt"@, long_json(t.started_at));
    let m = put_opt(m, "endedAt"@, long_json(t.ended_at));
    let m = put_opt(m, "command"@, text_json(t.command));
    let m = put_opt(m, "description"@, text_json(t.description));
    let m = put_opt(m, "totalOutput"@, long_json(t.total_output));
    JsonView::Obj(m)
}

fn put_text(object: &mut JsonObject, key: &str, value: &Option<String>)
    ensures
        final(object)@ == put_opt(old(object)@, key@, text_json(opt_text(*value))),
{
    match value {
        Some(s) => object.insert(key, Json::Str(s.clone())),
        None => {},
    }
}

fn put_long(object: &mut JsonObject, key: &str, value: Option<i64>)
    ensures
        final(object)@ == put_opt(old(object)@, key@, long_json(value)),
{
    match value {
        Some(n) => object.insert(key, Json::Int(n as i128)),
        None => {},
    }
}

impl ExbashTaskSnapshot {
    pub fn to_json(&self) -> (r: Json)
        ensures
            r@ == snapshot_json(self@),
    {
        let mut object = JsonObject::new();
        object.insert("asyncId", Json::Str(self.async_id.clone()));
        object.insert("executor", Json::Str(self.executor.clone()));
        put_text(&mut object, "sessionId", &self.session_id);
        put_text(&mut object, "workdir", &self.workdir);
        put_text(&mut object, "state", &self.state);
        put_long(&mut object, "pid", self.pid);
        match self.exit_code {
            Some(n) => object.insert("exitCode", Json::Int(n as i128)),
            None => {},
        }
        put_long(&mut object, "startedAt", self.started_at);
        put_long(&mut object, "endedAt", self.ended_at);
        put_text(&mut object, "command", &self.command);
        put_text(&mut object, "description", &self.description);
        put_long(&mut object, "totalOutput", self.total_output);
        Json::Object(object)
    }
}

/// The list of tasks as a JSON array.
pub open spec fn snapshots_json(s: Seq<ExbashTaskSnapshotView>) -> JsonView {
    JsonView::Arr(s.map_values(|t: ExbashTaskSnapshotView| snapshot_json(t)))
}

pub fn snapshots_to_json(tasks: &Vec<ExbashTaskSnapshot>) -> (r: Json)
    ensures
        r@ == snapshots_json(snapshot_views(tasks@)),
{
    let mut values: Vec<Json> = Vec::new();
    let mut i: usize = 0;
    while i < tasks.len()
        invariant
            i <= tasks@.len(),
            values@.len() == i,
            forall|j: int|
                0 <= j < i ==> (#[trigger] values@[j]).view() == snapshot_json(tasks@[j]@),
        decreases tasks.len() - i,
    {
        values.push(tasks[i].to_json());
        i = i + 1;
    }
    let r = Json::array(values);
    assert(r@->Arr_0 =~= snapshot_views(tasks@).map_values(
        |t: ExbashTaskSnapshotView| snapshot_json(t),
    ));
    r
}

// ---------------------------------------------------------------------------
// Reading members
// ---------------------------------------------------------------------------

/// An optional member: left out or null is no value, `None` is a member of another kind.
pub open spec fn optional_text(v: Option<JsonView>) -> Option<Option<Seq<char>>> {
    match v {
        None => Some(None),
        Some(JsonView::Null) => Some(None),
        Some(JsonView::Str(s)) => Some(Some(s)),
        _ => None,
    }
}

pub open spec fn optional_int(v: Option<JsonView>, low: int, high: int) -> Option<Option<int>> {
    match v {
        None => Some(None),
        Some(JsonView::Null) => Some(None),
        Some(JsonView::Int(n)) => if low <= n <= high {
            Some(Some(n))
        } else {
            None
        },
        _ => None,
    }
}

pub fn read_optional_text(v: Option<&Json>) -> (r: Option<Option<String>>)
    ensures
        (match r {
            Some(s) => Some(opt_text(s)),
            None => None,
        }) == optional_text(crate::json::opt_ref_view(v)),
{
    match v {
        None => Some(None),
        Some(Json::Null) => Some(None),
        Some(Json::Str(s)) => Some(Some(s.clone())),
        _ => None,
    }
}

pub fn read_optional_int(v: Option<&Json>, low: i128, high: i128) -> (r: Option<Option<i128>>)
    ensures
        (match r {
            Some(n) => Some(opt_int(n, |n: i128| n as int)),
            None => None,
        }) == optional_int(crate::json::opt_ref_view(v), low as int, high as int),
        r matches Some(Some(n)) ==> low <= n <= high,
{
    match v {
        None => Some(None),
        Some(Json::Null) => Some(None),
        Some(Json::Int(n)) => if low <= *n && *n <= high {
            Some(Some(*n))
        } else {
            None
        },
        _ => None,
    }
}

pub open spec fn i64_of(n: Option<int>) -> Option<i64> {
    match n {
        Some(n) => Some(n as i64),
        None => None,
    }
}

pub open spec fn i32_of(n: Option<int>) -> Option<i32> {
    match n {
        Some(n) => Some(n as i32),
        None => None,
    }
}

pub open spec fn u64_of(n: Option<int>) -> Option<u64> {
    match n {
        Some(n) => Some(n as u64),
        None => None,
    }
}

/// The task that a JSON object describes: `asyncId` and `executor` are required. Members are
/// known by their names, so an array describes no task.
pub open spec fn snapshot_of(v: JsonView) -> Option<ExbashTaskSnapshotView> {
    let async_id = v.text_field("asyncId"@);
    let executor = v.text_field("executor"@);
    let session_id = optional_text(v.field("sessionId"@));
    let workdir = optional_text(v.field("workdir"@));
    let state = optional_text(v.field("state"@));
    let pid = optional_int(v.field("pid"@), i64::MIN as int, i64::MAX as int);
    let exit_code = optional_int(v.field("exitCode"@), i32::MIN as int, i32::MAX as int);
    let started_at = optional_int(v.field("startedAt"@), i64::MIN as int, i64::MAX as int);
    let ended_at = optional_int(v.field("endedAt"@), i64::MIN as int, i64::MAX as int);
    let command = optional_text(v.field("command"@));
    let description = optional_text(v.field("description"@));
    let total_output = optional_int(v.field("totalOutput"@), i64::MIN as int, i64::MAX as int);
    if async_id is Some && executor is Some && session_id is Some && workdir is Some
        && state is Some && pid is Some && exit_code is Some && started_at is Some
        && ended_at is Some && command is Some && description is Some && total_output is Some {
        Some(ExbashTaskSnapshotView {
            async_id: async_id->0,
            executor: executor->0,
            session_id: session_id->0,
            workdir: workdir->0,
            state: state->0,
            pid: i64_of(pid->0),
            exit_code: i32_of(exit_code->0),
            started_at: i64_of(started_at->0),
            ended_at: i64_of(ended_at->0),
            command: command->0,
            description: description->0,
            total_output: i64_of(total_output->0),
        })
    } else {
        None
    }
}

impl ExbashTaskSnapshot {
    pub fn from_json(v: &Json) -> (r: Option<Self>)
        ensures
            (match r {
                Some(t) => Some(t@),
                None => None,
            }) == snapshot_of(v@),
    {
        let async_id = match v.text_of("asyncId") {
            Some(s) => s.to_owned(),
            None => {
                return None;
            },
        };
        let executor = match v.text_of("executor") {
            Some(s) => s.to_owned(),
            None => {
                return None;
            },
        };
        let session_id = match read_optional_text(v.get("sessionId")) {
            Some(s) => s,
            None => {
                return None;
            },
        };
        let workdir = match read_optional_text(v.get("workdir")) {
            Some(s) => s,
            None => {
                return None;
            },
        };
        let state = match read_optional_text(v.get("state")) {
            Some(s) => s,
            None => {
                return None;
            },
        };
        let pid: Option<i64> = match read_optional_int(
            v.get("pid"),
            i64::MIN as i128,
            i64::MAX as i128,
        ) {
            Some(Some(n)) => Some(n as i64),
            Some(None) => None,
            None => {
                return None;
            },
        };
        let exit_code: Option<i32> = match read_optional_int(
            v.get("exitCode"),
            i32::MIN as i128,
            i32::MAX as i128,
        ) {
            Some(Some(n)) => Some(n as i32),
            Some(None) => None,
            None => {
                return None;
            },
        };
        let started_at: Option<i64> = match read_optional_int(
            v.get("startedAt"),
            i64::MIN as i128,
            i64::MAX as i128,
        ) {
            Some(Some(n)) => Some(n as i64),
            Some(None) => None,
            None => {
                return None;
            },
        };
        let ended_at: Option<i64> = match read_optional_int(
            v.get("endedAt"),
            i64::MIN as i128,
            i64::MAX as i128,
        ) {
            Some(Some(n)) => Some(n as i64),
            Some(None) => None,
            None => {
                return None;
            },
        };
        let command = match read_optional_text(v.get("command")) {
            Some(s) => s,
            None => {
                return None;
            },
        };
        let description = match read_optional_text(v.get("description")) {
            Some(s) => s,
            None => {
                return None;
            },
        };
        let total_output: Option<i64> = match read_optional_int(
            v.get("totalOutput"),
            i64::MIN as i128,
            i64::MAX as i128,
        ) {
            Some(Some(n)) => Some(n as i64),
            Some(None) => None,
            None => {
                return None;
            },
        };
        Some(ExbashTaskSnapshot {
            async_id,
            executor,
            session_id,
            workdir,
            state,
            pid,
            exit_code,
            started_at,
            ended_at,
            command,
            description,
            total_output,
        })
    }
}

/// A task that is written as JSON reads back as it was.
pub proof fn law_task_reads_back(t: ExbashTaskSnapshotView)
    ensures
        snapshot_of(snapshot_json(t)) == Some(t),
{
    reveal_strlit("asyncId");
    reveal_strlit("executor");
    reveal_strlit("sessionId");
    reveal_strlit("workdir");
    reveal_strlit("state");
    reveal_strlit("pid");
    reveal_strlit("exitCode");
    reveal_strlit("startedAt");
    reveal_strlit("endedAt");
    reveal_strlit("command");
    reveal_strlit("description");
    reveal_strlit("totalOutput");
    assert("asyncId"@.len() == 7 && "workdir"@.len() == 7 && "endedAt"@.len() == 7
        && "command"@.len() == 7);
    assert("executor"@.len() == 8 && "exitCode"@.len() == 8);
    assert("sessionId"@.len() == 9 && "startedAt"@.len() == 9);
    assert("description"@.len() == 11 && "totalOutput"@.len() == 11);
    assert("state"@.len() == 5 && "pid"@.len() == 3);
    assert("asyncId"@[0] == 'a' && "workdir"@[0] == 'w' && "endedAt"@[0] == 'e' && "command"@[0]
        == 'c');
    assert("executor"@[2] == 'e' && "exitCode"@[2] == 'i');
    assert("sessionId"@[1] == 'e' && "startedAt"@[1] == 't');
    assert("description"@[0] == 'd' && "totalOutput"@[0] == 't');
    assert(snapshot_of(snapshot_json(t))->0 =~= t);
}

/// The file that a JSON object describes. Members are known by their names, so an array
/// describes no file.
pub open spec fn stamp_of(v: JsonView) -> Option<FileStampView> {
    let file_key = v.text_field("fileKey"@);
    let canonical_path = v.text_field("canonicalPath"@);
    let kind = v.text_field("kind"@);
    let size = optional_int(v.field("size"@), u64::MIN as int, u64::MAX as int);
    let mtime_ms = optional_int(v.field("mtimeMs"@), i64::MIN as int, i64::MAX as int);
    if file_key is Some && canonical_path is Some && kind is Some && size is Some
        && mtime_ms is Some {
        Some(FileStampView {
            file_key: file_key->0,
            canonical_path: canonical_path->0,
            kind: kind->0,
            size: u64_of(size->0),
            mtime_ms: i64_of(mtime_ms->0),
        })
    } else {
        None
    }
}

impl FileStamp {
    pub fn from_json(v: &Json) -> (r: Option<Self>)
        ensures
            (match r {
                Some(t) => Some(t@),
                None => None,
            }) == stamp_of(v@),
    {
        let file_key = match v.text_of("fileKey") {
            Some(s) => s.to_owned(),
            None => {
                return None;
            },
        };
        let canonical_path = match v.text_of("canonicalPath") {
            Some(s) => s.to_owned(),
            None => {
                return None;
            },
        };
        let kind = match v.text_of("kind") {
            Some(s) => s.to_owned(),
            None => {
                return None;
            },
        };
        let size: Option<u64> = match read_optional_int(
            v.get("size"),
            u64::MIN as i128,
            u64::MAX as i128,
        ) {
            Some(Some(n)) => Some(n as u64),
            Some(None) => None,
            None => {
                return None;
            },
        };
        let mtime_ms: Option<i64> = match read_optional_int(
            v.get("mtimeMs"),
            i64::MIN as i128,
            i64::MAX as i128,
        ) {
            Some(Some(n)) => Some(n as i64),
            Some(None) => None,
            None => {
                return None;
            },
        };
        Some(FileStamp {
            file_key,
            canonical_path,
            kind,
            size,
            mtime_ms,
        })
    }
}

impl RecToolResult {
    /// The result that a JSON object describes; what it leaves out is null. Members are known
    /// by their names, so an array describes no result.
    pub fn from_json(v: &Json) -> (r: Option<Self>)
        ensures
            r is Some <==> v@ is Obj,
            r matches Some(t) ==> t.metadata@ == v@.field("metadata"@).unwrap_or(JsonView::Null),
            r matches Some(t) ==> t.output@ == v@.field("output"@).unwrap_or(JsonView::Null),
    {
        match v {
            Json::Object(o) => {
                let metadata = match o.get("metadata") {
                    Some(m) => m.clone(),
                    None => Json::Null,
                };
                let output = match o.get("output") {
                    Some(m) => m.clone(),
                    None => Json::Null,
                };
                Some(RecToolResult { metadata, output })
            },
            _ => None,
        }
    }
}

} // verus!
