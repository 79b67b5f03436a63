//! What a tool call asks of its surroundings, and the call of a tool on an executor.

use vstd::prelude::*;

use crate::args::executor_params;
use crate::args::extract_executor;
use crate::args::routed_executor;
use crate::args::CallScope;
use crate::args::CallScopeView;
use crate::host::ExbashSyncInput;
use crate::host::ExbashSyncInputView;
use crate::json::opt_view;
use crate::json::Json;
use crate::json::JsonObject;
use crate::json::JsonView;
use crate::jsonrpc::failure;
use crate::jsonrpc::outcome_view;
use crate::jsonrpc::JsonRpcError;
use crate::jsonrpc::JsonRpcErrorView;
use crate::mcp::McpCallResult;
use crate::mcp::McpCallResultView;
use crate::mcp::EXECUTOR_SESSION_PARAM;
use crate::text::cat;
use crate::text::opt_text;
use crate::text::same;
use crate::types::snapshot_views;
use crate::types::ExbashTaskSnapshot;
use crate::types::ExbashTaskSnapshotView;
use crate::types::FileRefEntry;
use crate::types::FileRefEntryView;
use crate::types::FileRefUpdate;
use crate::types::FileRefUpdateView;
use crate::workspace::config_of;
use crate::workspace::find_executor;
use crate::workspace::found;
use crate::workspace::workspace_executor_config_from_value;
use crate::workspace::WorkspaceExecutorInfo;
use crate::workspace::WorkspaceExecutorInfoView;

verus! {

/// What the host or an executor is asked to do next.
#[derive(Debug)]
pub enum Action {
    /// The workspace of the session.
    SessionWorkdir { session_id: String },
    /// Whether the text is a file reference.
    IsHashRef { target: String },
    /// The file that a reference stands for.
    ResolveHashRef { session_id: String, target: String },
    /// Keep a file in a state.
    StoreHashRef { session_id: String, update: FileRefUpdate },
    /// The tasks of the session.
    ListSession { session_id: String, executor: Option<String> },
    /// The tasks of the workspace.
    ListWorkdir { session_id: String, workdir: String, executor: Option<String> },
    /// Whether the session takes a further task.
    CheckSession { session_id: String, input: ExbashSyncInput },
    /// Whether the workspace takes a further task.
    CheckWorkdir { session_id: String, workdir: String, input: ExbashSyncInput },
    /// What the session keeps of a task.
    SessionSnapshot { session_id: String, async_id: String, executor: String },
    /// What the workspace keeps of a task.
    WorkdirSnapshot { session_id: String, workdir: String, async_id: String, executor: String },
    /// Keep a task in the session.
    UpsertSession { session_id: String, input: ExbashSyncInput },
    /// Keep a task in the workspace.
    UpsertWorkdir { session_id: String, workdir: String, input: ExbashSyncInput },
    /// Forget a task of the session.
    RemoveSession { session_id: String, async_id: String, executor: String },
    /// Forget a task of the workspace.
    RemoveWorkdir { session_id: String, workdir: String, async_id: String, executor: String },
    /// Wait in the background for the end of a local task and record it.
    Watch { scope: CallScope, tracking_scope: String, async_id: String },
    /// The executors of the workspace.
    ReadConfig { workdir: String },
    /// Keep the executors of the workspace.
    WriteConfig { workdir: String, config: Json },
    /// Connect to an executor.
    Connect { executor: WorkspaceExecutorInfo },
    /// Have an executor run a tool.
    Execute {
        id: Json,
        method: String,
        executor: Option<String>,
        params: Json,
        directory: Option<String>,
    },
}

#[verifier::ext_equal]
pub ghost enum ActionView {
    SessionWorkdir { session_id: Seq<char> },
    IsHashRef { target: Seq<char> },
    ResolveHashRef { session_id: Seq<char>, target: Seq<char> },
    StoreHashRef { session_id: Seq<char>, update: FileRefUpdateView },
    ListSession { session_id: Seq<char>, executor: Option<Seq<char>> },
    ListWorkdir { session_id: Seq<char>, workdir: Seq<char>, executor: Option<Seq<char>> },
    CheckSession { session_id: Seq<char>, input: ExbashSyncInputView },
    CheckWorkdir { session_id: Seq<char>, workdir: Seq<char>, input: ExbashSyncInputView },
    SessionSnapshot { session_id: Seq<char>, async_id: Seq<char>, executor: Seq<char> },
    WorkdirSnapshot {
        session_id: Seq<char>,
        workdir: Seq<char>,
        async_id: Seq<char>,
        executor: Seq<char>,
    },
    UpsertSession { session_id: Seq<char>, input: ExbashSyncInputView },
    UpsertWorkdir { session_id: Seq<char>, workdir: Seq<char>, input: ExbashSyncInputView },
    RemoveSession { session_id: Seq<char>, async_id: Seq<char>, executor: Seq<char> },
    RemoveWorkdir {
        session_id: Seq<char>,
        workdir: Seq<char>,
        async_id: Seq<char>,
        executor: Seq<char>,
    },
    Watch { scope: CallScopeView, tracking_scope: Seq<char>, async_id: Seq<char> },
    ReadConfig { workdir: Seq<char> },
    WriteConfig { workdir: Seq<char>, config: JsonView },
    Connect { executor: WorkspaceExecutorInfoView },
    Execute {
        id: JsonView,
        method: Seq<char>,
        executor: Option<Seq<char>>,
        params: JsonView,
        directory: Option<Seq<char>>,
    },
}

impl Action {
    pub open spec fn view(&self) -> ActionView {
        match self {
            Action::SessionWorkdir { session_id } => ActionView::SessionWorkdir {
                session_id: session_id@,
            },
            Action::IsHashRef { target } => ActionView::IsHashRef {
                target: target@,
            },
            Action::ResolveHashRef { session_id, target } => ActionView::ResolveHashRef {
                session_id: session_id@,
                target: target@,
            },
            Action::StoreHashRef { session_id, update } => ActionView::StoreHashRef {
                session_id: session_id@,
                update: update@,
            },
            Action::ListSession { session_id, executor } => ActionView::ListSession {
                session_id: session_id@,
                executor: opt_text(*executor),
            },
            Action::ListWorkdir { session_id, workdir, executor } => ActionView::ListWorkdir {
                session_id: session_id@,
                workdir: workdir@,
                executor: opt_text(*executor),
            },
            Action::CheckSession { session_id, input } => ActionView::CheckSession {
                session_id: session_id@,
                input: input@,
            },
            Action::CheckWorkdir { session_id, workdir, input } => ActionView::CheckWorkdir {
                session_id: session_id@,
                workdir: workdir@,
                input: input@,
            },
            Action::SessionSnapshot { session_id, async_id, executor } => ActionView::SessionSnapshot {
                session_id: session_id@,
                async_id: async_id@,
                executor: executor@,
            },
            Action::WorkdirSnapshot { session_id, workdir, async_id, executor } => ActionView::WorkdirSnapshot {
                session_id: session_id@,
                workdir: workdir@,
                async_id: async_id@,
                executor: executor@,
            },
            Action::UpsertSession { session_id, input } => ActionView::UpsertSession {
                session_id: session_id@,
                input: input@,
            },
            Action::UpsertWorkdir { session_id, workdir, input } => ActionView::UpsertWorkdir {
                session_id: session_id@,
                workdir: workdir@,
                input: input@,
            },
            Action::RemoveSession { session_id, async_id, executor } => ActionView::RemoveSession {
                session_id: session_id@,
                async_id: async_id@,
                executor: executor@,
            },
            Action::RemoveWorkdir { session_id, workdir, async_id, executor } => ActionView::RemoveWorkdir {
                session_id: session_id@,
                workdir: workdir@,
                async_id: async_id@,
                executor: executor@,
            },
            Action::Watch { scope, tracking_scope, async_id } => ActionView::Watch {
                scope: scope@,
                tracking_scope: tracking_scope@,
                async_id: async_id@,
            },
            Action::ReadConfig { workdir } => ActionView::ReadConfig {
                workdir: workdir@,
            },
            Action::WriteConfig { workdir, config } => ActionView::WriteConfig {
                workdir: workdir@,
                config: config@,
            },
            Action::Connect { executor } => ActionView::Connect {
                executor: executor@,
            },
            Action::Execute { id, method, executor, params, directory } => ActionView::Execute {
                id: id@,
                method: method@,
                executor: opt_text(*executor),
                params: params@,
                directory: opt_text(*directory),
            },
        }
    }
}

/// The answer of an executor.
#[derive(Debug)]
pub struct ExecutorReply {
    pub ok: bool,
    pub error: Option<String>,
    pub result: Option<Json>,
}

#[verifier::ext_equal]
pub ghost struct ExecutorReplyView {
    pub ok: bool,
    pub error: Option<Seq<char>>,
    pub result: Option<JsonView>,
}

impl ExecutorReply {
    pub open spec fn view(&self) -> ExecutorReplyView {
        ExecutorReplyView {
            ok: self.ok,
            error: opt_text(self.error),
            result: opt_view(self.result),
        }
    }
}

/// What came of an action; an error is the message of the host.
#[derive(Debug)]
pub enum Event {
    Text(Result<String, String>),
    Flag(bool),
    Entry(Result<FileRefEntry, String>),
    Tasks(Result<Vec<ExbashTaskSnapshot>, String>),
    Done(Result<(), String>),
    Snapshot(Result<ExbashTaskSnapshot, String>),
    Lookup(Result<Option<ExbashTaskSnapshot>, String>),
    Removed(Result<bool, String>),
    Config(Result<Json, String>),
    Reply(ExecutorReply),
}

#[verifier::ext_equal]
pub ghost enum EventView {
    Text(Result<Seq<char>, Seq<char>>),
    Flag(bool),
    Entry(Result<FileRefEntryView, Seq<char>>),
    Tasks(Result<Seq<ExbashTaskSnapshotView>, Seq<char>>),
    Done(Result<(), Seq<char>>),
    Snapshot(Result<ExbashTaskSnapshotView, Seq<char>>),
    Lookup(Result<Option<ExbashTaskSnapshotView>, Seq<char>>),
    Removed(Result<bool, Seq<char>>),
    Config(Result<JsonView, Seq<char>>),
    Reply(ExecutorReplyView),
}

pub open spec fn opt_snapshot(s: Option<ExbashTaskSnapshot>) -> Option<ExbashTaskSnapshotView> {
    match s {
        Some(s) => Some(s@),
        None => None,
    }
}

impl Event {
    pub open spec fn view(&self) -> EventView {
        match self {
            Event::Text(Ok(v)) => EventView::Text(Ok(v@)),
            Event::Text(Err(e)) => EventView::Text(Err(e@)),
            Event::Flag(b) => EventView::Flag(*b),
            Event::Entry(Ok(v)) => EventView::Entry(Ok(v@)),
            Event::Entry(Err(e)) => EventView::Entry(Err(e@)),
            Event::Tasks(Ok(v)) => EventView::Tasks(Ok(snapshot_views(v@))),
            Event::Tasks(Err(e)) => EventView::Tasks(Err(e@)),
            Event::Done(Ok(_)) => EventView::Done(Ok(())),
            Event::Done(Err(e)) => EventView::Done(Err(e@)),
            Event::Snapshot(Ok(v)) => EventView::Snapshot(Ok(v@)),
            Event::Snapshot(Err(e)) => EventView::Snapshot(Err(e@)),
            Event::Lookup(Ok(v)) => EventView::Lookup(Ok(opt_snapshot(*v))),
            Event::Lookup(Err(e)) => EventView::Lookup(Err(e@)),
            Event::Removed(Ok(b)) => EventView::Removed(Ok(*b)),
            Event::Removed(Err(e)) => EventView::Removed(Err(e@)),
            Event::Config(Ok(v)) => EventView::Config(Ok(v@)),
            Event::Config(Err(e)) => EventView::Config(Err(e@)),
            Event::Reply(r) => EventView::Reply(r@),
        }
    }
}

/// A step of a call: an action, with the state in which its event is awaited, or the
/// end.
#[derive(Debug)]
pub enum Step<S, R> {
    Ask(S, Action),
    Done(R),
}

#[verifier::ext_equal]
pub ghost enum StepView<S, R> {
    Ask(S, ActionView),
    Done(R),
}

pub type Answer = Result<McpCallResult, JsonRpcError>;

pub type AnswerView = Result<McpCallResultView, JsonRpcErrorView>;

pub open spec fn answer_view(r: Answer) -> AnswerView {
    match r {
        Ok(v) => Ok(v@),
        Err(e) => Err(e@),
    }
}

/// The error for an event that does not belong to the action.
pub open spec fn unexpected() -> JsonRpcErrorView {
    failure("unexpected reply of the host"@)
}

pub fn unexpected_error() -> (r: JsonRpcError)
    ensures
        r@ == unexpected(),
{
    JsonRpcError::internal("unexpected reply of the host")
}

// ---------------------------------------------------------------------------
// A tool on an executor
// ---------------------------------------------------------------------------

/// Where the call of a tool on an executor stands: the configuration of the workspace is
/// read, the executor is connected, the tool runs.
#[derive(Debug)]
pub enum ExecCall {
    ReadConfig { name: String, executor: String, params: Json },
    Connect { name: String, executor: String, params: Json },
    Run { executor: String },
}

#[verifier::ext_equal]
pub ghost enum ExecCallView {
    ReadConfig { name: Seq<char>, executor: Seq<char>, params: JsonView },
    Connect { name: Seq<char>, executor: Seq<char>, params: JsonView },
    Run { executor: Seq<char> },
}

impl ExecCall {
    pub open spec fn view(&self) -> ExecCallView {
        match self {
            ExecCall::ReadConfig { name, executor, params } => ExecCallView::ReadConfig {
                name: name@,
                executor: executor@,
                params: params@,
            },
            ExecCall::Connect { name, executor, params } => ExecCallView::Connect {
                name: name@,
                executor: executor@,
                params: params@,
            },
            ExecCall::Run { executor } => ExecCallView::Run { executor: executor@ },
        }
    }
}

pub type ExecStepView = StepView<ExecCallView, Result<JsonView, JsonRpcErrorView>>;

pub open spec fn exec_step_view(s: Step<ExecCall, Result<Json, JsonRpcError>>) -> ExecStepView {
    match s {
        Step::Ask(c, a) => StepView::Ask(c@, a@),
        Step::Done(r) => StepView::Done(outcome_view(r)),
    }
}

/// The request that an executor gets; the local one works in the workspace.
pub open spec fn execute_action(
    name: Seq<char>,
    executor: Seq<char>,
    params: JsonView,
    workdir: Seq<char>,
) -> ActionView {
    ActionView::Execute {
        id: JsonView::Int(1),
        method: name,
        executor: Some(executor),
        params,
        directory: if executor == "local"@ {
            Some(workdir)
        } else {
            None
        },
    }
}

/// The first step of the call of the tool `name`: the local executor is at hand, any
/// other is looked up.
pub open spec fn exec_begin(
    scope: CallScopeView,
    name: Seq<char>,
    arguments: JsonView,
) -> (ExecCallView, ActionView) {
    let executor = routed_executor(arguments);
    let params = executor_params(arguments);
    if executor == "local"@ {
        (
            ExecCallView::Run { executor },
            execute_action(name, executor, params, scope.workdir),
        )
    } else {
        (
            ExecCallView::ReadConfig { name, executor, params },
            ActionView::ReadConfig { workdir: scope.workdir },
        )
    }
}

/// A result that says which executor it comes from.
pub open spec fn with_route(result: JsonView, executor: Seq<char>) -> JsonView {
    match result {
        JsonView::Obj(m) => {
            let metadata = if m.dom().contains("metadata"@) {
                m["metadata"@]
            } else {
                JsonView::Obj(Map::empty())
            };
            match metadata {
                JsonView::Obj(inner) => JsonView::Obj(
                    m.insert(
                        "metadata"@,
                        JsonView::Obj(
                            if inner.dom().contains("executor"@) {
                                inner
                            } else {
                                inner.insert("executor"@, JsonView::Str(executor))
                            },
                        ),
                    ),
                ),
                _ => result,
            }
        },
        _ => result,
    }
}

/// What an executor came to.
pub open spec fn reply_outcome(reply: ExecutorReplyView, executor: Seq<char>) -> Result<
    JsonView,
    JsonRpcErrorView,
> {
    if reply.ok {
        Ok(
            with_route(
                match reply.result {
                    Some(v) => v,
                    None => JsonView::Null,
                },
                executor,
            ),
        )
    } else {
        Err(
            failure(
                match reply.error {
                    Some(e) => e,
                    None => "unknown error"@,
                },
            ),
        )
    }
}

pub open spec fn exec_next(
    call: ExecCallView,
    scope: CallScopeView,
    event: EventView,
) -> ExecStepView {
    match (call, event) {
        (ExecCallView::ReadConfig { name, executor, params }, EventView::Config(config)) => {
            match config {
                Err(e) => StepView::Done(Err(failure(e))),
                Ok(v) => match found(config_of(v), executor) {
                    Some(item) => StepView::Ask(
                        ExecCallView::Connect { name, executor, params },
                        ActionView::Connect { executor: item },
                    ),
                    None => StepView::Done(
                        Err(failure("executor not found in workspace config: "@ + executor)),
                    ),
                },
            }
        },
        (ExecCallView::Connect { name, executor, params }, EventView::Done(done)) => match done {
            Err(e) => StepView::Done(Err(failure(e))),
            Ok(_) => StepView::Ask(
                ExecCallView::Run { executor },
                execute_action(name, executor, params, scope.workdir),
            ),
        },
        (ExecCallView::Run { executor }, EventView::Reply(reply)) => StepView::Done(
            reply_outcome(reply, executor),
        ),
        _ => StepView::Done(Err(unexpected())),
    }
}

fn execute(name: &str, executor: &str, params: Json, workdir: &str) -> (r: Action)
    ensures
        r@ == execute_action(name@, executor@, params@, workdir@),
{
    let directory = if same(executor, "local") {
        Some(workdir.to_owned())
    } else {
        None
    };
    Action::Execute {
        id: Json::Int(1),
        method: name.to_owned(),
        executor: Some(executor.to_owned()),
        params,
        directory,
    }
}

fn add_route(result: Json, executor: &str) -> (r: Json)
    ensures
        r@ == with_route(result@, executor@),
{
    match result {
        Json::Object(o) => {
            let mut o = o;
            let ghost m = o@;
            let metadata = match o.remove("metadata") {
                Some(v) => v,
                None => Json::Object(JsonObject::new()),
            };
            match metadata {
                Json::Object(inner) => {
                    let inner = if inner.contains_key("executor") {
                        inner
                    } else {
                        inner.with("executor", Json::str(executor))
                    };
                    o.insert("metadata", Json::Object(inner));
                    assert(o@ =~= m.insert("metadata"@, JsonView::Obj(inner@)));
                },
                other => {
                    o.insert("metadata", other);
                    assert(o@ =~= m);
                },
            }
            Json::Object(o)
        },
        other => other,
    }
}

impl ExecCall {
    pub fn begin(scope: &CallScope, name: &str, arguments: Json) -> (r: (ExecCall, Action))
        ensures
            (r.0@, r.1@) == exec_begin(scope@, name@, arguments@),
    {
        let (executor, rest) = extract_executor(arguments);
        let params = rest.without(EXECUTOR_SESSION_PARAM).without("executor");
        if same(executor.as_str(), "local") {
            let action = execute(name, executor.as_str(), params, scope.workdir.as_str());
            (ExecCall::Run { executor }, action)
        } else {
            (
                ExecCall::ReadConfig { name: name.to_owned(), executor, params },
                Action::ReadConfig { workdir: scope.workdir.clone() },
            )
        }
    }

    pub fn next(self, scope: &CallScope, event: Event) -> (r: Step<
        ExecCall,
        Result<Json, JsonRpcError>,
    >)
        ensures
            exec_step_view(r) == exec_next(self@, scope@, event@),
    {
        match (self, event) {
            (ExecCall::ReadConfig { name, executor, params }, Event::Config(config)) => {
                match config {
                    Err(e) => Step::Done(Err(JsonRpcError::internal(e.as_str()))),
                    Ok(v) => {
                        let config = workspace_executor_config_from_value(&v);
                        match find_executor(&config, executor.as_str()) {
                            Some(item) => Step::Ask(
                                ExecCall::Connect { name, executor, params },
                                Action::Connect { executor: item },
                            ),
                            None => {
                                let message = cat(
                                    "executor not found in workspace config: ",
                                    executor.as_str(),
                                );
                                Step::Done(Err(JsonRpcError::internal(message.as_str())))
                            },
                        }
                    },
                }
            },
            (ExecCall::Connect { name, executor, params }, Event::Done(done)) => match done {
                Err(e) => Step::Done(Err(JsonRpcError::internal(e.as_str()))),
                Ok(_) => {
                    let action = execute(
                        name.as_str(),
                        executor.as_str(),
                        params,
                        scope.workdir.as_str(),
                    );
                    Step::Ask(ExecCall::Run { executor }, action)
                },
            },
            (ExecCall::Run { executor }, Event::Reply(reply)) => {
                if reply.ok {
                    let result = match reply.result {
                        Some(v) => v,
                        None => Json::Null,
                    };
                    Step::Done(Ok(add_route(result, executor.as_str())))
                } else {
                    match reply.error {
                        Some(e) => Step::Done(Err(JsonRpcError::internal(e.as_str()))),
                        None => Step::Done(Err(JsonRpcError::internal("unknown error"))),
                    }
                }
            },
            _ => Step::Done(Err(unexpected_error())),
        }
    }
}

} // verus!
