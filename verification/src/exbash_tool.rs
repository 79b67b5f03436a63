//! The tool `exbash`: shell tasks that the session or the workspace keeps track of.

use vstd::prelude::*;

use crate::args::asked_mode;
use crate::args::asked_scope;
use crate::args::bad_scope;
use crate::args::extract_exbash_scope;
use crate::args::fill_in;
use crate::args::is_scope;
use crate::args::read_mode;
use crate::args::read_requested_executor;
use crate::args::requested_executor;
use crate::args::with_default;
use crate::args::CallScope;
use crate::args::CallScopeView;
use crate::calls::answer_view;
use crate::calls::exec_begin;
use crate::calls::exec_next;
use crate::calls::unexpected;
use crate::calls::unexpected_error;
use crate::calls::Action;
use crate::calls::ActionView;
use crate::calls::Answer;
use crate::calls::AnswerView;
use crate::calls::Event;
use crate::calls::EventView;
use crate::calls::ExecCall;
use crate::calls::ExecCallView;
use crate::calls::Step;
use crate::calls::StepView;
use crate::exbash::creates_task;
use crate::exbash::exbash_cleanup_candidate;
use crate::exbash::exbash_error_indicates_missing;
use crate::exbash::exbash_error_indicates_missing_or_lost;
use crate::exbash::exbash_error_indicates_storage_rejection;
use crate::exbash::exbash_mode_creates_task;
use crate::exbash::exbash_remove_warning_code;
use crate::exbash::exbash_sync_input_from_existing;
use crate::exbash::exbash_sync_input_from_result;
use crate::exbash::format_exbash_run_or_shell_output;
use crate::exbash::input_after;
use crate::exbash::input_of_new;
use crate::exbash::is_cleanup_candidate;
use crate::exbash::remove_warning;
use crate::exbash::run_text;
use crate::exbash::tells_missing;
use crate::exbash::tells_missing_or_lost;
use crate::exbash::tells_storage_rejection;
use crate::fields::filled_field;
use crate::fields::meta;
use crate::fields::meta_text;
use crate::fields::metadata_string;
use crate::fields::optional_string_field;
use crate::fields::or_else;
use crate::fields::or_text;
use crate::fields::set_metadata_field;
use crate::fields::with_meta;
use crate::host::ExbashSyncInput;
use crate::host::ExbashSyncInputView;
use crate::json::compact;
use crate::json::opt_view;
use crate::json::views;
use crate::json::Json;
use crate::json::JsonObject;
use crate::json::JsonView;
use crate::jsonrpc::bad_params;
use crate::jsonrpc::failure;
use crate::jsonrpc::JsonRpcError;
use crate::jsonrpc::JsonRpcErrorView;
use crate::mcp::text_answer;
use crate::mcp::text_result;
use crate::mcp::McpCallResult;
use crate::mcp::McpCallResultView;
use crate::output::extract_output_text;
use crate::output::output_text;
use crate::output::strip_output;
use crate::output::stripped;
use crate::text::cat;
use crate::text::opt_text;
use crate::text::same;
use crate::types::copy_opt;
use crate::types::long_json;
use crate::types::snapshot_json;
use crate::types::snapshot_views;
use crate::types::snapshots_json;
use crate::types::snapshots_to_json;
use crate::types::text_json;
use crate::types::ExbashTaskSnapshot;
use crate::types::ExbashTaskSnapshotView;

verus! {

/// What a call of `exbash` asks for: where its task is kept track of, and the task, the
/// executor and the description that it names.
#[derive(Debug)]
pub struct ExbashCall {
    pub mode: String,
    pub tracking_scope: String,
    pub arguments: Json,
    pub async_id: Option<String>,
    pub executor: String,
    pub description: Option<String>,
}

#[verifier::ext_equal]
pub ghost struct ExbashCallView {
    pub mode: Seq<char>,
    pub tracking_scope: Seq<char>,
    pub arguments: JsonView,
    pub async_id: Option<Seq<char>>,
    pub executor: Seq<char>,
    pub description: Option<Seq<char>>,
}

impl ExbashCall {
    pub open spec fn view(&self) -> ExbashCallView {
        ExbashCallView {
            mode: self.mode@,
            tracking_scope: self.tracking_scope@,
            arguments: self.arguments@,
            async_id: opt_text(self.async_id),
            executor: self.executor@,
            description: opt_text(self.description),
        }
    }
}

/// What led to a task being forgotten: an executor that has no such task or is gone, or one
/// that removed it.
#[derive(Debug)]
pub enum Removal {
    AfterFailure { error: JsonRpcError },
    AfterSuccess { value: Json },
}

#[verifier::ext_equal]
pub ghost enum RemovalView {
    AfterFailure { error: JsonRpcErrorView },
    AfterSuccess { value: JsonView },
}

impl Removal {
    pub open spec fn view(&self) -> RemovalView {
        match self {
            Removal::AfterFailure { error } => RemovalView::AfterFailure {
                error: error@,
            },
            Removal::AfterSuccess { value } => RemovalView::AfterSuccess {
                value: value@,
            },
        }
    }
}

/// Where a call of `exbash` stands: room for a new task is checked and, where need be,
/// made; the tool runs; what it did is recorded with the session and the workspace.
#[derive(Debug)]
pub enum ExbashStage {
    Check { ex: ExbashCall },
    PruneList { ex: ExbashCall, message: String },
    PruneRemove {
        ex: ExbashCall,
        message: String,
        task: ExbashTaskSnapshot,
        rest: Vec<ExbashTaskSnapshot>,
        removed: Vec<Json>,
    },
    CheckAgain { ex: ExbashCall, cleanup: Json },
    Run { call: ExecCall, ex: ExbashCall, cleanup: Option<Json> },
    Upsert { ex: ExbashCall, value: Json },
    Watch { ex: ExbashCall, value: Json },
    RemoveFirst { ex: ExbashCall, removal: Removal, async_id: String, executor: String },
    RemoveSecond {
        ex: ExbashCall,
        removal: Removal,
        async_id: String,
        executor: String,
        local_removed: bool,
    },
    FirstLookup { ex: ExbashCall, value: Json, async_id: String, executor: String },
    FirstUpsert { ex: ExbashCall, value: Json, async_id: String, executor: String },
    SecondLookup { ex: ExbashCall, value: Json, snapshots: Vec<ExbashTaskSnapshot> },
    SecondUpsert { ex: ExbashCall, value: Json, snapshots: Vec<ExbashTaskSnapshot> },
}

#[verifier::ext_equal]
pub ghost enum ExbashStageView {
    Check { ex: ExbashCallView },
    PruneList { ex: ExbashCallView, message: Seq<char> },
    PruneRemove {
        ex: ExbashCallView,
        message: Seq<char>,
        task: ExbashTaskSnapshotView,
        rest: Seq<ExbashTaskSnapshotView>,
        removed: Seq<JsonView>,
    },
    CheckAgain { ex: ExbashCallView, cleanup: JsonView },
    Run { call: ExecCallView, ex: ExbashCallView, cleanup: Option<JsonView> },
    Upsert { ex: ExbashCallView, value: JsonView },
    Watch { ex: ExbashCallView, value: JsonView },
    RemoveFirst {
        ex: ExbashCallView,
        removal: RemovalView,
        async_id: Seq<char>,
        executor: Seq<char>,
    },
    RemoveSecond {
        ex: ExbashCallView,
        removal: RemovalView,
        async_id: Seq<char>,
        executor: Seq<char>,
        local_removed: bool,
    },
    FirstLookup { ex: ExbashCallView, value: JsonView, async_id: Seq<char>, executor: Seq<char> },
    FirstUpsert { ex: ExbashCallView, value: JsonView, async_id: Seq<char>, executor: Seq<char> },
    SecondLookup { ex: ExbashCallView, value: JsonView, snapshots: Seq<ExbashTaskSnapshotView> },
    SecondUpsert { ex: ExbashCallView, value: JsonView, snapshots: Seq<ExbashTaskSnapshotView> },
}

impl ExbashStage {
    pub open spec fn view(&self) -> ExbashStageView {
        match self {
            ExbashStage::Check { ex } => ExbashStageView::Check {
                ex: ex@,
            },
            ExbashStage::PruneList { ex, message } => ExbashStageView::PruneList {
                ex: ex@,
                message: message@,
            },
            ExbashStage::PruneRemove { ex, message, task, rest, removed } => ExbashStageView::PruneRemove {
                ex: ex@,
                message: message@,
                task: task@,
                rest: snapshot_views(rest@),
                removed: views(removed@),
            },
            ExbashStage::CheckAgain { ex, cleanup } => ExbashStageView::CheckAgain {
                ex: ex@,
                cleanup: cleanup@,
            },
            ExbashStage::Run { call, ex, cleanup } => ExbashStageView::Run {
                call: call@,
                ex: ex@,
                cleanup: opt_view(*cleanup),
            },
            ExbashStage::Upsert { ex, value } => ExbashStageView::Upsert {
                ex: ex@,
                value: value@,
            },
            ExbashStage::Watch { ex, value } => ExbashStageView::Watch {
                ex: ex@,
                value: value@,
            },
            ExbashStage::RemoveFirst { ex, removal, async_id, executor } => ExbashStageView::RemoveFirst {
                ex: ex@,
                removal: removal@,
                async_id: async_id@,
                executor: executor@,
            },
            ExbashStage::RemoveSecond { ex, removal, async_id, executor, local_removed } => ExbashStageView::RemoveSecond {
                ex: ex@,
                removal: removal@,
                async_id: async_id@,
                executor: executor@,
                local_removed: *local_removed,
            },
            ExbashStage::FirstLookup { ex, value, async_id, executor } => ExbashStageView::FirstLookup {
                ex: ex@,
                value: value@,
                async_id: async_id@,
                executor: executor@,
            },
            ExbashStage::FirstUpsert { ex, value, async_id, executor } => ExbashStageView::FirstUpsert {
                ex: ex@,
                value: value@,
                async_id: async_id@,
                executor: executor@,
            },
            ExbashStage::SecondLookup { ex, value, snapshots } => ExbashStageView::SecondLookup {
                ex: ex@,
                value: value@,
                snapshots: snapshot_views(snapshots@),
            },
            ExbashStage::SecondUpsert { ex, value, snapshots } => ExbashStageView::SecondUpsert {
                ex: ex@,
                value: value@,
                snapshots: snapshot_views(snapshots@),
            },
        }
    }
}

pub type ExbashStep = Step<ExbashStage, Answer>;

pub type ExbashStepView = StepView<ExbashStageView, AnswerView>;

pub open spec fn exbash_step_view(s: ExbashStep) -> ExbashStepView {
    match s {
        Step::Ask(stage, a) => StepView::Ask(stage@, a@),
        Step::Done(r) => StepView::Done(answer_view(r)),
    }
}

pub open spec fn in_workspace(ex: ExbashCallView) -> bool {
    ex.tracking_scope == "workspace"@
}

fn is_in_workspace(ex: &ExbashCall) -> (r: bool)
    ensures
        r == in_workspace(ex@),
{
    same(ex.tracking_scope.as_str(), "workspace")
}

// ---------------------------------------------------------------------------
// The end
// ---------------------------------------------------------------------------

/// What `exbash` answers.
pub open spec fn exbash_answer(ex: ExbashCallView, value: JsonView) -> AnswerView {
    let text = if creates_task(ex.mode) {
        run_text(value)
    } else {
        output_text(value)
    };
    Ok(text_answer(text, Some(stripped(value))))
}

/// The end of a call of `exbash`.
pub fn finish_exbash(ex: &ExbashCall, value: Json) -> (r: Answer)
    ensures
        answer_view(r) == exbash_answer(ex@, value@),
{
    let text = if exbash_mode_creates_task(ex.mode.as_str()) {
        format_exbash_run_or_shell_output(&value)
    } else {
        extract_output_text(&value)
    };
    Ok(text_result(text.as_str(), Some(strip_output(value))))
}

/// A result with a member of its metadata set; a result that is neither an object nor
/// null has no place for it and is kept.
pub open spec fn noted(value: JsonView, field: Seq<char>, data: JsonView) -> JsonView {
    if value is Obj || value is Null {
        with_meta(value, field, data)
    } else {
        value
    }
}

fn note(value: Json, field: &str, data: Json) -> (r: Json)
    ensures
        r@ == noted(value@, field@, data@),
{
    if value.is_object() || value.is_null() {
        set_metadata_field(value, field, data)
    } else {
        value
    }
}

// ---------------------------------------------------------------------------
// Recording what was done
// ---------------------------------------------------------------------------

/// The result with the snapshots that were recorded.
pub open spec fn recorded_answer(
    ex: ExbashCallView,
    value: JsonView,
    snapshots: Seq<ExbashTaskSnapshotView>,
) -> AnswerView {
    if snapshots.len() == 0 {
        exbash_answer(ex, value)
    } else {
        exbash_answer(ex, noted(value, "hostSnapshots"@, snapshots_json(snapshots)))
    }
}

fn finish_recorded(ex: &ExbashCall, value: Json, snapshots: &Vec<ExbashTaskSnapshot>) -> (r: Answer)
    ensures
        answer_view(r) == recorded_answer(ex@, value@, snapshot_views(snapshots@)),
{
    if snapshots.len() == 0 {
        finish_exbash(ex, value)
    } else {
        let data = snapshots_to_json(snapshots);
        finish_exbash(ex, note(value, "hostSnapshots", data))
    }
}

/// The task that a result is about: its id and its executor.
pub open spec fn subject(ex: ExbashCallView, value: JsonView) -> Option<(Seq<char>, Seq<char>)> {
    match or_else(meta_text(value, "asyncID"@), ex.async_id) {
        Some(async_id) => Some((async_id, or_text(meta_text(value, "executor"@), ex.executor))),
        None => None,
    }
}

/// What follows the result of a call that recorded no new task: a removal is recorded
/// with both, as is a stop or what attaching showed.
pub open spec fn settle_step(
    scope: CallScopeView,
    ex: ExbashCallView,
    value: JsonView,
) -> ExbashStepView {
    match subject(ex, value) {
        Some((async_id, executor)) => if ex.mode == "remove"@ {
            match meta(value, "hostCleanup"@) {
                Some(_) => StepView::Done(exbash_answer(ex, value)),
                None => StepView::Ask(
                    ExbashStageView::RemoveFirst {
                        ex,
                        removal: RemovalView::AfterSuccess { value },
                        async_id,
                        executor,
                    },
                    ActionView::RemoveSession { session_id: scope.session_id, async_id, executor },
                ),
            }
        } else if ex.mode == "stop"@ || ex.mode == "attach"@ {
            StepView::Ask(
                ExbashStageView::FirstLookup { ex, value, async_id, executor },
                ActionView::SessionSnapshot { session_id: scope.session_id, async_id, executor },
            )
        } else {
            StepView::Done(exbash_answer(ex, value))
        },
        None => StepView::Done(exbash_answer(ex, value)),
    }
}

fn settle(scope: &CallScope, ex: ExbashCall, value: Json) -> (r: ExbashStep)
    ensures
        exbash_step_view(r) == settle_step(scope@, ex@, value@),
{
    let async_id = match metadata_string(&value, "asyncID") {
        Some(id) => Some(id),
        None => copy_opt(&ex.async_id),
    };
    match async_id {
        Some(async_id) => {
            let executor = match metadata_string(&value, "executor") {
                Some(e) => e,
                None => ex.executor.clone(),
            };
            let session_id = scope.session_id.clone();
            let id = async_id.clone();
            let name = executor.clone();
            if same(ex.mode.as_str(), "remove") {
                if value.get2("metadata", "hostCleanup").is_some() {
                    Step::Done(finish_exbash(&ex, value))
                } else {
                    Step::Ask(
                        ExbashStage::RemoveFirst {
                            ex,
                            removal: Removal::AfterSuccess { value },
                            async_id,
                            executor,
                        },
                        Action::RemoveSession { session_id, async_id: id, executor: name },
                    )
                }
            } else if same(ex.mode.as_str(), "stop") || same(ex.mode.as_str(), "attach") {
                Step::Ask(
                    ExbashStage::FirstLookup { ex, value, async_id, executor },
                    Action::SessionSnapshot { session_id, async_id: id, executor: name },
                )
            } else {
                Step::Done(finish_exbash(&ex, value))
            }
        },
        None => Step::Done(finish_exbash(&ex, value)),
    }
}

/// Where a new task is kept: with the workspace, which also learns of the session, or
/// with the session.
pub open spec fn upsert_action(
    scope: CallScopeView,
    ex: ExbashCallView,
    input: ExbashSyncInputView,
) -> ActionView {
    if in_workspace(ex) {
        ActionView::UpsertWorkdir {
            session_id: scope.session_id,
            workdir: scope.workdir,
            input: ExbashSyncInputView { session_id: Some(scope.session_id), ..input },
        }
    } else {
        ActionView::UpsertSession { session_id: scope.session_id, input }
    }
}

fn upsert(scope: &CallScope, ex: &ExbashCall, input: ExbashSyncInput) -> (r: Action)
    ensures
        r@ == upsert_action(scope@, ex@, input@),
{
    if is_in_workspace(ex) {
        let mut input = input;
        input.session_id = Some(scope.session_id.clone());
        Action::UpsertWorkdir {
            session_id: scope.session_id.clone(),
            workdir: scope.workdir.clone(),
            input,
        }
    } else {
        Action::UpsertSession { session_id: scope.session_id.clone(), input }
    }
}

/// After the tool: a new task is recorded; anything else is settled.
pub open spec fn ran_step(
    scope: CallScopeView,
    ex: ExbashCallView,
    cleanup: Option<JsonView>,
    result: JsonView,
) -> ExbashStepView {
    let value = match cleanup {
        Some(c) => noted(result, "hostCleanup"@, c),
        None => result,
    };
    match input_of_new(value, ex.mode, ex.description) {
        Some(input) => StepView::Ask(
            ExbashStageView::Upsert { ex, value },
            upsert_action(scope, ex, input),
        ),
        None => settle_step(scope, ex, value),
    }
}

fn ran(scope: &CallScope, ex: ExbashCall, cleanup: Option<Json>, result: Json) -> (r: ExbashStep)
    ensures
        exbash_step_view(r) == ran_step(scope@, ex@, opt_view(cleanup), result@),
{
    let value = match cleanup {
        Some(c) => note(result, "hostCleanup", c),
        None => result,
    };
    match exbash_sync_input_from_result(&value, ex.mode.as_str(), &ex.description) {
        Some(input) => {
            let action = upsert(scope, &ex, input);
            Step::Ask(ExbashStage::Upsert { ex, value }, action)
        },
        None => settle(scope, ex, value),
    }
}

/// A task that runs on the local executor; its end is waited for.
pub open spec fn is_watched(snapshot: ExbashTaskSnapshotView) -> bool {
    snapshot.executor == "local"@ && snapshot.state == Some("running"@)
}

/// A new task was recorded: the result shows it, and a running local one is watched.
pub open spec fn upserted_step(
    scope: CallScopeView,
    ex: ExbashCallView,
    value: JsonView,
    snapshot: ExbashTaskSnapshotView,
) -> ExbashStepView {
    let v = noted(value, "hostSnapshot"@, snapshot_json(snapshot));
    if is_watched(snapshot) {
        StepView::Ask(
            ExbashStageView::Watch { ex, value: v },
            ActionView::Watch {
                scope,
                tracking_scope: ex.tracking_scope,
                async_id: snapshot.async_id,
            },
        )
    } else {
        StepView::Done(exbash_answer(ex, v))
    }
}

fn upserted(scope: &CallScope, ex: ExbashCall, value: Json, snapshot: &ExbashTaskSnapshot) -> (r:
    ExbashStep)
    ensures
        exbash_step_view(r) == upserted_step(scope@, ex@, value@, snapshot@),
{
    let v = note(value, "hostSnapshot", snapshot.to_json());
    let running = match &snapshot.state {
        Some(s) => same(s.as_str(), "running"),
        None => false,
    };
    if same(snapshot.executor.as_str(), "local") && running {
        let tracking_scope = ex.tracking_scope.clone();
        Step::Ask(
            ExbashStage::Watch { ex, value: v },
            Action::Watch {
                scope: scope.copy(),
                tracking_scope,
                async_id: snapshot.async_id.clone(),
            },
        )
    } else {
        Step::Done(finish_exbash(&ex, v))
    }
}

/// The warning that a new task could not be recorded.
pub open spec fn write_warning(message: Seq<char>) -> JsonView {
    JsonView::Obj(
        map![
            "code"@ => JsonView::Str("hostTrackingWriteFailed"@),
            "message"@ => JsonView::Str(message),
        ],
    )
}

/// The report on a task that was forgotten.
pub open spec fn removal_report(
    async_id: Seq<char>,
    executor: Seq<char>,
    local_removed: bool,
    workspace_removed: bool,
) -> JsonView {
    JsonView::Obj(
        map![
            "asyncID"@ => JsonView::Str(async_id),
            "executor"@ => JsonView::Str(executor),
            "localRemoved"@ => JsonView::Bool(local_removed),
            "workspaceRemoved"@ => JsonView::Bool(workspace_removed),
        ],
    )
}

/// The warning that the executor of a forgotten task could not be reached.
pub open spec fn lost_warning(message: Seq<char>) -> JsonView {
    JsonView::Obj(
        map![
            "code"@ => JsonView::Str(remove_warning(message)),
            "message"@ => JsonView::Str(message),
        ],
    )
}

/// The answer where a task was forgotten whose executor could not be reached: a warning with
/// the message of the failure and a report.
pub open spec fn lost_answer(
    async_id: Seq<char>,
    executor: Seq<char>,
    message: Seq<char>,
    report: JsonView,
) -> McpCallResultView {
    text_answer(
        "warning: "@ + remove_warning(message) + "\nasyncID:"@ + async_id + "\nexecutor:"@
            + executor + "\nmessage:"@ + message + "\nhostCleanup:"@ + compact(report),
        Some(
            JsonView::Obj(
                map![
                    "metadata"@ => JsonView::Obj(
                        map![
                            "asyncID"@ => JsonView::Str(async_id),
                            "executor"@ => JsonView::Str(executor),
                            "warning"@ => lost_warning(message),
                            "hostCleanup"@ => report,
                        ],
                    ),
                ],
            ),
        ),
    )
}

/// A task was forgotten: the error of the executor that has no such task, a warning where the
/// executor could not be reached, or the result with a report.
pub open spec fn removed_answer(
    ex: ExbashCallView,
    removal: RemovalView,
    async_id: Seq<char>,
    executor: Seq<char>,
    report: JsonView,
) -> AnswerView {
    match removal {
        RemovalView::AfterFailure { error } => if tells_missing(error.message) {
            Err(error)
        } else {
            Ok(lost_answer(async_id, executor, error.message, report))
        },
        RemovalView::AfterSuccess { value } => exbash_answer(
            ex,
            noted(value, "hostCleanup"@, report),
        ),
    }
}

fn finish_lost(async_id: &str, executor: &str, message: &str, report: Json) -> (r: McpCallResult)
    ensures
        r@ == lost_answer(async_id@, executor@, message@, report@),
{
    let code = exbash_remove_warning_code(message);
    let mut text = cat("warning: ", code);
    text.append("\nasyncID:");
    text.append(async_id);
    text.append("\nexecutor:");
    text.append(executor);
    text.append("\nmessage:");
    text.append(message);
    text.append("\nhostCleanup:");
    text.append(report.to_text().as_str());
    let warning = JsonObject::new().with("code", Json::str(code)).with(
        "message",
        Json::str(message),
    );
    let metadata = JsonObject::new().with("asyncID", Json::str(async_id)).with(
        "executor",
        Json::str(executor),
    ).with("warning", Json::Object(warning)).with("hostCleanup", report);
    let content = JsonObject::new().with("metadata", Json::Object(metadata));
    text_result(text.as_str(), Some(Json::Object(content)))
}

fn finish_removed(
    ex: &ExbashCall,
    removal: Removal,
    async_id: &str,
    executor: &str,
    local_removed: bool,
    workspace_removed: bool,
) -> (r: Answer)
    ensures
        answer_view(r) == removed_answer(
            ex@,
            removal@,
            async_id@,
            executor@,
            removal_report(async_id@, executor@, local_removed, workspace_removed),
        ),
{
    let report = JsonObject::new().with("asyncID", Json::str(async_id)).with(
        "executor",
        Json::str(executor),
    ).with("localRemoved", Json::Bool(local_removed)).with(
        "workspaceRemoved",
        Json::Bool(workspace_removed),
    );
    match removal {
        Removal::AfterFailure { error } => if exbash_error_indicates_missing(
            error.message.as_str(),
        ) {
            Err(error)
        } else {
            Ok(finish_lost(async_id, executor, error.message.as_str(), Json::Object(report)))
        },
        Removal::AfterSuccess { value } => finish_exbash(
            ex,
            note(value, "hostCleanup", Json::Object(report)),
        ),
    }
}

// ---------------------------------------------------------------------------
// Running the tool
// ---------------------------------------------------------------------------

pub open spec fn run_step(
    scope: CallScopeView,
    ex: ExbashCallView,
    cleanup: Option<JsonView>,
) -> ExbashStepView {
    let (call, action) = exec_begin(
        scope,
        "exbash"@,
        ex.arguments.without("scope"@).without("spoe"@),
    );
    StepView::Ask(ExbashStageView::Run { call, ex, cleanup }, action)
}

fn run(scope: &CallScope, ex: ExbashCall, cleanup: Option<Json>) -> (r: ExbashStep)
    ensures
        exbash_step_view(r) == run_step(scope@, ex@, opt_view(cleanup)),
{
    let arguments = ex.arguments.clone().without("scope").without("spoe");
    let (call, action) = ExecCall::begin(scope, "exbash", arguments);
    Step::Ask(ExbashStage::Run { call, ex, cleanup }, action)
}

/// A removal that failed because the local executor has no such task or cannot be reached:
/// nothing is left to keep track of.
pub open spec fn forgets_on_failure(ex: ExbashCallView, error: JsonRpcErrorView) -> bool {
    &&& ex.mode == "remove"@
    &&& tells_missing_or_lost(error.message)
    &&& ex.async_id is Some
    &&& ex.executor == "local"@
}

/// The tool failed: the error is the answer, except that a missing or lost local task is
/// forgotten first. What is kept of the task of another executor stays.
pub open spec fn failed_step(
    scope: CallScopeView,
    ex: ExbashCallView,
    error: JsonRpcErrorView,
) -> ExbashStepView {
    if forgets_on_failure(ex, error) {
        let async_id = ex.async_id->0;
        StepView::Ask(
            ExbashStageView::RemoveFirst {
                ex,
                removal: RemovalView::AfterFailure { error },
                async_id,
                executor: ex.executor,
            },
            ActionView::RemoveSession {
                session_id: scope.session_id,
                async_id,
                executor: ex.executor,
            },
        )
    } else {
        StepView::Done(Err(error))
    }
}

fn failed(scope: &CallScope, ex: ExbashCall, error: JsonRpcError) -> (r: ExbashStep)
    ensures
        exbash_step_view(r) == failed_step(scope@, ex@, error@),
{
    if same(ex.mode.as_str(), "remove") && exbash_error_indicates_missing_or_lost(
        error.message.as_str(),
    ) && same(ex.executor.as_str(), "local") {
        match copy_opt(&ex.async_id) {
            Some(async_id) => {
                let executor = ex.executor.clone();
                let id = async_id.clone();
                let name = executor.clone();
                return Step::Ask(
                    ExbashStage::RemoveFirst {
                        ex,
                        removal: Removal::AfterFailure { error },
                        async_id,
                        executor,
                    },
                    Action::RemoveSession {
                        session_id: scope.session_id.clone(),
                        async_id: id,
                        executor: name,
                    },
                );
            },
            None => {},
        }
    }
    Step::Done(Err(error))
}

// ---------------------------------------------------------------------------
// Making room for a new task
// ---------------------------------------------------------------------------

/// What the host is told of a task that is about to be started.
pub open spec fn planned_input(arguments: JsonView) -> ExbashSyncInputView {
    ExbashSyncInputView {
        async_id: filled_field(arguments, "asyncID"@),
        session_id: None,
        workdir: filled_field(arguments, "workdir"@),
        executor: requested_executor(arguments),
        state: None,
        pid: None,
        exit_code: None,
        started_at: None,
        ended_at: None,
        command: filled_field(arguments, "command"@),
        description: filled_field(arguments, "description"@),
        total_output: None,
    }
}

/// The question whether a further task is taken.
pub open spec fn check_action(scope: CallScopeView, ex: ExbashCallView) -> ActionView {
    let input = planned_input(ex.arguments);
    if in_workspace(ex) {
        ActionView::CheckWorkdir {
            session_id: scope.session_id,
            workdir: scope.workdir,
            input: ExbashSyncInputView {
                session_id: Some(scope.session_id),
                workdir: Some(scope.workdir),
                ..input
            },
        }
    } else {
        ActionView::CheckSession { session_id: scope.session_id, input }
    }
}

fn check(scope: &CallScope, ex: &ExbashCall) -> (r: Action)
    ensures
        r@ == check_action(scope@, ex@),
{
    let a = &ex.arguments;
    let mut input = ExbashSyncInput {
        async_id: optional_string_field(a, "asyncID"),
        session_id: None,
        workdir: optional_string_field(a, "workdir"),
        executor: read_requested_executor(a),
        state: None,
        pid: None,
        exit_code: None,
        started_at: None,
        ended_at: None,
        command: optional_string_field(a, "command"),
        description: optional_string_field(a, "description"),
        total_output: None,
    };
    if is_in_workspace(ex) {
        input.session_id = Some(scope.session_id.clone());
        input.workdir = Some(scope.workdir.clone());
        Action::CheckWorkdir {
            session_id: scope.session_id.clone(),
            workdir: scope.workdir.clone(),
            input,
        }
    } else {
        Action::CheckSession { session_id: scope.session_id.clone(), input }
    }
}

/// The tasks that may be forgotten to make room, in order.
pub open spec fn candidates(tasks: Seq<ExbashTaskSnapshotView>) -> Seq<ExbashTaskSnapshotView>
    decreases tasks.len(),
{
    if tasks.len() == 0 {
        Seq::empty()
    } else if is_cleanup_candidate(tasks.last()) {
        candidates(tasks.drop_last()).push(tasks.last())
    } else {
        candidates(tasks.drop_last())
    }
}

fn find_candidates(tasks: &Vec<ExbashTaskSnapshot>) -> (r: Vec<ExbashTaskSnapshot>)
    ensures
        snapshot_views(r@) == candidates(snapshot_views(tasks@)),
{
    let ghost all = snapshot_views(tasks@);
    let mut r: Vec<ExbashTaskSnapshot> = Vec::new();
    let mut i: usize = 0;
    assert(all.take(0) =~= Seq::empty());
    assert(snapshot_views(r@) =~= Seq::empty());
    while i < tasks.len()
        invariant
            i <= tasks@.len(),
            all == snapshot_views(tasks@),
            snapshot_views(r@) == candidates(all.take(i as int)),
        decreases tasks.len() - i,
    {
        assert(all.take(i + 1).drop_last() =~= all.take(i as int));
        assert(all.take(i + 1).last() == tasks@[i as int]@);
        let ghost before = snapshot_views(r@);
        if exbash_cleanup_candidate(&tasks[i]) {
            let task = tasks[i].copy();
            r.push(task);
            assert(snapshot_views(r@) =~= before.push(task@));
        }
        i = i + 1;
    }
    assert(all.take(i as int) =~= all);
    r
}

pub open spec fn or_null(v: Option<JsonView>) -> JsonView {
    match v {
        Some(v) => v,
        None => JsonView::Null,
    }
}

/// The report on a task that made room.
pub open spec fn pruned_report(task: ExbashTaskSnapshotView) -> JsonView {
    JsonView::Obj(
        map![
            "asyncID"@ => JsonView::Str(task.async_id),
            "executor"@ => JsonView::Str(task.executor),
            "state"@ => or_null(text_json(task.state)),
            "startedAt"@ => or_null(long_json(task.started_at)),
            "endedAt"@ => or_null(long_json(task.ended_at)),
            "totalOutput"@ => or_null(long_json(task.total_output)),
        ],
    )
}

fn long_or_null(n: Option<i64>) -> (r: Json)
    ensures
        r@ == or_null(long_json(n)),
{
    match n {
        Some(n) => Json::Int(n as i128),
        None => Json::Null,
    }
}

fn report_pruned(task: &ExbashTaskSnapshot) -> (r: Json)
    ensures
        r@ == pruned_report(task@),
{
    let state = match &task.state {
        Some(s) => Json::Str(s.clone()),
        None => Json::Null,
    };
    Json::Object(
        JsonObject::new().with("asyncID", Json::Str(task.async_id.clone())).with(
            "executor",
            Json::Str(task.executor.clone()),
        ).with("state", state).with("startedAt", long_or_null(task.started_at)).with(
            "endedAt",
            long_or_null(task.ended_at),
        ).with("totalOutput", long_or_null(task.total_output)),
    )
}

/// The report on the room that was made.
pub open spec fn cleanup_report(
    ex: ExbashCallView,
    message: Seq<char>,
    removed: Seq<JsonView>,
) -> JsonView {
    JsonView::Obj(
        map![
            "scope"@ => JsonView::Str(ex.tracking_scope),
            "reason"@ => JsonView::Str("exbashStorageWriteRejected"@),
            "message"@ => JsonView::Str(message),
            "removedCount"@ => JsonView::Int(removed.len() as int),
            "removed"@ => JsonView::Arr(removed),
        ],
    )
}

pub open spec fn prune_action(
    scope: CallScopeView,
    ex: ExbashCallView,
    task: ExbashTaskSnapshotView,
) -> ActionView {
    if in_workspace(ex) {
        ActionView::RemoveWorkdir {
            session_id: scope.session_id,
            workdir: scope.workdir,
            async_id: task.async_id,
            executor: task.executor,
        }
    } else {
        ActionView::RemoveSession {
            session_id: scope.session_id,
            async_id: task.async_id,
            executor: task.executor,
        }
    }
}

/// Each candidate is forgotten in turn. Where none could be, the message of the host is
/// the answer; else the host is asked once more.
pub open spec fn prune_step(
    scope: CallScopeView,
    ex: ExbashCallView,
    message: Seq<char>,
    tasks: Seq<ExbashTaskSnapshotView>,
    removed: Seq<JsonView>,
) -> ExbashStepView {
    if tasks.len() > 0 {
        StepView::Ask(
            ExbashStageView::PruneRemove {
                ex,
                message,
                task: tasks[0],
                rest: tasks.drop_first(),
                removed,
            },
            prune_action(scope, ex, tasks[0]),
        )
    } else if removed.len() == 0 {
        StepView::Done(Err(bad_params(message)))
    } else {
        StepView::Ask(
            ExbashStageView::CheckAgain { ex, cleanup: cleanup_report(ex, message, removed) },
            check_action(scope, ex),
        )
    }
}

fn prune(
    scope: &CallScope,
    ex: ExbashCall,
    message: String,
    tasks: Vec<ExbashTaskSnapshot>,
    removed: Vec<Json>,
) -> (r: ExbashStep)
    ensures
        exbash_step_view(r) == prune_step(
            scope@,
            ex@,
            message@,
            snapshot_views(tasks@),
            views(removed@),
        ),
{
    if tasks.len() > 0 {
        let mut rest = tasks;
        let task = rest.remove(0);
        assert(snapshot_views(rest@) =~= snapshot_views(tasks@).drop_first());
        let action = if is_in_workspace(&ex) {
            Action::RemoveWorkdir {
                session_id: scope.session_id.clone(),
                workdir: scope.workdir.clone(),
                async_id: task.async_id.clone(),
                executor: task.executor.clone(),
            }
        } else {
            Action::RemoveSession {
                session_id: scope.session_id.clone(),
                async_id: task.async_id.clone(),
                executor: task.executor.clone(),
            }
        };
        Step::Ask(ExbashStage::PruneRemove { ex, message, task, rest, removed }, action)
    } else if removed.len() == 0 {
        Step::Done(Err(JsonRpcError::invalid_params(message.as_str())))
    } else {
        let action = check(scope, &ex);
        let count: usize = removed.len();
        let report = JsonObject::new().with("scope", Json::Str(ex.tracking_scope.clone())).with(
            "reason",
            Json::str("exbashStorageWriteRejected"),
        ).with("message", Json::Str(message)).with("removedCount", Json::Int(count as i128)).with(
            "removed",
            Json::array(removed),
        );
        Step::Ask(ExbashStage::CheckAgain { ex, cleanup: Json::Object(report) }, action)
    }
}

/// A host that has no room is asked for its tasks; any other refusal is the answer.
pub open spec fn refused_step(
    scope: CallScopeView,
    ex: ExbashCallView,
    message: Seq<char>,
) -> ExbashStepView {
    if tells_storage_rejection(message) {
        StepView::Ask(
            ExbashStageView::PruneList { ex, message },
            if in_workspace(ex) {
                ActionView::ListWorkdir {
                    session_id: scope.session_id,
                    workdir: scope.workdir,
                    executor: None,
                }
            } else {
                ActionView::ListSession { session_id: scope.session_id, executor: None }
            },
        )
    } else {
        StepView::Done(Err(bad_params(message)))
    }
}

fn refused(scope: &CallScope, ex: ExbashCall, message: String) -> (r: ExbashStep)
    ensures
        exbash_step_view(r) == refused_step(scope@, ex@, message@),
{
    if exbash_error_indicates_storage_rejection(message.as_str()) {
        let action = if is_in_workspace(&ex) {
            Action::ListWorkdir {
                session_id: scope.session_id.clone(),
                workdir: scope.workdir.clone(),
                executor: None,
            }
        } else {
            Action::ListSession { session_id: scope.session_id.clone(), executor: None }
        };
        Step::Ask(ExbashStage::PruneList { ex, message }, action)
    } else {
        Step::Done(Err(JsonRpcError::invalid_params(message.as_str())))
    }
}

// ---------------------------------------------------------------------------
// Steps
// ---------------------------------------------------------------------------

/// What a call asks for.
pub open spec fn exbash_call(arguments: JsonView) -> ExbashCallView {
    let mode = asked_mode(arguments);
    let a = with_default(arguments, "mode"@, mode);
    ExbashCallView {
        mode,
        tracking_scope: asked_scope(arguments),
        arguments: a,
        async_id: filled_field(a, "asyncID"@),
        executor: or_text(requested_executor(a), "local"@),
        description: filled_field(a, "description"@),
    }
}

/// The first step of a call in a mode other than `list`.
pub open spec fn exbash_begin(scope: CallScopeView, arguments: JsonView) -> ExbashStepView {
    let ex = exbash_call(arguments);
    if !is_scope(ex.tracking_scope) {
        StepView::Done(Err(bad_scope(ex.tracking_scope)))
    } else if ex.tracking_scope == "remote"@ {
        StepView::Done(Err(bad_params("scope=remote is only supported for exbash mode=list"@)))
    } else if creates_task(asked_mode(ex.arguments)) {
        StepView::Ask(ExbashStageView::Check { ex }, check_action(scope, ex))
    } else {
        run_step(scope, ex, None)
    }
}

pub fn begin_exbash(scope: &CallScope, arguments: Json) -> (r: ExbashStep)
    ensures
        exbash_step_view(r) == exbash_begin(scope@, arguments@),
{
    let mode = read_mode(&arguments);
    let tracking_scope = match extract_exbash_scope(&arguments) {
        Ok(s) => s,
        Err(e) => {
            return Step::Done(Err(e));
        },
    };
    if same(tracking_scope.as_str(), "remote") {
        return Step::Done(
            Err(
                JsonRpcError::invalid_params("scope=remote is only supported for exbash mode=list"),
            ),
        );
    }
    let a = fill_in(arguments, "mode", mode.as_str());
    let async_id = optional_string_field(&a, "asyncID");
    let executor = match read_requested_executor(&a) {
        Some(e) => e,
        None => "local".to_owned(),
    };
    let description = optional_string_field(&a, "description");
    let creates = exbash_mode_creates_task(read_mode(&a).as_str());
    let ex = ExbashCall { mode, tracking_scope, arguments: a, async_id, executor, description };
    if creates {
        let action = check(scope, &ex);
        Step::Ask(ExbashStage::Check { ex }, action)
    } else {
        run(scope, ex, None)
    }
}

/// The step that follows an event at the time `now`.
pub open spec fn exbash_next(
    stage: ExbashStageView,
    scope: CallScopeView,
    event: EventView,
    now: i64,
) -> ExbashStepView {
    match stage {
        ExbashStageView::Check { ex } => match event {
            EventView::Done(Ok(_)) => run_step(scope, ex, None),
            EventView::Done(Err(message)) => refused_step(scope, ex, message),
            _ => StepView::Done(Err(unexpected())),
        },
        ExbashStageView::PruneList { ex, message } => match event {
            EventView::Tasks(Ok(tasks)) => prune_step(
                scope,
                ex,
                message,
                candidates(tasks),
                Seq::empty(),
            ),
            EventView::Tasks(Err(e)) => StepView::Done(Err(failure(e))),
            _ => StepView::Done(Err(unexpected())),
        },
        ExbashStageView::PruneRemove { ex, message, task, rest, removed } => match event {
            EventView::Removed(Ok(gone)) => prune_step(
                scope,
                ex,
                message,
                rest,
                if gone {
                    removed.push(pruned_report(task))
                } else {
                    removed
                },
            ),
            EventView::Removed(Err(e)) => StepView::Done(Err(failure(e))),
            _ => StepView::Done(Err(unexpected())),
        },
        ExbashStageView::CheckAgain { ex, cleanup } => match event {
            EventView::Done(Ok(_)) => run_step(scope, ex, Some(cleanup)),
            EventView::Done(Err(message)) => StepView::Done(Err(bad_params(message))),
            _ => StepView::Done(Err(unexpected())),
        },
        ExbashStageView::Run { call, ex, cleanup } => match exec_next(call, scope, event) {
            StepView::Ask(call, action) => StepView::Ask(
                ExbashStageView::Run { call, ex, cleanup },
                action,
            ),
            StepView::Done(Ok(result)) => ran_step(scope, ex, cleanup, result),
            StepView::Done(Err(e)) => failed_step(scope, ex, e),
        },
        ExbashStageView::Upsert { ex, value } => match event {
            EventView::Snapshot(Ok(snapshot)) => upserted_step(scope, ex, value, snapshot),
            EventView::Snapshot(Err(message)) => settle_step(
                scope,
                ex,
                noted(value, "hostWarning"@, write_warning(message)),
            ),
            _ => StepView::Done(Err(unexpected())),
        },
        ExbashStageView::Watch { ex, value } => StepView::Done(exbash_answer(ex, value)),
        ExbashStageView::RemoveFirst { ex, removal, async_id, executor } => match event {
            EventView::Removed(Ok(local_removed)) => StepView::Ask(
                ExbashStageView::RemoveSecond { ex, removal, async_id, executor, local_removed },
                ActionView::RemoveWorkdir {
                    session_id: scope.session_id,
                    workdir: scope.workdir,
                    async_id,
                    executor,
                },
            ),
            EventView::Removed(Err(e)) => StepView::Done(Err(failure(e))),
            _ => StepView::Done(Err(unexpected())),
        },
        ExbashStageView::RemoveSecond { ex, removal, async_id, executor, local_removed } => {
            match event {
                EventView::Removed(Ok(gone)) => StepView::Done(
                    removed_answer(
                        ex,
                        removal,
                        async_id,
                        executor,
                        removal_report(async_id, executor, local_removed, gone),
                    ),
                ),
                EventView::Removed(Err(e)) => StepView::Done(Err(failure(e))),
                _ => StepView::Done(Err(unexpected())),
            }
        },
        ExbashStageView::FirstLookup { ex, value, async_id, executor } => match event {
            EventView::Lookup(Ok(Some(existing))) => StepView::Ask(
                ExbashStageView::FirstUpsert { ex, value, async_id, executor },
                ActionView::UpsertSession {
                    session_id: scope.session_id,
                    input: input_after(existing, value, ex.mode, now),
                },
            ),
            EventView::Lookup(Ok(None)) => second_lookup(
                scope,
                ex,
                value,
                async_id,
                executor,
                Seq::empty(),
            ),
            EventView::Lookup(Err(e)) => StepView::Done(Err(failure(e))),
            _ => StepView::Done(Err(unexpected())),
        },
        ExbashStageView::FirstUpsert { ex, value, async_id, executor } => match event {
            EventView::Snapshot(Ok(s)) => second_lookup(
                scope,
                ex,
                value,
                async_id,
                executor,
                seq![s],
            ),
            EventView::Snapshot(Err(e)) => StepView::Done(Err(failure(e))),
            _ => StepView::Done(Err(unexpected())),
        },
        ExbashStageView::SecondLookup { ex, value, snapshots } => match event {
            EventView::Lookup(Ok(Some(existing))) => StepView::Ask(
                ExbashStageView::SecondUpsert { ex, value, snapshots },
                ActionView::UpsertWorkdir {
                    session_id: scope.session_id,
                    workdir: scope.workdir,
                    input: input_after(existing, value, ex.mode, now),
                },
            ),
            EventView::Lookup(Ok(None)) => StepView::Done(recorded_answer(ex, value, snapshots)),
            EventView::Lookup(Err(e)) => StepView::Done(Err(failure(e))),
            _ => StepView::Done(Err(unexpected())),
        },
        ExbashStageView::SecondUpsert { ex, value, snapshots } => match event {
            EventView::Snapshot(Ok(s)) => StepView::Done(
                recorded_answer(ex, value, snapshots.push(s)),
            ),
            EventView::Snapshot(Err(e)) => StepView::Done(Err(failure(e))),
            _ => StepView::Done(Err(unexpected())),
        },
    }
}

/// After the session, the workspace is asked what it keeps of the task.
pub open spec fn second_lookup(
    scope: CallScopeView,
    ex: ExbashCallView,
    value: JsonView,
    async_id: Seq<char>,
    executor: Seq<char>,
    snapshots: Seq<ExbashTaskSnapshotView>,
) -> ExbashStepView {
    StepView::Ask(
        ExbashStageView::SecondLookup { ex, value, snapshots },
        ActionView::WorkdirSnapshot {
            session_id: scope.session_id,
            workdir: scope.workdir,
            async_id,
            executor,
        },
    )
}

fn look_up_second(
    scope: &CallScope,
    ex: ExbashCall,
    value: Json,
    async_id: String,
    executor: String,
    snapshots: Vec<ExbashTaskSnapshot>,
) -> (r: ExbashStep)
    ensures
        exbash_step_view(r) == second_lookup(
            scope@,
            ex@,
            value@,
            async_id@,
            executor@,
            snapshot_views(snapshots@),
        ),
{
    Step::Ask(
        ExbashStage::SecondLookup { ex, value, snapshots },
        Action::WorkdirSnapshot {
            session_id: scope.session_id.clone(),
            workdir: scope.workdir.clone(),
            async_id,
            executor,
        },
    )
}

fn host_failure(e: &str) -> (r: ExbashStep)
    ensures
        exbash_step_view(r) == StepView::<ExbashStageView, AnswerView>::Done(Err(failure(e@))),
{
    Step::Done(Err(JsonRpcError::internal(e)))
}

impl ExbashStage {
    /// The step that follows an event at the time `now`, in milliseconds.
    #[verifier::rlimit(50)]
    pub fn next(self, scope: &CallScope, event: Event, now: i64) -> (r: ExbashStep)
        ensures
            exbash_step_view(r) == exbash_next(self@, scope@, event@, now),
    {
        match self {
            ExbashStage::Check { ex } => match event {
                Event::Done(Ok(_)) => run(scope, ex, None),
                Event::Done(Err(message)) => refused(scope, ex, message),
                _ => Step::Done(Err(unexpected_error())),
            },
            ExbashStage::PruneList { ex, message } => match event {
                Event::Tasks(Ok(tasks)) => {
                    let chosen = find_candidates(&tasks);
                    let none: Vec<Json> = Vec::new();
                    assert(views(none@) =~= Seq::empty());
                    prune(scope, ex, message, chosen, none)
                },
                Event::Tasks(Err(e)) => host_failure(e.as_str()),
                _ => Step::Done(Err(unexpected_error())),
            },
            ExbashStage::PruneRemove { ex, message, task, rest, removed } => match event {
                Event::Removed(Ok(gone)) => {
                    let mut removed = removed;
                    let ghost before = views(removed@);
                    if gone {
                        let report = report_pruned(&task);
                        removed.push(report);
                        assert(views(removed@) =~= before.push(report@));
                    }
                    prune(scope, ex, message, rest, removed)
                },
                Event::Removed(Err(e)) => host_failure(e.as_str()),
                _ => Step::Done(Err(unexpected_error())),
            },
            ExbashStage::CheckAgain { ex, cleanup } => match event {
                Event::Done(Ok(_)) => run(scope, ex, Some(cleanup)),
                Event::Done(Err(message)) => Step::Done(
                    Err(JsonRpcError::invalid_params(message.as_str())),
                ),
                _ => Step::Done(Err(unexpected_error())),
            },
            ExbashStage::Run { call, ex, cleanup } => match call.next(scope, event) {
                Step::Ask(call, action) => Step::Ask(
                    ExbashStage::Run { call, ex, cleanup },
                    action,
                ),
                Step::Done(Ok(result)) => ran(scope, ex, cleanup, result),
                Step::Done(Err(e)) => failed(scope, ex, e),
            },
            ExbashStage::Upsert { ex, value } => match event {
                Event::Snapshot(Ok(snapshot)) => upserted(scope, ex, value, &snapshot),
                Event::Snapshot(Err(message)) => {
                    let warning = JsonObject::new().with(
                        "code",
                        Json::str("hostTrackingWriteFailed"),
                    ).with("message", Json::Str(message));
                    settle(scope, ex, note(value, "hostWarning", Json::Object(warning)))
                },
                _ => Step::Done(Err(unexpected_error())),
            },
            ExbashStage::Watch { ex, value } => Step::Done(finish_exbash(&ex, value)),
            ExbashStage::RemoveFirst { ex, removal, async_id, executor } => match event {
                Event::Removed(Ok(local_removed)) => {
                    let id = async_id.clone();
                    let name = executor.clone();
                    Step::Ask(
                        ExbashStage::RemoveSecond { ex, removal, async_id, executor, local_removed },
                        Action::RemoveWorkdir {
                            session_id: scope.session_id.clone(),
                            workdir: scope.workdir.clone(),
                            async_id: id,
                            executor: name,
                        },
                    )
                },
                Event::Removed(Err(e)) => host_failure(e.as_str()),
                _ => Step::Done(Err(unexpected_error())),
            },
            ExbashStage::RemoveSecond { ex, removal, async_id, executor, local_removed } => {
                match event {
                    Event::Removed(Ok(gone)) => Step::Done(
                        finish_removed(
                            &ex,
                            removal,
                            async_id.as_str(),
                            executor.as_str(),
                            local_removed,
                            gone,
                        ),
                    ),
                    Event::Removed(Err(e)) => host_failure(e.as_str()),
                    _ => Step::Done(Err(unexpected_error())),
                }
            },
            ExbashStage::FirstLookup { ex, value, async_id, executor } => match event {
                Event::Lookup(Ok(Some(existing))) => {
                    let input = exbash_sync_input_from_existing(
                        &existing,
                        &value,
                        ex.mode.as_str(),
                        now,
                    );
                    Step::Ask(
                        ExbashStage::FirstUpsert { ex, value, async_id, executor },
                        Action::UpsertSession { session_id: scope.session_id.clone(), input },
                    )
                },
                Event::Lookup(Ok(None)) => {
                    let none: Vec<ExbashTaskSnapshot> = Vec::new();
                    assert(snapshot_views(none@) =~= Seq::empty());
                    look_up_second(scope, ex, value, async_id, executor, none)
                },
                Event::Lookup(Err(e)) => host_failure(e.as_str()),
                _ => Step::Done(Err(unexpected_error())),
            },
            ExbashStage::FirstUpsert { ex, value, async_id, executor } => match event {
                Event::Snapshot(Ok(s)) => {
                    let mut one: Vec<ExbashTaskSnapshot> = Vec::new();
                    one.push(s);
                    assert(snapshot_views(one@) =~= seq![s@]);
                    look_up_second(scope, ex, value, async_id, executor, one)
                },
                Event::Snapshot(Err(e)) => host_failure(e.as_str()),
                _ => Step::Done(Err(unexpected_error())),
            },
            ExbashStage::SecondLookup { ex, value, snapshots } => match event {
                Event::Lookup(Ok(Some(existing))) => {
                    let input = exbash_sync_input_from_existing(
                        &existing,
                        &value,
                        ex.mode.as_str(),
                        now,
                    );
                    Step::Ask(
                        ExbashStage::SecondUpsert { ex, value, snapshots },
                        Action::UpsertWorkdir {
                            session_id: scope.session_id.clone(),
                            workdir: scope.workdir.clone(),
                            input,
                        },
                    )
                },
                Event::Lookup(Ok(None)) => Step::Done(finish_recorded(&ex, value, &snapshots)),
                Event::Lookup(Err(e)) => host_failure(e.as_str()),
                _ => Step::Done(Err(unexpected_error())),
            },
            ExbashStage::SecondUpsert { ex, value, snapshots } => match event {
                Event::Snapshot(Ok(s)) => {
                    let mut all = snapshots;
                    let ghost before = snapshot_views(all@);
                    all.push(s);
                    assert(snapshot_views(all@) =~= before.push(s@));
                    Step::Done(finish_recorded(&ex, value, &all))
                },
                Event::Snapshot(Err(e)) => host_failure(e.as_str()),
                _ => Step::Done(Err(unexpected_error())),
            },
        }
    }
}

// ---------------------------------------------------------------------------
// The end of a task that was watched
// ---------------------------------------------------------------------------

/// The question what is kept of a watched task.
pub open spec fn ended_lookup(
    scope: CallScopeView,
    tracking_scope: Seq<char>,
    async_id: Seq<char>,
) -> ActionView {
    if tracking_scope == "workspace"@ {
        ActionView::WorkdirSnapshot {
            session_id: scope.session_id,
            workdir: scope.workdir,
            async_id,
            executor: "local"@,
        }
    } else {
        ActionView::SessionSnapshot { session_id: scope.session_id, async_id, executor: "local"@ }
    }
}

pub fn look_up_ended(scope: &CallScope, tracking_scope: &str, async_id: &str) -> (r: Action)
    ensures
        r@ == ended_lookup(scope@, tracking_scope@, async_id@),
{
    if same(tracking_scope, "workspace") {
        Action::WorkdirSnapshot {
            session_id: scope.session_id.clone(),
            workdir: scope.workdir.clone(),
            async_id: async_id.to_owned(),
            executor: "local".to_owned(),
        }
    } else {
        Action::SessionSnapshot {
            session_id: scope.session_id.clone(),
            async_id: async_id.to_owned(),
            executor: "local".to_owned(),
        }
    }
}

/// The record of the end of a watched task: only where it is still kept as running.
pub open spec fn ended_update(
    scope: CallScopeView,
    tracking_scope: Seq<char>,
    existing: Option<ExbashTaskSnapshotView>,
    result: JsonView,
    now: i64,
) -> Option<ActionView> {
    match existing {
        Some(existing) => if existing.state == Some("running"@) {
            let input = input_after(existing, result, "event"@, now);
            if tracking_scope == "workspace"@ {
                Some(
                    ActionView::UpsertWorkdir {
                        session_id: scope.session_id,
                        workdir: scope.workdir,
                        input,
                    },
                )
            } else {
                Some(ActionView::UpsertSession { session_id: scope.session_id, input })
            }
        } else {
            None
        },
        None => None,
    }
}

pub open spec fn opt_action(a: Option<Action>) -> Option<ActionView> {
    match a {
        Some(a) => Some(a@),
        None => None,
    }
}

pub fn record_ended(
    scope: &CallScope,
    tracking_scope: &str,
    existing: &Option<ExbashTaskSnapshot>,
    result: &Json,
    now: i64,
) -> (r: Option<Action>)
    ensures
        opt_action(r) == ended_update(
            scope@,
            tracking_scope@,
            crate::calls::opt_snapshot(*existing),
            result@,
            now,
        ),
{
    match existing {
        Some(existing) => {
            let running = match &existing.state {
                Some(s) => same(s.as_str(), "running"),
                None => false,
            };
            if !running {
                return None;
            }
            let input = exbash_sync_input_from_existing(existing, result, "event", now);
            if same(tracking_scope, "workspace") {
                Some(
                    Action::UpsertWorkdir {
                        session_id: scope.session_id.clone(),
                        workdir: scope.workdir.clone(),
                        input,
                    },
                )
            } else {
                Some(Action::UpsertSession { session_id: scope.session_id.clone(), input })
            }
        },
        None => None,
    }
}

} // verus!
