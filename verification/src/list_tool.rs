//! Listing the shell tasks.

use vstd::prelude::*;

use crate::args::asked_scope;
use crate::args::bad_scope;
use crate::args::extract_exbash_scope;
use crate::args::is_scope;
use crate::args::read_requested_executor;
use crate::args::requested_executor;
use crate::args::CallScope;
use crate::args::CallScopeView;
use crate::calls::answer_view;
use crate::calls::exec_begin;
use crate::calls::exec_next;
use crate::calls::unexpected;
use crate::calls::unexpected_error;
use crate::calls::Action;
use crate::calls::ActionView;
use crate::calls::Answer;
use crate::calls::AnswerView;
use crate::calls::Event;
use crate::calls::EventView;
use crate::calls::ExecCall;
use crate::calls::ExecCallView;
use crate::calls::Step;
use crate::calls::StepView;
use crate::exbash::exbash_list_header;
use crate::exbash::format_exbash_task;
use crate::exbash::format_remote_exbash_run;
use crate::exbash::list_header;
use crate::exbash::remote_exbash_runs;
use crate::exbash::reported_runs;
use crate::exbash::run_line;
use crate::exbash::sort_exbash_tasks;
use crate::exbash::sorted_tasks;
use crate::exbash::task_line;
use crate::exbash::task_names;
use crate::exbash::tracked_async_ids;
use crate::exbash::untracked;
use crate::exbash::untracked_runs;
use crate::fields::or_text;
use crate::json::views;
use crate::json::Json;
use crate::json::JsonObject;
use crate::json::JsonView;
use crate::jsonrpc::bad_params;
use crate::jsonrpc::failure;
use crate::jsonrpc::JsonRpcError;
use crate::mcp::text_answer;
use crate::mcp::text_result;
use crate::number::decimal;
use crate::number::write_decimal;
use crate::text::cat5;
use crate::text::join;
use crate::text::joined;
use crate::text::opt_text;
use crate::text::same;
use crate::text::texts;
use crate::types::copy_opt;
use crate::types::snapshot_views;
use crate::types::snapshots_json;
use crate::types::snapshots_to_json;
use crate::types::ExbashTaskSnapshot;
use crate::types::ExbashTaskSnapshotView;

verus! {

/// Where a list stands: the tasks of the session and of the workspace are read, then the
/// tasks of a remote executor, to show or to count those that are not known here.
#[derive(Debug)]
pub enum ListStage {
    Session { list_scope: String, filter: Option<String> },
    Workdir { list_scope: String, filter: Option<String>, local: Vec<ExbashTaskSnapshot> },
    Remote {
        call: ExecCall,
        executor: String,
        local: Vec<ExbashTaskSnapshot>,
        workspace: Vec<ExbashTaskSnapshot>,
    },
    Count {
        call: ExecCall,
        list_scope: String,
        executor: String,
        local: Vec<ExbashTaskSnapshot>,
        workspace: Vec<ExbashTaskSnapshot>,
    },
}

#[verifier::ext_equal]
pub ghost enum ListStageView {
    Session { list_scope: Seq<char>, filter: Option<Seq<char>> },
    Workdir {
        list_scope: Seq<char>,
        filter: Option<Seq<char>>,
        local: Seq<ExbashTaskSnapshotView>,
    },
    Remote {
        call: ExecCallView,
        executor: Seq<char>,
        local: Seq<ExbashTaskSnapshotView>,
        workspace: Seq<ExbashTaskSnapshotView>,
    },
    Count {
        call: ExecCallView,
        list_scope: Seq<char>,
        executor: Seq<char>,
        local: Seq<ExbashTaskSnapshotView>,
        workspace: Seq<ExbashTaskSnapshotView>,
    },
}

impl ListStage {
    pub open spec fn view(&self) -> ListStageView {
        match self {
            ListStage::Session { list_scope, filter } => ListStageView::Session {
                list_scope: list_scope@,
                filter: opt_text(*filter),
            },
            ListStage::Workdir { list_scope, filter, local } => ListStageView::Workdir {
                list_scope: list_scope@,
                filter: opt_text(*filter),
                local: snapshot_views(local@),
            },
            ListStage::Remote { call, executor, local, workspace } => ListStageView::Remote {
                call: call@,
                executor: executor@,
                local: snapshot_views(local@),
                workspace: snapshot_views(workspace@),
            },
            ListStage::Count { call, list_scope, executor, local, workspace } => ListStageView::Count {
                call: call@,
                list_scope: list_scope@,
                executor: executor@,
                local: snapshot_views(local@),
                workspace: snapshot_views(workspace@),
            },
        }
    }
}

pub type ListStep = Step<ListStage, Answer>;

pub type ListStepView = StepView<ListStageView, AnswerView>;

pub open spec fn list_step_view(s: ListStep) -> ListStepView {
    match s {
        Step::Ask(stage, a) => StepView::Ask(stage@, a@),
        Step::Done(r) => StepView::Done(answer_view(r)),
    }
}

// ---------------------------------------------------------------------------
// Answers
// ---------------------------------------------------------------------------

/// The lines of some entries, or a line that there are none.
pub open spec fn entry_lines(lines: Seq<Seq<char>>) -> Seq<Seq<char>> {
    if lines.len() == 0 {
        seq!["- none"@]
    } else {
        lines
    }
}

pub open spec fn task_lines(tasks: Seq<ExbashTaskSnapshotView>) -> Seq<Seq<char>> {
    tasks.map_values(|t: ExbashTaskSnapshotView| task_line(t))
}

pub open spec fn run_lines(runs: Seq<JsonView>) -> Seq<Seq<char>> {
    runs.map_values(|r: JsonView| run_line(r))
}

fn add_task_lines(head: Vec<String>, tasks: &Vec<ExbashTaskSnapshot>) -> (r: Vec<String>)
    ensures
        texts(r@) == texts(head@) + entry_lines(task_lines(snapshot_views(tasks@))),
{
    let mut r = head;
    let ghost first = texts(head@);
    if tasks.len() == 0 {
        r.push("- none".to_owned());
        assert(texts(r@) =~= first + seq!["- none"@]);
        return r;
    }
    let ghost tail = task_lines(snapshot_views(tasks@));
    let mut i: usize = 0;
    assert(first =~= first + tail.take(0));
    while i < tasks.len()
        invariant
            i <= tasks@.len(),
            tail == task_lines(snapshot_views(tasks@)),
            texts(r@) == first + tail.take(i as int),
        decreases tasks.len() - i,
    {
        let line = format_exbash_task(&tasks[i]);
        let ghost before = texts(r@);
        assert(tail[i as int] == line@);
        r.push(line);
        assert(texts(r@) =~= before.push(line@));
        i = i + 1;
        assert(first + tail.take(i as int) =~= before.push(line@));
    }
    assert(tail.take(i as int) =~= tail);
    r
}

fn add_run_lines(head: Vec<String>, runs: &Vec<Json>) -> (r: Vec<String>)
    ensures
        texts(r@) == texts(head@) + entry_lines(run_lines(views(runs@))),
{
    let mut r = head;
    let ghost first = texts(head@);
    if runs.len() == 0 {
        r.push("- none".to_owned());
        assert(texts(r@) =~= first + seq!["- none"@]);
        return r;
    }
    let ghost tail = run_lines(views(runs@));
    let mut i: usize = 0;
    assert(first =~= first + tail.take(0));
    while i < runs.len()
        invariant
            i <= runs@.len(),
            tail == run_lines(views(runs@)),
            texts(r@) == first + tail.take(i as int),
        decreases runs.len() - i,
    {
        let line = format_remote_exbash_run(&runs[i]);
        let ghost before = texts(r@);
        assert(tail[i as int] == line@);
        r.push(line);
        assert(texts(r@) =~= before.push(line@));
        i = i + 1;
        assert(first + tail.take(i as int) =~= before.push(line@));
    }
    assert(tail.take(i as int) =~= tail);
    r
}

/// The reported tasks of an executor that neither the session nor the workspace knows.
pub open spec fn unknown_runs(
    remote: JsonView,
    executor: Seq<char>,
    local: Seq<ExbashTaskSnapshotView>,
    workspace: Seq<ExbashTaskSnapshotView>,
) -> Seq<JsonView> {
    untracked(reported_runs(remote), task_names(local) + task_names(workspace), executor)
}

fn find_unknown_runs(
    remote: &Json,
    executor: &str,
    local: &Vec<ExbashTaskSnapshot>,
    workspace: &Vec<ExbashTaskSnapshot>,
) -> (r: Vec<Json>)
    ensures
        views(r@) == unknown_runs(
            remote@,
            executor@,
            snapshot_views(local@),
            snapshot_views(workspace@),
        ),
{
    let runs = remote_exbash_runs(remote);
    let names = tracked_async_ids(local, workspace);
    untracked_runs(&runs, &names, executor)
}

/// The answer for the scope `remote`.
pub open spec fn remote_answer(
    executor: Seq<char>,
    local: Seq<ExbashTaskSnapshotView>,
    workspace: Seq<ExbashTaskSnapshotView>,
    remote: JsonView,
) -> AnswerView {
    let runs = unknown_runs(remote, executor, local, workspace);
    let lines = list_header(
        local.len() as int,
        workspace.len() as int,
        executor,
        "remote"@,
    ) + entry_lines(run_lines(runs));
    Ok(
        text_answer(
            joined(lines, "\n"@),
            Some(
                JsonView::Obj(
                    map![
                        "metadata"@ => JsonView::Obj(
                            map![
                                "scope"@ => JsonView::Str("remote"@),
                                "executor"@ => JsonView::Str(executor),
                                "localCount"@ => JsonView::Int(local.len() as int),
                                "workspaceCount"@ => JsonView::Int(workspace.len() as int),
                                "remoteUntracked"@ => JsonView::Arr(runs),
                            ],
                        ),
                    ],
                ),
            ),
        ),
    )
}

/// The answer for the scope `remote`, once the executor has reported its tasks.
pub fn answer_remote(
    executor: &str,
    local: &Vec<ExbashTaskSnapshot>,
    workspace: &Vec<ExbashTaskSnapshot>,
    remote: &Json,
) -> (r: Answer)
    ensures
        answer_view(r) == remote_answer(
            executor@,
            snapshot_views(local@),
            snapshot_views(workspace@),
            remote@,
        ),
{
    let runs = find_unknown_runs(remote, executor, local, workspace);
    let head = exbash_list_header(local.len(), workspace.len(), executor, "remote");
    let lines = add_run_lines(head, &runs);
    let text = join(&lines, "\n");
    let metadata = JsonObject::new().with("scope", Json::str("remote")).with(
        "executor",
        Json::str(executor),
    ).with("localCount", Json::Int(local.len() as i128)).with(
        "workspaceCount",
        Json::Int(workspace.len() as i128),
    ).with("remoteUntracked", Json::array(runs));
    let structured = JsonObject::new().with("metadata", Json::Object(metadata));
    Ok(text_result(text.as_str(), Some(Json::Object(structured))))
}

/// The hint that an executor has tasks that are not known here.
pub open spec fn hint_line(executor: Seq<char>, count: int) -> Seq<char> {
    "executor="@ + executor + " has "@ + decimal(count)
        + " untracked task(s) (use scope=remote to see)"@
}

/// The tasks that a scope shows.
pub open spec fn visible(
    list_scope: Seq<char>,
    local: Seq<ExbashTaskSnapshotView>,
    workspace: Seq<ExbashTaskSnapshotView>,
) -> Seq<ExbashTaskSnapshotView> {
    if list_scope == "workspace"@ {
        workspace
    } else {
        local
    }
}

/// The answer for the scopes `local` and `workspace`; `unknown` is the number of tasks
/// that only the executor knows, where it could be asked.
pub open spec fn list_answer(
    list_scope: Seq<char>,
    filter: Option<Seq<char>>,
    local: Seq<ExbashTaskSnapshotView>,
    workspace: Seq<ExbashTaskSnapshotView>,
    unknown: Option<int>,
) -> AnswerView {
    let executor = or_text(filter, "all"@);
    let tasks = visible(list_scope, local, workspace);
    let lines = list_header(
        local.len() as int,
        workspace.len() as int,
        executor,
        list_scope,
    ) + entry_lines(task_lines(tasks));
    let lines = match unknown {
        Some(n) => if n > 0 {
            lines.push(hint_line(executor, n))
        } else {
            lines
        },
        None => lines,
    };
    Ok(
        text_answer(
            joined(lines, "\n"@),
            Some(
                JsonView::Obj(
                    map![
                        "metadata"@ => JsonView::Obj(
                            map![
                                "scope"@ => JsonView::Str(list_scope),
                                "executor"@ => JsonView::Str(executor),
                                "localCount"@ => JsonView::Int(local.len() as int),
                                "workspaceCount"@ => JsonView::Int(workspace.len() as int),
                                "remoteUntrackedCount"@ => match unknown {
                                    Some(n) => JsonView::Int(n),
                                    None => JsonView::Null,
                                },
                                "tasks"@ => snapshots_json(tasks),
                            ],
                        ),
                    ],
                ),
            ),
        ),
    )
}

pub open spec fn opt_count(n: Option<usize>) -> Option<int> {
    match n {
        Some(n) => Some(n as int),
        None => None,
    }
}

/// The answer for the scopes `local` and `workspace`.
pub fn answer_list(
    list_scope: &str,
    filter: &Option<String>,
    local: &Vec<ExbashTaskSnapshot>,
    workspace: &Vec<ExbashTaskSnapshot>,
    unknown: Option<usize>,
) -> (r: Answer)
    ensures
        answer_view(r) == list_answer(
            list_scope@,
            opt_text(*filter),
            snapshot_views(local@),
            snapshot_views(workspace@),
            opt_count(unknown),
        ),
{
    let executor = match filter {
        Some(e) => e.as_str(),
        None => "all",
    };
    let tasks = if same(list_scope, "workspace") {
        workspace
    } else {
        local
    };
    let head = exbash_list_header(local.len(), workspace.len(), executor, list_scope);
    let mut lines = add_task_lines(head, tasks);
    let ghost base = texts(lines@);
    let count = match unknown {
        Some(n) => {
            if n > 0 {
                let number = write_decimal(n as i128);
                let hint = cat5(
                    "executor=",
                    executor,
                    " has ",
                    number.as_str(),
                    " untracked task(s) (use scope=remote to see)",
                );
                lines.push(hint);
                assert(texts(lines@) =~= base.push(hint@));
            }
            Json::Int(n as i128)
        },
        None => Json::Null,
    };
    let text = join(&lines, "\n");
    let metadata = JsonObject::new().with("scope", Json::str(list_scope)).with(
        "executor",
        Json::str(executor),
    ).with("localCount", Json::Int(local.len() as i128)).with(
        "workspaceCount",
        Json::Int(workspace.len() as i128),
    ).with("remoteUntrackedCount", count).with("tasks", snapshots_to_json(tasks));
    let structured = JsonObject::new().with("metadata", Json::Object(metadata));
    Ok(text_result(text.as_str(), Some(Json::Object(structured))))
}

// ---------------------------------------------------------------------------
// Steps
// ---------------------------------------------------------------------------

/// The arguments with which an executor is asked for its tasks.
pub open spec fn list_arguments(executor: Seq<char>) -> JsonView {
    JsonView::Obj(
        map!["mode"@ => JsonView::Str("list"@), "executor"@ => JsonView::Str(executor)],
    )
}

fn write_list_arguments(executor: &str) -> (r: Json)
    ensures
        r@ == list_arguments(executor@),
{
    Json::Object(
        JsonObject::new().with("mode", Json::str("list")).with("executor", Json::str(executor)),
    )
}

pub open spec fn list_begin(scope: CallScopeView, arguments: JsonView) -> ListStepView {
    let list_scope = asked_scope(arguments);
    if is_scope(list_scope) {
        let filter = requested_executor(arguments);
        StepView::Ask(
            ListStageView::Session { list_scope, filter },
            ActionView::ListSession { session_id: scope.session_id, executor: filter },
        )
    } else {
        StepView::Done(Err(bad_scope(list_scope)))
    }
}

pub fn begin_list(scope: &CallScope, arguments: &Json) -> (r: ListStep)
    ensures
        list_step_view(r) == list_begin(scope@, arguments@),
{
    match extract_exbash_scope(arguments) {
        Ok(list_scope) => {
            let filter = read_requested_executor(arguments);
            let executor = copy_opt(&filter);
            Step::Ask(
                ListStage::Session { list_scope, filter },
                Action::ListSession { session_id: scope.session_id.clone(), executor },
            )
        },
        Err(e) => Step::Done(Err(e)),
    }
}

/// What follows once both lists, in order, are at hand.
pub open spec fn listed_step(
    scope: CallScopeView,
    list_scope: Seq<char>,
    filter: Option<Seq<char>>,
    local: Seq<ExbashTaskSnapshotView>,
    workspace: Seq<ExbashTaskSnapshotView>,
) -> ListStepView {
    if list_scope == "remote"@ {
        match filter {
            None => StepView::Done(Err(bad_params("scope=remote requires executor"@))),
            Some(executor) => if executor == "local"@ {
                StepView::Done(Err(bad_params("scope=remote requires a remote executor"@)))
            } else {
                let (call, action) = exec_begin(scope, "exbash"@, list_arguments(executor));
                StepView::Ask(ListStageView::Remote { call, executor, local, workspace }, action)
            },
        }
    } else {
        match filter {
            Some(executor) => if executor != "local"@ {
                let (call, action) = exec_begin(scope, "exbash"@, list_arguments(executor));
                StepView::Ask(
                    ListStageView::Count { call, list_scope, executor, local, workspace },
                    action,
                )
            } else {
                StepView::Done(list_answer(list_scope, filter, local, workspace, None))
            },
            None => StepView::Done(list_answer(list_scope, filter, local, workspace, None)),
        }
    }
}

fn listed(
    scope: &CallScope,
    list_scope: String,
    filter: Option<String>,
    local: Vec<ExbashTaskSnapshot>,
    workspace: Vec<ExbashTaskSnapshot>,
) -> (r: ListStep)
    ensures
        list_step_view(r) == listed_step(
            scope@,
            list_scope@,
            opt_text(filter),
            snapshot_views(local@),
            snapshot_views(workspace@),
        ),
{
    if same(list_scope.as_str(), "remote") {
        match filter {
            None => Step::Done(Err(JsonRpcError::invalid_params("scope=remote requires executor"))),
            Some(executor) => if same(executor.as_str(), "local") {
                Step::Done(
                    Err(JsonRpcError::invalid_params("scope=remote requires a remote executor")),
                )
            } else {
                let (call, action) = ExecCall::begin(
                    scope,
                    "exbash",
                    write_list_arguments(executor.as_str()),
                );
                Step::Ask(ListStage::Remote { call, executor, local, workspace }, action)
            },
        }
    } else {
        match filter {
            Some(executor) => if !same(executor.as_str(), "local") {
                let (call, action) = ExecCall::begin(
                    scope,
                    "exbash",
                    write_list_arguments(executor.as_str()),
                );
                Step::Ask(
                    ListStage::Count { call, list_scope, executor, local, workspace },
                    action,
                )
            } else {
                Step::Done(
                    answer_list(list_scope.as_str(), &Some(executor), &local, &workspace, None),
                )
            },
            None => Step::Done(answer_list(list_scope.as_str(), &None, &local, &workspace, None)),
        }
    }
}

pub open spec fn list_next(
    stage: ListStageView,
    scope: CallScopeView,
    event: EventView,
) -> ListStepView {
    match stage {
        ListStageView::Session { list_scope, filter } => match event {
            EventView::Tasks(Ok(local)) => StepView::Ask(
                ListStageView::Workdir { list_scope, filter, local },
                ActionView::ListWorkdir {
                    session_id: scope.session_id,
                    workdir: scope.workdir,
                    executor: filter,
                },
            ),
            EventView::Tasks(Err(e)) => StepView::Done(Err(failure(e))),
            _ => StepView::Done(Err(unexpected())),
        },
        ListStageView::Workdir { list_scope, filter, local } => match event {
            EventView::Tasks(Ok(workspace)) => listed_step(
                scope,
                list_scope,
                filter,
                sorted_tasks(local),
                sorted_tasks(workspace),
            ),
            EventView::Tasks(Err(e)) => StepView::Done(Err(failure(e))),
            _ => StepView::Done(Err(unexpected())),
        },
        ListStageView::Remote { call, executor, local, workspace } => match exec_next(
            call,
            scope,
            event,
        ) {
            StepView::Ask(call, action) => StepView::Ask(
                ListStageView::Remote { call, executor, local, workspace },
                action,
            ),
            StepView::Done(Ok(remote)) => StepView::Done(
                remote_answer(executor, local, workspace, remote),
            ),
            StepView::Done(Err(e)) => StepView::Done(Err(e)),
        },
        ListStageView::Count { call, list_scope, executor, local, workspace } => match exec_next(
            call,
            scope,
            event,
        ) {
            StepView::Ask(call, action) => StepView::Ask(
                ListStageView::Count { call, list_scope, executor, local, workspace },
                action,
            ),
            StepView::Done(Ok(remote)) => StepView::Done(
                list_answer(
                    list_scope,
                    Some(executor),
                    local,
                    workspace,
                    Some(unknown_runs(remote, executor, local, workspace).len() as int),
                ),
            ),
            StepView::Done(Err(_)) => StepView::Done(
                list_answer(list_scope, Some(executor), local, workspace, None),
            ),
        },
    }
}

impl ListStage {
    /// The step that follows an event.
    pub fn next(self, scope: &CallScope, event: Event) -> (r: ListStep)
        ensures
            list_step_view(r) == list_next(self@, scope@, event@),
    {
        match self {
            ListStage::Session { list_scope, filter } => match event {
                Event::Tasks(Ok(local)) => {
                    let executor = copy_opt(&filter);
                    Step::Ask(
                        ListStage::Workdir { list_scope, filter, local },
                        Action::ListWorkdir {
                            session_id: scope.session_id.clone(),
                            workdir: scope.workdir.clone(),
                            executor,
                        },
                    )
                },
                Event::Tasks(Err(e)) => Step::Done(Err(JsonRpcError::internal(e.as_str()))),
                _ => Step::Done(Err(unexpected_error())),
            },
            ListStage::Workdir { list_scope, filter, local } => match event {
                Event::Tasks(Ok(workspace)) => {
                    let mut local = local;
                    let mut workspace = workspace;
                    sort_exbash_tasks(&mut local);
                    sort_exbash_tasks(&mut workspace);
                    listed(scope, list_scope, filter, local, workspace)
                },
                Event::Tasks(Err(e)) => Step::Done(Err(JsonRpcError::internal(e.as_str()))),
                _ => Step::Done(Err(unexpected_error())),
            },
            ListStage::Remote { call, executor, local, workspace } => match call.next(
                scope,
                event,
            ) {
                Step::Ask(call, action) => Step::Ask(
                    ListStage::Remote { call, executor, local, workspace },
                    action,
                ),
                Step::Done(Ok(remote)) => Step::Done(
                    answer_remote(executor.as_str(), &local, &workspace, &remote),
                ),
                Step::Done(Err(e)) => Step::Done(Err(e)),
            },
            ListStage::Count { call, list_scope, executor, local, workspace } => match call.next(
                scope,
                event,
            ) {
                Step::Ask(call, action) => Step::Ask(
                    ListStage::Count { call, list_scope, executor, local, workspace },
                    action,
                ),
                Step::Done(Ok(remote)) => {
                    let runs = find_unknown_runs(&remote, executor.as_str(), &local, &workspace);
                    let count: usize = runs.len();
                    Step::Done(
                        answer_list(
                            list_scope.as_str(),
                            &Some(executor),
                            &local,
                            &workspace,
                            Some(count),
                        ),
                    )
                },
                Step::Done(Err(_)) => Step::Done(
                    answer_list(list_scope.as_str(), &Some(executor), &local, &workspace, None),
                ),
            },
        }
    }
}

} // verus!
