//! What a call of `exbash` does, from its arguments to its answer.

use vstd::prelude::*;

use crate::args::asked_mode;
use crate::args::routed_executor;
use crate::args::CallScopeView;
use crate::calls::with_route;
use crate::calls::ActionView;
use crate::calls::AnswerView;
use crate::calls::EventView;
use crate::calls::ExecCallView;
use crate::calls::ExecutorReplyView;
use crate::calls::StepView;
use crate::exbash::creates_task;
use crate::exbash::input_after;
use crate::exbash::input_of_new;
use crate::exbash::is_cleanup_candidate;
use crate::exbash::run_text;
use crate::exbash::state_after;
use crate::exbash::tells_lost_connection;
use crate::exbash::tells_missing;
use crate::exbash_tool::candidates;
use crate::exbash_tool::check_action;
use crate::exbash_tool::cleanup_report;
use crate::exbash_tool::ended_lookup;
use crate::exbash_tool::ended_update;
use crate::exbash_tool::exbash_answer;
use crate::exbash_tool::exbash_begin;
use crate::exbash_tool::exbash_call;
use crate::exbash_tool::exbash_next;
use crate::exbash_tool::failed_step;
use crate::exbash_tool::is_watched;
use crate::exbash_tool::lost_answer;
use crate::exbash_tool::noted;
use crate::exbash_tool::planned_input;
use crate::exbash_tool::pruned_report;
use crate::exbash_tool::ran_step;
use crate::exbash_tool::removal_report;
use crate::exbash_tool::run_step;
use crate::exbash_tool::subject;
use crate::exbash_tool::upsert_action;
use crate::exbash_tool::upserted_step;
use crate::exbash_tool::ExbashStageView;
use crate::exbash_tool::ExbashStepView;
use crate::host::ExbashSyncInputView;
use crate::json::plain;
use crate::json::JsonView;
use crate::jsonrpc::failure;
use crate::laws::exbash_at;
use crate::mcp::McpCallResultView;
use crate::number::decimal;
use crate::number::parsed_int;
use crate::text::has_prefix;
use crate::text::has_suffix;
use crate::text::has_text;
use crate::text::joined;
use crate::text::lemma_trimmed_again;
use crate::text::lowered;
use crate::text::trimmed;
use crate::tool_call::as_exbash;
use crate::tool_call::ToolStageView;
use crate::traces::action_at;
use crate::traces::call_at;
use crate::traces::goes_to_executor;
use crate::traces::is_exec_of;
use crate::traces::is_routing;
use crate::traces::lemma_exec_begins;
use crate::traces::lemma_exec_goes_on;
use crate::traces::lemma_exec_requests;
use crate::traces::lemma_routing_names;
use crate::traces::requests;
use crate::traces::CallView;
use crate::types::snapshot_json;
use crate::types::snapshots_json;
use crate::types::ExbashTaskSnapshotView;

verus! {

// ---------------------------------------------------------------------------
// What reaches the executor
// ---------------------------------------------------------------------------

/// The arguments ask for a list of tasks.
pub open spec fn asks_for_list(arguments: JsonView) -> bool {
    arguments.field("mode"@) matches Some(JsonView::Str(m)) && trimmed(m) == "list"@
}

/// The mode is filled in: it is text other than white space.
pub open spec fn has_mode(arguments: JsonView) -> bool {
    arguments.field("mode"@) matches Some(JsonView::Str(m)) && trimmed(m).len() > 0
}

/// The request for a shell task: the executor that the arguments name is asked for `exbash`
/// with every argument as it was given, but for the ones that say where the call goes and
/// where its task is kept; the mode is `shell` where none is given.
pub open spec fn is_task_request(action: ActionView, arguments: JsonView, workdir: Seq<char>) -> bool {
    action matches ActionView::Execute { id, method, executor, params, directory } && {
        &&& method == "exbash"@
        &&& executor is Some
        &&& goes_to_executor(arguments, executor->0)
        &&& forall|key: Seq<char>|
            !is_routing(key) && key != "scope"@ && key != "spoe"@ && key != "mode"@
                ==> #[trigger] params.field(key) == arguments.field(key)
        &&& params.field("mode"@) == if has_mode(arguments) {
            arguments.field("mode"@)
        } else if arguments is Obj {
            Some(JsonView::Str("shell"@))
        } else {
            None
        }
        &&& params.field("scope"@) is None
        &&& params.field("spoe"@) is None
        &&& params.field("ExecutorSessionID"@) is None
        &&& params.field("executor"@) is None
        &&& directory == if executor->0 == "local"@ {
            Some(workdir)
        } else {
            None::<Seq<char>>
        }
    }
}

spec fn run_arguments(arguments: JsonView) -> JsonView {
    exbash_call(arguments).arguments.without("scope"@).without("spoe"@)
}

/// What holds at every step of a call: until the tool has run, the call is the one that was
/// asked for, and what is asked of the executor is what the arguments say.
spec fn runs_what_was_asked(
    step: ExbashStepView,
    scope: CallScopeView,
    arguments: JsonView,
) -> bool {
    match step {
        StepView::Done(_) => true,
        StepView::Ask(stage, action) => match stage {
            ExbashStageView::Check { ex } => ex == exbash_call(arguments) && !(action is Execute),
            ExbashStageView::PruneList { ex, message: _ } => ex == exbash_call(arguments)
                && !(action is Execute),
            ExbashStageView::PruneRemove { ex, message: _, task: _, rest: _, removed: _ } => ex
                == exbash_call(arguments) && !(action is Execute),
            ExbashStageView::CheckAgain { ex, cleanup: _ } => ex == exbash_call(arguments)
                && !(action is Execute),
            ExbashStageView::Run { call, ex, cleanup: _ } => ex == exbash_call(arguments)
                && is_exec_of(call, action, scope, "exbash"@, run_arguments(arguments)),
            _ => !(action is Execute),
        },
    }
}

proof fn lemma_runs_begins(scope: CallScopeView, arguments: JsonView)
    ensures
        runs_what_was_asked(exbash_begin(scope, arguments), scope, arguments),
{
    lemma_exec_begins(scope, "exbash"@, run_arguments(arguments));
}

proof fn lemma_runs_goes_on(
    stage: ExbashStageView,
    action: ActionView,
    scope: CallScopeView,
    arguments: JsonView,
    event: EventView,
    now: i64,
)
    requires
        runs_what_was_asked(StepView::Ask(stage, action), scope, arguments),
    ensures
        runs_what_was_asked(exbash_next(stage, scope, event, now), scope, arguments),
{
    lemma_exec_begins(scope, "exbash"@, run_arguments(arguments));
    if let ExbashStageView::Run { call, ex: _, cleanup: _ } = stage {
        lemma_exec_goes_on(call, action, scope, "exbash"@, run_arguments(arguments), event);
    }
}

proof fn lemma_task_request(
    call: ExecCallView,
    action: ActionView,
    scope: CallScopeView,
    arguments: JsonView,
)
    requires
        is_exec_of(call, action, scope, "exbash"@, run_arguments(arguments)),
        action is Execute,
    ensures
        is_task_request(action, arguments, scope.workdir),
{
    lemma_routing_names();
    lemma_argument_names();
    lemma_exec_requests(call, action, scope, "exbash"@, run_arguments(arguments));
    let a = run_arguments(arguments);
    assert(requests(action, "exbash"@, a, scope.workdir));
    assert forall|key: Seq<char>|
        key != "scope"@ && key != "spoe"@ && key != "mode"@ implies #[trigger] a.field(key)
        == arguments.field(key) by {}
    assert(a.field("mode"@) == exbash_call(arguments).arguments.field("mode"@));
}

proof fn lemma_argument_names()
    ensures
        "mode"@ != "scope"@,
        "mode"@ != "spoe"@,
        "mode"@ != "executor"@,
        "mode"@ != "targetExecutor"@,
        "mode"@ != "ExecutorSessionID"@,
        "scope"@ != "spoe"@,
        "scope"@ != "executor"@,
        "scope"@ != "targetExecutor"@,
        "scope"@ != "ExecutorSessionID"@,
        "spoe"@ != "executor"@,
        "spoe"@ != "targetExecutor"@,
        "spoe"@ != "ExecutorSessionID"@,
        "executor"@ != "targetExecutor"@,
        "executor"@ != "ExecutorSessionID"@,
        "targetExecutor"@ != "ExecutorSessionID"@,
{
    reveal_strlit("mode");
    reveal_strlit("scope");
    reveal_strlit("spoe");
    reveal_strlit("executor");
    reveal_strlit("targetExecutor");
    reveal_strlit("ExecutorSessionID");
    assert("mode"@.len() == 4);
    assert("scope"@.len() == 5);
    assert("spoe"@.len() == 4);
    assert("executor"@.len() == 8);
    assert("targetExecutor"@.len() == 14);
    assert("ExecutorSessionID"@.len() == 17);
    assert("mode"@[0] == 'm' && "spoe"@[0] == 's');
}

/// What holds of a call of `exbash` in any other mode than `list` after `k` events.
spec fn call_runs_what_was_asked(call: CallView, events: Seq<(EventView, i64)>, k: int) -> bool {
    match call_at(call, events, k) {
        StepView::Done(_) => true,
        StepView::Ask(ToolStageView::Workdir { session_id: _, name, arguments }, action) => k == 0
            && name == call.name && arguments == call.arguments && !(action is Execute),
        StepView::Ask(ToolStageView::Exbash { scope, stage }, action) => k >= 1 && (
        events[0].0 matches EventView::Text(Ok(workdir)) && workdir == scope.workdir)
            && runs_what_was_asked(StepView::Ask(stage, action), scope, call.arguments),
        _ => false,
    }
}

proof fn lemma_call_runs(call: CallView, events: Seq<(EventView, i64)>, k: int)
    requires
        k >= 0,
        call.name == "exbash"@,
        !asks_for_list(call.arguments),
    ensures
        call_runs_what_was_asked(call, events, k),
    decreases k,
{
    if k > 0 {
        lemma_call_runs(call, events, k - 1);
        lemma_tool_names();
        let (event, now) = events[k - 1];
        match call_at(call, events, k - 1) {
            StepView::Ask(ToolStageView::Workdir { session_id, name: _, arguments: _ }, _) => {
                if let EventView::Text(Ok(workdir)) = event {
                    lemma_runs_begins(CallScopeView { session_id, workdir }, call.arguments);
                    lemma_mode_names();
                }
            },
            StepView::Ask(ToolStageView::Exbash { scope, stage }, action) => {
                lemma_runs_goes_on(stage, action, scope, call.arguments, event, now);
            },
            _ => {},
        }
    }
}

/// The names of the tools are different.
pub proof fn lemma_tool_names()
    ensures
        "exbash"@ != "FileAction"@,
        "exbash"@ != "read"@,
        "exbash"@ != "skill"@,
        "exbash"@ != "rg"@,
        "exbash"@ != "RemoteExecutorManager"@,
        "FileAction"@ != "read"@,
        "FileAction"@ != "skill"@,
        "FileAction"@ != "rg"@,
        "FileAction"@ != "RemoteExecutorManager"@,
        "read"@ != "skill"@,
        "read"@ != "rg"@,
        "read"@ != "RemoteExecutorManager"@,
        "skill"@ != "rg"@,
        "skill"@ != "RemoteExecutorManager"@,
        "rg"@ != "RemoteExecutorManager"@,
{
    reveal_strlit("exbash");
    reveal_strlit("FileAction");
    reveal_strlit("read");
    reveal_strlit("skill");
    reveal_strlit("rg");
    reveal_strlit("RemoteExecutorManager");
    assert("exbash"@.len() == 6);
    assert("FileAction"@.len() == 10);
    assert("read"@.len() == 4);
    assert("skill"@.len() == 5);
    assert("rg"@.len() == 2);
    assert("RemoteExecutorManager"@.len() == 21);
}

/// The names of the modes are different.
pub proof fn lemma_mode_names()
    ensures
        "list"@ != "shell"@,
        "list"@ != "run"@,
        "list"@ != "stop"@,
        "list"@ != "attach"@,
        "list"@ != "remove"@,
        "shell"@ != "run"@,
        "shell"@ != "stop"@,
        "shell"@ != "attach"@,
        "shell"@ != "remove"@,
        "run"@ != "stop"@,
        "run"@ != "attach"@,
        "run"@ != "remove"@,
        "stop"@ != "attach"@,
        "stop"@ != "remove"@,
        "attach"@ != "remove"@,
{
    reveal_strlit("list");
    reveal_strlit("shell");
    reveal_strlit("run");
    reveal_strlit("stop");
    reveal_strlit("attach");
    reveal_strlit("remove");
    assert("list"@.len() == 4);
    assert("shell"@.len() == 5);
    assert("run"@.len() == 3);
    assert("stop"@.len() == 4);
    assert("attach"@.len() == 6);
    assert("remove"@.len() == 6);
    assert("list"@[0] == 'l' && "stop"@[0] == 's');
    assert("attach"@[0] == 'a' && "remove"@[0] == 'r');
}

/// Whatever a call of `exbash` in another mode than `list` asks of an executor, it is the task
/// that the arguments describe: no argument is lost, added or changed on the way.
pub proof fn law_tasks_run_as_asked(call: CallView, events: Seq<(EventView, i64)>, k: int)
    requires
        call.name == "exbash"@,
        !asks_for_list(call.arguments),
        0 <= k <= events.len(),
        action_at(call, events, k) matches Some(action) && action is Execute,
    ensures
        events[0].0 is Text,
        events[0].0->Text_0 is Ok,
        is_task_request(
            action_at(call, events, k)->0,
            call.arguments,
            events[0].0->Text_0->Ok_0,
        ),
{
    lemma_call_runs(call, events, k);
    if let StepView::Ask(ToolStageView::Exbash { scope, stage }, action) = call_at(
        call,
        events,
        k,
    ) {
        if let ExbashStageView::Run { call: c, ex: _, cleanup: _ } = stage {
            lemma_task_request(c, action, scope, call.arguments);
        }
    }
}

// ---------------------------------------------------------------------------
// From the arguments to the executor
// ---------------------------------------------------------------------------

/// The call is made for the session.
pub open spec fn is_for_session(call: CallView, session_id: Seq<char>) -> bool {
    &&& session_id.len() > 0
    &&& call.context.executor_session_id matches Some(s) && trimmed(s) == session_id
}

/// The text in a member without the white space around it, where something is left.
pub open spec fn text_in(arguments: JsonView, key: Seq<char>) -> Option<Seq<char>> {
    match arguments.field(key) {
        Some(JsonView::Str(s)) => if trimmed(s).len() > 0 {
            Some(trimmed(s))
        } else {
            None
        },
        _ => None,
    }
}

/// Where a task is kept: in the scope that `scope` names, else in the one that `spoe` names,
/// else with the session.
pub open spec fn is_kept_in(arguments: JsonView, scope: Seq<char>) -> bool {
    match (text_in(arguments, "scope"@), text_in(arguments, "spoe"@)) {
        (Some(s), _) => s == scope,
        (None, Some(s)) => s == scope,
        (None, None) => scope == "local"@,
    }
}

/// The arguments ask for a new task: `run`, `shell`, or no mode at all.
pub open spec fn asks_for_task(arguments: JsonView) -> bool {
    match text_in(arguments, "mode"@) {
        Some(m) => m == "run"@ || m == "shell"@,
        None => true,
    }
}

/// The arguments mean the local executor.
pub open spec fn stays_local(arguments: JsonView) -> bool {
    goes_to_executor(arguments, "local"@)
}

/// The first action of a request: the local executor is asked at once, any other is looked
/// up in the workspace first.
pub open spec fn opens_request(action: Option<ActionView>, arguments: JsonView, workdir: Seq<char>) -> bool {
    if stays_local(arguments) {
        action matches Some(a) && is_task_request(a, arguments, workdir)
    } else {
        action == Some(ActionView::ReadConfig { workdir })
    }
}

/// What the host is told of a task that is about to be started.
pub open spec fn announces(input: ExbashSyncInputView, arguments: JsonView) -> bool {
    &&& input.async_id == text_in(arguments, "asyncID"@)
    &&& input.command == text_in(arguments, "command"@)
    &&& input.description == text_in(arguments, "description"@)
    &&& text_in(arguments, "executor"@) is Some ==> input.executor == text_in(
        arguments,
        "executor"@,
    )
}

/// What the arguments ask for, as the steps of the call see it.
proof fn lemma_arguments_read(arguments: JsonView)
    ensures
        creates_task(asked_mode(exbash_call(arguments).arguments)) == asks_for_task(arguments),
        creates_task(exbash_call(arguments).mode) == asks_for_task(arguments),
        forall|s: Seq<char>| #[trigger]
            is_kept_in(arguments, s) <==> exbash_call(arguments).tracking_scope == s,
        planned_input(exbash_call(arguments).arguments).async_id == text_in(
            arguments,
            "asyncID"@,
        ),
        exbash_call(arguments).async_id == text_in(arguments, "asyncID"@),
        exbash_call(arguments).description == text_in(arguments, "description"@),
        announces(planned_input(exbash_call(arguments).arguments), arguments),
        exbash_call(arguments).mode == match text_in(arguments, "mode"@) {
            Some(m) => m,
            None => "shell"@,
        },
        asks_for_list(arguments) <==> asked_mode(arguments) == "list"@,
{
    lemma_mode_names();
    lemma_given_names();
    reveal_strlit("shell");
    reveal_strlit("list");
    assert("list"@.len() == 4);
    assert("shell"@[0] == 's' && "shell"@[4] == 'l' && "shell"@.len() == 5);
    assert(trimmed("shell"@) == "shell"@);
    let a = exbash_call(arguments).arguments;
    assert forall|key: Seq<char>| key != "mode"@ implies #[trigger] a.field(key)
        == arguments.field(key) by {}
}

/// Once its workspace is known, a call goes on as `exbash` does.
proof fn lemma_goes_on_as_exbash(
    call: CallView,
    session_id: Seq<char>,
    workdir: Seq<char>,
    events: Seq<(EventView, i64)>,
    k: int,
)
    requires
        1 <= k <= events.len(),
        call.name == "exbash"@,
        !asks_for_list(call.arguments),
        is_for_session(call, session_id),
        trimmed(workdir).len() > 0,
        events.len() >= 1,
        events[0].0 == EventView::Text(Ok(workdir)),
    ensures
        call_at(call, events, k) == as_exbash(
            CallScopeView { session_id, workdir },
            exbash_at(
                CallScopeView { session_id, workdir },
                call.arguments,
                events.skip(1),
                k - 1,
            ),
        ),
    decreases k,
{
    let scope = CallScopeView { session_id, workdir };
    let later = events.skip(1);
    if k == 1 {
        lemma_tool_names();
        lemma_mode_names();
        reveal_with_fuel(call_at, 2);
    } else {
        lemma_goes_on_as_exbash(call, session_id, workdir, events, k - 1);
        assert(later[k - 2] == events[k - 1]);
    }
}

/// A new task is started: the workspace of the session is asked for, then whether the session
/// or the workspace takes a further task, and once it does the executor is asked to run it.
pub proof fn law_tasks_are_started(
    call: CallView,
    session_id: Seq<char>,
    workdir: Seq<char>,
    times: (i64, i64),
)
    requires
        call.name == "exbash"@,
        is_for_session(call, session_id),
        trimmed(workdir).len() > 0,
        asks_for_task(call.arguments),
        is_kept_in(call.arguments, "local"@) || is_kept_in(call.arguments, "workspace"@),
    ensures
        ({
            let events = seq![
                (EventView::Text(Ok(workdir)), times.0),
                (EventView::Done(Ok(())), times.1),
            ];
            &&& action_at(call, events, 0) == Some(ActionView::SessionWorkdir { session_id })
            &&& is_kept_in(call.arguments, "local"@) ==> (action_at(call, events, 1) matches Some(
                ActionView::CheckSession { session_id: s, input },
            ) && s == session_id && announces(input, call.arguments))
            &&& is_kept_in(call.arguments, "workspace"@) ==> (action_at(
                call,
                events,
                1,
            ) matches Some(ActionView::CheckWorkdir { session_id: s, workdir: w, input }) && s
                == session_id && w == workdir && announces(input, call.arguments)
                && input.session_id == Some(session_id) && input.workdir == Some(workdir))
            &&& opens_request(action_at(call, events, 2), call.arguments, workdir)
        }),
{
    let events = seq![
        (EventView::Text(Ok(workdir)), times.0),
        (EventView::Done(Ok(())), times.1),
    ];
    let arguments = call.arguments;
    let scope = CallScopeView { session_id, workdir };
    let ex = exbash_call(arguments);
    lemma_arguments_read(arguments);
    lemma_scope_names();
    lemma_mode_names();
    lemma_goes_on_as_exbash(call, session_id, workdir, events, 1);
    lemma_goes_on_as_exbash(call, session_id, workdir, events, 2);
    let later = events.skip(1);
    assert(later[0] == events[1]);
    assert(exbash_at(scope, arguments, later, 0) == exbash_begin(scope, arguments));
    assert(is_kept_in(arguments, ex.tracking_scope));
    assert(exbash_begin(scope, arguments) == StepView::<ExbashStageView, AnswerView>::Ask(
        ExbashStageView::Check { ex },
        check_action(scope, ex),
    ));
    assert(exbash_at(scope, arguments, later, 1) == run_step(scope, ex, None));
    lemma_opens(arguments);
    if stays_local(arguments) {
        assert(action_at(call, events, 2) matches Some(a) && a is Execute);
        law_tasks_run_as_asked(call, events, 2);
    }
}

proof fn lemma_opens(arguments: JsonView)
    ensures
        stays_local(arguments) <==> routed_executor(run_arguments(arguments)) == "local"@,
{
    lemma_routing_names();
    lemma_argument_names();
    let a = run_arguments(arguments);
    assert(a.field("executor"@) == arguments.field("executor"@));
    assert(a.field("targetExecutor"@) == arguments.field("targetExecutor"@));
}

/// In any mode but those for a new task and `list`, the executor is asked right away.
pub proof fn law_tasks_are_reached(
    call: CallView,
    session_id: Seq<char>,
    workdir: Seq<char>,
    now: i64,
)
    requires
        call.name == "exbash"@,
        is_for_session(call, session_id),
        trimmed(workdir).len() > 0,
        !asks_for_task(call.arguments),
        !asks_for_list(call.arguments),
        is_kept_in(call.arguments, "local"@) || is_kept_in(call.arguments, "workspace"@),
    ensures
        ({
            let events = seq![(EventView::Text(Ok(workdir)), now)];
            &&& action_at(call, events, 0) == Some(ActionView::SessionWorkdir { session_id })
            &&& opens_request(action_at(call, events, 1), call.arguments, workdir)
        }),
{
    lemma_tool_names();
    lemma_mode_names();
    lemma_scope_names();
    let events = seq![(EventView::Text(Ok(workdir)), now)];
    reveal_with_fuel(call_at, 3);
    lemma_opens(call.arguments);
    if stays_local(call.arguments) {
        assert(action_at(call, events, 1) matches Some(a) && a is Execute);
        law_tasks_run_as_asked(call, events, 1);
    }
}

/// A scope that is none of `local`, `workspace` and `remote` is refused, and so is `remote`
/// for anything but a list; nothing is asked of an executor.
pub proof fn law_scopes_are_checked(
    call: CallView,
    session_id: Seq<char>,
    workdir: Seq<char>,
    now: i64,
)
    requires
        call.name == "exbash"@,
        is_for_session(call, session_id),
        trimmed(workdir).len() > 0,
        !is_kept_in(call.arguments, "local"@) && !is_kept_in(call.arguments, "workspace"@),
        asks_for_list(call.arguments) ==> !is_kept_in(call.arguments, "remote"@),
    ensures
        call_at(call, seq![(EventView::Text(Ok(workdir)), now)], 1) matches StepView::Done(
            Err(e),
        ) && e.code == -32602,
{
    lemma_tool_names();
    lemma_mode_names();
    reveal_with_fuel(call_at, 3);
}

proof fn lemma_given_names()
    ensures
        "mode"@ != "asyncID"@,
        "mode"@ != "command"@,
        "mode"@ != "description"@,
        "mode"@ != "executor"@,
        "mode"@ != "targetExecutor"@,
        "mode"@ != "scope"@,
        "mode"@ != "spoe"@,
        "mode"@ != "workdir"@,
        "asyncID"@ != "command"@,
        "asyncID"@ != "description"@,
        "asyncID"@ != "executor"@,
        "asyncID"@ != "targetExecutor"@,
        "asyncID"@ != "scope"@,
        "asyncID"@ != "spoe"@,
        "asyncID"@ != "workdir"@,
        "command"@ != "description"@,
        "command"@ != "executor"@,
        "command"@ != "targetExecutor"@,
        "command"@ != "scope"@,
        "command"@ != "spoe"@,
        "command"@ != "workdir"@,
        "description"@ != "executor"@,
        "description"@ != "targetExecutor"@,
        "description"@ != "scope"@,
        "description"@ != "spoe"@,
        "description"@ != "workdir"@,
        "executor"@ != "targetExecutor"@,
        "executor"@ != "scope"@,
        "executor"@ != "spoe"@,
        "executor"@ != "workdir"@,
        "targetExecutor"@ != "scope"@,
        "targetExecutor"@ != "spoe"@,
        "targetExecutor"@ != "workdir"@,
        "scope"@ != "spoe"@,
        "scope"@ != "workdir"@,
        "spoe"@ != "workdir"@,
{
    reveal_strlit("mode");
    reveal_strlit("asyncID");
    reveal_strlit("command");
    reveal_strlit("description");
    reveal_strlit("executor");
    reveal_strlit("targetExecutor");
    reveal_strlit("scope");
    reveal_strlit("spoe");
    reveal_strlit("workdir");
    assert("mode"@.len() == 4);
    assert("asyncID"@.len() == 7);
    assert("command"@.len() == 7);
    assert("description"@.len() == 11);
    assert("executor"@.len() == 8);
    assert("targetExecutor"@.len() == 14);
    assert("scope"@.len() == 5);
    assert("spoe"@.len() == 4);
    assert("workdir"@.len() == 7);
    assert("mode"@[0] == 'm' && "spoe"@[0] == 's');
    assert("asyncID"@[0] == 'a' && "command"@[0] == 'c');
    assert("asyncID"@[0] == 'a' && "workdir"@[0] == 'w');
    assert("command"@[0] == 'c' && "workdir"@[0] == 'w');
}

/// The names of the scopes are different.
pub proof fn lemma_scope_names()
    ensures
        "local"@ != "workspace"@,
        "local"@ != "remote"@,
        "workspace"@ != "remote"@,
{
    reveal_strlit("local");
    reveal_strlit("workspace");
    reveal_strlit("remote");
    assert("local"@.len() == 5);
    assert("workspace"@.len() == 9);
    assert("remote"@.len() == 6);
}

// ---------------------------------------------------------------------------
// What is kept of a new task
// ---------------------------------------------------------------------------

/// The events up to the reply of the local executor to a new task.
pub open spec fn started_with(workdir: Seq<char>, reply: ExecutorReplyView, now: i64) -> Seq<
    (EventView, i64),
> {
    seq![
        (EventView::Text(Ok(workdir)), now),
        (EventView::Done(Ok(())), now),
        (EventView::Reply(reply), now),
    ]
}

/// The text in a member of the metadata of a result.
pub open spec fn told(result: JsonView, key: Seq<char>) -> Option<Seq<char>> {
    match result.field("metadata"@) {
        Some(metadata) => match metadata.field(key) {
            Some(JsonView::Str(s)) => Some(s),
            _ => None,
        },
        None => None,
    }
}

/// A number in a member of the metadata of a result is the one that is kept.
pub open spec fn keeps_number(result: JsonView, key: Seq<char>, kept: Option<i64>) -> bool {
    match result.field("metadata"@) {
        Some(metadata) => {
            &&& metadata.field(key) matches Some(JsonView::Int(n)) ==> i64::MIN <= n <= i64::MAX
                ==> kept == Some(n as i64)
            &&& metadata.field(key) is None ==> kept is None
        },
        None => kept is None,
    }
}

/// What is kept of a task is what the executor told of it.
pub open spec fn is_record_of(
    input: ExbashSyncInputView,
    result: JsonView,
    description: Option<Seq<char>>,
) -> bool {
    let exit_code = match result.field("metadata"@) {
        Some(metadata) => metadata.field("exitCode"@),
        None => None,
    };
    &&& input.async_id == told(result, "asyncID"@)
    &&& input.executor == Some(
        match told(result, "executor"@) {
            Some(e) => e,
            None => "local"@,
        },
    )
    &&& input.command == told(result, "command"@)
    &&& keeps_number(result, "pid"@, input.pid)
    &&& keeps_number(result, "startedAt"@, input.started_at)
    &&& keeps_number(result, "endedAt"@, input.ended_at)
    &&& keeps_number(result, "totalOutput"@, input.total_output)
    &&& description is Some ==> input.description == description
    &&& exit_code is None && told(result, "state"@) is None ==> input.state == Some("running"@)
    &&& exit_code matches Some(JsonView::Int(n)) ==> i32::MIN <= n <= i32::MAX ==> input.state
        == Some("exit:"@ + decimal(n)) && input.exit_code == Some(n as i32)
    &&& exit_code == Some(JsonView::Str("timeout"@)) ==> input.state == Some("timeout"@)
}

/// The step at which the reply of the local executor to a new task is taken in.
proof fn lemma_started_local(
    scope: CallScopeView,
    arguments: JsonView,
    events: Seq<(EventView, i64)>,
    result: JsonView,
)
    requires
        asks_for_task(arguments),
        stays_local(arguments),
        is_kept_in(arguments, "local"@) || is_kept_in(arguments, "workspace"@),
        events.len() >= 2,
        events[0].0 == EventView::Done(Ok(())),
        events[1].0 == EventView::Reply(
            ExecutorReplyView { ok: true, error: None, result: Some(result) },
        ),
    ensures
        exbash_at(scope, arguments, events, 2) == ran_step(
            scope,
            exbash_call(arguments),
            None,
            with_route(result, "local"@),
        ),
{
    lemma_arguments_read(arguments);
    lemma_mode_names();
    lemma_scope_names();
    lemma_opens(arguments);
    let ex = exbash_call(arguments);
    assert(is_kept_in(arguments, ex.tracking_scope));
    assert(exbash_at(scope, arguments, events, 0) == exbash_begin(scope, arguments));
    assert(exbash_begin(scope, arguments) == StepView::<ExbashStageView, AnswerView>::Ask(
        ExbashStageView::Check { ex },
        check_action(scope, ex),
    ));
    assert(exbash_at(scope, arguments, events, 1) == run_step(scope, ex, None));
}

/// Once the local executor has started a task and told its name, the task is kept where it
/// belongs, as the executor told of it; the answer shows what is kept, and a task that still
/// runs is watched.
pub proof fn law_new_tasks_are_kept(
    call: CallView,
    session_id: Seq<char>,
    workdir: Seq<char>,
    result: JsonView,
    kept: ExbashTaskSnapshotView,
    now: i64,
)
    requires
        call.name == "exbash"@,
        is_for_session(call, session_id),
        trimmed(workdir).len() > 0,
        asks_for_task(call.arguments),
        stays_local(call.arguments),
        is_kept_in(call.arguments, "local"@) || is_kept_in(call.arguments, "workspace"@),
        told(result, "asyncID"@) is Some,
    ensures
        ({
            let reply = ExecutorReplyView { ok: true, error: None, result: Some(result) };
            let events = started_with(workdir, reply, now);
            let written = events.push((EventView::Snapshot(Ok(kept)), now));
            let description = text_in(call.arguments, "description"@);
            &&& is_kept_in(call.arguments, "local"@) ==> (action_at(call, events, 3) matches Some(
                ActionView::UpsertSession { session_id: s, input },
            ) && s == session_id && is_record_of(input, result, description))
            &&& is_kept_in(call.arguments, "workspace"@) ==> (action_at(
                call,
                events,
                3,
            ) matches Some(ActionView::UpsertWorkdir { session_id: s, workdir: w, input }) && s
                == session_id && w == workdir && input.session_id == Some(session_id)
                && is_record_of(input, result, description))
            &&& kept.executor == "local"@ && kept.state == Some("running"@) ==> (action_at(
                call,
                written,
                4,
            ) matches Some(ActionView::Watch { scope, tracking_scope, async_id })
                && scope.session_id == session_id && scope.workdir == workdir && is_kept_in(
                call.arguments,
                tracking_scope,
            ) && async_id == kept.async_id && (call_at(
                call,
                written.push((EventView::Done(Ok(())), now)),
                5,
            ) matches StepView::Done(Ok(r)) && shows_kept(r.structured_content, kept)))
            &&& !(kept.executor == "local"@ && kept.state == Some("running"@)) ==> (call_at(
                call,
                written,
                4,
            ) matches StepView::Done(Ok(r)) && shows_kept(r.structured_content, kept))
        }),
{
    let arguments = call.arguments;
    let scope = CallScopeView { session_id, workdir };
    let ex = exbash_call(arguments);
    let reply = ExecutorReplyView { ok: true, error: None, result: Some(result) };
    let events = started_with(workdir, reply, now);
    let written = events.push((EventView::Snapshot(Ok(kept)), now));
    let ended = written.push((EventView::Done(Ok(())), now));
    lemma_arguments_read(arguments);
    lemma_scope_names();
    lemma_mode_names();
    assert(events.len() == 3 && written.len() == 4 && ended.len() == 5);
    lemma_goes_on_as_exbash(call, session_id, workdir, events, 3);
    lemma_goes_on_as_exbash(call, session_id, workdir, written, 4);
    lemma_goes_on_as_exbash(call, session_id, workdir, ended, 5);
    let (e3, e4, e5) = (events.skip(1), written.skip(1), ended.skip(1));
    assert(e3[0] == events[1] && e3[1] == events[2]);
    assert(e4[0] == events[1] && e4[1] == events[2] && e4[2] == written[3]);
    assert(e5[0] == events[1] && e5[1] == events[2] && e5[2] == written[3] && e5[3] == ended[4]);
    lemma_started_local(scope, arguments, e3, result);
    lemma_started_local(scope, arguments, e4, result);
    lemma_started_local(scope, arguments, e5, result);
    assert(result is Obj);
    let routed = with_route(result, "local"@);
    lemma_record(result, routed);
    lemma_filled_again(arguments, "description"@);
    let input = input_of_new(routed, ex.mode, ex.description);
    assert(is_kept_in(arguments, ex.tracking_scope));
    let stage = ExbashStageView::Upsert { ex, value: routed };
    assert(ran_step(scope, ex, None, routed) == StepView::<ExbashStageView, AnswerView>::Ask(
        stage,
        upsert_action(scope, ex, input->0),
    ));
    let told_of = upserted_step(scope, ex, routed, kept);
    assert(exbash_next(stage, scope, EventView::Snapshot(Ok(kept)), now) == told_of);
    assert(exbash_at(scope, arguments, e4, 3) == told_of);
    assert(exbash_at(scope, arguments, e5, 3) == told_of);
    let noted_value = noted(routed, "hostSnapshot"@, snapshot_json(kept));
    lemma_result_names();
    assert(exbash_answer(ex, noted_value) matches Ok(r) && shows_kept(r.structured_content, kept));
    if is_watched(kept) {
        assert(exbash_at(scope, arguments, e5, 4) == exbash_next(
            told_of->Ask_0,
            scope,
            e5[3].0,
            now,
        ));
    }
}

/// A text that is filled in stays filled in.
proof fn lemma_filled_again(arguments: JsonView, key: Seq<char>)
    ensures
        text_in(arguments, key) matches Some(s) ==> trimmed(s) == s && s.len() > 0,
{
    if let Some(JsonView::Str(s)) = arguments.field(key) {
        lemma_trimmed_again(s);
    }
}

/// The structured content shows the task as it is kept.
pub open spec fn shows_kept(content: Option<JsonView>, kept: ExbashTaskSnapshotView) -> bool {
    content matches Some(c) && (c.field("metadata"@) matches Some(metadata)
        && metadata.field("hostSnapshot"@) == Some(snapshot_json(kept)))
}

proof fn lemma_record(result: JsonView, routed: JsonView)
    requires
        result is Obj,
        told(result, "asyncID"@) is Some,
        routed == with_route(result, "local"@),
    ensures
        forall|mode: Seq<char>, description: Option<Seq<char>>|
            (mode == "run"@ || mode == "shell"@) && (description is None || trimmed(
                description->0,
            ).len() > 0) ==> (#[trigger] input_of_new(routed, mode, description) matches Some(input)
                && is_record_of(input, result, description)),
{
    lemma_result_names();
    lemma_mode_names();
    assert forall|key: Seq<char>| key != "executor"@ implies #[trigger] routed.field2(
        "metadata"@,
        key,
    ) == result.field2("metadata"@, key) by {}
    assert(parsed_int("timeout"@) is None) by {
        reveal_strlit("timeout");
        assert("timeout"@[0] == 't');
    }
    assert(trimmed("timeout"@) == "timeout"@ && trimmed("timeout"@).len() > 0) by {
        reveal_strlit("timeout");
        assert("timeout"@[0] == 't' && "timeout"@[6] == 't' && "timeout"@.len() == 7);
    }
}

proof fn lemma_result_names()
    ensures
        "asyncID"@ != "executor"@,
        "asyncID"@ != "command"@,
        "asyncID"@ != "pid"@,
        "asyncID"@ != "startedAt"@,
        "asyncID"@ != "endedAt"@,
        "asyncID"@ != "totalOutput"@,
        "asyncID"@ != "description"@,
        "asyncID"@ != "exitCode"@,
        "asyncID"@ != "state"@,
        "asyncID"@ != "metadata"@,
        "asyncID"@ != "hostSnapshot"@,
        "asyncID"@ != "hostCleanup"@,
        "asyncID"@ != "hostWarning"@,
        "asyncID"@ != "hostSnapshots"@,
        "asyncID"@ != "output"@,
        "asyncID"@ != "result"@,
        "asyncID"@ != "detached"@,
        "asyncID"@ != "cwd"@,
        "executor"@ != "command"@,
        "executor"@ != "pid"@,
        "executor"@ != "startedAt"@,
        "executor"@ != "endedAt"@,
        "executor"@ != "totalOutput"@,
        "executor"@ != "description"@,
        "executor"@ != "exitCode"@,
        "executor"@ != "state"@,
        "executor"@ != "metadata"@,
        "executor"@ != "hostSnapshot"@,
        "executor"@ != "hostCleanup"@,
        "executor"@ != "hostWarning"@,
        "executor"@ != "hostSnapshots"@,
        "executor"@ != "output"@,
        "executor"@ != "result"@,
        "executor"@ != "detached"@,
        "executor"@ != "cwd"@,
        "command"@ != "pid"@,
        "command"@ != "startedAt"@,
        "command"@ != "endedAt"@,
        "command"@ != "totalOutput"@,
        "command"@ != "description"@,
        "command"@ != "exitCode"@,
        "command"@ != "state"@,
        "command"@ != "metadata"@,
        "command"@ != "hostSnapshot"@,
        "command"@ != "hostCleanup"@,
        "command"@ != "hostWarning"@,
        "command"@ != "hostSnapshots"@,
        "command"@ != "output"@,
        "command"@ != "result"@,
        "command"@ != "detached"@,
        "command"@ != "cwd"@,
        "pid"@ != "startedAt"@,
        "pid"@ != "endedAt"@,
        "pid"@ != "totalOutput"@,
        "pid"@ != "description"@,
        "pid"@ != "exitCode"@,
        "pid"@ != "state"@,
        "pid"@ != "metadata"@,
        "pid"@ != "hostSnapshot"@,
        "pid"@ != "hostCleanup"@,
        "pid"@ != "hostWarning"@,
        "pid"@ != "hostSnapshots"@,
        "pid"@ != "output"@,
        "pid"@ != "result"@,
        "pid"@ != "detached"@,
        "pid"@ != "cwd"@,
        "startedAt"@ != "endedAt"@,
        "startedAt"@ != "totalOutput"@,
        "startedAt"@ != "description"@,
        "startedAt"@ != "exitCode"@,
        "startedAt"@ != "state"@,
        "startedAt"@ != "metadata"@,
        "startedAt"@ != "hostSnapshot"@,
        "startedAt"@ != "hostCleanup"@,
        "startedAt"@ != "hostWarning"@,
        "startedAt"@ != "hostSnapshots"@,
        "startedAt"@ != "output"@,
        "startedAt"@ != "result"@,
        "startedAt"@ != "detached"@,
        "startedAt"@ != "cwd"@,
        "endedAt"@ != "totalOutput"@,
        "endedAt"@ != "description"@,
        "endedAt"@ != "exitCode"@,
        "endedAt"@ != "state"@,
        "endedAt"@ != "metadata"@,
        "endedAt"@ != "hostSnapshot"@,
        "endedAt"@ != "hostCleanup"@,
        "endedAt"@ != "hostWarning"@,
        "endedAt"@ != "hostSnapshots"@,
        "endedAt"@ != "output"@,
        "endedAt"@ != "result"@,
        "endedAt"@ != "detached"@,
        "endedAt"@ != "cwd"@,
        "totalOutput"@ != "description"@,
        "totalOutput"@ != "exitCode"@,
        "totalOutput"@ != "state"@,
        "totalOutput"@ != "metadata"@,
        "totalOutput"@ != "hostSnapshot"@,
        "totalOutput"@ != "hostCleanup"@,
        "totalOutput"@ != "hostWarning"@,
        "totalOutput"@ != "hostSnapshots"@,
        "totalOutput"@ != "output"@,
        "totalOutput"@ != "result"@,
        "totalOutput"@ != "detached"@,
        "totalOutput"@ != "cwd"@,
        "description"@ != "exitCode"@,
        "description"@ != "state"@,
        "description"@ != "metadata"@,
        "description"@ != "hostSnapshot"@,
        "description"@ != "hostCleanup"@,
        "description"@ != "hostWarning"@,
        "description"@ != "hostSnapshots"@,
        "description"@ != "output"@,
        "description"@ != "result"@,
        "description"@ != "detached"@,
        "description"@ != "cwd"@,
        "exitCode"@ != "state"@,
        "exitCode"@ != "metadata"@,
        "exitCode"@ != "hostSnapshot"@,
        "exitCode"@ != "hostCleanup"@,
        "exitCode"@ != "hostWarning"@,
        "exitCode"@ != "hostSnapshots"@,
        "exitCode"@ != "output"@,
        "exitCode"@ != "result"@,
        "exitCode"@ != "detached"@,
        "exitCode"@ != "cwd"@,
        "state"@ != "metadata"@,
        "state"@ != "hostSnapshot"@,
        "state"@ != "hostCleanup"@,
        "state"@ != "hostWarning"@,
        "state"@ != "hostSnapshots"@,
        "state"@ != "output"@,
        "state"@ != "result"@,
        "state"@ != "detached"@,
        "state"@ != "cwd"@,
        "metadata"@ != "hostSnapshot"@,
        "metadata"@ != "hostCleanup"@,
        "metadata"@ != "hostWarning"@,
        "metadata"@ != "hostSnapshots"@,
        "metadata"@ != "output"@,
        "metadata"@ != "result"@,
        "metadata"@ != "detached"@,
        "metadata"@ != "cwd"@,
        "hostSnapshot"@ != "hostCleanup"@,
        "hostSnapshot"@ != "hostWarning"@,
        "hostSnapshot"@ != "hostSnapshots"@,
        "hostSnapshot"@ != "output"@,
        "hostSnapshot"@ != "result"@,
        "hostSnapshot"@ != "detached"@,
        "hostSnapshot"@ != "cwd"@,
        "hostCleanup"@ != "hostWarning"@,
        "hostCleanup"@ != "hostSnapshots"@,
        "hostCleanup"@ != "output"@,
        "hostCleanup"@ != "result"@,
        "hostCleanup"@ != "detached"@,
        "hostCleanup"@ != "cwd"@,
        "hostWarning"@ != "hostSnapshots"@,
        "hostWarning"@ != "output"@,
        "hostWarning"@ != "result"@,
        "hostWarning"@ != "detached"@,
        "hostWarning"@ != "cwd"@,
        "hostSnapshots"@ != "output"@,
        "hostSnapshots"@ != "result"@,
        "hostSnapshots"@ != "detached"@,
        "hostSnapshots"@ != "cwd"@,
        "output"@ != "result"@,
        "output"@ != "detached"@,
        "output"@ != "cwd"@,
        "result"@ != "detached"@,
        "result"@ != "cwd"@,
        "detached"@ != "cwd"@,
{
    reveal_strlit("asyncID");
    reveal_strlit("executor");
    reveal_strlit("command");
    reveal_strlit("pid");
    reveal_strlit("startedAt");
    reveal_strlit("endedAt");
    reveal_strlit("totalOutput");
    reveal_strlit("description");
    reveal_strlit("exitCode");
    reveal_strlit("state");
    reveal_strlit("metadata");
    reveal_strlit("hostSnapshot");
    reveal_strlit("hostCleanup");
    reveal_strlit("hostWarning");
    reveal_strlit("hostSnapshots");
    reveal_strlit("output");
    reveal_strlit("result");
    reveal_strlit("detached");
    reveal_strlit("cwd");
    assert("asyncID"@.len() == 7);
    assert("executor"@.len() == 8);
    assert("command"@.len() == 7);
    assert("pid"@.len() == 3);
    assert("startedAt"@.len() == 9);
    assert("endedAt"@.len() == 7);
    assert("totalOutput"@.len() == 11);
    assert("description"@.len() == 11);
    assert("exitCode"@.len() == 8);
    assert("state"@.len() == 5);
    assert("metadata"@.len() == 8);
    assert("hostSnapshot"@.len() == 12);
    assert("hostCleanup"@.len() == 11);
    assert("hostWarning"@.len() == 11);
    assert("hostSnapshots"@.len() == 13);
    assert("output"@.len() == 6);
    assert("result"@.len() == 6);
    assert("detached"@.len() == 8);
    assert("cwd"@.len() == 3);
    assert("asyncID"@[0] == 'a' && "command"@[0] == 'c');
    assert("asyncID"@[0] == 'a' && "endedAt"@[0] == 'e');
    assert("executor"@[2] == 'e' && "exitCode"@[2] == 'i');
    assert("executor"@[0] == 'e' && "metadata"@[0] == 'm');
    assert("executor"@[0] == 'e' && "detached"@[0] == 'd');
    assert("command"@[0] == 'c' && "endedAt"@[0] == 'e');
    assert("pid"@[0] == 'p' && "cwd"@[0] == 'c');
    assert("totalOutput"@[0] == 't' && "description"@[0] == 'd');
    assert("totalOutput"@[0] == 't' && "hostCleanup"@[0] == 'h');
    assert("totalOutput"@[0] == 't' && "hostWarning"@[0] == 'h');
    assert("description"@[0] == 'd' && "hostCleanup"@[0] == 'h');
    assert("description"@[0] == 'd' && "hostWarning"@[0] == 'h');
    assert("exitCode"@[0] == 'e' && "metadata"@[0] == 'm');
    assert("exitCode"@[0] == 'e' && "detached"@[0] == 'd');
    assert("metadata"@[0] == 'm' && "detached"@[0] == 'd');
    assert("hostCleanup"@[4] == 'C' && "hostWarning"@[4] == 'W');
    assert("output"@[0] == 'o' && "result"@[0] == 'r');
}

// ---------------------------------------------------------------------------
// States and records
// ---------------------------------------------------------------------------

/// The state of a task after a reply: an exit code that is a number, or that tells of a timeout
/// or a stop, decides; without one a stop makes it `stop`, and else the state that the
/// executor reports counts, and then the one that was kept.
pub proof fn law_states_follow_the_executor(
    result: JsonView,
    mode: Seq<char>,
    before: Option<Seq<char>>,
)
    ensures
        ({
            let code = result.field2("metadata"@, "exitCode"@);
            let state = state_after(result, mode, before);
            &&& code matches Some(JsonView::Int(n)) ==> i64::MIN <= n <= i64::MAX ==> state
                == "exit:"@ + decimal(n)
            &&& code == Some(JsonView::Str("timeout"@)) ==> state == "timeout"@
            &&& code == Some(JsonView::Str("stop"@)) || code == Some(JsonView::Str("stopped"@))
                ==> state == "stop"@
            &&& code is None && mode == "stop"@ ==> state == "stop"@
            &&& code is None && mode != "stop"@ && told(result, "state"@) == Some("running"@)
                ==> state == "running"@
            &&& code is None && mode != "stop"@ && told(result, "state"@) == Some("timeout"@)
                ==> state == "timeout"@
            &&& code is None && mode != "stop"@ && told(result, "state"@) == Some("stopped"@)
                ==> state == "stop"@
            &&& code is None && mode == "attach"@ && told(result, "state"@) is None && before
                == Some("timeout"@) ==> state == "timeout"@
            &&& code is None && mode == "attach"@ && told(result, "state"@) is None && before
                == Some("stop"@) ==> state == "stop"@
            &&& code is None && mode == "attach"@ && told(result, "state"@) is None && before is None
                ==> state == "running"@
        }),
{
    lemma_mode_names();
    lemma_state_texts();
}

proof fn lemma_state_texts()
    ensures
        trimmed("timeout"@) == "timeout"@ && "timeout"@.len() == 7,
        trimmed("stop"@) == "stop"@ && "stop"@.len() == 4,
        trimmed("stopped"@) == "stopped"@ && "stopped"@.len() == 7,
        trimmed("running"@) == "running"@ && "running"@.len() == 7,
        parsed_int("timeout"@) is None && parsed_int("stop"@) is None && parsed_int("stopped"@)
            is None,
        "timeout"@ != "stop"@ && "timeout"@ != "stopped"@ && "timeout"@ != "running"@ && "stop"@
            != "stopped"@ && "stop"@ != "running"@ && "stopped"@ != "running"@,
        !has_prefix("stopped"@, "exit:"@),
{
    reveal_strlit("timeout");
    reveal_strlit("stop");
    reveal_strlit("stopped");
    reveal_strlit("running");
    reveal_strlit("exit:");
    assert("timeout"@[0] == 't' && "timeout"@[6] == 't');
    assert("stop"@[0] == 's' && "stop"@[3] == 'p');
    assert("stopped"@[0] == 's' && "stopped"@[6] == 'd');
    assert("running"@[0] == 'r' && "running"@[6] == 'g');
    assert("exit:"@[0] == 'e' && "exit:"@.len() == 5);
    assert("stopped"@.subrange(0, 5)[0] == 's');
}

/// What is kept of a task that was kept before: its name, its executor, where it belongs and
/// its description stay; what the result reports is taken over, and what it does not report
/// stays as it was.
pub open spec fn is_update_of(
    input: ExbashSyncInputView,
    before: ExbashTaskSnapshotView,
    result: JsonView,
    mode: Seq<char>,
    now: i64,
) -> bool {
    let metadata = result.field("metadata"@);
    let silent = metadata is None;
    &&& input.async_id == Some(before.async_id)
    &&& input.executor == Some(before.executor)
    &&& input.session_id == before.session_id
    &&& input.workdir == before.workdir
    &&& input.description == before.description
    &&& before.command is Some ==> input.command == before.command
    &&& before.command is None ==> input.command == told(result, "command"@)
    &&& takes_over(result, "pid"@, before.pid, input.pid)
    &&& takes_over(result, "startedAt"@, before.started_at, input.started_at)
    &&& takes_over(result, "totalOutput"@, before.total_output, input.total_output)
    &&& mode != "stop"@ ==> takes_over(result, "endedAt"@, before.ended_at, input.ended_at)
    &&& mode == "stop"@ ==> takes_over(result, "endedAt"@, Some(now), input.ended_at)
    &&& result.field2("metadata"@, "exitCode"@) matches Some(JsonView::Int(n)) ==> i32::MIN <= n
        <= i32::MAX ==> input.exit_code == Some(n as i32)
    &&& result.field2("metadata"@, "exitCode"@) is None ==> input.exit_code == before.exit_code
    &&& input.state is Some
}

/// A number in a member of the metadata is taken over; without one the old one stays.
pub open spec fn takes_over(
    result: JsonView,
    key: Seq<char>,
    before: Option<i64>,
    after: Option<i64>,
) -> bool {
    match result.field2("metadata"@, key) {
        Some(JsonView::Int(n)) => i64::MIN <= n <= i64::MAX ==> after == Some(n as i64),
        Some(_) => true,
        None => after == before,
    }
}

/// Bringing a record up to date takes over what the result reports and keeps the rest.
pub proof fn law_records_are_brought_up_to_date(
    before: ExbashTaskSnapshotView,
    result: JsonView,
    mode: Seq<char>,
    now: i64,
)
    ensures
        is_update_of(input_after(before, result, mode, now), before, result, mode, now),
        input_after(before, result, mode, now).state == Some(
            state_after(result, mode, before.state),
        ),
{
}

// ---------------------------------------------------------------------------
// Stopping, attaching and removing
// ---------------------------------------------------------------------------

/// The events up to the reply of the local executor to a call for a task that exists.
pub open spec fn reached_with(workdir: Seq<char>, reply: ExecutorReplyView, now: i64) -> Seq<
    (EventView, i64),
> {
    seq![(EventView::Text(Ok(workdir)), now), (EventView::Reply(reply), now)]
}

/// The call is for a task that exists: on the local executor, in a mode that neither starts a
/// task nor lists them, with the id of the task.
pub open spec fn is_for_local_task(
    call: CallView,
    session_id: Seq<char>,
    workdir: Seq<char>,
    mode: Seq<char>,
    async_id: Seq<char>,
) -> bool {
    &&& call.name == "exbash"@
    &&& is_for_session(call, session_id)
    &&& trimmed(workdir).len() > 0
    &&& text_in(call.arguments, "mode"@) == Some(mode)
    &&& mode == "stop"@ || mode == "attach"@ || mode == "remove"@
    &&& text_in(call.arguments, "asyncID"@) == Some(async_id)
    &&& call.arguments.field("executor"@) is None && call.arguments.field("targetExecutor"@) is None
    &&& is_kept_in(call.arguments, "local"@) || is_kept_in(call.arguments, "workspace"@)
}

proof fn lemma_reached_local(
    call: CallView,
    session_id: Seq<char>,
    workdir: Seq<char>,
    mode: Seq<char>,
    async_id: Seq<char>,
    events: Seq<(EventView, i64)>,
    reply: ExecutorReplyView,
)
    requires
        is_for_local_task(call, session_id, workdir, mode, async_id),
        events.len() >= 2,
        events[0].0 == EventView::Text(Ok(workdir)),
        events[1].0 == EventView::Reply(reply),
    ensures
        ({
            let scope = CallScopeView { session_id, workdir };
            let ex = exbash_call(call.arguments);
            &&& ex.mode == mode
            &&& ex.async_id == Some(async_id)
            &&& ex.executor == "local"@
            &&& reply.ok ==> exbash_at(scope, call.arguments, events.skip(1), 1) == ran_step(
                scope,
                ex,
                None,
                with_route(
                    match reply.result {
                        Some(v) => v,
                        None => JsonView::Null,
                    },
                    "local"@,
                ),
            )
            &&& !reply.ok ==> exbash_at(scope, call.arguments, events.skip(1), 1) == failed_step(
                scope,
                ex,
                failure(
                    match reply.error {
                        Some(m) => m,
                        None => "unknown error"@,
                    },
                ),
            )
        }),
{
    let arguments = call.arguments;
    let scope = CallScopeView { session_id, workdir };
    let ex = exbash_call(arguments);
    lemma_arguments_read(arguments);
    lemma_mode_names();
    lemma_scope_names();
    lemma_given_names();
    lemma_opens(arguments);
    assert(is_kept_in(arguments, ex.tracking_scope));
    assert(events.skip(1)[0] == events[1]);
    assert(exbash_at(scope, arguments, events.skip(1), 0) == exbash_begin(scope, arguments));
    assert(exbash_begin(scope, arguments) == run_step(scope, ex, None));
}

/// A task that is stopped or attached to is brought up to date where it is kept: first the
/// session and then the workspace is asked for what it keeps of the task, and each record
/// that there is is updated from the result.
pub proof fn law_stopped_tasks_are_recorded(
    call: CallView,
    session_id: Seq<char>,
    workdir: Seq<char>,
    mode: Seq<char>,
    async_id: Seq<char>,
    result: JsonView,
    kept: ExbashTaskSnapshotView,
    now: i64,
)
    requires
        is_for_local_task(call, session_id, workdir, mode, async_id),
        mode != "remove"@,
        result is Obj,
        result.field("metadata"@) is None || result.field("metadata"@)->0 is Obj,
        result.field2("metadata"@, "asyncID"@) is None || result.field2("metadata"@, "asyncID"@)
            == Some(JsonView::Str(async_id)),
        result.field2("metadata"@, "executor"@) is None || result.field2("metadata"@, "executor"@)
            == Some(JsonView::Str("local"@)),
    ensures
        ({
            let reply = ExecutorReplyView { ok: true, error: None, result: Some(result) };
            let e = reached_with(workdir, reply, now);
            let known = e.push((EventView::Lookup(Ok(Some(kept))), now));
            let unknown = e.push((EventView::Lookup(Ok(None)), now));
            let executor = "local"@;
            &&& action_at(call, e, 2) == Some(
                ActionView::SessionSnapshot { session_id, async_id, executor },
            )
            &&& action_at(call, known, 3) matches Some(
                ActionView::UpsertSession { session_id: s, input },
            ) && s == session_id && is_update_of(input, kept, result, mode, now)
            &&& action_at(call, unknown, 3) == Some(
                ActionView::WorkdirSnapshot { session_id, workdir, async_id, executor },
            )
            &&& action_at(call, unknown.push((EventView::Lookup(Ok(Some(kept))), now)), 4) matches Some(
                ActionView::UpsertWorkdir { session_id: s, workdir: w, input },
            ) && s == session_id && w == workdir && is_update_of(input, kept, result, mode, now)
            &&& call_at(call, unknown.push((EventView::Lookup(Ok(None)), now)), 4) matches StepView::Done(
                Ok(_),
            )
        }),
{
    let arguments = call.arguments;
    let scope = CallScopeView { session_id, workdir };
    let ex = exbash_call(arguments);
    let reply = ExecutorReplyView { ok: true, error: None, result: Some(result) };
    let e = reached_with(workdir, reply, now);
    let known = e.push((EventView::Lookup(Ok(Some(kept))), now));
    let unknown = e.push((EventView::Lookup(Ok(None)), now));
    let u1 = unknown.push((EventView::Lookup(Ok(Some(kept))), now));
    let u2 = unknown.push((EventView::Lookup(Ok(None)), now));
    lemma_mode_names();
    lemma_result_names();
    lemma_not_list(arguments, mode);
    lemma_reached_local(call, session_id, workdir, mode, async_id, e, reply);
    lemma_reached_local(call, session_id, workdir, mode, async_id, known, reply);
    lemma_reached_local(call, session_id, workdir, mode, async_id, unknown, reply);
    lemma_reached_local(call, session_id, workdir, mode, async_id, u1, reply);
    lemma_reached_local(call, session_id, workdir, mode, async_id, u2, reply);
    lemma_goes_on_as_exbash(call, session_id, workdir, e, 2);
    lemma_goes_on_as_exbash(call, session_id, workdir, known, 3);
    lemma_goes_on_as_exbash(call, session_id, workdir, unknown, 3);
    lemma_goes_on_as_exbash(call, session_id, workdir, u1, 4);
    lemma_goes_on_as_exbash(call, session_id, workdir, u2, 4);
    let routed = with_route(result, "local"@);
    assert forall|key: Seq<char>| key != "executor"@ implies #[trigger] routed.field2(
        "metadata"@,
        key,
    ) == result.field2("metadata"@, key) by {}
    assert(told(routed, "command"@) == told(result, "command"@));
    law_records_are_brought_up_to_date(kept, routed, mode, now);
    assert(is_update_of(input_after(kept, routed, mode, now), kept, result, mode, now));
    assert(input_of_new(routed, ex.mode, ex.description) is None);
    assert(subject(ex, routed) == Some((async_id, "local"@)));
    let asked = ran_step(scope, ex, None, routed);
    let stage = ExbashStageView::FirstLookup { ex, value: routed, async_id, executor: "local"@ };
    assert(asked->Ask_0 == stage);
    assert(known.skip(1)[1] == known[2] && unknown.skip(1)[1] == unknown[2]);
    assert(u1.skip(1)[1] == unknown[2] && u1.skip(1)[2] == u1[3]);
    assert(u2.skip(1)[1] == unknown[2] && u2.skip(1)[2] == u2[3]);
    assert(exbash_at(scope, arguments, known.skip(1), 2) == exbash_next(
        stage,
        scope,
        known[2].0,
        now,
    ));
    let second = exbash_next(stage, scope, unknown[2].0, now);
    assert(exbash_at(scope, arguments, unknown.skip(1), 2) == second);
    assert(exbash_at(scope, arguments, u1.skip(1), 2) == second);
    assert(exbash_at(scope, arguments, u2.skip(1), 2) == second);
    assert(exbash_at(scope, arguments, u1.skip(1), 3) == exbash_next(
        second->Ask_0,
        scope,
        u1[3].0,
        now,
    ));
    assert(exbash_at(scope, arguments, u2.skip(1), 3) == exbash_next(
        second->Ask_0,
        scope,
        u2[3].0,
        now,
    ));
}

proof fn lemma_not_list(arguments: JsonView, mode: Seq<char>)
    requires
        text_in(arguments, "mode"@) == Some(mode),
        mode != "list"@,
    ensures
        !asks_for_list(arguments),
{
}

/// A removed task is forgotten by the session and then by the workspace; the answer is the
/// result with a report of both.
pub proof fn law_removed_tasks_are_forgotten(
    call: CallView,
    session_id: Seq<char>,
    workdir: Seq<char>,
    async_id: Seq<char>,
    result: JsonView,
    in_session: bool,
    in_workspace: bool,
    now: i64,
)
    requires
        is_for_local_task(call, session_id, workdir, "remove"@, async_id),
        result is Obj,
        result.field("metadata"@) is None,
    ensures
        ({
            let reply = ExecutorReplyView { ok: true, error: None, result: Some(result) };
            let e = reached_with(workdir, reply, now);
            let first = e.push((EventView::Removed(Ok(in_session)), now));
            let both = first.push((EventView::Removed(Ok(in_workspace)), now));
            let executor = "local"@;
            &&& action_at(call, e, 2) == Some(
                ActionView::RemoveSession { session_id, async_id, executor },
            )
            &&& action_at(call, first, 3) == Some(
                ActionView::RemoveWorkdir { session_id, workdir, async_id, executor },
            )
            &&& call_at(call, both, 4) matches StepView::Done(Ok(r)) && (
            r.structured_content matches Some(c) && (c.field2("metadata"@, "hostCleanup"@) matches Some(
                report,
            ) && report.field("asyncID"@) == Some(JsonView::Str(async_id)) && report.field(
                "localRemoved"@,
            ) == Some(JsonView::Bool(in_session)) && report.field("workspaceRemoved"@) == Some(
                JsonView::Bool(in_workspace),
            )))
        }),
{
    let arguments = call.arguments;
    let scope = CallScopeView { session_id, workdir };
    let ex = exbash_call(arguments);
    let reply = ExecutorReplyView { ok: true, error: None, result: Some(result) };
    let e = reached_with(workdir, reply, now);
    let first = e.push((EventView::Removed(Ok(in_session)), now));
    let both = first.push((EventView::Removed(Ok(in_workspace)), now));
    lemma_mode_names();
    lemma_result_names();
    lemma_report_names();
    lemma_not_list(arguments, "remove"@);
    lemma_reached_local(call, session_id, workdir, "remove"@, async_id, e, reply);
    lemma_reached_local(call, session_id, workdir, "remove"@, async_id, first, reply);
    lemma_reached_local(call, session_id, workdir, "remove"@, async_id, both, reply);
    lemma_goes_on_as_exbash(call, session_id, workdir, e, 2);
    lemma_goes_on_as_exbash(call, session_id, workdir, first, 3);
    lemma_goes_on_as_exbash(call, session_id, workdir, both, 4);
    let routed = with_route(result, "local"@);
    assert(subject(ex, routed) == Some((async_id, "local"@)));
    assert(input_of_new(routed, ex.mode, ex.description) is None);
    let asked = ran_step(scope, ex, None, routed);
    assert(first.skip(1)[1] == first[2]);
    assert(both.skip(1)[1] == first[2] && both.skip(1)[2] == both[3]);
    let second = exbash_next(asked->Ask_0, scope, first[2].0, now);
    assert(exbash_at(scope, arguments, first.skip(1), 2) == second);
    assert(exbash_at(scope, arguments, both.skip(1), 2) == second);
    assert(exbash_at(scope, arguments, both.skip(1), 3) == exbash_next(
        second->Ask_0,
        scope,
        both[3].0,
        now,
    ));
}

proof fn lemma_report_names()
    ensures
        "asyncID"@ != "executor"@,
        "asyncID"@ != "localRemoved"@,
        "asyncID"@ != "workspaceRemoved"@,
        "asyncID"@ != "metadata"@,
        "asyncID"@ != "hostCleanup"@,
        "asyncID"@ != "output"@,
        "asyncID"@ != "result"@,
        "executor"@ != "localRemoved"@,
        "executor"@ != "workspaceRemoved"@,
        "executor"@ != "metadata"@,
        "executor"@ != "hostCleanup"@,
        "executor"@ != "output"@,
        "executor"@ != "result"@,
        "localRemoved"@ != "workspaceRemoved"@,
        "localRemoved"@ != "metadata"@,
        "localRemoved"@ != "hostCleanup"@,
        "localRemoved"@ != "output"@,
        "localRemoved"@ != "result"@,
        "workspaceRemoved"@ != "metadata"@,
        "workspaceRemoved"@ != "hostCleanup"@,
        "workspaceRemoved"@ != "output"@,
        "workspaceRemoved"@ != "result"@,
        "metadata"@ != "hostCleanup"@,
        "metadata"@ != "output"@,
        "metadata"@ != "result"@,
        "hostCleanup"@ != "output"@,
        "hostCleanup"@ != "result"@,
        "output"@ != "result"@,
{
    reveal_strlit("asyncID");
    reveal_strlit("executor");
    reveal_strlit("localRemoved");
    reveal_strlit("workspaceRemoved");
    reveal_strlit("metadata");
    reveal_strlit("hostCleanup");
    reveal_strlit("output");
    reveal_strlit("result");
    assert("asyncID"@.len() == 7);
    assert("executor"@.len() == 8);
    assert("localRemoved"@.len() == 12);
    assert("workspaceRemoved"@.len() == 16);
    assert("metadata"@.len() == 8);
    assert("hostCleanup"@.len() == 11);
    assert("output"@.len() == 6);
    assert("result"@.len() == 6);
    assert("executor"@[0] == 'e' && "metadata"@[0] == 'm');
    assert("output"@[0] == 'o' && "result"@[0] == 'r');
}


/// A task that cannot be reached or started ends the call with the message of the executor;
/// what is kept stays, except that a removal forgets a task that the local executor does not
/// have or that cannot be reached.
pub proof fn law_local_failures_are_told(
    call: CallView,
    session_id: Seq<char>,
    workdir: Seq<char>,
    mode: Seq<char>,
    async_id: Seq<char>,
    message: Seq<char>,
    now: i64,
)
    requires
        is_for_local_task(call, session_id, workdir, mode, async_id),
    ensures
        ({
            let reply = ExecutorReplyView { ok: false, error: Some(message), result: None };
            let e = reached_with(workdir, reply, now);
            let gone = has_text(lowered(message), "not found"@) || has_text(
                lowered(message),
                "does not exist"@,
            );
            let lost = has_text(lowered(message), "connection"@) || has_text(
                lowered(message),
                "timed out"@,
            ) || has_text(lowered(message), "disconnected"@) || has_text(
                lowered(message),
                "closed before responding"@,
            );
            &&& mode != "remove"@ ==> (call_at(call, e, 2) matches StepView::Done(Err(err)) && err.code
                == -32603 && err.message == message)
            &&& mode == "remove"@ && (gone || lost) ==> action_at(call, e, 2) == Some(
                ActionView::RemoveSession { session_id, async_id, executor: "local"@ },
            )
            &&& mode == "remove"@ && !gone && !lost && !has_text(
                lowered(message),
                "async run not found"@,
            ) ==> (call_at(call, e, 2) matches StepView::Done(Err(err)) && err.code == -32603
                && err.message == message)
        }),
{
    let reply = ExecutorReplyView { ok: false, error: Some(message), result: None };
    let e = reached_with(workdir, reply, now);
    lemma_mode_names();
    lemma_not_list(call.arguments, mode);
    lemma_reached_local(call, session_id, workdir, mode, async_id, e, reply);
    lemma_goes_on_as_exbash(call, session_id, workdir, e, 2);
}

// ---------------------------------------------------------------------------
// Making room
// ---------------------------------------------------------------------------

/// A task that may be forgotten to make room: nobody described it, and its state says that it
/// has ended.
pub open spec fn has_ended_undescribed(task: ExbashTaskSnapshotView) -> bool {
    &&& task.description is None || trimmed(task.description->0).len() == 0 || trimmed(
        task.description->0,
    ) == "Tmp Running"@
    &&& task.state matches Some(s) && (s == "stop"@ || s == "timeout"@ || (has_prefix(s, "exit:"@)
        && trimmed(s) == s))
}

proof fn lemma_candidates_complete(tasks: Seq<ExbashTaskSnapshotView>, i: int)
    requires
        0 <= i < tasks.len(),
        is_cleanup_candidate(tasks[i]),
    ensures
        candidates(tasks).contains(tasks[i]),
    decreases tasks.len(),
{
    let all = candidates(tasks);
    if i == tasks.len() - 1 {
        assert(all[all.len() - 1] == tasks[i]);
    } else {
        lemma_candidates_complete(tasks.drop_last(), i);
        let before = candidates(tasks.drop_last());
        let j = choose|j: int| 0 <= j < before.len() && before[j] == tasks[i];
        assert(all[j] == tasks[i]);
    }
}

/// Every task that has ended and that nobody described is forgotten to make room; a task that
/// was described, or whose state says that it still runs, never is.
pub proof fn law_room_is_made_by_ended_tasks(tasks: Seq<ExbashTaskSnapshotView>, i: int)
    requires
        0 <= i < tasks.len(),
    ensures
        has_ended_undescribed(tasks[i]) ==> candidates(tasks).contains(tasks[i]),
        candidates(tasks).contains(tasks[i]) ==> (tasks[i].description matches Some(d)
            ==> trimmed(d).len() == 0 || trimmed(d) == "Tmp Running"@),
        candidates(tasks).contains(tasks[i]) ==> tasks[i].state != Some("running"@),
{
    lemma_state_texts();
    reveal_strlit("exit:");
    reveal_strlit("unknown");
    reveal_strlit("running");
    reveal_strlit("timeout");
    reveal_strlit("stop");
    assert("exit:"@.len() == 5 && "exit:"@[0] == 'e');
    assert("unknown"@[0] == 'u' && "running"@[0] == 'r' && "timeout"@[0] == 't' && "stop"@[0]
        == 's');
    let t = tasks[i];
    if has_ended_undescribed(t) {
        let s = t.state->0;
        if has_prefix(s, "exit:"@) {
            assert(s.subrange(0, 5)[0] == s[0]);
        }
        lemma_candidates_complete(tasks, i);
    }
    if candidates(tasks).contains(t) {
        let j = choose|j: int| 0 <= j < candidates(tasks).len() && candidates(tasks)[j] == t;
        crate::laws::law_only_candidates_make_room(tasks, j);
    }
}

/// A host that has no room is asked for its tasks, those that may be forgotten are removed one
/// after the other, and if any was removed the host is asked again; then the task runs.
pub proof fn law_room_is_made_before_giving_up(
    call: CallView,
    session_id: Seq<char>,
    workdir: Seq<char>,
    message: Seq<char>,
    task: ExbashTaskSnapshotView,
    now: i64,
)
    requires
        call.name == "exbash"@,
        is_for_session(call, session_id),
        trimmed(workdir).len() > 0,
        asks_for_task(call.arguments),
        is_kept_in(call.arguments, "local"@),
        has_text(lowered(message), "stack is full"@),
        has_ended_undescribed(task),
    ensures
        ({
            let full = seq![
                (EventView::Text(Ok(workdir)), now),
                (EventView::Done(Err(message)), now),
            ];
            let listed = full.push((EventView::Tasks(Ok(seq![task])), now));
            let removed = listed.push((EventView::Removed(Ok(true)), now));
            let kept = listed.push((EventView::Removed(Ok(false)), now));
            let agreed = removed.push((EventView::Done(Ok(())), now));
            &&& action_at(call, full, 2) == Some(
                ActionView::ListSession { session_id, executor: None },
            )
            &&& action_at(call, listed, 3) == Some(
                ActionView::RemoveSession {
                    session_id,
                    async_id: task.async_id,
                    executor: task.executor,
                },
            )
            &&& action_at(call, removed, 4) matches Some(a) && a is CheckSession
            &&& opens_request(action_at(call, agreed, 5), call.arguments, workdir)
            &&& call_at(call, kept, 4) matches StepView::Done(Err(e)) && e.code == -32602
                && e.message == message
        }),
{
    let arguments = call.arguments;
    let scope = CallScopeView { session_id, workdir };
    let ex = exbash_call(arguments);
    let full = seq![(EventView::Text(Ok(workdir)), now), (EventView::Done(Err(message)), now)];
    let listed = full.push((EventView::Tasks(Ok(seq![task])), now));
    let removed = listed.push((EventView::Removed(Ok(true)), now));
    let kept = listed.push((EventView::Removed(Ok(false)), now));
    let agreed = removed.push((EventView::Done(Ok(())), now));
    lemma_arguments_read(arguments);
    lemma_scope_names();
    lemma_mode_names();
    lemma_opens(arguments);
    assert(is_kept_in(arguments, ex.tracking_scope));
    lemma_goes_on_as_exbash(call, session_id, workdir, full, 2);
    lemma_goes_on_as_exbash(call, session_id, workdir, listed, 3);
    lemma_goes_on_as_exbash(call, session_id, workdir, removed, 4);
    lemma_goes_on_as_exbash(call, session_id, workdir, kept, 4);
    lemma_goes_on_as_exbash(call, session_id, workdir, agreed, 5);
    law_room_is_made_by_ended_tasks(seq![task], 0);
    assert(seq![task].drop_last() =~= Seq::empty());
    reveal_with_fuel(candidates, 2);
    assert(candidates(seq![task]) =~= seq![task]) by {
        if !is_cleanup_candidate(task) {
            assert(candidates(seq![task]) =~= Seq::empty());
        }
    }
    assert(seq![task].drop_first() =~= Seq::empty());
    let first = exbash_begin(scope, arguments);
    assert(first->Ask_0 == (ExbashStageView::Check { ex }));
    let s1 = exbash_next(first->Ask_0, scope, full[1].0, now);
    let s2 = exbash_next(s1->Ask_0, scope, listed[2].0, now);
    let s3 = exbash_next(s2->Ask_0, scope, removed[3].0, now);
    let s4 = exbash_next(s3->Ask_0, scope, agreed[4].0, now);
    assert(full.skip(1)[0] == full[1]);
    assert(listed.skip(1)[0] == full[1] && listed.skip(1)[1] == listed[2]);
    assert(removed.skip(1)[0] == full[1] && removed.skip(1)[1] == listed[2] && removed.skip(1)[2]
        == removed[3]);
    assert(kept.skip(1)[0] == full[1] && kept.skip(1)[1] == listed[2] && kept.skip(1)[2] == kept[3]);
    assert(agreed.skip(1)[0] == full[1] && agreed.skip(1)[1] == listed[2] && agreed.skip(1)[2]
        == removed[3] && agreed.skip(1)[3] == agreed[4]);
    assert(exbash_at(scope, arguments, full.skip(1), 0) == first);
    assert(exbash_at(scope, arguments, full.skip(1), 1) == s1);
    assert(exbash_at(scope, arguments, listed.skip(1), 0) == first);
    assert(exbash_at(scope, arguments, listed.skip(1), 1) == s1);
    assert(exbash_at(scope, arguments, listed.skip(1), 2) == s2);
    assert(exbash_at(scope, arguments, removed.skip(1), 0) == first);
    assert(exbash_at(scope, arguments, removed.skip(1), 1) == s1);
    assert(exbash_at(scope, arguments, removed.skip(1), 2) == s2);
    assert(exbash_at(scope, arguments, removed.skip(1), 3) == s3);
    assert(exbash_at(scope, arguments, kept.skip(1), 0) == first);
    assert(exbash_at(scope, arguments, kept.skip(1), 1) == s1);
    assert(exbash_at(scope, arguments, kept.skip(1), 2) == s2);
    assert(exbash_at(scope, arguments, agreed.skip(1), 0) == first);
    assert(exbash_at(scope, arguments, agreed.skip(1), 1) == s1);
    assert(exbash_at(scope, arguments, agreed.skip(1), 2) == s2);
    assert(exbash_at(scope, arguments, agreed.skip(1), 3) == s3);
    assert(exbash_at(scope, arguments, agreed.skip(1), 4) == s4);
    if stays_local(arguments) {
        assert(action_at(call, agreed, 5) matches Some(a) && a is Execute);
        law_tasks_run_as_asked(call, agreed, 5);
    }
}

/// The end of a watched task is recorded where the task is kept, only as long as it is kept
/// there as running, and as the executor told of it.
pub proof fn law_ends_are_recorded(
    scope: CallScopeView,
    tracking_scope: Seq<char>,
    async_id: Seq<char>,
    kept: ExbashTaskSnapshotView,
    result: JsonView,
    now: i64,
)
    ensures
        tracking_scope == "workspace"@ ==> ended_lookup(scope, tracking_scope, async_id)
            == (ActionView::WorkdirSnapshot {
            session_id: scope.session_id,
            workdir: scope.workdir,
            async_id,
            executor: "local"@,
        }),
        tracking_scope == "local"@ ==> ended_lookup(scope, tracking_scope, async_id)
            == (ActionView::SessionSnapshot {
            session_id: scope.session_id,
            async_id,
            executor: "local"@,
        }),
        kept.state != Some("running"@) ==> ended_update(
            scope,
            tracking_scope,
            Some(kept),
            result,
            now,
        ) is None,
        ended_update(scope, tracking_scope, None, result, now) is None,
        kept.state == Some("running"@) && tracking_scope == "local"@ ==> (ended_update(
            scope,
            tracking_scope,
            Some(kept),
            result,
            now,
        ) matches Some(ActionView::UpsertSession { session_id, input }) && session_id
            == scope.session_id && is_update_of(input, kept, result, "event"@, now)),
        kept.state == Some("running"@) && tracking_scope == "workspace"@ ==> (ended_update(
            scope,
            tracking_scope,
            Some(kept),
            result,
            now,
        ) matches Some(ActionView::UpsertWorkdir { session_id, workdir, input }) && session_id
            == scope.session_id && workdir == scope.workdir && is_update_of(
            input,
            kept,
            result,
            "event"@,
            now,
        )),
{
    lemma_scope_names();
    reveal_strlit("event");
    reveal_strlit("stop");
    assert("event"@.len() == 5 && "stop"@.len() == 4);
    law_records_are_brought_up_to_date(kept, result, "event"@, now);
}

// ---------------------------------------------------------------------------
// What a task shows
// ---------------------------------------------------------------------------

/// The text of a finished task starts with its output and ends with the size of it and the
/// exit code; that of a task that goes on starts with its output so far.
pub proof fn law_output_is_shown(result: JsonView, text: Seq<char>)
    requires
        result.field2("output"@, "text"@) == Some(JsonView::Str(text)),
    ensures
        has_prefix(run_text(result), text) || result.field2("metadata"@, "exitCode"@) is None
            && result.field2("metadata"@, "asyncID"@) is None,
        result.field2("metadata"@, "exitCode"@) matches Some(code) ==> {
            &&& has_suffix(run_text(result), "bytes\nexitcode:"@ + plain(code))
            &&& result.field2("metadata"@, "totalOutput"@) matches Some(JsonView::Int(n)) ==> 0 <= n
                <= u64::MAX ==> has_suffix(
                run_text(result),
                "totaloutput:"@ + decimal(n) + "bytes\nexitcode:"@ + plain(code),
            )
        },
{
    let t = run_text(result);
    match result.field2("metadata"@, "exitCode"@) {
        Some(code) => {
            let n = crate::exbash::completed_bytes(result, text);
            let a = "totaloutput:"@ + decimal(n) + "bytes"@;
            let b = "exitcode:"@ + plain(code);
            let w = crate::output::with_blank_line(text);
            let head = crate::exbash::footer_lines(result);
            assert(t == w + joined(head.push(a).push(b), "\n"@));
            assert(w.subrange(0, text.len() as int) =~= text);
            assert(t.subrange(0, text.len() as int) =~= text);
            lemma_last_lines(w, head, a, b);
            lemma_size_and_code(decimal(n), plain(code));
            let short = "bytes\nexitcode:"@ + plain(code);
            let tail = a + "\n"@ + b;
            assert(t.subrange(t.len() - tail.len(), t.len() as int) == tail);
            assert(t.subrange(t.len() - short.len(), t.len() as int) =~= tail.subrange(
                tail.len() - short.len(),
                tail.len() as int,
            ));
            assert(tail.subrange(tail.len() - short.len(), tail.len() as int) =~= short);
            assert("totaloutput:"@ + decimal(n) + "bytes\nexitcode:"@ + plain(code) =~= tail);
        },
        None => {
            if result.field2("metadata"@, "asyncID"@) is Some {
                lemma_output_first(result, text);
            }
        },
    }
}

proof fn lemma_last_lines(w: Seq<char>, head: Seq<Seq<char>>, a: Seq<char>, b: Seq<char>)
    ensures
        has_suffix(w + joined(head.push(a).push(b), "\n"@), a + "\n"@ + b),
{
    let footer = head.push(a).push(b);
    assert(footer.drop_last() =~= head.push(a));
    assert(head.push(a).drop_last() =~= head);
    let k = joined(head.push(a), "\n"@);
    let t = w + joined(footer, "\n"@);
    assert(joined(footer, "\n"@) == k + "\n"@ + b);
    let tail = a + "\n"@ + b;
    if head.len() > 0 {
        assert(k == joined(head, "\n"@) + "\n"@ + a);
    } else {
        assert(k == a);
    }
    assert(t.subrange(t.len() - tail.len(), t.len() as int) =~= tail);
}

proof fn lemma_size_and_code(size: Seq<char>, code: Seq<char>)
    ensures
        "totaloutput:"@ + size + "bytes"@ + "\n"@ + ("exitcode:"@ + code) == "totaloutput:"@ + size + (
        "bytes\nexitcode:"@ + code),
{
    reveal_strlit("\n");
    reveal_strlit("bytes");
    reveal_strlit("exitcode:");
    reveal_strlit("bytes\nexitcode:");
    assert("bytes"@ + "\n"@ + "exitcode:"@ =~= "bytes\nexitcode:"@);
    assert("totaloutput:"@ + size + "bytes"@ + "\n"@ + ("exitcode:"@ + code) =~= "totaloutput:"@
        + size + ("bytes"@ + "\n"@ + "exitcode:"@) + code);
    assert("totaloutput:"@ + size + "bytes\nexitcode:"@ + code =~= "totaloutput:"@ + size + (
    "bytes\nexitcode:"@ + code));
}

proof fn lemma_output_first(result: JsonView, text: Seq<char>)
    requires
        result.field2("output"@, "text"@) == Some(JsonView::Str(text)),
        result.field2("metadata"@, "exitCode"@) is None,
        result.field2("metadata"@, "asyncID"@) is Some,
    ensures
        has_prefix(run_text(result), text),
{
    let t = run_text(result);
    let f = crate::output::with_footer(text, crate::exbash::footer_lines(result));
    assert(f.subrange(0, text.len() as int) =~= text);
    let message = crate::output::text_or_empty(result.field2("output"@, "message"@));
    let g = if message.len() > 0 {
        crate::output::with_line(f, message)
    } else {
        f
    };
    assert(g.subrange(0, text.len() as int) =~= text);
    assert(t.subrange(0, text.len() as int) =~= text);
}

// ---------------------------------------------------------------------------
// What is told of what was kept and forgotten
// ---------------------------------------------------------------------------

proof fn lemma_told_names()
    ensures
        "metadata"@ != "asyncID"@,
        "metadata"@ != "executor"@,
        "metadata"@ != "warning"@,
        "metadata"@ != "hostCleanup"@,
        "metadata"@ != "code"@,
        "metadata"@ != "message"@,
        "metadata"@ != "localRemoved"@,
        "metadata"@ != "workspaceRemoved"@,
        "metadata"@ != "hostSnapshots"@,
        "metadata"@ != "hostWarning"@,
        "metadata"@ != "scope"@,
        "metadata"@ != "reason"@,
        "metadata"@ != "removedCount"@,
        "metadata"@ != "removed"@,
        "metadata"@ != "state"@,
        "metadata"@ != "startedAt"@,
        "metadata"@ != "endedAt"@,
        "metadata"@ != "totalOutput"@,
        "metadata"@ != "output"@,
        "metadata"@ != "result"@,
        "asyncID"@ != "executor"@,
        "asyncID"@ != "warning"@,
        "asyncID"@ != "hostCleanup"@,
        "asyncID"@ != "code"@,
        "asyncID"@ != "message"@,
        "asyncID"@ != "localRemoved"@,
        "asyncID"@ != "workspaceRemoved"@,
        "asyncID"@ != "hostSnapshots"@,
        "asyncID"@ != "hostWarning"@,
        "asyncID"@ != "scope"@,
        "asyncID"@ != "reason"@,
        "asyncID"@ != "removedCount"@,
        "asyncID"@ != "removed"@,
        "asyncID"@ != "state"@,
        "asyncID"@ != "startedAt"@,
        "asyncID"@ != "endedAt"@,
        "asyncID"@ != "totalOutput"@,
        "asyncID"@ != "output"@,
        "asyncID"@ != "result"@,
        "executor"@ != "warning"@,
        "executor"@ != "hostCleanup"@,
        "executor"@ != "code"@,
        "executor"@ != "message"@,
        "executor"@ != "localRemoved"@,
        "executor"@ != "workspaceRemoved"@,
        "executor"@ != "hostSnapshots"@,
        "executor"@ != "hostWarning"@,
        "executor"@ != "scope"@,
        "executor"@ != "reason"@,
        "executor"@ != "removedCount"@,
        "executor"@ != "removed"@,
        "executor"@ != "state"@,
        "executor"@ != "startedAt"@,
        "executor"@ != "endedAt"@,
        "executor"@ != "totalOutput"@,
        "executor"@ != "output"@,
        "executor"@ != "result"@,
        "warning"@ != "hostCleanup"@,
        "warning"@ != "code"@,
        "warning"@ != "message"@,
        "warning"@ != "localRemoved"@,
        "warning"@ != "workspaceRemoved"@,
        "warning"@ != "hostSnapshots"@,
        "warning"@ != "hostWarning"@,
        "warning"@ != "scope"@,
        "warning"@ != "reason"@,
        "warning"@ != "removedCount"@,
        "warning"@ != "removed"@,
        "warning"@ != "state"@,
        "warning"@ != "startedAt"@,
        "warning"@ != "endedAt"@,
        "warning"@ != "totalOutput"@,
        "warning"@ != "output"@,
        "warning"@ != "result"@,
        "hostCleanup"@ != "code"@,
        "hostCleanup"@ != "message"@,
        "hostCleanup"@ != "localRemoved"@,
        "hostCleanup"@ != "workspaceRemoved"@,
        "hostCleanup"@ != "hostSnapshots"@,
        "hostCleanup"@ != "hostWarning"@,
        "hostCleanup"@ != "scope"@,
        "hostCleanup"@ != "reason"@,
        "hostCleanup"@ != "removedCount"@,
        "hostCleanup"@ != "removed"@,
        "hostCleanup"@ != "state"@,
        "hostCleanup"@ != "startedAt"@,
        "hostCleanup"@ != "endedAt"@,
        "hostCleanup"@ != "totalOutput"@,
        "hostCleanup"@ != "output"@,
        "hostCleanup"@ != "result"@,
        "code"@ != "message"@,
        "code"@ != "localRemoved"@,
        "code"@ != "workspaceRemoved"@,
        "code"@ != "hostSnapshots"@,
        "code"@ != "hostWarning"@,
        "code"@ != "scope"@,
        "code"@ != "reason"@,
        "code"@ != "removedCount"@,
        "code"@ != "removed"@,
        "code"@ != "state"@,
        "code"@ != "startedAt"@,
        "code"@ != "endedAt"@,
        "code"@ != "totalOutput"@,
        "code"@ != "output"@,
        "code"@ != "result"@,
        "message"@ != "localRemoved"@,
        "message"@ != "workspaceRemoved"@,
        "message"@ != "hostSnapshots"@,
        "message"@ != "hostWarning"@,
        "message"@ != "scope"@,
        "message"@ != "reason"@,
        "message"@ != "removedCount"@,
        "message"@ != "removed"@,
        "message"@ != "state"@,
        "message"@ != "startedAt"@,
        "message"@ != "endedAt"@,
        "message"@ != "totalOutput"@,
        "message"@ != "output"@,
        "message"@ != "result"@,
        "localRemoved"@ != "workspaceRemoved"@,
        "localRemoved"@ != "hostSnapshots"@,
        "localRemoved"@ != "hostWarning"@,
        "localRemoved"@ != "scope"@,
        "localRemoved"@ != "reason"@,
        "localRemoved"@ != "removedCount"@,
        "localRemoved"@ != "removed"@,
        "localRemoved"@ != "state"@,
        "localRemoved"@ != "startedAt"@,
        "localRemoved"@ != "endedAt"@,
        "localRemoved"@ != "totalOutput"@,
        "localRemoved"@ != "output"@,
        "localRemoved"@ != "result"@,
        "workspaceRemoved"@ != "hostSnapshots"@,
        "workspaceRemoved"@ != "hostWarning"@,
        "workspaceRemoved"@ != "scope"@,
        "workspaceRemoved"@ != "reason"@,
        "workspaceRemoved"@ != "removedCount"@,
        "workspaceRemoved"@ != "removed"@,
        "workspaceRemoved"@ != "state"@,
        "workspaceRemoved"@ != "startedAt"@,
        "workspaceRemoved"@ != "endedAt"@,
        "workspaceRemoved"@ != "totalOutput"@,
        "workspaceRemoved"@ != "output"@,
        "workspaceRemoved"@ != "result"@,
        "hostSnapshots"@ != "hostWarning"@,
        "hostSnapshots"@ != "scope"@,
        "hostSnapshots"@ != "reason"@,
        "hostSnapshots"@ != "removedCount"@,
        "hostSnapshots"@ != "removed"@,
        "hostSnapshots"@ != "state"@,
        "hostSnapshots"@ != "startedAt"@,
        "hostSnapshots"@ != "endedAt"@,
        "hostSnapshots"@ != "totalOutput"@,
        "hostSnapshots"@ != "output"@,
        "hostSnapshots"@ != "result"@,
        "hostWarning"@ != "scope"@,
        "hostWarning"@ != "reason"@,
        "hostWarning"@ != "removedCount"@,
        "hostWarning"@ != "removed"@,
        "hostWarning"@ != "state"@,
        "hostWarning"@ != "startedAt"@,
        "hostWarning"@ != "endedAt"@,
        "hostWarning"@ != "totalOutput"@,
        "hostWarning"@ != "output"@,
        "hostWarning"@ != "result"@,
        "scope"@ != "reason"@,
        "scope"@ != "removedCount"@,
        "scope"@ != "removed"@,
        "scope"@ != "state"@,
        "scope"@ != "startedAt"@,
        "scope"@ != "endedAt"@,
        "scope"@ != "totalOutput"@,
        "scope"@ != "output"@,
        "scope"@ != "result"@,
        "reason"@ != "removedCount"@,
        "reason"@ != "removed"@,
        "reason"@ != "state"@,
        "reason"@ != "startedAt"@,
        "reason"@ != "endedAt"@,
        "reason"@ != "totalOutput"@,
        "reason"@ != "output"@,
        "reason"@ != "result"@,
        "removedCount"@ != "removed"@,
        "removedCount"@ != "state"@,
        "removedCount"@ != "startedAt"@,
        "removedCount"@ != "endedAt"@,
        "removedCount"@ != "totalOutput"@,
        "removedCount"@ != "output"@,
        "removedCount"@ != "result"@,
        "removed"@ != "state"@,
        "removed"@ != "startedAt"@,
        "removed"@ != "endedAt"@,
        "removed"@ != "totalOutput"@,
        "removed"@ != "output"@,
        "removed"@ != "result"@,
        "state"@ != "startedAt"@,
        "state"@ != "endedAt"@,
        "state"@ != "totalOutput"@,
        "state"@ != "output"@,
        "state"@ != "result"@,
        "startedAt"@ != "endedAt"@,
        "startedAt"@ != "totalOutput"@,
        "startedAt"@ != "output"@,
        "startedAt"@ != "result"@,
        "endedAt"@ != "totalOutput"@,
        "endedAt"@ != "output"@,
        "endedAt"@ != "result"@,
        "totalOutput"@ != "output"@,
        "totalOutput"@ != "result"@,
        "output"@ != "result"@,
{
    reveal_strlit("metadata");
    reveal_strlit("asyncID");
    reveal_strlit("executor");
    reveal_strlit("warning");
    reveal_strlit("hostCleanup");
    reveal_strlit("code");
    reveal_strlit("message");
    reveal_strlit("localRemoved");
    reveal_strlit("workspaceRemoved");
    reveal_strlit("hostSnapshots");
    reveal_strlit("hostWarning");
    reveal_strlit("scope");
    reveal_strlit("reason");
    reveal_strlit("removedCount");
    reveal_strlit("removed");
    reveal_strlit("state");
    reveal_strlit("startedAt");
    reveal_strlit("endedAt");
    reveal_strlit("totalOutput");
    reveal_strlit("output");
    reveal_strlit("result");
    assert("metadata"@.len() == 8);
    assert("asyncID"@.len() == 7);
    assert("executor"@.len() == 8);
    assert("warning"@.len() == 7);
    assert("hostCleanup"@.len() == 11);
    assert("code"@.len() == 4);
    assert("message"@.len() == 7);
    assert("localRemoved"@.len() == 12);
    assert("workspaceRemoved"@.len() == 16);
    assert("hostSnapshots"@.len() == 13);
    assert("hostWarning"@.len() == 11);
    assert("scope"@.len() == 5);
    assert("reason"@.len() == 6);
    assert("removedCount"@.len() == 12);
    assert("removed"@.len() == 7);
    assert("state"@.len() == 5);
    assert("startedAt"@.len() == 9);
    assert("endedAt"@.len() == 7);
    assert("totalOutput"@.len() == 11);
    assert("output"@.len() == 6);
    assert("result"@.len() == 6);
    assert("metadata"@[0] == 'm' && "executor"@[0] == 'e');
    assert("asyncID"@[0] == 'a' && "warning"@[0] == 'w');
    assert("asyncID"@[0] == 'a' && "message"@[0] == 'm');
    assert("asyncID"@[0] == 'a' && "removed"@[0] == 'r');
    assert("asyncID"@[0] == 'a' && "endedAt"@[0] == 'e');
    assert("warning"@[0] == 'w' && "message"@[0] == 'm');
    assert("warning"@[0] == 'w' && "removed"@[0] == 'r');
    assert("warning"@[0] == 'w' && "endedAt"@[0] == 'e');
    assert("hostCleanup"@[4] == 'C' && "hostWarning"@[4] == 'W');
    assert("hostCleanup"@[0] == 'h' && "totalOutput"@[0] == 't');
    assert("message"@[0] == 'm' && "removed"@[0] == 'r');
    assert("message"@[0] == 'm' && "endedAt"@[0] == 'e');
    assert("localRemoved"@[0] == 'l' && "removedCount"@[0] == 'r');
    assert("hostWarning"@[0] == 'h' && "totalOutput"@[0] == 't');
    assert("scope"@[1] == 'c' && "state"@[1] == 't');
    assert("reason"@[0] == 'r' && "output"@[0] == 'o');
    assert("reason"@[2] == 'a' && "result"@[2] == 's');
    assert("removed"@[0] == 'r' && "endedAt"@[0] == 'e');
    assert("output"@[0] == 'o' && "result"@[0] == 'r');
}

/// The answer warns that a task of the local executor was lost: it names the task, gives the reason,
/// and tells where the task was forgotten.
pub open spec fn warns_of_lost(
    r: McpCallResultView,
    async_id: Seq<char>,
    message: Seq<char>,
    in_session: bool,
    in_workspace: bool,
) -> bool {
    &&& r.structured_content matches Some(c) && {
        &&& c.field2("metadata"@, "asyncID"@) == Some(JsonView::Str(async_id))
        &&& c.field2("metadata"@, "executor"@) == Some(JsonView::Str("local"@))
        &&& c.field3("metadata"@, "warning"@, "message"@) == Some(JsonView::Str(message))
        &&& c.field3("metadata"@, "warning"@, "code"@) == Some(JsonView::Str("notReplayable"@))
        &&& c.field3("metadata"@, "hostCleanup"@, "localRemoved"@) == Some(
            JsonView::Bool(in_session),
        )
        &&& c.field3("metadata"@, "hostCleanup"@, "workspaceRemoved"@) == Some(
            JsonView::Bool(in_workspace),
        )
    }
    &&& has_prefix(
        r.content[0].text,
        "warning: notReplayable\nasyncID:"@ + async_id + "\nexecutor:local\nmessage:"@ + message,
    )
}

proof fn lemma_lost_answer(
    async_id: Seq<char>,
    message: Seq<char>,
    in_session: bool,
    in_workspace: bool,
)
    requires
        tells_lost_connection(message),
    ensures
        warns_of_lost(
            lost_answer(
                async_id,
                "local"@,
                message,
                removal_report(async_id, "local"@, in_session, in_workspace),
            ),
            async_id,
            message,
            in_session,
            in_workspace,
        ),
{
    lemma_told_names();
    let report = removal_report(async_id, "local"@, in_session, in_workspace);
    let r = lost_answer(async_id, "local"@, message, report);
    reveal_strlit("warning: ");
    reveal_strlit("notReplayable");
    reveal_strlit("\nasyncID:");
    reveal_strlit("\nexecutor:");
    reveal_strlit("local");
    reveal_strlit("\nmessage:");
    reveal_strlit("warning: notReplayable\nasyncID:");
    reveal_strlit("\nexecutor:local\nmessage:");
    let one = "warning: notReplayable\nasyncID:"@;
    let two = "\nexecutor:local\nmessage:"@;
    assert("warning: "@ + "notReplayable"@ + "\nasyncID:"@ =~= one);
    assert("\nexecutor:"@ + "local"@ + "\nmessage:"@ =~= two);
    let head = one + async_id + two + message;
    let text = "warning: "@ + "notReplayable"@ + "\nasyncID:"@ + async_id + "\nexecutor:"@
        + "local"@ + "\nmessage:"@ + message + "\nhostCleanup:"@ + crate::json::compact(report);
    assert(r.content[0].text == text);
    assert(text =~= head + ("\nhostCleanup:"@ + crate::json::compact(report)));
    assert(text.subrange(0, head.len() as int) =~= head);
}

/// A task that the local executor lost is forgotten, and the answer warns of it. Where the executor
/// does not know the task, it is forgotten too, and the failure is the answer.
pub proof fn law_lost_tasks_are_forgotten(
    call: CallView,
    session_id: Seq<char>,
    workdir: Seq<char>,
    async_id: Seq<char>,
    message: Seq<char>,
    in_session: bool,
    in_workspace: bool,
    now: i64,
)
    requires
        is_for_local_task(call, session_id, workdir, "remove"@, async_id),
        has_text(lowered(message), "connection"@) || has_text(lowered(message), "timed out"@)
            || has_text(lowered(message), "not found"@),
    ensures
        ({
            let reply = ExecutorReplyView { ok: false, error: Some(message), result: None };
            let first = reached_with(workdir, reply, now).push(
                (EventView::Removed(Ok(in_session)), now),
            );
            let both = first.push((EventView::Removed(Ok(in_workspace)), now));
            let missing = has_text(lowered(message), "not found"@) || has_text(
                lowered(message),
                "does not exist"@,
            ) || has_text(lowered(message), "async run not found"@);
            &&& action_at(call, first, 3) == Some(
                ActionView::RemoveWorkdir { session_id, workdir, async_id, executor: "local"@ },
            )
            &&& missing ==> (call_at(call, both, 4) matches StepView::Done(Err(err)) && err.message
                == message)
            &&& !missing ==> (call_at(call, both, 4) matches StepView::Done(Ok(r))
                && warns_of_lost(r, async_id, message, in_session, in_workspace))
        }),
{
    let arguments = call.arguments;
    let scope = CallScopeView { session_id, workdir };
    let ex = exbash_call(arguments);
    let reply = ExecutorReplyView { ok: false, error: Some(message), result: None };
    let e = reached_with(workdir, reply, now);
    let first = e.push((EventView::Removed(Ok(in_session)), now));
    let both = first.push((EventView::Removed(Ok(in_workspace)), now));
    lemma_mode_names();
    lemma_not_list(arguments, "remove"@);
    lemma_reached_local(call, session_id, workdir, "remove"@, async_id, first, reply);
    lemma_reached_local(call, session_id, workdir, "remove"@, async_id, both, reply);
    lemma_goes_on_as_exbash(call, session_id, workdir, first, 3);
    lemma_goes_on_as_exbash(call, session_id, workdir, both, 4);
    let asked = failed_step(scope, ex, failure(message));
    assert(asked is Ask);
    assert(first.skip(1)[1] == first[2]);
    assert(both.skip(1)[1] == first[2] && both.skip(1)[2] == both[3]);
    let second = exbash_next(asked->Ask_0, scope, first[2].0, now);
    assert(exbash_at(scope, arguments, first.skip(1), 2) == second);
    assert(exbash_at(scope, arguments, both.skip(1), 2) == second);
    let last = exbash_next(second->Ask_0, scope, both[3].0, now);
    assert(exbash_at(scope, arguments, both.skip(1), 3) == last);
    if !tells_missing(message) {
        assert(tells_lost_connection(message));
        lemma_lost_answer(async_id, message, in_session, in_workspace);
    }
}

/// The structured content shows the tasks as they are kept.
pub open spec fn shows_all_kept(
    content: Option<JsonView>,
    kept: Seq<ExbashTaskSnapshotView>,
) -> bool {
    content matches Some(c) && (c.field2("metadata"@, "hostSnapshots"@) matches Some(
        JsonView::Arr(items),
    ) && items.len() == kept.len() && forall|i: int|
        0 <= i < kept.len() ==> #[trigger] items[i] == snapshot_json(kept[i]))
}

/// A task is looked up under the id and the executor that the result tells, else under those of
/// the call; the answer shows every record that was brought up to date.
pub proof fn law_updates_are_shown(
    call: CallView,
    session_id: Seq<char>,
    workdir: Seq<char>,
    mode: Seq<char>,
    async_id: Seq<char>,
    result: JsonView,
    kept: ExbashTaskSnapshotView,
    first: ExbashTaskSnapshotView,
    second: ExbashTaskSnapshotView,
    now: i64,
)
    requires
        is_for_local_task(call, session_id, workdir, mode, async_id),
        mode != "remove"@,
        result is Obj,
        result.field("metadata"@) is None || result.field("metadata"@)->0 is Obj,
    ensures
        ({
            let reply = ExecutorReplyView { ok: true, error: None, result: Some(result) };
            let e = reached_with(workdir, reply, now);
            let known = e.push((EventView::Lookup(Ok(Some(kept))), now));
            let written = known.push((EventView::Snapshot(Ok(first)), now));
            let none = written.push((EventView::Lookup(Ok(None)), now));
            let both = written.push((EventView::Lookup(Ok(Some(kept))), now)).push(
                (EventView::Snapshot(Ok(second)), now),
            );
            let id = match told(result, "asyncID"@) {
                Some(a) => a,
                None => async_id,
            };
            let executor = match told(result, "executor"@) {
                Some(x) => x,
                None => "local"@,
            };
            &&& action_at(call, e, 2) == Some(
                ActionView::SessionSnapshot { session_id, async_id: id, executor },
            )
            &&& action_at(call, written, 4) == Some(
                ActionView::WorkdirSnapshot { session_id, workdir, async_id: id, executor },
            )
            &&& call_at(call, none, 5) matches StepView::Done(Ok(r)) && shows_all_kept(
                r.structured_content,
                seq![first],
            )
            &&& call_at(call, both, 6) matches StepView::Done(Ok(r)) && shows_all_kept(
                r.structured_content,
                seq![first, second],
            )
        }),
{
    let arguments = call.arguments;
    let scope = CallScopeView { session_id, workdir };
    let ex = exbash_call(arguments);
    let reply = ExecutorReplyView { ok: true, error: None, result: Some(result) };
    let e = reached_with(workdir, reply, now);
    let known = e.push((EventView::Lookup(Ok(Some(kept))), now));
    let written = known.push((EventView::Snapshot(Ok(first)), now));
    let none = written.push((EventView::Lookup(Ok(None)), now));
    let again = written.push((EventView::Lookup(Ok(Some(kept))), now));
    let both = again.push((EventView::Snapshot(Ok(second)), now));
    let id = match told(result, "asyncID"@) {
        Some(a) => a,
        None => async_id,
    };
    let executor = match told(result, "executor"@) {
        Some(x) => x,
        None => "local"@,
    };
    lemma_mode_names();
    lemma_result_names();
    lemma_told_names();
    lemma_not_list(arguments, mode);
    lemma_reached_local(call, session_id, workdir, mode, async_id, e, reply);
    lemma_reached_local(call, session_id, workdir, mode, async_id, written, reply);
    lemma_reached_local(call, session_id, workdir, mode, async_id, none, reply);
    lemma_reached_local(call, session_id, workdir, mode, async_id, both, reply);
    lemma_goes_on_as_exbash(call, session_id, workdir, e, 2);
    lemma_goes_on_as_exbash(call, session_id, workdir, written, 4);
    lemma_goes_on_as_exbash(call, session_id, workdir, none, 5);
    lemma_goes_on_as_exbash(call, session_id, workdir, both, 6);
    let routed = with_route(result, "local"@);
    assert(told(routed, "asyncID"@) == told(result, "asyncID"@));
    assert(subject(ex, routed) == Some((id, executor)));
    assert(input_of_new(routed, ex.mode, ex.description) is None);
    let s1 = ran_step(scope, ex, None, routed);
    assert(s1->Ask_0 == (ExbashStageView::FirstLookup { ex, value: routed, async_id: id, executor }));
    let s2 = exbash_next(s1->Ask_0, scope, known[2].0, now);
    let s3 = exbash_next(s2->Ask_0, scope, written[3].0, now);
    let s4 = exbash_next(s3->Ask_0, scope, none[4].0, now);
    let t4 = exbash_next(s3->Ask_0, scope, again[4].0, now);
    let t5 = exbash_next(t4->Ask_0, scope, both[5].0, now);
    lemma_steps_written(scope, arguments, written.skip(1), s1, s2, s3, known[2].0, written[3].0, now);
    lemma_steps_written(scope, arguments, none.skip(1), s1, s2, s3, known[2].0, written[3].0, now);
    lemma_steps_written(scope, arguments, both.skip(1), s1, s2, s3, known[2].0, written[3].0, now);
    assert(none.skip(1)[3] == none[4]);
    assert(exbash_at(scope, arguments, none.skip(1), 4) == s4);
    assert(both.skip(1)[3] == again[4] && both.skip(1)[4] == both[5]);
    assert(exbash_at(scope, arguments, both.skip(1), 4) == t4);
    assert(exbash_at(scope, arguments, both.skip(1), 5) == t5);
    assert(seq![first].push(second) =~= seq![first, second]);
    let one = noted(routed, "hostSnapshots"@, snapshots_json(seq![first]));
    let two = noted(routed, "hostSnapshots"@, snapshots_json(seq![first, second]));
    assert(one.field2("metadata"@, "hostSnapshots"@) == Some(snapshots_json(seq![first])));
    assert(two.field2("metadata"@, "hostSnapshots"@) == Some(snapshots_json(seq![first, second])));
    assert(exbash_answer(ex, one) matches Ok(r) && shows_all_kept(
        r.structured_content,
        seq![first],
    ));
    assert(exbash_answer(ex, two) matches Ok(r) && shows_all_kept(
        r.structured_content,
        seq![first, second],
    ));
}

proof fn lemma_steps_written(
    scope: CallScopeView,
    arguments: JsonView,
    events: Seq<(EventView, i64)>,
    s1: ExbashStepView,
    s2: ExbashStepView,
    s3: ExbashStepView,
    e1: EventView,
    e2: EventView,
    now: i64,
)
    requires
        events.len() >= 3,
        events[1] == (e1, now),
        events[2] == (e2, now),
        exbash_at(scope, arguments, events, 1) == s1,
        s1 is Ask,
        s2 == exbash_next(s1->Ask_0, scope, e1, now),
        s2 is Ask,
        s3 == exbash_next(s2->Ask_0, scope, e2, now),
    ensures
        exbash_at(scope, arguments, events, 2) == s2,
        exbash_at(scope, arguments, events, 3) == s3,
{
    assert(exbash_at(scope, arguments, events, 2) == s2);
}

/// A new task that the host could not take in runs all the same, and the answer warns of it with
/// the reason.
pub proof fn law_failed_records_are_told(
    call: CallView,
    session_id: Seq<char>,
    workdir: Seq<char>,
    result: JsonView,
    message: Seq<char>,
    now: i64,
)
    requires
        call.name == "exbash"@,
        is_for_session(call, session_id),
        trimmed(workdir).len() > 0,
        asks_for_task(call.arguments),
        stays_local(call.arguments),
        is_kept_in(call.arguments, "local"@) || is_kept_in(call.arguments, "workspace"@),
        told(result, "asyncID"@) is Some,
    ensures
        ({
            let reply = ExecutorReplyView { ok: true, error: None, result: Some(result) };
            let events = started_with(workdir, reply, now).push(
                (EventView::Snapshot(Err(message)), now),
            );
            call_at(call, events, 4) matches StepView::Done(Ok(r)) && (
            r.structured_content matches Some(c) && c.field3(
                "metadata"@,
                "hostWarning"@,
                "message"@,
            ) == Some(JsonView::Str(message)) && c.field3("metadata"@, "hostWarning"@, "code"@)
                == Some(JsonView::Str("hostTrackingWriteFailed"@)) && c.field2(
                "metadata"@,
                "asyncID"@,
            ) == result.field2("metadata"@, "asyncID"@))
        }),
{
    let arguments = call.arguments;
    let scope = CallScopeView { session_id, workdir };
    let ex = exbash_call(arguments);
    let reply = ExecutorReplyView { ok: true, error: None, result: Some(result) };
    let start = started_with(workdir, reply, now);
    let events = start.push((EventView::Snapshot(Err(message)), now));
    lemma_arguments_read(arguments);
    lemma_scope_names();
    lemma_mode_names();
    lemma_told_names();
    lemma_result_names();
    lemma_goes_on_as_exbash(call, session_id, workdir, events, 4);
    let own = events.skip(1);
    assert(own[0] == start[1] && own[1] == start[2] && own[2] == events[3]);
    lemma_started_local(scope, arguments, own, result);
    let routed = with_route(result, "local"@);
    lemma_record(result, routed);
    lemma_filled_again(arguments, "description"@);
    let s2 = ran_step(scope, ex, None, routed);
    assert(s2->Ask_0 == (ExbashStageView::Upsert { ex, value: routed }));
    let s3 = exbash_next(s2->Ask_0, scope, events[3].0, now);
    assert(exbash_at(scope, arguments, own, 3) == s3);
    assert(creates_task(ex.mode));
}

/// Where room was made for a task, the answer tells what was forgotten for it and why.
pub proof fn law_made_room_is_told(
    call: CallView,
    session_id: Seq<char>,
    workdir: Seq<char>,
    message: Seq<char>,
    task: ExbashTaskSnapshotView,
    result: JsonView,
    now: i64,
)
    requires
        call.name == "exbash"@,
        is_for_session(call, session_id),
        trimmed(workdir).len() > 0,
        asks_for_task(call.arguments),
        stays_local(call.arguments),
        is_kept_in(call.arguments, "local"@),
        has_text(lowered(message), "stack is full"@),
        has_ended_undescribed(task),
        result is Obj,
        result.field("metadata"@) is None,
    ensures
        ({
            let reply = ExecutorReplyView { ok: true, error: None, result: Some(result) };
            let events = seq![
                (EventView::Text(Ok(workdir)), now),
                (EventView::Done(Err(message)), now),
                (EventView::Tasks(Ok(seq![task])), now),
                (EventView::Removed(Ok(true)), now),
                (EventView::Done(Ok(())), now),
                (EventView::Reply(reply), now),
            ];
            call_at(call, events, 6) matches StepView::Done(Ok(r)) && (
            r.structured_content matches Some(c) && (c.field2(
                "metadata"@,
                "hostCleanup"@,
            ) matches Some(report) && {
                &&& report.field("scope"@) == Some(JsonView::Str("local"@))
                &&& report.field("message"@) == Some(JsonView::Str(message))
                &&& report.field("removedCount"@) == Some(JsonView::Int(1))
                &&& report.field("removed"@) matches Some(JsonView::Arr(removed)) && {
                    &&& removed.len() == 1
                    &&& removed[0].field("asyncID"@) == Some(JsonView::Str(task.async_id))
                    &&& removed[0].field("executor"@) == Some(JsonView::Str(task.executor))
                    &&& task.state matches Some(s) ==> removed[0].field("state"@) == Some(
                        JsonView::Str(s),
                    )
                    &&& task.started_at matches Some(n) ==> removed[0].field("startedAt"@) == Some(
                        JsonView::Int(n as int),
                    )
                    &&& task.ended_at matches Some(n) ==> removed[0].field("endedAt"@) == Some(
                        JsonView::Int(n as int),
                    )
                    &&& task.total_output matches Some(n) ==> removed[0].field("totalOutput"@)
                        == Some(JsonView::Int(n as int))
                }
            }))
        }),
{
    let arguments = call.arguments;
    let scope = CallScopeView { session_id, workdir };
    let ex = exbash_call(arguments);
    let reply = ExecutorReplyView { ok: true, error: None, result: Some(result) };
    let events = seq![
        (EventView::Text(Ok(workdir)), now),
        (EventView::Done(Err(message)), now),
        (EventView::Tasks(Ok(seq![task])), now),
        (EventView::Removed(Ok(true)), now),
        (EventView::Done(Ok(())), now),
        (EventView::Reply(reply), now),
    ];
    lemma_arguments_read(arguments);
    lemma_scope_names();
    lemma_mode_names();
    lemma_told_names();
    lemma_result_names();
    lemma_opens(arguments);
    assert(is_kept_in(arguments, ex.tracking_scope));
    assert(ex.tracking_scope == "local"@);
    lemma_goes_on_as_exbash(call, session_id, workdir, events, 6);
    law_room_is_made_by_ended_tasks(seq![task], 0);
    assert(seq![task].drop_last() =~= Seq::empty());
    reveal_with_fuel(candidates, 2);
    assert(candidates(seq![task]) =~= seq![task]) by {
        if !is_cleanup_candidate(task) {
            assert(candidates(seq![task]) =~= Seq::empty());
        }
    }
    assert(seq![task].drop_first() =~= Seq::empty());
    let own = events.skip(1);
    assert(own[0] == events[1] && own[1] == events[2] && own[2] == events[3] && own[3] == events[4]
        && own[4] == events[5]);
    let s0 = exbash_begin(scope, arguments);
    assert(s0->Ask_0 == (ExbashStageView::Check { ex }));
    let s1 = exbash_next(s0->Ask_0, scope, events[1].0, now);
    let s2 = exbash_next(s1->Ask_0, scope, events[2].0, now);
    let s3 = exbash_next(s2->Ask_0, scope, events[3].0, now);
    let s4 = exbash_next(s3->Ask_0, scope, events[4].0, now);
    let s5 = exbash_next(s4->Ask_0, scope, events[5].0, now);
    assert(exbash_at(scope, arguments, own, 0) == s0);
    assert(exbash_at(scope, arguments, own, 1) == s1);
    assert(exbash_at(scope, arguments, own, 2) == s2);
    assert(exbash_at(scope, arguments, own, 3) == s3);
    assert(exbash_at(scope, arguments, own, 4) == s4);
    assert(exbash_at(scope, arguments, own, 5) == s5);
    let removed = Seq::<JsonView>::empty().push(pruned_report(task));
    let report = cleanup_report(ex, message, removed);
    assert(s3->Ask_0 == (ExbashStageView::CheckAgain { ex, cleanup: report }));
    assert(s4 == run_step(scope, ex, Some(report)));
    let routed = with_route(result, "local"@);
    assert(s5 == ran_step(scope, ex, Some(report), routed));
    let value = noted(routed, "hostCleanup"@, report);
    assert(value.field2("metadata"@, "hostCleanup"@) == Some(report));
    assert(value.field2("metadata"@, "asyncID"@) is None);
    assert(input_of_new(value, ex.mode, ex.description) is None);
    assert(creates_task(ex.mode));
}

} // verus!
