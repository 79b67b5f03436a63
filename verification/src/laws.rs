//! What holds of every tool call.

use vstd::prelude::*;

use crate::args::asked_mode;
use crate::args::asked_scope;
use crate::args::patch_lacks_label;
use crate::args::CallScopeView;
use crate::args::PATCH_LABEL_MESSAGE;
use crate::calls::exec_next;
use crate::calls::ActionView;
use crate::calls::AnswerView;
use crate::calls::EventView;
use crate::calls::ExecCallView;
use crate::calls::StepView;
use crate::exbash_tool::candidates;
use crate::exbash_tool::exbash_begin;
use crate::exbash_tool::exbash_call;
use crate::exbash_tool::exbash_next;
use crate::exbash_tool::forgets_on_failure;
use crate::exbash_tool::lost_answer;
use crate::exbash_tool::prune_action;
use crate::exbash_tool::removal_report;
use crate::exbash_tool::subject;
use crate::exbash_tool::ExbashCallView;
use crate::exbash_tool::ExbashStageView;
use crate::exbash_tool::ExbashStepView;
use crate::exbash::creates_task;
use crate::exbash::input_after;
use crate::exbash::input_of_new;
use crate::exbash::is_cleanup_candidate;
use crate::exbash::remove_warning;
use crate::exbash::tells_lost_connection;
use crate::exbash::tells_missing;
use crate::exbash::tells_storage_rejection;
use crate::fields::filled;
use crate::fields::meta;
use crate::file_tool::file_begin;
use crate::file_tool::file_next;
use crate::file_tool::FileStageView;
use crate::json::JsonView;
use crate::jsonrpc::bad_params;
use crate::jsonrpc::no_such_method;
use crate::jsonrpc::JsonRpcErrorView;
use crate::list_tool::list_begin;
use crate::list_tool::list_next;
use crate::list_tool::ListStageView;
use crate::manager_tool::manager_begin;
use crate::manager_tool::manager_next;
use crate::manager_tool::ManagerStageView;
use crate::mcp::McpCallContextView;
use crate::mcp::EXECUTOR_SESSION_PARAM;
use crate::rg_tool::rg_begin;
use crate::rg_tool::rg_next;
use crate::rg_tool::RgStageView;
use crate::skill_tool::skill_begin;
use crate::skill_tool::skill_next;
use crate::skill_tool::SkillStageView;
use crate::tool_call::dispatched;
use crate::tool_call::tool_begin;
use crate::tool_call::tool_next;
use crate::tool_call::ToolStageView;
use crate::tool_call::ToolStepView;
use crate::types::ExbashTaskSnapshotView;

verus! {

// ---------------------------------------------------------------------------
// Refusals
// ---------------------------------------------------------------------------

pub open spec fn ends_with_error(e: JsonRpcErrorView) -> ToolStepView {
    StepView::Done(Err(e))
}

/// A call without a session is refused, and nothing is asked of the host.
pub proof fn law_no_call_without_session(
    name: Seq<char>,
    arguments: JsonView,
    context: McpCallContextView,
)
    requires
        filled(context.executor_session_id) is None,
    ensures
        tool_begin(name, arguments, context) == ends_with_error(
            bad_params(EXECUTOR_SESSION_PARAM@ + " is required"@),
        ),
{
}

/// A text patch that does not name its file by a label is refused before anything is
/// asked.
pub proof fn law_text_patch_needs_label(scope: CallScopeView, arguments: JsonView)
    requires
        patch_lacks_label(arguments),
    ensures
        dispatched(scope, "FileAction"@, arguments) == ends_with_error(
            bad_params(PATCH_LABEL_MESSAGE@),
        ),
{
}

/// The scope `remote` is for lists; any other use of it is refused before anything is
/// asked.
pub proof fn law_remote_scope_only_lists(scope: CallScopeView, arguments: JsonView)
    requires
        asked_scope(arguments) == "remote"@,
        asked_mode(arguments) != "list"@,
    ensures
        dispatched(scope, "exbash"@, arguments) matches StepView::Done(Err(_)),
{
    reveal_strlit("exbash");
    reveal_strlit("FileAction");
    reveal_strlit("read");
    assert("exbash"@.len() == 6 && "FileAction"@.len() == 10 && "read"@.len() == 4);
}

/// A tool that does not exist is answered by an error that names it.
pub proof fn law_unknown_tool_is_refused(
    scope: CallScopeView,
    name: Seq<char>,
    arguments: JsonView,
)
    requires
        name != "FileAction"@ && name != "read"@ && name != "exbash"@ && name != "skill"@ && name
            != "rg"@ && name != "RemoteExecutorManager"@,
    ensures
        dispatched(scope, name, arguments) == ends_with_error(no_such_method(name)),
{
}

// ---------------------------------------------------------------------------
// Room for a new task
// ---------------------------------------------------------------------------

/// The action has a tool run.
pub open spec fn runs_tool(action: ActionView) -> bool {
    action is Execute
}

/// A stage in which it is not settled whether there is room for a new task.
pub open spec fn awaits_room(stage: ExbashStageView) -> bool {
    stage is Check || stage is PruneList || stage is PruneRemove || stage is CheckAgain
}

/// The host agreed that there is room.
pub open spec fn grants_room(stage: ExbashStageView, event: EventView) -> bool {
    (stage is Check || stage is CheckAgain) && event matches EventView::Done(Ok(_))
}

/// A new task is started only after the host agreed that there is room for it: the call
/// begins with that question, and until the host agrees no tool runs.
pub proof fn law_no_task_without_room(
    scope: CallScopeView,
    arguments: JsonView,
    stage: ExbashStageView,
    event: EventView,
    now: i64,
)
    ensures
        creates_task(asked_mode(exbash_call(arguments).arguments)) ==> match exbash_begin(
            scope,
            arguments,
        ) {
            StepView::Ask(first, action) => awaits_room(first) && !runs_tool(action),
            StepView::Done(r) => r is Err,
        },
        awaits_room(stage) && !grants_room(stage, event) ==> match exbash_next(
            stage,
            scope,
            event,
            now,
        ) {
            StepView::Ask(later, action) => awaits_room(later) && !runs_tool(action),
            StepView::Done(r) => r is Err,
        },
{
}

/// Room is made only by forgetting tasks that have ended and that nobody described.
pub proof fn law_only_candidates_make_room(tasks: Seq<ExbashTaskSnapshotView>, i: int)
    requires
        0 <= i < candidates(tasks).len(),
    ensures
        is_cleanup_candidate(candidates(tasks)[i]),
        tasks.contains(candidates(tasks)[i]),
    decreases tasks.len(),
{
    let before = candidates(tasks.drop_last());
    if is_cleanup_candidate(tasks.last()) && i == before.len() {
        assert(tasks[tasks.len() - 1] == candidates(tasks)[i]);
    } else {
        law_only_candidates_make_room(tasks.drop_last(), i);
        let k = choose|k: int|
            0 <= k < tasks.drop_last().len() && tasks.drop_last()[k] == before[i];
        assert(tasks[k] == before[i]);
    }
}

// ---------------------------------------------------------------------------
// What is kept of tasks
// ---------------------------------------------------------------------------

/// A tool that fails ends the call with its error and leaves what is kept of tasks as it
/// is, except that a removal forgets a task that the local executor no longer has or that
/// cannot be reached there.
pub proof fn law_failure_keeps_the_records(
    scope: CallScopeView,
    call: ExecCallView,
    ex: ExbashCallView,
    cleanup: Option<JsonView>,
    event: EventView,
    error: JsonRpcErrorView,
    now: i64,
)
    requires
        exec_next(call, scope, event) == StepView::<ExecCallView, _>::Done(
            Err::<JsonView, JsonRpcErrorView>(error),
        ),
    ensures
        !forgets_on_failure(ex, error) ==> exbash_next(
            ExbashStageView::Run { call, ex, cleanup },
            scope,
            event,
            now,
        ) == StepView::<ExbashStageView, AnswerView>::Done(Err(error)),
        ex.executor != "local"@ ==> !forgets_on_failure(ex, error),
        ex.mode != "remove"@ ==> !forgets_on_failure(ex, error),
{
}

/// A removal that fails because the local executor has no such task, or cannot be reached,
/// has the task forgotten by the session and by the workspace. The answer is the error of the
/// executor that has no such task; where the executor could not be reached it is a warning.
pub proof fn law_lost_local_task_is_forgotten(
    scope: CallScopeView,
    call: ExecCallView,
    ex: ExbashCallView,
    event: EventView,
    error: JsonRpcErrorView,
    in_session: bool,
    in_workspace: bool,
    now: i64,
)
    requires
        exec_next(call, scope, event) == StepView::<ExecCallView, _>::Done(
            Err::<JsonView, JsonRpcErrorView>(error),
        ),
        forgets_on_failure(ex, error),
    ensures
        ({
            let async_id = ex.async_id->0;
            let first = exbash_next(
                ExbashStageView::Run { call, ex, cleanup: None },
                scope,
                event,
                now,
            );
            let second = exbash_next(
                first->Ask_0,
                scope,
                EventView::Removed(Ok(in_session)),
                now,
            );
            let last = exbash_next(
                second->Ask_0,
                scope,
                EventView::Removed(Ok(in_workspace)),
                now,
            );
            let report = removal_report(async_id, ex.executor, in_session, in_workspace);
            &&& first matches StepView::Ask(_, action) && action == (ActionView::RemoveSession {
                session_id: scope.session_id,
                async_id,
                executor: ex.executor,
            })
            &&& second matches StepView::Ask(_, action) && action == (ActionView::RemoveWorkdir {
                session_id: scope.session_id,
                workdir: scope.workdir,
                async_id,
                executor: ex.executor,
            })
            &&& tells_missing(error.message) ==> last == StepView::<
                ExbashStageView,
                AnswerView,
            >::Done(Err(error))
            &&& !tells_missing(error.message) ==> last == StepView::<
                ExbashStageView,
                AnswerView,
            >::Done(Ok(lost_answer(async_id, ex.executor, error.message, report)))
            &&& !tells_missing(error.message) ==> tells_lost_connection(error.message)
                && remove_warning(error.message) == "notReplayable"@
        }),
{
}

/// A task that was removed is forgotten by the session and then by the workspace, under the
/// same name, and the answer says what was forgotten.
pub proof fn law_removed_task_is_forgotten(
    scope: CallScopeView,
    call: ExecCallView,
    ex: ExbashCallView,
    event: EventView,
    result: JsonView,
    in_session: bool,
    in_workspace: bool,
    now: i64,
)
    requires
        ex.mode == "remove"@,
        exec_next(call, scope, event) == StepView::<ExecCallView, _>::Done(
            Ok::<JsonView, JsonRpcErrorView>(result),
        ),
        subject(ex, result) is Some,
        meta(result, "hostCleanup"@) is None,
    ensures
        ({
            let (async_id, executor) = subject(ex, result)->0;
            let first = exbash_next(
                ExbashStageView::Run { call, ex, cleanup: None },
                scope,
                event,
                now,
            );
            let second = exbash_next(
                first->Ask_0,
                scope,
                EventView::Removed(Ok(in_session)),
                now,
            );
            let last = exbash_next(
                second->Ask_0,
                scope,
                EventView::Removed(Ok(in_workspace)),
                now,
            );
            &&& first matches StepView::Ask(_, action) && action == (ActionView::RemoveSession {
                session_id: scope.session_id,
                async_id,
                executor,
            })
            &&& second matches StepView::Ask(_, action) && action == (ActionView::RemoveWorkdir {
                session_id: scope.session_id,
                workdir: scope.workdir,
                async_id,
                executor,
            })
            &&& last matches StepView::Done(Ok(_))
        }),
{
    lemma_modes_differ();
    assert(input_of_new(result, ex.mode, ex.description) is None);
}

proof fn lemma_modes_differ()
    ensures
        !creates_task("remove"@) && !creates_task("stop"@) && !creates_task("attach"@),
        "stop"@ != "remove"@ && "attach"@ != "remove"@,
{
    reveal_strlit("run");
    reveal_strlit("shell");
    reveal_strlit("stop");
    reveal_strlit("attach");
    reveal_strlit("remove");
    assert("run"@.len() == 3 && "shell"@.len() == 5 && "stop"@.len() == 4);
    assert("attach"@.len() == 6 && "remove"@.len() == 6);
    assert("attach"@[0] == 'a' && "remove"@[0] == 'r');
}

/// After a stop, or after attaching, what the session and what the workspace keep of the
/// task is brought up to date from the result, each only where it keeps the task already.
pub proof fn law_kept_tasks_are_brought_up_to_date(
    scope: CallScopeView,
    call: ExecCallView,
    ex: ExbashCallView,
    event: EventView,
    result: JsonView,
    in_session: ExbashTaskSnapshotView,
    updated: ExbashTaskSnapshotView,
    in_workspace: ExbashTaskSnapshotView,
    now: i64,
)
    requires
        ex.mode == "stop"@ || ex.mode == "attach"@,
        exec_next(call, scope, event) == StepView::<ExecCallView, _>::Done(
            Ok::<JsonView, JsonRpcErrorView>(result),
        ),
        subject(ex, result) is Some,
    ensures
        ({
            let (async_id, executor) = subject(ex, result)->0;
            let asked = exbash_next(
                ExbashStageView::Run { call, ex, cleanup: None },
                scope,
                event,
                now,
            );
            let known = EventView::Lookup(Ok(Some(in_session)));
            let unknown = EventView::Lookup(Ok(None));
            let written = exbash_next(asked->Ask_0, scope, known, now);
            let passed = exbash_next(asked->Ask_0, scope, unknown, now);
            let after = exbash_next(
                written->Ask_0,
                scope,
                EventView::Snapshot(Ok(updated)),
                now,
            );
            let look = ActionView::WorkdirSnapshot {
                session_id: scope.session_id,
                workdir: scope.workdir,
                async_id,
                executor,
            };
            &&& asked matches StepView::Ask(_, action) && action == (ActionView::SessionSnapshot {
                session_id: scope.session_id,
                async_id,
                executor,
            })
            &&& written matches StepView::Ask(_, action) && action == (ActionView::UpsertSession {
                session_id: scope.session_id,
                input: input_after(in_session, result, ex.mode, now),
            })
            &&& passed matches StepView::Ask(_, action) && action == look
            &&& after matches StepView::Ask(_, action) && action == look
            &&& exbash_next(
                passed->Ask_0,
                scope,
                EventView::Lookup(Ok(Some(in_workspace))),
                now,
            ) matches StepView::Ask(_, action) && action == (ActionView::UpsertWorkdir {
                session_id: scope.session_id,
                workdir: scope.workdir,
                input: input_after(in_workspace, result, ex.mode, now),
            })
            &&& exbash_next(passed->Ask_0, scope, unknown, now) matches StepView::Done(Ok(_))
        }),
{
    lemma_modes_differ();
    assert(input_of_new(result, ex.mode, ex.description) is None);
}

/// The action leaves what the host keeps as it is.
pub open spec fn keeps_records(action: ActionView) -> bool {
    !(action is StoreHashRef || action is UpsertSession || action is UpsertWorkdir || action
        is RemoveSession || action is RemoveWorkdir || action is Watch || action is WriteConfig)
}

/// Listing tasks, in any scope, changes nothing of what is kept; neither do searches and
/// skills.
pub proof fn law_looking_changes_nothing(
    scope: CallScopeView,
    arguments: JsonView,
    list_stage: ListStageView,
    rg_stage: RgStageView,
    skill_stage: SkillStageView,
    event: EventView,
)
    ensures
        list_begin(scope, arguments) matches StepView::Ask(_, a) ==> keeps_records(a),
        list_next(list_stage, scope, event) matches StepView::Ask(_, a) ==> keeps_records(a),
        rg_begin(scope, arguments) matches StepView::Ask(_, a) ==> keeps_records(a),
        rg_next(rg_stage, scope, event) matches StepView::Ask(_, a) ==> keeps_records(a),
        skill_begin(scope, arguments) matches StepView::Ask(_, a) ==> keeps_records(a),
        skill_next(skill_stage, scope, event) matches StepView::Ask(_, a) ==> keeps_records(a),
{
}

// ---------------------------------------------------------------------------
// Calls that fail
// ---------------------------------------------------------------------------

/// The step that a call of `exbash` has come to after the first `k` of some events, each with
/// its time.
pub open spec fn exbash_at(
    scope: CallScopeView,
    arguments: JsonView,
    events: Seq<(EventView, i64)>,
    k: int,
) -> ExbashStepView
    decreases k,
{
    if k <= 0 {
        exbash_begin(scope, arguments)
    } else {
        match exbash_at(scope, arguments, events, k - 1) {
            StepView::Ask(stage, _) => {
                let (event, now) = events[k - 1];
                exbash_next(stage, scope, event, now)
            },
            StepView::Done(answer) => StepView::Done(answer),
        }
    }
}

/// What the tool came to by the event after the first `k`, where it was running and came to
/// its end.
pub open spec fn tool_outcome_at(
    scope: CallScopeView,
    arguments: JsonView,
    events: Seq<(EventView, i64)>,
    k: int,
) -> Option<Result<JsonView, JsonRpcErrorView>> {
    match exbash_at(scope, arguments, events, k) {
        StepView::Ask(ExbashStageView::Run { call, ex: _, cleanup: _ }, _) => match exec_next(
            call,
            scope,
            events[k].0,
        ) {
            StepView::Done(outcome) => Some(outcome),
            StepView::Ask(_, _) => None,
        },
        _ => None,
    }
}

/// The host refused a new task for want of room and then listed its tasks, and the action
/// forgets one of these that may be forgotten to make room.
pub open spec fn makes_room(
    scope: CallScopeView,
    arguments: JsonView,
    events: Seq<(EventView, i64)>,
    k: int,
    action: ActionView,
) -> bool {
    &&& creates_task(asked_mode(exbash_call(arguments).arguments))
    &&& k >= 2
    &&& events[0].0 matches EventView::Done(Err(message)) && tells_storage_rejection(message)
    &&& events[1].0 matches EventView::Tasks(Ok(tasks)) && exists|task: ExbashTaskSnapshotView|
        #[trigger]
        tasks.contains(task) && is_cleanup_candidate(task) && action == prune_action(
            scope,
            exbash_call(arguments),
            task,
        )
}

/// The tasks are among those that may be forgotten of the ones that the host listed.
spec fn all_listed_candidates(
    tasks: Seq<ExbashTaskSnapshotView>,
    events: Seq<(EventView, i64)>,
) -> bool {
    events[1].0 matches EventView::Tasks(Ok(listed)) && forall|i: int|
        0 <= i < tasks.len() ==> listed.contains(#[trigger] tasks[i]) && is_cleanup_candidate(
            tasks[i],
        )
}

spec fn was_refused(events: Seq<(EventView, i64)>) -> bool {
    events[0].0 matches EventView::Done(Err(message)) && tells_storage_rejection(message)
}

/// What holds of a call whose tool has not come back with a result.
spec fn has_no_result(
    scope: CallScopeView,
    arguments: JsonView,
    events: Seq<(EventView, i64)>,
    k: int,
) -> bool {
    let own = exbash_call(arguments);
    let creates = creates_task(asked_mode(own.arguments));
    match exbash_at(scope, arguments, events, k) {
        StepView::Done(answer) => answer is Err,
        StepView::Ask(stage, action) => match stage {
            ExbashStageView::Check { ex } => ex == own && k == 0 && creates && keeps_records(
                action,
            ),
            ExbashStageView::PruneList { ex, message: _ } => ex == own && k == 1 && creates
                && was_refused(events) && keeps_records(action),
            ExbashStageView::PruneRemove { ex, message: _, task, rest, removed: _ } => ex == own
                && k >= 2 && creates && was_refused(events) && all_listed_candidates(
                seq![task] + rest,
                events,
            ) && action == prune_action(scope, own, task),
            ExbashStageView::CheckAgain { ex, cleanup: _ } => ex == own && keeps_records(action),
            ExbashStageView::Run { call: _, ex, cleanup: _ } => ex == own && keeps_records(action),
            _ => false,
        },
    }
}

proof fn lemma_candidates_are_listed(
    tasks: Seq<ExbashTaskSnapshotView>,
    events: Seq<(EventView, i64)>,
)
    requires
        events[1].0 == EventView::Tasks(Ok(tasks)),
    ensures
        all_listed_candidates(candidates(tasks), events),
{
    assert forall|i: int| 0 <= i < candidates(tasks).len() implies tasks.contains(
        #[trigger] candidates(tasks)[i],
    ) && is_cleanup_candidate(candidates(tasks)[i]) by {
        law_only_candidates_make_room(tasks, i);
    }
}

proof fn lemma_no_result_step(
    scope: CallScopeView,
    arguments: JsonView,
    events: Seq<(EventView, i64)>,
    k: int,
)
    requires
        k >= 0,
        exbash_call(arguments).executor != "local"@,
        has_no_result(scope, arguments, events, k),
        !(tool_outcome_at(scope, arguments, events, k) matches Some(Ok(_))),
    ensures
        has_no_result(scope, arguments, events, k + 1),
{
    let (event, now) = events[k];
    match exbash_at(scope, arguments, events, k) {
        StepView::Done(_) => {},
        StepView::Ask(stage, _) => {
            assert(exbash_at(scope, arguments, events, k + 1) == exbash_next(
                stage,
                scope,
                event,
                now,
            ));
            match stage {
                ExbashStageView::PruneList { ex: _, message: _ } => {
                    if let EventView::Tasks(Ok(tasks)) = event {
                        lemma_candidates_are_listed(tasks, events);
                        let all = candidates(tasks);
                        if all.len() > 0 {
                            assert(seq![all[0]] + all.drop_first() =~= all);
                        }
                    }
                },
                ExbashStageView::PruneRemove { ex: _, message: _, task, rest, removed: _ } => {
                    let all = seq![task] + rest;
                    if rest.len() > 0 {
                        assert(seq![rest[0]] + rest.drop_first() =~= rest);
                        assert forall|i: int| 0 <= i < rest.len() implies #[trigger] rest[i]
                            == all[i + 1] by {}
                    }
                },
                _ => {},
            }
        },
    }
}

proof fn lemma_no_result(
    scope: CallScopeView,
    arguments: JsonView,
    events: Seq<(EventView, i64)>,
    n: int,
)
    requires
        n >= 0,
        exbash_call(arguments).executor != "local"@,
        forall|k: int|
            0 <= k < n ==> !(#[trigger] tool_outcome_at(scope, arguments, events, k) matches Some(
                Ok(_),
            )),
    ensures
        has_no_result(scope, arguments, events, n),
    decreases n,
{
    if n > 0 {
        lemma_no_result(scope, arguments, events, n - 1);
        assert(!(tool_outcome_at(scope, arguments, events, n - 1) matches Some(Ok(_))));
        lemma_no_result_step(scope, arguments, events, n - 1);
    }
}

/// A call to another executor whose tool does not succeed leaves what is kept of tasks as it
/// is, from its first step on: the one exception is that, for a new task which the host
/// refused for want of room, tasks that may be forgotten make room. The call ends in an
/// error, which is that of the tool where the tool failed.
pub proof fn law_failed_remote_call_keeps_the_records(
    scope: CallScopeView,
    arguments: JsonView,
    events: Seq<(EventView, i64)>,
)
    requires
        exbash_call(arguments).executor != "local"@,
        forall|k: int|
            0 <= k < events.len() ==> !(#[trigger] tool_outcome_at(
                scope,
                arguments,
                events,
                k,
            ) matches Some(Ok(_))),
    ensures
        forall|k: int|
            0 <= k <= events.len() ==> (#[trigger] exbash_at(scope, arguments, events, k) matches
                StepView::Ask(_, action) ==> keeps_records(action) || makes_room(
                scope,
                arguments,
                events,
                k,
                action,
            )),
        forall|k: int|
            0 <= k <= events.len() ==> (#[trigger] exbash_at(scope, arguments, events, k) matches
                StepView::Done(answer) ==> answer is Err),
        forall|k: int|
            0 <= k < events.len() ==> (#[trigger] tool_outcome_at(
                scope,
                arguments,
                events,
                k,
            ) matches Some(Err(error)) ==> exbash_at(scope, arguments, events, k + 1)
                == StepView::<ExbashStageView, AnswerView>::Done(Err(error))),
{
    assert forall|k: int| 0 <= k <= events.len() implies has_no_result(
        scope,
        arguments,
        events,
        k,
    ) && (#[trigger] exbash_at(scope, arguments, events, k) matches StepView::Ask(_, action) ==>
        keeps_records(action) || makes_room(scope, arguments, events, k, action)) by {
        lemma_no_result(scope, arguments, events, k);
        if let StepView::Ask(stage, action) = exbash_at(scope, arguments, events, k) {
            if let ExbashStageView::PruneRemove { ex: _, message: _, task, rest, removed: _ } =
                stage {
                let all = seq![task] + rest;
                assert(all[0] == task);
            }
        }
    }
    assert forall|k: int| 0 <= k < events.len() implies (#[trigger] tool_outcome_at(
        scope,
        arguments,
        events,
        k,
    ) matches Some(Err(error)) ==> exbash_at(scope, arguments, events, k + 1) == StepView::<
        ExbashStageView,
        AnswerView,
    >::Done(Err(error))) by {
        lemma_no_result(scope, arguments, events, k);
    }
}

// ---------------------------------------------------------------------------
// The session and the workspace of a call
// ---------------------------------------------------------------------------

/// The action names no other session and no other workspace than the call.
pub open spec fn stays_in(action: ActionView, scope: CallScopeView) -> bool {
    match action {
        ActionView::SessionWorkdir { session_id } => session_id == scope.session_id,
        ActionView::IsHashRef { target: _ } => true,
        ActionView::ResolveHashRef { session_id, target: _ } => session_id == scope.session_id,
        ActionView::StoreHashRef { session_id, update: _ } => session_id == scope.session_id,
        ActionView::ListSession { session_id, executor: _ } => session_id == scope.session_id,
        ActionView::ListWorkdir { session_id, workdir, executor: _ } => session_id
            == scope.session_id && workdir == scope.workdir,
        ActionView::CheckSession { session_id, input: _ } => session_id == scope.session_id,
        ActionView::CheckWorkdir { session_id, workdir, input: _ } => session_id
            == scope.session_id && workdir == scope.workdir,
        ActionView::SessionSnapshot { session_id, async_id: _, executor: _ } => session_id
            == scope.session_id,
        ActionView::WorkdirSnapshot { session_id, workdir, async_id: _, executor: _ } => session_id
            == scope.session_id && workdir == scope.workdir,
        ActionView::UpsertSession { session_id, input: _ } => session_id == scope.session_id,
        ActionView::UpsertWorkdir { session_id, workdir, input: _ } => session_id
            == scope.session_id && workdir == scope.workdir,
        ActionView::RemoveSession { session_id, async_id: _, executor: _ } => session_id
            == scope.session_id,
        ActionView::RemoveWorkdir { session_id, workdir, async_id: _, executor: _ } => session_id
            == scope.session_id && workdir == scope.workdir,
        ActionView::Watch { scope: watched, tracking_scope: _, async_id: _ } => watched == scope,
        ActionView::ReadConfig { workdir } => workdir == scope.workdir,
        ActionView::WriteConfig { workdir, config: _ } => workdir == scope.workdir,
        ActionView::Connect { executor: _ } => true,
        ActionView::Execute { id: _, method: _, executor: _, params: _, directory } => directory
            is None || directory == Some(scope.workdir),
    }
}

/// The scope of a call, once its workspace is known.
pub open spec fn scope_of(stage: ToolStageView) -> Option<CallScopeView> {
    match stage {
        ToolStageView::Workdir { session_id: _, name: _, arguments: _ } => None,
        ToolStageView::File { scope, stage: _ } => Some(scope),
        ToolStageView::List { scope, stage: _ } => Some(scope),
        ToolStageView::Exbash { scope, stage: _ } => Some(scope),
        ToolStageView::Skill { scope, stage: _ } => Some(scope),
        ToolStageView::Rg { scope, stage: _ } => Some(scope),
        ToolStageView::Manager { scope, stage: _ } => Some(scope),
    }
}

/// A step that goes on within the scope.
pub open spec fn goes_on_in(step: ToolStepView, scope: CallScopeView) -> bool {
    step matches StepView::Ask(stage, action) ==> scope_of(stage) == Some(scope) && stays_in(
        action,
        scope,
    )
}

proof fn lemma_file_scope(stage: FileStageView, scope: CallScopeView, event: EventView)
    ensures
        file_next(stage, scope, event) matches StepView::Ask(_, action) ==> stays_in(action, scope),
{
}

proof fn lemma_list_scope(stage: ListStageView, scope: CallScopeView, event: EventView)
    ensures
        list_next(stage, scope, event) matches StepView::Ask(_, action) ==> stays_in(action, scope),
{
}

proof fn lemma_exbash_scope(stage: ExbashStageView, scope: CallScopeView, event: EventView, now: i64)
    ensures
        exbash_next(stage, scope, event, now) matches StepView::Ask(_, action) ==> stays_in(action, scope),
{
}

proof fn lemma_skill_scope(stage: SkillStageView, scope: CallScopeView, event: EventView)
    ensures
        skill_next(stage, scope, event) matches StepView::Ask(_, action) ==> stays_in(action, scope),
{
}

proof fn lemma_rg_scope(stage: RgStageView, scope: CallScopeView, event: EventView)
    ensures
        rg_next(stage, scope, event) matches StepView::Ask(_, action) ==> stays_in(action, scope),
{
}

proof fn lemma_manager_scope(stage: ManagerStageView, scope: CallScopeView, event: EventView)
    ensures
        manager_next(stage, scope, event) matches StepView::Ask(_, action) ==> stays_in(action, scope),
{
}

proof fn lemma_file_begins_in_scope(scope: CallScopeView, read: bool, arguments: JsonView)
    ensures
        file_begin(scope, read, arguments) matches StepView::Ask(_, action) ==> stays_in(action, scope),
{
}

proof fn lemma_list_begins_in_scope(scope: CallScopeView, arguments: JsonView)
    ensures
        list_begin(scope, arguments) matches StepView::Ask(_, action) ==> stays_in(action, scope),
{
}

proof fn lemma_exbash_begins_in_scope(scope: CallScopeView, arguments: JsonView)
    ensures
        exbash_begin(scope, arguments) matches StepView::Ask(_, action) ==> stays_in(action, scope),
{
}

proof fn lemma_skill_begins_in_scope(scope: CallScopeView, arguments: JsonView)
    ensures
        skill_begin(scope, arguments) matches StepView::Ask(_, action) ==> stays_in(action, scope),
{
}

proof fn lemma_rg_begins_in_scope(scope: CallScopeView, arguments: JsonView)
    ensures
        rg_begin(scope, arguments) matches StepView::Ask(_, action) ==> stays_in(action, scope),
{
}

proof fn lemma_manager_begins_in_scope(scope: CallScopeView, arguments: JsonView)
    ensures
        manager_begin(scope, arguments) matches StepView::Ask(_, action) ==> stays_in(action, scope),
{
}

/// A call asks for nothing outside of its own session and workspace: the session is the one
/// that the caller named, and the workspace the one that the host gave for it.
pub proof fn law_calls_stay_in_their_scope(stage: ToolStageView, event: EventView, now: i64)
    ensures
        match scope_of(stage) {
            Some(scope) => goes_on_in(tool_next(stage, event, now), scope),
            None => match (stage, event) {
                (
                    ToolStageView::Workdir { session_id, name, arguments },
                    EventView::Text(Ok(workdir)),
                ) => goes_on_in(
                    tool_next(stage, event, now),
                    CallScopeView { session_id, workdir },
                ),
                _ => tool_next(stage, event, now) is Done,
            },
        },
{
    match stage {
        ToolStageView::Workdir { session_id, name, arguments } => {
            if let EventView::Text(Ok(workdir)) = event {
                let scope = CallScopeView { session_id, workdir };
                lemma_file_begins_in_scope(scope, true, arguments);
                lemma_file_begins_in_scope(scope, false, arguments);
                lemma_list_begins_in_scope(scope, arguments);
                lemma_exbash_begins_in_scope(scope, arguments);
                lemma_skill_begins_in_scope(scope, arguments);
                lemma_rg_begins_in_scope(scope, arguments);
                lemma_manager_begins_in_scope(scope, arguments);
            }
        },
        ToolStageView::File { scope, stage } => {
            lemma_file_scope(stage, scope, event);
        },
        ToolStageView::List { scope, stage } => {
            lemma_list_scope(stage, scope, event);
        },
        ToolStageView::Exbash { scope, stage } => {
            lemma_exbash_scope(stage, scope, event, now);
        },
        ToolStageView::Skill { scope, stage } => {
            lemma_skill_scope(stage, scope, event);
        },
        ToolStageView::Rg { scope, stage } => {
            lemma_rg_scope(stage, scope, event);
        },
        ToolStageView::Manager { scope, stage } => {
            lemma_manager_scope(stage, scope, event);
        },
    }
}

// ---------------------------------------------------------------------------
// The end of a call
// ---------------------------------------------------------------------------

/// The steps that are left of the call of a tool on an executor.
pub open spec fn exec_left(call: ExecCallView) -> nat {
    match call {
        ExecCallView::ReadConfig { name: _, executor: _, params: _ } => 3,
        ExecCallView::Connect { name: _, executor: _, params: _ } => 2,
        ExecCallView::Run { executor: _ } => 1,
    }
}

pub open spec fn file_left(stage: FileStageView) -> (nat, nat) {
    match stage {
        FileStageView::IsHashRef { op: _, file_key: _, arguments: _ } => (5, 0),
        FileStageView::Resolve { op: _, file_key: _, arguments: _ } => (4, 0),
        FileStageView::Run { call, op: _, executor: _ } => (3, exec_left(call)),
        FileStageView::ReadBack { call, op: _, executor: _, result: _ } => (2, exec_left(call)),
        FileStageView::Store { op: _, value: _ } => (1, 0),
    }
}

pub open spec fn list_left(stage: ListStageView) -> (nat, nat) {
    match stage {
        ListStageView::Session { list_scope: _, filter: _ } => (3, 0),
        ListStageView::Workdir { list_scope: _, filter: _, local: _ } => (2, 0),
        ListStageView::Remote { call, executor: _, local: _, workspace: _ } => (
            1,
            exec_left(call),
        ),
        ListStageView::Count { call, list_scope: _, executor: _, local: _, workspace: _ } => (
            1,
            exec_left(call),
        ),
    }
}

pub open spec fn exbash_left(stage: ExbashStageView) -> (nat, nat) {
    match stage {
        ExbashStageView::Check { ex: _ } => (13, 0),
        ExbashStageView::PruneList { ex: _, message: _ } => (12, 0),
        ExbashStageView::PruneRemove { ex: _, message: _, task: _, rest, removed: _ } => (
            11,
            rest.len(),
        ),
        ExbashStageView::CheckAgain { ex: _, cleanup: _ } => (10, 0),
        ExbashStageView::Run { call, ex: _, cleanup: _ } => (9, exec_left(call)),
        ExbashStageView::Upsert { ex: _, value: _ } => (8, 0),
        ExbashStageView::Watch { ex: _, value: _ } => (7, 0),
        ExbashStageView::RemoveFirst { ex: _, removal: _, async_id: _, executor: _ } => (6, 0),
        ExbashStageView::RemoveSecond {
            ex: _,
            removal: _,
            async_id: _,
            executor: _,
            local_removed: _,
        } => (5, 0),
        ExbashStageView::FirstLookup { ex: _, value: _, async_id: _, executor: _ } => (4, 0),
        ExbashStageView::FirstUpsert { ex: _, value: _, async_id: _, executor: _ } => (3, 0),
        ExbashStageView::SecondLookup { ex: _, value: _, snapshots: _ } => (2, 0),
        ExbashStageView::SecondUpsert { ex: _, value: _, snapshots: _ } => (1, 0),
    }
}

pub open spec fn skill_left(stage: SkillStageView) -> (nat, nat) {
    match stage {
        SkillStageView::Glob { call, sk: _ } => (3, exec_left(call)),
        SkillStageView::Read { call, sk: _, file: _, rest, found: _ } => (
            2,
            rest.len() * 4 + exec_left(call),
        ),
        SkillStageView::Summary { call, skill: _ } => (1, exec_left(call)),
    }
}

pub open spec fn rg_left(stage: RgStageView) -> (nat, nat) {
    match stage {
        RgStageView::Single { call, mode: _ } => (1, exec_left(call)),
        RgStageView::Multi {
            call,
            mode: _,
            arguments: _,
            rest,
            remaining: _,
            results: _,
        } => (1, rest.len() * 4 + exec_left(call)),
    }
}

pub open spec fn manager_left(stage: ManagerStageView) -> (nat, nat) {
    match stage {
        ManagerStageView::ReadList => (5, 0),
        ManagerStageView::ReadConnect { arguments: _ } => (4, 0),
        ManagerStageView::Write { config: _, item: _ } => (3, 0),
        ManagerStageView::Connect { config: _ } => (2, 0),
        ManagerStageView::Local { config: _ } => (1, 0),
        ManagerStageView::Tool { call } => (1, exec_left(call)),
    }
}

/// A measure of what is left of a call: the phase, and the steps in that phase. A phase may
/// take as many steps as there are files, paths or tasks to go through, which is known when
/// it begins.
pub open spec fn left(stage: ToolStageView) -> (nat, nat) {
    match stage {
        ToolStageView::Workdir { session_id: _, name: _, arguments: _ } => (100, 0),
        ToolStageView::File { scope: _, stage } => file_left(stage),
        ToolStageView::List { scope: _, stage } => list_left(stage),
        ToolStageView::Exbash { scope: _, stage } => exbash_left(stage),
        ToolStageView::Skill { scope: _, stage } => skill_left(stage),
        ToolStageView::Rg { scope: _, stage } => rg_left(stage),
        ToolStageView::Manager { scope: _, stage } => manager_left(stage),
    }
}

pub open spec fn less_left(a: (nat, nat), b: (nat, nat)) -> bool {
    a.0 < b.0 || (a.0 == b.0 && a.1 < b.1)
}

proof fn lemma_file_ends(stage: FileStageView, scope: CallScopeView, event: EventView)
    ensures
        file_next(stage, scope, event) matches StepView::Ask(later, _) ==> less_left(
            file_left(later),
            file_left(stage),
        ),
{
}

proof fn lemma_list_ends(stage: ListStageView, scope: CallScopeView, event: EventView)
    ensures
        list_next(stage, scope, event) matches StepView::Ask(later, _) ==> less_left(
            list_left(later),
            list_left(stage),
        ),
{
}

proof fn lemma_exbash_ends(stage: ExbashStageView, scope: CallScopeView, event: EventView, now: i64)
    ensures
        exbash_next(stage, scope, event, now) matches StepView::Ask(later, _) ==> less_left(
            exbash_left(later),
            exbash_left(stage),
        ),
{
}

proof fn lemma_skill_ends(stage: SkillStageView, scope: CallScopeView, event: EventView)
    ensures
        skill_next(stage, scope, event) matches StepView::Ask(later, _) ==> less_left(
            skill_left(later),
            skill_left(stage),
        ),
{
}

proof fn lemma_rg_ends(stage: RgStageView, scope: CallScopeView, event: EventView)
    ensures
        rg_next(stage, scope, event) matches StepView::Ask(later, _) ==> less_left(
            rg_left(later),
            rg_left(stage),
        ),
{
}

proof fn lemma_manager_ends(stage: ManagerStageView, scope: CallScopeView, event: EventView)
    ensures
        manager_next(stage, scope, event) matches StepView::Ask(later, _) ==> less_left(
            manager_left(later),
            manager_left(stage),
        ),
{
}

/// Every call comes to an end: whatever the host and the executors answer, each step leaves
/// less to do.
pub proof fn law_every_call_ends(stage: ToolStageView, event: EventView, now: i64)
    ensures
        tool_next(stage, event, now) matches StepView::Ask(later, _) ==> less_left(
            left(later),
            left(stage),
        ),
{
    match stage {
        ToolStageView::Workdir { session_id: _, name: _, arguments: _ } => {},
        ToolStageView::File { scope, stage } => {
            lemma_file_ends(stage, scope, event);
        },
        ToolStageView::List { scope, stage } => {
            lemma_list_ends(stage, scope, event);
        },
        ToolStageView::Exbash { scope, stage } => {
            lemma_exbash_ends(stage, scope, event, now);
        },
        ToolStageView::Skill { scope, stage } => {
            lemma_skill_ends(stage, scope, event);
        },
        ToolStageView::Rg { scope, stage } => {
            lemma_rg_ends(stage, scope, event);
        },
        ToolStageView::Manager { scope, stage } => {
            lemma_manager_ends(stage, scope, event);
        },
    }
}

} // verus!
