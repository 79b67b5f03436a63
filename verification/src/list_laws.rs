//! What a list of shell tasks shows.

use vstd::prelude::*;

use crate::args::CallScopeView;
use crate::calls::ActionView;
use crate::calls::AnswerView;
use crate::calls::EventView;
use crate::calls::StepView;
use crate::exbash::list_header;
use crate::exbash::run_line;
use crate::exbash::sorted_tasks;
use crate::exbash::task_line;
use crate::exbash::task_names;
use crate::exbash::untracked;
use crate::exbash_laws::asks_for_list;
use crate::exbash_laws::is_for_session;
use crate::exbash_laws::is_kept_in;
use crate::exbash_laws::lemma_mode_names;
use crate::exbash_laws::lemma_scope_names;
use crate::exbash_laws::lemma_tool_names;
use crate::exbash_laws::text_in;
use crate::json::JsonView;
use crate::list_tool::list_answer;
use crate::list_tool::list_arguments;
use crate::list_tool::list_begin;
use crate::list_tool::list_next;
use crate::list_tool::listed_step;
use crate::list_tool::remote_answer;
use crate::list_tool::unknown_runs;
use crate::list_tool::ListStageView;
use crate::list_tool::ListStepView;
use crate::number::decimal;
use crate::text::has_prefix;
use crate::text::joined;
use crate::text::lemma_joined_starts;
use crate::text::trimmed;
use crate::tool_call::as_list;
use crate::tool_call::ToolStageView;
use crate::tool_call::ToolStepView;
use crate::traces::action_at;
use crate::traces::call_at;
use crate::traces::CallView;
use crate::types::snapshot_json;
use crate::types::ExbashTaskSnapshotView;

verus! {

/// The executor whose tasks are asked for, where one is named.
pub open spec fn asked_of(arguments: JsonView) -> Option<Seq<char>> {
    match text_in(arguments, "executor"@) {
        Some(e) => Some(e),
        None => text_in(arguments, "targetExecutor"@),
    }
}

/// The step that a list has come to after the first `k` events.
pub open spec fn list_at(
    scope: CallScopeView,
    arguments: JsonView,
    events: Seq<(EventView, i64)>,
    k: int,
) -> ListStepView
    decreases k,
{
    if k <= 0 {
        list_begin(scope, arguments)
    } else {
        match list_at(scope, arguments, events, k - 1) {
            StepView::Ask(stage, _) => list_next(stage, scope, events[k - 1].0),
            StepView::Done(answer) => StepView::Done(answer),
        }
    }
}

proof fn lemma_goes_on_as_list(
    call: CallView,
    session_id: Seq<char>,
    workdir: Seq<char>,
    events: Seq<(EventView, i64)>,
    k: int,
)
    requires
        1 <= k <= events.len(),
        call.name == "exbash"@,
        asks_for_list(call.arguments),
        is_for_session(call, session_id),
        trimmed(workdir).len() > 0,
        events[0].0 == EventView::Text(Ok(workdir)),
    ensures
        call_at(call, events, k) == as_list(
            CallScopeView { session_id, workdir },
            list_at(
                CallScopeView { session_id, workdir },
                call.arguments,
                events.skip(1),
                k - 1,
            ),
        ),
    decreases k,
{
    lemma_tool_names();
    lemma_mode_names();
    reveal_strlit("list");
    assert("list"@.len() == 4);
    if k == 1 {
        reveal_with_fuel(call_at, 2);
    } else {
        lemma_goes_on_as_list(call, session_id, workdir, events, k - 1);
        assert(events.skip(1)[k - 2] == events[k - 1]);
    }
}

/// The lists that the host gave: of the session, then of the workspace.
pub open spec fn listed_by_host(
    workdir: Seq<char>,
    session: Seq<ExbashTaskSnapshotView>,
    workspace: Seq<ExbashTaskSnapshotView>,
    now: i64,
) -> Seq<(EventView, i64)> {
    seq![
        (EventView::Text(Ok(workdir)), now),
        (EventView::Tasks(Ok(session)), now),
        (EventView::Tasks(Ok(workspace)), now),
    ]
}

/// The answer shows the tasks, all of them and no others: a line and an entry for each, in one
/// and the same order, below two lines with the numbers of tasks and what is shown.
pub open spec fn lists(
    step: ToolStepView,
    tasks: Seq<ExbashTaskSnapshotView>,
    first: Seq<char>,
    second: Seq<char>,
) -> bool {
    step matches StepView::Done(Ok(r)) && r.content.len() == 1 && exists|order: Seq<
        ExbashTaskSnapshotView,
    >|
        #[trigger] order.to_multiset() == tasks.to_multiset() && order.len() == tasks.len()
            && r.content[0].text == joined(
            seq![first, second] + if tasks.len() == 0 {
                seq!["- none"@]
            } else {
                Seq::new(order.len(), |i: int| task_line(order[i]))
            },
            "\n"@,
        ) && (r.structured_content matches Some(c) && c.field2("metadata"@, "tasks"@) == Some(
            JsonView::Arr(Seq::new(order.len(), |i: int| snapshot_json(order[i]))),
        ))
}

/// A list asks the host for the tasks of the session and for those of the workspace, of the
/// executor where one is named. With the scope `local` it shows the tasks of the session,
/// with the scope `workspace` those of the workspace: all of them and no others.
pub proof fn law_lists_show_their_scope(
    call: CallView,
    session_id: Seq<char>,
    workdir: Seq<char>,
    session: Seq<ExbashTaskSnapshotView>,
    workspace: Seq<ExbashTaskSnapshotView>,
    now: i64,
)
    requires
        call.name == "exbash"@,
        asks_for_list(call.arguments),
        is_for_session(call, session_id),
        trimmed(workdir).len() > 0,
        is_kept_in(call.arguments, "local"@) || is_kept_in(call.arguments, "workspace"@),
    ensures
        ({
            let events = listed_by_host(workdir, session, workspace, now);
            let executor = asked_of(call.arguments);
            let counts = "local:"@ + decimal(session.len() as int) + " workspace:"@ + decimal(
                workspace.len() as int,
            );
            let whose = match executor {
                Some(e) => e,
                None => "all"@,
            };
            &&& action_at(call, events, 1) == Some(ActionView::ListSession { session_id, executor })
            &&& action_at(call, events, 2) == Some(
                ActionView::ListWorkdir { session_id, workdir, executor },
            )
            &&& executor is None || executor == Some("local"@) ==> {
                &&& is_kept_in(call.arguments, "local"@) ==> lists(
                    call_at(call, events, 3),
                    session,
                    counts,
                    "showing executor="@ + whose + " of local"@,
                )
                &&& is_kept_in(call.arguments, "workspace"@) ==> lists(
                    call_at(call, events, 3),
                    workspace,
                    counts,
                    "showing executor="@ + whose + " of workspace"@,
                )
            }
        }),
{
    let events = listed_by_host(workdir, session, workspace, now);
    let arguments = call.arguments;
    let scope = CallScopeView { session_id, workdir };
    let later = events.skip(1);
    lemma_scope_names();
    lemma_goes_on_as_list(call, session_id, workdir, events, 1);
    lemma_goes_on_as_list(call, session_id, workdir, events, 2);
    lemma_goes_on_as_list(call, session_id, workdir, events, 3);
    assert(later[0] == events[1] && later[1] == events[2]);
    let list_scope = if is_kept_in(arguments, "local"@) {
        "local"@
    } else {
        "workspace"@
    };
    let filter = asked_of(arguments);
    assert(crate::args::asked_scope(arguments) == list_scope);
    assert(crate::args::requested_executor(arguments) == filter);
    assert(list_at(scope, arguments, later, 0) == list_begin(scope, arguments));
    assert(list_at(scope, arguments, later, 1) == list_next(
        ListStageView::Session { list_scope, filter },
        scope,
        later[0].0,
    ));
    assert(list_at(scope, arguments, later, 2) == listed_step(
        scope,
        list_scope,
        filter,
        sorted_tasks(session),
        sorted_tasks(workspace),
    ));
    crate::exbash::law_task_list_order(session);
    crate::exbash::law_task_list_order(workspace);
    if filter is None || filter == Some("local"@) {
        lemma_list_answer(list_scope, filter, session, workspace, call_at(call, events, 3));
    }
}

proof fn lemma_list_answer(
    list_scope: Seq<char>,
    filter: Option<Seq<char>>,
    session: Seq<ExbashTaskSnapshotView>,
    workspace: Seq<ExbashTaskSnapshotView>,
    step: ToolStepView,
)
    requires
        list_scope == "local"@ || list_scope == "workspace"@,
        step == StepView::<ToolStageView, AnswerView>::Done(
            list_answer(
                list_scope,
                filter,
                sorted_tasks(session),
                sorted_tasks(workspace),
                None,
            ),
        ),
    ensures
        ({
            let counts = "local:"@ + decimal(session.len() as int) + " workspace:"@ + decimal(
                workspace.len() as int,
            );
            let whose = match filter {
                Some(e) => e,
                None => "all"@,
            };
            &&& list_scope == "local"@ ==> lists(
                step,
                session,
                counts,
                "showing executor="@ + whose + " of local"@,
            )
            &&& list_scope == "workspace"@ ==> lists(
                step,
                workspace,
                counts,
                "showing executor="@ + whose + " of workspace"@,
            )
        }),
{
    lemma_scope_names();
    lemma_list_names();
    crate::exbash::law_task_list_order(session);
    crate::exbash::law_task_list_order(workspace);
    let tasks = if list_scope == "workspace"@ {
        workspace
    } else {
        session
    };
    let order = sorted_tasks(tasks);
    assert(order.to_multiset() == tasks.to_multiset());
    assert(crate::list_tool::task_lines(order) =~= Seq::new(
        order.len(),
        |i: int| task_line(order[i]),
    ));
    assert(order.map_values(|t: ExbashTaskSnapshotView| snapshot_json(t)) =~= Seq::new(
        order.len(),
        |i: int| snapshot_json(order[i]),
    ));
    reveal_strlit(" of ");
    reveal_strlit(" of local");
    reveal_strlit(" of workspace");
    reveal_strlit("local");
    reveal_strlit("workspace");
    assert(" of "@ + "local"@ =~= " of local"@);
    assert(" of "@ + "workspace"@ =~= " of workspace"@);
    let whose = match filter {
        Some(e) => e,
        None => "all"@,
    };
    assert("showing executor="@ + whose + " of "@ + list_scope =~= "showing executor="@ + whose + (
    " of "@ + list_scope));
}

proof fn lemma_list_names()
    ensures
        "scope"@ != "executor"@,
        "scope"@ != "localCount"@,
        "scope"@ != "workspaceCount"@,
        "scope"@ != "remoteUntrackedCount"@,
        "scope"@ != "remoteUntracked"@,
        "scope"@ != "tasks"@,
        "scope"@ != "metadata"@,
        "executor"@ != "localCount"@,
        "executor"@ != "workspaceCount"@,
        "executor"@ != "remoteUntrackedCount"@,
        "executor"@ != "remoteUntracked"@,
        "executor"@ != "tasks"@,
        "executor"@ != "metadata"@,
        "localCount"@ != "workspaceCount"@,
        "localCount"@ != "remoteUntrackedCount"@,
        "localCount"@ != "remoteUntracked"@,
        "localCount"@ != "tasks"@,
        "localCount"@ != "metadata"@,
        "workspaceCount"@ != "remoteUntrackedCount"@,
        "workspaceCount"@ != "remoteUntracked"@,
        "workspaceCount"@ != "tasks"@,
        "workspaceCount"@ != "metadata"@,
        "remoteUntrackedCount"@ != "remoteUntracked"@,
        "remoteUntrackedCount"@ != "tasks"@,
        "remoteUntrackedCount"@ != "metadata"@,
        "remoteUntracked"@ != "tasks"@,
        "remoteUntracked"@ != "metadata"@,
        "tasks"@ != "metadata"@,
{
    reveal_strlit("scope");
    reveal_strlit("executor");
    reveal_strlit("localCount");
    reveal_strlit("workspaceCount");
    reveal_strlit("remoteUntrackedCount");
    reveal_strlit("remoteUntracked");
    reveal_strlit("tasks");
    reveal_strlit("metadata");
    assert("scope"@.len() == 5);
    assert("executor"@.len() == 8);
    assert("localCount"@.len() == 10);
    assert("workspaceCount"@.len() == 14);
    assert("remoteUntrackedCount"@.len() == 20);
    assert("remoteUntracked"@.len() == 15);
    assert("tasks"@.len() == 5);
    assert("metadata"@.len() == 8);
    assert("scope"@[0] == 's' && "tasks"@[0] == 't');
    assert("executor"@[0] == 'e' && "metadata"@[0] == 'm');
}

/// The line of a task starts with its executor and its name, and tells its state, the size of
/// its output, its description and its command.
pub proof fn law_task_lines_tell(task: ExbashTaskSnapshotView)
    ensures
        has_prefix(task_line(task), "- "@ + task.executor + ":"@ + task.async_id + " "@),
        task.state == Some("running"@) ==> has_prefix(
            task_line(task),
            "- "@ + task.executor + ":"@ + task.async_id + " running totalOutput="@,
        ),
        (task.state is None && task.exit_code is Some) ==> has_prefix(
            task_line(task),
            "- "@ + task.executor + ":"@ + task.async_id + " exit:"@ + decimal(
                task.exit_code->0 as int,
            ) + " totalOutput="@,
        ),
{
    let start = "- "@ + task.executor + ":"@ + task.async_id;
    let line = task_line(task);
    assert(line.subrange(0, (start + " "@).len() as int) =~= start + " "@);
    reveal_strlit(" ");
    reveal_strlit("running");
    reveal_strlit("unknown");
    reveal_strlit("exit:");
    reveal_strlit(" totalOutput=");
    reveal_strlit(" running totalOutput=");
    reveal_strlit(" exit:");
    assert("running"@.len() == 7 && "running"@[0] == 'r' && "running"@[6] == 'g' && "unknown"@[0]
        == 'u');
    if task.state == Some("running"@) {
        assert(trimmed("running"@) == "running"@);
        assert(" "@ + "running"@ + " totalOutput="@ =~= " running totalOutput="@);
        let p = start + " running totalOutput="@;
        assert(line.subrange(0, p.len() as int) =~= p);
    }
    if task.state is None && task.exit_code is Some {
        assert(" "@ + "exit:"@ =~= " exit:"@);
        let p = start + " exit:"@ + decimal(task.exit_code->0 as int) + " totalOutput="@;
        assert(line.subrange(0, p.len() as int) =~= p);
    }
}

// ---------------------------------------------------------------------------
// Tasks that only the executor knows
// ---------------------------------------------------------------------------

/// Some kept task has the name of a reported one.
pub open spec fn is_known(
    run: JsonView,
    executor: Seq<char>,
    session: Seq<ExbashTaskSnapshotView>,
    workspace: Seq<ExbashTaskSnapshotView>,
) -> bool {
    run.field("asyncID"@) matches Some(JsonView::Str(id)) && exists|t: ExbashTaskSnapshotView| (
    session.contains(t) || workspace.contains(t)) && #[trigger] (t.executor + ":"@ + t.async_id)
        == executor + ":"@ + id
}

proof fn lemma_untracked(
    runs: Seq<JsonView>,
    names: Seq<Seq<char>>,
    executor: Seq<char>,
    run: JsonView,
)
    ensures
        untracked(runs, names, executor).contains(run) <==> runs.contains(run)
            && !crate::exbash::run_is_tracked(names, executor, run),
        untracked(runs, names, executor).len() <= runs.len(),
    decreases runs.len(),
{
    if runs.len() > 0 {
        let before = runs.drop_last();
        lemma_untracked(before, names, executor, run);
        let head = untracked(before, names, executor);
        let all = untracked(runs, names, executor);
        assert(runs =~= before.push(runs.last()));
        assert(runs.contains(run) <==> before.contains(run) || run == runs.last()) by {
            if before.contains(run) {
                let i = choose|i: int| 0 <= i < before.len() && before[i] == run;
                assert(runs[i] == run);
            }
            if run == runs.last() {
                assert(runs[runs.len() - 1] == run);
            }
        }
        if !crate::exbash::run_is_tracked(names, executor, runs.last()) {
            assert(all == head.push(runs.last()));
            assert(all.contains(run) <==> head.contains(run) || run == runs.last()) by {
                if head.contains(run) {
                    let i = choose|i: int| 0 <= i < head.len() && head[i] == run;
                    assert(all[i] == run);
                }
                if run == runs.last() {
                    assert(all[all.len() - 1] == run);
                }
            }
        }
    }
}

/// Of the tasks that an executor reports, those are unknown that neither the session nor the
/// workspace keeps, all of them and no others.
pub proof fn law_unknown_tasks(
    remote: JsonView,
    runs: Seq<JsonView>,
    executor: Seq<char>,
    session: Seq<ExbashTaskSnapshotView>,
    workspace: Seq<ExbashTaskSnapshotView>,
    run: JsonView,
)
    requires
        remote.field2("metadata"@, "runs"@) == Some(JsonView::Arr(runs)),
    ensures
        unknown_runs(remote, executor, session, workspace).contains(run) <==> runs.contains(run)
            && !is_known(run, executor, session, workspace),
{
    let names = task_names(session) + task_names(workspace);
    lemma_untracked(runs, names, executor, run);
    if let Some(JsonView::Str(id)) = run.field("asyncID"@) {
        let name = executor + ":"@ + id;
        assert(names.contains(name) <==> is_known(run, executor, session, workspace)) by {
            if names.contains(name) {
                let i = choose|i: int| 0 <= i < names.len() && names[i] == name;
                if i < session.len() {
                    assert(names[i] == task_names(session)[i]);
                    assert(session.contains(session[i]));
                    assert((session[i].executor + ":"@ + session[i].async_id) == name);
                } else {
                    let j = i - session.len();
                    assert(names[i] == task_names(workspace)[j]);
                    assert(workspace.contains(workspace[j]));
                    assert((workspace[j].executor + ":"@ + workspace[j].async_id) == name);
                }
            }
            if is_known(run, executor, session, workspace) {
                let t = choose|t: ExbashTaskSnapshotView| (session.contains(t)
                    || workspace.contains(t)) && #[trigger] (t.executor + ":"@ + t.async_id)
                    == executor + ":"@ + id;
                if session.contains(t) {
                    let i = choose|i: int| 0 <= i < session.len() && session[i] == t;
                    assert(task_names(session)[i] == name);
                    assert(names[i] == name);
                } else {
                    let i = choose|i: int| 0 <= i < workspace.len() && workspace[i] == t;
                    assert(task_names(workspace)[i] == name);
                    assert(names[session.len() + i] == name);
                }
            }
        }
    }
}

/// With the scope `remote` the named executor is asked for its tasks, which must not be the local
/// one; what it reports and nobody keeps is shown, each with a line of its own.
pub proof fn law_remote_lists_show_unknown_tasks(
    call: CallView,
    session_id: Seq<char>,
    workdir: Seq<char>,
    session: Seq<ExbashTaskSnapshotView>,
    workspace: Seq<ExbashTaskSnapshotView>,
    now: i64,
)
    requires
        call.name == "exbash"@,
        asks_for_list(call.arguments),
        is_for_session(call, session_id),
        trimmed(workdir).len() > 0,
        is_kept_in(call.arguments, "remote"@),
    ensures
        ({
            let events = listed_by_host(workdir, session, workspace, now);
            match asked_of(call.arguments) {
                None => call_at(call, events, 3) matches StepView::Done(Err(e)) && e.code == -32602,
                Some(executor) => if executor == "local"@ {
                    call_at(call, events, 3) matches StepView::Done(Err(e)) && e.code == -32602
                } else {
                    action_at(call, events, 3) == Some(ActionView::ReadConfig { workdir })
                },
            }
        }),
{
    let events = listed_by_host(workdir, session, workspace, now);
    let arguments = call.arguments;
    let scope = CallScopeView { session_id, workdir };
    let later = events.skip(1);
    lemma_scope_names();
    lemma_goes_on_as_list(call, session_id, workdir, events, 3);
    assert(later[0] == events[1] && later[1] == events[2]);
    let filter = asked_of(arguments);
    assert(crate::args::asked_scope(arguments) == "remote"@);
    assert(crate::args::requested_executor(arguments) == filter);
    assert(list_at(scope, arguments, later, 0) == list_begin(scope, arguments));
    assert(list_at(scope, arguments, later, 1) == list_next(
        ListStageView::Session { list_scope: "remote"@, filter },
        scope,
        later[0].0,
    ));
    if let Some(executor) = filter {
        lemma_filled_executor(arguments);
        lemma_ask_names();
        let a = list_arguments(executor);
        assert(a.field("executor"@) == Some(JsonView::Str(executor)));
    }
}

proof fn lemma_filled_executor(arguments: JsonView)
    ensures
        asked_of(arguments) matches Some(e) ==> e.len() > 0,
{
}

proof fn lemma_ask_names()
    ensures
        "mode"@ != "executor"@,
{
    reveal_strlit("mode");
    reveal_strlit("executor");
    assert("mode"@.len() == 4);
    assert("executor"@.len() == 8);
}


/// The answer for the scope `remote` has a line and an entry for each unknown task, in the order
/// in which the executor reported them.
pub proof fn law_unknown_tasks_are_shown(
    executor: Seq<char>,
    session: Seq<ExbashTaskSnapshotView>,
    workspace: Seq<ExbashTaskSnapshotView>,
    remote: JsonView,
)
    ensures
        ({
            let runs = unknown_runs(remote, executor, session, workspace);
            remote_answer(executor, session, workspace, remote) matches Ok(r) && r.content.len() == 1
                && r.content[0].text == joined(
                seq![
                    "local:"@ + decimal(session.len() as int) + " workspace:"@ + decimal(
                        workspace.len() as int,
                    ),
                    "showing executor="@ + executor + " of remote"@,
                ] + if runs.len() == 0 {
                    seq!["- none"@]
                } else {
                    Seq::new(runs.len(), |i: int| run_line(runs[i]))
                },
                "\n"@,
            ) && (r.structured_content matches Some(c) && c.field2(
                "metadata"@,
                "remoteUntracked"@,
            ) == Some(JsonView::Arr(runs)))
        }),
{
    lemma_list_names();
    let runs = unknown_runs(remote, executor, session, workspace);
    assert(crate::list_tool::run_lines(runs) =~= Seq::new(runs.len(), |i: int| run_line(runs[i])));
    reveal_strlit(" of ");
    reveal_strlit(" of remote");
    reveal_strlit("remote");
    assert(" of "@ + "remote"@ =~= " of remote"@);
    assert("showing executor="@ + executor + " of "@ + "remote"@ =~= "showing executor="@ + executor
        + (" of "@ + "remote"@));
}

/// A list for another executor hints at the tasks that only that executor knows: with their
/// number, and only where there are some.
pub proof fn law_unknown_tasks_are_hinted_at(
    scope: Seq<char>,
    executor: Seq<char>,
    session: Seq<ExbashTaskSnapshotView>,
    workspace: Seq<ExbashTaskSnapshotView>,
    count: int,
)
    ensures
        ({
            let with = list_answer(scope, Some(executor), session, workspace, Some(count));
            let without = list_answer(scope, Some(executor), session, workspace, None);
            let lines = crate::exbash::list_header(
                session.len() as int,
                workspace.len() as int,
                executor,
                scope,
            ) + crate::list_tool::entry_lines(
                crate::list_tool::task_lines(
                    crate::list_tool::visible(scope, session, workspace),
                ),
            );
            &&& with is Ok && without is Ok
            &&& without->Ok_0.content[0].text == joined(lines, "\n"@)
            &&& count == 0 ==> with->Ok_0.content[0].text == without->Ok_0.content[0].text
            &&& count > 0 ==> with->Ok_0.content[0].text == without->Ok_0.content[0].text + "\n"@ + (
            "executor="@ + executor + " has "@ + decimal(count)
                + " untracked task(s) (use scope=remote to see)"@)
            &&& with->Ok_0.structured_content->0.field2("metadata"@, "remoteUntrackedCount"@)
                == Some(JsonView::Int(count))
        }),
{
    lemma_list_names();
    let lines = crate::exbash::list_header(
        session.len() as int,
        workspace.len() as int,
        executor,
        scope,
    ) + crate::list_tool::entry_lines(
        crate::list_tool::task_lines(crate::list_tool::visible(scope, session, workspace)),
    );
    let hint = "executor="@ + executor + " has "@ + decimal(count)
        + " untracked task(s) (use scope=remote to see)"@;
    assert(lines.push(hint).drop_last() =~= lines);
}

// ---------------------------------------------------------------------------
// What a list counts
// ---------------------------------------------------------------------------

proof fn lemma_count_names()
    ensures
        "metadata"@ != "scope"@,
        "metadata"@ != "executor"@,
        "metadata"@ != "localCount"@,
        "metadata"@ != "workspaceCount"@,
        "metadata"@ != "remoteUntracked"@,
        "metadata"@ != "remoteUntrackedCount"@,
        "metadata"@ != "tasks"@,
        "scope"@ != "executor"@,
        "scope"@ != "localCount"@,
        "scope"@ != "workspaceCount"@,
        "scope"@ != "remoteUntracked"@,
        "scope"@ != "remoteUntrackedCount"@,
        "scope"@ != "tasks"@,
        "executor"@ != "localCount"@,
        "executor"@ != "workspaceCount"@,
        "executor"@ != "remoteUntracked"@,
        "executor"@ != "remoteUntrackedCount"@,
        "executor"@ != "tasks"@,
        "localCount"@ != "workspaceCount"@,
        "localCount"@ != "remoteUntracked"@,
        "localCount"@ != "remoteUntrackedCount"@,
        "localCount"@ != "tasks"@,
        "workspaceCount"@ != "remoteUntracked"@,
        "workspaceCount"@ != "remoteUntrackedCount"@,
        "workspaceCount"@ != "tasks"@,
        "remoteUntracked"@ != "remoteUntrackedCount"@,
        "remoteUntracked"@ != "tasks"@,
        "remoteUntrackedCount"@ != "tasks"@,
{
    reveal_strlit("metadata");
    reveal_strlit("scope");
    reveal_strlit("executor");
    reveal_strlit("localCount");
    reveal_strlit("workspaceCount");
    reveal_strlit("remoteUntracked");
    reveal_strlit("remoteUntrackedCount");
    reveal_strlit("tasks");
    assert("metadata"@.len() == 8);
    assert("scope"@.len() == 5);
    assert("executor"@.len() == 8);
    assert("localCount"@.len() == 10);
    assert("workspaceCount"@.len() == 14);
    assert("remoteUntracked"@.len() == 15);
    assert("remoteUntrackedCount"@.len() == 20);
    assert("tasks"@.len() == 5);
    assert("metadata"@[0] == 'm' && "executor"@[0] == 'e');
    assert("scope"@[0] == 's' && "tasks"@[0] == 't');
}

/// A list tells, beside the tasks, how many the session and the workspace have, which scope and which
/// executor it is for, and what is known of tasks that nobody keeps.
pub proof fn law_lists_count(
    list_scope: Seq<char>,
    executor: Seq<char>,
    session: Seq<ExbashTaskSnapshotView>,
    workspace: Seq<ExbashTaskSnapshotView>,
    unknown: Option<int>,
    remote: JsonView,
)
    ensures
        list_answer(list_scope, Some(executor), session, workspace, unknown) matches Ok(r) && (
        r.structured_content matches Some(c) && {
            &&& c.field2("metadata"@, "scope"@) == Some(JsonView::Str(list_scope))
            &&& c.field2("metadata"@, "executor"@) == Some(JsonView::Str(executor))
            &&& c.field2("metadata"@, "localCount"@) == Some(JsonView::Int(session.len() as int))
            &&& c.field2("metadata"@, "workspaceCount"@) == Some(
                JsonView::Int(workspace.len() as int),
            )
            &&& c.field2("metadata"@, "remoteUntrackedCount"@) == match unknown {
                Some(n) => Some(JsonView::Int(n)),
                None => Some(JsonView::Null),
            }
        }),
        list_answer(list_scope, None, session, workspace, unknown) matches Ok(r) && (
        r.structured_content matches Some(c) && c.field2("metadata"@, "executor"@) == Some(
            JsonView::Str("all"@),
        )),
        remote_answer(executor, session, workspace, remote) matches Ok(r) && (
        r.structured_content matches Some(c) && {
            &&& c.field2("metadata"@, "scope"@) == Some(JsonView::Str("remote"@))
            &&& c.field2("metadata"@, "executor"@) == Some(JsonView::Str(executor))
            &&& c.field2("metadata"@, "localCount"@) == Some(JsonView::Int(session.len() as int))
            &&& c.field2("metadata"@, "workspaceCount"@) == Some(
                JsonView::Int(workspace.len() as int),
            )
            &&& has_prefix(
                r.content[0].text,
                "local:"@ + decimal(session.len() as int) + " workspace:"@ + decimal(
                    workspace.len() as int,
                ),
            )
        }),
{
    lemma_count_names();
    let runs = unknown_runs(remote, executor, session, workspace);
    let lines = list_header(
        session.len() as int,
        workspace.len() as int,
        executor,
        "remote"@,
    ) + crate::list_tool::entry_lines(crate::list_tool::run_lines(runs));
    lemma_joined_starts(lines, "\n"@);
}

} // verus!
