//! What a call of `read` or `FileAction` does, from its arguments to its answer.

use vstd::prelude::*;

use crate::args::CallScopeView;
use crate::base_laws::law_hash_lines_are_left_out;
use crate::base_laws::law_lines;
use crate::calls::exec_next;
use crate::calls::with_route;
use crate::calls::ActionView;
use crate::calls::EventView;
use crate::calls::ExecCallView;
use crate::calls::ExecutorReplyView;
use crate::calls::StepView;
use crate::exbash_laws::is_for_session;
use crate::exbash_laws::lemma_tool_names;
use crate::exbash_laws::text_in;
use crate::file_tool::checked_arguments;
use crate::file_tool::file_answer;
use crate::file_tool::file_begin;
use crate::file_tool::file_next;
use crate::file_tool::ran_step;
use crate::file_tool::read_back_arguments;
use crate::file_tool::refreshed;
use crate::file_tool::run_step;
use crate::file_tool::store_step;
use crate::file_tool::tool_name;
use crate::file_tool::FileOpView;
use crate::file_tool::FileStageView;
use crate::file_tool::FileStepView;
use crate::json::JsonView;
use crate::kept_refs::kept_entry;
use crate::kept_refs::kept_label;
use crate::refs::injected_args;
use crate::refs::target_of;
use crate::text::has_prefix;
use crate::text::joined;
use crate::text::trim_start_of;
use crate::text::trimmed;
use crate::tool_call::as_file;
use crate::traces::action_at;
use crate::traces::call_at;
use crate::traces::goes_to_executor;
use crate::traces::is_exec_of;
use crate::traces::is_routing;
use crate::traces::lemma_exec_begins;
use crate::traces::lemma_exec_goes_on;
use crate::traces::lemma_exec_requests;
use crate::traces::lemma_routing_names;
use crate::traces::CallView;
use crate::types::FileRefEntryView;
use crate::types::FileRefUpdateView;

verus! {

pub open spec fn is_file_tool(name: Seq<char>) -> bool {
    name == "read"@ || name == "FileAction"@
}

/// The step that a call has come to after the first `k` events.
pub open spec fn file_at(
    scope: CallScopeView,
    read: bool,
    arguments: JsonView,
    events: Seq<(EventView, i64)>,
    k: int,
) -> FileStepView
    decreases k,
{
    if k <= 0 {
        file_begin(scope, read, arguments)
    } else {
        match file_at(scope, read, arguments, events, k - 1) {
            StepView::Ask(stage, _) => file_next(stage, scope, events[k - 1].0),
            StepView::Done(answer) => StepView::Done(answer),
        }
    }
}

/// Once its workspace is known, a call goes on as the file tools do; without a workspace it
/// asks for nothing else.
proof fn lemma_goes_on_as_file(call: CallView, events: Seq<(EventView, i64)>, k: int)
    requires
        1 <= k <= events.len(),
        is_file_tool(call.name),
    ensures
        ({
            let session_id = trimmed(call.context.executor_session_id->0);
            &&& call_at(call, events, k) is Done || (call.context.executor_session_id is Some && (
            events[0].0 matches EventView::Text(Ok(workdir)) && trimmed(workdir).len() > 0))
            &&& call.context.executor_session_id is Some && session_id.len() > 0 && (
            events[0].0 matches EventView::Text(Ok(workdir)) && trimmed(workdir).len() > 0)
                ==> call_at(call, events, k) == as_file(
                CallScopeView { session_id, workdir: events[0].0->Text_0->Ok_0 },
                file_at(
                    CallScopeView { session_id, workdir: events[0].0->Text_0->Ok_0 },
                    call.name == "read"@,
                    call.arguments,
                    events.skip(1),
                    k - 1,
                ),
            )
            &&& call.context.executor_session_id is Some && session_id.len() == 0 ==> call_at(
                call,
                events,
                k,
            ) is Done
        }),
    decreases k,
{
    lemma_tool_names();
    if k == 1 {
        reveal_with_fuel(call_at, 2);
    } else {
        lemma_goes_on_as_file(call, events, k - 1);
        assert(events.skip(1)[k - 2] == events[k - 1]);
    }
}

// ---------------------------------------------------------------------------
// One executor for each call
// ---------------------------------------------------------------------------

/// An executor that is named by empty text is the local one.
pub open spec fn or_local_if_empty(executor: Seq<char>) -> Seq<char> {
    if executor.len() > 0 {
        executor
    } else {
        "local"@
    }
}

spec fn call_executor(call: ExecCallView) -> Seq<char> {
    match call {
        ExecCallView::ReadConfig { name: _, executor, params: _ } => executor,
        ExecCallView::Connect { name: _, executor, params: _ } => executor,
        ExecCallView::Run { executor } => executor,
    }
}

/// The executor that a call has come to, once it has come to one.
spec fn executor_at(step: FileStepView) -> Option<Seq<char>> {
    match step {
        StepView::Ask(FileStageView::Run { call: _, op: _, executor }, _) => Some(executor),
        StepView::Ask(
            FileStageView::ReadBack { call: _, op: _, executor, result: _ },
            _,
        ) => Some(executor),
        StepView::Ask(
            FileStageView::Store { op: _, value: _ },
            ActionView::StoreHashRef { session_id: _, update },
        ) => Some(update.executor),
        _ => None,
    }
}

/// What is asked of an executor is asked of the one that the call has come to.
spec fn keeps_executor(step: FileStepView) -> bool {
    match step {
        StepView::Done(_) => true,
        StepView::Ask(stage, action) => match stage {
            FileStageView::Run { call, op: _, executor } => call_executor(call)
                == or_local_if_empty(executor) && (
            action matches ActionView::Execute { id: _, method: _, executor: e, params: _, directory: _ }
                ==> e == Some(or_local_if_empty(executor))) && !(action is StoreHashRef),
            FileStageView::ReadBack { call, op: _, executor, result: _ } => call_executor(call)
                == or_local_if_empty(executor) && (
            action matches ActionView::Execute { id: _, method: _, executor: e, params: _, directory: _ }
                ==> e == Some(or_local_if_empty(executor))) && !(action is StoreHashRef),
            FileStageView::Store { op: _, value: _ } => action is StoreHashRef,
            _ => !(action is Execute) && !(action is StoreHashRef),
        },
    }
}

proof fn lemma_run_keeps(scope: CallScopeView, op: FileOpView, args: JsonView)
    ensures
        keeps_executor(run_step(scope, op, args)),
        executor_at(run_step(scope, op, args)) is Some,
{
    lemma_routing_names();
}

proof fn lemma_store_keeps(
    scope: CallScopeView,
    op: FileOpView,
    executor: Seq<char>,
    value: JsonView,
)
    ensures
        keeps_executor(store_step(scope, op, executor, value)),
        store_step(scope, op, executor, value) is Done || executor_at(
            store_step(scope, op, executor, value),
        ) == Some(executor),
{
}

proof fn lemma_ran_keeps(
    scope: CallScopeView,
    op: FileOpView,
    executor: Seq<char>,
    result: JsonView,
)
    ensures
        keeps_executor(ran_step(scope, op, executor, result)),
        ran_step(scope, op, executor, result) is Done || executor_at(
            ran_step(scope, op, executor, result),
        ) == Some(executor),
{
    lemma_store_keeps(scope, op, executor, result);
    lemma_routing_names();
    lemma_file_names();
}

/// The names of the members that file tools read are different.
pub proof fn lemma_file_names()
    ensures
        "mode"@ != "patchMode"@,
        "mode"@ != "fileKey"@,
        "mode"@ != "filePath"@,
        "mode"@ != "hashCheckMode"@,
        "mode"@ != "hashCode"@,
        "mode"@ != "executor"@,
        "mode"@ != "targetExecutor"@,
        "mode"@ != "ExecutorSessionID"@,
        "mode"@ != "metadata"@,
        "mode"@ != "file"@,
        "mode"@ != "output"@,
        "mode"@ != "text"@,
        "patchMode"@ != "fileKey"@,
        "patchMode"@ != "filePath"@,
        "patchMode"@ != "hashCheckMode"@,
        "patchMode"@ != "hashCode"@,
        "patchMode"@ != "executor"@,
        "patchMode"@ != "targetExecutor"@,
        "patchMode"@ != "ExecutorSessionID"@,
        "patchMode"@ != "metadata"@,
        "patchMode"@ != "file"@,
        "patchMode"@ != "output"@,
        "patchMode"@ != "text"@,
        "fileKey"@ != "filePath"@,
        "fileKey"@ != "hashCheckMode"@,
        "fileKey"@ != "hashCode"@,
        "fileKey"@ != "executor"@,
        "fileKey"@ != "targetExecutor"@,
        "fileKey"@ != "ExecutorSessionID"@,
        "fileKey"@ != "metadata"@,
        "fileKey"@ != "file"@,
        "fileKey"@ != "output"@,
        "fileKey"@ != "text"@,
        "filePath"@ != "hashCheckMode"@,
        "filePath"@ != "hashCode"@,
        "filePath"@ != "executor"@,
        "filePath"@ != "targetExecutor"@,
        "filePath"@ != "ExecutorSessionID"@,
        "filePath"@ != "metadata"@,
        "filePath"@ != "file"@,
        "filePath"@ != "output"@,
        "filePath"@ != "text"@,
        "hashCheckMode"@ != "hashCode"@,
        "hashCheckMode"@ != "executor"@,
        "hashCheckMode"@ != "targetExecutor"@,
        "hashCheckMode"@ != "ExecutorSessionID"@,
        "hashCheckMode"@ != "metadata"@,
        "hashCheckMode"@ != "file"@,
        "hashCheckMode"@ != "output"@,
        "hashCheckMode"@ != "text"@,
        "hashCode"@ != "executor"@,
        "hashCode"@ != "targetExecutor"@,
        "hashCode"@ != "ExecutorSessionID"@,
        "hashCode"@ != "metadata"@,
        "hashCode"@ != "file"@,
        "hashCode"@ != "output"@,
        "hashCode"@ != "text"@,
        "executor"@ != "targetExecutor"@,
        "executor"@ != "ExecutorSessionID"@,
        "executor"@ != "metadata"@,
        "executor"@ != "file"@,
        "executor"@ != "output"@,
        "executor"@ != "text"@,
        "targetExecutor"@ != "ExecutorSessionID"@,
        "targetExecutor"@ != "metadata"@,
        "targetExecutor"@ != "file"@,
        "targetExecutor"@ != "output"@,
        "targetExecutor"@ != "text"@,
        "ExecutorSessionID"@ != "metadata"@,
        "ExecutorSessionID"@ != "file"@,
        "ExecutorSessionID"@ != "output"@,
        "ExecutorSessionID"@ != "text"@,
        "metadata"@ != "file"@,
        "metadata"@ != "output"@,
        "metadata"@ != "text"@,
        "file"@ != "output"@,
        "file"@ != "text"@,
        "output"@ != "text"@,
{
    reveal_strlit("mode");
    reveal_strlit("patchMode");
    reveal_strlit("fileKey");
    reveal_strlit("filePath");
    reveal_strlit("hashCheckMode");
    reveal_strlit("hashCode");
    reveal_strlit("executor");
    reveal_strlit("targetExecutor");
    reveal_strlit("ExecutorSessionID");
    reveal_strlit("metadata");
    reveal_strlit("file");
    reveal_strlit("output");
    reveal_strlit("text");
    assert("mode"@.len() == 4);
    assert("patchMode"@.len() == 9);
    assert("fileKey"@.len() == 7);
    assert("filePath"@.len() == 8);
    assert("hashCheckMode"@.len() == 13);
    assert("hashCode"@.len() == 8);
    assert("executor"@.len() == 8);
    assert("targetExecutor"@.len() == 14);
    assert("ExecutorSessionID"@.len() == 17);
    assert("metadata"@.len() == 8);
    assert("file"@.len() == 4);
    assert("output"@.len() == 6);
    assert("text"@.len() == 4);
    assert("mode"@[0] == 'm' && "file"@[0] == 'f');
    assert("mode"@[0] == 'm' && "text"@[0] == 't');
    assert("filePath"@[0] == 'f' && "hashCode"@[0] == 'h');
    assert("filePath"@[0] == 'f' && "executor"@[0] == 'e');
    assert("filePath"@[0] == 'f' && "metadata"@[0] == 'm');
    assert("hashCode"@[0] == 'h' && "executor"@[0] == 'e');
    assert("hashCode"@[0] == 'h' && "metadata"@[0] == 'm');
    assert("executor"@[0] == 'e' && "metadata"@[0] == 'm');
    assert("file"@[0] == 'f' && "text"@[0] == 't');
}

proof fn lemma_step_keeps(
    stage: FileStageView,
    action: ActionView,
    scope: CallScopeView,
    event: EventView,
)
    requires
        keeps_executor(StepView::Ask(stage, action)),
    ensures
        keeps_executor(file_next(stage, scope, event)),
        executor_at(StepView::Ask(stage, action)) matches Some(e) ==> file_next(
            stage,
            scope,
            event,
        ) is Done || executor_at(file_next(stage, scope, event)) == Some(e),
{
    match stage {
        FileStageView::IsHashRef { op, file_key, arguments } => {
            lemma_run_keeps(scope, op, arguments.with("filePath"@, JsonView::Str(file_key)));
        },
        FileStageView::Resolve { op, file_key, arguments } => {
            if let EventView::Entry(Ok(entry)) = event {
                lemma_run_keeps(scope, op, injected_args(arguments, Some(entry)));
            }
            lemma_run_keeps(
                scope,
                op,
                arguments.with(
                    "filePath"@,
                    JsonView::Str(crate::file_tool::shown_name(file_key)),
                ),
            );
        },
        FileStageView::Run { call, op, executor } => {
            if let StepView::Done(Ok(result)) = exec_next(call, scope, event) {
                lemma_ran_keeps(scope, op, executor, result);
            }
        },
        FileStageView::ReadBack { call, op, executor, result } => {
            lemma_store_keeps(scope, op, executor, result);
            if let StepView::Done(Ok(read)) = exec_next(call, scope, event) {
                lemma_store_keeps(scope, op, executor, refreshed(result, read));
            }
        },
        FileStageView::Store { op: _, value: _ } => {},
    }
}

proof fn lemma_at_keeps(
    scope: CallScopeView,
    read: bool,
    arguments: JsonView,
    events: Seq<(EventView, i64)>,
    j: int,
    k: int,
)
    requires
        0 <= j <= k,
    ensures
        keeps_executor(file_at(scope, read, arguments, events, k)),
        executor_at(file_at(scope, read, arguments, events, j)) matches Some(e) ==> file_at(
            scope,
            read,
            arguments,
            events,
            k,
        ) is Done || executor_at(file_at(scope, read, arguments, events, k)) == Some(e),
    decreases k,
{
    if k == 0 {
        let op = FileOpView {
            read,
            mode: if read {
                None
            } else {
                arguments.text_field("mode"@)
            },
        };
        lemma_run_keeps(scope, op, arguments.without("fileKey"@));
    } else {
        if j < k {
            lemma_at_keeps(scope, read, arguments, events, j, k - 1);
        } else {
            lemma_at_keeps(scope, read, arguments, events, 0, k - 1);
        }
        if let StepView::Ask(stage, action) = file_at(scope, read, arguments, events, k - 1) {
            lemma_step_keeps(stage, action, scope, events[k - 1].0);
        }
    }
}

/// A file tool works with one executor: once it has asked an executor for something, whatever
/// else it asks an executor for it asks of the same one, and the file that it has the host
/// keep is a file of that executor. So the label of the file leads back to that executor.
pub proof fn law_files_stay_on_their_executor(
    call: CallView,
    events: Seq<(EventView, i64)>,
    j: int,
    k: int,
)
    requires
        is_file_tool(call.name),
        0 <= j < k <= events.len(),
        action_at(call, events, j) matches Some(a) && a is Execute,
    ensures
        ({
            let first = action_at(call, events, j)->0;
            &&& first->Execute_executor is Some
            &&& action_at(call, events, k) matches Some(
                ActionView::Execute { id, method, executor, params, directory },
            ) ==> executor == first->Execute_executor
            &&& action_at(call, events, k) matches Some(
                ActionView::StoreHashRef { session_id, update },
            ) ==> or_local_if_empty(update.executor) == first->Execute_executor->0
        }),
{
    reveal_with_fuel(call_at, 1);
    assert(j >= 1);
    lemma_goes_on_as_file(call, events, j);
    lemma_goes_on_as_file(call, events, k);
    let session_id = trimmed(call.context.executor_session_id->0);
    let scope = CallScopeView { session_id, workdir: events[0].0->Text_0->Ok_0 };
    lemma_at_keeps(scope, call.name == "read"@, call.arguments, events.skip(1), 0, j - 1);
    lemma_at_keeps(scope, call.name == "read"@, call.arguments, events.skip(1), j - 1, k - 1);
}

// ---------------------------------------------------------------------------
// What reaches the executor
// ---------------------------------------------------------------------------

/// The member says which file is meant, or in which state it must be.
pub open spec fn names_the_file(key: Seq<char>) -> bool {
    key == "fileKey"@ || key == "filePath"@ || key == "hashCheckMode"@ || key == "hashCode"@
}

/// The arguments of a binary patch.
pub open spec fn patches_bytes(arguments: JsonView) -> bool {
    arguments.field("mode"@) == Some(JsonView::Str("patch"@)) && text_in(
        arguments,
        "patchMode"@,
    ) == Some("binary"@)
}

/// The executor is asked for the tool with every argument as it was given, but for those that
/// say where the call goes and which file is meant.
pub open spec fn hands_on_arguments(action: ActionView, tool: Seq<char>, arguments: JsonView) -> bool {
    action matches ActionView::Execute { id, method, executor, params, directory } && {
        &&& method == tool
        &&& executor is Some
        &&& forall|key: Seq<char>|
            !is_routing(key) && !names_the_file(key) ==> #[trigger] params.field(key)
                == arguments.field(key)
        &&& params.field("fileKey"@) is None
        &&& params.field("ExecutorSessionID"@) is None
        &&& params.field("executor"@) is None
    }
}

/// The call asks for the file at a path, on the executor that the arguments name.
pub open spec fn asks_for_path(action: ActionView, arguments: JsonView, path: Option<JsonView>) -> bool {
    action matches ActionView::Execute { id, method, executor, params, directory } && {
        &&& goes_to_executor(arguments, executor->0)
        &&& params.field("filePath"@) == path
        &&& method != "read"@ && !patches_bytes(arguments) ==> params.field("hashCode"@)
            == arguments.field("hashCode"@) && params.field("hashCheckMode"@) == arguments.field(
            "hashCheckMode"@,
        )
    }
}

/// The call asks for the file that a label stands for, in the state that the label stands
/// for, on the executor that has it.
pub open spec fn asks_for_entry(action: ActionView, arguments: JsonView, entry: FileRefEntryView) -> bool {
    action matches ActionView::Execute { id, method, executor, params, directory } && {
        &&& executor == Some(or_local_if_empty(entry.executor))
        &&& params.field("filePath"@) == Some(JsonView::Str(entry.file_path))
        &&& method == "read"@ || !patches_bytes(arguments) ==> params.field("hashCode"@) == Some(
            JsonView::Str(entry.hash_code),
        ) && params.field("hashCheckMode"@) == Some(JsonView::Bool(true))
    }
}

/// The request to the executor, by what the host said of the file.
pub open spec fn is_file_request(
    action: ActionView,
    tool: Seq<char>,
    arguments: JsonView,
    events: Seq<(EventView, i64)>,
) -> bool {
    &&& hands_on_arguments(action, tool, arguments)
    &&& match arguments.field("fileKey"@) {
        Some(JsonView::Str(key)) => match events[1].0 {
            EventView::Flag(false) => asks_for_path(
                action,
                arguments,
                Some(JsonView::Str(key)),
            ),
            EventView::Flag(true) => match events[2].0 {
                EventView::Entry(Ok(entry)) => asks_for_entry(action, arguments, entry),
                EventView::Entry(Err(_)) => tool == "read"@ && asks_for_path(
                    action,
                    arguments,
                    Some(
                        JsonView::Str(
                            match target_of(key) {
                                Some(t) => t.filename,
                                None => key,
                            },
                        ),
                    ),
                ),
                _ => false,
            },
            _ => false,
        },
        _ => asks_for_path(action, arguments, arguments.field("filePath"@)),
    }
    &&& tool == "read"@ ==> (action->Execute_params.field("hashCheckMode"@) is Some
        || !(arguments is Obj))
    &&& tool != "read"@ && patches_bytes(arguments) ==> action->Execute_params.field(
        "hashCheckMode"@,
    ) is None && action->Execute_params.field("hashCode"@) is None
}

/// The arguments with which the tool runs, by what the host said of the file. The events are
/// those after the workspace is known.
spec fn resolved_arguments(arguments: JsonView, events: Seq<(EventView, i64)>) -> JsonView {
    let rest = arguments.without("fileKey"@);
    match arguments.field("fileKey"@) {
        Some(JsonView::Str(key)) => match events[0].0 {
            EventView::Flag(true) => match events[1].0 {
                EventView::Entry(Ok(entry)) => injected_args(rest, Some(entry)),
                _ => rest.with(
                    "filePath"@,
                    JsonView::Str(crate::file_tool::shown_name(key)),
                ),
            },
            _ => rest.with("filePath"@, JsonView::Str(key)),
        },
        _ => rest,
    }
}

spec fn file_op(read: bool, arguments: JsonView) -> FileOpView {
    FileOpView {
        read,
        mode: if read {
            None
        } else {
            arguments.text_field("mode"@)
        },
    }
}

/// The host said of the file what the request rests on.
spec fn was_resolved(read: bool, arguments: JsonView, events: Seq<(EventView, i64)>) -> bool {
    match arguments.field("fileKey"@) {
        Some(JsonView::Str(_)) => match events[0].0 {
            EventView::Flag(true) => match events[1].0 {
                EventView::Entry(Ok(_)) => true,
                EventView::Entry(Err(_)) => read,
                _ => false,
            },
            EventView::Flag(false) => true,
            _ => false,
        },
        _ => true,
    }
}

spec fn asks_as_resolved(
    step: FileStepView,
    scope: CallScopeView,
    read: bool,
    arguments: JsonView,
    events: Seq<(EventView, i64)>,
    k: int,
) -> bool {
    match step {
        StepView::Done(_) => true,
        StepView::Ask(stage, action) => match stage {
            FileStageView::IsHashRef { op, file_key, arguments: rest } => k == 0 && op == file_op(
                read,
                arguments,
            ) && arguments.field("fileKey"@) == Some(JsonView::Str(file_key)) && rest
                == arguments.without("fileKey"@) && !(action is Execute),
            FileStageView::Resolve { op, file_key, arguments: rest } => k == 1 && op == file_op(
                read,
                arguments,
            ) && arguments.field("fileKey"@) == Some(JsonView::Str(file_key)) && rest
                == arguments.without("fileKey"@) && !(action is Execute) && events[0].0
                == EventView::Flag(true),
            FileStageView::Run { call, op, executor: _ } => op == file_op(read, arguments)
                && was_resolved(read, arguments, events) && is_exec_of(
                call,
                action,
                scope,
                tool_name(op),
                checked_arguments(op, resolved_arguments(arguments, events)),
            ),
            FileStageView::ReadBack { call, op, executor, result } => !read && op == file_op(
                read,
                arguments,
            ) && exists|path: Seq<char>|
                is_exec_of(call, action, scope, "read"@, #[trigger] read_back_arguments(path, executor)),
            FileStageView::Store { op: _, value: _ } => !(action is Execute),
        },
    }
}

proof fn lemma_ran_asks(
    scope: CallScopeView,
    op: FileOpView,
    executor: Seq<char>,
    result: JsonView,
    read: bool,
    arguments: JsonView,
    events: Seq<(EventView, i64)>,
    k: int,
)
    requires
        op == file_op(read, arguments),
    ensures
        asks_as_resolved(
            ran_step(scope, op, executor, result),
            scope,
            read,
            arguments,
            events,
            k,
        ),
{
    if let Some(path) = crate::file_tool::changed_path(result) {
        lemma_exec_begins(scope, "read"@, read_back_arguments(path, executor));
    }
}

proof fn lemma_asks_as_resolved(
    scope: CallScopeView,
    read: bool,
    arguments: JsonView,
    events: Seq<(EventView, i64)>,
    k: int,
)
    requires
        k >= 0,
    ensures
        asks_as_resolved(
            file_at(scope, read, arguments, events, k),
            scope,
            read,
            arguments,
            events,
            k,
        ),
    decreases k,
{
    let op = file_op(read, arguments);
    lemma_exec_begins(
        scope,
        tool_name(op),
        checked_arguments(op, resolved_arguments(arguments, events)),
    );
    if k > 0 {
        lemma_asks_as_resolved(scope, read, arguments, events, k - 1);
        let event = events[k - 1].0;
        match file_at(scope, read, arguments, events, k - 1) {
            StepView::Ask(FileStageView::Run { call, op: _, executor }, action) => {
                lemma_exec_goes_on(
                    call,
                    action,
                    scope,
                    tool_name(op),
                    checked_arguments(op, resolved_arguments(arguments, events)),
                    event,
                );
                if let StepView::Done(Ok(result)) = exec_next(call, scope, event) {
                    lemma_ran_asks(
                        scope,
                        op,
                        executor,
                        result,
                        read,
                        arguments,
                        events,
                        k,
                    );
                }
            },
            StepView::Ask(
                FileStageView::ReadBack { call, op: _, executor, result: _ },
                action,
            ) => {
                let path = choose|path: Seq<char>|
                    is_exec_of(
                        call,
                        action,
                        scope,
                        "read"@,
                        #[trigger] read_back_arguments(path, executor),
                    );
                lemma_exec_goes_on(
                    call,
                    action,
                    scope,
                    "read"@,
                    read_back_arguments(path, executor),
                    event,
                );
            },
            _ => {},
        }
    }
}

proof fn lemma_file_request(
    call: ExecCallView,
    action: ActionView,
    scope: CallScopeView,
    read: bool,
    arguments: JsonView,
    events: Seq<(EventView, i64)>,
)
    requires
        was_resolved(read, arguments, events.skip(1)),
        events.len() >= 3 || arguments.text_field("fileKey"@) is None,
        is_exec_of(
            call,
            action,
            scope,
            tool_name(file_op(read, arguments)),
            checked_arguments(
                file_op(read, arguments),
                resolved_arguments(arguments, events.skip(1)),
            ),
        ),
        action is Execute,
    ensures
        is_file_request(action, tool_name(file_op(read, arguments)), arguments, events),
{
    lemma_routing_names();
    lemma_file_names();
    lemma_tool_names();
    let op = file_op(read, arguments);
    let a = resolved_arguments(arguments, events.skip(1));
    let c = checked_arguments(op, a);
    lemma_exec_requests(call, action, scope, tool_name(op), c);
    assert forall|key: Seq<char>| !is_routing(key) && !names_the_file(key) implies #[trigger] c.field(
        key,
    ) == arguments.field(key) by {}
    assert(a.field("fileKey"@) is None);
    assert(c.field("fileKey"@) is None);
    assert(a.field("patchMode"@) == arguments.field("patchMode"@));
    if arguments.text_field("fileKey"@) is Some {
        assert(events.skip(1)[0] == events[1]);
        assert(events.skip(1)[1] == events[2]);
    }
}

/// What a call of a file tool asks of an executor, apart from reading a changed file back, is
/// what its arguments say, for the file that they name: the path that was given, or the path,
/// the state and the executor of the file that a label stands for.
pub proof fn law_files_are_asked_for_as_named(call: CallView, events: Seq<(EventView, i64)>, k: int)
    requires
        is_file_tool(call.name),
        0 <= k <= events.len(),
        events.len() >= 3,
        action_at(call, events, k) matches Some(a) && a is Execute
            && a->Execute_method == call.name,
    ensures
        is_file_request(action_at(call, events, k)->0, call.name, call.arguments, events),
{
    lemma_tool_names();
    reveal_with_fuel(call_at, 1);
    lemma_goes_on_as_file(call, events, k);
    let session_id = trimmed(call.context.executor_session_id->0);
    let scope = CallScopeView { session_id, workdir: events[0].0->Text_0->Ok_0 };
    let read = call.name == "read"@;
    lemma_asks_as_resolved(scope, read, call.arguments, events.skip(1), k - 1);
    match file_at(scope, read, call.arguments, events.skip(1), k - 1) {
        StepView::Ask(FileStageView::Run { call: c, op: _, executor: _ }, action) => {
            lemma_file_request(c, action, scope, read, call.arguments, events);
        },
        StepView::Ask(FileStageView::ReadBack { call: c, op: _, executor, result: _ }, action) => {
            let path = choose|path: Seq<char>|
                is_exec_of(
                    c,
                    action,
                    scope,
                    "read"@,
                    #[trigger] read_back_arguments(path, executor),
                );
            lemma_exec_requests(c, action, scope, "read"@, read_back_arguments(path, executor));
        },
        _ => {},
    }
}

// ---------------------------------------------------------------------------
// From the arguments to the executor
// ---------------------------------------------------------------------------

/// The first action towards an executor: the local one is asked at once, any other is looked
/// up in the workspace first.
pub open spec fn turns_to_executor(
    action: Option<ActionView>,
    tool: Seq<char>,
    local: bool,
    workdir: Seq<char>,
) -> bool {
    if local {
        action matches Some(a) && a is Execute && a->Execute_method == tool
    } else {
        action == Some(ActionView::ReadConfig { workdir })
    }
}

/// A text patch that names its file by something other than a label.
pub open spec fn patches_without_label(call: CallView) -> bool {
    &&& call.name == "FileAction"@
    &&& text_in(call.arguments, "mode"@) == Some("patch"@)
    &&& text_in(call.arguments, "patchMode"@) != Some("binary"@)
    &&& match text_in(call.arguments, "fileKey"@) {
        Some(key) => target_of(key) is None,
        None => true,
    }
}

/// A call of a file tool reaches an executor: a file that is not named by a key is asked for at
/// once; of a key the host says whether it is a label, which it then resolves; what is no
/// label is a path.
pub proof fn law_files_are_reached(
    call: CallView,
    session_id: Seq<char>,
    workdir: Seq<char>,
    entry: FileRefEntryView,
    message: Seq<char>,
    now: i64,
)
    requires
        is_file_tool(call.name),
        is_for_session(call, session_id),
        trimmed(workdir).len() > 0,
        !patches_without_label(call),
    ensures
        ({
            let known = seq![(EventView::Text(Ok(workdir)), now)];
            let path = known.push((EventView::Flag(false), now));
            let label = known.push((EventView::Flag(true), now));
            let resolved = label.push((EventView::Entry(Ok(entry)), now));
            let unresolved = label.push((EventView::Entry(Err(message)), now));
            let local = goes_to_executor(call.arguments, "local"@);
            &&& action_at(call, known, 0) == Some(ActionView::SessionWorkdir { session_id })
            &&& match call.arguments.field("fileKey"@) {
                Some(JsonView::Str(key)) => {
                    &&& action_at(call, known, 1) == Some(ActionView::IsHashRef { target: key })
                    &&& turns_to_executor(action_at(call, path, 2), call.name, local, workdir)
                    &&& action_at(call, label, 2) == Some(
                        ActionView::ResolveHashRef { session_id, target: key },
                    )
                    &&& turns_to_executor(
                        action_at(call, resolved, 3),
                        call.name,
                        or_local_if_empty(entry.executor) == "local"@,
                        workdir,
                    )
                    &&& call.name == "read"@ ==> turns_to_executor(
                        action_at(call, unresolved, 3),
                        call.name,
                        local,
                        workdir,
                    )
                    &&& call.name != "read"@ ==> (call_at(call, unresolved, 3) matches StepView::Done(
                        Err(e),
                    ) && e.code == -32603 && e.message == message)
                },
                _ => turns_to_executor(action_at(call, known, 1), call.name, local, workdir),
            }
        }),
{
    let scope = CallScopeView { session_id, workdir };
    let read = call.name == "read"@;
    let arguments = call.arguments;
    let known = seq![(EventView::Text(Ok(workdir)), now)];
    let path = known.push((EventView::Flag(false), now));
    let label = known.push((EventView::Flag(true), now));
    let resolved = label.push((EventView::Entry(Ok(entry)), now));
    let unresolved = label.push((EventView::Entry(Err(message)), now));
    lemma_tool_names();
    lemma_file_names();
    lemma_routing_names();
    lemma_goes_on_as_file(call, known, 1);
    lemma_goes_on_as_file(call, path, 2);
    lemma_goes_on_as_file(call, label, 2);
    lemma_goes_on_as_file(call, resolved, 3);
    lemma_goes_on_as_file(call, unresolved, 3);
    assert(path.skip(1)[0] == path[1] && label.skip(1)[0] == label[1]);
    assert(resolved.skip(1)[0] == label[1] && resolved.skip(1)[1] == resolved[2]);
    assert(unresolved.skip(1)[0] == label[1] && unresolved.skip(1)[1] == unresolved[2]);
    assert(target_of(Seq::<char>::empty()) is None) by {
        reveal_strlit(" #");
        assert(" #"@.len() == 2);
    }
    assert(!(!read && crate::args::patch_lacks_label(arguments)));
    let op = file_op(read, arguments);
    reveal_with_fuel(file_at, 3);
    match arguments.field("fileKey"@) {
        Some(JsonView::Str(key)) => {
            lemma_turns(scope, op, arguments.without("fileKey"@).with("filePath"@, JsonView::Str(key)));
            lemma_turns(
                scope,
                op,
                arguments.without("fileKey"@).with(
                    "filePath"@,
                    JsonView::Str(crate::file_tool::shown_name(key)),
                ),
            );
            lemma_turns(scope, op, injected_args(arguments.without("fileKey"@), Some(entry)));
        },
        _ => {
            lemma_turns(scope, op, arguments.without("fileKey"@));
        },
    }
}

proof fn lemma_turns(scope: CallScopeView, op: FileOpView, args: JsonView)
    ensures
        run_step(scope, op, args) matches StepView::Ask(_, action) && turns_to_executor(
            Some(action),
            tool_name(op),
            goes_to_executor(args, "local"@),
            scope.workdir,
        ),
{
    lemma_file_names();
}

/// A text patch that does not name its file by a label is refused as soon as the workspace is
/// known.
pub proof fn law_patches_need_a_label(
    call: CallView,
    session_id: Seq<char>,
    workdir: Seq<char>,
    now: i64,
)
    requires
        patches_without_label(call),
        is_for_session(call, session_id),
        trimmed(workdir).len() > 0,
    ensures
        call_at(call, seq![(EventView::Text(Ok(workdir)), now)], 1) matches StepView::Done(
            Err(e),
        ) && e.code == -32602,
{
    lemma_tool_names();
    assert(target_of(Seq::<char>::empty()) is None) by {
        reveal_strlit(" #");
        assert(" #"@.len() == 2);
    }
    lemma_goes_on_as_file(call, seq![(EventView::Text(Ok(workdir)), now)], 1);
}

// ---------------------------------------------------------------------------
// What is kept and answered
// ---------------------------------------------------------------------------

/// The result tells of a file and of its state.
pub open spec fn tells_file(
    result: JsonView,
    file_key: Seq<char>,
    path: Seq<char>,
    hash_code: Seq<char>,
) -> bool {
    let metadata = result.field("metadata"@);
    &&& metadata is Some
    &&& metadata->0.field("hashCode"@) == Some(JsonView::Str(hash_code))
    &&& metadata->0.field("file"@) matches Some(file) && file.field("fileKey"@) == Some(
        JsonView::Str(file_key),
    ) && file.field("canonicalPath"@) == Some(JsonView::Str(path)) && file.field("kind"@) == Some(
        JsonView::Str("file"@),
    ) && file.field("size"@) is None && file.field("mtimeMs"@) is None
}

/// The result shows a text and nothing else.
pub open spec fn shows_text(result: JsonView, text: Seq<char>) -> bool {
    result.field("output"@) matches Some(output) && output.field("text"@) == Some(
        JsonView::Str(text),
    ) && output.field("message"@) is None && output.field("info"@) is None
}

/// The answer is one piece of text.
pub open spec fn answers(step: crate::tool_call::ToolStepView, text: Seq<char>) -> bool {
    step matches StepView::Done(Ok(r)) && r.content.len() == 1 && r.content[0].kind == "text"@
        && r.content[0].text == text
}

/// The call has asked an executor for the tool itself, and this is the reply.
pub open spec fn tool_replied(
    call: CallView,
    events: Seq<(EventView, i64)>,
    k: int,
    reply: ExecutorReplyView,
) -> bool {
    &&& 0 <= k < events.len()
    &&& events[k].0 == EventView::Reply(reply)
    &&& action_at(call, events, k) matches Some(a) && a is Execute && a->Execute_method
        == call.name
}

proof fn lemma_tool_replied(
    call: CallView,
    events: Seq<(EventView, i64)>,
    k: int,
    reply: ExecutorReplyView,
) -> (r: (CallScopeView, Seq<char>))
    requires
        is_file_tool(call.name),
        tool_replied(call, events, k, reply),
        call.name == "FileAction"@ || call.name == "read"@,
    ensures
        k >= 1,
        r.0.session_id == trimmed(call.context.executor_session_id->0),
        EventView::Text(Ok(r.0.workdir)) == events[0].0,
        action_at(call, events, k)->0->Execute_executor == Some(or_local_if_empty(r.1)),
        reply.ok ==> call_at(call, events, k + 1) == as_file(
            r.0,
            ran_step(
                r.0,
                file_op(call.name == "read"@, call.arguments),
                r.1,
                with_route(
                    match reply.result {
                        Some(v) => v,
                        None => JsonView::Null,
                    },
                    or_local_if_empty(r.1),
                ),
            ),
        ),
        !reply.ok ==> (call_at(call, events, k + 1) matches StepView::Done(Err(e)) && e.code
            == -32603 && e.message == match reply.error {
            Some(m) => m,
            None => "unknown error"@,
        }),
{
    lemma_tool_names();
    lemma_routing_names();
    reveal_with_fuel(call_at, 1);
    lemma_goes_on_as_file(call, events, k);
    lemma_goes_on_as_file(call, events, k + 1);
    let session_id = trimmed(call.context.executor_session_id->0);
    let scope = CallScopeView { session_id, workdir: events[0].0->Text_0->Ok_0 };
    let read = call.name == "read"@;
    let later = events.skip(1);
    assert(later[k - 1] == events[k]);
    lemma_asks_as_resolved(scope, read, call.arguments, later, k - 1);
    lemma_at_keeps(scope, read, call.arguments, later, 0, k - 1);
    match file_at(scope, read, call.arguments, later, k - 1) {
        StepView::Ask(FileStageView::Run { call: _, op: _, executor }, _) => { (scope, executor) },
        StepView::Ask(FileStageView::ReadBack { call: c, op: _, executor, result: _ }, action) => {
            let path = choose|path: Seq<char>|
                is_exec_of(
                    c,
                    action,
                    scope,
                    "read"@,
                    #[trigger] read_back_arguments(path, executor),
                );
            assert(false);
            (scope, executor)
        },
        _ => {
            assert(false);
            (scope, Seq::empty())
        },
    }
}

/// A tool that fails on its executor ends the call with the message of the executor.
pub proof fn law_file_failures_are_told(
    call: CallView,
    events: Seq<(EventView, i64)>,
    k: int,
    reply: ExecutorReplyView,
)
    requires
        is_file_tool(call.name),
        tool_replied(call, events, k, reply),
        !reply.ok,
    ensures
        call_at(call, events, k + 1) matches StepView::Done(Err(e)) && e.code == -32603
            && e.message == match reply.error {
            Some(m) => m,
            None => "unknown error"@,
        },
{
    let _ = lemma_tool_replied(call, events, k, reply);
}

/// What was read is kept, with its path and its state as the executor told them, and the
/// answer shows the text of the executor with the label of what is kept; where the result
/// tells of no state, or the host keeps nothing, the answer is the text alone.
pub proof fn law_reads_are_kept_and_labelled(
    call: CallView,
    events: Seq<(EventView, i64)>,
    k: int,
    result: JsonView,
    text: Seq<char>,
)
    requires
        call.name == "read"@,
        tool_replied(
            call,
            events,
            k,
            ExecutorReplyView { ok: true, error: None, result: Some(result) },
        ),
        shows_text(result, text),
        text.len() > 0,
    ensures
        result.field("metadata"@) is None ==> answers(call_at(call, events, k + 1), text),
        forall|file_key: Seq<char>, path: Seq<char>, hash_code: Seq<char>| #[trigger]
            tells_file(result, file_key, path, hash_code) ==> {
                &&& action_at(call, events, k + 1) matches Some(
                    ActionView::StoreHashRef { session_id, update },
                ) && session_id == trimmed(call.context.executor_session_id->0)
                    && update.file.file_key == file_key && update.file.canonical_path == path
                    && update.hash_code == hash_code
                &&& k + 1 < events.len() && (events[k + 1].0 matches EventView::Entry(Err(_)))
                    ==> answers(call_at(call, events, k + 2), text)
                &&& k + 1 < events.len() ==> (events[k + 1].0 matches EventView::Entry(Ok(entry))
                    ==> answers(
                    call_at(call, events, k + 2),
                    text + "\n<fileRef>"@ + kept_label(entry) + "</fileRef>"@,
                ))
            },
{
    lemma_tool_names();
    lemma_file_names();
    lemma_output_names();
    let reply = ExecutorReplyView { ok: true, error: None, result: Some(result) };
    let (scope, executor) = lemma_tool_replied(call, events, k, reply);
    let op = file_op(true, call.arguments);
    let routed = with_route(result, or_local_if_empty(executor));
    lemma_routed(result, or_local_if_empty(executor));
    assert(ran_step(scope, op, executor, routed) == store_step(scope, op, executor, routed));
    assert(shows_text(routed, text));
    lemma_shown(routed, text);
    reveal_strlit("patch");
    reveal_strlit("rename");
    assert forall|file_key: Seq<char>, path: Seq<char>, hash_code: Seq<char>| #[trigger]
        tells_file(result, file_key, path, hash_code) implies {
        &&& action_at(call, events, k + 1) matches Some(
            ActionView::StoreHashRef { session_id, update },
        ) && session_id == trimmed(call.context.executor_session_id->0) && update.file.file_key
            == file_key && update.file.canonical_path == path && update.hash_code == hash_code
        &&& k + 1 < events.len() && (events[k + 1].0 matches EventView::Entry(Err(_))) ==> answers(
            call_at(call, events, k + 2),
            text,
        )
        &&& k + 1 < events.len() ==> (events[k + 1].0 matches EventView::Entry(Ok(entry))
            ==> answers(
            call_at(call, events, k + 2),
            text + "\n<fileRef>"@ + kept_label(entry) + "</fileRef>"@,
        ))
    } by {
        lemma_stamp_names();
        assert(tells_file(routed, file_key, path, hash_code));
        assert(crate::file_tool::reported_update(routed, executor) is Some);
        if k + 1 < events.len() {
            assert(call_at(call, events, k + 2) == crate::tool_call::tool_next(
                call_at(call, events, k + 1)->Ask_0,
                events[k + 1].0,
                events[k + 1].1,
            ));
            if let EventView::Entry(Ok(entry)) = events[k + 1].0 {
                lemma_labelled(routed, text, kept_label(entry));
            }
        }
    }
}

proof fn lemma_routed(result: JsonView, executor: Seq<char>)
    ensures
        forall|key: Seq<char>|
            key != "metadata"@ ==> #[trigger] with_route(result, executor).field(key)
                == result.field(key),
        forall|key: Seq<char>|
            key != "executor"@ ==> #[trigger] with_route(result, executor).field2(
                "metadata"@,
                key,
            ) == result.field2("metadata"@, key),
        result.field("metadata"@) is None && result is Obj ==> with_route(
            result,
            executor,
        ).field2("metadata"@, "file"@) is None,
{
    lemma_file_names();
}

proof fn lemma_shown(value: JsonView, text: Seq<char>)
    requires
        shows_text(value, text),
        text.len() > 0,
    ensures
        crate::output::output_text(value) == text,
{
    lemma_output_names();
    lemma_only_text(text);
}

/// Of three texts of which only the middle one is not empty, that one is left.
proof fn lemma_only_text(text: Seq<char>)
    requires
        text.len() > 0,
    ensures
        crate::output::stacked(""@, text, ""@) == text,
{
    reveal_strlit("");
    let parts = seq![""@, text, ""@];
    assert(parts.drop_last() =~= seq![""@, text]);
    assert(parts.drop_last().drop_last() =~= seq![""@]);
    assert(parts.drop_last().drop_last().drop_last() =~= Seq::empty());
    reveal_with_fuel(crate::output::non_empty, 4);
    assert(crate::output::non_empty(parts) =~= seq![text]);
}

proof fn lemma_labelled(value: JsonView, text: Seq<char>, label: Seq<char>)
    requires
        shows_text(value, text),
        text.len() > 0,
    ensures
        shows_text(
            crate::file_tool::with_label(value, Some(label)),
            text + "\n<fileRef>"@ + label + "</fileRef>"@,
        ),
        crate::output::output_text(crate::file_tool::with_label(value, Some(label))) == text
            + "\n<fileRef>"@ + label + "</fileRef>"@,
{
    lemma_output_names();
    lemma_shown(
        crate::file_tool::with_label(value, Some(label)),
        text + "\n<fileRef>"@ + label + "</fileRef>"@,
    );
}

/// The names of the members of an output are different.
pub proof fn lemma_output_names()
    ensures
        "message"@ != "text"@,
        "message"@ != "info"@,
        "message"@ != "output"@,
        "message"@ != "metadata"@,
        "message"@ != "result"@,
        "message"@ != "executor"@,
        "text"@ != "info"@,
        "text"@ != "output"@,
        "text"@ != "metadata"@,
        "text"@ != "result"@,
        "text"@ != "executor"@,
        "info"@ != "output"@,
        "info"@ != "metadata"@,
        "info"@ != "result"@,
        "info"@ != "executor"@,
        "output"@ != "metadata"@,
        "output"@ != "result"@,
        "output"@ != "executor"@,
        "metadata"@ != "result"@,
        "metadata"@ != "executor"@,
        "result"@ != "executor"@,
{
    reveal_strlit("message");
    reveal_strlit("text");
    reveal_strlit("info");
    reveal_strlit("output");
    reveal_strlit("metadata");
    reveal_strlit("result");
    reveal_strlit("executor");
    assert("message"@.len() == 7);
    assert("text"@.len() == 4);
    assert("info"@.len() == 4);
    assert("output"@.len() == 6);
    assert("metadata"@.len() == 8);
    assert("result"@.len() == 6);
    assert("executor"@.len() == 8);
    assert("text"@[0] == 't' && "info"@[0] == 'i');
    assert("output"@[0] == 'o' && "result"@[0] == 'r');
    assert("metadata"@[0] == 'm' && "executor"@[0] == 'e');
}

/// The names of the members that describe a file are different.
pub proof fn lemma_stamp_names()
    ensures
        "fileKey"@ != "canonicalPath"@,
        "fileKey"@ != "kind"@,
        "fileKey"@ != "size"@,
        "fileKey"@ != "mtimeMs"@,
        "fileKey"@ != "hashCode"@,
        "fileKey"@ != "file"@,
        "fileKey"@ != "executor"@,
        "fileKey"@ != "metadata"@,
        "fileKey"@ != "newFilePath"@,
        "fileKey"@ != "filePath"@,
        "fileKey"@ != "type"@,
        "canonicalPath"@ != "kind"@,
        "canonicalPath"@ != "size"@,
        "canonicalPath"@ != "mtimeMs"@,
        "canonicalPath"@ != "hashCode"@,
        "canonicalPath"@ != "file"@,
        "canonicalPath"@ != "executor"@,
        "canonicalPath"@ != "metadata"@,
        "canonicalPath"@ != "newFilePath"@,
        "canonicalPath"@ != "filePath"@,
        "canonicalPath"@ != "type"@,
        "kind"@ != "size"@,
        "kind"@ != "mtimeMs"@,
        "kind"@ != "hashCode"@,
        "kind"@ != "file"@,
        "kind"@ != "executor"@,
        "kind"@ != "metadata"@,
        "kind"@ != "newFilePath"@,
        "kind"@ != "filePath"@,
        "kind"@ != "type"@,
        "size"@ != "mtimeMs"@,
        "size"@ != "hashCode"@,
        "size"@ != "file"@,
        "size"@ != "executor"@,
        "size"@ != "metadata"@,
        "size"@ != "newFilePath"@,
        "size"@ != "filePath"@,
        "size"@ != "type"@,
        "mtimeMs"@ != "hashCode"@,
        "mtimeMs"@ != "file"@,
        "mtimeMs"@ != "executor"@,
        "mtimeMs"@ != "metadata"@,
        "mtimeMs"@ != "newFilePath"@,
        "mtimeMs"@ != "filePath"@,
        "mtimeMs"@ != "type"@,
        "hashCode"@ != "file"@,
        "hashCode"@ != "executor"@,
        "hashCode"@ != "metadata"@,
        "hashCode"@ != "newFilePath"@,
        "hashCode"@ != "filePath"@,
        "hashCode"@ != "type"@,
        "file"@ != "executor"@,
        "file"@ != "metadata"@,
        "file"@ != "newFilePath"@,
        "file"@ != "filePath"@,
        "file"@ != "type"@,
        "executor"@ != "metadata"@,
        "executor"@ != "newFilePath"@,
        "executor"@ != "filePath"@,
        "executor"@ != "type"@,
        "metadata"@ != "newFilePath"@,
        "metadata"@ != "filePath"@,
        "metadata"@ != "type"@,
        "newFilePath"@ != "filePath"@,
        "newFilePath"@ != "type"@,
        "filePath"@ != "type"@,
{
    reveal_strlit("fileKey");
    reveal_strlit("canonicalPath");
    reveal_strlit("kind");
    reveal_strlit("size");
    reveal_strlit("mtimeMs");
    reveal_strlit("hashCode");
    reveal_strlit("file");
    reveal_strlit("executor");
    reveal_strlit("metadata");
    reveal_strlit("newFilePath");
    reveal_strlit("filePath");
    reveal_strlit("type");
    assert("fileKey"@.len() == 7);
    assert("canonicalPath"@.len() == 13);
    assert("kind"@.len() == 4);
    assert("size"@.len() == 4);
    assert("mtimeMs"@.len() == 7);
    assert("hashCode"@.len() == 8);
    assert("file"@.len() == 4);
    assert("executor"@.len() == 8);
    assert("metadata"@.len() == 8);
    assert("newFilePath"@.len() == 11);
    assert("filePath"@.len() == 8);
    assert("type"@.len() == 4);
    assert("fileKey"@[0] == 'f' && "mtimeMs"@[0] == 'm');
    assert("kind"@[0] == 'k' && "size"@[0] == 's');
    assert("kind"@[0] == 'k' && "file"@[0] == 'f');
    assert("kind"@[0] == 'k' && "type"@[0] == 't');
    assert("size"@[0] == 's' && "file"@[0] == 'f');
    assert("size"@[0] == 's' && "type"@[0] == 't');
    assert("hashCode"@[0] == 'h' && "executor"@[0] == 'e');
    assert("hashCode"@[0] == 'h' && "metadata"@[0] == 'm');
    assert("hashCode"@[0] == 'h' && "filePath"@[0] == 'f');
    assert("file"@[0] == 'f' && "type"@[0] == 't');
    assert("executor"@[0] == 'e' && "metadata"@[0] == 'm');
    assert("executor"@[0] == 'e' && "filePath"@[0] == 'f');
    assert("metadata"@[0] == 'm' && "filePath"@[0] == 'f');
}

// ---------------------------------------------------------------------------
// Reading a changed file back
// ---------------------------------------------------------------------------

/// The result of an action names the file that it left behind: under its new path, else under
/// the one that the executor found, else under the one that was given.
pub open spec fn leaves_file(result: JsonView, path: Seq<char>) -> bool {
    let file = result.field2("metadata"@, "file"@);
    &&& path.len() > 0
    &&& file is Some
    &&& file->0.field("type"@) != Some(JsonView::Str("delete"@))
    &&& match file->0.field("newFilePath"@) {
        Some(p) => p == JsonView::Str(path),
        None => match file->0.field("canonicalPath"@) {
            Some(p) => p == JsonView::Str(path),
            None => file->0.field("filePath"@) == Some(JsonView::Str(path)),
        },
    }
}

/// After an action the file that it left behind is read back, with its state, and what is kept
/// is the file and the state that were read.
pub proof fn law_changed_files_are_read_back(
    call: CallView,
    events: Seq<(EventView, i64)>,
    k: int,
    result: JsonView,
    path: Seq<char>,
    read: JsonView,
)
    requires
        call.name == "FileAction"@,
        tool_replied(
            call,
            events,
            k,
            ExecutorReplyView { ok: true, error: None, result: Some(result) },
        ),
        leaves_file(result, path),
    ensures
        ({
            let asked = action_at(call, events, k)->0->Execute_executor;
            &&& turns_to_executor(
                action_at(call, events, k + 1),
                "read"@,
                asked == Some("local"@),
                events[0].0->Text_0->Ok_0,
            )
            &&& asked == Some("local"@) ==> {
                let params = action_at(call, events, k + 1)->0->Execute_params;
                &&& params.field("filePath"@) == Some(JsonView::Str(path))
                &&& params.field("hashCheckMode"@) == Some(JsonView::Bool(true))
            }
            &&& asked == Some("local"@) && k + 1 < events.len() && events[k + 1].0
                == EventView::Reply(
                ExecutorReplyView { ok: true, error: None, result: Some(read) },
            ) ==> forall|file_key: Seq<char>, found: Seq<char>, hash_code: Seq<char>| #[trigger]
                tells_file(read, file_key, found, hash_code) ==> (action_at(
                    call,
                    events,
                    k + 2,
                ) matches Some(ActionView::StoreHashRef { session_id, update }) && session_id
                    == trimmed(call.context.executor_session_id->0) && update.file.canonical_path
                    == found && update.file.file_key == file_key && update.hash_code == hash_code)
        }),
{
    lemma_tool_names();
    lemma_file_names();
    lemma_stamp_names();
    lemma_routing_names();
    let reply = ExecutorReplyView { ok: true, error: None, result: Some(result) };
    let (scope, executor) = lemma_tool_replied(call, events, k, reply);
    let op = file_op(false, call.arguments);
    let routed = with_route(result, or_local_if_empty(executor));
    lemma_routed(result, or_local_if_empty(executor));
    assert(routed.field2("metadata"@, "file"@) == result.field2("metadata"@, "file"@));
    assert(crate::file_tool::changed_path(routed) == Some(path));
    let args = read_back_arguments(path, executor);
    assert(args.field("executor"@) == Some(JsonView::Str(executor)));
    let asked = action_at(call, events, k)->0->Execute_executor;
    if asked == Some("local"@) && k + 1 < events.len() {
        let step = ran_step(scope, op, executor, routed);
        assert(call_at(call, events, k + 2) == crate::tool_call::tool_next(
            call_at(call, events, k + 1)->Ask_0,
            events[k + 1].0,
            events[k + 1].1,
        ));
        let read_routed = with_route(read, "local"@);
        lemma_routed(read, "local"@);
        let fresh = refreshed(routed, read_routed);
        assert(fresh.field2("metadata"@, "hashCode"@) == match read.field2(
            "metadata"@,
            "hashCode"@,
        ) {
            Some(v) => Some(v),
            None => routed.field2("metadata"@, "hashCode"@),
        });
        assert(fresh.field2("metadata"@, "file"@) == match read.field2("metadata"@, "file"@) {
            Some(v) => Some(v),
            None => routed.field2("metadata"@, "file"@),
        });
    }
}

/// After a deletion nothing is read back.
pub proof fn law_deleted_files_are_not_read_back(
    call: CallView,
    events: Seq<(EventView, i64)>,
    k: int,
    result: JsonView,
)
    requires
        call.name == "FileAction"@,
        tool_replied(
            call,
            events,
            k,
            ExecutorReplyView { ok: true, error: None, result: Some(result) },
        ),
        result.field2("metadata"@, "file"@) matches Some(file) && file.field("type"@) == Some(
            JsonView::Str("delete"@),
        ),
    ensures
        call_at(call, events, k + 1) is Done || (action_at(call, events, k + 1) matches Some(a)
            && a is StoreHashRef),
{
    lemma_tool_names();
    lemma_file_names();
    let reply = ExecutorReplyView { ok: true, error: None, result: Some(result) };
    let (scope, executor) = lemma_tool_replied(call, events, k, reply);
    lemma_routed(result, or_local_if_empty(executor));
}

/// The label of a kept file is its name and four hexadecimal digits, and the next call with
/// that label, once it resolves to what is kept, goes to the executor of the file, to its
/// path, in its state.
pub proof fn law_labels_lead_back(
    call: CallView,
    session_id: Seq<char>,
    workdir: Seq<char>,
    key: Seq<char>,
    update: FileRefUpdateView,
    now: i64,
)
    requires
        is_file_tool(call.name),
        is_for_session(call, session_id),
        trimmed(workdir).len() > 0,
        !patches_without_label(call),
        !patches_bytes(call.arguments),
        call.arguments.field("fileKey"@) == Some(JsonView::Str(key)),
        or_local_if_empty(update.executor) == "local"@,
    ensures
        ({
            let events = seq![
                (EventView::Text(Ok(workdir)), now),
                (EventView::Flag(true), now),
                (EventView::Entry(Ok(kept_entry(update))), now),
            ];
            action_at(call, events, 3) matches Some(
                ActionView::Execute { id, method, executor, params, directory },
            ) && method == call.name && executor == Some("local"@) && params.field("filePath"@)
                == Some(JsonView::Str(update.file.canonical_path)) && params.field("hashCode"@)
                == Some(JsonView::Str(update.hash_code)) && params.field("hashCheckMode"@) == Some(
                JsonView::Bool(true),
            )
        }),
{
    let entry = kept_entry(update);
    let events = seq![
        (EventView::Text(Ok(workdir)), now),
        (EventView::Flag(true), now),
        (EventView::Entry(Ok(entry)), now),
    ];
    law_files_are_reached(call, session_id, workdir, entry, Seq::empty(), now);
    let known = seq![(EventView::Text(Ok(workdir)), now)];
    assert(known.push((EventView::Flag(true), now)).push((EventView::Entry(Ok(entry)), now))
        =~= events);
    law_files_are_asked_for_as_named(call, events, 3);
}

/// After a patch or a renaming the line that tells the hash is not shown; whatever else a file tool
/// shows is shown as it is.
pub proof fn law_hashes_are_not_shown(
    op: FileOpView,
    value: JsonView,
    line: Seq<char>,
    hash: Seq<char>,
)
    requires
        value.field("output"@) == Some(
            JsonView::Str(line.push('\n') + ("hashCode:"@ + hash)),
        ),
        !line.contains('\n') && (line.len() == 0 || line.last() != '\r'),
        !hash.contains('\n'),
        !has_prefix(trim_start_of(line), "hashCode:"@),
    ensures
        file_answer(op, value, None) matches Ok(r) && r.content.len() == 1 && r.content[0].text
            == if op.mode == Some("patch"@) || op.mode == Some("rename"@) {
            line
        } else {
            line.push('\n') + ("hashCode:"@ + hash)
        },
{
    let tail = "hashCode:"@ + hash;
    reveal_strlit("hashCode:");
    let p = "hashCode:"@;
    assert(p =~= seq!['h', 'a', 's', 'h', 'C', 'o', 'd', 'e', ':']);
    assert(!tail.contains('\n')) by {
        if tail.contains('\n') {
            let i = choose|i: int| 0 <= i < tail.len() && tail[i] == '\n';
            if i < p.len() {
                assert(tail[i] == p[i]);
            } else {
                assert(hash[i - p.len()] == '\n');
            }
        }
    }
    law_lines(line, tail);
    law_lines(tail, Seq::empty());
    assert(tail.subrange(0, p.len() as int) =~= p);
    assert(tail[0] == 'h');
    assert(trim_start_of(tail) == tail);
    law_hash_lines_are_left_out(seq![line], seq![tail], line);
    law_hash_lines_are_left_out(seq![line], seq![tail], tail);
    assert(seq![line] + Seq::<Seq<char>>::empty() =~= seq![line]);
    assert(joined(seq![line], "\n"@) == line);
}

} // verus!
