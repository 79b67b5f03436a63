//! How the tasks of calls reach the terminals of their session.

use vstd::prelude::*;

use crate::exbash_laws::lemma_mode_names;
use crate::exbash_laws::text_in;
use crate::json::JsonView;
use crate::ptyt::asking_for_structure;
use crate::ptyt::assign_message;
use crate::ptyt::has_open_slot;
use crate::ptyt::is_assignment;
use crate::ptyt::is_open;
use crate::ptyt::is_register;
use crate::ptyt::registered_message;
use crate::ptyt::schedule_call;
use crate::ptyt::settled;
use crate::ptyt::used_before;
use crate::ptyt::AssignmentView;
use crate::ptyt::PtytSlotView;
use crate::ptyt::RefsPtytActiveTaskView;
use crate::ptyt::RefsPtytScheduleCallView;
use crate::types::law_task_reads_back;
use crate::types::snapshot_json;
use crate::types::ExbashTaskSnapshotView;

verus! {

/// The request calls `exbash` with these arguments.
pub open spec fn calls_exbash(input: JsonView, arguments: JsonView) -> bool {
    &&& input.field("method"@) == Some(JsonView::Str("tools/call"@))
    &&& input.field("params"@) matches Some(params) && params.field("name"@) == Some(
        JsonView::Str("exbash"@),
    ) && params.field("arguments"@) == Some(arguments)
    &&& arguments is Obj
}

/// A member that is left out, or false.
pub open spec fn is_off(v: Option<JsonView>) -> bool {
    v is None || v == Some(JsonView::Bool(false)) || v == Some(JsonView::Null)
}

/// The mode has a running task to show: `run`, `shell` or `attach`, or none is given.
pub open spec fn has_task_to_show(arguments: JsonView) -> bool {
    match text_in(arguments, "mode"@) {
        Some(m) => m == "run"@ || m == "shell"@ || m == "attach"@,
        None => true,
    }
}

/// A call of `exbash` for a session in a mode that has a running task, and not made by a
/// terminal itself, has its task handed to a terminal of that session; the request then asks
/// for structured content, and is otherwise as it was.
pub proof fn law_task_calls_are_scheduled(input: JsonView, arguments: JsonView, session: Seq<char>)
    requires
        calls_exbash(input, arguments),
        text_in(arguments, "ExecutorSessionID"@) == Some(session),
        is_off(arguments.field("refsPtytResolve"@)),
        has_task_to_show(arguments),
    ensures
        schedule_call(input) matches Some(call) && {
            &&& call.session_id == session
            &&& call.mode == match text_in(arguments, "mode"@) {
                Some(m) => m,
                None => "shell"@,
            }
            &&& call.scope == match arguments.field("scope"@) {
                Some(_) => match text_in(arguments, "scope"@) {
                    Some(s) => s,
                    None => "local"@,
                },
                None => match text_in(arguments, "spoe"@) {
                    Some(s) => s,
                    None => "local"@,
                },
            }
            &&& is_off(arguments.field("includeStructuredContent"@))
                ==> !call.include_structured_content
            &&& arguments.field("includeStructuredContent"@) == Some(JsonView::Bool(true))
                ==> call.include_structured_content
        },
        ({
            let asked = asking_for_structure(input);
            &&& asked.field3("params"@, "arguments"@, "includeStructuredContent"@) == Some(
                JsonView::Bool(true),
            )
            &&& forall|key: Seq<char>|
                key != "params"@ ==> #[trigger] asked.field(key) == input.field(key)
            &&& forall|key: Seq<char>|
                key != "arguments"@ ==> #[trigger] asked.field2("params"@, key) == input.field2(
                    "params"@,
                    key,
                )
            &&& forall|key: Seq<char>|
                key != "includeStructuredContent"@ ==> #[trigger] asked.field3(
                    "params"@,
                    "arguments"@,
                    key,
                ) == arguments.field(key)
        }),
{
    lemma_mode_names();
    lemma_request_names();
}

/// No other request has a task handed to a terminal: not one of another method or tool, not one
/// without a session, not one that a terminal makes itself, and not one in another mode.
pub proof fn law_other_calls_are_not_scheduled(input: JsonView, arguments: JsonView)
    ensures
        input.field("method"@) != Some(JsonView::Str("tools/call"@)) ==> schedule_call(
            input,
        ) is None,
        input.field2("params"@, "name"@) != Some(JsonView::Str("exbash"@)) ==> schedule_call(
            input,
        ) is None,
        calls_exbash(input, arguments) && text_in(arguments, "ExecutorSessionID"@) is None
            ==> schedule_call(input) is None,
        calls_exbash(input, arguments) && arguments.field("refsPtytResolve"@) == Some(
            JsonView::Bool(true),
        ) ==> schedule_call(input) is None,
        calls_exbash(input, arguments) && !has_task_to_show(arguments) ==> schedule_call(
            input,
        ) is None,
{
    lemma_mode_names();
    lemma_request_names();
}

proof fn lemma_request_names()
    ensures
        "method"@ != "params"@,
        "method"@ != "name"@,
        "method"@ != "arguments"@,
        "method"@ != "mode"@,
        "method"@ != "scope"@,
        "method"@ != "spoe"@,
        "method"@ != "ExecutorSessionID"@,
        "method"@ != "refsPtytResolve"@,
        "method"@ != "includeStructuredContent"@,
        "method"@ != "result"@,
        "method"@ != "structuredContent"@,
        "method"@ != "metadata"@,
        "method"@ != "hostSnapshot"@,
        "method"@ != "asyncId"@,
        "method"@ != "asyncID"@,
        "params"@ != "name"@,
        "params"@ != "arguments"@,
        "params"@ != "mode"@,
        "params"@ != "scope"@,
        "params"@ != "spoe"@,
        "params"@ != "ExecutorSessionID"@,
        "params"@ != "refsPtytResolve"@,
        "params"@ != "includeStructuredContent"@,
        "params"@ != "result"@,
        "params"@ != "structuredContent"@,
        "params"@ != "metadata"@,
        "params"@ != "hostSnapshot"@,
        "params"@ != "asyncId"@,
        "params"@ != "asyncID"@,
        "name"@ != "arguments"@,
        "name"@ != "mode"@,
        "name"@ != "scope"@,
        "name"@ != "spoe"@,
        "name"@ != "ExecutorSessionID"@,
        "name"@ != "refsPtytResolve"@,
        "name"@ != "includeStructuredContent"@,
        "name"@ != "result"@,
        "name"@ != "structuredContent"@,
        "name"@ != "metadata"@,
        "name"@ != "hostSnapshot"@,
        "name"@ != "asyncId"@,
        "name"@ != "asyncID"@,
        "arguments"@ != "mode"@,
        "arguments"@ != "scope"@,
        "arguments"@ != "spoe"@,
        "arguments"@ != "ExecutorSessionID"@,
        "arguments"@ != "refsPtytResolve"@,
        "arguments"@ != "includeStructuredContent"@,
        "arguments"@ != "result"@,
        "arguments"@ != "structuredContent"@,
        "arguments"@ != "metadata"@,
        "arguments"@ != "hostSnapshot"@,
        "arguments"@ != "asyncId"@,
        "arguments"@ != "asyncID"@,
        "mode"@ != "scope"@,
        "mode"@ != "spoe"@,
        "mode"@ != "ExecutorSessionID"@,
        "mode"@ != "refsPtytResolve"@,
        "mode"@ != "includeStructuredContent"@,
        "mode"@ != "result"@,
        "mode"@ != "structuredContent"@,
        "mode"@ != "metadata"@,
        "mode"@ != "hostSnapshot"@,
        "mode"@ != "asyncId"@,
        "mode"@ != "asyncID"@,
        "scope"@ != "spoe"@,
        "scope"@ != "ExecutorSessionID"@,
        "scope"@ != "refsPtytResolve"@,
        "scope"@ != "includeStructuredContent"@,
        "scope"@ != "result"@,
        "scope"@ != "structuredContent"@,
        "scope"@ != "metadata"@,
        "scope"@ != "hostSnapshot"@,
        "scope"@ != "asyncId"@,
        "scope"@ != "asyncID"@,
        "spoe"@ != "ExecutorSessionID"@,
        "spoe"@ != "refsPtytResolve"@,
        "spoe"@ != "includeStructuredContent"@,
        "spoe"@ != "result"@,
        "spoe"@ != "structuredContent"@,
        "spoe"@ != "metadata"@,
        "spoe"@ != "hostSnapshot"@,
        "spoe"@ != "asyncId"@,
        "spoe"@ != "asyncID"@,
        "ExecutorSessionID"@ != "refsPtytResolve"@,
        "ExecutorSessionID"@ != "includeStructuredContent"@,
        "ExecutorSessionID"@ != "result"@,
        "ExecutorSessionID"@ != "structuredContent"@,
        "ExecutorSessionID"@ != "metadata"@,
        "ExecutorSessionID"@ != "hostSnapshot"@,
        "ExecutorSessionID"@ != "asyncId"@,
        "ExecutorSessionID"@ != "asyncID"@,
        "refsPtytResolve"@ != "includeStructuredContent"@,
        "refsPtytResolve"@ != "result"@,
        "refsPtytResolve"@ != "structuredContent"@,
        "refsPtytResolve"@ != "metadata"@,
        "refsPtytResolve"@ != "hostSnapshot"@,
        "refsPtytResolve"@ != "asyncId"@,
        "refsPtytResolve"@ != "asyncID"@,
        "includeStructuredContent"@ != "result"@,
        "includeStructuredContent"@ != "structuredContent"@,
        "includeStructuredContent"@ != "metadata"@,
        "includeStructuredContent"@ != "hostSnapshot"@,
        "includeStructuredContent"@ != "asyncId"@,
        "includeStructuredContent"@ != "asyncID"@,
        "result"@ != "structuredContent"@,
        "result"@ != "metadata"@,
        "result"@ != "hostSnapshot"@,
        "result"@ != "asyncId"@,
        "result"@ != "asyncID"@,
        "structuredContent"@ != "metadata"@,
        "structuredContent"@ != "hostSnapshot"@,
        "structuredContent"@ != "asyncId"@,
        "structuredContent"@ != "asyncID"@,
        "metadata"@ != "hostSnapshot"@,
        "metadata"@ != "asyncId"@,
        "metadata"@ != "asyncID"@,
        "hostSnapshot"@ != "asyncId"@,
        "hostSnapshot"@ != "asyncID"@,
        "asyncId"@ != "asyncID"@,
{
    reveal_strlit("method");
    reveal_strlit("params");
    reveal_strlit("name");
    reveal_strlit("arguments");
    reveal_strlit("mode");
    reveal_strlit("scope");
    reveal_strlit("spoe");
    reveal_strlit("ExecutorSessionID");
    reveal_strlit("refsPtytResolve");
    reveal_strlit("includeStructuredContent");
    reveal_strlit("result");
    reveal_strlit("structuredContent");
    reveal_strlit("metadata");
    reveal_strlit("hostSnapshot");
    reveal_strlit("asyncId");
    reveal_strlit("asyncID");
    assert("method"@.len() == 6);
    assert("params"@.len() == 6);
    assert("name"@.len() == 4);
    assert("arguments"@.len() == 9);
    assert("mode"@.len() == 4);
    assert("scope"@.len() == 5);
    assert("spoe"@.len() == 4);
    assert("ExecutorSessionID"@.len() == 17);
    assert("refsPtytResolve"@.len() == 15);
    assert("includeStructuredContent"@.len() == 24);
    assert("result"@.len() == 6);
    assert("structuredContent"@.len() == 17);
    assert("metadata"@.len() == 8);
    assert("hostSnapshot"@.len() == 12);
    assert("asyncId"@.len() == 7);
    assert("asyncID"@.len() == 7);
    assert("method"@[0] == 'm' && "params"@[0] == 'p');
    assert("method"@[0] == 'm' && "result"@[0] == 'r');
    assert("params"@[0] == 'p' && "result"@[0] == 'r');
    assert("name"@[0] == 'n' && "mode"@[0] == 'm');
    assert("name"@[0] == 'n' && "spoe"@[0] == 's');
    assert("mode"@[0] == 'm' && "spoe"@[0] == 's');
    assert("ExecutorSessionID"@[0] == 'E' && "structuredContent"@[0] == 's');
    assert("asyncId"@[6] == 'd' && "asyncID"@[6] == 'D');
}

/// The response shows the task as the host keeps it.
pub open spec fn shows_snapshot(output: JsonView, task: ExbashTaskSnapshotView) -> bool {
    output.field3("result"@, "structuredContent"@, "metadata"@) matches Some(metadata)
        && metadata.field("hostSnapshot"@) == Some(snapshot_json(task))
}

/// The task that the host keeps is the one that is handed out, with the session of the call
/// where it names none, and in the scope where it is kept. The caller gets the response
/// without the structured content, unless it asked for it.
pub proof fn law_kept_tasks_are_handed_out(
    call: RefsPtytScheduleCallView,
    output: JsonView,
    task: ExbashTaskSnapshotView,
)
    requires
        shows_snapshot(output, task),
    ensures
        settled(Some(call), output).0 matches Some(active) && active.task
            == (ExbashTaskSnapshotView {
            session_id: match task.session_id {
                Some(s) => Some(s),
                None => Some(call.session_id),
            },
            ..task
        }) && active.scope == if task.workdir is Some {
            "workspace"@
        } else {
            call.scope
        },
        !call.include_structured_content ==> settled(Some(call), output).1.field2(
            "result"@,
            "structuredContent"@,
        ) is None,
        call.include_structured_content ==> settled(Some(call), output).1 == output,
        forall|key: Seq<char>|
            key != "structuredContent"@ ==> #[trigger] settled(Some(call), output).1.field2(
                "result"@,
                key,
            ) == output.field2("result"@, key),
        forall|key: Seq<char>|
            key != "result"@ ==> #[trigger] settled(Some(call), output).1.field(key)
                == output.field(key),
        settled(None, output) == (None::<RefsPtytActiveTaskView>, output),
{
    lemma_request_names();
    law_task_reads_back(task);
    let v = snapshot_json(task);
    lemma_snapshot_has_id(task);
    assert(crate::ptyt::with_async_id(v) == v);
}

proof fn lemma_snapshot_has_id(t: ExbashTaskSnapshotView)
    ensures
        snapshot_json(t).field("asyncId"@) is Some,
{
    law_task_reads_back(t);
}

/// The message to a terminal names the task: its id, its executor and its scope.
pub proof fn law_assignments_name_the_task(active: RefsPtytActiveTaskView)
    ensures
        assign_message(active).field("type"@) == Some(JsonView::Str("refs-ptyt.assign"@)),
        assign_message(active).field("task"@) matches Some(task) && task.field("scope"@) == Some(
            JsonView::Str(active.scope),
        ) && (forall|key: Seq<char>|
            key != "scope"@ ==> #[trigger] task.field(key) == snapshot_json(active.task).field(key))
            && task.field("asyncId"@) == Some(JsonView::Str(active.task.async_id)) && task.field(
            "executor"@,
        ) == Some(JsonView::Str(active.task.executor)),
        forall|slot: Seq<char>| #[trigger]
            registered_message(slot).field("type"@) == Some(JsonView::Str("refs-ptyt.registered"@))
                && registered_message(slot).field("slotID"@) == Some(JsonView::Str(slot)),
{
    lemma_message_names();
    law_task_reads_back(active.task);
}

proof fn lemma_message_names()
    ensures
        "type"@ != "task"@,
        "type"@ != "scope"@,
        "type"@ != "asyncId"@,
        "type"@ != "executor"@,
        "type"@ != "slotID"@,
        "task"@ != "scope"@,
        "task"@ != "asyncId"@,
        "task"@ != "executor"@,
        "task"@ != "slotID"@,
        "scope"@ != "asyncId"@,
        "scope"@ != "executor"@,
        "scope"@ != "slotID"@,
        "asyncId"@ != "executor"@,
        "asyncId"@ != "slotID"@,
        "executor"@ != "slotID"@,
{
    reveal_strlit("type");
    reveal_strlit("task");
    reveal_strlit("scope");
    reveal_strlit("asyncId");
    reveal_strlit("executor");
    reveal_strlit("slotID");
    assert("type"@.len() == 4);
    assert("task"@.len() == 4);
    assert("scope"@.len() == 5);
    assert("asyncId"@.len() == 7);
    assert("executor"@.len() == 8);
    assert("slotID"@.len() == 6);
    assert("type"@[1] == 'y' && "task"@[1] == 'a');
}

/// A task goes to a slot of its own session that takes tasks, whenever there is one, and to an
/// empty one whenever there is one; only that slot changes, and it is marked as the one used
/// last. A task without a session, or whose session has no such slot, changes nothing.
pub proof fn law_tasks_go_to_slots_of_their_session<S>(
    slots: Map<Seq<char>, PtytSlotView<S>>,
    tick: u64,
    active: RefsPtytActiveTaskView,
    assignment: Option<AssignmentView>,
    after: Map<Seq<char>, PtytSlotView<S>>,
    tick_after: u64,
    session: Seq<char>,
    free: Seq<char>,
)
    requires
        is_assignment(slots, tick, active, assignment, after, tick_after),
        active.task.session_id == Some(session),
    ensures
        slots.dom().contains(free) && slots[free].session_id == session && slots[free].schedulable
            ==> assignment is Some,
        assignment matches Some(a) ==> {
            &&& slots.dom().contains(a.key) && slots[a.key].session_id == session
                && slots[a.key].schedulable
            &&& a.slot_id == slots[a.key].slot_id
            &&& a.message == assign_message(active)
            &&& slots.dom().contains(free) && slots[free].session_id == session
                && slots[free].schedulable && slots[free].assigned_task is None
                ==> slots[a.key].assigned_task is None
            &&& slots.dom().contains(free) && slots[free].session_id == session
                && slots[free].schedulable && (slots[free].assigned_task is None
                == slots[a.key].assigned_task is None) ==> slots[a.key].last_active
                <= slots[free].last_active
            &&& after.dom() == slots.dom()
            &&& after[a.key].assigned_task is Some
            &&& after[a.key].session_id == session && after[a.key].slot_id == a.slot_id
                && after[a.key].schedulable && after[a.key].sender == slots[a.key].sender
            &&& after[a.key].last_active == tick_after && tick_after >= tick
            &&& forall|other: Seq<char>|
                other != a.key && slots.dom().contains(other) ==> #[trigger] after[other]
                    == slots[other]
        },
        assignment is None ==> after == slots && tick_after == tick,
{
    if slots.dom().contains(free) && is_open(slots[free], session) {
        assert(has_open_slot(slots, session));
    }
    if let Some(a) = assignment {
        if slots.dom().contains(free) && is_open(slots[free], session) {
            assert(!used_before(free, slots[free], a.key, slots[a.key]));
        }
        assert(after.dom() =~= slots.dom());
    }
}

/// With two empty slots, two tasks in a row go to different ones.
pub proof fn law_two_tasks_fill_two_slots<S>(
    slots: Map<Seq<char>, PtytSlotView<S>>,
    tick: u64,
    first: RefsPtytActiveTaskView,
    second: RefsPtytActiveTaskView,
    a: Option<AssignmentView>,
    between: Map<Seq<char>, PtytSlotView<S>>,
    tick_between: u64,
    b: Option<AssignmentView>,
    after: Map<Seq<char>, PtytSlotView<S>>,
    tick_after: u64,
    session: Seq<char>,
    one: Seq<char>,
    other: Seq<char>,
)
    requires
        is_assignment(slots, tick, first, a, between, tick_between),
        is_assignment(between, tick_between, second, b, after, tick_after),
        first.task.session_id == Some(session) && second.task.session_id == Some(session),
        one != other,
        slots.dom().contains(one) && slots[one].session_id == session && slots[one].schedulable
            && slots[one].assigned_task is None,
        slots.dom().contains(other) && slots[other].session_id == session
            && slots[other].schedulable && slots[other].assigned_task is None,
    ensures
        a is Some && b is Some && a->0.key != b->0.key,
{
    law_tasks_go_to_slots_of_their_session(
        slots,
        tick,
        first,
        a,
        between,
        tick_between,
        session,
        one,
    );
    law_tasks_go_to_slots_of_their_session(
        slots,
        tick,
        first,
        a,
        between,
        tick_between,
        session,
        other,
    );
    law_tasks_go_to_slots_of_their_session(
        between,
        tick_between,
        second,
        b,
        after,
        tick_after,
        session,
        one,
    );
    law_tasks_go_to_slots_of_their_session(
        between,
        tick_between,
        second,
        b,
        after,
        tick_after,
        session,
        other,
    );
    let left = if a->0.key == one {
        other
    } else {
        one
    };
    assert(between[left] == slots[left]);
}

// ---------------------------------------------------------------------------
// Responses
// ---------------------------------------------------------------------------

/// The caller gets the response that the tool gave. Only the structured content is taken back, and
/// only where the caller did not ask for it; a call that shows no task is not touched.
pub proof fn law_responses_are_handed_on(
    call: RefsPtytScheduleCallView,
    output: JsonView,
    key: Seq<char>,
    member: Seq<char>,
)
    ensures
        settled(None, output) == (None::<RefsPtytActiveTaskView>, output),
        ({
            let (_, answer) = settled(Some(call), output);
            &&& call.include_structured_content ==> answer == output
            &&& key != "result"@ ==> answer.field(key) == output.field(key)
            &&& member != "structuredContent"@ ==> answer.field2("result"@, member)
                == output.field2("result"@, member)
            &&& !call.include_structured_content ==> answer.field2(
                "result"@,
                "structuredContent"@,
            ) is None
        }),
{
}

/// A request that is to show structured content keeps everything else that it says.
pub proof fn law_requests_are_handed_on(
    input: JsonView,
    key: Seq<char>,
    member: Seq<char>,
    argument: Seq<char>,
)
    requires
        input.field2("params"@, "arguments"@) matches Some(a) && a is Obj,
    ensures
        ({
            let asked = asking_for_structure(input);
            &&& key != "params"@ ==> asked.field(key) == input.field(key)
            &&& member != "arguments"@ ==> asked.field2("params"@, member) == input.field2(
                "params"@,
                member,
            )
            &&& argument != "includeStructuredContent"@ ==> asked.field3(
                "params"@,
                "arguments"@,
                argument,
            ) == input.field3("params"@, "arguments"@, argument)
            &&& asked.field3("params"@, "arguments"@, "includeStructuredContent"@) == Some(
                JsonView::Bool(true),
            )
        }),
{
}

/// A task that the executor describes and the host did not record is handed out as it is described:
/// for the session and the scope of the call, on the executor that it runs on, running where
/// nothing else is said.
pub proof fn law_described_tasks_are_handed_out(
    call: RefsPtytScheduleCallView,
    output: JsonView,
    metadata: JsonView,
    id: Seq<char>,
)
    requires
        output.field3("result"@, "structuredContent"@, "metadata"@) == Some(metadata),
        metadata.field("hostSnapshot"@) is None,
        metadata.field("hostSnapshots"@) is None,
        metadata.field("asyncID"@) == Some(JsonView::Str(id)),
    ensures
        ({
            let active = settled(Some(call), output).0;
            let text = |key: Seq<char>| match metadata.field(key) {
                Some(JsonView::Str(s)) => Some(s),
                _ => None,
            };
            &&& active is Some
            &&& active->0.scope == call.scope
            &&& active->0.task.async_id == id
            &&& active->0.task.session_id == Some(call.session_id)
            &&& active->0.task.executor == match text("executor"@) {
                Some(e) => e,
                None => "local"@,
            }
            &&& active->0.task.state == match text("state"@) {
                Some(s) => Some(s),
                None => Some("running"@),
            }
            &&& active->0.task.command == text("command"@)
            &&& active->0.task.description == text("description"@)
            &&& active->0.task.workdir is Some <==> call.scope == "workspace"@
        }),
{
}

/// A response that names no task hands none out.
pub proof fn law_other_responses_hand_nothing_out(
    call: RefsPtytScheduleCallView,
    output: JsonView,
    metadata: JsonView,
)
    requires
        output.field3("result"@, "structuredContent"@, "metadata"@) == Some(metadata),
        metadata.field("hostSnapshot"@) is None,
        metadata.field("hostSnapshots"@) is None,
        metadata.field("asyncID"@) is None,
        metadata.field("asyncId"@) is None,
    ensures
        settled(Some(call), output).0 is None,
{
}

/// A terminal is told under which name it is registered.
pub proof fn law_registrations_are_confirmed(slot_id: Seq<char>)
    ensures
        registered_message(slot_id).field("slotID"@) == Some(JsonView::Str(slot_id)),
        registered_message(slot_id).field("type"@) == Some(JsonView::Str("refs-ptyt.registered"@)),
        !is_register(registered_message(slot_id)),
{
    reveal_strlit("type");
    reveal_strlit("slotID");
    reveal_strlit("refs-ptyt.registered");
    reveal_strlit("refs-ptyt.register");
    assert("type"@.len() == 4 && "slotID"@.len() == 6);
    assert("refs-ptyt.registered"@.len() == 20 && "refs-ptyt.register"@.len() == 18);
}

} // verus!
