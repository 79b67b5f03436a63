//! What managing executors does.

use vstd::prelude::*;

use crate::args::CallScopeView;
use crate::base_laws::law_parts_are_stacked;
use crate::calls::ActionView;
use crate::calls::EventView;
use crate::calls::ExecutorReplyView;
use crate::calls::StepView;
use crate::exbash_laws::is_for_session;
use crate::exbash_laws::lemma_tool_names;
use crate::exbash_laws::text_in;
use crate::json::JsonView;
use crate::manager_tool::connect_arguments;
use crate::manager_tool::manager_begin;
use crate::manager_tool::manager_next;
use crate::output::output_text;
use crate::shown_laws::law_every_executor_has_its_line;
use crate::text::has_prefix;
use crate::text::has_text;
use crate::text::trimmed;
use crate::tool_call::as_manager;
use crate::traces::action_at;
use crate::traces::call_at;
use crate::traces::goes_to_executor;
use crate::traces::law_local_executor_is_asked;
use crate::traces::lemma_routing_names;
use crate::traces::CallView;
use crate::workspace::config_of;
use crate::workspace::config_value;
use crate::workspace::executor_line;
use crate::workspace::executor_list_text;
use crate::workspace::executor_metadata;
use crate::workspace::executor_result;
use crate::workspace::executors_of;
use crate::workspace::first_local;
use crate::workspace::found;
use crate::workspace::has_id;
use crate::workspace::id_index;
use crate::workspace::ids_distinct;
use crate::workspace::info_of_arguments;
use crate::workspace::info_value;
use crate::workspace::law_config_is_clean;
use crate::workspace::law_upsert_keeps_ids_distinct;
use crate::workspace::lemma_first_id;
use crate::workspace::local_of;
use crate::workspace::upserted;
use crate::workspace::WorkspaceExecutorInfoView;

verus! {

// ---------------------------------------------------------------------------
// The executors of a workspace
// ---------------------------------------------------------------------------

/// An entry of a configuration that describes an executor by its id and its address.
pub open spec fn describes(entry: JsonView, id: Seq<char>, url: Seq<char>) -> bool {
    &&& entry.field("id"@) == Some(JsonView::Str(id))
    &&& entry.field("url"@) == Some(JsonView::Str(url))
    &&& entry.field("system"@) is None && entry.field("device"@) is None && entry.field("labels"@)
        is None
    &&& trimmed(id).len() > 0 && id != "local"@ && trimmed(url).len() > 0
}

proof fn lemma_entry_is_kept(entries: Seq<JsonView>, i: int, id: Seq<char>, url: Seq<char>)
    requires
        0 <= i < entries.len(),
        describes(entries[i], id, url),
        forall|j: int|
            0 <= j < i ==> (#[trigger] entries[j]) is Obj && entries[j].field("id"@) != Some(
                JsonView::Str(id),
            ),
    ensures
        exists|n: int|
            0 <= n < executors_of(entries).len() && (#[trigger] executors_of(entries)[n]).id == id
                && executors_of(entries)[n].url == url,
    decreases entries.len(),
{
    lemma_info_names();
    let before = entries.drop_last();
    let head = executors_of(before);
    if i == entries.len() - 1 {
        lemma_no_entry(before, id);
        assert(!has_id(head, id));
        let all = executors_of(entries);
        assert(all[head.len() as int].id == id);
    } else {
        assert forall|j: int| 0 <= j < i implies (#[trigger] before[j]) is Obj && before[j].field(
            "id"@,
        ) != Some(JsonView::Str(id)) by {
            assert(before[j] == entries[j]);
        }
        lemma_entry_is_kept(before, i, id, url);
        let n = choose|n: int|
            0 <= n < head.len() && (#[trigger] head[n]).id == id && head[n].url == url;
        assert(executors_of(entries)[n] == head[n]);
    }
}

proof fn lemma_no_entry(entries: Seq<JsonView>, id: Seq<char>)
    requires
        forall|j: int|
            0 <= j < entries.len() ==> (#[trigger] entries[j]) is Obj && entries[j].field("id"@)
                != Some(JsonView::Str(id)),
    ensures
        !has_id(executors_of(entries), id),
    decreases entries.len(),
{
    if entries.len() > 0 {
        let before = entries.drop_last();
        assert forall|j: int| 0 <= j < before.len() implies (#[trigger] before[j]) is Obj
            && before[j].field("id"@) != Some(JsonView::Str(id)) by {
            assert(before[j] == entries[j]);
        }
        lemma_no_entry(before, id);
        assert(entries[entries.len() - 1] is Obj);
        let all = executors_of(entries);
        if has_id(all, id) {
            let n = choose|n: int| 0 <= n < all.len() && (#[trigger] all[n]).id == id;
            if n < executors_of(before).len() {
                assert(executors_of(before)[n].id == id);
            }
        }
    }
}

proof fn lemma_info_names()
    ensures
        "id"@ != "url"@,
        "id"@ != "system"@,
        "id"@ != "device"@,
        "id"@ != "labels"@,
        "id"@ != "executors"@,
        "id"@ != "method"@,
        "id"@ != "executor"@,
        "id"@ != "ExecutorSessionID"@,
        "id"@ != "shell"@,
        "id"@ != "targetExecutor"@,
        "url"@ != "system"@,
        "url"@ != "device"@,
        "url"@ != "labels"@,
        "url"@ != "executors"@,
        "url"@ != "method"@,
        "url"@ != "executor"@,
        "url"@ != "ExecutorSessionID"@,
        "url"@ != "shell"@,
        "url"@ != "targetExecutor"@,
        "system"@ != "device"@,
        "system"@ != "labels"@,
        "system"@ != "executors"@,
        "system"@ != "method"@,
        "system"@ != "executor"@,
        "system"@ != "ExecutorSessionID"@,
        "system"@ != "shell"@,
        "system"@ != "targetExecutor"@,
        "device"@ != "labels"@,
        "device"@ != "executors"@,
        "device"@ != "method"@,
        "device"@ != "executor"@,
        "device"@ != "ExecutorSessionID"@,
        "device"@ != "shell"@,
        "device"@ != "targetExecutor"@,
        "labels"@ != "executors"@,
        "labels"@ != "method"@,
        "labels"@ != "executor"@,
        "labels"@ != "ExecutorSessionID"@,
        "labels"@ != "shell"@,
        "labels"@ != "targetExecutor"@,
        "executors"@ != "method"@,
        "executors"@ != "executor"@,
        "executors"@ != "ExecutorSessionID"@,
        "executors"@ != "shell"@,
        "executors"@ != "targetExecutor"@,
        "method"@ != "executor"@,
        "method"@ != "ExecutorSessionID"@,
        "method"@ != "shell"@,
        "method"@ != "targetExecutor"@,
        "executor"@ != "ExecutorSessionID"@,
        "executor"@ != "shell"@,
        "executor"@ != "targetExecutor"@,
        "ExecutorSessionID"@ != "shell"@,
        "ExecutorSessionID"@ != "targetExecutor"@,
        "shell"@ != "targetExecutor"@,
{
    reveal_strlit("id");
    reveal_strlit("url");
    reveal_strlit("system");
    reveal_strlit("device");
    reveal_strlit("labels");
    reveal_strlit("executors");
    reveal_strlit("method");
    reveal_strlit("executor");
    reveal_strlit("ExecutorSessionID");
    reveal_strlit("shell");
    reveal_strlit("targetExecutor");
    assert("id"@.len() == 2);
    assert("url"@.len() == 3);
    assert("system"@.len() == 6);
    assert("device"@.len() == 6);
    assert("labels"@.len() == 6);
    assert("executors"@.len() == 9);
    assert("method"@.len() == 6);
    assert("executor"@.len() == 8);
    assert("ExecutorSessionID"@.len() == 17);
    assert("shell"@.len() == 5);
    assert("targetExecutor"@.len() == 14);
    assert("system"@[0] == 's' && "device"@[0] == 'd');
    assert("system"@[0] == 's' && "labels"@[0] == 'l');
    assert("system"@[0] == 's' && "method"@[0] == 'm');
    assert("device"@[0] == 'd' && "labels"@[0] == 'l');
    assert("device"@[0] == 'd' && "method"@[0] == 'm');
    assert("labels"@[0] == 'l' && "method"@[0] == 'm');
}

/// An executor that the configuration of a workspace describes is found by its id, with its
/// address; the first description of an id counts. The id of the local executor and ids that
/// nothing describes are not found.
pub proof fn law_described_executors_are_found(
    config: JsonView,
    entries: Seq<JsonView>,
    i: int,
    id: Seq<char>,
    url: Seq<char>,
)
    requires
        config.field("executors"@) == Some(JsonView::Arr(entries)),
        0 <= i < entries.len(),
        describes(entries[i], id, url),
        forall|j: int|
            0 <= j < i ==> (#[trigger] entries[j]) is Obj && entries[j].field("id"@) != Some(
                JsonView::Str(id),
            ),
    ensures
        found(config_of(config), id) matches Some(item) && item.id == id && item.url == url,
        found(config_of(config), "local"@) is None,
{
    lemma_entry_is_kept(entries, i, id, url);
    law_config_is_clean(config);
    let all = config_of(config);
    assert(all == executors_of(entries));
    let n = choose|n: int|
        0 <= n < executors_of(entries).len() && (#[trigger] executors_of(entries)[n]).id == id
            && executors_of(entries)[n].url == url;
    assert(has_id(all, id));
    lemma_first_id(all, id);
    let m = id_index(all, id);
    if m != n {
        if m < n {
            assert(all[m].id != all[n].id);
        } else {
            assert(all[n].id != all[m].id);
        }
    }
    if has_id(all, "local"@) {
        lemma_first_id(all, "local"@);
        assert(crate::workspace::is_reachable(all[id_index(all, "local"@)]));
    }
}

/// An executor that is put into a configuration is found there as it was put in; every other one
/// is found as before.
pub proof fn law_connected_executors_are_kept(
    executors: Seq<WorkspaceExecutorInfoView>,
    item: WorkspaceExecutorInfoView,
    other: Seq<char>,
)
    requires
        ids_distinct(executors),
        other != item.id,
    ensures
        found(upserted(executors, item), item.id) == Some(item),
        found(upserted(executors, item), other) == found(executors, other),
        upserted(executors, item).len() >= executors.len(),
{
    law_upsert_keeps_ids_distinct(executors, item);
    let all = upserted(executors, item);
    if has_id(executors, item.id) {
        lemma_first_id(executors, item.id);
    }
    if has_id(executors, other) {
        lemma_first_id(executors, other);
        let n = id_index(executors, other);
        assert(all[n] == executors[n]);
        assert(has_id(all, other));
        lemma_first_id(all, other);
        let m = id_index(all, other);
        if m < n {
            assert(all[m].id != all[n].id);
        } else if n < m {
            assert(all[n].id != all[m].id);
        }
    } else if has_id(all, other) {
        lemma_first_id(all, other);
        let m = id_index(all, other);
        assert(m < executors.len());
        assert(executors[m].id == other);
    }
}

/// The arguments that describe an executor: its id, which is not that of the local one, and its
/// address, to which `ws://` is added where it has no scheme.
pub proof fn law_executors_are_read_from_arguments(arguments: JsonView)
    ensures
        text_in(arguments, "id"@) is None ==> (info_of_arguments(arguments) matches Err(e) && e.code
            == -32602),
        text_in(arguments, "id"@) == Some("local"@) ==> (info_of_arguments(arguments) matches Err(e)
            && e.code == -32602),
        text_in(arguments, "url"@) is None ==> (info_of_arguments(arguments) matches Err(e) && e.code
            == -32602),
        text_in(arguments, "id"@) matches Some(id) ==> id != "local"@ ==> (text_in(
            arguments,
            "url"@,
        ) matches Some(url) ==> (info_of_arguments(arguments) matches Ok(item) && item.id == id
            && item.url == (if has_prefix(url, "ws://"@) || has_prefix(url, "wss://"@) {
            url
        } else {
            "ws://"@ + url
        }) && item.system == text_in(arguments, "system"@) && item.device == text_in(
            arguments,
            "device"@,
        ))),
{
}

// ---------------------------------------------------------------------------
// The tool
// ---------------------------------------------------------------------------

/// The call manages executors for the session by the method.
pub open spec fn manages(
    call: CallView,
    session_id: Seq<char>,
    workdir: Seq<char>,
    method: Seq<char>,
) -> bool {
    &&& call.name == "RemoteExecutorManager"@
    &&& is_for_session(call, session_id)
    &&& trimmed(workdir).len() > 0
    &&& call.arguments.field("method"@) == Some(JsonView::Str(method))
}

/// The request for what the local executor says of itself.
pub open spec fn asks_local_executor(action: Option<ActionView>) -> bool {
    action matches Some(ActionView::Execute { id, method, executor, params, directory }) && method
        == "list_executor"@ && executor is None && params == JsonView::Obj(Map::empty())
}

/// The list of executors reads the configuration of the workspace and asks the local executor
/// what it says of itself; the answer lists the local executor first and then those of the
/// workspace, in their order.
pub proof fn law_executors_are_listed(
    call: CallView,
    session_id: Seq<char>,
    workdir: Seq<char>,
    config: JsonView,
    result: JsonView,
    now: i64,
)
    requires
        manages(call, session_id, workdir, "list_executor"@),
    ensures
        ({
            let known = seq![(EventView::Text(Ok(workdir)), now)];
            let read = known.push((EventView::Config(Ok(config)), now));
            let reply = ExecutorReplyView { ok: true, error: None, result: Some(result) };
            let told = read.push((EventView::Reply(reply), now));
            let items = config_of(config);
            &&& action_at(call, known, 1) == Some(ActionView::ReadConfig { workdir })
            &&& asks_local_executor(action_at(call, read, 2))
            &&& call_at(call, told, 3) matches StepView::Done(Ok(r)) && (
            r.structured_content matches Some(c) && (c.field2("metadata"@, "executors"@) matches Some(
                JsonView::Arr(listed),
            ) && listed.len() == items.len() + 1 && listed[0] == local_of(Some(result)) && (forall|
                i: int,
            |
                0 <= i < items.len() ==> (#[trigger] listed[i + 1]).field("id"@) == Some(
                    JsonView::Str(items[i].id),
                ) && listed[i + 1].field("url"@) == Some(JsonView::Str(items[i].url)))))
        }),
{
    lemma_tool_names();
    lemma_method_names();
    lemma_info_names();
    lemma_shown_names();
    let scope = CallScopeView { session_id, workdir };
    let known = seq![(EventView::Text(Ok(workdir)), now)];
    let read = known.push((EventView::Config(Ok(config)), now));
    let reply = ExecutorReplyView { ok: true, error: None, result: Some(result) };
    let told = read.push((EventView::Reply(reply), now));
    lemma_managed(call, session_id, workdir, "list_executor"@, known, 1);
    lemma_managed(call, session_id, workdir, "list_executor"@, read, 2);
    lemma_managed(call, session_id, workdir, "list_executor"@, told, 3);
    let s0 = manager_begin(scope, call.arguments);
    let s1 = manager_next(s0->Ask_0, scope, read[1].0);
    assert(read.skip(1)[0] == read[1]);
    assert(told.skip(1)[0] == read[1] && told.skip(1)[1] == told[2]);
    assert(manager_at(scope, call.arguments, known.skip(1), 0) == s0);
    assert(manager_at(scope, call.arguments, read.skip(1), 0) == s0);
    assert(manager_at(scope, call.arguments, read.skip(1), 1) == s1);
    assert(manager_at(scope, call.arguments, told.skip(1), 0) == s0);
    assert(manager_at(scope, call.arguments, told.skip(1), 1) == s1);
    assert(manager_at(scope, call.arguments, told.skip(1), 2) == manager_next(
        s1->Ask_0,
        scope,
        told[2].0,
    ));
    let items = config_of(config);
    let shown = executor_result(items, local_of(Some(result)));
    let listed = seq![local_of(Some(result))] + crate::workspace::info_values(items);
    assert(shown.field2("metadata"@, "executors"@) == Some(JsonView::Arr(listed)));
    assert forall|i: int| 0 <= i < items.len() implies (#[trigger] listed[i + 1]).field("id"@)
        == Some(JsonView::Str(items[i].id)) && listed[i + 1].field("url"@) == Some(
        JsonView::Str(items[i].url),
    ) by {
        assert(listed[i + 1] == info_value(items[i]));
    }
}

proof fn lemma_method_names()
    ensures
        "list_executor"@ != "connect_to_executor"@,
        "list_executor"@ != "list_shells"@,
        "list_executor"@ != "request_reload"@,
        "list_executor"@ != "set_executor_shell"@,
        "connect_to_executor"@ != "list_shells"@,
        "connect_to_executor"@ != "request_reload"@,
        "connect_to_executor"@ != "set_executor_shell"@,
        "list_shells"@ != "request_reload"@,
        "list_shells"@ != "set_executor_shell"@,
        "request_reload"@ != "set_executor_shell"@,
{
    reveal_strlit("list_executor");
    reveal_strlit("connect_to_executor");
    reveal_strlit("list_shells");
    reveal_strlit("request_reload");
    reveal_strlit("set_executor_shell");
    assert("list_executor"@.len() == 13);
    assert("connect_to_executor"@.len() == 19);
    assert("list_shells"@.len() == 11);
    assert("request_reload"@.len() == 14);
    assert("set_executor_shell"@.len() == 18);
}

proof fn lemma_shown_names()
    ensures
        "metadata"@ != "output"@,
        "metadata"@ != "default"@,
        "metadata"@ != "executors"@,
        "metadata"@ != "message"@,
        "metadata"@ != "text"@,
        "metadata"@ != "info"@,
        "metadata"@ != "result"@,
        "output"@ != "default"@,
        "output"@ != "executors"@,
        "output"@ != "message"@,
        "output"@ != "text"@,
        "output"@ != "info"@,
        "output"@ != "result"@,
        "default"@ != "executors"@,
        "default"@ != "message"@,
        "default"@ != "text"@,
        "default"@ != "info"@,
        "default"@ != "result"@,
        "executors"@ != "message"@,
        "executors"@ != "text"@,
        "executors"@ != "info"@,
        "executors"@ != "result"@,
        "message"@ != "text"@,
        "message"@ != "info"@,
        "message"@ != "result"@,
        "text"@ != "info"@,
        "text"@ != "result"@,
        "info"@ != "result"@,
{
    reveal_strlit("metadata");
    reveal_strlit("output");
    reveal_strlit("default");
    reveal_strlit("executors");
    reveal_strlit("message");
    reveal_strlit("text");
    reveal_strlit("info");
    reveal_strlit("result");
    assert("metadata"@.len() == 8);
    assert("output"@.len() == 6);
    assert("default"@.len() == 7);
    assert("executors"@.len() == 9);
    assert("message"@.len() == 7);
    assert("text"@.len() == 4);
    assert("info"@.len() == 4);
    assert("result"@.len() == 6);
    assert("output"@[0] == 'o' && "result"@[0] == 'r');
    assert("default"@[0] == 'd' && "message"@[0] == 'm');
    assert("text"@[0] == 't' && "info"@[0] == 'i');
}

/// The step that managing executors has come to after the first `k` events.
pub open spec fn manager_at(
    scope: CallScopeView,
    arguments: JsonView,
    events: Seq<(EventView, i64)>,
    k: int,
) -> crate::manager_tool::ManagerStepView
    decreases k,
{
    if k <= 0 {
        manager_begin(scope, arguments)
    } else {
        match manager_at(scope, arguments, events, k - 1) {
            StepView::Ask(stage, _) => manager_next(stage, scope, events[k - 1].0),
            StepView::Done(answer) => StepView::Done(answer),
        }
    }
}

proof fn lemma_managed(
    call: CallView,
    session_id: Seq<char>,
    workdir: Seq<char>,
    method: Seq<char>,
    events: Seq<(EventView, i64)>,
    k: int,
)
    requires
        manages(call, session_id, workdir, method),
        1 <= k <= events.len(),
        events[0].0 == EventView::Text(Ok(workdir)),
    ensures
        call_at(call, events, k) == as_manager(
            CallScopeView { session_id, workdir },
            manager_at(
                CallScopeView { session_id, workdir },
                call.arguments,
                events.skip(1),
                k - 1,
            ),
        ),
    decreases k,
{
    lemma_tool_names();
    if k == 1 {
        reveal_with_fuel(call_at, 2);
    } else {
        lemma_managed(call, session_id, workdir, method, events, k - 1);
        assert(events.skip(1)[k - 2] == events[k - 1]);
    }
}

/// An executor that is connected to is written into the configuration of the workspace, in the
/// place of the one with its id or behind the others, then connected, and then the executors
/// are listed. What does not describe an executor is refused and nothing is written.
pub proof fn law_executors_are_connected(
    call: CallView,
    session_id: Seq<char>,
    workdir: Seq<char>,
    config: JsonView,
    now: i64,
)
    requires
        manages(call, session_id, workdir, "connect_to_executor"@),
    ensures
        ({
            let known = seq![(EventView::Text(Ok(workdir)), now)];
            let read = known.push((EventView::Config(Ok(config)), now));
            let written = read.push((EventView::Done(Ok(())), now));
            let connected = written.push((EventView::Done(Ok(())), now));
            let id = text_in(call.arguments, "id"@);
            let url = text_in(call.arguments, "url"@);
            &&& action_at(call, known, 1) == Some(ActionView::ReadConfig { workdir })
            &&& id is None || id == Some("local"@) || url is None ==> (call_at(
                call,
                read,
                2,
            ) matches StepView::Done(Err(e)) && e.code == -32602)
            &&& id is Some && id != Some("local"@) && url is Some ==> {
                &&& action_at(call, written, 3) matches Some(ActionView::Connect { executor })
                    && executor.id == id->0 && (executor.url == url->0 || executor.url == "ws://"@
                    + url->0) && action_at(call, read, 2) == Some(
                    ActionView::WriteConfig {
                        workdir,
                        config: config_value(upserted(config_of(config), executor)),
                    },
                )
                &&& asks_local_executor(action_at(call, connected, 4))
            }
        }),
{
    lemma_tool_names();
    lemma_method_names();
    lemma_info_names();
    let scope = CallScopeView { session_id, workdir };
    let known = seq![(EventView::Text(Ok(workdir)), now)];
    let read = known.push((EventView::Config(Ok(config)), now));
    let written = read.push((EventView::Done(Ok(())), now));
    let connected = written.push((EventView::Done(Ok(())), now));
    let m = "connect_to_executor"@;
    lemma_managed(call, session_id, workdir, m, known, 1);
    lemma_managed(call, session_id, workdir, m, read, 2);
    lemma_managed(call, session_id, workdir, m, written, 3);
    lemma_managed(call, session_id, workdir, m, connected, 4);
    let a = connect_arguments(call.arguments);
    law_executors_are_read_from_arguments(a);
    assert(a.field("id"@) == call.arguments.field("id"@));
    assert(a.field("url"@) == call.arguments.field("url"@));
    let s0 = manager_begin(scope, call.arguments);
    let s1 = manager_next(s0->Ask_0, scope, read[1].0);
    let s2 = manager_next(s1->Ask_0, scope, written[2].0);
    let s3 = manager_next(s2->Ask_0, scope, connected[3].0);
    assert(read.skip(1)[0] == read[1]);
    assert(written.skip(1)[0] == read[1] && written.skip(1)[1] == written[2]);
    assert(connected.skip(1)[0] == read[1] && connected.skip(1)[1] == written[2]
        && connected.skip(1)[2] == connected[3]);
    assert(manager_at(scope, call.arguments, known.skip(1), 0) == s0);
    assert(manager_at(scope, call.arguments, read.skip(1), 0) == s0);
    assert(manager_at(scope, call.arguments, read.skip(1), 1) == s1);
    assert(manager_at(scope, call.arguments, written.skip(1), 0) == s0);
    assert(manager_at(scope, call.arguments, written.skip(1), 1) == s1);
    assert(manager_at(scope, call.arguments, connected.skip(1), 0) == s0);
    assert(manager_at(scope, call.arguments, connected.skip(1), 1) == s1);
    if s1 is Ask {
        assert(manager_at(scope, call.arguments, written.skip(1), 2) == s2);
        assert(manager_at(scope, call.arguments, connected.skip(1), 2) == s2);
        assert(manager_at(scope, call.arguments, connected.skip(1), 3) == s3);
    }
}

/// The other methods are tools of the executor: the shells are listed, the executor reloads, and
/// its shell is set, to `auto` where none is named. A method that does not exist is refused.
pub proof fn law_shells_are_managed(
    call: CallView,
    session_id: Seq<char>,
    workdir: Seq<char>,
    method: Seq<char>,
    now: i64,
)
    requires
        manages(call, session_id, workdir, method),
        method != "list_executor"@ && method != "connect_to_executor"@,
        goes_to_executor(call.arguments, "local"@),
    ensures
        ({
            let step = call_at(call, seq![(EventView::Text(Ok(workdir)), now)], 1);
            let tool = if method == "set_executor_shell"@ {
                "set_default_shell"@
            } else {
                method
            };
            if method == "list_shells"@ || method == "request_reload"@ || method
                == "set_executor_shell"@ {
                step matches StepView::Ask(_, action) && {
                    &&& action is Execute && action->Execute_method == tool
                    &&& action->Execute_executor == Some("local"@)
                    &&& forall|key: Seq<char>|
                        key != "method"@ && key != "shell"@ && !crate::traces::is_routing(key)
                            ==> #[trigger] action->Execute_params.field(key)
                            == call.arguments.field(key)
                    &&& action->Execute_params.field("shell"@) == if method
                        == "set_executor_shell"@ && text_in(call.arguments, "shell"@) is None {
                        Some(JsonView::Str("auto"@))
                    } else {
                        call.arguments.field("shell"@)
                    }
                    &&& action->Execute_params.field("method"@) is None
                }
            } else {
                step matches StepView::Done(Err(e)) && e.code == -32601
            }
        }),
{
    lemma_method_names();
    lemma_info_names();
    lemma_routing_names();
    let scope = CallScopeView { session_id, workdir };
    let events = seq![(EventView::Text(Ok(workdir)), now)];
    lemma_managed(call, session_id, workdir, method, events, 1);
    assert(manager_at(scope, call.arguments, events.skip(1), 0) == manager_begin(
        scope,
        call.arguments,
    ));
    if let Some((tool, a)) = crate::manager_tool::manager_tool(method, call.arguments) {
        assert forall|key: Seq<char>| key != "method"@ && key != "shell"@ implies #[trigger] a.field(
            key,
        ) == call.arguments.field(key) by {}
        assert(a.field("executor"@) == call.arguments.field("executor"@));
        assert(a.field("targetExecutor"@) == call.arguments.field("targetExecutor"@));
        law_local_executor_is_asked(scope, tool, a);
    }
}

/// The local executor is listed as it tells of itself: the first entry under its name, or its bare
/// name where it tells nothing.
pub proof fn law_local_executor_tells_of_itself(
    result: JsonView,
    told: Seq<JsonView>,
    i: int,
)
    requires
        result.field2("metadata"@, "executors"@) == Some(JsonView::Arr(told)),
        0 <= i < told.len(),
        told[i].field("id"@) == Some(JsonView::Str("local"@)),
        forall|j: int|
            0 <= j < i ==> (#[trigger] told[j]).field("id"@) != Some(JsonView::Str("local"@)),
    ensures
        local_of(Some(result)) == told[i],
        local_of(None).field("id"@) == Some(JsonView::Str("local"@)),
{
    lemma_first_told(told, i);
}

proof fn lemma_first_told(told: Seq<JsonView>, i: int)
    requires
        0 <= i < told.len(),
        told[i].field("id"@) == Some(JsonView::Str("local"@)),
        forall|j: int|
            0 <= j < i ==> (#[trigger] told[j]).field("id"@) != Some(JsonView::Str("local"@)),
    ensures
        first_local(told) == Some(told[i]),
    decreases i,
{
    if i > 0 {
        assert(told[0].field("id"@) != Some(JsonView::Str("local"@)));
        let rest = told.drop_first();
        assert forall|j: int| 0 <= j < i - 1 implies (#[trigger] rest[j]).field("id"@) != Some(
            JsonView::Str("local"@),
        ) by {
            assert(rest[j] == told[j + 1]);
        }
        assert(rest[i - 1] == told[i]);
        lemma_first_told(rest, i - 1);
    }
}

/// The text of a list of executors has a line for the local executor and one for each executor of the
/// workspace, and names the local one as the default.
pub proof fn law_listed_executors_are_shown(
    executors: Seq<WorkspaceExecutorInfoView>,
    local: JsonView,
    i: int,
)
    requires
        0 <= i < executors.len(),
    ensures
        ({
            let text = output_text(executor_result(executors, local));
            &&& has_prefix(text, "default executor: local"@)
            &&& has_text(text, executor_line(local, "local"@))
            &&& has_text(text, executor_line(info_value(executors[i]), "local"@))
        }),
{
    let metadata = executor_metadata(executors, local);
    let shown = JsonView::Obj(map!["metadata"@ => metadata]);
    let all = seq![local] + crate::workspace::info_values(executors);
    lemma_shown_names();
    lemma_list_names();
    reveal_strlit("local");
    reveal_strlit("default executor: ");
    reveal_strlit("default executor: local");
    reveal_strlit("");
    assert("default executor: "@ + "local"@ =~= "default executor: local"@);
    assert("local"@.len() == 5);
    assert(all[0] == local && all[i + 1] == info_value(executors[i]));
    assert(shown.field2("metadata"@, "executors"@) == Some(JsonView::Arr(all)));
    assert(shown.field2("metadata"@, "default"@) == Some(JsonView::Str("local"@)));
    law_every_executor_has_its_line(shown, all, "local"@, 0);
    law_every_executor_has_its_line(shown, all, "local"@, i + 1);
    let text = executor_list_text(shown)->0;
    let p = "default executor: local"@;
    assert(text.len() > 0);
    let result = executor_result(executors, local);
    let output = result.field("output"@)->0;
    assert(output.field("text"@) == Some(JsonView::Str(text)));
    assert(output.field("message"@) == Some(JsonView::Str(""@)));
    assert(output.field("info"@) == Some(JsonView::Str(""@)));
    law_parts_are_stacked(text, text, text);
    assert(""@ =~= Seq::<char>::empty());
}

proof fn lemma_list_names()
    ensures
        "metadata"@ != "output"@,
        "metadata"@ != "default"@,
        "metadata"@ != "executors"@,
        "metadata"@ != "message"@,
        "metadata"@ != "text"@,
        "metadata"@ != "info"@,
        "output"@ != "default"@,
        "output"@ != "executors"@,
        "output"@ != "message"@,
        "output"@ != "text"@,
        "output"@ != "info"@,
        "default"@ != "executors"@,
        "default"@ != "message"@,
        "default"@ != "text"@,
        "default"@ != "info"@,
        "executors"@ != "message"@,
        "executors"@ != "text"@,
        "executors"@ != "info"@,
        "message"@ != "text"@,
        "message"@ != "info"@,
        "text"@ != "info"@,
{
    reveal_strlit("metadata");
    reveal_strlit("output");
    reveal_strlit("default");
    reveal_strlit("executors");
    reveal_strlit("message");
    reveal_strlit("text");
    reveal_strlit("info");
    assert("metadata"@.len() == 8);
    assert("output"@.len() == 6);
    assert("default"@.len() == 7);
    assert("executors"@.len() == 9);
    assert("message"@.len() == 7);
    assert("text"@.len() == 4);
    assert("info"@.len() == 4);
    assert("default"@[0] == 'd' && "message"@[0] == 'm');
    assert("text"@[0] == 't' && "info"@[0] == 'i');
}

} // verus!
