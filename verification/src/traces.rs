//! A tool call as the sequence of its steps, and what reaches an executor.

use vstd::prelude::*;

use crate::args::executor_params;
use crate::args::routed_executor;
use crate::args::CallScopeView;
use crate::calls::exec_begin;
use crate::calls::exec_next;
use crate::calls::execute_action;
use crate::calls::reply_outcome;
use crate::calls::ActionView;
use crate::calls::EventView;
use crate::calls::ExecCallView;
use crate::calls::ExecutorReplyView;
use crate::calls::StepView;
use crate::json::JsonView;
use crate::mcp::McpCallContextView;
use crate::tool_call::tool_begin;
use crate::tool_call::tool_next;
use crate::tool_call::ToolStepView;
use crate::workspace::config_of;
use crate::workspace::found;
use crate::workspace::WorkspaceExecutorInfoView;

verus! {

/// A call of a tool: its name, its arguments, and the context that goes with them.
pub ghost struct CallView {
    pub name: Seq<char>,
    pub arguments: JsonView,
    pub context: McpCallContextView,
}

/// The step that a call has come to after the first `k` of some events, each with its time.
pub open spec fn call_at(call: CallView, events: Seq<(EventView, i64)>, k: int) -> ToolStepView
    decreases k,
{
    if k <= 0 {
        tool_begin(call.name, call.arguments, call.context)
    } else {
        match call_at(call, events, k - 1) {
            StepView::Ask(stage, _) => tool_next(stage, events[k - 1].0, events[k - 1].1),
            StepView::Done(answer) => StepView::Done(answer),
        }
    }
}

/// What is asked of the host or of an executor after `k` events.
pub open spec fn action_at(call: CallView, events: Seq<(EventView, i64)>, k: int) -> Option<
    ActionView,
> {
    match call_at(call, events, k) {
        StepView::Ask(_, action) => Some(action),
        StepView::Done(_) => None,
    }
}

/// The member is one that says where a call goes and for whom, not what it does.
pub open spec fn is_routing(key: Seq<char>) -> bool {
    key == "ExecutorSessionID"@ || key == "executor"@ || key == "targetExecutor"@
}

/// The executor that arguments name: the text in `executor`, else that in `targetExecutor`;
/// the local one where there is none or it is empty.
pub open spec fn goes_to_executor(arguments: JsonView, executor: Seq<char>) -> bool {
    match arguments.field("executor"@) {
        Some(JsonView::Str(e)) => executor == if e.len() > 0 {
            e
        } else {
            "local"@
        },
        Some(_) => executor == "local"@,
        None => match arguments.field("targetExecutor"@) {
            Some(JsonView::Str(e)) => executor == if e.len() > 0 {
                e
            } else {
                "local"@
            },
            _ => executor == "local"@,
        },
    }
}

/// A request to an executor: the executor that the arguments name is asked for the tool,
/// with the arguments but for the members that say where the call goes; the local executor
/// works in the workspace.
pub open spec fn requests(
    action: ActionView,
    tool: Seq<char>,
    arguments: JsonView,
    workdir: Seq<char>,
) -> bool {
    action matches ActionView::Execute { id, method, executor, params, directory } && {
        &&& method == tool
        &&& executor is Some
        &&& goes_to_executor(arguments, executor->0)
        &&& params is Obj <==> arguments is Obj
        &&& forall|key: Seq<char>|
            !is_routing(key) ==> #[trigger] params.field(key) == arguments.field(key)
        &&& params.field("ExecutorSessionID"@) is None
        &&& params.field("executor"@) is None
        &&& directory == if executor->0 == "local"@ {
            Some(workdir)
        } else {
            None::<Seq<char>>
        }
    }
}

/// A request to an executor that stands at one of its steps: its executor is looked up or
/// connected, or the tool runs.
pub open spec fn is_exec_of(
    call: ExecCallView,
    action: ActionView,
    scope: CallScopeView,
    name: Seq<char>,
    arguments: JsonView,
) -> bool {
    let e = routed_executor(arguments);
    let p = executor_params(arguments);
    match call {
        ExecCallView::ReadConfig { name: n, executor, params } => n == name && executor == e
            && params == p && action is ReadConfig && e != "local"@,
        ExecCallView::Connect { name: n, executor, params } => n == name && executor == e && params
            == p && action is Connect && e != "local"@,
        ExecCallView::Run { executor } => executor == e && action == execute_action(
            name,
            e,
            p,
            scope.workdir,
        ),
    }
}

pub proof fn lemma_exec_begins(scope: CallScopeView, name: Seq<char>, arguments: JsonView)
    ensures
        is_exec_of(
            exec_begin(scope, name, arguments).0,
            exec_begin(scope, name, arguments).1,
            scope,
            name,
            arguments,
        ),
{
}

pub proof fn lemma_exec_goes_on(
    call: ExecCallView,
    action: ActionView,
    scope: CallScopeView,
    name: Seq<char>,
    arguments: JsonView,
    event: EventView,
)
    requires
        is_exec_of(call, action, scope, name, arguments),
    ensures
        exec_next(call, scope, event) matches StepView::Ask(c, a) ==> is_exec_of(
            c,
            a,
            scope,
            name,
            arguments,
        ),
        exec_next(call, scope, event) matches StepView::Done(Ok(_)) ==> action is Execute
            && event is Reply,
        action is Execute ==> exec_next(call, scope, event) is Done,
{
}

pub proof fn lemma_exec_requests(
    call: ExecCallView,
    action: ActionView,
    scope: CallScopeView,
    name: Seq<char>,
    arguments: JsonView,
)
    requires
        is_exec_of(call, action, scope, name, arguments),
        action is Execute,
    ensures
        requests(action, name, arguments, scope.workdir),
{
    lemma_routing_names();
}

/// The names of the members that say where a call goes are different.
pub proof fn lemma_routing_names()
    ensures
        "ExecutorSessionID"@ != "executor"@,
        "ExecutorSessionID"@ != "targetExecutor"@,
        "executor"@ != "targetExecutor"@,
{
    reveal_strlit("ExecutorSessionID");
    reveal_strlit("executor");
    reveal_strlit("targetExecutor");
    assert("ExecutorSessionID"@.len() == 17);
    assert("executor"@.len() == 8);
    assert("targetExecutor"@.len() == 14);
}

/// Any executor but the local one is looked up in the workspace, connected, and only then asked;
/// one that the workspace does not know is not asked.
pub proof fn law_other_executors_are_connected(
    scope: CallScopeView,
    name: Seq<char>,
    arguments: JsonView,
    executor: Seq<char>,
    config: JsonView,
    item: WorkspaceExecutorInfoView,
)
    requires
        goes_to_executor(arguments, executor),
        executor != "local"@,
    ensures
        ({
            let (begun, first) = exec_begin(scope, name, arguments);
            let known = exec_next(begun, scope, EventView::Config(Ok(config)));
            &&& first == (ActionView::ReadConfig { workdir: scope.workdir })
            &&& found(config_of(config), executor) == Some(item) ==> {
                &&& known matches StepView::Ask(_, action) && action == (ActionView::Connect {
                    executor: item,
                })
                &&& exec_next(known->Ask_0, scope, EventView::Done(Ok(()))) matches StepView::Ask(
                    _,
                    action,
                ) && requests(action, name, arguments, scope.workdir)
            }
            &&& found(config_of(config), executor) is None ==> (known matches StepView::Done(Err(e))
                && e.code == -32603 && e.message == "executor not found in workspace config: "@
                + executor)
        }),
{
    lemma_routing_names();
    let (begun, first) = exec_begin(scope, name, arguments);
    lemma_exec_begins(scope, name, arguments);
    let event = EventView::Config(Ok(config));
    lemma_exec_goes_on(begun, first, scope, name, arguments, event);
    if found(config_of(config), executor) == Some(item) {
        let known = exec_next(begun, scope, event);
        let done = EventView::Done(Ok(()));
        lemma_exec_goes_on(known->Ask_0, known->Ask_1, scope, name, arguments, done);
        let last = exec_next(known->Ask_0, scope, done);
        lemma_exec_requests(last->Ask_0, last->Ask_1, scope, name, arguments);
    }
}

/// The local executor is asked right away.
pub proof fn law_local_executor_is_asked(scope: CallScopeView, name: Seq<char>, arguments: JsonView)
    requires
        goes_to_executor(arguments, "local"@),
    ensures
        requests(exec_begin(scope, name, arguments).1, name, arguments, scope.workdir),
{
    lemma_routing_names();
    let (begun, first) = exec_begin(scope, name, arguments);
    lemma_exec_begins(scope, name, arguments);
    lemma_exec_requests(begun, first, scope, name, arguments);
}

/// The reply of an executor is its result, with a note of which executor it comes from where
/// the result does not say; a failure is its message.
pub proof fn law_replies_are_handed_on(reply: ExecutorReplyView, executor: Seq<char>)
    ensures
        !reply.ok ==> (reply_outcome(reply, executor) matches Err(e) && e.code == -32603 && e.message
            == match reply.error {
            Some(m) => m,
            None => "unknown error"@,
        }),
        reply.ok ==> (reply_outcome(reply, executor) matches Ok(v) && (reply.result matches Some(
            result,
        ) ==> {
            &&& !(result is Obj) ==> v == result
            &&& forall|key: Seq<char>|
                key != "metadata"@ ==> #[trigger] v.field(key) == result.field(key)
            &&& forall|key: Seq<char>|
                key != "executor"@ ==> #[trigger] v.field2("metadata"@, key) == result.field2(
                    "metadata"@,
                    key,
                )
            &&& result is Obj && (result.field("metadata"@) is None || result.field("metadata"@)->0
                is Obj) ==> v.field2("metadata"@, "executor"@) == match result.field2(
                "metadata"@,
                "executor"@,
            ) {
                Some(e) => Some(e),
                None => Some(JsonView::Str(executor)),
            }
        })),
{
}

} // verus!
