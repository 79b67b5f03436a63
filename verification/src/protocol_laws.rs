//! What clients of the server can rely on: how messages are answered, how the calls of tools are
//! taken apart, and how tools and results are written.

use vstd::prelude::*;

use crate::json::JsonView;
use crate::jsonrpc::bad_params;
use crate::jsonrpc::failure;
use crate::jsonrpc::no_such_method;
use crate::jsonrpc::reply;
use crate::jsonrpc::JsonRpcErrorView;
use crate::local_event::control_event;
use crate::local_event::press_event;
use crate::local_event::ControlMessageView;
use crate::local_event::LocalEventView;
use crate::mcp::method_step;
use crate::mcp::result_value;
use crate::mcp::shown;
use crate::mcp::text_answer;
use crate::mcp::tool_list;
use crate::mcp::McpCallResultView;
use crate::mcp::McpStepView;
use crate::mcp::McpToolDefView;
use crate::server::batch_answer;
use crate::server::given;
use crate::server::refusal;
use crate::server::route_of;
use crate::term_input::KeyCode;
use crate::term_input::KeyEvent;
use crate::term_task::ExbashTaskView;
use crate::text::lowered;
use crate::tooldefs::all_required;
use crate::tooldefs::exbash_props;
use crate::tooldefs::file_action_props;
use crate::tooldefs::offered_tools;
use crate::tooldefs::others;
use crate::tooldefs::own_props;
use crate::tooldefs::read_props;
use crate::tooldefs::remote_executor_manager_props;
use crate::tooldefs::rg_props;
use crate::tooldefs::tool_of;
use crate::tooldefs::PropView;

verus! {

proof fn lemma_message_names()
    ensures
        "initialize"@ != "ping"@,
        "initialize"@ != "tools/list"@,
        "initialize"@ != "tools/call"@,
        "initialize"@ != ""@,
        "ping"@ != "tools/list"@,
        "ping"@ != "tools/call"@,
        "ping"@ != ""@,
        "tools/list"@ != "tools/call"@,
        "tools/list"@ != ""@,
        "tools/call"@ != ""@,
{
    reveal_strlit("initialize");
    reveal_strlit("ping");
    reveal_strlit("tools/list");
    reveal_strlit("tools/call");
    reveal_strlit("");
    assert("initialize"@.len() == 10);
    assert("ping"@.len() == 4);
    assert("tools/list"@.len() == 10);
    assert("tools/call"@.len() == 10);
    assert(""@.len() == 0);
    assert("initialize"@[0] == 'i' && "tools/list"@[0] == 't');
    assert("initialize"@[0] == 'i' && "tools/call"@[0] == 't');
    assert("tools/list"@[6] == 'l' && "tools/call"@[6] == 'c');
}

proof fn lemma_member_names()
    ensures
        "jsonrpc"@ != "id"@,
        "jsonrpc"@ != "result"@,
        "jsonrpc"@ != "error"@,
        "jsonrpc"@ != "code"@,
        "jsonrpc"@ != "message"@,
        "jsonrpc"@ != "data"@,
        "jsonrpc"@ != "ExecutorSessionID"@,
        "jsonrpc"@ != "includeStructuredContent"@,
        "jsonrpc"@ != "name"@,
        "jsonrpc"@ != "description"@,
        "jsonrpc"@ != "inputSchema"@,
        "jsonrpc"@ != "type"@,
        "jsonrpc"@ != "text"@,
        "jsonrpc"@ != "content"@,
        "jsonrpc"@ != "structuredContent"@,
        "jsonrpc"@ != "protocolVersion"@,
        "jsonrpc"@ != "capabilities"@,
        "jsonrpc"@ != "serverInfo"@,
        "jsonrpc"@ != "instructions"@,
        "jsonrpc"@ != "version"@,
        "jsonrpc"@ != "required"@,
        "jsonrpc"@ != "properties"@,
        "jsonrpc"@ != "tools"@,
        "id"@ != "result"@,
        "id"@ != "error"@,
        "id"@ != "code"@,
        "id"@ != "message"@,
        "id"@ != "data"@,
        "id"@ != "ExecutorSessionID"@,
        "id"@ != "includeStructuredContent"@,
        "id"@ != "name"@,
        "id"@ != "description"@,
        "id"@ != "inputSchema"@,
        "id"@ != "type"@,
        "id"@ != "text"@,
        "id"@ != "content"@,
        "id"@ != "structuredContent"@,
        "id"@ != "protocolVersion"@,
        "id"@ != "capabilities"@,
        "id"@ != "serverInfo"@,
        "id"@ != "instructions"@,
        "id"@ != "version"@,
        "id"@ != "required"@,
        "id"@ != "properties"@,
        "id"@ != "tools"@,
        "result"@ != "error"@,
        "result"@ != "code"@,
        "result"@ != "message"@,
        "result"@ != "data"@,
        "result"@ != "ExecutorSessionID"@,
        "result"@ != "includeStructuredContent"@,
        "result"@ != "name"@,
        "result"@ != "description"@,
        "result"@ != "inputSchema"@,
        "result"@ != "type"@,
        "result"@ != "text"@,
        "result"@ != "content"@,
        "result"@ != "structuredContent"@,
        "result"@ != "protocolVersion"@,
        "result"@ != "capabilities"@,
        "result"@ != "serverInfo"@,
        "result"@ != "instructions"@,
        "result"@ != "version"@,
        "result"@ != "required"@,
        "result"@ != "properties"@,
        "result"@ != "tools"@,
        "error"@ != "code"@,
        "error"@ != "message"@,
        "error"@ != "data"@,
        "error"@ != "ExecutorSessionID"@,
        "error"@ != "includeStructuredContent"@,
        "error"@ != "name"@,
        "error"@ != "description"@,
        "error"@ != "inputSchema"@,
        "error"@ != "type"@,
        "error"@ != "text"@,
        "error"@ != "content"@,
        "error"@ != "structuredContent"@,
        "error"@ != "protocolVersion"@,
        "error"@ != "capabilities"@,
        "error"@ != "serverInfo"@,
        "error"@ != "instructions"@,
        "error"@ != "version"@,
        "error"@ != "required"@,
        "error"@ != "properties"@,
        "error"@ != "tools"@,
        "code"@ != "message"@,
        "code"@ != "data"@,
        "code"@ != "ExecutorSessionID"@,
        "code"@ != "includeStructuredContent"@,
        "code"@ != "name"@,
        "code"@ != "description"@,
        "code"@ != "inputSchema"@,
        "code"@ != "type"@,
        "code"@ != "text"@,
        "code"@ != "content"@,
        "code"@ != "structuredContent"@,
        "code"@ != "protocolVersion"@,
        "code"@ != "capabilities"@,
        "code"@ != "serverInfo"@,
        "code"@ != "instructions"@,
        "code"@ != "version"@,
        "code"@ != "required"@,
        "code"@ != "properties"@,
        "code"@ != "tools"@,
        "message"@ != "data"@,
        "message"@ != "ExecutorSessionID"@,
        "message"@ != "includeStructuredContent"@,
        "message"@ != "name"@,
        "message"@ != "description"@,
        "message"@ != "inputSchema"@,
        "message"@ != "type"@,
        "message"@ != "text"@,
        "message"@ != "content"@,
        "message"@ != "structuredContent"@,
        "message"@ != "protocolVersion"@,
        "message"@ != "capabilities"@,
        "message"@ != "serverInfo"@,
        "message"@ != "instructions"@,
        "message"@ != "version"@,
        "message"@ != "required"@,
        "message"@ != "properties"@,
        "message"@ != "tools"@,
        "data"@ != "ExecutorSessionID"@,
        "data"@ != "includeStructuredContent"@,
        "data"@ != "name"@,
        "data"@ != "description"@,
        "data"@ != "inputSchema"@,
        "data"@ != "type"@,
        "data"@ != "text"@,
        "data"@ != "content"@,
        "data"@ != "structuredContent"@,
        "data"@ != "protocolVersion"@,
        "data"@ != "capabilities"@,
        "data"@ != "serverInfo"@,
        "data"@ != "instructions"@,
        "data"@ != "version"@,
        "data"@ != "required"@,
        "data"@ != "properties"@,
        "data"@ != "tools"@,
        "ExecutorSessionID"@ != "includeStructuredContent"@,
        "ExecutorSessionID"@ != "name"@,
        "ExecutorSessionID"@ != "description"@,
        "ExecutorSessionID"@ != "inputSchema"@,
        "ExecutorSessionID"@ != "type"@,
        "ExecutorSessionID"@ != "text"@,
        "ExecutorSessionID"@ != "content"@,
        "ExecutorSessionID"@ != "structuredContent"@,
        "ExecutorSessionID"@ != "protocolVersion"@,
        "ExecutorSessionID"@ != "capabilities"@,
        "ExecutorSessionID"@ != "serverInfo"@,
        "ExecutorSessionID"@ != "instructions"@,
        "ExecutorSessionID"@ != "version"@,
        "ExecutorSessionID"@ != "required"@,
        "ExecutorSessionID"@ != "properties"@,
        "ExecutorSessionID"@ != "tools"@,
        "includeStructuredContent"@ != "name"@,
        "includeStructuredContent"@ != "description"@,
        "includeStructuredContent"@ != "inputSchema"@,
        "includeStructuredContent"@ != "type"@,
        "includeStructuredContent"@ != "text"@,
        "includeStructuredContent"@ != "content"@,
        "includeStructuredContent"@ != "structuredContent"@,
        "includeStructuredContent"@ != "protocolVersion"@,
        "includeStructuredContent"@ != "capabilities"@,
        "includeStructuredContent"@ != "serverInfo"@,
        "includeStructuredContent"@ != "instructions"@,
        "includeStructuredContent"@ != "version"@,
        "includeStructuredContent"@ != "required"@,
        "includeStructuredContent"@ != "properties"@,
        "includeStructuredContent"@ != "tools"@,
        "name"@ != "description"@,
        "name"@ != "inputSchema"@,
        "name"@ != "type"@,
        "name"@ != "text"@,
        "name"@ != "content"@,
        "name"@ != "structuredContent"@,
        "name"@ != "protocolVersion"@,
        "name"@ != "capabilities"@,
        "name"@ != "serverInfo"@,
        "name"@ != "instructions"@,
        "name"@ != "version"@,
        "name"@ != "required"@,
        "name"@ != "properties"@,
        "name"@ != "tools"@,
        "description"@ != "inputSchema"@,
        "description"@ != "type"@,
        "description"@ != "text"@,
        "description"@ != "content"@,
        "description"@ != "structuredContent"@,
        "description"@ != "protocolVersion"@,
        "description"@ != "capabilities"@,
        "description"@ != "serverInfo"@,
        "description"@ != "instructions"@,
        "description"@ != "version"@,
        "description"@ != "required"@,
        "description"@ != "properties"@,
        "description"@ != "tools"@,
        "inputSchema"@ != "type"@,
        "inputSchema"@ != "text"@,
        "inputSchema"@ != "content"@,
        "inputSchema"@ != "structuredContent"@,
        "inputSchema"@ != "protocolVersion"@,
        "inputSchema"@ != "capabilities"@,
        "inputSchema"@ != "serverInfo"@,
        "inputSchema"@ != "instructions"@,
        "inputSchema"@ != "version"@,
        "inputSchema"@ != "required"@,
        "inputSchema"@ != "properties"@,
        "inputSchema"@ != "tools"@,
        "type"@ != "text"@,
        "type"@ != "content"@,
        "type"@ != "structuredContent"@,
        "type"@ != "protocolVersion"@,
        "type"@ != "capabilities"@,
        "type"@ != "serverInfo"@,
        "type"@ != "instructions"@,
        "type"@ != "version"@,
        "type"@ != "required"@,
        "type"@ != "properties"@,
        "type"@ != "tools"@,
        "text"@ != "content"@,
        "text"@ != "structuredContent"@,
        "text"@ != "protocolVersion"@,
        "text"@ != "capabilities"@,
        "text"@ != "serverInfo"@,
        "text"@ != "instructions"@,
        "text"@ != "version"@,
        "text"@ != "required"@,
        "text"@ != "properties"@,
        "text"@ != "tools"@,
        "content"@ != "structuredContent"@,
        "content"@ != "protocolVersion"@,
        "content"@ != "capabilities"@,
        "content"@ != "serverInfo"@,
        "content"@ != "instructions"@,
        "content"@ != "version"@,
        "content"@ != "required"@,
        "content"@ != "properties"@,
        "content"@ != "tools"@,
        "structuredContent"@ != "protocolVersion"@,
        "structuredContent"@ != "capabilities"@,
        "structuredContent"@ != "serverInfo"@,
        "structuredContent"@ != "instructions"@,
        "structuredContent"@ != "version"@,
        "structuredContent"@ != "required"@,
        "structuredContent"@ != "properties"@,
        "structuredContent"@ != "tools"@,
        "protocolVersion"@ != "capabilities"@,
        "protocolVersion"@ != "serverInfo"@,
        "protocolVersion"@ != "instructions"@,
        "protocolVersion"@ != "version"@,
        "protocolVersion"@ != "required"@,
        "protocolVersion"@ != "properties"@,
        "protocolVersion"@ != "tools"@,
        "capabilities"@ != "serverInfo"@,
        "capabilities"@ != "instructions"@,
        "capabilities"@ != "version"@,
        "capabilities"@ != "required"@,
        "capabilities"@ != "properties"@,
        "capabilities"@ != "tools"@,
        "serverInfo"@ != "instructions"@,
        "serverInfo"@ != "version"@,
        "serverInfo"@ != "required"@,
        "serverInfo"@ != "properties"@,
        "serverInfo"@ != "tools"@,
        "instructions"@ != "version"@,
        "instructions"@ != "required"@,
        "instructions"@ != "properties"@,
        "instructions"@ != "tools"@,
        "version"@ != "required"@,
        "version"@ != "properties"@,
        "version"@ != "tools"@,
        "required"@ != "properties"@,
        "required"@ != "tools"@,
        "properties"@ != "tools"@,
{
    reveal_strlit("jsonrpc");
    reveal_strlit("id");
    reveal_strlit("result");
    reveal_strlit("error");
    reveal_strlit("code");
    reveal_strlit("message");
    reveal_strlit("data");
    reveal_strlit("ExecutorSessionID");
    reveal_strlit("includeStructuredContent");
    reveal_strlit("name");
    reveal_strlit("description");
    reveal_strlit("inputSchema");
    reveal_strlit("type");
    reveal_strlit("text");
    reveal_strlit("content");
    reveal_strlit("structuredContent");
    reveal_strlit("protocolVersion");
    reveal_strlit("capabilities");
    reveal_strlit("serverInfo");
    reveal_strlit("instructions");
    reveal_strlit("version");
    reveal_strlit("required");
    reveal_strlit("properties");
    reveal_strlit("tools");
    assert("jsonrpc"@.len() == 7);
    assert("id"@.len() == 2);
    assert("result"@.len() == 6);
    assert("error"@.len() == 5);
    assert("code"@.len() == 4);
    assert("message"@.len() == 7);
    assert("data"@.len() == 4);
    assert("ExecutorSessionID"@.len() == 17);
    assert("includeStructuredContent"@.len() == 24);
    assert("name"@.len() == 4);
    assert("description"@.len() == 11);
    assert("inputSchema"@.len() == 11);
    assert("type"@.len() == 4);
    assert("text"@.len() == 4);
    assert("content"@.len() == 7);
    assert("structuredContent"@.len() == 17);
    assert("protocolVersion"@.len() == 15);
    assert("capabilities"@.len() == 12);
    assert("serverInfo"@.len() == 10);
    assert("instructions"@.len() == 12);
    assert("version"@.len() == 7);
    assert("required"@.len() == 8);
    assert("properties"@.len() == 10);
    assert("tools"@.len() == 5);
    assert("jsonrpc"@[0] == 'j' && "message"@[0] == 'm');
    assert("jsonrpc"@[0] == 'j' && "content"@[0] == 'c');
    assert("jsonrpc"@[0] == 'j' && "version"@[0] == 'v');
    assert("error"@[0] == 'e' && "tools"@[0] == 't');
    assert("code"@[0] == 'c' && "data"@[0] == 'd');
    assert("code"@[0] == 'c' && "name"@[0] == 'n');
    assert("code"@[0] == 'c' && "type"@[0] == 't');
    assert("code"@[0] == 'c' && "text"@[0] == 't');
    assert("message"@[0] == 'm' && "content"@[0] == 'c');
    assert("message"@[0] == 'm' && "version"@[0] == 'v');
    assert("data"@[0] == 'd' && "name"@[0] == 'n');
    assert("data"@[0] == 'd' && "type"@[0] == 't');
    assert("data"@[0] == 'd' && "text"@[0] == 't');
    assert("ExecutorSessionID"@[0] == 'E' && "structuredContent"@[0] == 's');
    assert("name"@[0] == 'n' && "type"@[0] == 't');
    assert("name"@[0] == 'n' && "text"@[0] == 't');
    assert("description"@[0] == 'd' && "inputSchema"@[0] == 'i');
    assert("type"@[1] == 'y' && "text"@[1] == 'e');
    assert("content"@[0] == 'c' && "version"@[0] == 'v');
    assert("capabilities"@[0] == 'c' && "instructions"@[0] == 'i');
    assert("serverInfo"@[0] == 's' && "properties"@[0] == 'p');
}

// ---------------------------------------------------------------------------
// Messages
// ---------------------------------------------------------------------------

/// A message without an id is a notification and gets no answer. Of the others those about tools
/// are handed on; the rest is answered at once: a first message with what the server is, a
/// ping with an empty object, and any other method with an error that names it.
pub proof fn law_messages_are_answered(input: JsonView, name: Seq<char>, version: Seq<char>)
    ensures
        ({
            let route = route_of(input, name, version);
            let method = match input.field("method"@) {
                Some(JsonView::Str(m)) => m,
                _ => ""@,
            };
            let id = input.field("id"@);
            &&& id is None ==> route is Ignore
            &&& id is Some ==> (route is Forward <==> method == "tools/list"@ || method
                == "tools/call"@)
            &&& id is Some && !(route is Forward) ==> route is Reply && route->Reply_0.field("id"@)
                == id
            &&& id is Some && method == "initialize"@ ==> {
                let r = route->Reply_0;
                &&& r.field2("result"@, "protocolVersion"@) == match input.field2(
                    "params"@,
                    "protocolVersion"@,
                ) {
                    Some(JsonView::Str(v)) => Some(JsonView::Str(v)),
                    _ => Some(JsonView::Str("2025-06-18"@)),
                }
                &&& r.field3("result"@, "serverInfo"@, "name"@) == Some(JsonView::Str(name))
                &&& r.field3("result"@, "serverInfo"@, "version"@) == Some(JsonView::Str(version))
                &&& r.field3("result"@, "capabilities"@, "tools"@) is Some
                &&& r.field("error"@) is None
            }
            &&& id is Some && method == "ping"@ ==> route->Reply_0.field("result"@) == Some(
                JsonView::Obj(Map::empty()),
            )
            &&& id is Some && method != "initialize"@ && method != "ping"@ && !(route is Forward)
                ==> {
                let r = route->Reply_0;
                &&& r.field2("error"@, "code"@) == Some(JsonView::Int(-32601))
                &&& r.field2("error"@, "message"@) == Some(
                    JsonView::Str("method not found: "@ + method),
                )
                &&& r.field("result"@) is None
            }
        }),
{
    lemma_message_names();
    lemma_member_names();
    reveal_strlit("");
    assert(""@ =~= Seq::<char>::empty());
}

/// A failed request is answered with the code and the message of its failure, and with its data
/// where there is some.
pub proof fn law_failures_are_told(id: JsonView, e: JsonRpcErrorView, message: Seq<char>)
    ensures
        reply(id, Err(e)).field2("error"@, "code"@) == Some(JsonView::Int(e.code)),
        reply(id, Err(e)).field2("error"@, "message"@) == Some(JsonView::Str(e.message)),
        reply(id, Err(e)).field2("error"@, "data"@) == e.data,
        bad_params(message).code == -32602 && bad_params(message).message == message,
        failure(message).code == -32603 && failure(message).message == message,
        no_such_method(message).code == -32601 && no_such_method(message).message
            == "method not found: "@ + message,
        refusal(e.code, message).field("id"@) == Some(JsonView::Null),
        refusal(e.code, message).field2("error"@, "code"@) == Some(JsonView::Int(e.code)),
        refusal(e.code, message).field2("error"@, "message"@) == Some(JsonView::Str(message)),
{
    lemma_member_names();
}

/// The answers to a batch are those to its messages, in their order, without the messages that
/// get none; a batch without any answer gets none itself.
pub proof fn law_batches_are_answered_in_order(
    first: Seq<Option<JsonView>>,
    second: Seq<Option<JsonView>>,
    answer: JsonView,
)
    ensures
        given(first + second) == given(first) + given(second),
        given(seq![Some(answer)]) == seq![answer],
        given(seq![None]) == Seq::<JsonView>::empty(),
        batch_answer(first) is None <==> forall|i: int|
            0 <= i < first.len() ==> #[trigger] first[i] is None,
        batch_answer(first) matches Some(v) ==> v == JsonView::Arr(given(first)),
    decreases second.len(),
{
    reveal_with_fuel(given, 2);
    assert(seq![Some(answer)].drop_last() =~= Seq::empty());
    assert(seq![None::<JsonView>].drop_last() =~= Seq::empty());
    assert(given(seq![Some(answer)]) =~= seq![answer]);
    if second.len() == 0 {
        assert(first + second =~= first);
        assert(given(first) + given(second) =~= given(first));
    } else {
        law_batches_are_answered_in_order(first, second.drop_last(), answer);
        assert((first + second).drop_last() =~= first + second.drop_last());
        assert(given(first + second) =~= given(first) + given(second));
    }
    lemma_none_given(first);
}

proof fn lemma_none_given(answers: Seq<Option<JsonView>>)
    ensures
        given(answers).len() == 0 <==> forall|i: int|
            0 <= i < answers.len() ==> #[trigger] answers[i] is None,
    decreases answers.len(),
{
    if answers.len() > 0 {
        let fewer = answers.drop_last();
        lemma_none_given(fewer);
        if given(answers).len() == 0 {
            assert forall|i: int| 0 <= i < answers.len() implies #[trigger] answers[i] is None by {
                if i < fewer.len() {
                    assert(fewer[i] is None);
                }
            }
        } else {
            if given(fewer).len() == 0 {
                assert(answers[answers.len() - 1] is Some);
            } else {
                let i = choose|i: int| 0 <= i < fewer.len() && #[trigger] fewer[i] is Some;
                assert(answers[i] is Some);
            }
        }
    }
}

// ---------------------------------------------------------------------------
// Calls of tools
// ---------------------------------------------------------------------------

/// A call of a tool reaches the tool that it names with the arguments that it has, all of them
/// but for the session and the wish for structured content, which make up its context.
pub proof fn law_tool_calls_are_taken_apart(params: JsonView, name: Seq<char>, key: Seq<char>)
    requires
        params.field("name"@) == Some(JsonView::Str(name)),
    ensures
        ({
            let step = method_step("tools/call"@, params);
            &&& step is CallTool
            &&& step->CallTool_name == name
            &&& key != "ExecutorSessionID"@ && key != "includeStructuredContent"@ ==> (
            step->CallTool_arguments.field(key) == params.field2("arguments"@, key))
            &&& step->CallTool_arguments.field("ExecutorSessionID"@) is None
            &&& step->CallTool_arguments.field("includeStructuredContent"@) is None
            &&& params.field("arguments"@) matches Some(v) ==> !(v is Obj) ==> (
            step->CallTool_arguments == v)
            &&& params.field("arguments"@) is None ==> step->CallTool_arguments is Obj
            &&& step->CallTool_context.executor_session_id == match params.field2(
                "arguments"@,
                "ExecutorSessionID"@,
            ) {
                Some(JsonView::Str(s)) => Some(s),
                _ => None,
            }
            &&& step->CallTool_context.include_structured_content == match params.field2(
                "arguments"@,
                "includeStructuredContent"@,
            ) {
                Some(JsonView::Bool(b)) => b,
                Some(JsonView::Str(s)) => lowered(s) == "true"@,
                _ => false,
            }
        }),
{
    lemma_message_names();
    lemma_member_names();
    reveal_strlit("true");
    assert(lowered("true"@) =~= "true"@);
}

/// A call that names no tool is refused; the list of the tools needs nothing; other methods do
/// not exist.
pub proof fn law_other_methods_are_refused(method: Seq<char>, params: JsonView)
    ensures
        method == "tools/list"@ ==> method_step(method, params) is ListTools,
        method == "tools/call"@ && !(params.field("name"@) matches Some(JsonView::Str(_))) ==> (
        method_step(method, params) matches McpStepView::Fail(e) && e.code == -32603),
        method != "tools/list"@ && method != "tools/call"@ ==> (method_step(
            method,
            params,
        ) matches McpStepView::Fail(e) && e.code == -32601 && e.message == "method not found: "@
            + method),
{
    lemma_message_names();
}

/// The list of the tools holds each tool, in their order, with its name, its description where it
/// has one, and the schema of its arguments.
pub proof fn law_tools_are_listed(tools: Seq<McpToolDefView>, i: int)
    requires
        0 <= i < tools.len(),
    ensures
        tool_list(tools).field("tools"@) matches Some(JsonView::Arr(items)) && {
            &&& items.len() == tools.len()
            &&& items[i].field("name"@) == Some(JsonView::Str(tools[i].name))
            &&& items[i].field("description"@) == match tools[i].description {
                Some(d) => Some(JsonView::Str(d)),
                None => None,
            }
            &&& items[i].field("inputSchema"@) == Some(tools[i].input_schema)
        },
{
    lemma_member_names();
}

/// A result is written with each of its texts, in their order, and with its structured content
/// where that was asked for.
pub proof fn law_results_are_written(r: McpCallResultView, asked: bool, i: int, text: Seq<char>)
    requires
        0 <= i < r.content.len(),
    ensures
        result_value(shown(r, asked)).field("content"@) matches Some(JsonView::Arr(items)) && {
            &&& items.len() == r.content.len()
            &&& items[i].field("type"@) == Some(JsonView::Str(r.content[i].kind))
            &&& items[i].field("text"@) == Some(JsonView::Str(r.content[i].text))
        },
        asked ==> result_value(shown(r, asked)).field("structuredContent"@)
            == r.structured_content,
        !asked ==> result_value(shown(r, asked)).field("structuredContent"@) is None,
        text_answer(text, r.structured_content).content.len() == 1,
        text_answer(text, r.structured_content).content[0].kind == "text"@,
        text_answer(text, r.structured_content).content[0].text == text,
        text_answer(text, r.structured_content).structured_content == r.structured_content,
{
    lemma_member_names();
}

// ---------------------------------------------------------------------------
// How tools are described
// ---------------------------------------------------------------------------

proof fn lemma_own_props(props: Seq<PropView>, i: int)
    requires
        0 <= i < props.len(),
        props[i].name != "ExecutorSessionID"@ && props[i].name != "includeStructuredContent"@,
        forall|j: int| i < j < props.len() ==> (#[trigger] props[j]).name != props[i].name,
    ensures
        own_props(props).dom().contains(props[i].name),
        own_props(props)[props[i].name] == props[i].schema,
    decreases props.len(),
{
    let fewer = props.drop_last();
    if i < fewer.len() {
        assert forall|j: int| i < j < fewer.len() implies (#[trigger] fewer[j]).name
            != fewer[i].name by {
            assert(props[j].name != props[i].name);
        }
        lemma_own_props(fewer, i);
        assert(props[props.len() - 1].name != props[i].name);
    }
}

proof fn lemma_only_own_props(props: Seq<PropView>, key: Seq<char>)
    ensures
        own_props(props).dom().contains(key) ==> exists|i: int|
            0 <= i < props.len() && (#[trigger] props[i]).name == key,
    decreases props.len(),
{
    if props.len() > 0 {
        let fewer = props.drop_last();
        lemma_only_own_props(fewer, key);
        if own_props(props).dom().contains(key) {
            if own_props(fewer).dom().contains(key) {
                let i = choose|i: int| 0 <= i < fewer.len() && (#[trigger] fewer[i]).name == key;
                assert(props[i].name == key);
            } else {
                assert(props[props.len() - 1].name == key);
            }
        }
    }
}

/// The schema of a tool describes each of its arguments as it was given, the wish for structured
/// content, and nothing else.
pub proof fn law_arguments_are_described(
    name: Seq<char>,
    description: Seq<char>,
    required: Seq<Seq<char>>,
    props: Seq<PropView>,
    i: int,
    key: Seq<char>,
)
    requires
        0 <= i < props.len(),
        props[i].name != "ExecutorSessionID"@ && props[i].name != "includeStructuredContent"@,
        forall|j: int| i < j < props.len() ==> (#[trigger] props[j]).name != props[i].name,
    ensures
        ({
            let tool = tool_of(name, description, required, props);
            &&& tool.name == name
            &&& tool.description == Some(description)
            &&& tool.input_schema.field("type"@) == Some(JsonView::Str("object"@))
            &&& tool.input_schema.field2("properties"@, props[i].name) == Some(props[i].schema)
            &&& tool.input_schema.field2("properties"@, "includeStructuredContent"@) is Some
            &&& tool.input_schema.field2("properties"@, key) is Some ==> key
                == "includeStructuredContent"@ || exists|j: int|
                0 <= j < props.len() && (#[trigger] props[j]).name == key
        }),
{
    lemma_member_names();
    lemma_own_props(props, i);
    lemma_only_own_props(props, key);
}

/// What a tool requires: the session first where it works for one, and everything that it
/// asks for.
pub proof fn law_required_arguments(required: Seq<Seq<char>>, props: Seq<PropView>, key: Seq<char>)
    ensures
        ({
            let session = exists|i: int|
                0 <= i < props.len() && (#[trigger] props[i]).name == "ExecutorSessionID"@;
            &&& session ==> all_required(required, props)[0] == "ExecutorSessionID"@
            &&& key != "ExecutorSessionID"@ ==> (all_required(required, props).contains(key)
                <==> required.contains(key))
        }),
{
    lemma_others(required, key);
    let rest = others(required);
    let all = seq!["ExecutorSessionID"@] + rest;
    if key != "ExecutorSessionID"@ {
        if rest.contains(key) {
            let i = choose|i: int| 0 <= i < rest.len() && rest[i] == key;
            assert(all[i + 1] == key);
        }
        if all.contains(key) {
            let i = choose|i: int| 0 <= i < all.len() && all[i] == key;
            assert(rest[i - 1] == key);
        }
    }
}

proof fn lemma_others(required: Seq<Seq<char>>, key: Seq<char>)
    requires
        true,
    ensures
        key != "ExecutorSessionID"@ ==> (others(required).contains(key) <==> required.contains(
            key,
        )),
    decreases required.len(),
{
    if required.len() > 0 {
        let fewer = required.drop_last();
        lemma_others(fewer, key);
        let n = required.len() - 1;
        assert(required.contains(key) <==> fewer.contains(key) || required[n] == key) by {
            if fewer.contains(key) {
                let i = choose|i: int| 0 <= i < fewer.len() && fewer[i] == key;
                assert(required[i] == key);
            }
            if required.contains(key) && required[n] != key {
                let i = choose|i: int| 0 <= i < required.len() && required[i] == key;
                assert(fewer[i] == key);
            }
        }
        if required[n] != "ExecutorSessionID"@ {
            let head = others(fewer);
            let all = others(required);
            assert(all == head.push(required[n]));
            if head.contains(key) {
                let i = choose|i: int| 0 <= i < head.len() && head[i] == key;
                assert(all[i] == key);
            }
            if required[n] == key {
                assert(all[all.len() - 1] == key);
            }
        }
    }
}

/// One of the arguments has the name.
pub open spec fn has_argument(props: Seq<PropView>, name: Seq<char>) -> bool {
    exists|i: int| 0 <= i < props.len() && (#[trigger] props[i]).name == name
}

/// The tools that are offered, and the arguments that each of them describes.
pub proof fn law_offered_tools()
    ensures
        offered_tools().len() == 5,
        offered_tools()[0].name == "FileAction"@,
        offered_tools()[1].name == "read"@,
        offered_tools()[2].name == "rg"@,
        offered_tools()[3].name == "exbash"@,
        offered_tools()[4].name == "RemoteExecutorManager"@,
        has_argument(file_action_props(), "ExecutorSessionID"@),
        has_argument(file_action_props(), "executor"@),
        has_argument(file_action_props(), "mode"@),
        has_argument(file_action_props(), "fileKey"@),
        has_argument(file_action_props(), "newFilePath"@),
        has_argument(file_action_props(), "patchText"@),
        has_argument(file_action_props(), "content"@),
        has_argument(file_action_props(), "patchMode"@),
        has_argument(read_props(), "ExecutorSessionID"@),
        has_argument(read_props(), "executor"@),
        has_argument(read_props(), "fileKey"@),
        has_argument(read_props(), "mode"@),
        has_argument(read_props(), "offset"@),
        has_argument(read_props(), "limit"@),
        has_argument(rg_props(), "ExecutorSessionID"@),
        has_argument(rg_props(), "executor"@),
        has_argument(rg_props(), "mode"@),
        has_argument(rg_props(), "type"@),
        has_argument(rg_props(), "pattern"@),
        has_argument(rg_props(), "path"@),
        has_argument(rg_props(), "globs"@),
        has_argument(rg_props(), "case_sensitive"@),
        has_argument(rg_props(), "max_count"@),
        has_argument(exbash_props(), "ExecutorSessionID"@),
        has_argument(exbash_props(), "executor"@),
        has_argument(exbash_props(), "mode"@),
        has_argument(exbash_props(), "scope"@),
        has_argument(exbash_props(), "command"@),
        has_argument(exbash_props(), "shell"@),
        has_argument(exbash_props(), "description"@),
        has_argument(exbash_props(), "timeout"@),
        has_argument(exbash_props(), "read_timeout"@),
        has_argument(exbash_props(), "asyncID"@),
        has_argument(exbash_props(), "text"@),
        has_argument(exbash_props(), "filePath"@),
        has_argument(exbash_props(), "workdir"@),
        has_argument(exbash_props(), "showRawPretty"@),
        has_argument(remote_executor_manager_props(), "ExecutorSessionID"@),
        has_argument(remote_executor_manager_props(), "executor"@),
        has_argument(remote_executor_manager_props(), "method"@),
        has_argument(remote_executor_manager_props(), "id"@),
        has_argument(remote_executor_manager_props(), "url"@),
        has_argument(remote_executor_manager_props(), "system"@),
        has_argument(remote_executor_manager_props(), "device"@),
        has_argument(remote_executor_manager_props(), "labels"@),
        has_argument(remote_executor_manager_props(), "shell"@),
{
    assert(file_action_props()[0].name == "ExecutorSessionID"@);
    assert(file_action_props()[1].name == "executor"@);
    assert(file_action_props()[2].name == "mode"@);
    assert(file_action_props()[3].name == "fileKey"@);
    assert(file_action_props()[4].name == "newFilePath"@);
    assert(file_action_props()[5].name == "patchText"@);
    assert(file_action_props()[6].name == "content"@);
    assert(file_action_props()[7].name == "patchMode"@);
    assert(read_props()[0].name == "ExecutorSessionID"@);
    assert(read_props()[1].name == "executor"@);
    assert(read_props()[2].name == "fileKey"@);
    assert(read_props()[3].name == "mode"@);
    assert(read_props()[4].name == "offset"@);
    assert(read_props()[5].name == "limit"@);
    assert(rg_props()[0].name == "ExecutorSessionID"@);
    assert(rg_props()[1].name == "executor"@);
    assert(rg_props()[2].name == "mode"@);
    assert(rg_props()[3].name == "type"@);
    assert(rg_props()[4].name == "pattern"@);
    assert(rg_props()[5].name == "path"@);
    assert(rg_props()[6].name == "globs"@);
    assert(rg_props()[7].name == "case_sensitive"@);
    assert(rg_props()[8].name == "max_count"@);
    assert(exbash_props()[0].name == "ExecutorSessionID"@);
    assert(exbash_props()[1].name == "executor"@);
    assert(exbash_props()[2].name == "mode"@);
    assert(exbash_props()[3].name == "scope"@);
    assert(exbash_props()[4].name == "command"@);
    assert(exbash_props()[5].name == "shell"@);
    assert(exbash_props()[6].name == "description"@);
    assert(exbash_props()[7].name == "timeout"@);
    assert(exbash_props()[8].name == "read_timeout"@);
    assert(exbash_props()[9].name == "asyncID"@);
    assert(exbash_props()[10].name == "text"@);
    assert(exbash_props()[11].name == "filePath"@);
    assert(exbash_props()[12].name == "workdir"@);
    assert(exbash_props()[13].name == "showRawPretty"@);
    assert(remote_executor_manager_props()[0].name == "ExecutorSessionID"@);
    assert(remote_executor_manager_props()[1].name == "executor"@);
    assert(remote_executor_manager_props()[2].name == "method"@);
    assert(remote_executor_manager_props()[3].name == "id"@);
    assert(remote_executor_manager_props()[4].name == "url"@);
    assert(remote_executor_manager_props()[5].name == "system"@);
    assert(remote_executor_manager_props()[6].name == "device"@);
    assert(remote_executor_manager_props()[7].name == "labels"@);
    assert(remote_executor_manager_props()[8].name == "shell"@);
}

// ---------------------------------------------------------------------------
// What reaches a terminal
// ---------------------------------------------------------------------------

/// Every pressed key reaches the terminal as it is, but for `Ctrl-]`, which ends it; so do the
/// tasks that the scheduler assigns or takes away, and what it has to say.
pub proof fn law_terminals_are_told(
    key: KeyEvent,
    task: ExbashTaskView,
    async_id: Seq<char>,
    executor: Seq<char>,
)
    ensures
        press_event(key) is Quit <==> key.code == KeyCode::Char(']') && key.modifiers.control,
        !(press_event(key) is Quit) ==> press_event(key) == (LocalEventView::Key { key }),
        control_event(ControlMessageView::Assign { task }) matches Some(
            LocalEventView::Assign { task: t },
        ) && t == task,
        control_event(ControlMessageView::Unassign { async_id, executor }) matches Some(
            LocalEventView::Unassign { async_id: a, executor: e },
        ) && a == async_id && e == executor,
        control_event(ControlMessageView::Message { message: async_id }) matches Some(
            LocalEventView::Notice { text },
        ) && text == async_id,
        control_event(ControlMessageView::Registered { slot_id: async_id }) is None,
{
}

} // verus!
