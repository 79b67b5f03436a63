//! What a terminal and the server understand of each other.

use vstd::prelude::*;

use crate::args::asked_mode;
use crate::args::asked_scope;
use crate::client::answer_of;
use crate::client::attach_query;
use crate::client::call_request;
use crate::client::list_query;
use crate::client::listed_executors;
use crate::client::registration;
use crate::client::session_arguments;
use crate::client::url_in;
use crate::json::JsonView;
use crate::jsonrpc::reply;
use crate::jsonrpc::JsonRpcErrorView;
use crate::mcp::method_step;
use crate::mcp::result_value;
use crate::mcp::shown;
use crate::mcp::McpCallResultView;
use crate::protocol_laws::law_tool_calls_are_taken_apart;
use crate::ptyt::is_register;
use crate::ptyt::schedule_call;
use crate::server::route_of;
use crate::term_task::ExbashTaskView;
use crate::text::trimmed;

verus! {

proof fn lemma_client_names()
    ensures
        "jsonrpc"@ != "id"@,
        "jsonrpc"@ != "method"@,
        "jsonrpc"@ != "params"@,
        "jsonrpc"@ != "name"@,
        "jsonrpc"@ != "arguments"@,
        "jsonrpc"@ != "ExecutorSessionID"@,
        "jsonrpc"@ != "includeStructuredContent"@,
        "jsonrpc"@ != "result"@,
        "jsonrpc"@ != "error"@,
        "jsonrpc"@ != "message"@,
        "jsonrpc"@ != "code"@,
        "jsonrpc"@ != "data"@,
        "jsonrpc"@ != "mode"@,
        "jsonrpc"@ != "scope"@,
        "jsonrpc"@ != "asyncID"@,
        "jsonrpc"@ != "executor"@,
        "jsonrpc"@ != "refsPtytResolve"@,
        "jsonrpc"@ != "read_timeout"@,
        "jsonrpc"@ != "type"@,
        "jsonrpc"@ != "sessionID"@,
        "jsonrpc"@ != "slotID"@,
        "jsonrpc"@ != "schedulable"@,
        "jsonrpc"@ != "url"@,
        "jsonrpc"@ != "structuredContent"@,
        "jsonrpc"@ != "metadata"@,
        "jsonrpc"@ != "executors"@,
        "jsonrpc"@ != "content"@,
        "id"@ != "method"@,
        "id"@ != "params"@,
        "id"@ != "name"@,
        "id"@ != "arguments"@,
        "id"@ != "ExecutorSessionID"@,
        "id"@ != "includeStructuredContent"@,
        "id"@ != "result"@,
        "id"@ != "error"@,
        "id"@ != "message"@,
        "id"@ != "code"@,
        "id"@ != "data"@,
        "id"@ != "mode"@,
        "id"@ != "scope"@,
        "id"@ != "asyncID"@,
        "id"@ != "executor"@,
        "id"@ != "refsPtytResolve"@,
        "id"@ != "read_timeout"@,
        "id"@ != "type"@,
        "id"@ != "sessionID"@,
        "id"@ != "slotID"@,
        "id"@ != "schedulable"@,
        "id"@ != "url"@,
        "id"@ != "structuredContent"@,
        "id"@ != "metadata"@,
        "id"@ != "executors"@,
        "id"@ != "content"@,
        "method"@ != "params"@,
        "method"@ != "name"@,
        "method"@ != "arguments"@,
        "method"@ != "ExecutorSessionID"@,
        "method"@ != "includeStructuredContent"@,
        "method"@ != "result"@,
        "method"@ != "error"@,
        "method"@ != "message"@,
        "method"@ != "code"@,
        "method"@ != "data"@,
        "method"@ != "mode"@,
        "method"@ != "scope"@,
        "method"@ != "asyncID"@,
        "method"@ != "executor"@,
        "method"@ != "refsPtytResolve"@,
        "method"@ != "read_timeout"@,
        "method"@ != "type"@,
        "method"@ != "sessionID"@,
        "method"@ != "slotID"@,
        "method"@ != "schedulable"@,
        "method"@ != "url"@,
        "method"@ != "structuredContent"@,
        "method"@ != "metadata"@,
        "method"@ != "executors"@,
        "method"@ != "content"@,
        "params"@ != "name"@,
        "params"@ != "arguments"@,
        "params"@ != "ExecutorSessionID"@,
        "params"@ != "includeStructuredContent"@,
        "params"@ != "result"@,
        "params"@ != "error"@,
        "params"@ != "message"@,
        "params"@ != "code"@,
        "params"@ != "data"@,
        "params"@ != "mode"@,
        "params"@ != "scope"@,
        "params"@ != "asyncID"@,
        "params"@ != "executor"@,
        "params"@ != "refsPtytResolve"@,
        "params"@ != "read_timeout"@,
        "params"@ != "type"@,
        "params"@ != "sessionID"@,
        "params"@ != "slotID"@,
        "params"@ != "schedulable"@,
        "params"@ != "url"@,
        "params"@ != "structuredContent"@,
        "params"@ != "metadata"@,
        "params"@ != "executors"@,
        "params"@ != "content"@,
        "name"@ != "arguments"@,
        "name"@ != "ExecutorSessionID"@,
        "name"@ != "includeStructuredContent"@,
        "name"@ != "result"@,
        "name"@ != "error"@,
        "name"@ != "message"@,
        "name"@ != "code"@,
        "name"@ != "data"@,
        "name"@ != "mode"@,
        "name"@ != "scope"@,
        "name"@ != "asyncID"@,
        "name"@ != "executor"@,
        "name"@ != "refsPtytResolve"@,
        "name"@ != "read_timeout"@,
        "name"@ != "type"@,
        "name"@ != "sessionID"@,
        "name"@ != "slotID"@,
        "name"@ != "schedulable"@,
        "name"@ != "url"@,
        "name"@ != "structuredContent"@,
        "name"@ != "metadata"@,
        "name"@ != "executors"@,
        "name"@ != "content"@,
        "arguments"@ != "ExecutorSessionID"@,
        "arguments"@ != "includeStructuredContent"@,
        "arguments"@ != "result"@,
        "arguments"@ != "error"@,
        "arguments"@ != "message"@,
        "arguments"@ != "code"@,
        "arguments"@ != "data"@,
        "arguments"@ != "mode"@,
        "arguments"@ != "scope"@,
        "arguments"@ != "asyncID"@,
        "arguments"@ != "executor"@,
        "arguments"@ != "refsPtytResolve"@,
        "arguments"@ != "read_timeout"@,
        "arguments"@ != "type"@,
        "arguments"@ != "sessionID"@,
        "arguments"@ != "slotID"@,
        "arguments"@ != "schedulable"@,
        "arguments"@ != "url"@,
        "arguments"@ != "structuredContent"@,
        "arguments"@ != "metadata"@,
        "arguments"@ != "executors"@,
        "arguments"@ != "content"@,
        "ExecutorSessionID"@ != "includeStructuredContent"@,
        "ExecutorSessionID"@ != "result"@,
        "ExecutorSessionID"@ != "error"@,
        "ExecutorSessionID"@ != "message"@,
        "ExecutorSessionID"@ != "code"@,
        "ExecutorSessionID"@ != "data"@,
        "ExecutorSessionID"@ != "mode"@,
        "ExecutorSessionID"@ != "scope"@,
        "ExecutorSessionID"@ != "asyncID"@,
        "ExecutorSessionID"@ != "executor"@,
        "ExecutorSessionID"@ != "refsPtytResolve"@,
        "ExecutorSessionID"@ != "read_timeout"@,
        "ExecutorSessionID"@ != "type"@,
        "ExecutorSessionID"@ != "sessionID"@,
        "ExecutorSessionID"@ != "slotID"@,
        "ExecutorSessionID"@ != "schedulable"@,
        "ExecutorSessionID"@ != "url"@,
        "ExecutorSessionID"@ != "structuredContent"@,
        "ExecutorSessionID"@ != "metadata"@,
        "ExecutorSessionID"@ != "executors"@,
        "ExecutorSessionID"@ != "content"@,
        "includeStructuredContent"@ != "result"@,
        "includeStructuredContent"@ != "error"@,
        "includeStructuredContent"@ != "message"@,
        "includeStructuredContent"@ != "code"@,
        "includeStructuredContent"@ != "data"@,
        "includeStructuredContent"@ != "mode"@,
        "includeStructuredContent"@ != "scope"@,
        "includeStructuredContent"@ != "asyncID"@,
        "includeStructuredContent"@ != "executor"@,
        "includeStructuredContent"@ != "refsPtytResolve"@,
        "includeStructuredContent"@ != "read_timeout"@,
        "includeStructuredContent"@ != "type"@,
        "includeStructuredContent"@ != "sessionID"@,
        "includeStructuredContent"@ != "slotID"@,
        "includeStructuredContent"@ != "schedulable"@,
        "includeStructuredContent"@ != "url"@,
        "includeStructuredContent"@ != "structuredContent"@,
        "includeStructuredContent"@ != "metadata"@,
        "includeStructuredContent"@ != "executors"@,
        "includeStructuredContent"@ != "content"@,
        "result"@ != "error"@,
        "result"@ != "message"@,
        "result"@ != "code"@,
        "result"@ != "data"@,
        "result"@ != "mode"@,
        "result"@ != "scope"@,
        "result"@ != "asyncID"@,
        "result"@ != "executor"@,
        "result"@ != "refsPtytResolve"@,
        "result"@ != "read_timeout"@,
        "result"@ != "type"@,
        "result"@ != "sessionID"@,
        "result"@ != "slotID"@,
        "result"@ != "schedulable"@,
        "result"@ != "url"@,
        "result"@ != "structuredContent"@,
        "result"@ != "metadata"@,
        "result"@ != "executors"@,
        "result"@ != "content"@,
        "error"@ != "message"@,
        "error"@ != "code"@,
        "error"@ != "data"@,
        "error"@ != "mode"@,
        "error"@ != "scope"@,
        "error"@ != "asyncID"@,
        "error"@ != "executor"@,
        "error"@ != "refsPtytResolve"@,
        "error"@ != "read_timeout"@,
        "error"@ != "type"@,
        "error"@ != "sessionID"@,
        "error"@ != "slotID"@,
        "error"@ != "schedulable"@,
        "error"@ != "url"@,
        "error"@ != "structuredContent"@,
        "error"@ != "metadata"@,
        "error"@ != "executors"@,
        "error"@ != "content"@,
        "message"@ != "code"@,
        "message"@ != "data"@,
        "message"@ != "mode"@,
        "message"@ != "scope"@,
        "message"@ != "asyncID"@,
        "message"@ != "executor"@,
        "message"@ != "refsPtytResolve"@,
        "message"@ != "read_timeout"@,
        "message"@ != "type"@,
        "message"@ != "sessionID"@,
        "message"@ != "slotID"@,
        "message"@ != "schedulable"@,
        "message"@ != "url"@,
        "message"@ != "structuredContent"@,
        "message"@ != "metadata"@,
        "message"@ != "executors"@,
        "message"@ != "content"@,
        "code"@ != "data"@,
        "code"@ != "mode"@,
        "code"@ != "scope"@,
        "code"@ != "asyncID"@,
        "code"@ != "executor"@,
        "code"@ != "refsPtytResolve"@,
        "code"@ != "read_timeout"@,
        "code"@ != "type"@,
        "code"@ != "sessionID"@,
        "code"@ != "slotID"@,
        "code"@ != "schedulable"@,
        "code"@ != "url"@,
        "code"@ != "structuredContent"@,
        "code"@ != "metadata"@,
        "code"@ != "executors"@,
        "code"@ != "content"@,
        "data"@ != "mode"@,
        "data"@ != "scope"@,
        "data"@ != "asyncID"@,
        "data"@ != "executor"@,
        "data"@ != "refsPtytResolve"@,
        "data"@ != "read_timeout"@,
        "data"@ != "type"@,
        "data"@ != "sessionID"@,
        "data"@ != "slotID"@,
        "data"@ != "schedulable"@,
        "data"@ != "url"@,
        "data"@ != "structuredContent"@,
        "data"@ != "metadata"@,
        "data"@ != "executors"@,
        "data"@ != "content"@,
        "mode"@ != "scope"@,
        "mode"@ != "asyncID"@,
        "mode"@ != "executor"@,
        "mode"@ != "refsPtytResolve"@,
        "mode"@ != "read_timeout"@,
        "mode"@ != "type"@,
        "mode"@ != "sessionID"@,
        "mode"@ != "slotID"@,
        "mode"@ != "schedulable"@,
        "mode"@ != "url"@,
        "mode"@ != "structuredContent"@,
        "mode"@ != "metadata"@,
        "mode"@ != "executors"@,
        "mode"@ != "content"@,
        "scope"@ != "asyncID"@,
        "scope"@ != "executor"@,
        "scope"@ != "refsPtytResolve"@,
        "scope"@ != "read_timeout"@,
        "scope"@ != "type"@,
        "scope"@ != "sessionID"@,
        "scope"@ != "slotID"@,
        "scope"@ != "schedulable"@,
        "scope"@ != "url"@,
        "scope"@ != "structuredContent"@,
        "scope"@ != "metadata"@,
        "scope"@ != "executors"@,
        "scope"@ != "content"@,
        "asyncID"@ != "executor"@,
        "asyncID"@ != "refsPtytResolve"@,
        "asyncID"@ != "read_timeout"@,
        "asyncID"@ != "type"@,
        "asyncID"@ != "sessionID"@,
        "asyncID"@ != "slotID"@,
        "asyncID"@ != "schedulable"@,
        "asyncID"@ != "url"@,
        "asyncID"@ != "structuredContent"@,
        "asyncID"@ != "metadata"@,
        "asyncID"@ != "executors"@,
        "asyncID"@ != "content"@,
        "executor"@ != "refsPtytResolve"@,
        "executor"@ != "read_timeout"@,
        "executor"@ != "type"@,
        "executor"@ != "sessionID"@,
        "executor"@ != "slotID"@,
        "executor"@ != "schedulable"@,
        "executor"@ != "url"@,
        "executor"@ != "structuredContent"@,
        "executor"@ != "metadata"@,
        "executor"@ != "executors"@,
        "executor"@ != "content"@,
        "refsPtytResolve"@ != "read_timeout"@,
        "refsPtytResolve"@ != "type"@,
        "refsPtytResolve"@ != "sessionID"@,
        "refsPtytResolve"@ != "slotID"@,
        "refsPtytResolve"@ != "schedulable"@,
        "refsPtytResolve"@ != "url"@,
        "refsPtytResolve"@ != "structuredContent"@,
        "refsPtytResolve"@ != "metadata"@,
        "refsPtytResolve"@ != "executors"@,
        "refsPtytResolve"@ != "content"@,
        "read_timeout"@ != "type"@,
        "read_timeout"@ != "sessionID"@,
        "read_timeout"@ != "slotID"@,
        "read_timeout"@ != "schedulable"@,
        "read_timeout"@ != "url"@,
        "read_timeout"@ != "structuredContent"@,
        "read_timeout"@ != "metadata"@,
        "read_timeout"@ != "executors"@,
        "read_timeout"@ != "content"@,
        "type"@ != "sessionID"@,
        "type"@ != "slotID"@,
        "type"@ != "schedulable"@,
        "type"@ != "url"@,
        "type"@ != "structuredContent"@,
        "type"@ != "metadata"@,
        "type"@ != "executors"@,
        "type"@ != "content"@,
        "sessionID"@ != "slotID"@,
        "sessionID"@ != "schedulable"@,
        "sessionID"@ != "url"@,
        "sessionID"@ != "structuredContent"@,
        "sessionID"@ != "metadata"@,
        "sessionID"@ != "executors"@,
        "sessionID"@ != "content"@,
        "slotID"@ != "schedulable"@,
        "slotID"@ != "url"@,
        "slotID"@ != "structuredContent"@,
        "slotID"@ != "metadata"@,
        "slotID"@ != "executors"@,
        "slotID"@ != "content"@,
        "schedulable"@ != "url"@,
        "schedulable"@ != "structuredContent"@,
        "schedulable"@ != "metadata"@,
        "schedulable"@ != "executors"@,
        "schedulable"@ != "content"@,
        "url"@ != "structuredContent"@,
        "url"@ != "metadata"@,
        "url"@ != "executors"@,
        "url"@ != "content"@,
        "structuredContent"@ != "metadata"@,
        "structuredContent"@ != "executors"@,
        "structuredContent"@ != "content"@,
        "metadata"@ != "executors"@,
        "metadata"@ != "content"@,
        "executors"@ != "content"@,
{
    reveal_strlit("jsonrpc");
    reveal_strlit("id");
    reveal_strlit("method");
    reveal_strlit("params");
    reveal_strlit("name");
    reveal_strlit("arguments");
    reveal_strlit("ExecutorSessionID");
    reveal_strlit("includeStructuredContent");
    reveal_strlit("result");
    reveal_strlit("error");
    reveal_strlit("message");
    reveal_strlit("code");
    reveal_strlit("data");
    reveal_strlit("mode");
    reveal_strlit("scope");
    reveal_strlit("asyncID");
    reveal_strlit("executor");
    reveal_strlit("refsPtytResolve");
    reveal_strlit("read_timeout");
    reveal_strlit("type");
    reveal_strlit("sessionID");
    reveal_strlit("slotID");
    reveal_strlit("schedulable");
    reveal_strlit("url");
    reveal_strlit("structuredContent");
    reveal_strlit("metadata");
    reveal_strlit("executors");
    reveal_strlit("content");
    assert("jsonrpc"@.len() == 7);
    assert("id"@.len() == 2);
    assert("method"@.len() == 6);
    assert("params"@.len() == 6);
    assert("name"@.len() == 4);
    assert("arguments"@.len() == 9);
    assert("ExecutorSessionID"@.len() == 17);
    assert("includeStructuredContent"@.len() == 24);
    assert("result"@.len() == 6);
    assert("error"@.len() == 5);
    assert("message"@.len() == 7);
    assert("code"@.len() == 4);
    assert("data"@.len() == 4);
    assert("mode"@.len() == 4);
    assert("scope"@.len() == 5);
    assert("asyncID"@.len() == 7);
    assert("executor"@.len() == 8);
    assert("refsPtytResolve"@.len() == 15);
    assert("read_timeout"@.len() == 12);
    assert("type"@.len() == 4);
    assert("sessionID"@.len() == 9);
    assert("slotID"@.len() == 6);
    assert("schedulable"@.len() == 11);
    assert("url"@.len() == 3);
    assert("structuredContent"@.len() == 17);
    assert("metadata"@.len() == 8);
    assert("executors"@.len() == 9);
    assert("content"@.len() == 7);
    assert("jsonrpc"@[0] == 'j' && "message"@[0] == 'm');
    assert("jsonrpc"@[0] == 'j' && "asyncID"@[0] == 'a');
    assert("jsonrpc"@[0] == 'j' && "content"@[0] == 'c');
    assert("method"@[0] == 'm' && "params"@[0] == 'p');
    assert("method"@[0] == 'm' && "result"@[0] == 'r');
    assert("method"@[0] == 'm' && "slotID"@[0] == 's');
    assert("params"@[0] == 'p' && "result"@[0] == 'r');
    assert("params"@[0] == 'p' && "slotID"@[0] == 's');
    assert("name"@[0] == 'n' && "code"@[0] == 'c');
    assert("name"@[0] == 'n' && "data"@[0] == 'd');
    assert("name"@[0] == 'n' && "mode"@[0] == 'm');
    assert("name"@[0] == 'n' && "type"@[0] == 't');
    assert("arguments"@[0] == 'a' && "sessionID"@[0] == 's');
    assert("arguments"@[0] == 'a' && "executors"@[0] == 'e');
    assert("ExecutorSessionID"@[0] == 'E' && "structuredContent"@[0] == 's');
    assert("result"@[0] == 'r' && "slotID"@[0] == 's');
    assert("error"@[0] == 'e' && "scope"@[0] == 's');
    assert("message"@[0] == 'm' && "asyncID"@[0] == 'a');
    assert("message"@[0] == 'm' && "content"@[0] == 'c');
    assert("code"@[0] == 'c' && "data"@[0] == 'd');
    assert("code"@[0] == 'c' && "mode"@[0] == 'm');
    assert("code"@[0] == 'c' && "type"@[0] == 't');
    assert("data"@[0] == 'd' && "mode"@[0] == 'm');
    assert("data"@[0] == 'd' && "type"@[0] == 't');
    assert("mode"@[0] == 'm' && "type"@[0] == 't');
    assert("asyncID"@[0] == 'a' && "content"@[0] == 'c');
    assert("executor"@[0] == 'e' && "metadata"@[0] == 'm');
    assert("sessionID"@[0] == 's' && "executors"@[0] == 'e');
}

/// A request of a terminal is one that the server hands on, and the tool gets it as it was meant: the
/// tool that was named, the arguments that were given, the session of the terminal, and
/// structured content.
pub proof fn law_requests_are_understood(
    session: Seq<char>,
    name: Seq<char>,
    arguments: Map<Seq<char>, JsonView>,
    key: Seq<char>,
    server: Seq<char>,
    version: Seq<char>,
)
    ensures
        ({
            let request = call_request(name, session_arguments(session, arguments));
            let step = method_step("tools/call"@, request.field("params"@)->0);
            &&& request.field("jsonrpc"@) == Some(JsonView::Str("2.0"@))
            &&& request.field("method"@) == Some(JsonView::Str("tools/call"@))
            &&& route_of(request, server, version) is Forward
            &&& step is CallTool
            &&& step->CallTool_name == name
            &&& step->CallTool_context.executor_session_id == Some(session)
            &&& step->CallTool_context.include_structured_content
            &&& key != "ExecutorSessionID"@ && key != "includeStructuredContent"@ ==> (
            step->CallTool_arguments.field(key) == JsonView::Obj(arguments).field(key))
        }),
{
    lemma_client_names();
    let request = call_request(name, session_arguments(session, arguments));
    let params = request.field("params"@)->0;
    assert(params.field("name"@) == Some(JsonView::Str(name)));
    law_tool_calls_are_taken_apart(params, name, key);
    assert(params.field2("arguments"@, "ExecutorSessionID"@) == Some(JsonView::Str(session)));
    assert(params.field2("arguments"@, "includeStructuredContent"@) == Some(JsonView::Bool(true)));
    reveal_strlit("tools/call");
    reveal_strlit("tools/list");
    reveal_strlit("initialize");
    reveal_strlit("ping");
    assert("tools/call"@.len() == 10 && "initialize"@.len() == 10 && "ping"@.len() == 4);
    assert("tools/call"@[0] == 't' && "initialize"@[0] == 'i');
}

/// An answer says what the request came to: its result, or the message of its failure.
pub proof fn law_answers_are_understood(id: JsonView, result: JsonView, e: JsonRpcErrorView)
    ensures
        answer_of(reply(id, Ok(result))) == Ok::<JsonView, Seq<char>>(result),
        answer_of(reply(id, Err(e))) == Err::<JsonView, Seq<char>>(e.message),
{
    lemma_client_names();
}

/// A list asks the tool for the tasks of its scope; attaching asks for the task that is meant, and is
/// not itself shown on a terminal.
pub proof fn law_terminal_calls(task: ExbashTaskView, scope: Seq<char>, input: JsonView)
    requires
        trimmed(scope).len() > 0,
        trimmed(task.scope).len() > 0,
    ensures
        asked_mode(list_query(scope)) == "list"@,
        asked_scope(list_query(scope)) == trimmed(scope),
        asked_mode(attach_query(task)) == "attach"@,
        asked_scope(attach_query(task)) == trimmed(task.scope),
        attach_query(task).field("asyncID"@) == Some(JsonView::Str(task.async_id)),
        attach_query(task).field("executor"@) == Some(JsonView::Str(task.executor)),
        attach_query(task).field("read_timeout"@) == Some(JsonView::Int(0)),
        input.field2("params"@, "arguments"@) == Some(attach_query(task)) ==> schedule_call(
            input,
        ) is None,
{
    lemma_client_names();
    reveal_strlit("list");
    reveal_strlit("attach");
    assert("list"@.len() == 4 && "attach"@.len() == 6);
    assert(trimmed("list"@) == "list"@) by {
        assert("list"@[0] == 'l' && "list"@.last() == 't');
    }
    assert(trimmed("attach"@) == "attach"@) by {
        assert("attach"@[0] == 'a' && "attach"@.last() == 'h');
    }
}

/// A terminal registers with the message that the scheduler takes for a registration, under its
/// session and its name.
pub proof fn law_registrations_are_understood(
    session: Seq<char>,
    slot_id: Seq<char>,
    schedulable: bool,
)
    ensures
        is_register(registration(session, slot_id, schedulable)),
        registration(session, slot_id, schedulable).field("sessionID"@) == Some(
            JsonView::Str(session),
        ),
        registration(session, slot_id, schedulable).field("slotID"@) == Some(
            JsonView::Str(slot_id),
        ),
        registration(session, slot_id, schedulable).field("schedulable"@) == Some(
            JsonView::Bool(schedulable),
        ),
{
    lemma_client_names();
}

/// The executors that a result of the tool lists are found in the answer, and the address of an
/// executor is that of the first one listed under its name that has an address.
pub proof fn law_addresses_are_found(
    r: McpCallResultView,
    metadata: JsonView,
    executors: Seq<JsonView>,
    executor: Seq<char>,
    i: int,
    url: Seq<char>,
)
    requires
        r.structured_content matches Some(c) && c.field("metadata"@) == Some(metadata) && c.field(
            "result"@,
        ) is None,
        metadata.field("executors"@) == Some(JsonView::Arr(executors)),
        0 <= i < executors.len(),
        executors[i].field("id"@) == Some(JsonView::Str(executor)),
        executors[i].field("url"@) == Some(JsonView::Str(url)),
        forall|j: int|
            0 <= j < i ==> (#[trigger] executors[j]).field("id"@) != Some(JsonView::Str(executor)),
    ensures
        listed_executors(result_value(shown(r, true))) == executors,
        url_in(executors, executor) == Some(url),
{
    lemma_client_names();
    lemma_address(executors, executor, i, url);
}

proof fn lemma_address(executors: Seq<JsonView>, executor: Seq<char>, i: int, url: Seq<char>)
    requires
        0 <= i < executors.len(),
        executors[i].field("id"@) == Some(JsonView::Str(executor)),
        executors[i].field("url"@) == Some(JsonView::Str(url)),
        forall|j: int|
            0 <= j < i ==> (#[trigger] executors[j]).field("id"@) != Some(JsonView::Str(executor)),
    ensures
        url_in(executors, executor) == Some(url),
    decreases i,
{
    if i > 0 {
        let rest = executors.skip(1);
        assert(executors[0].field("id"@) != Some(JsonView::Str(executor)));
        assert forall|j: int| 0 <= j < i - 1 implies (#[trigger] rest[j]).field("id"@) != Some(
            JsonView::Str(executor),
        ) by {
            assert(rest[j] == executors[j + 1]);
        }
        assert(rest[i - 1] == executors[i]);
        lemma_address(rest, executor, i - 1, url);
    }
}

/// An executor that nobody listed has no address.
pub proof fn law_unlisted_executors_have_no_address(executors: Seq<JsonView>, executor: Seq<char>)
    requires
        forall|j: int|
            0 <= j < executors.len() ==> (#[trigger] executors[j]).field("id"@) != Some(
                JsonView::Str(executor),
            ),
    ensures
        url_in(executors, executor) is None,
    decreases executors.len(),
{
    if executors.len() > 0 {
        let rest = executors.skip(1);
        assert(executors[0].field("id"@) != Some(JsonView::Str(executor)));
        assert forall|j: int| 0 <= j < rest.len() implies (#[trigger] rest[j]).field("id"@) != Some(
            JsonView::Str(executor),
        ) by {
            assert(rest[j] == executors[j + 1]);
        }
        law_unlisted_executors_have_no_address(rest, executor);
    }
}

} // verus!
