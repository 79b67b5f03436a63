//! What a server does with the messages of its clients.

use vstd::prelude::*;

use crate::json::opt_view;
use crate::json::Json;
use crate::json::JsonObject;
use crate::json::JsonView;
use crate::jsonrpc::error_reply;
use crate::jsonrpc::error_response;
use crate::jsonrpc::finish_request;
use crate::jsonrpc::no_such_method;
use crate::jsonrpc::result_reply;
use crate::jsonrpc::JsonRpcErrorView;
use crate::output::text_or_empty;
use crate::ptyt::is_register;
use crate::ptyt::is_register_message;
use crate::text::cat;
use crate::text::same;

verus! {

pub const DEFAULT_PROTOCOL_VERSION: &'static str = "2025-06-18";

pub const INSTRUCTIONS: &'static str =
    "REFS exposes file, search, terminal, and executor tools. Each tools/call must include ExecutorSessionID; for manual MCP tests use any non-empty placeholder such as codex-mcp-test.";

/// What the server says of itself.
pub open spec fn server_info(
    params: JsonView,
    name: Seq<char>,
    version: Seq<char>,
) -> JsonView {
    let protocol = match params.text_field("protocolVersion"@) {
        Some(v) => v,
        None => DEFAULT_PROTOCOL_VERSION@,
    };
    JsonView::Obj(
        map![
            "protocolVersion"@ => JsonView::Str(protocol),
            "capabilities"@ => JsonView::Obj(
                map!["tools"@ => JsonView::Obj(map!["listChanged"@ => JsonView::Bool(false)])],
            ),
            "serverInfo"@ => JsonView::Obj(
                map!["name"@ => JsonView::Str(name), "version"@ => JsonView::Str(version)],
            ),
            "instructions"@ => JsonView::Str(INSTRUCTIONS@),
        ],
    )
}

pub fn initialize_response(id: Json, params: &Json, name: &str, version: &str) -> (r: Json)
    ensures
        r@ == result_reply(id@, server_info(params@, name@, version@)),
{
    let protocol = match params.text_of("protocolVersion") {
        Some(v) => v,
        None => DEFAULT_PROTOCOL_VERSION,
    };
    let tools = JsonObject::new().with("listChanged", Json::Bool(false));
    let capabilities = JsonObject::new().with("tools", Json::Object(tools));
    let info = JsonObject::new().with("name", Json::str(name)).with("version", Json::str(version));
    let result = JsonObject::new().with("protocolVersion", Json::str(protocol)).with(
        "capabilities",
        Json::Object(capabilities),
    ).with("serverInfo", Json::Object(info)).with("instructions", Json::str(INSTRUCTIONS));
    finish_request(id, Ok(Json::Object(result)))
}

/// What becomes of a message: nothing for a notification, an answer at once, or a call of
/// the endpoint.
#[derive(Debug)]
pub enum Route {
    Ignore,
    Reply(Json),
    Forward,
}

#[verifier::ext_equal]
pub ghost enum RouteView {
    Ignore,
    Reply(JsonView),
    Forward,
}

impl Route {
    pub open spec fn view(&self) -> RouteView {
        match self {
            Route::Ignore => RouteView::Ignore,
            Route::Reply(v) => RouteView::Reply(v@),
            Route::Forward => RouteView::Forward,
        }
    }
}

pub open spec fn route_of(input: JsonView, name: Seq<char>, version: Seq<char>) -> RouteView {
    match input.field("id"@) {
        None => RouteView::Ignore,
        Some(id) => {
            let method = text_or_empty(input.field("method"@));
            if method == "initialize"@ {
                let params = match input.field("params"@) {
                    Some(p) => p,
                    None => JsonView::Null,
                };
                RouteView::Reply(result_reply(id, server_info(params, name, version)))
            } else if method == "ping"@ {
                RouteView::Reply(result_reply(id, JsonView::Obj(Map::empty())))
            } else if method == "tools/list"@ || method == "tools/call"@ {
                RouteView::Forward
            } else {
                RouteView::Reply(error_reply(id, no_such_method(method)))
            }
        },
    }
}

/// Decides on one message.
pub fn route_message(input: &Json, name: &str, version: &str) -> (r: Route)
    ensures
        r@ == route_of(input@, name@, version@),
{
    let id = match input.get("id") {
        Some(id) => id.clone(),
        None => {
            return Route::Ignore;
        },
    };
    let method = input.text_of("method").unwrap_or("");
    if same(method, "initialize") {
        let reply = match input.get("params") {
            Some(p) => initialize_response(id, p, name, version),
            None => initialize_response(id, &Json::Null, name, version),
        };
        Route::Reply(reply)
    } else if same(method, "ping") {
        Route::Reply(finish_request(id, Ok(Json::Object(JsonObject::new()))))
    } else if same(method, "tools/list") || same(method, "tools/call") {
        Route::Forward
    } else {
        let message = cat("method not found: ", method);
        Route::Reply(error_response(id, -32601, message.as_str(), None))
    }
}

pub open spec fn opt_views(s: Seq<Option<Json>>) -> Seq<Option<JsonView>> {
    s.map_values(|v: Option<Json>| opt_view(v))
}

/// The answers that there are, in order.
pub open spec fn given(answers: Seq<Option<JsonView>>) -> Seq<JsonView>
    decreases answers.len(),
{
    if answers.len() == 0 {
        Seq::empty()
    } else {
        match answers.last() {
            Some(v) => given(answers.drop_last()).push(v),
            None => given(answers.drop_last()),
        }
    }
}

/// The answer to a batch: the answers to its messages in order, or none at all.
pub open spec fn batch_answer(answers: Seq<Option<JsonView>>) -> Option<JsonView> {
    if given(answers).len() == 0 {
        None
    } else {
        Some(JsonView::Arr(given(answers)))
    }
}

pub fn answer_batch(answers: Vec<Option<Json>>) -> (r: Option<Json>)
    ensures
        opt_view(r) == batch_answer(opt_views(answers@)),
{
    let ghost all = opt_views(answers@);
    let mut values: Vec<Json> = Vec::new();
    let mut i: usize = 0;
    assert(all.take(0) =~= Seq::empty());
    assert(crate::json::views(values@) =~= Seq::empty());
    while i < answers.len()
        invariant
            i <= answers@.len(),
            all == opt_views(answers@),
            crate::json::views(values@) == given(all.take(i as int)),
        decreases answers.len() - i,
    {
        assert(all.take(i + 1).drop_last() =~= all.take(i as int));
        assert(all.take(i + 1).last() == opt_view(answers@[i as int]));
        let ghost before = crate::json::views(values@);
        match &answers[i] {
            Some(v) => {
                let value = v.clone();
                values.push(value);
                assert(crate::json::views(values@) =~= before.push(value@));
            },
            None => {},
        }
        i = i + 1;
    }
    assert(all.take(i as int) =~= all);
    if values.len() == 0 {
        None
    } else {
        Some(Json::array(values))
    }
}

/// A notification gets no answer: a message without `id` is never replied to, and one with
/// an `id` that is answered at once is answered under it.
pub proof fn law_answers_carry_the_id(input: JsonView, name: Seq<char>, version: Seq<char>)
    ensures
        input.field("id"@) is None <==> route_of(input, name, version) == RouteView::Ignore,
        route_of(input, name, version) matches RouteView::Reply(v) ==> v.field("id"@)
            == input.field("id"@),
{
    reveal_strlit("id");
    reveal_strlit("jsonrpc");
    reveal_strlit("result");
    reveal_strlit("error");
    assert("id"@.len() == 2 && "jsonrpc"@.len() == 7 && "result"@.len() == 6 && "error"@.len()
        == 5);
}

/// What becomes of a text on a connection: a terminal registers, a message is handled, or
/// the text is refused.
#[derive(Debug)]
pub enum TextStep {
    Register(Json),
    Message(Json),
    Reply(Json),
}

pub open spec fn refusal(code: int, message: Seq<char>) -> JsonView {
    error_reply(JsonView::Null, JsonRpcErrorView { code, message, data: None })
}

/// Decides on a text, read as a value or not.
pub fn text_step(parsed: Result<Json, String>) -> (r: TextStep)
    ensures
        match parsed {
            Err(m) => r matches TextStep::Reply(v) && v@ == refusal(-32700, m@),
            Ok(value) => if is_register(value@) {
                r matches TextStep::Register(v) && v@ == value@
            } else {
                r matches TextStep::Message(v) && v@ == value@
            },
        },
{
    match parsed {
        Err(m) => TextStep::Reply(error_response(Json::Null, -32700, m.as_str(), None)),
        Ok(value) => if is_register_message(&value) {
            TextStep::Register(value)
        } else {
            TextStep::Message(value)
        },
    }
}

/// The answer to a terminal whose registration could not be read.
pub fn refuse_registration(message: &str) -> (r: Json)
    ensures
        r@ == refusal(-32602, message@),
{
    error_response(Json::Null, -32602, message, None)
}

} // verus!
