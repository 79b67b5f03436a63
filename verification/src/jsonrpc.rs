//! JSON-RPC 2.0: what a request is answered.

use vstd::prelude::*;

use crate::json::opt_view;
use crate::json::views;
use crate::json::Json;
use crate::json::JsonObject;
use crate::json::JsonView;
use crate::text::cat;
use crate::text::same;

verus! {

/// A request as it was read; `jsonrpc` is `2.0` and `id` and `params` are null where the
/// request leaves them out.
#[derive(Debug)]
pub struct JsonRpcRequest {
    pub jsonrpc: String,
    pub id: Json,
    pub method: String,
    pub params: Json,
}

#[derive(Debug)]
pub struct JsonRpcErrorObject {
    pub code: i64,
    pub message: String,
    pub data: Option<Json>,
}

#[derive(Debug)]
pub struct JsonRpcResponse {
    pub jsonrpc: String,
    pub id: Json,
    pub result: Option<Json>,
    pub error: Option<JsonRpcErrorObject>,
}

#[derive(Debug)]
pub struct JsonRpcError {
    pub code: i64,
    pub message: String,
    pub data: Option<Json>,
}

#[verifier::ext_equal]
pub ghost struct JsonRpcErrorView {
    pub code: int,
    pub message: Seq<char>,
    pub data: Option<JsonView>,
}

impl JsonRpcErrorObject {
    pub open spec fn view(&self) -> JsonRpcErrorView {
        JsonRpcErrorView {
            code: self.code as int,
            message: self.message@,
            data: opt_view(self.data),
        }
    }
}

impl JsonRpcError {
    pub open spec fn view(&self) -> JsonRpcErrorView {
        JsonRpcErrorView {
            code: self.code as int,
            message: self.message@,
            data: opt_view(self.data),
        }
    }

    pub fn method_not_found(method: &str) -> (r: Self)
        ensures
            r@ == no_such_method(method@),
    {
        JsonRpcError { code: -32601, message: cat("method not found: ", method), data: None }
    }

    pub fn invalid_params(message: &str) -> (r: Self)
        ensures
            r@ == bad_params(message@),
    {
        JsonRpcError { code: -32602, message: message.to_owned(), data: None }
    }

    pub fn internal(message: &str) -> (r: Self)
        ensures
            r@ == failure(message@),
    {
        JsonRpcError { code: -32603, message: message.to_owned(), data: None }
    }
}

/// The error for a method that does not exist.
pub open spec fn no_such_method(method: Seq<char>) -> JsonRpcErrorView {
    JsonRpcErrorView { code: -32601, message: "method not found: "@ + method, data: None }
}

/// The error for arguments that cannot be served.
pub open spec fn bad_params(message: Seq<char>) -> JsonRpcErrorView {
    JsonRpcErrorView { code: -32602, message, data: None }
}

/// The error for a call that failed.
pub open spec fn failure(message: Seq<char>) -> JsonRpcErrorView {
    JsonRpcErrorView { code: -32603, message, data: None }
}

pub open spec fn outcome_view(r: Result<Json, JsonRpcError>) -> Result<JsonView, JsonRpcErrorView> {
    match r {
        Ok(v) => Ok(v@),
        Err(e) => Err(e@),
    }
}

// ---------------------------------------------------------------------------
// Responses
// ---------------------------------------------------------------------------

/// An error as a response carries it: `data` only where there is some.
pub open spec fn error_member(e: JsonRpcErrorView) -> JsonView {
    let base = map!["code"@ => JsonView::Int(e.code), "message"@ => JsonView::Str(e.message)];
    match e.data {
        Some(data) => JsonView::Obj(base.insert("data"@, data)),
        None => JsonView::Obj(base),
    }
}

/// The response to the request `id` that failed with `e`.
pub open spec fn error_reply(id: JsonView, e: JsonRpcErrorView) -> JsonView {
    JsonView::Obj(
        map!["jsonrpc"@ => JsonView::Str("2.0"@), "id"@ => id, "error"@ => error_member(e)],
    )
}

/// The response to the request `id` that came out as `result`.
pub open spec fn result_reply(id: JsonView, result: JsonView) -> JsonView {
    JsonView::Obj(map!["jsonrpc"@ => JsonView::Str("2.0"@), "id"@ => id, "result"@ => result])
}

/// A response with exactly the members that it has.
pub open spec fn response_value(r: JsonRpcResponse) -> JsonView {
    let head = map!["jsonrpc"@ => JsonView::Str(r.jsonrpc@), "id"@ => r.id@];
    let middle = match r.result {
        Some(result) => head.insert("result"@, result@),
        None => head,
    };
    match r.error {
        Some(e) => JsonView::Obj(middle.insert("error"@, error_member(e@))),
        None => JsonView::Obj(middle),
    }
}

impl JsonRpcErrorObject {
    pub fn into_json(self) -> (r: Json)
        ensures
            r@ == error_member(self@),
    {
        let mut object = JsonObject::new();
        object.insert("code", Json::Int(self.code as i128));
        object.insert("message", Json::Str(self.message));
        match self.data {
            Some(data) => object.insert("data", data),
            None => {},
        }
        Json::Object(object)
    }
}

impl JsonRpcResponse {
    pub fn into_json(self) -> (r: Json)
        ensures
            r@ == response_value(self),
    {
        let mut object = JsonObject::new();
        object.insert("jsonrpc", Json::Str(self.jsonrpc));
        object.insert("id", self.id);
        match self.result {
            Some(result) => object.insert("result", result),
            None => {},
        }
        match self.error {
            Some(error) => object.insert("error", error.into_json()),
            None => {},
        }
        Json::Object(object)
    }
}

pub fn version() -> (r: String)
    ensures
        r@ == "2.0"@,
{
    "2.0".to_owned()
}

pub fn error_response(id: Json, code: i64, message: &str, data: Option<Json>) -> (r: Json)
    ensures
        r@ == error_reply(
            id@,
            JsonRpcErrorView { code: code as int, message: message@, data: opt_view(data) },
        ),
{
    let error = JsonRpcErrorObject { code, message: message.to_owned(), data };
    let response = JsonRpcResponse { jsonrpc: version(), id, result: None, error: Some(error) };
    response.into_json()
}

/// The answer to bytes that are no JSON value.
pub fn parse_error_response(message: &str) -> (r: Json)
    ensures
        r@ == error_reply(
            JsonView::Null,
            JsonRpcErrorView { code: -32700, message: message@, data: None },
        ),
{
    error_response(Json::Null, -32700, message, None)
}

// ---------------------------------------------------------------------------
// Requests
// ---------------------------------------------------------------------------

/// What is to be answered: one request, or each of a batch in its order.
#[derive(Debug)]
pub enum Incoming {
    One(Json),
    Batch(Vec<Json>),
}

pub fn incoming(input: Json) -> (r: Incoming)
    ensures
        match r {
            Incoming::One(v) => v@ == input@ && !(input@ is Arr),
            Incoming::Batch(items) => input@ == JsonView::Arr(views(items@)),
        },
{
    match input {
        Json::Array(items) => {
            assert(input.view()->Arr_0 =~= views(items@));
            Incoming::Batch(items)
        },
        other => Incoming::One(other),
    }
}

/// What follows a request: a call of the handler, or the answer at once.
#[derive(Debug)]
pub enum RequestStep {
    Call { id: Json, method: String, params: Json },
    Reply(Json),
}

/// Decides on a request, or on the reason for which the input could not be read as one.
pub fn begin_request(parsed: Result<JsonRpcRequest, String>) -> (r: RequestStep)
    ensures
        match parsed {
            Err(message) => r matches RequestStep::Reply(v) && v@ == error_reply(
                JsonView::Null,
                JsonRpcErrorView { code: -32600, message: message@, data: None },
            ),
            Ok(q) => if q.jsonrpc@ == "2.0"@ {
                r matches RequestStep::Call { id, method, params } && id@ == q.id@ && method@
                    == q.method@ && params@ == q.params@
            } else {
                r matches RequestStep::Reply(v) && v@ == error_reply(
                    q.id@,
                    JsonRpcErrorView {
                        code: -32600,
                        message: "jsonrpc must be 2.0"@,
                        data: None,
                    },
                )
            },
        },
{
    match parsed {
        Err(message) => RequestStep::Reply(
            error_response(Json::Null, -32600, message.as_str(), None),
        ),
        Ok(request) => if same(request.jsonrpc.as_str(), "2.0") {
            RequestStep::Call { id: request.id, method: request.method, params: request.params }
        } else {
            RequestStep::Reply(error_response(request.id, -32600, "jsonrpc must be 2.0", None))
        },
    }
}

/// The response to the request `id`, once the handler has come to its outcome.
pub open spec fn reply(id: JsonView, outcome: Result<JsonView, JsonRpcErrorView>) -> JsonView {
    match outcome {
        Ok(result) => result_reply(id, result),
        Err(e) => error_reply(id, e),
    }
}

pub fn finish_request(id: Json, outcome: Result<Json, JsonRpcError>) -> (r: Json)
    ensures
        r@ == reply(id@, outcome_view(outcome)),
{
    match outcome {
        Ok(result) => {
            let response = JsonRpcResponse {
                jsonrpc: version(),
                id,
                result: Some(result),
                error: None,
            };
            response.into_json()
        },
        Err(error) => error_response(id, error.code, error.message.as_str(), error.data),
    }
}

/// A response always names the request that it answers and carries a result or an
/// error, never both.
pub proof fn law_reply_has_one_outcome(
    id: JsonView,
    outcome: Result<JsonView, JsonRpcErrorView>,
)
    ensures
        reply(id, outcome).field("id"@) == Some(id),
        reply(id, outcome).field("jsonrpc"@) == Some(JsonView::Str("2.0"@)),
        outcome matches Ok(v) ==> reply(id, outcome).field("result"@) == Some(v) && reply(
            id,
            outcome,
        ).field("error"@) is None,
        outcome matches Err(e) ==> reply(id, outcome).field("error"@) == Some(error_member(e))
            && reply(id, outcome).field("result"@) is None,
{
    reveal_strlit("id");
    reveal_strlit("jsonrpc");
    reveal_strlit("result");
    reveal_strlit("error");
    assert("id"@.len() == 2 && "jsonrpc"@.len() == 7 && "result"@.len() == 6 && "error"@.len()
        == 5);
}

} // verus!
