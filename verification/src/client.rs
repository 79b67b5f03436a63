//! What a terminal asks of the server, and what it reads from the answers.

use vstd::prelude::*;

use crate::json::views;
use crate::json::Json;
use crate::json::JsonObject;
use crate::json::JsonView;
use crate::term_task::ExbashTask;
use crate::term_task::ExbashTaskView;
use crate::text::cat;
use crate::text::has_prefix;
use crate::text::low_hex_char;
use crate::text::opt_text;
use crate::text::same;
use crate::text::starts_with;

verus! {

// ---------------------------------------------------------------------------
// Requests
// ---------------------------------------------------------------------------

pub const ENDPOINT_MESSAGE: &'static str = "refs-ptyt requires a ws:// or wss:// REFS MCP endpoint";

pub const ARGUMENTS_MESSAGE: &'static str = "tool arguments must be an object";

pub const CLOSED_MESSAGE: &'static str = "REFS MCP WebSocket closed before responding";

pub const UNNAMED_ERROR: &'static str = "REFS MCP error";

/// The number that every request carries.
pub const REQUEST_ID: i128 = 1;

/// An address of the server, which speaks WebSocket.
#[derive(Debug, Clone, PartialEq, Eq)]
pub struct WsMcpEndpoint {
    pub url: String,
}

impl WsMcpEndpoint {
    pub fn parse(input: &str) -> (r: Result<Self, String>)
        ensures
            match r {
                Ok(endpoint) => endpoint.url@ == input@ && (has_prefix(input@, "ws://"@)
                    || has_prefix(input@, "wss://"@)),
                Err(e) => e@ == ENDPOINT_MESSAGE@ && !has_prefix(input@, "ws://"@) && !has_prefix(
                    input@,
                    "wss://"@,
                ),
            },
    {
        if starts_with(input, "ws://") || starts_with(input, "wss://") {
            Ok(WsMcpEndpoint { url: input.to_owned() })
        } else {
            Err(ENDPOINT_MESSAGE.to_owned())
        }
    }
}

/// The arguments of a call with the session and the wish for structured content.
pub open spec fn session_arguments(
    session: Seq<char>,
    arguments: Map<Seq<char>, JsonView>,
) -> JsonView {
    JsonView::Obj(
        arguments.insert("ExecutorSessionID"@, JsonView::Str(session)).insert(
            "includeStructuredContent"@,
            JsonView::Bool(true),
        ),
    )
}

/// The request that calls a tool.
pub open spec fn call_request(name: Seq<char>, arguments: JsonView) -> JsonView {
    JsonView::Obj(
        map![
            "jsonrpc"@ => JsonView::Str("2.0"@),
            "id"@ => JsonView::Int(REQUEST_ID as int),
            "method"@ => JsonView::Str("tools/call"@),
            "params"@ => JsonView::Obj(
                map!["name"@ => JsonView::Str(name), "arguments"@ => arguments],
            ),
        ],
    )
}

/// The request that calls a tool for a session; the arguments must be an object.
pub fn tool_request(session: &str, name: &str, arguments: Json) -> (r: Result<Json, String>)
    ensures
        match r {
            Ok(request) => arguments@ is Obj && request@ == call_request(
                name@,
                session_arguments(session@, arguments@->Obj_0),
            ),
            Err(e) => !(arguments@ is Obj) && e@ == ARGUMENTS_MESSAGE@,
        },
{
    match arguments {
        Json::Object(object) => {
            let arguments = object.with("ExecutorSessionID", Json::str(session)).with(
                "includeStructuredContent",
                Json::Bool(true),
            );
            let params = JsonObject::new().with("name", Json::str(name)).with(
                "arguments",
                Json::Object(arguments),
            );
            let request = JsonObject::new().with("jsonrpc", Json::str("2.0")).with(
                "id",
                Json::Int(REQUEST_ID),
            ).with("method", Json::str("tools/call")).with("params", Json::Object(params));
            Ok(Json::Object(request))
        },
        _ => Err(ARGUMENTS_MESSAGE.to_owned()),
    }
}

/// The message answers the request.
pub fn is_reply(response: &Json) -> (r: bool)
    ensures
        r == (response@.field("id"@) == Some(JsonView::Int(REQUEST_ID as int))),
{
    match response.get("id") {
        Some(id) => match id {
            Json::Int(n) => *n == REQUEST_ID,
            _ => false,
        },
        None => false,
    }
}

/// What an answer says: the message of an error, or the result, null where there is none.
pub open spec fn answer_of(response: JsonView) -> Result<JsonView, Seq<char>> {
    match response.field("error"@) {
        Some(error) => Err(
            match error.text_field("message"@) {
                Some(m) => m,
                None => UNNAMED_ERROR@,
            },
        ),
        None => Ok(
            match response.field("result"@) {
                Some(v) => v,
                None => JsonView::Null,
            },
        ),
    }
}

pub open spec fn answer_view(r: Result<Json, String>) -> Result<JsonView, Seq<char>> {
    match r {
        Ok(v) => Ok(v@),
        Err(e) => Err(e@),
    }
}

pub fn tool_outcome(response: &Json) -> (r: Result<Json, String>)
    ensures
        answer_view(r) == answer_of(response@),
{
    match response.get("error") {
        Some(error) => Err(
            match error.text_of("message") {
                Some(m) => m.to_owned(),
                None => UNNAMED_ERROR.to_owned(),
            },
        ),
        None => Ok(
            match response.get("result") {
                Some(v) => v.clone(),
                None => Json::Null,
            },
        ),
    }
}

/// A call carries the session of the terminal, whatever the arguments say.
pub proof fn law_calls_carry_the_session(
    session: Seq<char>,
    name: Seq<char>,
    arguments: Map<Seq<char>, JsonView>,
)
    ensures
        ({
            let request = call_request(name, session_arguments(session, arguments));
            let sent = request.field2("params"@, "arguments"@);
            &&& sent is Some
            &&& sent->0.text_field("ExecutorSessionID"@) == Some(session)
            &&& sent->0.field("includeStructuredContent"@) == Some(JsonView::Bool(true))
            &&& request.field("id"@) == Some(JsonView::Int(REQUEST_ID as int))
        }),
{
    reveal_strlit("jsonrpc");
    reveal_strlit("id");
    reveal_strlit("method");
    reveal_strlit("params");
    reveal_strlit("name");
    reveal_strlit("arguments");
    reveal_strlit("ExecutorSessionID");
    reveal_strlit("includeStructuredContent");
    assert("ExecutorSessionID"@.len() != "includeStructuredContent"@.len());
    assert("name"@.len() != "arguments"@.len());
    assert("jsonrpc"@.len() != "id"@.len() && "id"@.len() != "method"@.len() && "id"@.len()
        != "params"@.len());
    assert("params"@[0] != "method"@[0]);
}

// ---------------------------------------------------------------------------
// The calls of the terminal
// ---------------------------------------------------------------------------

pub open spec fn list_query(scope: Seq<char>) -> JsonView {
    JsonView::Obj(map!["mode"@ => JsonView::Str("list"@), "scope"@ => JsonView::Str(scope)])
}

/// The arguments that ask for the tasks of a scope.
pub fn list_arguments(scope: &str) -> (r: Json)
    ensures
        r@ == list_query(scope@),
{
    Json::Object(
        JsonObject::new().with("mode", Json::str("list")).with("scope", Json::str(scope)),
    )
}

pub open spec fn attach_query(task: ExbashTaskView) -> JsonView {
    JsonView::Obj(
        map![
            "mode"@ => JsonView::Str("attach"@),
            "asyncID"@ => JsonView::Str(task.async_id),
            "executor"@ => JsonView::Str(task.executor),
            "scope"@ => JsonView::Str(task.scope),
            "refsPtytResolve"@ => JsonView::Bool(true),
            "read_timeout"@ => JsonView::Int(0),
        ],
    )
}

/// The arguments that attach to a task without reading from it.
pub fn attach_arguments(task: &ExbashTask) -> (r: Json)
    ensures
        r@ == attach_query(task@),
{
    Json::Object(
        JsonObject::new().with("mode", Json::str("attach")).with(
            "asyncID",
            Json::str(task.async_id.as_str()),
        ).with("executor", Json::str(task.executor.as_str())).with(
            "scope",
            Json::str(task.scope.as_str()),
        ).with("refsPtytResolve", Json::Bool(true)).with("read_timeout", Json::Int(0)),
    )
}

/// The arguments that ask for the executors.
pub fn executors_arguments() -> (r: Json)
    ensures
        r@ == JsonView::Obj(map!["method"@ => JsonView::Str("list_executor"@)]),
{
    Json::Object(JsonObject::new().with("method", Json::str("list_executor")))
}

/// The executors that an answer lists.
pub open spec fn listed_executors(result: JsonView) -> Seq<JsonView> {
    let content = result.field("structuredContent"@);
    let found = match content {
        Some(c) => match c.field3("result"@, "metadata"@, "executors"@) {
            Some(v) => Some(v),
            None => c.field2("metadata"@, "executors"@),
        },
        None => None,
    };
    match found {
        Some(v) => match v.items() {
            Some(items) => items,
            None => Seq::empty(),
        },
        None => Seq::empty(),
    }
}

/// The address of the first executor of that name that has one.
pub open spec fn url_in(executors: Seq<JsonView>, executor: Seq<char>) -> Option<Seq<char>>
    decreases executors.len(),
{
    if executors.len() == 0 {
        None
    } else if executors[0].text_field("id"@) == Some(executor) && executors[0].text_field("url"@)
        is Some {
        executors[0].text_field("url"@)
    } else {
        url_in(executors.skip(1), executor)
    }
}

pub fn executor_url(result: &Json, executor: &str) -> (r: Option<String>)
    ensures
        opt_text(r) == url_in(listed_executors(result@), executor@),
{
    let found = match result.get("structuredContent") {
        Some(content) => match content.get3("result", "metadata", "executors") {
            Some(v) => Some(v),
            None => content.get2("metadata", "executors"),
        },
        None => None,
    };
    let items = match found {
        Some(v) => match v.as_array() {
            Some(items) => items,
            None => {
                return None;
            },
        },
        None => {
            return None;
        },
    };
    let ghost all = listed_executors(result@);
    assert(views(items@) == all);
    assert(all.skip(0) =~= all);
    let mut i: usize = 0;
    while i < items.len()
        invariant
            i <= items@.len(),
            views(items@) == all,
            all == listed_executors(result@),
            url_in(all, executor@) == url_in(all.skip(i as int), executor@),
        decreases items.len() - i,
    {
        assert(all.skip(i as int)[0] == items@[i as int]@);
        assert(all.skip(i as int).skip(1) =~= all.skip(i + 1));
        match items[i].text_of("id") {
            Some(id) => if same(id, executor) {
                match items[i].text_of("url") {
                    Some(url) => {
                        return Some(url.to_owned());
                    },
                    None => {},
                }
            },
            None => {},
        }
        i = i + 1;
    }
    assert(all.skip(i as int) =~= Seq::empty());
    None
}

/// Where a task is reached: the address of its executor.
pub fn attach_url(result: &Json, task: &ExbashTask) -> (r: Result<String, String>)
    ensures
        match (url_in(listed_executors(result@), task@.executor), r) {
            (Some(url), Ok(r)) => r@ == url,
            (None, Err(e)) => e@ == "executor URL not found: "@ + task@.executor,
            _ => false,
        },
{
    match executor_url(result, task.executor.as_str()) {
        Some(url) => Ok(url),
        None => Err(cat("executor URL not found: ", task.executor.as_str())),
    }
}

/// The message with which a terminal registers at the scheduler.
pub open spec fn registration(
    session: Seq<char>,
    slot_id: Seq<char>,
    schedulable: bool,
) -> JsonView {
    JsonView::Obj(
        map![
            "type"@ => JsonView::Str("refs-ptyt.register"@),
            "sessionID"@ => JsonView::Str(session),
            "slotID"@ => JsonView::Str(slot_id),
            "schedulable"@ => JsonView::Bool(schedulable),
        ],
    )
}

pub fn register_message(session: &str, slot_id: &str, schedulable: bool) -> (r: Json)
    ensures
        r@ == registration(session@, slot_id@, schedulable),
{
    Json::Object(
        JsonObject::new().with("type", Json::str("refs-ptyt.register")).with(
            "sessionID",
            Json::str(session),
        ).with("slotID", Json::str(slot_id)).with("schedulable", Json::Bool(schedulable)),
    )
}

// ---------------------------------------------------------------------------
// Names of terminals
// ---------------------------------------------------------------------------

fn low_hex_digit(n: u64) -> (r: char)
    requires
        n < 16,
    ensures
        r == low_hex_char(n as int),
{
    let n: u8 = n as u8;
    if n < 10 {
        (48 + n) as char
    } else {
        (97 + (n - 10)) as char
    }
}

/// The last `len` hexadecimal digits of a number.
pub open spec fn low_hex(n: int, len: nat) -> Seq<char>
    decreases len,
{
    if len == 0 {
        Seq::empty()
    } else {
        low_hex(n / 16, (len - 1) as nat).push(low_hex_char(n % 16))
    }
}

/// The name of a terminal with a number.
pub open spec fn client_name(n: u64) -> Seq<char> {
    "client-"@ + low_hex(n as int, 16)
}

fn write_low_hex(n: u64, len: usize) -> (r: String)
    ensures
        r@ == low_hex(n as int, len as nat),
    decreases len,
{
    if len == 0 {
        let r = String::new();
        assert(r@ =~= Seq::empty());
        r
    } else {
        let mut r = write_low_hex(n / 16, len - 1);
        r.push(low_hex_digit(n % 16));
        r
    }
}

pub fn client_id(n: u64) -> (r: String)
    ensures
        r@ == client_name(n),
{
    let digits = write_low_hex(n, 16);
    cat("client-", digits.as_str())
}

/// A random number from `rand::random`; any number may come.
#[verifier::external_body]
fn random_number() -> u64 {
    rand::random::<u64>()
}

/// A name for a terminal, with a random number.
pub fn random_client_id() -> (r: String)
    ensures
        exists|n: u64| r@ == #[trigger] client_name(n),
{
    let n: u64 = random_number();
    client_id(n)
}

/// Different numbers give different names.
pub proof fn law_names_differ(a: u64, b: u64)
    requires
        a != b,
    ensures
        client_name(a) != client_name(b),
{
    if client_name(a) == client_name(b) {
        let n = "client-"@.len() as int;
        assert(client_name(a).skip(n) =~= low_hex(a as int, 16));
        assert(client_name(b).skip(n) =~= low_hex(b as int, 16));
        reveal_with_fuel(sixteens, 17);
        lemma_low_hex_apart(a as int, b as int, 16);
    }
}

pub open spec fn sixteens(len: nat) -> int
    decreases len,
{
    if len == 0 {
        1
    } else {
        16 * sixteens((len - 1) as nat)
    }
}

proof fn lemma_low_hex_apart(a: int, b: int, len: nat)
    requires
        0 <= a < sixteens(len),
        0 <= b < sixteens(len),
        low_hex(a, len) == low_hex(b, len),
    ensures
        a == b,
    decreases len,
{
    if len > 0 {
        let m = (len - 1) as nat;
        assert(low_hex(a, len).drop_last() =~= low_hex(a / 16, m));
        assert(low_hex(b, len).drop_last() =~= low_hex(b / 16, m));
        assert(low_hex(a, len).last() == low_hex_char(a % 16));
        assert(low_hex(b, len).last() == low_hex_char(b % 16));
        lemma_low_hex_apart(a / 16, b / 16, m);
        assert(low_hex_char(a % 16) as int == low_hex_char(b % 16) as int);
        assert(a % 16 == b % 16);
    }
}

} // verus!
