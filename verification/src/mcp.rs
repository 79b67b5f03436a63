//! The two methods of the tool protocol: listing the tools and calling one.

use vstd::prelude::*;

use crate::json::opt_string;
use crate::json::opt_view;
use crate::json::Json;
use crate::json::JsonObject;
use crate::json::JsonView;
use crate::jsonrpc::failure;
use crate::jsonrpc::no_such_method;
use crate::jsonrpc::JsonRpcError;
use crate::jsonrpc::JsonRpcErrorView;
use crate::text::eq_ignore_ascii_case;
use crate::text::lowered;
use crate::text::opt_text;
use crate::text::same;

verus! {

pub const EXECUTOR_SESSION_PARAM: &'static str = "ExecutorSessionID";

pub const INCLUDE_STRUCTURED_CONTENT_PARAM: &'static str = "includeStructuredContent";

#[derive(Debug, Clone, PartialEq, Eq)]
pub struct McpCallContext {
    pub executor_session_id: Option<String>,
    pub include_structured_content: bool,
}

#[verifier::ext_equal]
pub ghost struct McpCallContextView {
    pub executor_session_id: Option<Seq<char>>,
    pub include_structured_content: bool,
}

impl McpCallContext {
    pub open spec fn view(&self) -> McpCallContextView {
        McpCallContextView {
            executor_session_id: opt_text(self.executor_session_id),
            include_structured_content: self.include_structured_content,
        }
    }
}

impl Default for McpCallContext {
    fn default() -> (r: Self)
        ensures
            r.executor_session_id is None,
            !r.include_structured_content,
    {
        McpCallContext { executor_session_id: None, include_structured_content: false }
    }
}

#[derive(Debug, PartialEq)]
pub struct McpToolDef {
    pub name: String,
    pub description: Option<String>,
    pub input_schema: Json,
}

#[verifier::ext_equal]
pub ghost struct McpToolDefView {
    pub name: Seq<char>,
    pub description: Option<Seq<char>>,
    pub input_schema: JsonView,
}

impl McpToolDef {
    pub open spec fn view(&self) -> McpToolDefView {
        McpToolDefView {
            name: self.name@,
            description: opt_text(self.description),
            input_schema: self.input_schema@,
        }
    }
}

#[derive(Debug, PartialEq)]
pub struct McpContentText {
    pub kind: String,
    pub text: String,
}

#[verifier::ext_equal]
pub ghost struct McpContentTextView {
    pub kind: Seq<char>,
    pub text: Seq<char>,
}

impl McpContentText {
    pub open spec fn view(&self) -> McpContentTextView {
        McpContentTextView { kind: self.kind@, text: self.text@ }
    }
}

#[derive(Debug, PartialEq)]
pub struct McpCallResult {
    pub content: Vec<McpContentText>,
    pub structured_content: Option<Json>,
}

#[verifier::ext_equal]
pub ghost struct McpCallResultView {
    pub content: Seq<McpContentTextView>,
    pub structured_content: Option<JsonView>,
}

impl McpCallResult {
    pub open spec fn view(&self) -> McpCallResultView {
        McpCallResultView {
            content: self.content@.map_values(|c: McpContentText| c.view()),
            structured_content: opt_view(self.structured_content),
        }
    }
}

/// A result with one piece of text.
pub open spec fn text_answer(
    text: Seq<char>,
    structured_content: Option<JsonView>,
) -> McpCallResultView {
    McpCallResultView {
        content: seq![McpContentTextView { kind: "text"@, text }],
        structured_content,
    }
}

pub fn text_result(text: &str, structured_content: Option<Json>) -> (r: McpCallResult)
    ensures
        r@ == text_answer(text@, opt_view(structured_content)),
{
    let mut content: Vec<McpContentText> = Vec::new();
    content.push(McpContentText { kind: "text".to_owned(), text: text.to_owned() });
    let r = McpCallResult { content, structured_content };
    assert(r@.content =~= text_answer(text@, opt_view(structured_content)).content);
    r
}

// ---------------------------------------------------------------------------
// The context of a call
// ---------------------------------------------------------------------------

/// A flag given as a boolean or as text: text counts as true where it is `true` in any
/// letter case.
pub open spec fn flag_value(v: Option<JsonView>) -> Option<bool> {
    match v {
        Some(JsonView::Bool(b)) => Some(b),
        Some(JsonView::Str(s)) => Some(lowered(s) == lowered("true"@)),
        _ => None,
    }
}

pub fn read_flag(v: Option<Json>) -> (r: Option<bool>)
    ensures
        r == flag_value(opt_view(v)),
{
    match v {
        Some(Json::Bool(b)) => Some(b),
        Some(Json::Str(s)) => Some(eq_ignore_ascii_case(s.as_str(), "true")),
        _ => None,
    }
}

pub open spec fn flag_set(v: Option<JsonView>) -> bool {
    flag_value(v) == Some(true)
}

/// The context that the arguments of a call carry.
pub open spec fn context_of(arguments: JsonView) -> McpCallContextView {
    McpCallContextView {
        executor_session_id: opt_string(arguments.field(EXECUTOR_SESSION_PARAM@)),
        include_structured_content: flag_set(arguments.field(INCLUDE_STRUCTURED_CONTENT_PARAM@)),
    }
}

/// The arguments without the members that make up the context.
pub open spec fn arguments_of(arguments: JsonView) -> JsonView {
    arguments.without(EXECUTOR_SESSION_PARAM@).without(INCLUDE_STRUCTURED_CONTENT_PARAM@)
}

proof fn lemma_param_names()
    ensures
        EXECUTOR_SESSION_PARAM@ != INCLUDE_STRUCTURED_CONTENT_PARAM@,
{
    reveal_strlit("ExecutorSessionID");
    reveal_strlit("includeStructuredContent");
    assert(EXECUTOR_SESSION_PARAM@.len() == 17);
    assert(INCLUDE_STRUCTURED_CONTENT_PARAM@.len() == 24);
}

/// Takes the context out of the arguments of a call.
pub fn extract_context(arguments: &mut Json) -> (r: McpCallContext)
    ensures
        r@ == context_of(old(arguments)@),
        final(arguments)@ == arguments_of(old(arguments)@),
{
    proof {
        lemma_param_names();
    }
    let mut taken = Json::Null;
    std::mem::swap(&mut taken, arguments);
    match taken {
        Json::Object(object) => {
            let mut object = object;
            let session = object.remove(EXECUTOR_SESSION_PARAM);
            let executor_session_id = match session {
                Some(Json::Str(s)) => Some(s),
                _ => None,
            };
            let flag = object.remove(INCLUDE_STRUCTURED_CONTENT_PARAM);
            let include_structured_content = match read_flag(flag) {
                Some(b) => b,
                None => false,
            };
            *arguments = Json::Object(object);
            McpCallContext { executor_session_id, include_structured_content }
        },
        other => {
            *arguments = other;
            McpCallContext { executor_session_id: None, include_structured_content: false }
        },
    }
}

// ---------------------------------------------------------------------------
// Methods
// ---------------------------------------------------------------------------

/// What follows a method call: the list of the tools, the call of one, or an error.
#[derive(Debug)]
pub enum McpStep {
    ListTools,
    CallTool { name: String, arguments: Json, context: McpCallContext },
    Fail(JsonRpcError),
}

#[verifier::ext_equal]
pub ghost enum McpStepView {
    ListTools,
    CallTool { name: Seq<char>, arguments: JsonView, context: McpCallContextView },
    Fail(JsonRpcErrorView),
}

impl McpStep {
    pub open spec fn view(&self) -> McpStepView {
        match self {
            McpStep::ListTools => McpStepView::ListTools,
            McpStep::CallTool { name, arguments, context } => McpStepView::CallTool {
                name: name@,
                arguments: arguments@,
                context: context@,
            },
            McpStep::Fail(e) => McpStepView::Fail(e@),
        }
    }
}

/// The arguments of `tools/call`: an empty object where the request has none.
pub open spec fn call_arguments(params: JsonView) -> JsonView {
    match params.field("arguments"@) {
        Some(v) => v,
        None => JsonView::Obj(Map::empty()),
    }
}

pub open spec fn method_step(method: Seq<char>, params: JsonView) -> McpStepView {
    if method == "tools/list"@ {
        McpStepView::ListTools
    } else if method == "tools/call"@ {
        match params.text_field("name"@) {
            Some(name) => McpStepView::CallTool {
                name,
                arguments: arguments_of(call_arguments(params)),
                context: context_of(call_arguments(params)),
            },
            None => McpStepView::Fail(failure("tools/call params.name is required"@)),
        }
    } else {
        McpStepView::Fail(no_such_method(method))
    }
}

pub fn begin_method(method: &str, params: &Json) -> (r: McpStep)
    ensures
        r@ == method_step(method@, params@),
{
    if same(method, "tools/list") {
        McpStep::ListTools
    } else if same(method, "tools/call") {
        match params.text_of("name") {
            Some(name) => {
                let mut arguments = match params.get("arguments") {
                    Some(v) => v.clone(),
                    None => Json::Object(JsonObject::new()),
                };
                let context = extract_context(&mut arguments);
                McpStep::CallTool { name: name.to_owned(), arguments, context }
            },
            None => McpStep::Fail(JsonRpcError::internal("tools/call params.name is required")),
        }
    } else {
        McpStep::Fail(JsonRpcError::method_not_found(method))
    }
}

pub open spec fn tool_value(tool: McpToolDefView) -> JsonView {
    let head = map!["name"@ => JsonView::Str(tool.name)];
    let middle = match tool.description {
        Some(d) => head.insert("description"@, JsonView::Str(d)),
        None => head,
    };
    JsonView::Obj(middle.insert("inputSchema"@, tool.input_schema))
}

impl McpToolDef {
    pub fn to_json(&self) -> (r: Json)
        ensures
            r@ == tool_value(self@),
    {
        let mut object = JsonObject::new();
        object.insert("name", Json::Str(self.name.clone()));
        match &self.description {
            Some(d) => object.insert("description", Json::Str(d.clone())),
            None => {},
        }
        object.insert("inputSchema", self.input_schema.clone());
        Json::Object(object)
    }
}

/// The result of `tools/list`.
pub open spec fn tool_list(tools: Seq<McpToolDefView>) -> JsonView {
    JsonView::Obj(
        map!["tools"@ => JsonView::Arr(tools.map_values(|t: McpToolDefView| tool_value(t)))],
    )
}

pub open spec fn tool_views(tools: Seq<McpToolDef>) -> Seq<McpToolDefView> {
    tools.map_values(|t: McpToolDef| t.view())
}

pub fn tools_list_result(tools: &Vec<McpToolDef>) -> (r: Json)
    ensures
        r@ == tool_list(tool_views(tools@)),
{
    let mut values: Vec<Json> = Vec::new();
    let mut i: usize = 0;
    while i < tools.len()
        invariant
            i <= tools@.len(),
            values@.len() == i,
            forall|j: int| 0 <= j < i ==> (#[trigger] values@[j]).view() == tool_value(tools@[j]@),
        decreases tools.len() - i,
    {
        values.push(tools[i].to_json());
        i = i + 1;
    }
    let list = Json::array(values);
    assert(list@->Arr_0 =~= tool_views(tools@).map_values(|t: McpToolDefView| tool_value(t)));
    Json::Object(JsonObject::new().with("tools", list))
}

pub open spec fn content_value(c: McpContentTextView) -> JsonView {
    JsonView::Obj(map!["type"@ => JsonView::Str(c.kind), "text"@ => JsonView::Str(c.text)])
}

/// A result with exactly the members that it has.
pub open spec fn result_value(r: McpCallResultView) -> JsonView {
    let head = map![
        "content"@ => JsonView::Arr(r.content.map_values(|c: McpContentTextView| content_value(c))),
    ];
    match r.structured_content {
        Some(v) => JsonView::Obj(head.insert("structuredContent"@, v)),
        None => JsonView::Obj(head),
    }
}

impl McpCallResult {
    pub fn into_json(self) -> (r: Json)
        ensures
            r@ == result_value(self@),
    {
        let mut values: Vec<Json> = Vec::new();
        let mut i: usize = 0;
        while i < self.content.len()
            invariant
                i <= self.content@.len(),
                values@.len() == i,
                forall|j: int|
                    0 <= j < i ==> (#[trigger] values@[j]).view() == content_value(
                        self.content@[j]@,
                    ),
            decreases self.content.len() - i,
        {
            let item = JsonObject::new().with("type", Json::Str(self.content[i].kind.clone())).with(
                "text",
                Json::Str(self.content[i].text.clone()),
            );
            values.push(Json::Object(item));
            i = i + 1;
        }
        let list = Json::array(values);
        assert(list@->Arr_0 =~= self@.content.map_values(|c: McpContentTextView| content_value(c)));
        let mut object = JsonObject::new();
        object.insert("content", list);
        match self.structured_content {
            Some(v) => object.insert("structuredContent", v),
            None => {},
        }
        Json::Object(object)
    }
}

/// A result as it is handed out: the structured content only where it was asked for.
pub open spec fn shown(
    r: McpCallResultView,
    include_structured_content: bool,
) -> McpCallResultView {
    McpCallResultView {
        content: r.content,
        structured_content: if include_structured_content {
            r.structured_content
        } else {
            None
        },
    }
}

/// The result of `tools/call`.
pub fn tools_call_result(result: McpCallResult, include_structured_content: bool) -> (r: Json)
    ensures
        r@ == result_value(shown(result@, include_structured_content)),
{
    let mut result = result;
    if !include_structured_content {
        result.structured_content = None;
    }
    result.into_json()
}

/// Structured content is handed out exactly where the tool has some and the call asked
/// for it.
pub proof fn law_structured_content_only_on_request(
    r: McpCallResultView,
    include_structured_content: bool,
)
    ensures
        result_value(shown(r, include_structured_content)).field("structuredContent"@) == (
        if include_structured_content {
            r.structured_content
        } else {
            None
        }),
{
    reveal_strlit("structuredContent");
    reveal_strlit("content");
    assert("structuredContent"@.len() == 17 && "content"@.len() == 7);
}

/// A tool never sees the members of the arguments that make up the context.
pub proof fn law_context_is_taken_out(params: JsonView)
    ensures
        method_step("tools/call"@, params) matches McpStepView::CallTool { arguments, .. } ==> {
            &&& arguments.field(EXECUTOR_SESSION_PARAM@) is None
            &&& arguments.field(INCLUDE_STRUCTURED_CONTENT_PARAM@) is None
        },
{
    reveal_strlit("tools/list");
    reveal_strlit("tools/call");
    assert("tools/list"@[6] != "tools/call"@[6]);
}

} // verus!
