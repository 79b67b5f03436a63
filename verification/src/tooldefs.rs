//! The tools that are offered, and how their arguments are described.

use vstd::prelude::*;

use crate::json::text_array;
use crate::json::text_values;
use crate::json::Json;
use crate::json::JsonObject;
use crate::json::JsonView;
use crate::mcp::tool_views;
use crate::mcp::McpToolDef;
use crate::mcp::McpToolDefView;
use crate::mcp::EXECUTOR_SESSION_PARAM;
use crate::mcp::INCLUDE_STRUCTURED_CONTENT_PARAM;
use crate::text::same;
use crate::text::texts;

verus! {

// ---------------------------------------------------------------------------
// Schemas
// ---------------------------------------------------------------------------

pub open spec fn typed(kind: Seq<char>) -> Map<Seq<char>, JsonView> {
    map!["type"@ => JsonView::Str(kind)]
}

fn write_typed(kind: &str) -> (r: JsonObject)
    ensures
        r@ == typed(kind@),
{
    JsonObject::new().with("type", Json::str(kind))
}

pub open spec fn described(kind: Seq<char>, description: Seq<char>) -> Map<Seq<char>, JsonView> {
    typed(kind).insert("description"@, JsonView::Str(description))
}

fn write_described(kind: &str, description: &str) -> (r: JsonObject)
    ensures
        r@ == described(kind@, description@),
{
    write_typed(kind).with("description", Json::str(description))
}

pub open spec fn string_schema(description: Seq<char>) -> JsonView {
    JsonView::Obj(described("string"@, description))
}

pub fn string_prop(description: &str) -> (r: Json)
    ensures
        r@ == string_schema(description@),
{
    Json::Object(write_described("string", description))
}

pub open spec fn string_default_schema(description: Seq<char>, default: Seq<char>) -> JsonView {
    JsonView::Obj(described("string"@, description).insert("default"@, JsonView::Str(default)))
}

pub fn string_default(description: &str, default: &str) -> (r: Json)
    ensures
        r@ == string_default_schema(description@, default@),
{
    Json::Object(write_described("string", description).with("default", Json::str(default)))
}

pub open spec fn enum_schema(values: Seq<Seq<char>>) -> JsonView {
    JsonView::Obj(typed("string"@).insert("enum"@, text_array(values)))
}

pub fn string_enum_prop(values: &Vec<String>) -> (r: Json)
    ensures
        r@ == enum_schema(texts(values@)),
{
    Json::Object(write_typed("string").with("enum", text_values(values)))
}

pub open spec fn enum_default_schema(values: Seq<Seq<char>>, default: Seq<char>) -> JsonView {
    JsonView::Obj(
        typed("string"@).insert("enum"@, text_array(values)).insert(
            "default"@,
            JsonView::Str(default),
        ),
    )
}

pub fn string_enum_default(values: &Vec<String>, default: &str) -> (r: Json)
    ensures
        r@ == enum_default_schema(texts(values@), default@),
{
    Json::Object(
        write_typed("string").with("enum", text_values(values)).with("default", Json::str(default)),
    )
}

pub open spec fn enum_described_schema(
    description: Seq<char>,
    values: Seq<Seq<char>>,
    default: Seq<char>,
) -> JsonView {
    JsonView::Obj(
        described("string"@, description).insert("enum"@, text_array(values)).insert(
            "default"@,
            JsonView::Str(default),
        ),
    )
}

pub fn string_enum_default_desc(description: &str, values: &Vec<String>, default: &str) -> (r: Json)
    ensures
        r@ == enum_described_schema(description@, texts(values@), default@),
{
    Json::Object(
        write_described("string", description).with("enum", text_values(values)).with(
            "default",
            Json::str(default),
        ),
    )
}

pub open spec fn integer_schema(description: Seq<char>) -> JsonView {
    JsonView::Obj(described("integer"@, description))
}

pub fn integer_prop(description: &str) -> (r: Json)
    ensures
        r@ == integer_schema(description@),
{
    Json::Object(write_described("integer", description))
}

pub open spec fn boolean_schema(description: Seq<char>) -> JsonView {
    JsonView::Obj(described("boolean"@, description))
}

pub fn boolean_prop(description: &str) -> (r: Json)
    ensures
        r@ == boolean_schema(description@),
{
    Json::Object(write_described("boolean", description))
}

pub open spec fn boolean_default_schema(description: Seq<char>, default: bool) -> JsonView {
    JsonView::Obj(described("boolean"@, description).insert("default"@, JsonView::Bool(default)))
}

pub fn boolean_default(description: &str, default: bool) -> (r: Json)
    ensures
        r@ == boolean_default_schema(description@, default),
{
    Json::Object(write_described("boolean", description).with("default", Json::Bool(default)))
}

pub open spec fn string_list_schema(description: Seq<char>) -> JsonView {
    JsonView::Obj(
        described("array"@, description).insert("items"@, JsonView::Obj(typed("string"@))),
    )
}

pub fn array_string_desc(description: &str) -> (r: Json)
    ensures
        r@ == string_list_schema(description@),
{
    let items = Json::Object(write_typed("string"));
    Json::Object(write_described("array", description).with("items", items))
}

pub open spec fn object_schema(additional: Seq<char>) -> JsonView {
    JsonView::Obj(typed("object"@).insert("additionalProperties"@, JsonView::Obj(typed(additional))))
}

pub fn object_prop(additional: &str) -> (r: Json)
    ensures
        r@ == object_schema(additional@),
{
    let inner = Json::Object(write_typed(additional));
    Json::Object(write_typed("object").with("additionalProperties", inner))
}

pub const SESSION_DESCRIPTION: &'static str = "Session id; filled by the host system.";

pub const STRUCTURE_DESCRIPTION: &'static str =
    "Return structuredContent metadata in addition to plaintext content.";

pub open spec fn include_schema() -> JsonView {
    boolean_default_schema(STRUCTURE_DESCRIPTION@, false)
}

pub fn include_structured_content_schema() -> (r: Json)
    ensures
        r@ == include_schema(),
{
    boolean_default(STRUCTURE_DESCRIPTION, false)
}

// ---------------------------------------------------------------------------
// Tools
// ---------------------------------------------------------------------------

/// An argument and its schema.
#[derive(Debug, PartialEq)]
pub struct Prop {
    pub name: String,
    pub schema: Json,
}

#[verifier::ext_equal]
pub ghost struct PropView {
    pub name: Seq<char>,
    pub schema: JsonView,
}

impl Prop {
    pub open spec fn view(&self) -> PropView {
        PropView { name: self.name@, schema: self.schema@ }
    }
}

pub open spec fn prop_views(s: Seq<Prop>) -> Seq<PropView> {
    s.map_values(|p: Prop| p.view())
}

pub open spec fn prop_of(name: Seq<char>, schema: JsonView) -> PropView {
    PropView { name, schema }
}

pub fn prop(name: &str, schema: Json) -> (r: Prop)
    ensures
        r@ == prop_of(name@, schema@),
{
    Prop { name: name.to_owned(), schema }
}

pub open spec fn is_common(name: Seq<char>) -> bool {
    name == EXECUTOR_SESSION_PARAM@ || name == INCLUDE_STRUCTURED_CONTENT_PARAM@
}

/// The schemas of the arguments that are a tool's own.
pub open spec fn own_props(props: Seq<PropView>) -> Map<Seq<char>, JsonView>
    decreases props.len(),
{
    if props.len() == 0 {
        Map::empty()
    } else {
        let head = own_props(props.drop_last());
        if is_common(props.last().name) {
            head
        } else {
            head.insert(props.last().name, props.last().schema)
        }
    }
}

/// The tool works for a session.
pub open spec fn for_session(props: Seq<PropView>) -> bool {
    exists|i: int| 0 <= i < props.len() && (#[trigger] props[i]).name == EXECUTOR_SESSION_PARAM@
}

/// The schemas of all arguments: every tool can be asked for structured content.
pub open spec fn all_props(props: Seq<PropView>) -> Map<Seq<char>, JsonView> {
    let own = own_props(props).insert(INCLUDE_STRUCTURED_CONTENT_PARAM@, include_schema());
    if for_session(props) {
        own.insert(EXECUTOR_SESSION_PARAM@, string_schema(SESSION_DESCRIPTION@))
    } else {
        own
    }
}

pub open spec fn others(required: Seq<Seq<char>>) -> Seq<Seq<char>>
    decreases required.len(),
{
    if required.len() == 0 {
        Seq::empty()
    } else if required.last() == EXECUTOR_SESSION_PARAM@ {
        others(required.drop_last())
    } else {
        others(required.drop_last()).push(required.last())
    }
}

/// The arguments that are required: the session, where there is one, before all others.
pub open spec fn all_required(required: Seq<Seq<char>>, props: Seq<PropView>) -> Seq<Seq<char>> {
    if for_session(props) {
        seq![EXECUTOR_SESSION_PARAM@] + others(required)
    } else {
        required
    }
}

/// A tool and the schema of its arguments.
pub open spec fn tool_of(
    name: Seq<char>,
    description: Seq<char>,
    required: Seq<Seq<char>>,
    props: Seq<PropView>,
) -> McpToolDefView {
    McpToolDefView {
        name,
        description: Some(description),
        input_schema: JsonView::Obj(
            map![
                "type"@ => JsonView::Str("object"@),
                "required"@ => text_array(all_required(required, props)),
                "properties"@ => JsonView::Obj(all_props(props)),
            ],
        ),
    }
}

proof fn lemma_common_names()
    ensures
        EXECUTOR_SESSION_PARAM@ != INCLUDE_STRUCTURED_CONTENT_PARAM@,
{
    reveal_strlit("ExecutorSessionID");
    reveal_strlit("includeStructuredContent");
    assert(EXECUTOR_SESSION_PARAM@.len() == 17);
    assert(INCLUDE_STRUCTURED_CONTENT_PARAM@.len() == 24);
}

fn session_first(required: &Vec<String>) -> (r: Vec<String>)
    ensures
        texts(r@) == seq![EXECUTOR_SESSION_PARAM@] + others(texts(required@)),
{
    let ghost all = texts(required@);
    let mut r: Vec<String> = Vec::new();
    r.push(EXECUTOR_SESSION_PARAM.to_owned());
    let mut i: usize = 0;
    assert(all.take(0) =~= Seq::empty());
    assert(texts(r@) =~= seq![EXECUTOR_SESSION_PARAM@] + others(all.take(0)));
    while i < required.len()
        invariant
            i <= required@.len(),
            all == texts(required@),
            texts(r@) == seq![EXECUTOR_SESSION_PARAM@] + others(all.take(i as int)),
        decreases required.len() - i,
    {
        assert(all.take(i + 1).drop_last() =~= all.take(i as int));
        let ghost before = texts(r@);
        if !same(required[i].as_str(), EXECUTOR_SESSION_PARAM) {
            r.push(required[i].clone());
            assert(texts(r@) =~= before.push(required@[i as int]@));
        }
        i = i + 1;
        assert(texts(r@) =~= seq![EXECUTOR_SESSION_PARAM@] + others(all.take(i as int)));
    }
    assert(all.take(i as int) =~= all);
    r
}

pub fn tool_def(
    name: &str,
    description: &str,
    required: Vec<String>,
    properties: &Vec<Prop>,
) -> (r: McpToolDef)
    ensures
        r@ == tool_of(name@, description@, texts(required@), prop_views(properties@)),
{
    let ghost all = prop_views(properties@);
    let mut has_session = false;
    let mut props = JsonObject::new();
    let mut i: usize = 0;
    assert(all.take(0) =~= Seq::empty());
    while i < properties.len()
        invariant
            i <= properties@.len(),
            all == prop_views(properties@),
            props@ == own_props(all.take(i as int)),
            has_session == (exists|j: int|
                0 <= j < i && (#[trigger] all[j]).name == EXECUTOR_SESSION_PARAM@),
        decreases properties.len() - i,
    {
        proof {
            lemma_common_names();
            assert(all.take(i + 1).drop_last() =~= all.take(i as int));
            assert(all[i as int] == properties@[i as int]@);
        }
        if same(properties[i].name.as_str(), EXECUTOR_SESSION_PARAM) {
            has_session = true;
        } else if !same(properties[i].name.as_str(), INCLUDE_STRUCTURED_CONTENT_PARAM) {
            props.insert(properties[i].name.as_str(), properties[i].schema.clone());
        }
        i = i + 1;
    }
    assert(all.take(i as int) =~= all);
    props.insert(INCLUDE_STRUCTURED_CONTENT_PARAM, include_structured_content_schema());
    let mut required = required;
    if has_session {
        props.insert(EXECUTOR_SESSION_PARAM, string_prop(SESSION_DESCRIPTION));
        required = session_first(&required);
    }
    let schema = JsonObject::new().with("type", Json::str("object")).with(
        "required",
        text_values(&required),
    ).with("properties", Json::Object(props));
    McpToolDef {
        name: name.to_owned(),
        description: Some(description.to_owned()),
        input_schema: Json::Object(schema),
    }
}

/// A tool for a session requires the session and describes both common arguments.
pub proof fn law_session_is_required(
    name: Seq<char>,
    description: Seq<char>,
    required: Seq<Seq<char>>,
    props: Seq<PropView>,
)
    requires
        for_session(props),
    ensures
        all_required(required, props)[0] == EXECUTOR_SESSION_PARAM@,
        all_props(props)[EXECUTOR_SESSION_PARAM@] == string_schema(SESSION_DESCRIPTION@),
        all_props(props)[INCLUDE_STRUCTURED_CONTENT_PARAM@] == include_schema(),
        tool_of(name, description, required, props).input_schema.field("properties"@) == Some(
            JsonView::Obj(all_props(props)),
        ),
{
    lemma_common_names();
    reveal_strlit("type");
    reveal_strlit("required");
    reveal_strlit("properties");
    assert("type"@.len() == 4 && "required"@.len() == 8 && "properties"@.len() == 10);
}

pub open spec fn session_prop_view() -> PropView {
    prop_of(EXECUTOR_SESSION_PARAM@, string_schema(SESSION_DESCRIPTION@))
}

pub fn exec_session_prop() -> (r: Prop)
    ensures
        r@ == session_prop_view(),
{
    prop(EXECUTOR_SESSION_PARAM, string_prop(SESSION_DESCRIPTION))
}

pub open spec fn executor_prop_view() -> PropView {
    prop_of("executor"@, string_default_schema("Target executor id"@, "local"@))
}

pub fn executor_prop() -> (r: Prop)
    ensures
        r@ == executor_prop_view(),
{
    prop("executor", string_default("Target executor id", "local"))
}

fn one(a: &str) -> (r: Vec<String>)
    ensures
        texts(r@) == seq![a@],
{
    let mut r: Vec<String> = Vec::new();
    r.push(a.to_owned());
    assert(texts(r@) =~= seq![a@]);
    r
}

fn also(v: Vec<String>, s: &str) -> (r: Vec<String>)
    ensures
        texts(r@) == texts(v@).push(s@),
{
    let ghost before = texts(v@);
    let mut r = v;
    r.push(s.to_owned());
    assert(texts(r@) =~= before.push(s@));
    r
}

fn two(a: &str, b: &str) -> (r: Vec<String>)
    ensures
        texts(r@) == seq![a@, b@],
{
    let r = also(one(a), b);
    assert(texts(r@) =~= seq![a@, b@]);
    r
}

fn three(a: &str, b: &str, c: &str) -> (r: Vec<String>)
    ensures
        texts(r@) == seq![a@, b@, c@],
{
    let r = also(two(a, b), c);
    assert(texts(r@) =~= seq![a@, b@, c@]);
    r
}

fn four(a: &str, b: &str, c: &str, d: &str) -> (r: Vec<String>)
    ensures
        texts(r@) == seq![a@, b@, c@, d@],
{
    let r = also(three(a, b, c), d);
    assert(texts(r@) =~= seq![a@, b@, c@, d@]);
    r
}

fn six(a: &str, b: &str, c: &str, d: &str, e: &str, f: &str) -> (r: Vec<String>)
    ensures
        texts(r@) == seq![a@, b@, c@, d@, e@, f@],
{
    let r = also(also(four(a, b, c, d), e), f);
    assert(texts(r@) =~= seq![a@, b@, c@, d@, e@, f@]);
    r
}

pub const FILE_ACTION_DESCRIPTION: &'static str =
    "REC file action: patch, create, delete, or rename a file. For stale-safe edits, prefer the hashRef label returned by read/FileAction, e.g. `App.ts #A1B2`, as `fileKey`; this resolves the file and applies hash checking before the mutation.";

pub const FILE_ACTION_ARG_FILE_KEY: &'static str =
    "Direct path, REC file key, or hashRef label. If tool output contains `<fileRef>App.ts #A1B2</fileRef>`, pass the inner `App.ts #A1B2` value here.";

pub const FILE_ACTION_ARG_CONTENT: &'static str =
    "New file content for mode=create. With patchMode=binary, this is hex.";

pub const READ_DESCRIPTION: &'static str =
    "Read a file via REC. Accepts direct paths, REC file keys, and hashRef labels such as `filename #ABCD`. File reads may return `<fileRef>filename #ABCD</fileRef>`; use that inner label as `fileKey` for later read/FileAction calls to preserve file identity and hash safety.";

pub const READ_ARG_FILE_KEY: &'static str =
    "Direct path, REC file key, or hashRef label such as `App.ts #A1B2`. If a prior tool returned `<fileRef>...</fileRef>`, pass the inner label without XML tags.";

pub const READ_ARG_OFFSET: &'static str =
    "Start offset. Text: 1-based line. Binary: 0-based byte.";

pub const READ_ARG_LIMIT: &'static str =
    "Max items. Text: lines. Binary: bytes (max 128).";

pub const RG_DESCRIPTION: &'static str =
    "REC rg search. mode=content searches file contents and returns matching lines. mode=files matches file paths by glob pattern and returns paths. Search results are paths, not hashRefs; call `read` on a path first when a later edit should use a stale-safe `fileKey`.";

pub const RG_ARG_MODE: &'static str =
    "content: search file contents. files: match file paths by glob pattern.";

pub const RG_ARG_PATTERN: &'static str =
    "content mode: regex pattern to search for. files mode: glob pattern such as `*.rs` or `src/**/*.ts`.";

pub const RG_ARG_MAX_COUNT: &'static str =
    "Content mode maximum number of matches to return";

pub const EXBASH_DESCRIPTION: &'static str =
    "PTY-backed background terminal. `shell` is the default mode and should be used for normal terminal syntax, shell operators, environment expansion, scripts, and configured shell profiles. `run` directly starts a program by splitting `command` into executable + argv, without shell interpretation. If the command finishes within `read_timeout`, the tool returns the output immediately. If it keeps running, the tool returns a detached snapshot with `asyncID`; use `attach`, `list`, `stop`, or `remove` to manage that run later. Tracked task states are `running`, `exit:<code>`, `timeout`, or `stop`. Remote executor state is lazy-tracked: successful calls update matching tracked entries, failed remote calls leave stored state unchanged.";

pub const EXBASH_ARG_EXECUTOR: &'static str =
    "`run` and `shell` default to local when omitted. `list` defaults to all tracked executors when omitted. `scope=remote` requires a non-local executor and performs a live untracked-task query.";

pub const EXBASH_ARG_MODE: &'static str =
    "Operation selector. `shell` is the default terminal path. `run` directly starts a program and splits `command` into executable + argv without shell parsing.";

pub const EXBASH_ARG_SCOPE: &'static str =
    "Task tracking view for `list`, `run`, and `shell`. `local` tracks the current session; `workspace` tracks the current workdir; `remote` is only valid with `mode=list`, requires a non-local executor, and queries live remote tasks without changing stored tracking.";

pub const EXBASH_ARG_COMMAND: &'static str =
    "Command text. In `shell` mode it is sent to the configured shell profile. In `run` mode it is parsed as executable + argv and shell syntax is not interpreted.";

pub const EXBASH_ARG_SHELL: &'static str =
    "Shell profile name for `shell` mode. Empty or omitted uses the settings default.";

pub const EXBASH_ARG_DESCRIPTION: &'static str =
    "Optional display text for the run. The description is shown in run listings and detached snapshots.";

pub const EXBASH_ARG_TIMEOUT: &'static str =
    "Total lifetime timeout in milliseconds. Omit, 0, or -1 to leave the run unmanaged.";

pub const EXBASH_ARG_READ_TIMEOUT: &'static str =
    "How long to wait before returning. If the process is still running at timeout, the tool returns a detached snapshot with `asyncID`.";

pub const EXBASH_ARG_ASYNC_ID: &'static str =
    "Run id returned by detached `run` or `attach`; required for `attach`, `list`, `stop`, and `remove`.";

pub const EXBASH_ARG_TEXT: &'static str =
    "Text to write to PTY stdin in `attach` mode. Common escape sequences are interpreted.";

pub const EXBASH_ARG_FILE_PATH: &'static str =
    "File path for `attach` mode input. Mutually exclusive with `text`.";

pub const EXBASH_ARG_WORKDIR: &'static str =
    "Working directory for `run` and `shell` commands.";

pub const REMOTE_EXECUTOR_MANAGER_DESCRIPTION: &'static str =
    "Manage RemoteExecutor: list/connect executors, set default, list shell profiles.";

pub const REMOTE_EXECUTOR_MANAGER_ARG_SHELL: &'static str =
    "Shell profile name for set_executor_shell";

pub open spec fn file_action_props() -> Seq<PropView> {
    seq![
        session_prop_view(),
        executor_prop_view(),
        prop_of("mode"@, enum_schema(seq!["patch"@, "create"@, "delete"@, "rename"@])),
        prop_of("fileKey"@, string_schema(FILE_ACTION_ARG_FILE_KEY@)),
        prop_of("newFilePath"@, string_schema("Destination path for mode=rename"@)),
        prop_of("patchText"@, string_schema("REC patch text for mode=patch"@)),
        prop_of("content"@, string_schema(FILE_ACTION_ARG_CONTENT@)),
        prop_of("patchMode"@, enum_default_schema(seq!["text"@, "binary"@], "text"@)),
    ]
}

pub open spec fn file_action_tool() -> McpToolDefView {
    tool_of("FileAction"@, FILE_ACTION_DESCRIPTION@, seq!["mode"@], file_action_props())
}

pub fn file_action() -> (r: McpToolDef)
    ensures
        r@ == file_action_tool(),
{
    let mut props: Vec<Prop> = Vec::new();
    props.push(exec_session_prop());
    props.push(executor_prop());
    props.push(prop("mode", string_enum_prop(&four("patch", "create", "delete", "rename"))));
    props.push(prop("fileKey", string_prop(FILE_ACTION_ARG_FILE_KEY)));
    props.push(prop("newFilePath", string_prop("Destination path for mode=rename")));
    props.push(prop("patchText", string_prop("REC patch text for mode=patch")));
    props.push(prop("content", string_prop(FILE_ACTION_ARG_CONTENT)));
    props.push(prop("patchMode", string_enum_default(&two("text", "binary"), "text")));
    assert(prop_views(props@) =~= file_action_props());
    tool_def("FileAction", FILE_ACTION_DESCRIPTION, one("mode"), &props)
}

pub open spec fn read_props() -> Seq<PropView> {
    seq![
        session_prop_view(),
        executor_prop_view(),
        prop_of("fileKey"@, string_schema(READ_ARG_FILE_KEY@)),
        prop_of("mode"@, enum_default_schema(seq!["text"@, "binary"@], "text"@)),
        prop_of("offset"@, integer_schema(READ_ARG_OFFSET@)),
        prop_of("limit"@, integer_schema(READ_ARG_LIMIT@)),
    ]
}

pub open spec fn read_tool() -> McpToolDefView {
    tool_of("read"@, READ_DESCRIPTION@, seq!["fileKey"@], read_props())
}

pub fn read() -> (r: McpToolDef)
    ensures
        r@ == read_tool(),
{
    let mut props: Vec<Prop> = Vec::new();
    props.push(exec_session_prop());
    props.push(executor_prop());
    props.push(prop("fileKey", string_prop(READ_ARG_FILE_KEY)));
    props.push(prop("mode", string_enum_default(&two("text", "binary"), "text")));
    props.push(prop("offset", integer_prop(READ_ARG_OFFSET)));
    props.push(prop("limit", integer_prop(READ_ARG_LIMIT)));
    assert(prop_views(props@) =~= read_props());
    tool_def("read", READ_DESCRIPTION, one("fileKey"), &props)
}

pub open spec fn rg_props() -> Seq<PropView> {
    seq![
        session_prop_view(),
        executor_prop_view(),
        prop_of("mode"@, enum_described_schema(RG_ARG_MODE@, seq!["content"@, "files"@], "content"@)),
        prop_of("type"@, enum_described_schema("Alias for mode; prefer mode."@, seq!["content"@, "files"@], "content"@)),
        prop_of("pattern"@, string_schema(RG_ARG_PATTERN@)),
        prop_of("path"@, string_schema("Specific file or directory to search"@)),
        prop_of("globs"@, string_list_schema("Content mode file glob filters"@)),
        prop_of("case_sensitive"@, boolean_default_schema("Content mode case-sensitive matching"@, true)),
        prop_of("max_count"@, integer_schema(RG_ARG_MAX_COUNT@)),
    ]
}

pub open spec fn rg_tool() -> McpToolDefView {
    tool_of("rg"@, RG_DESCRIPTION@, seq!["pattern"@], rg_props())
}

pub fn rg() -> (r: McpToolDef)
    ensures
        r@ == rg_tool(),
{
    let mut props: Vec<Prop> = Vec::new();
    props.push(exec_session_prop());
    props.push(executor_prop());
    props.push(prop("mode", string_enum_default_desc(RG_ARG_MODE, &two("content", "files"), "content")));
    props.push(prop("type", string_enum_default_desc("Alias for mode; prefer mode.", &two("content", "files"), "content")));
    props.push(prop("pattern", string_prop(RG_ARG_PATTERN)));
    props.push(prop("path", string_prop("Specific file or directory to search")));
    props.push(prop("globs", array_string_desc("Content mode file glob filters")));
    props.push(prop("case_sensitive", boolean_default("Content mode case-sensitive matching", true)));
    props.push(prop("max_count", integer_prop(RG_ARG_MAX_COUNT)));
    assert(prop_views(props@) =~= rg_props());
    tool_def("rg", RG_DESCRIPTION, one("pattern"), &props)
}

pub open spec fn exbash_props() -> Seq<PropView> {
    seq![
        session_prop_view(),
        prop_of("executor"@, string_default_schema(EXBASH_ARG_EXECUTOR@, ""@)),
        prop_of("mode"@, enum_described_schema(EXBASH_ARG_MODE@, seq!["run"@, "shell"@, "attach"@, "list"@, "stop"@, "remove"@], "shell"@)),
        prop_of("scope"@, enum_described_schema(EXBASH_ARG_SCOPE@, seq!["local"@, "workspace"@, "remote"@], "local"@)),
        prop_of("command"@, string_schema(EXBASH_ARG_COMMAND@)),
        prop_of("shell"@, string_default_schema(EXBASH_ARG_SHELL@, "auto"@)),
        prop_of("description"@, string_schema(EXBASH_ARG_DESCRIPTION@)),
        prop_of("timeout"@, integer_schema(EXBASH_ARG_TIMEOUT@)),
        prop_of("read_timeout"@, integer_schema(EXBASH_ARG_READ_TIMEOUT@)),
        prop_of("asyncID"@, string_schema(EXBASH_ARG_ASYNC_ID@)),
        prop_of("text"@, string_schema(EXBASH_ARG_TEXT@)),
        prop_of("filePath"@, string_schema(EXBASH_ARG_FILE_PATH@)),
        prop_of("workdir"@, string_schema(EXBASH_ARG_WORKDIR@)),
        prop_of("showRawPretty"@, boolean_schema("Include raw PTY text in attach metadata."@)),
    ]
}

pub open spec fn exbash_tool() -> McpToolDefView {
    tool_of("exbash"@, EXBASH_DESCRIPTION@, Seq::empty(), exbash_props())
}

pub fn exbash() -> (r: McpToolDef)
    ensures
        r@ == exbash_tool(),
{
    let mut props: Vec<Prop> = Vec::new();
    props.push(exec_session_prop());
    props.push(prop("executor", string_default(EXBASH_ARG_EXECUTOR, "")));
    props.push(prop("mode", string_enum_default_desc(EXBASH_ARG_MODE, &six("run", "shell", "attach", "list", "stop", "remove"), "shell")));
    props.push(prop("scope", string_enum_default_desc(EXBASH_ARG_SCOPE, &three("local", "workspace", "remote"), "local")));
    props.push(prop("command", string_prop(EXBASH_ARG_COMMAND)));
    props.push(prop("shell", string_default(EXBASH_ARG_SHELL, "auto")));
    props.push(prop("description", string_prop(EXBASH_ARG_DESCRIPTION)));
    props.push(prop("timeout", integer_prop(EXBASH_ARG_TIMEOUT)));
    props.push(prop("read_timeout", integer_prop(EXBASH_ARG_READ_TIMEOUT)));
    props.push(prop("asyncID", string_prop(EXBASH_ARG_ASYNC_ID)));
    props.push(prop("text", string_prop(EXBASH_ARG_TEXT)));
    props.push(prop("filePath", string_prop(EXBASH_ARG_FILE_PATH)));
    props.push(prop("workdir", string_prop(EXBASH_ARG_WORKDIR)));
    props.push(prop("showRawPretty", boolean_prop("Include raw PTY text in attach metadata.")));
    assert(prop_views(props@) =~= exbash_props());
    let none: Vec<String> = Vec::new();
    assert(texts(none@) =~= Seq::empty());
    tool_def("exbash", EXBASH_DESCRIPTION, none, &props)
}

pub open spec fn remote_executor_manager_props() -> Seq<PropView> {
    seq![
        session_prop_view(),
        executor_prop_view(),
        prop_of("method"@, enum_schema(seq!["list_executor"@, "connect_to_executor"@, "list_shells"@, "set_executor_shell"@])),
        prop_of("id"@, string_schema("Executor ID"@)),
        prop_of("url"@, string_schema("WebSocket URL for connect_to_executor"@)),
        prop_of("system"@, string_schema("System label"@)),
        prop_of("device"@, string_schema("Device label"@)),
        prop_of("labels"@, object_schema("string"@)),
        prop_of("shell"@, string_default_schema(REMOTE_EXECUTOR_MANAGER_ARG_SHELL@, "auto"@)),
    ]
}

pub open spec fn remote_executor_manager_tool() -> McpToolDefView {
    tool_of("RemoteExecutorManager"@, REMOTE_EXECUTOR_MANAGER_DESCRIPTION@, seq!["method"@], remote_executor_manager_props())
}

pub fn remote_executor_manager() -> (r: McpToolDef)
    ensures
        r@ == remote_executor_manager_tool(),
{
    let mut props: Vec<Prop> = Vec::new();
    props.push(exec_session_prop());
    props.push(executor_prop());
    props.push(prop("method", string_enum_prop(&four("list_executor", "connect_to_executor", "list_shells", "set_executor_shell"))));
    props.push(prop("id", string_prop("Executor ID")));
    props.push(prop("url", string_prop("WebSocket URL for connect_to_executor")));
    props.push(prop("system", string_prop("System label")));
    props.push(prop("device", string_prop("Device label")));
    props.push(prop("labels", object_prop("string")));
    props.push(prop("shell", string_default(REMOTE_EXECUTOR_MANAGER_ARG_SHELL, "auto")));
    assert(prop_views(props@) =~= remote_executor_manager_props());
    tool_def("RemoteExecutorManager", REMOTE_EXECUTOR_MANAGER_DESCRIPTION, one("method"), &props)
}

/// The tools in the order in which they are listed.
pub open spec fn offered_tools() -> Seq<McpToolDefView> {
    seq![file_action_tool(), read_tool(), rg_tool(), exbash_tool(), remote_executor_manager_tool()]
}

pub fn all_tools() -> (r: Vec<McpToolDef>)
    ensures
        tool_views(r@) == offered_tools(),
{
    let mut r: Vec<McpToolDef> = Vec::new();
    r.push(file_action());
    r.push(read());
    r.push(rg());
    r.push(exbash());
    r.push(remote_executor_manager());
    assert(tool_views(r@) =~= offered_tools());
    r
}

/// Every tool that is offered works for a session.
pub proof fn law_every_tool_is_for_a_session()
    ensures
        for_session(file_action_props()),
        for_session(read_props()),
        for_session(rg_props()),
        for_session(exbash_props()),
        for_session(remote_executor_manager_props()),
{
    assert(file_action_props()[0].name == EXECUTOR_SESSION_PARAM@);
    assert(read_props()[0].name == EXECUTOR_SESSION_PARAM@);
    assert(rg_props()[0].name == EXECUTOR_SESSION_PARAM@);
    assert(exbash_props()[0].name == EXECUTOR_SESSION_PARAM@);
    assert(remote_executor_manager_props()[0].name == EXECUTOR_SESSION_PARAM@);
}

} // verus!
