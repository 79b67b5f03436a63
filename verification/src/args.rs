//! What the arguments of a tool call ask for.

use vstd::prelude::*;

use crate::fields::filled_field;
use crate::fields::optional_string_field;
use crate::fields::optional_string_field2;
use crate::fields::or_else;
use crate::fields::or_text;
use crate::json::Json;
use crate::json::JsonView;
use crate::jsonrpc::bad_params;
use crate::jsonrpc::JsonRpcError;
use crate::jsonrpc::JsonRpcErrorView;
use crate::mcp::EXECUTOR_SESSION_PARAM;
use crate::refs::parse_hash_ref;
use crate::refs::target_of;
use crate::text::cat3;
use crate::text::opt_text;
use crate::text::same;

verus! {

/// The session of a call and the workspace that it works in.
#[derive(Debug, Clone, PartialEq, Eq)]
pub struct CallScope {
    pub session_id: String,
    pub workdir: String,
}

#[verifier::ext_equal]
pub ghost struct CallScopeView {
    pub session_id: Seq<char>,
    pub workdir: Seq<char>,
}

impl CallScope {
    pub open spec fn view(&self) -> CallScopeView {
        CallScopeView { session_id: self.session_id@, workdir: self.workdir@ }
    }

    pub fn copy(&self) -> (r: Self)
        ensures
            r@ == self@,
    {
        CallScope { session_id: self.session_id.clone(), workdir: self.workdir.clone() }
    }
}

// ---------------------------------------------------------------------------
// Executors
// ---------------------------------------------------------------------------

/// The value under `executor`, else that under `targetExecutor`.
pub open spec fn executor_value(arguments: JsonView) -> Option<JsonView> {
    match arguments.field("executor"@) {
        Some(v) => Some(v),
        None => arguments.field("targetExecutor"@),
    }
}

/// The executor that a call goes to.
pub open spec fn routed_executor(arguments: JsonView) -> Seq<char> {
    match executor_value(arguments) {
        Some(JsonView::Str(s)) => if s.len() > 0 {
            s
        } else {
            "local"@
        },
        _ => "local"@,
    }
}

/// The arguments without the member that names the executor.
pub open spec fn without_executor(arguments: JsonView) -> JsonView {
    match arguments.field("executor"@) {
        Some(_) => arguments.without("executor"@),
        None => arguments.without("targetExecutor"@),
    }
}

/// Takes the executor out of the arguments.
pub fn extract_executor(arguments: Json) -> (r: (String, Json))
    ensures
        r.0@ == routed_executor(arguments@),
        r.1@ == without_executor(arguments@),
{
    match arguments {
        Json::Object(object) => {
            let mut object = object;
            let ghost before = object@;
            let value = match object.remove("executor") {
                Some(v) => Some(v),
                None => {
                    assert(object@ =~= before);
                    object.remove("targetExecutor")
                },
            };
            let executor = match value {
                Some(Json::Str(s)) => if s.as_str().unicode_len() > 0 {
                    s
                } else {
                    "local".to_owned()
                },
                _ => "local".to_owned(),
            };
            (executor, Json::Object(object))
        },
        other => ("local".to_owned(), other),
    }
}

/// The executor that the arguments name as text.
pub open spec fn stated_executor(arguments: JsonView) -> Seq<char> {
    match executor_value(arguments) {
        Some(JsonView::Str(s)) => s,
        _ => "local"@,
    }
}

pub fn extract_executor_from_value(arguments: &Json) -> (r: String)
    ensures
        r@ == stated_executor(arguments@),
{
    let value = match arguments.get("executor") {
        Some(v) => Some(v),
        None => arguments.get("targetExecutor"),
    };
    match value {
        Some(Json::Str(s)) => s.clone(),
        _ => "local".to_owned(),
    }
}

/// The executor that the arguments are filled in with.
pub open spec fn requested_executor(arguments: JsonView) -> Option<Seq<char>> {
    or_else(filled_field(arguments, "executor"@), filled_field(arguments, "targetExecutor"@))
}

pub fn read_requested_executor(arguments: &Json) -> (r: Option<String>)
    ensures
        opt_text(r) == requested_executor(arguments@),
{
    optional_string_field2(arguments, "executor", "targetExecutor")
}

/// The arguments as an executor gets them: without the session and without the executor.
pub open spec fn executor_params(arguments: JsonView) -> JsonView {
    without_executor(arguments).without(EXECUTOR_SESSION_PARAM@).without("executor"@)
}

// ---------------------------------------------------------------------------
// Files
// ---------------------------------------------------------------------------

pub open spec fn is_binary_patch(arguments: JsonView) -> bool {
    filled_field(arguments, "patchMode"@) == Some("binary"@)
}

pub fn patches_binary(arguments: &Json) -> (r: bool)
    ensures
        r == is_binary_patch(arguments@),
{
    match optional_string_field(arguments, "patchMode") {
        Some(m) => same(m.as_str(), "binary"),
        None => false,
    }
}

/// A text patch must name its file by a label.
pub open spec fn patch_lacks_label(arguments: JsonView) -> bool {
    &&& filled_field(arguments, "mode"@) == Some("patch"@)
    &&& !is_binary_patch(arguments)
    &&& target_of(or_text(filled_field(arguments, "fileKey"@), Seq::empty())) is None
}

/// The message for a text patch that does not name its file by a label.
pub const PATCH_LABEL_MESSAGE: &'static str =
    "FileAction mode=patch requires fileKey to be a hashRef label from a prior read/FileAction result, such as `App.ts #A1B2`. Do not pass a direct file path for patch; call read first and pass the exact text inside <fileRef>...</fileRef>.";

pub fn require_patch_hash_ref(arguments: &Json) -> (r: Result<(), JsonRpcError>)
    ensures
        match r {
            Ok(_) => !patch_lacks_label(arguments@),
            Err(e) => patch_lacks_label(arguments@) && e@ == bad_params(PATCH_LABEL_MESSAGE@),
        },
{
    let is_patch = match optional_string_field(arguments, "mode") {
        Some(m) => same(m.as_str(), "patch"),
        None => false,
    };
    if !is_patch {
        return Ok(());
    }
    if patches_binary(arguments) {
        return Ok(());
    }
    let file_key = match optional_string_field(arguments, "fileKey") {
        Some(k) => k,
        None => String::new(),
    };
    assert(file_key@ == or_text(filled_field(arguments@, "fileKey"@), Seq::empty()));
    if parse_hash_ref(file_key.as_str()).is_some() {
        return Ok(());
    }
    Err(JsonRpcError::invalid_params(PATCH_LABEL_MESSAGE))
}

/// The arguments with the hash check on, unless they say something of it.
pub open spec fn with_hash_check(arguments: JsonView) -> JsonView {
    match arguments.field("hashCheckMode"@) {
        Some(_) => arguments,
        None => arguments.with("hashCheckMode"@, JsonView::Bool(true)),
    }
}

pub fn enable_hash_check_mode(arguments: Json) -> (r: Json)
    ensures
        r@ == with_hash_check(arguments@),
{
    if arguments.get("hashCheckMode").is_some() {
        arguments
    } else {
        arguments.with("hashCheckMode", Json::Bool(true))
    }
}

pub open spec fn without_hash_check(arguments: JsonView) -> JsonView {
    arguments.without("hashCheckMode"@).without("hashCode"@)
}

pub fn disable_hash_check_mode(arguments: Json) -> (r: Json)
    ensures
        r@ == without_hash_check(arguments@),
{
    arguments.without("hashCheckMode").without("hashCode")
}

// ---------------------------------------------------------------------------
// Shell tasks
// ---------------------------------------------------------------------------

/// The scope that is asked for; `spoe` is understood too.
pub open spec fn asked_scope(arguments: JsonView) -> Seq<char> {
    or_text(
        or_else(filled_field(arguments, "scope"@), filled_field(arguments, "spoe"@)),
        "local"@,
    )
}

pub open spec fn is_scope(scope: Seq<char>) -> bool {
    scope == "local"@ || scope == "workspace"@ || scope == "remote"@
}

pub open spec fn bad_scope(scope: Seq<char>) -> JsonRpcErrorView {
    bad_params(
        "invalid exbash scope: "@ + scope + "; expected local, workspace, or remote"@,
    )
}

pub fn extract_exbash_scope(arguments: &Json) -> (r: Result<String, JsonRpcError>)
    ensures
        match r {
            Ok(s) => s@ == asked_scope(arguments@) && is_scope(s@),
            Err(e) => !is_scope(asked_scope(arguments@)) && e@ == bad_scope(
                asked_scope(arguments@),
            ),
        },
{
    let scope = match optional_string_field2(arguments, "scope", "spoe") {
        Some(s) => s,
        None => "local".to_owned(),
    };
    if same(scope.as_str(), "local") || same(scope.as_str(), "workspace") || same(
        scope.as_str(),
        "remote",
    ) {
        Ok(scope)
    } else {
        let message = cat3(
            "invalid exbash scope: ",
            scope.as_str(),
            "; expected local, workspace, or remote",
        );
        Err(JsonRpcError::invalid_params(message.as_str()))
    }
}

/// The mode that is asked for: `shell` where there is none.
pub open spec fn asked_mode(arguments: JsonView) -> Seq<char> {
    or_text(filled_field(arguments, "mode"@), "shell"@)
}

pub fn read_mode(arguments: &Json) -> (r: String)
    ensures
        r@ == asked_mode(arguments@),
{
    match optional_string_field(arguments, "mode") {
        Some(m) => m,
        None => "shell".to_owned(),
    }
}

/// The arguments with `key` set to `value` where it is not filled in.
pub open spec fn with_default(arguments: JsonView, key: Seq<char>, value: Seq<char>) -> JsonView {
    match filled_field(arguments, key) {
        Some(_) => arguments,
        None => arguments.with(key, JsonView::Str(value)),
    }
}

pub fn fill_in(arguments: Json, key: &str, value: &str) -> (r: Json)
    ensures
        r@ == with_default(arguments@, key@, value@),
{
    if optional_string_field(&arguments, key).is_some() {
        arguments
    } else {
        arguments.with(key, Json::str(value))
    }
}

} // verus!
