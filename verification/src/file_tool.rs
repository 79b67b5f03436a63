//! The tools `read` and `FileAction`.

use vstd::prelude::*;

use crate::args::disable_hash_check_mode;
use crate::args::enable_hash_check_mode;
use crate::args::extract_executor_from_value;
use crate::args::is_binary_patch;
use crate::args::patch_lacks_label;
use crate::args::patches_binary;
use crate::args::require_patch_hash_ref;
use crate::args::stated_executor;
use crate::args::with_hash_check;
use crate::args::without_hash_check;
use crate::args::CallScope;
use crate::args::CallScopeView;
use crate::args::PATCH_LABEL_MESSAGE;
use crate::calls::answer_view;
use crate::calls::exec_begin;
use crate::calls::exec_next;
use crate::calls::unexpected;
use crate::calls::unexpected_error;
use crate::calls::Action;
use crate::calls::ActionView;
use crate::calls::Answer;
use crate::calls::AnswerView;
use crate::calls::Event;
use crate::calls::EventView;
use crate::calls::ExecCall;
use crate::calls::ExecCallView;
use crate::calls::Step;
use crate::calls::StepView;
use crate::fields::meta;
use crate::json::opt_string;
use crate::json::Json;
use crate::json::JsonObject;
use crate::json::JsonView;
use crate::jsonrpc::bad_params;
use crate::jsonrpc::failure;
use crate::jsonrpc::JsonRpcError;
use crate::kept_refs::kept_label;
use crate::mcp::text_answer;
use crate::mcp::text_result;
use crate::output::extract_output_text;
use crate::output::output_text;
use crate::output::strip_hash_code_lines;
use crate::output::strip_output;
use crate::output::stripped;
use crate::output::without_hash_lines;
use crate::refs::basename;
use crate::refs::extract_file_ref_update;
use crate::refs::inject_file_ref;
use crate::refs::injected_args;
use crate::refs::label_hash_ref;
use crate::refs::law_small_hash_is_four_digits;
use crate::refs::parse_hash_ref;
use crate::refs::small_hash_code;
use crate::refs::target_of;
use crate::refs::update_of;
use crate::text::joined;
use crate::text::lines_of;
use crate::text::opt_text;
use crate::text::same;
use crate::types::FileRefEntry;
use crate::types::FileRefUpdateView;
use crate::types::RecToolResult;

verus! {

/// What is done to a file: a read, or an action of some mode.
#[derive(Debug)]
pub struct FileOp {
    pub read: bool,
    pub mode: Option<String>,
}

#[verifier::ext_equal]
pub ghost struct FileOpView {
    pub read: bool,
    pub mode: Option<Seq<char>>,
}

impl FileOp {
    pub open spec fn view(&self) -> FileOpView {
        FileOpView {
            read: self.read,
            mode: opt_text(self.mode),
        }
    }
}

/// Where a call of a file tool stands: the key of the file is looked at, the reference is
/// resolved, the tool runs, a changed file is read back, the new state is kept.
#[derive(Debug)]
pub enum FileStage {
    IsHashRef { op: FileOp, file_key: String, arguments: Json },
    Resolve { op: FileOp, file_key: String, arguments: Json },
    Run { call: ExecCall, op: FileOp, executor: String },
    ReadBack { call: ExecCall, op: FileOp, executor: String, result: Json },
    Store { op: FileOp, value: Json },
}

#[verifier::ext_equal]
pub ghost enum FileStageView {
    IsHashRef { op: FileOpView, file_key: Seq<char>, arguments: JsonView },
    Resolve { op: FileOpView, file_key: Seq<char>, arguments: JsonView },
    Run { call: ExecCallView, op: FileOpView, executor: Seq<char> },
    ReadBack { call: ExecCallView, op: FileOpView, executor: Seq<char>, result: JsonView },
    Store { op: FileOpView, value: JsonView },
}

impl FileStage {
    pub open spec fn view(&self) -> FileStageView {
        match self {
            FileStage::IsHashRef { op, file_key, arguments } => FileStageView::IsHashRef {
                op: op@,
                file_key: file_key@,
                arguments: arguments@,
            },
            FileStage::Resolve { op, file_key, arguments } => FileStageView::Resolve {
                op: op@,
                file_key: file_key@,
                arguments: arguments@,
            },
            FileStage::Run { call, op, executor } => FileStageView::Run {
                call: call@,
                op: op@,
                executor: executor@,
            },
            FileStage::ReadBack { call, op, executor, result } => FileStageView::ReadBack {
                call: call@,
                op: op@,
                executor: executor@,
                result: result@,
            },
            FileStage::Store { op, value } => FileStageView::Store {
                op: op@,
                value: value@,
            },
        }
    }
}

pub type FileStep = Step<FileStage, Answer>;

pub type FileStepView = StepView<FileStageView, AnswerView>;

pub open spec fn file_step_view(s: FileStep) -> FileStepView {
    match s {
        Step::Ask(stage, a) => StepView::Ask(stage@, a@),
        Step::Done(r) => StepView::Done(answer_view(r)),
    }
}

// ---------------------------------------------------------------------------
// The end
// ---------------------------------------------------------------------------

/// A result whose text also shows the label of the file.
pub open spec fn with_label(value: JsonView, label: Option<Seq<char>>) -> JsonView {
    match (label, value.field2("output"@, "text"@)) {
        (Some(label), Some(JsonView::Str(existing))) => {
            let output = value.field("output"@)->0;
            value.with(
                "output"@,
                output.with(
                    "text"@,
                    JsonView::Str(existing + "\n<fileRef>"@ + label + "</fileRef>"@),
                ),
            )
        },
        _ => value,
    }
}

/// What a file tool answers: the text of the result, where a patch or a rename hides the
/// lines with hashes, and the rest of it.
pub open spec fn file_answer(
    op: FileOpView,
    value: JsonView,
    label: Option<Seq<char>>,
) -> AnswerView {
    let v = with_label(value, label);
    let text = if op.mode == Some("patch"@) || op.mode == Some("rename"@) {
        joined(without_hash_lines(lines_of(output_text(v))), "\n"@)
    } else {
        output_text(v)
    };
    Ok(text_answer(text, Some(stripped(v))))
}

fn add_label(value: Json, label: Option<String>) -> (r: Json)
    ensures
        r@ == with_label(value@, opt_text(label)),
{
    let text = match (&label, value.get2("output", "text")) {
        (Some(label), Some(Json::Str(existing))) => {
            Some(
                crate::text::cat4(
                    existing.as_str(),
                    "\n<fileRef>",
                    label.as_str(),
                    "</fileRef>",
                ),
            )
        },
        _ => None,
    };
    match text {
        Some(text) => {
            let output = match value.get("output") {
                Some(o) => o.clone(),
                None => Json::Null,
            };
            value.with("output", output.with("text", Json::Str(text)))
        },
        None => value,
    }
}

fn is_mode(op: &FileOp, mode: &str) -> (r: bool)
    ensures
        r == (op@.mode == Some(mode@)),
{
    match &op.mode {
        Some(m) => same(m.as_str(), mode),
        None => false,
    }
}

/// The end of a call of a file tool.
pub fn finish_file(op: &FileOp, value: Json, label: Option<String>) -> (r: Answer)
    ensures
        answer_view(r) == file_answer(op@, value@, opt_text(label)),
{
    let v = add_label(value, label);
    let raw = extract_output_text(&v);
    let text = if is_mode(op, "patch") || is_mode(op, "rename") {
        strip_hash_code_lines(raw.as_str())
    } else {
        raw
    };
    Ok(text_result(text.as_str(), Some(strip_output(v))))
}

// ---------------------------------------------------------------------------
// Keeping the state of the file
// ---------------------------------------------------------------------------

/// The file in a state that a result reports.
pub open spec fn reported_update(
    value: JsonView,
    executor: Seq<char>,
) -> Option<FileRefUpdateView> {
    match value {
        JsonView::Obj(_) => update_of(
            match value.field("metadata"@) {
                Some(m) => m,
                None => JsonView::Null,
            },
            executor,
        ),
        _ => None,
    }
}

/// A result that reports a file in a state has the host keep it; any other ends the
/// call.
pub open spec fn store_step(
    scope: CallScopeView,
    op: FileOpView,
    executor: Seq<char>,
    value: JsonView,
) -> FileStepView {
    match reported_update(value, executor) {
        Some(update) => StepView::Ask(
            FileStageView::Store { op, value },
            ActionView::StoreHashRef { session_id: scope.session_id, update },
        ),
        None => StepView::Done(file_answer(op, value, None)),
    }
}

fn store(scope: &CallScope, op: FileOp, executor: &str, value: Json) -> (r: FileStep)
    ensures
        file_step_view(r) == store_step(scope@, op@, executor@, value@),
{
    let update = match RecToolResult::from_json(&value) {
        Some(result) => extract_file_ref_update(&result, executor),
        None => None,
    };
    match update {
        Some(update) => Step::Ask(
            FileStage::Store { op, value },
            Action::StoreHashRef { session_id: scope.session_id.clone(), update },
        ),
        None => Step::Done(finish_file(&op, value, None)),
    }
}

/// The label of a file that is kept.
pub fn label_entry(entry: &FileRefEntry) -> (r: String)
    ensures
        r@ == kept_label(entry@),
{
    let filename = basename(entry.file_path.as_str());
    let small = small_hash_code(entry.file_key_ref.as_str(), entry.hash_code.as_str());
    proof {
        law_small_hash_is_four_digits(entry.file_key_ref@, entry.hash_code@);
    }
    label_hash_ref(filename.as_str(), small.as_str())
}

// ---------------------------------------------------------------------------
// Reading a changed file back
// ---------------------------------------------------------------------------

pub open spec fn file_meta(result: JsonView, field: Seq<char>) -> Option<JsonView> {
    result.field3("metadata"@, "file"@, field)
}

/// The path of the file that an action left behind; none after a deletion.
pub open spec fn changed_path(result: JsonView) -> Option<Seq<char>> {
    if opt_string(file_meta(result, "type"@)) == Some("delete"@) {
        None
    } else {
        let path = match file_meta(result, "newFilePath"@) {
            Some(v) => Some(v),
            None => match file_meta(result, "canonicalPath"@) {
                Some(v) => Some(v),
                None => file_meta(result, "filePath"@),
            },
        };
        match opt_string(path) {
            Some(p) => if p.len() > 0 {
                Some(p)
            } else {
                None
            },
            None => None,
        }
    }
}

pub fn read_changed_path(result: &Json) -> (r: Option<String>)
    ensures
        opt_text(r) == changed_path(result@),
{
    match result.get3("metadata", "file", "type") {
        Some(v) => match v.as_str() {
            Some(kind) => if same(kind, "delete") {
                return None;
            },
            None => {},
        },
        None => {},
    }
    let path = match result.get3("metadata", "file", "newFilePath") {
        Some(v) => Some(v),
        None => match result.get3("metadata", "file", "canonicalPath") {
            Some(v) => Some(v),
            None => result.get3("metadata", "file", "filePath"),
        },
    };
    match path {
        Some(Json::Str(p)) => if p.as_str().unicode_len() > 0 {
            Some(p.clone())
        } else {
            None
        },
        _ => None,
    }
}

/// The arguments with which a changed file is read back.
pub open spec fn read_back_arguments(path: Seq<char>, executor: Seq<char>) -> JsonView {
    JsonView::Obj(
        map![
            "filePath"@ => JsonView::Str(path),
            "executor"@ => JsonView::Str(executor),
            "hashCheckMode"@ => JsonView::Bool(true),
        ],
    )
}

/// A value with a member of its metadata set, where it has metadata.
pub open spec fn with_known_meta(
    v: JsonView,
    field: Seq<char>,
    data: Option<JsonView>,
) -> JsonView {
    match (v.field("metadata"@), data) {
        (Some(JsonView::Obj(m)), Some(data)) => v.with(
            "metadata"@,
            JsonView::Obj(m.insert(field, data)),
        ),
        _ => v,
    }
}

fn set_known_meta(v: Json, field: &str, data: Option<&Json>) -> (r: Json)
    ensures
        r@ == with_known_meta(v@, field@, crate::json::opt_ref_view(data)),
{
    let metadata = match (v.get("metadata"), data) {
        (Some(Json::Object(m)), Some(data)) => Some(m.clone().with(field, data.clone())),
        _ => None,
    };
    match metadata {
        Some(m) => v.with("metadata", Json::Object(m)),
        None => v,
    }
}

/// The result of an action with the hash and the file that the reader reports.
pub open spec fn refreshed(result: JsonView, read: JsonView) -> JsonView {
    with_known_meta(
        with_known_meta(result, "hashCode"@, meta(read, "hashCode"@)),
        "file"@,
        meta(read, "file"@),
    )
}

pub fn refresh(result: Json, read: &Json) -> (r: Json)
    ensures
        r@ == refreshed(result@, read@),
{
    let r = set_known_meta(result, "hashCode", read.get2("metadata", "hashCode"));
    set_known_meta(r, "file", read.get2("metadata", "file"))
}

/// After the tool: an action that left a file behind has it read back.
pub open spec fn ran_step(
    scope: CallScopeView,
    op: FileOpView,
    executor: Seq<char>,
    result: JsonView,
) -> FileStepView {
    match changed_path(result) {
        Some(path) => if op.read {
            store_step(scope, op, executor, result)
        } else {
            let (call, action) = exec_begin(scope, "read"@, read_back_arguments(path, executor));
            StepView::Ask(FileStageView::ReadBack { call, op, executor, result }, action)
        },
        None => store_step(scope, op, executor, result),
    }
}

fn ran(scope: &CallScope, op: FileOp, executor: String, result: Json) -> (r: FileStep)
    ensures
        file_step_view(r) == ran_step(scope@, op@, executor@, result@),
{
    if op.read {
        return store(scope, op, executor.as_str(), result);
    }
    match read_changed_path(&result) {
        Some(path) => {
            let arguments = JsonObject::new().with("filePath", Json::Str(path)).with(
                "executor",
                Json::Str(executor.clone()),
            ).with("hashCheckMode", Json::Bool(true));
            let (call, action) = ExecCall::begin(scope, "read", Json::Object(arguments));
            Step::Ask(FileStage::ReadBack { call, op, executor, result }, action)
        },
        None => store(scope, op, executor.as_str(), result),
    }
}

// ---------------------------------------------------------------------------
// Running the tool
// ---------------------------------------------------------------------------

/// The arguments of the tool: a read checks the hash, a binary patch does not.
pub open spec fn checked_arguments(op: FileOpView, args: JsonView) -> JsonView {
    if op.read {
        with_hash_check(args)
    } else if op.mode == Some("patch"@) && is_binary_patch(args) {
        without_hash_check(args)
    } else {
        args
    }
}

pub open spec fn tool_name(op: FileOpView) -> Seq<char> {
    if op.read {
        "read"@
    } else {
        "FileAction"@
    }
}

pub open spec fn run_step(scope: CallScopeView, op: FileOpView, args: JsonView) -> FileStepView {
    let a = checked_arguments(op, args);
    let (call, action) = exec_begin(scope, tool_name(op), a);
    StepView::Ask(FileStageView::Run { call, op, executor: stated_executor(a) }, action)
}

fn run(scope: &CallScope, op: FileOp, args: Json) -> (r: FileStep)
    ensures
        file_step_view(r) == run_step(scope@, op@, args@),
{
    let a = if op.read {
        enable_hash_check_mode(args)
    } else if is_mode(&op, "patch") && patches_binary(&args) {
        disable_hash_check_mode(args)
    } else {
        args
    };
    let executor = extract_executor_from_value(&a);
    let name = if op.read {
        "read"
    } else {
        "FileAction"
    };
    let (call, action) = ExecCall::begin(scope, name, a);
    Step::Ask(FileStage::Run { call, op, executor }, action)
}

// ---------------------------------------------------------------------------
// The start
// ---------------------------------------------------------------------------

/// The first step: a text patch without a label is refused; a file key is looked at; a
/// call without one runs at once.
pub open spec fn file_begin(scope: CallScopeView, read: bool, arguments: JsonView) -> FileStepView {
    let op = FileOpView {
        read,
        mode: if read {
            None
        } else {
            arguments.text_field("mode"@)
        },
    };
    if !read && patch_lacks_label(arguments) {
        StepView::Done(Err(bad_params(PATCH_LABEL_MESSAGE@)))
    } else {
        match arguments.text_field("fileKey"@) {
            Some(file_key) => StepView::Ask(
                FileStageView::IsHashRef {
                    op,
                    file_key,
                    arguments: arguments.without("fileKey"@),
                },
                ActionView::IsHashRef { target: file_key },
            ),
            None => run_step(scope, op, arguments.without("fileKey"@)),
        }
    }
}

pub fn begin_file(scope: &CallScope, read: bool, arguments: Json) -> (r: FileStep)
    ensures
        file_step_view(r) == file_begin(scope@, read, arguments@),
{
    let mode = if read {
        None
    } else {
        match arguments.text_of("mode") {
            Some(m) => Some(m.to_owned()),
            None => None,
        }
    };
    let op = FileOp { read, mode };
    if !read {
        match require_patch_hash_ref(&arguments) {
            Ok(_) => {},
            Err(e) => {
                return Step::Done(Err(e));
            },
        }
    }
    let file_key = match arguments.text_of("fileKey") {
        Some(k) => Some(k.to_owned()),
        None => None,
    };
    let rest = arguments.without("fileKey");
    match file_key {
        Some(file_key) => {
            let target = file_key.clone();
            Step::Ask(
                FileStage::IsHashRef { op, file_key, arguments: rest },
                Action::IsHashRef { target },
            )
        },
        None => run(scope, op, rest),
    }
}

/// The file name that a reference shows; the reference itself where it shows none.
pub open spec fn shown_name(file_key: Seq<char>) -> Seq<char> {
    match target_of(file_key) {
        Some(t) => t.filename,
        None => file_key,
    }
}

pub open spec fn file_next(
    stage: FileStageView,
    scope: CallScopeView,
    event: EventView,
) -> FileStepView {
    match stage {
        FileStageView::IsHashRef { op, file_key, arguments } => match event {
            EventView::Flag(true) => StepView::Ask(
                FileStageView::Resolve { op, file_key, arguments },
                ActionView::ResolveHashRef { session_id: scope.session_id, target: file_key },
            ),
            EventView::Flag(false) => run_step(
                scope,
                op,
                arguments.with("filePath"@, JsonView::Str(file_key)),
            ),
            _ => StepView::Done(Err(unexpected())),
        },
        FileStageView::Resolve { op, file_key, arguments } => match event {
            EventView::Entry(Ok(entry)) => run_step(
                scope,
                op,
                injected_args(arguments, Some(entry)),
            ),
            EventView::Entry(Err(e)) => if op.read {
                run_step(
                    scope,
                    op,
                    arguments.with("filePath"@, JsonView::Str(shown_name(file_key))),
                )
            } else {
                StepView::Done(Err(failure(e)))
            },
            _ => StepView::Done(Err(unexpected())),
        },
        FileStageView::Run { call, op, executor } => match exec_next(call, scope, event) {
            StepView::Ask(call, action) => StepView::Ask(
                FileStageView::Run { call, op, executor },
                action,
            ),
            StepView::Done(Ok(result)) => ran_step(scope, op, executor, result),
            StepView::Done(Err(e)) => StepView::Done(Err(e)),
        },
        FileStageView::ReadBack { call, op, executor, result } => match exec_next(
            call,
            scope,
            event,
        ) {
            StepView::Ask(call, action) => StepView::Ask(
                FileStageView::ReadBack { call, op, executor, result },
                action,
            ),
            StepView::Done(Ok(read)) => store_step(scope, op, executor, refreshed(result, read)),
            StepView::Done(Err(_)) => store_step(scope, op, executor, result),
        },
        FileStageView::Store { op, value } => match event {
            EventView::Entry(Ok(entry)) => StepView::Done(
                file_answer(op, value, Some(kept_label(entry))),
            ),
            EventView::Entry(Err(_)) => StepView::Done(file_answer(op, value, None)),
            _ => StepView::Done(Err(unexpected())),
        },
    }
}

impl FileStage {
    /// The step that follows an event.
    pub fn next(self, scope: &CallScope, event: Event) -> (r: FileStep)
        ensures
            file_step_view(r) == file_next(self@, scope@, event@),
    {
        match self {
            FileStage::IsHashRef { op, file_key, arguments } => match event {
                Event::Flag(yes) => if yes {
                    let target = file_key.clone();
                    Step::Ask(
                        FileStage::Resolve { op, file_key, arguments },
                        Action::ResolveHashRef { session_id: scope.session_id.clone(), target },
                    )
                } else {
                    run(scope, op, arguments.with("filePath", Json::Str(file_key)))
                },
                _ => Step::Done(Err(unexpected_error())),
            },
            FileStage::Resolve { op, file_key, arguments } => match event {
                Event::Entry(Ok(entry)) => {
                    let injection = inject_file_ref(&arguments, Some(&entry));
                    run(scope, op, injection.args)
                },
                Event::Entry(Err(e)) => if op.read {
                    let name = match parse_hash_ref(file_key.as_str()) {
                        Some(t) => t.filename,
                        None => file_key,
                    };
                    run(scope, op, arguments.with("filePath", Json::Str(name)))
                } else {
                    Step::Done(Err(JsonRpcError::internal(e.as_str())))
                },
                _ => Step::Done(Err(unexpected_error())),
            },
            FileStage::Run { call, op, executor } => match call.next(scope, event) {
                Step::Ask(call, action) => Step::Ask(FileStage::Run { call, op, executor }, action),
                Step::Done(Ok(result)) => ran(scope, op, executor, result),
                Step::Done(Err(e)) => Step::Done(Err(e)),
            },
            FileStage::ReadBack { call, op, executor, result } => match call.next(scope, event) {
                Step::Ask(call, action) => Step::Ask(
                    FileStage::ReadBack { call, op, executor, result },
                    action,
                ),
                Step::Done(Ok(read)) => store(scope, op, executor.as_str(), refresh(result, &read)),
                Step::Done(Err(_)) => store(scope, op, executor.as_str(), result),
            },
            FileStage::Store { op, value } => match event {
                Event::Entry(Ok(entry)) => {
                    let label = label_entry(&entry);
                    Step::Done(finish_file(&op, value, Some(label)))
                },
                Event::Entry(Err(_)) => Step::Done(finish_file(&op, value, None)),
                _ => Step::Done(Err(unexpected_error())),
            },
        }
    }
}

} // verus!
