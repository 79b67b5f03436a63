//! The tool `skill`.

use vstd::prelude::*;

use crate::args::CallScope;
use crate::args::CallScopeView;
use crate::calls::answer_view;
use crate::calls::exec_begin;
use crate::calls::exec_next;
use crate::calls::Answer;
use crate::calls::AnswerView;
use crate::calls::Event;
use crate::calls::EventView;
use crate::calls::ExecCall;
use crate::calls::ExecCallView;
use crate::calls::Step;
use crate::calls::StepView;
use crate::fields::filled_field;
use crate::fields::optional_string_field;
use crate::fields::or_text;
use crate::json::opt_string;
use crate::json::Json;
use crate::json::JsonObject;
use crate::json::JsonView;
use crate::jsonrpc::bad_params;
use crate::jsonrpc::JsonRpcError;
use crate::mcp::text_answer;
use crate::mcp::text_result;
use crate::output::extract_output_text;
use crate::output::output_text;
use crate::output::text_or_empty;
use crate::skill::check_regex;
use crate::skill::dir_of;
use crate::skill::files_in;
use crate::skill::format_skill_list;
use crate::skill::format_skill_read;
use crate::skill::is_skill_file;
use crate::skill::join_names;
use crate::skill::parse_skill_info;
use crate::skill::plain_read_text;
use crate::skill::regex_refused;
use crate::skill::select_skills;
use crate::skill::selected;
use crate::skill::side_files;
use crate::skill::skill_dir;
use crate::skill::skill_files_from_glob;
use crate::skill::skill_list_text;
use crate::skill::skill_names;
use crate::skill::skill_of;
use crate::skill::skill_path_is_file;
use crate::skill::skill_read_text;
use crate::skill::skill_side_files;
use crate::skill::skill_target;
use crate::skill::skill_target_of;
use crate::skill::skill_views;
use crate::skill::unnumbered;
use crate::skill::SkillInfo;
use crate::skill::SkillInfoView;
use crate::skill::SkillTarget;
use crate::skill::SkillTargetView;
use crate::text::cat;
use crate::text::cat3;
use crate::text::joined;
use crate::text::lines_of;
use crate::text::same;
use crate::text::texts;

verus! {

/// What a call of `skill` asks for.
#[derive(Debug)]
pub struct SkillCall {
    pub mode: String,
    pub target: SkillTarget,
    pub pattern: String,
}

#[verifier::ext_equal]
pub ghost struct SkillCallView {
    pub mode: Seq<char>,
    pub target: SkillTargetView,
    pub pattern: Seq<char>,
}

impl SkillCall {
    pub open spec fn view(&self) -> SkillCallView {
        SkillCallView {
            mode: self.mode@,
            target: self.target@,
            pattern: self.pattern@,
        }
    }
}

/// Where a call of `skill` stands: the documents are looked for, read one by one, and the
/// files beside the chosen one are listed.
#[derive(Debug)]
pub enum SkillStage {
    Glob { call: ExecCall, sk: SkillCall },
    Read { call: ExecCall, sk: SkillCall, file: String, rest: Vec<String>, found: Vec<SkillInfo> },
    Summary { call: ExecCall, skill: SkillInfo },
}

#[verifier::ext_equal]
pub ghost enum SkillStageView {
    Glob { call: ExecCallView, sk: SkillCallView },
    Read {
        call: ExecCallView,
        sk: SkillCallView,
        file: Seq<char>,
        rest: Seq<Seq<char>>,
        found: Seq<SkillInfoView>,
    },
    Summary { call: ExecCallView, skill: SkillInfoView },
}

impl SkillStage {
    pub open spec fn view(&self) -> SkillStageView {
        match self {
            SkillStage::Glob { call, sk } => SkillStageView::Glob {
                call: call@,
                sk: sk@,
            },
            SkillStage::Read { call, sk, file, rest, found } => SkillStageView::Read {
                call: call@,
                sk: sk@,
                file: file@,
                rest: texts(rest@),
                found: skill_views(found@),
            },
            SkillStage::Summary { call, skill } => SkillStageView::Summary {
                call: call@,
                skill: skill@,
            },
        }
    }
}

pub type SkillStep = Step<SkillStage, Answer>;

pub type SkillStepView = StepView<SkillStageView, AnswerView>;

pub open spec fn skill_step_view(s: SkillStep) -> SkillStepView {
    match s {
        Step::Ask(stage, a) => StepView::Ask(stage@, a@),
        Step::Done(r) => StepView::Done(answer_view(r)),
    }
}

/// The arguments of a search for files.
pub open spec fn glob_arguments(
    executor: Seq<char>,
    path: Seq<char>,
    pattern: Seq<char>,
    timeout: int,
) -> JsonView {
    JsonView::Obj(
        map![
            "executor"@ => JsonView::Str(executor),
            "path"@ => JsonView::Str(path),
            "pattern"@ => JsonView::Str(pattern),
            "timeout"@ => JsonView::Int(timeout),
        ],
    )
}

fn write_glob_arguments(executor: &str, path: &str, pattern: &str, timeout: u32) -> (r: Json)
    ensures
        r@ == glob_arguments(executor@, path@, pattern@, timeout as int),
{
    Json::Object(
        JsonObject::new().with("executor", Json::str(executor)).with("path", Json::str(path)).with(
            "pattern",
            Json::str(pattern),
        ).with("timeout", Json::Int(timeout as i128)),
    )
}

/// The arguments with which a document is read.
pub open spec fn read_arguments(executor: Seq<char>, file: Seq<char>) -> JsonView {
    JsonView::Obj(
        map![
            "executor"@ => JsonView::Str(executor),
            "filePath"@ => JsonView::Str(file),
            "mode"@ => JsonView::Str("text"@),
            "limit"@ => JsonView::Int(20000),
        ],
    )
}

fn write_read_arguments(executor: &str, file: &str) -> (r: Json)
    ensures
        r@ == read_arguments(executor@, file@),
{
    Json::Object(
        JsonObject::new().with("executor", Json::str(executor)).with(
            "filePath",
            Json::str(file),
        ).with("mode", Json::str("text")).with("limit", Json::Int(20000)),
    )
}

/// The files that a search found.
pub open spec fn found_files(result: JsonView) -> Seq<Seq<char>> {
    files_in(lines_of(output_text(result)))
}

fn read_found_files(result: &Json) -> (r: Vec<String>)
    ensures
        texts(r@) == found_files(result@),
{
    let text = extract_output_text(result);
    skill_files_from_glob(text.as_str())
}

/// What follows once the skills that match are chosen, in order.
pub open spec fn chosen_step(
    scope: CallScopeView,
    sk: SkillCallView,
    skills: Seq<SkillInfoView>,
) -> SkillStepView {
    if sk.mode == "list"@ {
        StepView::Done(Ok(text_answer(skill_list_text(skills), None)))
    } else if sk.mode == "read"@ {
        if skills.len() == 0 {
            StepView::Done(Err(bad_params("skill not found"@)))
        } else if skills.len() > 1 {
            StepView::Done(
                Err(
                    bad_params(
                        "skill name regex matched multiple skills: "@ + joined(
                            skill_names(skills),
                            ", "@,
                        ),
                    ),
                ),
            )
        } else {
            let skill = skills[0];
            let dir = dir_of(skill.location);
            if dir.len() == 0 {
                StepView::Done(Ok(text_answer(skill_read_text(skill, Seq::empty()), None)))
            } else {
                let (call, action) = exec_begin(
                    scope,
                    "glob"@,
                    glob_arguments(sk.target.executor, dir, "**/*"@, 10000),
                );
                StepView::Ask(SkillStageView::Summary { call, skill }, action)
            }
        }
    } else {
        StepView::Done(
            Err(
                bad_params("invalid skill mode: "@ + sk.mode + "; expected list or read"@),
            ),
        )
    }
}

/// What follows once the skills that match are chosen, in order.
pub fn choose_skills(scope: &CallScope, sk: &SkillCall, skills: &Vec<SkillInfo>) -> (r: SkillStep)
    ensures
        skill_step_view(r) == chosen_step(scope@, sk@, skill_views(skills@)),
{
    if same(sk.mode.as_str(), "list") {
        let text = format_skill_list(skills);
        Step::Done(Ok(text_result(text.as_str(), None)))
    } else if same(sk.mode.as_str(), "read") {
        if skills.len() == 0 {
            return Step::Done(Err(JsonRpcError::invalid_params("skill not found")));
        }
        if skills.len() > 1 {
            let names = join_names(skills);
            let message = cat("skill name regex matched multiple skills: ", names.as_str());
            return Step::Done(Err(JsonRpcError::invalid_params(message.as_str())));
        }
        let skill = skills[0].copy();
        let dir = skill_dir(skill.location.as_str());
        if dir.as_str().unicode_len() == 0 {
            let none: Vec<String> = Vec::new();
            assert(texts(none@) =~= Seq::empty());
            let text = format_skill_read(&skill, &none);
            return Step::Done(Ok(text_result(text.as_str(), None)));
        }
        let arguments = write_glob_arguments(
            sk.target.executor.as_str(),
            dir.as_str(),
            "**/*",
            10000,
        );
        let (call, action) = ExecCall::begin(scope, "glob", arguments);
        Step::Ask(SkillStage::Summary { call, skill }, action)
    } else {
        let message = cat3("invalid skill mode: ", sk.mode.as_str(), "; expected list or read");
        Step::Done(Err(JsonRpcError::invalid_params(message.as_str())))
    }
}

/// The documents are read one by one; then the skills are chosen.
pub open spec fn read_step(
    scope: CallScopeView,
    sk: SkillCallView,
    files: Seq<Seq<char>>,
    found: Seq<SkillInfoView>,
) -> SkillStepView {
    if files.len() == 0 {
        chosen_step(scope, sk, selected(found, sk.pattern))
    } else {
        let (call, action) = exec_begin(
            scope,
            "read"@,
            read_arguments(sk.target.executor, files[0]),
        );
        StepView::Ask(
            SkillStageView::Read { call, sk, file: files[0], rest: files.drop_first(), found },
            action,
        )
    }
}

fn read_next(scope: &CallScope, sk: SkillCall, files: Vec<String>, found: Vec<SkillInfo>) -> (r:
    SkillStep)
    ensures
        skill_step_view(r) == read_step(scope@, sk@, texts(files@), skill_views(found@)),
{
    if files.len() == 0 {
        let skills = select_skills(&found, sk.pattern.as_str());
        choose_skills(scope, &sk, &skills)
    } else {
        let mut rest = files;
        let file = rest.remove(0);
        assert(texts(rest@) =~= texts(files@).drop_first());
        let arguments = write_read_arguments(sk.target.executor.as_str(), file.as_str());
        let (call, action) = ExecCall::begin(scope, "read", arguments);
        Step::Ask(SkillStage::Read { call, sk, file, rest, found }, action)
    }
}

/// The skill that the document `file` describes, as a reader shows it.
pub open spec fn skill_in(result: JsonView, file: Seq<char>) -> Option<SkillInfoView> {
    let location = or_text(
        opt_string(result.field3("metadata"@, "file"@, "canonicalPath"@)),
        file,
    );
    let text = text_or_empty(result.field2("output"@, "text"@));
    skill_of(joined(unnumbered(lines_of(text)), "\n"@), location)
}

pub fn read_skill(result: &Json, file: &str) -> (r: Option<SkillInfo>)
    ensures
        crate::skill::opt_skill(r) == skill_in(result@, file@),
{
    let path = match result.get3("metadata", "file", "canonicalPath") {
        Some(v) => v.as_str(),
        None => None,
    };
    let location = match path {
        Some(p) => p,
        None => file,
    };
    let text = result.text_of2("output", "text").unwrap_or("");
    let plain = plain_read_text(text);
    parse_skill_info(plain.as_str(), location)
}

/// The first step of a call.
pub open spec fn skill_begin(scope: CallScopeView, arguments: JsonView) -> SkillStepView {
    let mode = or_text(filled_field(arguments, "mode"@), "list"@);
    let name = filled_field(arguments, "name"@);
    match skill_target_of(arguments) {
        Err(e) => StepView::Done(Err(e)),
        Ok(target) => if mode == "read"@ && name is None {
            StepView::Done(Err(bad_params("skill mode=read requires name regex"@)))
        } else {
            let pattern = or_text(name, ".*"@);
            match regex_refused(pattern) {
                Some(m) => StepView::Done(
                    Err(bad_params("invalid skill name regex: "@ + m)),
                ),
                None => {
                    let sk = SkillCallView { mode, target, pattern };
                    if is_skill_file(target.path) {
                        read_step(scope, sk, seq![target.path], Seq::empty())
                    } else {
                        let (call, action) = exec_begin(
                            scope,
                            "glob"@,
                            glob_arguments(target.executor, target.path, "**/SKILL.md"@, 30000),
                        );
                        StepView::Ask(SkillStageView::Glob { call, sk }, action)
                    }
                },
            }
        },
    }
}

/// The start of a search for skills.
pub fn search_skills(scope: &CallScope, sk: SkillCall) -> (r: SkillStep)
    ensures
        skill_step_view(r) == (if is_skill_file(sk@.target.path) {
            read_step(scope@, sk@, seq![sk@.target.path], Seq::empty())
        } else {
            let (call, action) = exec_begin(
                scope@,
                "glob"@,
                glob_arguments(sk@.target.executor, sk@.target.path, "**/SKILL.md"@, 30000),
            );
            StepView::Ask(SkillStageView::Glob { call, sk: sk@ }, action)
        }),
{
    if skill_path_is_file(sk.target.path.as_str()) {
        let mut files: Vec<String> = Vec::new();
        files.push(sk.target.path.clone());
        let none: Vec<SkillInfo> = Vec::new();
        assert(texts(files@) =~= seq![sk@.target.path]);
        assert(skill_views(none@) =~= Seq::empty());
        read_next(scope, sk, files, none)
    } else {
        let arguments = write_glob_arguments(
            sk.target.executor.as_str(),
            sk.target.path.as_str(),
            "**/SKILL.md",
            30000,
        );
        let (call, action) = ExecCall::begin(scope, "glob", arguments);
        Step::Ask(SkillStage::Glob { call, sk }, action)
    }
}

pub fn begin_skill(scope: &CallScope, arguments: &Json) -> (r: SkillStep)
    ensures
        skill_step_view(r) == skill_begin(scope@, arguments@),
{
    let mode = match optional_string_field(arguments, "mode") {
        Some(m) => m,
        None => "list".to_owned(),
    };
    let target = match skill_target(arguments) {
        Ok(t) => t,
        Err(e) => {
            return Step::Done(Err(e));
        },
    };
    let name = optional_string_field(arguments, "name");
    if same(mode.as_str(), "read") && name.is_none() {
        return Step::Done(
            Err(JsonRpcError::invalid_params("skill mode=read requires name regex")),
        );
    }
    let pattern = match name {
        Some(n) => n,
        None => ".*".to_owned(),
    };
    match check_regex(pattern.as_str()) {
        Some(m) => {
            let message = cat("invalid skill name regex: ", m.as_str());
            return Step::Done(Err(JsonRpcError::invalid_params(message.as_str())));
        },
        None => {},
    }
    search_skills(scope, SkillCall { mode, target, pattern })
}

pub open spec fn skill_next(
    stage: SkillStageView,
    scope: CallScopeView,
    event: EventView,
) -> SkillStepView {
    match stage {
        SkillStageView::Glob { call, sk } => match exec_next(call, scope, event) {
            StepView::Ask(call, action) => StepView::Ask(SkillStageView::Glob { call, sk }, action),
            StepView::Done(Ok(result)) => read_step(scope, sk, found_files(result), Seq::empty()),
            StepView::Done(Err(e)) => StepView::Done(Err(e)),
        },
        SkillStageView::Read { call, sk, file, rest, found } => match exec_next(
            call,
            scope,
            event,
        ) {
            StepView::Ask(call, action) => StepView::Ask(
                SkillStageView::Read { call, sk, file, rest, found },
                action,
            ),
            StepView::Done(Ok(result)) => read_step(
                scope,
                sk,
                rest,
                match skill_in(result, file) {
                    Some(skill) => found.push(skill),
                    None => found,
                },
            ),
            StepView::Done(Err(e)) => StepView::Done(Err(e)),
        },
        SkillStageView::Summary { call, skill } => match exec_next(call, scope, event) {
            StepView::Ask(call, action) => StepView::Ask(
                SkillStageView::Summary { call, skill },
                action,
            ),
            StepView::Done(Ok(result)) => StepView::Done(
                Ok(text_answer(skill_read_text(skill, side_files(found_files(result))), None)),
            ),
            StepView::Done(Err(e)) => StepView::Done(Err(e)),
        },
    }
}

impl SkillStage {
    /// The step that follows an event.
    pub fn next(self, scope: &CallScope, event: Event) -> (r: SkillStep)
        ensures
            skill_step_view(r) == skill_next(self@, scope@, event@),
    {
        match self {
            SkillStage::Glob { call, sk } => match call.next(scope, event) {
                Step::Ask(call, action) => Step::Ask(SkillStage::Glob { call, sk }, action),
                Step::Done(Ok(result)) => {
                    let files = read_found_files(&result);
                    let none: Vec<SkillInfo> = Vec::new();
                    assert(skill_views(none@) =~= Seq::empty());
                    read_next(scope, sk, files, none)
                },
                Step::Done(Err(e)) => Step::Done(Err(e)),
            },
            SkillStage::Read { call, sk, file, rest, found } => match call.next(scope, event) {
                Step::Ask(call, action) => Step::Ask(
                    SkillStage::Read { call, sk, file, rest, found },
                    action,
                ),
                Step::Done(Ok(result)) => {
                    let mut found = found;
                    let ghost before = skill_views(found@);
                    match read_skill(&result, file.as_str()) {
                        Some(skill) => {
                            found.push(skill);
                            assert(skill_views(found@) =~= before.push(skill@));
                        },
                        None => {},
                    }
                    read_next(scope, sk, rest, found)
                },
                Step::Done(Err(e)) => Step::Done(Err(e)),
            },
            SkillStage::Summary { call, skill } => match call.next(scope, event) {
                Step::Ask(call, action) => Step::Ask(SkillStage::Summary { call, skill }, action),
                Step::Done(Ok(result)) => {
                    let files = skill_side_files(&read_found_files(&result));
                    let text = format_skill_read(&skill, &files);
                    Step::Done(Ok(text_result(text.as_str(), None)))
                },
                Step::Done(Err(e)) => Step::Done(Err(e)),
            },
        }
    }
}

} // verus!
