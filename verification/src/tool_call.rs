//! A tool call from its arguments to its answer.
//!
//! A call is a sequence of steps. Each step asks the host or an executor for something
//! and says in which state the answer is awaited; the last one is the answer of the call.

use vstd::prelude::*;

use crate::args::asked_mode;
use crate::args::read_mode;
use crate::args::CallScope;
use crate::args::CallScopeView;
use crate::calls::answer_view;
use crate::calls::unexpected;
use crate::calls::unexpected_error;
use crate::calls::Action;
use crate::calls::ActionView;
use crate::calls::Answer;
use crate::calls::AnswerView;
use crate::calls::Event;
use crate::calls::EventView;
use crate::calls::Step;
use crate::calls::StepView;
use crate::file_tool::begin_file;
use crate::file_tool::file_begin;
use crate::file_tool::file_next;
use crate::file_tool::file_step_view;
use crate::file_tool::FileStage;
use crate::file_tool::FileStageView;
use crate::file_tool::FileStep;
use crate::file_tool::FileStepView;
use crate::list_tool::begin_list;
use crate::list_tool::list_begin;
use crate::list_tool::list_next;
use crate::list_tool::list_step_view;
use crate::list_tool::ListStage;
use crate::list_tool::ListStageView;
use crate::list_tool::ListStep;
use crate::list_tool::ListStepView;
use crate::exbash_tool::begin_exbash;
use crate::exbash_tool::exbash_begin;
use crate::exbash_tool::exbash_next;
use crate::exbash_tool::exbash_step_view;
use crate::exbash_tool::ExbashStage;
use crate::exbash_tool::ExbashStageView;
use crate::exbash_tool::ExbashStep;
use crate::exbash_tool::ExbashStepView;
use crate::skill_tool::begin_skill;
use crate::skill_tool::skill_begin;
use crate::skill_tool::skill_next;
use crate::skill_tool::skill_step_view;
use crate::skill_tool::SkillStage;
use crate::skill_tool::SkillStageView;
use crate::skill_tool::SkillStep;
use crate::skill_tool::SkillStepView;
use crate::rg_tool::begin_rg;
use crate::rg_tool::rg_begin;
use crate::rg_tool::rg_next;
use crate::rg_tool::rg_step_view;
use crate::rg_tool::RgStage;
use crate::rg_tool::RgStageView;
use crate::rg_tool::RgStep;
use crate::rg_tool::RgStepView;
use crate::manager_tool::begin_manager;
use crate::manager_tool::manager_begin;
use crate::manager_tool::manager_next;
use crate::manager_tool::manager_step_view;
use crate::manager_tool::ManagerStage;
use crate::manager_tool::ManagerStageView;
use crate::manager_tool::ManagerStep;
use crate::manager_tool::ManagerStepView;
use crate::fields::filled;
use crate::fields::is_blank;
use crate::json::Json;
use crate::json::JsonView;
use crate::jsonrpc::bad_params;
use crate::jsonrpc::failure;
use crate::jsonrpc::no_such_method;
use crate::jsonrpc::JsonRpcError;
use crate::mcp::McpCallContext;
use crate::mcp::McpCallContextView;
use crate::mcp::EXECUTOR_SESSION_PARAM;
use crate::text::cat;
use crate::text::cat4;
use crate::text::same;
use crate::text::trim;
use crate::text::trimmed;

verus! {

/// Where a tool call stands.
#[derive(Debug)]
pub enum ToolStage {
    Workdir { session_id: String, name: String, arguments: Json },
    File { scope: CallScope, stage: FileStage },
    List { scope: CallScope, stage: ListStage },
    Exbash { scope: CallScope, stage: ExbashStage },
    Skill { scope: CallScope, stage: SkillStage },
    Rg { scope: CallScope, stage: RgStage },
    Manager { scope: CallScope, stage: ManagerStage },
}

#[verifier::ext_equal]
pub ghost enum ToolStageView {
    Workdir { session_id: Seq<char>, name: Seq<char>, arguments: JsonView },
    File { scope: CallScopeView, stage: FileStageView },
    List { scope: CallScopeView, stage: ListStageView },
    Exbash { scope: CallScopeView, stage: ExbashStageView },
    Skill { scope: CallScopeView, stage: SkillStageView },
    Rg { scope: CallScopeView, stage: RgStageView },
    Manager { scope: CallScopeView, stage: ManagerStageView },
}

impl ToolStage {
    pub open spec fn view(&self) -> ToolStageView {
        match self {
            ToolStage::Workdir { session_id, name, arguments } => ToolStageView::Workdir {
                session_id: session_id@,
                name: name@,
                arguments: arguments@,
            },
            ToolStage::File { scope, stage } => ToolStageView::File {
                scope: scope@,
                stage: stage@,
            },
            ToolStage::List { scope, stage } => ToolStageView::List {
                scope: scope@,
                stage: stage@,
            },
            ToolStage::Exbash { scope, stage } => ToolStageView::Exbash {
                scope: scope@,
                stage: stage@,
            },
            ToolStage::Skill { scope, stage } => ToolStageView::Skill {
                scope: scope@,
                stage: stage@,
            },
            ToolStage::Rg { scope, stage } => ToolStageView::Rg {
                scope: scope@,
                stage: stage@,
            },
            ToolStage::Manager { scope, stage } => ToolStageView::Manager {
                scope: scope@,
                stage: stage@,
            },
        }
    }
}

pub type ToolStep = Step<ToolStage, Answer>;

pub type ToolStepView = StepView<ToolStageView, AnswerView>;

pub open spec fn tool_step_view(s: ToolStep) -> ToolStepView {
    match s {
        Step::Ask(stage, a) => StepView::Ask(stage@, a@),
        Step::Done(r) => StepView::Done(answer_view(r)),
    }
}

pub open spec fn as_file(scope: CallScopeView, step: FileStepView) -> ToolStepView {
    match step {
        StepView::Ask(stage, a) => StepView::Ask(ToolStageView::File { scope, stage }, a),
        StepView::Done(r) => StepView::Done(r),
    }
}

fn wrap_file(scope: CallScope, step: FileStep) -> (r: ToolStep)
    ensures
        tool_step_view(r) == as_file(scope@, file_step_view(step)),
{
    match step {
        Step::Ask(stage, a) => Step::Ask(ToolStage::File { scope, stage }, a),
        Step::Done(r) => Step::Done(r),
    }
}

pub open spec fn as_list(scope: CallScopeView, step: ListStepView) -> ToolStepView {
    match step {
        StepView::Ask(stage, a) => StepView::Ask(ToolStageView::List { scope, stage }, a),
        StepView::Done(r) => StepView::Done(r),
    }
}

fn wrap_list(scope: CallScope, step: ListStep) -> (r: ToolStep)
    ensures
        tool_step_view(r) == as_list(scope@, list_step_view(step)),
{
    match step {
        Step::Ask(stage, a) => Step::Ask(ToolStage::List { scope, stage }, a),
        Step::Done(r) => Step::Done(r),
    }
}

pub open spec fn as_exbash(scope: CallScopeView, step: ExbashStepView) -> ToolStepView {
    match step {
        StepView::Ask(stage, a) => StepView::Ask(ToolStageView::Exbash { scope, stage }, a),
        StepView::Done(r) => StepView::Done(r),
    }
}

fn wrap_exbash(scope: CallScope, step: ExbashStep) -> (r: ToolStep)
    ensures
        tool_step_view(r) == as_exbash(scope@, exbash_step_view(step)),
{
    match step {
        Step::Ask(stage, a) => Step::Ask(ToolStage::Exbash { scope, stage }, a),
        Step::Done(r) => Step::Done(r),
    }
}

pub open spec fn as_skill(scope: CallScopeView, step: SkillStepView) -> ToolStepView {
    match step {
        StepView::Ask(stage, a) => StepView::Ask(ToolStageView::Skill { scope, stage }, a),
        StepView::Done(r) => StepView::Done(r),
    }
}

fn wrap_skill(scope: CallScope, step: SkillStep) -> (r: ToolStep)
    ensures
        tool_step_view(r) == as_skill(scope@, skill_step_view(step)),
{
    match step {
        Step::Ask(stage, a) => Step::Ask(ToolStage::Skill { scope, stage }, a),
        Step::Done(r) => Step::Done(r),
    }
}

pub open spec fn as_rg(scope: CallScopeView, step: RgStepView) -> ToolStepView {
    match step {
        StepView::Ask(stage, a) => StepView::Ask(ToolStageView::Rg { scope, stage }, a),
        StepView::Done(r) => StepView::Done(r),
    }
}

fn wrap_rg(scope: CallScope, step: RgStep) -> (r: ToolStep)
    ensures
        tool_step_view(r) == as_rg(scope@, rg_step_view(step)),
{
    match step {
        Step::Ask(stage, a) => Step::Ask(ToolStage::Rg { scope, stage }, a),
        Step::Done(r) => Step::Done(r),
    }
}

pub open spec fn as_manager(scope: CallScopeView, step: ManagerStepView) -> ToolStepView {
    match step {
        StepView::Ask(stage, a) => StepView::Ask(ToolStageView::Manager { scope, stage }, a),
        StepView::Done(r) => StepView::Done(r),
    }
}

fn wrap_manager(scope: CallScope, step: ManagerStep) -> (r: ToolStep)
    ensures
        tool_step_view(r) == as_manager(scope@, manager_step_view(step)),
{
    match step {
        Step::Ask(stage, a) => Step::Ask(ToolStage::Manager { scope, stage }, a),
        Step::Done(r) => Step::Done(r),
    }
}

/// The first step: every call belongs to a session, whose workspace is asked for.
pub open spec fn tool_begin(
    name: Seq<char>,
    arguments: JsonView,
    context: McpCallContextView,
) -> ToolStepView {
    match filled(context.executor_session_id) {
        Some(session_id) => StepView::Ask(
            ToolStageView::Workdir { session_id, name, arguments },
            ActionView::SessionWorkdir { session_id },
        ),
        None => StepView::Done(Err(bad_params(EXECUTOR_SESSION_PARAM@ + " is required"@))),
    }
}

/// Starts a tool call.
pub fn begin_tool(name: &str, arguments: Json, context: &McpCallContext) -> (r: ToolStep)
    ensures
        tool_step_view(r) == tool_begin(name@, arguments@, context@),
{
    let session = match &context.executor_session_id {
        Some(s) => {
            let t = trim(s.as_str());
            if t.as_str().unicode_len() > 0 {
                Some(t)
            } else {
                None
            }
        },
        None => None,
    };
    match session {
        Some(session_id) => {
            let id = session_id.clone();
            Step::Ask(
                ToolStage::Workdir { session_id, name: name.to_owned(), arguments },
                Action::SessionWorkdir { session_id: id },
            )
        },
        None => {
            let message = cat(EXECUTOR_SESSION_PARAM, " is required");
            Step::Done(Err(JsonRpcError::invalid_params(message.as_str())))
        },
    }
}

/// The first step of each tool.
pub open spec fn dispatched(
    scope: CallScopeView,
    name: Seq<char>,
    arguments: JsonView,
) -> ToolStepView {
    if name == "FileAction"@ {
        as_file(scope, file_begin(scope, false, arguments))
    } else if name == "read"@ {
        as_file(scope, file_begin(scope, true, arguments))
    } else if name == "exbash"@ {
        if asked_mode(arguments) == "list"@ {
            as_list(scope, list_begin(scope, arguments))
        } else {
            as_exbash(scope, exbash_begin(scope, arguments))
        }
    } else if name == "skill"@ {
        as_skill(scope, skill_begin(scope, arguments))
    } else if name == "rg"@ {
        as_rg(scope, rg_begin(scope, arguments))
    } else if name == "RemoteExecutorManager"@ {
        as_manager(scope, manager_begin(scope, arguments))
    } else {
        StepView::Done(Err(no_such_method(name)))
    }
}

pub fn dispatch(scope: CallScope, name: &str, arguments: Json) -> (r: ToolStep)
    ensures
        tool_step_view(r) == dispatched(scope@, name@, arguments@),
{
    if same(name, "FileAction") {
        let step = begin_file(&scope, false, arguments);
        wrap_file(scope, step)
    } else if same(name, "read") {
        let step = begin_file(&scope, true, arguments);
        wrap_file(scope, step)
    } else if same(name, "exbash") {
        if same(read_mode(&arguments).as_str(), "list") {
            let step = begin_list(&scope, &arguments);
            wrap_list(scope, step)
        } else {
            let step = begin_exbash(&scope, arguments);
            wrap_exbash(scope, step)
        }
    } else if same(name, "skill") {
        let step = begin_skill(&scope, &arguments);
        wrap_skill(scope, step)
    } else if same(name, "rg") {
        let step = begin_rg(&scope, arguments);
        wrap_rg(scope, step)
    } else if same(name, "RemoteExecutorManager") {
        let step = begin_manager(&scope, arguments);
        wrap_manager(scope, step)
    } else {
        Step::Done(Err(JsonRpcError::method_not_found(name)))
    }
}

/// The step that follows an event at the time `now`.
pub open spec fn tool_next(stage: ToolStageView, event: EventView, now: i64) -> ToolStepView {
    match stage {
        ToolStageView::Workdir { session_id, name, arguments } => match event {
            EventView::Text(Ok(workdir)) => if trimmed(workdir).len() == 0 {
                StepView::Done(
                    Err(
                        failure(
                            "workdir not found for "@ + EXECUTOR_SESSION_PARAM@ + "="@ + session_id,
                        ),
                    ),
                )
            } else {
                dispatched(CallScopeView { session_id, workdir }, name, arguments)
            },
            EventView::Text(Err(e)) => StepView::Done(Err(failure(e))),
            _ => StepView::Done(Err(unexpected())),
        },
        ToolStageView::File { scope, stage } => as_file(scope, file_next(stage, scope, event)),
        ToolStageView::List { scope, stage } => as_list(scope, list_next(stage, scope, event)),
        ToolStageView::Exbash { scope, stage } => as_exbash(scope, exbash_next(stage, scope, event, now)),
        ToolStageView::Skill { scope, stage } => as_skill(scope, skill_next(stage, scope, event)),
        ToolStageView::Rg { scope, stage } => as_rg(scope, rg_next(stage, scope, event)),
        ToolStageView::Manager { scope, stage } => as_manager(scope, manager_next(stage, scope, event)),
    }
}

impl ToolStage {
    /// The step that follows an event at the time `now`, in milliseconds.
    pub fn next(self, event: Event, now: i64) -> (r: ToolStep)
        ensures
            tool_step_view(r) == tool_next(self@, event@, now),
    {
        match self {
            ToolStage::Workdir { session_id, name, arguments } => match event {
                Event::Text(Ok(workdir)) => if is_blank(workdir.as_str()) {
                    let message = cat4(
                        "workdir not found for ",
                        EXECUTOR_SESSION_PARAM,
                        "=",
                        session_id.as_str(),
                    );
                    Step::Done(Err(JsonRpcError::internal(message.as_str())))
                } else {
                    dispatch(CallScope { session_id, workdir }, name.as_str(), arguments)
                },
                Event::Text(Err(e)) => Step::Done(Err(JsonRpcError::internal(e.as_str()))),
                _ => Step::Done(Err(unexpected_error())),
            },
            ToolStage::File { scope, stage } => {
                let step = stage.next(&scope, event);
                wrap_file(scope, step)
            },
            ToolStage::List { scope, stage } => {
                let step = stage.next(&scope, event);
                wrap_list(scope, step)
            },
            ToolStage::Exbash { scope, stage } => {
                let step = stage.next(&scope, event, now);
                wrap_exbash(scope, step)
            },
            ToolStage::Skill { scope, stage } => {
                let step = stage.next(&scope, event);
                wrap_skill(scope, step)
            },
            ToolStage::Rg { scope, stage } => {
                let step = stage.next(&scope, event);
                wrap_rg(scope, step)
            },
            ToolStage::Manager { scope, stage } => {
                let step = stage.next(&scope, event);
                wrap_manager(scope, step)
            },
        }
    }
}

} // verus!
