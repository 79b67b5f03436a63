//! The tool `RemoteExecutorManager`.

use vstd::prelude::*;

use crate::args::with_default;
use crate::args::fill_in;
use crate::calls::unexpected;
use crate::calls::unexpected_error;
use crate::calls::Action;
use crate::calls::ActionView;
use crate::calls::ExecutorReply;
use crate::calls::ExecutorReplyView;
use crate::args::CallScope;
use crate::args::CallScopeView;
use crate::calls::answer_view;
use crate::calls::exec_begin;
use crate::calls::exec_next;
use crate::calls::Answer;
use crate::calls::AnswerView;
use crate::calls::Event;
use crate::calls::EventView;
use crate::calls::ExecCall;
use crate::calls::ExecCallView;
use crate::calls::Step;
use crate::calls::StepView;
use crate::json::Json;
use crate::json::JsonObject;
use crate::json::JsonView;
use crate::jsonrpc::failure;
use crate::jsonrpc::no_such_method;
use crate::jsonrpc::JsonRpcError;
use crate::mcp::text_answer;
use crate::mcp::text_result;
use crate::mcp::EXECUTOR_SESSION_PARAM;
use crate::output::extract_output_text;
use crate::output::output_text;
use crate::output::strip_output;
use crate::output::stripped;
use crate::output::text_or_empty;
use crate::text::same;
use crate::workspace::config_of;
use crate::workspace::config_value;
use crate::workspace::executor_result;
use crate::workspace::info_of_arguments;
use crate::workspace::local_executor;
use crate::workspace::local_of;
use crate::workspace::upsert_workspace_executor;
use crate::workspace::upserted;
use crate::workspace::workspace_executor_config_from_value;
use crate::workspace::workspace_executor_config_to_value;
use crate::workspace::workspace_executor_from_arguments;
use crate::workspace::workspace_executor_result;
use crate::workspace::WorkspaceExecutorConfig;
use crate::workspace::WorkspaceExecutorInfo;
use crate::workspace::WorkspaceExecutorInfoView;

verus! {

/// Where a call of `RemoteExecutorManager` stands: the executors of the workspace are read,
/// written with a new one, that one is connected, the local one is asked for; or a tool of
/// an executor runs.
#[derive(Debug)]
pub enum ManagerStage {
    ReadList,
    ReadConnect { arguments: Json },
    Write { config: WorkspaceExecutorConfig, item: WorkspaceExecutorInfo },
    Connect { config: WorkspaceExecutorConfig },
    Local { config: WorkspaceExecutorConfig },
    Tool { call: ExecCall },
}

#[verifier::ext_equal]
pub ghost enum ManagerStageView {
    ReadList,
    ReadConnect { arguments: JsonView },
    Write { config: Seq<WorkspaceExecutorInfoView>, item: WorkspaceExecutorInfoView },
    Connect { config: Seq<WorkspaceExecutorInfoView> },
    Local { config: Seq<WorkspaceExecutorInfoView> },
    Tool { call: ExecCallView },
}

impl ManagerStage {
    pub open spec fn view(&self) -> ManagerStageView {
        match self {
            ManagerStage::ReadList => ManagerStageView::ReadList,
            ManagerStage::ReadConnect { arguments } => ManagerStageView::ReadConnect {
                arguments: arguments@,
            },
            ManagerStage::Write { config, item } => ManagerStageView::Write {
                config: config@,
                item: item@,
            },
            ManagerStage::Connect { config } => ManagerStageView::Connect {
                config: config@,
            },
            ManagerStage::Local { config } => ManagerStageView::Local {
                config: config@,
            },
            ManagerStage::Tool { call } => ManagerStageView::Tool {
                call: call@,
            },
        }
    }
}

pub type ManagerStep = Step<ManagerStage, Answer>;

pub type ManagerStepView = StepView<ManagerStageView, AnswerView>;

pub open spec fn manager_step_view(s: ManagerStep) -> ManagerStepView {
    match s {
        Step::Ask(stage, a) => StepView::Ask(stage@, a@),
        Step::Done(r) => StepView::Done(answer_view(r)),
    }
}

/// What a result answers.
pub open spec fn plain_answer(result: JsonView) -> AnswerView {
    Ok(text_answer(output_text(result), Some(stripped(result))))
}

pub fn finish_plain(result: Json) -> (r: Answer)
    ensures
        answer_view(r) == plain_answer(result@),
{
    let text = extract_output_text(&result);
    Ok(text_result(text.as_str(), Some(strip_output(result))))
}

/// The request for what is known of the local executor.
pub open spec fn local_request() -> ActionView {
    ActionView::Execute {
        id: JsonView::Str("list-local-executor"@),
        method: "list_executor"@,
        executor: None,
        params: JsonView::Obj(Map::empty()),
        directory: None,
    }
}

fn ask_local() -> (r: Action)
    ensures
        r@ == local_request(),
{
    Action::Execute {
        id: Json::str("list-local-executor"),
        method: "list_executor".to_owned(),
        executor: None,
        params: Json::Object(JsonObject::new()),
        directory: None,
    }
}

/// The arguments with which an executor is added.
pub open spec fn connect_arguments(arguments: JsonView) -> JsonView {
    arguments.without(EXECUTOR_SESSION_PARAM@).without("executor"@).without("method"@)
}

/// The tool of an executor that a method runs, and its arguments.
pub open spec fn manager_tool(method: Seq<char>, arguments: JsonView) -> Option<
    (Seq<char>, JsonView),
> {
    let a = arguments.without("method"@);
    if method == "list_shells"@ {
        Some(("list_shells"@, a))
    } else if method == "request_reload"@ {
        Some(("request_reload"@, a))
    } else if method == "set_executor_shell"@ {
        Some(("set_default_shell"@, with_default(a, "shell"@, "auto"@)))
    } else {
        None
    }
}

pub open spec fn manager_begin(scope: CallScopeView, arguments: JsonView) -> ManagerStepView {
    let method = text_or_empty(arguments.field("method"@));
    if method == "list_executor"@ {
        StepView::Ask(
            ManagerStageView::ReadList,
            ActionView::ReadConfig { workdir: scope.workdir },
        )
    } else if method == "connect_to_executor"@ {
        StepView::Ask(
            ManagerStageView::ReadConnect { arguments: connect_arguments(arguments) },
            ActionView::ReadConfig { workdir: scope.workdir },
        )
    } else {
        match manager_tool(method, arguments) {
            Some((tool, a)) => {
                let (call, action) = exec_begin(scope, tool, a);
                StepView::Ask(ManagerStageView::Tool { call }, action)
            },
            None => StepView::Done(Err(no_such_method(method))),
        }
    }
}

pub fn begin_manager(scope: &CallScope, arguments: Json) -> (r: ManagerStep)
    ensures
        manager_step_view(r) == manager_begin(scope@, arguments@),
{
    let method = match arguments.text_of("method") {
        Some(m) => m.to_owned(),
        None => "".to_owned(),
    };
    let m = method.as_str();
    if same(m, "list_executor") {
        Step::Ask(
            ManagerStage::ReadList,
            Action::ReadConfig { workdir: scope.workdir.clone() },
        )
    } else if same(m, "connect_to_executor") {
        let a = arguments.without(EXECUTOR_SESSION_PARAM).without("executor").without("method");
        Step::Ask(
            ManagerStage::ReadConnect { arguments: a },
            Action::ReadConfig { workdir: scope.workdir.clone() },
        )
    } else {
        let a = arguments.without("method");
        let (call, action) = if same(m, "list_shells") {
            ExecCall::begin(scope, "list_shells", a)
        } else if same(m, "request_reload") {
            ExecCall::begin(scope, "request_reload", a)
        } else if same(m, "set_executor_shell") {
            ExecCall::begin(scope, "set_default_shell", fill_in(a, "shell", "auto"))
        } else {
            return Step::Done(Err(JsonRpcError::method_not_found(m)));
        };
        Step::Ask(ManagerStage::Tool { call }, action)
    }
}

/// The list of executors, once the local one has answered.
pub open spec fn listed_answer(
    config: Seq<WorkspaceExecutorInfoView>,
    reply: ExecutorReplyView,
) -> AnswerView {
    if reply.ok {
        plain_answer(executor_result(config, local_of(reply.result)))
    } else {
        Err(
            failure(
                match reply.error {
                    Some(e) => e,
                    None => "list_executor failed"@,
                },
            ),
        )
    }
}

pub fn finish_listed(config: &WorkspaceExecutorConfig, reply: ExecutorReply) -> (r: Answer)
    ensures
        answer_view(r) == listed_answer(config@, reply@),
{
    if reply.ok {
        let local = local_executor(&reply.result);
        finish_plain(workspace_executor_result(config, local))
    } else {
        match reply.error {
            Some(e) => Err(JsonRpcError::internal(e.as_str())),
            None => Err(JsonRpcError::internal("list_executor failed")),
        }
    }
}

pub open spec fn manager_next(
    stage: ManagerStageView,
    scope: CallScopeView,
    event: EventView,
) -> ManagerStepView {
    match stage {
        ManagerStageView::ReadList => match event {
            EventView::Config(Ok(v)) => StepView::Ask(
                ManagerStageView::Local { config: config_of(v) },
                local_request(),
            ),
            EventView::Config(Err(e)) => StepView::Done(Err(failure(e))),
            _ => StepView::Done(Err(unexpected())),
        },
        ManagerStageView::ReadConnect { arguments } => match event {
            EventView::Config(Ok(v)) => match info_of_arguments(arguments) {
                Ok(item) => {
                    let config = upserted(config_of(v), item);
                    StepView::Ask(
                        ManagerStageView::Write { config, item },
                        ActionView::WriteConfig {
                            workdir: scope.workdir,
                            config: config_value(config),
                        },
                    )
                },
                Err(e) => StepView::Done(Err(e)),
            },
            EventView::Config(Err(e)) => StepView::Done(Err(failure(e))),
            _ => StepView::Done(Err(unexpected())),
        },
        ManagerStageView::Write { config, item } => match event {
            EventView::Done(Ok(_)) => StepView::Ask(
                ManagerStageView::Connect { config },
                ActionView::Connect { executor: item },
            ),
            EventView::Done(Err(e)) => StepView::Done(Err(failure(e))),
            _ => StepView::Done(Err(unexpected())),
        },
        ManagerStageView::Connect { config } => match event {
            EventView::Done(Ok(_)) => StepView::Ask(
                ManagerStageView::Local { config },
                local_request(),
            ),
            EventView::Done(Err(e)) => StepView::Done(Err(failure(e))),
            _ => StepView::Done(Err(unexpected())),
        },
        ManagerStageView::Local { config } => match event {
            EventView::Reply(reply) => StepView::Done(listed_answer(config, reply)),
            _ => StepView::Done(Err(unexpected())),
        },
        ManagerStageView::Tool { call } => match exec_next(call, scope, event) {
            StepView::Ask(call, action) => StepView::Ask(ManagerStageView::Tool { call }, action),
            StepView::Done(Ok(result)) => StepView::Done(plain_answer(result)),
            StepView::Done(Err(e)) => StepView::Done(Err(e)),
        },
    }
}

fn host_failure(e: &str) -> (r: ManagerStep)
    ensures
        manager_step_view(r) == StepView::<ManagerStageView, AnswerView>::Done(Err(failure(e@))),
{
    Step::Done(Err(JsonRpcError::internal(e)))
}

impl ManagerStage {
    /// The step that follows an event.
    pub fn next(self, scope: &CallScope, event: Event) -> (r: ManagerStep)
        ensures
            manager_step_view(r) == manager_next(self@, scope@, event@),
    {
        match self {
            ManagerStage::ReadList => match event {
                Event::Config(Ok(v)) => {
                    let config = workspace_executor_config_from_value(&v);
                    Step::Ask(ManagerStage::Local { config }, ask_local())
                },
                Event::Config(Err(e)) => host_failure(e.as_str()),
                _ => Step::Done(Err(unexpected_error())),
            },
            ManagerStage::ReadConnect { arguments } => match event {
                Event::Config(Ok(v)) => match workspace_executor_from_arguments(&arguments) {
                    Ok(item) => {
                        let mut config = workspace_executor_config_from_value(&v);
                        upsert_workspace_executor(&mut config, item.copy());
                        let value = workspace_executor_config_to_value(&config);
                        Step::Ask(
                            ManagerStage::Write { config, item },
                            Action::WriteConfig { workdir: scope.workdir.clone(), config: value },
                        )
                    },
                    Err(e) => Step::Done(Err(e)),
                },
                Event::Config(Err(e)) => host_failure(e.as_str()),
                _ => Step::Done(Err(unexpected_error())),
            },
            ManagerStage::Write { config, item } => match event {
                Event::Done(Ok(_)) => Step::Ask(
                    ManagerStage::Connect { config },
                    Action::Connect { executor: item },
                ),
                Event::Done(Err(e)) => host_failure(e.as_str()),
                _ => Step::Done(Err(unexpected_error())),
            },
            ManagerStage::Connect { config } => match event {
                Event::Done(Ok(_)) => Step::Ask(ManagerStage::Local { config }, ask_local()),
                Event::Done(Err(e)) => host_failure(e.as_str()),
                _ => Step::Done(Err(unexpected_error())),
            },
            ManagerStage::Local { config } => match event {
                Event::Reply(reply) => Step::Done(finish_listed(&config, reply)),
                _ => Step::Done(Err(unexpected_error())),
            },
            ManagerStage::Tool { call } => match call.next(scope, event) {
                Step::Ask(call, action) => Step::Ask(ManagerStage::Tool { call }, action),
                Step::Done(Ok(result)) => Step::Done(finish_plain(result)),
                Step::Done(Err(e)) => Step::Done(Err(e)),
            },
        }
    }
}

} // verus!
