//! The tool `rg`.

use vstd::prelude::*;

use crate::args::CallScope;
use crate::args::CallScopeView;
use crate::calls::answer_view;
use crate::calls::exec_begin;
use crate::calls::exec_next;
use crate::calls::Answer;
use crate::calls::AnswerView;
use crate::calls::Event;
use crate::calls::EventView;
use crate::calls::ExecCall;
use crate::calls::ExecCallView;
use crate::calls::Step;
use crate::calls::StepView;
use crate::json::views;
use crate::json::Json;
use crate::json::JsonView;
use crate::jsonrpc::failure;
use crate::jsonrpc::JsonRpcError;
use crate::mcp::text_answer;
use crate::mcp::text_result;
use crate::output::strip_output;
use crate::output::stripped;
use crate::rg::extract_rg_mode;
use crate::rg::extract_rg_paths;
use crate::rg::files_result;
use crate::rg::format_rg_output;
use crate::rg::match_count;
use crate::rg::merge_rg_results;
use crate::rg::merged_results;
use crate::rg::normalize_rg_files_result;
use crate::rg::prepare_rg_arguments;
use crate::rg::prepared_rg;
use crate::rg::rg_mode_of;
use crate::rg::rg_paths;
use crate::rg::rg_result_match_count;
use crate::rg::rg_text;
use crate::rg::rg_totals_fit;
use crate::rg::totals_fit;
use crate::rg::RgMode;
use crate::rg::RgPathList;
use crate::rg::RgPathListView;
use crate::text::texts;

verus! {

/// Where a call of `rg` stands: one search, or one of several.
#[derive(Debug)]
pub enum RgStage {
    Single { call: ExecCall, mode: RgMode },
    Multi {
        call: ExecCall,
        mode: RgMode,
        arguments: Json,
        rest: Vec<String>,
        remaining: Option<u64>,
        results: Vec<Json>,
    },
}

#[verifier::ext_equal]
pub ghost enum RgStageView {
    Single { call: ExecCallView, mode: RgMode },
    Multi {
        call: ExecCallView,
        mode: RgMode,
        arguments: JsonView,
        rest: Seq<Seq<char>>,
        remaining: Option<u64>,
        results: Seq<JsonView>,
    },
}

impl RgStage {
    pub open spec fn view(&self) -> RgStageView {
        match self {
            RgStage::Single { call, mode } => RgStageView::Single {
                call: call@,
                mode: *mode,
            },
            RgStage::Multi { call, mode, arguments, rest, remaining, results } => RgStageView::Multi {
                call: call@,
                mode: *mode,
                arguments: arguments@,
                rest: texts(rest@),
                remaining: *remaining,
                results: views(results@),
            },
        }
    }
}

pub type RgStep = Step<RgStage, Answer>;

pub type RgStepView = StepView<RgStageView, AnswerView>;

pub open spec fn rg_step_view(s: RgStep) -> RgStepView {
    match s {
        Step::Ask(stage, a) => StepView::Ask(stage@, a@),
        Step::Done(r) => StepView::Done(answer_view(r)),
    }
}

pub open spec fn rg_method(mode: RgMode) -> Seq<char> {
    match mode {
        RgMode::Content => "rg"@,
        RgMode::Files => "glob"@,
    }
}

fn method_name(mode: RgMode) -> (r: &'static str)
    ensures
        r@ == rg_method(mode),
{
    match mode {
        RgMode::Content => "rg",
        RgMode::Files => "glob",
    }
}

/// What `rg` answers.
pub open spec fn rg_answer(mode: RgMode, result: JsonView) -> AnswerView {
    let r = match mode {
        RgMode::Content => result,
        RgMode::Files => files_result(result),
    };
    Ok(text_answer(rg_text(r), Some(stripped(r))))
}

pub fn finish_rg(mode: RgMode, result: Json) -> (r: Answer)
    ensures
        answer_view(r) == rg_answer(mode, result@),
{
    let value = match mode {
        RgMode::Content => result,
        RgMode::Files => normalize_rg_files_result(result),
    };
    let text = format_rg_output(&value);
    Ok(text_result(text.as_str(), Some(strip_output(value))))
}

/// The arguments of the search in one of several paths, for the matches that are left.
pub open spec fn path_arguments(
    arguments: JsonView,
    path: Seq<char>,
    remaining: Option<u64>,
) -> JsonView {
    let a = arguments.with("path"@, JsonView::Str(path));
    match remaining {
        Some(n) => a.with("max_count"@, JsonView::Int(n as int)),
        None => a,
    }
}

fn write_path_arguments(arguments: Json, path: &str, remaining: Option<u64>) -> (r: Json)
    ensures
        r@ == path_arguments(arguments@, path@, remaining),
{
    let a = arguments.with("path", Json::str(path));
    match remaining {
        Some(n) => a.with("max_count", Json::Int(n as i128)),
        None => a,
    }
}

/// The end of several searches; totals beyond 64 bits are an error.
pub open spec fn merged_answer(mode: RgMode, results: Seq<JsonView>) -> AnswerView {
    if totals_fit(results) {
        rg_answer(mode, merged_results(results))
    } else {
        Err(failure("rg totals overflow"@))
    }
}

pub fn finish_multi(mode: RgMode, results: &Vec<Json>) -> (r: Answer)
    ensures
        answer_view(r) == merged_answer(mode, views(results@)),
{
    if rg_totals_fit(results) {
        finish_rg(mode, merge_rg_results(results))
    } else {
        Err(JsonRpcError::internal("rg totals overflow"))
    }
}

/// The paths are searched in turn, until the matches that were asked for are found.
pub open spec fn multi_step(
    scope: CallScopeView,
    mode: RgMode,
    arguments: JsonView,
    paths: Seq<Seq<char>>,
    remaining: Option<u64>,
    results: Seq<JsonView>,
) -> RgStepView {
    if paths.len() == 0 || remaining == Some(0u64) {
        StepView::Done(merged_answer(mode, results))
    } else {
        let a = path_arguments(arguments, paths[0], remaining);
        let (call, action) = exec_begin(scope, rg_method(mode), a);
        StepView::Ask(
            RgStageView::Multi {
                call,
                mode,
                arguments: a,
                rest: paths.drop_first(),
                remaining,
                results,
            },
            action,
        )
    }
}

fn search_next(
    scope: &CallScope,
    mode: RgMode,
    arguments: Json,
    paths: Vec<String>,
    remaining: Option<u64>,
    results: Vec<Json>,
) -> (r: RgStep)
    ensures
        rg_step_view(r) == multi_step(
            scope@,
            mode,
            arguments@,
            texts(paths@),
            remaining,
            views(results@),
        ),
{
    let done = match remaining {
        Some(n) => n == 0,
        None => false,
    };
    if paths.len() == 0 || done {
        Step::Done(finish_multi(mode, &results))
    } else {
        let mut rest = paths;
        let path = rest.remove(0);
        assert(texts(rest@) =~= texts(paths@).drop_first());
        let a = write_path_arguments(arguments, path.as_str(), remaining);
        let (call, action) = ExecCall::begin(scope, method_name(mode), a.clone());
        Step::Ask(RgStage::Multi { call, mode, arguments: a, rest, remaining, results }, action)
    }
}

/// The matches that are left after a search.
pub open spec fn left_after(remaining: Option<u64>, result: JsonView) -> Option<u64> {
    match remaining {
        Some(n) => Some(
            if match_count(result) >= n {
                0u64
            } else {
                (n - match_count(result)) as u64
            },
        ),
        None => None,
    }
}

fn subtract(remaining: Option<u64>, result: &Json) -> (r: Option<u64>)
    ensures
        r == left_after(remaining, result@),
{
    match remaining {
        Some(n) => {
            let hits: u64 = rg_result_match_count(result);
            if hits >= n {
                Some(0)
            } else {
                Some(n - hits)
            }
        },
        None => None,
    }
}

/// The limit of matches that the arguments set.
pub open spec fn match_limit(arguments: JsonView) -> Option<u64> {
    match arguments.field("max_count"@) {
        Some(v) => match v.unsigned() {
            Some(n) => Some(n as u64),
            None => None,
        },
        None => None,
    }
}

pub open spec fn rg_begin(scope: CallScopeView, arguments: JsonView) -> RgStepView {
    match rg_mode_of(arguments) {
        Err(e) => StepView::Done(Err(e)),
        Ok(mode) => {
            let (paths, rest) = rg_paths(prepared_rg(scope.workdir, mode, arguments));
            let a = rest.without("mode"@).without("type"@);
            match paths {
                RgPathListView::Single => {
                    let (call, action) = exec_begin(scope, rg_method(mode), a);
                    StepView::Ask(RgStageView::Single { call, mode }, action)
                },
                RgPathListView::Multi(paths) => multi_step(
                    scope,
                    mode,
                    a,
                    paths,
                    match_limit(a),
                    Seq::empty(),
                ),
            }
        },
    }
}

pub fn begin_rg(scope: &CallScope, arguments: Json) -> (r: RgStep)
    ensures
        rg_step_view(r) == rg_begin(scope@, arguments@),
{
    let mode = match extract_rg_mode(&arguments) {
        Ok(m) => m,
        Err(e) => {
            return Step::Done(Err(e));
        },
    };
    let prepared = prepare_rg_arguments(scope, mode, arguments);
    let (paths, rest) = extract_rg_paths(prepared);
    let a = rest.without("mode").without("type");
    match paths {
        RgPathList::Single => {
            let (call, action) = ExecCall::begin(scope, method_name(mode), a);
            Step::Ask(RgStage::Single { call, mode }, action)
        },
        RgPathList::Multi(paths) => {
            let remaining = match a.get("max_count") {
                Some(v) => v.as_u64(),
                None => None,
            };
            let none: Vec<Json> = Vec::new();
            assert(views(none@) =~= Seq::empty());
            search_next(scope, mode, a, paths, remaining, none)
        },
    }
}

pub open spec fn rg_next(stage: RgStageView, scope: CallScopeView, event: EventView) -> RgStepView {
    match stage {
        RgStageView::Single { call, mode } => match exec_next(call, scope, event) {
            StepView::Ask(call, action) => StepView::Ask(RgStageView::Single { call, mode }, action),
            StepView::Done(Ok(result)) => StepView::Done(rg_answer(mode, result)),
            StepView::Done(Err(e)) => StepView::Done(Err(e)),
        },
        RgStageView::Multi { call, mode, arguments, rest, remaining, results } => match exec_next(
            call,
            scope,
            event,
        ) {
            StepView::Ask(call, action) => StepView::Ask(
                RgStageView::Multi { call, mode, arguments, rest, remaining, results },
                action,
            ),
            StepView::Done(Ok(result)) => multi_step(
                scope,
                mode,
                arguments,
                rest,
                left_after(remaining, result),
                results.push(result),
            ),
            StepView::Done(Err(e)) => StepView::Done(Err(e)),
        },
    }
}

impl RgStage {
    /// The step that follows an event.
    pub fn next(self, scope: &CallScope, event: Event) -> (r: RgStep)
        ensures
            rg_step_view(r) == rg_next(self@, scope@, event@),
    {
        match self {
            RgStage::Single { call, mode } => match call.next(scope, event) {
                Step::Ask(call, action) => Step::Ask(RgStage::Single { call, mode }, action),
                Step::Done(Ok(result)) => Step::Done(finish_rg(mode, result)),
                Step::Done(Err(e)) => Step::Done(Err(e)),
            },
            RgStage::Multi { call, mode, arguments, rest, remaining, results } => match call.next(
                scope,
                event,
            ) {
                Step::Ask(call, action) => Step::Ask(
                    RgStage::Multi { call, mode, arguments, rest, remaining, results },
                    action,
                ),
                Step::Done(Ok(result)) => {
                    let left = subtract(remaining, &result);
                    let mut all = results;
                    let ghost before = views(all@);
                    all.push(result);
                    assert(views(all@) =~= before.push(result@));
                    search_next(scope, mode, arguments, rest, left, all)
                },
                Step::Done(Err(e)) => Step::Done(Err(e)),
            },
        }
    }
}

} // verus!
