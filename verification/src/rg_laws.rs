//! What a search asks for and what it shows.

use vstd::prelude::*;

use crate::args::CallScopeView;
use crate::calls::exec_next;
use crate::calls::with_route;
use crate::calls::ActionView;
use crate::calls::EventView;
use crate::calls::ExecCallView;
use crate::calls::ExecutorReplyView;
use crate::calls::StepView;
use crate::exbash_laws::is_for_session;
use crate::exbash_laws::lemma_tool_names;
use crate::exbash_laws::text_in;
use crate::json::plain;
use crate::json::JsonView;
use crate::output::stripped;
use crate::rg::added_globs;
use crate::rg::all_stdout;
use crate::rg::expanded_globs;
use crate::rg::files_result;
use crate::rg::filled_items;
use crate::rg::is_absolute;
use crate::rg::merged_results;
use crate::rg::names_no_directory;
use crate::rg::path_list;
use crate::rg::prepared_rg;
use crate::rg::rg_mode_of;
use crate::rg::rg_paths;
use crate::rg::rg_text;
use crate::rg::RgMode;
use crate::rg_tool::left_after;
use crate::rg_tool::match_limit;
use crate::rg_tool::multi_step;
use crate::rg_tool::path_arguments;
use crate::rg_tool::rg_begin;
use crate::rg_tool::rg_method;
use crate::rg_tool::rg_next;
use crate::rg_tool::RgStageView;
use crate::rg_tool::RgStepView;
use crate::text::has_prefix;
use crate::text::has_text;
use crate::text::is_space;
use crate::text::law_trimming_cuts_white_space;
use crate::text::occurs_at;
use crate::text::trimmed;
use crate::text::words_from;
use crate::text::words_of;
use crate::tool_call::as_rg;
use crate::traces::action_at;
use crate::traces::call_at;
use crate::traces::goes_to_executor;
use crate::traces::is_exec_of;
use crate::traces::is_routing;
use crate::traces::law_local_executor_is_asked;
use crate::traces::lemma_exec_begins;
use crate::traces::lemma_exec_goes_on;
use crate::traces::lemma_exec_requests;
use crate::traces::lemma_routing_names;
use crate::traces::CallView;

verus! {

/// The kind of search that the arguments name: `mode`, else `type`.
pub open spec fn named_kind(arguments: JsonView) -> Option<Seq<char>> {
    match text_in(arguments, "mode"@) {
        Some(m) => Some(m),
        None => text_in(arguments, "type"@),
    }
}

/// The arguments ask for a search in the contents of files.
pub open spec fn asks_for_content(arguments: JsonView) -> bool {
    match named_kind(arguments) {
        Some(m) => m == "content"@ || m == "text"@ || m == "search"@,
        None => true,
    }
}

/// The arguments ask for a search for files by their names.
pub open spec fn asks_for_files(arguments: JsonView) -> bool {
    match named_kind(arguments) {
        Some(m) => m == "files"@ || m == "file"@ || m == "paths"@ || m == "path"@ || m == "glob"@,
        None => false,
    }
}

/// The executor that is named, by text without white space around it, is the local one.
pub open spec fn searches_here(arguments: JsonView) -> bool {
    let given = match arguments.field("executor"@) {
        Some(v) => Some(v),
        None => arguments.field("targetExecutor"@),
    };
    match given {
        Some(JsonView::Str(e)) => trimmed(e).len() == 0 || trimmed(e) == "local"@,
        _ => true,
    }
}

/// The member says how a search is done or where, and is not handed on as it is.
pub open spec fn steers_search(key: Seq<char>) -> bool {
    key == "mode"@ || key == "type"@ || key == "paths"@ || key == "path"@ || key == "globs"@ || key
        == "root"@ || key == "max_count"@
}

/// A search as the arguments describe it: the executor that they name is asked, with every
/// argument as it was given but for those that steer the search. A search in contents on the
/// local executor starts at the workspace unless the arguments say where, and the globs that
/// were given are all there.
pub open spec fn is_search(action: ActionView, arguments: JsonView, workdir: Seq<char>) -> bool {
    action matches ActionView::Execute { id, method, executor, params, directory } && {
        let content = asks_for_content(arguments);
        &&& method == if content {
            "rg"@
        } else {
            "glob"@
        }
        &&& executor is Some
        &&& goes_to_executor(arguments, executor->0)
        &&& forall|key: Seq<char>|
            !is_routing(key) && !steers_search(key) ==> #[trigger] params.field(key)
                == arguments.field(key)
        &&& params.field("mode"@) is None
        &&& params.field("type"@) is None
        &&& params.field("paths"@) is None
        &&& params.field("root"@) == if content && searches_here(arguments) && arguments.field(
            "root"@,
        ) is None && arguments is Obj {
            Some(JsonView::Str(workdir))
        } else {
            arguments.field("root"@)
        }
        &&& match arguments.field("globs"@) {
            Some(JsonView::Arr(given)) => params.field("globs"@) matches Some(JsonView::Arr(globs))
                && given.len() <= globs.len() && globs.take(given.len() as int) == given && (!content
                ==> globs == given),
            other => params.field("globs"@) == other,
        }
    }
}

/// The path in the arguments of a request.
pub open spec fn searched_path(action: ActionView) -> Option<JsonView> {
    action->Execute_params.field("path"@)
}

// ---------------------------------------------------------------------------
// One search
// ---------------------------------------------------------------------------

/// A text that is one path: it holds no white space, or it does not start as an absolute path
/// does.
pub open spec fn is_one_path(path: Seq<char>) -> bool {
    (forall|i: int| 0 <= i < path.len() ==> !is_space(#[trigger] path[i])) || (path.len() > 0
        && !is_space(path[0]) && path[0] != '/' && path[0] != '\\' && (path.len() < 2 || path[1]
        != ':'))
}

/// The arguments give at most one path to search, the one that is to reach the executor.
pub open spec fn gives_one_path(arguments: JsonView, path: Option<JsonView>) -> bool {
    match arguments.field("paths"@) {
        None => path == arguments.field("path"@) && (arguments.field("path"@) matches Some(
            JsonView::Str(p),
        ) ==> is_one_path(p)),
        Some(JsonView::Arr(items)) => items.len() == 1 && (items[0] matches JsonView::Str(p)
            && trimmed(p).len() > 0 && path == Some(JsonView::Str(trimmed(p)))),
        _ => false,
    }
}

proof fn lemma_words_start(run: Seq<char>, s: Seq<char>)
    requires
        run.len() > 0,
    ensures
        words_from(run, s).len() >= 1,
        words_from(run, s)[0].len() >= run.len(),
        words_from(run, s)[0].take(run.len() as int) == run,
        words_from(run, s)[0].len() > run.len() ==> s.len() > 0 && words_from(run, s)[0][run.len()
            as int] == s[0],
    decreases s.len(),
{
    if s.len() > 0 && !is_space(s[0]) {
        let longer = run.push(s[0]);
        lemma_words_start(longer, s.drop_first());
        let w = words_from(run, s)[0];
        assert(w.take(longer.len() as int) == longer);
        assert(w.take(run.len() as int) =~= longer.take(run.len() as int));
        assert(longer.take(run.len() as int) =~= run);
        assert(w[run.len() as int] == w.take(longer.len() as int)[run.len() as int]);
    } else {
        assert(run.take(run.len() as int) =~= run);
    }
}

proof fn lemma_one_word(run: Seq<char>, s: Seq<char>)
    requires
        forall|i: int| 0 <= i < s.len() ==> !is_space(#[trigger] s[i]),
    ensures
        words_from(run, s).len() <= 1,
    decreases s.len(),
{
    if s.len() > 0 {
        lemma_one_word(run.push(s[0]), s.drop_first());
    }
}

proof fn lemma_one_path(path: Seq<char>)
    requires
        is_one_path(path),
    ensures
        path_list(path, false).len() <= 1,
{
    if forall|i: int| 0 <= i < path.len() ==> !is_space(#[trigger] path[i]) {
        lemma_one_word(Seq::empty(), path);
    } else {
        let rest = path.drop_first();
        let run = Seq::<char>::empty().push(path[0]);
        lemma_words_start(run, rest);
        let words = words_of(path);
        assert(words == words_from(run, rest));
        let w = words[0];
        assert(w[0] == w.take(1)[0]);
        reveal_strlit("/");
        reveal_strlit("\\");
        assert("/"@[0] == '/' && "/"@.len() == 1 && "\\"@[0] == '\\' && "\\"@.len() == 1);
        if crate::text::has_prefix(w, "/"@) {
            assert(w.subrange(0, 1)[0] == w[0]);
        }
        if crate::text::has_prefix(w, "\\"@) {
            assert(w.subrange(0, 1)[0] == w[0]);
        }
        if w.len() >= 2 {
            assert(w[1] == rest[0]);
            assert(rest[0] == path[1]);
        }
        assert(!is_absolute(words[0]));
    }
}

/// The step that a search has come to after the first `k` events.
pub open spec fn rg_at(
    scope: CallScopeView,
    arguments: JsonView,
    events: Seq<(EventView, i64)>,
    k: int,
) -> RgStepView
    decreases k,
{
    if k <= 0 {
        rg_begin(scope, arguments)
    } else {
        match rg_at(scope, arguments, events, k - 1) {
            StepView::Ask(stage, _) => rg_next(stage, scope, events[k - 1].0),
            StepView::Done(answer) => StepView::Done(answer),
        }
    }
}

proof fn lemma_goes_on_as_rg(call: CallView, events: Seq<(EventView, i64)>, k: int)
    requires
        1 <= k <= events.len(),
        call.name == "rg"@,
    ensures
        ({
            let session_id = trimmed(call.context.executor_session_id->0);
            let known = call.context.executor_session_id is Some && session_id.len() > 0 && (
            events[0].0 matches EventView::Text(Ok(workdir)) && trimmed(workdir).len() > 0);
            let scope = CallScopeView { session_id, workdir: events[0].0->Text_0->Ok_0 };
            &&& !known ==> call_at(call, events, k) is Done
            &&& known ==> call_at(call, events, k) == as_rg(
                scope,
                rg_at(scope, call.arguments, events.skip(1), k - 1),
            )
        }),
    decreases k,
{
    lemma_tool_names();
    if k == 1 {
        reveal_with_fuel(call_at, 2);
    } else {
        lemma_goes_on_as_rg(call, events, k - 1);
        assert(events.skip(1)[k - 2] == events[k - 1]);
    }
}

spec fn search_mode(arguments: JsonView) -> RgMode {
    if asks_for_content(arguments) {
        RgMode::Content
    } else {
        RgMode::Files
    }
}

spec fn search_arguments(scope: CallScopeView, arguments: JsonView) -> JsonView {
    rg_paths(prepared_rg(scope.workdir, search_mode(arguments), arguments)).1.without(
        "mode"@,
    ).without("type"@)
}

/// The names of the members that steer a search are different.
pub proof fn lemma_search_names()
    ensures
        "mode"@ != "type"@,
        "mode"@ != "paths"@,
        "mode"@ != "path"@,
        "mode"@ != "globs"@,
        "mode"@ != "root"@,
        "mode"@ != "max_count"@,
        "mode"@ != "executor"@,
        "mode"@ != "targetExecutor"@,
        "mode"@ != "ExecutorSessionID"@,
        "type"@ != "paths"@,
        "type"@ != "path"@,
        "type"@ != "globs"@,
        "type"@ != "root"@,
        "type"@ != "max_count"@,
        "type"@ != "executor"@,
        "type"@ != "targetExecutor"@,
        "type"@ != "ExecutorSessionID"@,
        "paths"@ != "path"@,
        "paths"@ != "globs"@,
        "paths"@ != "root"@,
        "paths"@ != "max_count"@,
        "paths"@ != "executor"@,
        "paths"@ != "targetExecutor"@,
        "paths"@ != "ExecutorSessionID"@,
        "path"@ != "globs"@,
        "path"@ != "root"@,
        "path"@ != "max_count"@,
        "path"@ != "executor"@,
        "path"@ != "targetExecutor"@,
        "path"@ != "ExecutorSessionID"@,
        "globs"@ != "root"@,
        "globs"@ != "max_count"@,
        "globs"@ != "executor"@,
        "globs"@ != "targetExecutor"@,
        "globs"@ != "ExecutorSessionID"@,
        "root"@ != "max_count"@,
        "root"@ != "executor"@,
        "root"@ != "targetExecutor"@,
        "root"@ != "ExecutorSessionID"@,
        "max_count"@ != "executor"@,
        "max_count"@ != "targetExecutor"@,
        "max_count"@ != "ExecutorSessionID"@,
        "executor"@ != "targetExecutor"@,
        "executor"@ != "ExecutorSessionID"@,
        "targetExecutor"@ != "ExecutorSessionID"@,
{
    reveal_strlit("mode");
    reveal_strlit("type");
    reveal_strlit("paths");
    reveal_strlit("path");
    reveal_strlit("globs");
    reveal_strlit("root");
    reveal_strlit("max_count");
    reveal_strlit("executor");
    reveal_strlit("targetExecutor");
    reveal_strlit("ExecutorSessionID");
    assert("mode"@.len() == 4);
    assert("type"@.len() == 4);
    assert("paths"@.len() == 5);
    assert("path"@.len() == 4);
    assert("globs"@.len() == 5);
    assert("root"@.len() == 4);
    assert("max_count"@.len() == 9);
    assert("executor"@.len() == 8);
    assert("targetExecutor"@.len() == 14);
    assert("ExecutorSessionID"@.len() == 17);
    assert("mode"@[0] == 'm' && "type"@[0] == 't');
    assert("mode"@[0] == 'm' && "path"@[0] == 'p');
    assert("mode"@[0] == 'm' && "root"@[0] == 'r');
    assert("type"@[0] == 't' && "path"@[0] == 'p');
    assert("type"@[0] == 't' && "root"@[0] == 'r');
    assert("paths"@[0] == 'p' && "globs"@[0] == 'g');
    assert("path"@[0] == 'p' && "root"@[0] == 'r');
}

proof fn lemma_kind_names()
    ensures
        "content"@ != "text"@,
        "content"@ != "search"@,
        "content"@ != "files"@,
        "content"@ != "file"@,
        "content"@ != "paths"@,
        "content"@ != "path"@,
        "content"@ != "glob"@,
        "text"@ != "search"@,
        "text"@ != "files"@,
        "text"@ != "file"@,
        "text"@ != "paths"@,
        "text"@ != "path"@,
        "text"@ != "glob"@,
        "search"@ != "files"@,
        "search"@ != "file"@,
        "search"@ != "paths"@,
        "search"@ != "path"@,
        "search"@ != "glob"@,
        "files"@ != "file"@,
        "files"@ != "paths"@,
        "files"@ != "path"@,
        "files"@ != "glob"@,
        "file"@ != "paths"@,
        "file"@ != "path"@,
        "file"@ != "glob"@,
        "paths"@ != "path"@,
        "paths"@ != "glob"@,
        "path"@ != "glob"@,
{
    reveal_strlit("content");
    reveal_strlit("text");
    reveal_strlit("search");
    reveal_strlit("files");
    reveal_strlit("file");
    reveal_strlit("paths");
    reveal_strlit("path");
    reveal_strlit("glob");
    assert("content"@.len() == 7);
    assert("text"@.len() == 4);
    assert("search"@.len() == 6);
    assert("files"@.len() == 5);
    assert("file"@.len() == 4);
    assert("paths"@.len() == 5);
    assert("path"@.len() == 4);
    assert("glob"@.len() == 4);
    assert("text"@[0] == 't' && "file"@[0] == 'f');
    assert("text"@[0] == 't' && "path"@[0] == 'p');
    assert("text"@[0] == 't' && "glob"@[0] == 'g');
    assert("files"@[0] == 'f' && "paths"@[0] == 'p');
    assert("file"@[0] == 'f' && "path"@[0] == 'p');
    assert("file"@[0] == 'f' && "glob"@[0] == 'g');
    assert("path"@[0] == 'p' && "glob"@[0] == 'g');
}

proof fn lemma_mode(arguments: JsonView)
    ensures
        asks_for_content(arguments) ==> (rg_mode_of(arguments) matches Ok(m) && m == RgMode::Content),
        asks_for_files(arguments) ==> (rg_mode_of(arguments) matches Ok(m) && m == RgMode::Files),
        !asks_for_content(arguments) && !asks_for_files(arguments) ==> rg_mode_of(arguments) is Err,
        !(asks_for_content(arguments) && asks_for_files(arguments)),
{
    lemma_kind_names();
}

/// The globs that were given stand first among those that are searched.
proof fn lemma_globs(globs: Seq<JsonView>)
    ensures
        globs.len() <= expanded_globs(globs).len(),
        expanded_globs(globs).take(globs.len() as int) == globs,
{
    assert(expanded_globs(globs).take(globs.len() as int) =~= globs);
}

proof fn lemma_prepared(scope: CallScopeView, arguments: JsonView)
    ensures
        ({
            let p = prepared_rg(scope.workdir, search_mode(arguments), arguments);
            &&& p is Obj <==> arguments is Obj
            &&& forall|key: Seq<char>|
                key != "root"@ && key != "globs"@ ==> #[trigger] p.field(key) == arguments.field(
                    key,
                )
            &&& p.field("root"@) == if asks_for_content(arguments) && searches_here(arguments)
                && arguments.field("root"@) is None && arguments is Obj {
                Some(JsonView::Str(scope.workdir))
            } else {
                arguments.field("root"@)
            }
            &&& match arguments.field("globs"@) {
                Some(JsonView::Arr(given)) => p.field("globs"@) matches Some(JsonView::Arr(globs))
                    && given.len() <= globs.len() && globs.take(given.len() as int) == given && (
                !asks_for_content(arguments) ==> globs == given),
                other => p.field("globs"@) == other,
            }
        }),
{
    lemma_search_names();
    if let Some(JsonView::Arr(given)) = arguments.field("globs"@) {
        lemma_globs(given);
        assert(given.take(given.len() as int) =~= given);
    }
    reveal_strlit("local");
    assert("local"@.len() == 5);
}

/// What `rg_paths` leaves of the arguments, but for the path.
proof fn lemma_paths_rest(p: JsonView)
    ensures
        rg_paths(p).1 is Obj <==> p is Obj,
        forall|key: Seq<char>|
            key != "paths"@ && key != "path"@ ==> #[trigger] rg_paths(p).1.field(key) == p.field(
                key,
            ),
        rg_paths(p).1.field("paths"@) is None,
{
    lemma_search_names();
}

proof fn lemma_search(
    call: ExecCallView,
    action: ActionView,
    scope: CallScopeView,
    arguments: JsonView,
    a: JsonView,
)
    requires
        asks_for_content(arguments) || asks_for_files(arguments),
        is_exec_of(call, action, scope, rg_method(search_mode(arguments)), a),
        action is Execute,
        a is Obj <==> arguments is Obj,
        forall|key: Seq<char>|
            key != "path"@ && key != "max_count"@ ==> #[trigger] a.field(key) == search_arguments(
                scope,
                arguments,
            ).field(key),
    ensures
        is_search(action, arguments, scope.workdir),
        searched_path(action) == a.field("path"@),
        action->Execute_params.field("max_count"@) == a.field("max_count"@),
{
    lemma_search_names();
    lemma_mode(arguments);
    lemma_prepared(scope, arguments);
    let p = prepared_rg(scope.workdir, search_mode(arguments), arguments);
    lemma_paths_rest(p);
    lemma_exec_requests(call, action, scope, rg_method(search_mode(arguments)), a);
    assert forall|key: Seq<char>| !is_routing(key) && !steers_search(key) implies #[trigger] a.field(
        key,
    ) == arguments.field(key) by {}
    assert(a.field("executor"@) == arguments.field("executor"@));
    assert(a.field("targetExecutor"@) == arguments.field("targetExecutor"@));
}

proof fn lemma_single(scope: CallScopeView, arguments: JsonView, path: Option<JsonView>)
    requires
        gives_one_path(arguments, path),
    ensures
        ({
            let p = prepared_rg(scope.workdir, search_mode(arguments), arguments);
            &&& rg_paths(p).0 is Single
            &&& search_arguments(scope, arguments).field("path"@) == path
            &&& search_arguments(scope, arguments).field("max_count"@) == arguments.field(
                "max_count"@,
            )
            &&& search_arguments(scope, arguments) is Obj <==> arguments is Obj
        }),
{
    lemma_search_names();
    lemma_prepared(scope, arguments);
    let p = prepared_rg(scope.workdir, search_mode(arguments), arguments);
    lemma_paths_rest(p);
    match arguments.field("paths"@) {
        Some(JsonView::Arr(items)) => {
            assert(items.drop_last() =~= Seq::empty());
            reveal_with_fuel(filled_items, 2);
            assert(filled_items(items) =~= seq![trimmed(items[0]->Str_0)]);
        },
        _ => {
            if let Some(JsonView::Str(s)) = arguments.field("path"@) {
                lemma_one_path(s);
            }
        },
    }
}

spec fn is_single_search(
    step: RgStepView,
    scope: CallScopeView,
    arguments: JsonView,
) -> bool {
    match step {
        StepView::Done(_) => true,
        StepView::Ask(RgStageView::Single { call, mode }, action) => mode == search_mode(arguments)
            && is_exec_of(
            call,
            action,
            scope,
            rg_method(mode),
            search_arguments(scope, arguments),
        ),
        _ => false,
    }
}

proof fn lemma_single_at(
    scope: CallScopeView,
    arguments: JsonView,
    path: Option<JsonView>,
    events: Seq<(EventView, i64)>,
    k: int,
)
    requires
        k >= 0,
        gives_one_path(arguments, path),
    ensures
        is_single_search(rg_at(scope, arguments, events, k), scope, arguments),
    decreases k,
{
    lemma_mode(arguments);
    lemma_single(scope, arguments, path);
    lemma_exec_begins(
        scope,
        rg_method(search_mode(arguments)),
        search_arguments(scope, arguments),
    );
    if k > 0 {
        lemma_single_at(scope, arguments, path, events, k - 1);
        if let StepView::Ask(RgStageView::Single { call, mode }, action) = rg_at(
            scope,
            arguments,
            events,
            k - 1,
        ) {
            lemma_exec_goes_on(
                call,
                action,
                scope,
                rg_method(mode),
                search_arguments(scope, arguments),
                events[k - 1].0,
            );
        }
    }
}

/// A search of one path, or of none, asks the executor once: for that path, as the arguments
/// describe it. Its reply ends the call.
pub proof fn law_one_path_is_searched_once(
    call: CallView,
    path: Option<JsonView>,
    events: Seq<(EventView, i64)>,
    k: int,
)
    requires
        call.name == "rg"@,
        gives_one_path(call.arguments, path),
        0 <= k <= events.len(),
        action_at(call, events, k) matches Some(a) && a is Execute,
    ensures
        events[0].0 matches EventView::Text(Ok(workdir)) && is_search(
            action_at(call, events, k)->0,
            call.arguments,
            workdir,
        ),
        searched_path(action_at(call, events, k)->0) == path,
        action_at(call, events, k)->0->Execute_params.field("max_count"@) == call.arguments.field(
            "max_count"@,
        ),
        k < events.len() ==> call_at(call, events, k + 1) is Done,
{
    reveal_with_fuel(call_at, 1);
    lemma_goes_on_as_rg(call, events, k);
    let session_id = trimmed(call.context.executor_session_id->0);
    let scope = CallScopeView { session_id, workdir: events[0].0->Text_0->Ok_0 };
    lemma_single_at(scope, call.arguments, path, events.skip(1), k - 1);
    lemma_mode(call.arguments);
    lemma_single(scope, call.arguments, path);
    let a = search_arguments(scope, call.arguments);
    lemma_first_searches(scope, call.arguments, events.skip(1), k - 1);
    if let StepView::Ask(RgStageView::Single { call: c, mode: _ }, action) = rg_at(
        scope,
        call.arguments,
        events.skip(1),
        k - 1,
    ) {
        lemma_search(c, action, scope, call.arguments, a);
        if k < events.len() {
            lemma_goes_on_as_rg(call, events, k + 1);
            assert(events.skip(1)[k - 1] == events[k]);
            lemma_exec_goes_on(
                c,
                action,
                scope,
                rg_method(search_mode(call.arguments)),
                a,
                events[k].0,
            );
        }
    }
}

/// A search that asks for anything names a kind of search that exists.
proof fn lemma_first_searches(
    scope: CallScopeView,
    arguments: JsonView,
    events: Seq<(EventView, i64)>,
    k: int,
)
    requires
        k >= 0,
        rg_at(scope, arguments, events, k) is Ask,
    ensures
        asks_for_content(arguments) || asks_for_files(arguments),
    decreases k,
{
    lemma_mode(arguments);
    if k > 0 {
        lemma_first_searches(scope, arguments, events, k - 1);
    }
}

/// A search reaches an executor as soon as the workspace is known; a kind of search that does
/// not exist is refused.
pub proof fn law_searches_are_started(
    call: CallView,
    session_id: Seq<char>,
    workdir: Seq<char>,
    path: Option<JsonView>,
    now: i64,
)
    requires
        call.name == "rg"@,
        is_for_session(call, session_id),
        trimmed(workdir).len() > 0,
        gives_one_path(call.arguments, path),
    ensures
        ({
            let events = seq![(EventView::Text(Ok(workdir)), now)];
            &&& asks_for_content(call.arguments) || asks_for_files(call.arguments) ==> if goes_to_executor(
                call.arguments,
                "local"@,
            ) {
                action_at(call, events, 1) matches Some(a) && a is Execute
            } else {
                action_at(call, events, 1) == Some(ActionView::ReadConfig { workdir })
            }
            &&& !asks_for_content(call.arguments) && !asks_for_files(call.arguments) ==> (call_at(
                call,
                events,
                1,
            ) matches StepView::Done(Err(e)) && e.code == -32602)
        }),
{
    let events = seq![(EventView::Text(Ok(workdir)), now)];
    let scope = CallScopeView { session_id, workdir };
    lemma_goes_on_as_rg(call, events, 1);
    lemma_mode(call.arguments);
    lemma_single(scope, call.arguments, path);
    lemma_prepared(scope, call.arguments);
    lemma_search_names();
    let p = prepared_rg(scope.workdir, search_mode(call.arguments), call.arguments);
    lemma_paths_rest(p);
    let a = search_arguments(scope, call.arguments);
    assert(a.field("executor"@) == call.arguments.field("executor"@));
    assert(a.field("targetExecutor"@) == call.arguments.field("targetExecutor"@));
}

// ---------------------------------------------------------------------------
// Several searches
// ---------------------------------------------------------------------------

/// The arguments give several paths.
pub open spec fn gives_paths(arguments: JsonView, paths: Seq<Seq<char>>) -> bool {
    &&& paths.len() >= 2
    &&& arguments.field("paths"@) matches Some(JsonView::Arr(items)) && items.len() == paths.len()
        && forall|i: int|
        0 <= i < paths.len() ==> items[i] == JsonView::Str(#[trigger] paths[i]) && trimmed(paths[i])
            == paths[i] && paths[i].len() > 0
}

/// How often an executor was asked in the first `k` steps.
pub open spec fn asked_before(call: CallView, events: Seq<(EventView, i64)>, k: int) -> nat
    decreases k,
{
    if k <= 0 {
        0
    } else {
        asked_before(call, events, k - 1) + if action_at(call, events, k - 1) matches Some(a)
            && a is Execute {
            1nat
        } else {
            0nat
        }
    }
}

/// The results that executors gave in the first `k` steps, in order.
pub open spec fn results_before(call: CallView, events: Seq<(EventView, i64)>, k: int) -> Seq<JsonView>
    decreases k,
{
    if k <= 0 {
        Seq::empty()
    } else {
        let before = results_before(call, events, k - 1);
        match (action_at(call, events, k - 1), events[k - 1].0) {
            (
                Some(
                    ActionView::Execute { id: _, method: _, executor, params: _, directory: _ },
                ),
                EventView::Reply(reply),
            ) => match crate::calls::reply_outcome(reply, executor->0) {
                Ok(v) => before.push(v),
                Err(_) => before,
            },
            _ => before,
        }
    }
}

proof fn lemma_filled_all(items: Seq<JsonView>, paths: Seq<Seq<char>>)
    requires
        items.len() == paths.len(),
        forall|i: int|
            0 <= i < paths.len() ==> items[i] == JsonView::Str(#[trigger] paths[i]) && trimmed(
                paths[i],
            ) == paths[i] && paths[i].len() > 0,
    ensures
        filled_items(items) == paths,
    decreases items.len(),
{
    if items.len() > 0 {
        assert forall|i: int| 0 <= i < paths.drop_last().len() implies items.drop_last()[i]
            == JsonView::Str(#[trigger] paths.drop_last()[i]) && trimmed(paths.drop_last()[i])
            == paths.drop_last()[i] && paths.drop_last()[i].len() > 0 by {
            assert(paths.drop_last()[i] == paths[i]);
        }
        lemma_filled_all(items.drop_last(), paths.drop_last());
        assert(items.last() == JsonView::Str(paths[paths.len() - 1]));
        assert(filled_items(items) =~= paths.drop_last().push(paths.last()));
        assert(paths.drop_last().push(paths.last()) =~= paths);
    } else {
        assert(filled_items(items) =~= paths);
    }
}

spec fn is_search_of(
    a: JsonView,
    scope: CallScopeView,
    arguments: JsonView,
    path: Seq<char>,
    remaining: Option<u64>,
) -> bool {
    &&& a is Obj
    &&& a.field("path"@) == Some(JsonView::Str(path))
    &&& a.field("max_count"@) == match remaining {
        Some(n) => Some(JsonView::Int(n as int)),
        None => arguments.field("max_count"@),
    }
    &&& forall|key: Seq<char>|
        key != "path"@ && key != "max_count"@ ==> #[trigger] a.field(key) == search_arguments(
            scope,
            arguments,
        ).field(key)
}

/// What holds of a call that searches several paths, where `n` searches were made and gave
/// these results.
spec fn searches_in_turn(
    step: RgStepView,
    scope: CallScopeView,
    arguments: JsonView,
    paths: Seq<Seq<char>>,
    n: nat,
    results: Seq<JsonView>,
) -> bool {
    match step {
        StepView::Done(answer) => answer is Ok ==> (arguments.field("max_count"@) is None ==> n
            == paths.len()) && answer == crate::rg_tool::merged_answer(
            search_mode(arguments),
            results,
        ),
        StepView::Ask(
            RgStageView::Multi { call, mode, arguments: a, rest, remaining, results: r },
            action,
        ) => {
            &&& mode == search_mode(arguments)
            &&& n < paths.len()
            &&& rest == paths.skip((n + 1) as int)
            &&& r == results
            &&& arguments.field("max_count"@) is None ==> remaining is None
            &&& is_search_of(a, scope, arguments, paths[n as int], remaining)
            &&& is_exec_of(call, action, scope, rg_method(mode), a)
        },
        _ => false,
    }
}

proof fn lemma_in_turn_goes(
    scope: CallScopeView,
    arguments: JsonView,
    paths: Seq<Seq<char>>,
    base: JsonView,
    n: nat,
    remaining: Option<u64>,
    results: Seq<JsonView>,
)
    requires
        n <= paths.len(),
        arguments.field("max_count"@) is None ==> remaining is None,
        base is Obj,
        remaining is None ==> base.field("max_count"@) == arguments.field("max_count"@),
        forall|key: Seq<char>|
            key != "path"@ && key != "max_count"@ ==> #[trigger] base.field(key)
                == search_arguments(scope, arguments).field(key),
    ensures
        searches_in_turn(
            multi_step(
                scope,
                search_mode(arguments),
                base,
                paths.skip(n as int),
                remaining,
                results,
            ),
            scope,
            arguments,
            paths,
            n,
            results,
        ),
{
    lemma_search_names();
    if n < paths.len() {
        let later = paths.skip(n as int);
        assert(later[0] == paths[n as int]);
        assert(later.drop_first() =~= paths.skip((n + 1) as int));
        let a = path_arguments(base, later[0], remaining);
        lemma_exec_begins(scope, rg_method(search_mode(arguments)), a);
        assert forall|key: Seq<char>| key != "path"@ && key != "max_count"@ implies #[trigger] a.field(
            key,
        ) == search_arguments(scope, arguments).field(key) by {
            assert(a.field(key) == base.field(key));
        }
        assert(is_search_of(a, scope, arguments, paths[n as int], remaining));
    } else {
        assert(paths.skip(n as int).len() == 0);
    }
}

proof fn lemma_in_turn(
    call: CallView,
    scope: CallScopeView,
    paths: Seq<Seq<char>>,
    events: Seq<(EventView, i64)>,
    k: int,
)
    requires
        1 <= k <= events.len(),
        call.name == "rg"@,
        gives_paths(call.arguments, paths),
        asks_for_content(call.arguments) || asks_for_files(call.arguments),
        is_for_session(call, scope.session_id),
        trimmed(scope.workdir).len() > 0,
        events[0].0 == EventView::Text(Ok(scope.workdir)),
    ensures
        searches_in_turn(
            rg_at(scope, call.arguments, events.skip(1), k - 1),
            scope,
            call.arguments,
            paths,
            asked_before(call, events, k),
            results_before(call, events, k),
        ),
    decreases k,
{
    let arguments = call.arguments;
    lemma_search_names();
    lemma_mode(arguments);
    lemma_goes_on_as_rg(call, events, k);
    if k == 1 {
        lemma_prepared(scope, arguments);
        let p = prepared_rg(scope.workdir, search_mode(arguments), arguments);
        lemma_paths_rest(p);
        let items = arguments.field("paths"@)->0->Arr_0;
        lemma_filled_all(items, paths);
        let base = search_arguments(scope, arguments);
        assert(paths.skip(0) =~= paths);
        reveal_with_fuel(call_at, 2);
        reveal_with_fuel(asked_before, 2);
        reveal_with_fuel(results_before, 2);
        lemma_in_turn_goes(
            scope,
            arguments,
            paths,
            base,
            0,
            match_limit(base),
            Seq::empty(),
        );
    } else {
        lemma_in_turn(call, scope, paths, events, k - 1);
        lemma_goes_on_as_rg(call, events, k - 1);
        let event = events[k - 1].0;
        assert(events.skip(1)[k - 2] == events[k - 1]);
        let n = asked_before(call, events, k - 1);
        let results = results_before(call, events, k - 1);
        if let StepView::Ask(
            RgStageView::Multi { call: c, mode, arguments: a, rest, remaining, results: r },
            action,
        ) = rg_at(scope, arguments, events.skip(1), k - 2) {
            lemma_exec_goes_on(c, action, scope, rg_method(mode), a, event);
            if let StepView::Done(Ok(result)) = exec_next(c, scope, event) {
                lemma_in_turn_goes(
                    scope,
                    arguments,
                    paths,
                    a,
                    n + 1,
                    left_after(remaining, result),
                    results.push(result),
                );
            }
        }
    }
}

/// Several paths are searched one after the other, in their order, each as the arguments
/// describe the search. The answer puts the results together, and unless a number of matches
/// sets an end, it comes only when every path was searched.
pub proof fn law_paths_are_searched_in_turn(
    call: CallView,
    session_id: Seq<char>,
    workdir: Seq<char>,
    paths: Seq<Seq<char>>,
    events: Seq<(EventView, i64)>,
    k: int,
)
    requires
        1 <= k <= events.len(),
        call.name == "rg"@,
        gives_paths(call.arguments, paths),
        asks_for_content(call.arguments) || asks_for_files(call.arguments),
        is_for_session(call, session_id),
        trimmed(workdir).len() > 0,
        events[0].0 == EventView::Text(Ok(workdir)),
    ensures
        ({
            let n = asked_before(call, events, k);
            &&& action_at(call, events, k) matches Some(a) ==> a is Execute ==> {
                &&& n < paths.len()
                &&& is_search(a, call.arguments, workdir)
                &&& searched_path(a) == Some(JsonView::Str(paths[n as int]))
                &&& call.arguments.field("max_count"@) is None
                    ==> a->Execute_params.field("max_count"@) is None
            }
            &&& call_at(call, events, k) matches StepView::Done(answer) ==> answer is Ok ==> {
                &&& call.arguments.field("max_count"@) is None ==> n == paths.len()
                &&& answer == crate::rg_tool::merged_answer(
                    if asks_for_content(call.arguments) {
                        RgMode::Content
                    } else {
                        RgMode::Files
                    },
                    results_before(call, events, k),
                )
            }
            &&& k == 1 && goes_to_executor(call.arguments, "local"@) ==> (action_at(
                call,
                events,
                k,
            ) matches Some(a) && a is Execute || call.arguments.field("max_count"@) is Some)
        }),
{
    let scope = CallScopeView { session_id, workdir };
    let arguments = call.arguments;
    lemma_goes_on_as_rg(call, events, k);
    lemma_in_turn(call, scope, paths, events, k);
    lemma_search_names();
    lemma_prepared(scope, arguments);
    lemma_paths_rest(prepared_rg(scope.workdir, search_mode(arguments), arguments));
    reveal_with_fuel(asked_before, 2);
    if k == 1 {
        reveal_with_fuel(call_at, 2);
        assert(!(action_at(call, events, 0) matches Some(a) && a is Execute));
        assert(asked_before(call, events, 1) == 0);
    }
    if let StepView::Ask(
        RgStageView::Multi { call: c, mode, arguments: a, rest: _, remaining: _, results: _ },
        action,
    ) = rg_at(scope, arguments, events.skip(1), k - 1) {
        if action is Execute {
            lemma_search(c, action, scope, arguments, a);
        }
        if k == 1 && goes_to_executor(arguments, "local"@) {
            assert(a.field("executor"@) == arguments.field("executor"@));
            assert(a.field("targetExecutor"@) == arguments.field("targetExecutor"@));
        }
    }
}

// ---------------------------------------------------------------------------
// Results
// ---------------------------------------------------------------------------

/// Results put together are those of the first ones with one more: its text follows, on a line
/// of its own, and its numbers are added.
pub proof fn law_results_are_put_together(results: Seq<JsonView>, one: JsonView, text: Seq<char>)
    requires
        one.field2("output"@, "text"@) == Some(JsonView::Str(text)),
        text.len() > 0,
    ensures
        ({
            let before = merged_results(results);
            let after = merged_results(results.push(one));
            let shown = |v: JsonView| v.field2("output"@, "text"@)->0->Str_0;
            let number = |v: JsonView, key: Seq<char>| v.field2("metadata"@, key)->0->Int_0;
            &&& before.field2("output"@, "text"@) is Some && after.field2("output"@, "text"@) is Some
            &&& shown(after) == shown(before) + text + if text.last() == '\n' {
                Seq::<char>::empty()
            } else {
                seq!['\n']
            }
            &&& one.field2("metadata"@, "matches"@) matches Some(JsonView::Int(n)) ==> 0 <= n
                <= u64::MAX ==> number(after, "matches"@) == number(before, "matches"@) + n
            &&& one.field2("metadata"@, "filesWalked"@) matches Some(JsonView::Int(n)) ==> 0 <= n
                <= u64::MAX ==> number(after, "filesWalked"@) == number(before, "filesWalked"@) + n
            &&& one.field2("metadata"@, "count"@) matches Some(JsonView::Int(n)) ==> 0 <= n
                <= u64::MAX ==> number(after, "count"@) == number(before, "count"@) + n
            &&& after.field2("metadata"@, "code"@) == Some(
                JsonView::Int(
                    if number(after, "matches"@) > 0 {
                        0
                    } else {
                        1
                    },
                ),
            )
            &&& after.field2("metadata"@, "timedOut"@) == Some(
                JsonView::Bool(
                    before.field2("metadata"@, "timedOut"@) == Some(JsonView::Bool(true))
                        || one.field2("metadata"@, "timedOut"@) == Some(JsonView::Bool(true)),
                ),
            )
        }),
        ({
            let none = merged_results(Seq::empty());
            &&& none.field2("output"@, "text"@) == Some(JsonView::Str(Seq::empty()))
            &&& none.field2("metadata"@, "matches"@) == Some(JsonView::Int(0))
            &&& none.field2("metadata"@, "filesWalked"@) == Some(JsonView::Int(0))
            &&& none.field2("metadata"@, "count"@) == Some(JsonView::Int(0))
            &&& none.field2("metadata"@, "timedOut"@) == Some(JsonView::Bool(false))
        }),
{
    lemma_total_names();
    let all = results.push(one);
    assert(all.drop_last() =~= results);
    assert(all.last() == one);
    reveal_strlit("\n");
    assert("\n"@ =~= seq!['\n']);
    let s = all_stdout(results) + text;
    assert(s.last() == text.last());
    assert(crate::text::has_suffix(s, "\n"@) <==> s.last() == '\n') by {
        assert(s.subrange(s.len() - 1, s.len() as int) =~= seq![s.last()]);
        if crate::text::has_suffix(s, "\n"@) {
            assert(s.subrange(s.len() - 1, s.len() as int)[0] == '\n');
        }
    }
    assert(all_stdout(all) == if s.last() == '\n' {
        s
    } else {
        s.push('\n')
    });
    assert(s + Seq::<char>::empty() =~= s);
    assert(s.push('\n') =~= s + seq!['\n']);
    assert(crate::rg::any_timed_out(all) <==> crate::rg::any_timed_out(results)
        || crate::rg::timed_out(one)) by {
        if crate::rg::any_timed_out(results) {
            let i = choose|i: int|
                0 <= i < results.len() && crate::rg::timed_out(#[trigger] results[i]);
            assert(crate::rg::timed_out(all[i]));
        }
        if crate::rg::timed_out(one) {
            assert(crate::rg::timed_out(all[results.len() as int]));
        }
        if crate::rg::any_timed_out(all) {
            let i = choose|i: int| 0 <= i < all.len() && crate::rg::timed_out(#[trigger] all[i]);
            if i < results.len() {
                assert(crate::rg::timed_out(results[i]));
            }
        }
    }
}

proof fn lemma_total_names()
    ensures
        "output"@ != "text"@,
        "output"@ != "metadata"@,
        "output"@ != "stdout"@,
        "output"@ != "stderr"@,
        "output"@ != "matches"@,
        "output"@ != "filesWalked"@,
        "output"@ != "timedOut"@,
        "output"@ != "code"@,
        "output"@ != "count"@,
        "output"@ != "mode"@,
        "text"@ != "metadata"@,
        "text"@ != "stdout"@,
        "text"@ != "stderr"@,
        "text"@ != "matches"@,
        "text"@ != "filesWalked"@,
        "text"@ != "timedOut"@,
        "text"@ != "code"@,
        "text"@ != "count"@,
        "text"@ != "mode"@,
        "metadata"@ != "stdout"@,
        "metadata"@ != "stderr"@,
        "metadata"@ != "matches"@,
        "metadata"@ != "filesWalked"@,
        "metadata"@ != "timedOut"@,
        "metadata"@ != "code"@,
        "metadata"@ != "count"@,
        "metadata"@ != "mode"@,
        "stdout"@ != "stderr"@,
        "stdout"@ != "matches"@,
        "stdout"@ != "filesWalked"@,
        "stdout"@ != "timedOut"@,
        "stdout"@ != "code"@,
        "stdout"@ != "count"@,
        "stdout"@ != "mode"@,
        "stderr"@ != "matches"@,
        "stderr"@ != "filesWalked"@,
        "stderr"@ != "timedOut"@,
        "stderr"@ != "code"@,
        "stderr"@ != "count"@,
        "stderr"@ != "mode"@,
        "matches"@ != "filesWalked"@,
        "matches"@ != "timedOut"@,
        "matches"@ != "code"@,
        "matches"@ != "count"@,
        "matches"@ != "mode"@,
        "filesWalked"@ != "timedOut"@,
        "filesWalked"@ != "code"@,
        "filesWalked"@ != "count"@,
        "filesWalked"@ != "mode"@,
        "timedOut"@ != "code"@,
        "timedOut"@ != "count"@,
        "timedOut"@ != "mode"@,
        "code"@ != "count"@,
        "code"@ != "mode"@,
        "count"@ != "mode"@,
{
    reveal_strlit("output");
    reveal_strlit("text");
    reveal_strlit("metadata");
    reveal_strlit("stdout");
    reveal_strlit("stderr");
    reveal_strlit("matches");
    reveal_strlit("filesWalked");
    reveal_strlit("timedOut");
    reveal_strlit("code");
    reveal_strlit("count");
    reveal_strlit("mode");
    assert("output"@.len() == 6);
    assert("text"@.len() == 4);
    assert("metadata"@.len() == 8);
    assert("stdout"@.len() == 6);
    assert("stderr"@.len() == 6);
    assert("matches"@.len() == 7);
    assert("filesWalked"@.len() == 11);
    assert("timedOut"@.len() == 8);
    assert("code"@.len() == 4);
    assert("count"@.len() == 5);
    assert("mode"@.len() == 4);
    assert("output"@[0] == 'o' && "stdout"@[0] == 's');
    assert("output"@[0] == 'o' && "stderr"@[0] == 's');
    assert("text"@[0] == 't' && "code"@[0] == 'c');
    assert("text"@[0] == 't' && "mode"@[0] == 'm');
    assert("metadata"@[0] == 'm' && "timedOut"@[0] == 't');
    assert("stdout"@[3] == 'o' && "stderr"@[3] == 'e');
    assert("code"@[0] == 'c' && "mode"@[0] == 'm');
}


/// The text of a search ends with the number of matches, of files and the code, one below the
/// other.
pub proof fn law_numbers_are_shown(result: JsonView, matches: JsonView, walked: JsonView, code: JsonView)
    requires
        result.field2("metadata"@, "matches"@) == Some(matches),
        result.field2("metadata"@, "filesWalked"@) == Some(walked),
        result.field2("metadata"@, "code"@) == Some(code),
        result.field2("metadata"@, "timedOut"@) is None,
    ensures
        rg_text(result) == crate::output::with_blank_line(crate::output::output_text(result)) + (
        "matches:"@ + plain(matches) + "\n"@ + ("filesWalked:"@ + plain(walked)) + "\n"@ + (
        "code:"@ + plain(code))),
{
    let f = seq![
        "matches:"@ + plain(matches),
        "filesWalked:"@ + plain(walked),
        "code:"@ + plain(code),
    ];
    assert(crate::rg::rg_footer(result) =~= f);
    assert(f.drop_last() =~= seq![f[0], f[1]]);
    assert(f.drop_last().drop_last() =~= seq![f[0]]);
    reveal_with_fuel(crate::text::joined, 4);
}

/// A search for files reports the number of files as its matches, and whether there were any as
/// its code; the rest of its result stays.
pub proof fn law_found_files_are_matches(result: JsonView, count: int)
    requires
        result.field2("metadata"@, "count"@) == Some(JsonView::Int(count)),
        0 <= count <= u64::MAX,
    ensures
        files_result(result).field2("metadata"@, "matches"@) == Some(JsonView::Int(count)),
        files_result(result).field2("metadata"@, "code"@) == Some(
            JsonView::Int(
                if count > 0 {
                    0
                } else {
                    1
                },
            ),
        ),
        files_result(result).field2("metadata"@, "mode"@) == Some(JsonView::Str("files"@)),
        files_result(result).field("output"@) == result.field("output"@),
        forall|key: Seq<char>|
            key != "matches"@ && key != "code"@ && key != "mode"@ ==> #[trigger] files_result(
                result,
            ).field2("metadata"@, key) == result.field2("metadata"@, key),
{
    lemma_total_names();
}

/// The reply to a search is its answer: the text of the executor with the numbers below it.
pub proof fn law_results_are_answered(
    call: CallView,
    path: Option<JsonView>,
    events: Seq<(EventView, i64)>,
    k: int,
    result: JsonView,
)
    requires
        call.name == "rg"@,
        gives_one_path(call.arguments, path),
        0 <= k < events.len(),
        action_at(call, events, k) matches Some(a) && a is Execute,
        events[k].0 == EventView::Reply(
            ExecutorReplyView { ok: true, error: None, result: Some(result) },
        ),
    ensures
        ({
            let executor = action_at(call, events, k)->0->Execute_executor->0;
            let found = with_route(result, executor);
            call_at(call, events, k + 1) matches StepView::Done(Ok(r)) && r.content.len() == 1
                && r.content[0].text == if asks_for_content(call.arguments) {
                rg_text(found)
            } else {
                rg_text(files_result(found))
            } && r.structured_content == Some(
                stripped(
                    if asks_for_content(call.arguments) {
                        found
                    } else {
                        files_result(found)
                    },
                ),
            )
        }),
{
    law_one_path_is_searched_once(call, path, events, k);
    lemma_goes_on_as_rg(call, events, k);
    lemma_goes_on_as_rg(call, events, k + 1);
    let session_id = trimmed(call.context.executor_session_id->0);
    let scope = CallScopeView { session_id, workdir: events[0].0->Text_0->Ok_0 };
    lemma_single_at(scope, call.arguments, path, events.skip(1), k - 1);
    lemma_first_searches(scope, call.arguments, events.skip(1), k - 1);
    assert(events.skip(1)[k - 1] == events[k]);
    lemma_mode(call.arguments);
}

/// The limit of a search counts for all its paths together: the first path may have as many matches
/// as the limit allows, the next one what is left of it, and where nothing is left no further
/// path is searched.
pub proof fn law_paths_share_the_limit(
    scope: CallScopeView,
    mode: RgMode,
    arguments: JsonView,
    first: Seq<char>,
    second: Seq<char>,
    limit: u64,
    result: JsonView,
    matches: u64,
)
    requires
        arguments is Obj,
        goes_to_executor(arguments, "local"@),
        limit > 0,
        result is Obj,
        result.field2("metadata"@, "matches"@) == Some(JsonView::Int(matches as int)),
    ensures
        ({
            let asked = multi_step(
                scope,
                mode,
                arguments,
                seq![first, second],
                Some(limit),
                Seq::empty(),
            );
            let reply = ExecutorReplyView { ok: true, error: None, result: Some(result) };
            let next_asked = rg_next(asked->Ask_0, scope, EventView::Reply(reply));
            &&& asked matches StepView::Ask(_, action) && action is Execute && searched_path(action)
                == Some(JsonView::Str(first)) && action->Execute_params.field("max_count"@) == Some(
                JsonView::Int(limit as int),
            )
            &&& matches < limit ==> (next_asked matches StepView::Ask(_, action) && action is Execute
                && searched_path(action) == Some(JsonView::Str(second))
                && action->Execute_params.field("max_count"@) == Some(
                JsonView::Int(limit - matches),
            ))
            &&& matches >= limit ==> next_asked is Done
        }),
{
    lemma_search_names();
    lemma_total_names();
    lemma_routing_names();
    let paths = seq![first, second];
    let a = path_arguments(arguments, first, Some(limit));
    assert(a.field("executor"@) == arguments.field("executor"@));
    assert(a.field("targetExecutor"@) == arguments.field("targetExecutor"@));
    law_local_executor_is_asked(scope, rg_method(mode), a);
    let asked = multi_step(scope, mode, arguments, paths, Some(limit), Seq::empty());
    let action = asked->Ask_1;
    assert(action->Execute_params.field("path"@) == a.field("path"@));
    assert(action->Execute_params.field("max_count"@) == a.field("max_count"@));
    assert(paths.drop_first() =~= seq![second]);
    let routed = with_route(result, "local"@);
    assert(routed.field2("metadata"@, "matches"@) == result.field2("metadata"@, "matches"@));
    let left = left_after(Some(limit), routed);
    if matches < limit {
        assert(left == Some((limit - matches) as u64));
        let b = path_arguments(a, second, left);
        assert(b.field("executor"@) == arguments.field("executor"@));
        assert(b.field("targetExecutor"@) == arguments.field("targetExecutor"@));
        law_local_executor_is_asked(scope, rg_method(mode), b);
        let next = multi_step(
            scope,
            mode,
            a,
            seq![second],
            left,
            Seq::<JsonView>::empty().push(routed),
        );
        let action = next->Ask_1;
        assert(action->Execute_params.field("path"@) == b.field("path"@));
        assert(action->Execute_params.field("max_count"@) == b.field("max_count"@));
    }
}

// ---------------------------------------------------------------------------
// Globs
// ---------------------------------------------------------------------------

proof fn lemma_added(first: Seq<JsonView>, all: Seq<JsonView>, g: Seq<char>, i: int)
    requires
        0 <= i < first.len(),
        first[i] == JsonView::Str(g),
        names_no_directory(g),
    ensures
        all.contains(JsonView::Str("**/"@ + g)) || added_globs(first, all).contains("**/"@ + g),
    decreases first.len(),
{
    let head = added_globs(first.drop_last(), all);
    let now = added_globs(first, all);
    let deep = "**/"@ + g;
    if i < first.len() - 1 {
        assert(first.drop_last()[i] == first[i]);
        lemma_added(first.drop_last(), all, g, i);
    }
    if head.contains(deep) {
        let k = choose|k: int| 0 <= k < head.len() && head[k] == deep;
        assert(now[k] == deep);
    } else if i == first.len() - 1 && !all.contains(JsonView::Str(deep)) {
        assert(now[now.len() - 1] == deep);
    }
}

proof fn lemma_added_from(first: Seq<JsonView>, all: Seq<JsonView>, k: int)
    requires
        0 <= k < added_globs(first, all).len(),
    ensures
        exists|i: int|
            0 <= i < first.len() && ((#[trigger] first[i]) matches JsonView::Str(g)
                && names_no_directory(g) && added_globs(first, all)[k] == "**/"@ + g),
        !all.contains(JsonView::Str(added_globs(first, all)[k])),
    decreases first.len(),
{
    let fewer = first.drop_last();
    let head = added_globs(fewer, all);
    let now = added_globs(first, all);
    if k < head.len() {
        lemma_added_from(fewer, all, k);
        let i = choose|i: int|
            0 <= i < fewer.len() && ((#[trigger] fewer[i]) matches JsonView::Str(g)
                && names_no_directory(g) && head[k] == "**/"@ + g);
        assert(first[i] == fewer[i]);
        assert(now[k] == head[k]);
    } else {
        assert(first[first.len() - 1] is Str);
    }
}

/// A glob that names no directory is searched for in every directory: it is joined by one that says
/// so, unless that is given already. Nothing else is added, and all that was given stays.
pub proof fn law_globs_reach_every_directory(globs: Seq<JsonView>, g: Seq<char>, i: int, k: int)
    requires
        0 <= i < globs.len(),
        globs[i] == JsonView::Str(g),
        0 <= k < expanded_globs(globs).len(),
    ensures
        expanded_globs(globs)[i] == globs[i],
        trimmed(g).len() > 0 && !has_text(g, "/"@) && !has_text(g, "\\"@) ==> expanded_globs(
            globs,
        ).contains(JsonView::Str("**/"@ + g)),
        k >= globs.len() ==> exists|j: int|
            0 <= j < globs.len() && ((#[trigger] globs[j]) matches JsonView::Str(other)
                && names_no_directory(other) && expanded_globs(globs)[k] == JsonView::Str(
                "**/"@ + other,
            )),
{
    let added = added_globs(globs, globs);
    let all = expanded_globs(globs);
    let deep = JsonView::Str("**/"@ + g);
    if trimmed(g).len() > 0 && !has_text(g, "/"@) && !has_text(g, "\\"@) {
        lemma_plain_glob(g);
        lemma_added(globs, globs, g, i);
        if globs.contains(deep) {
            let j = choose|j: int| 0 <= j < globs.len() && globs[j] == deep;
            assert(all[j] == deep);
        } else {
            let j = choose|j: int| 0 <= j < added.len() && added[j] == "**/"@ + g;
            assert(all[globs.len() + j] == deep);
        }
    }
    if k >= globs.len() {
        lemma_added_from(globs, globs, k - globs.len());
    }
}

proof fn lemma_plain_glob(g: Seq<char>)
    requires
        trimmed(g).len() > 0,
        !has_text(g, "/"@),
        !has_text(g, "\\"@),
    ensures
        names_no_directory(g),
{
    let t = trimmed(g);
    law_trimming_cuts_white_space(g);
    reveal_strlit("/");
    reveal_strlit("\\");
    reveal_strlit("**/");
    assert("/"@ =~= seq!['/'] && "\\"@ =~= seq!['\\']);
    assert("**/"@.len() == 3 && "**/"@[2] == '/');
    lemma_inside(g, "/"@);
    lemma_inside(g, "\\"@);
    if has_prefix(t, "**/"@) {
        assert(t.subrange(0, 3)[2] == t[2]);
        assert(t.subrange(2, 3) =~= "/"@);
        assert(occurs_at(t, "/"@, 2));
    }
}

proof fn lemma_inside(g: Seq<char>, p: Seq<char>)
    ensures
        has_text(trimmed(g), p) ==> has_text(g, p),
{
    let t = trimmed(g);
    law_trimming_cuts_white_space(g);
    let (a, b) = choose|a: int, b: int|
        0 <= a <= b <= g.len() && t == #[trigger] g.subrange(a, b) && (forall|i: int|
            0 <= i < a || b <= i < g.len() ==> is_space(#[trigger] g[i]));
    if has_text(t, p) {
        let at = choose|at: int| occurs_at(t, p, at);
        assert(g.subrange(a + at, a + at + p.len()) =~= t.subrange(at, at + p.len()));
        assert(occurs_at(g, p, a + at));
    }
}

} // verus!
