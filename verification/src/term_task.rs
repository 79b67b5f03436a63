//! Shell tasks as a terminal shows them.

use vstd::prelude::*;

use crate::exbash::one_line;
use crate::exbash::single_line_exbash_list_text;
use crate::fields::is_blank;
use crate::fields::long_of;
use crate::fields::json_i64;
use crate::json::opt_ref_view;
use crate::json::opt_view;
use crate::json::views;
use crate::json::Json;
use crate::json::JsonView;
use crate::number::decimal;
use crate::number::parse_i64;
use crate::number::parsed_int;
use crate::number::within;
use crate::number::write_decimal;
use crate::order::in_order;
use crate::order::is_ordered;
use crate::order::is_weak_order;
use crate::order::lemma_in_order;
use crate::order::lemma_put_at;
use crate::text::cat;
use crate::text::has_prefix;
use crate::text::head_of;
use crate::text::opt_text;
use crate::text::same;
use crate::text::split;
use crate::text::split_on;
use crate::text::starts_with;
use crate::text::strip_prefix;
use crate::text::take_chars;
use crate::text::texts;
use crate::text::trimmed;
use crate::types::copy_opt;

verus! {

/// A task as a terminal knows it.
#[derive(Debug, PartialEq, Eq)]
pub struct ExbashTask {
    pub async_id: String,
    pub scope: String,
    pub executor: String,
    pub description: String,
    pub command: String,
    pub cwd: String,
    pub state: Option<String>,
    pub exit_code: Option<Json>,
    pub started_at: Option<i64>,
}

#[verifier::ext_equal]
pub ghost struct ExbashTaskView {
    pub async_id: Seq<char>,
    pub scope: Seq<char>,
    pub executor: Seq<char>,
    pub description: Seq<char>,
    pub command: Seq<char>,
    pub cwd: Seq<char>,
    pub state: Option<Seq<char>>,
    pub exit_code: Option<JsonView>,
    pub started_at: Option<i64>,
}

impl ExbashTask {
    pub open spec fn view(&self) -> ExbashTaskView {
        ExbashTaskView {
            async_id: self.async_id@,
            scope: self.scope@,
            executor: self.executor@,
            description: self.description@,
            command: self.command@,
            cwd: self.cwd@,
            state: opt_text(self.state),
            exit_code: opt_view(self.exit_code),
            started_at: self.started_at,
        }
    }
}

impl ExbashTask {
    pub fn copy(&self) -> (r: Self)
        ensures
            r@ == self@,
    {
        let exit_code = match &self.exit_code {
            Some(v) => Some(v.clone()),
            None => None,
        };
        ExbashTask {
            async_id: self.async_id.clone(),
            scope: self.scope.clone(),
            executor: self.executor.clone(),
            description: self.description.clone(),
            command: self.command.clone(),
            cwd: self.cwd.clone(),
            state: copy_opt(&self.state),
            exit_code,
            started_at: self.started_at,
        }
    }
}

pub open spec fn client_views(s: Seq<ExbashTask>) -> Seq<ExbashTaskView> {
    Seq::new(s.len(), |i: int| s[i].view())
}

// ---------------------------------------------------------------------------
// States
// ---------------------------------------------------------------------------

/// The state that an exit code tells.
pub open spec fn code_state(v: JsonView) -> Seq<char> {
    match long_of(v) {
        Some(n) => "exit:"@ + decimal(n as int),
        None => match v {
            JsonView::Str(s) => if s == "timeout"@ {
                "timeout"@
            } else if s == "stop"@ || s == "stopped"@ {
                "stop"@
            } else {
                "unknown"@
            },
            _ => "unknown"@,
        },
    }
}

pub fn normalize_exit_code(value: &Json) -> (r: String)
    ensures
        r@ == code_state(value@),
{
    match json_i64(value) {
        Some(n) => {
            let number = write_decimal(n as i128);
            cat("exit:", number.as_str())
        },
        None => match value.as_str() {
            Some(s) => if same(s, "timeout") {
                "timeout".to_owned()
            } else if same(s, "stop") || same(s, "stopped") {
                "stop".to_owned()
            } else {
                "unknown".to_owned()
            },
            None => "unknown".to_owned(),
        },
    }
}

/// A reported state as it is shown; one that is not known is told by the exit code.
pub open spec fn normal_state(state: Seq<char>, exit_code: Option<JsonView>) -> Seq<char> {
    if state == "running"@ || state == "timeout"@ || state == "unknown"@ {
        state
    } else if state == "stop"@ || state == "stopped"@ {
        "stop"@
    } else if has_prefix(state, "exit:"@) {
        state
    } else {
        match exit_code {
            Some(v) => code_state(v),
            None => "unknown"@,
        }
    }
}

pub fn normalize_state(state: &str, exit_code: Option<&Json>) -> (r: String)
    ensures
        r@ == normal_state(state@, opt_ref_view(exit_code)),
{
    if same(state, "running") || same(state, "timeout") || same(state, "unknown") {
        state.to_owned()
    } else if same(state, "stop") || same(state, "stopped") {
        "stop".to_owned()
    } else if starts_with(state, "exit:") {
        state.to_owned()
    } else {
        match exit_code {
            Some(v) => normalize_exit_code(v),
            None => "unknown".to_owned(),
        }
    }
}

pub open spec fn state_of(task: ExbashTaskView) -> Seq<char> {
    match task.state {
        Some(s) => if s.len() > 0 {
            normal_state(s, task.exit_code)
        } else {
            by_code(task.exit_code)
        },
        None => by_code(task.exit_code),
    }
}

pub open spec fn by_code(exit_code: Option<JsonView>) -> Seq<char> {
    match exit_code {
        Some(v) => code_state(v),
        None => "unknown"@,
    }
}

pub fn task_state(task: &ExbashTask) -> (r: String)
    ensures
        r@ == state_of(task@),
{
    match &task.state {
        Some(s) => if s.as_str().unicode_len() > 0 {
            return match &task.exit_code {
                Some(v) => normalize_state(s.as_str(), Some(v)),
                None => normalize_state(s.as_str(), None),
            };
        },
        None => {},
    }
    match &task.exit_code {
        Some(v) => normalize_exit_code(v),
        None => "unknown".to_owned(),
    }
}

pub open spec fn runs(task: ExbashTaskView) -> bool {
    state_of(task) == "running"@
}

pub fn is_running(task: &ExbashTask) -> (r: bool)
    ensures
        r == runs(task@),
{
    let s = task_state(task);
    same(s.as_str(), "running")
}

/// The exit code of a task that ended with one that is not negative.
pub open spec fn exit_number(task: ExbashTaskView) -> Option<u32> {
    let s = state_of(task);
    if has_prefix(s, "exit:"@) {
        match within(parsed_int(s.skip("exit:"@.len() as int)), 0, u32::MAX as int) {
            Some(n) => Some(n as u32),
            None => None,
        }
    } else {
        None
    }
}

pub fn exit_u32(task: &ExbashTask) -> (r: Option<u32>)
    ensures
        r == exit_number(task@),
{
    let s = task_state(task);
    match strip_prefix(s.as_str(), "exit:") {
        Some(code) => match parse_i64(code.as_str()) {
            Some(n) => if 0 <= n && n <= 0xffff_ffff {
                Some(n as u32)
            } else {
                None
            },
            None => None,
        },
        None => None,
    }
}

pub fn same_task(left: &ExbashTask, right: &ExbashTask) -> (r: bool)
    ensures
        r == is_same(left@, right@),
{
    same(left.async_id.as_str(), right.async_id.as_str()) && same(
        left.executor.as_str(),
        right.executor.as_str(),
    ) && same(left.scope.as_str(), right.scope.as_str())
}

pub open spec fn is_same(left: ExbashTaskView, right: ExbashTaskView) -> bool {
    left.async_id == right.async_id && left.executor == right.executor && left.scope == right.scope
}

pub open spec fn any_runs(tasks: Seq<ExbashTaskView>) -> bool {
    exists|i: int| 0 <= i < tasks.len() && runs(#[trigger] tasks[i])
}

pub fn has_running_task(tasks: &Vec<ExbashTask>) -> (r: bool)
    ensures
        r == any_runs(client_views(tasks@)),
{
    let mut i: usize = 0;
    while i < tasks.len()
        invariant
            i <= tasks@.len(),
            forall|j: int| 0 <= j < i ==> !runs(#[trigger] client_views(tasks@)[j]),
        decreases tasks.len() - i,
    {
        assert(client_views(tasks@)[i as int] == tasks@[i as int]@);
        if is_running(&tasks[i]) {
            return true;
        }
        i = i + 1;
    }
    false
}

// ---------------------------------------------------------------------------
// The list
// ---------------------------------------------------------------------------

pub open spec fn begun(task: ExbashTaskView) -> i64 {
    match task.started_at {
        Some(t) => t,
        None => 0,
    }
}

/// Running tasks stand before the others; among either, later ones before earlier ones.
pub open spec fn shown_after(a: ExbashTaskView, b: ExbashTaskView) -> bool {
    if runs(a) == runs(b) {
        begun(a) < begun(b)
    } else {
        runs(b)
    }
}

pub open spec fn shown_order() -> spec_fn(ExbashTaskView, ExbashTaskView) -> bool {
    |a: ExbashTaskView, b: ExbashTaskView| shown_after(a, b)
}

/// The list of the tasks of the workspace and of the session.
pub open spec fn task_list(
    workspace: Seq<ExbashTaskView>,
    local: Seq<ExbashTaskView>,
) -> Seq<ExbashTaskView> {
    in_order(workspace + local, shown_order())
}

/// The list holds each task that it is made of, the running ones first and otherwise the
/// later ones first.
pub proof fn law_running_tasks_first(
    workspace: Seq<ExbashTaskView>,
    local: Seq<ExbashTaskView>,
)
    ensures
        task_list(workspace, local).to_multiset() == (workspace + local).to_multiset(),
        task_list(workspace, local).len() == workspace.len() + local.len(),
        forall|i: int, j: int|
            0 <= i < j < task_list(workspace, local).len() ==> !shown_after(
                #[trigger] task_list(workspace, local)[i],
                #[trigger] task_list(workspace, local)[j],
            ),
{
    assert(is_weak_order(shown_order()));
    lemma_in_order(workspace + local, shown_order());
    let s = task_list(workspace, local);
    assert(is_ordered(s, shown_order()));
    assert forall|i: int, j: int| 0 <= i < j < s.len() implies !shown_after(
        #[trigger] s[i],
        #[trigger] s[j],
    ) by {
        assert(!shown_order()(s[i], s[j]));
    }
}

fn begin_of(task: &ExbashTask) -> (r: i64)
    ensures
        r == begun(task@),
{
    match task.started_at {
        Some(t) => t,
        None => 0,
    }
}

fn goes_after(a: &ExbashTask, b: &ExbashTask) -> (r: bool)
    ensures
        r == shown_after(a@, b@),
{
    let x = is_running(a);
    let y = is_running(b);
    if x == y {
        begin_of(a) < begin_of(b)
    } else {
        y
    }
}

fn put_task(sorted: Vec<ExbashTask>, task: ExbashTask) -> (r: Vec<ExbashTask>)
    ensures
        client_views(r@) == crate::order::put_in_order(client_views(sorted@), task@, shown_order()),
{
    let ghost before = client_views(sorted@);
    let mut sorted = sorted;
    let mut k: usize = sorted.len();
    while k > 0 && goes_after(&sorted[k - 1], &task)
        invariant
            k <= sorted@.len(),
            before == client_views(sorted@),
            forall|j: int| k <= j < before.len() ==> shown_order()(#[trigger] before[j], task@),
        decreases k,
    {
        assert(before[k - 1] == sorted@[k - 1]@);
        k = k - 1;
    }
    proof {
        assert(k > 0 ==> before[k - 1] == sorted@[k - 1]@);
        lemma_put_at(before, task@, shown_order(), k as int);
    }
    sorted.insert(k, task);
    assert(client_views(sorted@) =~= before.insert(k as int, task@));
    sorted
}

/// The list of the tasks of the workspace and of the session.
pub fn merge_task_lists(workspace: &Vec<ExbashTask>, local: &Vec<ExbashTask>) -> (r: Vec<
    ExbashTask,
>)
    ensures
        client_views(r@) == task_list(client_views(workspace@), client_views(local@)),
{
    let ghost all = client_views(workspace@) + client_views(local@);
    let mut sorted: Vec<ExbashTask> = Vec::new();
    let mut i: usize = 0;
    assert(all.take(0) =~= Seq::empty());
    assert(client_views(sorted@) =~= Seq::empty());
    while i < workspace.len()
        invariant
            i <= workspace@.len(),
            all == client_views(workspace@) + client_views(local@),
            client_views(sorted@) == in_order(all.take(i as int), shown_order()),
        decreases workspace.len() - i,
    {
        assert(all.take(i + 1).drop_last() =~= all.take(i as int));
        assert(all.take(i + 1).last() == workspace@[i as int]@);
        sorted = put_task(sorted, workspace[i].copy());
        i = i + 1;
    }
    let n: usize = workspace.len();
    i = 0;
    while i < local.len()
        invariant
            n == workspace@.len(),
            i <= local@.len(),
            all == client_views(workspace@) + client_views(local@),
            client_views(sorted@) == in_order(all.take(n + i), shown_order()),
        decreases local.len() - i,
    {
        assert(all.take(n + i + 1).drop_last() =~= all.take(n + i));
        assert(all.take(n + i + 1).last() == local@[i as int]@);
        sorted = put_task(sorted, local[i].copy());
        i = i + 1;
    }
    assert(all.take(n + i) =~= all);
    sorted
}

/// The entries of a list with the scope that they were listed for.
pub open spec fn scoped_entries(metadata: JsonView, scope: Seq<char>) -> Seq<JsonView> {
    match metadata.field("tasks"@) {
        Some(JsonView::Arr(a)) => a.map_values(
            |v: JsonView| v.with("scope"@, JsonView::Str(scope)),
        ),
        _ => Seq::empty(),
    }
}

pub fn task_entries(metadata: &Json, scope: &str) -> (r: Vec<Json>)
    ensures
        views(r@) == scoped_entries(metadata@, scope@),
{
    let mut r: Vec<Json> = Vec::new();
    assert(views(r@) =~= Seq::empty());
    match metadata.get("tasks") {
        Some(v) => match v.as_array() {
            Some(a) => {
                let ghost target = scoped_entries(metadata@, scope@);
                let mut i: usize = 0;
                while i < a.len()
                    invariant
                        i <= a@.len(),
                        target.len() == a@.len(),
                        forall|j: int|
                            0 <= j < a@.len() ==> #[trigger] target[j] == a@[j]@.with(
                                "scope"@,
                                JsonView::Str(scope@),
                            ),
                        views(r@) == target.take(i as int),
                    decreases a.len() - i,
                {
                    let ghost before = views(r@);
                    let entry = a[i].clone().with("scope", Json::str(scope));
                    assert(target[i as int] == entry@);
                    r.push(entry);
                    assert(views(r@) =~= before.push(entry@));
                    i = i + 1;
                    assert(target.take(i as int) =~= before.push(entry@));
                }
                assert(target.take(i as int) =~= target);
            },
            None => {},
        },
        None => {},
    }
    r
}

pub const NO_METADATA_MESSAGE: &'static str =
    "REFS list response did not include structuredContent metadata";

/// The metadata of a list.
pub fn list_metadata(result: &Json) -> (r: Result<&Json, String>)
    ensures
        match r {
            Ok(m) => result@.field2("structuredContent"@, "metadata"@) == Some(m@),
            Err(e) => result@.field2("structuredContent"@, "metadata"@) is None && e@
                == NO_METADATA_MESSAGE@,
        },
{
    match result.get2("structuredContent", "metadata") {
        Some(m) => Ok(m),
        None => Err(NO_METADATA_MESSAGE.to_owned()),
    }
}

// ---------------------------------------------------------------------------
// Showing a task
// ---------------------------------------------------------------------------

pub open spec fn title_of(task: ExbashTaskView) -> Seq<char> {
    if trimmed(task.description).len() == 0 {
        "running command"@
    } else {
        one_line(task.description)
    }
}

pub fn single_line(text: &str) -> (r: String)
    ensures
        r@ == one_line(text@),
{
    single_line_exbash_list_text(text)
}

pub fn task_title(task: &ExbashTask) -> (r: String)
    ensures
        r@ == title_of(task@),
{
    if is_blank(task.description.as_str()) {
        "running command".to_owned()
    } else {
        single_line(task.description.as_str())
    }
}

/// At most 100 characters of the first line of a command.
pub open spec fn summary_of(command: Seq<char>) -> Seq<char> {
    head_of(split_on(command, "\r\n"@)[0], 100)
}

pub fn clipped_command_summary(command: &str) -> (r: String)
    ensures
        r@ == summary_of(command@),
{
    let parts = split(command, "\r\n");
    assert(texts(parts@)[0] == parts@[0]@);
    take_chars(parts[0].as_str(), 100)
}

pub open spec fn subtitle_of(task: ExbashTaskView) -> Seq<char> {
    task.async_id + " · "@ + task.cwd + " ["@ + task.scope + "/"@ + task.executor
        + "] command="@ + summary_of(task.command)
}

pub fn task_subtitle(task: &ExbashTask) -> (r: String)
    ensures
        r@ == subtitle_of(task@),
{
    let command = clipped_command_summary(task.command.as_str());
    let mut r = task.async_id.clone();
    r.append(" · ");
    r.append(task.cwd.as_str());
    r.append(" [");
    r.append(task.scope.as_str());
    r.append("/");
    r.append(task.executor.as_str());
    r.append("] command=");
    r.append(command.as_str());
    r
}

/// The pictures of a running task, one after the other.
pub open spec fn running_icon(frame: int) -> Seq<char> {
    let n = frame % 10;
    if n == 0 {
        "[⠋]"@
    } else if n == 1 {
        "[⠙]"@
    } else if n == 2 {
        "[⠹]"@
    } else if n == 3 {
        "[⠸]"@
    } else if n == 4 {
        "[⠼]"@
    } else if n == 5 {
        "[⠴]"@
    } else if n == 6 {
        "[⠦]"@
    } else if n == 7 {
        "[⠧]"@
    } else if n == 8 {
        "[⠇]"@
    } else {
        "[⠏]"@
    }
}

pub fn running_state_icon(frame: usize) -> (r: &'static str)
    ensures
        r@ == running_icon(frame as int),
{
    let n: usize = frame % 10;
    if n == 0 {
        "[⠋]"
    } else if n == 1 {
        "[⠙]"
    } else if n == 2 {
        "[⠹]"
    } else if n == 3 {
        "[⠸]"
    } else if n == 4 {
        "[⠼]"
    } else if n == 5 {
        "[⠴]"
    } else if n == 6 {
        "[⠦]"
    } else if n == 7 {
        "[⠧]"
    } else if n == 8 {
        "[⠇]"
    } else {
        "[⠏]"
    }
}

/// The picture at a time in milliseconds: a new one four times a second.
pub fn running_icon_frame(millis: u128) -> (r: usize)
    ensures
        r == (millis / 250) % 10,
{
    ((millis / 250) % 10) as usize
}

/// The picture of a state.
pub open spec fn icon_of(state: Seq<char>, frame: int) -> Seq<char> {
    if state == "running"@ {
        running_icon(frame)
    } else if state == "exit:0"@ {
        "[✓]"@
    } else if state == "timeout"@ || state == "stop"@ {
        "[!]"@
    } else if state == "unknown"@ {
        "[?]"@
    } else if has_prefix(state, "exit:"@) {
        "[E]"@
    } else {
        "[?]"@
    }
}

pub fn task_state_icon(task: &ExbashTask, frame: usize) -> (r: &'static str)
    ensures
        r@ == icon_of(state_of(task@), frame as int),
{
    let state = task_state(task);
    let s = state.as_str();
    if same(s, "running") {
        running_state_icon(frame)
    } else if same(s, "exit:0") {
        "[✓]"
    } else if same(s, "timeout") || same(s, "stop") {
        "[!]"
    } else if same(s, "unknown") {
        "[?]"
    } else if starts_with(s, "exit:") {
        "[E]"
    } else {
        "[?]"
    }
}

} // verus!
