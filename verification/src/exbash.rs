//! Shell tasks: their states, what is kept of them, and how they are shown.

use vstd::prelude::*;
use vstd::utf8::encode_utf8;

use crate::fields::is_blank;
use crate::fields::json_i64;
use crate::fields::long_of;
use crate::fields::meta;
use crate::fields::meta_exit_code;
use crate::fields::meta_long;
use crate::fields::meta_text;
use crate::fields::metadata_exit_code_i32;
use crate::fields::metadata_i64;
use crate::fields::metadata_string;
use crate::fields::or_else;
use crate::fields::or_text;
use crate::host::ExbashSyncInput;
use crate::host::ExbashSyncInputView;
use crate::json::copy_values;
use crate::json::opt_str;
use crate::json::plain;
use crate::json::views;
use crate::json::Json;
use crate::json::JsonView;
use crate::number::decimal;
use crate::number::parse_i32;
use crate::number::parsed_int;
use crate::number::within;
use crate::number::write_decimal;
use crate::order::in_order;
use crate::order::is_ordered;
use crate::order::is_weak_order;
use crate::order::lemma_in_order;
use crate::order::lemma_put_at;
use crate::output::append_footer_lines;
use crate::output::append_visible_line;
use crate::output::extract_output_text;
use crate::output::output_text;
use crate::output::text_or_empty;
use crate::output::with_footer;
use crate::output::with_line;
use crate::text::cat;
use crate::text::cat3;
use crate::text::contains;
use crate::text::has_prefix;
use crate::text::has_text;
use crate::text::head_of;
use crate::text::lowered;
use crate::text::opt_text;
use crate::text::replace;
use crate::text::replace_chars;
use crate::text::replaced;
use crate::text::replaced_chars;
use crate::text::same;
use crate::text::starts_with;
use crate::text::take_chars;
use crate::text::texts;
use crate::text::to_ascii_lowercase;
use crate::text::trim;
use crate::text::trimmed;
use crate::types::copy_opt;
use crate::types::snapshot_views;
use crate::types::ExbashTaskSnapshot;
use crate::types::ExbashTaskSnapshotView;

verus! {

pub const TMP_RUNNING_DESCRIPTION: &'static str = "Tmp Running";

// ---------------------------------------------------------------------------
// Modes and messages
// ---------------------------------------------------------------------------

pub open spec fn creates_task(mode: Seq<char>) -> bool {
    mode == "run"@ || mode == "shell"@
}

pub fn exbash_mode_creates_task(mode: &str) -> (r: bool)
    ensures
        r == creates_task(mode@),
{
    same(mode, "run") || same(mode, "shell")
}

/// The message of an executor that lost its connection.
pub open spec fn tells_lost_connection(message: Seq<char>) -> bool {
    let m = lowered(message);
    has_text(m, "closed before responding"@) || has_text(m, "connection"@) || has_text(
        m,
        "disconnected"@,
    ) || has_text(m, "timed out"@)
}

/// The message of an executor that has no such task.
pub open spec fn tells_missing(message: Seq<char>) -> bool {
    let m = lowered(message);
    has_text(m, "async run not found"@) || has_text(m, "not found"@) || has_text(
        m,
        "does not exist"@,
    )
}

/// The message of an executor that has no such task, or that is gone.
pub open spec fn tells_missing_or_lost(message: Seq<char>) -> bool {
    tells_missing(message) || tells_lost_connection(message)
}

/// The message of a host that could not take a task in.
pub open spec fn tells_storage_rejection(message: Seq<char>) -> bool {
    let m = lowered(message);
    has_text(m, "task stack is full"@) || has_text(m, "stack is full"@) || has_text(m, "quota"@)
        || has_text(m, "capacity"@) || has_text(m, "limit"@) || has_text(m, "storage"@) || has_text(
        m,
        "write"@,
    ) || has_text(m, "rejected"@) || has_text(m, "refused"@)
}

fn lost_connection(m: &str) -> (r: bool)
    ensures
        r == (has_text(m@, "closed before responding"@) || has_text(m@, "connection"@) || has_text(
            m@,
            "disconnected"@,
        ) || has_text(m@, "timed out"@)),
{
    contains(m, "closed before responding") || contains(m, "connection") || contains(
        m,
        "disconnected",
    ) || contains(m, "timed out")
}

fn missing_task(m: &str) -> (r: bool)
    ensures
        r == (has_text(m@, "async run not found"@) || has_text(m@, "not found"@) || has_text(
            m@,
            "does not exist"@,
        )),
{
    contains(m, "async run not found") || contains(m, "not found") || contains(m, "does not exist")
}

pub fn exbash_error_indicates_missing(message: &str) -> (r: bool)
    ensures
        r == tells_missing(message@),
{
    let m = to_ascii_lowercase(message);
    missing_task(m.as_str())
}

pub fn exbash_error_indicates_missing_or_lost(message: &str) -> (r: bool)
    ensures
        r == tells_missing_or_lost(message@),
{
    let m = to_ascii_lowercase(message);
    missing_task(m.as_str()) || lost_connection(m.as_str())
}

pub fn exbash_error_indicates_storage_rejection(message: &str) -> (r: bool)
    ensures
        r == tells_storage_rejection(message@),
{
    let m = to_ascii_lowercase(message);
    let m = m.as_str();
    contains(m, "task stack is full") || contains(m, "stack is full") || contains(m, "quota")
        || contains(m, "capacity") || contains(m, "limit") || contains(m, "storage") || contains(
        m,
        "write",
    ) || contains(m, "rejected") || contains(m, "refused")
}

pub open spec fn remove_warning(message: Seq<char>) -> Seq<char> {
    if tells_lost_connection(message) {
        "notReplayable"@
    } else {
        "asyncTaskNotFound"@
    }
}

pub fn exbash_remove_warning_code(message: &str) -> (r: &'static str)
    ensures
        r@ == remove_warning(message@),
{
    let m = to_ascii_lowercase(message);
    if lost_connection(m.as_str()) {
        "notReplayable"
    } else {
        "asyncTaskNotFound"
    }
}

// ---------------------------------------------------------------------------
// Kinds of tasks
// ---------------------------------------------------------------------------

/// A task that nobody described.
pub open spec fn is_temporary(task: ExbashTaskSnapshotView) -> bool {
    match task.description {
        Some(d) => trimmed(d).len() == 0 || trimmed(d) == TMP_RUNNING_DESCRIPTION@,
        None => true,
    }
}

pub fn exbash_task_is_temporary(task: &ExbashTaskSnapshot) -> (r: bool)
    ensures
        r == is_temporary(task@),
{
    match &task.description {
        Some(d) => {
            let t = trim(d.as_str());
            t.as_str().unicode_len() == 0 || same(t.as_str(), TMP_RUNNING_DESCRIPTION)
        },
        None => true,
    }
}

/// A task that has come to its end: by its state, or where the state does not tell, by
/// its end time or exit code.
pub open spec fn is_stopped(task: ExbashTaskSnapshotView) -> bool {
    let ended = task.ended_at is Some || task.exit_code is Some;
    match task.state {
        Some(state) => {
            let s = trimmed(state);
            if s == "running"@ || s == "unknown"@ || s.len() == 0 {
                false
            } else {
                s == "stop"@ || s == "stopped"@ || s == "timeout"@ || has_prefix(s, "exit:"@)
                    || ended
            }
        },
        None => ended,
    }
}

pub fn exbash_task_is_stopped(task: &ExbashTaskSnapshot) -> (r: bool)
    ensures
        r == is_stopped(task@),
{
    match &task.state {
        Some(state) => {
            let t = trim(state.as_str());
            let s = t.as_str();
            if same(s, "running") || same(s, "unknown") || s.unicode_len() == 0 {
                return false;
            }
            if same(s, "stop") || same(s, "stopped") || same(s, "timeout") || starts_with(
                s,
                "exit:",
            ) {
                return true;
            }
        },
        None => {},
    }
    task.ended_at.is_some() || task.exit_code.is_some()
}

/// A task that may be forgotten to make room.
pub open spec fn is_cleanup_candidate(task: ExbashTaskSnapshotView) -> bool {
    is_temporary(task) && is_stopped(task)
}

pub fn exbash_cleanup_candidate(task: &ExbashTaskSnapshot) -> (r: bool)
    ensures
        r == is_cleanup_candidate(task@),
{
    exbash_task_is_temporary(task) && exbash_task_is_stopped(task)
}

/// Room is never made at the cost of a task that was described or that still runs.
pub proof fn law_cleanup_spares_described_and_running(task: ExbashTaskSnapshotView)
    ensures
        (task.description matches Some(d) && trimmed(d).len() > 0 && trimmed(d)
            != TMP_RUNNING_DESCRIPTION@) ==> !is_cleanup_candidate(task),
        (task.state matches Some(s) && trimmed(s) == "running"@) ==> !is_cleanup_candidate(task),
{
}

// ---------------------------------------------------------------------------
// The order of tasks
// ---------------------------------------------------------------------------

pub open spec fn started(task: ExbashTaskSnapshotView) -> i64 {
    match task.started_at {
        Some(t) => t,
        None => 0,
    }
}

/// Temporary tasks stand behind the others; among either, later ones behind earlier
/// ones.
pub open spec fn task_after(a: ExbashTaskSnapshotView, b: ExbashTaskSnapshotView) -> bool {
    if is_temporary(a) == is_temporary(b) {
        started(a) > started(b)
    } else {
        is_temporary(a)
    }
}

pub open spec fn task_order() -> spec_fn(ExbashTaskSnapshotView, ExbashTaskSnapshotView) -> bool {
    |a: ExbashTaskSnapshotView, b: ExbashTaskSnapshotView| task_after(a, b)
}

pub open spec fn sorted_tasks(tasks: Seq<ExbashTaskSnapshotView>) -> Seq<ExbashTaskSnapshotView> {
    in_order(tasks, task_order())
}

/// The list holds the same tasks, each as often, with the temporary ones last and otherwise
/// by their start.
pub proof fn law_task_list_order(tasks: Seq<ExbashTaskSnapshotView>)
    ensures
        sorted_tasks(tasks).to_multiset() == tasks.to_multiset(),
        sorted_tasks(tasks).len() == tasks.len(),
        forall|i: int, j: int|
            0 <= i < j < tasks.len() ==> !task_after(
                #[trigger] sorted_tasks(tasks)[i],
                #[trigger] sorted_tasks(tasks)[j],
            ),
{
    assert(is_weak_order(task_order()));
    lemma_in_order(tasks, task_order());
    let s = sorted_tasks(tasks);
    assert(is_ordered(s, task_order()));
    assert forall|i: int, j: int| 0 <= i < j < tasks.len() implies !task_after(
        #[trigger] s[i],
        #[trigger] s[j],
    ) by {
        assert(!task_order()(s[i], s[j]));
    }
}

fn start_of(task: &ExbashTaskSnapshot) -> (r: i64)
    ensures
        r == started(task@),
{
    match task.started_at {
        Some(t) => t,
        None => 0,
    }
}

fn comes_after(a: &ExbashTaskSnapshot, b: &ExbashTaskSnapshot) -> (r: bool)
    ensures
        r == task_after(a@, b@),
{
    let x = exbash_task_is_temporary(a);
    if x == exbash_task_is_temporary(b) {
        start_of(a) > start_of(b)
    } else {
        x
    }
}

pub fn sort_exbash_tasks(tasks: &mut Vec<ExbashTaskSnapshot>)
    ensures
        snapshot_views(final(tasks)@) == sorted_tasks(snapshot_views(old(tasks)@)),
{
    let mut sorted: Vec<ExbashTaskSnapshot> = Vec::new();
    let ghost all = snapshot_views(tasks@);
    let mut i: usize = 0;
    assert(all.take(0) =~= Seq::empty());
    assert(snapshot_views(sorted@) =~= Seq::empty());
    while i < tasks.len()
        invariant
            i <= tasks@.len(),
            all == snapshot_views(tasks@),
            snapshot_views(sorted@) == sorted_tasks(all.take(i as int)),
        decreases tasks.len() - i,
    {
        let task = tasks[i].copy();
        let ghost before = snapshot_views(sorted@);
        let mut k: usize = sorted.len();
        while k > 0 && comes_after(&sorted[k - 1], &task)
            invariant
                k <= sorted@.len(),
                before == snapshot_views(sorted@),
                forall|j: int| k <= j < before.len() ==> task_order()(#[trigger] before[j], task@),
            decreases k,
        {
            assert(before[k - 1] == sorted@[k - 1]@);
            k = k - 1;
        }
        proof {
            assert(k > 0 ==> before[k - 1] == sorted@[k - 1]@);
            lemma_put_at(before, task@, task_order(), k as int);
            assert(all.take(i + 1).drop_last() =~= all.take(i as int));
            assert(all.take(i + 1).last() == task@);
        }
        let ghost old_sorted = sorted@;
        sorted.insert(k, task);
        proof {
            assert(snapshot_views(sorted@) =~= before.insert(k as int, task@));
        }
        i = i + 1;
    }
    assert(all.take(i as int) =~= all);
    *tasks = sorted;
}

// ---------------------------------------------------------------------------
// States
// ---------------------------------------------------------------------------

pub open spec fn exit_text(code: int) -> Seq<char> {
    "exit:"@ + decimal(code)
}

fn exit_string(code: i64) -> (r: String)
    ensures
        r@ == exit_text(code as int),
{
    let number = write_decimal(code as i128);
    cat("exit:", number.as_str())
}

/// The state that an exit code tells.
pub open spec fn exit_state(code: JsonView) -> Option<Seq<char>> {
    match long_of(code) {
        Some(n) => Some(exit_text(n as int)),
        None => match code {
            JsonView::Str(s) => {
                let t = trimmed(s);
                if t.len() == 0 {
                    None
                } else if t == "timeout"@ {
                    Some("timeout"@)
                } else if t == "stopped"@ || t == "stop"@ {
                    Some("stop"@)
                } else {
                    match within(parsed_int(t), i32::MIN as int, i32::MAX as int) {
                        Some(n) => Some(exit_text(n)),
                        None => None,
                    }
                }
            },
            _ => None,
        },
    }
}

pub fn normalized_exit_state(exit_code: &Json) -> (r: Option<String>)
    ensures
        opt_text(r) == exit_state(exit_code@),
{
    match json_i64(exit_code) {
        Some(n) => Some(exit_string(n)),
        None => match exit_code {
            Json::Str(s) => {
                let t = trim(s.as_str());
                let t = t.as_str();
                if t.unicode_len() == 0 {
                    None
                } else if same(t, "timeout") {
                    Some("timeout".to_owned())
                } else if same(t, "stopped") || same(t, "stop") {
                    Some("stop".to_owned())
                } else {
                    match parse_i32(t) {
                        Some(n) => Some(exit_string(n as i64)),
                        None => None,
                    }
                }
            },
            _ => None,
        },
    }
}

/// The state that is kept for a state that an executor reports.
pub open spec fn kept_state(state: Seq<char>, exit_code: Option<i32>) -> Option<Seq<char>> {
    let s = trimmed(state);
    if s == "running"@ || s == "timeout"@ || s == "stop"@ {
        Some(s)
    } else if has_prefix(s, "exit:"@) {
        Some(s)
    } else if s == "stopped"@ {
        Some(
            match exit_code {
                Some(code) => exit_text(code as int),
                None => "stop"@,
            },
        )
    } else if s.len() == 0 {
        match exit_code {
            Some(code) => Some(exit_text(code as int)),
            None => None,
        }
    } else {
        None
    }
}

pub fn normalize_exbash_state_for_host(state: &str, exit_code: Option<i32>) -> (r: Option<String>)
    ensures
        opt_text(r) == kept_state(state@, exit_code),
{
    let t = trim(state);
    let s = t.as_str();
    if same(s, "running") || same(s, "timeout") || same(s, "stop") {
        Some(t)
    } else if starts_with(s, "exit:") {
        Some(t)
    } else if same(s, "stopped") {
        Some(
            match exit_code {
                Some(code) => exit_string(code as i64),
                None => "stop".to_owned(),
            },
        )
    } else if s.unicode_len() == 0 {
        match exit_code {
            Some(code) => Some(exit_string(code as i64)),
            None => None,
        }
    } else {
        None
    }
}

pub open spec fn shown_state(state: Seq<char>, exit_code: Option<i32>) -> Seq<char> {
    if state == "unknown"@ {
        "unknown"@
    } else {
        or_text(kept_state(state, exit_code), "unknown"@)
    }
}

pub fn normalize_exbash_state_for_display(state: &str, exit_code: Option<i32>) -> (r: String)
    ensures
        r@ == shown_state(state@, exit_code),
{
    if same(state, "unknown") {
        return "unknown".to_owned();
    }
    match normalize_exbash_state_for_host(state, exit_code) {
        Some(s) => s,
        None => "unknown".to_owned(),
    }
}

pub open spec fn opt_exit_state(code: Option<JsonView>) -> Option<Seq<char>> {
    match code {
        Some(code) => exit_state(code),
        None => None,
    }
}

pub open spec fn opt_kept_state(state: Option<Seq<char>>, exit_code: Option<i32>) -> Option<
    Seq<char>,
> {
    match state {
        Some(state) => kept_state(state, exit_code),
        None => None,
    }
}

/// The state of a task after a call of `mode` that came back with `result`: what the
/// exit code tells, else `stop` after a stop, else the reported state, else `running`
/// for a task just started, else the state that was kept before.
pub open spec fn state_after(result: JsonView, mode: Seq<char>, fallback: Option<Seq<char>>) -> Seq<
    char,
> {
    let code = meta_exit_code(result);
    match opt_exit_state(meta(result, "exitCode"@)) {
        Some(s) => s,
        None => if mode == "stop"@ {
            "stop"@
        } else {
            match opt_kept_state(meta_text(result, "state"@), code) {
                Some(s) => s,
                None => if creates_task(mode) && meta_text(result, "asyncID"@) is Some {
                    "running"@
                } else {
                    or_text(opt_kept_state(fallback, code), "running"@)
                },
            }
        },
    }
}

pub fn normalized_exbash_state(result: &Json, mode: &str, fallback: Option<&str>) -> (r: String)
    ensures
        r@ == state_after(result@, mode@, opt_str(fallback)),
{
    match result.get2("metadata", "exitCode") {
        Some(code) => match normalized_exit_state(code) {
            Some(state) => {
                return state;
            },
            None => {},
        },
        None => {},
    }
    if same(mode, "stop") {
        return "stop".to_owned();
    }
    let code = metadata_exit_code_i32(result);
    match result.text_of2("metadata", "state") {
        Some(state) => match normalize_exbash_state_for_host(state, code) {
            Some(state) => {
                return state;
            },
            None => {},
        },
        None => {},
    }
    if exbash_mode_creates_task(mode) && result.text_of2("metadata", "asyncID").is_some() {
        return "running".to_owned();
    }
    match fallback {
        Some(state) => match normalize_exbash_state_for_host(state, code) {
            Some(state) => state,
            None => "running".to_owned(),
        },
        None => "running".to_owned(),
    }
}

pub open spec fn or_long(a: Option<i64>, b: Option<i64>) -> Option<i64> {
    match a {
        Some(_) => a,
        None => b,
    }
}

pub open spec fn or_word(a: Option<i32>, b: Option<i32>) -> Option<i32> {
    match a {
        Some(_) => a,
        None => b,
    }
}

fn first_long(a: Option<i64>, b: Option<i64>) -> (r: Option<i64>)
    ensures
        r == or_long(a, b),
{
    match a {
        Some(_) => a,
        None => b,
    }
}

/// What the host is told of a task that it tracks, after a call of `mode` at the time
/// `now` that came back with `result`: what the result reports, and what was kept
/// where it does not report anything.
pub open spec fn input_after(
    existing: ExbashTaskSnapshotView,
    result: JsonView,
    mode: Seq<char>,
    now: i64,
) -> ExbashSyncInputView {
    ExbashSyncInputView {
        async_id: Some(existing.async_id),
        session_id: existing.session_id,
        workdir: existing.workdir,
        executor: Some(existing.executor),
        state: Some(state_after(result, mode, existing.state)),
        pid: or_long(meta_long(result, "pid"@), existing.pid),
        exit_code: or_word(meta_exit_code(result), existing.exit_code),
        started_at: or_long(meta_long(result, "startedAt"@), existing.started_at),
        ended_at: or_long(
            meta_long(result, "endedAt"@),
            if mode == "stop"@ {
                Some(now)
            } else {
                existing.ended_at
            },
        ),
        command: or_else(existing.command, meta_text(result, "command"@)),
        description: existing.description,
        total_output: or_long(meta_long(result, "totalOutput"@), existing.total_output),
    }
}

pub fn exbash_sync_input_from_existing(
    existing: &ExbashTaskSnapshot,
    result: &Json,
    mode: &str,
    now: i64,
) -> (r: ExbashSyncInput)
    ensures
        r@ == input_after(existing@, result@, mode@, now),
{
    let state = match &existing.state {
        Some(s) => normalized_exbash_state(result, mode, Some(s.as_str())),
        None => normalized_exbash_state(result, mode, None),
    };
    let ended = if same(mode, "stop") {
        Some(now)
    } else {
        existing.ended_at
    };
    let command = match &existing.command {
        Some(c) => Some(c.clone()),
        None => metadata_string(result, "command"),
    };
    let exit_code = match metadata_exit_code_i32(result) {
        Some(code) => Some(code),
        None => existing.exit_code,
    };
    ExbashSyncInput {
        async_id: Some(existing.async_id.clone()),
        session_id: copy_opt(&existing.session_id),
        workdir: copy_opt(&existing.workdir),
        executor: Some(existing.executor.clone()),
        state: Some(state),
        pid: first_long(metadata_i64(result, "pid"), existing.pid),
        exit_code,
        started_at: first_long(metadata_i64(result, "startedAt"), existing.started_at),
        ended_at: first_long(metadata_i64(result, "endedAt"), ended),
        command,
        description: copy_opt(&existing.description),
        total_output: first_long(metadata_i64(result, "totalOutput"), existing.total_output),
    }
}

/// After a stop that reports no exit code, a task counts as stopped.
pub proof fn law_stop_is_recorded(existing: ExbashTaskSnapshotView, result: JsonView, now: i64)
    requires
        opt_exit_state(meta(result, "exitCode"@)) is None,
    ensures
        input_after(existing, result, "stop"@, now).state == Some("stop"@),
        input_after(existing, result, "stop"@, now).ended_at is Some,
{
}

// ---------------------------------------------------------------------------
// What is told of a task that was just started
// ---------------------------------------------------------------------------

pub open spec fn described(s: Option<Seq<char>>) -> Option<Seq<char>> {
    match s {
        Some(d) => if trimmed(d).len() > 0 {
            Some(d)
        } else {
            None
        },
        None => None,
    }
}

/// What the host is told of a task that was just started: the description is the one
/// that was asked for, else the one that is reported, else a placeholder.
pub open spec fn input_of_new(
    result: JsonView,
    mode: Seq<char>,
    description: Option<Seq<char>>,
) -> Option<ExbashSyncInputView> {
    match meta_text(result, "asyncID"@) {
        Some(async_id) => if creates_task(mode) {
            Some(
                ExbashSyncInputView {
                    async_id: Some(async_id),
                    session_id: None,
                    workdir: None,
                    executor: Some(or_text(meta_text(result, "executor"@), "local"@)),
                    state: Some(state_after(result, mode, None)),
                    pid: meta_long(result, "pid"@),
                    exit_code: meta_exit_code(result),
                    started_at: meta_long(result, "startedAt"@),
                    ended_at: meta_long(result, "endedAt"@),
                    command: meta_text(result, "command"@),
                    description: Some(
                        or_text(
                            or_else(
                                described(description),
                                described(meta_text(result, "description"@)),
                            ),
                            TMP_RUNNING_DESCRIPTION@,
                        ),
                    ),
                    total_output: meta_long(result, "totalOutput"@),
                },
            )
        } else {
            None
        },
        None => None,
    }
}

pub open spec fn opt_input(i: Option<ExbashSyncInput>) -> Option<ExbashSyncInputView> {
    match i {
        Some(i) => Some(i@),
        None => None,
    }
}

pub fn exbash_sync_input_from_result(
    result: &Json,
    mode: &str,
    description: &Option<String>,
) -> (r: Option<ExbashSyncInput>)
    ensures
        opt_input(r) == input_of_new(result@, mode@, opt_text(*description)),
{
    if !exbash_mode_creates_task(mode) {
        return None;
    }
    let async_id = match metadata_string(result, "asyncID") {
        Some(id) => id,
        None => {
            return None;
        },
    };
    let executor = match metadata_string(result, "executor") {
        Some(e) => e,
        None => "local".to_owned(),
    };
    let mut text = TMP_RUNNING_DESCRIPTION.to_owned();
    let mut found = false;
    match description {
        Some(d) => if !is_blank(d.as_str()) {
            text = d.clone();
            found = true;
        },
        None => {},
    }
    if !found {
        match result.text_of2("metadata", "description") {
            Some(d) => if !is_blank(d) {
                text = d.to_owned();
            },
            None => {},
        }
    }
    Some(
        ExbashSyncInput {
            async_id: Some(async_id),
            session_id: None,
            workdir: None,
            executor: Some(executor),
            state: Some(normalized_exbash_state(result, mode, None)),
            pid: metadata_i64(result, "pid"),
            exit_code: metadata_exit_code_i32(result),
            started_at: metadata_i64(result, "startedAt"),
            ended_at: metadata_i64(result, "endedAt"),
            command: metadata_string(result, "command"),
            description: Some(text),
            total_output: metadata_i64(result, "totalOutput"),
        },
    )
}

// ---------------------------------------------------------------------------
// Lists of tasks
// ---------------------------------------------------------------------------

/// A text on one line: each line break shown as `\n`.
pub open spec fn one_line(text: Seq<char>) -> Seq<char> {
    replaced_chars(replaced(text, "\r\n"@, "\\n"@), "\n\r"@, "\\n"@)
}

pub fn single_line_exbash_list_text(text: &str) -> (r: String)
    ensures
        r@ == one_line(text@),
{
    proof {
        reveal_strlit("\r\n");
    }
    let first = replace(text, "\r\n", "\\n");
    replace_chars(first.as_str(), "\n\r", "\\n")
}

/// At most 30 characters of a text on one line.
pub open spec fn clipped(text: Seq<char>) -> Seq<char> {
    head_of(one_line(text), 30)
}

pub fn clipped_exbash_list_text(text: &str) -> (r: String)
    ensures
        r@ == clipped(text@),
{
    let line = single_line_exbash_list_text(text);
    take_chars(line.as_str(), 30)
}

pub fn clipped_exbash_list_command(command: &str) -> (r: String)
    ensures
        r@ == clipped(command@),
{
    clipped_exbash_list_text(command)
}

pub open spec fn list_tail(
    state: Seq<char>,
    total_output: Seq<char>,
    description: Seq<char>,
    command: Seq<char>,
) -> Seq<char> {
    state + " totalOutput="@ + total_output + " description="@ + clipped(description)
        + " command="@ + clipped(command)
}

fn list_tail_string(state: &str, total_output: &str, description: &str, command: &str) -> (r:
    String)
    ensures
        r@ == list_tail(state@, total_output@, description@, command@),
{
    let description = clipped_exbash_list_text(description);
    let command = clipped_exbash_list_command(command);
    let mut r = state.to_owned();
    r.append(" totalOutput=");
    r.append(total_output);
    r.append(" description=");
    r.append(description.as_str());
    r.append(" command=");
    r.append(command.as_str());
    r
}

pub open spec fn task_state(task: ExbashTaskSnapshotView) -> Seq<char> {
    match task.state {
        Some(state) => shown_state(state, task.exit_code),
        None => match task.exit_code {
            Some(code) => exit_text(code as int),
            None => "unknown"@,
        },
    }
}

/// The line of a list for a task.
pub open spec fn task_line(task: ExbashTaskSnapshotView) -> Seq<char> {
    let total = match task.total_output {
        Some(n) => n as int,
        None => 0,
    };
    "- "@ + task.executor + ":"@ + task.async_id + " "@ + list_tail(
        task_state(task),
        decimal(total),
        or_text(task.description, ""@),
        or_text(task.command, ""@),
    )
}

pub fn format_exbash_task(task: &ExbashTaskSnapshot) -> (r: String)
    ensures
        r@ == task_line(task@),
{
    let state = match &task.state {
        Some(state) => normalize_exbash_state_for_display(state.as_str(), task.exit_code),
        None => match task.exit_code {
            Some(code) => exit_string(code as i64),
            None => "unknown".to_owned(),
        },
    };
    let total: i64 = match task.total_output {
        Some(n) => n,
        None => 0,
    };
    let total = write_decimal(total as i128);
    let description = match &task.description {
        Some(d) => d.as_str(),
        None => "",
    };
    let command = match &task.command {
        Some(c) => c.as_str(),
        None => "",
    };
    let tail = list_tail_string(state.as_str(), total.as_str(), description, command);
    let mut r = "- ".to_owned();
    r.append(task.executor.as_str());
    r.append(":");
    r.append(task.async_id.as_str());
    r.append(" ");
    r.append(tail.as_str());
    r
}

pub open spec fn run_state(run: JsonView) -> Seq<char> {
    match opt_exit_state(run.field("exitCode"@)) {
        Some(s) => s,
        None => match run.text_field("state"@) {
            Some(state) => shown_state(state, None),
            None => "unknown"@,
        },
    }
}

/// The line of a list for a task as an executor reports it.
pub open spec fn run_line(run: JsonView) -> Seq<char> {
    let total = match run.field("totalOutput"@) {
        Some(v) => plain(v),
        None => "0"@,
    };
    "- "@ + or_text(run.text_field("asyncID"@), "unknown"@) + " "@ + list_tail(
        run_state(run),
        total,
        text_or_empty(run.field("description"@)),
        text_or_empty(run.field("command"@)),
    )
}

pub fn format_remote_exbash_run(run: &Json) -> (r: String)
    ensures
        r@ == run_line(run@),
{
    let async_id = match run.text_of("asyncID") {
        Some(s) => s,
        None => "unknown",
    };
    let by_code = match run.get("exitCode") {
        Some(code) => normalized_exit_state(code),
        None => None,
    };
    let state = match by_code {
        Some(s) => s,
        None => match run.text_of("state") {
            Some(state) => normalize_exbash_state_for_display(state, None),
            None => "unknown".to_owned(),
        },
    };
    let total = match run.get("totalOutput") {
        Some(v) => v.plain_text(),
        None => "0".to_owned(),
    };
    let tail = list_tail_string(
        state.as_str(),
        total.as_str(),
        run.text_of("description").unwrap_or(""),
        run.text_of("command").unwrap_or(""),
    );
    let mut r = "- ".to_owned();
    r.append(async_id);
    r.append(" ");
    r.append(tail.as_str());
    r
}

/// The two lines at the head of a list of tasks.
pub open spec fn list_header(
    local_count: int,
    workspace_count: int,
    executor: Seq<char>,
    scope: Seq<char>,
) -> Seq<Seq<char>> {
    seq![
        "local:"@ + decimal(local_count) + " workspace:"@ + decimal(workspace_count),
        "showing executor="@ + executor + " of "@ + scope,
    ]
}

pub fn exbash_list_header(
    local_count: usize,
    workspace_count: usize,
    executor: &str,
    scope: &str,
) -> (r: Vec<String>)
    ensures
        texts(r@) == list_header(local_count as int, workspace_count as int, executor@, scope@),
{
    let local = write_decimal(local_count as i128);
    let workspace = write_decimal(workspace_count as i128);
    let mut r: Vec<String> = Vec::new();
    r.push(crate::text::cat4("local:", local.as_str(), " workspace:", workspace.as_str()));
    r.push(crate::text::cat4("showing executor=", executor, " of ", scope));
    assert(texts(r@) =~= list_header(
        local_count as int,
        workspace_count as int,
        executor@,
        scope@,
    ));
    r
}

/// The tasks that an executor reports.
pub open spec fn reported_runs(v: JsonView) -> Seq<JsonView> {
    let runs = match meta(v, "runs"@) {
        Some(runs) => Some(runs),
        None => v.field3("result"@, "metadata"@, "runs"@),
    };
    match runs {
        Some(JsonView::Arr(a)) => a,
        _ => Seq::empty(),
    }
}

pub fn remote_exbash_runs(value: &Json) -> (r: Vec<Json>)
    ensures
        views(r@) == reported_runs(value@),
{
    let runs = match value.get2("metadata", "runs") {
        Some(runs) => Some(runs),
        None => value.get3("result", "metadata", "runs"),
    };
    match runs {
        Some(runs) => match runs.as_array() {
            Some(a) => copy_values(a),
            None => {
                let r: Vec<Json> = Vec::new();
                assert(views(r@) =~= Seq::empty());
                r
            },
        },
        None => {
            let r: Vec<Json> = Vec::new();
            assert(views(r@) =~= Seq::empty());
            r
        },
    }
}

/// The name under which a task is known across executors.
pub open spec fn tracking_name(executor: Seq<char>, async_id: Seq<char>) -> Seq<char> {
    executor + ":"@ + async_id
}

pub open spec fn task_names(tasks: Seq<ExbashTaskSnapshotView>) -> Seq<Seq<char>> {
    tasks.map_values(|t: ExbashTaskSnapshotView| tracking_name(t.executor, t.async_id))
}

/// The names of all tasks that are kept.
pub fn tracked_async_ids(
    local_tasks: &Vec<ExbashTaskSnapshot>,
    workspace_tasks: &Vec<ExbashTaskSnapshot>,
) -> (r: Vec<String>)
    ensures
        texts(r@) == task_names(snapshot_views(local_tasks@)) + task_names(
            snapshot_views(workspace_tasks@),
        ),
{
    let mut r: Vec<String> = Vec::new();
    let mut i: usize = 0;
    let ghost first = task_names(snapshot_views(local_tasks@));
    let ghost second = task_names(snapshot_views(workspace_tasks@));
    while i < local_tasks.len()
        invariant
            i <= local_tasks@.len(),
            first == task_names(snapshot_views(local_tasks@)),
            texts(r@) == first.take(i as int),
        decreases local_tasks.len() - i,
    {
        let name = cat3(local_tasks[i].executor.as_str(), ":", local_tasks[i].async_id.as_str());
        let ghost before = texts(r@);
        assert(first[i as int] == name@);
        r.push(name);
        assert(texts(r@) =~= before.push(name@));
        i = i + 1;
        assert(first.take(i as int) =~= before.push(name@));
    }
    assert(first.take(i as int) =~= first);
    i = 0;
    assert(texts(r@) =~= first + second.take(0));
    while i < workspace_tasks.len()
        invariant
            i <= workspace_tasks@.len(),
            second == task_names(snapshot_views(workspace_tasks@)),
            texts(r@) == first + second.take(i as int),
        decreases workspace_tasks.len() - i,
    {
        let name = cat3(
            workspace_tasks[i].executor.as_str(),
            ":",
            workspace_tasks[i].async_id.as_str(),
        );
        let ghost before = texts(r@);
        assert(second[i as int] == name@);
        r.push(name);
        assert(texts(r@) =~= before.push(name@));
        i = i + 1;
        assert(first + second.take(i as int) =~= before.push(name@));
    }
    assert(second.take(i as int) =~= second);
    r
}

/// A reported task that one of the names stands for.
pub open spec fn run_is_tracked(names: Seq<Seq<char>>, executor: Seq<char>, run: JsonView) -> bool {
    match run.text_field("asyncID"@) {
        Some(async_id) => names.contains(tracking_name(executor, async_id)),
        None => false,
    }
}

#[verifier::loop_isolation(false)]
pub fn remote_run_is_tracked(names: &Vec<String>, executor: &str, run: &Json) -> (r: bool)
    ensures
        r == run_is_tracked(texts(names@), executor@, run@),
{
    match run.text_of("asyncID") {
        Some(async_id) => {
            let name = cat3(executor, ":", async_id);
            let mut i: usize = 0;
            while i < names.len()
                invariant
                    i <= names@.len(),
                    forall|j: int| 0 <= j < i ==> texts(names@)[j] != name@,
                decreases names.len() - i,
            {
                if same(names[i].as_str(), name.as_str()) {
                    assert(texts(names@)[i as int] == name@);
                    return true;
                }
                i = i + 1;
            }
            false
        },
        None => false,
    }
}

/// The reported tasks that no name stands for, in order.
pub open spec fn untracked(
    runs: Seq<JsonView>,
    names: Seq<Seq<char>>,
    executor: Seq<char>,
) -> Seq<JsonView>
    decreases runs.len(),
{
    if runs.len() == 0 {
        Seq::empty()
    } else if run_is_tracked(names, executor, runs.last()) {
        untracked(runs.drop_last(), names, executor)
    } else {
        untracked(runs.drop_last(), names, executor).push(runs.last())
    }
}

pub fn untracked_runs(runs: &Vec<Json>, names: &Vec<String>, executor: &str) -> (r: Vec<Json>)
    ensures
        views(r@) == untracked(views(runs@), texts(names@), executor@),
{
    let mut r: Vec<Json> = Vec::new();
    let mut i: usize = 0;
    assert(views(r@) =~= Seq::empty());
    assert(views(runs@).take(0) =~= Seq::empty());
    while i < runs.len()
        invariant
            i <= runs@.len(),
            views(r@) == untracked(views(runs@).take(i as int), texts(names@), executor@),
        decreases runs.len() - i,
    {
        assert(views(runs@).take(i + 1).drop_last() =~= views(runs@).take(i as int));
        if !remote_run_is_tracked(names, executor, &runs[i]) {
            let ghost before = views(r@);
            let run = runs[i].clone();
            r.push(run);
            assert(views(r@) =~= before.push(run@));
        }
        i = i + 1;
    }
    assert(views(runs@).take(i as int) =~= views(runs@));
    r
}

// ---------------------------------------------------------------------------
// The output of a command
// ---------------------------------------------------------------------------

/// The command and the directory of a run, where they are known.
pub open spec fn footer_lines(result: JsonView) -> Seq<Seq<char>> {
    let first = match meta_text(result, "command"@) {
        Some(c) => seq!["command:"@ + c],
        None => Seq::empty(),
    };
    match meta_text(result, "cwd"@) {
        Some(c) => first.push("cwd:"@ + c),
        None => first,
    }
}

pub fn exbash_execution_footer_lines(result: &Json) -> (r: Vec<String>)
    ensures
        texts(r@) == footer_lines(result@),
{
    let mut r: Vec<String> = Vec::new();
    match result.text_of2("metadata", "command") {
        Some(c) => r.push(cat("command:", c)),
        None => {},
    }
    let ghost first = texts(r@);
    assert(first =~= match meta_text(result@, "command"@) {
        Some(c) => seq!["command:"@ + c],
        None => Seq::empty(),
    });
    match result.text_of2("metadata", "cwd") {
        Some(c) => {
            r.push(cat("cwd:", c));
            assert(texts(r@) =~= first.push("cwd:"@ + c@));
        },
        None => {},
    }
    r
}

/// The number of bytes that a finished command wrote.
pub open spec fn completed_bytes(result: JsonView, visible: Seq<char>) -> int {
    let total = match meta(result, "totalOutput"@) {
        Some(v) => v.unsigned(),
        None => None,
    };
    match total {
        Some(n) => n,
        None => match meta_text(result, "output"@) {
            Some(s) => encode_utf8(s).len() as int,
            None => encode_utf8(visible).len() as int,
        },
    }
}

pub fn exbash_completed_output_bytes(result: &Json, visible_text: &str) -> (r: u64)
    ensures
        r == completed_bytes(result@, visible_text@),
{
    let total = match result.get2("metadata", "totalOutput") {
        Some(v) => v.as_u64(),
        None => None,
    };
    match total {
        Some(n) => n,
        None => match result.text_of2("metadata", "output") {
            Some(s) => s.as_bytes().len() as u64,
            None => visible_text.as_bytes().len() as u64,
        },
    }
}

/// A command that was left running, or that has a name to come back to.
pub open spec fn is_detached(result: JsonView) -> bool {
    meta(result, "detached"@) == Some(JsonView::Bool(true)) || meta(result, "asyncID"@) is Some
}

/// What a `run` or `shell` call shows: the output of a finished command with its size
/// and exit code, the output so far of a detached one with its message and info.
pub open spec fn run_text(result: JsonView) -> Seq<char> {
    let text = text_or_empty(result.field2("output"@, "text"@));
    let message = text_or_empty(result.field2("output"@, "message"@));
    let info = text_or_empty(result.field2("output"@, "info"@));
    match meta(result, "exitCode"@) {
        Some(code) => with_footer(
            text,
            footer_lines(result).push(
                "totaloutput:"@ + decimal(completed_bytes(result, text)) + "bytes"@,
            ).push("exitcode:"@ + plain(code)),
        ),
        None => if is_detached(result) {
            let t = with_footer(text, footer_lines(result));
            let t = if message.len() > 0 {
                with_line(t, message)
            } else {
                t
            };
            if info.len() > 0 {
                with_line(t, info)
            } else {
                t
            }
        } else {
            output_text(result)
        },
    }
}

pub fn format_exbash_run_or_shell_output(result: &Json) -> (r: String)
    ensures
        r@ == run_text(result@),
{
    let text = result.text_of2("output", "text").unwrap_or("").to_owned();
    let message = result.text_of2("output", "message").unwrap_or("");
    let info = result.text_of2("output", "info").unwrap_or("");
    match result.get2("metadata", "exitCode") {
        Some(code) => {
            let bytes: u64 = exbash_completed_output_bytes(result, text.as_str());
            let bytes = write_decimal(bytes as i128);
            let code = code.plain_text();
            let mut footer = exbash_execution_footer_lines(result);
            let ghost first = texts(footer@);
            footer.push(cat3("totaloutput:", bytes.as_str(), "bytes"));
            footer.push(cat("exitcode:", code.as_str()));
            assert(texts(footer@) =~= first.push("totaloutput:"@ + bytes@ + "bytes"@).push(
                "exitcode:"@ + code@,
            ));
            return append_footer_lines(text, &footer);
        },
        None => {},
    }
    let flag = match result.get2("metadata", "detached") {
        Some(v) => v.as_bool(),
        None => None,
    };
    let detached = flag == Some(true) || result.get2("metadata", "asyncID").is_some();
    if detached {
        let footer = exbash_execution_footer_lines(result);
        let mut t = append_footer_lines(text, &footer);
        if message.unicode_len() > 0 {
            t = append_visible_line(t, message);
        }
        if info.unicode_len() > 0 {
            t = append_visible_line(t, info);
        }
        return t;
    }
    extract_output_text(result)
}

} // verus!
