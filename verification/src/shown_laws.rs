//! What answers show of tasks and executors.

use vstd::prelude::*;
use vstd::utf8::encode_utf8;

use crate::base_laws::law_lines_are_seen;
use crate::base_laws::law_numbers_read_back;
use crate::exbash::exit_state;
use crate::exbash::footer_lines;
use crate::exbash::input_of_new;
use crate::exbash::kept_state;
use crate::exbash::run_text;
use crate::exbash::shown_state;
use crate::json::JsonView;
use crate::number::decimal;
use crate::number::digits;
use crate::output::has_line;
use crate::output::with_blank_line;
use crate::refs::sha1_digest;
use crate::refs::small_hash_of;
use crate::text::has_prefix;
use crate::text::has_suffix;
use crate::text::has_text;
use crate::text::is_space;
use crate::text::joined;
use crate::text::lemma_joined_holds;
use crate::text::lemma_joined_starts;
use crate::text::occurs_at;
use crate::text::trimmed;
use crate::types::snapshot_json;
use crate::types::ExbashTaskSnapshotView;
use crate::workspace::config_value;
use crate::workspace::executor_line;
use crate::workspace::executor_lines;
use crate::workspace::executor_list_text;
use crate::workspace::WorkspaceExecutorInfoView;

verus! {

// ---------------------------------------------------------------------------
// Tasks
// ---------------------------------------------------------------------------

/// A task that ended shows, below its output, the command that it ran and where it ran.
pub proof fn law_ended_tasks_show_their_command(
    result: JsonView,
    code: JsonView,
    command: Seq<char>,
    cwd: Seq<char>,
)
    requires
        result.field2("metadata"@, "exitCode"@) == Some(code),
        result.field2("metadata"@, "command"@) == Some(JsonView::Str(command)),
        result.field2("metadata"@, "cwd"@) == Some(JsonView::Str(cwd)),
    ensures
        has_text(run_text(result), "command:"@ + command),
        has_text(run_text(result), "cwd:"@ + cwd),
{
    let text = crate::output::text_or_empty(result.field2("output"@, "text"@));
    let footer = footer_lines(result).push(
        "totaloutput:"@ + decimal(crate::exbash::completed_bytes(result, text)) + "bytes"@,
    ).push("exitcode:"@ + crate::json::plain(code));
    assert(footer[0] == "command:"@ + command);
    assert(footer[1] == "cwd:"@ + cwd);
    lemma_joined_holds(footer, "\n"@, 0);
    lemma_joined_holds(footer, "\n"@, 1);
    lemma_text_behind(with_blank_line(text), joined(footer, "\n"@), footer[0]);
    lemma_text_behind(with_blank_line(text), joined(footer, "\n"@), footer[1]);
}

proof fn lemma_text_behind(head: Seq<char>, tail: Seq<char>, part: Seq<char>)
    requires
        has_text(tail, part),
    ensures
        has_text(head + tail, part),
{
    let at = choose|at: int| occurs_at(tail, part, at);
    let n = head.len() + at;
    let all = head + tail;
    assert(all.subrange(n, n + part.len()) =~= tail.subrange(at, at + part.len()));
    assert(occurs_at(all, part, n));
}

/// A task that goes on in the background shows its output, and below it the message of the executor.
pub proof fn law_running_tasks_show_the_message(
    result: JsonView,
    text: Seq<char>,
    message: Seq<char>,
    id: JsonView,
)
    requires
        result.field2("metadata"@, "exitCode"@) is None,
        result.field2("metadata"@, "asyncID"@) == Some(id),
        result.field2("metadata"@, "command"@) is None,
        result.field2("metadata"@, "cwd"@) is None,
        result.field2("output"@, "text"@) == Some(JsonView::Str(text)),
        result.field2("output"@, "message"@) == Some(JsonView::Str(message)),
        result.field2("output"@, "info"@) is None,
        message.len() > 0,
    ensures
        has_prefix(run_text(result), text),
        has_line(text, message) ==> run_text(result) == text,
        !has_line(text, message) ==> has_suffix(run_text(result), seq!['\n'] + message),
{
    reveal_strlit("");
    assert(footer_lines(result) =~= Seq::empty());
    law_lines_are_seen(text, message);
}

/// The description of a new task is the one that was asked for, else the one that the executor
/// tells, else a placeholder.
pub proof fn law_new_tasks_are_described(result: JsonView, asked: Seq<char>, told: Seq<char>)
    requires
        result.field2("metadata"@, "asyncID"@) matches Some(JsonView::Str(_)),
        result.field2("metadata"@, "description"@) == Some(JsonView::Str(told)),
    ensures
        trimmed(asked).len() > 0 ==> (input_of_new(result, "run"@, Some(asked)) matches Some(i)
            && i.description matches Some(d) && trimmed(d) == trimmed(asked)),
        trimmed(told).len() > 0 ==> (input_of_new(result, "run"@, None) matches Some(i)
            && i.description matches Some(d) && trimmed(d) == trimmed(told)),
        trimmed(told).len() == 0 ==> (input_of_new(result, "shell"@, None) matches Some(i)
            && i.description == Some("Tmp Running"@)),
        input_of_new(result, "stop"@, Some(asked)) is None,
        input_of_new(result, "attach"@, Some(asked)) is None,
{
    crate::exbash_laws::lemma_mode_names();
    crate::text::lemma_trimmed_again(asked);
    crate::text::lemma_trimmed_again(told);
}

/// An exit code that is told as text counts as the number that it writes.
pub proof fn law_exit_codes_as_text(n: i32)
    ensures
        exit_state(JsonView::Str(decimal(n as int))) == Some("exit:"@ + decimal(n as int)),
        exit_state(JsonView::Int(n as int)) == Some("exit:"@ + decimal(n as int)),
        kept_state("stopped"@, Some(n)) == Some("exit:"@ + decimal(n as int)),
        kept_state("stopped"@, None) == Some("stop"@),
        kept_state("running"@, Some(n)) == Some("running"@),
        shown_state("unknown"@, Some(n)) == "unknown"@,
{
    law_numbers_read_back(n as int, n as int);
    let t = decimal(n as int);
    lemma_decimal_ends(n as int);
    assert(trimmed(t) == t);
    reveal_strlit("timeout");
    reveal_strlit("stopped");
    reveal_strlit("stop");
    reveal_strlit("running");
    reveal_strlit("exit:");
    assert("timeout"@[0] == 't' && "stopped"@[0] == 's' && "stop"@[0] == 's' && "running"@[0]
        == 'r');
    assert("timeout"@.len() == 7 && "stopped"@.len() == 7 && "stop"@.len() == 4 && "running"@.len()
        == 7 && "exit:"@.len() == 5);
    assert("stopped"@[6] == 'd' && "running"@[6] == 'g');
    assert(trimmed("stopped"@) == "stopped"@);
    assert(trimmed("running"@) == "running"@);
    assert("exit:"@[0] == 'e');
    assert("stopped"@.subrange(0, 5)[0] == 's');
}

proof fn lemma_decimal_ends(n: int)
    ensures
        decimal(n).len() > 0,
        !is_space(decimal(n)[0]) && !is_space(decimal(n).last()),
        decimal(n)[0] == '-' || '0' <= decimal(n)[0] <= '9',
{
    let m = if n < 0 {
        (-n) as nat
    } else {
        n as nat
    };
    lemma_digits_end(m);
    if n < 0 {
        assert(decimal(n).last() == digits(m).last());
    }
}

pub proof fn lemma_digits_end(m: nat)
    ensures
        digits(m).len() > 0,
        '0' <= digits(m).last() <= '9',
        '0' <= digits(m)[0] <= '9',
    decreases m,
{
    if m >= 10 {
        lemma_digits_end(m / 10);
    }
}

// ---------------------------------------------------------------------------
// Executors
// ---------------------------------------------------------------------------

/// A list of executors has a line for each of them, in their order below its head, which names the
/// default executor.
pub proof fn law_every_executor_has_its_line(
    result: JsonView,
    executors: Seq<JsonView>,
    default: Seq<char>,
    i: int,
)
    requires
        result.field2("metadata"@, "executors"@) == Some(JsonView::Arr(executors)),
        result.field2("metadata"@, "default"@) == Some(JsonView::Str(default)),
        default.len() > 0,
        0 <= i < executors.len(),
    ensures
        executor_list_text(result) matches Some(text) && has_prefix(
            text,
            "default executor: "@ + default,
        ) && has_text(text, executor_line(executors[i], default)),
{
    let head = seq!["default executor: "@ + default, "executors:"@];
    let lines = head + executor_lines(executors, default);
    assert(lines[0] == "default executor: "@ + default);
    assert(lines[i + 2] == executor_line(executors[i], default));
    lemma_joined_starts(lines, "\n"@);
    lemma_joined_holds(lines, "\n"@, i + 2);
}

/// The line of an executor tells its name, whether it is the default one, its system, its device and
/// its address.
pub proof fn law_executor_lines_tell(
    executor: JsonView,
    id: Seq<char>,
    system: Seq<char>,
    device: Seq<char>,
    url: Seq<char>,
    default: Seq<char>,
)
    requires
        executor.field("id"@) == Some(JsonView::Str(id)),
        executor.field("system"@) == Some(JsonView::Str(system)),
        executor.field("device"@) == Some(JsonView::Str(device)),
        executor.field("url"@) == Some(JsonView::Str(url)),
        executor.field("labels"@) is None,
        id.len() > 0,
        system.len() > 0,
        device.len() > 0,
        url.len() > 0,
    ensures
        executor_line(executor, default) == "- "@ + id + (if id == default {
            " (default)"@
        } else {
            ""@
        }) + " system="@ + system + " device="@ + device + " url="@ + url,
{
    reveal_strlit("");
    reveal_strlit(" ");
    reveal_strlit("=");
    reveal_strlit("system");
    reveal_strlit("device");
    reveal_strlit("url");
    reveal_strlit(" system=");
    reveal_strlit(" device=");
    reveal_strlit(" url=");
    assert(" "@ + "system"@ + "="@ =~= " system="@);
    assert(" "@ + "device"@ + "="@ =~= " device="@);
    assert(" "@ + "url"@ + "="@ =~= " url="@);
    let head = "- "@ + id + (if id == default {
        " (default)"@
    } else {
        ""@
    });
    assert(executor_line(executor, default) =~= head + (" "@ + "system"@ + "="@ + system) + (" "@
        + "device"@ + "="@ + device) + (" "@ + "url"@ + "="@ + url));
    assert(head + (" "@ + "system"@ + "="@ + system) + (" "@ + "device"@ + "="@ + device) + (" "@
        + "url"@ + "="@ + url) =~= head + (" "@ + "system"@ + "="@) + system + (" "@ + "device"@
        + "="@) + device + (" "@ + "url"@ + "="@) + url);
}

// ---------------------------------------------------------------------------
// What is written down
// ---------------------------------------------------------------------------

proof fn lemma_written_names()
    ensures
        "asyncId"@ != "executor"@,
        "asyncId"@ != "sessionId"@,
        "asyncId"@ != "workdir"@,
        "asyncId"@ != "state"@,
        "asyncId"@ != "pid"@,
        "asyncId"@ != "exitCode"@,
        "asyncId"@ != "startedAt"@,
        "asyncId"@ != "endedAt"@,
        "asyncId"@ != "command"@,
        "asyncId"@ != "description"@,
        "asyncId"@ != "totalOutput"@,
        "executor"@ != "sessionId"@,
        "executor"@ != "workdir"@,
        "executor"@ != "state"@,
        "executor"@ != "pid"@,
        "executor"@ != "exitCode"@,
        "executor"@ != "startedAt"@,
        "executor"@ != "endedAt"@,
        "executor"@ != "command"@,
        "executor"@ != "description"@,
        "executor"@ != "totalOutput"@,
        "sessionId"@ != "workdir"@,
        "sessionId"@ != "state"@,
        "sessionId"@ != "pid"@,
        "sessionId"@ != "exitCode"@,
        "sessionId"@ != "startedAt"@,
        "sessionId"@ != "endedAt"@,
        "sessionId"@ != "command"@,
        "sessionId"@ != "description"@,
        "sessionId"@ != "totalOutput"@,
        "workdir"@ != "state"@,
        "workdir"@ != "pid"@,
        "workdir"@ != "exitCode"@,
        "workdir"@ != "startedAt"@,
        "workdir"@ != "endedAt"@,
        "workdir"@ != "command"@,
        "workdir"@ != "description"@,
        "workdir"@ != "totalOutput"@,
        "state"@ != "pid"@,
        "state"@ != "exitCode"@,
        "state"@ != "startedAt"@,
        "state"@ != "endedAt"@,
        "state"@ != "command"@,
        "state"@ != "description"@,
        "state"@ != "totalOutput"@,
        "pid"@ != "exitCode"@,
        "pid"@ != "startedAt"@,
        "pid"@ != "endedAt"@,
        "pid"@ != "command"@,
        "pid"@ != "description"@,
        "pid"@ != "totalOutput"@,
        "exitCode"@ != "startedAt"@,
        "exitCode"@ != "endedAt"@,
        "exitCode"@ != "command"@,
        "exitCode"@ != "description"@,
        "exitCode"@ != "totalOutput"@,
        "startedAt"@ != "endedAt"@,
        "startedAt"@ != "command"@,
        "startedAt"@ != "description"@,
        "startedAt"@ != "totalOutput"@,
        "endedAt"@ != "command"@,
        "endedAt"@ != "description"@,
        "endedAt"@ != "totalOutput"@,
        "command"@ != "description"@,
        "command"@ != "totalOutput"@,
        "description"@ != "totalOutput"@,
{
    reveal_strlit("asyncId");
    reveal_strlit("executor");
    reveal_strlit("sessionId");
    reveal_strlit("workdir");
    reveal_strlit("state");
    reveal_strlit("pid");
    reveal_strlit("exitCode");
    reveal_strlit("startedAt");
    reveal_strlit("endedAt");
    reveal_strlit("command");
    reveal_strlit("description");
    reveal_strlit("totalOutput");
    assert("asyncId"@.len() == 7);
    assert("executor"@.len() == 8);
    assert("sessionId"@.len() == 9);
    assert("workdir"@.len() == 7);
    assert("state"@.len() == 5);
    assert("pid"@.len() == 3);
    assert("exitCode"@.len() == 8);
    assert("startedAt"@.len() == 9);
    assert("endedAt"@.len() == 7);
    assert("command"@.len() == 7);
    assert("description"@.len() == 11);
    assert("totalOutput"@.len() == 11);
    assert("asyncId"@[0] == 'a' && "workdir"@[0] == 'w');
    assert("asyncId"@[0] == 'a' && "endedAt"@[0] == 'e');
    assert("asyncId"@[0] == 'a' && "command"@[0] == 'c');
    assert("executor"@[2] == 'e' && "exitCode"@[2] == 'i');
    assert("sessionId"@[1] == 'e' && "startedAt"@[1] == 't');
    assert("workdir"@[0] == 'w' && "endedAt"@[0] == 'e');
    assert("workdir"@[0] == 'w' && "command"@[0] == 'c');
    assert("endedAt"@[0] == 'e' && "command"@[0] == 'c');
    assert("description"@[0] == 'd' && "totalOutput"@[0] == 't');
}

proof fn lemma_info_names()
    ensures
        "id"@ != "url"@,
        "id"@ != "system"@,
        "id"@ != "device"@,
        "id"@ != "labels"@,
        "id"@ != "executors"@,
        "url"@ != "system"@,
        "url"@ != "device"@,
        "url"@ != "labels"@,
        "url"@ != "executors"@,
        "system"@ != "device"@,
        "system"@ != "labels"@,
        "system"@ != "executors"@,
        "device"@ != "labels"@,
        "device"@ != "executors"@,
        "labels"@ != "executors"@,
{
    reveal_strlit("id");
    reveal_strlit("url");
    reveal_strlit("system");
    reveal_strlit("device");
    reveal_strlit("labels");
    reveal_strlit("executors");
    assert("id"@.len() == 2);
    assert("url"@.len() == 3);
    assert("system"@.len() == 6);
    assert("device"@.len() == 6);
    assert("labels"@.len() == 6);
    assert("executors"@.len() == 9);
    assert("system"@[0] == 's' && "device"@[0] == 'd');
    assert("system"@[0] == 's' && "labels"@[0] == 'l');
    assert("device"@[0] == 'd' && "labels"@[0] == 'l');
}

/// A text, or nothing where there is none.
pub open spec fn text_value(s: Option<Seq<char>>) -> Option<JsonView> {
    match s {
        Some(s) => Some(JsonView::Str(s)),
        None => None,
    }
}

/// A number, or nothing where there is none.
pub open spec fn number_value(n: Option<i64>) -> Option<JsonView> {
    match n {
        Some(n) => Some(JsonView::Int(n as int)),
        None => None,
    }
}

/// A task is written down member by member, each under its name; what is not known is left out.
pub proof fn law_tasks_are_written(t: ExbashTaskSnapshotView)
    ensures
        ({
            let v = snapshot_json(t);
            &&& v.field("asyncId"@) == Some(JsonView::Str(t.async_id))
            &&& v.field("executor"@) == Some(JsonView::Str(t.executor))
            &&& v.field("sessionId"@) == text_value(t.session_id)
            &&& v.field("workdir"@) == text_value(t.workdir)
            &&& v.field("state"@) == text_value(t.state)
            &&& v.field("command"@) == text_value(t.command)
            &&& v.field("description"@) == text_value(t.description)
            &&& v.field("pid"@) == number_value(t.pid)
            &&& v.field("startedAt"@) == number_value(t.started_at)
            &&& v.field("endedAt"@) == number_value(t.ended_at)
            &&& v.field("totalOutput"@) == number_value(t.total_output)
            &&& v.field("exitCode"@) == match t.exit_code {
                Some(n) => Some(JsonView::Int(n as int)),
                None => None,
            }
        }),
{
    lemma_written_names();
}

/// An executor is written down with its name, its address and what is known of it, and a workspace
/// with all of its executors in their order.
pub proof fn law_executors_are_written(executors: Seq<WorkspaceExecutorInfoView>, i: int)
    requires
        0 <= i < executors.len(),
    ensures
        config_value(executors).field("executors"@) matches Some(JsonView::Arr(items)) && {
            let e = executors[i];
            &&& items.len() == executors.len()
            &&& items[i].field("id"@) == Some(JsonView::Str(e.id))
            &&& items[i].field("url"@) == Some(JsonView::Str(e.url))
            &&& items[i].field("system"@) == text_value(e.system)
            &&& items[i].field("device"@) == text_value(e.device)
            &&& e.labels != Map::<Seq<char>, JsonView>::empty() ==> items[i].field("labels"@)
                == Some(JsonView::Obj(e.labels))
            &&& e.labels == Map::<Seq<char>, JsonView>::empty() ==> items[i].field(
                "labels"@,
            ) is None
        },
{
    lemma_info_names();
}

/// The small hash of a file is the beginning of the SHA-1 digest of its key and its hash, two bytes
/// of it in hexadecimal.
pub proof fn law_small_hashes(file_key_ref: Seq<char>, hash_code: Seq<char>)
    ensures
        ({
            let digest = sha1_digest(encode_utf8(file_key_ref + ":"@ + hash_code));
            let s = small_hash_of(file_key_ref, hash_code);
            &&& s.len() == 4
            &&& hex_value(s[0]) * 16 + hex_value(s[1]) == digest[0]
            &&& hex_value(s[2]) * 16 + hex_value(s[3]) == digest[1]
        }),
{
    let digest = sha1_digest(encode_utf8(file_key_ref + ":"@ + hash_code));
    let (a, b) = (digest[0] as int, digest[1] as int);
    assert(0 <= a / 16 < 16 && 0 <= b / 16 < 16);
    assert(a / 16 * 16 + a % 16 == a && b / 16 * 16 + b % 16 == b);
}

/// The number that an upper-case hexadecimal digit stands for.
pub open spec fn hex_value(c: char) -> int {
    if '0' <= c <= '9' {
        c as int - '0' as int
    } else {
        c as int - 'A' as int + 10
    }
}

} // verus!
