//! What a terminal shows of the tasks and does with its user.

use vstd::prelude::*;
use vstd::utf8::encode_utf8;

use crate::attach::attach_icon;
use crate::attach::hits_auto;
use crate::attach::marker_text;
use crate::attach::AttachActionView;
use crate::attach::AttachViewView;
use crate::attach_laws::law_switch_is_hit_where_it_stands;
use crate::base_laws::law_numbers_read_back;
use crate::base_laws::law_one_line;
use crate::columns::char_widths;
use crate::columns::columns;
use crate::columns::cut;
use crate::columns::law_cut_is_longest;
use crate::columns::status;
use crate::columns::sum;
use crate::exbash::one_line;
use crate::json::JsonView;
use crate::local_event::LocalEventView;
use crate::number::decimal;
use crate::term_input::key_bytes;
use crate::term_input::lists_mouse_mode;
use crate::term_input::next_open;
use crate::term_input::number_in;
use crate::term_input::opens_at;
use crate::term_input::params_end;
use crate::term_input::part_end;
use crate::term_input::sgr_text;
use crate::term_input::tracking_after;
use crate::term_input::KeyCode;
use crate::term_input::KeyEvent;
use crate::term_input::MouseButton;
use crate::term_input::MouseEvent;
use crate::term_input::MouseEventKind;
use crate::term_list::list_next;
use crate::term_list::list_picture;
use crate::term_list::scrolled;
use crate::term_list::slot_lines;
use crate::term_list::ListEventView;
use crate::term_list::ListNextView;
use crate::term_list::ListStateView;
use crate::term_list::ListStepView;
use crate::term_task::exit_number;
use crate::term_task::icon_of;
use crate::term_task::scoped_entries;
use crate::term_task::state_of;
use crate::term_task::subtitle_of;
use crate::term_task::summary_of;
use crate::term_task::title_of;
use crate::term_task::ExbashTaskView;
use crate::text::has_prefix;
use crate::text::has_suffix;
use crate::text::split_on;
use crate::text::trimmed;

verus! {

// ---------------------------------------------------------------------------
// Tasks
// ---------------------------------------------------------------------------

proof fn lemma_state_names()
    ensures
        "running"@ != "timeout"@,
        "running"@ != "unknown"@,
        "running"@ != "stop"@,
        "running"@ != "stopped"@,
        "running"@ != "exit:0"@,
        "timeout"@ != "unknown"@,
        "timeout"@ != "stop"@,
        "timeout"@ != "stopped"@,
        "timeout"@ != "exit:0"@,
        "unknown"@ != "stop"@,
        "unknown"@ != "stopped"@,
        "unknown"@ != "exit:0"@,
        "stop"@ != "stopped"@,
        "stop"@ != "exit:0"@,
        "stopped"@ != "exit:0"@,
{
    reveal_strlit("running");
    reveal_strlit("timeout");
    reveal_strlit("unknown");
    reveal_strlit("stop");
    reveal_strlit("stopped");
    reveal_strlit("exit:0");
    assert("running"@.len() == 7);
    assert("timeout"@.len() == 7);
    assert("unknown"@.len() == 7);
    assert("stop"@.len() == 4);
    assert("stopped"@.len() == 7);
    assert("exit:0"@.len() == 6);
    reveal_strlit("running");
    reveal_strlit("timeout");
    reveal_strlit("unknown");
    reveal_strlit("stop");
    reveal_strlit("stopped");
    assert("running"@[0] == 'r' && "timeout"@[0] == 't');
    assert("running"@[0] == 'r' && "unknown"@[0] == 'u');
    assert("running"@[0] == 'r' && "stopped"@[0] == 's');
    assert("timeout"@[0] == 't' && "unknown"@[0] == 'u');
    assert("timeout"@[0] == 't' && "stopped"@[0] == 's');
    assert("unknown"@[0] == 'u' && "stopped"@[0] == 's');
}

/// What the state of a task tells. A state that is known is shown; where there is none, or one
/// that nobody knows, the exit code decides, and a number in it is shown as it is.
pub proof fn law_states_are_shown(task: ExbashTaskView, n: i64)
    ensures
        task.state == Some("running"@) ==> state_of(task) == "running"@,
        task.state == Some("timeout"@) ==> state_of(task) == "timeout"@,
        task.state == Some("stop"@) || task.state == Some("stopped"@) ==> state_of(task)
            == "stop"@,
        (task.state matches Some(s) && has_prefix(s, "exit:"@)) ==> state_of(task)
            == task.state->0,
        task.state is None && task.exit_code == Some(JsonView::Int(n as int)) ==> state_of(task)
            == "exit:"@ + decimal(n as int),
        task.state is None && task.exit_code == Some(JsonView::Str("timeout"@)) ==> state_of(task)
            == "timeout"@,
        task.state is None && task.exit_code is None ==> state_of(task) == "unknown"@,
        task.state is None && task.exit_code == Some(JsonView::Int(n as int)) && 0 <= n
            <= 0xffff_ffff ==> exit_number(task) == Some(n as u32),
        task.state is None && task.exit_code == Some(JsonView::Int(n as int)) && n < 0
            ==> exit_number(task) is None,
        task.state == Some("running"@) ==> exit_number(task) is None,
{
    lemma_state_names();
    law_numbers_read_back(n as int, n as int);
    reveal_strlit("exit:");
    let p = "exit:"@;
    assert(p.len() == 5 && p[0] == 'e');
    let code = p + decimal(n as int);
    assert(code.subrange(0, 5) =~= p);
    assert(code.skip(5) =~= decimal(n as int));
    reveal_strlit("running");
    reveal_strlit("timeout");
    reveal_strlit("unknown");
    reveal_strlit("stop");
    reveal_strlit("stopped");
    assert("running"@[0] == 'r' && "timeout"@[0] == 't' && "unknown"@[0] == 'u' && "stop"@[0]
        == 's' && "stopped"@[0] == 's');
    assert("running"@.subrange(0, 5)[0] == 'r');
    if let Some(s) = task.state {
        if has_prefix(s, p) {
            assert(s.subrange(0, 5)[0] == s[0]);
        }
    }
}

/// The picture of a task tells how it ended: a tick for success alone, an `E` for any other exit
/// code, and a mark of its own for what did not end by itself.
pub proof fn law_pictures_tell_the_end(
    task: ExbashTaskView,
    view: AttachViewView,
    frame: int,
    n: i64,
)
    requires
        task.state is None,
        task.exit_code == Some(JsonView::Int(n as int)),
    ensures
        n == 0 ==> icon_of(state_of(task), frame) == "[✓]"@,
        n != 0 ==> icon_of(state_of(task), frame) == "[E]"@,
        icon_of("timeout"@, frame) == "[!]"@,
        icon_of("stop"@, frame) == "[!]"@,
        icon_of("unknown"@, frame) == "[?]"@,
        icon_of("running"@, frame) != "[✓]"@ && icon_of("running"@, frame) != "[E]"@,
        icon_of("running"@, frame) == icon_of("running"@, frame + 10),
        icon_of("running"@, frame) != icon_of("running"@, frame + 1),
        view.exit_code == Some(0u32) ==> attach_icon(view, task, frame) == "[✓]"@,
        (view.exit_code matches Some(c) && c != 0) ==> attach_icon(view, task, frame) == "[E]"@,
        view.exit_code is None ==> attach_icon(view, task, frame) == icon_of(
            state_of(task),
            frame,
        ),
{
    lemma_state_names();
    law_states_are_shown(task, n);
    law_numbers_read_back(n as int, 0);
    reveal_strlit("exit:");
    reveal_strlit("exit:0");
    let p = "exit:"@;
    let code = p + decimal(n as int);
    assert(code.subrange(0, 5) =~= p);
    assert(decimal(0) =~= seq!['0']);
    assert("exit:0"@ =~= p + seq!['0']);
    assert(code.skip(5) =~= decimal(n as int));
    assert("exit:0"@.skip(5) =~= decimal(0));
    assert(code[0] == 'e');
    reveal_strlit("running");
    reveal_strlit("timeout");
    reveal_strlit("unknown");
    reveal_strlit("stop");
    reveal_strlit("stopped");
    assert("running"@[0] == 'r' && "timeout"@[0] == 't' && "unknown"@[0] == 'u' && "stop"@[0]
        == 's');
    reveal_strlit("[✓]");
    reveal_strlit("[E]");
    reveal_strlit("[⠋]");
    reveal_strlit("[⠙]");
    reveal_strlit("[⠹]");
    reveal_strlit("[⠸]");
    reveal_strlit("[⠼]");
    reveal_strlit("[⠴]");
    reveal_strlit("[⠦]");
    reveal_strlit("[⠧]");
    reveal_strlit("[⠇]");
    reveal_strlit("[⠏]");
    assert("[⠋]"@[1] == '⠋');
    assert("[⠙]"@[1] == '⠙');
    assert("[⠹]"@[1] == '⠹');
    assert("[⠸]"@[1] == '⠸');
    assert("[⠼]"@[1] == '⠼');
    assert("[⠴]"@[1] == '⠴');
    assert("[⠦]"@[1] == '⠦');
    assert("[⠧]"@[1] == '⠧');
    assert("[⠇]"@[1] == '⠇');
    assert("[⠏]"@[1] == '⠏');
    assert("[✓]"@[1] == '✓' && "[E]"@[1] == 'E');
    assert((frame + 10) % 10 == frame % 10);
    assert((frame + 1) % 10 == if frame % 10 == 9 {
        0
    } else {
        frame % 10 + 1
    });
}

/// A task is called by its description, on one line; one without is called a running command.
/// Below stand its id, where it runs, and how its command begins.
pub proof fn law_tasks_are_described(task: ExbashTaskView)
    ensures
        trimmed(task.description).len() > 0 ==> title_of(task) == one_line(task.description),
        trimmed(task.description).len() > 0 && !task.description.contains('\n')
            && !task.description.contains('\r') ==> title_of(task) == task.description,
        trimmed(task.description).len() == 0 ==> title_of(task) == "running command"@,
        has_prefix(
            subtitle_of(task),
            task.async_id + " · "@ + task.cwd + " ["@ + task.scope + "/"@ + task.executor + "]"@,
        ),
        has_suffix(subtitle_of(task), "command="@ + summary_of(task.command)),
        has_prefix(task.command, summary_of(task.command)),
        summary_of(task.command).len() <= 100,
        !task.command.contains('\n') && !task.command.contains('\r') && task.command.len() <= 100
            ==> summary_of(task.command) == task.command,
{
    law_one_line(task.description);
    let all = subtitle_of(task);
    reveal_strlit("] command=");
    reveal_strlit("]");
    reveal_strlit(" ");
    reveal_strlit("command=");
    assert("] command="@ =~= "]"@ + " "@ + "command="@);
    let head = task.async_id + " · "@ + task.cwd + " ["@ + task.scope + "/"@ + task.executor
        + "]"@;
    assert(all.subrange(0, head.len() as int) =~= head);
    let tail = "command="@ + summary_of(task.command);
    assert(all.subrange(all.len() - tail.len(), all.len() as int) =~= tail);
    lemma_first_part(task.command);
    let first = split_on(task.command, "\r\n"@)[0];
    let s = summary_of(task.command);
    assert(task.command.subrange(0, first.len() as int) == first);
    assert(task.command.subrange(0, s.len() as int) =~= first.subrange(0, s.len() as int));
    assert(first.subrange(0, s.len() as int) =~= s);
}

proof fn lemma_first_part(s: Seq<char>)
    ensures
        split_on(s, "\r\n"@).len() > 0,
        has_prefix(s, split_on(s, "\r\n"@)[0]),
        split_on(s, "\r\n"@).len() == 1 ==> split_on(s, "\r\n"@)[0] == s,
        !s.contains('\n') && !s.contains('\r') ==> split_on(s, "\r\n"@).len() == 1,
    decreases s.len(),
{
    reveal_strlit("\r\n");
    let set = "\r\n"@;
    assert(set =~= seq!['\r', '\n']);
    let parts = split_on(s, set);
    if s.len() == 0 {
        assert(parts[0] =~= s);
        assert(s.subrange(0, 0) =~= s);
    } else {
        let fewer = s.drop_last();
        lemma_first_part(fewer);
        let head = split_on(fewer, set);
        assert(fewer.subrange(0, head[0].len() as int) == head[0]);
        assert(s.subrange(0, head[0].len() as int) =~= fewer.subrange(0, head[0].len() as int));
        assert(fewer.push(s.last()) =~= s);
        assert(s.subrange(0, s.len() as int) =~= s);
        if !s.contains('\n') && !s.contains('\r') {
            assert(s.contains(s.last()));
            assert(!fewer.contains('\n')) by {
                if fewer.contains('\n') {
                    let i = choose|i: int| 0 <= i < fewer.len() && fewer[i] == '\n';
                    assert(s[i] == '\n');
                }
            }
            assert(!fewer.contains('\r')) by {
                if fewer.contains('\r') {
                    let i = choose|i: int| 0 <= i < fewer.len() && fewer[i] == '\r';
                    assert(s[i] == '\r');
                }
            }
        }
    }
}

/// The entries of a list get the scope that they were listed for and keep everything else.
pub proof fn law_entries_get_their_scope(
    metadata: JsonView,
    entries: Seq<JsonView>,
    scope: Seq<char>,
    i: int,
    key: Seq<char>,
)
    requires
        metadata.field("tasks"@) == Some(JsonView::Arr(entries)),
        0 <= i < entries.len(),
        entries[i] is Obj,
    ensures
        scoped_entries(metadata, scope).len() == entries.len(),
        scoped_entries(metadata, scope)[i].field("scope"@) == Some(JsonView::Str(scope)),
        key != "scope"@ ==> scoped_entries(metadata, scope)[i].field(key) == entries[i].field(key),
{
}

// ---------------------------------------------------------------------------
// The list
// ---------------------------------------------------------------------------

pub open spec fn list_on_key(s: ListStateView, key: KeyEvent, cols: u16, rows: u16) -> (
    ListStateView,
    ListStepView,
) {
    list_next(s, ListEventView::Local { event: LocalEventView::Key { key } }, cols, rows)
}

pub open spec fn list_on(s: ListStateView, event: LocalEventView, cols: u16, rows: u16) -> (
    ListStateView,
    ListStepView,
) {
    list_next(s, ListEventView::Local { event }, cols, rows)
}

/// `Down` and `Up` move the selection by one and undo each other, `Enter` attaches to the task that
/// is selected, `r` loads the tasks anew, `q` ends, and no other key does anything. The
/// selection is all that moving changes, and it stays in sight.
pub proof fn law_keys_in_the_list(s: ListStateView, key: KeyEvent, up: KeyEvent, cols: u16, rows: u16)
    requires
        up.code == KeyCode::Up,
        s.tasks.len() <= usize::MAX,
    ensures
        ({
            let (after, step) = list_on_key(s, key, cols, rows);
            &&& after.tasks == s.tasks && after.auto_schedule == s.auto_schedule
            &&& step.schedulable is None
            &&& key.code == KeyCode::Down && s.selected + 1 < s.tasks.len() ==> {
                &&& after.selected == s.selected + 1
                &&& list_on_key(after, up, cols, rows).0.selected == s.selected
                &&& after.message == s.message
                &&& step.draw && step.next is Wait
            }
            &&& key.code == KeyCode::Down && s.selected + 1 >= s.tasks.len() ==> after.selected
                == s.selected
            &&& key.code == KeyCode::Up && s.selected > 0 ==> after.selected == s.selected - 1
                && step.draw && step.next is Wait
            &&& key.code == KeyCode::Up && s.selected == 0 ==> after.selected == 0
            &&& key.code == KeyCode::Enter && s.selected < s.tasks.len() ==> step.next == (
            ListNextView::Attach { task: s.tasks[s.selected as int] }) && after.selected
                == s.selected
            &&& key.code == KeyCode::Enter && s.selected >= s.tasks.len() ==> step.next is Wait
            &&& step.next is Attach ==> key.code == KeyCode::Enter
            &&& step.next is Quit <==> key.code == KeyCode::Char('q') || key.code == KeyCode::Char(
                'Q',
            )
            &&& step.next is Load <==> key.code == KeyCode::Char('r') || key.code == KeyCode::Char(
                'R',
            )
            &&& key.code != KeyCode::Up && key.code != KeyCode::Down ==> after.selected
                == s.selected && after.scroll == s.scroll
        }),
{
}

/// What the scheduler says to the list: an assigned task is attached to while automatic scheduling
/// is on, a task that is taken away has the tasks loaded anew, and a notice is shown.
pub proof fn law_list_follows_the_scheduler(
    s: ListStateView,
    task: ExbashTaskView,
    async_id: Seq<char>,
    executor: Seq<char>,
    cols: u16,
    rows: u16,
)
    ensures
        ({
            let (after, step) = list_on(s, LocalEventView::Assign { task }, cols, rows);
            &&& s.auto_schedule ==> step.next == (ListNextView::Attach { task }) && after.message
                == Some("assigned "@ + task.executor + ":"@ + task.async_id)
            &&& !s.auto_schedule ==> after == s && step.next is Wait && !step.draw
        }),
        ({
            let (after, step) = list_on(
                s,
                LocalEventView::Unassign { async_id, executor },
                cols,
                rows,
            );
            step.next is Load && after.message == Some(
                executor + ":"@ + async_id + " unassigned"@,
            ) && after.tasks == s.tasks
        }),
        ({
            let (after, step) = list_on(s, LocalEventView::Notice { text: async_id }, cols, rows);
            step.next is Wait && step.draw && after.message == Some(async_id)
        }),
        list_on(s, LocalEventView::Quit, cols, rows).1.next is Quit,
        list_next(s, ListEventView::Closed, cols, rows).1.next is Quit,
        list_on(s, LocalEventView::Resize { cols, rows }, cols, rows).1.draw,
{
}

/// Loaded tasks are shown in place of the old ones, with the selection where it was as far as the
/// list reaches; a failure is shown and keeps them. The list draws itself while a task runs.
pub proof fn law_list_is_loaded(
    s: ListStateView,
    tasks: Seq<ExbashTaskView>,
    message: Seq<char>,
    action: AttachActionView,
    auto_schedule: bool,
    cols: u16,
    rows: u16,
)
    requires
        tasks.len() <= usize::MAX,
    ensures
        ({
            let (after, step) = list_next(s, ListEventView::Loaded { tasks }, cols, rows);
            &&& after.tasks == tasks && after.message is None && step.draw && step.next is Wait
            &&& s.selected < tasks.len() ==> after.selected == s.selected
            &&& s.selected >= tasks.len() && tasks.len() > 0 ==> after.selected == tasks.len() - 1
            &&& tasks.len() == 0 ==> after.selected == 0
            &&& after.auto_schedule == s.auto_schedule
        }),
        ({
            let (after, step) = list_next(s, ListEventView::LoadFailed { message }, cols, rows);
            &&& after.tasks == s.tasks && after.selected == s.selected
            &&& after.message == Some(message) && step.draw && step.next is Wait
        }),
        ({
            let (after, step) = list_next(
                s,
                ListEventView::Left { action, auto_schedule },
                cols,
                rows,
            );
            &&& after.auto_schedule == auto_schedule && after.tasks == s.tasks
            &&& action is Quit ==> step.next is Quit
            &&& !(action is Quit) ==> step.next is Load
        }),
        ({
            let (after, step) = list_next(s, ListEventView::Tick, cols, rows);
            &&& after == s && step.next is Wait
            &&& step.draw <==> exists|i: int|
                0 <= i < s.tasks.len() && state_of(#[trigger] s.tasks[i]) == "running"@
        }),
{
    let (after, step) = list_next(s, ListEventView::Tick, cols, rows);
    if step.draw {
        let i = choose|i: int|
            0 <= i < s.tasks.len() && crate::term_task::runs(#[trigger] s.tasks[i]);
        assert(state_of(s.tasks[i]) == "running"@);
    }
    if exists|i: int| 0 <= i < s.tasks.len() && state_of(#[trigger] s.tasks[i]) == "running"@ {
        let i = choose|i: int|
            0 <= i < s.tasks.len() && state_of(#[trigger] s.tasks[i]) == "running"@;
        assert(crate::term_task::runs(s.tasks[i]));
    }
}

/// A press on the switch turns automatic scheduling on or off, and the scheduler is told so; a second
/// one at the same place undoes it. Nothing else at the terminal does.
pub proof fn law_list_switch(s: ListStateView, mouse: MouseEvent, cols: u16, rows: u16)
    ensures
        ({
            let (after, step) = list_on(s, LocalEventView::Mouse { mouse }, cols, rows);
            let pressed = mouse.kind == MouseEventKind::Down(MouseButton::Left) && mouse.row
                as int == (if rows > 0 {
                rows - 1
            } else {
                0
            }) && hits_auto(s.auto_schedule, cols, rows, mouse.column);
            &&& pressed ==> {
                &&& after.auto_schedule == !s.auto_schedule
                &&& step.schedulable == Some(!s.auto_schedule) && step.draw
                &&& list_on(after, LocalEventView::Mouse { mouse }, cols, rows).0 == s
            }
            &&& !pressed ==> after == s && step.schedulable is None && !step.draw
            &&& step.next is Wait
        }),
{
    law_switch_is_hit_where_it_stands(s.auto_schedule, cols, rows, mouse.column);
    law_switch_is_hit_where_it_stands(!s.auto_schedule, cols, rows, mouse.column);
}

/// Scrolling moves no further than the selected task needs.
pub proof fn law_scrolling_is_short(scroll: nat, selected: nat, total: nat, rows: u16)
    requires
        rows >= 3,
    ensures
        ({
            let page = (rows - 1) / 2;
            let after = scrolled(scroll as int, selected as int, total as int, rows);
            &&& scroll <= selected < scroll + page && total > page ==> after == scroll
            &&& selected < scroll ==> after == selected
            &&& selected >= scroll + page ==> after + page == selected + 1
            &&& scroll <= selected < scroll + page && total <= page ==> after == 0
        }),
{
}

proof fn lemma_slots(
    tasks: Seq<ExbashTaskView>,
    selected: int,
    scroll: int,
    cols: u16,
    frame: int,
    n: int,
    j: int,
)
    requires
        0 <= j < n,
        n <= 0x7fff,
    ensures
        ({
            let lines = slot_lines(tasks, selected, scroll, cols, frame, n);
            let task = tasks[scroll + j];
            &&& lines.len() == 2 * n
            &&& lines[2 * j].row == 2 * j && lines[2 * j + 1].row == 2 * j + 1
            &&& lines[2 * j].reverse == (scroll + j == selected)
            &&& lines[2 * j + 1].reverse == (scroll + j == selected)
            &&& lines[2 * j].text == icon_of(state_of(task), frame) + " "@ + cut(
                title_of(task),
                if cols >= 5 {
                    cols - 5
                } else {
                    0
                },
            )
            &&& lines[2 * j + 1].text == "    "@ + cut(
                subtitle_of(task),
                if cols >= 4 {
                    cols - 4
                } else {
                    0
                },
            )
        }),
    decreases n,
{
    lemma_slot_count(tasks, selected, scroll, cols, frame, n - 1);
    if j < n - 1 {
        lemma_slots(tasks, selected, scroll, cols, frame, n - 1, j);
    }
}

proof fn lemma_slot_count(
    tasks: Seq<ExbashTaskView>,
    selected: int,
    scroll: int,
    cols: u16,
    frame: int,
    n: int,
)
    requires
        0 <= n,
    ensures
        slot_lines(tasks, selected, scroll, cols, frame, n).len() == 2 * n,
    decreases n,
{
    if n > 0 {
        lemma_slot_count(tasks, selected, scroll, cols, frame, n - 1);
    }
}

/// Every task that has room is shown on two lines, one below the other from the first task in sight
/// on: its picture and its title, and below them what it runs. The selected one, and it
/// alone, is in reverse. The last line is the status line, and a message stands above it.
pub proof fn law_list_shows_the_tasks(s: ListStateView, cols: u16, rows: u16, frame: int, i: int)
    requires
        rows >= 1,
        s.scroll <= i < s.tasks.len(),
        2 * (i - s.scroll) + 2 < rows,
    ensures
        ({
            let lines = list_picture(s, cols, rows, frame);
            let task = s.tasks[i];
            let j = 2 * (i - s.scroll);
            &&& lines[j].row == j && lines[j + 1].row == j + 1
            &&& lines[j].reverse == (i == s.selected) && lines[j + 1].reverse == (i == s.selected)
            &&& lines[j].text == icon_of(state_of(task), frame) + " "@ + cut(
                title_of(task),
                if cols >= 5 {
                    cols - 5
                } else {
                    0
                },
            )
            &&& lines[j + 1].text == "    "@ + cut(
                subtitle_of(task),
                if cols >= 4 {
                    cols - 4
                } else {
                    0
                },
            )
            &&& lines.last().row == rows - 1 && lines.last().reverse && lines.last().whole
            &&& s.selected < s.tasks.len() ==> lines.last().text == status(
                "[:]"@ + icon_of(state_of(s.tasks[s.selected as int]), frame)
                    + "SW: INPUT LIST QUIT"@,
                marker_text(s.auto_schedule, cols, rows),
                cols as int,
            )
            &&& rows >= 2 ==> (s.message matches Some(m) ==> lines[lines.len() - 2].row == rows - 2
                && lines[lines.len() - 2].text == cut(m, cols as int))
        }),
{
    let total = s.tasks.len() as int;
    let n = crate::term_list::filled_slots(total, s.scroll as int, rows);
    lemma_slot_count(s.tasks, s.selected as int, s.scroll as int, cols, frame, n);
    lemma_slots(s.tasks, s.selected as int, s.scroll as int, cols, frame, n, i - s.scroll);
}

/// Cut text is the longest beginning that has room.
pub proof fn law_cut_text_has_room(text: Seq<char>, width: int)
    requires
        0 <= width,
    ensures
        has_prefix(text, cut(text, width)),
        sum(char_widths(cut(text, width))) <= width,
        sum(char_widths(text)) <= width ==> cut(text, width) == text,
{
    let widths = char_widths(text);
    law_cut_is_longest(widths, width);
    let n = crate::columns::fitting(widths, width);
    let kept = cut(text, width);
    assert(text.subrange(0, kept.len() as int) =~= kept);
    assert(char_widths(kept) =~= widths.take(n));
    if n < widths.len() {
        lemma_sum_grows(widths, n + 1);
        lemma_sum_step(widths, n);
    } else {
        assert(kept =~= text);
    }
}

proof fn lemma_sum_step(widths: Seq<usize>, n: int)
    requires
        0 <= n < widths.len(),
    ensures
        sum(widths.take(n + 1)) == sum(widths.take(n)) + widths[n],
    decreases n,
{
    let w = widths.take(n + 1);
    if n == 0 {
        assert(w.drop_first() =~= Seq::empty());
        assert(widths.take(0) =~= Seq::empty());
        assert(sum(w.drop_first()) == 0);
    } else {
        let tail = widths.drop_first();
        lemma_sum_step(tail, n - 1);
        assert(w.drop_first() =~= tail.take(n));
        assert(widths.take(n).drop_first() =~= tail.take(n - 1));
    }
}

proof fn lemma_sum_grows(widths: Seq<usize>, n: int)
    requires
        0 <= n <= widths.len(),
    ensures
        sum(widths.take(n)) <= sum(widths),
    decreases widths.len() - n,
{
    if n == widths.len() {
        assert(widths.take(n) =~= widths);
    } else {
        lemma_sum_grows(widths, n + 1);
        lemma_sum_step(widths, n);
    }
}

// ---------------------------------------------------------------------------
// Input
// ---------------------------------------------------------------------------

/// The bytes of keys: a character stands for itself; with `Ctrl` a letter of either case is its
/// place in the alphabet; `Alt` puts an escape before what the key is without it; the arrows and
/// the keys around them are the escape sequences of a terminal.
pub proof fn law_keys_are_bytes(key: KeyEvent, plain: KeyEvent, c: char)
    requires
        key.code == plain.code,
        key.modifiers.control == plain.modifiers.control,
        !plain.modifiers.alt,
    ensures
        key.modifiers.alt ==> key_bytes(key) == match key_bytes(plain) {
            Some(b) => Some(seq![0x1bu8] + b),
            None => None,
        },
        !key.modifiers.alt ==> key_bytes(key) == key_bytes(plain),
        plain.code == KeyCode::Char(c) && !plain.modifiers.control ==> key_bytes(plain) == Some(
            encode_utf8(seq![c]),
        ),
        plain.code == KeyCode::Char(c) && plain.modifiers.control && 'a' <= c <= 'z' ==> (key_bytes(
            plain,
        ) matches Some(b) && b.len() == 1 && b[0] == c as int - 96),
        plain.code == KeyCode::Char(c) && plain.modifiers.control && 'A' <= c <= 'Z' ==> (key_bytes(
            plain,
        ) matches Some(b) && b.len() == 1 && b[0] == c as int - 64),
        plain.code == KeyCode::Char(c) && plain.modifiers.control && '0' <= c <= '9' ==> key_bytes(
            plain,
        ) is None,
        plain.code == KeyCode::Enter ==> key_bytes(plain) == Some(seq!['\r' as u8]),
        plain.code == KeyCode::Tab ==> key_bytes(plain) == Some(seq!['\t' as u8]),
        plain.code == KeyCode::Backspace ==> key_bytes(plain) == Some(seq![127u8]),
        plain.code == KeyCode::Esc ==> key_bytes(plain) == Some(seq![27u8]),
        plain.code == KeyCode::Up ==> key_bytes(plain) == Some(seq![27u8, '[' as u8, 'A' as u8]),
        plain.code == KeyCode::Down ==> key_bytes(plain) == Some(seq![27u8, '[' as u8, 'B' as u8]),
        plain.code == KeyCode::Right ==> key_bytes(plain) == Some(seq![27u8, '[' as u8, 'C' as u8]),
        plain.code == KeyCode::Left ==> key_bytes(plain) == Some(seq![27u8, '[' as u8, 'D' as u8]),
        plain.code == KeyCode::Home ==> key_bytes(plain) == Some(seq![27u8, '[' as u8, 'H' as u8]),
        plain.code == KeyCode::End ==> key_bytes(plain) == Some(seq![27u8, '[' as u8, 'F' as u8]),
        plain.code == KeyCode::Insert ==> key_bytes(plain) == Some(
            seq![27u8, '[' as u8, '2' as u8, '~' as u8],
        ),
        plain.code == KeyCode::Delete ==> key_bytes(plain) == Some(
            seq![27u8, '[' as u8, '3' as u8, '~' as u8],
        ),
        plain.code == KeyCode::PageUp ==> key_bytes(plain) == Some(
            seq![27u8, '[' as u8, '5' as u8, '~' as u8],
        ),
        plain.code == KeyCode::PageDown ==> key_bytes(plain) == Some(
            seq![27u8, '[' as u8, '6' as u8, '~' as u8],
        ),
        plain.code == KeyCode::Other ==> key_bytes(plain) is None,
{
}

/// The report of the mouse: places count from one, a release is told by its last letter alone,
/// dragging, turning the wheel and the held keys by what they add to the number of the
/// button.
pub proof fn law_mouse_reports(mouse: MouseEvent, other: MouseEvent)
    requires
        mouse.column < 0xffff && mouse.row < 0xffff,
        other.column == mouse.column && other.row == mouse.row,
        !mouse.modifiers.shift && !mouse.modifiers.alt && !mouse.modifiers.control,
    ensures
        ({
            let tail = ";"@ + decimal(mouse.column + 1) + ";"@ + decimal(mouse.row + 1);
            let at = |n: int, last: Seq<char>| "\x1b[<"@ + (decimal(n) + tail + last);
            let held = (if other.modifiers.shift {
                4int
            } else {
                0
            }) + (if other.modifiers.alt {
                8int
            } else {
                0
            }) + (if other.modifiers.control {
                16int
            } else {
                0
            });
            &&& mouse.kind == MouseEventKind::Down(MouseButton::Left) ==> sgr_text(mouse) == at(
                0,
                "M"@,
            )
            &&& mouse.kind == MouseEventKind::Down(MouseButton::Middle) ==> sgr_text(mouse) == at(
                1,
                "M"@,
            )
            &&& mouse.kind == MouseEventKind::Down(MouseButton::Right) ==> sgr_text(mouse) == at(
                2,
                "M"@,
            )
            &&& mouse.kind == MouseEventKind::Up(MouseButton::Left) ==> sgr_text(mouse) == at(
                0,
                "m"@,
            )
            &&& mouse.kind == MouseEventKind::Up(MouseButton::Middle) ==> sgr_text(mouse) == at(
                1,
                "m"@,
            )
            &&& mouse.kind == MouseEventKind::Up(MouseButton::Right) ==> sgr_text(mouse) == at(
                2,
                "m"@,
            )
            &&& mouse.kind == MouseEventKind::Drag(MouseButton::Left) ==> sgr_text(mouse) == at(
                32,
                "M"@,
            )
            &&& mouse.kind == MouseEventKind::Drag(MouseButton::Right) ==> sgr_text(mouse) == at(
                34,
                "M"@,
            )
            &&& mouse.kind == MouseEventKind::Moved ==> sgr_text(mouse) == at(35, "M"@)
            &&& mouse.kind == MouseEventKind::ScrollUp ==> sgr_text(mouse) == at(64, "M"@)
            &&& mouse.kind == MouseEventKind::ScrollDown ==> sgr_text(mouse) == at(65, "M"@)
            &&& mouse.kind == MouseEventKind::ScrollLeft ==> sgr_text(mouse) == at(66, "M"@)
            &&& mouse.kind == MouseEventKind::ScrollRight ==> sgr_text(mouse) == at(67, "M"@)
            &&& other.kind == MouseEventKind::Moved ==> sgr_text(other) == at(35 + held, "M"@)
            &&& other.kind == MouseEventKind::Down(MouseButton::Left) ==> sgr_text(other) == at(
                held,
                "M"@,
            )
        }),
{
    let tail = ";"@ + decimal(mouse.column + 1) + ";"@ + decimal(mouse.row + 1);
    lemma_report(mouse, tail);
    lemma_report(other, tail);
}

proof fn lemma_report(mouse: MouseEvent, tail: Seq<char>)
    requires
        mouse.column < 0xffff && mouse.row < 0xffff,
        tail == ";"@ + decimal(mouse.column + 1) + ";"@ + decimal(mouse.row + 1),
    ensures
        sgr_text(mouse) == "\x1b[<"@ + (decimal(
            crate::term_input::kind_code(mouse.kind) + crate::term_input::modifier_code(
                mouse.modifiers,
            ),
        ) + tail + (if mouse.kind is Up {
            "m"@
        } else {
            "M"@
        })),
{
    let code = decimal(
        crate::term_input::kind_code(mouse.kind) + crate::term_input::modifier_code(
            mouse.modifiers,
        ),
    );
    let last = if mouse.kind is Up {
        "m"@
    } else {
        "M"@
    };
    assert(sgr_text(mouse) =~= "\x1b[<"@ + (code + tail + last));
}

proof fn lemma_no_open(data: Seq<u8>, from: int)
    requires
        forall|i: int| 0 <= i < data.len() ==> #[trigger] data[i] != 0x1b,
        0 <= from,
    ensures
        next_open(data, from) is None,
    decreases data.len() - from,
{
    if from + 3 <= data.len() {
        assert(data[from] != 0x1b);
        lemma_no_open(data, from + 1);
    }
}

proof fn lemma_params(data: Seq<u8>, from: int, end: int)
    requires
        0 <= from <= end <= data.len(),
        forall|i: int|
            from <= i < end ==> crate::term_input::is_digit_byte(#[trigger] data[i]),
        end < data.len() ==> !crate::term_input::is_digit_byte(data[end]) && data[end] != 0x3b,
    ensures
        params_end(data, from) == end,
    decreases end - from,
{
    if from < end {
        assert(crate::term_input::is_digit_byte(data[from]));
        lemma_params(data, from + 1, end);
    }
}

proof fn lemma_part(params: Seq<u8>, from: int)
    requires
        0 <= from <= params.len(),
        forall|i: int|
            0 <= i < params.len() ==> crate::term_input::is_digit_byte(#[trigger] params[i]),
    ensures
        part_end(params, from) == params.len(),
    decreases params.len() - from,
{
    if from < params.len() {
        assert(crate::term_input::is_digit_byte(params[from]));
        lemma_part(params, from + 1);
    }
}

/// A program that sets a mouse mode, as `ESC [ ? 1000 h` does, wants the mouse from then on, and one
/// that resets it, with an `l`, does not; other modes and other output change nothing.
pub proof fn law_programs_ask_for_the_mouse(mode: Seq<u8>, n: int, other: Seq<u8>, on: bool)
    requires
        forall|i: int|
            0 <= i < mode.len() ==> crate::term_input::is_digit_byte(#[trigger] mode[i]),
        number_in(mode) == Some(n),
        forall|i: int| 0 <= i < other.len() ==> #[trigger] other[i] != 0x1b,
    ensures
        ({
            let mouse = n == 1000 || n == 1002 || n == 1003 || n == 1005 || n == 1006 || n == 1015;
            let open = seq![0x1bu8, '[' as u8, '?' as u8];
            &&& tracking_after(open + mode + seq!['h' as u8], 0, on) == (mouse || on)
            &&& tracking_after(open + mode + seq!['l' as u8], 0, on) == (!mouse && on)
        }),
        tracking_after(other, 0, on) == on,
{
    lemma_no_open(other, 0);
    lemma_mode(mode, n, 0x68, on);
    lemma_mode(mode, n, 0x6c, on);
}

proof fn lemma_mode(mode: Seq<u8>, n: int, last: u8, on: bool)
    requires
        forall|i: int|
            0 <= i < mode.len() ==> crate::term_input::is_digit_byte(#[trigger] mode[i]),
        number_in(mode) == Some(n),
        last == 0x68 || last == 0x6c,
    ensures
        tracking_after(seq![0x1bu8, 0x5bu8, 0x3fu8] + mode + seq![last], 0, on) == (
        if crate::term_input::is_mouse_mode(n) {
            last == 0x68
        } else {
            on
        }),
{
    let open = seq![0x1bu8, 0x5bu8, 0x3fu8];
    let data = open + mode + seq![last];
    let end = 3 + mode.len() as int;
    assert(opens_at(data, 0));
    assert forall|i: int| 3 <= i < end implies crate::term_input::is_digit_byte(
        #[trigger] data[i],
    ) by {
        assert(data[i] == mode[i - 3]);
    }
    assert(data[end] == last);
    lemma_params(data, 3, end);
    assert(data.subrange(3, end) =~= mode);
    lemma_part(mode, 0);
    assert(mode.subrange(0, mode.len() as int) =~= mode);
    assert(!lists_mouse_mode(mode, (mode.len() + 1) as int));
    assert(lists_mouse_mode(mode, 0) == crate::term_input::is_mouse_mode(n));
    assert(next_open(data, 0) == Some(0int));
    assert(next_open(data, end + 1) is None);
    assert(tracking_after(data, end + 1, true));
    assert(!tracking_after(data, end + 1, false));
}

} // verus!
