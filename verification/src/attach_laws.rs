//! What a terminal that is attached to a task does.

use vstd::prelude::*;
use vstd::utf8::encode_utf8;

use crate::attach::after_outcome;
use crate::attach::attach_next;
use crate::attach::attach_status;
use crate::attach::attached_state;
use crate::attach::auto_text;
use crate::attach::big_endian;
use crate::attach::body_text;
use crate::attach::choice_text;
use crate::attach::hits_at;
use crate::attach::hits_auto;
use crate::attach::identity_text;
use crate::attach::is_ctrl_c;
use crate::attach::layout_of;
use crate::attach::marker_text;
use crate::attach::menu_text;
use crate::attach::target_at;
use crate::attach::AfterAttachView;
use crate::attach::AttachActionView;
use crate::attach::AttachEventView;
use crate::attach::AttachStateView;
use crate::attach::AttachStepView;
use crate::attach::AttachViewView;
use crate::attach::CommandTarget;
use crate::attach::LinkTextsView;
use crate::attach::Mode;
use crate::attach::OutgoingView;
use crate::columns::columns;
use crate::columns::status;
use crate::local_event::LocalEventView;
use crate::number::decimal;
use crate::term_input::key_bytes;
use crate::term_input::sgr_text;
use crate::term_input::tracking_after;
use crate::term_input::KeyCode;
use crate::term_input::KeyEvent;
use crate::term_input::MouseButton;
use crate::term_input::MouseEvent;
use crate::term_input::MouseEventKind;
use crate::term_task::runs;
use crate::term_task::title_of;
use crate::term_task::ExbashTaskView;
use crate::text::has_prefix;
use crate::text::has_text;
use crate::text::joined;
use crate::text::occurs_at;

verus! {

/// What a key leads to.
pub open spec fn on_key(s: AttachStateView, key: KeyEvent, now: u64) -> (
    AttachStateView,
    AttachStepView,
) {
    attach_next(s, AttachEventView::Local { event: LocalEventView::Key { key } }, now)
}

/// What the mouse leads to.
pub open spec fn on_mouse(s: AttachStateView, mouse: MouseEvent, now: u64) -> (
    AttachStateView,
    AttachStepView,
) {
    attach_next(s, AttachEventView::Local { event: LocalEventView::Mouse { mouse } }, now)
}

// ---------------------------------------------------------------------------
// Keys
// ---------------------------------------------------------------------------

/// Outside of the menu every key reaches the program as the bytes that it stands for, and the
/// terminal stays attached. `Tab` switches between the two pictures of the status line; no
/// other key but the third `Ctrl-C` in a row changes the mode.
pub proof fn law_keys_reach_the_program(s: AttachStateView, key: KeyEvent, now: u64)
    requires
        s.view.mode != Mode::Command,
        !key.modifiers.alt,
    ensures
        ({
            let (after, step) = on_key(s, key, now);
            &&& key_bytes(key) matches Some(data) ==> step.send == Some(
                OutgoingView::Binary { data },
            )
            &&& key_bytes(key) is None ==> step.send is None
            &&& step.leave is None
            &&& key.code != KeyCode::Tab && !is_ctrl_c(key) ==> after.view.mode == s.view.mode
            &&& key.code == KeyCode::Tab && s.view.mode == Mode::Input ==> after.view.mode
                == Mode::Link
            &&& key.code == KeyCode::Tab && s.view.mode == Mode::Link ==> after.view.mode
                == Mode::Input
            &&& after.view.mode == Mode::Command <==> is_ctrl_c(key) && s.ctrl_c_streak >= 2
            &&& !is_ctrl_c(key) ==> after.ctrl_c_streak == 0 && after.view.ctrl_c_count == 0
        }),
{
    if is_ctrl_c(key) {
        assert(key_bytes(key)->0 =~= seq![0x03u8]);
    }
}

/// In the menu nothing reaches the program. `Enter` does what is selected, `Esc` goes back to
/// the program, `Right` and `Left` undo each other, and other keys change nothing.
pub proof fn law_keys_in_the_menu(s: AttachStateView, key: KeyEvent, back: KeyEvent, now: u64)
    requires
        s.view.mode == Mode::Command,
        back.code == KeyCode::Left,
    ensures
        ({
            let (after, step) = on_key(s, key, now);
            &&& step.send is None
            &&& after.metrics == s.metrics
            &&& key.code == KeyCode::Enter ==> match s.view.command_target {
                CommandTarget::Input => step.leave is None && after.view.mode == Mode::Input,
                CommandTarget::List => step.leave == Some(AttachActionView::List),
                CommandTarget::Quit => step.leave == Some(AttachActionView::Quit),
            }
            &&& key.code != KeyCode::Enter ==> step.leave is None
            &&& key.code == KeyCode::Esc ==> after.view.mode == Mode::Input
            &&& key.code != KeyCode::Esc && key.code != KeyCode::Enter ==> after.view.mode
                == Mode::Command
            &&& key.code == KeyCode::Right || key.code == KeyCode::Tab ==> {
                &&& after.view.command_target != s.view.command_target
                &&& on_key(after, back, now).0.view.command_target == s.view.command_target
            }
            &&& key.code == KeyCode::Right && s.view.command_target == CommandTarget::Input
                ==> after.view.command_target == CommandTarget::List
            &&& key.code == KeyCode::Right && s.view.command_target == CommandTarget::List
                ==> after.view.command_target == CommandTarget::Quit
            &&& key.code != KeyCode::Right && key.code != KeyCode::Left && key.code != KeyCode::Tab
                && key.code != KeyCode::Esc ==> after.view.command_target == s.view.command_target
        }),
{
}

// ---------------------------------------------------------------------------
// The mouse
// ---------------------------------------------------------------------------

/// The mouse is on the status line.
pub open spec fn on_status_line(s: AttachStateView, mouse: MouseEvent) -> bool {
    mouse.row as int == if s.view.local_rows > 0 {
        s.view.local_rows - 1
    } else {
        0
    }
}

/// Above the status line the mouse reaches the program exactly where the program wants it, the
/// menu is closed and the mouse is on the screen of the program; nothing else changes.
pub proof fn law_mouse_reaches_the_program(s: AttachStateView, mouse: MouseEvent, now: u64)
    requires
        !on_status_line(s, mouse),
    ensures
        ({
            let (after, step) = on_mouse(s, mouse, now);
            let wanted = s.view.mode != Mode::Command && s.view.mouse_tracking && mouse.row
                < s.view.pty_rows && mouse.column < s.view.pty_cols;
            &&& wanted ==> step.send == Some(
                OutgoingView::Binary { data: encode_utf8(sgr_text(mouse)) },
            )
            &&& !wanted ==> step.send is None
            &&& after.view == s.view && after.auto_schedule == s.auto_schedule
            &&& step.leave is None && step.schedulable is None
        }),
{
}

/// A press on the switch turns the automatic scheduling on or off and tells the scheduler; nothing
/// else does.
pub proof fn law_switch_is_pressed(s: AttachStateView, event: AttachEventView, now: u64)
    ensures
        ({
            let (after, step) = attach_next(s, event, now);
            let pressed = event matches AttachEventView::Local {
                event: LocalEventView::Mouse { mouse },
            } && mouse.kind == MouseEventKind::Down(MouseButton::Left) && on_status_line(s, mouse)
                && hits_auto(s.auto_schedule, s.view.local_cols, s.view.local_rows, mouse.column);
            &&& pressed ==> after.auto_schedule == !s.auto_schedule && step.schedulable == Some(
                !s.auto_schedule,
            ) && after.view == s.view
            &&& !pressed ==> after.auto_schedule == s.auto_schedule && step.schedulable is None
        }),
{
}

/// A press on the status line beside the switch, where no message stands: in the menu it does
/// what it hits; outside it asks for control on the identity and opens the menu elsewhere.
pub proof fn law_status_line_is_pressed(s: AttachStateView, mouse: MouseEvent, now: u64)
    requires
        on_status_line(s, mouse),
        mouse.kind == MouseEventKind::Down(MouseButton::Left),
        s.view.message is None,
        !hits_auto(s.auto_schedule, s.view.local_cols, s.view.local_rows, mouse.column),
    ensures
        ({
            let (after, step) = on_mouse(s, mouse, now);
            let hits = hits_at(s.view, s.auto_schedule, mouse.column);
            &&& s.view.mode == Mode::Command && target_at(
                s.view.command_target,
                mouse.column as int,
            ) == Some(CommandTarget::List) ==> step.leave == Some(AttachActionView::List)
            &&& s.view.mode == Mode::Command && target_at(
                s.view.command_target,
                mouse.column as int,
            ) == Some(CommandTarget::Quit) ==> step.leave == Some(AttachActionView::Quit)
            &&& s.view.mode == Mode::Command && target_at(
                s.view.command_target,
                mouse.column as int,
            ) == Some(CommandTarget::Input) ==> step.leave is None && after.view.mode == Mode::Input
            &&& s.view.mode == Mode::Command && target_at(
                s.view.command_target,
                mouse.column as int,
            ) is None ==> step.leave is None && after.view == s.view
            &&& s.view.mode != Mode::Command ==> step.leave is None
            &&& s.view.mode != Mode::Command && hits.identity ==> step.send == Some(
                OutgoingView::RequestControl,
            ) && after.view == s.view
            &&& s.view.mode != Mode::Command && !hits.identity ==> step.send is None
                && after.view.mode == Mode::Command && after.view.command_target
                == CommandTarget::Input
        }),
{
}

/// Moving over the menu selects what is under the mouse and does nothing else.
pub proof fn law_moving_selects(s: AttachStateView, mouse: MouseEvent, now: u64)
    requires
        on_status_line(s, mouse),
        mouse.kind == MouseEventKind::Moved,
    ensures
        ({
            let (after, step) = on_mouse(s, mouse, now);
            let target = target_at(s.view.command_target, mouse.column as int);
            &&& step.send is None && step.leave is None && after.view.mode == s.view.mode
            &&& s.view.mode == Mode::Command && target is Some ==> after.view.command_target
                == target->0
            &&& s.view.mode != Mode::Command || target is None ==> after == s
        }),
{
}

/// The mouse hits a choice of the menu exactly where the line shows it: four columns of the line
/// stand before the menu.
pub proof fn law_choices_are_hit_where_they_stand(
    selected: CommandTarget,
    target: CommandTarget,
) -> (start: int)
    ensures
        occurs_at(menu_text(selected), choice_text(target, selected), start),
        forall|column: int|
            #![trigger target_at(selected, column)]
            target_at(selected, column) == Some(target) <==> 4 + start <= column < 4 + start
                + choice_text(target, selected).len(),
        target == selected <==> has_prefix(choice_text(target, selected), "["@),
        has_text(
            choice_text(target, selected),
            match target {
                CommandTarget::Input => "INPUT"@,
                CommandTarget::List => "LIST"@,
                CommandTarget::Quit => "QUIT"@,
            },
        ),
{
    let a = choice_text(CommandTarget::Input, selected);
    let b = choice_text(CommandTarget::List, selected);
    let c = choice_text(CommandTarget::Quit, selected);
    reveal_strlit("  ");
    reveal_strlit("[");
    reveal_strlit("]");
    reveal_strlit("INPUT");
    reveal_strlit("LIST");
    reveal_strlit("QUIT");
    assert("  "@.len() == 2);
    let parts = seq![a, b, c];
    assert(parts.drop_last() =~= seq![a, b]);
    assert(seq![a, b].drop_last() =~= seq![a]);
    reveal_with_fuel(joined, 4);
    let all = menu_text(selected);
    assert(all =~= a + "  "@ + b + "  "@ + c);
    let start = match target {
        CommandTarget::Input => 0int,
        CommandTarget::List => (a.len() + 2) as int,
        CommandTarget::Quit => (a.len() + 2 + b.len() + 2) as int,
    };
    let own = choice_text(target, selected);
    assert(all.subrange(start, start + own.len()) =~= own);
    let word = match target {
        CommandTarget::Input => "INPUT"@,
        CommandTarget::List => "LIST"@,
        CommandTarget::Quit => "QUIT"@,
    };
    if target == selected {
        assert(own.subrange(1, (1 + word.len()) as int) =~= word);
        assert(occurs_at(own, word, 1));
        assert(own.subrange(0, 1) =~= "["@);
    } else {
        assert(own.subrange(0, word.len() as int) =~= word);
        assert(occurs_at(own, word, 0));
        assert(own[0] == 'I' || own[0] == 'L' || own[0] == 'Q');
        assert("["@[0] == '[');
        if has_prefix(own, "["@) {
            assert(own.subrange(0, 1)[0] == own[0]);
        }
    }
    start
}

/// The switch is hit exactly where the line shows it: it starts the marker that ends the line, and
/// says whether automatic scheduling is on.
pub proof fn law_switch_is_hit_where_it_stands(auto_schedule: bool, cols: u16, rows: u16, column: u16)
    ensures
        ({
            let marker = marker_text(auto_schedule, cols, rows);
            let at = column - (cols - marker.len());
            &&& marker.take(6) == if auto_schedule {
                "[Auto]"@
            } else {
                "[    ]"@
            }
            &&& hits_auto(auto_schedule, cols, rows, column) <==> marker.len() <= cols && 0 <= at
                < 6
            &&& marker_text(true, cols, rows).len() == marker_text(false, cols, rows).len()
            &&& has_text(marker, decimal(cols as int) + "x"@ + decimal(rows as int))
        }),
{
    reveal_strlit("[Auto]");
    reveal_strlit("[    ]");
    let marker = marker_text(auto_schedule, cols, rows);
    assert("[Auto]"@.len() == 6 && "[    ]"@.len() == 6);
    assert(marker.take(6) =~= auto_text(auto_schedule));
    reveal_strlit("[");
    reveal_strlit(" ");
    let size = decimal(cols as int) + "x"@ + decimal(rows as int);
    assert(marker.subrange(8, (8 + size.len()) as int) =~= size);
    assert(occurs_at(marker, size, 8));
}

// ---------------------------------------------------------------------------
// Events
// ---------------------------------------------------------------------------

/// What the scheduler says: an assignment moves the terminal to another task only while automatic
/// scheduling is on, taking away its own task leads to the list, and a notice is shown.
pub proof fn law_scheduler_is_followed(
    s: AttachStateView,
    task: ExbashTaskView,
    async_id: Seq<char>,
    executor: Seq<char>,
    text: Seq<char>,
    now: u64,
)
    ensures
        ({
            let (after, step) = attach_next(
                s,
                AttachEventView::Local { event: LocalEventView::Assign { task } },
                now,
            );
            let own = s.task.async_id == task.async_id && s.task.executor == task.executor
                && s.task.scope == task.scope;
            &&& s.auto_schedule && !own ==> step.leave == Some(AttachActionView::Switch { task })
            &&& !s.auto_schedule || own ==> step.leave is None
            &&& s.auto_schedule && own ==> after.view.message is Some
            &&& !s.auto_schedule ==> after == s && !step.render
        }),
        ({
            let (after, step) = attach_next(
                s,
                AttachEventView::Local { event: LocalEventView::Unassign { async_id, executor } },
                now,
            );
            &&& after == s
            &&& s.task.async_id == async_id && s.task.executor == executor ==> step.leave == Some(
                AttachActionView::List,
            )
            &&& s.task.async_id != async_id || s.task.executor != executor ==> step.leave is None
        }),
        ({
            let (after, step) = attach_next(
                s,
                AttachEventView::Local { event: LocalEventView::Notice { text } },
                now,
            );
            after.view.message == Some(text) && step.render && step.leave is None
        }),
{
}

/// What the task says is shown: its output goes to the screen, its size and who controls it are
/// taken over, and its messages stand on the status line.
pub proof fn law_task_is_shown(
    s: AttachStateView,
    data: Seq<u8>,
    len: usize,
    id: Seq<char>,
    role: Seq<char>,
    cols: u16,
    rows: u16,
    exit_code: Option<u32>,
    now: u64,
)
    ensures
        ({
            let (after, step) = attach_next(s, AttachEventView::Output { data }, now);
            &&& step.feed && step.render && step.send is None && step.leave is None
            &&& after.metrics.last_output == Some(now)
            &&& after.view.mouse_tracking == tracking_after(data, 0, s.view.mouse_tracking)
        }),
        ({
            let (after, step) = attach_next(
                s,
                AttachEventView::Meta { len, id, role, cols, rows, exit_code },
                now,
            );
            &&& step.screen == Some((rows, cols)) && step.render && !step.feed
            &&& after.view.id == id && after.view.role == role
            &&& after.view.pty_cols == cols && after.view.pty_rows == rows
            &&& after.view.exit_code == exit_code
            &&& after.view.local_cols == s.view.local_cols
            &&& after.view.local_rows == s.view.local_rows
        }),
        ({
            let (after, step) = attach_next(s, AttachEventView::Said { len, message: id }, now);
            after.view.message == Some(id) && step.render && step.leave is None
        }),
        attach_next(s, AttachEventView::Close, now).1.leave == Some(AttachActionView::List),
        attach_next(s, AttachEventView::Closed, now).1.leave == Some(AttachActionView::List),
        attach_next(s, AttachEventView::Local { event: LocalEventView::Quit }, now).1.leave
            == Some(AttachActionView::Quit),
        ({
            let (after, step) = attach_next(
                s,
                AttachEventView::Local { event: LocalEventView::Resize { cols, rows } },
                now,
            );
            &&& after.view.local_cols == cols && after.view.local_rows == rows
            &&& step.send == Some(
                OutgoingView::Resize {
                    cols,
                    rows: if rows > 1 {
                        (rows - 1) as u16
                    } else {
                        1
                    },
                },
            )
            &&& step.render
        }),
        attach_next(s, AttachEventView::Spinner, now).1.render <==> s.view.exit_code is None
            && runs(s.task),
{
}

/// An event changes what it is about and nothing else: only the task changes its size, its
/// controller and its end, only the output of the program its wish for the mouse, only a resize
/// the size of the terminal, and only keys and the mouse the mode.
pub proof fn law_events_change_their_own(s: AttachStateView, event: AttachEventView, now: u64)
    ensures
        ({
            let after = attach_next(s, event, now).0;
            let local = event is Local;
            let user = event matches AttachEventView::Local { event: e } && (e is Key || e
                is Mouse);
            &&& after.task == s.task
            &&& !(event is Meta) ==> after.view.id == s.view.id && after.view.role == s.view.role
                && after.view.pty_cols == s.view.pty_cols && after.view.pty_rows == s.view.pty_rows
                && after.view.exit_code == s.view.exit_code
            &&& !(event is Output) ==> after.view.mouse_tracking == s.view.mouse_tracking
                && after.metrics.last_output == s.metrics.last_output
            &&& !local ==> after.view.local_cols == s.view.local_cols && after.view.local_rows
                == s.view.local_rows
            &&& !user ==> after.view.mode == s.view.mode && after.view.command_target
                == s.view.command_target && after.ctrl_c_streak == s.ctrl_c_streak
                && after.view.ctrl_c_count == s.view.ctrl_c_count
            &&& !(event is Pong) ==> after.metrics.rtt == s.metrics.rtt
            &&& attach_next(s, event, now).1.feed <==> event is Output
        }),
{
}

// ---------------------------------------------------------------------------
// Figures
// ---------------------------------------------------------------------------

/// A counter that stops at its end.
pub open spec fn counted_on(before: u64, more: int) -> int {
    if before + more <= 0xffff_ffff_ffff_ffff {
        before + more
    } else {
        0xffff_ffff_ffff_ffff
    }
}

/// Every byte that comes in or goes out is counted once: the messages of the task, the keys and
/// the mouse, and the pings in both directions.
pub proof fn law_bytes_are_counted(s: AttachStateView, event: AttachEventView, now: u64)
    ensures
        ({
            let (after, step) = attach_next(s, event, now);
            let came = match event {
                AttachEventView::Output { data } => data.len() as int,
                AttachEventView::Meta { len, id, role, cols, rows, exit_code } => len as int,
                AttachEventView::Said { len, message } => len as int,
                AttachEventView::Text { len } => len as int,
                AttachEventView::Ping { len } => len as int,
                AttachEventView::Pong { data } => data.len() as int,
                _ => 0,
            };
            let went = match step.send {
                Some(OutgoingView::Binary { data }) => data.len() as int,
                Some(OutgoingView::Ping { seq }) => 8,
                Some(OutgoingView::Pong) => came,
                _ => 0,
            };
            &&& after.metrics.rx_bytes == counted_on(s.metrics.rx_bytes, came)
            &&& after.metrics.tx_bytes == counted_on(s.metrics.tx_bytes, went)
        }),
{
}

/// A ping goes out where none is under way or the last one is five seconds old, each under a new
/// number. Its answer tells how long it took; any other answer tells nothing. A ping of the
/// task is answered.
pub proof fn law_pings_measure_the_way(
    s: AttachStateView,
    data: Seq<u8>,
    len: usize,
    now: u64,
    later: u64,
)
    requires
        now <= later,
    ensures
        ({
            let (after, step) = attach_next(s, AttachEventView::PingTimer, now);
            let free = s.metrics.pending_ping is None || (s.metrics.pending_ping matches Some(
                (_, at),
            ) && at + 5_000_000_000 <= now);
            &&& free ==> step.send == Some(OutgoingView::Ping { seq: s.metrics.next_ping_seq })
            &&& !free ==> step.send is None && after == s
            &&& free && data.len() == 8 && big_endian(data) == s.metrics.next_ping_seq ==> {
                let (end, told) = attach_next(after, AttachEventView::Pong { data }, later);
                &&& end.metrics.rtt == Some((later - now) as u64)
                &&& end.metrics.pending_ping is None
                &&& told.render
            }
            &&& free && (data.len() != 8 || big_endian(data) != s.metrics.next_ping_seq) ==> {
                let (end, told) = attach_next(after, AttachEventView::Pong { data }, later);
                &&& end.metrics.rtt == s.metrics.rtt
                &&& end.metrics.pending_ping == after.metrics.pending_ping
            }
            &&& free && s.metrics.next_ping_seq < 0xffff_ffff_ffff_ffff
                ==> after.metrics.next_ping_seq == s.metrics.next_ping_seq + 1
        }),
        attach_next(s, AttachEventView::Ping { len }, now).1.send == Some(OutgoingView::Pong),
{
}

// ---------------------------------------------------------------------------
// The picture
// ---------------------------------------------------------------------------

proof fn lemma_holds(text: Seq<char>, before: Seq<char>, part: Seq<char>, rest: Seq<char>)
    requires
        text == before + part + rest,
    ensures
        has_text(text, part),
{
    let n = before.len() as int;
    assert(text.subrange(n, n + part.len()) =~= part);
    assert(occurs_at(text, part, n));
}

/// The status line shows a message where there is one; else, by the mode, who the terminal is and
/// what the task is called, the figures on the connection, or the menu. The marker says
/// whether automatic scheduling is on.
pub proof fn law_status_line_tells(
    view: AttachViewView,
    task: ExbashTaskView,
    link: LinkTextsView,
    frame: int,
    auto_schedule: bool,
)
    ensures
        ({
            let left = match view.message {
                Some(m) => m,
                None => body_text(view, task, link, frame),
            };
            attach_status(view, task, link, frame, auto_schedule) == status(
                left,
                marker_text(auto_schedule, view.local_cols, view.local_rows),
                view.local_cols as int,
            )
        }),
        view.mode == Mode::Input && view.ctrl_c_count == 0 ==> has_text(
            body_text(view, task, link, frame),
            title_of(task),
        ) && has_prefix(body_text(view, task, link, frame), "[>] "@ + identity_text(view)),
        view.mode == Mode::Input && view.ctrl_c_count > 0 ==> has_text(
            body_text(view, task, link, frame),
            decimal(view.ctrl_c_count as int),
        ),
        view.mode == Mode::Link ==> has_text(
            body_text(view, task, link, frame),
            "rtt="@ + link.rtt + " rx="@ + link.rx + " tx="@ + link.tx + " idle="@ + link.idle,
        ) && has_text(body_text(view, task, link, frame), task.executor + ":"@ + task.async_id)
            && has_prefix(body_text(view, task, link, frame), "[~] "@ + identity_text(view)),
        view.mode == Mode::Command ==> has_prefix(
            body_text(view, task, link, frame),
            "[:] "@ + menu_text(view.command_target),
        ),
        has_text(identity_text(view), view.id),
        view.role == "Controller"@ <==> has_prefix(identity_text(view), "[◆"@),
{
    let body = body_text(view, task, link, frame);
    let state = crate::attach::attach_icon(view, task, frame);
    let e = Seq::<char>::empty();
    reveal_strlit("  rtt=");
    reveal_strlit("  ");
    reveal_strlit("rtt=");
    reveal_strlit("◆");
    reveal_strlit("◇");
    reveal_strlit("[");
    reveal_strlit("[◆");
    let who = identity_text(view);
    lemma_holds(who, "["@ + crate::attach::role_text(view.role) + ":"@, view.id, "]"@);
    assert("[◆"@ =~= "["@ + "◆"@);
    if view.role == "Controller"@ {
        assert(who.subrange(0, 2) =~= "[◆"@);
    } else {
        assert(who.subrange(0, 2)[1] == '◇');
        assert("[◆"@[1] == '◆');
    }
    if view.mode == Mode::Input {
        if view.ctrl_c_count > 0 {
            lemma_holds(
                body,
                "[ctrl c x"@,
                decimal(view.ctrl_c_count as int),
                "] x3 to command mode"@,
            );
        } else {
            let head = "[>] "@ + who;
            assert(body.subrange(0, head.len() as int) =~= head);
            assert(body =~= "[>] "@ + who + "  "@ + state + " "@ + title_of(task) + e);
            lemma_holds(body, "[>] "@ + who + "  "@ + state + " "@, title_of(task), e);
        }
    } else if view.mode == Mode::Link {
        let head = "[~] "@ + who;
        assert(body.subrange(0, head.len() as int) =~= head);
        let figures = "rtt="@ + link.rtt + " rx="@ + link.rx + " tx="@ + link.tx + " idle="@
            + link.idle;
        let own = task.executor + ":"@ + task.async_id;
        assert("  rtt="@ =~= "  "@ + "rtt="@);
        assert(body =~= head + "  "@ + figures + ("  "@ + state + " "@ + own));
        lemma_holds(body, head + "  "@, figures, "  "@ + state + " "@ + own);
        assert(body =~= head + "  "@ + figures + "  "@ + state + " "@ + own + e);
        lemma_holds(body, head + "  "@ + figures + "  "@ + state + " "@, own, e);
    } else {
        let head = "[:] "@ + menu_text(view.command_target);
        assert(body.subrange(0, head.len() as int) =~= head);
    }
}

/// The program has every row but the last, which is the status line. The cursor is on the screen:
/// in the menu on the status line, else where the program has it, or nowhere.
pub proof fn law_screen_is_laid_out(view: AttachViewView, cursor_row: u16, cursor_col: u16)
    ensures
        ({
            let layout = layout_of(view, cursor_row, cursor_col);
            &&& view.local_rows > 0 ==> layout.content_rows + 1 == view.local_rows
                && layout.status_row + 1 == view.local_rows
            &&& layout.draw_cols <= view.local_cols && layout.draw_cols <= view.pty_cols
            &&& layout.draw_cols == view.local_cols || layout.draw_cols == view.pty_cols
            &&& view.mode == Mode::Command ==> layout.cursor == Some((0u16, layout.status_row))
            &&& view.mode != Mode::Command ==> (layout.cursor is Some <==> cursor_row
                < layout.content_rows && cursor_col < view.local_cols)
            &&& view.mode != Mode::Command && layout.cursor is Some ==> layout.cursor == Some(
                (cursor_col, cursor_row),
            )
        }),
{
}

// ---------------------------------------------------------------------------
// Coming and going
// ---------------------------------------------------------------------------

/// A terminal attaches to its task as a viewer with nothing sent and nothing received, and its keys
/// go to the program.
pub proof fn law_terminals_attach(
    task: ExbashTaskView,
    id: Seq<char>,
    local: (u16, u16),
    desired: (u16, u16),
    auto_schedule: bool,
)
    ensures
        ({
            let s = attached_state(task, id, local, desired, auto_schedule);
            let (local_cols, local_rows) = local;
            let (cols, rows) = desired;
            &&& s.task == task && s.auto_schedule == auto_schedule
            &&& s.view.id == id && s.view.role == "Viewer"@
            &&& s.view.local_cols == local_cols && s.view.local_rows == local_rows
            &&& s.view.pty_cols == cols && s.view.pty_rows == rows
            &&& s.view.mode == Mode::Input && s.view.message is None && !s.view.mouse_tracking
            &&& s.metrics.tx_bytes == 0 && s.metrics.rx_bytes == 0
            &&& s.metrics.pending_ping is None && s.metrics.rtt is None
            &&& s.ctrl_c_streak == 0 && s.view.ctrl_c_count == 0
        }),
{
}

/// A terminal that switches attaches to the other task; one that leaves does what it asked for; one
/// that fails goes back to the list with the reason.
pub proof fn law_terminals_go_on(task: ExbashTaskView, message: Seq<char>)
    ensures
        after_outcome(Ok(AttachActionView::Switch { task })) == (AfterAttachView::Attach { task }),
        after_outcome(Ok(AttachActionView::List)) == (AfterAttachView::Leave {
            action: AttachActionView::List,
            error: None,
        }),
        after_outcome(Ok(AttachActionView::Quit)) == (AfterAttachView::Leave {
            action: AttachActionView::Quit,
            error: None,
        }),
        after_outcome(Err(message)) == (AfterAttachView::Leave {
            action: AttachActionView::List,
            error: Some(message),
        }),
{
}

/// The mouse hits the identity exactly where the line shows it: behind the first four columns, as
/// many columns as it takes, and never in the menu.
pub proof fn law_identity_is_hit_where_it_stands(
    view: AttachViewView,
    task: ExbashTaskView,
    link: LinkTextsView,
    frame: int,
    auto_schedule: bool,
    column: u16,
)
    ensures
        hits_at(view, auto_schedule, column).identity <==> view.mode != Mode::Command && 4 <= column
            < 4 + columns(identity_text(view)),
        view.mode != Mode::Command && view.ctrl_c_count == 0 ==> occurs_at(
            body_text(view, task, link, frame),
            identity_text(view),
            4,
        ),
{
    reveal_strlit("[>] ");
    reveal_strlit("[~] ");
    assert("[>] "@.len() == 4 && "[~] "@.len() == 4);
    let who = identity_text(view);
    let body = body_text(view, task, link, frame);
    if view.mode != Mode::Command && view.ctrl_c_count == 0 {
        assert(body.subrange(4, (4 + who.len()) as int) =~= who);
    }
}

} // verus!
