use remote_executor_for_session::attach::{
    after_attach, attach_layout, attach_status_body, attach_status_line, auto_marker, command_target_at_column,
    command_targets_text, identity_covers, next_command, previous_command, process_attach_key,
    process_attach_mouse, role_symbol, should_animate_attach, size_marker, status_auto_hit,
    status_identity_hit, status_marker, update_mouse_tracking, AfterAttach, AttachAction, AttachActionRequest,
    AttachEvent, AttachState, AttachView, CommandTarget, LinkTexts, Metrics, Mode, Outgoing,
};
use remote_executor_for_session::columns::{center_line, status_line, trim_to_width};
use remote_executor_for_session::json::Json;
use remote_executor_for_session::local_event::{
    apply_control_command, handle_control_message, key_press, toggle_auto_schedule, ControlCommand,
    ControlMessage, LocalEvent,
};
use remote_executor_for_session::term_input::{
    key_to_bytes, mouse_to_sgr_bytes, mouse_tracking_after, KeyCode, KeyEvent, KeyModifiers,
    MouseButton, MouseEvent, MouseEventKind,
};
use remote_executor_for_session::term_list::{
    clamp_scroll, empty_list_lines, error_line, list_auto_hit, list_status_body, ListEvent,
    ListNext, ListState,
};
use remote_executor_for_session::term_task::{
    clipped_command_summary, exit_u32, has_running_task, is_running, list_metadata,
    merge_task_lists, normalize_exit_code, normalize_state, running_icon_frame, running_state_icon,
    same_task, task_entries, task_state, task_state_icon, task_subtitle, task_title, ExbashTask,
};
use unicode_width::UnicodeWidthStr;

const NONE: KeyModifiers = KeyModifiers { shift: false, alt: false, control: false };
const CONTROL: KeyModifiers = KeyModifiers { shift: false, alt: false, control: true };
const SHIFT: KeyModifiers = KeyModifiers { shift: true, alt: false, control: false };

fn test_attach_view() -> AttachView {
    AttachView {
        id: "client-123".to_string(),
        role: "Viewer".to_string(),
        pty_cols: 80,
        pty_rows: 23,
        exit_code: None,
        local_cols: 80,
        local_rows: 24,
        mode: Mode::Input,
        command_target: CommandTarget::Input,
        ctrl_c_count: 0,
        message: None,
        mouse_tracking: false,
    }
}

fn test_task() -> ExbashTask {
    ExbashTask {
        async_id: "rex-1".to_string(),
        scope: "workspace".to_string(),
        executor: "remote".to_string(),
        description: "build firmware".to_string(),
        command: "make".to_string(),
        cwd: "/workspace/project".to_string(),
        state: Some("running".to_string()),
        exit_code: None,
        started_at: Some(1),
    }
}

fn named(async_id: &str, state: &str, started_at: Option<i64>) -> ExbashTask {
    ExbashTask {
        async_id: async_id.to_string(),
        scope: "local".to_string(),
        executor: "local".to_string(),
        description: String::new(),
        command: String::new(),
        cwd: String::new(),
        state: Some(state.to_string()),
        exit_code: None,
        started_at,
    }
}

fn link_texts() -> LinkTexts {
    LinkTexts {
        rtt: "?".to_string(),
        rx: "0B".to_string(),
        tx: "0B".to_string(),
        idle: "?".to_string(),
    }
}

fn key(code: KeyCode) -> KeyEvent {
    KeyEvent { code, modifiers: NONE }
}

fn press(column: u16, row: u16) -> MouseEvent {
    MouseEvent { kind: MouseEventKind::Down(MouseButton::Left), column, row, modifiers: NONE }
}

#[test]
fn status_line_keeps_marker_on_same_row_with_wide_symbols() {
    let line = status_line(
        "[>] [◆:client-123]  [⠋] local:rex-1781162394566-96  long title",
        "[#]",
        48,
    );
    assert_eq!(UnicodeWidthStr::width(line.as_str()), 48);
    assert!(line.ends_with("[#]"));
}

#[test]
fn status_marker_shows_auto_or_blank_control_mode() {
    assert_eq!(status_marker(true, 80, 24), "[Auto] [80x24]");
    assert_eq!(status_marker(false, 80, 24), "[    ] [80x24]");
}

#[test]
fn status_auto_hit_targets_only_auto_segment() {
    let cols: u16 = 80;
    let rows: u16 = 24;
    let start = cols as usize - UnicodeWidthStr::width(status_marker(true, cols, rows).as_str());
    let end = start + UnicodeWidthStr::width(auto_marker(true));

    assert!(!status_auto_hit(true, cols, rows, (start - 1) as u16));
    assert!(status_auto_hit(true, cols, rows, start as u16));
    assert!(status_auto_hit(true, cols, rows, (end - 1) as u16));
    assert!(!status_auto_hit(true, cols, rows, end as u16));
}

#[test]
fn trim_to_width_uses_display_columns() {
    let text = trim_to_width("[▶] abc", 4);
    assert_eq!(UnicodeWidthStr::width(text.as_str()), 4);
    assert_eq!(text, "[▶] ");
}

#[test]
fn attach_status_hides_task_identity_except_link_mode() {
    let mut view = test_attach_view();
    let task = test_task();
    let link = link_texts();

    let input = attach_status_body(&view, &task, &link, 0);
    assert!(input.contains("build firmware"));
    assert!(!input.contains("remote:rex-1"));

    view.mode = Mode::Link;
    let shown = attach_status_body(&view, &task, &link, 0);
    assert!(shown.contains("remote:rex-1"));

    view.mode = Mode::Command;
    let command = attach_status_body(&view, &task, &link, 0);
    assert!(command.contains("INPUT"));
    assert!(!command.contains("remote:rex-1"));
}

#[test]
fn list_status_uses_switch_menu_with_selected_task_icon() {
    let task = test_task();

    assert!(list_status_body(Some(&task), 0).starts_with("[:]["));
    assert!(list_status_body(Some(&task), 0).contains("]SW: INPUT LIST QUIT"));
    assert_eq!(list_status_body(None, 0), "[:][?]SW: INPUT LIST QUIT");
}

#[test]
fn running_icon_cycles_through_geometric_frames() {
    assert_eq!(running_state_icon(0), "[⠋]");
    assert_eq!(running_state_icon(1), "[⠙]");
    assert_eq!(running_state_icon(2), "[⠹]");
    assert_eq!(running_state_icon(3), "[⠸]");
    assert_eq!(running_state_icon(4), "[⠼]");
    assert_eq!(running_state_icon(5), "[⠴]");
    assert_eq!(running_state_icon(6), "[⠦]");
    assert_eq!(running_state_icon(7), "[⠧]");
    assert_eq!(running_state_icon(8), "[⠇]");
    assert_eq!(running_state_icon(9), "[⠏]");
    assert_eq!(running_state_icon(10), "[⠋]");
}

#[test]
fn mouse_sgr_encodes_button_scroll_and_modifiers() {
    let click = MouseEvent {
        kind: MouseEventKind::Down(MouseButton::Left),
        column: 2,
        row: 3,
        modifiers: CONTROL,
    };
    assert_eq!(mouse_to_sgr_bytes(click), b"\x1b[<16;3;4M");

    let release = MouseEvent {
        kind: MouseEventKind::Up(MouseButton::Left),
        column: 2,
        row: 3,
        modifiers: NONE,
    };
    assert_eq!(mouse_to_sgr_bytes(release), b"\x1b[<0;3;4m");

    let scroll =
        MouseEvent { kind: MouseEventKind::ScrollDown, column: 0, row: 0, modifiers: SHIFT };
    assert_eq!(mouse_to_sgr_bytes(scroll), b"\x1b[<69;1;1M");
}

#[test]
fn mouse_tracking_updates_from_xterm_private_modes() {
    let mut view = test_attach_view();

    update_mouse_tracking(&mut view, b"\x1b[?1000;1006h");
    assert!(view.mouse_tracking);

    update_mouse_tracking(&mut view, b"\x1b[?1000;1006l");
    assert!(!view.mouse_tracking);
}

#[test]
fn status_identity_hit_targets_visible_role_segment() {
    let view = test_attach_view();
    let start = UnicodeWidthStr::width("[>] ");
    let end = start + UnicodeWidthStr::width("[◇:client-123]");

    assert!(!status_identity_hit(&view, (start - 1) as u16));
    assert!(status_identity_hit(&view, start as u16));
    assert!(status_identity_hit(&view, (end - 1) as u16));
    assert!(!status_identity_hit(&view, end as u16));
}

#[test]
fn command_menu_hit_test_matches_rendered_targets() {
    assert_eq!(command_target_at_column(CommandTarget::Input, 4), Some(CommandTarget::Input));
    assert_eq!(command_target_at_column(CommandTarget::Input, 10), Some(CommandTarget::Input));
    assert_eq!(command_target_at_column(CommandTarget::Input, 11), None);
    assert_eq!(command_target_at_column(CommandTarget::Input, 13), Some(CommandTarget::List));
    assert_eq!(command_target_at_column(CommandTarget::Input, 19), Some(CommandTarget::Quit));
    assert_eq!(command_target_at_column(CommandTarget::Input, 3), None);
}

#[test]
fn command_menu_excludes_task_controls() {
    let text = command_targets_text(CommandTarget::Input);

    assert!(!text.contains("STOP"));
    assert!(!text.contains("REMOVE"));
    assert!(!text.contains("IDENTITY"));
    assert_eq!(next_command(CommandTarget::Input), CommandTarget::List);
    assert_eq!(previous_command(CommandTarget::Quit), CommandTarget::List);
}

#[test]
fn command_summary_uses_first_line_and_one_hundred_chars() {
    let text = clipped_command_summary(&format!("{}EXTRA\nnext", "0123456789".repeat(10)));

    assert_eq!(text, "0123456789".repeat(10));
}

#[test]
fn same_task_compares_scope_executor_and_async_id() {
    let left = ExbashTask {
        async_id: "rex-1".to_string(),
        scope: "local".to_string(),
        executor: "remote".to_string(),
        description: String::new(),
        command: String::new(),
        cwd: String::new(),
        state: Some("running".to_string()),
        exit_code: None,
        started_at: Some(1),
    };
    let mut right = left.copy();
    assert!(same_task(&left, &right));

    right.scope = "workspace".to_string();
    assert!(!same_task(&left, &right));
}

#[test]
fn markers_name_the_size() {
    assert_eq!(size_marker(120, 40), "[120x40]");
    assert_eq!(auto_marker(false), "[    ]");
    assert!(!status_auto_hit(true, 10, 24, 0));
    assert_eq!(role_symbol("Controller"), "◆");
    assert_eq!(role_symbol("Viewer"), "◇");
}

#[test]
fn status_lines_fill_the_row() {
    assert_eq!(status_line("left", "[#]", 12), "left     [#]");
    assert_eq!(status_line("longer text", "[#]", 8), "long [#]");
    assert_eq!(status_line("left", "[#]", 2), "[#");
    assert_eq!(center_line("ab", 6), "  ab");
    assert_eq!(center_line("abcdef", 4), "abcd");
    assert_eq!(trim_to_width("日本語", 5), "日本");
}

#[test]
fn status_bodies_show_the_mode() {
    let mut view = test_attach_view();
    let task = test_task();
    let link = link_texts();
    assert_eq!(
        attach_status_body(&view, &task, &link, 0),
        "[>] [◇:client-123]  [⠋] build firmware"
    );
    view.ctrl_c_count = 2;
    assert_eq!(
        attach_status_body(&view, &task, &link, 0),
        "[ctrl c x2] x3 to command mode"
    );
    view.mode = Mode::Link;
    view.role = "Controller".to_string();
    assert_eq!(
        attach_status_body(&view, &task, &link, 0),
        "[~] [◆:client-123]  rtt=? rx=0B tx=0B idle=?  [⠋] remote:rex-1"
    );
    view.mode = Mode::Command;
    view.exit_code = Some(2);
    assert_eq!(
        attach_status_body(&view, &task, &link, 0),
        "[:] [INPUT]  LIST  QUIT  [E]"
    );
    view.message = Some("hello".to_string());
    view.local_cols = 24;
    assert_eq!(attach_status_line(&view, &task, &link, 0, true), "hello     [Auto] [24x24]");
    assert!(!should_animate_attach(&view, &task));
    view.exit_code = None;
    assert!(should_animate_attach(&view, &task));
}

#[test]
fn menu_steps_undo_each_other() {
    for target in [CommandTarget::Input, CommandTarget::List, CommandTarget::Quit] {
        assert_eq!(previous_command(next_command(target)), target);
        assert_eq!(next_command(previous_command(target)), target);
    }
    assert_eq!(command_targets_text(CommandTarget::List), "INPUT  [LIST]  QUIT");
    assert_eq!(command_target_at_column(CommandTarget::List, 8), Some(CommandTarget::Input));
    assert_eq!(command_target_at_column(CommandTarget::List, 9), None);
    assert_eq!(command_target_at_column(CommandTarget::List, 16), Some(CommandTarget::List));
}

#[test]
fn identity_is_not_shown_in_the_menu() {
    assert!(identity_covers(Mode::Link, 14, 17));
    assert!(!identity_covers(Mode::Link, 14, 18));
    assert!(!identity_covers(Mode::Command, 14, 17));
}

#[test]
fn keys_become_bytes() {
    assert_eq!(key_to_bytes(key(KeyCode::Char('é'))), Some("é".as_bytes().to_vec()));
    assert_eq!(
        key_to_bytes(KeyEvent { code: KeyCode::Char('d'), modifiers: CONTROL }),
        Some(vec![4])
    );
    assert_eq!(key_to_bytes(key(KeyCode::Enter)), Some(b"\r".to_vec()));
    assert_eq!(key_to_bytes(key(KeyCode::Up)), Some(b"\x1b[A".to_vec()));
}

#[test]
fn mouse_tracking_ignores_other_modes() {
    assert!(!mouse_tracking_after(b"\x1b[?25h", false));
    assert!(mouse_tracking_after(b"\x1b[?25l", true));
    assert!(mouse_tracking_after(b"plain \x1b[?1003h more", false));
    assert!(!mouse_tracking_after(b"\x1b[?1000h\x1b[?1000l", false));
    assert!(!mouse_tracking_after(b"\x1b[?10", false));
}

#[test]
fn three_interrupts_open_the_menu() {
    let mut view = test_attach_view();
    let mut metrics = Metrics::new();
    let mut streak: u8 = 0;
    let interrupt = KeyEvent { code: KeyCode::Char('c'), modifiers: CONTROL };
    for count in 1..=2u8 {
        let r = process_attach_key(interrupt, &mut view, &mut metrics, &mut streak);
        assert_eq!(r.send, Some(vec![3]));
        assert!(r.render);
        assert_eq!(view.ctrl_c_count, count);
        assert_eq!(view.mode, Mode::Input);
    }
    let r = process_attach_key(interrupt, &mut view, &mut metrics, &mut streak);
    assert_eq!(r.send, Some(vec![3]));
    assert_eq!(view.mode, Mode::Command);
    assert_eq!(view.ctrl_c_count, 0);
    assert_eq!(metrics.tx_bytes, 3);

    let r = process_attach_key(key(KeyCode::Right), &mut view, &mut metrics, &mut streak);
    assert_eq!(r.send, None);
    assert_eq!(view.command_target, CommandTarget::List);
    let r = process_attach_key(key(KeyCode::Enter), &mut view, &mut metrics, &mut streak);
    assert_eq!(r.request, AttachActionRequest::List);
    process_attach_key(key(KeyCode::Tab), &mut view, &mut metrics, &mut streak);
    let r = process_attach_key(key(KeyCode::Enter), &mut view, &mut metrics, &mut streak);
    assert_eq!(r.request, AttachActionRequest::Quit);
    process_attach_key(key(KeyCode::Esc), &mut view, &mut metrics, &mut streak);
    assert_eq!(view.mode, Mode::Input);
    assert_eq!(metrics.tx_bytes, 3);
}

#[test]
fn tab_shows_the_connection_and_reaches_the_program() {
    let mut view = test_attach_view();
    let mut metrics = Metrics::new();
    let mut streak: u8 = 1;
    let r = process_attach_key(key(KeyCode::Tab), &mut view, &mut metrics, &mut streak);
    assert_eq!(r.send, Some(vec![9]));
    assert_eq!(view.mode, Mode::Link);
    assert_eq!(streak, 0);
    process_attach_key(key(KeyCode::Tab), &mut view, &mut metrics, &mut streak);
    assert_eq!(view.mode, Mode::Input);
    let r = process_attach_key(key(KeyCode::Char('x')), &mut view, &mut metrics, &mut streak);
    assert_eq!(r.send, Some(vec![b'x']));
    assert!(!r.render);
}

#[test]
fn mouse_works_the_status_line() {
    let mut view = test_attach_view();
    let mut metrics = Metrics::new();
    let mut auto = true;
    let r = process_attach_mouse(press(67, 23), &mut view, &mut metrics, &mut auto);
    assert!(r.toggled && r.render && !auto);
    let r = process_attach_mouse(press(5, 23), &mut view, &mut metrics, &mut auto);
    assert!(r.request_control);
    let r = process_attach_mouse(press(40, 23), &mut view, &mut metrics, &mut auto);
    assert!(r.render && !r.request_control);
    assert_eq!(view.mode, Mode::Command);
    let moved =
        MouseEvent { kind: MouseEventKind::Moved, column: 14, row: 23, modifiers: NONE };
    process_attach_mouse(moved, &mut view, &mut metrics, &mut auto);
    assert_eq!(view.command_target, CommandTarget::List);
    let r = process_attach_mouse(press(12, 23), &mut view, &mut metrics, &mut auto);
    assert_eq!(r.request, AttachActionRequest::List);
    view.mode = Mode::Input;
    view.message = Some("busy".to_string());
    let r = process_attach_mouse(press(5, 23), &mut view, &mut metrics, &mut auto);
    assert!(!r.render && !r.request_control);
}

#[test]
fn mouse_reaches_a_program_that_wants_it() {
    let mut view = test_attach_view();
    let mut metrics = Metrics::new();
    let mut auto = true;
    let r = process_attach_mouse(press(2, 3), &mut view, &mut metrics, &mut auto);
    assert_eq!(r.send, None);
    view.mouse_tracking = true;
    let r = process_attach_mouse(press(2, 3), &mut view, &mut metrics, &mut auto);
    assert_eq!(r.send, Some(b"\x1b[<0;3;4M".to_vec()));
    assert_eq!(metrics.tx_bytes, 9);
    let r = process_attach_mouse(press(80, 3), &mut view, &mut metrics, &mut auto);
    assert_eq!(r.send, None);
}

#[test]
fn pings_are_matched_with_their_answers() {
    let mut metrics = Metrics::new();
    assert!(metrics.ping_due(0));
    assert_eq!(metrics.note_ping_sent(1_000), 1);
    assert!(!metrics.ping_due(2_000));
    assert!(metrics.ping_due(5_000_001_000));
    assert!(!metrics.note_pong(&vec![0, 0, 0, 0, 0, 0, 0, 2], 2_000));
    assert!(!metrics.note_pong(&vec![1], 2_000));
    assert!(metrics.note_pong(&1u64.to_be_bytes().to_vec(), 3_500));
    assert_eq!(metrics.rtt, Some(2_500));
    assert!(metrics.ping_due(3_600));
    assert!(!metrics.note_pong(&1u64.to_be_bytes().to_vec(), 3_700));
    metrics.next_ping_seq = u64::MAX;
    assert_eq!(metrics.note_ping_sent(4_000), u64::MAX);
    assert_eq!(metrics.next_ping_seq, 0);
    assert!(metrics.note_pong(&u64::MAX.to_be_bytes().to_vec(), 4_001));
}

#[test]
fn attached_terminal_follows_its_events() {
    let mut task = test_task();
    task.state = Some("exit:3".to_string());
    let mut state = AttachState::attach(task, "client-9", (80, 24), (80, 23), true);
    assert_eq!(state.view.exit_code, Some(3));
    assert_eq!(state.view.role, "Viewer");

    let step = state.next(
        AttachEvent::Local { event: LocalEvent::Resize { cols: 100, rows: 1 } },
        0,
    );
    assert!(matches!(step.send, Some(Outgoing::Resize { cols: 100, rows: 1 })));
    assert!(step.render);
    assert_eq!(state.view.local_rows, 1);

    let step = state.next(AttachEvent::PingTimer, 7);
    assert!(matches!(step.send, Some(Outgoing::Ping { seq: 1 })));
    assert_eq!(state.metrics.tx_bytes, 8);
    let step = state.next(AttachEvent::Pong { data: 1u64.to_be_bytes().to_vec() }, 9);
    assert!(step.render);
    assert_eq!(state.metrics.rtt, Some(2));

    let step = state.next(AttachEvent::Output { data: b"\x1b[?1000h".to_vec() }, 10);
    assert!(step.feed && step.render);
    assert!(state.view.mouse_tracking);
    assert_eq!(state.metrics.last_output, Some(10));
    assert_eq!(state.metrics.rx_bytes, 16);

    let step = state.next(
        AttachEvent::Meta {
            len: 4,
            id: "client-8".to_string(),
            role: "Controller".to_string(),
            cols: 90,
            rows: 30,
            exit_code: None,
        },
        11,
    );
    assert_eq!(step.screen, Some((30, 90)));
    assert_eq!(state.view.id, "client-8");
    assert_eq!(state.view.pty_cols, 90);

    let step = state.next(AttachEvent::Said { len: 1, message: "hi".to_string() }, 12);
    assert!(step.render);
    assert_eq!(state.view.message, Some("hi".to_string()));
    let step = state.next(AttachEvent::Text { len: 5 }, 12);
    assert!(!step.render);
    assert_eq!(state.metrics.rx_bytes, 26);
    let step = state.next(AttachEvent::Ping { len: 2 }, 12);
    assert!(matches!(step.send, Some(Outgoing::Pong)));
    assert_eq!(state.metrics.tx_bytes, 10);
    assert!(matches!(state.next(AttachEvent::Close, 12).leave, Some(AttachAction::List)));
    assert!(matches!(state.next(AttachEvent::Closed, 12).leave, Some(AttachAction::List)));
    assert!(matches!(
        state.next(AttachEvent::Local { event: LocalEvent::Quit }, 12).leave,
        Some(AttachAction::Quit)
    ));
}

#[test]
fn assignments_move_an_attached_terminal_only_when_allowed() {
    let mut state = AttachState::attach(test_task(), "client-9", (80, 24), (80, 23), false);
    let other = named("rex-2", "running", None);
    let step =
        state.next(AttachEvent::Local { event: LocalEvent::Assign { task: other.copy() } }, 0);
    assert!(step.leave.is_none() && !step.render);

    let toggle = state.next(AttachEvent::Local { event: LocalEvent::Mouse { mouse: press(67, 23) } }, 0);
    assert_eq!(toggle.schedulable, Some(true));
    let step =
        state.next(AttachEvent::Local { event: LocalEvent::Assign { task: test_task() } }, 0);
    assert!(step.leave.is_none() && step.render);
    assert_eq!(state.view.message, Some("assigned here".to_string()));
    let step = state.next(AttachEvent::Local { event: LocalEvent::Assign { task: other } }, 0);
    match step.leave {
        Some(AttachAction::Switch { task }) => assert_eq!(task.async_id, "rex-2"),
        _ => panic!("expected a switch"),
    }

    let stays = state.next(
        AttachEvent::Local {
            event: LocalEvent::Unassign {
                async_id: "rex-1".to_string(),
                executor: "local".to_string(),
            },
        },
        0,
    );
    assert!(stays.leave.is_none());
    let leaves = state.next(
        AttachEvent::Local {
            event: LocalEvent::Unassign {
                async_id: "rex-1".to_string(),
                executor: "remote".to_string(),
            },
        },
        0,
    );
    assert!(matches!(leaves.leave, Some(AttachAction::List)));
}

#[test]
fn layout_places_the_cursor() {
    let mut view = test_attach_view();
    view.pty_cols = 40;
    let layout = attach_layout(&view, 2, 3);
    assert_eq!(layout.content_rows, 23);
    assert_eq!(layout.draw_cols, 40);
    assert_eq!(layout.status_row, 23);
    assert_eq!(layout.cursor, Some((3, 2)));
    assert_eq!(attach_layout(&view, 23, 3).cursor, None);
    view.mode = Mode::Command;
    assert_eq!(attach_layout(&view, 2, 3).cursor, Some((0, 23)));
}

#[test]
fn control_messages_become_events() {
    assert!(handle_control_message(ControlMessage::Registered { slot_id: "s".to_string() })
        .is_none());
    assert!(matches!(
        handle_control_message(ControlMessage::Message { message: "hi".to_string() }),
        Some(LocalEvent::Notice { text }) if text == "hi"
    ));
    assert!(matches!(
        handle_control_message(ControlMessage::Assign { task: test_task() }),
        Some(LocalEvent::Assign { task }) if task.async_id == "rex-1"
    ));
    assert!(matches!(
        key_press(KeyEvent { code: KeyCode::Char(']'), modifiers: CONTROL }),
        LocalEvent::Quit
    ));
    assert!(matches!(key_press(key(KeyCode::Char(']'))), LocalEvent::Key { key: _ }));
    let mut auto = true;
    let command = toggle_auto_schedule(&mut auto);
    assert!(!auto);
    assert_eq!(command, ControlCommand::SetSchedulable(false));
    let mut schedulable = true;
    apply_control_command(&mut schedulable, command);
    assert!(!schedulable);
}

#[test]
fn scrolling_keeps_the_selection_in_sight() {
    assert_eq!(clamp_scroll(5, 3, 20, 11), 3);
    assert_eq!(clamp_scroll(0, 7, 20, 11), 3);
    assert_eq!(clamp_scroll(2, 4, 20, 11), 2);
    assert_eq!(clamp_scroll(1, 2, 4, 11), 0);
    assert_eq!(clamp_scroll(0, 3, 9, 1), 3);
}

#[test]
fn list_follows_its_events() {
    let mut list = ListState::new();
    let step = list.next(
        ListEvent::Loaded {
            tasks: vec![named("a", "running", None), named("b", "exit:0", None)],
        },
        80,
        24,
    );
    assert!(step.draw);
    let down = ListEvent::Local { event: LocalEvent::Key { key: key(KeyCode::Down) } };
    list.next(down, 80, 24);
    assert_eq!(list.selected, 1);
    list.next(ListEvent::Local { event: LocalEvent::Key { key: key(KeyCode::Down) } }, 80, 24);
    assert_eq!(list.selected, 1);
    let step =
        list.next(ListEvent::Local { event: LocalEvent::Key { key: key(KeyCode::Enter) } }, 80, 24);
    assert_eq!(list.message, Some("connecting".to_string()));
    match step.next {
        ListNext::Attach { task } => assert_eq!(task.async_id, "b"),
        _ => panic!("expected to attach"),
    }
    let step = list.next(
        ListEvent::Left { action: AttachAction::List, auto_schedule: false },
        80,
        24,
    );
    assert!(matches!(step.next, ListNext::Load));
    assert!(!list.auto_schedule);
    list.next(ListEvent::Loaded { tasks: vec![named("a", "running", None)] }, 80, 24);
    assert_eq!(list.selected, 0);
    assert_eq!(list.message, None);
    assert!(list.next(ListEvent::Tick, 80, 24).draw);
    list.next(ListEvent::LoadFailed { message: "down".to_string() }, 80, 24);
    assert_eq!(list.message, Some("down".to_string()));
    let step = list.next(
        ListEvent::Local { event: LocalEvent::Assign { task: test_task() } },
        80,
        24,
    );
    assert!(matches!(step.next, ListNext::Wait));
    let step = list.next(
        ListEvent::Local { event: LocalEvent::Mouse { mouse: press(67, 23) } },
        80,
        24,
    );
    assert_eq!(step.schedulable, Some(true));
    let step = list.next(
        ListEvent::Local { event: LocalEvent::Assign { task: test_task() } },
        80,
        24,
    );
    assert_eq!(list.message, Some("assigned remote:rex-1".to_string()));
    assert!(matches!(step.next, ListNext::Attach { task: _ }));
    let step = list.next(
        ListEvent::Local {
            event: LocalEvent::Unassign {
                async_id: "rex-1".to_string(),
                executor: "remote".to_string(),
            },
        },
        80,
        24,
    );
    assert_eq!(list.message, Some("remote:rex-1 unassigned".to_string()));
    assert!(matches!(step.next, ListNext::Load) && !step.draw);
    let step =
        list.next(ListEvent::Local { event: LocalEvent::Key { key: key(KeyCode::Char('R')) } }, 80, 24);
    assert_eq!(list.message, Some("refreshing".to_string()));
    assert!(matches!(step.next, ListNext::Load) && step.draw);
    let step =
        list.next(ListEvent::Local { event: LocalEvent::Key { key: key(KeyCode::Char('q')) } }, 80, 24);
    assert!(matches!(step.next, ListNext::Quit));
    let step = list.next(
        ListEvent::Left { action: AttachAction::Quit, auto_schedule: true },
        80,
        24,
    );
    assert!(matches!(step.next, ListNext::Quit));
}

#[test]
fn list_picture_shows_tasks_message_and_status() {
    let mut list = ListState::new();
    let empty = list.picture(40, 12, 0);
    assert_eq!(empty.len(), 8);
    assert_eq!(empty[6].row, 8);
    assert_eq!(empty[6].text.trim(), "No exbash tasks");
    assert_eq!(empty[7].row, 11);
    assert_eq!(empty[7].text, "[:][?]SW: INPUT LIST QUIT [Auto] [40x12]");
    assert_eq!(empty_list_lines(40, 3).len(), 3);

    list.next(ListEvent::Loaded { tasks: vec![test_task(), named("b", "exit:0", None)] }, 40, 12);
    list.message = Some("note".to_string());
    let lines = list.picture(40, 12, 0);
    assert_eq!(lines.len(), 6);
    assert_eq!(lines[0].text, "[⠋] build firmware");
    assert!(lines[0].reverse);
    assert!(lines[1].text.starts_with("    "));
    assert_eq!(lines[2].row, 2);
    assert!(!lines[2].reverse);
    assert_eq!(lines[4].row, 10);
    assert_eq!(lines[4].text, "note");
    assert_eq!(lines[5].row, 11);
    let error = error_line("boom", false, 40, 12);
    assert!(error.text.starts_with("error: boom"));
    assert!(error.text.ends_with("[    ] [40x12]"));
    assert!(error.reverse && error.whole);
    assert!(!lines[0].whole);
    assert!(lines[5].reverse && lines[5].whole);
    assert!(list_auto_hit(true, press(26, 11), 40, 12));
    assert!(!list_auto_hit(true, press(26, 10), 40, 12));
    assert!(!list_auto_hit(true, press(25, 11), 40, 12));
}

#[test]
fn task_states_are_normalized() {
    assert_eq!(normalize_state("stopped", None), "stop");
    assert_eq!(normalize_state("exit:4", None), "exit:4");
    assert_eq!(normalize_state("odd", Some(&Json::Int(2))), "exit:2");
    assert_eq!(normalize_state("odd", None), "unknown");
    assert_eq!(normalize_exit_code(&Json::str("timeout")), "timeout");
    assert_eq!(normalize_exit_code(&Json::str("stopped")), "stop");
    assert_eq!(normalize_exit_code(&Json::Null), "unknown");
    let mut task = test_task();
    assert!(is_running(&task));
    task.state = None;
    task.exit_code = Some(Json::Int(0));
    assert_eq!(task_state(&task), "exit:0");
    assert_eq!(exit_u32(&task), Some(0));
    assert_eq!(task_state_icon(&task, 0), "[✓]");
    task.exit_code = Some(Json::Int(-1));
    assert_eq!(exit_u32(&task), None);
    task.exit_code = None;
    assert_eq!(task_state(&task), "unknown");
    assert_eq!(running_icon_frame(250), 1);
}

#[test]
fn running_tasks_come_first() {
    let workspace = vec![named("old", "exit:0", Some(9)), named("w", "running", Some(1))];
    let local = vec![named("new", "exit:0", Some(10)), named("l", "running", Some(2))];
    let merged = merge_task_lists(&workspace, &local);
    let names: Vec<&str> = merged.iter().map(|t| t.async_id.as_str()).collect();
    assert_eq!(names, vec!["l", "w", "new", "old"]);
    assert!(has_running_task(&merged));
    assert!(!has_running_task(&vec![named("x", "stop", None)]));
}

#[test]
fn task_lists_are_read_from_answers() {
    assert_eq!(
        list_metadata(&Json::Null).err(),
        Some("REFS list response did not include structuredContent metadata".to_string())
    );
    let mut title = test_task();
    title.description = "two\nlines".to_string();
    assert_eq!(task_title(&title), "two\\nlines");
    title.description = " ".to_string();
    assert_eq!(task_title(&title), "running command");
    assert_eq!(
        task_subtitle(&title),
        "rex-1 · /workspace/project [workspace/remote] command=make"
    );
    assert!(task_entries(&Json::Null, "local").is_empty());
}

#[test]
fn leaving_a_task_leads_on() {
    match after_attach(Ok(AttachAction::Switch { task: test_task() })) {
        AfterAttach::Attach { task } => assert_eq!(task.async_id, "rex-1"),
        AfterAttach::Leave { action: _, error: _ } => panic!("expected another task"),
    }
    assert!(matches!(
        after_attach(Ok(AttachAction::Quit)),
        AfterAttach::Leave { action: AttachAction::Quit, error: None }
    ));
    assert!(matches!(
        after_attach(Ok(AttachAction::List)),
        AfterAttach::Leave { action: AttachAction::List, error: None }
    ));
    match after_attach(Err("gone".to_string())) {
        AfterAttach::Leave { action: AttachAction::List, error } => {
            assert_eq!(error, Some("gone".to_string()))
        }
        _ => panic!("expected the list"),
    }
}
