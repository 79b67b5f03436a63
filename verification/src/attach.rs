//! A terminal that is attached to a task: what it shows, and what it does with keys, the
//! mouse and the messages of the task.

use vstd::prelude::*;
use vstd::utf8::encode_utf8;

use crate::columns::all_printable_ascii;
use crate::columns::columns;
use crate::columns::is_printable_ascii;
use crate::columns::status;
use crate::columns::status_line;
use crate::columns::width;
use crate::local_event::toggle_auto_schedule;
use crate::local_event::LocalEvent;
use crate::local_event::LocalEventView;
use crate::number::decimal;
use crate::number::digit_char;
use crate::number::digits;
use crate::number::write_decimal;
use crate::term_input::key_bytes;
use crate::term_input::key_to_bytes;
use crate::term_input::mouse_to_sgr_bytes;
use crate::term_input::mouse_tracking_after;
use crate::term_input::opt_bytes;
use crate::term_input::sgr_text;
use crate::term_input::tracking_after;
use crate::term_input::KeyCode;
use crate::term_input::KeyEvent;
use crate::term_input::MouseButton;
use crate::term_input::MouseEvent;
use crate::term_input::MouseEventKind;
use crate::term_task::exit_number;
use crate::term_task::exit_u32;
use crate::term_task::icon_of;
use crate::term_task::is_running;
use crate::term_task::is_same;
use crate::term_task::runs;
use crate::term_task::same_task;
use crate::term_task::state_of;
use crate::term_task::task_state_icon;
use crate::term_task::task_title;
use crate::term_task::title_of;
use crate::term_task::ExbashTask;
use crate::term_task::ExbashTaskView;
use crate::text::cat;
use crate::text::cat3;
use crate::text::cat5;
use crate::text::join;
use crate::text::joined;
use crate::text::opt_text;
use crate::text::same;
use crate::text::texts;

verus! {

/// What keys mean: input for the program, input with figures on the connection, or a choice
/// from the menu.
#[derive(Debug, Clone, Copy, PartialEq, Eq, Structural)]
pub enum Mode {
    Input,
    Link,
    Command,
}

/// The choices of the menu.
#[derive(Debug, Clone, Copy, PartialEq, Eq, Structural)]
pub enum CommandTarget {
    Input,
    List,
    Quit,
}

#[derive(Debug, Clone, Copy, PartialEq, Eq, Structural)]
pub enum AttachActionRequest {
    Continue,
    List,
    Quit,
}

/// What the terminal knows of itself and of the program.
#[derive(Debug, Clone, PartialEq, Eq)]
pub struct AttachView {
    pub id: String,
    pub role: String,
    pub pty_cols: u16,
    pub pty_rows: u16,
    pub exit_code: Option<u32>,
    pub local_cols: u16,
    pub local_rows: u16,
    pub mode: Mode,
    pub command_target: CommandTarget,
    pub ctrl_c_count: u8,
    pub message: Option<String>,
    pub mouse_tracking: bool,
}

#[verifier::ext_equal]
pub ghost struct AttachViewView {
    pub id: Seq<char>,
    pub role: Seq<char>,
    pub pty_cols: u16,
    pub pty_rows: u16,
    pub exit_code: Option<u32>,
    pub local_cols: u16,
    pub local_rows: u16,
    pub mode: Mode,
    pub command_target: CommandTarget,
    pub ctrl_c_count: u8,
    pub message: Option<Seq<char>>,
    pub mouse_tracking: bool,
}

impl AttachView {
    pub open spec fn view(&self) -> AttachViewView {
        AttachViewView {
            id: self.id@,
            role: self.role@,
            pty_cols: self.pty_cols,
            pty_rows: self.pty_rows,
            exit_code: self.exit_code,
            local_cols: self.local_cols,
            local_rows: self.local_rows,
            mode: self.mode,
            command_target: self.command_target,
            ctrl_c_count: self.ctrl_c_count,
            message: opt_text(self.message),
            mouse_tracking: self.mouse_tracking,
        }
    }
}

// ---------------------------------------------------------------------------
// Figures on the connection
// ---------------------------------------------------------------------------

/// The bytes in both directions, and times in nanoseconds: when the program last wrote,
/// how long the last ping took, and the ping that is under way.
#[derive(Debug, Clone, Copy, PartialEq, Eq)]
pub struct Metrics {
    pub tx_bytes: u64,
    pub rx_bytes: u64,
    pub last_output: Option<u64>,
    pub rtt: Option<u64>,
    pub next_ping_seq: u64,
    pub pending_ping: Option<(u64, u64)>,
}

pub open spec fn plus(a: u64, b: int) -> u64 {
    if a + b <= u64::MAX {
        (a + b) as u64
    } else {
        u64::MAX
    }
}

pub open spec fn elapsed(from: u64, now: u64) -> u64 {
    if now >= from {
        (now - from) as u64
    } else {
        0
    }
}

fn time_between(from: u64, now: u64) -> (r: u64)
    ensures
        r == elapsed(from, now),
{
    if now >= from {
        now - from
    } else {
        0
    }
}

pub open spec fn sent(m: Metrics, len: int) -> Metrics {
    Metrics { tx_bytes: plus(m.tx_bytes, len), ..m }
}

/// Bytes came in; `output` is the time where the program wrote them.
pub open spec fn received(m: Metrics, len: int, output: Option<u64>) -> Metrics {
    Metrics {
        rx_bytes: plus(m.rx_bytes, len),
        last_output: match output {
            Some(t) => Some(t),
            None => m.last_output,
        },
        ..m
    }
}

/// A ping is sent where none is under way, or where the last one is five seconds old.
pub open spec fn due(m: Metrics, now: u64) -> bool {
    match m.pending_ping {
        None => true,
        Some((_, sent_at)) => elapsed(sent_at, now) >= 5_000_000_000,
    }
}

pub open spec fn following(seq: u64) -> u64 {
    if seq < u64::MAX {
        (seq + 1) as u64
    } else {
        0
    }
}

pub open spec fn pinged(m: Metrics, now: u64) -> Metrics {
    Metrics {
        next_ping_seq: following(m.next_ping_seq),
        pending_ping: Some((m.next_ping_seq, now)),
        ..m
    }
}

/// The number that bytes stand for, the first one highest.
pub open spec fn big_endian(data: Seq<u8>) -> int
    decreases data.len(),
{
    if data.len() == 0 {
        0
    } else {
        big_endian(data.drop_last()) * 256 + data.last() as int
    }
}

/// The answer to the ping that is under way.
pub open spec fn is_awaited(m: Metrics, data: Seq<u8>) -> bool {
    data.len() == 8 && (m.pending_ping matches Some((seq, _)) && big_endian(data) == seq)
}

pub open spec fn ponged(m: Metrics, data: Seq<u8>, now: u64) -> Metrics {
    match m.pending_ping {
        Some((_, sent_at)) => if is_awaited(m, data) {
            Metrics { pending_ping: None, rtt: Some(elapsed(sent_at, now)), ..m }
        } else {
            m
        },
        None => m,
    }
}

impl Metrics {
    pub fn new() -> (r: Self)
        ensures
            r == (Metrics {
                tx_bytes: 0,
                rx_bytes: 0,
                last_output: None,
                rtt: None,
                next_ping_seq: 1,
                pending_ping: None,
            }),
    {
        Metrics {
            tx_bytes: 0,
            rx_bytes: 0,
            last_output: None,
            rtt: None,
            next_ping_seq: 1,
            pending_ping: None,
        }
    }

    pub fn record_tx(&mut self, len: usize)
        ensures
            *final(self) == sent(*old(self), len as int),
    {
        self.tx_bytes = self.tx_bytes.saturating_add(len as u64);
    }

    pub fn record_rx(&mut self, len: usize, output: Option<u64>)
        ensures
            *final(self) == received(*old(self), len as int, output),
    {
        self.rx_bytes = self.rx_bytes.saturating_add(len as u64);
        if output.is_some() {
            self.last_output = output;
        }
    }

    pub fn ping_due(&self, now: u64) -> (r: bool)
        ensures
            r == due(*self, now),
    {
        match self.pending_ping {
            None => true,
            Some((_, sent_at)) => time_between(sent_at, now) >= 5_000_000_000,
        }
    }

    pub fn note_ping_sent(&mut self, now: u64) -> (r: u64)
        ensures
            r == old(self).next_ping_seq,
            *final(self) == pinged(*old(self), now),
    {
        let seq: u64 = self.next_ping_seq;
        self.next_ping_seq = if seq < u64::MAX {
            seq + 1
        } else {
            0
        };
        self.pending_ping = Some((seq, now));
        seq
    }

    pub fn note_pong(&mut self, data: &Vec<u8>, now: u64) -> (r: bool)
        ensures
            r == is_awaited(*old(self), data@),
            *final(self) == ponged(*old(self), data@, now),
    {
        if data.len() != 8 {
            return false;
        }
        let mut value: u128 = 0;
        let mut i: usize = 0;
        assert(data@.take(0) =~= Seq::empty());
        let ghost mut bound: int = 1;
        while i < 8
            invariant
                i <= 8,
                data@.len() == 8,
                value == big_endian(data@.take(i as int)),
                0 <= value < bound,
                bound <= 0x1_0000_0000_0000_0000,
                i == 0 ==> bound == 1,
                i == 1 ==> bound == 0x100,
                i == 2 ==> bound == 0x1_0000,
                i == 3 ==> bound == 0x100_0000,
                i == 4 ==> bound == 0x1_0000_0000,
                i == 5 ==> bound == 0x100_0000_0000,
                i == 6 ==> bound == 0x1_0000_0000_0000,
                i == 7 ==> bound == 0x100_0000_0000_0000,
                i == 8 ==> bound == 0x1_0000_0000_0000_0000,
            decreases 8 - i,
        {
            assert(data@.take(i + 1).drop_last() =~= data@.take(i as int));
            value = value * 256 + data[i] as u128;
            proof {
                bound = bound * 256;
            }
            i = i + 1;
        }
        assert(data@.take(8) =~= data@);
        match self.pending_ping {
            Some((seq, sent_at)) => if value == seq as u128 {
                self.pending_ping = None;
                self.rtt = Some(time_between(sent_at, now));
                true
            } else {
                false
            },
            None => false,
        }
    }
}

/// After the answer to a ping no ping is under way, so the next timer sends one; while one
/// is young and unanswered none is sent.
pub proof fn law_one_ping_at_a_time(m: Metrics, data: Seq<u8>, now: u64, later: u64)
    ensures
        is_awaited(m, data) ==> due(ponged(m, data, now), later),
        now <= later < now + 5_000_000_000 ==> !due(pinged(m, now), later),
{
}

// ---------------------------------------------------------------------------
// Markers
// ---------------------------------------------------------------------------

pub open spec fn auto_text(auto_schedule: bool) -> Seq<char> {
    if auto_schedule {
        "[Auto]"@
    } else {
        "[    ]"@
    }
}

pub fn auto_marker(auto_schedule: bool) -> (r: &'static str)
    ensures
        r@ == auto_text(auto_schedule),
{
    if auto_schedule {
        "[Auto]"
    } else {
        "[    ]"
    }
}

pub open spec fn size_text(cols: u16, rows: u16) -> Seq<char> {
    "["@ + decimal(cols as int) + "x"@ + decimal(rows as int) + "]"@
}

pub fn size_marker(cols: u16, rows: u16) -> (r: String)
    ensures
        r@ == size_text(cols, rows),
{
    let c = write_decimal(cols as i128);
    let n = write_decimal(rows as i128);
    cat5("[", c.as_str(), "x", n.as_str(), "]")
}

/// The right end of the status line.
pub open spec fn marker_text(auto_schedule: bool, cols: u16, rows: u16) -> Seq<char> {
    auto_text(auto_schedule) + " "@ + size_text(cols, rows)
}

pub fn status_marker(auto_schedule: bool, cols: u16, rows: u16) -> (r: String)
    ensures
        r@ == marker_text(auto_schedule, cols, rows),
{
    let size = size_marker(cols, rows);
    cat3(auto_marker(auto_schedule), " ", size.as_str())
}

proof fn lemma_digits_printable(n: nat)
    ensures
        all_printable_ascii(digits(n)),
    decreases n,
{
    if n >= 10 {
        lemma_digits_printable(n / 10);
        let s = digits(n);
        assert forall|i: int| 0 <= i < s.len() implies is_printable_ascii(#[trigger] s[i]) by {
            if i < s.len() - 1 {
                assert(s[i] == digits(n / 10)[i]);
            } else {
                assert(s[i] == digit_char((n % 10) as int));
            }
        }
    }
}

proof fn lemma_printable_append(a: Seq<char>, b: Seq<char>)
    requires
        all_printable_ascii(a),
        all_printable_ascii(b),
    ensures
        all_printable_ascii(a + b),
{
    assert forall|i: int| 0 <= i < (a + b).len() implies is_printable_ascii(
        #[trigger] (a + b)[i],
    ) by {
        if i < a.len() {
            assert((a + b)[i] == a[i]);
        } else {
            assert((a + b)[i] == b[i - a.len()]);
        }
    }
}

proof fn lemma_marker_printable(auto_schedule: bool, cols: u16, rows: u16)
    ensures
        all_printable_ascii(auto_text(auto_schedule)),
        auto_text(auto_schedule).len() == 6,
        all_printable_ascii(marker_text(auto_schedule, cols, rows)),
{
    reveal_strlit("[Auto]");
    reveal_strlit("[    ]");
    reveal_strlit(" ");
    reveal_strlit("[");
    reveal_strlit("x");
    reveal_strlit("]");
    lemma_digits_printable(cols as nat);
    lemma_digits_printable(rows as nat);
    let c = decimal(cols as int);
    let n = decimal(rows as int);
    lemma_printable_append("["@, c);
    lemma_printable_append("["@ + c, "x"@);
    lemma_printable_append("["@ + c + "x"@, n);
    lemma_printable_append("["@ + c + "x"@ + n, "]"@);
    lemma_printable_append(auto_text(auto_schedule), " "@);
    lemma_printable_append(auto_text(auto_schedule) + " "@, size_text(cols, rows));
}

/// The column is one of `len` from `start` on.
pub open spec fn covers(start: int, len: int, column: int) -> bool {
    start <= column < start + len
}

/// The column is one of the switch for automatic scheduling, which starts the marker at the
/// right end of the line.
pub open spec fn hits_auto(auto_schedule: bool, cols: u16, rows: u16, column: u16) -> bool {
    let len = marker_text(auto_schedule, cols, rows).len() as int;
    len <= cols && covers(cols - len, 6, column as int)
}

pub fn status_auto_hit(auto_schedule: bool, cols: u16, rows: u16, column: u16) -> (r: bool)
    ensures
        r == hits_auto(auto_schedule, cols, rows, column),
{
    proof {
        lemma_marker_printable(auto_schedule, cols, rows);
    }
    let marker = status_marker(auto_schedule, cols, rows);
    let marker_width: usize = width(marker.as_str());
    let line: usize = cols as usize;
    if marker_width > line {
        return false;
    }
    let start: usize = line - marker_width;
    let auto_width: usize = width(auto_marker(auto_schedule));
    let column: usize = column as usize;
    column >= start && column - start < auto_width
}

pub open spec fn last_row(rows: u16) -> u16 {
    if rows > 0 {
        (rows - 1) as u16
    } else {
        0
    }
}

// ---------------------------------------------------------------------------
// The menu
// ---------------------------------------------------------------------------

pub open spec fn label_text(target: CommandTarget) -> Seq<char> {
    match target {
        CommandTarget::Input => "INPUT"@,
        CommandTarget::List => "LIST"@,
        CommandTarget::Quit => "QUIT"@,
    }
}

fn label(target: CommandTarget) -> (r: &'static str)
    ensures
        r@ == label_text(target),
{
    match target {
        CommandTarget::Input => "INPUT",
        CommandTarget::List => "LIST",
        CommandTarget::Quit => "QUIT",
    }
}

/// A choice as the menu shows it: the selected one in brackets.
pub open spec fn choice_text(target: CommandTarget, selected: CommandTarget) -> Seq<char> {
    if target == selected {
        "["@ + label_text(target) + "]"@
    } else {
        label_text(target)
    }
}

fn choice(target: CommandTarget, selected: CommandTarget) -> (r: String)
    ensures
        r@ == choice_text(target, selected),
{
    if target == selected {
        cat3("[", label(target), "]")
    } else {
        label(target).to_owned()
    }
}

pub open spec fn menu_text(selected: CommandTarget) -> Seq<char> {
    joined(
        seq![
            choice_text(CommandTarget::Input, selected),
            choice_text(CommandTarget::List, selected),
            choice_text(CommandTarget::Quit, selected),
        ],
        "  "@,
    )
}

pub fn command_targets_text(selected: CommandTarget) -> (r: String)
    ensures
        r@ == menu_text(selected),
{
    let mut parts: Vec<String> = Vec::new();
    parts.push(choice(CommandTarget::Input, selected));
    parts.push(choice(CommandTarget::List, selected));
    parts.push(choice(CommandTarget::Quit, selected));
    assert(texts(parts@) =~= seq![
        choice_text(CommandTarget::Input, selected),
        choice_text(CommandTarget::List, selected),
        choice_text(CommandTarget::Quit, selected),
    ]);
    join(&parts, "  ")
}

proof fn lemma_choice_printable(target: CommandTarget, selected: CommandTarget)
    ensures
        all_printable_ascii(choice_text(target, selected)),
        choice_text(target, selected).len() <= 7,
{
    reveal_strlit("INPUT");
    reveal_strlit("LIST");
    reveal_strlit("QUIT");
    reveal_strlit("[");
    reveal_strlit("]");
    assert(all_printable_ascii(label_text(target)));
    lemma_printable_append("["@, label_text(target));
    lemma_printable_append("["@ + label_text(target), "]"@);
}

/// The choice that stands at a column: the menu starts at the fifth column, with two
/// columns between choices.
pub open spec fn target_at(selected: CommandTarget, column: int) -> Option<CommandTarget> {
    let a = choice_text(CommandTarget::Input, selected).len() as int;
    let b = choice_text(CommandTarget::List, selected).len() as int;
    let c = choice_text(CommandTarget::Quit, selected).len() as int;
    if covers(4, a, column) {
        Some(CommandTarget::Input)
    } else if covers(4 + a + 2, b, column) {
        Some(CommandTarget::List)
    } else if covers(4 + a + 2 + b + 2, c, column) {
        Some(CommandTarget::Quit)
    } else {
        None
    }
}

pub fn command_target_at_column(selected: CommandTarget, column: u16) -> (r: Option<CommandTarget>)
    ensures
        r == target_at(selected, column as int),
{
    proof {
        reveal_strlit("[:] ");
        lemma_choice_printable(CommandTarget::Input, selected);
        lemma_choice_printable(CommandTarget::List, selected);
        lemma_choice_printable(CommandTarget::Quit, selected);
    }
    let column: usize = column as usize;
    let start: usize = width("[:] ");
    let end: usize = start + width(choice(CommandTarget::Input, selected).as_str());
    if column >= start && column < end {
        return Some(CommandTarget::Input);
    }
    let start: usize = end + 2;
    let end: usize = start + width(choice(CommandTarget::List, selected).as_str());
    if column >= start && column < end {
        return Some(CommandTarget::List);
    }
    let start: usize = end + 2;
    let end: usize = start + width(choice(CommandTarget::Quit, selected).as_str());
    if column >= start && column < end {
        return Some(CommandTarget::Quit);
    }
    None
}

pub open spec fn next_choice(command: CommandTarget) -> CommandTarget {
    match command {
        CommandTarget::Input => CommandTarget::List,
        CommandTarget::List => CommandTarget::Quit,
        CommandTarget::Quit => CommandTarget::Input,
    }
}

pub fn next_command(command: CommandTarget) -> (r: CommandTarget)
    ensures
        r == next_choice(command),
{
    match command {
        CommandTarget::Input => CommandTarget::List,
        CommandTarget::List => CommandTarget::Quit,
        CommandTarget::Quit => CommandTarget::Input,
    }
}

pub open spec fn previous_choice(command: CommandTarget) -> CommandTarget {
    match command {
        CommandTarget::Input => CommandTarget::Quit,
        CommandTarget::List => CommandTarget::Input,
        CommandTarget::Quit => CommandTarget::List,
    }
}

pub fn previous_command(command: CommandTarget) -> (r: CommandTarget)
    ensures
        r == previous_choice(command),
{
    match command {
        CommandTarget::Input => CommandTarget::Quit,
        CommandTarget::List => CommandTarget::Input,
        CommandTarget::Quit => CommandTarget::List,
    }
}

/// A step forward and a step back in the menu undo each other.
pub proof fn law_menu_steps_undo(command: CommandTarget)
    ensures
        previous_choice(next_choice(command)) == command,
        next_choice(previous_choice(command)) == command,
        next_choice(next_choice(next_choice(command))) == command,
{
}

// ---------------------------------------------------------------------------
// The status line
// ---------------------------------------------------------------------------

pub open spec fn role_text(role: Seq<char>) -> Seq<char> {
    if role == "Controller"@ {
        "◆"@
    } else {
        "◇"@
    }
}

pub fn role_symbol(role: &str) -> (r: &'static str)
    ensures
        r@ == role_text(role@),
{
    if same(role, "Controller") {
        "◆"
    } else {
        "◇"
    }
}

/// Who the terminal is for the program.
pub open spec fn identity_text(view: AttachViewView) -> Seq<char> {
    "["@ + role_text(view.role) + ":"@ + view.id + "]"@
}

fn identity(view: &AttachView) -> (r: String)
    ensures
        r@ == identity_text(view@),
{
    cat5("[", role_symbol(view.role.as_str()), ":", view.id.as_str(), "]")
}

/// Whether the identity, which takes `len` columns, stands at the column.
pub open spec fn identity_at(mode: Mode, len: int, column: int) -> bool {
    mode != Mode::Command && covers(4, len, column)
}

pub fn identity_covers(mode: Mode, len: usize, column: u16) -> (r: bool)
    ensures
        r == identity_at(mode, len as int, column as int),
{
    let column: usize = column as usize;
    mode != Mode::Command && column >= 4 && column - 4 < len
}

pub fn status_identity_hit(view: &AttachView, column: u16) -> (r: bool)
    ensures
        r == identity_at(view.mode, columns(identity_text(view@)) as int, column as int),
{
    let text = identity(view);
    identity_covers(view.mode, width(text.as_str()), column)
}

pub open spec fn attach_icon(view: AttachViewView, task: ExbashTaskView, frame: int) -> Seq<char> {
    match view.exit_code {
        None => icon_of(state_of(task), frame),
        Some(code) => if code == 0 {
            "[✓]"@
        } else {
            "[E]"@
        },
    }
}

pub fn attach_state_icon(view: &AttachView, task: &ExbashTask, frame: usize) -> (r: &'static str)
    ensures
        r@ == attach_icon(view@, task@, frame as int),
{
    match view.exit_code {
        None => task_state_icon(task, frame),
        Some(code) => if code == 0 {
            "[✓]"
        } else {
            "[E]"
        },
    }
}

pub fn should_animate_attach(view: &AttachView, task: &ExbashTask) -> (r: bool)
    ensures
        r == animates(view@, task@),
{
    view.exit_code.is_none() && is_running(task)
}

pub open spec fn animates(view: AttachViewView, task: ExbashTaskView) -> bool {
    view.exit_code is None && runs(task)
}

/// The figures on the connection as text.
#[derive(Debug, Clone, PartialEq, Eq)]
pub struct LinkTexts {
    pub rtt: String,
    pub rx: String,
    pub tx: String,
    pub idle: String,
}

#[verifier::ext_equal]
pub ghost struct LinkTextsView {
    pub rtt: Seq<char>,
    pub rx: Seq<char>,
    pub tx: Seq<char>,
    pub idle: Seq<char>,
}

impl LinkTexts {
    pub open spec fn view(&self) -> LinkTextsView {
        LinkTextsView {
            rtt: self.rtt@,
            rx: self.rx@,
            tx: self.tx@,
            idle: self.idle@,
        }
    }
}

/// The left part of the status line.
pub open spec fn body_text(
    view: AttachViewView,
    task: ExbashTaskView,
    link: LinkTextsView,
    frame: int,
) -> Seq<char> {
    let state = attach_icon(view, task, frame);
    match view.mode {
        Mode::Input => if view.ctrl_c_count > 0 {
            "[ctrl c x"@ + decimal(view.ctrl_c_count as int) + "] x3 to command mode"@
        } else {
            "[>] "@ + identity_text(view) + "  "@ + state + " "@ + title_of(task)
        },
        Mode::Link => "[~] "@ + identity_text(view) + "  rtt="@ + link.rtt + " rx="@ + link.rx
            + " tx="@ + link.tx + " idle="@ + link.idle + "  "@ + state + " "@ + task.executor
            + ":"@ + task.async_id,
        Mode::Command => "[:] "@ + menu_text(view.command_target) + "  "@ + state,
    }
}

pub fn attach_status_body(
    view: &AttachView,
    task: &ExbashTask,
    link: &LinkTexts,
    frame: usize,
) -> (r: String)
    ensures
        r@ == body_text(view@, task@, link@, frame as int),
{
    let state = attach_state_icon(view, task, frame);
    match view.mode {
        Mode::Input => if view.ctrl_c_count > 0 {
            let count = write_decimal(view.ctrl_c_count as i128);
            cat3("[ctrl c x", count.as_str(), "] x3 to command mode")
        } else {
            let who = identity(view);
            let title = task_title(task);
            let mut r = cat("[>] ", who.as_str());
            r.append("  ");
            r.append(state);
            r.append(" ");
            r.append(title.as_str());
            r
        },
        Mode::Link => {
            let who = identity(view);
            let mut r = cat("[~] ", who.as_str());
            r.append("  rtt=");
            r.append(link.rtt.as_str());
            r.append(" rx=");
            r.append(link.rx.as_str());
            r.append(" tx=");
            r.append(link.tx.as_str());
            r.append(" idle=");
            r.append(link.idle.as_str());
            r.append("  ");
            r.append(state);
            r.append(" ");
            r.append(task.executor.as_str());
            r.append(":");
            r.append(task.async_id.as_str());
            r
        },
        Mode::Command => {
            let menu = command_targets_text(view.command_target);
            let mut r = cat("[:] ", menu.as_str());
            r.append("  ");
            r.append(state);
            r
        },
    }
}

/// The status line: a message where there is one, else what the mode shows.
pub open spec fn attach_status(
    view: AttachViewView,
    task: ExbashTaskView,
    link: LinkTextsView,
    frame: int,
    auto_schedule: bool,
) -> Seq<char> {
    let left = match view.message {
        Some(m) => m,
        None => body_text(view, task, link, frame),
    };
    status(
        left,
        marker_text(auto_schedule, view.local_cols, view.local_rows),
        view.local_cols as int,
    )
}

pub fn attach_status_line(
    view: &AttachView,
    task: &ExbashTask,
    link: &LinkTexts,
    frame: usize,
    auto_schedule: bool,
) -> (r: String)
    ensures
        r@ == attach_status(view@, task@, link@, frame as int, auto_schedule),
{
    let marker = status_marker(auto_schedule, view.local_cols, view.local_rows);
    match &view.message {
        Some(m) => status_line(m.as_str(), marker.as_str(), view.local_cols as usize),
        None => {
            let body = attach_status_body(view, task, link, frame);
            status_line(body.as_str(), marker.as_str(), view.local_cols as usize)
        },
    }
}

/// Where the parts of the screen stand: the rows and columns of the program, the row of the
/// status line and the place of the cursor, as column and row.
#[derive(Debug, Clone, Copy, PartialEq, Eq)]
pub struct AttachLayout {
    pub content_rows: u16,
    pub draw_cols: u16,
    pub status_row: u16,
    pub cursor: Option<(u16, u16)>,
}

/// The program has all rows but the last. In the menu the cursor stands on the status line,
/// else where the program has it, unless that is out of sight.
pub open spec fn layout_of(view: AttachViewView, cursor_row: u16, cursor_col: u16) -> AttachLayout {
    AttachLayout {
        content_rows: last_row(view.local_rows),
        draw_cols: if view.local_cols < view.pty_cols {
            view.local_cols
        } else {
            view.pty_cols
        },
        status_row: last_row(view.local_rows),
        cursor: if view.mode == Mode::Command {
            Some((0u16, last_row(view.local_rows)))
        } else if cursor_row < last_row(view.local_rows) && cursor_col < view.local_cols {
            Some((cursor_col, cursor_row))
        } else {
            None
        },
    }
}

pub fn attach_layout(view: &AttachView, cursor_row: u16, cursor_col: u16) -> (r: AttachLayout)
    ensures
        r == layout_of(view@, cursor_row, cursor_col),
{
    let content_rows: u16 = view.local_rows.saturating_sub(1);
    let draw_cols: u16 = if view.local_cols < view.pty_cols {
        view.local_cols
    } else {
        view.pty_cols
    };
    let cursor = if view.mode == Mode::Command {
        Some((0u16, content_rows))
    } else if cursor_row < content_rows && cursor_col < view.local_cols {
        Some((cursor_col, cursor_row))
    } else {
        None
    };
    AttachLayout { content_rows, draw_cols, status_row: content_rows, cursor }
}

// ---------------------------------------------------------------------------
// Keys
// ---------------------------------------------------------------------------

/// What a key leads to: bytes for the program, a new picture, and whether the terminal stays
/// attached.
#[derive(Debug)]
pub struct KeyOutcome {
    pub send: Option<Vec<u8>>,
    pub render: bool,
    pub request: AttachActionRequest,
}

#[verifier::ext_equal]
pub ghost struct KeyStep {
    pub view: AttachViewView,
    pub streak: u8,
    pub send: Option<Seq<u8>>,
    pub render: bool,
    pub request: AttachActionRequest,
}

pub open spec fn is_ctrl_c(key: KeyEvent) -> bool {
    key.modifiers.control && (key.code == KeyCode::Char('c') || key.code == KeyCode::Char('C'))
}

pub open spec fn one_up(n: u8) -> u8 {
    if n < u8::MAX {
        (n + 1) as u8
    } else {
        n
    }
}

pub open spec fn stay(
    view: AttachViewView,
    streak: u8,
    send: Option<Seq<u8>>,
    render: bool,
) -> KeyStep {
    KeyStep { view, streak, send, render, request: AttachActionRequest::Continue }
}

/// Input goes to the program. The third `Ctrl-C` in a row also opens the menu, and `Tab`
/// also shows or hides the figures on the connection.
pub open spec fn input_key_step(view: AttachViewView, streak: u8, key: KeyEvent) -> KeyStep {
    if is_ctrl_c(key) {
        let n = one_up(streak);
        let next = if n >= 3 {
            AttachViewView {
                ctrl_c_count: 0,
                mode: Mode::Command,
                command_target: CommandTarget::Input,
                ..view
            }
        } else {
            AttachViewView { ctrl_c_count: n, ..view }
        };
        stay(
            next,
            if n >= 3 {
                0
            } else {
                n
            },
            Some(seq![0x03u8]),
            true,
        )
    } else {
        let calm = AttachViewView { ctrl_c_count: 0, ..view };
        if key.code == KeyCode::Tab {
            stay(
                AttachViewView {
                    mode: if view.mode == Mode::Input {
                        Mode::Link
                    } else {
                        Mode::Input
                    },
                    ..calm
                },
                0,
                Some(seq![0x09u8]),
                true,
            )
        } else {
            stay(calm, 0, key_bytes(key), streak > 0)
        }
    }
}

/// Keys in the menu: nothing goes to the program.
pub open spec fn menu_key_step(view: AttachViewView, key: KeyEvent) -> KeyStep {
    let calm = AttachViewView { ctrl_c_count: 0, ..view };
    let leave = |request: AttachActionRequest|
        KeyStep { view: calm, streak: 0, send: None, render: false, request };
    match key.code {
        KeyCode::Esc => stay(
            AttachViewView { mode: Mode::Input, command_target: CommandTarget::Input, ..calm },
            0,
            None,
            true,
        ),
        KeyCode::Enter => match view.command_target {
            CommandTarget::Input => stay(
                AttachViewView { mode: Mode::Input, ..calm },
                0,
                None,
                true,
            ),
            CommandTarget::List => leave(AttachActionRequest::List),
            CommandTarget::Quit => leave(AttachActionRequest::Quit),
        },
        KeyCode::Left => stay(
            AttachViewView { command_target: previous_choice(view.command_target), ..calm },
            0,
            None,
            true,
        ),
        KeyCode::Right => stay(
            AttachViewView { command_target: next_choice(view.command_target), ..calm },
            0,
            None,
            true,
        ),
        KeyCode::Tab => stay(
            AttachViewView { command_target: next_choice(view.command_target), ..calm },
            0,
            None,
            true,
        ),
        _ => stay(calm, 0, None, true),
    }
}

pub open spec fn key_step(view: AttachViewView, streak: u8, key: KeyEvent) -> KeyStep {
    if view.mode == Mode::Command {
        menu_key_step(view, key)
    } else {
        input_key_step(view, streak, key)
    }
}

fn byte(b: u8) -> (r: Vec<u8>)
    ensures
        r@ == seq![b],
{
    let mut r: Vec<u8> = Vec::new();
    r.push(b);
    assert(r@ =~= seq![b]);
    r
}

/// Handles a key.
pub fn process_attach_key(
    key: KeyEvent,
    view: &mut AttachView,
    metrics: &mut Metrics,
    ctrl_c_streak: &mut u8,
) -> (r: KeyOutcome)
    ensures
        ({
            let step = key_step(old(view)@, *old(ctrl_c_streak), key);
            &&& final(view)@ == step.view
            &&& *final(ctrl_c_streak) == step.streak
            &&& opt_bytes(r.send) == step.send
            &&& r.render == step.render
            &&& r.request == step.request
            &&& *final(metrics) == (match step.send {
                Some(b) => sent(*old(metrics), b.len() as int),
                None => *old(metrics),
            })
        }),
{
    match view.mode {
        Mode::Command => {
            *ctrl_c_streak = 0;
            view.ctrl_c_count = 0;
            match key.code {
                KeyCode::Esc => {
                    view.mode = Mode::Input;
                    view.command_target = CommandTarget::Input;
                },
                KeyCode::Enter => match view.command_target {
                    CommandTarget::Input => {
                        view.mode = Mode::Input;
                    },
                    CommandTarget::List => {
                        return KeyOutcome {
                            send: None,
                            render: false,
                            request: AttachActionRequest::List,
                        };
                    },
                    CommandTarget::Quit => {
                        return KeyOutcome {
                            send: None,
                            render: false,
                            request: AttachActionRequest::Quit,
                        };
                    },
                },
                KeyCode::Left => {
                    view.command_target = previous_command(view.command_target);
                },
                KeyCode::Right => {
                    view.command_target = next_command(view.command_target);
                },
                KeyCode::Tab => {
                    view.command_target = next_command(view.command_target);
                },
                _ => {},
            }
            KeyOutcome { send: None, render: true, request: AttachActionRequest::Continue }
        },
        _ => {
            if key.modifiers.control && (key.code == KeyCode::Char('c') || key.code
                == KeyCode::Char('C')) {
                *ctrl_c_streak = if *ctrl_c_streak < u8::MAX {
                    *ctrl_c_streak + 1
                } else {
                    u8::MAX
                };
                view.ctrl_c_count = *ctrl_c_streak;
                let bytes = byte(0x03);
                metrics.record_tx(bytes.len());
                if *ctrl_c_streak >= 3 {
                    *ctrl_c_streak = 0;
                    view.ctrl_c_count = 0;
                    view.mode = Mode::Command;
                    view.command_target = CommandTarget::Input;
                }
                return KeyOutcome {
                    send: Some(bytes),
                    render: true,
                    request: AttachActionRequest::Continue,
                };
            }
            let had_hint = *ctrl_c_streak > 0;
            *ctrl_c_streak = 0;
            view.ctrl_c_count = 0;
            if key.code == KeyCode::Tab {
                view.mode = if view.mode == Mode::Input {
                    Mode::Link
                } else {
                    Mode::Input
                };
                let bytes = byte(0x09);
                metrics.record_tx(bytes.len());
                return KeyOutcome {
                    send: Some(bytes),
                    render: true,
                    request: AttachActionRequest::Continue,
                };
            }
            let send = key_to_bytes(key);
            match &send {
                Some(bytes) => metrics.record_tx(bytes.len()),
                None => {},
            }
            KeyOutcome { send, render: had_hint, request: AttachActionRequest::Continue }
        },
    }
}

/// Whatever is pressed in the menu, nothing reaches the program; outside of it the terminal
/// stays attached.
pub proof fn law_menu_and_input_are_apart(view: AttachViewView, streak: u8, key: KeyEvent)
    ensures
        view.mode == Mode::Command ==> key_step(view, streak, key).send is None,
        view.mode != Mode::Command ==> key_step(view, streak, key).request
            == AttachActionRequest::Continue,
{
}

/// Three times `Ctrl-C`, and nothing else in between, opens the menu, and the program has
/// had all three.
pub proof fn law_three_interrupts_open_the_menu(view: AttachViewView, key: KeyEvent)
    requires
        view.mode != Mode::Command,
        is_ctrl_c(key),
    ensures
        ({
            let a = key_step(view, 0, key);
            let b = key_step(a.view, a.streak, key);
            let c = key_step(b.view, b.streak, key);
            &&& a.view.mode == view.mode && b.view.mode == view.mode
            &&& c.view.mode == Mode::Command && c.streak == 0
            &&& a.send == Some(seq![0x03u8]) && b.send == Some(seq![0x03u8]) && c.send == Some(
                seq![0x03u8],
            )
        }),
{
}

// ---------------------------------------------------------------------------
// The mouse
// ---------------------------------------------------------------------------

/// What stands on the status line under the mouse.
#[derive(Debug, Clone, Copy, PartialEq, Eq, Structural)]
pub struct StatusHits {
    pub auto: bool,
    pub identity: bool,
    pub target: Option<CommandTarget>,
}

pub open spec fn hits_at(view: AttachViewView, auto_schedule: bool, column: u16) -> StatusHits {
    StatusHits {
        auto: hits_auto(auto_schedule, view.local_cols, view.local_rows, column),
        identity: identity_at(view.mode, columns(identity_text(view)) as int, column as int),
        target: target_at(view.command_target, column as int),
    }
}

pub fn status_hits(view: &AttachView, auto_schedule: bool, column: u16) -> (r: StatusHits)
    ensures
        r == hits_at(view@, auto_schedule, column),
{
    StatusHits {
        auto: status_auto_hit(auto_schedule, view.local_cols, view.local_rows, column),
        identity: status_identity_hit(view, column),
        target: command_target_at_column(view.command_target, column),
    }
}

/// What the mouse leads to: a request for control, bytes for the program, a switch of the
/// automatic scheduling, a new picture, and whether the terminal stays attached.
#[derive(Debug)]
pub struct MouseOutcome {
    pub request_control: bool,
    pub send: Option<Vec<u8>>,
    pub toggled: bool,
    pub render: bool,
    pub request: AttachActionRequest,
}

#[verifier::ext_equal]
pub ghost struct MouseStep {
    pub view: AttachViewView,
    pub request_control: bool,
    pub send: Option<Seq<u8>>,
    pub toggled: bool,
    pub render: bool,
    pub request: AttachActionRequest,
}

pub open spec fn unmoved(view: AttachViewView) -> MouseStep {
    MouseStep {
        view,
        request_control: false,
        send: None,
        toggled: false,
        render: false,
        request: AttachActionRequest::Continue,
    }
}

pub open spec fn is_left_press(mouse: MouseEvent) -> bool {
    mouse.kind == MouseEventKind::Down(MouseButton::Left)
}

/// The mouse on the status line. The left button switches the automatic scheduling, asks
/// for control on the identity, opens the menu or chooses from it; moving over the menu
/// selects.
pub open spec fn status_mouse_step(
    view: AttachViewView,
    hits: StatusHits,
    mouse: MouseEvent,
) -> MouseStep {
    let same = unmoved(view);
    if is_left_press(mouse) && hits.auto {
        MouseStep { toggled: true, render: true, ..same }
    } else if view.message is None && is_left_press(mouse) {
        if view.mode == Mode::Command {
            match hits.target {
                Some(target) => {
                    let chosen = AttachViewView { command_target: target, ..view };
                    match target {
                        CommandTarget::Input => MouseStep {
                            view: AttachViewView { mode: Mode::Input, ..chosen },
                            render: true,
                            ..same
                        },
                        CommandTarget::List => MouseStep {
                            view: chosen,
                            request: AttachActionRequest::List,
                            ..same
                        },
                        CommandTarget::Quit => MouseStep {
                            view: chosen,
                            request: AttachActionRequest::Quit,
                            ..same
                        },
                    }
                },
                None => MouseStep { render: true, ..same },
            }
        } else if hits.identity {
            MouseStep { request_control: true, render: true, ..same }
        } else {
            MouseStep {
                view: AttachViewView {
                    mode: Mode::Command,
                    command_target: CommandTarget::Input,
                    ctrl_c_count: 0,
                    ..view
                },
                render: true,
                ..same
            }
        }
    } else if view.mode == Mode::Command && (mouse.kind == MouseEventKind::Moved || mouse.kind
        == MouseEventKind::Drag(MouseButton::Left)) {
        match hits.target {
            Some(target) => MouseStep {
                view: AttachViewView { command_target: target, ..view },
                render: true,
                ..same
            },
            None => same,
        }
    } else {
        same
    }
}

/// The mouse above the status line goes to a program that wants it, inside its screen.
pub open spec fn mouse_step(
    view: AttachViewView,
    hits: StatusHits,
    mouse: MouseEvent,
) -> MouseStep {
    if mouse.row == last_row(view.local_rows) {
        status_mouse_step(view, hits, mouse)
    } else if view.mode == Mode::Command || !view.mouse_tracking || mouse.row >= view.pty_rows
        || mouse.column >= view.pty_cols {
        unmoved(view)
    } else {
        MouseStep { send: Some(encode_utf8(sgr_text(mouse))), ..unmoved(view) }
    }
}

fn nothing(request: AttachActionRequest, render: bool) -> (r: MouseOutcome)
    ensures
        !r.request_control && r.send is None && !r.toggled && r.render == render && r.request
            == request,
{
    MouseOutcome { request_control: false, send: None, toggled: false, render, request }
}

/// Handles the mouse, where the status line shows `hits` under it.
pub fn apply_mouse(
    mouse: MouseEvent,
    hits: StatusHits,
    view: &mut AttachView,
    metrics: &mut Metrics,
) -> (r: MouseOutcome)
    ensures
        ({
            let step = mouse_step(old(view)@, hits, mouse);
            &&& final(view)@ == step.view
            &&& r.request_control == step.request_control
            &&& opt_bytes(r.send) == step.send
            &&& r.toggled == step.toggled
            &&& r.render == step.render
            &&& r.request == step.request
            &&& *final(metrics) == (match step.send {
                Some(b) => sent(*old(metrics), b.len() as int),
                None => *old(metrics),
            })
        }),
{
    let press = mouse.kind == MouseEventKind::Down(MouseButton::Left);
    if mouse.row == view.local_rows.saturating_sub(1) {
        if press && hits.auto {
            let mut r = nothing(AttachActionRequest::Continue, true);
            r.toggled = true;
            return r;
        }
        if view.message.is_none() && press {
            if view.mode == Mode::Command {
                match hits.target {
                    Some(target) => {
                        view.command_target = target;
                        match target {
                            CommandTarget::Input => {
                                view.mode = Mode::Input;
                            },
                            CommandTarget::List => {
                                return nothing(AttachActionRequest::List, false);
                            },
                            CommandTarget::Quit => {
                                return nothing(AttachActionRequest::Quit, false);
                            },
                        }
                    },
                    None => {},
                }
                return nothing(AttachActionRequest::Continue, true);
            }
            let mut r = nothing(AttachActionRequest::Continue, true);
            if hits.identity {
                r.request_control = true;
            } else {
                view.mode = Mode::Command;
                view.command_target = CommandTarget::Input;
                view.ctrl_c_count = 0;
            }
            return r;
        }
        if view.mode == Mode::Command && (mouse.kind == MouseEventKind::Moved || mouse.kind
            == MouseEventKind::Drag(MouseButton::Left)) {
            match hits.target {
                Some(target) => {
                    view.command_target = target;
                    return nothing(AttachActionRequest::Continue, true);
                },
                None => {},
            }
        }
        return nothing(AttachActionRequest::Continue, false);
    }
    if view.mode == Mode::Command || !view.mouse_tracking || mouse.row >= view.pty_rows
        || mouse.column >= view.pty_cols {
        return nothing(AttachActionRequest::Continue, false);
    }
    let bytes = mouse_to_sgr_bytes(mouse);
    metrics.record_tx(bytes.len());
    let mut r = nothing(AttachActionRequest::Continue, false);
    r.send = Some(bytes);
    r
}

/// Handles the mouse.
pub fn process_attach_mouse(
    mouse: MouseEvent,
    view: &mut AttachView,
    metrics: &mut Metrics,
    auto_schedule: &mut bool,
) -> (r: MouseOutcome)
    ensures
        ({
            let step = mouse_step(
                old(view)@,
                hits_at(old(view)@, *old(auto_schedule), mouse.column),
                mouse,
            );
            &&& final(view)@ == step.view
            &&& *final(auto_schedule) == (*old(auto_schedule) != step.toggled)
            &&& r.request_control == step.request_control
            &&& opt_bytes(r.send) == step.send
            &&& r.toggled == step.toggled
            &&& r.render == step.render
            &&& r.request == step.request
            &&& *final(metrics) == (match step.send {
                Some(b) => sent(*old(metrics), b.len() as int),
                None => *old(metrics),
            })
        }),
{
    let hits = status_hits(&*view, *auto_schedule, mouse.column);
    let r = apply_mouse(mouse, hits, view, metrics);
    if r.toggled {
        toggle_auto_schedule(auto_schedule);
    }
    r
}

/// Follows whether the program wants the mouse.
pub fn update_mouse_tracking(view: &mut AttachView, data: &[u8])
    ensures
        final(view)@ == (AttachViewView {
            mouse_tracking: tracking_after(data@, 0, old(view)@.mouse_tracking),
            ..old(view)@
        }),
{
    view.mouse_tracking = mouse_tracking_after(data, view.mouse_tracking);
}

// ---------------------------------------------------------------------------
// An attached terminal
// ---------------------------------------------------------------------------

/// A terminal that is attached to a task.
#[derive(Debug)]
pub struct AttachState {
    pub task: ExbashTask,
    pub view: AttachView,
    pub metrics: Metrics,
    pub auto_schedule: bool,
    pub ctrl_c_streak: u8,
}

#[verifier::ext_equal]
pub ghost struct AttachStateView {
    pub task: ExbashTaskView,
    pub view: AttachViewView,
    pub metrics: Metrics,
    pub auto_schedule: bool,
    pub ctrl_c_streak: u8,
}

impl AttachState {
    pub open spec fn view(&self) -> AttachStateView {
        AttachStateView {
            task: self.task@,
            view: self.view@,
            metrics: self.metrics,
            auto_schedule: self.auto_schedule,
            ctrl_c_streak: self.ctrl_c_streak,
        }
    }
}

/// The state in which a terminal attaches to a task, with the size that the program is
/// given.
pub open spec fn attached_state(
    task: ExbashTaskView,
    id: Seq<char>,
    local: (u16, u16),
    desired: (u16, u16),
    auto_schedule: bool,
) -> AttachStateView {
    AttachStateView {
        task,
        view: AttachViewView {
            id,
            role: "Viewer"@,
            pty_cols: desired.0,
            pty_rows: desired.1,
            exit_code: exit_number(task),
            local_cols: local.0,
            local_rows: local.1,
            mode: Mode::Input,
            command_target: CommandTarget::Input,
            ctrl_c_count: 0,
            message: None,
            mouse_tracking: false,
        },
        metrics: Metrics {
            tx_bytes: 0,
            rx_bytes: 0,
            last_output: None,
            rtt: None,
            next_ping_seq: 1,
            pending_ping: None,
        },
        auto_schedule,
        ctrl_c_streak: 0,
    }
}

/// What happens while a terminal is attached: the user and the scheduler, the timers and
/// the messages of the task. `len` is the length of a message in bytes.
#[derive(Debug)]
pub enum AttachEvent {
    Closed,
    Local { event: LocalEvent },
    Spinner,
    PingTimer,
    Output { data: Vec<u8> },
    Meta { len: usize, id: String, role: String, cols: u16, rows: u16, exit_code: Option<u32> },
    Said { len: usize, message: String },
    Text { len: usize },
    Close,
    Ping { len: usize },
    Pong { data: Vec<u8> },
}

#[verifier::ext_equal]
pub ghost enum AttachEventView {
    Closed,
    Local { event: LocalEventView },
    Spinner,
    PingTimer,
    Output { data: Seq<u8> },
    Meta {
        len: usize,
        id: Seq<char>,
        role: Seq<char>,
        cols: u16,
        rows: u16,
        exit_code: Option<u32>,
    },
    Said { len: usize, message: Seq<char> },
    Text { len: usize },
    Close,
    Ping { len: usize },
    Pong { data: Seq<u8> },
}

impl AttachEvent {
    pub open spec fn view(&self) -> AttachEventView {
        match self {
            AttachEvent::Closed => AttachEventView::Closed,
            AttachEvent::Local { event } => AttachEventView::Local {
                event: event@,
            },
            AttachEvent::Spinner => AttachEventView::Spinner,
            AttachEvent::PingTimer => AttachEventView::PingTimer,
            AttachEvent::Output { data } => AttachEventView::Output {
                data: data@,
            },
            AttachEvent::Meta { len, id, role, cols, rows, exit_code } => AttachEventView::Meta {
                len: *len,
                id: id@,
                role: role@,
                cols: *cols,
                rows: *rows,
                exit_code: *exit_code,
            },
            AttachEvent::Said { len, message } => AttachEventView::Said {
                len: *len,
                message: message@,
            },
            AttachEvent::Text { len } => AttachEventView::Text {
                len: *len,
            },
            AttachEvent::Close => AttachEventView::Close,
            AttachEvent::Ping { len } => AttachEventView::Ping {
                len: *len,
            },
            AttachEvent::Pong { data } => AttachEventView::Pong {
                data: data@,
            },
        }
    }
}

/// What is sent to the task.
#[derive(Debug)]
pub enum Outgoing {
    Binary { data: Vec<u8> },
    Resize { cols: u16, rows: u16 },
    RequestControl,
    Ping { seq: u64 },
    Pong,
}

#[verifier::ext_equal]
pub ghost enum OutgoingView {
    Binary { data: Seq<u8> },
    Resize { cols: u16, rows: u16 },
    RequestControl,
    Ping { seq: u64 },
    Pong,
}

impl Outgoing {
    pub open spec fn view(&self) -> OutgoingView {
        match self {
            Outgoing::Binary { data } => OutgoingView::Binary {
                data: data@,
            },
            Outgoing::Resize { cols, rows } => OutgoingView::Resize {
                cols: *cols,
                rows: *rows,
            },
            Outgoing::RequestControl => OutgoingView::RequestControl,
            Outgoing::Ping { seq } => OutgoingView::Ping {
                seq: *seq,
            },
            Outgoing::Pong => OutgoingView::Pong,
        }
    }
}

/// How a terminal leaves a task: back to the list, for good, or to another task.
#[derive(Debug)]
pub enum AttachAction {
    List,
    Quit,
    Switch { task: ExbashTask },
}

#[verifier::ext_equal]
pub ghost enum AttachActionView {
    List,
    Quit,
    Switch { task: ExbashTaskView },
}

impl AttachAction {
    pub open spec fn view(&self) -> AttachActionView {
        match self {
            AttachAction::List => AttachActionView::List,
            AttachAction::Quit => AttachActionView::Quit,
            AttachAction::Switch { task } => AttachActionView::Switch {
                task: task@,
            },
        }
    }
}

/// What an event leads to, in this order: something is sent, the scheduler is told whether
/// it may hand out tasks, the output goes to the screen, the screen gets a new size, as rows
/// and columns, the picture is drawn anew, and the terminal leaves.
#[derive(Debug)]
pub struct AttachStep {
    pub send: Option<Outgoing>,
    pub schedulable: Option<bool>,
    pub feed: bool,
    pub screen: Option<(u16, u16)>,
    pub render: bool,
    pub leave: Option<AttachAction>,
}

#[verifier::ext_equal]
pub ghost struct AttachStepView {
    pub send: Option<OutgoingView>,
    pub schedulable: Option<bool>,
    pub feed: bool,
    pub screen: Option<(u16, u16)>,
    pub render: bool,
    pub leave: Option<AttachActionView>,
}

pub open spec fn opt_outgoing(s: Option<Outgoing>) -> Option<OutgoingView> {
    match s {
        Some(s) => Some(s@),
        None => None,
    }
}

pub open spec fn opt_leave(a: Option<AttachAction>) -> Option<AttachActionView> {
    match a {
        Some(a) => Some(a@),
        None => None,
    }
}

impl AttachStep {
    pub open spec fn view(&self) -> AttachStepView {
        AttachStepView {
            send: opt_outgoing(self.send),
            schedulable: self.schedulable,
            feed: self.feed,
            screen: self.screen,
            render: self.render,
            leave: opt_leave(self.leave),
        }
    }
}

pub open spec fn idle() -> AttachStepView {
    AttachStepView {
        send: None,
        schedulable: None,
        feed: false,
        screen: None,
        render: false,
        leave: None,
    }
}

pub open spec fn drawn() -> AttachStepView {
    AttachStepView { render: true, ..idle() }
}

pub open spec fn leaving(action: AttachActionView) -> AttachStepView {
    AttachStepView { leave: Some(action), ..idle() }
}

pub open spec fn requested(request: AttachActionRequest) -> Option<AttachActionView> {
    match request {
        AttachActionRequest::Continue => None,
        AttachActionRequest::List => Some(AttachActionView::List),
        AttachActionRequest::Quit => Some(AttachActionView::Quit),
    }
}

pub open spec fn as_binary(b: Option<Seq<u8>>) -> Option<OutgoingView> {
    match b {
        Some(data) => Some(OutgoingView::Binary { data }),
        None => None,
    }
}

pub open spec fn with_view(s: AttachStateView, view: AttachViewView) -> AttachStateView {
    AttachStateView { view, ..s }
}

pub open spec fn with_metrics(s: AttachStateView, metrics: Metrics) -> AttachStateView {
    AttachStateView { metrics, ..s }
}

/// The rows that the program is given: all but the last, and at least one.
pub open spec fn program_rows(rows: u16) -> u16 {
    if last_row(rows) > 0 {
        last_row(rows)
    } else {
        1
    }
}

pub fn rows_for_program(rows: u16) -> (r: u16)
    ensures
        r == program_rows(rows),
{
    let above: u16 = rows.saturating_sub(1);
    if above > 0 {
        above
    } else {
        1
    }
}

pub open spec fn key_event_step(
    s: AttachStateView,
    key: KeyEvent,
) -> (AttachStateView, AttachStepView) {
    let k = key_step(s.view, s.ctrl_c_streak, key);
    let metrics = match k.send {
        Some(b) => sent(s.metrics, b.len() as int),
        None => s.metrics,
    };
    (
        AttachStateView { view: k.view, metrics, ctrl_c_streak: k.streak, ..s },
        AttachStepView {
            send: as_binary(k.send),
            render: k.render,
            leave: requested(k.request),
            ..idle()
        },
    )
}

pub open spec fn mouse_event_step(s: AttachStateView, mouse: MouseEvent) -> (
    AttachStateView,
    AttachStepView,
) {
    let m = mouse_step(s.view, hits_at(s.view, s.auto_schedule, mouse.column), mouse);
    let metrics = match m.send {
        Some(b) => sent(s.metrics, b.len() as int),
        None => s.metrics,
    };
    let auto_schedule = s.auto_schedule != m.toggled;
    (
        AttachStateView { view: m.view, metrics, auto_schedule, ..s },
        AttachStepView {
            send: if m.request_control {
                Some(OutgoingView::RequestControl)
            } else {
                as_binary(m.send)
            },
            schedulable: if m.toggled {
                Some(auto_schedule)
            } else {
                None
            },
            render: m.render,
            leave: requested(m.request),
            ..idle()
        },
    )
}

/// The step that follows an event of the user or the scheduler.
pub open spec fn local_step(s: AttachStateView, event: LocalEventView) -> (
    AttachStateView,
    AttachStepView,
) {
    match event {
        LocalEventView::Quit => (s, leaving(AttachActionView::Quit)),
        LocalEventView::Resize { cols, rows } => (
            with_view(s, AttachViewView { local_cols: cols, local_rows: rows, ..s.view }),
            AttachStepView {
                send: Some(OutgoingView::Resize { cols, rows: program_rows(rows) }),
                ..drawn()
            },
        ),
        LocalEventView::Assign { task } => if !s.auto_schedule {
            (s, idle())
        } else if is_same(s.task, task) {
            (
                with_view(s, AttachViewView { message: Some("assigned here"@), ..s.view }),
                drawn(),
            )
        } else {
            (s, leaving(AttachActionView::Switch { task }))
        },
        LocalEventView::Unassign { async_id, executor } => if s.task.async_id == async_id
            && s.task.executor == executor {
            (s, leaving(AttachActionView::List))
        } else {
            (s, idle())
        },
        LocalEventView::Notice { text } => (
            with_view(s, AttachViewView { message: Some(text), ..s.view }),
            drawn(),
        ),
        LocalEventView::Key { key } => key_event_step(s, key),
        LocalEventView::Mouse { mouse } => mouse_event_step(s, mouse),
    }
}

/// The step that follows an event at the time `now`.
pub open spec fn attach_next(s: AttachStateView, event: AttachEventView, now: u64) -> (
    AttachStateView,
    AttachStepView,
) {
    match event {
        AttachEventView::Closed => (s, leaving(AttachActionView::List)),
        AttachEventView::Local { event } => local_step(s, event),
        AttachEventView::Spinner => if animates(s.view, s.task) {
            (s, drawn())
        } else {
            (s, idle())
        },
        AttachEventView::PingTimer => if due(s.metrics, now) {
            (
                with_metrics(s, sent(pinged(s.metrics, now), 8)),
                AttachStepView {
                    send: Some(OutgoingView::Ping { seq: s.metrics.next_ping_seq }),
                    ..idle()
                },
            )
        } else {
            (s, idle())
        },
        AttachEventView::Output { data } => (
            AttachStateView {
                view: AttachViewView {
                    mouse_tracking: tracking_after(data, 0, s.view.mouse_tracking),
                    ..s.view
                },
                metrics: received(s.metrics, data.len() as int, Some(now)),
                ..s
            },
            AttachStepView { feed: true, ..drawn() },
        ),
        AttachEventView::Meta { len, id, role, cols, rows, exit_code } => (
            AttachStateView {
                view: AttachViewView {
                    id,
                    role,
                    pty_cols: cols,
                    pty_rows: rows,
                    exit_code,
                    ..s.view
                },
                metrics: received(s.metrics, len as int, None),
                ..s
            },
            AttachStepView { screen: Some((rows, cols)), ..drawn() },
        ),
        AttachEventView::Said { len, message } => (
            AttachStateView {
                view: AttachViewView { message: Some(message), ..s.view },
                metrics: received(s.metrics, len as int, None),
                ..s
            },
            drawn(),
        ),
        AttachEventView::Text { len } => (
            with_metrics(s, received(s.metrics, len as int, None)),
            idle(),
        ),
        AttachEventView::Close => (s, leaving(AttachActionView::List)),
        AttachEventView::Ping { len } => (
            with_metrics(s, sent(received(s.metrics, len as int, None), len as int)),
            AttachStepView { send: Some(OutgoingView::Pong), ..idle() },
        ),
        AttachEventView::Pong { data } => {
            let m = received(s.metrics, data.len() as int, None);
            (
                with_metrics(s, ponged(m, data, now)),
                if is_awaited(m, data) {
                    drawn()
                } else {
                    idle()
                },
            )
        },
    }
}

fn quiet() -> (r: AttachStep)
    ensures
        r@ == idle(),
{
    AttachStep {
        send: None,
        schedulable: None,
        feed: false,
        screen: None,
        render: false,
        leave: None,
    }
}

fn draw() -> (r: AttachStep)
    ensures
        r@ == drawn(),
{
    let mut r = quiet();
    r.render = true;
    r
}

fn depart(action: AttachAction) -> (r: AttachStep)
    ensures
        r@ == leaving(action@),
{
    let mut r = quiet();
    r.leave = Some(action);
    r
}

fn departure(request: AttachActionRequest) -> (r: Option<AttachAction>)
    ensures
        opt_leave(r) == requested(request),
{
    match request {
        AttachActionRequest::Continue => None,
        AttachActionRequest::List => Some(AttachAction::List),
        AttachActionRequest::Quit => Some(AttachAction::Quit),
    }
}

impl AttachState {
    /// Attaches to a task; the sizes are columns and rows.
    pub fn attach(
        task: ExbashTask,
        id: &str,
        local: (u16, u16),
        desired: (u16, u16),
        auto_schedule: bool,
    ) -> (r: Self)
        ensures
            r@ == attached_state(task@, id@, local, desired, auto_schedule),
    {
        let exit_code = exit_u32(&task);
        AttachState {
            task,
            view: AttachView {
                id: id.to_owned(),
                role: "Viewer".to_owned(),
                pty_cols: desired.0,
                pty_rows: desired.1,
                exit_code,
                local_cols: local.0,
                local_rows: local.1,
                mode: Mode::Input,
                command_target: CommandTarget::Input,
                ctrl_c_count: 0,
                message: None,
                mouse_tracking: false,
            },
            metrics: Metrics::new(),
            auto_schedule,
            ctrl_c_streak: 0,
        }
    }

    fn on_key(&mut self, key: KeyEvent) -> (r: AttachStep)
        ensures
            (final(self)@, r@) == key_event_step(old(self)@, key),
    {
        let outcome = process_attach_key(
            key,
            &mut self.view,
            &mut self.metrics,
            &mut self.ctrl_c_streak,
        );
        let mut step = quiet();
        step.send = match outcome.send {
            Some(data) => Some(Outgoing::Binary { data }),
            None => None,
        };
        step.render = outcome.render;
        step.leave = departure(outcome.request);
        step
    }

    fn on_mouse(&mut self, mouse: MouseEvent) -> (r: AttachStep)
        ensures
            (final(self)@, r@) == mouse_event_step(old(self)@, mouse),
    {
        let outcome = process_attach_mouse(
            mouse,
            &mut self.view,
            &mut self.metrics,
            &mut self.auto_schedule,
        );
        let mut step = quiet();
        step.send = if outcome.request_control {
            Some(Outgoing::RequestControl)
        } else {
            match outcome.send {
                Some(data) => Some(Outgoing::Binary { data }),
                None => None,
            }
        };
        if outcome.toggled {
            step.schedulable = Some(self.auto_schedule);
        }
        step.render = outcome.render;
        step.leave = departure(outcome.request);
        step
    }

    fn on_local(&mut self, event: LocalEvent) -> (r: AttachStep)
        ensures
            (final(self)@, r@) == local_step(old(self)@, event@),
    {
        match event {
            LocalEvent::Quit => depart(AttachAction::Quit),
            LocalEvent::Resize { cols, rows } => {
                self.view.local_cols = cols;
                self.view.local_rows = rows;
                let mut step = draw();
                step.send = Some(Outgoing::Resize { cols, rows: rows_for_program(rows) });
                step
            },
            LocalEvent::Assign { task } => if !self.auto_schedule {
                quiet()
            } else if same_task(&self.task, &task) {
                self.view.message = Some("assigned here".to_owned());
                draw()
            } else {
                depart(AttachAction::Switch { task })
            },
            LocalEvent::Unassign { async_id, executor } => if same(
                self.task.async_id.as_str(),
                async_id.as_str(),
            ) && same(self.task.executor.as_str(), executor.as_str()) {
                depart(AttachAction::List)
            } else {
                quiet()
            },
            LocalEvent::Notice { text } => {
                self.view.message = Some(text);
                draw()
            },
            LocalEvent::Key { key } => self.on_key(key),
            LocalEvent::Mouse { mouse } => self.on_mouse(mouse),
        }
    }

    /// The step that follows an event at the time `now`, in nanoseconds.
    #[verifier::rlimit(50)]
    pub fn next(&mut self, event: AttachEvent, now: u64) -> (r: AttachStep)
        ensures
            (final(self)@, r@) == attach_next(old(self)@, event@, now),
    {
        match event {
            AttachEvent::Closed => depart(AttachAction::List),
            AttachEvent::Local { event } => self.on_local(event),
            AttachEvent::Spinner => if should_animate_attach(&self.view, &self.task) {
                draw()
            } else {
                quiet()
            },
            AttachEvent::PingTimer => if self.metrics.ping_due(now) {
                let seq: u64 = self.metrics.note_ping_sent(now);
                self.metrics.record_tx(8);
                let mut step = quiet();
                step.send = Some(Outgoing::Ping { seq });
                step
            } else {
                quiet()
            },
            AttachEvent::Output { data } => {
                self.metrics.record_rx(data.len(), Some(now));
                update_mouse_tracking(&mut self.view, data.as_slice());
                let mut step = draw();
                step.feed = true;
                step
            },
            AttachEvent::Meta { len, id, role, cols, rows, exit_code } => {
                self.metrics.record_rx(len, None);
                self.view.id = id;
                self.view.role = role;
                self.view.pty_cols = cols;
                self.view.pty_rows = rows;
                self.view.exit_code = exit_code;
                let mut step = draw();
                step.screen = Some((rows, cols));
                step
            },
            AttachEvent::Said { len, message } => {
                self.metrics.record_rx(len, None);
                self.view.message = Some(message);
                draw()
            },
            AttachEvent::Text { len } => {
                self.metrics.record_rx(len, None);
                quiet()
            },
            AttachEvent::Close => depart(AttachAction::List),
            AttachEvent::Ping { len } => {
                self.metrics.record_rx(len, None);
                self.metrics.record_tx(len);
                let mut step = quiet();
                step.send = Some(Outgoing::Pong);
                step
            },
            AttachEvent::Pong { data } => {
                self.metrics.record_rx(data.len(), None);
                if self.metrics.note_pong(&data, now) {
                    draw()
                } else {
                    quiet()
                }
            },
        }
    }
}

/// With automatic scheduling off, no assignment moves the terminal away from its task.
pub proof fn law_assignments_need_auto(s: AttachStateView, task: ExbashTaskView)
    requires
        !s.auto_schedule,
    ensures
        local_step(s, LocalEventView::Assign { task }) == (s, idle()),
{
}

/// The task of a terminal never changes while it stays attached.
pub proof fn law_task_stays(s: AttachStateView, event: AttachEventView, now: u64)
    ensures
        attach_next(s, event, now).0.task == s.task,
{
}

// ---------------------------------------------------------------------------
// From task to task
// ---------------------------------------------------------------------------

/// What follows once a terminal has left a task: another task, or the end, with an error to
/// be shown first where there was one.
#[derive(Debug)]
pub enum AfterAttach {
    Attach { task: ExbashTask },
    Leave { action: AttachAction, error: Option<String> },
}

#[verifier::ext_equal]
pub ghost enum AfterAttachView {
    Attach { task: ExbashTaskView },
    Leave { action: AttachActionView, error: Option<Seq<char>> },
}

impl AfterAttach {
    pub open spec fn view(&self) -> AfterAttachView {
        match self {
            AfterAttach::Attach { task } => AfterAttachView::Attach { task: task@ },
            AfterAttach::Leave { action, error } => AfterAttachView::Leave {
                action: action@,
                error: opt_text(*error),
            },
        }
    }
}

pub open spec fn outcome_of(r: Result<AttachAction, String>) -> Result<AttachActionView, Seq<char>> {
    match r {
        Ok(action) => Ok(action@),
        Err(message) => Err(message@),
    }
}

/// A switch goes on with the other task. A task that cannot be reached, or that fails, leads
/// back to the list.
pub open spec fn after_outcome(outcome: Result<AttachActionView, Seq<char>>) -> AfterAttachView {
    match outcome {
        Ok(AttachActionView::Switch { task }) => AfterAttachView::Attach { task },
        Ok(action) => AfterAttachView::Leave { action, error: None },
        Err(message) => AfterAttachView::Leave {
            action: AttachActionView::List,
            error: Some(message),
        },
    }
}

pub fn after_attach(outcome: Result<AttachAction, String>) -> (r: AfterAttach)
    ensures
        r@ == after_outcome(outcome_of(outcome)),
{
    match outcome {
        Ok(AttachAction::Switch { task }) => AfterAttach::Attach { task },
        Ok(action) => AfterAttach::Leave { action, error: None },
        Err(message) => AfterAttach::Leave { action: AttachAction::List, error: Some(message) },
    }
}

} // verus!
