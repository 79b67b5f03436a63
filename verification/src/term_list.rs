//! The list of tasks on a terminal: what it shows and what it does.

use vstd::prelude::*;

use crate::attach::hits_auto;
use crate::attach::last_row;
use crate::attach::marker_text;
use crate::attach::status_auto_hit;
use crate::attach::status_marker;
use crate::attach::AttachAction;
use crate::attach::AttachActionView;
use crate::columns::center_line;
use crate::columns::centre_of;
use crate::columns::cut;
use crate::columns::status;
use crate::columns::status_line;
use crate::columns::trim_to_width;
use crate::local_event::toggle_auto_schedule;
use crate::local_event::LocalEvent;
use crate::local_event::LocalEventView;
use crate::term_input::KeyCode;
use crate::term_input::KeyEvent;
use crate::term_input::MouseButton;
use crate::term_input::MouseEvent;
use crate::term_input::MouseEventKind;
use crate::term_task::any_runs;
use crate::term_task::client_views;
use crate::term_task::has_running_task;
use crate::term_task::icon_of;
use crate::term_task::state_of;
use crate::term_task::subtitle_of;
use crate::term_task::task_state_icon;
use crate::term_task::task_subtitle;
use crate::term_task::task_title;
use crate::term_task::title_of;
use crate::term_task::ExbashTask;
use crate::term_task::ExbashTaskView;
use crate::text::cat;
use crate::text::cat3;
use crate::text::cat4;
use crate::text::opt_text;

verus! {

// ---------------------------------------------------------------------------
// Scrolling
// ---------------------------------------------------------------------------

/// The tasks that fit on a terminal: two rows each above the status line.
pub open spec fn slots_of(rows: u16) -> int {
    last_row(rows) as int / 2
}

/// As many tasks as scrolling reckons with.
pub open spec fn page_of(rows: u16) -> int {
    if slots_of(rows) > 0 {
        slots_of(rows)
    } else {
        1
    }
}

/// The first task to show: as near to the one shown before as the selected task allows, and
/// the very first where all fit.
pub open spec fn scrolled(scroll: int, selected: int, total: int, rows: u16) -> int {
    if selected < scroll {
        selected
    } else if selected >= scroll + page_of(rows) {
        selected - (page_of(rows) - 1)
    } else if total <= page_of(rows) {
        0
    } else {
        scroll
    }
}

pub fn clamp_scroll(scroll: usize, selected: usize, total: usize, rows: u16) -> (r: usize)
    ensures
        r == scrolled(scroll as int, selected as int, total as int, rows),
{
    let slots: usize = rows.saturating_sub(1) as usize / 2;
    let page: usize = if slots > 0 {
        slots
    } else {
        1
    };
    if selected < scroll {
        selected
    } else if selected - scroll >= page {
        selected - (page - 1)
    } else if total <= page {
        0
    } else {
        scroll
    }
}

/// After scrolling the selected task is in sight.
pub proof fn law_selected_is_in_sight(scroll: nat, selected: nat, total: nat, rows: u16)
    requires
        selected < total || selected == 0,
    ensures
        scrolled(scroll as int, selected as int, total as int, rows) <= selected,
        selected < scrolled(scroll as int, selected as int, total as int, rows) + page_of(rows),
{
}

// ---------------------------------------------------------------------------
// The picture
// ---------------------------------------------------------------------------

/// A line of the screen, cleared before its text is written from the first column on. Where
/// it is in reverse, that is either the whole line or just its text.
#[derive(Debug, Clone, PartialEq, Eq)]
pub struct ScreenLine {
    pub row: u16,
    pub text: String,
    pub reverse: bool,
    pub whole: bool,
}

#[verifier::ext_equal]
pub ghost struct ScreenLineView {
    pub row: u16,
    pub text: Seq<char>,
    pub reverse: bool,
    pub whole: bool,
}

impl ScreenLine {
    pub open spec fn view(&self) -> ScreenLineView {
        ScreenLineView {
            row: self.row,
            text: self.text@,
            reverse: self.reverse,
            whole: self.whole,
        }
    }
}

pub open spec fn line_views(s: Seq<ScreenLine>) -> Seq<ScreenLineView> {
    Seq::new(s.len(), |i: int| s[i].view())
}

pub open spec fn less(n: u16, by: int) -> int {
    if n >= by {
        n - by
    } else {
        0
    }
}

/// The two lines of the task in a slot.
pub open spec fn task_lines(
    task: ExbashTaskView,
    slot: int,
    reverse: bool,
    cols: u16,
    frame: int,
) -> Seq<ScreenLineView> {
    seq![
        ScreenLineView {
            row: (slot * 2) as u16,
            text: icon_of(state_of(task), frame) + " "@ + cut(title_of(task), less(cols, 5)),
            reverse,
            whole: false,
        },
        ScreenLineView {
            row: (slot * 2 + 1) as u16,
            text: "    "@ + cut(subtitle_of(task), less(cols, 4)),
            reverse,
            whole: false,
        },
    ]
}

/// The lines of the first `n` slots.
pub open spec fn slot_lines(
    tasks: Seq<ExbashTaskView>,
    selected: int,
    scroll: int,
    cols: u16,
    frame: int,
    n: int,
) -> Seq<ScreenLineView>
    decreases n,
{
    if n <= 0 {
        Seq::empty()
    } else {
        slot_lines(tasks, selected, scroll, cols, frame, n - 1) + task_lines(
            tasks[scroll + n - 1],
            n - 1,
            scroll + n - 1 == selected,
            cols,
            frame,
        )
    }
}

/// The slots that hold a task.
pub open spec fn filled_slots(total: int, scroll: int, rows: u16) -> int {
    if total <= scroll {
        0
    } else if total - scroll < slots_of(rows) {
        total - scroll
    } else {
        slots_of(rows)
    }
}

/// What an empty list shows.
pub open spec fn empty_picture() -> Seq<Seq<char>> {
    seq![
        " ____  _____ _____ ____  "@,
        "|  _ \\| ____|  ___/ ___| "@,
        "| |_) |  _| | |_  \\___ \\ "@,
        "|  _ <| |___|  _|  ___) |"@,
        "|_| \\_\\_____|_|   |____/ "@,
        ""@,
        "No exbash tasks"@,
    ]
}

/// The first of the rows in the middle that the picture takes.
pub open spec fn picture_row(body_rows: u16) -> int {
    less(body_rows, 7) / 2
}

/// The first `n` lines of the picture, as far as there are rows for them.
pub open spec fn picture_lines(cols: u16, body_rows: u16, n: int) -> Seq<ScreenLineView>
    decreases n,
{
    if n <= 0 {
        Seq::empty()
    } else {
        let before = picture_lines(cols, body_rows, n - 1);
        let row = picture_row(body_rows) + n - 1;
        if row < body_rows {
            before.push(
                ScreenLineView {
                    row: row as u16,
                    text: centre_of(empty_picture()[n - 1], cols as int),
                    reverse: false,
                    whole: false,
                },
            )
        } else {
            before
        }
    }
}

/// The left part of the status line: the state of the selected task and the menu.
pub open spec fn list_body(task: Option<ExbashTaskView>, frame: int) -> Seq<char> {
    let icon = match task {
        Some(t) => icon_of(state_of(t), frame),
        None => "[?]"@,
    };
    "[:]"@ + icon + "SW: INPUT LIST QUIT"@
}

pub fn list_status_body(task: Option<&ExbashTask>, frame: usize) -> (r: String)
    ensures
        r@ == list_body(
            match task {
                Some(t) => Some(t@),
                None => None,
            },
            frame as int,
        ),
{
    let icon = match task {
        Some(t) => task_state_icon(t, frame),
        None => "[?]",
    };
    cat3("[:]", icon, "SW: INPUT LIST QUIT")
}

/// The line at the end of the screen, in reverse from end to end.
pub open spec fn bottom_line(
    left: Seq<char>,
    auto_schedule: bool,
    cols: u16,
    rows: u16,
) -> ScreenLineView {
    ScreenLineView {
        row: last_row(rows),
        text: status(left, marker_text(auto_schedule, cols, rows), cols as int),
        reverse: true,
        whole: true,
    }
}

fn bottom(left: &str, auto_schedule: bool, cols: u16, rows: u16) -> (r: ScreenLine)
    ensures
        r@ == bottom_line(left@, auto_schedule, cols, rows),
{
    let marker = status_marker(auto_schedule, cols, rows);
    ScreenLine {
        row: rows.saturating_sub(1),
        text: status_line(left, marker.as_str(), cols as usize),
        reverse: true,
        whole: true,
    }
}

/// The line that tells of an error.
pub fn error_line(message: &str, auto_schedule: bool, cols: u16, rows: u16) -> (r: ScreenLine)
    ensures
        r@ == bottom_line("error: "@ + message@, auto_schedule, cols, rows),
{
    let left = cat("error: ", message);
    bottom(left.as_str(), auto_schedule, cols, rows)
}

pub open spec fn selected_task(
    tasks: Seq<ExbashTaskView>,
    selected: int,
) -> Option<ExbashTaskView> {
    if selected < tasks.len() {
        Some(tasks[selected])
    } else {
        None
    }
}

/// The list of tasks.
#[derive(Debug)]
pub struct ListState {
    pub tasks: Vec<ExbashTask>,
    pub selected: usize,
    pub scroll: usize,
    pub message: Option<String>,
    pub auto_schedule: bool,
}

#[verifier::ext_equal]
pub ghost struct ListStateView {
    pub tasks: Seq<ExbashTaskView>,
    pub selected: usize,
    pub scroll: usize,
    pub message: Option<Seq<char>>,
    pub auto_schedule: bool,
}

impl ListState {
    pub open spec fn view(&self) -> ListStateView {
        ListStateView {
            tasks: client_views(self.tasks@),
            selected: self.selected,
            scroll: self.scroll,
            message: opt_text(self.message),
            auto_schedule: self.auto_schedule,
        }
    }
}

/// The lines of the list in the order in which they are written, each over what was there.
pub open spec fn list_picture(
    s: ListStateView,
    cols: u16,
    rows: u16,
    frame: int,
) -> Seq<ScreenLineView> {
    let body_rows = last_row(rows);
    let total = s.tasks.len() as int;
    let lines = slot_lines(
        s.tasks,
        s.selected as int,
        s.scroll as int,
        cols,
        frame,
        filled_slots(total, s.scroll as int, rows),
    );
    let picture = if total == 0 {
        picture_lines(cols, body_rows, 7)
    } else {
        Seq::empty()
    };
    let message = match s.message {
        Some(m) => seq![
            ScreenLineView {
                row: less(rows, 2) as u16,
                text: cut(m, cols as int),
                reverse: false,
                whole: false,
            },
        ],
        None => Seq::empty(),
    };
    lines + picture + message + seq![
        bottom_line(
            list_body(selected_task(s.tasks, s.selected as int), frame),
            s.auto_schedule,
            cols,
            rows,
        ),
    ]
}

fn picture_line(i: usize) -> (r: &'static str)
    requires
        i < 7,
    ensures
        r@ == empty_picture()[i as int],
{
    if i == 0 {
        " ____  _____ _____ ____  "
    } else if i == 1 {
        "|  _ \\| ____|  ___/ ___| "
    } else if i == 2 {
        "| |_) |  _| | |_  \\___ \\ "
    } else if i == 3 {
        "|  _ <| |___|  _|  ___) |"
    } else if i == 4 {
        "|_| \\_\\_____|_|   |____/ "
    } else if i == 5 {
        ""
    } else {
        "No exbash tasks"
    }
}

/// The picture of an empty list.
pub fn empty_list_lines(cols: u16, body_rows: u16) -> (r: Vec<ScreenLine>)
    ensures
        line_views(r@) == picture_lines(cols, body_rows, 7),
{
    let start: u16 = body_rows.saturating_sub(7) / 2;
    let mut r: Vec<ScreenLine> = Vec::new();
    assert(line_views(r@) =~= Seq::empty());
    let mut i: usize = 0;
    while i < 7
        invariant
            i <= 7,
            start == picture_row(body_rows),
            start <= 0x8000,
            line_views(r@) == picture_lines(cols, body_rows, i as int),
        decreases 7 - i,
    {
        let row: u16 = start + i as u16;
        if row < body_rows {
            let ghost before = line_views(r@);
            let line = ScreenLine {
                row,
                text: center_line(picture_line(i), cols as usize),
                reverse: false,
                whole: false,
            };
            let ghost v = line@;
            r.push(line);
            assert(line_views(r@) =~= before.push(v));
        }
        i = i + 1;
    }
    r
}

impl ListState {
    /// The list of a terminal that has just started.
    pub fn new() -> (r: Self)
        ensures
            r@ == (ListStateView {
                tasks: Seq::empty(),
                selected: 0,
                scroll: 0,
                message: None,
                auto_schedule: true,
            }),
    {
        let r = ListState {
            tasks: Vec::new(),
            selected: 0,
            scroll: 0,
            message: None,
            auto_schedule: true,
        };
        assert(client_views(r.tasks@) =~= Seq::empty());
        r
    }

    fn slots(&self, cols: u16, rows: u16, frame: usize) -> (r: Vec<ScreenLine>)
        ensures
            line_views(r@) == slot_lines(
                self@.tasks,
                self.selected as int,
                self.scroll as int,
                cols,
                frame as int,
                filled_slots(self@.tasks.len() as int, self.scroll as int, rows),
            ),
    {
        let ghost tasks = client_views(self.tasks@);
        let slots: usize = rows.saturating_sub(1) as usize / 2;
        let total: usize = self.tasks.len();
        let filled: usize = if total <= self.scroll {
            0
        } else if total - self.scroll < slots {
            total - self.scroll
        } else {
            slots
        };
        let mut r: Vec<ScreenLine> = Vec::new();
        assert(line_views(r@) =~= Seq::empty());
        let mut slot: usize = 0;
        while slot < filled
            invariant
                slot <= filled,
                filled <= 0x7fff,
                filled > 0 ==> self.scroll + filled <= self.tasks.len(),
                tasks == client_views(self.tasks@),
                line_views(r@) == slot_lines(
                    tasks,
                    self.selected as int,
                    self.scroll as int,
                    cols,
                    frame as int,
                    slot as int,
                ),
            decreases filled - slot,
        {
            let index: usize = self.scroll + slot;
            let task = &self.tasks[index];
            assert(tasks[index as int] == task@);
            let y: u16 = slot as u16 * 2;
            let reverse = index == self.selected;
            let title = task_title(task);
            let title = trim_to_width(title.as_str(), cols.saturating_sub(5) as usize);
            let subtitle = task_subtitle(task);
            let subtitle = trim_to_width(subtitle.as_str(), cols.saturating_sub(4) as usize);
            let first = ScreenLine {
                row: y,
                text: cat3(task_state_icon(task, frame), " ", title.as_str()),
                reverse,
                whole: false,
            };
            let second = ScreenLine {
                row: y + 1,
                text: cat("    ", subtitle.as_str()),
                reverse,
                whole: false,
            };
            let ghost before = line_views(r@);
            let ghost a = first@;
            let ghost b = second@;
            r.push(first);
            r.push(second);
            assert(line_views(r@) =~= before + seq![a, b]);
            assert(seq![a, b] =~= task_lines(
                tasks[index as int],
                slot as int,
                reverse,
                cols,
                frame as int,
            ));
            slot = slot + 1;
        }
        r
    }

    /// The lines of the list in the order in which they are written.
    pub fn picture(&self, cols: u16, rows: u16, frame: usize) -> (r: Vec<ScreenLine>)
        ensures
            line_views(r@) == list_picture(self@, cols, rows, frame as int),
    {
        let mut r = self.slots(cols, rows, frame);
        let ghost lines = line_views(r@);
        let ghost mut shown = Seq::<ScreenLineView>::empty();
        if self.tasks.len() == 0 {
            let mut more = empty_list_lines(cols, rows.saturating_sub(1));
            proof {
                shown = line_views(more@);
            }
            r.append(&mut more);
        }
        assert(line_views(r@) =~= lines + shown);
        let ghost mut told = Seq::<ScreenLineView>::empty();
        match &self.message {
            Some(m) => {
                let line = ScreenLine {
                    row: rows.saturating_sub(2),
                    text: trim_to_width(m.as_str(), cols as usize),
                    reverse: false,
                    whole: false,
                };
                proof {
                    told = seq![line@];
                }
                r.push(line);
            },
            None => {},
        }
        assert(line_views(r@) =~= lines + shown + told);
        let body = if self.selected < self.tasks.len() {
            list_status_body(Some(&self.tasks[self.selected]), frame)
        } else {
            list_status_body(None, frame)
        };
        let last = bottom(body.as_str(), self.auto_schedule, cols, rows);
        let ghost end = last@;
        r.push(last);
        assert(line_views(r@) =~= lines + shown + told + seq![end]);
        r
    }
}

/// Every line of the list stands on the terminal, and none of a task or of the picture
/// covers the status line.
pub proof fn law_tasks_stay_above_the_status_line(
    s: ListStateView,
    cols: u16,
    rows: u16,
    frame: int,
)
    ensures
        ({
            let n = filled_slots(s.tasks.len() as int, s.scroll as int, rows);
            let lines = slot_lines(
                s.tasks,
                s.selected as int,
                s.scroll as int,
                cols,
                frame,
                n,
            );
            &&& forall|i: int|
                0 <= i < lines.len() ==> (#[trigger] lines[i]).row < last_row(rows)
            &&& forall|i: int|
                0 <= i < picture_lines(cols, last_row(rows), 7).len() ==> (
                #[trigger] picture_lines(cols, last_row(rows), 7)[i]).row < last_row(rows)
        }),
{
    let n = filled_slots(s.tasks.len() as int, s.scroll as int, rows);
    lemma_slot_rows(s.tasks, s.selected as int, s.scroll as int, cols, frame, n, rows);
    lemma_picture_rows(cols, last_row(rows), 7);
}

proof fn lemma_slot_rows(
    tasks: Seq<ExbashTaskView>,
    selected: int,
    scroll: int,
    cols: u16,
    frame: int,
    n: int,
    rows: u16,
)
    requires
        n <= slots_of(rows),
    ensures
        forall|i: int|
            0 <= i < slot_lines(tasks, selected, scroll, cols, frame, n).len() ==> (
            #[trigger] slot_lines(tasks, selected, scroll, cols, frame, n)[i]).row < last_row(rows),
    decreases n,
{
    if n > 0 {
        lemma_slot_rows(tasks, selected, scroll, cols, frame, n - 1, rows);
        let before = slot_lines(tasks, selected, scroll, cols, frame, n - 1);
        let all = slot_lines(tasks, selected, scroll, cols, frame, n);
        assert forall|i: int| 0 <= i < all.len() implies (#[trigger] all[i]).row < last_row(
            rows,
        ) by {
            if i < before.len() {
                assert(all[i] == before[i]);
            }
        }
    }
}

proof fn lemma_picture_rows(cols: u16, body_rows: u16, n: int)
    requires
        n <= 7,
    ensures
        forall|i: int|
            0 <= i < picture_lines(cols, body_rows, n).len() ==> (#[trigger] picture_lines(
                cols,
                body_rows,
                n,
            )[i]).row < body_rows,
    decreases n,
{
    if n > 0 {
        lemma_picture_rows(cols, body_rows, n - 1);
        let before = picture_lines(cols, body_rows, n - 1);
        let all = picture_lines(cols, body_rows, n);
        assert forall|i: int| 0 <= i < all.len() implies (#[trigger] all[i]).row < body_rows by {
            if i < before.len() {
                assert(all[i] == before[i]);
            }
        }
    }
}

// ---------------------------------------------------------------------------
// What happens
// ---------------------------------------------------------------------------

/// What happens while the list is shown: the user and the scheduler, the timer, the outcome of
/// loading the tasks, and the return from a task, with the automatic scheduling as it was
/// left there.
#[derive(Debug)]
pub enum ListEvent {
    Closed,
    Local { event: LocalEvent },
    Tick,
    Loaded { tasks: Vec<ExbashTask> },
    LoadFailed { message: String },
    Left { action: AttachAction, auto_schedule: bool },
}

#[verifier::ext_equal]
pub ghost enum ListEventView {
    Closed,
    Local { event: LocalEventView },
    Tick,
    Loaded { tasks: Seq<ExbashTaskView> },
    LoadFailed { message: Seq<char> },
    Left { action: AttachActionView, auto_schedule: bool },
}

impl ListEvent {
    pub open spec fn view(&self) -> ListEventView {
        match self {
            ListEvent::Closed => ListEventView::Closed,
            ListEvent::Local { event } => ListEventView::Local {
                event: event@,
            },
            ListEvent::Tick => ListEventView::Tick,
            ListEvent::Loaded { tasks } => ListEventView::Loaded {
                tasks: client_views(tasks@),
            },
            ListEvent::LoadFailed { message } => ListEventView::LoadFailed {
                message: message@,
            },
            ListEvent::Left { action, auto_schedule } => ListEventView::Left {
                action: action@,
                auto_schedule: *auto_schedule,
            },
        }
    }
}

/// What the list does next.
#[derive(Debug)]
pub enum ListNext {
    Wait,
    Load,
    Attach { task: ExbashTask },
    Quit,
}

#[verifier::ext_equal]
pub ghost enum ListNextView {
    Wait,
    Load,
    Attach { task: ExbashTaskView },
    Quit,
}

impl ListNext {
    pub open spec fn view(&self) -> ListNextView {
        match self {
            ListNext::Wait => ListNextView::Wait,
            ListNext::Load => ListNextView::Load,
            ListNext::Attach { task } => ListNextView::Attach {
                task: task@,
            },
            ListNext::Quit => ListNextView::Quit,
        }
    }
}

/// What an event leads to, in this order: the scheduler is told whether it may hand out tasks,
/// the list is drawn anew, and the list goes on.
#[derive(Debug)]
pub struct ListStep {
    pub schedulable: Option<bool>,
    pub draw: bool,
    pub next: ListNext,
}

#[verifier::ext_equal]
pub ghost struct ListStepView {
    pub schedulable: Option<bool>,
    pub draw: bool,
    pub next: ListNextView,
}

impl ListStep {
    pub open spec fn view(&self) -> ListStepView {
        ListStepView {
            schedulable: self.schedulable,
            draw: self.draw,
            next: self.next@,
        }
    }
}

pub open spec fn waiting() -> ListStepView {
    ListStepView { schedulable: None, draw: false, next: ListNextView::Wait }
}

pub open spec fn redrawn() -> ListStepView {
    ListStepView { draw: true, ..waiting() }
}

pub open spec fn goes_to(draw: bool, next: ListNextView) -> ListStepView {
    ListStepView { schedulable: None, draw, next }
}

/// A press of the left button on the switch for automatic scheduling.
pub open spec fn presses_auto(
    auto_schedule: bool,
    mouse: MouseEvent,
    cols: u16,
    rows: u16,
) -> bool {
    mouse.kind == MouseEventKind::Down(MouseButton::Left) && mouse.row == last_row(rows)
        && hits_auto(auto_schedule, cols, rows, mouse.column)
}

pub fn list_auto_hit(auto_schedule: bool, mouse: MouseEvent, cols: u16, rows: u16) -> (r: bool)
    ensures
        r == presses_auto(auto_schedule, mouse, cols, rows),
{
    mouse.kind == MouseEventKind::Down(MouseButton::Left) && mouse.row == rows.saturating_sub(1)
        && status_auto_hit(auto_schedule, cols, rows, mouse.column)
}

pub open spec fn told(s: ListStateView, message: Seq<char>) -> ListStateView {
    ListStateView { message: Some(message), ..s }
}

/// The selection moves, and the list scrolls after it.
pub open spec fn moved(s: ListStateView, selected: usize, rows: u16) -> ListStateView {
    ListStateView {
        selected,
        scroll: scrolled(
            s.scroll as int,
            selected as int,
            s.tasks.len() as int,
            rows,
        ) as usize,
        ..s
    }
}

/// New tasks are shown; the selection stays where it can.
pub open spec fn reloaded(
    s: ListStateView,
    tasks: Seq<ExbashTaskView>,
    rows: u16,
) -> ListStateView {
    let selected: usize = if s.selected < tasks.len() {
        s.selected
    } else if tasks.len() > 0 {
        (tasks.len() - 1) as usize
    } else {
        0
    };
    moved(ListStateView { tasks, message: None, ..s }, selected, rows)
}

pub open spec fn list_key_step(s: ListStateView, key: KeyEvent, rows: u16) -> (
    ListStateView,
    ListStepView,
) {
    if key.code == KeyCode::Char('q') || key.code == KeyCode::Char('Q') {
        (s, goes_to(false, ListNextView::Quit))
    } else if key.code == KeyCode::Char('r') || key.code == KeyCode::Char('R') {
        (told(s, "refreshing"@), goes_to(true, ListNextView::Load))
    } else if key.code == KeyCode::Up {
        (
            moved(
                s,
                if s.selected > 0 {
                    (s.selected - 1) as usize
                } else {
                    0
                },
                rows,
            ),
            redrawn(),
        )
    } else if key.code == KeyCode::Down {
        (
            moved(
                s,
                if s.selected + 1 < s.tasks.len() {
                    (s.selected + 1) as usize
                } else {
                    s.selected
                },
                rows,
            ),
            redrawn(),
        )
    } else if key.code == KeyCode::Enter && s.selected < s.tasks.len() {
        (
            told(s, "connecting"@),
            goes_to(true, ListNextView::Attach { task: s.tasks[s.selected as int] }),
        )
    } else {
        (s, waiting())
    }
}

pub open spec fn list_local_step(s: ListStateView, event: LocalEventView, cols: u16, rows: u16) -> (
    ListStateView,
    ListStepView,
) {
    match event {
        LocalEventView::Quit => (s, goes_to(false, ListNextView::Quit)),
        LocalEventView::Resize { cols: _, rows: _ } => (s, redrawn()),
        LocalEventView::Notice { text } => (told(s, text), redrawn()),
        LocalEventView::Unassign { async_id, executor } => (
            told(s, executor + ":"@ + async_id + " unassigned"@),
            goes_to(false, ListNextView::Load),
        ),
        LocalEventView::Assign { task } => if s.auto_schedule {
            (
                told(s, "assigned "@ + task.executor + ":"@ + task.async_id),
                goes_to(true, ListNextView::Attach { task }),
            )
        } else {
            (s, waiting())
        },
        LocalEventView::Key { key } => list_key_step(s, key, rows),
        LocalEventView::Mouse { mouse } => if presses_auto(s.auto_schedule, mouse, cols, rows) {
            (
                ListStateView { auto_schedule: !s.auto_schedule, ..s },
                ListStepView { schedulable: Some(!s.auto_schedule), ..redrawn() },
            )
        } else {
            (s, waiting())
        },
    }
}

/// The step that follows an event on a terminal of the given size.
pub open spec fn list_next(s: ListStateView, event: ListEventView, cols: u16, rows: u16) -> (
    ListStateView,
    ListStepView,
) {
    match event {
        ListEventView::Closed => (s, goes_to(false, ListNextView::Quit)),
        ListEventView::Local { event } => list_local_step(s, event, cols, rows),
        ListEventView::Tick => if any_runs(s.tasks) {
            (s, redrawn())
        } else {
            (s, waiting())
        },
        ListEventView::Loaded { tasks } => (reloaded(s, tasks, rows), redrawn()),
        ListEventView::LoadFailed { message } => (told(s, message), redrawn()),
        ListEventView::Left { action, auto_schedule } => (
            ListStateView { auto_schedule, ..s },
            if action is Quit {
                goes_to(false, ListNextView::Quit)
            } else {
                goes_to(false, ListNextView::Load)
            },
        ),
    }
}

fn step(draw: bool, next: ListNext) -> (r: ListStep)
    ensures
        r@ == goes_to(draw, next@),
{
    ListStep { schedulable: None, draw, next }
}

impl ListState {
    fn move_to(&mut self, selected: usize, rows: u16)
        ensures
            final(self)@ == moved(old(self)@, selected, rows),
    {
        self.selected = selected;
        self.scroll = clamp_scroll(self.scroll, selected, self.tasks.len(), rows);
    }

    fn on_key(&mut self, key: KeyEvent, rows: u16) -> (r: ListStep)
        ensures
            (final(self)@, r@) == list_key_step(old(self)@, key, rows),
    {
        match key.code {
            KeyCode::Char('q') => step(false, ListNext::Quit),
            KeyCode::Char('Q') => step(false, ListNext::Quit),
            KeyCode::Char('r') => {
                self.message = Some("refreshing".to_owned());
                step(true, ListNext::Load)
            },
            KeyCode::Char('R') => {
                self.message = Some("refreshing".to_owned());
                step(true, ListNext::Load)
            },
            KeyCode::Up => {
                self.move_to(self.selected.saturating_sub(1), rows);
                step(true, ListNext::Wait)
            },
            KeyCode::Down => {
                let selected: usize = if self.selected < self.tasks.len() && self.selected + 1
                    < self.tasks.len() {
                    self.selected + 1
                } else {
                    self.selected
                };
                self.move_to(selected, rows);
                step(true, ListNext::Wait)
            },
            KeyCode::Enter => if self.selected < self.tasks.len() {
                let task = self.tasks[self.selected].copy();
                self.message = Some("connecting".to_owned());
                step(true, ListNext::Attach { task })
            } else {
                step(false, ListNext::Wait)
            },
            _ => step(false, ListNext::Wait),
        }
    }

    fn on_local(&mut self, event: LocalEvent, cols: u16, rows: u16) -> (r: ListStep)
        ensures
            (final(self)@, r@) == list_local_step(old(self)@, event@, cols, rows),
    {
        match event {
            LocalEvent::Quit => step(false, ListNext::Quit),
            LocalEvent::Resize { cols: _, rows: _ } => step(true, ListNext::Wait),
            LocalEvent::Notice { text } => {
                self.message = Some(text);
                step(true, ListNext::Wait)
            },
            LocalEvent::Unassign { async_id, executor } => {
                self.message = Some(
                    cat4(executor.as_str(), ":", async_id.as_str(), " unassigned"),
                );
                step(false, ListNext::Load)
            },
            LocalEvent::Assign { task } => if self.auto_schedule {
                self.message = Some(
                    cat4("assigned ", task.executor.as_str(), ":", task.async_id.as_str()),
                );
                step(true, ListNext::Attach { task })
            } else {
                step(false, ListNext::Wait)
            },
            LocalEvent::Key { key } => self.on_key(key, rows),
            LocalEvent::Mouse { mouse } => if list_auto_hit(
                self.auto_schedule,
                mouse,
                cols,
                rows,
            ) {
                toggle_auto_schedule(&mut self.auto_schedule);
                let mut r = step(true, ListNext::Wait);
                r.schedulable = Some(self.auto_schedule);
                r
            } else {
                step(false, ListNext::Wait)
            },
        }
    }

    /// The step that follows an event on a terminal of the given size.
    pub fn next(&mut self, event: ListEvent, cols: u16, rows: u16) -> (r: ListStep)
        ensures
            (final(self)@, r@) == list_next(old(self)@, event@, cols, rows),
    {
        match event {
            ListEvent::Closed => step(false, ListNext::Quit),
            ListEvent::Local { event } => self.on_local(event, cols, rows),
            ListEvent::Tick => step(has_running_task(&self.tasks), ListNext::Wait),
            ListEvent::Loaded { tasks } => {
                self.tasks = tasks;
                self.message = None;
                let selected: usize = if self.selected < self.tasks.len() {
                    self.selected
                } else {
                    self.tasks.len().saturating_sub(1)
                };
                self.move_to(selected, rows);
                step(true, ListNext::Wait)
            },
            ListEvent::LoadFailed { message } => {
                self.message = Some(message);
                step(true, ListNext::Wait)
            },
            ListEvent::Left { action, auto_schedule } => {
                self.auto_schedule = auto_schedule;
                match action {
                    AttachAction::Quit => step(false, ListNext::Quit),
                    _ => step(false, ListNext::Load),
                }
            },
        }
    }
}

/// A task is selected, unless there is none.
pub open spec fn selects(s: ListStateView) -> bool {
    s.tasks.len() <= usize::MAX && (s.selected < s.tasks.len() || s.selected == 0)
}

/// Whatever happens, the selection stays inside the list.
pub proof fn law_selection_stays_inside(s: ListStateView, event: ListEventView, cols: u16, rows: u16)
    requires
        selects(s),
        event matches ListEventView::Loaded { tasks } ==> tasks.len() <= usize::MAX,
    ensures
        selects(list_next(s, event, cols, rows).0),
{
}

/// With automatic scheduling off, the list attaches only to the task that the user chose.
pub proof fn law_only_the_user_attaches(s: ListStateView, event: ListEventView, cols: u16, rows: u16)
    requires
        !s.auto_schedule,
        list_next(s, event, cols, rows).1.next is Attach,
    ensures
        s.selected < s.tasks.len(),
        list_next(s, event, cols, rows).1.next == (ListNextView::Attach {
            task: s.tasks[s.selected as int],
        }),
{
}

} // verus!
