//! What reaches a terminal from its user and from the scheduler.

use vstd::prelude::*;

use crate::term_input::KeyCode;
use crate::term_input::KeyEvent;
use crate::term_input::MouseEvent;
use crate::term_task::ExbashTask;
use crate::term_task::ExbashTaskView;

verus! {

/// What happens at a terminal.
#[derive(Debug)]
pub enum LocalEvent {
    Key { key: KeyEvent },
    Mouse { mouse: MouseEvent },
    Resize { cols: u16, rows: u16 },
    Assign { task: ExbashTask },
    Unassign { async_id: String, executor: String },
    Notice { text: String },
    Quit,
}

#[verifier::ext_equal]
pub ghost enum LocalEventView {
    Key { key: KeyEvent },
    Mouse { mouse: MouseEvent },
    Resize { cols: u16, rows: u16 },
    Assign { task: ExbashTaskView },
    Unassign { async_id: Seq<char>, executor: Seq<char> },
    Notice { text: Seq<char> },
    Quit,
}

impl LocalEvent {
    pub open spec fn view(&self) -> LocalEventView {
        match self {
            LocalEvent::Key { key } => LocalEventView::Key {
                key: *key,
            },
            LocalEvent::Mouse { mouse } => LocalEventView::Mouse {
                mouse: *mouse,
            },
            LocalEvent::Resize { cols, rows } => LocalEventView::Resize {
                cols: *cols,
                rows: *rows,
            },
            LocalEvent::Assign { task } => LocalEventView::Assign {
                task: task@,
            },
            LocalEvent::Unassign { async_id, executor } => LocalEventView::Unassign {
                async_id: async_id@,
                executor: executor@,
            },
            LocalEvent::Notice { text } => LocalEventView::Notice {
                text: text@,
            },
            LocalEvent::Quit => LocalEventView::Quit,
        }
    }
}

/// A message of the scheduler.
#[derive(Debug)]
pub enum ControlMessage {
    Registered { slot_id: String },
    Assign { task: ExbashTask },
    Unassign { async_id: String, executor: String },
    Message { message: String },
}

#[verifier::ext_equal]
pub ghost enum ControlMessageView {
    Registered { slot_id: Seq<char> },
    Assign { task: ExbashTaskView },
    Unassign { async_id: Seq<char>, executor: Seq<char> },
    Message { message: Seq<char> },
}

impl ControlMessage {
    pub open spec fn view(&self) -> ControlMessageView {
        match self {
            ControlMessage::Registered { slot_id } => ControlMessageView::Registered {
                slot_id: slot_id@,
            },
            ControlMessage::Assign { task } => ControlMessageView::Assign {
                task: task@,
            },
            ControlMessage::Unassign { async_id, executor } => ControlMessageView::Unassign {
                async_id: async_id@,
                executor: executor@,
            },
            ControlMessage::Message { message } => ControlMessageView::Message {
                message: message@,
            },
        }
    }
}

pub open spec fn opt_event(e: Option<LocalEvent>) -> Option<LocalEventView> {
    match e {
        Some(e) => Some(e@),
        None => None,
    }
}

/// The event that a message of the scheduler leads to; a confirmed registration leads to
/// none.
pub open spec fn control_event(message: ControlMessageView) -> Option<LocalEventView> {
    match message {
        ControlMessageView::Registered { slot_id } => None,
        ControlMessageView::Assign { task } => Some(LocalEventView::Assign { task }),
        ControlMessageView::Unassign { async_id, executor } => Some(
            LocalEventView::Unassign { async_id, executor },
        ),
        ControlMessageView::Message { message } => Some(LocalEventView::Notice { text: message }),
    }
}

pub fn handle_control_message(message: ControlMessage) -> (r: Option<LocalEvent>)
    ensures
        opt_event(r) == control_event(message@),
{
    match message {
        ControlMessage::Registered { slot_id: _ } => None,
        ControlMessage::Assign { task } => Some(LocalEvent::Assign { task }),
        ControlMessage::Unassign { async_id, executor } => Some(
            LocalEvent::Unassign { async_id, executor },
        ),
        ControlMessage::Message { message } => Some(LocalEvent::Notice { text: message }),
    }
}

/// A pressed key: `Ctrl-]` ends the program, whatever it shows.
pub open spec fn press_event(key: KeyEvent) -> LocalEventView {
    if key.code == KeyCode::Char(']') && key.modifiers.control {
        LocalEventView::Quit
    } else {
        LocalEventView::Key { key }
    }
}

pub fn key_press(key: KeyEvent) -> (r: LocalEvent)
    ensures
        r@ == press_event(key),
{
    if key.code == KeyCode::Char(']') && key.modifiers.control {
        LocalEvent::Quit
    } else {
        LocalEvent::Key { key }
    }
}

/// What the terminal asks of the connection to the scheduler.
#[derive(Debug, Clone, Copy, PartialEq, Eq, Structural)]
pub enum ControlCommand {
    SetSchedulable(bool),
}

pub fn apply_control_command(schedulable: &mut bool, command: ControlCommand)
    ensures
        command == ControlCommand::SetSchedulable(*final(schedulable)),
{
    match command {
        ControlCommand::SetSchedulable(value) => {
            *schedulable = value;
        },
    }
}

/// Switches the automatic scheduling and gives what the scheduler is told.
pub fn toggle_auto_schedule(auto_schedule: &mut bool) -> (r: ControlCommand)
    ensures
        *final(auto_schedule) == !*old(auto_schedule),
        r == ControlCommand::SetSchedulable(!*old(auto_schedule)),
{
    *auto_schedule = !*auto_schedule;
    ControlCommand::SetSchedulable(*auto_schedule)
}

} // verus!
