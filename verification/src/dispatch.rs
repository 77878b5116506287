//! The input dispatcher: maps one key press to exactly one command, and
//! applies a command to the navigation state, yielding the frame loop's next
//! action. Unrecognized keys and non-press events are no-ops, never errors.

use vstd::prelude::*;

use crate::nav::App;
use crate::nav::clamp_forward;
use crate::nav::end_cursor;
use crate::nav::floor_sub;
use crate::nav::next_cursor;
use crate::nav::page_step;
use crate::nav::prev_cursor;

verus! {

/// A key event, reduced to what the bindings distinguish. `Other` stands for
/// every key the viewer does not recognize.
#[derive(Clone, Copy, PartialEq, Eq, Structural, Debug)]
pub enum KeyInput {
    Char(char),
    Up,
    Down,
    Enter,
    PageUp,
    PageDown,
    Home,
    End,
    Other,
}

/// What one key event asks of the viewer.
#[derive(Clone, Copy, PartialEq, Eq, Structural, Debug)]
pub enum Command {
    Quit,
    Next,
    Previous,
    PageDown,
    PageUp,
    GoToStart,
    GoToEnd,
    Inspect,
    Noop,
}

/// What the frame loop does after one event: stop, inspect the entry at the
/// given index, or draw the next frame.
#[derive(Clone, Copy, PartialEq, Eq, Structural, Debug)]
pub enum Action {
    Quit,
    Select(usize),
    Continue,
}

/// The key bindings: `q` quits, `j`/Down and `k`/Up step, PageDown/PageUp
/// jump, Home/End go to the boundaries, Enter inspects; anything else, and
/// any event that is not a key press, is a no-op.
pub open spec fn command_of(key: KeyInput, is_press: bool) -> Command {
    if !is_press {
        Command::Noop
    } else {
        match key {
            KeyInput::Char(c) => if c == 'q' {
                Command::Quit
            } else if c == 'j' {
                Command::Next
            } else if c == 'k' {
                Command::Previous
            } else {
                Command::Noop
            },
            KeyInput::Down => Command::Next,
            KeyInput::Up => Command::Previous,
            KeyInput::Enter => Command::Inspect,
            KeyInput::PageDown => Command::PageDown,
            KeyInput::PageUp => Command::PageUp,
            KeyInput::Home => Command::GoToStart,
            KeyInput::End => Command::GoToEnd,
            KeyInput::Other => Command::Noop,
        }
    }
}

/// Maps one key event to its command. Only key presses are acted on:
/// release and repeat artifacts dispatch to a no-op.
pub fn dispatch(key: KeyInput, is_press: bool) -> (r: Command)
    ensures
        r == command_of(key, is_press),
{
    if !is_press {
        return Command::Noop;
    }
    match key {
        KeyInput::Char(c) => {
            if c == 'q' {
                Command::Quit
            } else if c == 'j' {
                Command::Next
            } else if c == 'k' {
                Command::Previous
            } else {
                Command::Noop
            }
        },
        KeyInput::Down => Command::Next,
        KeyInput::Up => Command::Previous,
        KeyInput::Enter => Command::Inspect,
        KeyInput::PageDown => Command::PageDown,
        KeyInput::PageUp => Command::PageUp,
        KeyInput::Home => Command::GoToStart,
        KeyInput::End => Command::GoToEnd,
        KeyInput::Other => Command::Noop,
    }
}

/// The cursor after one command, over the cursor-move functions of the
/// navigation state machine; non-move commands leave it in place.
pub open spec fn cursor_after(cmd: Command, len: nat, cur: nat, rows: nat) -> nat {
    match cmd {
        Command::Next => next_cursor(len, cur),
        Command::Previous => prev_cursor(cur),
        Command::PageDown => clamp_forward(len, cur, page_step(rows)),
        Command::PageUp => floor_sub(cur, page_step(rows)),
        Command::GoToStart => 0,
        Command::GoToEnd => end_cursor(len),
        _ => cur,
    }
}

/// The action one command yields: quit on the quit command, inspect the
/// selected entry on the inspect command when there is one, and otherwise
/// carry on.
pub open spec fn action_of(cmd: Command, len: nat, cur: nat) -> Action {
    if cmd == Command::Quit {
        Action::Quit
    } else if cmd == Command::Inspect && len > 0 {
        Action::Select(cur as usize)
    } else {
        Action::Continue
    }
}

impl App {
    /// Applies one command: moves the cursor for a move command, leaves the
    /// state alone otherwise, and tells the frame loop what to do next.
    pub fn handle_command(&mut self, cmd: Command) -> (r: Action)
        requires
            old(self).wf(),
        ensures
            final(self).wf(),
            final(self).same_but_cursor(*old(self)),
            final(self).cursor() == cursor_after(
                cmd,
                old(self).items().len(),
                old(self).cursor(),
                old(self).list_height(),
            ),
            r == action_of(cmd, old(self).items().len(), old(self).cursor()),
    {
        match cmd {
            Command::Quit => Action::Quit,
            Command::Inspect => {
                match self.current_selection() {
                    Some(i) => Action::Select(i),
                    None => Action::Continue,
                }
            },
            Command::Next => {
                self.next();
                Action::Continue
            },
            Command::Previous => {
                self.previous();
                Action::Continue
            },
            Command::PageDown => {
                self.page_down();
                Action::Continue
            },
            Command::PageUp => {
                self.page_up();
                Action::Continue
            },
            Command::GoToStart => {
                self.go_to_start();
                Action::Continue
            },
            Command::GoToEnd => {
                self.go_to_end();
                Action::Continue
            },
            Command::Noop => Action::Continue,
        }
    }
}

} // verus!
