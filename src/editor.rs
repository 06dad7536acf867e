//! Turning input events into cursor moves, resizes or the end of the session.
use vstd::prelude::*;
use crate::cursor::{moved, resized, CursorController, Direction};
use crate::output::{valid_size, Output};
use crate::rows::EditorRows;

verus! {

/// No modifier key held.
pub const MODIFIERS_NONE: u8 = 0;

/// The modifier bit of the Shift key.
pub const MODIFIER_SHIFT: u8 = 1;

/// The modifier bit of the Control key.
pub const MODIFIER_CONTROL: u8 = 2;

/// The key of a key press.
#[derive(Clone, Copy, Debug, PartialEq, Eq, Structural)]
pub enum KeyCode {
    Up,
    Down,
    Left,
    Right,
    Char(char),
    /// Any other key.
    Other,
}

/// A key press: the key and the set of modifier bits held with it.
#[derive(Clone, Copy, Debug, PartialEq, Eq, Structural)]
pub struct KeyEvent {
    pub code: KeyCode,
    pub modifiers: u8,
}

/// An input event.
#[derive(Clone, Copy, Debug, PartialEq, Eq, Structural)]
pub enum Event {
    Key(KeyEvent),
    /// The terminal now has this many columns and rows.
    Resize(u16, u16),
    /// Mouse, focus, paste and whatever else the terminal reports.
    Other,
}

/// Whether the session goes on after an event.
#[derive(Clone, Copy, Debug, PartialEq, Eq, Structural)]
pub enum ControlSignal {
    Continue,
    Quit,
}

/// A screen size that cannot hold a cursor.
#[derive(Clone, Copy, Debug, PartialEq, Eq, Structural)]
pub enum SizeError {
    /// No columns or no rows.
    Degenerate,
}

/// The quit chord: `q` with Control and no other modifier.
pub open spec fn is_quit(key: KeyEvent) -> bool {
    key.code == KeyCode::Char('q') && key.modifiers == MODIFIER_CONTROL
}

/// The direction an arrow key moves in, pressed without modifiers.
pub open spec fn direction_of(key: KeyEvent) -> Option<Direction> {
    if key.modifiers != MODIFIERS_NONE {
        None
    } else {
        match key.code {
            KeyCode::Up => Some(Direction::Up),
            KeyCode::Down => Some(Direction::Down),
            KeyCode::Left => Some(Direction::Left),
            KeyCode::Right => Some(Direction::Right),
            _ => None,
        }
    }
}

/// What a key press does to cursor state `c` with `number_of_rows` rows: the
/// signal, and the cursor state after it.
pub open spec fn key_outcome(c: CursorController, key: KeyEvent, number_of_rows: nat) -> (ControlSignal, CursorController) {
    if is_quit(key) {
        (ControlSignal::Quit, c)
    } else {
        match direction_of(key) {
            Some(d) => (ControlSignal::Continue, moved(c, d, number_of_rows)),
            None => (ControlSignal::Continue, c),
        }
    }
}

/// A terminal size as the screen size the cursor state is built on; a size
/// without columns or rows is refused.
pub fn window_size(columns: u16, rows: u16) -> (r: Result<(usize, usize), SizeError>)
    ensures
        columns == 0 || rows == 0 ==> r == Err::<(usize, usize), SizeError>(SizeError::Degenerate),
        columns > 0 && rows > 0 ==> r == Ok::<(usize, usize), SizeError>((columns as usize, rows as usize)),
        r is Ok ==> valid_size(r->Ok_0.0, r->Ok_0.1),
{
    if columns == 0 || rows == 0 {
        Err(SizeError::Degenerate)
    } else {
        Ok((columns as usize, rows as usize))
    }
}

/// The viewer: a screen and what happens on it.
pub struct Editor {
    pub output: Output,
}

impl Editor {
    /// A viewer of `editor_rows` on a screen of `win_size` (columns, rows).
    pub fn new(win_size: (usize, usize), editor_rows: EditorRows) -> (r: Editor)
        requires
            valid_size(win_size.0, win_size.1),
        ensures
            r.output.wf(),
            r.output.win_size == win_size,
            r.output.cursor_controller == CursorController::new_spec(win_size),
            r.output.editor_rows@ == editor_rows@,
            r.output.editor_contents@ == Seq::<char>::empty(),
    {
        Editor { output: Output::new(win_size, editor_rows) }
    }

    /// Handles a key press: the quit chord ends the session, an arrow key
    /// without modifiers moves the cursor, any other key is ignored.
    pub fn process_keypress(&mut self, key_event: KeyEvent) -> (r: ControlSignal)
        ensures
            (r, final(self).output.cursor_controller) == key_outcome(
                old(self).output.cursor_controller,
                key_event,
                old(self).output.editor_rows@.len(),
            ),
            final(self).output.win_size == old(self).output.win_size,
            final(self).output.editor_rows@ == old(self).output.editor_rows@,
            final(self).output.editor_contents@ == old(self).output.editor_contents@,
    {
        if key_event.modifiers == MODIFIER_CONTROL {
            if let KeyCode::Char(c) = key_event.code {
                if c == 'q' {
                    return ControlSignal::Quit;
                }
            }
        } else if key_event.modifiers == MODIFIERS_NONE {
            match key_event.code {
                KeyCode::Up => self.output.move_cursor(Direction::Up),
                KeyCode::Down => self.output.move_cursor(Direction::Down),
                KeyCode::Left => self.output.move_cursor(Direction::Left),
                KeyCode::Right => self.output.move_cursor(Direction::Right),
                _ => {},
            }
        }
        ControlSignal::Continue
    }

    /// Takes a new screen size.
    pub fn process_resize(&mut self, x: usize, y: usize)
        requires
            x >= 1,
            y >= 1,
        ensures
            final(self).output.win_size == (x, y),
            final(self).output.cursor_controller == resized(old(self).output.cursor_controller, x, y),
            valid_size(x, y) ==> final(self).output.wf(),
            final(self).output.editor_rows@ == old(self).output.editor_rows@,
            final(self).output.editor_contents@ == old(self).output.editor_contents@,
    {
        self.output.process_resize(x, y);
    }

    /// Handles one input event. A resize to a size without columns or rows is
    /// refused and changes nothing.
    pub fn process_event(&mut self, event: Event) -> (r: Result<ControlSignal, SizeError>)
        ensures
            match event {
                Event::Key(key) => {
                    &&& r == Ok::<ControlSignal, SizeError>(
                        key_outcome(old(self).output.cursor_controller, key, old(self).output.editor_rows@.len()).0,
                    )
                    &&& final(self).output.cursor_controller == key_outcome(
                        old(self).output.cursor_controller,
                        key,
                        old(self).output.editor_rows@.len(),
                    ).1
                    &&& final(self).output.win_size == old(self).output.win_size
                },
                Event::Resize(w, h) => if w == 0 || h == 0 {
                    &&& r == Err::<ControlSignal, SizeError>(SizeError::Degenerate)
                    &&& final(self).output.cursor_controller == old(self).output.cursor_controller
                    &&& final(self).output.win_size == old(self).output.win_size
                } else {
                    &&& r == Ok::<ControlSignal, SizeError>(ControlSignal::Continue)
                    &&& final(self).output.cursor_controller == resized(
                        old(self).output.cursor_controller,
                        w as usize,
                        h as usize,
                    )
                    &&& final(self).output.win_size == (w as usize, h as usize)
                },
                Event::Other => {
                    &&& r == Ok::<ControlSignal, SizeError>(ControlSignal::Continue)
                    &&& final(self).output.cursor_controller == old(self).output.cursor_controller
                    &&& final(self).output.win_size == old(self).output.win_size
                },
            },
            old(self).output.wf() ==> final(self).output.wf(),
            final(self).output.editor_rows@ == old(self).output.editor_rows@,
            final(self).output.editor_contents@ == old(self).output.editor_contents@,
    {
        match event {
            Event::Resize(w, h) => {
                match window_size(w, h) {
                    Ok(size) => {
                        self.process_resize(size.0, size.1);
                        Ok(ControlSignal::Continue)
                    },
                    Err(e) => Err(e),
                }
            },
            Event::Key(key) => Ok(self.process_keypress(key)),
            Event::Other => Ok(ControlSignal::Continue),
        }
    }
}

/// The quit chord ends the session whatever state the viewer is in, and
/// leaves that state as it was.
pub proof fn lemma_quit_idempotent(c: CursorController, key: KeyEvent, number_of_rows: nat)
    requires
        is_quit(key),
    ensures
        key_outcome(c, key, number_of_rows) == (ControlSignal::Quit, c),
{
}

} // verus!
