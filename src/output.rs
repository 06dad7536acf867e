//! The screen: its size, the frame buffer, the cursor state and the rows.
use vstd::prelude::*;
use crate::contents::EditorContents;
use crate::cursor::{moved, resized, scrolled, CursorController, Direction};
use crate::render::{banner_row, drawn, frame, row_slice, row_text};
use crate::rows::EditorRows;
use crate::terminal::{clear_line, hide_cursor, move_to, show_cursor};

verus! {

/// The largest number of columns or rows a screen can have.
pub const MAX_SCREEN: usize = 65535;

/// A screen size that the cursor state can be built on.
pub open spec fn valid_size(width: usize, height: usize) -> bool {
    1 <= width <= MAX_SCREEN && 1 <= height <= MAX_SCREEN
}

/// The screen and what is shown on it.
pub struct Output {
    pub win_size: (usize, usize),
    pub editor_contents: EditorContents,
    pub cursor_controller: CursorController,
    pub editor_rows: EditorRows,
}

impl Output {
    /// The cursor bounds agree with the screen size, which fits a terminal.
    pub open spec fn wf(&self) -> bool {
        &&& valid_size(self.win_size.0, self.win_size.1)
        &&& self.cursor_controller.x_max == self.win_size.0 - 1
        &&& self.cursor_controller.y_max == self.win_size.1 - 1
    }

    /// A screen of `win_size` (columns, rows) showing `editor_rows`, cursor at
    /// the origin, nothing composed yet.
    pub fn new(win_size: (usize, usize), editor_rows: EditorRows) -> (r: Output)
        requires
            valid_size(win_size.0, win_size.1),
        ensures
            r.wf(),
            r.win_size == win_size,
            r.cursor_controller == CursorController::new_spec(win_size),
            r.editor_rows@ == editor_rows@,
            r.editor_contents@ == Seq::<char>::empty(),
    {
        Output {
            win_size,
            editor_contents: EditorContents::new(),
            cursor_controller: CursorController::new(win_size),
            editor_rows,
        }
    }

    /// Appends every screen row to the frame buffer.
    pub fn draw_rows(&mut self)
        requires
            old(self).wf(),
        ensures
            final(self).editor_contents@ == old(self).editor_contents@ + drawn(
                old(self).editor_rows@,
                old(self).cursor_controller,
                old(self).win_size.0,
                old(self).win_size.1,
                old(self).win_size.1 as nat,
            ),
            final(self).win_size == old(self).win_size,
            final(self).cursor_controller == old(self).cursor_controller,
            final(self).editor_rows@ == old(self).editor_rows@,
    {
        let screen_columns = self.win_size.0;
        let screen_rows = self.win_size.1;
        let n = self.editor_rows.number_of_rows();
        let row_offset = self.cursor_controller.row_offset;
        let column_offset = self.cursor_controller.column_offset;
        let ghost start = self.editor_contents@;
        let ghost rows = self.editor_rows@;
        let ghost c = self.cursor_controller;
        let mut i: usize = 0;
        while i < screen_rows
            invariant
                i <= screen_rows,
                screen_columns == self.win_size.0,
                screen_rows == self.win_size.1,
                n == rows.len(),
                rows == self.editor_rows@,
                c == self.cursor_controller,
                row_offset == c.row_offset,
                column_offset == c.column_offset,
                self.editor_contents@ == start + drawn(rows, c, screen_columns, screen_rows, i as nat),
            decreases screen_rows - i,
        {
            if row_offset >= n || i >= n - row_offset {
                if n == 0 && i == screen_rows / 3 {
                    let banner = banner_row(screen_columns);
                    self.editor_contents.push_str(banner.as_str());
                } else {
                    self.editor_contents.push('~');
                }
            } else {
                let row = self.editor_rows.get_row(i + row_offset);
                self.editor_contents.push_str(row_slice(row, column_offset, screen_columns));
            }
            assert(self.editor_contents@ == start + drawn(rows, c, screen_columns, screen_rows, i as nat)
                + row_text(rows, c, screen_columns, screen_rows, i as nat));
            let clear = clear_line();
            self.editor_contents.push_str(clear.as_str());
            if i < screen_rows - 1 {
                self.editor_contents.push_str("\r\n");
                proof {
                    reveal_strlit("\r\n");
                }
            }
            i = i + 1;
            assert(self.editor_contents@ =~= start + drawn(rows, c, screen_columns, screen_rows, i as nat));
        }
    }

    /// Moves the cursor one step within the rows shown.
    pub fn move_cursor(&mut self, direction: Direction)
        ensures
            final(self).cursor_controller == moved(
                old(self).cursor_controller,
                direction,
                old(self).editor_rows@.len(),
            ),
            final(self).win_size == old(self).win_size,
            final(self).editor_rows@ == old(self).editor_rows@,
            final(self).editor_contents@ == old(self).editor_contents@,
    {
        let n = self.editor_rows.number_of_rows();
        self.cursor_controller.move_cursor(direction, n);
    }

    /// Scrolls so that the cursor is visible, composes the frame and hands it
    /// out, leaving the buffer empty.
    pub fn refresh_screen(&mut self) -> (r: String)
        requires
            old(self).wf(),
        ensures
            final(self).wf(),
            final(self).cursor_controller == scrolled(old(self).cursor_controller),
            r@ == old(self).editor_contents@ + frame(
                old(self).editor_rows@,
                scrolled(old(self).cursor_controller),
                old(self).win_size.0,
                old(self).win_size.1,
            ),
            final(self).editor_contents@ == Seq::<char>::empty(),
            final(self).win_size == old(self).win_size,
            final(self).editor_rows@ == old(self).editor_rows@,
    {
        self.cursor_controller.scroll();
        let hide = hide_cursor();
        self.editor_contents.push_str(hide.as_str());
        let home = move_to(0, 0);
        self.editor_contents.push_str(home.as_str());
        self.draw_rows();
        let cursor_x = self.cursor_controller.x - self.cursor_controller.column_offset;
        let cursor_y = self.cursor_controller.y - self.cursor_controller.row_offset;
        let place = move_to(cursor_x as u16, cursor_y as u16);
        self.editor_contents.push_str(place.as_str());
        let show = show_cursor();
        self.editor_contents.push_str(show.as_str());
        self.editor_contents.take()
    }

    /// Takes a new screen size: the cursor bounds follow it and the cursor is
    /// clamped into them.
    pub fn process_resize(&mut self, x: usize, y: usize)
        requires
            x >= 1,
            y >= 1,
        ensures
            final(self).win_size == (x, y),
            final(self).cursor_controller == resized(old(self).cursor_controller, x, y),
            valid_size(x, y) ==> final(self).wf(),
            final(self).editor_rows@ == old(self).editor_rows@,
            final(self).editor_contents@ == old(self).editor_contents@,
    {
        self.win_size = (x, y);
        self.cursor_controller.resize(x, y);
    }
}

} // verus!
