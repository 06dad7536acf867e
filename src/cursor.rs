//! Cursor position, viewport extents and scroll offsets.
use vstd::prelude::*;

verus! {

/// One of the four directions the cursor can be moved in.
#[derive(Clone, Copy, Debug, PartialEq, Eq, Structural)]
pub enum Direction {
    Up,
    Down,
    Left,
    Right,
}

/// Cursor position in buffer coordinates, viewport bounds (the largest
/// zero-based column and row on screen) and the scroll offsets.
#[derive(Clone, Copy, Debug, PartialEq, Eq, Structural)]
pub struct CursorController {
    pub x: usize,
    pub y: usize,
    pub x_max: usize,
    pub y_max: usize,
    pub row_offset: usize,
    pub column_offset: usize,
}

/// Where the cursor ends up after one move, with `number_of_rows` rows in the
/// buffer. Down may reach one row past the last one (the append position);
/// Right is not bounded by the row's length, only by the integer type.
pub open spec fn moved(c: CursorController, direction: Direction, number_of_rows: nat) -> CursorController {
    match direction {
        Direction::Up => CursorController { y: if c.y == 0 { 0 } else { (c.y - 1) as usize }, ..c },
        Direction::Down => CursorController { y: if c.y < number_of_rows { (c.y + 1) as usize } else { c.y }, ..c },
        Direction::Left => CursorController { x: if c.x == 0 { 0 } else { (c.x - 1) as usize }, ..c },
        Direction::Right => CursorController { x: if c.x < usize::MAX { (c.x + 1) as usize } else { c.x }, ..c },
    }
}

/// The offset that keeps `pos` on screen: pulled up to `pos` when the cursor
/// is above (or left of) the view, pushed down so that `pos` is the last
/// visible cell when it is below (or right of) it.
pub open spec fn scrolled_offset(offset: usize, pos: usize, max: usize) -> usize {
    let top = if offset < pos { offset } else { pos };
    if pos - top > max { (pos - max) as usize } else { top }
}

/// The state after the per-frame scroll recomputation.
pub open spec fn scrolled(c: CursorController) -> CursorController {
    CursorController {
        row_offset: scrolled_offset(c.row_offset, c.y, c.y_max),
        column_offset: scrolled_offset(c.column_offset, c.x, c.x_max),
        ..c
    }
}

/// The cursor is inside the visible window.
pub open spec fn in_view(c: CursorController) -> bool {
    &&& c.row_offset <= c.y <= c.row_offset + c.y_max
    &&& c.column_offset <= c.x <= c.column_offset + c.x_max
}

/// The state after the viewport is resized to `width` columns and `height`
/// rows: new bounds, and the cursor clamped into them.
pub open spec fn resized(c: CursorController, width: usize, height: usize) -> CursorController {
    let x_max = (width - 1) as usize;
    let y_max = (height - 1) as usize;
    CursorController {
        x_max,
        y_max,
        x: if c.x < x_max { c.x } else { x_max },
        y: if c.y < y_max { c.y } else { y_max },
        ..c
    }
}

impl CursorController {
    /// The state [`CursorController::new`] builds.
    pub open spec fn new_spec(win_size: (usize, usize)) -> CursorController {
        CursorController {
            x: 0,
            y: 0,
            x_max: (win_size.0 - 1) as usize,
            y_max: (win_size.1 - 1) as usize,
            row_offset: 0,
            column_offset: 0,
        }
    }

    /// A cursor at the origin of a `win_size.0` by `win_size.1` viewport.
    pub fn new(win_size: (usize, usize)) -> (r: CursorController)
        requires
            win_size.0 >= 1,
            win_size.1 >= 1,
        ensures
            r == CursorController::new_spec(win_size),
    {
        CursorController {
            x: 0,
            y: 0,
            x_max: win_size.0 - 1,
            y_max: win_size.1 - 1,
            row_offset: 0,
            column_offset: 0,
        }
    }

    /// Moves the cursor one step; moves toward zero saturate.
    pub fn move_cursor(&mut self, direction: Direction, number_of_rows: usize)
        ensures
            *final(self) == moved(*old(self), direction, number_of_rows as nat),
    {
        match direction {
            Direction::Up => self.y = self.y.saturating_sub(1),
            Direction::Down => {
                if self.y < number_of_rows {
                    self.y = self.y + 1;
                }
            },
            Direction::Left => self.x = self.x.saturating_sub(1),
            Direction::Right => self.x = self.x.saturating_add(1),
        }
    }

    /// Adjusts the offsets so that the cursor is visible.
    pub fn scroll(&mut self)
        ensures
            *final(self) == scrolled(*old(self)),
            in_view(*final(self)),
    {
        if self.y < self.row_offset {
            self.row_offset = self.y;
        }
        if self.y - self.row_offset > self.y_max {
            self.row_offset = self.y - self.y_max;
        }
        if self.x < self.column_offset {
            self.column_offset = self.x;
        }
        if self.x - self.column_offset > self.x_max {
            self.column_offset = self.x - self.x_max;
        }
    }

    /// Sets new viewport bounds and clamps the cursor into them.
    pub fn resize(&mut self, width: usize, height: usize)
        requires
            width >= 1,
            height >= 1,
        ensures
            *final(self) == resized(*old(self), width, height),
    {
        self.x_max = width - 1;
        self.y_max = height - 1;
        if self.x > self.x_max {
            self.x = self.x_max;
        }
        if self.y > self.y_max {
            self.y = self.y_max;
        }
    }
}

/// The state after the moves of `moves`, in order.
pub open spec fn moved_along(c: CursorController, moves: Seq<Direction>, number_of_rows: nat) -> CursorController
    decreases moves.len(),
{
    if moves.len() == 0 {
        c
    } else {
        moved(moved_along(c, moves.drop_last(), number_of_rows), moves.last(), number_of_rows)
    }
}

/// How many of `moves` go in direction `d`.
pub open spec fn count_of(moves: Seq<Direction>, d: Direction) -> nat
    decreases moves.len(),
{
    if moves.len() == 0 {
        0
    } else {
        count_of(moves.drop_last(), d) + if moves.last() == d { 1nat } else { 0nat }
    }
}

/// Moves that only go up or left.
pub open spec fn up_left_only(moves: Seq<Direction>) -> bool {
    forall|i: int| 0 <= i < moves.len() ==> #[trigger] moves[i] == Direction::Up || moves[i] == Direction::Left
}

/// Recomputing the scroll offsets always leaves the cursor inside the visible
/// window, whatever moves and resizes led to the state.
pub proof fn lemma_scroll_in_view(c: CursorController)
    ensures
        in_view(scrolled(c)),
{
}

/// Up and left moves, mixed in any order, each take a coordinate one step
/// toward zero until it is there.
proof fn lemma_up_left_steps(c: CursorController, moves: Seq<Direction>, number_of_rows: nat)
    requires
        up_left_only(moves),
    ensures
        moved_along(c, moves, number_of_rows) == (CursorController {
            x: if c.x > count_of(moves, Direction::Left) { (c.x - count_of(moves, Direction::Left)) as usize } else { 0 },
            y: if c.y > count_of(moves, Direction::Up) { (c.y - count_of(moves, Direction::Up)) as usize } else { 0 },
            ..c
        }),
    decreases moves.len(),
{
    if moves.len() > 0 {
        let rest = moves.drop_last();
        assert(moves[moves.len() - 1] == Direction::Up || moves[moves.len() - 1] == Direction::Left);
        assert forall|i: int| 0 <= i < rest.len() implies #[trigger] rest[i] == Direction::Up || rest[i] == Direction::Left by {
            assert(rest[i] == moves[i]);
        }
        lemma_up_left_steps(c, rest, number_of_rows);
    }
}

/// Moving up at least `y` times and left at least `x` times, in any order and
/// followed by any further up or left moves, brings the cursor to the origin
/// and touches nothing else.
pub proof fn lemma_up_left_converge(c: CursorController, moves: Seq<Direction>, number_of_rows: nat)
    requires
        up_left_only(moves),
        count_of(moves, Direction::Up) >= c.y,
        count_of(moves, Direction::Left) >= c.x,
    ensures
        moved_along(c, moves, number_of_rows) == (CursorController { x: 0, y: 0, ..c }),
{
    lemma_up_left_steps(c, moves, number_of_rows);
}

/// Shrinking the viewport clamps the cursor into the new bounds and leaves a
/// coordinate that still fits unchanged.
pub proof fn lemma_resize_clamps(c: CursorController, width: usize, height: usize)
    requires
        width >= 1,
        height >= 1,
    ensures
        resized(c, width, height).x <= resized(c, width, height).x_max == width - 1,
        resized(c, width, height).y <= resized(c, width, height).y_max == height - 1,
        c.x <= width - 1 ==> resized(c, width, height).x == c.x,
        c.y <= height - 1 ==> resized(c, width, height).y == c.y,
        c.x > width - 1 ==> resized(c, width, height).x == width - 1,
        c.y > height - 1 ==> resized(c, width, height).y == height - 1,
        resized(c, width, height).row_offset == c.row_offset,
        resized(c, width, height).column_offset == c.column_offset,
{
}

} // verus!
