//! Composing one frame: visible rows, the welcome banner, control sequences.
use vstd::prelude::*;
use vstd::string::{StrSliceExecFns, StringExecFns};
use crate::cursor::CursorController;
use crate::terminal::{clear_line_seq, hide_cursor_seq, move_to_seq, show_cursor_seq};
use crate::text::{push_char, views};

verus! {

/// The version shown in the welcome banner.
pub const VERSION: &'static str = "1.0.0";

/// What the welcome banner says before the version.
pub const WELCOME_PREFIX: &'static str = "Pound editor -- Version ";

/// The welcome banner's text.
pub open spec fn welcome_seq() -> Seq<char> {
    WELCOME_PREFIX@ + VERSION@
}

/// What textwrap's `wrap` gives for `text` at `width` columns: the lines, in
/// order.
pub uninterp spec fn wrapped_lines(text: Seq<char>, width: usize) -> Seq<Seq<char>>;

/// Relies on `textwrap::wrap`: the wrapped lines of `text` at `width` columns,
/// which depend on the two arguments alone. Its optimal-fit layout scores
/// lines in `i32`, squaring gaps and multiplying overflows by a penalty; on a
/// short text at a narrow width those scores stay far from overflowing, so the
/// inputs are kept to the banner's size.
#[verifier::external_body]
fn wrap_text(text: &str, width: usize) -> (r: Vec<String>)
    requires
        text@.len() <= 29,
        width < 29,
    ensures
        views(r@) == wrapped_lines(text@, width),
{
    textwrap::wrap(text, width).into_iter().map(|line| line.into_owned()).collect()
}

/// The strings written one after another, with nothing between them.
pub open spec fn concat(parts: Seq<Seq<char>>) -> Seq<char>
    decreases parts.len(),
{
    if parts.len() == 0 {
        seq![]
    } else {
        concat(parts.drop_last()) + parts.last()
    }
}

/// `n` spaces.
pub open spec fn spaces(n: nat) -> Seq<char> {
    Seq::new(n, |i: int| ' ')
}

/// The banner centred in `width` columns: half the free space before it,
/// the first cell of which holds the `~` of an empty row.
pub open spec fn centered(width: nat) -> Seq<char> {
    let padding = ((width - welcome_seq().len()) / 2) as nat;
    if padding > 0 {
        seq!['~'] + spaces((padding - 1) as nat) + welcome_seq()
    } else {
        welcome_seq()
    }
}

/// The banner row: centred where the banner fits, else its wrapped lines
/// joined without separators.
pub open spec fn banner(width: usize) -> Seq<char> {
    if welcome_seq().len() > width {
        concat(wrapped_lines(welcome_seq(), width))
    } else {
        centered(width as nat)
    }
}

/// The part of `row` that a `width`-column window at `column_offset` shows.
pub open spec fn visible_part(row: Seq<char>, column_offset: nat, width: nat) -> Seq<char> {
    if column_offset >= row.len() {
        seq![]
    } else if row.len() - column_offset < width {
        row.subrange(column_offset as int, row.len() as int)
    } else {
        row.subrange(column_offset as int, (column_offset + width) as int)
    }
}

/// The content of screen row `i` (before the clear-to-end-of-line marker).
pub open spec fn row_text(rows: Seq<Seq<char>>, c: CursorController, width: usize, height: usize, i: nat) -> Seq<char> {
    let file_row = i + c.row_offset;
    if file_row >= rows.len() {
        if rows.len() == 0 && i == height / 3 {
            banner(width)
        } else {
            seq!['~']
        }
    } else {
        visible_part(rows[file_row as int], c.column_offset as nat, width as nat)
    }
}

/// The first `k` screen rows, each followed by the clear-to-end-of-line
/// marker and, but for the last screen row, a line break.
pub open spec fn drawn(rows: Seq<Seq<char>>, c: CursorController, width: usize, height: usize, k: nat) -> Seq<char>
    decreases k,
{
    if k == 0 {
        seq![]
    } else {
        drawn(rows, c, width, height, (k - 1) as nat) + row_text(rows, c, width, height, (k - 1) as nat)
            + clear_line_seq() + if k < height {
            seq!['\r', '\n']
        } else {
            seq![]
        }
    }
}

/// A whole frame for an already scrolled state: cursor hidden and homed, every
/// screen row, then the cursor placed relative to the offsets and shown.
pub open spec fn frame(rows: Seq<Seq<char>>, c: CursorController, width: usize, height: usize) -> Seq<char> {
    hide_cursor_seq() + move_to_seq(0, 0) + drawn(rows, c, width, height, height as nat)
        + move_to_seq((c.x - c.column_offset) as nat, (c.y - c.row_offset) as nat) + show_cursor_seq()
}

/// The welcome banner's text.
pub fn welcome_message() -> (r: String)
    ensures
        r@ == welcome_seq(),
{
    let s = String::from_str(WELCOME_PREFIX);
    s.concat(VERSION)
}

/// The lines of a wrapped text joined without separators.
pub fn join_segments(segments: &Vec<String>) -> (r: String)
    ensures
        r@ == concat(views(segments@)),
{
    let mut out = String::new();
    let mut i: usize = 0;
    while i < segments.len()
        invariant
            i <= segments@.len(),
            out@ == concat(views(segments@).take(i as int)),
        decreases segments@.len() - i,
    {
        out.append(segments[i].as_str());
        proof {
            assert(views(segments@).take(i + 1).drop_last() =~= views(segments@).take(i as int));
        }
        i = i + 1;
    }
    proof {
        assert(views(segments@).take(i as int) =~= views(segments@));
    }
    out
}

/// The banner row for a screen `width` columns wide.
pub fn banner_row(width: usize) -> (r: String)
    ensures
        r@ == banner(width),
{
    let welcome = welcome_message();
    proof {
        reveal_strlit("Pound editor -- Version ");
        reveal_strlit("1.0.0");
    }
    let len: usize = 29;
    assert(welcome@.len() == len);
    if len > width {
        let segments = wrap_text(welcome.as_str(), width);
        join_segments(&segments)
    } else {
        let mut padding = (width - len) / 2;
        let mut out = String::new();
        if padding != 0 {
            push_char(&mut out, '~');
            padding = padding - 1;
        }
        let ghost start = out@;
        let mut j: usize = 0;
        while j < padding
            invariant
                j <= padding,
                out@ == start + spaces(j as nat),
            decreases padding - j,
        {
            push_char(&mut out, ' ');
            j = j + 1;
            proof {
                assert(out@ =~= start + spaces(j as nat));
            }
        }
        out.append(welcome.as_str());
        assert(out@ =~= centered(width as nat));
        out
    }
}

/// The part of `row` shown in a window `width` columns wide that starts at
/// `column_offset`; empty where the row ends before the window.
pub fn row_slice(row: &str, column_offset: usize, width: usize) -> (r: &str)
    ensures
        r@ == visible_part(row@, column_offset as nat, width as nat),
{
    let n = row.unicode_len();
    if column_offset >= n {
        let r = row.substring_char(0, 0);
        assert(r@ =~= Seq::<char>::empty());
        r
    } else if n - column_offset < width {
        row.substring_char(column_offset, n)
    } else {
        row.substring_char(column_offset, column_offset + width)
    }
}

} // verus!
