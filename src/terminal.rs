//! The terminal control sequences a frame is built from, as crossterm writes
//! them.
use vstd::prelude::*;

verus! {

/// The decimal digit for `d`.
pub open spec fn digit(d: nat) -> char {
    if d == 0 { '0' } else if d == 1 { '1' } else if d == 2 { '2' } else if d == 3 { '3' }
    else if d == 4 { '4' } else if d == 5 { '5' } else if d == 6 { '6' } else if d == 7 { '7' }
    else if d == 8 { '8' } else { '9' }
}

/// `n` written in decimal, without leading zeros.
pub open spec fn decimal(n: nat) -> Seq<char>
    decreases n,
{
    if n < 10 {
        seq![digit(n)]
    } else {
        decimal(n / 10).push(digit(n % 10))
    }
}

/// The control sequence introducer, escape and `[`.
pub open spec fn csi() -> Seq<char> {
    seq!['\x1b', '[']
}

/// Hides the cursor.
pub open spec fn hide_cursor_seq() -> Seq<char> {
    csi() + seq!['?', '2', '5', 'l']
}

/// Shows the cursor.
pub open spec fn show_cursor_seq() -> Seq<char> {
    csi() + seq!['?', '2', '5', 'h']
}

/// Clears from the cursor to the end of the line.
pub open spec fn clear_line_seq() -> Seq<char> {
    csi() + seq!['K']
}

/// Moves the cursor to zero-based `column` and `row`; the sequence itself
/// counts from one, row first.
pub open spec fn move_to_seq(column: nat, row: nat) -> Seq<char> {
    csi() + decimal(row + 1) + seq![';'] + decimal(column + 1) + seq!['H']
}

/// Relies on crossterm's `cursor::Hide`, whose ANSI form is `ESC [ ? 2 5 l`.
#[verifier::external_body]
pub(crate) fn hide_cursor() -> (r: String)
    ensures
        r@ == hide_cursor_seq(),
{
    let mut s = String::new();
    let _ = crossterm::Command::write_ansi(&crossterm::cursor::Hide, &mut s);
    s
}

/// Relies on crossterm's `cursor::Show`, whose ANSI form is `ESC [ ? 2 5 h`.
#[verifier::external_body]
pub(crate) fn show_cursor() -> (r: String)
    ensures
        r@ == show_cursor_seq(),
{
    let mut s = String::new();
    let _ = crossterm::Command::write_ansi(&crossterm::cursor::Show, &mut s);
    s
}

/// Relies on crossterm's `terminal::Clear(ClearType::UntilNewLine)`, whose
/// ANSI form is `ESC [ K`.
#[verifier::external_body]
pub(crate) fn clear_line() -> (r: String)
    ensures
        r@ == clear_line_seq(),
{
    let mut s = String::new();
    let command = crossterm::terminal::Clear(crossterm::terminal::ClearType::UntilNewLine);
    let _ = crossterm::Command::write_ansi(&command, &mut s);
    s
}

/// Relies on crossterm's `cursor::MoveTo(column, row)`, whose ANSI form is
/// `ESC [ {row + 1} ; {column + 1} H`; the additions are made in `u16`, so the
/// largest coordinate is left out.
#[verifier::external_body]
pub(crate) fn move_to(column: u16, row: u16) -> (r: String)
    requires
        column < u16::MAX,
        row < u16::MAX,
    ensures
        r@ == move_to_seq(column as nat, row as nat),
{
    let mut s = String::new();
    let _ = crossterm::Command::write_ansi(&crossterm::cursor::MoveTo(column, row), &mut s);
    s
}

} // verus!
