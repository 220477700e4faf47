//! Terminal control sequences and text styling, as text.
//!
//! Every function here is a thin call into `crossterm`; its contract is
//! believed, not proved. The sequences are the ANSI codes that `crossterm`
//! writes for each command.

use crate::text::wraps;
use crossterm::cursor::{Hide, MoveToColumn, MoveUp, Show};
use crossterm::style::Stylize;
use crossterm::terminal::{Clear, ClearType};
use crossterm::Command;
use vstd::prelude::*;

verus! {

/// The control sequence introducer, `ESC [`.
pub open spec fn csi() -> Seq<char> {
    seq!['\u{1b}', '[']
}

/// The character of one decimal digit.
pub open spec fn digit(d: nat) -> char {
    if d == 0 {
        '0'
    } else if d == 1 {
        '1'
    } else if d == 2 {
        '2'
    } else if d == 3 {
        '3'
    } else if d == 4 {
        '4'
    } else if d == 5 {
        '5'
    } else if d == 6 {
        '6'
    } else if d == 7 {
        '7'
    } else if d == 8 {
        '8'
    } else {
        '9'
    }
}

/// `n` in decimal, without sign or leading zeros.
pub open spec fn decimal(n: nat) -> Seq<char>
    decreases n,
{
    if n < 10 {
        seq![digit(n)]
    } else {
        decimal(n / 10).push(digit(n % 10))
    }
}

/// The sequence that moves the cursor `n` rows up.
pub open spec fn move_up_code(n: nat) -> Seq<char> {
    csi() + decimal(n) + seq!['A']
}

/// The sequence that moves the cursor to column `col`, counted from 0.
pub open spec fn move_to_column_code(col: nat) -> Seq<char> {
    csi() + decimal(col + 1) + seq!['G']
}

/// The sequence that clears the line the cursor is on.
pub open spec fn clear_line_code() -> Seq<char> {
    csi() + seq!['2', 'K']
}

/// The sequence that clears from the cursor to the end of the screen.
pub open spec fn clear_down_code() -> Seq<char> {
    csi() + seq!['J']
}

/// The sequence that hides the cursor.
pub open spec fn hide_code() -> Seq<char> {
    csi() + seq!['?', '2', '5', 'l']
}

/// The sequence that shows the cursor.
pub open spec fn show_code() -> Seq<char> {
    csi() + seq!['?', '2', '5', 'h']
}

/// `shown` is what styling `text` gives: the text with sequences around
/// it; or nothing, on a console that takes no sequences, where the style
/// is set by other means and the text is left to the caller.
pub open spec fn styled(shown: Seq<char>, text: Seq<char>) -> bool {
    shown.len() == 0 || wraps(shown, text)
}

/// Which part of the screen to clear.
#[derive(Clone, Copy, Debug, PartialEq, Eq, Structural)]
pub enum Region {
    /// The line the cursor is on.
    Line,
    /// From the cursor to the end of the screen.
    Below,
}

/// The sequence that clears `region`.
pub open spec fn clear_code(region: Region) -> Seq<char> {
    match region {
        Region::Line => clear_line_code(),
        Region::Below => clear_down_code(),
    }
}

/// Calls `MoveUp(n).write_ansi`. `crossterm` writes `ESC [`, `n` in decimal
/// and `A`.
#[verifier::external_body]
pub(crate) fn move_up(n: u16) -> (r: String)
    ensures
        r@ == move_up_code(n as nat),
{
    let mut out = String::new();
    let _ = MoveUp(n).write_ansi(&mut out);
    out
}

/// Calls `MoveToColumn(col).write_ansi`. `crossterm` writes `ESC [`,
/// `col + 1` in decimal and `G`; it computes `col + 1` in 16 bits, so the
/// last column is left out.
#[verifier::external_body]
pub(crate) fn move_to_column(col: u16) -> (r: String)
    requires
        col < u16::MAX,
    ensures
        r@ == move_to_column_code(col as nat),
{
    let mut out = String::new();
    let _ = MoveToColumn(col).write_ansi(&mut out);
    out
}

/// Calls `Clear(..).write_ansi` with `ClearType::CurrentLine` or
/// `ClearType::FromCursorDown`. `crossterm` writes `ESC [ 2 K` for the
/// first and `ESC [ J` for the second.
#[verifier::external_body]
pub(crate) fn clear(region: Region) -> (r: String)
    ensures
        r@ == clear_code(region),
{
    let kind = match region {
        Region::Line => ClearType::CurrentLine,
        Region::Below => ClearType::FromCursorDown,
    };
    let mut out = String::new();
    let _ = Clear(kind).write_ansi(&mut out);
    out
}

/// Calls `Hide.write_ansi`. `crossterm` writes `ESC [ ? 2 5 l`.
#[verifier::external_body]
pub(crate) fn hide_cursor() -> (r: String)
    ensures
        r@ == hide_code(),
{
    let mut out = String::new();
    let _ = Hide.write_ansi(&mut out);
    out
}

/// Calls `Show.write_ansi`. `crossterm` writes `ESC [ ? 2 5 h`.
#[verifier::external_body]
pub(crate) fn show_cursor() -> (r: String)
    ensures
        r@ == show_code(),
{
    let mut out = String::new();
    let _ = Show.write_ansi(&mut out);
    out
}

/// Renders `text.green().bold()` through its `Display`. Where the console takes
/// sequences `crossterm` writes some, by the `NO_COLOR` variable among
/// others, then the text unchanged, then some more; where it takes none,
/// `crossterm` writes nothing.
#[verifier::external_body]
pub(crate) fn green_bold(text: &str) -> (r: String)
    ensures
        styled(r@, text@),
{
    text.green().bold().to_string()
}

/// Renders `text.white().bold()` through its `Display`. Where the console takes
/// sequences `crossterm` writes some, by the `NO_COLOR` variable among
/// others, then the text unchanged, then some more; where it takes none,
/// `crossterm` writes nothing.
#[verifier::external_body]
pub(crate) fn white_bold(text: &str) -> (r: String)
    ensures
        styled(r@, text@),
{
    text.white().bold().to_string()
}

/// Renders `text.dark_grey()` through its `Display`. Where the console takes
/// sequences `crossterm` writes some, by the `NO_COLOR` variable among
/// others, then the text unchanged, then some more; where it takes none,
/// `crossterm` writes nothing.
#[verifier::external_body]
pub(crate) fn dark_grey(text: &str) -> (r: String)
    ensures
        styled(r@, text@),
{
    text.dark_grey().to_string()
}

} // verus!
