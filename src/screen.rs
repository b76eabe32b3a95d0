use crate::utils::{code_point_slice, decimal_text};
use vstd::prelude::*;

verus! {

#[derive(Clone, Copy, Debug, PartialEq, Eq, Structural)]
pub enum Color {
    Blue,
    Black,
}

/// One operation on the terminal, in the order of a frame.
#[derive(Clone, Debug, PartialEq, Eq)]
pub enum DrawOp {
    HideCursor,
    ShowCursor,
    /// Puts the write head at a column and a row.
    MoveTo(u16, u16),
    /// Clears the row of the write head.
    ClearLine,
    Print(String),
    ResetColor,
    Foreground(Color),
    Background(Color),
}

/// A draw operation, with the text it prints as code points.
pub enum Draw {
    HideCursor,
    ShowCursor,
    MoveTo(u16, u16),
    ClearLine,
    Print(Seq<char>),
    ResetColor,
    Foreground(Color),
    Background(Color),
}

impl View for DrawOp {
    type V = Draw;

    open spec fn view(&self) -> Draw {
        match self {
            DrawOp::HideCursor => Draw::HideCursor,
            DrawOp::ShowCursor => Draw::ShowCursor,
            DrawOp::MoveTo(x, y) => Draw::MoveTo(*x, *y),
            DrawOp::ClearLine => Draw::ClearLine,
            DrawOp::Print(s) => Draw::Print(s@),
            DrawOp::ResetColor => Draw::ResetColor,
            DrawOp::Foreground(c) => Draw::Foreground(*c),
            DrawOp::Background(c) => Draw::Background(*c),
        }
    }
}

pub open spec fn draws(ops: Seq<DrawOp>) -> Seq<Draw> {
    ops.map_values(|o: DrawOp| o@)
}

/// Appends a draw operation.
pub(crate) fn push_op(ops: &mut Vec<DrawOp>, op: DrawOp)
    ensures
        draws(final(ops)@) == draws(old(ops)@).push(op@),
{
    ops.push(op);
    assert(draws(ops@) =~= draws(old(ops)@).push(op@));
}

/// One row of text: the part of `line` from column `ox` that fits in a
/// window `wx + 1` columns wide.
pub open spec fn text_row(line: Seq<char>, ox: int, wx: int) -> Seq<Draw> {
    seq![
        Draw::ClearLine,
        Draw::Print(code_point_slice(line, ox, ox + wx + 1)),
        Draw::Print("\r\n"@),
        Draw::ResetColor,
    ]
}

/// The rows of the `k` lines of `lines` from line `from` on.
pub open spec fn text_rows(lines: Seq<Seq<char>>, ox: int, wx: int, from: int, k: nat) -> Seq<
    Draw,
>
    decreases k,
{
    if k == 0 {
        Seq::empty()
    } else {
        text_rows(lines, ox, wx, from, (k - 1) as nat) + text_row(lines[from + k - 1], ox, wx)
    }
}

/// `k` rows past the end of the text, each marked `~`.
pub open spec fn filler_rows(k: nat) -> Seq<Draw>
    decreases k,
{
    if k == 0 {
        Seq::empty()
    } else {
        filler_rows((k - 1) as nat) + seq![Draw::ClearLine, Draw::Print("~\r\n"@)]
    }
}

/// `k` single spaces.
pub open spec fn padding(k: nat) -> Seq<Draw> {
    Seq::new(k, |i: int| Draw::Print(" "@))
}

/// The status line: file name, line number from 1, column from 0, message.
pub open spec fn status_text(name: Seq<char>, cx: int, cy: int, message: Seq<char>) -> Seq<char> {
    "? "@ + name + " "@ + decimal_text((cy + 1) as nat) + ":"@ + decimal_text(cx as nat)
        + " -- "@ + message
}

/// The lines shown in a window of `wy` rows from line `oy` on.
pub open spec fn shown_lines(n: int, oy: int, wy: int) -> int {
    if oy + wy < n {
        wy
    } else {
        n - oy
    }
}

/// The status line across a window `wx + 1` columns wide, as wide as the
/// rows of text: cut to `wx + 1` columns, or padded with spaces up to them.
pub open spec fn status_row(status: Seq<char>, wx: int) -> Seq<Draw> {
    seq![
        Draw::Background(Color::Blue),
        Draw::Foreground(Color::Black),
        Draw::Print(code_point_slice(status, 0, wx + 1)),
    ] + padding(
        if status.len() < wx + 1 {
            (wx + 1 - status.len()) as nat
        } else {
            0
        },
    )
}

/// The draw operations of one frame: the rows of text that the window
/// shows, `~` rows below the end of the text, the status line, and the
/// cursor put back where it is in the window. An empty window draws nothing.
pub open spec fn frame(
    lines: Seq<Seq<char>>,
    cx: int,
    cy: int,
    ox: int,
    oy: int,
    wx: int,
    wy: int,
    status: Seq<char>,
) -> Seq<Draw> {
    if wx == 0 || wy == 0 {
        Seq::empty()
    } else {
        let shown = shown_lines(lines.len() as int, oy, wy);
        seq![Draw::HideCursor, Draw::MoveTo(0, 0)] + text_rows(lines, ox, wx, oy, shown as nat)
            + seq![Draw::Foreground(Color::Blue)] + filler_rows((wy - shown) as nat) + status_row(
            status,
            wx,
        ) + seq![
            Draw::ResetColor,
            Draw::MoveTo((cx - ox) as u16, (cy - oy) as u16),
            Draw::ShowCursor,
        ]
    }
}

} // verus!
