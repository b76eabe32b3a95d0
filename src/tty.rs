use crate::utils::{decimal_text, push_decimal};
use vstd::prelude::*;

verus! {

/// The size of the terminal window that the editor draws in. The last column
/// and the last row of the window are kept free: `wx` and `wy` are one less
/// than the window's columns and rows, and 0 for a window without any.
#[derive(Clone, Copy, Debug, PartialEq, Eq, Structural)]
pub struct Terminal {
    pub wx: usize,
    pub wy: usize,
}

impl Terminal {
    /// Both sizes come from a window size of 16 bits.
    pub open spec fn wf(&self) -> bool {
        self.wx < 0xffff && self.wy < 0xffff
    }

    /// The terminal of a window of `x` columns and `y` rows.
    pub open spec fn of_size(x: u16, y: u16) -> Terminal {
        Terminal { wx: Terminal::inner(x), wy: Terminal::inner(y) }
    }

    /// One less than `n`, and 0 for 0.
    pub open spec fn inner(n: u16) -> usize {
        if n > 0 {
            (n - 1) as usize
        } else {
            0
        }
    }

    fn inner_size(n: u16) -> (r: usize)
        ensures
            r == Terminal::inner(n),
    {
        if n > 0 {
            n as usize - 1
        } else {
            0
        }
    }

    /// The terminal of a window of `x` columns and `y` rows.
    pub fn new(x: u16, y: u16) -> (r: Terminal)
        ensures
            r == Terminal::of_size(x, y),
            r.wf(),
    {
        Terminal { wx: Terminal::inner_size(x), wy: Terminal::inner_size(y) }
    }

    /// Takes the new size of a window that was resized to `x` by `y`.
    pub fn resize(&mut self, x: u16, y: u16)
        ensures
            *final(self) == Terminal::of_size(x, y),
            final(self).wf(),
    {
        self.wx = Terminal::inner_size(x);
        self.wy = Terminal::inner_size(y);
    }

    pub open spec fn describe_spec(&self) -> Seq<char> {
        "Terminal { wx: "@ + decimal_text(self.wx as nat) + ", wy: "@ + decimal_text(
            self.wy as nat,
        ) + " }"@
    }

    /// The terminal as a line for diagnostics: `Terminal { wx: 79, wy: 23 }`.
    pub fn describe(&self) -> (r: String)
        ensures
            r@ == self.describe_spec(),
    {
        let mut s = String::from_str("Terminal { wx: ");
        push_decimal(&mut s, self.wx);
        s.append(", wy: ");
        push_decimal(&mut s, self.wy);
        s.append(" }");
        s
    }
}

} // verus!
