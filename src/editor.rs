use crate::keys::{display, display_spec, KeyCode, KeyEvent, KeyModifiers};
use crate::tty::Terminal;
use crate::screen::{
    draws, filler_rows, frame, padding, push_op, shown_lines, status_row, status_text, text_row,
    text_rows, Color, Draw, DrawOp,
};
use crate::utils::{code_point_slice, push_decimal, StringUtils};
use crate::viewport::{clamp_offset, paged, paged_from};
use vstd::prelude::*;

verus! {

/// Returned by an update after which the editor is to stop.
pub struct Exit;

#[derive(Clone, Copy, Debug, PartialEq, Eq, Structural)]
pub enum Direction {
    Up,
    Down,
    Left,
    Right,
}

/// What the editor is asked to do.
#[derive(Clone, Copy, Debug, PartialEq, Eq, Structural)]
pub enum Command {
    Nothing,
    InsertCharacter(char),
    Move(Direction),
    MoveTo(usize, usize),
    MovePageUp,
    MovePageDown,
    MoveLineHome,
    MoveLineEnd,
    Erase(Direction),
    Exit,
}

/// The text as lines of code points, and the cursor: `cy` indexes a line
/// and `cx` a code point of it, up to one past its last.
pub struct Buffer {
    pub lines: Seq<Seq<char>>,
    pub cx: int,
    pub cy: int,
}

impl Buffer {
    pub open spec fn wf(self) -> bool {
        &&& self.lines.len() >= 1
        &&& 0 <= self.cy < self.lines.len()
        &&& 0 <= self.cx <= self.lines[self.cy].len()
    }

    pub open spec fn line(self) -> Seq<char> {
        self.lines[self.cy]
    }

    pub open spec fn with_cursor(self, cx: int, cy: int) -> Buffer {
        Buffer { lines: self.lines, cx, cy }
    }

    /// The cursor at column `x` of line `y`, each first brought into range.
    pub open spec fn clamped(self, x: int, y: int) -> Buffer {
        let y1 = if y < self.lines.len() - 1 {
            y
        } else {
            self.lines.len() - 1
        };
        let x1 = if x < self.lines[y1].len() {
            x
        } else {
            self.lines[y1].len() as int
        };
        self.with_cursor(x1, y1)
    }

    /// One step in direction `d`, kept inside the text.
    pub open spec fn moved(self, d: Direction) -> Buffer {
        match d {
            Direction::Left => self.clamped(
                if self.cx > 0 {
                    self.cx - 1
                } else {
                    self.cx
                },
                self.cy,
            ),
            Direction::Right => self.clamped(self.cx + 1, self.cy),
            Direction::Up => self.clamped(
                self.cx,
                if self.cy > 0 {
                    self.cy - 1
                } else {
                    self.cy
                },
            ),
            Direction::Down => self.clamped(self.cx, self.cy + 1),
        }
    }

    /// `ch` typed at the cursor: a newline splits the line in two and puts
    /// the cursor at the start of the second; any other character goes into
    /// the line before the cursor.
    pub open spec fn inserted(self, ch: char) -> Buffer {
        let l = self.line();
        if ch == '\n' {
            Buffer {
                lines: self.lines.update(self.cy, l.subrange(0, self.cx)).insert(
                    self.cy + 1,
                    l.subrange(self.cx, l.len() as int),
                ),
                cx: 0,
                cy: self.cy + 1,
            }
        } else {
            Buffer {
                lines: self.lines.update(
                    self.cy,
                    l.subrange(0, self.cx).push(ch) + l.subrange(self.cx, l.len() as int),
                ),
                cx: self.cx + 1,
                cy: self.cy,
            }
        }
    }

    /// Erasing backward removes the code point before the cursor, or at the
    /// start of a line joins it to the end of the line above; at the top left
    /// it does nothing. Erasing in any other direction does nothing.
    pub open spec fn erased(self, d: Direction) -> Buffer {
        if d == Direction::Left {
            let l = self.line();
            if self.cx > 0 {
                Buffer {
                    lines: self.lines.update(
                        self.cy,
                        l.subrange(0, self.cx - 1) + l.subrange(self.cx, l.len() as int),
                    ),
                    cx: self.cx - 1,
                    cy: self.cy,
                }
            } else if self.cy > 0 {
                let above = self.lines[self.cy - 1];
                Buffer {
                    lines: self.lines.remove(self.cy).update(self.cy - 1, above + l),
                    cx: above.len() as int,
                    cy: self.cy - 1,
                }
            } else {
                self
            }
        } else {
            self
        }
    }

    /// The effect of a command on the text and the cursor; `page` is the
    /// number of lines that a page moves.
    pub open spec fn after(self, cmd: Command, page: int) -> Buffer {
        match cmd {
            Command::InsertCharacter(ch) => self.inserted(ch),
            Command::Move(d) => self.moved(d),
            Command::MoveTo(x, y) => self.clamped(x as int, y as int),
            Command::MovePageUp => self.with_cursor(
                0,
                if self.cy > page {
                    self.cy - page
                } else {
                    0
                },
            ),
            Command::MovePageDown => self.with_cursor(
                0,
                if self.cy + page < self.lines.len() - 1 {
                    self.cy + page
                } else {
                    self.lines.len() - 1
                },
            ),
            Command::MoveLineHome => self.with_cursor(0, self.cy),
            Command::MoveLineEnd => self.with_cursor(
                if self.line().len() > 0 {
                    self.line().len() - 1
                } else {
                    0
                },
                self.cy,
            ),
            Command::Erase(d) => self.erased(d),
            _ => self,
        }
    }
}

/// The text as code points.
pub open spec fn text_of(lines: Seq<String>) -> Seq<Seq<char>> {
    lines.map_values(|l: String| l@)
}

/// What the mouse did.
#[derive(Clone, Copy, Debug, PartialEq, Eq, Structural)]
pub enum MouseKind {
    Down,
    Up,
    Drag,
    ScrollUp,
    ScrollDown,
}

/// One event from the terminal: a key, a new window size in columns and
/// rows, or the mouse at a column and a row.
#[derive(Clone, Copy, Debug, PartialEq, Eq, Structural)]
pub enum InputEvent {
    Key(KeyEvent),
    Resize(u16, u16),
    Mouse(MouseKind, u16, u16),
}

pub open spec fn key_of(code: KeyCode, control: bool, alt: bool) -> KeyEvent {
    KeyEvent { code, modifiers: KeyModifiers { control, alt, shift: false } }
}

/// The key bindings an editor starts with.
pub open spec fn default_keys() -> Seq<(KeyEvent, Command)> {
    seq![
        (key_of(KeyCode::Char('q'), true, false), Command::Exit),
        (key_of(KeyCode::Up, false, false), Command::Move(Direction::Up)),
        (key_of(KeyCode::Down, false, false), Command::Move(Direction::Down)),
        (key_of(KeyCode::Left, false, false), Command::Move(Direction::Left)),
        (key_of(KeyCode::Right, false, false), Command::Move(Direction::Right)),
        (key_of(KeyCode::Char('b'), false, true), Command::Move(Direction::Left)),
        (key_of(KeyCode::Char('f'), false, true), Command::Move(Direction::Right)),
        (key_of(KeyCode::Char('m'), true, false), Command::InsertCharacter('\n')),
        (key_of(KeyCode::Enter, false, false), Command::InsertCharacter('\n')),
        (key_of(KeyCode::PageUp, false, false), Command::MovePageUp),
        (key_of(KeyCode::PageDown, false, false), Command::MovePageDown),
        (key_of(KeyCode::Home, false, false), Command::MoveLineHome),
        (key_of(KeyCode::End, false, false), Command::MoveLineEnd),
        (key_of(KeyCode::Backspace, false, false), Command::Erase(Direction::Left)),
        (key_of(KeyCode::Delete, false, false), Command::Erase(Direction::Right)),
    ]
}

/// No key is bound twice.
pub open spec fn unique_keys(keys: Seq<(KeyEvent, Command)>) -> bool {
    forall|i: int, j: int| 0 <= i < j < keys.len() ==> keys[i].0 != keys[j].0
}

/// The command of the first binding of `k` from index `i` on.
pub open spec fn lookup_from(keys: Seq<(KeyEvent, Command)>, k: KeyEvent, i: int) -> Option<
    Command,
>
    decreases keys.len() - i,
{
    if i < 0 || i >= keys.len() {
        None
    } else if keys[i].0 == k {
        Some(keys[i].1)
    } else {
        lookup_from(keys, k, i + 1)
    }
}

/// The command bound to `k`.
pub open spec fn lookup(keys: Seq<(KeyEvent, Command)>, k: KeyEvent) -> Option<Command> {
    lookup_from(keys, k, 0)
}

/// A key that no binding names and that types no character.
pub open spec fn is_unbound(keys: Seq<(KeyEvent, Command)>, k: KeyEvent) -> bool {
    lookup(keys, k) is None && !(k.modifiers == KeyModifiers::none() && k.code is Char)
}

/// The command for an event: a key goes through the bindings, and an
/// unbound key without modifiers types its character; the mouse moves the
/// cursor where it points, and its wheel turns pages.
pub open spec fn command_for(keys: Seq<(KeyEvent, Command)>, ev: Option<InputEvent>) -> Command {
    match ev {
        Some(InputEvent::Key(k)) => match lookup(keys, k) {
            Some(c) => c,
            None => if k.modifiers == KeyModifiers::none() && k.code is Char {
                Command::InsertCharacter(k.code->Char_0)
            } else {
                Command::Nothing
            },
        },
        Some(InputEvent::Mouse(kind, x, y)) => match kind {
            MouseKind::ScrollUp => Command::MovePageUp,
            MouseKind::ScrollDown => Command::MovePageDown,
            _ => Command::MoveTo(x as usize, y as usize),
        },
        _ => Command::Nothing,
    }
}

/// The terminal after an event: a resize takes the new size.
pub open spec fn terminal_after(t: Terminal, ev: Option<InputEvent>) -> Terminal {
    match ev {
        Some(InputEvent::Resize(x, y)) => Terminal::of_size(x, y),
        _ => t,
    }
}

/// The status message after an event: an unbound key is reported.
pub open spec fn status_after(
    keys: Seq<(KeyEvent, Command)>,
    message: Seq<char>,
    ev: Option<InputEvent>,
) -> Seq<char> {
    match ev {
        Some(InputEvent::Key(k)) => if is_unbound(keys, k) {
            "key not bound: "@ + display_spec(k)
        } else {
            message
        },
        _ => message,
    }
}

/// The editor: the text of one file, its cursor and scroll offset, the
/// status message and the key bindings.
pub struct Editor {
    term: Terminal,
    fname: String,
    lines: Vec<String>,
    cx: usize,
    cy: usize,
    ox: usize,
    oy: usize,
    message: String,
    keys: Vec<(KeyEvent, Command)>,
}

impl Editor {
    pub closed spec fn buffer(&self) -> Buffer {
        Buffer { lines: text_of(self.lines@), cx: self.cx as int, cy: self.cy as int }
    }

    /// The scroll offset: column and line of the top left cell shown.
    pub closed spec fn scroll(&self) -> (int, int) {
        (self.ox as int, self.oy as int)
    }

    pub closed spec fn terminal(&self) -> Terminal {
        self.term
    }

    pub closed spec fn name(&self) -> Seq<char> {
        self.fname@
    }

    pub closed spec fn status(&self) -> Seq<char> {
        self.message@
    }

    pub closed spec fn bindings(&self) -> Seq<(KeyEvent, Command)> {
        self.keys@
    }

    /// The text has a line, the cursor is on it, the window's size fits in
    /// 16 bits, and no key is bound twice.
    pub open spec fn wf(&self) -> bool {
        &&& self.buffer().wf()
        &&& self.terminal().wf()
        &&& unique_keys(self.bindings())
    }

    /// The cursor is inside the window, where the window is not empty.
    pub open spec fn cursor_shown(&self) -> bool {
        &&& self.terminal().wx > 0 ==> self.scroll().0 <= self.buffer().cx < self.scroll().0
            + self.terminal().wx
        &&& self.terminal().wy > 0 ==> self.scroll().1 <= self.buffer().cy < self.scroll().1
            + self.terminal().wy
    }

    fn line_len(&self) -> (n: usize)
        requires
            self.wf(),
        ensures
            n == self.buffer().line().len(),
    {
        self.lines[self.cy].as_str().ulen()
    }

    /// Moves the cursor one step, kept inside the text.
    pub fn exec_cmd_move(&mut self, d: Direction)
        requires
            old(self).wf(),
        ensures
            final(self).wf(),
            final(self).buffer() == old(self).buffer().moved(d),
            final(self).scroll() == old(self).scroll(),
            final(self).terminal() == old(self).terminal(),
            final(self).name() == old(self).name(),
            final(self).status() == old(self).status(),
            final(self).bindings() == old(self).bindings(),
    {
        let len = self.line_len();
        let count = self.lines.len();
        let (x, y) = match d {
            Direction::Left => (
                if self.cx > 0 {
                    self.cx - 1
                } else {
                    self.cx
                },
                self.cy,
            ),
            Direction::Right => (
                if self.cx < len {
                    self.cx + 1
                } else {
                    self.cx
                },
                self.cy,
            ),
            Direction::Up => (
                self.cx,
                if self.cy > 0 {
                    self.cy - 1
                } else {
                    self.cy
                },
            ),
            Direction::Down => (
                self.cx,
                if self.cy + 1 < count {
                    self.cy + 1
                } else {
                    self.cy
                },
            ),
        };
        self.exec_cmd_move_to(x, y);
    }

    /// Puts the cursor at column `x` of line `y`, each first brought into range.
    pub fn exec_cmd_move_to(&mut self, x: usize, y: usize)
        requires
            old(self).wf(),
        ensures
            final(self).wf(),
            final(self).buffer() == old(self).buffer().clamped(x as int, y as int),
            final(self).scroll() == old(self).scroll(),
            final(self).terminal() == old(self).terminal(),
            final(self).name() == old(self).name(),
            final(self).status() == old(self).status(),
            final(self).bindings() == old(self).bindings(),
    {
        let last = self.lines.len() - 1;
        self.cy = if y < last {
            y
        } else {
            last
        };
        let len = self.lines[self.cy].as_str().ulen();
        self.cx = if x < len {
            x
        } else {
            len
        };
    }

    /// Types `ch` at the cursor; a newline splits the line.
    pub fn exec_cmd_insert(&mut self, ch: char)
        requires
            old(self).wf(),
        ensures
            final(self).wf(),
            final(self).buffer() == old(self).buffer().inserted(ch),
            final(self).scroll() == old(self).scroll(),
            final(self).terminal() == old(self).terminal(),
            final(self).name() == old(self).name(),
            final(self).status() == old(self).status(),
            final(self).bindings() == old(self).bindings(),
    {
        let ghost b = self.buffer();
        let ghost l = b.line();
        let line = self.lines[self.cy].clone();
        let len = line.as_str().ulen();
        if ch == '\n' {
            let count = self.lines.len();
            assert(self.cy < count);
            let head = line.as_str().uslice(0, self.cx);
            let tail = line.as_str().uslice(self.cx, len);
            assert(head@ =~= l.subrange(0, b.cx));
            assert(tail@ =~= l.subrange(b.cx, l.len() as int));
            self.lines[self.cy] = head;
            self.cy = self.cy + 1;
            self.lines.insert(self.cy, tail);
            self.cx = 0;
            assert(self.buffer().lines =~= b.inserted(ch).lines);
        } else {
            let mut newline = line.as_str().uslice(0, self.cx);
            crate::utils::push_char(&mut newline, ch);
            let rest = line.as_str().uslice(self.cx, len);
            newline.append(rest.as_str());
            assert(newline@ =~= l.subrange(0, b.cx).push(ch) + l.subrange(b.cx, l.len() as int));
            self.lines[self.cy] = newline;
            assert(self.buffer().lines =~= b.inserted(ch).lines);
            self.exec_cmd_move(Direction::Right);
        }
    }

    /// Erases backward from the cursor; other directions change nothing.
    pub fn exec_cmd_erase(&mut self, d: Direction)
        requires
            old(self).wf(),
        ensures
            final(self).wf(),
            final(self).buffer() == old(self).buffer().erased(d),
            final(self).scroll() == old(self).scroll(),
            final(self).terminal() == old(self).terminal(),
            final(self).name() == old(self).name(),
            final(self).status() == old(self).status(),
            final(self).bindings() == old(self).bindings(),
    {
        let ghost b = self.buffer();
        let ghost l = b.line();
        match d {
            Direction::Left => {
                if self.cx == 0 {
                    if self.cy == 0 {
                        return ;
                    }
                    let line = self.lines.remove(self.cy);
                    self.cy = self.cy - 1;
                    let above = self.lines[self.cy].clone();
                    self.cx = above.as_str().ulen();
                    let mut newline = above;
                    newline.append(line.as_str());
                    self.lines[self.cy] = newline;
                    assert(self.buffer().lines =~= b.erased(d).lines);
                } else {
                    let line = self.lines[self.cy].clone();
                    let len = line.as_str().ulen();
                    let mut newline = line.as_str().uslice(0, self.cx - 1);
                    let rest = line.as_str().uslice(self.cx, len);
                    newline.append(rest.as_str());
                    assert(newline@ =~= l.subrange(0, b.cx - 1) + l.subrange(b.cx, l.len() as int));
                    self.lines[self.cy] = newline;
                    self.cx = self.cx - 1;
                    assert(self.buffer().lines =~= b.erased(d).lines);
                }
            },
            _ => {},
        }
    }
}

/// Typing a newline and then erasing backward from the start of the new
/// line gives back the text and the cursor as they were.
pub proof fn lemma_newline_then_backspace(b: Buffer)
    requires
        b.wf(),
    ensures
        b.inserted('\n').erased(Direction::Left) == b,
{
    let l = b.line();
    let e = b.inserted('\n').erased(Direction::Left);
    assert(l.subrange(0, b.cx) + l.subrange(b.cx, l.len() as int) =~= l);
    assert(e.lines =~= b.lines);
}

/// At the top left, moving left and erasing backward change nothing; on
/// the last line, moving down stays on the last line.
pub proof fn lemma_boundaries(b: Buffer)
    requires
        b.wf(),
    ensures
        b.cx == 0 && b.cy == 0 ==> b.moved(Direction::Left) == b && b.erased(Direction::Left) == b,
        b.cy == b.lines.len() - 1 ==> b.moved(Direction::Down).cy == b.lines.len() - 1,
{
}

fn key(code: KeyCode, control: bool, alt: bool) -> (r: KeyEvent)
    ensures
        r == key_of(code, control, alt),
{
    KeyEvent { code, modifiers: KeyModifiers { control, alt, shift: false } }
}

fn lookup_key(keys: &Vec<(KeyEvent, Command)>, k: &KeyEvent) -> (r: Option<Command>)
    ensures
        r == lookup(keys@, *k),
{
    let mut i: usize = 0;
    while i < keys.len()
        invariant
            i <= keys@.len(),
            lookup_from(keys@, *k, i as int) == lookup(keys@, *k),
        decreases keys@.len() - i,
    {
        if keys[i].0 == *k {
            return Some(keys[i].1);
        }
        i = i + 1;
    }
    None
}

impl Editor {
    fn newkeys() -> (r: Vec<(KeyEvent, Command)>)
        ensures
            r@ == default_keys(),
    {
        let mut keys: Vec<(KeyEvent, Command)> = Vec::new();
        keys.push((key(KeyCode::Char('q'), true, false), Command::Exit));
        keys.push((key(KeyCode::Up, false, false), Command::Move(Direction::Up)));
        keys.push((key(KeyCode::Down, false, false), Command::Move(Direction::Down)));
        keys.push((key(KeyCode::Left, false, false), Command::Move(Direction::Left)));
        keys.push((key(KeyCode::Right, false, false), Command::Move(Direction::Right)));
        keys.push((key(KeyCode::Char('b'), false, true), Command::Move(Direction::Left)));
        keys.push((key(KeyCode::Char('f'), false, true), Command::Move(Direction::Right)));
        keys.push((key(KeyCode::Char('m'), true, false), Command::InsertCharacter('\n')));
        keys.push((key(KeyCode::Enter, false, false), Command::InsertCharacter('\n')));
        keys.push((key(KeyCode::PageUp, false, false), Command::MovePageUp));
        keys.push((key(KeyCode::PageDown, false, false), Command::MovePageDown));
        keys.push((key(KeyCode::Home, false, false), Command::MoveLineHome));
        keys.push((key(KeyCode::End, false, false), Command::MoveLineEnd));
        keys.push((key(KeyCode::Backspace, false, false), Command::Erase(Direction::Left)));
        keys.push((key(KeyCode::Delete, false, false), Command::Erase(Direction::Right)));
        assert(keys@ =~= default_keys());
        keys
    }

    /// An editor on a window of the size of `term`, with one empty line,
    /// the cursor and the offset at the top left, and the default bindings.
    pub fn new(term: Terminal) -> (r: Editor)
        requires
            term.wf(),
        ensures
            r.wf(),
            r.buffer() == (Buffer { lines: seq![Seq::<char>::empty()], cx: 0, cy: 0 }),
            r.scroll() == (0int, 0int),
            r.terminal() == term,
            r.name() == "*scratch*"@,
            r.status() == Seq::<char>::empty(),
            r.bindings() == default_keys(),
    {
        let mut lines: Vec<String> = Vec::new();
        lines.push(String::new());
        let r = Editor {
            cx: 0,
            cy: 0,
            ox: 0,
            oy: 0,
            term: term,
            lines: lines,
            message: String::new(),
            fname: String::from_str("*scratch*"),
            keys: Editor::newkeys(),
        };
        assert(r.buffer().lines =~= seq![Seq::<char>::empty()]);
        r
    }

    /// Loads the lines of a file, and takes its name where it has one. A
    /// file without lines gives one empty line. The cursor goes to the top left.
    pub fn open(&mut self, name: Option<String>, lines: Vec<String>)
        requires
            old(self).wf(),
        ensures
            final(self).wf(),
            final(self).buffer() == (Buffer {
                lines: if lines@.len() == 0 {
                    seq![Seq::<char>::empty()]
                } else {
                    text_of(lines@)
                },
                cx: 0,
                cy: 0,
            }),
            final(self).name() == match name {
                Some(n) => n@,
                None => old(self).name(),
            },
            final(self).scroll() == old(self).scroll(),
            final(self).terminal() == old(self).terminal(),
            final(self).status() == old(self).status(),
            final(self).bindings() == old(self).bindings(),
    {
        let mut lines = lines;
        if lines.len() == 0 {
            lines.push(String::new());
            assert(text_of(lines@) =~= seq![Seq::<char>::empty()]);
        }
        self.lines = lines;
        self.cx = 0;
        self.cy = 0;
        match name {
            Some(n) => {
                self.fname = n;
            },
            None => {},
        }
    }

    /// Sets the status message.
    pub fn set_message(&mut self, message: String)
        ensures
            final(self).status() == message@,
            final(self).buffer() == old(self).buffer(),
            final(self).scroll() == old(self).scroll(),
            final(self).terminal() == old(self).terminal(),
            final(self).name() == old(self).name(),
            final(self).bindings() == old(self).bindings(),
            final(self).wf() == old(self).wf(),
    {
        self.message = message;
    }

    /// The command for an event; a resize takes the new window size, and an
    /// unbound key is reported in the status message.
    pub fn update_input(&mut self, ev: Option<InputEvent>) -> (r: Command)
        requires
            old(self).wf(),
        ensures
            final(self).wf(),
            r == command_for(old(self).bindings(), ev),
            final(self).terminal() == terminal_after(old(self).terminal(), ev),
            final(self).status() == status_after(old(self).bindings(), old(self).status(), ev),
            final(self).buffer() == old(self).buffer(),
            final(self).scroll() == old(self).scroll(),
            final(self).name() == old(self).name(),
            final(self).bindings() == old(self).bindings(),
    {
        match ev {
            None => Command::Nothing,
            Some(InputEvent::Key(k)) => {
                match lookup_key(&self.keys, &k) {
                    Some(c) => c,
                    None => {
                        if k.modifiers.is_empty() {
                            if let KeyCode::Char(c) = k.code {
                                return Command::InsertCharacter(c);
                            }
                        }
                        let mut m = String::from_str("key not bound: ");
                        let d = display(k);
                        m.append(d.as_str());
                        self.message = m;
                        Command::Nothing
                    },
                }
            },
            Some(InputEvent::Resize(x, y)) => {
                self.term.resize(x, y);
                Command::Nothing
            },
            Some(InputEvent::Mouse(kind, x, y)) => match kind {
                MouseKind::ScrollUp => Command::MovePageUp,
                MouseKind::ScrollDown => Command::MovePageDown,
                _ => Command::MoveTo(x as usize, y as usize),
            },
        }
    }

    /// Carries out a command on the text and the cursor; `Exit` is reported.
    pub fn exec_cmd(&mut self, cmd: Command) -> (r: Option<Exit>)
        requires
            old(self).wf(),
        ensures
            final(self).wf(),
            final(self).buffer() == old(self).buffer().after(cmd, old(self).terminal().wy as int),
            r is Some <==> cmd == Command::Exit,
            final(self).scroll() == old(self).scroll(),
            final(self).terminal() == old(self).terminal(),
            final(self).name() == old(self).name(),
            final(self).status() == old(self).status(),
            final(self).bindings() == old(self).bindings(),
    {
        match cmd {
            Command::Nothing => {},
            Command::Exit => {
                return Some(Exit);
            },
            Command::InsertCharacter(ch) => {
                self.exec_cmd_insert(ch);
            },
            Command::Move(d) => {
                self.exec_cmd_move(d);
            },
            Command::MoveTo(x, y) => {
                self.exec_cmd_move_to(x, y);
            },
            Command::MovePageUp => {
                self.cx = 0;
                self.cy = if self.cy > self.term.wy {
                    self.cy - self.term.wy
                } else {
                    0
                };
            },
            Command::MovePageDown => {
                let last = self.lines.len() - 1;
                self.cx = 0;
                self.cy = if last - self.cy > self.term.wy {
                    self.cy + self.term.wy
                } else {
                    last
                };
            },
            Command::MoveLineHome => {
                self.cx = 0;
            },
            Command::MoveLineEnd => {
                let len = self.line_len();
                self.cx = if len > 0 {
                    len - 1
                } else {
                    0
                };
            },
            Command::Erase(d) => {
                self.exec_cmd_erase(d);
            },
        }
        None
    }

    /// Pages the window sideways so that the cursor's column is shown:
    /// from column 0, by pages of 85% of the width, while the cursor is at
    /// least 90% of the width past the offset.
    pub fn scroll_to_cursor(&mut self)
        requires
            old(self).wf(),
        ensures
            final(self).wf(),
            final(self).scroll() == (
                paged(old(self).buffer().cx, old(self).terminal().wx as int),
                old(self).scroll().1,
            ),
            final(self).buffer() == old(self).buffer(),
            final(self).terminal() == old(self).terminal(),
            final(self).name() == old(self).name(),
            final(self).status() == old(self).status(),
            final(self).bindings() == old(self).bindings(),
    {
        let wx = self.term.wx;
        let threshold = wx * 90 / 100;
        let step = wx * 85 / 100;
        proof {
            crate::viewport::lemma_page_sizes(wx as int);
        }
        self.ox = 0;
        while wx >= 2 && step > 0 && self.cx - self.ox >= threshold
            invariant
                self.ox <= self.cx,
                wx == self.term.wx,
                threshold == crate::viewport::page_threshold(wx as int),
                step == crate::viewport::page_step(wx as int),
                step <= threshold,
                paged_from(self.cx as int, wx as int, self.ox as int) == paged(
                    old(self).buffer().cx,
                    wx as int,
                ),
                self.buffer() == old(self).buffer(),
                self.oy == old(self).oy,
                self.term == old(self).term,
                self.fname == old(self).fname,
                self.message == old(self).message,
                self.keys == old(self).keys,
            decreases self.cx - self.ox,
        {
            self.ox = self.ox + step;
        }
    }

    /// Moves the offset the least that shows the cursor, line and column.
    fn show_cursor(&mut self)
        requires
            old(self).wf(),
        ensures
            final(self).wf(),
            final(self).scroll() == (
                clamp_offset(old(self).scroll().0, old(self).buffer().cx, old(self).terminal().wx as int),
                clamp_offset(old(self).scroll().1, old(self).buffer().cy, old(self).terminal().wy as int),
            ),
            final(self).buffer() == old(self).buffer(),
            final(self).terminal() == old(self).terminal(),
            final(self).name() == old(self).name(),
            final(self).status() == old(self).status(),
            final(self).bindings() == old(self).bindings(),
    {
        if self.cy < self.oy {
            self.oy = self.cy;
        }
        if self.cx < self.ox {
            self.ox = self.cx;
        }
        if self.term.wy > 0 && self.cy - self.oy >= self.term.wy {
            self.oy = self.cy - (self.term.wy - 1);
        }
        if self.term.wx > 0 && self.cx - self.ox >= self.term.wx {
            self.ox = self.cx - (self.term.wx - 1);
        }
    }
}

impl Editor {
    /// The draw operations of the frame for the editor as it stands.
    pub open spec fn screen(&self) -> Seq<Draw> {
        frame(
            self.buffer().lines,
            self.buffer().cx,
            self.buffer().cy,
            self.scroll().0,
            self.scroll().1,
            self.terminal().wx as int,
            self.terminal().wy as int,
            status_text(self.name(), self.buffer().cx, self.buffer().cy, self.status()),
        )
    }

    fn status_line(&self) -> (r: String)
        requires
            self.wf(),
        ensures
            r@ == status_text(self.name(), self.buffer().cx, self.buffer().cy, self.status()),
    {
        let count = self.lines.len();
        let mut status = String::from_str("? ");
        status.append(self.fname.as_str());
        status.append(" ");
        assert(self.cy < count);
        push_decimal(&mut status, self.cy + 1);
        status.append(":");
        push_decimal(&mut status, self.cx);
        status.append(" -- ");
        status.append(self.message.as_str());
        status
    }

    fn draw_frame(&self) -> (ops: Vec<DrawOp>)
        requires
            self.wf(),
            self.term.wx > 0,
            self.term.wy > 0,
            self.ox <= self.cx < self.ox + self.term.wx,
            self.oy <= self.cy < self.oy + self.term.wy,
        ensures
            draws(ops@) == self.screen(),
    {
        let wx = self.term.wx;
        let wy = self.term.wy;
        let ghost text = self.buffer().lines;
        let n = self.lines.len();
        let shown = if n - self.oy > wy {
            wy
        } else {
            n - self.oy
        };
        assert(shown as int == shown_lines(n as int, self.oy as int, wy as int));
        let mut ops: Vec<DrawOp> = Vec::new();
        push_op(&mut ops, DrawOp::HideCursor);
        push_op(&mut ops, DrawOp::MoveTo(0, 0));
        let ghost head = seq![Draw::HideCursor, Draw::MoveTo(0, 0)];
        assert(draws(ops@) =~= head);
        let mut k: usize = 0;
        while k < shown
            invariant
                self.wf(),
                text == self.buffer().lines,
                n == text.len(),
                wx == self.term.wx,
                self.oy < n,
                k <= shown <= n - self.oy,
                draws(ops@) == head + text_rows(
                    text,
                    self.ox as int,
                    wx as int,
                    self.oy as int,
                    k as nat,
                ),
            decreases shown - k,
        {
            let ghost before = draws(ops@);
            let line = self.lines[self.oy + k].as_str();
            let len = line.ulen();
            let end = if self.ox < usize::MAX - wx {
                self.ox + wx + 1
            } else {
                len
            };
            assert(code_point_slice(line@, self.ox as int, end as int) == code_point_slice(
                line@,
                self.ox as int,
                self.ox + wx + 1,
            ));
            push_op(&mut ops, DrawOp::ClearLine);
            push_op(&mut ops, DrawOp::Print(line.uslice(self.ox, end)));
            push_op(&mut ops, DrawOp::Print(String::from_str("\r\n")));
            push_op(&mut ops, DrawOp::ResetColor);
            assert(draws(ops@) =~= before + text_row(text[self.oy + k], self.ox as int, wx as int));
            k = k + 1;
            assert(draws(ops@) =~= head + text_rows(
                text,
                self.ox as int,
                wx as int,
                self.oy as int,
                k as nat,
            ));
        }
        push_op(&mut ops, DrawOp::Foreground(Color::Blue));
        let ghost body = head + text_rows(text, self.ox as int, wx as int, self.oy as int, shown as nat)
            + seq![Draw::Foreground(Color::Blue)];
        assert(draws(ops@) =~= body);
        let mut k: usize = 0;
        while k < wy - shown
            invariant
                k <= wy - shown,
                draws(ops@) == body + filler_rows(k as nat),
            decreases wy - shown - k,
        {
            let ghost before = draws(ops@);
            push_op(&mut ops, DrawOp::ClearLine);
            push_op(&mut ops, DrawOp::Print(String::from_str("~\r\n")));
            assert(draws(ops@) =~= before + seq![Draw::ClearLine, Draw::Print("~\r\n"@)]);
            k = k + 1;
            assert(draws(ops@) =~= body + filler_rows(k as nat));
        }
        let ghost fill = body + filler_rows((wy - shown) as nat);
        let status = self.status_line();
        let slen = status.as_str().ulen();
        push_op(&mut ops, DrawOp::Background(Color::Blue));
        push_op(&mut ops, DrawOp::Foreground(Color::Black));
        push_op(&mut ops, DrawOp::Print(status.as_str().uslice(0, wx + 1)));
        let ghost body2 = fill + seq![
            Draw::Background(Color::Blue),
            Draw::Foreground(Color::Black),
            Draw::Print(code_point_slice(status@, 0, wx + 1)),
        ];
        assert(draws(ops@) =~= body2);
        let pad = if slen < wx + 1 {
            wx + 1 - slen
        } else {
            0
        };
        let mut k: usize = 0;
        while k < pad
            invariant
                k <= pad,
                draws(ops@) == body2 + padding(k as nat),
            decreases pad - k,
        {
            let ghost before = draws(ops@);
            push_op(&mut ops, DrawOp::Print(String::from_str(" ")));
            k = k + 1;
            assert(padding(k as nat) =~= padding((k - 1) as nat).push(Draw::Print(" "@)));
            assert(draws(ops@) =~= body2 + padding(k as nat));
        }
        let ghost padded = body2 + padding(pad as nat);
        push_op(&mut ops, DrawOp::ResetColor);
        push_op(&mut ops, DrawOp::MoveTo((self.cx - self.ox) as u16, (self.cy - self.oy) as u16));
        push_op(&mut ops, DrawOp::ShowCursor);
        assert(draws(ops@) =~= padded + seq![
            Draw::ResetColor,
            Draw::MoveTo((self.cx - self.ox) as u16, (self.cy - self.oy) as u16),
            Draw::ShowCursor,
        ]);
        assert(status_row(status@, wx as int) =~= seq![
            Draw::Background(Color::Blue),
            Draw::Foreground(Color::Black),
            Draw::Print(code_point_slice(status@, 0, wx + 1)),
        ] + padding(pad as nat));
        assert(draws(ops@) =~= self.screen());
        ops
    }

    /// Brings the offset to the cursor, then gives the frame to draw.
    pub fn update_screen(&mut self) -> (ops: Vec<DrawOp>)
        requires
            old(self).wf(),
        ensures
            final(self).wf(),
            final(self).scroll() == (
                clamp_offset(old(self).scroll().0, old(self).buffer().cx, old(self).terminal().wx as int),
                clamp_offset(old(self).scroll().1, old(self).buffer().cy, old(self).terminal().wy as int),
            ),
            draws(ops@) == final(self).screen(),
            final(self).cursor_shown(),
            final(self).buffer() == old(self).buffer(),
            final(self).terminal() == old(self).terminal(),
            final(self).name() == old(self).name(),
            final(self).status() == old(self).status(),
            final(self).bindings() == old(self).bindings(),
    {
        self.show_cursor();
        proof {
            if self.term.wx > 0 {
                crate::viewport::lemma_clamp_shows(
                    old(self).scroll().0,
                    self.cx as int,
                    self.term.wx as int,
                );
            }
            if self.term.wy > 0 {
                crate::viewport::lemma_clamp_shows(
                    old(self).scroll().1,
                    self.cy as int,
                    self.term.wy as int,
                );
            }
        }
        if self.term.wy == 0 || self.term.wx == 0 {
            assert(draws(Seq::<DrawOp>::empty()) =~= Seq::<Draw>::empty());
            return Vec::new();
        }
        self.draw_frame()
    }

    /// The first frame.
    pub fn init(&mut self) -> (ops: Vec<DrawOp>)
        requires
            old(self).wf(),
        ensures
            final(self).wf(),
            final(self).scroll() == (
                clamp_offset(old(self).scroll().0, old(self).buffer().cx, old(self).terminal().wx as int),
                clamp_offset(old(self).scroll().1, old(self).buffer().cy, old(self).terminal().wy as int),
            ),
            draws(ops@) == final(self).screen(),
            final(self).cursor_shown(),
            final(self).buffer() == old(self).buffer(),
            final(self).terminal() == old(self).terminal(),
            final(self).name() == old(self).name(),
            final(self).status() == old(self).status(),
            final(self).bindings() == old(self).bindings(),
    {
        self.update_screen()
    }

    /// Handles one event, or none when the wait for one ran out: the
    /// event's command is carried out, the window pages sideways to the
    /// cursor and then moves the least that shows it, and the frame to draw
    /// is returned with `Exit` when the command was to exit.
    pub fn update(&mut self, ev: Option<InputEvent>) -> (r: (Option<Exit>, Vec<DrawOp>))
        requires
            old(self).wf(),
        ensures
            final(self).wf(),
            ({
                let cmd = command_for(old(self).bindings(), ev);
                let t = terminal_after(old(self).terminal(), ev);
                let b = old(self).buffer().after(cmd, t.wy as int);
                &&& r.0 is Some <==> cmd == Command::Exit
                &&& final(self).buffer() == b
                &&& final(self).terminal() == t
                &&& final(self).scroll() == (
                    clamp_offset(paged(b.cx, t.wx as int), b.cx, t.wx as int),
                    clamp_offset(old(self).scroll().1, b.cy, t.wy as int),
                )
                &&& final(self).status() == status_after(
                    old(self).bindings(),
                    old(self).status(),
                    ev,
                )
            }),
            draws(r.1@) == final(self).screen(),
            final(self).cursor_shown(),
            final(self).name() == old(self).name(),
            final(self).bindings() == old(self).bindings(),
    {
        let cmd = self.update_input(ev);
        let status = self.exec_cmd(cmd);
        self.scroll_to_cursor();
        let ops = self.update_screen();
        (status, ops)
    }

    /// The cursor: column, then line.
    pub fn cursor(&self) -> (r: (usize, usize))
        ensures
            r.0 as int == self.buffer().cx,
            r.1 as int == self.buffer().cy,
    {
        (self.cx, self.cy)
    }

    /// The scroll offset: column, then line.
    pub fn offset(&self) -> (r: (usize, usize))
        ensures
            r.0 as int == self.scroll().0,
            r.1 as int == self.scroll().1,
    {
        (self.ox, self.oy)
    }

    pub fn line_count(&self) -> (r: usize)
        ensures
            r == self.buffer().lines.len(),
    {
        self.lines.len()
    }

    /// The line at index `i`.
    pub fn line(&self, i: usize) -> (r: String)
        requires
            i < self.buffer().lines.len(),
        ensures
            r@ == self.buffer().lines[i as int],
    {
        self.lines[i].clone()
    }

    pub fn message(&self) -> (r: String)
        ensures
            r@ == self.status(),
    {
        self.message.clone()
    }

    pub fn file_name(&self) -> (r: String)
        ensures
            r@ == self.name(),
    {
        self.fname.clone()
    }

    pub fn terminal_size(&self) -> (r: Terminal)
        ensures
            r == self.terminal(),
    {
        self.term
    }
}

} // verus!
