use crate::utils::{decimal_text, push_char, push_decimal};
use vstd::prelude::*;

verus! {

/// The key of a key press, without its modifiers.
#[derive(Clone, Copy, Debug, PartialEq, Eq, Hash, Structural)]
pub enum KeyCode {
    Backspace,
    Enter,
    Left,
    Right,
    Up,
    Down,
    Home,
    End,
    PageUp,
    PageDown,
    Tab,
    BackTab,
    Delete,
    Insert,
    F(u8),
    Char(char),
    Null,
    Esc,
}

/// The modifier keys held during a key press.
#[derive(Clone, Copy, Debug, PartialEq, Eq, Hash, Structural)]
pub struct KeyModifiers {
    pub control: bool,
    pub alt: bool,
    pub shift: bool,
}

/// One normalized key press.
#[derive(Clone, Copy, Debug, PartialEq, Eq, Hash, Structural)]
pub struct KeyEvent {
    pub code: KeyCode,
    pub modifiers: KeyModifiers,
}

/// One of the three modifier keys.
#[derive(Clone, Copy, Debug, PartialEq, Eq, Structural)]
pub enum Modifier {
    Control,
    Alt,
    Shift,
}

impl KeyModifiers {
    pub open spec fn none() -> KeyModifiers {
        KeyModifiers { control: false, alt: false, shift: false }
    }

    /// No modifier held.
    pub fn empty() -> (r: KeyModifiers)
        ensures
            r == KeyModifiers::none(),
    {
        KeyModifiers { control: false, alt: false, shift: false }
    }

    /// Whether no modifier is held.
    pub fn is_empty(&self) -> (r: bool)
        ensures
            r == (*self == KeyModifiers::none()),
    {
        !self.control && !self.alt && !self.shift
    }
}

/// The modifier that a name part stands for, by its first character:
/// `c` control, `s` shift, `m` or `a` alt, in either case.
pub open spec fn modifier_of(c: char) -> Option<Modifier> {
    if c == 'c' || c == 'C' {
        Some(Modifier::Control)
    } else if c == 's' || c == 'S' {
        Some(Modifier::Shift)
    } else if c == 'm' || c == 'M' || c == 'a' || c == 'A' {
        Some(Modifier::Alt)
    } else {
        None
    }
}

/// The index of the last `-` in `s`, or -1 if there is none.
pub open spec fn last_dash(s: Seq<char>) -> int
    decreases s.len(),
{
    if s.len() == 0 {
        -1
    } else if s.last() == '-' {
        s.len() - 1
    } else {
        last_dash(s.drop_last())
    }
}

/// Position `p` starts a part of `s` before the last `-`, and that part names `m`.
pub open spec fn modifier_at(s: Seq<char>, p: int, m: Modifier) -> bool {
    &&& 0 <= p < last_dash(s)
    &&& (p == 0 || s[p - 1] == '-')
    &&& modifier_of(s[p]) == Some(m)
}

pub open spec fn names_modifier(s: Seq<char>, m: Modifier) -> bool {
    exists|p: int| #[trigger] modifier_at(s, p, m)
}

/// The modifiers named by the parts of a key name before its last `-`;
/// a part that names no modifier is ignored.
pub open spec fn modifiers_of(s: Seq<char>) -> KeyModifiers {
    KeyModifiers {
        control: names_modifier(s, Modifier::Control),
        alt: names_modifier(s, Modifier::Alt),
        shift: names_modifier(s, Modifier::Shift),
    }
}

/// `c` is the lower-case ASCII letter `n`, or its upper case.
pub open spec fn same_letter(c: char, n: char) -> bool {
    c == n || ('a' <= n <= 'z' && (c as u32) + 32 == (n as u32))
}

/// `t` spells the lower-case name `n`, ignoring ASCII case.
pub open spec fn same_name(t: Seq<char>, n: Seq<char>) -> bool {
    t.len() == n.len() && forall|i: int| 0 <= i < t.len() ==> same_letter(t[i], n[i])
}

pub open spec fn is_digit(c: char) -> bool {
    '0' <= c <= '9'
}

pub open spec fn digits_value(d: Seq<char>) -> nat
    decreases d.len(),
{
    if d.len() == 0 {
        0
    } else {
        digits_value(d.drop_last()) * 10 + ((d.last() as u32) - 48) as nat
    }
}

pub open spec fn all_digits(b: Seq<char>) -> bool {
    forall|i: int| 0 <= i < b.len() ==> is_digit(#[trigger] b[i])
}

/// `d` without a leading `+`, if it has one.
pub open spec fn unsigned_part(d: Seq<char>) -> Seq<char> {
    if d.len() > 0 && d[0] == '+' {
        d.drop_first()
    } else {
        d
    }
}

/// A byte written in decimal: an optional `+`, then one or more digits,
/// of value at most 255.
pub open spec fn decimal_u8(d: Seq<char>) -> Option<u8> {
    let b = unsigned_part(d);
    if b.len() > 0 && all_digits(b) && digits_value(b) <= 255 {
        Some(digits_value(b) as u8)
    } else {
        None
    }
}

/// The key that the last part of a key name stands for: a single ASCII
/// character stands for itself; longer names are matched ignoring ASCII case.
pub open spec fn code_of(t: Seq<char>) -> Option<KeyCode> {
    if t.len() == 0 {
        None
    } else if t.len() == 1 {
        if (t[0] as u32) < 128 {
            Some(KeyCode::Char(t[0]))
        } else {
            None
        }
    } else if same_name(t, "up"@) {
        Some(KeyCode::Up)
    } else if same_name(t, "down"@) {
        Some(KeyCode::Down)
    } else if same_name(t, "left"@) {
        Some(KeyCode::Left)
    } else if same_name(t, "right"@) {
        Some(KeyCode::Right)
    } else if same_name(t, "pageup"@) {
        Some(KeyCode::PageUp)
    } else if same_name(t, "pagedown"@) {
        Some(KeyCode::PageDown)
    } else if same_name(t, "home"@) {
        Some(KeyCode::Home)
    } else if same_name(t, "end"@) {
        Some(KeyCode::End)
    } else if same_name(t, "backspace"@) {
        Some(KeyCode::Backspace)
    } else if same_name(t, "delete"@) {
        Some(KeyCode::Delete)
    } else if same_name(t, "insert"@) {
        Some(KeyCode::Insert)
    } else if same_name(t, "enter"@) {
        Some(KeyCode::Enter)
    } else if same_name(t, "tab"@) {
        Some(KeyCode::Tab)
    } else if same_name(t, "backtab"@) {
        Some(KeyCode::BackTab)
    } else if same_name(t, "esc"@) {
        Some(KeyCode::Esc)
    } else if t[0] == 'f' || t[0] == 'F' {
        match decimal_u8(t.drop_first()) {
            Some(i) => Some(KeyCode::F(i)),
            None => None,
        }
    } else {
        None
    }
}

/// The key event named by `s`: modifier parts and a key, joined by `-`
/// (`c-q`, `C-a-c`, `pagedown`, `c-f3`).
pub open spec fn parse_spec(s: Seq<char>) -> Option<KeyEvent> {
    match code_of(s.subrange(last_dash(s) + 1, s.len() as int)) {
        Some(c) => Some(KeyEvent { code: c, modifiers: modifiers_of(s) }),
        None => None,
    }
}

fn chars_of(s: &str) -> (r: Vec<char>)
    ensures
        r@ == s@,
{
    let n = s.unicode_len();
    let mut r: Vec<char> = Vec::new();
    let mut i: usize = 0;
    while i < n
        invariant
            n == s@.len(),
            i <= n,
            r@ == s@.subrange(0, i as int),
        decreases n - i,
    {
        r.push(s.get_char(i));
        i = i + 1;
        assert(r@ =~= s@.subrange(0, i as int));
    }
    assert(r@ =~= s@);
    r
}

fn find_last_dash(t: &Vec<char>) -> (r: Option<usize>)
    ensures
        match r {
            Some(i) => i as int == last_dash(t@),
            None => last_dash(t@) == -1,
        },
{
    let mut r: Option<usize> = None;
    let mut i: usize = 0;
    while i < t.len()
        invariant
            i <= t@.len(),
            match r {
                Some(j) => j as int == last_dash(t@.subrange(0, i as int)),
                None => last_dash(t@.subrange(0, i as int)) == -1,
            },
        decreases t@.len() - i,
    {
        assert(t@.subrange(0, i + 1).drop_last() =~= t@.subrange(0, i as int));
        if t[i] == '-' {
            r = Some(i);
        }
        i = i + 1;
    }
    assert(t@.subrange(0, i as int) =~= t@);
    r
}

fn is_name(t: &Vec<char>, name: &str) -> (r: bool)
    ensures
        r == same_name(t@, name@),
{
    let n = name.unicode_len();
    if t.len() != n {
        return false;
    }
    let mut i: usize = 0;
    while i < n
        invariant
            n == name@.len(),
            n == t@.len(),
            i <= n,
            forall|k: int| 0 <= k < i ==> same_letter(t@[k], name@[k]),
        decreases n - i,
    {
        let c = t[i];
        let m = name.get_char(i);
        if !(c == m || ('a' <= m && m <= 'z' && (c as u32) == (m as u32) - 32)) {
            return false;
        }
        i = i + 1;
    }
    true
}

fn parse_decimal_u8(d: &Vec<char>, from: usize) -> (r: Option<u8>)
    requires
        from <= d@.len(),
    ensures
        r == decimal_u8(d@.subrange(from as int, d@.len() as int)),
{
    let ghost whole = d@.subrange(from as int, d@.len() as int);
    let mut start = from;
    if start < d.len() && d[start] == '+' {
        start = start + 1;
    }
    let ghost b = d@.subrange(start as int, d@.len() as int);
    assert(b =~= unsigned_part(whole));
    if start == d.len() {
        assert(b.len() == 0);
        return None;
    }
    let mut acc: u32 = 0;
    let mut i: usize = start;
    while i < d.len()
        invariant
            start <= i <= d@.len(),
            b == d@.subrange(start as int, d@.len() as int),
            whole == d@.subrange(from as int, d@.len() as int),
            b == unsigned_part(whole),
            forall|k: int| start <= k < i ==> is_digit(#[trigger] d@[k]),
            acc as nat == if digits_value(d@.subrange(start as int, i as int)) < 256 {
                digits_value(d@.subrange(start as int, i as int))
            } else {
                256
            },
        decreases d@.len() - i,
    {
        let c = d[i];
        if !('0' <= c && c <= '9') {
            assert(!is_digit(b[i - start]));
            assert(!all_digits(b));
            return None;
        }
        let ghost prev = d@.subrange(start as int, i as int);
        assert(d@.subrange(start as int, i + 1).drop_last() =~= prev);
        let v = (c as u32) - 48;
        if acc >= 26 {
            acc = 256;
        } else {
            acc = acc * 10 + v;
            if acc > 256 {
                acc = 256;
            }
        }
        i = i + 1;
    }
    assert(d@.subrange(start as int, i as int) =~= b);
    assert forall|k: int| 0 <= k < b.len() implies is_digit(#[trigger] b[k]) by {
        assert(b[k] == d@[start + k]);
    }
    if acc <= 255 {
        Some(acc as u8)
    } else {
        None
    }
}

fn code_of_part(t: &Vec<char>, from: usize) -> (r: Option<KeyCode>)
    requires
        from <= t@.len(),
    ensures
        r == code_of(t@.subrange(from as int, t@.len() as int)),
{
    let ghost p = t@.subrange(from as int, t@.len() as int);
    let mut part: Vec<char> = Vec::new();
    let mut i: usize = from;
    while i < t.len()
        invariant
            from <= i <= t@.len(),
            part@ == t@.subrange(from as int, i as int),
        decreases t@.len() - i,
    {
        part.push(t[i]);
        i = i + 1;
        assert(part@ =~= t@.subrange(from as int, i as int));
    }
    assert(part@ =~= p);
    let n = part.len();
    if n == 0 {
        None
    } else if n == 1 {
        if (part[0] as u32) < 128 {
            Some(KeyCode::Char(part[0]))
        } else {
            None
        }
    } else if is_name(&part, "up") {
        Some(KeyCode::Up)
    } else if is_name(&part, "down") {
        Some(KeyCode::Down)
    } else if is_name(&part, "left") {
        Some(KeyCode::Left)
    } else if is_name(&part, "right") {
        Some(KeyCode::Right)
    } else if is_name(&part, "pageup") {
        Some(KeyCode::PageUp)
    } else if is_name(&part, "pagedown") {
        Some(KeyCode::PageDown)
    } else if is_name(&part, "home") {
        Some(KeyCode::Home)
    } else if is_name(&part, "end") {
        Some(KeyCode::End)
    } else if is_name(&part, "backspace") {
        Some(KeyCode::Backspace)
    } else if is_name(&part, "delete") {
        Some(KeyCode::Delete)
    } else if is_name(&part, "insert") {
        Some(KeyCode::Insert)
    } else if is_name(&part, "enter") {
        Some(KeyCode::Enter)
    } else if is_name(&part, "tab") {
        Some(KeyCode::Tab)
    } else if is_name(&part, "backtab") {
        Some(KeyCode::BackTab)
    } else if is_name(&part, "esc") {
        Some(KeyCode::Esc)
    } else if part[0] == 'f' || part[0] == 'F' {
        assert(part@.subrange(1, n as int) =~= part@.drop_first());
        match parse_decimal_u8(&part, 1) {
            Some(v) => Some(KeyCode::F(v)),
            None => None,
        }
    } else {
        None
    }
}

fn modifiers_before(t: &Vec<char>, end: usize) -> (r: KeyModifiers)
    requires
        end as int == last_dash(t@),
    ensures
        r == modifiers_of(t@),
{
    proof {
        lemma_last_dash_bounds(t@);
    }
    let mut m = KeyModifiers::empty();
    let mut i: usize = 0;
    while i < end
        invariant
            end as int == last_dash(t@),
            end < t@.len(),
            i <= end,
            m.control <==> exists|p: int| p < i && #[trigger] modifier_at(t@, p, Modifier::Control),
            m.alt <==> exists|p: int| p < i && #[trigger] modifier_at(t@, p, Modifier::Alt),
            m.shift <==> exists|p: int| p < i && #[trigger] modifier_at(t@, p, Modifier::Shift),
        decreases end - i,
    {
        if i == 0 || t[i - 1] == '-' {
            let c = t[i];
            if c == 'c' || c == 'C' {
                m.control = true;
                assert(modifier_at(t@, i as int, Modifier::Control));
            } else if c == 's' || c == 'S' {
                m.shift = true;
                assert(modifier_at(t@, i as int, Modifier::Shift));
            } else if c == 'm' || c == 'M' || c == 'a' || c == 'A' {
                m.alt = true;
                assert(modifier_at(t@, i as int, Modifier::Alt));
            }
        }
        i = i + 1;
    }
    m
}

proof fn lemma_last_dash_bounds(s: Seq<char>)
    ensures
        -1 <= last_dash(s) < s.len(),
        last_dash(s) >= 0 ==> s[last_dash(s)] == '-',
    decreases s.len(),
{
    if s.len() > 0 && s.last() != '-' {
        lemma_last_dash_bounds(s.drop_last());
    }
}

/// Parses a key name such as `c-q` or `pagedown`.
pub fn parse(s: &str) -> (r: Option<KeyEvent>)
    ensures
        r == parse_spec(s@),
{
    let t = chars_of(s);
    proof {
        lemma_last_dash_bounds(t@);
    }
    let (from, m) = match find_last_dash(&t) {
        Some(d) => (d + 1, modifiers_before(&t, d)),
        None => {
            assert forall|p: int| !modifier_at(t@, p, Modifier::Control) && !modifier_at(
                t@,
                p,
                Modifier::Alt,
            ) && !modifier_at(t@, p, Modifier::Shift) by {}
            (0, KeyModifiers::empty())
        },
    };
    match code_of_part(&t, from) {
        Some(c) => Some(KeyEvent { code: c, modifiers: m }),
        None => None,
    }
}

/// Parses a key name that is known to be valid.
pub fn must_parse(s: &str) -> (r: KeyEvent)
    requires
        parse_spec(s@) is Some,
    ensures
        parse_spec(s@) == Some(r),
{
    parse(s).unwrap()
}

/// The name of a key alone, as `display` writes it.
pub open spec fn code_text(c: KeyCode) -> Seq<char> {
    match c {
        KeyCode::Up => "up"@,
        KeyCode::Down => "down"@,
        KeyCode::Left => "left"@,
        KeyCode::Right => "right"@,
        KeyCode::PageUp => "pageup"@,
        KeyCode::PageDown => "pagedown"@,
        KeyCode::Home => "home"@,
        KeyCode::End => "end"@,
        KeyCode::Backspace => "backspace"@,
        KeyCode::Delete => "delete"@,
        KeyCode::Insert => "insert"@,
        KeyCode::Enter => "enter"@,
        KeyCode::Tab => "tab"@,
        KeyCode::BackTab => "backtab"@,
        KeyCode::Esc => "esc"@,
        KeyCode::Null => "null"@,
        KeyCode::Char(c) => seq![c],
        KeyCode::F(i) => "f"@ + decimal_text(i as nat),
    }
}

/// `C-`, `A-`, `S-` for the held modifiers, in that order.
pub open spec fn modifiers_text(m: KeyModifiers) -> Seq<char> {
    (if m.control {
        "C-"@
    } else {
        Seq::empty()
    }) + (if m.alt {
        "A-"@
    } else {
        Seq::empty()
    }) + (if m.shift {
        "S-"@
    } else {
        Seq::empty()
    })
}

pub open spec fn display_spec(k: KeyEvent) -> Seq<char> {
    modifiers_text(k.modifiers) + code_text(k.code)
}

/// The key event as a user reads it, such as `C-A-q` or `f3`.
pub fn display(ke: KeyEvent) -> (r: String)
    ensures
        r@ == display_spec(ke),
{
    let mut out = String::new();
    if ke.modifiers.control {
        out.append("C-");
    }
    if ke.modifiers.alt {
        out.append("A-");
    }
    if ke.modifiers.shift {
        out.append("S-");
    }
    assert(out@ =~= modifiers_text(ke.modifiers));
    match ke.code {
        KeyCode::Up => out.append("up"),
        KeyCode::Down => out.append("down"),
        KeyCode::Left => out.append("left"),
        KeyCode::Right => out.append("right"),
        KeyCode::PageUp => out.append("pageup"),
        KeyCode::PageDown => out.append("pagedown"),
        KeyCode::Home => out.append("home"),
        KeyCode::End => out.append("end"),
        KeyCode::Backspace => out.append("backspace"),
        KeyCode::Delete => out.append("delete"),
        KeyCode::Insert => out.append("insert"),
        KeyCode::Enter => out.append("enter"),
        KeyCode::Tab => out.append("tab"),
        KeyCode::BackTab => out.append("backtab"),
        KeyCode::Esc => out.append("esc"),
        KeyCode::Null => out.append("null"),
        KeyCode::Char(c) => push_char(&mut out, c),
        KeyCode::F(i) => {
            out.append("f");
            push_decimal(&mut out, i as usize);
        },
    }
    assert(out@ =~= display_spec(ke));
    out
}

} // verus!
