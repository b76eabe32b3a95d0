use crate::keys::{KeyCode, KeyEvent, KeyModifiers};
use vstd::prelude::*;
use vstd::utf8::{
    char_u32_cast, decode_first_scalar, encode_utf8, encode_utf8_first_scalar,
    length_of_first_scalar, valid_first_scalar,
};

verus! {

pub const ESC: u8 = 0x1b;

pub const DEL: u8 = 0x7f;

/// The key with no meaning, for input that names no key.
pub open spec fn no_key() -> KeyEvent {
    KeyEvent { code: KeyCode::Null, modifiers: KeyModifiers::none() }
}

pub open spec fn key_with(code: KeyCode, control: bool, alt: bool, shift: bool) -> KeyEvent {
    KeyEvent { code, modifiers: KeyModifiers { control, alt, shift } }
}

/// The key of `ESC [ x` or `ESC O x`, by its last byte `x`; lower-case
/// arrows are the shifted ones.
pub open spec fn csi_key(b: u8) -> Option<KeyEvent> {
    if b == 0x41 {
        Some(key_with(KeyCode::Up, false, false, false))
    } else if b == 0x42 {
        Some(key_with(KeyCode::Down, false, false, false))
    } else if b == 0x43 {
        Some(key_with(KeyCode::Right, false, false, false))
    } else if b == 0x44 {
        Some(key_with(KeyCode::Left, false, false, false))
    } else if b == 0x48 {
        Some(key_with(KeyCode::Home, false, false, false))
    } else if b == 0x46 {
        Some(key_with(KeyCode::End, false, false, false))
    } else if b == 0x61 {
        Some(key_with(KeyCode::Up, false, false, true))
    } else if b == 0x62 {
        Some(key_with(KeyCode::Down, false, false, true))
    } else if b == 0x63 {
        Some(key_with(KeyCode::Right, false, false, true))
    } else if b == 0x64 {
        Some(key_with(KeyCode::Left, false, false, true))
    } else {
        None
    }
}

/// The key of `ESC [ d ~`, by its single digit `d`.
pub open spec fn tilde_key(d: u8) -> Option<KeyCode> {
    if d == 0x31 || d == 0x37 {
        Some(KeyCode::Home)
    } else if d == 0x32 {
        Some(KeyCode::Insert)
    } else if d == 0x33 {
        Some(KeyCode::Delete)
    } else if d == 0x34 || d == 0x38 {
        Some(KeyCode::End)
    } else if d == 0x35 {
        Some(KeyCode::PageUp)
    } else if d == 0x36 {
        Some(KeyCode::PageDown)
    } else {
        None
    }
}

pub open spec fn is_digit_byte(b: u8) -> bool {
    0x30 <= b <= 0x39
}

/// The index of the first byte at or after `i` that is not a digit, or the
/// length of `s`.
pub open spec fn digits_end(s: Seq<u8>, i: int) -> int
    decreases s.len() - i,
{
    if 0 <= i < s.len() && is_digit_byte(s[i]) {
        digits_end(s, i + 1)
    } else {
        i
    }
}

/// The escape sequence `ESC [ digits t` (or with `O`), which starts at the
/// beginning of `s` and has its digits from index 2.
pub open spec fn decode_digits(s: Seq<u8>) -> (KeyEvent, nat) {
    let j = digits_end(s, 2);
    if j >= s.len() {
        (no_key(), s.len())
    } else if j == 3 && (s[3] == 0x7e || s[3] == 0x5e) {
        match tilde_key(s[2]) {
            Some(c) => (key_with(c, s[3] == 0x5e, false, false), 4),
            None => (no_key(), 4),
        }
    } else {
        (no_key(), (j + 1) as nat)
    }
}

/// The key at the start of `s`, the bytes read so far, and how many bytes
/// it takes. Nothing read gives the key with no meaning; an escape that the
/// table does not know gives it too, and is consumed. A byte from 0x80 on
/// that starts the UTF-8 encoding of a character is read with the rest of
/// that encoding as the character; any other is the character of its value.
pub open spec fn decode_spec(s: Seq<u8>) -> (KeyEvent, nat) {
    if s.len() == 0 {
        (no_key(), 0)
    } else if s[0] == ESC {
        if s.len() == 1 {
            (key_with(KeyCode::Esc, false, false, false), 1)
        } else if s[1] == 0x5b || s[1] == 0x4f {
            if s.len() == 2 {
                (no_key(), 2)
            } else if is_digit_byte(s[2]) {
                decode_digits(s)
            } else {
                match csi_key(s[2]) {
                    Some(k) => (k, 3),
                    None => (no_key(), 3),
                }
            }
        } else {
            (key_with(KeyCode::Char(s[1] as char), false, true, false), 2)
        }
    } else if s[0] == DEL {
        (key_with(KeyCode::Backspace, false, false, false), 1)
    } else if s[0] < 0x20 {
        (key_with(KeyCode::Char((s[0] + 0x60) as u8 as char), true, false, false), 1)
    } else if s[0] >= 0x80 && valid_first_scalar(s) {
        (
            key_with(KeyCode::Char(decode_first_scalar(s) as char), false, false, false),
            length_of_first_scalar(s) as nat,
        )
    } else {
        (key_with(KeyCode::Char(s[0] as char), false, false, false), 1)
    }
}

/// Relies on `char::from_u32`: the character of a Unicode scalar value,
/// and none for any other number.
#[verifier::external_body]
fn char_from_u32(u: u32) -> (r: Option<char>)
    ensures
        r is Some <==> (u <= 0x10ffff && !(0xd800 <= u <= 0xdfff)),
        r is Some ==> r->0 as u32 == u,
{
    char::from_u32(u)
}

fn is_continuation(b: u8) -> (r: bool)
    ensures
        r == (0x80 <= b <= 0xbf),
{
    0x80 <= b && b <= 0xbf
}

/// The character whose UTF-8 encoding starts `input`, and its length.
fn decode_utf8_char(input: &[u8]) -> (r: Option<(char, usize)>)
    requires
        input@.len() >= 1,
        input@[0] >= 0x80,
    ensures
        match r {
            Some((c, n)) => valid_first_scalar(input@) && c == decode_first_scalar(input@) as char
                && n as int == length_of_first_scalar(input@),
            None => !valid_first_scalar(input@),
        },
{
    let n = input.len();
    let b0 = input[0];
    let (cp, len): (u32, usize) = if 0xc0 <= b0 && b0 <= 0xdf && n >= 2 && is_continuation(
        input[1],
    ) {
        let b1 = input[1];
        let cp = (((b0 & 0x1F) as u32) << 6) | ((b1 & 0x3f) as u32);
        assert(cp <= 0x7ff) by (bit_vector)
            requires
                cp == (((b0 & 0x1F) as u32) << 6) | ((b1 & 0x3f) as u32),
        ;
        if cp < 0x80 {
            return None;
        }
        (cp, 2)
    } else if 0xe0 <= b0 && b0 <= 0xef && n >= 3 && is_continuation(input[1]) && is_continuation(
        input[2],
    ) {
        let b1 = input[1];
        let b2 = input[2];
        let cp = (((b0 & 0x0F) as u32) << 12) | (((b1 & 0x3f) as u32) << 6) | ((b2 & 0x3f) as u32);
        assert(cp <= 0xffff) by (bit_vector)
            requires
                cp == (((b0 & 0x0F) as u32) << 12) | (((b1 & 0x3f) as u32) << 6) | ((b2
                    & 0x3f) as u32),
        ;
        if cp < 0x800 || (0xd800 <= cp && cp <= 0xdfff) {
            return None;
        }
        (cp, 3)
    } else if 0xf0 <= b0 && b0 <= 0xf7 && n >= 4 && is_continuation(input[1]) && is_continuation(
        input[2],
    ) && is_continuation(input[3]) {
        let b1 = input[1];
        let b2 = input[2];
        let b3 = input[3];
        let cp = (((b0 & 0x07) as u32) << 18) | (((b1 & 0x3f) as u32) << 12) | (((b2 & 0x3f) as u32)
            << 6) | ((b3 & 0x3f) as u32);
        if cp < 0x10000 || cp > 0x10ffff {
            return None;
        }
        (cp, 4)
    } else {
        return None;
    };
    assert(valid_first_scalar(input@));
    assert(cp == decode_first_scalar(input@));
    match char_from_u32(cp) {
        Some(c) => {
            proof {
                char_u32_cast(c, cp);
            }
            Some((c, len))
        },
        None => None,
    }
}

fn key(code: KeyCode, control: bool, alt: bool, shift: bool) -> (r: KeyEvent)
    ensures
        r == key_with(code, control, alt, shift),
{
    KeyEvent { code, modifiers: KeyModifiers { control, alt, shift } }
}

fn none() -> (r: KeyEvent)
    ensures
        r == no_key(),
{
    key(KeyCode::Null, false, false, false)
}

fn decode_csi(b: u8) -> (r: Option<KeyEvent>)
    ensures
        r == csi_key(b),
{
    if b == 0x41 {
        Some(key(KeyCode::Up, false, false, false))
    } else if b == 0x42 {
        Some(key(KeyCode::Down, false, false, false))
    } else if b == 0x43 {
        Some(key(KeyCode::Right, false, false, false))
    } else if b == 0x44 {
        Some(key(KeyCode::Left, false, false, false))
    } else if b == 0x48 {
        Some(key(KeyCode::Home, false, false, false))
    } else if b == 0x46 {
        Some(key(KeyCode::End, false, false, false))
    } else if b == 0x61 {
        Some(key(KeyCode::Up, false, false, true))
    } else if b == 0x62 {
        Some(key(KeyCode::Down, false, false, true))
    } else if b == 0x63 {
        Some(key(KeyCode::Right, false, false, true))
    } else if b == 0x64 {
        Some(key(KeyCode::Left, false, false, true))
    } else {
        None
    }
}

fn decode_tilde(d: u8) -> (r: Option<KeyCode>)
    ensures
        r == tilde_key(d),
{
    if d == 0x31 || d == 0x37 {
        Some(KeyCode::Home)
    } else if d == 0x32 {
        Some(KeyCode::Insert)
    } else if d == 0x33 {
        Some(KeyCode::Delete)
    } else if d == 0x34 || d == 0x38 {
        Some(KeyCode::End)
    } else if d == 0x35 {
        Some(KeyCode::PageUp)
    } else if d == 0x36 {
        Some(KeyCode::PageDown)
    } else {
        None
    }
}

proof fn lemma_digits_end(s: Seq<u8>, i: int)
    requires
        0 <= i <= s.len(),
    ensures
        i <= digits_end(s, i) <= s.len(),
        forall|k: int| i <= k < digits_end(s, i) ==> is_digit_byte(#[trigger] s[k]),
        digits_end(s, i) < s.len() ==> !is_digit_byte(s[digits_end(s, i)]),
    decreases s.len() - i,
{
    if i < s.len() && is_digit_byte(s[i]) {
        lemma_digits_end(s, i + 1);
    }
}

fn decode_digit_sequence(input: &[u8]) -> (r: (KeyEvent, usize))
    requires
        input@.len() >= 3,
        is_digit_byte(input@[2]),
    ensures
        r.0 == decode_digits(input@).0,
        r.1 as nat == decode_digits(input@).1,
{
    let mut j: usize = 2;
    while j < input.len() && 0x30 <= input[j] && input[j] <= 0x39
        invariant
            2 <= j <= input@.len(),
            digits_end(input@, j as int) == digits_end(input@, 2),
        decreases input@.len() - j,
    {
        j = j + 1;
    }
    proof {
        lemma_digits_end(input@, 2);
    }
    if j >= input.len() {
        (none(), input.len())
    } else if j == 3 && (input[3] == 0x7e || input[3] == 0x5e) {
        match decode_tilde(input[2]) {
            Some(c) => (key(c, input[3] == 0x5e, false, false), 4),
            None => (none(), 4),
        }
    } else {
        (none(), j + 1)
    }
}

/// Decodes the key at the start of the bytes read from the terminal, and
/// says how many of them it takes.
pub fn decode_key(input: &[u8]) -> (r: (KeyEvent, usize))
    ensures
        r.0 == decode_spec(input@).0,
        r.1 as nat == decode_spec(input@).1,
        r.1 <= input@.len(),
{
    let n = input.len();
    if n == 0 {
        return (none(), 0);
    }
    let b0 = input[0];
    if b0 == ESC {
        if n == 1 {
            (key(KeyCode::Esc, false, false, false), 1)
        } else if input[1] == 0x5b || input[1] == 0x4f {
            if n == 2 {
                (none(), 2)
            } else if 0x30 <= input[2] && input[2] <= 0x39 {
                proof {
                    lemma_digits_end(input@, 2);
                }
                decode_digit_sequence(input)
            } else {
                match decode_csi(input[2]) {
                    Some(k) => (k, 3),
                    None => (none(), 3),
                }
            }
        } else {
            (key(KeyCode::Char(input[1] as char), false, true, false), 2)
        }
    } else if b0 == DEL {
        (key(KeyCode::Backspace, false, false, false), 1)
    } else if b0 < 0x20 {
        (key(KeyCode::Char((b0 + 0x60) as char), true, false, false), 1)
    } else if b0 >= 0x80 {
        match decode_utf8_char(input) {
            Some((c, len)) => (key(KeyCode::Char(c), false, false, false), len),
            None => (key(KeyCode::Char(b0 as char), false, false, false), 1),
        }
    } else {
        (key(KeyCode::Char(b0 as char), false, false, false), 1)
    }
}

/// A control byte other than ESC is read as the letter that, held with
/// Control, produces it: the byte plus 0x60, with the control modifier.
pub proof fn lemma_control_byte(b: u8, rest: Seq<u8>)
    requires
        0x01 <= b <= 0x1f,
        b != ESC,
    ensures
        decode_spec(seq![b] + rest) == (
            key_with(KeyCode::Char((b + 0x60) as u8 as char), true, false, false),
            1nat,
        ),
{
    assert((seq![b] + rest)[0] == b);
}

proof fn lemma_first_scalar_prefix(e: Seq<u8>, rest: Seq<u8>)
    requires
        valid_first_scalar(e),
    ensures
        valid_first_scalar(e + rest),
        decode_first_scalar(e + rest) == decode_first_scalar(e),
        length_of_first_scalar(e + rest) == length_of_first_scalar(e),
{
    let s = e + rest;
    assert(s[0] == e[0]);
    if e.len() >= 2 {
        assert(s[1] == e[1]);
    }
    if e.len() >= 3 {
        assert(s[2] == e[2]);
    }
    if e.len() >= 4 {
        assert(s[3] == e[3]);
    }
}

/// A character from 0x20 on, other than DEL, written in UTF-8 is read as
/// that character, without modifiers, taking exactly its own bytes,
/// whatever follows it.
pub proof fn lemma_printable_char(c: char, rest: Seq<u8>)
    requires
        c as u32 >= 0x20,
        c as u32 != 0x7f,
    ensures
        decode_spec(encode_utf8(seq![c]) + rest) == (
            key_with(KeyCode::Char(c), false, false, false),
            encode_utf8(seq![c]).len(),
        ),
{
    let e = encode_utf8(seq![c]);
    let s = e + rest;
    encode_utf8_first_scalar(seq![c]);
    assert(encode_utf8(seq![c].drop_first()) =~= Seq::<u8>::empty());
    char_u32_cast(c, c as u32);
    lemma_first_scalar_prefix(e, rest);
    assert(s[0] == e[0]);
    let u = c as u32;
    if u < 0x80 {
        assert(e.len() == 1);
        assert(((u & 0x7f) as u8) as u32 == u) by (bit_vector)
            requires
                u < 0x80,
        ;
        assert(e[0] as u32 == u);
    } else {
        assert(e[0] >= 0x80);
    }
}

} // verus!
