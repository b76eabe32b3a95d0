use vstd::prelude::*;

verus! {

/// The code points of `s` from `start` up to (not including) `end`, where
/// both bounds are first clamped to the length of `s`, and an empty range
/// gives nothing.
pub open spec fn code_point_slice(s: Seq<char>, start: int, end: int) -> Seq<char> {
    let e = if end < s.len() { end } else { s.len() as int };
    if start < e {
        s.subrange(start, e)
    } else {
        Seq::empty()
    }
}

/// A range that ends where it starts, or before, holds nothing, whatever
/// the text.
pub proof fn lemma_empty_range(s: Seq<char>, start: int, end: int)
    requires
        end <= start,
    ensures
        code_point_slice(s, start, end) == Seq::<char>::empty(),
{
}

/// Text addressed by code point, never by byte.
pub trait StringUtils {
    /// The code points of the text.
    spec fn code_points(&self) -> Seq<char>;

    /// The code points in `[start, end)`; bounds past the end are clamped.
    fn uslice(&self, start: usize, end: usize) -> (r: String)
        ensures
            r@ == code_point_slice(self.code_points(), start as int, end as int),
    ;

    /// The number of code points.
    fn ulen(&self) -> (n: usize)
        ensures
            n as int == self.code_points().len(),
    ;
}

impl StringUtils for str {
    open spec fn code_points(&self) -> Seq<char> {
        self@
    }

    fn uslice(&self, start: usize, end: usize) -> (r: String) {
        let len = self.unicode_len();
        let e = if end < len { end } else { len };
        if start < e {
            String::from_str(self.substring_char(start, e))
        } else {
            String::new()
        }
    }

    fn ulen(&self) -> (n: usize) {
        self.unicode_len()
    }
}

/// Relies on `String::push`: the character is appended at the end.
#[verifier::external_body]
pub(crate) fn push_char(s: &mut String, c: char)
    ensures
        final(s)@ == old(s)@.push(c),
{
    s.push(c)
}

/// The decimal digit `d` as a character.
pub open spec fn digit_char(d: nat) -> char {
    "0123456789"@[d as int]
}

/// The decimal numeral of `n`, without sign or leading zeros.
pub open spec fn decimal_text(n: nat) -> Seq<char>
    decreases n,
{
    if n < 10 {
        seq![digit_char(n)]
    } else {
        decimal_text(n / 10).push(digit_char(n % 10))
    }
}

/// Appends the decimal numeral of `n` to `s`.
pub fn push_decimal(s: &mut String, n: usize)
    ensures
        final(s)@ == old(s)@ + decimal_text(n as nat),
    decreases n,
{
    proof {
        reveal_strlit("0123456789");
    }
    if n < 10 {
        let c = "0123456789".get_char(n);
        push_char(s, c);
        assert(s@ =~= old(s)@ + decimal_text(n as nat));
    } else {
        push_decimal(s, n / 10);
        let c = "0123456789".get_char(n % 10);
        push_char(s, c);
        assert(s@ =~= old(s)@ + decimal_text(n as nat));
    }
}

} // verus!
