use vstd::prelude::*;
use crate::luhn::{digit_value, digits_in, is_digit};
use crate::reason::{Reason, Separator};

verus! {

/// The fields of an identifier of the right shape, before any check of
/// their values.
#[derive(Debug, Clone, Copy, PartialEq, Eq, Structural)]
pub struct ParsedId {
    /// The year as written: two or four digits.
    pub year_fragment: u32,
    /// Whether the year was written with four digits.
    pub four_digit_year: bool,
    pub month: u32,
    /// The day as written; 61 and above marks a coordination number.
    pub day: u32,
    pub separator: Separator,
}

/// `-` or `+`.
pub open spec fn is_separator(c: char) -> bool {
    c == '-' || c == '+'
}

/// The number written by the two digits at `i` and `i + 1`.
pub open spec fn two_digits(s: Seq<char>, i: int) -> int {
    10 * digit_value(s[i]) + digit_value(s[i + 1])
}

/// The length of the year part: ten or eleven characters carry a two-digit
/// year, twelve or thirteen a four-digit one.
pub open spec fn year_len(s: Seq<char>) -> int {
    if s.len() <= 11 {
        2
    } else {
        4
    }
}

/// Eleven and thirteen characters carry a separator.
pub open spec fn has_separator(s: Seq<char>) -> bool {
    s.len() == 11 || s.len() == 13
}

/// The identifier has the shape: a year of two or four digits, two digits of
/// month, two of day, an optional `-` or `+`, and four digits.
pub open spec fn well_shaped(s: Seq<char>) -> bool {
    &&& 10 <= s.len() <= 13
    &&& if has_separator(s) {
        let k = year_len(s) + 4;
        digits_in(s, 0, k) && is_separator(s[k]) && digits_in(s, k + 1, s.len() as int)
    } else {
        digits_in(s, 0, s.len() as int)
    }
}

/// The fields that a well-shaped identifier holds.
pub open spec fn parsed_of(s: Seq<char>) -> ParsedId {
    let y = year_len(s);
    ParsedId {
        year_fragment: (if y == 2 {
            two_digits(s, 0)
        } else {
            100 * two_digits(s, 0) + two_digits(s, 2)
        }) as u32,
        four_digit_year: y == 4,
        month: two_digits(s, y) as u32,
        day: two_digits(s, y + 2) as u32,
        separator: if !has_separator(s) {
            Separator::Empty
        } else if s[y + 4] == '+' {
            Separator::Plus
        } else {
            Separator::Minus
        },
    }
}

/// The characters of `s`, in order.
pub fn chars_of(s: &str) -> (v: Vec<char>)
    ensures
        v@ == s@,
{
    let n = s.unicode_len();
    let mut v: Vec<char> = Vec::new();
    let mut i: usize = 0;
    while i < n
        invariant
            n == s@.len(),
            i <= n,
            v@ == s@.subrange(0, i as int),
        decreases n - i,
    {
        v.push(s.get_char(i));
        i = i + 1;
    }
    assert(v@ == s@);
    v
}

fn is_ascii_digit(c: char) -> (r: bool)
    ensures
        r == is_digit(c),
{
    '0' <= c && c <= '9'
}

/// Whether `v[lo..hi]` is all digits.
fn all_digits(v: &Vec<char>, lo: usize, hi: usize) -> (r: bool)
    requires
        lo <= hi <= v.len(),
    ensures
        r == digits_in(v@, lo as int, hi as int),
{
    let mut i: usize = lo;
    while i < hi
        invariant
            lo <= i <= hi <= v.len(),
            digits_in(v@, lo as int, i as int),
        decreases hi - i,
    {
        if !is_ascii_digit(v[i]) {
            return false;
        }
        i = i + 1;
    }
    true
}

fn two_digit_value(v: &Vec<char>, i: usize) -> (r: u32)
    requires
        i + 1 < v.len(),
        is_digit(v@[i as int]),
        is_digit(v@[i + 1]),
    ensures
        r as int == two_digits(v@, i as int),
        r <= 99,
{
    10 * ((v[i] as u32) - ('0' as u32)) + ((v[i + 1] as u32) - ('0' as u32))
}

/// Splits an identifier into its fields, checking only its shape.
pub fn parse_id(id: &str) -> (r: Result<ParsedId, Reason>)
    ensures
        match r {
            Ok(p) => well_shaped(id@) && p == parsed_of(id@),
            Err(e) => !well_shaped(id@) && e == Reason::MalformedFormat,
        },
{
    let v = chars_of(id);
    let n = v.len();
    if n < 10 || n > 13 {
        return Err(Reason::MalformedFormat);
    }
    let y: usize = if n <= 11 { 2 } else { 4 };
    let sep = n == 11 || n == 13;
    let separator;
    if sep {
        let k = y + 4;
        if !all_digits(&v, 0, k) || !(v[k] == '-' || v[k] == '+') || !all_digits(&v, k + 1, n) {
            return Err(Reason::MalformedFormat);
        }
        separator = if v[k] == '+' { Separator::Plus } else { Separator::Minus };
    } else {
        if !all_digits(&v, 0, n) {
            return Err(Reason::MalformedFormat);
        }
        separator = Separator::Empty;
    }
    let year_fragment = if y == 2 {
        two_digit_value(&v, 0)
    } else {
        100 * two_digit_value(&v, 0) + two_digit_value(&v, 2)
    };
    let p = ParsedId {
        year_fragment,
        four_digit_year: y == 4,
        month: two_digit_value(&v, y),
        day: two_digit_value(&v, y + 2),
        separator,
    };
    Ok(p)
}

} // verus!
