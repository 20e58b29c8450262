//! JSON string literals, produced by serde_json, and the grammar of JSON numbers.
use vstd::prelude::*;
use vstd::string::StrSliceExecFns;
use crate::decimal::is_digit;

verus! {

/// The lowercase hexadecimal digit of `n` (0 to 15).
pub open spec fn hex_digit(n: int) -> char {
    if n < 10 {
        crate::decimal::digit_char(n)
    } else if n == 10 {
        'a'
    } else if n == 11 {
        'b'
    } else if n == 12 {
        'c'
    } else if n == 13 {
        'd'
    } else if n == 14 {
        'e'
    } else {
        'f'
    }
}

/// How one character is written inside a JSON string literal: the quote and
/// the backslash behind a backslash, the five control characters that have a
/// short escape with it, the other control characters as `\u00xx`, and
/// every other character as it stands.
pub open spec fn json_char_escape(c: char) -> Seq<char> {
    if c == '"' {
        seq!['\\', '"']
    } else if c == '\\' {
        seq!['\\', '\\']
    } else if c == '\x08' {
        seq!['\\', 'b']
    } else if c == '\t' {
        seq!['\\', 't']
    } else if c == '\n' {
        seq!['\\', 'n']
    } else if c == '\x0c' {
        seq!['\\', 'f']
    } else if c == '\r' {
        seq!['\\', 'r']
    } else if (c as u32) < 0x20 {
        seq!['\\', 'u', '0', '0', hex_digit(((c as u32) / 16) as int), hex_digit(((c as u32) % 16) as int)]
    } else {
        seq![c]
    }
}

/// The characters of `s`, each written as inside a JSON string literal.
pub open spec fn json_escaped(s: Seq<char>) -> Seq<char>
    decreases s.len(),
{
    if s.len() == 0 {
        seq![]
    } else {
        json_escaped(s.drop_last()) + json_char_escape(s.last())
    }
}

/// The JSON string literal of `s`.
pub open spec fn json_string_literal(s: Seq<char>) -> Seq<char> {
    seq!['"'] + json_escaped(s) + seq!['"']
}

/// Relies on serde_json::to_string for a `str`: the string between double
/// quotes, with the quote, the backslash and the control characters escaped
/// as `json_char_escape` says. Serialising a `str` into memory does not fail.
#[verifier::external_body]
pub(crate) fn quote_json(s: &str) -> (r: String)
    ensures
        r@ == json_string_literal(s@),
{
    serde_json::to_string(s).unwrap_or_default()
}

/// The index of the first character at or after `i` that is not a decimal
/// digit, or the length of `s`.
pub open spec fn digits_end(s: Seq<char>, i: int) -> int
    decreases s.len() - i,
{
    if 0 <= i < s.len() && is_digit(s[i]) {
        digits_end(s, i + 1)
    } else {
        i
    }
}

/// Where the fraction of a number whose integer part ends at `b` ends, or -1
/// if a `.` is not followed by a digit.
pub open spec fn fraction_end(s: Seq<char>, b: int) -> int {
    if b < s.len() && s[b] == '.' {
        if digits_end(s, b + 1) > b + 1 {
            digits_end(s, b + 1)
        } else {
            -1
        }
    } else {
        b
    }
}

/// Where the exponent of a number whose fraction ends at `c` ends, or -1 if
/// an `e` or `E` is not followed by digits, after an optional sign.
pub open spec fn exponent_end(s: Seq<char>, c: int) -> int {
    if c < s.len() && (s[c] == 'e' || s[c] == 'E') {
        let p = if c + 1 < s.len() && (s[c + 1] == '+' || s[c + 1] == '-') {
            c + 2
        } else {
            c + 1
        };
        if digits_end(s, p) > p {
            digits_end(s, p)
        } else {
            -1
        }
    } else {
        c
    }
}

/// Whether `s` is a JSON number: an optional minus, an integer part without
/// leading zeros, an optional fraction and an optional exponent.
pub open spec fn is_json_number(s: Seq<char>) -> bool {
    let a: int = if s.len() > 0 && s[0] == '-' {
        1
    } else {
        0
    };
    let b = digits_end(s, a);
    &&& b > a
    &&& (s[a] != '0' || b == a + 1)
    &&& fraction_end(s, b) >= 0
    &&& exponent_end(s, fraction_end(s, b)) == s.len()
}

fn digit_at(s: &str, n: usize, i: usize) -> (r: bool)
    requires
        n == s@.len(),
    ensures
        r == (i < s@.len() && is_digit(s@[i as int])),
{
    if i < n {
        let c = s.get_char(i);
        c == '0' || c == '1' || c == '2' || c == '3' || c == '4' || c == '5' || c == '6' || c
            == '7' || c == '8' || c == '9'
    } else {
        false
    }
}

fn scan_digits(s: &str, n: usize, i: usize) -> (r: usize)
    requires
        n == s@.len(),
        i <= n,
    ensures
        r as int == digits_end(s@, i as int),
        i <= r <= n,
{
    let mut j = i;
    while digit_at(s, n, j)
        invariant
            n == s@.len(),
            i <= j <= n,
            digits_end(s@, i as int) == digits_end(s@, j as int),
        decreases n - j,
    {
        j = j + 1;
    }
    j
}

/// Whether `s` is a JSON number.
pub fn json_number(s: &str) -> (r: bool)
    ensures
        r == is_json_number(s@),
{
    let n = s.unicode_len();
    let a: usize = if n > 0 && s.get_char(0) == '-' {
        1
    } else {
        0
    };
    let b = scan_digits(s, n, a);
    if b == a || (s.get_char(a) == '0' && b != a + 1) {
        return false;
    }
    let c: usize = if b < n && s.get_char(b) == '.' {
        let e = scan_digits(s, n, b + 1);
        if e == b + 1 {
            return false;
        }
        e
    } else {
        b
    };
    let d: usize = if c < n && (s.get_char(c) == 'e' || s.get_char(c) == 'E') {
        let p: usize = if c + 1 < n && (s.get_char(c + 1) == '+' || s.get_char(c + 1) == '-') {
            c + 2
        } else {
            c + 1
        };
        let q = scan_digits(s, n, p);
        if q == p {
            return false;
        }
        q
    } else {
        c
    };
    d == n
}

} // verus!
