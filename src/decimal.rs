//! Decimal rendering of integers, as used in channel names, source ids
//! and the JSON documents sent to viewers.
use vstd::prelude::*;
use vstd::string::StringExecFns;

verus! {

/// The character of a decimal digit.
pub open spec fn digit_char(d: int) -> char {
    if d == 0 {
        '0'
    } else if d == 1 {
        '1'
    } else if d == 2 {
        '2'
    } else if d == 3 {
        '3'
    } else if d == 4 {
        '4'
    } else if d == 5 {
        '5'
    } else if d == 6 {
        '6'
    } else if d == 7 {
        '7'
    } else if d == 8 {
        '8'
    } else {
        '9'
    }
}

/// Whether `c` is one of the ten decimal digits.
pub open spec fn is_digit(c: char) -> bool {
    c == '0' || c == '1' || c == '2' || c == '3' || c == '4' || c == '5' || c == '6' || c
        == '7' || c == '8' || c == '9'
}

/// The shortest decimal numeral of `n`, most significant digit first.
pub open spec fn nat_digits(n: nat) -> Seq<char>
    decreases n,
{
    if n < 10 {
        seq![digit_char(n as int)]
    } else {
        nat_digits(n / 10).push(digit_char((n % 10) as int))
    }
}

/// The decimal numeral of `i`, with a leading `-` when it is negative.
pub open spec fn int_digits(i: int) -> Seq<char> {
    if i < 0 {
        seq!['-'] + nat_digits((-i) as nat)
    } else {
        nat_digits(i as nat)
    }
}

/// A numeral is never empty and consists of digits only.
pub proof fn lemma_nat_digits_are_digits(n: nat)
    ensures
        nat_digits(n).len() > 0,
        forall|k: int| 0 <= k < nat_digits(n).len() ==> is_digit(#[trigger] nat_digits(n)[k]),
    decreases n,
{
    if n >= 10 {
        lemma_nat_digits_are_digits(n / 10);
    }
}

fn digit_str(d: u64) -> (r: &'static str)
    requires
        d < 10,
    ensures
        r@ == seq![digit_char(d as int)],
{
    proof {
        reveal_strlit("0");
        reveal_strlit("1");
        reveal_strlit("2");
        reveal_strlit("3");
        reveal_strlit("4");
        reveal_strlit("5");
        reveal_strlit("6");
        reveal_strlit("7");
        reveal_strlit("8");
        reveal_strlit("9");
    }
    if d == 0 {
        "0"
    } else if d == 1 {
        "1"
    } else if d == 2 {
        "2"
    } else if d == 3 {
        "3"
    } else if d == 4 {
        "4"
    } else if d == 5 {
        "5"
    } else if d == 6 {
        "6"
    } else if d == 7 {
        "7"
    } else if d == 8 {
        "8"
    } else {
        "9"
    }
}

/// Appends the decimal numeral of `n` to `out`.
pub fn push_u64(out: &mut String, n: u64)
    ensures
        final(out)@ == old(out)@ + nat_digits(n as nat),
    decreases n,
{
    if n >= 10 {
        push_u64(out, n / 10);
    }
    out.append(digit_str(n % 10));
    proof {
        assert(final(out)@ =~= old(out)@ + nat_digits(n as nat));
    }
}

/// Appends the decimal numeral of `i` to `out`, signed.
pub fn push_i32(out: &mut String, i: i32)
    ensures
        final(out)@ == old(out)@ + int_digits(i as int),
{
    if i < 0 {
        proof {
            reveal_strlit("-");
        }
        out.append("-");
        let magnitude: i64 = -(i as i64);
        push_u64(out, magnitude as u64);
        proof {
            assert(final(out)@ =~= old(out)@ + int_digits(i as int));
        }
    } else {
        push_u64(out, i as u64);
    }
}

} // verus!
