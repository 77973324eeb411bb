//! Canonical decimal rendering of integer parameters.
//!
//! Integer parameters are passed to the collaborator script as base-10
//! text: a minus sign for negative values, then the digits with no leading
//! zeros and no separators of any kind.

use vstd::prelude::*;
use vstd::string::StringExecFns;

verus! {

/// The digit character for a value between 0 and 9.
pub open spec fn digit_char(d: int) -> char {
    if d == 0 {
        '0'
    } else if d == 1 {
        '1'
    } else if d == 2 {
        '2'
    } else if d == 3 {
        '3'
    } else if d == 4 {
        '4'
    } else if d == 5 {
        '5'
    } else if d == 6 {
        '6'
    } else if d == 7 {
        '7'
    } else if d == 8 {
        '8'
    } else {
        '9'
    }
}

/// The base-10 digit string of a non-negative value, most significant
/// digit first.
pub open spec fn decimal_digits(n: int) -> Seq<char>
    recommends
        0 <= n,
    decreases n,
{
    if n < 10 {
        seq![digit_char(n)]
    } else {
        decimal_digits(n / 10).push(digit_char(n % 10))
    }
}

/// The canonical base-10 text of an integer: the digit string of its
/// magnitude, preceded by a minus sign when it is negative.
pub open spec fn decimal_text(n: int) -> Seq<char> {
    if n < 0 {
        seq!['-'] + decimal_digits(-n)
    } else {
        decimal_digits(n)
    }
}

/// Whether `c` is a base-10 digit character.
pub open spec fn is_digit_char(c: char) -> bool {
    c == '0' || c == '1' || c == '2' || c == '3' || c == '4' || c == '5' || c == '6' || c == '7'
        || c == '8' || c == '9'
}

/// The digit string of a non-negative value is canonical: it is never
/// empty, it consists of digit characters only, and it carries no leading
/// zero (a zero digit leads only for the value zero itself, whose whole
/// text is the single digit `0`).
pub proof fn lemma_decimal_digits_canonical(n: int)
    requires
        0 <= n,
    ensures
        decimal_digits(n).len() >= 1,
        forall|i: int|
            0 <= i < decimal_digits(n).len() ==> is_digit_char(#[trigger] decimal_digits(n)[i]),
        1 <= n ==> decimal_digits(n)[0] != '0',
        n < 10 ==> decimal_digits(n) == seq![digit_char(n)],
    decreases n,
{
    if n >= 10 {
        lemma_decimal_digits_canonical(n / 10);
        assert forall|i: int|
            0 <= i < decimal_digits(n).len() implies is_digit_char(
            #[trigger] decimal_digits(n)[i],
        ) by {
            if i < decimal_digits(n / 10).len() {
                assert(decimal_digits(n)[i] == decimal_digits(n / 10)[i]);
            } else {
                assert(decimal_digits(n)[i] == digit_char(n % 10));
            }
        }
        assert(decimal_digits(n)[0] == decimal_digits(n / 10)[0]);
    }
}

/// The one-character string for a digit value.
fn digit_str(d: u32) -> (r: &'static str)
    requires
        d < 10,
    ensures
        r@ == seq![digit_char(d as int)],
{
    let r: &'static str = if d == 0 {
        "0"
    } else if d == 1 {
        "1"
    } else if d == 2 {
        "2"
    } else if d == 3 {
        "3"
    } else if d == 4 {
        "4"
    } else if d == 5 {
        "5"
    } else if d == 6 {
        "6"
    } else if d == 7 {
        "7"
    } else if d == 8 {
        "8"
    } else {
        "9"
    };
    proof {
        reveal_strlit("0");
        reveal_strlit("1");
        reveal_strlit("2");
        reveal_strlit("3");
        reveal_strlit("4");
        reveal_strlit("5");
        reveal_strlit("6");
        reveal_strlit("7");
        reveal_strlit("8");
        reveal_strlit("9");
        assert(r@ =~= seq![digit_char(d as int)]);
    }
    r
}

/// Appends the digit string of `m` to `s`, most significant digit first.
fn append_digits(s: &mut String, m: u32)
    ensures
        final(s)@ == old(s)@ + decimal_digits(m as int),
    decreases m,
{
    if m >= 10 {
        append_digits(s, m / 10);
    }
    let ghost mid = s@;
    s.append(digit_str(m % 10));
    proof {
        if m < 10 {
            assert(s@ =~= old(s)@ + decimal_digits(m as int));
        } else {
            assert(mid == old(s)@ + decimal_digits(m as int / 10));
            assert(s@ =~= old(s)@ + decimal_digits(m as int));
        }
    }
}

/// Renders a 32-bit integer as its canonical base-10 text.
pub fn i32_to_decimal(n: i32) -> (r: String)
    ensures
        r@ == decimal_text(n as int),
{
    let mut s = String::new();
    let m: u32;
    if n < 0 {
        s.append("-");
        m = (-(n as i64)) as u32;
        proof {
            reveal_strlit("-");
            assert(m as int == -(n as int));
            assert(s@ =~= seq!['-']);
        }
    } else {
        m = n as u32;
    }
    append_digits(&mut s, m);
    proof {
        assert(s@ =~= decimal_text(n as int));
    }
    s
}

} // verus!
