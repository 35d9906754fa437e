//! Decimal text of integers, for identifiers and form values in pages.
use vstd::prelude::*;
use vstd::string::*;

verus! {

/// The character of a decimal digit.
pub open spec fn digit_char(d: nat) -> char {
    if d == 0 { '0' }
    else if d == 1 { '1' }
    else if d == 2 { '2' }
    else if d == 3 { '3' }
    else if d == 4 { '4' }
    else if d == 5 { '5' }
    else if d == 6 { '6' }
    else if d == 7 { '7' }
    else if d == 8 { '8' }
    else { '9' }
}

/// The decimal digits of a natural number, most significant first, without leading zeros.
pub open spec fn digits(n: nat) -> Seq<char>
    decreases n,
{
    if n < 10 {
        seq![digit_char(n)]
    } else {
        digits(n / 10).push(digit_char(n % 10))
    }
}

/// The decimal text of an integer, as `{}` formats it: a minus sign before the digits
/// of a negative number.
pub open spec fn decimal(n: int) -> Seq<char> {
    if n < 0 {
        seq!['-'] + digits((-n) as nat)
    } else {
        digits(n as nat)
    }
}

/// The text of one decimal digit.
fn digit_text(d: u64) -> (r: &'static str)
    requires
        d < 10,
    ensures
        r@ == seq![digit_char(d as nat)],
{
    if d == 0 {
        proof { reveal_strlit("0"); }
        "0"
    } else if d == 1 {
        proof { reveal_strlit("1"); }
        "1"
    } else if d == 2 {
        proof { reveal_strlit("2"); }
        "2"
    } else if d == 3 {
        proof { reveal_strlit("3"); }
        "3"
    } else if d == 4 {
        proof { reveal_strlit("4"); }
        "4"
    } else if d == 5 {
        proof { reveal_strlit("5"); }
        "5"
    } else if d == 6 {
        proof { reveal_strlit("6"); }
        "6"
    } else if d == 7 {
        proof { reveal_strlit("7"); }
        "7"
    } else if d == 8 {
        proof { reveal_strlit("8"); }
        "8"
    } else {
        proof { reveal_strlit("9"); }
        "9"
    }
}

/// The decimal text of `n`.
pub fn decimal_text(n: i32) -> (r: String)
    ensures
        r@ == decimal(n as int),
{
    let negative = n < 0;
    let wide: i64 = n as i64;
    let mut m: u64 = if negative { (-wide) as u64 } else { wide as u64 };
    let ghost magnitude: nat = m as nat;
    let mut s = String::new();
    loop
        invariant_except_break
            digits(magnitude) == digits(m as nat) + s@,
        ensures
            digits(magnitude) == s@,
        decreases m,
    {
        let d = m % 10;
        let ghost before = s@;
        s = String::from_str(digit_text(d)).concat(s.as_str());
        if m < 10 {
            assert(digits(m as nat) == seq![digit_char(m as nat)]);
            assert(digits(magnitude) == s@);
            break;
        }
        assert(digits(m as nat) == digits((m / 10) as nat).push(digit_char((m % 10) as nat)));
        assert(digits((m / 10) as nat) + s@ == digits(m as nat) + before);
        m = m / 10;
    }
    if negative {
        proof { reveal_strlit("-"); }
        String::from_str("-").concat(s.as_str())
    } else {
        s
    }
}

/// Decimal text is read digit by digit: a number below ten is its one digit, the
/// character that many places after `'0'`; a larger number is the text of its tens
/// followed by the text of its last digit; a negative number is a minus sign before
/// the text of its magnitude.
pub proof fn law_decimal(n: int)
    ensures
        0 <= n < 10 ==> decimal(n) == seq![('0' as int + n) as char],
        n >= 10 ==> decimal(n) == decimal(n / 10) + decimal(n % 10),
        n < 0 ==> decimal(n) == seq!['-'] + decimal(-n),
{
    if n >= 10 {
        assert(digits((n % 10) as nat) == seq![digit_char((n % 10) as nat)]);
    }
}

} // verus!
