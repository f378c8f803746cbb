//! Building texts out of parts.
use vstd::prelude::*;

verus! {

/// The two parts, one behind the other.
pub fn join(first: &str, second: &str) -> (joined: String)
    ensures
        joined@ == first@ + second@,
{
    first.to_owned().concat(second)
}

/// The decimal digits of `n`, most significant first; no digit for zero.
pub open spec fn digits(n: nat) -> Seq<char>
    decreases n,
{
    if n == 0 {
        Seq::empty()
    } else {
        digits(n / 10).push(digit(n % 10))
    }
}

/// The decimal digit `d`.
pub open spec fn digit(d: nat) -> char {
    if d == 0 {
        '0'
    } else if d == 1 {
        '1'
    } else if d == 2 {
        '2'
    } else if d == 3 {
        '3'
    } else if d == 4 {
        '4'
    } else if d == 5 {
        '5'
    } else if d == 6 {
        '6'
    } else if d == 7 {
        '7'
    } else if d == 8 {
        '8'
    } else {
        '9'
    }
}

/// `n` in decimal notation, with a minus sign when it is negative.
pub open spec fn decimal(n: int) -> Seq<char> {
    if n == 0 {
        seq!['0']
    } else if n < 0 {
        seq!['-'] + digits((-n) as nat)
    } else {
        digits(n as nat)
    }
}

/// The one-character text of a decimal digit.
fn digit_text(d: u64) -> (text: &'static str)
    requires
        d < 10,
    ensures
        text@ == seq![digit(d as nat)],
{
    proof {
        reveal_strlit("0");
        reveal_strlit("1");
        reveal_strlit("2");
        reveal_strlit("3");
        reveal_strlit("4");
        reveal_strlit("5");
        reveal_strlit("6");
        reveal_strlit("7");
        reveal_strlit("8");
        reveal_strlit("9");
    }
    if d == 0 {
        "0"
    } else if d == 1 {
        "1"
    } else if d == 2 {
        "2"
    } else if d == 3 {
        "3"
    } else if d == 4 {
        "4"
    } else if d == 5 {
        "5"
    } else if d == 6 {
        "6"
    } else if d == 7 {
        "7"
    } else if d == 8 {
        "8"
    } else {
        "9"
    }
}

/// The digits of `n`.
fn digits_text(n: u64) -> (text: String)
    ensures
        text@ == digits(n as nat),
    decreases n,
{
    if n == 0 {
        String::new()
    } else {
        let head = digits_text(n / 10);
        head.concat(digit_text(n % 10))
    }
}

/// `n` written in decimal notation.
pub fn decimal_text(n: i64) -> (text: String)
    ensures
        text@ == decimal(n as int),
{
    if n == 0 {
        proof {
            reveal_strlit("0");
        }
        "0".to_owned()
    } else if n < 0 {
        proof {
            reveal_strlit("-");
        }
        let magnitude: u64 = if n == i64::MIN {
            0x8000_0000_0000_0000
        } else {
            (-n) as u64
        };
        join("-", digits_text(magnitude).as_str())
    } else {
        digits_text(n as u64)
    }
}

/// A number of several digits is written as the number without its last digit, followed by that
/// digit.
pub proof fn decimals_grow_by_their_last_digit(n: int)
    requires
        n >= 10,
    ensures
        decimal(n) == decimal(n / 10).push(('0' as int + n % 10) as char),
{
    assert(digits(n as nat) == digits(n as nat / 10).push(digit(n as nat % 10)));
}

/// A number of one digit is written as that digit.
pub proof fn digits_stand_for_themselves(d: int)
    requires
        0 <= d < 10,
    ensures
        decimal(d) == seq![('0' as int + d) as char],
{
    reveal_with_fuel(digits, 2);
    if d > 0 {
        assert(digits(d as nat) =~= seq![digit(d as nat)]);
    }
}

/// A negative number is written as its magnitude behind a minus sign.
pub proof fn negative_numbers_have_a_sign(n: int)
    requires
        n < 0,
    ensures
        decimal(n) == seq!['-'] + decimal(-n),
{
}

} // verus!
