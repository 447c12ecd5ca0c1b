//! Decimal rendering of numbers and of calendar dates.

use vstd::prelude::*;

verus! {

/// The character of a decimal digit `d` (`0 <= d < 10`).
pub open spec fn digit_char(d: int) -> char {
    (d + 48) as char
}

/// The shortest decimal numeral of `n`, most significant digit first.
pub open spec fn decimal(n: nat) -> Seq<char>
    decreases n,
{
    if n < 10 {
        seq![digit_char(n as int)]
    } else {
        decimal(n / 10) + seq![digit_char((n % 10) as int)]
    }
}

/// `n` written with at least two digits, a leading zero added below ten.
pub open spec fn two_digits(n: nat) -> Seq<char> {
    if n < 10 {
        seq!['0'] + decimal(n)
    } else {
        decimal(n)
    }
}

/// A signed integer in decimal, with a leading minus sign when negative.
pub open spec fn signed_decimal(n: int) -> Seq<char> {
    if n < 0 {
        seq!['-'] + decimal((-n) as nat)
    } else {
        decimal(n as nat)
    }
}

/// The text of one decimal digit.
fn digit_text(d: u8) -> (s: &'static str)
    requires
        d < 10,
    ensures
        s@ == seq![digit_char(d as int)],
{
    proof {
        reveal_strlit("0");
        reveal_strlit("1");
        reveal_strlit("2");
        reveal_strlit("3");
        reveal_strlit("4");
        reveal_strlit("5");
        reveal_strlit("6");
        reveal_strlit("7");
        reveal_strlit("8");
        reveal_strlit("9");
    }
    match d {
        0 => "0",
        1 => "1",
        2 => "2",
        3 => "3",
        4 => "4",
        5 => "5",
        6 => "6",
        7 => "7",
        8 => "8",
        _ => "9",
    }
}

/// Renders `n` in decimal, as `format!("{}", n)` does.
pub fn decimal_text(n: u128) -> (s: String)
    ensures
        s@ == decimal(n as nat),
    decreases n,
{
    if n < 10 {
        digit_text(n as u8).to_owned()
    } else {
        let mut s = decimal_text(n / 10);
        s.append(digit_text((n % 10) as u8));
        s
    }
}

/// A calendar date as `format!("{}-{:02}-{:02}", year, month, day)` writes it.
pub open spec fn date_text_spec(year: int, month: nat, day: nat) -> Seq<char> {
    signed_decimal(year) + seq!['-'] + two_digits(month) + seq!['-'] + two_digits(day)
}

/// Renders `n` with at least two digits, as `format!("{:02}", n)` does.
pub fn two_digit_text(n: u32) -> (s: String)
    ensures
        s@ == two_digits(n as nat),
{
    proof {
        reveal_strlit("0");
    }
    if n < 10 {
        let s = "0".to_owned();
        s.concat(decimal_text(n as u128).as_str())
    } else {
        decimal_text(n as u128)
    }
}

/// Renders a signed integer in decimal, as `format!("{}", n)` does.
pub fn signed_decimal_text(n: i32) -> (s: String)
    ensures
        s@ == signed_decimal(n as int),
{
    proof {
        reveal_strlit("-");
    }
    if n < 0 {
        let magnitude: i64 = -(n as i64);
        let s = "-".to_owned();
        s.concat(decimal_text(magnitude as u128).as_str())
    } else {
        decimal_text(n as u128)
    }
}

/// Renders a calendar date as `YYYY-MM-DD`, month and day padded to two digits.
pub fn date_text(year: i32, month: u32, day: u32) -> (s: String)
    ensures
        s@ == date_text_spec(year as int, month as nat, day as nat),
{
    proof {
        reveal_strlit("-");
    }
    let s = signed_decimal_text(year);
    let s = s.concat("-");
    let s = s.concat(two_digit_text(month).as_str());
    let s = s.concat("-");
    s.concat(two_digit_text(day).as_str())
}

} // verus!
