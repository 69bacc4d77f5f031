//! Decimal notation for integers.

use vstd::prelude::*;
use vstd::string::StringExecFns;

verus! {

/// The character that stands for the digit `d`.
pub open spec fn digit_char(d: int) -> char
    recommends
        0 <= d < 10,
{
    if d == 0 {
        '0'
    } else if d == 1 {
        '1'
    } else if d == 2 {
        '2'
    } else if d == 3 {
        '3'
    } else if d == 4 {
        '4'
    } else if d == 5 {
        '5'
    } else if d == 6 {
        '6'
    } else if d == 7 {
        '7'
    } else if d == 8 {
        '8'
    } else {
        '9'
    }
}

/// The digits of `n` in base ten, most significant first, without leading
/// zeros; zero is the single digit `0`.
pub open spec fn decimal_nat(n: nat) -> Seq<char>
    decreases n,
{
    if n < 10 {
        seq![digit_char(n as int)]
    } else {
        decimal_nat(n / 10).push(digit_char((n % 10) as int))
    }
}

/// The decimal notation of `n`: a minus sign where `n` is negative, then the
/// digits of its magnitude.
pub open spec fn decimal(n: int) -> Seq<char> {
    if n < 0 {
        seq!['-'] + decimal_nat((-n) as nat)
    } else {
        decimal_nat(n as nat)
    }
}

/// The digit that the character `c` stands for.
pub open spec fn digit_value(c: char) -> int {
    if c == '1' {
        1
    } else if c == '2' {
        2
    } else if c == '3' {
        3
    } else if c == '4' {
        4
    } else if c == '5' {
        5
    } else if c == '6' {
        6
    } else if c == '7' {
        7
    } else if c == '8' {
        8
    } else if c == '9' {
        9
    } else {
        0
    }
}

/// The number that a sequence of digits denotes in base ten.
pub open spec fn decimal_value(digits: Seq<char>) -> int
    decreases digits.len(),
{
    if digits.len() == 0 {
        0
    } else {
        10 * decimal_value(digits.drop_last()) + digit_value(digits.last())
    }
}

/// The digits of `n` denote `n`, so different numbers have different
/// notations; and there is always at least one digit.
pub proof fn lemma_decimal_nat_denotes(n: nat)
    ensures
        decimal_value(decimal_nat(n)) == n,
        decimal_nat(n).len() >= 1,
    decreases n,
{
    let digits = decimal_nat(n);
    if n < 10 {
        assert(digits.drop_last() =~= Seq::<char>::empty());
        assert(decimal_value(digits.drop_last()) == 0);
        assert(digit_value(digits.last()) == n);
    } else {
        lemma_decimal_nat_denotes(n / 10);
        assert(digits.drop_last() =~= decimal_nat(n / 10));
        assert(digit_value(digits.last()) == n % 10);
    }
}

/// The one-character string for the digit `d`.
fn digit_str(d: u32) -> (text: &'static str)
    requires
        d < 10,
    ensures
        text@ == seq![digit_char(d as int)],
{
    proof {
        reveal_strlit("0");
        reveal_strlit("1");
        reveal_strlit("2");
        reveal_strlit("3");
        reveal_strlit("4");
        reveal_strlit("5");
        reveal_strlit("6");
        reveal_strlit("7");
        reveal_strlit("8");
        reveal_strlit("9");
    }
    let text = match d {
        0 => "0",
        1 => "1",
        2 => "2",
        3 => "3",
        4 => "4",
        5 => "5",
        6 => "6",
        7 => "7",
        8 => "8",
        _ => "9",
    };
    assert(text@ =~= seq![digit_char(d as int)]);
    text
}

/// Appends the digits of `n` to `text`.
fn append_decimal_nat(text: &mut String, n: u32)
    ensures
        final(text)@ == old(text)@ + decimal_nat(n as nat),
    decreases n,
{
    if n >= 10 {
        append_decimal_nat(text, n / 10);
    }
    text.append(digit_str(n % 10));
}

/// Appends the decimal notation of `n` to `text`.
pub fn append_decimal(text: &mut String, n: i32)
    ensures
        final(text)@ == old(text)@ + decimal(n as int),
{
    if n < 0 {
        proof {
            reveal_strlit("-");
        }
        text.append("-");
        let magnitude: i64 = -(n as i64);
        append_decimal_nat(text, magnitude as u32);
    } else {
        append_decimal_nat(text, n as u32);
    }
}

} // verus!
