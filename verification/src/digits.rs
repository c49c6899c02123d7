//! Numbers written out in decimal digits.
use vstd::prelude::*;
use vstd::string::*;
use crate::parse::{digit_value, is_digit};

verus! {

/// The character of the digit `d`.
pub open spec fn digit_char(d: int) -> char {
    if d == 0 {
        '0'
    } else if d == 1 {
        '1'
    } else if d == 2 {
        '2'
    } else if d == 3 {
        '3'
    } else if d == 4 {
        '4'
    } else if d == 5 {
        '5'
    } else if d == 6 {
        '6'
    } else if d == 7 {
        '7'
    } else if d == 8 {
        '8'
    } else {
        '9'
    }
}

/// `n`, below a hundred, written with two digits.
pub open spec fn two_digits(n: int) -> Seq<char> {
    seq![digit_char(n / 10), digit_char(n % 10)]
}

/// `n`, below ten thousand, written with four digits.
pub open spec fn four_digits(n: int) -> Seq<char> {
    two_digits(n / 100) + two_digits(n % 100)
}

/// `n`, between -999 and 999, written without leading zeros, with a minus
/// sign where it is negative.
pub open spec fn decimal(n: int) -> Seq<char> {
    let size = if n < 0 {
        -n
    } else {
        n
    };
    let sign = if n < 0 {
        seq!['-']
    } else {
        Seq::<char>::empty()
    };
    if size < 10 {
        sign + seq![digit_char(size)]
    } else if size < 100 {
        sign + two_digits(size)
    } else {
        sign + seq![digit_char(size / 100)] + two_digits(size % 100)
    }
}

/// The digit `d` as a string of one character.
pub(crate) fn digit_text(d: u8) -> (text: &'static str)
    requires
        d <= 9,
    ensures
        text@ == seq![digit_char(d as int)],
{
    proof {
        reveal_strlit("0");
        reveal_strlit("1");
        reveal_strlit("2");
        reveal_strlit("3");
        reveal_strlit("4");
        reveal_strlit("5");
        reveal_strlit("6");
        reveal_strlit("7");
        reveal_strlit("8");
        reveal_strlit("9");
    }
    let text: &'static str = match d {
        0 => "0",
        1 => "1",
        2 => "2",
        3 => "3",
        4 => "4",
        5 => "5",
        6 => "6",
        7 => "7",
        8 => "8",
        _ => "9",
    };
    assert(text@ =~= seq![digit_char(d as int)]);
    text
}

/// Adds `n` with two digits to `text`.
pub(crate) fn push_two(text: &mut String, n: u8)
    requires
        n <= 99,
    ensures
        final(text)@ == old(text)@ + two_digits(n as int),
{
    text.append(digit_text(n / 10));
    text.append(digit_text(n % 10));
    assert(text@ =~= old(text)@ + two_digits(n as int));
}

/// Adds `n` in decimal to `text`.
pub(crate) fn push_decimal(text: &mut String, n: i8)
    ensures
        final(text)@ == old(text)@ + decimal(n as int),
{
    let size: u8 = if n < 0 {
        proof {
            reveal_strlit("-");
        }
        text.append("-");
        assert(text@ =~= old(text)@ + seq!['-']);
        (-(n as i16)) as u8
    } else {
        assert(text@ =~= old(text)@ + Seq::<char>::empty());
        n as u8
    };
    if size < 10 {
        text.append(digit_text(size));
    } else if size < 100 {
        push_two(text, size);
    } else {
        text.append(digit_text(size / 100));
        push_two(text, size % 100);
    }
    assert(text@ =~= old(text)@ + decimal(n as int));
}

/// A number below a hundred is written with two digits that spell it.
pub proof fn lemma_two_digits_are_digits(n: int)
    requires
        0 <= n <= 99,
    ensures
        two_digits(n).len() == 2,
        is_digit(two_digits(n)[0]),
        is_digit(two_digits(n)[1]),
        10 * digit_value(two_digits(n)[0]) + digit_value(two_digits(n)[1]) == n,
{
}

} // verus!
