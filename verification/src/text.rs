//! Numbers as decimal text.

use vstd::prelude::*;
use vstd::string::*;

verus! {

/// The character of the decimal digit `d`.
pub open spec fn digit_char(d: int) -> char {
    seq!['0', '1', '2', '3', '4', '5', '6', '7', '8', '9'][d]
}

/// `n` in decimal, without leading zeros.
pub open spec fn decimal_text(n: nat) -> Seq<char>
    decreases n,
{
    if n < 10 {
        seq![digit_char(n as int)]
    } else {
        decimal_text(n / 10) + seq![digit_char((n % 10) as int)]
    }
}

/// `v` in decimal, with a minus sign before it where it is negative.
pub open spec fn signed_decimal_text(v: int) -> Seq<char> {
    if v < 0 {
        seq!['-'] + decimal_text((-v) as nat)
    } else {
        decimal_text(v as nat)
    }
}

/// `text` with zeros before it, as many as it is shorter than `width`.
pub open spec fn zero_padded(text: Seq<char>, width: nat) -> Seq<char> {
    if text.len() >= width {
        text
    } else {
        Seq::new((width - text.len()) as nat, |i: int| '0') + text
    }
}

/// The text of one decimal digit.
fn digit_str(d: u8) -> (text: &'static str)
    requires
        d < 10,
    ensures
        text@ == seq![digit_char(d as int)],
{
    proof {
        reveal_strlit("0");
        reveal_strlit("1");
        reveal_strlit("2");
        reveal_strlit("3");
        reveal_strlit("4");
        reveal_strlit("5");
        reveal_strlit("6");
        reveal_strlit("7");
        reveal_strlit("8");
        reveal_strlit("9");
    }
    let text = if d == 0 {
        "0"
    } else if d == 1 {
        "1"
    } else if d == 2 {
        "2"
    } else if d == 3 {
        "3"
    } else if d == 4 {
        "4"
    } else if d == 5 {
        "5"
    } else if d == 6 {
        "6"
    } else if d == 7 {
        "7"
    } else if d == 8 {
        "8"
    } else {
        "9"
    };
    assert(text@ =~= seq![digit_char(d as int)]);
    text
}

/// Writes `n` in decimal.
pub fn decimal_string(n: u128) -> (text: String)
    ensures
        text@ == decimal_text(n as nat),
    decreases n,
{
    if n < 10 {
        digit_str(n as u8).to_owned()
    } else {
        let mut text = decimal_string(n / 10);
        text.append(digit_str((n % 10) as u8));
        text
    }
}

/// Writes `v` in decimal, with its sign where it is negative.
pub fn signed_decimal_string(v: i64) -> (text: String)
    ensures
        text@ == signed_decimal_text(v as int),
{
    if v < 0 {
        proof {
            reveal_strlit("-");
        }
        let magnitude: u128 = (-(v as i128)) as u128;
        let digits = decimal_string(magnitude);
        let mut text = "-".to_owned();
        text.append(digits.as_str());
        assert(text@ =~= seq!['-'] + decimal_text((-v) as nat));
        text
    } else {
        decimal_string(v as u128)
    }
}

/// Writes `text` with zeros before it, as many as it is shorter than `width`.
pub fn pad_with_zeros(text: &str, width: usize) -> (padded: String)
    ensures
        padded@ == zero_padded(text@, width as nat),
{
    let length = text.unicode_len();
    let mut padded = String::new();
    let mut written: usize = length;
    proof {
        reveal_strlit("0");
    }
    while written < width
        invariant
            length == text@.len(),
            length <= written,
            written <= width || written == length,
            padded@ =~= Seq::new((written - length) as nat, |i: int| '0'),
            "0"@ == seq!['0'],
        decreases width - written,
    {
        padded.append("0");
        written += 1;
    }
    padded.append(text);
    assert(padded@ =~= zero_padded(text@, width as nat));
    padded
}

} // verus!
