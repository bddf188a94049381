//! Text helpers: decimal numerals and the renderings of plain values.

use vstd::prelude::*;
use vstd::string::*;

verus! {

/// The character of the decimal digit `d`.
pub open spec fn digit_char(d: int) -> char {
    if d == 0 {
        '0'
    } else if d == 1 {
        '1'
    } else if d == 2 {
        '2'
    } else if d == 3 {
        '3'
    } else if d == 4 {
        '4'
    } else if d == 5 {
        '5'
    } else if d == 6 {
        '6'
    } else if d == 7 {
        '7'
    } else if d == 8 {
        '8'
    } else {
        '9'
    }
}

/// The decimal numeral of `n`, without leading zeros.
pub open spec fn decimal_nat(n: nat) -> Seq<char>
    decreases n,
{
    if n < 10 {
        seq![digit_char(n as int)]
    } else {
        decimal_nat(n / 10).push(digit_char((n % 10) as int))
    }
}

/// The decimal numeral of `n`, with a leading minus sign when negative.
pub open spec fn decimal_int(n: int) -> Seq<char> {
    if n < 0 {
        seq!['-'] + decimal_nat((-n) as nat)
    } else {
        decimal_nat(n as nat)
    }
}

/// `true` or `false`, as text.
pub open spec fn bool_text(value: bool) -> Seq<char> {
    if value {
        "true"@
    } else {
        "false"@
    }
}

/// The one-character text of the decimal digit `d`.
fn digit_str(d: u128) -> (text: &'static str)
    requires
        d < 10,
    ensures
        text@ == seq![digit_char(d as int)],
{
    proof {
        reveal_strlit("0");
        reveal_strlit("1");
        reveal_strlit("2");
        reveal_strlit("3");
        reveal_strlit("4");
        reveal_strlit("5");
        reveal_strlit("6");
        reveal_strlit("7");
        reveal_strlit("8");
        reveal_strlit("9");
    }
    let text: &'static str = if d == 0 {
        "0"
    } else if d == 1 {
        "1"
    } else if d == 2 {
        "2"
    } else if d == 3 {
        "3"
    } else if d == 4 {
        "4"
    } else if d == 5 {
        "5"
    } else if d == 6 {
        "6"
    } else if d == 7 {
        "7"
    } else if d == 8 {
        "8"
    } else {
        "9"
    };
    assert(text@ =~= seq![digit_char(d as int)]);
    text
}

/// Appends the decimal numeral of `n` to `text`.
pub fn push_decimal(text: &mut String, n: u128)
    ensures
        final(text)@ == old(text)@ + decimal_nat(n as nat),
    decreases n,
{
    if n >= 10 {
        push_decimal(text, n / 10);
    }
    text.append(digit_str(n % 10));
    assert(final(text)@ =~= old(text)@ + decimal_nat(n as nat));
}

/// The decimal numeral of `n`.
pub fn u128_to_string(n: u128) -> (text: String)
    ensures
        text@ == decimal_nat(n as nat),
{
    let mut text = String::new();
    push_decimal(&mut text, n);
    assert(text@ =~= decimal_nat(n as nat));
    text
}

/// The decimal numeral of `n`, with a leading minus sign when negative.
pub fn i32_to_string(n: i32) -> (text: String)
    ensures
        text@ == decimal_int(n as int),
{
    let mut text = String::new();
    if n < 0 {
        proof {
            reveal_strlit("-");
        }
        text.append("-");
        let magnitude: u128 = (0 - (n as i64)) as u128;
        push_decimal(&mut text, magnitude);
        assert(text@ =~= decimal_int(n as int));
    } else {
        push_decimal(&mut text, n as u128);
        assert(text@ =~= decimal_int(n as int));
    }
    text
}

/// `true` or `false`, as text.
pub fn bool_to_string(value: bool) -> (text: String)
    ensures
        text@ == bool_text(value),
{
    if value {
        String::from_str("true")
    } else {
        String::from_str("false")
    }
}

/// The text that `{:?}` formatting writes for a string: the string between
/// double quotes, with the characters that need it escaped.
pub uninterp spec fn quoted_text(text: Seq<char>) -> Seq<char>;

/// `format!("{:?}", text)`: std's `Debug` rendering of a string slice. The
/// result is a function of the characters alone; it is named, not spelled
/// out, because std's escaping rules run over its Unicode tables.
#[verifier::external_body]
pub(crate) fn quote(text: &str) -> (quoted: String)
    ensures
        quoted@ == quoted_text(text@),
{
    format!("{:?}", text)
}

} // verus!
