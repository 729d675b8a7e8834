//! Text building blocks: upper-casing, decimal rendering of numbers and
//! repetition.

use vstd::prelude::*;
use vstd::string::StringExecFns;

verus! {

/// The upper-case form of a text, as `str::to_uppercase` computes it.
///
/// The mapping follows Unicode and may change the length of the text, so it
/// is left uninterpreted; contracts speak of it by this name only.
pub uninterp spec fn uppercase_of(text: Seq<char>) -> Seq<char>;

/// Trusted: `str::to_uppercase` of the standard library returns a new string
/// that depends on the characters of `text` alone. The contract names that
/// string [`uppercase_of`] and claims nothing else about it.
pub assume_specification[ str::to_uppercase ](text: &str) -> (upper: String)
    ensures
        upper@ == uppercase_of(text@),
;

/// The character that stands for a single decimal digit.
pub open spec fn digit_char(digit: nat) -> char
    recommends
        digit < 10,
{
    if digit == 0 {
        '0'
    } else if digit == 1 {
        '1'
    } else if digit == 2 {
        '2'
    } else if digit == 3 {
        '3'
    } else if digit == 4 {
        '4'
    } else if digit == 5 {
        '5'
    } else if digit == 6 {
        '6'
    } else if digit == 7 {
        '7'
    } else if digit == 8 {
        '8'
    } else {
        '9'
    }
}

/// The decimal rendering of a natural number: no sign, no padding, no
/// leading zero except for zero itself.
pub open spec fn decimal_text(n: nat) -> Seq<char>
    decreases n,
{
    if n < 10 {
        seq![digit_char(n)]
    } else {
        decimal_text(n / 10).push(digit_char(n % 10))
    }
}

/// The digit that a character stands for; zero for any other character.
pub open spec fn digit_value(c: char) -> nat {
    if c == '1' {
        1
    } else if c == '2' {
        2
    } else if c == '3' {
        3
    } else if c == '4' {
        4
    } else if c == '5' {
        5
    } else if c == '6' {
        6
    } else if c == '7' {
        7
    } else if c == '8' {
        8
    } else if c == '9' {
        9
    } else {
        0
    }
}

/// The number that a text of decimal digits stands for.
pub open spec fn decimal_value(text: Seq<char>) -> nat
    decreases text.len(),
{
    if text.len() == 0 {
        0
    } else {
        decimal_value(text.drop_last()) * 10 + digit_value(text.last())
    }
}

/// Reading the decimal rendering of a number gives the number back.
pub proof fn lemma_decimal_text_reads_back(n: nat)
    ensures
        decimal_value(decimal_text(n)) == n,
    decreases n,
{
    let text = decimal_text(n);
    if n < 10 {
        assert(text.drop_last() =~= Seq::<char>::empty());
        assert(decimal_value(text.drop_last()) == 0);
    } else {
        lemma_decimal_text_reads_back(n / 10);
        assert(text.drop_last() =~= decimal_text(n / 10));
    }
}

/// The decimal rendering is never empty, holds digits only, and begins with
/// a zero for zero alone.
pub proof fn lemma_decimal_text_is_canonical(n: nat)
    ensures
        decimal_text(n).len() >= 1,
        forall|i: int|
            0 <= i < decimal_text(n).len() ==> digit_char(
                digit_value(#[trigger] decimal_text(n)[i]),
            ) == decimal_text(n)[i],
        decimal_text(n)[0] == '0' <==> n == 0,
    decreases n,
{
    if n >= 10 {
        lemma_decimal_text_is_canonical(n / 10);
    }
}

/// `unit` written `times` times in a row.
pub open spec fn repeated(unit: Seq<char>, times: nat) -> Seq<char>
    decreases times,
{
    if times == 0 {
        Seq::empty()
    } else {
        repeated(unit, (times - 1) as nat) + unit
    }
}

/// A text set two spaces in from the margin.
pub open spec fn indented(text: Seq<char>) -> Seq<char> {
    "  "@ + text
}

/// The one-character string of a decimal digit.
fn digit_str(digit: u32) -> (text: &'static str)
    requires
        digit < 10,
    ensures
        text@ == seq![digit_char(digit as nat)],
{
    proof {
        reveal_strlit("0");
        reveal_strlit("1");
        reveal_strlit("2");
        reveal_strlit("3");
        reveal_strlit("4");
        reveal_strlit("5");
        reveal_strlit("6");
        reveal_strlit("7");
        reveal_strlit("8");
        reveal_strlit("9");
    }
    let text = if digit == 0 {
        "0"
    } else if digit == 1 {
        "1"
    } else if digit == 2 {
        "2"
    } else if digit == 3 {
        "3"
    } else if digit == 4 {
        "4"
    } else if digit == 5 {
        "5"
    } else if digit == 6 {
        "6"
    } else if digit == 7 {
        "7"
    } else if digit == 8 {
        "8"
    } else {
        "9"
    };
    assert(text@ =~= seq![digit_char(digit as nat)]);
    text
}

/// Renders `n` in decimal.
pub fn decimal_string(n: u32) -> (text: String)
    ensures
        text@ == decimal_text(n as nat),
    decreases n,
{
    if n < 10 {
        String::from_str(digit_str(n))
    } else {
        let mut text = decimal_string(n / 10);
        text.append(digit_str(n % 10));
        assert(text@ =~= decimal_text(n as nat));
        text
    }
}

/// Sets `text` two spaces in from the margin.
pub fn indent(text: &str) -> (line: String)
    ensures
        line@ == indented(text@),
{
    let mut line = String::from_str("  ");
    line.append(text);
    line
}

/// Writes `unit` `times` times in a row.
pub fn repeat_text(unit: &str, times: usize) -> (text: String)
    ensures
        text@ == repeated(unit@, times as nat),
{
    let mut text = String::new();
    let mut written: usize = 0;
    while written < times
        invariant
            written <= times,
            text@ == repeated(unit@, written as nat),
        decreases times - written,
    {
        text.append(unit);
        written += 1;
    }
    text
}

} // verus!
