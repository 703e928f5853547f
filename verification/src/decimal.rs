//! Decimal notation for unsigned numbers, as ASCII bytes and as text.

use vstd::prelude::*;

verus! {

/// The ASCII digit for `d`, which is below ten.
pub open spec fn digit_byte(d: nat) -> u8 {
    (48 + d) as u8
}

/// The decimal notation of `n` without leading zeros, as ASCII bytes.
pub open spec fn decimal_digits(n: nat) -> Seq<u8>
    decreases n,
{
    if n < 10 {
        seq![digit_byte(n)]
    } else {
        decimal_digits(n / 10).push(digit_byte(n % 10))
    }
}

/// The decimal notation of `n` without leading zeros, as text.
pub open spec fn decimal_text(n: nat) -> Seq<char> {
    decimal_digits(n).map_values(|b: u8| b as char)
}

/// Every byte of a decimal notation is an ASCII digit, and there is at least one.
pub proof fn lemma_decimal_digits_ascii(n: nat)
    ensures
        decimal_digits(n).len() >= 1,
        forall|i: int| 0 <= i < decimal_digits(n).len() ==> 48 <= #[trigger] decimal_digits(n)[i] <= 57,
    decreases n,
{
    if n >= 10 {
        lemma_decimal_digits_ascii(n / 10);
    }
}

/// Appends the decimal notation of `n` to `buf`.
pub fn push_decimal(buf: &mut Vec<u8>, n: u64)
    ensures
        final(buf)@ == old(buf)@ + decimal_digits(n as nat),
    decreases n,
{
    if n >= 10 {
        push_decimal(buf, n / 10);
    }
    let digit: u8 = (n % 10) as u8;
    buf.push(48 + digit);
    assert(buf@ =~= old(buf)@ + decimal_digits(n as nat));
}

/// The text of one decimal digit.
fn digit_str(d: u8) -> (s: &'static str)
    requires
        d < 10,
    ensures
        s@ == seq![digit_byte(d as nat) as char],
{
    proof {
        reveal_strlit("0");
        reveal_strlit("1");
        reveal_strlit("2");
        reveal_strlit("3");
        reveal_strlit("4");
        reveal_strlit("5");
        reveal_strlit("6");
        reveal_strlit("7");
        reveal_strlit("8");
        reveal_strlit("9");
    }
    let s = match d {
        0 => "0",
        1 => "1",
        2 => "2",
        3 => "3",
        4 => "4",
        5 => "5",
        6 => "6",
        7 => "7",
        8 => "8",
        _ => "9",
    };
    assert(s@ =~= seq![digit_byte(d as nat) as char]);
    s
}

/// Appends the decimal notation of `n` to `text`.
fn append_decimal(text: &mut String, n: u64)
    ensures
        final(text)@ == old(text)@ + decimal_text(n as nat),
    decreases n,
{
    if n >= 10 {
        append_decimal(text, n / 10);
    }
    let digit: u8 = (n % 10) as u8;
    text.append(digit_str(digit));
    assert(text@ =~= old(text)@ + decimal_text(n as nat));
}

/// Writes `n` in decimal notation.
pub fn decimal_string(n: u64) -> (text: String)
    ensures
        text@ == decimal_text(n as nat),
{
    let mut text = String::new();
    append_decimal(&mut text, n);
    assert(text@ =~= decimal_text(n as nat));
    text
}

} // verus!
