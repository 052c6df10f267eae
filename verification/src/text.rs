//! Elapsed time as text, in the form `HH:MM:SS.mmm`.
//!
//! Minutes and seconds run from 00 to 59 and milliseconds from 000 to 999.
//! Hours are not wrapped: they take as many digits as they need, and at least
//! two. What is left below a millisecond is dropped, not rounded.

use vstd::prelude::*;

verus! {

pub const NANOS_PER_MILLI: u128 = 1_000_000;

pub const NANOS_PER_SECOND: u128 = 1_000_000_000;

/// The character that writes the decimal digit `d`.
pub open spec fn digit_char(d: nat) -> char
    recommends
        d < 10,
{
    if d == 0 {
        '0'
    } else if d == 1 {
        '1'
    } else if d == 2 {
        '2'
    } else if d == 3 {
        '3'
    } else if d == 4 {
        '4'
    } else if d == 5 {
        '5'
    } else if d == 6 {
        '6'
    } else if d == 7 {
        '7'
    } else if d == 8 {
        '8'
    } else {
        '9'
    }
}

/// `n` in decimal, without leading zeros; zero is `0`.
pub open spec fn decimal(n: nat) -> Seq<char>
    decreases n,
{
    if n < 10 {
        seq![digit_char(n)]
    } else {
        decimal(n / 10).push(digit_char(n % 10))
    }
}

/// `count` zeros.
pub open spec fn zeros(count: nat) -> Seq<char> {
    Seq::new(count, |i: int| '0')
}

/// `n` in decimal, with zeros in front up to `width` digits. A number with
/// more digits than `width` keeps them all.
pub open spec fn zero_padded(n: nat, width: nat) -> Seq<char> {
    let digits = decimal(n);
    if digits.len() >= width {
        digits
    } else {
        zeros((width - digits.len()) as nat) + digits
    }
}

/// The whole hours in `nanos` nanoseconds.
pub open spec fn hours_of(nanos: nat) -> nat {
    nanos / NANOS_PER_SECOND as nat / 3600
}

/// The whole minutes in `nanos` nanoseconds, past the hour.
pub open spec fn minutes_of(nanos: nat) -> nat {
    nanos / NANOS_PER_SECOND as nat / 60 % 60
}

/// The whole seconds in `nanos` nanoseconds, past the minute.
pub open spec fn seconds_of(nanos: nat) -> nat {
    nanos / NANOS_PER_SECOND as nat % 60
}

/// The whole milliseconds in `nanos` nanoseconds, past the second.
pub open spec fn millis_of(nanos: nat) -> nat {
    nanos / NANOS_PER_MILLI as nat % 1000
}

/// The text of an elapsed time of `nanos` nanoseconds.
pub open spec fn clock_text(nanos: nat) -> Seq<char> {
    zero_padded(hours_of(nanos), 2) + seq![':'] + zero_padded(minutes_of(nanos), 2) + seq![':']
        + zero_padded(seconds_of(nanos), 2) + seq!['.'] + zero_padded(millis_of(nanos), 3)
}

/// The one-character text of a decimal digit.
fn digit_text(d: u8) -> (s: &'static str)
    requires
        d < 10,
    ensures
        s@ == seq![digit_char(d as nat)],
{
    proof {
        reveal_strlit("0");
        reveal_strlit("1");
        reveal_strlit("2");
        reveal_strlit("3");
        reveal_strlit("4");
        reveal_strlit("5");
        reveal_strlit("6");
        reveal_strlit("7");
        reveal_strlit("8");
        reveal_strlit("9");
    }
    let s: &'static str = match d {
        0 => "0",
        1 => "1",
        2 => "2",
        3 => "3",
        4 => "4",
        5 => "5",
        6 => "6",
        7 => "7",
        8 => "8",
        _ => "9",
    };
    assert(s@ =~= seq![digit_char(d as nat)]);
    s
}

/// The number of digits of `n` in decimal.
fn decimal_len(n: u128) -> (len: usize)
    ensures
        len == decimal(n as nat).len(),
        1 <= len <= 39,
    decreases n,
{
    if n < 10 {
        1
    } else {
        let shorter: usize = decimal_len(n / 10);
        assert(shorter <= 38) by {
            reveal_with_fuel(pow10, 39);
            assert(pow10(38) == 100_000_000_000_000_000_000_000_000_000_000_000_000);
            lemma_decimal_len_bound(n as nat / 10, 38);
        }
        shorter + 1
    }
}

/// A number below the `digits`-th power of ten has at most `digits` digits.
proof fn lemma_decimal_len_bound(n: nat, digits: nat)
    requires
        digits >= 1,
        n < pow10(digits),
    ensures
        decimal(n).len() <= digits,
    decreases digits,
{
    if n >= 10 {
        assert(digits >= 2) by {
            reveal_with_fuel(pow10, 2);
        }
        lemma_decimal_len_bound(n / 10, (digits - 1) as nat);
    }
}

/// Ten to the power `e`.
spec fn pow10(e: nat) -> nat
    decreases e,
{
    if e == 0 {
        1
    } else {
        10 * pow10((e - 1) as nat)
    }
}

/// Puts `n` in decimal at the end of `out`.
fn push_decimal(out: &mut String, n: u128)
    ensures
        final(out)@ == old(out)@ + decimal(n as nat),
    decreases n,
{
    if n >= 10 {
        push_decimal(out, n / 10);
    }
    let digit: u8 = (n % 10) as u8;
    out.append(digit_text(digit));
    assert(out@ =~= old(out)@ + decimal(n as nat));
}

/// Puts `n` in decimal at the end of `out`, with zeros in front up to
/// `width` digits.
fn push_zero_padded(out: &mut String, n: u128, width: usize)
    ensures
        final(out)@ == old(out)@ + zero_padded(n as nat, width as nat),
{
    let len: usize = decimal_len(n);
    let mut written: usize = len;
    proof {
        reveal_strlit("0");
    }
    while written < width
        invariant
            len <= written,
            written <= width || written == len,
            out@ == old(out)@ + zeros((written - len) as nat),
            "0"@ == seq!['0'],
        decreases width - written,
    {
        out.append("0");
        written = written + 1;
        assert(out@ =~= old(out)@ + zeros((written - len) as nat));
    }
    push_decimal(out, n);
    assert(out@ =~= old(out)@ + zero_padded(n as nat, width as nat));
}

/// The text of an elapsed time of `nanos` nanoseconds: hours, minutes,
/// seconds and milliseconds as `HH:MM:SS.mmm`.
pub fn format_elapsed(nanos: u128) -> (text: String)
    ensures
        text@ == clock_text(nanos as nat),
{
    let seconds: u128 = nanos / NANOS_PER_SECOND;
    let millis: u128 = nanos / NANOS_PER_MILLI % 1000;
    proof {
        reveal_strlit(":");
        reveal_strlit(".");
    }
    let mut text = String::new();
    push_zero_padded(&mut text, seconds / 3600, 2);
    text.append(":");
    push_zero_padded(&mut text, seconds / 60 % 60, 2);
    text.append(":");
    push_zero_padded(&mut text, seconds % 60, 2);
    text.append(".");
    push_zero_padded(&mut text, millis, 3);
    assert(text@ =~= clock_text(nanos as nat));
    text
}

} // verus!
