//! Decimal rendering of numbers, with and without thousands separators.
use vstd::prelude::*;

use crate::text::push_char;

verus! {

/// The ASCII digit for `d`, which must be below ten.
pub open spec fn digit_char(d: nat) -> char {
    if d == 0 { '0' }
    else if d == 1 { '1' }
    else if d == 2 { '2' }
    else if d == 3 { '3' }
    else if d == 4 { '4' }
    else if d == 5 { '5' }
    else if d == 6 { '6' }
    else if d == 7 { '7' }
    else if d == 8 { '8' }
    else { '9' }
}

/// Decimal representation of `n`, most significant digit first, no leading zeros.
pub open spec fn spec_decimal(n: nat) -> Seq<char>
    decreases n,
{
    if n < 10 {
        seq![digit_char(n)]
    } else {
        spec_decimal(n / 10).push(digit_char(n % 10))
    }
}

/// `n` written in decimal with a comma between each group of three digits,
/// counted from the right.
pub open spec fn spec_fmt_score(n: nat) -> Seq<char>
    decreases n,
{
    if n < 1000 {
        spec_decimal(n)
    } else {
        spec_fmt_score(n / 1000) + seq![','] + spec_three_digits(n % 1000)
    }
}

/// Exactly three decimal digits of `n` (below one thousand), zero-padded.
pub open spec fn spec_three_digits(n: nat) -> Seq<char> {
    seq![digit_char(n / 100), digit_char((n / 10) % 10), digit_char(n % 10)]
}

fn digit(d: u64) -> (c: char)
    requires
        d < 10,
    ensures
        c == digit_char(d as nat),
{
    if d == 0 { '0' }
    else if d == 1 { '1' }
    else if d == 2 { '2' }
    else if d == 3 { '3' }
    else if d == 4 { '4' }
    else if d == 5 { '5' }
    else if d == 6 { '6' }
    else if d == 7 { '7' }
    else if d == 8 { '8' }
    else { '9' }
}

/// Appends the decimal representation of `n` to `out`.
pub fn push_decimal(out: &mut String, n: u64)
    ensures
        final(out)@ == old(out)@ + spec_decimal(n as nat),
    decreases n,
{
    if n < 10 {
        push_char(out, digit(n));
    } else {
        push_decimal(out, n / 10);
        push_char(out, digit(n % 10));
    }
}

/// The decimal representation of `n`.
pub fn decimal(n: u64) -> (s: String)
    ensures
        s@ == spec_decimal(n as nat),
{
    let mut s = String::new();
    push_decimal(&mut s, n);
    s
}

fn push_fmt_score(out: &mut String, n: u64)
    ensures
        final(out)@ == old(out)@ + spec_fmt_score(n as nat),
    decreases n,
{
    if n < 1000 {
        push_decimal(out, n);
    } else {
        push_fmt_score(out, n / 1000);
        let r = n % 1000;
        push_char(out, ',');
        push_char(out, digit(r / 100));
        push_char(out, digit((r / 10) % 10));
        push_char(out, digit(r % 10));
    }
}

/// Formats a score with thousands separators: `1234567` becomes `1,234,567`.
pub fn fmt_score(n: u64) -> (s: String)
    ensures
        s@ == spec_fmt_score(n as nat),
{
    let mut s = String::new();
    push_fmt_score(&mut s, n);
    s
}


/// Milliseconds as seconds with one decimal, rounded to the nearest tenth
/// (halves up): `9450` gives `9.5`.
pub open spec fn spec_seconds_tenths(ms: nat) -> Seq<char> {
    let t = (ms + 50) / 100;
    spec_decimal(t / 10) + seq!['.', digit_char(t % 10)]
}

/// Milliseconds as seconds with one decimal, rounded to the nearest tenth.
pub fn seconds_tenths(ms: u64) -> (s: String)
    ensures
        s@ == spec_seconds_tenths(ms as nat),
{
    let t: u64 = ms / 100 + if ms % 100 >= 50 { 1 } else { 0 };
    assert(t == (ms + 50) / 100);
    let mut s = decimal(t / 10);
    push_char(&mut s, '.');
    push_char(&mut s, digit(t % 10));
    s
}

} // verus!
