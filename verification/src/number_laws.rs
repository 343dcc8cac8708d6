//! Laws of the number formatting in `number`.
use vstd::prelude::*;

use crate::number::{digit_char, spec_decimal, spec_fmt_score, spec_three_digits};

verus! {

/// Decimal digits hold no comma.
proof fn lemma_decimal_no_comma(n: nat)
    ensures
        spec_decimal(n).filter(|c: char| c != ',') == spec_decimal(n),
    decreases n,
{
    let f = |c: char| c != ',';
    if n < 10 {
        Seq::<char>::empty().lemma_filter_push(digit_char(n), f);
        assert(Seq::<char>::empty().filter(f) =~= Seq::<char>::empty()) by {
            reveal(Seq::filter);
        }
        assert(Seq::<char>::empty().push(digit_char(n)) =~= spec_decimal(n));
    } else {
        lemma_decimal_no_comma(n / 10);
        spec_decimal(n / 10).lemma_filter_push(digit_char(n % 10), f);
    }
}

/// Splitting off the last three digits of a number of at least four digits.
proof fn lemma_decimal_thousands(n: nat)
    requires
        n >= 1000,
    ensures
        spec_decimal(n) == spec_decimal(n / 1000) + spec_three_digits(n % 1000),
{
    let q = n / 1000;
    let m = n % 1000;
    assert(n / 10 == 100 * q + m / 10);
    assert(n / 100 == 10 * q + m / 100);
    assert(n / 10 / 10 == n / 100);
    assert(n / 100 / 10 == q);
    assert((n / 10) % 10 == (m / 10) % 10);
    assert((n / 100) % 10 == m / 100);
    assert(n % 10 == m % 10);
    assert(spec_decimal(n / 10) == spec_decimal(n / 100).push(digit_char((n / 10) % 10)));
    assert(spec_decimal(n / 100) == spec_decimal(q).push(digit_char((n / 100) % 10)));
    assert(spec_decimal(n) =~= spec_decimal(q) + spec_three_digits(m));
}


/// Thousands separators change nothing but the commas: dropping them from
/// `fmt_score(n)` gives the plain decimal digits of `n`.
pub proof fn law_fmt_score_digits(n: nat)
    ensures
        spec_fmt_score(n).filter(|c: char| c != ',') == spec_decimal(n),
    decreases n,
{
    let f = |c: char| c != ',';
    if n < 1000 {
        lemma_decimal_no_comma(n);
    } else {
        law_fmt_score_digits(n / 1000);
        lemma_decimal_thousands(n);
        let a = spec_fmt_score(n / 1000);
        let t = spec_three_digits(n % 1000);
        let e = Seq::<char>::empty();
        lemma_three_digits_no_comma(n % 1000);
        a.lemma_filter_push(',', f);
        assert(a + seq![','] == a.push(','));
        Seq::filter_distributes_over_add(a.push(','), t, f);
        assert(spec_fmt_score(n) == a.push(',') + t);
        assert(a.push(',').filter(f) == a.filter(f));
        assert(a.filter(f) == spec_decimal(n / 1000));
    }
}

proof fn lemma_three_digits_no_comma(m: nat)
    ensures
        spec_three_digits(m).filter(|c: char| c != ',') == spec_three_digits(m),
{
    let f = |c: char| c != ',';
    let t = spec_three_digits(m);
    let e = Seq::<char>::empty();
    assert(e.filter(f) =~= e) by {
        reveal(Seq::filter);
    }
    e.lemma_filter_push(t[0], f);
    e.push(t[0]).lemma_filter_push(t[1], f);
    e.push(t[0]).push(t[1]).lemma_filter_push(t[2], f);
    assert(e.push(t[0]).push(t[1]).push(t[2]) =~= t);
}

} // verus!
