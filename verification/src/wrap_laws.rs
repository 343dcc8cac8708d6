//! Laws of word wrapping that relate several wraps: wrapping again changes
//! nothing, and a wider wrap never needs more lines.
use vstd::prelude::*;

use crate::text::{
    byte_len, is_ws, join_spaces, join_with, lemma_byte_len_space, lemma_encode_utf8_add,
    lemma_split_words_last, lemma_split_words_shape, lemma_wrap_words_props, split_words,
    spec_word_wrap, wrap_step, wrap_words, law_word_wrap_keeps_words, law_word_wrap_lines_fit,
};

verus! {

/// Whether every part is non-empty and holds no white space.
pub open spec fn plain_words(ws: Seq<Seq<char>>) -> bool {
    &&& forall|k: int| 0 <= k < ws.len() ==> (#[trigger] ws[k]).len() > 0
    &&& forall|k: int, j: int| 0 <= k < ws.len() && 0 <= j < ws[k].len() ==> !is_ws(#[trigger] ws[k][j])
}

/// A word after white space (or at the start) is one more word.
proof fn lemma_split_push_word(s: Seq<char>, w: Seq<char>)
    requires
        w.len() > 0,
        forall|j: int| 0 <= j < w.len() ==> !is_ws(#[trigger] w[j]),
        s.len() == 0 || is_ws(s.last()),
    ensures
        split_words(s + w) == split_words(s).push(w),
    decreases w.len(),
{
    let x = w.last();
    if w.len() == 1 {
        assert(s + w =~= s.push(x));
        assert((s + w).drop_last() =~= s);
        assert(w =~= seq![x]);
    } else {
        let w2 = w.drop_last();
        assert forall|j: int| 0 <= j < w2.len() implies !is_ws(#[trigger] w2[j]) by {
            assert(w2[j] == w[j]);
        }
        lemma_split_push_word(s, w2);
        assert((s + w).drop_last() =~= s + w2);
        assert((s + w)[(s + w).len() - 2] == w2.last());
        assert(w2.push(x) =~= w);
        assert(split_words(s).push(w2).update(split_words(s).len() as int, w2.push(x)) =~= split_words(s).push(w));
    }
}

/// White space splits a text into the words before it and the words after.
proof fn lemma_split_concat(a: Seq<char>, c: char, b: Seq<char>)
    requires
        is_ws(c),
    ensures
        split_words(a.push(c) + b) == split_words(a) + split_words(b),
    decreases b.len(),
{
    if b.len() == 0 {
        assert(a.push(c) + b =~= a.push(c));
        assert(a.push(c).drop_last() =~= a);
        assert(split_words(a) + split_words(b) =~= split_words(a));
    } else {
        let b2 = b.drop_last();
        let x = b.last();
        lemma_split_concat(a, c, b2);
        let s = a.push(c) + b2;
        assert(a.push(c) + b =~= s.push(x));
        assert(s.push(x).drop_last() =~= s);
        if is_ws(x) {
        } else if b2.len() >= 1 && !is_ws(b2.last()) {
            lemma_split_words_last(b2);
            assert(s.push(x)[s.push(x).len() - 2] == b2.last());
            assert(b[b.len() - 2] == b2.last());
            let p = split_words(a) + split_words(b2);
            assert(p.update(p.len() - 1, p.last().push(x)) =~= split_words(a)
                + split_words(b2).update(split_words(b2).len() - 1, split_words(b2).last().push(x)));
        } else {
            if b2.len() == 0 {
                assert(s.push(x)[s.push(x).len() - 2] == c);
            } else {
                assert(s.push(x)[s.push(x).len() - 2] == b2.last());
                assert(b[b.len() - 2] == b2.last());
            }
            assert((split_words(a) + split_words(b2)).push(seq![x]) =~= split_words(a) + split_words(b2).push(seq![x]));
        }
    }
}

/// Which white-space character joins the parts does not change the words.
proof fn lemma_split_join_any_sep(parts: Seq<Seq<char>>, c1: char, c2: char)
    requires
        is_ws(c1),
        is_ws(c2),
    ensures
        split_words(join_with(parts, c1)) == split_words(join_with(parts, c2)),
    decreases parts.len(),
{
    if parts.len() >= 2 {
        lemma_split_join_any_sep(parts.drop_last(), c1, c2);
        assert(join_with(parts, c1) =~= join_with(parts.drop_last(), c1).push(c1) + parts.last());
        assert(join_with(parts, c2) =~= join_with(parts.drop_last(), c2).push(c2) + parts.last());
        lemma_split_concat(join_with(parts.drop_last(), c1), c1, parts.last());
        lemma_split_concat(join_with(parts.drop_last(), c2), c2, parts.last());
    }
}

/// Words joined by white space split back into the same words.
proof fn lemma_split_join(ws: Seq<Seq<char>>, c: char)
    requires
        is_ws(c),
        plain_words(ws),
    ensures
        split_words(join_with(ws, c)) == ws,
    decreases ws.len(),
{
    if ws.len() == 0 {
    } else if ws.len() == 1 {
        lemma_split_push_word(Seq::empty(), ws[0]);
        assert(Seq::<char>::empty() + ws[0] =~= ws[0]);
        assert(Seq::<Seq<char>>::empty().push(ws[0]) =~= ws);
    } else {
        let dl = ws.drop_last();
        assert(plain_words(dl)) by {
            assert forall|k: int| 0 <= k < dl.len() implies (#[trigger] dl[k]).len() > 0 by {
                assert(dl[k] == ws[k]);
            }
            assert forall|k: int, j: int| 0 <= k < dl.len() && 0 <= j < dl[k].len() implies !is_ws(#[trigger] dl[k][j]) by {
                assert(dl[k] == ws[k]);
            }
        }
        lemma_split_join(dl, c);
        assert(join_with(ws, c) =~= join_with(dl, c).push(c) + ws.last());
        lemma_split_concat(join_with(dl, c), c, ws.last());
        let w = ws.last();
        assert(w == ws[ws.len() - 1]);
        assert forall|j: int| 0 <= j < w.len() implies !is_ws(#[trigger] w[j]) by {
            assert(w[j] == ws[ws.len() - 1][j]);
        }
        lemma_split_push_word(Seq::empty(), w);
        assert(Seq::<char>::empty() + w =~= w);
        assert(dl + Seq::<Seq<char>>::empty().push(w) =~= ws);
    }
}

/// A text that is its words joined by single spaces.
pub open spec fn is_joined(x: Seq<char>) -> bool {
    split_words(x).len() > 0 && x == join_spaces(split_words(x))
}

/// Every line that greedy wrapping makes is its own words joined by single
/// spaces.
proof fn lemma_wrap_words_joined(ws: Seq<Seq<char>>, width: nat)
    requires
        plain_words(ws),
    ensures
        ws.len() > 0 ==> ({
            let (lines, cur) = wrap_words(ws, width);
            forall|k: int| 0 <= k < lines.push(cur).len() ==> is_joined(#[trigger] lines.push(cur)[k])
        }),
    decreases ws.len(),
{
    if ws.len() > 0 {
        let dl = ws.drop_last();
        assert(plain_words(dl)) by {
            assert forall|k: int| 0 <= k < dl.len() implies (#[trigger] dl[k]).len() > 0 by {
                assert(dl[k] == ws[k]);
            }
            assert forall|k: int, j: int| 0 <= k < dl.len() && 0 <= j < dl[k].len() implies !is_ws(#[trigger] dl[k][j]) by {
                assert(dl[k] == ws[k]);
            }
        }
        lemma_wrap_words_joined(dl, width);
        lemma_wrap_words_props(dl, width);
        let (lines, cur) = wrap_words(dl, width);
        let w = ws.last();
        assert(w == ws[ws.len() - 1]);
        assert forall|j: int| 0 <= j < w.len() implies !is_ws(#[trigger] w[j]) by {
            assert(w[j] == ws[ws.len() - 1][j]);
        }
        lemma_split_push_word(Seq::empty(), w);
        assert(Seq::<char>::empty() + w =~= w);
        assert(is_joined(w)) by {
            assert(split_words(w) =~= seq![w]);
        }
        if cur.len() == 0 {
            assert(dl.len() == 0);
            assert(lines.push(w) =~= seq![w]);
        } else if byte_len(cur) + 1 + byte_len(w) <= width {
            let nc = cur + seq![' '] + w;
            assert(lines.push(cur)[lines.len() as int] == cur);
            assert(is_joined(cur));
            lemma_split_concat(cur, ' ', w);
            assert(nc =~= cur.push(' ') + w);
            assert(split_words(nc) =~= split_words(cur).push(w));
            assert(split_words(cur).push(w).drop_last() =~= split_words(cur));
            assert(join_spaces(split_words(nc)) =~= join_spaces(split_words(cur)) + seq![' '] + w);
            assert forall|k: int| 0 <= k < lines.push(nc).len() implies is_joined(#[trigger] lines.push(nc)[k]) by {
                if k < lines.len() {
                    assert(lines.push(nc)[k] == lines.push(cur)[k]);
                }
            }
        } else {
            let nl = lines.push(cur);
            assert forall|k: int| 0 <= k < nl.push(w).len() implies is_joined(#[trigger] nl.push(w)[k]) by {
                if k < nl.len() {
                    assert(nl.push(w)[k] == nl[k]);
                }
            }
        }
    }
}

/// Words that fit on one line, or a single word, wrap to exactly one line.
proof fn lemma_wrap_fits_one_line(ws: Seq<Seq<char>>, width: nat)
    requires
        ws.len() > 0,
        forall|k: int| 0 <= k < ws.len() ==> (#[trigger] ws[k]).len() > 0,
        ws.len() == 1 || byte_len(join_spaces(ws)) <= width,
    ensures
        wrap_words(ws, width) == (Seq::<Seq<char>>::empty(), join_spaces(ws)),
    decreases ws.len(),
{
    let dl = ws.drop_last();
    let w = ws.last();
    assert(w == ws[ws.len() - 1]);
    if ws.len() == 1 {
        assert(dl =~= Seq::<Seq<char>>::empty());
        assert(wrap_words(dl, width) == (Seq::<Seq<char>>::empty(), Seq::<char>::empty()));
        assert(wrap_words(ws, width) == wrap_step(wrap_words(dl, width), w, width));
        assert(join_spaces(ws) == w);
    } else {
        assert(join_spaces(ws) =~= join_spaces(dl) + seq![' '] + w);
        lemma_encode_utf8_add(join_spaces(dl) + seq![' '], w);
        lemma_encode_utf8_add(join_spaces(dl), seq![' ']);
        lemma_byte_len_space();
        assert forall|k: int| 0 <= k < dl.len() implies (#[trigger] dl[k]).len() > 0 by {
            assert(dl[k] == ws[k]);
        }
        lemma_wrap_fits_one_line(dl, width);
        if dl.len() == 1 {
            assert(join_spaces(dl) == dl[0]);
        } else {
            assert(join_spaces(dl) =~= join_spaces(dl.drop_last()) + seq![' '] + dl.last());
        }
        assert(join_spaces(dl).len() > 0);
        assert(wrap_words(ws, width) == wrap_step(wrap_words(dl, width), w, width));
        assert(byte_len(join_spaces(dl)) + 1 + byte_len(w) == byte_len(join_spaces(ws)));
    }
}

/// Wrapping again changes nothing: the wrapped lines joined by spaces, or
/// by line breaks, wrap to the same lines, and each line alone wraps to
/// itself.
pub proof fn law_word_wrap_rewrap(text: Seq<char>, width: nat)
    requires
        width > 0,
    ensures
        spec_word_wrap(join_with(spec_word_wrap(text, width), ' '), width) == spec_word_wrap(text, width),
        spec_word_wrap(join_with(spec_word_wrap(text, width), '\n'), width) == spec_word_wrap(text, width),
        forall|i: int| 0 <= i < spec_word_wrap(text, width).len()
            ==> spec_word_wrap(#[trigger] spec_word_wrap(text, width)[i], width) == seq![spec_word_wrap(text, width)[i]],
{
    let ws = split_words(text);
    let r = spec_word_wrap(text, width);
    lemma_split_words_shape(text);
    assert(plain_words(ws));
    lemma_wrap_words_props(ws, width);
    law_word_wrap_keeps_words(text, width);
    law_word_wrap_lines_fit(text, width);
    assert(is_ws(' ') && is_ws('\n'));
    lemma_split_join(ws, ' ');
    lemma_split_join_any_sep(r, ' ', '\n');
    assert(split_words(join_with(r, ' ')) == ws);
    assert(split_words(join_with(r, '\n')) == ws);
    if ws.len() > 0 {
        lemma_wrap_words_joined(ws, width);
        let (lines, cur) = wrap_words(ws, width);
        assert(r == lines.push(cur));
        assert forall|i: int| 0 <= i < r.len() implies spec_word_wrap(#[trigger] r[i], width) == seq![r[i]] by {
            let l = r[i];
            assert(is_joined(lines.push(cur)[i]));
            let lw = split_words(l);
            lemma_split_words_shape(l);
            if ws.contains(l) {
                let k = choose|k: int| 0 <= k < ws.len() && ws[k] == l;
                assert forall|j: int| 0 <= j < l.len() implies !is_ws(#[trigger] l[j]) by {
                    assert(ws[k][j] == l[j]);
                }
                lemma_split_push_word(Seq::empty(), l);
                assert(Seq::<char>::empty() + l =~= l);
                assert(lw =~= seq![l]);
            }
            lemma_wrap_fits_one_line(lw, width);
        }
    }
}


/// Where each line of the greedy wrap of `ws` starts, as an index into
/// `ws`; the last entry is where the open line starts.
pub open spec fn line_starts(ws: Seq<Seq<char>>, width: nat) -> Seq<nat>
    decreases ws.len(),
{
    if ws.len() == 0 {
        Seq::empty()
    } else {
        let dl = ws.drop_last();
        let (lines, cur) = wrap_words(dl, width);
        if cur.len() == 0 {
            seq![0nat]
        } else if byte_len(cur) + 1 + byte_len(ws.last()) <= width {
            line_starts(dl, width)
        } else {
            line_starts(dl, width).push(dl.len())
        }
    }
}

/// Joining two non-empty lists of words puts one space between them.
proof fn lemma_join_concat(a: Seq<Seq<char>>, b: Seq<Seq<char>>)
    requires
        a.len() > 0,
        b.len() > 0,
    ensures
        join_spaces(a + b) == join_spaces(a) + seq![' '] + join_spaces(b),
    decreases b.len(),
{
    assert((a + b).drop_last() =~= a + b.drop_last());
    assert((a + b).last() == b.last());
    if b.len() == 1 {
        assert(b.drop_last().len() == 0);
        assert(a + b.drop_last() =~= a);
    } else {
        lemma_join_concat(a, b.drop_last());
    }
}

/// A later start of the open line leaves it no longer in bytes.
proof fn lemma_join_suffix_shorter(ws: Seq<Seq<char>>, s1: int, s2: int, k: int)
    requires
        0 <= s1 <= s2 < k <= ws.len(),
    ensures
        byte_len(join_spaces(ws.subrange(s2, k))) <= byte_len(join_spaces(ws.subrange(s1, k))),
{
    if s1 < s2 {
        lemma_join_concat(ws.subrange(s1, s2), ws.subrange(s2, k));
        assert(ws.subrange(s1, s2) + ws.subrange(s2, k) =~= ws.subrange(s1, k));
        let a = join_spaces(ws.subrange(s1, s2));
        lemma_encode_utf8_add(a + seq![' '], join_spaces(ws.subrange(s2, k)));
    }
}

/// The starts describe the wrap: one per line, increasing, inside `ws`,
/// and the open line is the words from the last start joined by spaces.
proof fn lemma_line_starts(ws: Seq<Seq<char>>, width: nat)
    requires
        forall|k: int| 0 <= k < ws.len() ==> (#[trigger] ws[k]).len() > 0,
    ensures
        ws.len() > 0 ==> ({
            let st = line_starts(ws, width);
            let (lines, cur) = wrap_words(ws, width);
            &&& st.len() == lines.len() + 1
            &&& st[0] == 0
            &&& forall|i: int| 0 <= i < st.len() ==> #[trigger] st[i] < ws.len()
            &&& st.last() < ws.len()
            &&& cur == join_spaces(ws.subrange(st.last() as int, ws.len() as int))
        }),
    decreases ws.len(),
{
    if ws.len() > 0 {
        let dl = ws.drop_last();
        let w = ws.last();
        assert(w == ws[ws.len() - 1]);
        assert forall|k: int| 0 <= k < dl.len() implies (#[trigger] dl[k]).len() > 0 by {
            assert(dl[k] == ws[k]);
        }
        lemma_line_starts(dl, width);
        lemma_wrap_words_props(dl, width);
        let (lines, cur) = wrap_words(dl, width);
        let st0 = line_starts(dl, width);
        let n = ws.len() as int;
        if cur.len() == 0 {
            assert(dl.len() == 0);
            assert(ws.subrange(0, n) =~= seq![w]);
        } else if byte_len(cur) + 1 + byte_len(w) <= width {
            let s = st0.last() as int;
            assert(ws.subrange(s, n).drop_last() =~= dl.subrange(s, n - 1));
            assert(ws.subrange(s, n).last() == w);
            assert(ws.subrange(s, n).len() >= 2);
        } else {
            assert(ws.subrange(n - 1, n) =~= seq![w]);
            assert(line_starts(ws, width) == st0.push(dl.len()));
        }
    }
}

/// A wider wrap never needs more lines.
pub proof fn law_word_wrap_wider_fewer_lines(text: Seq<char>, w1: nat, w2: nat)
    requires
        0 < w1 <= w2,
    ensures
        spec_word_wrap(text, w2).len() <= spec_word_wrap(text, w1).len(),
{
    let ws = split_words(text);
    lemma_split_words_shape(text);
    if ws.len() > 0 {
        lemma_starts_ahead(ws, w1, w2);
        lemma_line_starts(ws, w1);
        lemma_line_starts(ws, w2);
        lemma_wrap_words_props(ws, w1);
        lemma_wrap_words_props(ws, w2);
    }
}

/// The wider wrap is never behind: it has no more lines so far, and its
/// last line starts no earlier than the narrower wrap's line of the same
/// number.
proof fn lemma_starts_ahead(ws: Seq<Seq<char>>, w1: nat, w2: nat)
    requires
        w1 <= w2,
        ws.len() > 0,
        forall|k: int| 0 <= k < ws.len() ==> (#[trigger] ws[k]).len() > 0,
    ensures
        line_starts(ws, w2).len() <= line_starts(ws, w1).len(),
        line_starts(ws, w2).last() >= line_starts(ws, w1)[line_starts(ws, w2).len() - 1],
    decreases ws.len(),
{
    let dl = ws.drop_last();
    let w = ws.last();
    assert(w == ws[ws.len() - 1]);
    assert forall|k: int| 0 <= k < dl.len() implies (#[trigger] dl[k]).len() > 0 by {
        assert(dl[k] == ws[k]);
    }
    if dl.len() == 0 {
        lemma_wrap_words_props(dl, w1);
        lemma_wrap_words_props(dl, w2);
    } else {
        lemma_starts_ahead(dl, w1, w2);
        lemma_line_starts(dl, w1);
        lemma_line_starts(dl, w2);
        lemma_wrap_words_props(dl, w1);
        lemma_wrap_words_props(dl, w2);
        let a0 = line_starts(dl, w1);
        let b0 = line_starts(dl, w2);
        let (l1, c1) = wrap_words(dl, w1);
        let (l2, c2) = wrap_words(dl, w2);
        let k = dl.len() as int;
        let fits1 = byte_len(c1) + 1 + byte_len(w) <= w1;
        let fits2 = byte_len(c2) + 1 + byte_len(w) <= w2;
        if b0.len() == a0.len() && !fits2 {
            lemma_join_suffix_shorter(dl, a0.last() as int, b0.last() as int, k);
            assert(!fits1);
        }
        let a = line_starts(ws, w1);
        let b = line_starts(ws, w2);
        assert(a == if fits1 { a0 } else { a0.push(k as nat) });
        assert(b == if fits2 { b0 } else { b0.push(k as nat) });
        if !fits2 && b0.len() < a0.len() {
            assert(a[b0.len() as int] == a0[b0.len() as int]);
            assert(a0[b0.len() as int] < k);
        }
    }
}

} // verus!
