//! Text helpers: decimal rendering, thousands separators and word wrapping.
use vstd::prelude::*;

verus! {

/// Appends one character to a string.
///
/// Trusted: calls `String::push`, which std documents as appending the
/// given `char` to the end of the string.
#[verifier::external_body]
pub(crate) fn push_char(s: &mut String, c: char)
    ensures
        final(s)@ == old(s)@.push(c),
{
    s.push(c);
}

/// `n` copies of `c`.
pub fn repeat_char(c: char, n: usize) -> (s: String)
    ensures
        s@ == Seq::new(n as nat, |_i: int| c),
{
    let mut s = String::new();
    let mut i: usize = 0;
    while i < n
        invariant
            i <= n,
            s@ == Seq::new(i as nat, |_i: int| c),
        decreases n - i,
    {
        push_char(&mut s, c);
        i = i + 1;
        assert(s@ =~= Seq::new(i as nat, |_i: int| c));
    }
    s
}

/// `s` followed by spaces up to `width` characters; unchanged when it is
/// already that long.
pub open spec fn spec_pad_right(s: Seq<char>, width: nat) -> Seq<char> {
    if s.len() >= width {
        s
    } else {
        s + Seq::new((width - s.len()) as nat, |_i: int| ' ')
    }
}

/// Spaces up to `width` characters, then `s`; unchanged when `s` is
/// already that long.
pub open spec fn spec_pad_left(s: Seq<char>, width: nat) -> Seq<char> {
    if s.len() >= width {
        s
    } else {
        Seq::new((width - s.len()) as nat, |_i: int| ' ') + s
    }
}

/// Left-aligns `s` in a field of `width` characters, as `{:<width$}` does.
pub fn pad_right(s: &str, width: usize) -> (r: String)
    ensures
        r@ == spec_pad_right(s@, width as nat),
{
    let n = s.unicode_len();
    let mut r = String::from_str(s);
    if n < width {
        let pad = repeat_char(' ', width - n);
        r.append(pad.as_str());
    }
    r
}

/// Right-aligns `s` in a field of `width` characters, as `{:>width$}` does.
pub fn pad_left(s: &str, width: usize) -> (r: String)
    ensures
        r@ == spec_pad_left(s@, width as nat),
{
    let n = s.unicode_len();
    if n < width {
        let mut r = repeat_char(' ', width - n);
        r.append(s);
        r
    } else {
        String::from_str(s)
    }
}

/// Unicode `White_Space` characters: the characters on which text is split
/// into words.
pub open spec fn is_ws(c: char) -> bool {
    let u = c as u32;
    ||| 0x09 <= u <= 0x0D
    ||| u == 0x20
    ||| u == 0x85
    ||| u == 0xA0
    ||| u == 0x1680
    ||| 0x2000 <= u <= 0x200A
    ||| u == 0x2028
    ||| u == 0x2029
    ||| u == 0x202F
    ||| u == 0x205F
    ||| u == 0x3000
}

/// Whether `c` is a Unicode white-space character.
pub fn is_whitespace(c: char) -> (b: bool)
    ensures
        b == is_ws(c),
{
    let u = c as u32;
    (0x09 <= u && u <= 0x0D) || u == 0x20 || u == 0x85 || u == 0xA0 || u == 0x1680
        || (0x2000 <= u && u <= 0x200A) || u == 0x2028 || u == 0x2029 || u == 0x202F
        || u == 0x205F || u == 0x3000
}

/// Number of bytes of the UTF-8 encoding of `s`.
pub open spec fn byte_len(s: Seq<char>) -> nat {
    vstd::utf8::encode_utf8(s).len()
}

/// The words of `s`: its maximal runs of non-white-space characters, in order.
pub open spec fn split_words(s: Seq<char>) -> Seq<Seq<char>>
    decreases s.len(),
{
    if s.len() == 0 {
        Seq::empty()
    } else {
        let prev = split_words(s.drop_last());
        let c = s.last();
        if is_ws(c) {
            prev
        } else if s.len() >= 2 && !is_ws(s[s.len() - 2]) {
            prev.update(prev.len() - 1, prev.last().push(c))
        } else {
            prev.push(seq![c])
        }
    }
}

/// One greedy step of wrapping: `word` joins the current line when the line
/// is empty or when the line, a space and the word fit in `width` bytes;
/// otherwise the current line is closed and `word` starts the next one.
pub open spec fn wrap_step(
    state: (Seq<Seq<char>>, Seq<char>),
    word: Seq<char>,
    width: nat,
) -> (Seq<Seq<char>>, Seq<char>) {
    let (lines, current) = state;
    if current.len() == 0 {
        (lines, word)
    } else if byte_len(current) + 1 + byte_len(word) <= width {
        (lines, current + seq![' '] + word)
    } else {
        (lines.push(current), word)
    }
}

/// Greedy wrapping of `words`: the closed lines and the line still open.
pub open spec fn wrap_words(words: Seq<Seq<char>>, width: nat) -> (Seq<Seq<char>>, Seq<char>)
    decreases words.len(),
{
    if words.len() == 0 {
        (Seq::empty(), Seq::empty())
    } else {
        wrap_step(wrap_words(words.drop_last(), width), words.last(), width)
    }
}

/// The lines that `word_wrap` produces for `text` and `width`.
pub open spec fn spec_word_wrap(text: Seq<char>, width: nat) -> Seq<Seq<char>> {
    if width == 0 {
        seq![text]
    } else {
        let (lines, current) = wrap_words(split_words(text), width);
        if current.len() == 0 {
            lines
        } else {
            lines.push(current)
        }
    }
}

/// The UTF-8 encoding of a concatenation is the concatenation of the encodings.
pub proof fn lemma_encode_utf8_add(a: Seq<char>, b: Seq<char>)
    ensures
        vstd::utf8::encode_utf8(a + b) == vstd::utf8::encode_utf8(a) + vstd::utf8::encode_utf8(b),
    decreases a.len(),
{
    if a.len() == 0 {
        assert(a + b =~= b);
    } else {
        lemma_encode_utf8_add(a.drop_first(), b);
        assert((a + b).drop_first() =~= a.drop_first() + b);
        assert((a + b)[0] == a[0]);
    }
}

/// A space takes one byte.
pub proof fn lemma_byte_len_space()
    ensures
        byte_len(seq![' ']) == 1,
{
    assert(seq![' '].drop_first() =~= Seq::<char>::empty());
    assert(vstd::utf8::encode_utf8(seq![' ']) =~= vstd::utf8::encode_scalar(' ' as u32)
        + vstd::utf8::encode_utf8(Seq::<char>::empty()));
}

/// The byte length of a slice of `s` is at most the byte length of `s`.
pub proof fn lemma_byte_len_subrange(s: Seq<char>, i: int, j: int)
    requires
        0 <= i <= j <= s.len(),
    ensures
        byte_len(s.subrange(i, j)) <= byte_len(s),
{
    lemma_encode_utf8_add(s.subrange(0, i), s.subrange(i, s.len() as int));
    assert(s =~= s.subrange(0, i) + s.subrange(i, s.len() as int));
    lemma_encode_utf8_add(s.subrange(i, j), s.subrange(j, s.len() as int));
    assert(s.subrange(i, s.len() as int) =~= s.subrange(i, j) + s.subrange(j, s.len() as int));
}

/// Splits `text` into its words, in order.
fn words_of(text: &str) -> (words: Vec<String>)
    ensures
        words@.map_values(|w: String| w@) == split_words(text@),
        forall|k: int| 0 <= k < words@.len() ==> byte_len(#[trigger] words@[k]@) <= byte_len(text@),
{
    let n = text.unicode_len();
    let mut words: Vec<String> = Vec::new();
    let mut in_word = false;
    let mut start: usize = 0;
    let mut i: usize = 0;
    while i < n
        invariant
            n == text@.len(),
            i <= n,
            start <= i,
            in_word ==> start < i && !is_ws(text@[i - 1]),
            !in_word ==> (i == 0 || is_ws(text@[i - 1])),
            in_word ==> words@.map_values(|w: String| w@).push(text@.subrange(start as int, i as int))
                == split_words(text@.take(i as int)),
            !in_word ==> words@.map_values(|w: String| w@) == split_words(text@.take(i as int)),
            forall|k: int| 0 <= k < words@.len() ==> byte_len(#[trigger] words@[k]@) <= byte_len(text@),
        decreases n - i,
    {
        let c = text.get_char(i);
        let ghost prev = text@.take(i as int);
        let ghost next = text@.take(i + 1);
        assert(next.drop_last() =~= prev);
        assert(next.last() == c);
        if is_whitespace(c) {
            if in_word {
                let w = text.substring_char(start, i);
                proof {
                    lemma_byte_len_subrange(text@, start as int, i as int);
                }
                let ghost before = words@.map_values(|w: String| w@);
                words.push(String::from_str(w));
                assert(words@.map_values(|w: String| w@) =~= before.push(text@.subrange(start as int, i as int)));
                in_word = false;
            }
        } else {
            if in_word {
                assert(next.len() >= 2 && next[next.len() - 2] == text@[i - 1]);
                assert(text@.subrange(start as int, i + 1) =~= text@.subrange(start as int, i as int).push(c));
            } else {
                start = i;
                assert(text@.subrange(start as int, i + 1) =~= seq![c]);
            }
            in_word = true;
        }
        i = i + 1;
    }
    assert(text@.take(n as int) =~= text@);
    if in_word {
        let w = text.substring_char(start, n);
        proof {
            lemma_byte_len_subrange(text@, start as int, n as int);
        }
        let ghost before = words@.map_values(|w: String| w@);
        words.push(String::from_str(w));
        assert(words@.map_values(|w: String| w@) =~= before.push(text@.subrange(start as int, n as int)));
    }
    words
}


/// Wraps `text` into lines of at most `width` bytes, greedily, word by word.
///
/// Words are the runs of non-white-space characters; a line holds words
/// joined by single spaces. A word longer than `width` stands alone on its
/// line. A `width` of zero gives back `text` as the only line.
pub fn word_wrap(text: &str, width: usize) -> (lines: Vec<String>)
    ensures
        lines@.map_values(|l: String| l@) == spec_word_wrap(text@, width as nat),
{
    // the bytes of a string are a slice, so their number fits in a `usize`
    let bytes = text.as_bytes();
    let n_bytes = bytes.len();
    assert(byte_len(text@) == n_bytes);
    if width == 0 {
        let v = vec![text.to_owned()];
        assert(v@.map_values(|l: String| l@) =~= seq![text@]);
        return v;
    }
    let words = words_of(text);
    let ghost ws = words@.map_values(|w: String| w@);
    let mut lines: Vec<String> = Vec::new();
    let mut current = String::new();
    let mut cur_len: usize = 0;
    let mut i: usize = 0;
    while i < words.len()
        invariant
            width > 0,
            ws == words@.map_values(|w: String| w@),
            ws == split_words(text@),
            byte_len(text@) <= usize::MAX,
            forall|k: int| 0 <= k < words@.len() ==> byte_len(#[trigger] words@[k]@) <= byte_len(text@),
            i <= words.len(),
            (lines@.map_values(|l: String| l@), current@) == wrap_words(ws.take(i as int), width as nat),
            cur_len == byte_len(current@),
        decreases words.len() - i,
    {
        let word = &words[i];
        let w_len = word.as_str().len();
        assert(word@ == ws[i as int]);
        assert(byte_len(word@) <= byte_len(text@));
        assert(w_len == byte_len(word@));
        assert(ws.take(i + 1).drop_last() =~= ws.take(i as int));
        assert(ws.take(i + 1).last() == ws[i as int]);
        let ghost before = lines@.map_values(|l: String| l@);
        if current.as_str().is_empty() {
            current = word.clone();
            cur_len = w_len;
        } else if w_len < width && cur_len <= width - 1 - w_len {
            let ghost old_cur = current@;
            current.append(" ");
            current.append(word.as_str());
            proof {
                reveal_strlit(" ");
                assert(current@ =~= old_cur + seq![' '] + word@);
                lemma_encode_utf8_add(old_cur + seq![' '], word@);
                lemma_encode_utf8_add(old_cur, seq![' ']);
                lemma_byte_len_space();
            }
            cur_len = cur_len + 1 + w_len;
        } else {
            lines.push(current.clone());
            assert(lines@.map_values(|l: String| l@) =~= before.push(current@));
            current = word.clone();
            cur_len = w_len;
        }
        i = i + 1;
    }
    assert(ws.take(words.len() as int) =~= ws);
    if !current.as_str().is_empty() {
        let ghost before = lines@.map_values(|l: String| l@);
        lines.push(current);
        assert(lines@.map_values(|l: String| l@) =~= before.push(current@));
    }
    lines
}


/// The strings of `parts` with `sep` between each two.
pub open spec fn join_with(parts: Seq<Seq<char>>, sep: char) -> Seq<char>
    decreases parts.len(),
{
    if parts.len() == 0 {
        Seq::empty()
    } else if parts.len() == 1 {
        parts[0]
    } else {
        join_with(parts.drop_last(), sep) + seq![sep] + parts.last()
    }
}

/// The strings of `parts` joined by single spaces.
pub open spec fn join_spaces(parts: Seq<Seq<char>>) -> Seq<char> {
    join_with(parts, ' ')
}

/// Every word is non-empty and holds no white space.
pub proof fn lemma_split_words_shape(s: Seq<char>)
    ensures
        forall|k: int| 0 <= k < split_words(s).len() ==> (#[trigger] split_words(s)[k]).len() > 0,
        forall|k: int, j: int|
            0 <= k < split_words(s).len() && 0 <= j < split_words(s)[k].len()
                ==> !is_ws(#[trigger] split_words(s)[k][j]),
    decreases s.len(),
{
    if s.len() > 0 {
        lemma_split_words_shape(s.drop_last());
        let prev = split_words(s.drop_last());
        let c = s.last();
        if !is_ws(c) && s.len() >= 2 && !is_ws(s[s.len() - 2]) {
            // the last word grows by one character; it exists because s[len-2] is in a word
            lemma_split_words_last(s.drop_last());
            assert forall|k: int, j: int|
                0 <= k < split_words(s).len() && 0 <= j < split_words(s)[k].len()
                    implies !is_ws(#[trigger] split_words(s)[k][j]) by {
                if k == prev.len() - 1 && j == prev.last().len() {
                } else {
                }
            }
        }
    }
}

/// When `s` ends with a non-white-space character, it has at least one word.
pub proof fn lemma_split_words_last(s: Seq<char>)
    requires
        s.len() > 0,
        !is_ws(s.last()),
    ensures
        split_words(s).len() > 0,
    decreases s.len(),
{
    if s.len() >= 2 && !is_ws(s[s.len() - 2]) {
        lemma_split_words_last(s.drop_last());
    }
}

/// What greedy wrapping keeps of its input words: the open line is empty
/// exactly when there were no words, nothing is lost or reordered, every
/// line is non-empty, and every line fits or is a single word.
pub(crate) proof fn lemma_wrap_words_props(ws: Seq<Seq<char>>, width: nat)
    requires
        forall|k: int| 0 <= k < ws.len() ==> (#[trigger] ws[k]).len() > 0,
    ensures
        ({
            let (lines, cur) = wrap_words(ws, width);
            &&& (ws.len() == 0 <==> cur.len() == 0)
            &&& ws.len() == 0 ==> lines.len() == 0
            &&& ws.len() > 0 ==> join_spaces(lines.push(cur)) == join_spaces(ws)
            &&& forall|k: int| 0 <= k < lines.push(cur).len() && ws.len() > 0 ==>
                (#[trigger] lines.push(cur)[k]).len() > 0
                && (byte_len(lines.push(cur)[k]) <= width || ws.contains(lines.push(cur)[k]))
        }),
    decreases ws.len(),
{
    if ws.len() > 0 {
        let prev_ws = ws.drop_last();
        lemma_wrap_words_props(prev_ws, width);
        let (lines, cur) = wrap_words(prev_ws, width);
        let w = ws.last();
        assert(ws[ws.len() - 1] == w);
        assert forall|x: Seq<char>| prev_ws.contains(x) implies ws.contains(x) by {
            let k = choose|k: int| 0 <= k < prev_ws.len() && prev_ws[k] == x;
            assert(ws[k] == x);
        }
        assert(ws.contains(w));
        if cur.len() == 0 {
            assert(prev_ws.len() == 0);
            assert(ws =~= seq![w]);
            assert(lines.push(w) =~= seq![w]);
        } else if byte_len(cur) + 1 + byte_len(w) <= width {
            let nc = cur + seq![' '] + w;
            assert(lines.push(nc).drop_last() =~= lines);
            assert(lines.push(cur).drop_last() =~= lines);
            assert(ws.drop_last() == prev_ws);
            if lines.len() == 0 {
                assert(lines.push(nc) =~= seq![nc]);
                assert(lines.push(cur) =~= seq![cur]);
            } else {
                assert(join_spaces(lines.push(nc)) =~= join_spaces(lines) + seq![' '] + nc);
                assert(join_spaces(lines.push(cur)) =~= join_spaces(lines) + seq![' '] + cur);
            }
            assert(join_spaces(ws) =~= join_spaces(prev_ws) + seq![' '] + w);
            assert forall|k: int| 0 <= k < lines.push(nc).len() implies
                (#[trigger] lines.push(nc)[k]).len() > 0
                && (byte_len(lines.push(nc)[k]) <= width || ws.contains(lines.push(nc)[k])) by {
                if k < lines.len() {
                    assert(lines.push(nc)[k] == lines.push(cur)[k]);
                } else {
                    lemma_encode_utf8_add(cur + seq![' '], w);
                    lemma_encode_utf8_add(cur, seq![' ']);
                    lemma_byte_len_space();
                }
            }
        } else {
            let nl = lines.push(cur);
            assert(nl.push(w).drop_last() =~= nl);
            assert(join_spaces(nl.push(w)) =~= join_spaces(nl) + seq![' '] + w);
            assert(join_spaces(ws) =~= join_spaces(prev_ws) + seq![' '] + w);
            assert forall|k: int| 0 <= k < nl.push(w).len() implies
                (#[trigger] nl.push(w)[k]).len() > 0
                && (byte_len(nl.push(w)[k]) <= width || ws.contains(nl.push(w)[k])) by {
                if k < nl.len() {
                    assert(nl.push(w)[k] == nl[k]);
                }
            }
        }
    }
}

/// Wrapping loses, adds and reorders no word: the lines joined by single
/// spaces are the words of the text joined by single spaces.
pub proof fn law_word_wrap_keeps_words(text: Seq<char>, width: nat)
    requires
        width > 0,
    ensures
        join_spaces(spec_word_wrap(text, width)) == join_spaces(split_words(text)),
{
    lemma_split_words_shape(text);
    lemma_wrap_words_props(split_words(text), width);
}

/// Every wrapped line is non-empty, and it fits in `width` bytes unless it
/// is a single word of the text that is longer than `width` on its own.
pub proof fn law_word_wrap_lines_fit(text: Seq<char>, width: nat)
    requires
        width > 0,
    ensures
        forall|k: int| 0 <= k < spec_word_wrap(text, width).len() ==> {
            let line = #[trigger] spec_word_wrap(text, width)[k];
            &&& line.len() > 0
            &&& byte_len(line) <= width || split_words(text).contains(line)
        },
{
    lemma_split_words_shape(text);
    lemma_wrap_words_props(split_words(text), width);
}


} // verus!
