//! Choosing the deck file: the command line and the list of deck files.
use vstd::prelude::*;

verus! {

/// The value given after the first `--file` that has one.
pub open spec fn spec_file_arg(args: Seq<Seq<char>>) -> Option<Seq<char>>
    decreases args.len(),
{
    if args.len() < 2 {
        None
    } else if args[0] == "--file"@ {
        Some(args[1])
    } else {
        spec_file_arg(args.drop_first())
    }
}

/// The deck path given on the command line as `--file PATH`, if any.
pub fn file_arg(args: &Vec<String>) -> (path: Option<String>)
    ensures
        match path {
            Some(p) => spec_file_arg(args@.map_values(|a: String| a@)) == Some(p@),
            None => spec_file_arg(args@.map_values(|a: String| a@)) is None,
        },
{
    let flag = String::from_str("--file");
    let ghost all = args@.map_values(|a: String| a@);
    let mut i: usize = 0;
    assert(all.skip(0) =~= all);
    while args.len() >= 2 && i < args.len() - 1
        invariant
            all == args@.map_values(|a: String| a@),
            flag@ == "--file"@,
            i <= args@.len(),
            spec_file_arg(all) == spec_file_arg(all.skip(i as int)),
        decreases args.len() - i,
    {
        let ghost rest = all.skip(i as int);
        assert(rest[0] == args@[i as int]@);
        assert(rest[1] == args@[i + 1]@);
        if args[i] == flag {
            return Some(args[i + 1].clone());
        }
        assert(rest.drop_first() =~= all.skip(i + 1));
        i = i + 1;
    }
    None
}

/// Whether a file name has the extension `json`: it ends in `.json` after
/// a non-empty stem.
pub open spec fn is_deck_file(name: Seq<char>) -> bool {
    name.len() > 5 && name.skip(name.len() - 5) == ".json"@
}

/// Whether a file name is a deck file.
pub fn is_deck_name(name: &String) -> (b: bool)
    ensures
        b == is_deck_file(name@),
{
    let s = name.as_str();
    let n = s.unicode_len();
    if n <= 5 {
        return false;
    }
    let tail = s.substring_char(n - 5, n);
    let suffix = String::from_str(".json");
    let t = String::from_str(tail);
    assert(tail@ == name@.skip(n - 5));
    t == suffix
}

/// Lexicographic order of character sequences by code point, which is the
/// byte order of their UTF-8 encodings.
pub open spec fn lex_le(a: Seq<char>, b: Seq<char>) -> bool
    decreases a.len(),
{
    if a.len() == 0 {
        true
    } else if b.len() == 0 {
        false
    } else if (a[0] as u32) < (b[0] as u32) {
        true
    } else if (a[0] as u32) > (b[0] as u32) {
        false
    } else {
        lex_le(a.drop_first(), b.drop_first())
    }
}

/// Any two sequences are ordered one way or the other.
pub proof fn lemma_lex_total(a: Seq<char>, b: Seq<char>)
    ensures
        lex_le(a, b) || lex_le(b, a),
    decreases a.len(),
{
    if a.len() > 0 && b.len() > 0 && a[0] as u32 == b[0] as u32 {
        lemma_lex_total(a.drop_first(), b.drop_first());
    }
}

/// The order is transitive.
pub proof fn lemma_lex_trans(a: Seq<char>, b: Seq<char>, c: Seq<char>)
    requires
        lex_le(a, b),
        lex_le(b, c),
    ensures
        lex_le(a, c),
    decreases a.len(),
{
    if a.len() > 0 && b.len() > 0 && c.len() > 0 && a[0] as u32 == b[0] as u32 && b[0] as u32 == c[0] as u32 {
        lemma_lex_trans(a.drop_first(), b.drop_first(), c.drop_first());
    }
}

/// Whether `s` is in ascending order.
pub open spec fn sorted(s: Seq<String>) -> bool {
    forall|i: int, j: int| 0 <= i < j < s.len() ==> lex_le(#[trigger] s[i]@, #[trigger] s[j]@)
}

/// Whether `a` comes before or equals `b`.
fn name_le(a: &String, b: &String) -> (r: bool)
    ensures
        r == lex_le(a@, b@),
{
    let sa = a.as_str();
    let sb = b.as_str();
    let na = sa.unicode_len();
    let nb = sb.unicode_len();
    let mut i: usize = 0;
    assert(a@.skip(0) =~= a@);
    assert(b@.skip(0) =~= b@);
    while i < na && i < nb
        invariant
            sa@ == a@,
            sb@ == b@,
            na == a@.len(),
            nb == b@.len(),
            i <= na,
            i <= nb,
            lex_le(a@, b@) == lex_le(a@.skip(i as int), b@.skip(i as int)),
        decreases na - i,
    {
        let ca = sa.get_char(i);
        let cb = sb.get_char(i);
        assert(a@.skip(i as int)[0] == ca);
        assert(b@.skip(i as int)[0] == cb);
        if (ca as u32) < (cb as u32) {
            return true;
        }
        if (ca as u32) > (cb as u32) {
            return false;
        }
        assert(a@.skip(i as int).drop_first() =~= a@.skip(i + 1));
        assert(b@.skip(i as int).drop_first() =~= b@.skip(i + 1));
        i = i + 1;
    }
    i == na
}

/// The test that keeps deck files.
pub open spec fn deck_pred() -> spec_fn(String) -> bool {
    |s: String| is_deck_file(s@)
}

/// The deck files among the file names `names`, in ascending order.
pub fn deck_files(names: Vec<String>) -> (files: Vec<String>)
    ensures
        sorted(files@),
        files@.to_multiset() == names@.filter(deck_pred()).to_multiset(),
{
    let ghost pred = deck_pred();
    assert(names@.take(0).filter(pred) =~= Seq::<String>::empty()) by {
        reveal(Seq::filter);
    }
    let mut files: Vec<String> = Vec::new();
    let mut i: usize = 0;
    while i < names.len()
        invariant
            i <= names@.len(),
            sorted(files@),
            pred == deck_pred(),
            files@.to_multiset() == names@.take(i as int).filter(pred).to_multiset(),
        decreases names.len() - i,
    {
        let name = &names[i];
        assert(names@.take(i + 1) =~= names@.take(i as int).push(names@[i as int]));
        proof {
            names@.take(i as int).lemma_filter_push(names@[i as int], pred);
        }
        if is_deck_name(name) {
            let mut p: usize = 0;
            while p < files.len() && name_le(&files[p], name)
                invariant
                    p <= files@.len(),
                    forall|k: int| 0 <= k < p ==> lex_le(#[trigger] files@[k]@, name@),
                decreases files.len() - p,
            {
                p = p + 1;
            }
            let ghost old_files = files@;
            proof {
                if p < files@.len() {
                    lemma_lex_total(files@[p as int]@, name@);
                }
                assert forall|k: int| p <= k < old_files.len() implies lex_le(name@, #[trigger] old_files[k]@) by {
                    if p < k {
                        assert(lex_le(old_files[p as int]@, old_files[k]@));
                        lemma_lex_trans(name@, old_files[p as int]@, old_files[k]@);
                    }
                }
            }
            files.insert(p, name.clone());
            proof {
                vstd::seq_lib::to_multiset_insert(old_files, p as int, *name);
                names@.take(i as int).filter(pred).to_multiset_ensures();
                assert forall|x: int, y: int| 0 <= x < y < files@.len() implies
                    lex_le(#[trigger] files@[x]@, #[trigger] files@[y]@) by {
                    if y < p {
                    } else if y == p {
                    } else if x < p {
                        assert(files@[y] == old_files[y - 1]);
                        lemma_lex_trans(files@[x]@, name@, old_files[y - 1]@);
                    } else if x == p {
                        assert(files@[y] == old_files[y - 1]);
                    } else {
                        assert(files@[x] == old_files[x - 1]);
                        assert(files@[y] == old_files[y - 1]);
                    }
                }
            }
        }
        i = i + 1;
    }
    assert(names@.take(names@.len() as int) =~= names@);
    files
}

/// The deck list holds deck files only, and every deck file found.
pub proof fn law_deck_files_are_the_decks(names: Seq<String>, files: Seq<String>)
    requires
        files.to_multiset() == names.filter(deck_pred()).to_multiset(),
    ensures
        forall|i: int| 0 <= i < files.len() ==> is_deck_file(#[trigger] files[i]@),
        forall|i: int| 0 <= i < names.len() && is_deck_file(#[trigger] names[i]@) ==> files.contains(names[i]),
{
    let f = names.filter(deck_pred());
    files.to_multiset_ensures();
    f.to_multiset_ensures();
    assert forall|i: int| 0 <= i < files.len() implies is_deck_file(#[trigger] files[i]@) by {
        let x = files[i];
        assert(files.contains(x));
        assert(f.to_multiset().count(x) > 0);
        assert(f.contains(x));
        let k = choose|k: int| 0 <= k < f.len() && f[k] == x;
        names.lemma_filter_pred(deck_pred(), k);
    }
    assert forall|i: int| 0 <= i < names.len() && is_deck_file(#[trigger] names[i]@) implies files.contains(names[i]) by {
        names.lemma_filter_contains(deck_pred(), i);
        assert(f.contains(names[i]));
        assert(files.to_multiset().count(names[i]) > 0);
    }
}

} // verus!
