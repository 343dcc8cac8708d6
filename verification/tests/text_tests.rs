use quizzical::number::{decimal, fmt_score, seconds_tenths};
use quizzical::text::{is_whitespace, pad_left, pad_right, repeat_char, word_wrap};

fn wrap(text: &str, width: usize) -> Vec<String> {
    word_wrap(text, width)
}

/// A plain greedy wrapper over `str::split_whitespace`, used as a reference.
fn reference_wrap(text: &str, width: usize) -> Vec<String> {
    if width == 0 {
        return vec![text.to_string()];
    }
    let mut lines: Vec<String> = Vec::new();
    let mut current = String::new();
    for word in text.split_whitespace() {
        if current.is_empty() {
            current = word.to_string();
        } else if current.len() + 1 + word.len() <= width {
            current.push(' ');
            current.push_str(word);
        } else {
            lines.push(current.clone());
            current = word.to_string();
        }
    }
    if !current.is_empty() {
        lines.push(current);
    }
    lines
}

#[test]
fn wraps_greedily_at_width() {
    assert_eq!(wrap("the quick brown fox jumps", 10), vec!["the quick", "brown fox", "jumps"]);
}

#[test]
fn exact_fit_stays_on_one_line() {
    assert_eq!(wrap("abcd efgh", 9), vec!["abcd efgh"]);
    assert_eq!(wrap("abcd efgh", 8), vec!["abcd", "efgh"]);
}

#[test]
fn long_word_stands_alone() {
    assert_eq!(wrap("a supercalifragilistic b", 5), vec!["a", "supercalifragilistic", "b"]);
}

#[test]
fn width_zero_returns_text_unchanged() {
    assert_eq!(wrap("  keep   this  ", 0), vec!["  keep   this  "]);
}

#[test]
fn empty_and_blank_text_give_no_lines() {
    assert!(wrap("", 10).is_empty());
    assert!(wrap(" \t\n  ", 10).is_empty());
}

#[test]
fn white_space_runs_collapse() {
    assert_eq!(wrap("a\t\tb\n\nc   d", 80), vec!["a b c d"]);
    assert_eq!(wrap("a\u{3000}b\u{a0}c", 80), vec!["a b c"]);
}

#[test]
fn width_counts_bytes() {
    // 'é' takes two bytes: "é é" is five bytes
    assert_eq!(wrap("é é", 4), vec!["é", "é"]);
    assert_eq!(wrap("é é", 5), vec!["é é"]);
}

#[test]
fn wrapping_keeps_every_word_in_order() {
    let text = "Which protocol encrypts   traffic between\ta browser and a web server using certificates?";
    for width in 1..40 {
        let lines = wrap(text, width);
        let joined = lines.join(" ");
        let words: Vec<&str> = text.split_whitespace().collect();
        assert_eq!(joined, words.join(" "));
    }
}

#[test]
fn wrapped_lines_fit_or_are_one_word() {
    let text = "An extraordinarily long explanation with antidisestablishmentarianism inside it";
    for width in 1..30 {
        for line in wrap(text, width) {
            assert!(!line.is_empty());
            assert!(line.len() <= width || !line.contains(' '));
        }
    }
}

#[test]
fn wrapping_matches_reference() {
    let texts = [
        "Which of the following BEST describes a zero-day vulnerability?",
        "  leading and trailing  ",
        "one",
        "α β γ δ ε ζ η θ ι κ λ μ",
        "tab\tseparated\nand\r\nnew lines\u{2028}too",
    ];
    for t in texts.iter() {
        for width in 0..30 {
            assert_eq!(wrap(t, width), reference_wrap(t, width), "text {:?} width {}", t, width);
        }
    }
}

#[test]
fn whitespace_classifier_matches_std() {
    for u in 0u32..0x110000 {
        if let Some(c) = char::from_u32(u) {
            assert_eq!(is_whitespace(c), c.is_whitespace(), "U+{:04X}", u);
        }
    }
}

#[test]
fn repeat_and_padding() {
    assert_eq!(repeat_char('─', 3), "───");
    assert_eq!(repeat_char('x', 0), "");
    assert_eq!(pad_right("ab", 5), "ab   ");
    assert_eq!(pad_right("abcdef", 3), "abcdef");
    assert_eq!(pad_left("7", 4), "   7");
    assert_eq!(pad_left("12345", 4), "12345");
}

#[test]
fn thousands_separators() {
    assert_eq!(fmt_score(0), "0");
    assert_eq!(fmt_score(7), "7");
    assert_eq!(fmt_score(999), "999");
    assert_eq!(fmt_score(1000), "1,000");
    assert_eq!(fmt_score(1500), "1,500");
    assert_eq!(fmt_score(1001001), "1,001,001");
    assert_eq!(fmt_score(1234567), "1,234,567");
    assert_eq!(fmt_score(u64::MAX), "18,446,744,073,709,551,615");
}

#[test]
fn thousands_separators_only_add_commas() {
    for n in [0u64, 5, 12, 100, 4321, 65536, 987654321, 10000000000] {
        assert_eq!(fmt_score(n).replace(',', ""), n.to_string());
    }
}

#[test]
fn decimal_matches_std() {
    for n in [0u64, 9, 10, 99, 100, 12345, u64::MAX] {
        assert_eq!(decimal(n), n.to_string());
    }
}

#[test]
fn seconds_with_one_decimal() {
    assert_eq!(seconds_tenths(20000), "20.0");
    assert_eq!(seconds_tenths(9450), "9.5");
    assert_eq!(seconds_tenths(9449), "9.4");
    assert_eq!(seconds_tenths(49), "0.0");
    assert_eq!(seconds_tenths(50), "0.1");
    assert_eq!(seconds_tenths(0), "0.0");
}

#[test]
fn wider_wraps_never_need_more_lines() {
    let text = "Which of the following is the BEST way to protect data at rest on a lost laptop drive?";
    for w1 in 1..60 {
        for w2 in w1..60 {
            assert!(wrap(text, w2).len() <= wrap(text, w1).len(), "{} {}", w1, w2);
        }
    }
}

#[test]
fn wrapping_again_changes_nothing() {
    let text = "A  certificate\trevocation list names certificates that the issuing authority has withdrawn early.";
    for width in 1..50 {
        let r = wrap(text, width);
        assert_eq!(wrap(&r.join(" "), width), r);
        assert_eq!(wrap(&r.join("\n"), width), r);
        for line in &r {
            assert_eq!(wrap(line, width), vec![line.clone()]);
        }
    }
}
