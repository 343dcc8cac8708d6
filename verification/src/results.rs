//! The screens after an answer and at the end of a session.
use vstd::prelude::*;

use crate::beat::{spec_combo_color, spec_combo_label, BeatState};
use crate::deck::{spec_answer_for, Question};
use crate::number::{digit_char, fmt_score, push_decimal, spec_decimal, spec_fmt_score};
use crate::screen::{
    at, center_x, place, place_lines, push_placed, sat_sub,
    spec_center_x, spec_place_lines, views, Placed, PlacedView,
};
use crate::style::{color_for_pct, spec_color_for_pct, Color};
use crate::text::{byte_len, pad_left, push_char, repeat_char, spec_pad_left, spec_word_wrap, word_wrap};

verus! {

/// A rule across the screen on row `row`.
pub open spec fn spec_divider(width: nat, row: nat) -> PlacedView {
    at(2, row, Seq::new(sat_sub(width, 4), |_i: int| '─'), Color::DarkGrey, false)
}

fn divider(width: u16, row: u32) -> (p: Placed)
    ensures
        p@ == spec_divider(width as nat, row as nat),
{
    place(2, row, repeat_char('─', (width as usize).saturating_sub(4)), Color::DarkGrey, false)
}

/// `text` centred on column `cx`, on row `y`.
pub open spec fn centered(cx: nat, y: nat, text: Seq<char>, fg: Color, bold: bool) -> PlacedView {
    at(spec_center_x(cx, text), y, text, fg, bold)
}

fn place_centered(cx: u16, y: u32, text: String, fg: Color, bold: bool) -> (p: Placed)
    ensures
        p@ == centered(cx as nat, y as nat, text@, fg, bold),
{
    let x = center_x(cx, text.as_str());
    place(x as u32, y, text, fg, bold)
}

fn append_all(items: &mut Vec<Placed>, more: Vec<Placed>)
    ensures
        views(final(items)@) == views(old(items)@) + views(more@),
{
    let mut more = more;
    let ghost a = views(items@);
    let ghost b = views(more@);
    items.append(&mut more);
    assert(views(items@) =~= a + b);
}

/// The hint at the bottom of the screen after a normal-mode answer.
pub open spec fn next_question_hint() -> Seq<char> {
    "[ press any key for next question ]"@
}

/// The hint at the bottom of the screens of beat mode.
pub open spec fn any_key_hint() -> Seq<char> {
    "[ press any key ]"@
}

/// The explanation of a question, wrapped, from row `row` to the fourth
/// row from the bottom.
pub open spec fn spec_explanation(q: Question, width: nat, height: nat, row: nat) -> Seq<PlacedView> {
    spec_place_lines(spec_word_wrap(q.explanation@, sat_sub(width, 8)), 3, row, sat_sub(height, 4), Color::Reset, false)
}

fn push_explanation(items: &mut Vec<Placed>, q: &Question, width: u16, height: u16, row: u32) -> (next: u32)
    ensures
        views(final(items)@) == views(old(items)@) + spec_explanation(*q, width as nat, height as nat, row as nat),
        next == row + spec_explanation(*q, width as nat, height as nat, row as nat).len(),
{
    let lines = word_wrap(q.explanation.as_str(), (width as usize).saturating_sub(8));
    place_lines(items, &lines, 3, row, height.saturating_sub(4) as u32, Color::Reset, false)
}

/// The screen after a correct answer in normal mode: the banner, a rule,
/// and the explanation.
pub open spec fn spec_correct_screen(q: Question, width: nat, height: nat) -> Seq<PlacedView> {
    let cx = width / 2;
    seq![
        centered(cx, 2, "✓  CORRECT!"@, Color::Green, true),
        spec_divider(width, 5),
        at(3, 7, "Explanation:"@, Color::Cyan, true),
    ] + spec_explanation(q, width, height, 9) + seq![
        centered(cx, (height - 2) as nat, next_question_hint(), Color::DarkGrey, false),
    ]
}

/// Lays out the screen after a correct answer in normal mode.
pub fn correct_screen(q: &Question, width: u16, height: u16) -> (items: Vec<Placed>)
    requires
        height >= 2,
    ensures
        views(items@) == spec_correct_screen(*q, width as nat, height as nat),
{
    let cx = width / 2;
    let mut items: Vec<Placed> = Vec::new();
    push_placed(&mut items, place_centered(cx, 2, String::from_str("✓  CORRECT!"), Color::Green, true));
    push_placed(&mut items, divider(width, 5));
    push_placed(&mut items, place(3, 7, String::from_str("Explanation:"), Color::Cyan, true));
    push_explanation(&mut items, q, width, height, 9);
    push_placed(&mut items, place_centered(cx, (height - 2) as u32, String::from_str("[ press any key for next question ]"), Color::DarkGrey, false));
    assert(views(items@) =~= spec_correct_screen(*q, width as nat, height as nat));
    items
}

/// The text of the correct answer, wrapped to `w` bytes, from row `row` to
/// the fourth row from the bottom.
pub open spec fn spec_correct_text(q: Question, w: nat, height: nat, row: nat) -> Seq<PlacedView> {
    match spec_answer_for(q.answers@, q.correct@) {
        Some(ans) => spec_place_lines(spec_word_wrap(ans, w), 3, row, sat_sub(height, 4), Color::Reset, false),
        None => Seq::empty(),
    }
}

fn push_correct_text(items: &mut Vec<Placed>, q: &Question, w: usize, height: u16, row: u32)
    ensures
        views(final(items)@) == views(old(items)@) + spec_correct_text(*q, w as nat, height as nat, row as nat),
{
    match q.correct_answer() {
        Some(ans) => {
            let lines = word_wrap(ans.as_str(), w);
            place_lines(items, &lines, 3, row, height.saturating_sub(4) as u32, Color::Reset, false);
        },
        None => {
            assert(views(items@) =~= views(items@) + Seq::<PlacedView>::empty());
        },
    }
}

/// The screen after a correct answer in beat mode: the banner, the points
/// won, the chain from two on, the correct answer, and the running total.
/// `bs` is the state after the answer was recorded.
pub open spec fn spec_correct_beat_screen(q: Question, pts: nat, score: nat, combo: nat, width: nat, height: nat) -> Seq<PlacedView> {
    let cx = width / 2;
    seq![
        centered(cx, 2, "✓  CORRECT!"@, Color::Green, true),
        centered(cx, 4, "+"@ + spec_fmt_score(pts) + "  pts"@, Color::Yellow, true),
    ] + (if combo >= 2 {
        seq![centered(cx, 5, "Combo: "@ + spec_combo_label(combo), spec_combo_color(combo), true)]
    } else {
        Seq::empty()
    }) + seq![
        spec_divider(width, 8),
        at(3, 10, "Answer:"@, Color::Cyan, true),
    ] + spec_correct_text(q, sat_sub(width, 8), height, 11) + seq![
        centered(cx, (height - 3) as nat, "Total: "@ + spec_fmt_score(score) + " pts"@, Color::DarkGrey, false),
        centered(cx, (height - 2) as nat, any_key_hint(), Color::DarkGrey, false),
    ]
}

/// Lays out the screen after a correct answer worth `pts` in beat mode.
pub fn correct_beat_screen(q: &Question, pts: u64, bs: &BeatState, width: u16, height: u16) -> (items: Vec<Placed>)
    requires
        height >= 3,
    ensures
        views(items@) == spec_correct_beat_screen(*q, pts as nat, bs.score as nat, bs.combo as nat, width as nat, height as nat),
{
    let cx = width / 2;
    let mut items: Vec<Placed> = Vec::new();
    push_placed(&mut items, place_centered(cx, 2, String::from_str("✓  CORRECT!"), Color::Green, true));
    let mut pts_str = String::from_str("+");
    let p = fmt_score(pts);
    pts_str.append(p.as_str());
    pts_str.append("  pts");
    push_placed(&mut items, place_centered(cx, 4, pts_str, Color::Yellow, true));
    if bs.combo >= 2 {
        let mut combo_str = String::from_str("Combo: ");
        let label = bs.combo_label();
        combo_str.append(label.as_str());
        push_placed(&mut items, place_centered(cx, 5, combo_str, bs.combo_color(), true));
    }
    push_placed(&mut items, divider(width, 8));
    push_placed(&mut items, place(3, 10, String::from_str("Answer:"), Color::Cyan, true));
    push_correct_text(&mut items, q, (width as usize).saturating_sub(8), height, 11);
    let mut total = String::from_str("Total: ");
    let s = fmt_score(bs.score);
    total.append(s.as_str());
    total.append(" pts");
    push_placed(&mut items, place_centered(cx, (height - 3) as u32, total, Color::DarkGrey, false));
    push_placed(&mut items, place_centered(cx, (height - 2) as u32, String::from_str("[ press any key ]"), Color::DarkGrey, false));
    assert(views(items@) =~= spec_correct_beat_screen(*q, pts as nat, bs.score as nat, bs.combo as nat, width as nat, height as nat));
    items
}

/// The label before the correct answer on the screens after a wrong answer.
pub open spec fn correct_label(q: Question) -> Seq<char> {
    "  Correct ("@ + q.correct@ + ")  "@
}

/// The correct answer beside its label from row `row`: the label in bold
/// green, the answer wrapped to the room the label leaves, every line
/// placed (up to a row no screen reaches). Gives the texts and the row after them, two blank rows included.
pub open spec fn spec_labelled_answer(q: Question, width: nat, row: nat) -> (Seq<PlacedView>, nat) {
    match spec_answer_for(q.answers@, q.correct@) {
        Some(ans) => {
            let label = correct_label(q);
            let len = (byte_len(label) as usize) as nat;
            let x = 3 + ((byte_len(label) as usize) as u16) as nat;
            let lines = spec_word_wrap(ans, sat_sub(sat_sub(width, 8), len));
            let first = if lines.len() > 0 { seq![at(x, row, lines[0], Color::Reset, false)] } else { Seq::empty() };
            let rest = if lines.len() > 0 { lines.drop_first() } else { Seq::empty() };
            let extra = spec_place_lines(rest, x, row + 1, 0xFFFF_0000, Color::Reset, false);
            (seq![at(3, row, label, Color::Green, true)] + first + extra, row + 1 + extra.len() + 2)
        },
        None => (Seq::empty(), row + 2),
    }
}

fn push_labelled_answer(items: &mut Vec<Placed>, q: &Question, width: u16, row: u32) -> (next: u32)
    requires
        row <= 20,
    ensures
        views(final(items)@) == views(old(items)@) + spec_labelled_answer(*q, width as nat, row as nat).0,
        next == spec_labelled_answer(*q, width as nat, row as nat).1,
        next <= 0xFFFF_0002,
{
    let ghost before = views(items@);
    match q.correct_answer() {
        Some(ans) => {
            let mut label = String::from_str("  Correct (");
            label.append(q.correct.as_str());
            label.append(")  ");
            let len = label.as_str().len();
            let x: u32 = 3 + (len as u16) as u32;
            let mut lines = word_wrap(ans.as_str(), (width as usize).saturating_sub(8).saturating_sub(len));
            let ghost all = lines@.map_values(|l: String| l@);
            push_placed(items, place(3, row, label, Color::Green, true));
            if lines.len() > 0 {
                let first = lines.remove(0);
                push_placed(items, place(x, row, first, Color::Reset, false));
                assert(lines@.map_values(|l: String| l@) =~= all.drop_first());
            }
            let next = place_lines(items, &lines, x, row + 1, 0xFFFF_0000, Color::Reset, false);
            assert(views(items@) =~= before + spec_labelled_answer(*q, width as nat, row as nat).0);
            next + 2
        },
        None => {
            assert(views(items@) =~= before + Seq::<PlacedView>::empty());
            row + 2
        },
    }
}

/// The headline after a wrong answer: what was chosen and what was right.
pub open spec fn wrong_headline(q: Question, chosen: Seq<char>) -> Seq<char> {
    "✗  WRONG  ─  You chose "@ + chosen + "  ─  Correct: "@ + q.correct@
}

fn push_wrong_headline(items: &mut Vec<Placed>, q: &Question, chosen: &str, cx: u16, row: u32)
    ensures
        views(final(items)@) == views(old(items)@).push(centered(cx as nat, row as nat, wrong_headline(*q, chosen@), Color::Red, true)),
{
    let mut hdr = String::from_str("✗  WRONG  ─  You chose ");
    hdr.append(chosen);
    hdr.append("  ─  Correct: ");
    hdr.append(q.correct.as_str());
    push_placed(items, place_centered(cx, row, hdr, Color::Red, true));
}

/// The screen after a wrong answer in normal mode: the headline, a taunt,
/// a rule, the correct answer and the explanation.
pub open spec fn spec_wrong_screen(q: Question, chosen: Seq<char>, taunt: Seq<char>, width: nat, height: nat) -> Seq<PlacedView> {
    let cx = width / 2;
    let (answer, row) = spec_labelled_answer(q, width, 9);
    seq![
        centered(cx, 2, wrong_headline(q, chosen), Color::Red, true),
        centered(cx, 4, taunt, Color::Red, false),
        spec_divider(width, 7),
    ] + answer + seq![at(3, row, "Explanation:"@, Color::Cyan, true)]
        + spec_explanation(q, width, height, row + 2) + seq![
        centered(cx, (height - 2) as nat, next_question_hint(), Color::DarkGrey, false),
    ]
}

/// Lays out the screen after the wrong answer `chosen` in normal mode.
pub fn wrong_screen(q: &Question, chosen: &str, taunt: &str, width: u16, height: u16) -> (items: Vec<Placed>)
    requires
        height >= 2,
    ensures
        views(items@) == spec_wrong_screen(*q, chosen@, taunt@, width as nat, height as nat),
{
    let cx = width / 2;
    let mut items: Vec<Placed> = Vec::new();
    push_wrong_headline(&mut items, q, chosen, cx, 2);
    push_placed(&mut items, place_centered(cx, 4, String::from_str(taunt), Color::Red, false));
    push_placed(&mut items, divider(width, 7));
    let row = push_labelled_answer(&mut items, q, width, 9);
    push_placed(&mut items, place(3, row, String::from_str("Explanation:"), Color::Cyan, true));
    push_explanation(&mut items, q, width, height, row + 2);
    push_placed(&mut items, place_centered(cx, (height - 2) as u32, String::from_str("[ press any key for next question ]"), Color::DarkGrey, false));
    assert(views(items@) =~= spec_wrong_screen(*q, chosen@, taunt@, width as nat, height as nat));
    items
}

/// The screen after a wrong answer in beat mode: a broken chain of two or
/// more is called out first, then the headline, a taunt, a rule and the
/// correct answer.
pub open spec fn spec_wrong_beat_screen(
    q: Question,
    chosen: Seq<char>,
    prev_combo: nat,
    taunt: Seq<char>,
    width: nat,
    height: nat,
) -> Seq<PlacedView> {
    let cx = width / 2;
    let broken = if prev_combo >= 2 {
        seq![centered(cx, 2, "COMBO BROKEN  (was ×"@ + spec_decimal(prev_combo) + ")"@, Color::Red, true)]
    } else {
        Seq::empty()
    };
    let row = if prev_combo >= 2 { 4nat } else { 2nat };
    broken + seq![
        centered(cx, row, wrong_headline(q, chosen), Color::Red, true),
        centered(cx, row + 2, taunt, Color::Red, false),
        spec_divider(width, row + 5),
    ] + spec_labelled_answer(q, width, row + 7).0 + seq![
        centered(cx, (height - 2) as nat, any_key_hint(), Color::DarkGrey, false),
    ]
}

/// Lays out the screen after the wrong answer `chosen` in beat mode, which
/// broke a chain of `prev_combo`.
pub fn wrong_beat_screen(
    q: &Question,
    chosen: &str,
    prev_combo: usize,
    taunt: &str,
    width: u16,
    height: u16,
) -> (items: Vec<Placed>)
    requires
        height >= 2,
    ensures
        views(items@) == spec_wrong_beat_screen(*q, chosen@, prev_combo as nat, taunt@, width as nat, height as nat),
{
    let cx = width / 2;
    let mut items: Vec<Placed> = Vec::new();
    let mut row: u32 = 2;
    if prev_combo >= 2 {
        let mut broken = String::from_str("COMBO BROKEN  (was ×");
        push_decimal(&mut broken, prev_combo as u64);
        broken.append(")");
        push_placed(&mut items, place_centered(cx, 2, broken, Color::Red, true));
        row = 4;
    }
    push_wrong_headline(&mut items, q, chosen, cx, row);
    push_placed(&mut items, place_centered(cx, row + 2, String::from_str(taunt), Color::Red, false));
    push_placed(&mut items, divider(width, row + 5));
    push_labelled_answer(&mut items, q, width, row + 7);
    push_placed(&mut items, place_centered(cx, (height - 2) as u32, String::from_str("[ press any key ]"), Color::DarkGrey, false));
    assert(views(items@) =~= spec_wrong_beat_screen(*q, chosen@, prev_combo as nat, taunt@, width as nat, height as nat));
    items
}

/// The flash shown three times when the time runs out, left of the centre.
pub fn timeout_flash(width: u16, height: u16) -> (p: Placed)
    requires
        width / 2 >= 6,
    ensures
        p@ == at((width / 2 - 6) as nat, (height / 2) as nat, "TIME'S UP!"@, Color::DarkGrey, true),
{
    place((width / 2 - 6) as u32, (height / 2) as u32, String::from_str("TIME'S UP!"), Color::DarkGrey, true)
}

/// The screen after the time ran out: the headline, a rule and the correct
/// answer.
pub open spec fn spec_timeout_screen(q: Question, width: nat, height: nat) -> Seq<PlacedView> {
    let cx = width / 2;
    seq![
        centered(cx, 2, "  TIME'S UP!  "@, Color::DarkGrey, true),
        spec_divider(width, 5),
        at(3, 7, "  Correct answer was "@ + q.correct@ + ":  "@, Color::Green, true),
    ] + spec_correct_text(q, sat_sub(width, 8), height, 8) + seq![
        centered(cx, (height - 2) as nat, any_key_hint(), Color::DarkGrey, false),
    ]
}

/// Lays out the screen after the time ran out.
pub fn timeout_screen(q: &Question, width: u16, height: u16) -> (items: Vec<Placed>)
    requires
        height >= 2,
    ensures
        views(items@) == spec_timeout_screen(*q, width as nat, height as nat),
{
    let cx = width / 2;
    let mut items: Vec<Placed> = Vec::new();
    push_placed(&mut items, place_centered(cx, 2, String::from_str("  TIME'S UP!  "), Color::DarkGrey, true));
    push_placed(&mut items, divider(width, 5));
    let mut label = String::from_str("  Correct answer was ");
    label.append(q.correct.as_str());
    label.append(":  ");
    push_placed(&mut items, place(3, 7, label, Color::Green, true));
    push_correct_text(&mut items, q, (width as usize).saturating_sub(8), height, 8);
    push_placed(&mut items, place_centered(cx, (height - 2) as u32, String::from_str("[ press any key ]"), Color::DarkGrey, false));
    assert(views(items@) =~= spec_timeout_screen(*q, width as nat, height as nat));
    items
}


/// A column of texts, each centred on column `cx`, one per row from `start`.
pub open spec fn spec_centered_column(lines: Seq<(Seq<char>, Color, bool)>, cx: nat, start: nat) -> Seq<PlacedView> {
    Seq::new(lines.len(), |i: int| centered(cx, (start + i) as nat, lines[i].0, lines[i].1, lines[i].2))
}

fn push_centered_column(items: &mut Vec<Placed>, lines: Vec<(String, Color, bool)>, cx: u16, start: u32)
    requires
        start + lines@.len() <= u32::MAX,
    ensures
        views(final(items)@) == views(old(items)@) + spec_centered_column(
            lines@.map_values(|l: (String, Color, bool)| (l.0@, l.1, l.2)),
            cx as nat,
            start as nat,
        ),
{
    let ghost ls = lines@.map_values(|l: (String, Color, bool)| (l.0@, l.1, l.2));
    let ghost before = views(items@);
    let mut i: usize = 0;
    while i < lines.len()
        invariant
            ls == lines@.map_values(|l: (String, Color, bool)| (l.0@, l.1, l.2)),
            start + lines@.len() <= u32::MAX,
            i <= lines@.len(),
            views(items@) =~= before + Seq::new(i as nat, |j: int| centered(cx as nat, (start + j) as nat, ls[j].0, ls[j].1, ls[j].2)),
        decreases lines.len() - i,
    {
        let (text, fg, bold) = (lines[i].0.clone(), lines[i].1, lines[i].2);
        push_placed(items, place_centered(cx, start + i as u32, text, fg, bold));
        i = i + 1;
    }
    assert(Seq::new(i as nat, |j: int| centered(cx as nat, (start + j) as nat, ls[j].0, ls[j].1, ls[j].2))
        =~= spec_centered_column(ls, cx as nat, start as nat));
}

/// Percentage of `part` in `whole`, rounded down; zero when `whole` is zero.
pub open spec fn spec_pct(part: nat, whole: nat) -> nat {
    if whole > 0 { part * 100 / whole } else { 0 }
}

/// The verdict of a normal game by its percentage: 90 and up, 75, 60, below.
pub open spec fn spec_final_grade(pct: nat) -> (Seq<char>, Seq<char>) {
    if pct >= 90 {
        ("★  OUTSTANDING"@, "You might actually be ready for the real thing."@)
    } else if pct >= 75 {
        ("✓  SOLID PASS"@, "Keep reviewing the ones you missed."@)
    } else if pct >= 60 {
        ("~  GETTING THERE"@, "Focus on the wrong answers. Run it again."@)
    } else {
        ("✗  KEEP STUDYING"@, "Go back through the study guides. You've got this."@)
    }
}

/// The lines of the end screen of a normal game, with their colours and
/// boldness: a box, the score and percentage, and the verdict, all in the
/// colour of the percentage.
pub open spec fn spec_final_lines(score: nat, total: nat) -> Seq<(Seq<char>, Color, bool)> {
    let pct = spec_pct(score, total);
    let color = spec_color_for_pct(pct);
    let (grade, sub) = spec_final_grade(pct);
    seq![
        ("╔══════════════════════════════════╗"@, color, true),
        ("║         QUIZ  COMPLETE!          ║"@, color, true),
        ("╚══════════════════════════════════╝"@, color, true),
        (Seq::empty(), Color::Reset, false),
        ("Final Score:  "@ + spec_decimal(score) + " / "@ + spec_decimal(total) + "  ("@ + spec_decimal(pct) + "%)"@, color, true),
        (Seq::empty(), Color::Reset, false),
        (grade, color, true),
        (sub, Color::DarkGrey, false),
        (Seq::empty(), Color::Reset, false),
        ("[ press any key to exit ]"@, Color::DarkGrey, false),
    ]
}

/// The end screen of a normal game: its lines centred around the middle row.
pub open spec fn spec_final_screen(score: nat, total: nat, width: nat, height: nat) -> Seq<PlacedView> {
    spec_centered_column(spec_final_lines(score, total), width / 2, sat_sub(height / 2, 5))
}

fn text_line(s: &str, fg: Color, bold: bool) -> (l: (String, Color, bool))
    ensures
        l.0@ == s@,
        l.1 == fg,
        l.2 == bold,
{
    (String::from_str(s), fg, bold)
}

/// Lays out the end screen of a normal game with `score` of `total` right.
pub fn final_screen(score: usize, total: usize, width: u16, height: u16) -> (items: Vec<Placed>)
    requires
        score * 100 <= usize::MAX,
    ensures
        views(items@) == spec_final_screen(score as nat, total as nat, width as nat, height as nat),
{
    let pct = if total > 0 { score * 100 / total } else { 0 };
    let color = color_for_pct(pct);
    let (grade, sub) = if pct >= 90 {
        ("★  OUTSTANDING", "You might actually be ready for the real thing.")
    } else if pct >= 75 {
        ("✓  SOLID PASS", "Keep reviewing the ones you missed.")
    } else if pct >= 60 {
        ("~  GETTING THERE", "Focus on the wrong answers. Run it again.")
    } else {
        ("✗  KEEP STUDYING", "Go back through the study guides. You've got this.")
    };
    let mut score_line = String::from_str("Final Score:  ");
    push_decimal(&mut score_line, score as u64);
    score_line.append(" / ");
    push_decimal(&mut score_line, total as u64);
    score_line.append("  (");
    push_decimal(&mut score_line, pct as u64);
    score_line.append("%)");
    let lines = vec![
        text_line("╔══════════════════════════════════╗", color, true),
        text_line("║         QUIZ  COMPLETE!          ║", color, true),
        text_line("╚══════════════════════════════════╝", color, true),
        (String::new(), Color::Reset, false),
        (score_line, color, true),
        (String::new(), Color::Reset, false),
        text_line(grade, color, true),
        text_line(sub, Color::DarkGrey, false),
        (String::new(), Color::Reset, false),
        text_line("[ press any key to exit ]", Color::DarkGrey, false),
    ];
    assert(lines@.map_values(|l: (String, Color, bool)| (l.0@, l.1, l.2)) =~= spec_final_lines(score as nat, total as nat));
    let mut items: Vec<Placed> = Vec::new();
    let cx = width / 2;
    let start = (height / 2).saturating_sub(5) as u32;
    push_centered_column(&mut items, lines, cx, start);
    assert(views(items@) =~= spec_final_screen(score as nat, total as nat, width as nat, height as nat));
    items
}

/// The verdict of a beat game: no points at all, then a best chain of ten
/// or more, of six or more, then 80 percent right, then the rest.
pub open spec fn spec_beat_grade(score: nat, max_combo: nat, pct: nat) -> (Seq<char>, Seq<char>) {
    if score == 0 {
        ("✗  ROUGH SESSION"@, "Sometimes the fuse just burns too fast."@)
    } else if max_combo >= 10 {
        ("★  LEGENDARY"@, "That combo chain. Unreal."@)
    } else if max_combo >= 6 {
        ("◆  ELITE"@, "Speed AND accuracy. That's the combo."@)
    } else if pct >= 80 {
        ("✓  SOLID SPEED RUN"@, "Clean answers, decent pace."@)
    } else {
        ("~  KEEP GRINDING"@, "Speed will come with reps."@)
    }
}

/// Hundredths written as seconds with two decimals.
pub open spec fn spec_centis_text(c: nat) -> Seq<char> {
    spec_decimal(c / 100) + seq!['.', digit_char((c / 10) % 10), digit_char(c % 10)]
}

fn centis_text(c: u64) -> (s: String)
    ensures
        s@ == spec_centis_text(c as nat),
{
    let mut s = String::new();
    push_decimal(&mut s, c / 100);
    push_char(&mut s, '.');
    push_decimal(&mut s, (c / 10) % 10);
    push_decimal(&mut s, c % 10);
    s
}

/// The lines of the end screen of a beat game: a box, the points, the
/// questions answered, the right, wrong and timed-out answers, the average
/// response time, the best chain, and the verdict.
pub open spec fn spec_final_beat_lines(bs: BeatState, answered: nat, total: nat) -> Seq<(Seq<char>, Color, bool)> {
    let pct = spec_pct(bs.correct as nat, answered);
    let color = spec_color_for_pct(pct);
    let (grade, sub) = spec_beat_grade(bs.score as nat, bs.max_combo as nat, pct);
    seq![
        ("╔══════════════════════════════════════╗"@, color, true),
        ("║           BEAT MODE OVER!            ║"@, color, true),
        ("╚══════════════════════════════════════╝"@, color, true),
        (Seq::empty(), Color::DarkGrey, false),
        ("  Score          "@ + spec_pad_left(spec_fmt_score(bs.score as nat), 10) + " pts"@, Color::White, false),
        ("  Questions      "@ + spec_pad_left(spec_decimal(answered), 4) + " / "@ + spec_decimal(total), Color::White, false),
        ("  Correct        "@ + spec_pad_left(spec_decimal(bs.correct as nat), 4) + "   Wrong: "@
            + spec_decimal(bs.wrong as nat) + "   Timeouts: "@ + spec_decimal(bs.timeouts as nat), Color::White, false),
        ("  Avg. Time      "@ + spec_pad_left(spec_centis_text(bs.spec_avg_time_centis()), 7) + "s"@, Color::White, false),
        ("  Max Combo      ×"@ + spec_decimal(bs.max_combo as nat), Color::White, false),
        (Seq::empty(), Color::DarkGrey, false),
        (grade, color, true),
        (sub, Color::DarkGrey, false),
        (Seq::empty(), Color::DarkGrey, false),
        ("[ press any key to exit ]"@, Color::DarkGrey, false),
    ]
}

/// The end screen of a beat game: its lines centred around the middle row.
pub open spec fn spec_final_beat_screen(bs: BeatState, answered: nat, total: nat, width: nat, height: nat) -> Seq<PlacedView> {
    spec_centered_column(spec_final_beat_lines(bs, answered, total), width / 2, sat_sub(height / 2, 7))
}

/// Lays out the end screen of a beat game after `answered` of `total`
/// questions.
pub fn final_beat_screen(bs: &BeatState, answered: usize, total: usize, width: u16, height: u16) -> (items: Vec<Placed>)
    requires
        bs.correct * 100 <= usize::MAX,
    ensures
        views(items@) == spec_final_beat_screen(*bs, answered as nat, total as nat, width as nat, height as nat),
{
    let pct = if answered > 0 { bs.correct * 100 / answered } else { 0 };
    let color = color_for_pct(pct);
    let (grade, sub) = if bs.score == 0 {
        ("✗  ROUGH SESSION", "Sometimes the fuse just burns too fast.")
    } else if bs.max_combo >= 10 {
        ("★  LEGENDARY", "That combo chain. Unreal.")
    } else if bs.max_combo >= 6 {
        ("◆  ELITE", "Speed AND accuracy. That's the combo.")
    } else if pct >= 80 {
        ("✓  SOLID SPEED RUN", "Clean answers, decent pace.")
    } else {
        ("~  KEEP GRINDING", "Speed will come with reps.")
    };
    let mut l4 = String::from_str("  Score          ");
    let sc = fmt_score(bs.score);
    let sc = pad_left(sc.as_str(), 10);
    l4.append(sc.as_str());
    l4.append(" pts");
    let mut l5 = String::from_str("  Questions      ");
    let a = crate::number::decimal(answered as u64);
    let a = pad_left(a.as_str(), 4);
    l5.append(a.as_str());
    l5.append(" / ");
    push_decimal(&mut l5, total as u64);
    let mut l6 = String::from_str("  Correct        ");
    let c = crate::number::decimal(bs.correct as u64);
    let c = pad_left(c.as_str(), 4);
    l6.append(c.as_str());
    l6.append("   Wrong: ");
    push_decimal(&mut l6, bs.wrong as u64);
    l6.append("   Timeouts: ");
    push_decimal(&mut l6, bs.timeouts as u64);
    let mut l7 = String::from_str("  Avg. Time      ");
    let avg = centis_text(bs.avg_time_centis());
    let avg = pad_left(avg.as_str(), 7);
    l7.append(avg.as_str());
    l7.append("s");
    let mut l8 = String::from_str("  Max Combo      ×");
    push_decimal(&mut l8, bs.max_combo as u64);
    let lines = vec![
        text_line("╔══════════════════════════════════════╗", color, true),
        text_line("║           BEAT MODE OVER!            ║", color, true),
        text_line("╚══════════════════════════════════════╝", color, true),
        (String::new(), Color::DarkGrey, false),
        (l4, Color::White, false),
        (l5, Color::White, false),
        (l6, Color::White, false),
        (l7, Color::White, false),
        (l8, Color::White, false),
        (String::new(), Color::DarkGrey, false),
        text_line(grade, color, true),
        text_line(sub, Color::DarkGrey, false),
        (String::new(), Color::DarkGrey, false),
        text_line("[ press any key to exit ]", Color::DarkGrey, false),
    ];
    assert(lines@.map_values(|l: (String, Color, bool)| (l.0@, l.1, l.2)) =~= spec_final_beat_lines(*bs, answered as nat, total as nat));
    let mut items: Vec<Placed> = Vec::new();
    let cx = width / 2;
    let start = (height / 2).saturating_sub(7) as u32;
    push_centered_column(&mut items, lines, cx, start);
    assert(views(items@) =~= spec_final_beat_screen(*bs, answered as nat, total as nat, width as nat, height as nat));
    items
}

/// The verdict of a normal game as its end screen shows it: the bold line
/// below the score names how the percentage right went, rounded down and
/// zero for an empty deck, and the grey line under it gives the advice that
/// goes with it: 90 and up is outstanding, 75 and up a solid pass, 60
/// and up getting there, anything below a call to keep studying.
pub proof fn law_final_verdict(score: nat, total: nat, width: nat, height: nat)
    ensures
        ({
            let v = spec_final_screen(score, total, width, height);
            let pct: nat = if total > 0 { score * 100 / total } else { 0 };
            &&& v.len() == 10
            &&& pct >= 90 ==> v[6].2 == "★  OUTSTANDING"@
                && v[7].2 == "You might actually be ready for the real thing."@
            &&& 75 <= pct < 90 ==> v[6].2 == "✓  SOLID PASS"@
                && v[7].2 == "Keep reviewing the ones you missed."@
            &&& 60 <= pct < 75 ==> v[6].2 == "~  GETTING THERE"@
                && v[7].2 == "Focus on the wrong answers. Run it again."@
            &&& pct < 60 ==> v[6].2 == "✗  KEEP STUDYING"@
                && v[7].2 == "Go back through the study guides. You've got this."@
        }),
{
    let lines = spec_final_lines(score, total);
    assert(lines.len() == 10);
}

/// The verdict of a beat game as its end screen shows it, below the best
/// chain, with its advice under it: a session without a single point was rough; otherwise a best chain of ten
/// or more is legendary and of six or more elite; below that, 80 percent or
/// more of the answered questions right (rounded down) is a solid speed run,
/// and anything less means more grinding.
pub proof fn law_final_beat_verdict(bs: BeatState, answered: nat, total: nat, width: nat, height: nat)
    ensures
        ({
            let v = spec_final_beat_screen(bs, answered, total, width, height);
            let pct: nat = if answered > 0 { (bs.correct * 100) as nat / answered } else { 0 };
            &&& v.len() == 14
            &&& bs.score == 0 ==> v[10].2 == "✗  ROUGH SESSION"@
                && v[11].2 == "Sometimes the fuse just burns too fast."@
            &&& bs.score > 0 && bs.max_combo >= 10 ==> v[10].2 == "★  LEGENDARY"@
                && v[11].2 == "That combo chain. Unreal."@
            &&& bs.score > 0 && 6 <= bs.max_combo < 10 ==> v[10].2 == "◆  ELITE"@
                && v[11].2 == "Speed AND accuracy. That's the combo."@
            &&& bs.score > 0 && bs.max_combo < 6 && pct >= 80 ==> v[10].2 == "✓  SOLID SPEED RUN"@
                && v[11].2 == "Clean answers, decent pace."@
            &&& bs.score > 0 && bs.max_combo < 6 && pct < 80 ==> v[10].2 == "~  KEEP GRINDING"@
                && v[11].2 == "Speed will come with reps."@
        }),
{
    let lines = spec_final_beat_lines(bs, answered, total);
    assert(lines.len() == 14);
}

} // verus!
