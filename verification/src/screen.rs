//! What each screen shows and where: every screen is built as a list of
//! texts placed at a column and a row, with their colours.
use vstd::prelude::*;

use crate::beat::{spec_combo_color, spec_combo_label, BeatState};
use crate::number::{fmt_score, push_decimal, spec_decimal, spec_fmt_score};
use crate::style::Color;
use crate::text::{byte_len, pad_right, push_char, repeat_char, spec_pad_right};

verus! {

/// A text drawn at column `x`, row `y`.
pub struct Placed {
    pub x: u32,
    pub y: u32,
    pub text: String,
    /// Foreground colour; `Reset` leaves the terminal's default.
    pub fg: Color,
    /// Background colour; `Reset` leaves the terminal's default.
    pub bg: Color,
    pub bold: bool,
}

/// A placed text as plain values: column, row, characters, foreground,
/// background and boldness.
pub type PlacedView = (nat, nat, Seq<char>, Color, Color, bool);

impl View for Placed {
    type V = PlacedView;

    open spec fn view(&self) -> PlacedView {
        (self.x as nat, self.y as nat, self.text@, self.fg, self.bg, self.bold)
    }
}

/// The plain values of a list of placed texts.
pub open spec fn views(items: Seq<Placed>) -> Seq<PlacedView> {
    items.map_values(|p: Placed| p@)
}

/// A placed text with the default background.
pub open spec fn at(x: nat, y: nat, text: Seq<char>, fg: Color, bold: bool) -> PlacedView {
    (x, y, text, fg, Color::Reset, bold)
}

pub(crate) fn place(x: u32, y: u32, text: String, fg: Color, bold: bool) -> (p: Placed)
    ensures
        p@ == at(x as nat, y as nat, text@, fg, bold),
{
    Placed { x, y, text, fg, bg: Color::Reset, bold }
}

pub(crate) fn push_placed(items: &mut Vec<Placed>, p: Placed)
    ensures
        views(final(items)@) == views(old(items)@).push(p@),
{
    let ghost before = views(items@);
    items.push(p);
    assert(views(items@) =~= before.push(p@));
}

/// Half the number of characters of `s` taken as a `u16`, the amount by which a
/// text is moved left to centre it.
pub open spec fn half_width(s: Seq<char>) -> nat {
    (((s.len() as usize) as u16) / 2) as nat
}

/// `a - b`, or zero when `b` is larger.
pub open spec fn sat_sub(a: nat, b: nat) -> nat {
    if a >= b {
        (a - b) as nat
    } else {
        0
    }
}

/// The column at which `s` is centred on column `cx`.
pub open spec fn spec_center_x(cx: nat, s: Seq<char>) -> nat {
    sat_sub(cx, half_width(s))
}

/// The column at which `s` is centred on column `cx`.
pub fn center_x(cx: u16, s: &str) -> (x: u16)
    ensures
        x == spec_center_x(cx as nat, s@),
{
    let half = (s.unicode_len() as u16) / 2;
    cx.saturating_sub(half)
}

/// The lines of `lines` placed one per row from row `row`, at column `x`,
/// as long as the row is below `limit`.
pub open spec fn spec_place_lines(
    lines: Seq<Seq<char>>,
    x: nat,
    row: nat,
    limit: nat,
    fg: Color,
    bold: bool,
) -> Seq<PlacedView> {
    let room = sat_sub(limit, row);
    let k = if lines.len() <= room { lines.len() } else { room };
    Seq::new(k, |i: int| at(x, (row + i) as nat, lines[i], fg, bold))
}

/// Places `lines` one per row from row `row` while the row is below
/// `limit`; returns the row after the last one placed.
pub(crate) fn place_lines(
    items: &mut Vec<Placed>,
    lines: &Vec<String>,
    x: u32,
    row: u32,
    limit: u32,
    fg: Color,
    bold: bool,
) -> (next: u32)
    ensures
        views(final(items)@) == views(old(items)@) + spec_place_lines(
            lines@.map_values(|l: String| l@),
            x as nat,
            row as nat,
            limit as nat,
            fg,
            bold,
        ),
        next == row + spec_place_lines(
            lines@.map_values(|l: String| l@),
            x as nat,
            row as nat,
            limit as nat,
            fg,
            bold,
        ).len(),
{
    let ghost ls = lines@.map_values(|l: String| l@);
    let ghost before = views(items@);
    let mut i: usize = 0;
    let mut r = row;
    while i < lines.len() && r < limit
        invariant
            ls == lines@.map_values(|l: String| l@),
            i <= lines@.len(),
            r == row + i,
            i <= sat_sub(limit as nat, row as nat),
            views(items@) == before + Seq::new(i as nat, |j: int| at(x as nat, (row + j) as nat, ls[j], fg, bold)),
        decreases lines.len() - i,
    {
        push_placed(items, place(x, r, lines[i].clone(), fg, bold));
        i = i + 1;
        r = r + 1;
        assert(views(items@) =~= before + Seq::new(i as nat, |j: int| at(x as nat, (row + j) as nat, ls[j], fg, bold)));
    }
    assert(Seq::new(i as nat, |j: int| at(x as nat, (row + j) as nat, ls[j], fg, bold))
        =~= spec_place_lines(ls, x as nat, row as nat, limit as nat, fg, bold));
    r
}

/// The header of a normal game: question number, score so far and its
/// percentage of the questions already answered, padded to the full width.
pub open spec fn spec_normal_header(width: nat, q_num: nat, total: nat, score: nat) -> Seq<char> {
    let completed = sat_sub(q_num, 1);
    let pct = if completed > 0 { score * 100 / completed } else { 0 };
    spec_pad_right(
        " ╔══ QUIZZICAL ══╗  Q "@ + spec_decimal(q_num) + "/"@ + spec_decimal(total) + " │ Score: "@
            + spec_decimal(score) + "/"@ + spec_decimal(completed) + " ("@ + spec_decimal(pct) + "%)"@,
        width,
    )
}

/// The header of a normal game, drawn in bold cyan on the first row.
pub fn normal_header(width: u16, q_num: usize, total: usize, score: usize) -> (s: String)
    requires
        score * 100 <= usize::MAX,
    ensures
        s@ == spec_normal_header(width as nat, q_num as nat, total as nat, score as nat),
{
    let completed = q_num.saturating_sub(1);
    let pct = if completed > 0 { score * 100 / completed } else { 0 };
    let mut bar = String::from_str(" ╔══ QUIZZICAL ══╗  Q ");
    push_decimal(&mut bar, q_num as u64);
    bar.append("/");
    push_decimal(&mut bar, total as u64);
    bar.append(" │ Score: ");
    push_decimal(&mut bar, score as u64);
    bar.append("/");
    push_decimal(&mut bar, completed as u64);
    bar.append(" (");
    push_decimal(&mut bar, pct as u64);
    bar.append("%)");
    pad_right(bar.as_str(), width as usize)
}

/// The header of a beat game: question number, points, and the combo chain
/// from two on, padded to the full width.
pub open spec fn spec_beat_header(width: nat, q_num: nat, total: nat, score: nat, combo: nat) -> Seq<char> {
    let combo_str = if combo >= 2 { " │ "@ + spec_combo_label(combo) } else { Seq::empty() };
    spec_pad_right(
        " ⚡ BEAT MODE  Q "@ + spec_decimal(q_num) + "/"@ + spec_decimal(total) + "  │  "@
            + spec_fmt_score(score) + " pts"@ + combo_str + "  "@,
        width,
    )
}

/// The header of a beat game, drawn in bold in the colour of the combo chain.
pub fn beat_header(width: u16, q_num: usize, total: usize, bs: &BeatState) -> (s: String)
    ensures
        s@ == spec_beat_header(width as nat, q_num as nat, total as nat, bs.score as nat, bs.combo as nat),
{
    let mut bar = String::from_str(" ⚡ BEAT MODE  Q ");
    push_decimal(&mut bar, q_num as u64);
    bar.append("/");
    push_decimal(&mut bar, total as u64);
    bar.append("  │  ");
    let pts = fmt_score(bs.score);
    bar.append(pts.as_str());
    bar.append(" pts");
    if bs.combo >= 2 {
        bar.append(" │ ");
        let label = bs.combo_label();
        bar.append(label.as_str());
    }
    bar.append("  ");
    pad_right(bar.as_str(), width as usize)
}

/// The progress bar: `width` cells, the first `done × width / total` of
/// them full.
pub open spec fn spec_progress_bar(done: nat, total: nat, width: nat) -> Seq<char> {
    let filled = if total > 0 { done * width / total } else { 0 };
    Seq::new(width, |i: int| if i < filled { '█' } else { '░' })
}

/// The progress bar for `done` of `total` questions, `width` cells wide.
pub fn progress_bar(done: usize, total: usize, width: u16) -> (s: String)
    requires
        done * width <= usize::MAX,
    ensures
        s@ == spec_progress_bar(done as nat, total as nat, width as nat),
{
    let bar_w = width as usize;
    let filled = if total > 0 { done * bar_w / total } else { 0 };
    let mut s = String::new();
    let mut i: usize = 0;
    while i < bar_w
        invariant
            bar_w == width,
            filled == if total > 0 { (done * width) as int / (total as int) } else { 0 },
            i <= bar_w,
            s@ =~= Seq::new(i as nat, |j: int| if j < filled { '█' } else { '░' }),
        decreases bar_w - i,
    {
        push_char(&mut s, if i < filled { '█' } else { '░' });
        i = i + 1;
    }
    s
}


/// The combo row under the fuse: nothing below a chain of two; otherwise
/// the chain's label on the left, pulsing between its colour and white with
/// the ticks, and the last points awarded on the right.
pub open spec fn spec_combo_row(width: nat, y: nat, combo: nat, last_pts: nat, tick: nat) -> Seq<PlacedView> {
    if combo < 2 {
        Seq::empty()
    } else {
        let label = "  "@ + spec_combo_label(combo) + " "@;
        let pts_label = "  +"@ + spec_fmt_score(last_pts) + "  "@;
        let color = if tick % 2 == 0 { spec_combo_color(combo) } else { Color::White };
        seq![
            at(0, y, label, color, true),
            at(sat_sub(width, ((byte_len(pts_label) as usize) as u16) as nat + 2), y, pts_label, Color::DarkGrey, false),
        ]
    }
}

/// The combo row of a beat question, on row `y`.
pub fn combo_row(width: u16, y: u16, bs: &BeatState, tick: usize) -> (items: Vec<Placed>)
    ensures
        views(items@) == spec_combo_row(width as nat, y as nat, bs.combo as nat, bs.last_pts as nat, tick as nat),
{
    let mut items: Vec<Placed> = Vec::new();
    if bs.combo < 2 {
        assert(views(items@) =~= Seq::<PlacedView>::empty());
        return items;
    }
    let mut label = String::from_str("  ");
    let combo = bs.combo_label();
    label.append(combo.as_str());
    label.append(" ");
    let mut pts_label = String::from_str("  +");
    let pts = fmt_score(bs.last_pts);
    pts_label.append(pts.as_str());
    pts_label.append("  ");
    let color = if tick % 2 == 0 { bs.combo_color() } else { Color::White };
    let len16 = pts_label.as_str().len() as u16;
    let x = width.saturating_sub(len16).saturating_sub(2);
    push_placed(&mut items, place(0, y as u32, label, color, true));
    push_placed(&mut items, place(x as u32, y as u32, pts_label, Color::DarkGrey, false));
    assert(views(items@) =~= spec_combo_row(width as nat, y as nat, bs.combo as nat, bs.last_pts as nat, tick as nat));
    items
}

/// The title art, line by line.
pub open spec fn spec_title_art(i: nat) -> Seq<char> {
    if i == 0 {
        "  ___  _   _ ___ __________ ___ ____    _    _     "@
    } else if i == 1 {
        " / _ \\| | | |_ _|__  /__  /|_ _/ ___|  / \\  | |   "@
    } else if i == 2 {
        "| | | | | | || |  / /  / /  | | |     / _ \\ | |   "@
    } else if i == 3 {
        "| |_| | |_| || | / /_ / /_ _| | |___ / ___ \\| |___"@
    } else if i == 4 {
        " \\__\\_\\\\___/|___/____/____(_)___\\____/_/   \\_\\_____|"@
    } else {
        "                                                    "@
    }
}

fn title_art(i: usize) -> (s: &'static str)
    ensures
        s@ == spec_title_art(i as nat),
{
    if i == 0 {
        "  ___  _   _ ___ __________ ___ ____    _    _     "
    } else if i == 1 {
        " / _ \\| | | |_ _|__  /__  /|_ _/ ___|  / \\  | |   "
    } else if i == 2 {
        "| | | | | | || |  / /  / /  | | |     / _ \\ | |   "
    } else if i == 3 {
        "| |_| | |_| || | / /_ / /_ _| | |___ / ___ \\| |___"
    } else if i == 4 {
        " \\__\\_\\\\___/|___/____/____(_)___\\____/_/   \\_\\_____|"
    } else {
        "                                                    "
    }
}

/// The colour of line `i` of the title: cyan, yellow and green in turn.
pub open spec fn spec_title_color(i: nat) -> Color {
    if i % 3 == 0 {
        Color::Cyan
    } else if i % 3 == 1 {
        Color::Yellow
    } else {
        Color::Green
    }
}

/// The mode selector's two labels.
pub open spec fn normal_label() -> Seq<char> {
    "  NORMAL  "@
}

pub open spec fn beat_label() -> Seq<char> {
    "  ⚡ BEAT  "@
}

/// The title screen: the art and `{deck} edition` centred above the middle
/// row, the number of questions, the mode selector with the selected mode
/// highlighted, the key hints, and in beat mode the rules of beat mode.
pub open spec fn spec_title_screen(
    width: nat,
    height: nat,
    total: nat,
    deck_name: Seq<char>,
    mode: crate::controls::GameMode,
    beat_secs: nat,
) -> Seq<PlacedView> {
    let cx = width / 2;
    let cy = height / 2;
    let subtitle = deck_name + " edition"@;
    let line = |i: int| if i < 6 { spec_title_art(i as nat) } else { subtitle };
    let art_start = sat_sub(cy, 7);
    let art = Seq::new(7, |i: int| at(spec_center_x(cx, line(i)), (art_start + i) as nat, line(i), spec_title_color(i as nat), true));
    let sub = spec_decimal(total) + " questions loaded"@;
    let toggle_y = art_start + 10;
    let tx = sat_sub(cx, 15);
    let normal = if mode == crate::controls::GameMode::Normal {
        (tx, toggle_y, normal_label(), Color::Black, Color::Cyan, true)
    } else {
        at(tx, toggle_y, normal_label(), Color::DarkGrey, false)
    };
    let beat_x = tx + 14;
    let beat = if mode == crate::controls::GameMode::Beat {
        (beat_x, toggle_y, beat_label(), Color::White, Color::Red, true)
    } else {
        at(beat_x, toggle_y, beat_label(), Color::DarkGrey, false)
    };
    let hint1 = "[ ← → ] or [ B ] to toggle mode"@;
    let hint2 = "[ Enter ] to start   [ q ] to quit"@;
    let info = "  Timed: "@ + spec_decimal(beat_secs) + "s/question  │  Points: faster = more  │  Chain for combo  "@;
    art + seq![
        at(spec_center_x(cx, sub), art_start + 8, sub, Color::DarkGrey, false),
        normal,
        at(tx + 10, toggle_y, "    "@, Color::Reset, false),
        beat,
        at(spec_center_x(cx, hint1), toggle_y + 2, hint1, Color::DarkGrey, false),
        at(spec_center_x(cx, hint2), toggle_y + 3, hint2, Color::DarkGrey, false),
    ] + if mode == crate::controls::GameMode::Beat {
        seq![at(spec_center_x(cx, info), toggle_y + 5, info, Color::Yellow, false)]
    } else {
        Seq::empty()
    }
}

/// The title screen for a deck named `deck_name` of `total` questions with
/// `mode` selected; beat mode allows `beat_secs` seconds per question.
pub fn title_screen(
    width: u16,
    height: u16,
    total: usize,
    deck_name: &str,
    mode: crate::controls::GameMode,
    beat_secs: u64,
) -> (items: Vec<Placed>)
    ensures
        views(items@) == spec_title_screen(width as nat, height as nat, total as nat, deck_name@, mode, beat_secs as nat),
{
    let cx = width / 2;
    let cy = height / 2;
    let mut subtitle = String::from_str(deck_name);
    subtitle.append(" edition");
    let art_start = cy.saturating_sub(7) as u32;
    let ghost line = |i: int| if i < 6 { spec_title_art(i as nat) } else { subtitle@ };
    let mut items: Vec<Placed> = Vec::new();
    let mut i: usize = 0;
    while i < 7
        invariant
            i <= 7,
            cx == width / 2,
            art_start == sat_sub((height / 2) as nat, 7),
            line == (|i: int| if i < 6 { spec_title_art(i as nat) } else { subtitle@ }),
            views(items@) =~= Seq::new(i as nat, |j: int| at(spec_center_x(cx as nat, line(j)), (art_start + j) as nat, line(j), spec_title_color(j as nat), true)),
        decreases 7 - i,
    {
        let text = if i < 6 { String::from_str(title_art(i)) } else { subtitle.clone() };
        let color = if i % 3 == 0 {
            Color::Cyan
        } else if i % 3 == 1 {
            Color::Yellow
        } else {
            Color::Green
        };
        let x = center_x(cx, text.as_str());
        push_placed(&mut items, place(x as u32, art_start + i as u32, text, color, true));
        i = i + 1;
    }
    let mut sub = String::new();
    push_decimal(&mut sub, total as u64);
    sub.append(" questions loaded");
    let sub_x = center_x(cx, sub.as_str());
    push_placed(&mut items, place(sub_x as u32, art_start + 8, sub, Color::DarkGrey, false));
    let toggle_y = art_start + 10;
    let tx = cx.saturating_sub(15) as u32;
    let normal_text = String::from_str("  NORMAL  ");
    let normal = match mode {
        crate::controls::GameMode::Normal => Placed {
            x: tx,
            y: toggle_y,
            text: normal_text,
            fg: Color::Black,
            bg: Color::Cyan,
            bold: true,
        },
        crate::controls::GameMode::Beat => place(tx, toggle_y, normal_text, Color::DarkGrey, false),
    };
    push_placed(&mut items, normal);
    push_placed(&mut items, place(tx + 10, toggle_y, String::from_str("    "), Color::Reset, false));
    let beat_text = String::from_str("  ⚡ BEAT  ");
    let beat = match mode {
        crate::controls::GameMode::Beat => Placed {
            x: tx + 14,
            y: toggle_y,
            text: beat_text,
            fg: Color::White,
            bg: Color::Red,
            bold: true,
        },
        crate::controls::GameMode::Normal => place(tx + 14, toggle_y, beat_text, Color::DarkGrey, false),
    };
    push_placed(&mut items, beat);
    let hint1 = String::from_str("[ ← → ] or [ B ] to toggle mode");
    let hint2 = String::from_str("[ Enter ] to start   [ q ] to quit");
    let h1x = center_x(cx, hint1.as_str());
    let h2x = center_x(cx, hint2.as_str());
    push_placed(&mut items, place(h1x as u32, toggle_y + 2, hint1, Color::DarkGrey, false));
    push_placed(&mut items, place(h2x as u32, toggle_y + 3, hint2, Color::DarkGrey, false));
    let ghost before = views(items@);
    if mode == crate::controls::GameMode::Beat {
        let mut info = String::from_str("  Timed: ");
        push_decimal(&mut info, beat_secs);
        info.append("s/question  │  Points: faster = more  │  Chain for combo  ");
        let ix = center_x(cx, info.as_str());
        push_placed(&mut items, place(ix as u32, toggle_y + 5, info, Color::Yellow, false));
    }
    assert(views(items@) =~= spec_title_screen(width as nat, height as nat, total as nat, deck_name@, mode, beat_secs as nat));
    items
}


/// The key of answer option `i`: `A` to `D`.
pub open spec fn spec_letter(i: nat) -> Seq<char> {
    if i == 0 {
        seq!['A']
    } else if i == 1 {
        seq!['B']
    } else if i == 2 {
        seq!['C']
    } else {
        seq!['D']
    }
}

fn letter(i: usize) -> (s: String)
    ensures
        s@ == spec_letter(i as nat),
{
    let c = if i == 0 {
        'A'
    } else if i == 1 {
        'B'
    } else if i == 2 {
        'C'
    } else {
        'D'
    };
    let mut s = String::new();
    push_char(&mut s, c);
    s
}

/// One answer option of a question screen, drawn from `row` when the
/// question has an option with key `letter` and the row is still free: its
/// label in bold yellow, then its text wrapped beside the label, then a
/// blank row. Gives the texts placed and the next free row.
pub open spec fn spec_answer_block(
    answers: Seq<(String, String)>,
    letter: Seq<char>,
    usable_w: nat,
    row: nat,
    max_row: nat,
) -> (Seq<PlacedView>, nat) {
    match crate::deck::spec_answer_for(answers, letter) {
        None => (Seq::empty(), row),
        Some(text) => if row >= max_row {
            (Seq::empty(), row)
        } else {
            let label = "  "@ + letter + ".  "@;
            let lines = crate::text::spec_word_wrap(text, sat_sub(usable_w, 8));
            let first = if lines.len() > 0 { seq![at(9, row, lines[0], Color::Reset, false)] } else { Seq::empty() };
            let rest = if lines.len() > 0 { lines.drop_first() } else { Seq::empty() };
            let extra = spec_place_lines(rest, 9, row + 1, max_row, Color::Reset, false);
            (seq![at(3, row, label, Color::Yellow, true)] + first + extra, row + 1 + extra.len() + 1)
        },
    }
}

/// The answer options `A` to `D` from row `row`, in order.
pub open spec fn spec_answer_blocks(
    answers: Seq<(String, String)>,
    usable_w: nat,
    row: nat,
    max_row: nat,
    n: nat,
) -> (Seq<PlacedView>, nat)
    decreases n,
{
    if n == 0 {
        (Seq::empty(), row)
    } else {
        let (before, r) = spec_answer_blocks(answers, usable_w, row, max_row, (n - 1) as nat);
        let (block, r2) = spec_answer_block(answers, spec_letter((n - 1) as nat), usable_w, r, max_row);
        (before + block, r2)
    }
}

/// The body of a question screen for a terminal of `width` × `height`,
/// keeping `reserve` rows free at the bottom: the domain tag, the question
/// wrapped in bold, a divider, and the answer options, each stopping at the
/// first reserved row.
pub open spec fn spec_question_content(
    q: crate::deck::Question,
    width: nat,
    height: nat,
    reserve: nat,
) -> Seq<PlacedView> {
    let usable_w = sat_sub(width, 6);
    let max_row = sat_sub(height, reserve);
    let tag = at(2, 3, "["@ + q.domain@ + "]"@, Color::Yellow, false);
    let q_items = spec_place_lines(crate::text::spec_word_wrap(q.question@, usable_w), 3, 5, max_row, Color::Reset, true);
    let row1 = 5 + q_items.len() + 1;
    let divider = if row1 < max_row {
        seq![at(2, row1, Seq::new(sat_sub(width, 4), |_i: int| '─'), Color::DarkGrey, false)]
    } else {
        Seq::empty()
    };
    let row2 = if row1 < max_row { row1 + 2 } else { row1 };
    seq![tag] + q_items + divider + spec_answer_blocks(q.answers@, usable_w, row2, max_row, 4).0
}

/// Appends one answer option of a question screen; returns the next free row.
fn push_answer_block(
    items: &mut Vec<Placed>,
    q: &crate::deck::Question,
    key: &String,
    usable_w: usize,
    row: u32,
    max_row: u32,
) -> (next: u32)
    requires
        max_row <= 0xFFFF,
        row <= 0x1_0000 + 3,
    ensures
        views(final(items)@) == views(old(items)@) + spec_answer_block(q.answers@, key@, usable_w as nat, row as nat, max_row as nat).0,
        next == spec_answer_block(q.answers@, key@, usable_w as nat, row as nat, max_row as nat).1,
        next <= 0x1_0000 + 3,
{
    let found = q.answer_for(key);
    let ghost before = views(items@);
    match found {
        None => {
            assert(views(items@) =~= before + Seq::<PlacedView>::empty());
            row
        },
        Some(text) => {
            if row >= max_row {
                assert(views(items@) =~= before + Seq::<PlacedView>::empty());
                return row;
            }
            let mut label = String::from_str("  ");
            label.append(key.as_str());
            label.append(".  ");
            let mut lines = crate::text::word_wrap(text.as_str(), usable_w.saturating_sub(8));
            let ghost all = lines@.map_values(|l: String| l@);
            push_placed(items, place(3, row, label, Color::Yellow, true));
            if lines.len() > 0 {
                let first = lines.remove(0);
                push_placed(items, place(9, row, first, Color::Reset, false));
                assert(lines@.map_values(|l: String| l@) =~= all.drop_first());
            }
            let ghost mid = views(items@);
            let next = place_lines(items, &lines, 9, row + 1, max_row, Color::Reset, false);
            assert(views(items@) =~= before + spec_answer_block(q.answers@, key@, usable_w as nat, row as nat, max_row as nat).0);
            next + 1
        },
    }
}


proof fn lemma_place_lines_below(lines: Seq<Seq<char>>, x: nat, row: nat, limit: nat, fg: Color, bold: bool)
    ensures
        forall|i: int| 0 <= i < spec_place_lines(lines, x, row, limit, fg, bold).len()
            ==> (#[trigger] spec_place_lines(lines, x, row, limit, fg, bold)[i]).1 < limit,
{
}

proof fn lemma_answer_blocks_below(answers: Seq<(String, String)>, usable_w: nat, row: nat, max_row: nat, n: nat)
    ensures
        forall|i: int| 0 <= i < spec_answer_blocks(answers, usable_w, row, max_row, n).0.len()
            ==> (#[trigger] spec_answer_blocks(answers, usable_w, row, max_row, n).0[i]).1 < max_row,
    decreases n,
{
    if n > 0 {
        lemma_answer_blocks_below(answers, usable_w, row, max_row, (n - 1) as nat);
        let (before, r) = spec_answer_blocks(answers, usable_w, row, max_row, (n - 1) as nat);
        let letter = spec_letter((n - 1) as nat);
        let (block, r2) = spec_answer_block(answers, letter, usable_w, r, max_row);
        if let Some(text) = crate::deck::spec_answer_for(answers, letter) {
            if r < max_row {
                let lines = crate::text::spec_word_wrap(text, sat_sub(usable_w, 8));
                let rest = if lines.len() > 0 { lines.drop_first() } else { Seq::empty() };
                lemma_place_lines_below(rest, 9, r + 1, max_row, Color::Reset, false);
            }
        }
        let all = spec_answer_blocks(answers, usable_w, row, max_row, n).0;
        assert(all == before + block);
        assert forall|i: int| 0 <= i < all.len() implies (#[trigger] all[i]).1 < max_row by {
            if i < before.len() {
                assert(all[i] == before[i]);
            } else {
                assert(all[i] == block[i - before.len()]);
            }
        }
    }
}

/// A question screen keeps its reserved rows free: apart from the domain
/// tag on row 3, nothing is drawn on the last `reserve` rows.
pub proof fn law_question_content_keeps_reserve(q: crate::deck::Question, width: nat, height: nat, reserve: nat)
    ensures
        forall|i: int| 1 <= i < spec_question_content(q, width, height, reserve).len()
            ==> (#[trigger] spec_question_content(q, width, height, reserve)[i]).1 < sat_sub(height, reserve),
{
    let usable_w = sat_sub(width, 6);
    let max_row = sat_sub(height, reserve);
    let q_lines = crate::text::spec_word_wrap(q.question@, usable_w);
    let q_items = spec_place_lines(q_lines, 3, 5, max_row, Color::Reset, true);
    lemma_place_lines_below(q_lines, 3, 5, max_row, Color::Reset, true);
    let row1 = 5 + q_items.len() + 1;
    let row2 = if row1 < max_row { row1 + 2 } else { row1 };
    lemma_answer_blocks_below(q.answers@, usable_w, row2, max_row, 4);
    let all = spec_question_content(q, width, height, reserve);
    let tag = all[0];
    let divider = if row1 < max_row {
        seq![at(2, row1, Seq::new(sat_sub(width, 4), |_i: int| '─'), Color::DarkGrey, false)]
    } else {
        Seq::empty()
    };
    let blocks = spec_answer_blocks(q.answers@, usable_w, row2, max_row, 4).0;
    assert(all == seq![tag] + q_items + divider + blocks);
    assert forall|i: int| 1 <= i < all.len() implies (#[trigger] all[i]).1 < max_row by {
        if i < 1 + q_items.len() {
            assert(all[i] == q_items[i - 1]);
        } else if i < 1 + q_items.len() + divider.len() {
            assert(all[i] == divider[i - 1 - q_items.len()]);
        } else {
            assert(all[i] == blocks[i - 1 - q_items.len() - divider.len()]);
        }
    }
}

/// Lays out the body of a question screen.
pub fn question_content(q: &crate::deck::Question, width: u16, height: u16, reserve: u16) -> (items: Vec<Placed>)
    ensures
        views(items@) == spec_question_content(*q, width as nat, height as nat, reserve as nat),
{
    let usable_w = (width as usize).saturating_sub(6);
    let max_row = height.saturating_sub(reserve) as u32;
    let mut items: Vec<Placed> = Vec::new();
    let mut tag = String::from_str("[");
    tag.append(q.domain.as_str());
    tag.append("]");
    push_placed(&mut items, place(2, 3, tag, Color::Yellow, false));
    let q_lines = crate::text::word_wrap(q.question.as_str(), usable_w);
    let next = place_lines(&mut items, &q_lines, 3, 5, max_row, Color::Reset, true);
    let row1 = next + 1;
    let mut row = row1;
    if row1 < max_row {
        let div = repeat_char('─', (width as usize).saturating_sub(4));
        push_placed(&mut items, place(2, row1, div, Color::DarkGrey, false));
        row = row1 + 2;
    }
    let ghost head = views(items@);
    let mut i: usize = 0;
    while i < 4
        invariant
            i <= 4,
            usable_w == sat_sub(width as nat, 6),
            max_row == sat_sub(height as nat, reserve as nat),
            max_row <= 0xFFFF,
            row <= 0x1_0000 + 3,
            (views(items@), row as nat) == ({
                let (b, r) = spec_answer_blocks(q.answers@, usable_w as nat, if row1 < max_row { (row1 + 2) as nat } else { row1 as nat }, max_row as nat, i as nat);
                (head + b, r)
            }),
        decreases 4 - i,
    {
        let key = letter(i);
        let ghost before = views(items@);
        row = push_answer_block(&mut items, q, &key, usable_w, row, max_row);
        i = i + 1;
    }
    assert(views(items@) =~= spec_question_content(*q, width as nat, height as nat, reserve as nat));
    items
}


/// The prompt under a question.
pub open spec fn prompt_text() -> Seq<char> {
    "  Answer [A / B / C / D]  or  [q] to quit: "@
}

/// A normal-mode question screen: the header, the progress bar, the
/// question with its options, and the prompt two rows above the bottom.
pub open spec fn spec_question_screen_normal(
    q: crate::deck::Question,
    q_num: nat,
    total: nat,
    score: nat,
    width: nat,
    height: nat,
) -> Seq<PlacedView> {
    seq![
        at(0, 0, spec_normal_header(width, q_num, total, score), Color::Cyan, true),
        at(0, 1, spec_progress_bar((q_num - 1) as nat, total, width), Color::DarkGrey, false),
    ] + spec_question_content(q, width, height, 3) + seq![
        at(2, (height - 2) as nat, prompt_text(), Color::White, true),
    ]
}

/// Lays out a normal-mode question screen for question `q_num` of `total`.
pub fn question_screen_normal(
    q: &crate::deck::Question,
    q_num: usize,
    total: usize,
    score: usize,
    width: u16,
    height: u16,
) -> (items: Vec<Placed>)
    requires
        q_num >= 1,
        height >= 2,
        score * 100 <= usize::MAX,
        (q_num - 1) * width <= usize::MAX,
    ensures
        views(items@) == spec_question_screen_normal(*q, q_num as nat, total as nat, score as nat, width as nat, height as nat),
{
    let mut items: Vec<Placed> = Vec::new();
    push_placed(&mut items, place(0, 0, normal_header(width, q_num, total, score), Color::Cyan, true));
    push_placed(&mut items, place(0, 1, progress_bar(q_num - 1, total, width), Color::DarkGrey, false));
    let ghost head = views(items@);
    let mut content = question_content(q, width, height, 3);
    let ghost body = views(content@);
    items.append(&mut content);
    assert(views(items@) =~= head + body);
    push_placed(&mut items, place(2, (height - 2) as u32, String::from_str("  Answer [A / B / C / D]  or  [q] to quit: "), Color::White, true));
    assert(views(items@) =~= spec_question_screen_normal(*q, q_num as nat, total as nat, score as nat, width as nat, height as nat));
    items
}

/// A beat-mode question screen: the header in the colour of the combo
/// chain, the progress bar, the question with its options (five rows kept
/// for the fuse, the combo row and the prompt), and the prompt.
pub open spec fn spec_question_screen_beat(
    q: crate::deck::Question,
    q_num: nat,
    total: nat,
    score: nat,
    combo: nat,
    width: nat,
    height: nat,
) -> Seq<PlacedView> {
    seq![
        at(0, 0, spec_beat_header(width, q_num, total, score, combo), spec_combo_color(combo), true),
        at(0, 1, spec_progress_bar((q_num - 1) as nat, total, width), Color::DarkGrey, false),
    ] + spec_question_content(q, width, height, 5) + seq![
        at(2, (height - 2) as nat, prompt_text(), Color::White, true),
    ]
}

/// Lays out a beat-mode question screen for question `q_num` of `total`.
pub fn question_screen_beat(
    q: &crate::deck::Question,
    q_num: usize,
    total: usize,
    bs: &BeatState,
    width: u16,
    height: u16,
) -> (items: Vec<Placed>)
    requires
        q_num >= 1,
        height >= 2,
        (q_num - 1) * width <= usize::MAX,
    ensures
        views(items@) == spec_question_screen_beat(*q, q_num as nat, total as nat, bs.score as nat, bs.combo as nat, width as nat, height as nat),
{
    let mut items: Vec<Placed> = Vec::new();
    push_placed(&mut items, place(0, 0, beat_header(width, q_num, total, bs), bs.combo_color(), true));
    push_placed(&mut items, place(0, 1, progress_bar(q_num - 1, total, width), Color::DarkGrey, false));
    let ghost head = views(items@);
    let mut content = question_content(q, width, height, 5);
    let ghost body = views(content@);
    items.append(&mut content);
    assert(views(items@) =~= head + body);
    push_placed(&mut items, place(2, (height - 2) as u32, String::from_str("  Answer [A / B / C / D]  or  [q] to quit: "), Color::White, true));
    assert(views(items@) =~= spec_question_screen_beat(*q, q_num as nat, total as nat, bs.score as nat, bs.combo as nat, width as nat, height as nat));
    items
}


/// The row of deck `name` in the picker: marked with `▶` when selected.
pub open spec fn picker_row_text(name: Seq<char>, selected: bool) -> Seq<char> {
    if selected {
        "  ▶  "@ + name + "  "@
    } else {
        "     "@ + name + "  "@
    }
}

/// The deck picker: a title above the list, the deck names one per row
/// around the middle of the screen with the selected one in bold black on
/// yellow, and the key hints two rows above the bottom. Row offsets are
/// taken as `u16`, as the terminal's coordinates are.
pub open spec fn spec_picker_screen(names: Seq<Seq<char>>, selected: nat, width: nat, height: nat) -> Seq<PlacedView> {
    let cx = width / 2;
    let cy = height / 2;
    let n16 = ((names.len() as usize) as u16) as nat;
    let title = "── SELECT A QUIZ DECK ──"@;
    let hint = "↑ ↓ to navigate   Enter to load   q to quit"@;
    let list_start = sat_sub(cy, n16 / 2 + 1);
    seq![
        at(spec_center_x(cx, title), sat_sub(cy, n16 / 2 + 3), title, Color::Cyan, true),
        at(spec_center_x(cx, hint), (height - 2) as nat, hint, Color::DarkGrey, false),
    ] + Seq::new(names.len(), |i: int| {
        let text = picker_row_text(names[i], i == selected);
        if i == selected {
            (spec_center_x(cx, text), list_start + ((i as usize) as u16) as nat, text, Color::Black, Color::Yellow, true)
        } else {
            at(spec_center_x(cx, text), list_start + ((i as usize) as u16) as nat, text, Color::White, false)
        }
    })
}

/// Lays out the deck picker for the deck file names `names` with entry
/// `selected` highlighted.
pub fn picker_screen(names: &Vec<String>, selected: usize, width: u16, height: u16) -> (items: Vec<Placed>)
    requires
        height >= 2,
    ensures
        views(items@) == spec_picker_screen(names@.map_values(|n: String| n@), selected as nat, width as nat, height as nat),
{
    let ghost ns = names@.map_values(|n: String| n@);
    let cx = width / 2;
    let cy = height / 2;
    let n16 = names.len() as u16;
    let mut items: Vec<Placed> = Vec::new();
    let title = String::from_str("── SELECT A QUIZ DECK ──");
    let tx = center_x(cx, title.as_str());
    push_placed(&mut items, place(tx as u32, cy.saturating_sub(n16 / 2 + 3) as u32, title, Color::Cyan, true));
    let hint = String::from_str("↑ ↓ to navigate   Enter to load   q to quit");
    let hx = center_x(cx, hint.as_str());
    push_placed(&mut items, place(hx as u32, (height - 2) as u32, hint, Color::DarkGrey, false));
    let list_start = cy.saturating_sub(n16 / 2 + 1) as u32;
    let ghost head = views(items@);
    let mut i: usize = 0;
    while i < names.len()
        invariant
            ns == names@.map_values(|n: String| n@),
            i <= names@.len(),
            cx == width / 2,
            list_start == sat_sub((height / 2) as nat, n16 as nat / 2 + 1),
            n16 == ((names@.len() as usize) as u16),
            views(items@) =~= head + Seq::new(i as nat, |j: int| {
                let text = picker_row_text(ns[j], j == selected);
                if j == selected {
                    (spec_center_x(cx as nat, text), (list_start + ((j as usize) as u16)) as nat, text, Color::Black, Color::Yellow, true)
                } else {
                    at(spec_center_x(cx as nat, text), (list_start + ((j as usize) as u16)) as nat, text, Color::White, false)
                }
            }),
        decreases names.len() - i,
    {
        let sel = i == selected;
        let mut text = String::from_str(if sel { "  ▶  " } else { "     " });
        text.append(names[i].as_str());
        text.append("  ");
        let x = center_x(cx, text.as_str()) as u32;
        let y = list_start + (i as u16) as u32;
        let p = if sel {
            Placed { x, y, text, fg: Color::Black, bg: Color::Yellow, bold: true }
        } else {
            place(x, y, text, Color::White, false)
        };
        push_placed(&mut items, p);
        i = i + 1;
    }
    assert(views(items@) =~= spec_picker_screen(ns, selected as nat, width as nat, height as nat));
    items
}

} // verus!
