use quizzical::beat::BeatState;
use quizzical::controls::GameMode;
use quizzical::deck::Question;
use quizzical::results::{
    correct_beat_screen, correct_screen, final_beat_screen, final_screen, timeout_flash,
    timeout_screen, wrong_beat_screen, wrong_screen,
};
use quizzical::screen::{
    beat_header, center_x, combo_row, normal_header, picker_screen, progress_bar,
    question_content, question_screen_normal, title_screen, Placed,
};
use quizzical::style::Color;

fn question() -> Question {
    Question {
        domain: "Network Security".to_string(),
        question: "Which port does HTTPS use by default on the public internet?".to_string(),
        answers: vec![
            ("A".to_string(), "80".to_string()),
            ("B".to_string(), "443".to_string()),
            ("C".to_string(), "22".to_string()),
            ("D".to_string(), "8443 when nothing else is configured".to_string()),
        ],
        correct: "B".to_string(),
        explanation: "HTTPS listens on TCP port 443 unless configured otherwise.".to_string(),
    }
}

fn texts(items: &[Placed]) -> Vec<(u32, u32, String)> {
    items.iter().map(|p| (p.x, p.y, p.text.clone())).collect()
}

#[test]
fn headers() {
    let h = normal_header(60, 3, 10, 1);
    assert_eq!(h.trim_end(), " ╔══ QUIZZICAL ══╗  Q 3/10 │ Score: 1/2 (50%)");
    assert_eq!(h.chars().count(), 60);
    assert_eq!(normal_header(10, 1, 5, 0), " ╔══ QUIZZICAL ══╗  Q 1/5 │ Score: 0/0 (0%)");
    let mut bs = BeatState::new();
    bs.score = 12345;
    assert_eq!(beat_header(0, 2, 9, &bs), " ⚡ BEAT MODE  Q 2/9  │  12,345 pts  ");
    bs.combo = 4;
    assert_eq!(beat_header(0, 2, 9, &bs), " ⚡ BEAT MODE  Q 2/9  │  12,345 pts │ ×4  ON FIRE  ");
}

#[test]
fn progress_bars() {
    assert_eq!(progress_bar(2, 4, 8), "████░░░░");
    assert_eq!(progress_bar(0, 4, 5), "░░░░░");
    assert_eq!(progress_bar(1, 3, 10), "███░░░░░░░");
    assert_eq!(progress_bar(3, 0, 3), "░░░");
    assert_eq!(progress_bar(5, 5, 4), "████");
}

#[test]
fn centring_counts_characters() {
    assert_eq!(center_x(40, "abcd"), 38);
    // "✓  CORRECT!" is 11 characters (13 bytes)
    assert_eq!(center_x(40, "✓  CORRECT!"), 35);
    // the box of the end screen: 36 characters, 104 bytes
    assert_eq!(center_x(40, "╔══════════════════════════════════╗"), 22);
    assert_eq!(center_x(2, "a long line"), 0);
}

#[test]
fn combo_row_needs_a_chain_of_two() {
    let mut bs = BeatState::new();
    bs.combo = 1;
    assert!(combo_row(80, 20, &bs, 0).is_empty());
    bs.combo = 3;
    bs.last_pts = 1250;
    let row = combo_row(80, 20, &bs, 0);
    assert_eq!(texts(&row), vec![(0, 20, "  ×3  HOT ".to_string()), (80 - 10 - 2, 20, "  +1,250  ".to_string())]);
    assert_eq!(row[0].fg, Color::Yellow);
    assert_eq!(combo_row(80, 20, &bs, 1)[0].fg, Color::White);
}

#[test]
fn title_screen_layout() {
    let items = title_screen(80, 24, 12, "demo", GameMode::Normal, 20);
    assert_eq!(items.len(), 13);
    assert_eq!(items[6].text, "demo edition");
    assert_eq!(items[6].y, 5 + 6);
    assert_eq!(items[7].text, "12 questions loaded");
    assert_eq!(items[8].text, "  NORMAL  ");
    assert_eq!((items[8].fg, items[8].bg), (Color::Black, Color::Cyan));
    assert_eq!((items[10].x, items[10].fg), (25 + 14, Color::DarkGrey));
    let items = title_screen(80, 24, 12, "demo", GameMode::Beat, 20);
    assert_eq!(items.len(), 14);
    assert_eq!((items[10].fg, items[10].bg), (Color::White, Color::Red));
    assert_eq!(items[13].text, "  Timed: 20s/question  │  Points: faster = more  │  Chain for combo  ");
}

#[test]
fn question_layout() {
    let q = question();
    let items = question_content(&q, 40, 30, 3);
    let t = texts(&items);
    assert_eq!(t[0], (2, 3, "[Network Security]".to_string()));
    assert_eq!(t[1], (3, 5, "Which port does HTTPS use by".to_string()));
    assert_eq!(t[2], (3, 6, "default on the public internet?".to_string()));
    assert_eq!(t[3], (2, 8, "─".repeat(36)));
    assert_eq!(t[4], (3, 10, "  A.  ".to_string()));
    assert_eq!(t[5], (9, 10, "80".to_string()));
    assert_eq!(t[6], (3, 12, "  B.  ".to_string()));
    assert_eq!(t[11], (9, 16, "8443 when nothing else is".to_string()));
    assert_eq!(t[12], (9, 17, "configured".to_string()));
    assert_eq!(t.len(), 13);
    assert!(items[1].bold);
}

#[test]
fn question_layout_stops_at_the_reserved_rows() {
    let q = question();
    let t = texts(&question_content(&q, 40, 14, 3));
    // rows 11 and below are reserved
    assert!(t.iter().all(|(_, y, _)| *y < 11));
    assert_eq!(t.last().unwrap().2, "80");
    let full = question_screen_normal(&q, 1, 5, 0, 40, 14);
    assert_eq!(texts(&full).last().unwrap(), &(2, 12, "  Answer [A / B / C / D]  or  [q] to quit: ".to_string()));
}

#[test]
fn screens_after_an_answer() {
    let q = question();
    let c = texts(&correct_screen(&q, 80, 24));
    assert_eq!(c[0], (35, 2, "✓  CORRECT!".to_string()));
    assert_eq!(c[2], (3, 7, "Explanation:".to_string()));
    assert_eq!(c[3].2, "HTTPS listens on TCP port 443 unless configured otherwise.");
    assert_eq!(c.last().unwrap().1, 22);
    let w = texts(&wrong_screen(&q, "A", "Wow. Just... wow.", 80, 24));
    assert_eq!(w[0].2, "✗  WRONG  ─  You chose A  ─  Correct: B");
    assert_eq!(w[1].2, "Wow. Just... wow.");
    assert_eq!(w[3], (3, 9, "  Correct (B)  ".to_string()));
    assert_eq!(w[4], (18, 9, "443".to_string()));
    assert_eq!(w[5], (3, 12, "Explanation:".to_string()));
    let mut bs = BeatState::new();
    bs.record_correct(0, 20000);
    bs.record_correct(0, 20000);
    let cb = texts(&correct_beat_screen(&q, 500, &bs, 80, 24));
    assert_eq!(cb[1].2, "+500  pts");
    assert_eq!(cb[2].2, "Combo: ×2  HOT");
    assert_eq!(cb[5], (3, 11, "443".to_string()));
    assert_eq!(cb[6], (32, 21, "Total: 1,000 pts".to_string()));
    let wb = texts(&wrong_beat_screen(&q, "D", 5, "Nope.", 80, 24));
    assert_eq!(wb[0].2, "COMBO BROKEN  (was ×5)");
    assert_eq!(wb[1].1, 4);
    let wb = texts(&wrong_beat_screen(&q, "D", 1, "Nope.", 80, 24));
    assert_eq!(wb[0].1, 2);
    let t = texts(&timeout_screen(&q, 80, 24));
    assert_eq!(t[2], (3, 7, "  Correct answer was B:  ".to_string()));
    assert_eq!(t[3], (3, 8, "443".to_string()));
    let f = timeout_flash(80, 24);
    assert_eq!((f.x, f.y, f.text.as_str()), (34, 12, "TIME'S UP!"));
}

#[test]
fn end_screens() {
    let f = final_screen(9, 10, 80, 24);
    assert_eq!(f.len(), 10);
    assert_eq!(f[4].text, "Final Score:  9 / 10  (90%)");
    assert_eq!(f[6].text, "★  OUTSTANDING");
    assert_eq!(f[4].fg, Color::Green);
    assert_eq!(f[0].y, 7);
    assert_eq!(final_screen(6, 10, 80, 24)[6].text, "~  GETTING THERE");
    assert_eq!(final_screen(0, 0, 80, 24)[4].text, "Final Score:  0 / 0  (0%)");
    let mut bs = BeatState::new();
    let fb = final_beat_screen(&bs, 0, 10, 80, 24);
    assert_eq!(fb.len(), 14);
    assert_eq!(fb[10].text, "✗  ROUGH SESSION");
    assert_eq!(fb[7].text, "  Avg. Time         0.00s");
    for _ in 0..6 {
        bs.record_correct(1500, 20000);
    }
    bs.record_wrong();
    let fb = final_beat_screen(&bs, 7, 10, 80, 24);
    assert_eq!(fb[4].text, format!("  Score          {:>10} pts", quizzical::number::fmt_score(bs.score)));
    assert_eq!(fb[5].text, "  Questions         7 / 10");
    assert_eq!(fb[6].text, "  Correct           6   Wrong: 1   Timeouts: 0");
    assert_eq!(fb[7].text, "  Avg. Time         1.50s");
    assert_eq!(fb[8].text, "  Max Combo      ×6");
    assert_eq!(fb[10].text, "◆  ELITE");
}

#[test]
fn picker_rows() {
    let names = vec!["a.json".to_string(), "b.json".to_string()];
    let items = picker_screen(&names, 1, 80, 24);
    assert_eq!(items.len(), 4);
    assert_eq!(items[0].text, "── SELECT A QUIZ DECK ──");
    assert_eq!(items[0].y, 12 - 4);
    assert_eq!(items[2].text, "     a.json  ");
    assert_eq!(items[3].text, "  ▶  b.json  ");
    assert_eq!((items[3].fg, items[3].bg, items[3].bold), (Color::Black, Color::Yellow, true));
    assert_eq!((items[2].y, items[3].y), (10, 11));
}
