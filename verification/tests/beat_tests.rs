use quizzical::beat::{BeatState, BEAT_TIME_MS};
use quizzical::controls::BeatResult;
use quizzical::deck::Question;
use quizzical::fuse::fuse_layout;
use quizzical::session::{BeatNext, BeatSession, Feedback, NormalSession};
use quizzical::style::{color_for_pct, Color};

fn question(correct: &str) -> Question {
    Question {
        domain: "Crypto".to_string(),
        question: "Which one?".to_string(),
        answers: vec![
            ("A".to_string(), "first".to_string()),
            ("B".to_string(), "second".to_string()),
            ("C".to_string(), "third".to_string()),
            ("D".to_string(), "fourth".to_string()),
        ],
        correct: correct.to_string(),
        explanation: "Because.".to_string(),
    }
}

#[test]
fn points_follow_speed_and_chain() {
    // instant, no chain: 100 x 5
    assert_eq!(BeatState::calc_points(0, 20000, 0), 500);
    // at the limit, no chain: 100 x 1
    assert_eq!(BeatState::calc_points(20000, 20000, 0), 100);
    // past the limit counts as the limit
    assert_eq!(BeatState::calc_points(45000, 20000, 1), 100);
    // half the time: 100 x 3
    assert_eq!(BeatState::calc_points(10000, 20000, 1), 300);
    // a quarter used, chain of 2: 100 x 4 x 1.5
    assert_eq!(BeatState::calc_points(5000, 20000, 2), 600);
    // chain of 4 and 6: x2 and x2.5
    assert_eq!(BeatState::calc_points(20000, 20000, 4), 200);
    assert_eq!(BeatState::calc_points(20000, 20000, 6), 250);
    // rounding: 748.5 rounds up
    assert_eq!(BeatState::calc_points(50, 20000, 2), 749);
}

#[test]
fn points_never_exceed_1500_or_drop_below_100() {
    assert_eq!(BeatState::calc_points(0, 20000, 10), 1500);
    assert_eq!(BeatState::calc_points(0, 20000, 1000), 1500);
    for e in (0..25000).step_by(137) {
        for c in 0..14 {
            let p = BeatState::calc_points(e, 20000, c);
            assert!((100..=1500).contains(&p));
        }
    }
}

#[test]
fn faster_and_longer_chains_never_score_less() {
    for c in 0..12 {
        let mut prev = u64::MAX;
        for e in (0..21000).step_by(250) {
            let p = BeatState::calc_points(e, 20000, c);
            assert!(p <= prev);
            prev = p;
        }
    }
    for e in (0..21000).step_by(500) {
        let mut prev = 0;
        for c in 0..12 {
            let p = BeatState::calc_points(e, 20000, c);
            assert!(p >= prev);
            prev = p;
        }
    }
}

#[test]
fn points_agree_with_the_floating_point_formula() {
    for ms in (0u64..20000).step_by(97) {
        for combo in 0..12usize {
            let elapsed = ms as f64 / 1000.0;
            let pct_remaining = ((20.0 - elapsed) / 20.0f64).clamp(0.0, 1.0);
            let time_mult = 1.0 + pct_remaining * 4.0;
            let combo_mult = match combo {
                0..=1 => 1.0f64,
                2..=3 => 1.5,
                4..=5 => 2.0,
                6..=9 => 2.5,
                _ => 3.0,
            };
            let expected = (100.0 * time_mult * combo_mult).round() as i64;
            let got = BeatState::calc_points(ms, 20000, combo) as i64;
            assert!((got - expected).abs() <= 1, "ms {} combo {}", ms, combo);
        }
    }
}

#[test]
fn combo_labels_and_colours() {
    let mut bs = BeatState::new();
    let expect = [
        (0, "", Color::White),
        (1, "×1", Color::White),
        (2, "×2  HOT", Color::Yellow),
        (3, "×3  HOT", Color::Yellow),
        (4, "×4  ON FIRE", Color::Magenta),
        (5, "×5  ON FIRE", Color::Magenta),
        (6, "×6  UNSTOPPABLE", Color::Red),
        (9, "×9  UNSTOPPABLE", Color::Red),
        (10, "×10  MAX COMBO", Color::Red),
        (42, "×42  MAX COMBO", Color::Red),
    ];
    for (combo, label, color) in expect.iter() {
        bs.combo = *combo;
        assert_eq!(bs.combo_label(), *label);
        assert_eq!(bs.combo_color(), *color);
    }
}

#[test]
fn colour_of_a_percentage() {
    assert_eq!(color_for_pct(100), Color::Green);
    assert_eq!(color_for_pct(75), Color::Green);
    assert_eq!(color_for_pct(74), Color::Yellow);
    assert_eq!(color_for_pct(60), Color::Yellow);
    assert_eq!(color_for_pct(59), Color::Red);
    assert_eq!(color_for_pct(0), Color::Red);
}

#[test]
fn a_wrong_answer_or_a_timeout_breaks_the_chain() {
    let mut bs = BeatState::new();
    let p1 = bs.record_correct(1000, 20000);
    let p2 = bs.record_correct(2000, 20000);
    assert_eq!(bs.combo, 2);
    assert_eq!(bs.max_combo, 2);
    assert_eq!(bs.score, p1 + p2);
    assert_eq!(bs.last_pts, p2);
    assert_eq!(bs.record_wrong(), 2);
    assert_eq!(bs.combo, 0);
    assert_eq!(bs.last_pts, 0);
    assert_eq!(bs.max_combo, 2);
    bs.record_correct(0, 20000);
    bs.record_timeout();
    assert_eq!(bs.combo, 0);
    assert_eq!(bs.timeouts, 1);
    assert_eq!(bs.correct, 3);
    assert_eq!(bs.wrong, 1);
    assert_eq!(bs.response_times, vec![1000, 2000, 0]);
}

#[test]
fn chain_multiplier_uses_the_chain_before_the_answer() {
    let mut bs = BeatState::new();
    let mut pts = Vec::new();
    for _ in 0..11 {
        pts.push(bs.record_correct(0, 20000));
    }
    assert_eq!(pts, vec![500, 500, 750, 750, 1000, 1000, 1250, 1250, 1250, 1250, 1500]);
    assert_eq!(bs.score, pts.iter().sum::<u64>());
    assert_eq!(bs.max_combo, 11);
}

#[test]
fn average_response_time_in_hundredths() {
    let mut bs = BeatState::new();
    assert_eq!(bs.avg_time_centis(), 0);
    bs.record_correct(1234, 20000);
    bs.record_correct(2345, 20000);
    // (1234 + 2345) / 2 = 1789.5 ms = 1.7895 s, rounded to 1.79
    assert_eq!(bs.avg_time_centis(), 179);
    assert_eq!(bs.response_total_ms(), 3579);
}

#[test]
fn beat_session_counts_every_question() {
    let q = question("B");
    let mut s = BeatSession::new(6);
    assert_eq!(s.next(), BeatNext::Question(0));
    assert_eq!(s.apply(&q, &BeatResult::Answer("B".to_string(), 0), BEAT_TIME_MS), Feedback::Correct(500));
    assert_eq!(s.apply(&q, &BeatResult::Answer("B".to_string(), 10000), BEAT_TIME_MS), Feedback::Correct(300));
    assert_eq!(s.apply(&q, &BeatResult::Answer("B".to_string(), 0), BEAT_TIME_MS), Feedback::Correct(750));
    assert_eq!(s.apply(&q, &BeatResult::Answer("A".to_string(), 0), BEAT_TIME_MS), Feedback::Wrong(3));
    assert_eq!(s.apply(&q, &BeatResult::Timeout, BEAT_TIME_MS), Feedback::Timeout);
    assert_eq!(s.next(), BeatNext::Question(5));
    assert_eq!(s.apply(&q, &BeatResult::Quit, BEAT_TIME_MS), Feedback::Quit);
    assert_eq!(s.answered, 5);
    assert_eq!(s.stats.correct + s.stats.wrong + s.stats.timeouts, s.answered);
    assert_eq!(s.stats.score, 1550);
    // a quit ends the game on the end screen at once
    assert_eq!(s.next(), BeatNext::EndScreen);
}

#[test]
fn beat_session_ends_after_the_last_question() {
    let q = question("B");
    let mut s = BeatSession::new(2);
    s.apply(&q, &BeatResult::Answer("B".to_string(), 0), BEAT_TIME_MS);
    assert_eq!(s.next(), BeatNext::Question(1));
    s.apply(&q, &BeatResult::Timeout, BEAT_TIME_MS);
    assert_eq!(s.next(), BeatNext::EndScreen);
    assert_eq!(s.answered, s.total);
    // an empty deck goes straight to the end screen
    assert_eq!(BeatSession::new(0).next(), BeatNext::EndScreen);
}

#[test]
fn normal_session_scores_right_answers() {
    let q = question("C");
    let mut s = NormalSession::new();
    assert!(s.answer(&q, &"C".to_string()));
    assert!(!s.answer(&q, &"A".to_string()));
    assert!(!s.answer(&q, &"c".to_string()));
    assert_eq!((s.score, s.asked), (1, 3));
}

#[test]
fn fuse_at_full_time() {
    let l = fuse_layout(80, 20000, 20000, 0);
    assert_eq!(l.time_text, " 20.0s ");
    assert_eq!(l.fuse_w, 68);
    assert_eq!(l.fuel_w, 67);
    assert_eq!(l.ash_w, 0);
    assert_eq!((l.fuse_x, l.spark_x, l.time_x), (5, 72, 73));
    assert_eq!(l.spark_ch, '✸');
    assert_eq!(l.fuel_ch, '━');
    assert_eq!((l.fuel_color, l.spark_color, l.time_color), (Color::Yellow, Color::Yellow, Color::Green));
    assert_eq!(l.bomb_color, Color::DarkGrey);
    assert!(!l.fuel_bold);
}

#[test]
fn fuse_burns_down_and_changes_colour() {
    let l = fuse_layout(80, 7000, 20000, 3);
    assert_eq!(l.time_text, "  7.0s ");
    assert_eq!(l.fuel_w, 7000 * 68 / 20000);
    assert_eq!(l.fuel_w + 1 + l.ash_w, l.fuse_w);
    assert_eq!((l.fuel_color, l.spark_color, l.fuel_ch), (Color::DarkYellow, Color::Yellow, '━'));
    assert_eq!(l.time_color, Color::Yellow);
    assert_eq!(l.spark_ch, '*');
    let l = fuse_layout(80, 3000, 20000, 2);
    assert_eq!((l.fuel_color, l.fuel_ch), (Color::Red, '≈'));
    assert_eq!(l.bomb_color, Color::Red);
    let l = fuse_layout(80, 1000, 20000, 1);
    assert_eq!(l.fuel_ch, '~');
    assert!(l.fuel_bold);
    assert_eq!(l.bomb_color, Color::DarkGrey);
    let l = fuse_layout(80, 0, 20000, 0);
    assert_eq!(l.fuel_w, 0);
    assert_eq!(l.ash_w, 67);
    assert_eq!(l.time_text, "  0.0s ");
}

#[test]
fn fuse_keeps_three_cells_on_narrow_rows() {
    let l = fuse_layout(10, 20000, 20000, 0);
    assert_eq!(l.fuse_w, 3);
    assert_eq!(l.fuel_w, 2);
    assert_eq!(l.ash_w, 0);
    let mut prev = usize::MAX;
    for r in (0..=20000u64).rev().step_by(333) {
        let l = fuse_layout(100, r, 20000, 0);
        assert!(l.fuel_w <= prev);
        prev = l.fuel_w;
    }
}

#[test]
fn fuse_with_more_time_than_the_limit_is_full() {
    let l = fuse_layout(80, 25000, 20000, 0);
    assert_eq!(l.time_text, " 25.0s ");
    assert_eq!(l.fuel_w, 67);
    assert_eq!(l.ash_w, 0);
    assert_eq!(l.fuel_w + 1 + l.ash_w, l.fuse_w);
    let l = fuse_layout(30, u64::MAX, 20000, 5);
    assert_eq!(l.fuel_w + 1 + l.ash_w, l.fuse_w);
    assert_eq!(l.fuse_w, 3);
}

#[test]
fn beat_score_stays_within_the_per_answer_bounds() {
    let q = question("A");
    let mut s = BeatSession::new(7);
    let answers = [("A", 0u64), ("A", 19000), ("B", 100), ("A", 30000), ("A", 500), ("A", 7000)];
    for (i, (c, e)) in answers.iter().enumerate() {
        if i == 3 {
            s.apply(&q, &BeatResult::Timeout, BEAT_TIME_MS);
        }
        s.apply(&q, &BeatResult::Answer(c.to_string(), *e), BEAT_TIME_MS);
        let right = s.stats.correct as u64;
        assert!(100 * right <= s.stats.score && s.stats.score <= 1500 * right);
        assert_eq!(s.stats.correct + s.stats.wrong + s.stats.timeouts, s.answered);
        assert!(s.stats.combo <= s.stats.max_combo && s.stats.max_combo <= s.stats.correct);
    }
}
