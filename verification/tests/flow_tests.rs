use quizzical::controls::{
    answer_key, beat_step, picker_key, picker_start, time_left, title_key, AnswerKey, BeatResult,
    GameMode, Key, PickerAction, PickerStart, TitleAction,
};
use quizzical::deck::{deck_name, load_deck, Question};
use quizzical::files::{deck_files, file_arg, is_deck_name};
use quizzical::messages::{
    correct_banner, random_correct_banner, random_wrong_msg, wrong_msg, CORRECT_BANNER_COUNT,
    WRONG_MSG_COUNT,
};

fn strings(v: &[&str]) -> Vec<String> {
    v.iter().map(|s| s.to_string()).collect()
}

fn question(n: usize) -> Question {
    Question {
        domain: "D".to_string(),
        question: format!("Question {}", n),
        answers: vec![("A".to_string(), format!("answer {}", n)), ("B".to_string(), "other".to_string())],
        correct: "A".to_string(),
        explanation: String::new(),
    }
}

#[test]
fn title_screen_keys() {
    assert_eq!(title_key(GameMode::Normal, Key::Enter), TitleAction::Start(GameMode::Normal));
    assert_eq!(title_key(GameMode::Beat, Key::Enter), TitleAction::Start(GameMode::Beat));
    assert_eq!(title_key(GameMode::Normal, Key::Char('q')), TitleAction::Quit);
    assert_eq!(title_key(GameMode::Beat, Key::Esc), TitleAction::Quit);
    for k in [Key::Char('b'), Key::Char('B'), Key::Left, Key::Right, Key::Tab] {
        assert_eq!(title_key(GameMode::Normal, k), TitleAction::Stay(GameMode::Beat));
        assert_eq!(title_key(GameMode::Beat, k), TitleAction::Stay(GameMode::Normal));
    }
    assert_eq!(title_key(GameMode::Beat, Key::Char('x')), TitleAction::Stay(GameMode::Beat));
    assert_eq!(title_key(GameMode::Normal, Key::Up), TitleAction::Stay(GameMode::Normal));
}

#[test]
fn toggling_twice_returns_to_the_mode() {
    for m in [GameMode::Normal, GameMode::Beat] {
        let once = match title_key(m, Key::Tab) {
            TitleAction::Stay(x) => x,
            _ => unreachable!(),
        };
        assert_ne!(once, m);
        assert_eq!(title_key(once, Key::Tab), TitleAction::Stay(m));
    }
}

#[test]
fn answer_keys() {
    for (k, l) in [('a', "A"), ('A', "A"), ('b', "B"), ('C', "C"), ('d', "D")] {
        assert_eq!(answer_key(Key::Char(k)), AnswerKey::Answer(l.to_string()));
    }
    assert_eq!(answer_key(Key::Char('q')), AnswerKey::Quit);
    assert_eq!(answer_key(Key::Esc), AnswerKey::Quit);
    assert_eq!(answer_key(Key::Char('Q')), AnswerKey::Ignore);
    assert_eq!(answer_key(Key::Char('e')), AnswerKey::Ignore);
    assert_eq!(answer_key(Key::Enter), AnswerKey::Ignore);
}

#[test]
fn timed_question_steps() {
    assert_eq!(time_left(0, 20000), 20000);
    assert_eq!(time_left(19999, 20000), 1);
    assert_eq!(time_left(25000, 20000), 0);
    assert_eq!(beat_step(5000, 20000, None), None);
    assert_eq!(beat_step(5000, 20000, Some(Key::Char('c'))), Some(BeatResult::Answer("C".to_string(), 5000)));
    assert_eq!(beat_step(5000, 20000, Some(Key::Esc)), Some(BeatResult::Quit));
    assert_eq!(beat_step(5000, 20000, Some(Key::Char('z'))), None);
    // running out of time wins over a key
    assert_eq!(beat_step(20000, 20000, Some(Key::Char('a'))), Some(BeatResult::Timeout));
    assert_eq!(beat_step(20001, 20000, None), Some(BeatResult::Timeout));
}

#[test]
fn picker_navigation() {
    assert_eq!(picker_start(0), PickerStart::NoDeck);
    assert_eq!(picker_start(1), PickerStart::Only);
    assert_eq!(picker_start(5), PickerStart::Choose);
    assert_eq!(picker_key(0, 3, Key::Up), PickerAction::Select(0));
    assert_eq!(picker_key(1, 3, Key::Char('k')), PickerAction::Select(0));
    assert_eq!(picker_key(1, 3, Key::Down), PickerAction::Select(2));
    assert_eq!(picker_key(2, 3, Key::Char('j')), PickerAction::Select(2));
    assert_eq!(picker_key(2, 3, Key::Enter), PickerAction::Open(2));
    assert_eq!(picker_key(1, 3, Key::Char('q')), PickerAction::Quit);
    assert_eq!(picker_key(1, 3, Key::Esc), PickerAction::Quit);
    assert_eq!(picker_key(1, 3, Key::Char('x')), PickerAction::Select(1));
}

#[test]
fn command_line_file() {
    assert_eq!(file_arg(&strings(&["quiz", "--file", "deck.json"])), Some("deck.json".to_string()));
    assert_eq!(file_arg(&strings(&["quiz", "x", "--file", "a.json", "--file", "b.json"])), Some("a.json".to_string()));
    assert_eq!(file_arg(&strings(&["quiz", "--file"])), None);
    assert_eq!(file_arg(&strings(&["quiz"])), None);
    assert_eq!(file_arg(&strings(&[])), None);
    assert_eq!(file_arg(&strings(&["--file", "--file"])), Some("--file".to_string()));
}

#[test]
fn deck_file_names() {
    assert!(is_deck_name(&"a.json".to_string()));
    assert!(is_deck_name(&"..json".to_string()));
    assert!(!is_deck_name(&".json".to_string()));
    assert!(!is_deck_name(&"deck.JSON".to_string()));
    assert!(!is_deck_name(&"deck.json.bak".to_string()));
    assert!(!is_deck_name(&"json".to_string()));
    let files = deck_files(strings(&["zeta.json", "notes.txt", "alpha.json", ".json", "Beta.json", "émoji.json", "alpha.jso"]));
    assert_eq!(files, strings(&["Beta.json", "alpha.json", "zeta.json", "émoji.json"]));
    assert!(deck_files(Vec::new()).is_empty());
}

#[test]
fn deck_file_order_matches_path_order() {
    let names = strings(&["b.json", "a.json", "a b.json", "A.json", "ab.json", "a.json.json", "é.json", "z.json"]);
    let mut expected: Vec<std::path::PathBuf> = names
        .iter()
        .map(|n| std::path::PathBuf::from(".").join(n))
        .filter(|p| p.extension().and_then(|e| e.to_str()) == Some("json"))
        .collect();
    expected.sort();
    let got: Vec<std::path::PathBuf> = deck_files(names).iter().map(|n| std::path::PathBuf::from(".").join(n)).collect();
    assert_eq!(got, expected);
}

#[test]
fn answers_and_names() {
    let q = question(3);
    assert_eq!(q.answer_for(&"A".to_string()), Some("answer 3".to_string()));
    assert_eq!(q.answer_for(&"B".to_string()), Some("other".to_string()));
    assert_eq!(q.answer_for(&"E".to_string()), None);
    assert_eq!(q.correct_answer(), Some("answer 3".to_string()));
    assert!(q.is_correct(&"A".to_string()));
    assert!(!q.is_correct(&"B".to_string()));
    assert_eq!(deck_name(&String::new()), "quiz");
    assert_eq!(deck_name(&"Security+".to_string()), "Security+");
}

#[test]
fn loading_a_deck_shuffles_without_losing_questions() {
    let questions: Vec<Question> = (0..40).map(question).collect();
    let mut moved = false;
    for _ in 0..5 {
        let deck = load_deck(&String::new(), (0..40).map(question).collect());
        assert_eq!(deck.name, "quiz");
        assert_eq!(deck.questions.len(), 40);
        let mut seen: Vec<String> = deck.questions.iter().map(|q| q.question.clone()).collect();
        if seen != questions.iter().map(|q| q.question.clone()).collect::<Vec<_>>() {
            moved = true;
        }
        seen.sort();
        let mut all: Vec<String> = questions.iter().map(|q| q.question.clone()).collect();
        all.sort();
        assert_eq!(seen, all);
    }
    assert!(moved);
}

#[test]
fn messages_come_from_their_lists() {
    assert_eq!(wrong_msg(0), "Nope. Not even close, champ.");
    assert_eq!(wrong_msg(16), "Wow. Just... wow.");
    assert_eq!(correct_banner(0), "✓  CORRECT!");
    assert_eq!(correct_banner(5), "★  SECURITY+ ENERGY!");
    let wrong: Vec<&str> = (0..WRONG_MSG_COUNT).map(wrong_msg).collect();
    let banners: Vec<&str> = (0..CORRECT_BANNER_COUNT).map(correct_banner).collect();
    let mut distinct = std::collections::HashSet::new();
    for _ in 0..300 {
        let w = random_wrong_msg();
        assert!(wrong.contains(&w));
        distinct.insert(w);
        assert!(banners.contains(&random_correct_banner()));
    }
    assert!(distinct.len() > 1);
}

#[test]
fn answer_keys_must_be_distinct() {
    let mut q = question(1);
    assert!(q.has_distinct_keys());
    q.answers.push(("A".to_string(), "again".to_string()));
    assert!(!q.has_distinct_keys());
    let q = Question { answers: Vec::new(), ..question(2) };
    assert!(q.has_distinct_keys());
}
