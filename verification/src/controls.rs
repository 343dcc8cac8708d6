//! What each key press does on the deck picker, the title screen and the
//! question screens.
use vstd::prelude::*;

verus! {

/// A key press, as far as the screens tell keys apart.
#[derive(Clone, Copy, Debug, PartialEq, Eq, Structural)]
pub enum Key {
    Enter,
    Esc,
    Tab,
    Left,
    Right,
    Up,
    Down,
    Char(char),
    Other,
}

/// The two ways to play.
#[derive(Clone, Copy, Debug, PartialEq, Eq, Structural)]
pub enum GameMode {
    Normal,
    Beat,
}

/// What the title screen does after a key press.
#[derive(Clone, Copy, Debug, PartialEq, Eq, Structural)]
pub enum TitleAction {
    /// Start playing in this mode.
    Start(GameMode),
    /// Leave without playing.
    Quit,
    /// Stay on the title screen with this mode selected.
    Stay(GameMode),
}

/// The other mode.
pub open spec fn spec_toggle(mode: GameMode) -> GameMode {
    match mode {
        GameMode::Normal => GameMode::Beat,
        GameMode::Beat => GameMode::Normal,
    }
}

/// The title screen's answer to `key` with `mode` selected: Enter starts,
/// `q` or Esc quits, `b`, `B`, the arrows left and right, and Tab switch the
/// mode; any other key changes nothing.
pub open spec fn spec_title_key(mode: GameMode, key: Key) -> TitleAction {
    match key {
        Key::Enter => TitleAction::Start(mode),
        Key::Esc | Key::Char('q') => TitleAction::Quit,
        Key::Char('b') | Key::Char('B') | Key::Left | Key::Right | Key::Tab => TitleAction::Stay(spec_toggle(mode)),
        _ => TitleAction::Stay(mode),
    }
}

/// The title screen's answer to a key press.
pub fn title_key(mode: GameMode, key: Key) -> (a: TitleAction)
    ensures
        a == spec_title_key(mode, key),
{
    match key {
        Key::Enter => TitleAction::Start(mode),
        Key::Esc | Key::Char('q') => TitleAction::Quit,
        Key::Char('b') | Key::Char('B') | Key::Left | Key::Right | Key::Tab => {
            let other = match mode {
                GameMode::Normal => GameMode::Beat,
                GameMode::Beat => GameMode::Normal,
            };
            TitleAction::Stay(other)
        },
        _ => TitleAction::Stay(mode),
    }
}

/// What a key press means while a question is shown.
#[derive(Clone, Debug, PartialEq, Eq)]
pub enum AnswerKey {
    /// The player picked the answer with this key (`A` to `D`).
    Answer(String),
    /// The player ends the session.
    Quit,
    /// The key means nothing here.
    Ignore,
}

/// The answer letter that a key stands for: `a` to `d`, either case.
pub open spec fn spec_answer_letter(key: Key) -> Option<char> {
    match key {
        Key::Char('a') | Key::Char('A') => Some('A'),
        Key::Char('b') | Key::Char('B') => Some('B'),
        Key::Char('c') | Key::Char('C') => Some('C'),
        Key::Char('d') | Key::Char('D') => Some('D'),
        _ => None,
    }
}

/// The meaning of `key` while a question is shown: an answer letter, `q` or
/// Esc to quit, or nothing.
pub open spec fn answer_key_ok(key: Key, a: AnswerKey) -> bool {
    match spec_answer_letter(key) {
        Some(c) => a matches AnswerKey::Answer(s) && s@ == seq![c],
        None => if key == Key::Esc || key == Key::Char('q') {
            a == AnswerKey::Quit
        } else {
            a == AnswerKey::Ignore
        },
    }
}

fn letter_string(c: char) -> (s: String)
    ensures
        s@ == seq![c],
{
    let mut s = String::new();
    crate::text::push_char(&mut s, c);
    s
}

/// The meaning of a key press while a question is shown.
pub fn answer_key(key: Key) -> (a: AnswerKey)
    ensures
        answer_key_ok(key, a),
        key == Key::Char('a') || key == Key::Char('A') ==> (a matches AnswerKey::Answer(s) && s@ == seq!['A']),
        key == Key::Char('b') || key == Key::Char('B') ==> (a matches AnswerKey::Answer(s) && s@ == seq!['B']),
        key == Key::Char('c') || key == Key::Char('C') ==> (a matches AnswerKey::Answer(s) && s@ == seq!['C']),
        key == Key::Char('d') || key == Key::Char('D') ==> (a matches AnswerKey::Answer(s) && s@ == seq!['D']),
        key == Key::Char('q') || key == Key::Esc ==> a == AnswerKey::Quit,
{
    match key {
        Key::Char('a') | Key::Char('A') => AnswerKey::Answer(letter_string('A')),
        Key::Char('b') | Key::Char('B') => AnswerKey::Answer(letter_string('B')),
        Key::Char('c') | Key::Char('C') => AnswerKey::Answer(letter_string('C')),
        Key::Char('d') | Key::Char('D') => AnswerKey::Answer(letter_string('D')),
        Key::Char('q') | Key::Esc => AnswerKey::Quit,
        _ => AnswerKey::Ignore,
    }
}

/// How a timed question ended.
#[derive(Clone, Debug, PartialEq, Eq)]
pub enum BeatResult {
    /// The answer with this key, given after this many milliseconds.
    Answer(String, u64),
    Timeout,
    Quit,
}

/// Milliseconds left of `limit_ms` after `elapsed_ms`, never below zero.
pub open spec fn spec_time_left(elapsed_ms: nat, limit_ms: nat) -> nat {
    if elapsed_ms >= limit_ms {
        0
    } else {
        (limit_ms - elapsed_ms) as nat
    }
}

/// Milliseconds left of `limit_ms` after `elapsed_ms`, never below zero.
pub fn time_left(elapsed_ms: u64, limit_ms: u64) -> (r: u64)
    ensures
        r == spec_time_left(elapsed_ms as nat, limit_ms as nat),
{
    if elapsed_ms >= limit_ms {
        0
    } else {
        limit_ms - elapsed_ms
    }
}

/// One look at a timed question, `elapsed_ms` after it appeared, with the
/// key pressed since the last look if any: the time running out ends it,
/// then an answer letter or `q`/Esc does; anything else keeps it going
/// (`None`).
pub open spec fn beat_step_ok(elapsed_ms: nat, limit_ms: nat, key: Option<Key>, r: Option<BeatResult>) -> bool {
    if spec_time_left(elapsed_ms, limit_ms) == 0 {
        r == Some(BeatResult::Timeout)
    } else {
        match key {
            None => r is None,
            Some(k) => match spec_answer_letter(k) {
                Some(c) => r matches Some(BeatResult::Answer(s, e)) && s@ == seq![c] && e == elapsed_ms,
                None => if k == Key::Esc || k == Key::Char('q') {
                    r == Some(BeatResult::Quit)
                } else {
                    r is None
                },
            },
        }
    }
}

/// One look at a timed question: has it ended, and how?
pub fn beat_step(elapsed_ms: u64, limit_ms: u64, key: Option<Key>) -> (r: Option<BeatResult>)
    ensures
        beat_step_ok(elapsed_ms as nat, limit_ms as nat, key, r),
        elapsed_ms >= limit_ms ==> r == Some(BeatResult::Timeout),
        elapsed_ms < limit_ms && (key == Some(Key::Char('q')) || key == Some(Key::Esc)) ==> r == Some(BeatResult::Quit),
        elapsed_ms < limit_ms && key is None ==> r is None,
{
    if time_left(elapsed_ms, limit_ms) == 0 {
        return Some(BeatResult::Timeout);
    }
    match key {
        None => None,
        Some(k) => match answer_key(k) {
            AnswerKey::Answer(s) => Some(BeatResult::Answer(s, elapsed_ms)),
            AnswerKey::Quit => Some(BeatResult::Quit),
            AnswerKey::Ignore => None,
        },
    }
}

/// How the deck picker starts, from the number of deck files found.
#[derive(Clone, Copy, Debug, PartialEq, Eq, Structural)]
pub enum PickerStart {
    /// No deck file: nothing to play.
    NoDeck,
    /// Exactly one: it is loaded without asking.
    Only,
    /// Several: the player chooses.
    Choose,
}

/// How the deck picker starts with `count` deck files.
pub fn picker_start(count: usize) -> (p: PickerStart)
    ensures
        count == 0 ==> p == PickerStart::NoDeck,
        count == 1 ==> p == PickerStart::Only,
        count >= 2 ==> p == PickerStart::Choose,
{
    if count == 0 {
        PickerStart::NoDeck
    } else if count == 1 {
        PickerStart::Only
    } else {
        PickerStart::Choose
    }
}

/// What the deck picker does after a key press.
#[derive(Clone, Copy, Debug, PartialEq, Eq, Structural)]
pub enum PickerAction {
    /// Keep choosing, with this entry highlighted.
    Select(usize),
    /// Load the entry at this position.
    Open(usize),
    /// Leave without a deck.
    Quit,
}

/// The picker's answer to `key` with entry `selected` of `count`
/// highlighted: up or `k` moves up, down or `j` moves down, both stopping at
/// the ends; Enter loads; `q` or Esc quits; other keys change nothing.
pub open spec fn spec_picker_key(selected: nat, count: nat, key: Key) -> PickerAction {
    match key {
        Key::Up | Key::Char('k') => PickerAction::Select(
            if selected > 0 { (selected - 1) as usize } else { selected as usize },
        ),
        Key::Down | Key::Char('j') => PickerAction::Select(
            if selected + 1 < count { (selected + 1) as usize } else { selected as usize },
        ),
        Key::Enter => PickerAction::Open(selected as usize),
        Key::Char('q') | Key::Esc => PickerAction::Quit,
        _ => PickerAction::Select(selected as usize),
    }
}

/// The picker's answer to a key press.
pub fn picker_key(selected: usize, count: usize, key: Key) -> (a: PickerAction)
    requires
        selected < count,
    ensures
        a == spec_picker_key(selected as nat, count as nat, key),
        (key == Key::Up || key == Key::Char('k')) && selected > 0 ==> a == PickerAction::Select((selected - 1) as usize),
        (key == Key::Down || key == Key::Char('j')) && selected + 1 < count ==> a == PickerAction::Select((selected + 1) as usize),
        a matches PickerAction::Select(s) ==> s < count,
        a matches PickerAction::Open(s) ==> s < count,
{
    match key {
        Key::Up | Key::Char('k') => PickerAction::Select(if selected > 0 { selected - 1 } else { selected }),
        Key::Down | Key::Char('j') => PickerAction::Select(
            if selected < count - 1 { selected + 1 } else { selected },
        ),
        Key::Enter => PickerAction::Open(selected),
        Key::Char('q') | Key::Esc => PickerAction::Quit,
        _ => PickerAction::Select(selected),
    }
}

/// Switching the mode twice comes back to where it started, and the title
/// screen never starts or stays in a mode other than the selected one or
/// its opposite.
pub proof fn law_toggle_twice(mode: GameMode, key: Key)
    ensures
        spec_toggle(spec_toggle(mode)) == mode,
        spec_toggle(mode) != mode,
        spec_title_key(mode, key) matches TitleAction::Start(m) ==> m == mode,
{
}

/// Each answer key stands for its own letter, whether typed in lower or
/// upper case: `a` and `A` answer A, `b` and `B` answer B, `c` and `C`
/// answer C, `d` and `D` answer D; `q` and Esc end the session; every other
/// key means nothing on a question.
pub proof fn law_answer_letters(key: Key, a: AnswerKey)
    requires
        answer_key_ok(key, a),
    ensures
        key == Key::Char('a') || key == Key::Char('A') ==> (a matches AnswerKey::Answer(s) && s@ == seq!['A']),
        key == Key::Char('b') || key == Key::Char('B') ==> (a matches AnswerKey::Answer(s) && s@ == seq!['B']),
        key == Key::Char('c') || key == Key::Char('C') ==> (a matches AnswerKey::Answer(s) && s@ == seq!['C']),
        key == Key::Char('d') || key == Key::Char('D') ==> (a matches AnswerKey::Answer(s) && s@ == seq!['D']),
        key == Key::Char('q') || key == Key::Esc ==> a == AnswerKey::Quit,
        (a matches AnswerKey::Answer(s) ==> s@.len() == 1 && (s@[0] == 'A' || s@[0] == 'B' || s@[0] == 'C' || s@[0] == 'D')),
        key == Key::Enter || key == Key::Up || key == Key::Down || key == Key::Char('e') || key == Key::Char('Q') ==> a == AnswerKey::Ignore,
{
}

/// A timed question ends as the key's meaning on a question says, as long
/// as time is left: an answer key answers with its letter at the moment of
/// the look, a key that quits (`q` as much as Esc) quits, and a key that
/// means nothing keeps the question going; once the time is up, it has
/// timed out whatever was pressed.
pub proof fn law_beat_step_follows_keys(
    elapsed_ms: nat,
    limit_ms: nat,
    key: Key,
    meaning: AnswerKey,
    r: Option<BeatResult>,
)
    requires
        answer_key_ok(key, meaning),
        beat_step_ok(elapsed_ms, limit_ms, Some(key), r),
    ensures
        elapsed_ms >= limit_ms ==> r == Some(BeatResult::Timeout),
        elapsed_ms < limit_ms ==> (meaning == AnswerKey::Quit <==> r == Some(BeatResult::Quit)),
        elapsed_ms < limit_ms ==> (meaning == AnswerKey::Ignore <==> r is None),
        elapsed_ms < limit_ms ==> (meaning matches AnswerKey::Answer(s) ==> (r matches Some(
            BeatResult::Answer(t, e),
        ) && t@ == s@ && e == elapsed_ms)),
        elapsed_ms < limit_ms && (key == Key::Char('q') || key == Key::Esc) ==> r == Some(BeatResult::Quit),
{
}

/// Without a key press, a timed question goes on while time is left and has
/// timed out once it is up.
pub proof fn law_beat_step_without_key(elapsed_ms: nat, limit_ms: nat, r: Option<BeatResult>)
    requires
        beat_step_ok(elapsed_ms, limit_ms, None, r),
    ensures
        elapsed_ms < limit_ms ==> r is None,
        elapsed_ms >= limit_ms ==> r == Some(BeatResult::Timeout),
{
}

/// On the deck picker, Up or `k` moves the highlight exactly one entry up
/// and Down or `j` exactly one entry down, each staying put at its end of
/// the list; Enter opens the highlighted entry, `q` or Esc leaves, and any
/// other key leaves the highlight where it is.
pub proof fn law_picker_moves_by_one(selected: usize, count: usize, key: Key)
    requires
        selected < count,
    ensures
        ({
            let a = spec_picker_key(selected as nat, count as nat, key);
            &&& (key == Key::Up || key == Key::Char('k')) && selected > 0 ==> a == PickerAction::Select((selected - 1) as usize)
            &&& (key == Key::Up || key == Key::Char('k')) && selected == 0 ==> a == PickerAction::Select(0)
            &&& (key == Key::Down || key == Key::Char('j')) && selected + 1 < count ==> a == PickerAction::Select((selected + 1) as usize)
            &&& (key == Key::Down || key == Key::Char('j')) && selected + 1 == count ==> a == PickerAction::Select(selected)
            &&& key == Key::Enter ==> a == PickerAction::Open(selected)
            &&& key == Key::Char('q') || key == Key::Esc ==> a == PickerAction::Quit
            &&& key == Key::Left || key == Key::Right || key == Key::Tab || key == Key::Other || key == Key::Char('x')
                ==> a == PickerAction::Select(selected)
        }),
{
}

} // verus!
