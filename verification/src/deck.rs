//! Questions, decks and the random choices made on them.
use vstd::prelude::*;

use rand::seq::SliceRandom;
use rand::Rng;

verus! {

/// One multiple-choice question.
pub struct Question {
    /// The exam domain or category the question belongs to.
    pub domain: String,
    pub question: String,
    /// The answer options, each a key (such as `A`) with its text.
    pub answers: Vec<(String, String)>,
    /// The key of the correct answer.
    pub correct: String,
    pub explanation: String,
}

/// A loaded deck: its display name and its questions in play order.
pub struct Deck {
    pub name: String,
    pub questions: Vec<Question>,
}

/// Whether no two answer options share a key, as in a map from keys to
/// answer texts.
pub open spec fn keys_distinct(answers: Seq<(String, String)>) -> bool {
    forall|i: int, j: int| 0 <= i < j < answers.len() ==> #[trigger] answers[i].0@ != #[trigger] answers[j].0@
}

impl Deck {
    /// Every question of the deck has distinct answer keys.
    pub open spec fn wf(&self) -> bool {
        forall|i: int| 0 <= i < self.questions@.len() ==> (#[trigger] self.questions@[i]).wf()
    }
}

/// The text of the first answer option whose key is `key`.
pub open spec fn spec_answer_for(answers: Seq<(String, String)>, key: Seq<char>) -> Option<Seq<char>>
    decreases answers.len(),
{
    if answers.len() == 0 {
        None
    } else if answers[0].0@ == key {
        Some(answers[0].1@)
    } else {
        spec_answer_for(answers.drop_first(), key)
    }
}

impl Question {
    /// A question's answer options form a map: each key occurs once.
    pub open spec fn wf(&self) -> bool {
        keys_distinct(self.answers@)
    }

    /// Whether the answer keys of the question are distinct.
    pub fn has_distinct_keys(&self) -> (b: bool)
        ensures
            b == self.wf(),
    {
        let n = self.answers.len();
        let mut i: usize = 0;
        while i < n
            invariant
                n == self.answers@.len(),
                i <= n,
                forall|a: int, b: int| 0 <= a < b < n && a < i ==> #[trigger] self.answers@[a].0@ != #[trigger] self.answers@[b].0@,
            decreases n - i,
        {
            let mut j: usize = i + 1;
            while j < n
                invariant
                    n == self.answers@.len(),
                    i < n,
                    i < j <= n,
                    forall|b: int| i < b < j ==> self.answers@[i as int].0@ != #[trigger] self.answers@[b].0@,
                decreases n - j,
            {
                if self.answers[i].0 == self.answers[j].0 {
                    return false;
                }
                j = j + 1;
            }
            i = i + 1;
        }
        true
    }

    /// The text of the answer option with key `key`, if there is one.
    pub fn answer_for(&self, key: &String) -> (text: Option<String>)
        ensures
            match text {
                Some(t) => spec_answer_for(self.answers@, key@) == Some(t@),
                None => spec_answer_for(self.answers@, key@) is None,
            },
    {
        let mut i: usize = 0;
        assert(self.answers@.skip(0) =~= self.answers@);
        while i < self.answers.len()
            invariant
                i <= self.answers@.len(),
                spec_answer_for(self.answers@, key@) == spec_answer_for(self.answers@.skip(i as int), key@),
            decreases self.answers.len() - i,
        {
            let ghost rest = self.answers@.skip(i as int);
            assert(rest.drop_first() =~= self.answers@.skip(i + 1));
            assert(rest[0] == self.answers@[i as int]);
            if self.answers[i].0 == *key {
                return Some(self.answers[i].1.clone());
            }
            i = i + 1;
        }
        None
    }

    /// The text of the correct answer, if the question has an option for it.
    pub fn correct_answer(&self) -> (text: Option<String>)
        ensures
            match text {
                Some(t) => spec_answer_for(self.answers@, self.correct@) == Some(t@),
                None => spec_answer_for(self.answers@, self.correct@) is None,
            },
    {
        self.answer_for(&self.correct)
    }

    /// Whether the answer `chosen` is the correct one.
    pub fn is_correct(&self, chosen: &String) -> (b: bool)
        ensures
            b == (chosen@ == self.correct@),
    {
        *chosen == self.correct
    }
}

/// The name a deck is shown under: its own name, or `quiz` when it has none.
pub open spec fn spec_deck_name(name: Seq<char>) -> Seq<char> {
    if name.len() == 0 {
        "quiz"@
    } else {
        name
    }
}

/// The name a deck is shown under.
pub fn deck_name(name: &String) -> (s: String)
    ensures
        s@ == spec_deck_name(name@),
{
    if name.as_str().is_empty() {
        String::from_str("quiz")
    } else {
        name.clone()
    }
}

/// Puts `questions` in a random order.
///
/// Trusted: calls `rand::seq::SliceRandom::shuffle` with the thread-local
/// generator; its source is a Fisher-Yates loop of swaps, so the result is a
/// permutation of the input. Which permutation comes out is not stated.
#[verifier::external_body]
fn shuffle_questions(questions: &mut Vec<Question>)
    ensures
        final(questions)@.to_multiset() == old(questions)@.to_multiset(),
{
    questions.shuffle(&mut rand::thread_rng());
}

/// A uniformly chosen index below `n`.
///
/// Trusted: calls `rand::Rng::gen_range(0..n)` on the thread-local
/// generator, which returns a value of the range and panics only on an
/// empty range. Which value comes out is not stated.
#[verifier::external_body]
pub(crate) fn random_below(n: usize) -> (r: usize)
    requires
        n > 0,
    ensures
        r < n,
{
    rand::thread_rng().gen_range(0..n)
}

/// With distinct keys, looking a key up finds the option with that key
/// wherever it stands; a key no option has finds nothing.
pub proof fn law_answer_for_by_key(answers: Seq<(String, String)>, key: Seq<char>)
    ensures
        keys_distinct(answers) ==> forall|i: int| 0 <= i < answers.len() && #[trigger] answers[i].0@ == key
            ==> spec_answer_for(answers, key) == Some(answers[i].1@),
        (forall|i: int| 0 <= i < answers.len() ==> #[trigger] answers[i].0@ != key)
            ==> spec_answer_for(answers, key) is None,
    decreases answers.len(),
{
    if answers.len() > 0 {
        let rest = answers.drop_first();
        law_answer_for_by_key(rest, key);
        assert forall|i: int| 0 <= i < rest.len() implies #[trigger] rest[i] == answers[i + 1] by {}
        if keys_distinct(answers) {
            assert(keys_distinct(rest)) by {
                assert forall|i: int, j: int| 0 <= i < j < rest.len() implies #[trigger] rest[i].0@ != #[trigger] rest[j].0@ by {
                    assert(answers[i + 1].0@ != answers[j + 1].0@);
                }
            }
            assert forall|i: int| 0 <= i < answers.len() && #[trigger] answers[i].0@ == key
                implies spec_answer_for(answers, key) == Some(answers[i].1@) by {
                if i > 0 {
                    assert(answers[0].0@ != answers[i].0@);
                    assert(rest[i - 1].0@ == key);
                }
            }
        }
        if forall|i: int| 0 <= i < answers.len() ==> #[trigger] answers[i].0@ != key {
            assert(answers[0].0@ != key);
            assert forall|i: int| 0 <= i < rest.len() implies #[trigger] rest[i].0@ != key by {
                assert(answers[i + 1].0@ != key);
            }
        }
    }
}

/// Builds the deck to play from what a deck file holds: the name it is
/// shown under, and its questions in a random order.
pub fn load_deck(name: &String, questions: Vec<Question>) -> (d: Deck)
    requires
        forall|i: int| 0 <= i < questions@.len() ==> (#[trigger] questions@[i]).wf(),
    ensures
        d.wf(),
        d.name@ == spec_deck_name(name@),
        d.questions@.to_multiset() == questions@.to_multiset(),
        d.questions@.len() == questions@.len(),
{
    let mut questions = questions;
    let ghost before = questions@;
    shuffle_questions(&mut questions);
    proof {
        before.to_multiset_ensures();
        questions@.to_multiset_ensures();
        assert forall|i: int| 0 <= i < questions@.len() implies (#[trigger] questions@[i]).wf() by {
            assert(questions@.contains(questions@[i]));
            assert(before.to_multiset().count(questions@[i]) > 0);
            let k = choose|k: int| 0 <= k < before.len() && before[k] == questions@[i];
            assert(before[k].wf());
        }
    }
    Deck { name: deck_name(name), questions }
}

} // verus!
