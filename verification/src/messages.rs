//! The taunts shown after a wrong answer and the banners of a correct one.
use vstd::prelude::*;

use crate::deck::random_below;

verus! {

/// Number of taunts shown after a wrong answer.
pub const WRONG_MSG_COUNT: usize = 17;

/// Number of banners shown after a correct answer.
pub const CORRECT_BANNER_COUNT: usize = 6;

/// The taunt at position `i` (the last one for any larger `i`).
pub open spec fn spec_wrong_msg(i: nat) -> Seq<char> {
    if i == 0 {
        "Nope. Not even close, champ."@
    } else if i == 1 {
        "Oof. That one hurt to watch."@
    } else if i == 2 {
        "Wrong! But your confidence was admirable."@
    } else if i == 3 {
        "Almost... just kidding, not at all."@
    } else if i == 4 {
        "CompTIA sends their condolences."@
    } else if i == 5 {
        "Error 404: Correct answer not found in your brain."@
    } else if i == 6 {
        "That's a paddlin'."@
    } else if i == 7 {
        "Bold choice. Security+ disagrees."@
    } else if i == 8 {
        "The answer was RIGHT THERE."@
    } else if i == 9 {
        "Your future self just cringed."@
    } else if i == 10 {
        "Incorrect! But you're still a good person."@
    } else if i == 11 {
        "Nice try. No points though."@
    } else if i == 12 {
        "The judges have deliberated: no."@
    } else if i == 13 {
        "Wrong answer speedrun any%"@
    } else if i == 14 {
        "That answer has left the building."@
    } else if i == 15 {
        "Have you tried reading the study guide?"@
    } else {
        "Wow. Just... wow."@
    }
}

/// The banner at position `i` (the last one for any larger `i`).
pub open spec fn spec_correct_banner(i: nat) -> Seq<char> {
    if i == 0 {
        "✓  CORRECT!"@
    } else if i == 1 {
        "★  NAILED IT!"@
    } else if i == 2 {
        "◆  BOOM! RIGHT!"@
    } else if i == 3 {
        "●  LET'S GO!"@
    } else if i == 4 {
        "▲  LOCKED IN!"@
    } else {
        "★  SECURITY+ ENERGY!"@
    }
}

/// The taunt at position `i`.
pub fn wrong_msg(i: usize) -> (s: &'static str)
    ensures
        s@ == spec_wrong_msg(i as nat),
{
    if i == 0 {
        "Nope. Not even close, champ."
    } else if i == 1 {
        "Oof. That one hurt to watch."
    } else if i == 2 {
        "Wrong! But your confidence was admirable."
    } else if i == 3 {
        "Almost... just kidding, not at all."
    } else if i == 4 {
        "CompTIA sends their condolences."
    } else if i == 5 {
        "Error 404: Correct answer not found in your brain."
    } else if i == 6 {
        "That's a paddlin'."
    } else if i == 7 {
        "Bold choice. Security+ disagrees."
    } else if i == 8 {
        "The answer was RIGHT THERE."
    } else if i == 9 {
        "Your future self just cringed."
    } else if i == 10 {
        "Incorrect! But you're still a good person."
    } else if i == 11 {
        "Nice try. No points though."
    } else if i == 12 {
        "The judges have deliberated: no."
    } else if i == 13 {
        "Wrong answer speedrun any%"
    } else if i == 14 {
        "That answer has left the building."
    } else if i == 15 {
        "Have you tried reading the study guide?"
    } else {
        "Wow. Just... wow."
    }
}

/// The banner at position `i`.
pub fn correct_banner(i: usize) -> (s: &'static str)
    ensures
        s@ == spec_correct_banner(i as nat),
{
    if i == 0 {
        "✓  CORRECT!"
    } else if i == 1 {
        "★  NAILED IT!"
    } else if i == 2 {
        "◆  BOOM! RIGHT!"
    } else if i == 3 {
        "●  LET'S GO!"
    } else if i == 4 {
        "▲  LOCKED IN!"
    } else {
        "★  SECURITY+ ENERGY!"
    }
}

/// A taunt chosen at random.
pub fn random_wrong_msg() -> (s: &'static str)
    ensures
        exists|i: nat| i < WRONG_MSG_COUNT && s@ == spec_wrong_msg(i),
{
    let i = random_below(WRONG_MSG_COUNT);
    wrong_msg(i)
}

/// A banner chosen at random.
pub fn random_correct_banner() -> (s: &'static str)
    ensures
        exists|i: nat| i < CORRECT_BANNER_COUNT && s@ == spec_correct_banner(i),
{
    let i = random_below(CORRECT_BANNER_COUNT);
    correct_banner(i)
}

} // verus!
