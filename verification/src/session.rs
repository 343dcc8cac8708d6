//! The course of a game: what each answer does to the session, in normal
//! and in beat mode.
use vstd::prelude::*;

use crate::beat::{spec_calc_points, BeatState};
use crate::controls::BeatResult;
use crate::deck::Question;

verus! {

/// A normal game in progress.
pub struct NormalSession {
    /// Questions answered correctly.
    pub score: usize,
    /// Questions answered.
    pub asked: usize,
}

impl NormalSession {
    /// What every session keeps: no more right answers than answers.
    pub open spec fn wf(&self) -> bool {
        self.score <= self.asked
    }

    /// A session before the first question.
    pub fn new() -> (s: Self)
        ensures
            s.wf(),
            s.score == 0,
            s.asked == 0,
    {
        NormalSession { score: 0, asked: 0 }
    }

    /// Records the answer `chosen` to `q`; a right answer scores a point.
    /// Returns whether it was right.
    pub fn answer(&mut self, q: &Question, chosen: &String) -> (right: bool)
        requires
            old(self).wf(),
            old(self).asked < usize::MAX,
        ensures
            final(self).wf(),
            right == (chosen@ == q.correct@),
            final(self).asked == old(self).asked + 1,
            final(self).score == old(self).score + if right { 1int } else { 0int },
    {
        let right = q.is_correct(chosen);
        if right {
            self.score = self.score + 1;
        }
        self.asked = self.asked + 1;
        right
    }
}

/// What the player is shown after a timed question.
#[derive(Clone, Copy, Debug, PartialEq, Eq, Structural)]
pub enum Feedback {
    /// A right answer worth these points.
    Correct(u64),
    /// A wrong answer that broke a chain of this length.
    Wrong(usize),
    /// The time ran out.
    Timeout,
    /// The player quit.
    Quit,
}

/// What comes next in a beat game.
#[derive(Clone, Copy, Debug, PartialEq, Eq, Structural)]
pub enum BeatNext {
    /// The question at this position of the deck.
    Question(usize),
    /// The end screen with the statistics; the game is over.
    EndScreen,
}

/// A beat game in progress.
pub struct BeatSession {
    pub stats: BeatState,
    /// Questions answered, timeouts included.
    pub answered: usize,
    /// Questions in the deck.
    pub total: usize,
    /// Whether the player quit.
    pub quit: bool,
}

impl BeatSession {
    /// What every session keeps: its statistics are consistent, each
    /// answered question is a right answer, a wrong one or a timeout, and no
    /// more questions are answered than the deck holds.
    pub open spec fn wf(&self) -> bool {
        &&& self.stats.wf()
        &&& self.answered == self.stats.correct + self.stats.wrong + self.stats.timeouts
        &&& self.answered <= self.total
    }

    /// What comes after the current state: the end screen once the player
    /// quit or every question is answered, otherwise the next question,
    /// which is the one after the last answered.
    pub open spec fn spec_next(&self) -> BeatNext {
        if self.quit || self.answered == self.total {
            BeatNext::EndScreen
        } else {
            BeatNext::Question(self.answered)
        }
    }

    /// A session of `total` questions before the first one.
    pub fn new(total: usize) -> (s: Self)
        ensures
            s.wf(),
            s.answered == 0,
            s.total == total,
            !s.quit,
            s.stats.score == 0,
            s.stats.combo == 0,
            s.stats.max_combo == 0,
            s.stats.correct == 0,
            s.stats.wrong == 0,
            s.stats.timeouts == 0,
            s.stats.last_pts == 0,
            s.stats.response_times@ == Seq::<u64>::empty(),
    {
        BeatSession { stats: BeatState::new(), answered: 0, total, quit: false }
    }

    /// What comes next: a question, or the end screen.
    pub fn next(&self) -> (n: BeatNext)
        requires
            self.wf(),
        ensures
            n == self.spec_next(),
            n matches BeatNext::Question(i) ==> i < self.total,
    {
        if self.quit || self.answered == self.total {
            BeatNext::EndScreen
        } else {
            BeatNext::Question(self.answered)
        }
    }

    /// Applies how the current question `q` ended, with `limit_ms` per
    /// question: a quit only ends the game; a timeout or a wrong answer
    /// breaks the chain; a right answer scores by speed and chain. Returns
    /// what to show.
    pub fn apply(&mut self, q: &Question, result: &BeatResult, limit_ms: u64) -> (fb: Feedback)
        requires
            old(self).wf(),
            old(self).spec_next() is Question,
            limit_ms > 0,
            old(self).stats.score + 1500 <= u64::MAX,
        ensures
            final(self).wf(),
            final(self).total == old(self).total,
            final(self).quit == (*result == BeatResult::Quit),
            match *result {
                BeatResult::Quit => {
                    &&& fb == Feedback::Quit
                    &&& final(self).stats == old(self).stats
                    &&& final(self).answered == old(self).answered
                },
                BeatResult::Timeout => {
                    &&& fb == Feedback::Timeout
                    &&& final(self).answered == old(self).answered + 1
                    &&& final(self).stats.combo == 0
                    &&& final(self).stats.timeouts == old(self).stats.timeouts + 1
                    &&& final(self).stats.score == old(self).stats.score
                    &&& final(self).stats.max_combo == old(self).stats.max_combo
                    &&& final(self).stats.correct == old(self).stats.correct
                    &&& final(self).stats.wrong == old(self).stats.wrong
                    &&& final(self).stats.last_pts == old(self).stats.last_pts
                    &&& final(self).stats.response_times@ == old(self).stats.response_times@
                },
                BeatResult::Answer(chosen, elapsed) => {
                    &&& final(self).answered == old(self).answered + 1
                    &&& if chosen@ == q.correct@ {
                        let pts = spec_calc_points(elapsed as nat, limit_ms as nat, old(self).stats.combo as nat);
                        &&& fb == Feedback::Correct(pts as u64)
                        &&& final(self).stats.score == old(self).stats.score + pts
                        &&& final(self).stats.combo == old(self).stats.combo + 1
                        &&& final(self).stats.correct == old(self).stats.correct + 1
                        &&& final(self).stats.last_pts == pts
                        &&& final(self).stats.max_combo == if old(self).stats.combo + 1 > old(self).stats.max_combo {
                            old(self).stats.combo + 1
                        } else {
                            old(self).stats.max_combo as int
                        }
                        &&& final(self).stats.wrong == old(self).stats.wrong
                        &&& final(self).stats.timeouts == old(self).stats.timeouts
                        &&& final(self).stats.response_times@ == old(self).stats.response_times@.push(elapsed)
                    } else {
                        &&& fb == Feedback::Wrong(old(self).stats.combo)
                        &&& final(self).stats.combo == 0
                        &&& final(self).stats.wrong == old(self).stats.wrong + 1
                        &&& final(self).stats.score == old(self).stats.score
                        &&& final(self).stats.last_pts == 0
                        &&& final(self).stats.max_combo == old(self).stats.max_combo
                        &&& final(self).stats.correct == old(self).stats.correct
                        &&& final(self).stats.timeouts == old(self).stats.timeouts
                        &&& final(self).stats.response_times@ == old(self).stats.response_times@
                    }
                },
            },
    {
        match result {
            BeatResult::Quit => {
                self.quit = true;
                Feedback::Quit
            },
            BeatResult::Timeout => {
                self.stats.record_timeout();
                self.answered = self.answered + 1;
                Feedback::Timeout
            },
            BeatResult::Answer(chosen, elapsed) => {
                self.answered = self.answered + 1;
                if q.is_correct(chosen) {
                    proof {
                        crate::beat::law_points_bounds(*elapsed as nat, limit_ms as nat, self.stats.combo as nat);
                    }
                    let pts = self.stats.record_correct(*elapsed, limit_ms);
                    Feedback::Correct(pts)
                } else {
                    let prev = self.stats.record_wrong();
                    Feedback::Wrong(prev)
                }
            },
        }
    }
}

/// The percentage shown at the end of a normal game never exceeds 100.
pub proof fn law_normal_pct_at_most_100(s: NormalSession)
    requires
        s.wf(),
    ensures
        crate::results::spec_pct(s.score as nat, s.asked as nat) <= 100,
{
    if s.asked > 0 {
        assert(s.score * 100 <= s.asked * 100) by (nonlinear_arith)
            requires s.score <= s.asked;
        assert((s.score * 100) / (s.asked as int) <= 100) by (nonlinear_arith)
            requires s.score * 100 <= s.asked * 100, s.asked > 0;
    }
}

/// The percentage of right answers at the end of a beat game never
/// exceeds 100.
pub proof fn law_beat_pct_at_most_100(s: BeatSession)
    requires
        s.wf(),
    ensures
        crate::results::spec_pct(s.stats.correct as nat, s.answered as nat) <= 100,
{
    if s.answered > 0 {
        assert(s.stats.correct * 100 <= s.answered * 100) by (nonlinear_arith)
            requires s.stats.correct <= s.answered;
        assert((s.stats.correct * 100) / (s.answered as int) <= 100) by (nonlinear_arith)
            requires s.stats.correct * 100 <= s.answered * 100, s.answered > 0;
    }
}

/// Between two questions of a beat game: every question answered is a
/// right answer, a wrong one or a timeout, and no more are answered than
/// the deck holds; the chain is no longer than the
/// best chain, which is no longer than the right answers; one response time
/// is kept per right answer; and the score is between 100 and 1,500 points
/// per right answer.
pub proof fn law_beat_session_totals(s: BeatSession)
    requires
        s.wf(),
    ensures
        s.stats.correct + s.stats.wrong + s.stats.timeouts == s.answered,
        s.answered <= s.total,
        s.stats.combo <= s.stats.max_combo <= s.stats.correct,
        s.stats.response_times@.len() == s.stats.correct,
        100 * s.stats.correct <= s.stats.score <= 1500 * s.stats.correct,
{
}

/// A beat game asks the deck's questions in order and ends on the end
/// screen: after a question that does not quit, the next step is the
/// following question or, after the last one, the end screen; after a
/// quit it is the end screen at once.
pub proof fn law_beat_session_course(before: BeatSession, after: BeatSession, result: BeatResult)
    requires
        before.wf(),
        before.spec_next() is Question,
        after.total == before.total,
        after.quit == (result == BeatResult::Quit),
        result == BeatResult::Quit ==> after.answered == before.answered,
        result != BeatResult::Quit ==> after.answered == before.answered + 1,
    ensures
        result == BeatResult::Quit ==> after.spec_next() == BeatNext::EndScreen,
        result != BeatResult::Quit ==> after.spec_next() == if before.answered + 1 == before.total {
            BeatNext::EndScreen
        } else {
            BeatNext::Question((before.answered + 1) as usize)
        },
{
}

} // verus!
