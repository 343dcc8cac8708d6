//! Beat mode: timed scoring, combo chains and the running statistics.
use vstd::prelude::*;

use crate::number::{push_decimal, spec_decimal};
use crate::style::Color;
use crate::text::push_char;

verus! {

/// Milliseconds allowed per question in beat mode.
pub const BEAT_TIME_MS: u64 = 20000;

/// The combo multiplier, in halves: ×1 for a chain below 2, ×1.5 from 2,
/// ×2 from 4, ×2.5 from 6 and ×3 from 10.
pub open spec fn combo_mult_halves(combo: nat) -> nat {
    if combo <= 1 {
        2
    } else if combo <= 3 {
        3
    } else if combo <= 5 {
        4
    } else if combo <= 9 {
        5
    } else {
        6
    }
}

/// Points for a correct answer given after `elapsed` of `limit` milliseconds
/// with a chain of `combo` correct answers before it:
/// `100 × (1 + 4 × remaining share of the time) × combo multiplier`,
/// rounded to the nearest integer, halves up. The remaining share is
/// clamped to `[0, 1]`.
pub open spec fn spec_calc_points(elapsed: nat, limit: nat, combo: nat) -> nat
    recommends
        limit > 0,
{
    let e = if elapsed <= limit { elapsed } else { limit };
    let m = combo_mult_halves(combo);
    ((100 * m * (5 * limit - 4 * e) + limit) / (2 * limit as int)) as nat
}

/// The label shown for a combo chain, with `×` before the chain length.
pub open spec fn spec_combo_label(combo: nat) -> Seq<char> {
    if combo == 0 {
        Seq::empty()
    } else if combo == 1 {
        seq!['×'] + spec_decimal(combo)
    } else if combo <= 3 {
        seq!['×'] + spec_decimal(combo) + "  HOT"@
    } else if combo <= 5 {
        seq!['×'] + spec_decimal(combo) + "  ON FIRE"@
    } else if combo <= 9 {
        seq!['×'] + spec_decimal(combo) + "  UNSTOPPABLE"@
    } else {
        seq!['×'] + spec_decimal(combo) + "  MAX COMBO"@
    }
}

/// The colour of a combo chain: white below 2, yellow from 2, magenta from 4,
/// red from 6.
pub open spec fn spec_combo_color(combo: nat) -> Color {
    if combo <= 1 {
        Color::White
    } else if combo <= 3 {
        Color::Yellow
    } else if combo <= 5 {
        Color::Magenta
    } else {
        Color::Red
    }
}

/// Sum of a sequence of millisecond counts.
pub open spec fn sum_ms(s: Seq<u64>) -> nat
    decreases s.len(),
{
    if s.len() == 0 {
        0
    } else {
        sum_ms(s.drop_last()) + s.last() as nat
    }
}

/// Statistics of a beat-mode session.
pub struct BeatState {
    pub score: u64,
    pub combo: usize,
    pub max_combo: usize,
    pub correct: usize,
    pub wrong: usize,
    pub timeouts: usize,
    /// Response time of each correct answer, in milliseconds.
    pub response_times: Vec<u64>,
    pub last_pts: u64,
}

impl BeatState {
    /// What every state reached from `new` keeps: the chain is no longer
    /// than the best chain, which is no longer than the number of correct
    /// answers, one response time is kept per correct answer, and the score
    /// is between 100 and 1,500 points per correct answer.
    pub open spec fn wf(&self) -> bool {
        &&& self.combo <= self.max_combo
        &&& self.max_combo <= self.correct
        &&& self.response_times@.len() == self.correct
        &&& 100 * self.correct <= self.score <= 1500 * self.correct
    }

    /// A fresh session: everything at zero.
    pub fn new() -> (s: Self)
        ensures
            s.wf(),
            s.score == 0,
            s.combo == 0,
            s.max_combo == 0,
            s.correct == 0,
            s.wrong == 0,
            s.timeouts == 0,
            s.response_times@ == Seq::<u64>::empty(),
            s.last_pts == 0,
    {
        BeatState {
            score: 0,
            combo: 0,
            max_combo: 0,
            correct: 0,
            wrong: 0,
            timeouts: 0,
            response_times: Vec::new(),
            last_pts: 0,
        }
    }

    /// The label of the current combo chain.
    pub fn combo_label(&self) -> (s: String)
        ensures
            s@ == spec_combo_label(self.combo as nat),
    {
        let mut s = String::new();
        if self.combo == 0 {
            return s;
        }
        push_char(&mut s, '×');
        push_decimal(&mut s, self.combo as u64);
        if self.combo == 1 {
        } else if self.combo <= 3 {
            s.append("  HOT");
        } else if self.combo <= 5 {
            s.append("  ON FIRE");
        } else if self.combo <= 9 {
            s.append("  UNSTOPPABLE");
        } else {
            s.append("  MAX COMBO");
        }
        s
    }

    /// The colour of the current combo chain.
    pub fn combo_color(&self) -> (c: Color)
        ensures
            c == spec_combo_color(self.combo as nat),
    {
        if self.combo <= 1 {
            Color::White
        } else if self.combo <= 3 {
            Color::Yellow
        } else if self.combo <= 5 {
            Color::Magenta
        } else {
            Color::Red
        }
    }

    /// Points for a correct answer after `elapsed_ms` of `limit_ms`
    /// milliseconds, with a chain of `combo` before it.
    pub fn calc_points(elapsed_ms: u64, limit_ms: u64, combo: usize) -> (pts: u64)
        requires
            limit_ms > 0,
        ensures
            pts == spec_calc_points(elapsed_ms as nat, limit_ms as nat, combo as nat),
    {
        let e: u128 = if elapsed_ms <= limit_ms { elapsed_ms as u128 } else { limit_ms as u128 };
        let l: u128 = limit_ms as u128;
        let m: u128 = if combo <= 1 {
            2
        } else if combo <= 3 {
            3
        } else if combo <= 5 {
            4
        } else if combo <= 9 {
            5
        } else {
            6
        };
        assert(5 * l - 4 * e <= 5 * l);
        assert(100 * m * (5 * l - 4 * e) <= 600 * (5 * l)) by (nonlinear_arith)
            requires m <= 6, 5 * l - 4 * e <= 5 * l, 5 * l - 4 * e >= 0;
        let num: u128 = 100 * m * (5 * l - 4 * e) + l;
        let pts = num / (2 * l);
        assert(pts <= 1500) by (nonlinear_arith)
            requires pts as int == num as int / (2 * l as int), num <= 3000 * l + l, l > 0;
        pts as u64
    }

    /// Total of the response times kept, in milliseconds.
    pub fn response_total_ms(&self) -> (t: u128)
        ensures
            t == sum_ms(self.response_times@),
            t <= self.response_times@.len() * 0xFFFF_FFFF_FFFF_FFFFu128,
    {
        let mut t: u128 = 0;
        let mut i: usize = 0;
        while i < self.response_times.len()
            invariant
                i <= self.response_times@.len(),
                t == sum_ms(self.response_times@.take(i as int)),
                t <= i * 0xFFFF_FFFF_FFFF_FFFFu128,
            decreases self.response_times.len() - i,
        {
            assert(self.response_times@.take(i + 1).drop_last() =~= self.response_times@.take(i as int));
            assert(i * 0xFFFF_FFFF_FFFF_FFFFu128 + 0xFFFF_FFFF_FFFF_FFFFu128 == (i + 1) * 0xFFFF_FFFF_FFFF_FFFFu128) by (nonlinear_arith);
            assert((i + 1) * 0xFFFF_FFFF_FFFF_FFFFu128 <= 0xFFFF_FFFF_FFFF_FFFFu128 * 0xFFFF_FFFF_FFFF_FFFFu128) by (nonlinear_arith)
                requires i + 1 <= 0xFFFF_FFFF_FFFF_FFFFu128;
            t = t + self.response_times[i] as u128;
            i = i + 1;
        }
        assert(self.response_times@.take(i as int) =~= self.response_times@);
        t
    }

    /// Average response time of the correct answers in hundredths of a
    /// second, rounded to the nearest (halves up); zero before any.
    pub open spec fn spec_avg_time_centis(&self) -> nat {
        let n = self.response_times@.len();
        if n == 0 {
            0
        } else {
            (sum_ms(self.response_times@) + 5 * n) / (10 * n)
        }
    }

    /// Average response time in hundredths of a second.
    pub fn avg_time_centis(&self) -> (c: u64)
        ensures
            c == self.spec_avg_time_centis(),
    {
        let n = self.response_times.len();
        if n == 0 {
            return 0;
        }
        let t = self.response_total_ms();
        let n128 = n as u128;
        let m: u128 = 0xFFFF_FFFF_FFFF_FFFFu128;
        assert(n128 <= m);
        let d: u128 = 10 * n128;
        let q = t / d;
        let r = t % d;
        let c: u128 = q + if r >= 5 * n128 { 1 } else { 0 };
        proof {
            let ti = t as int;
            let ni = n128 as int;
            assert(ti == q * (10 * ni) + r && 0 <= r < 10 * ni) by (nonlinear_arith)
                requires q == ti / (10 * ni), r == ti % (10 * ni), ni > 0;
            assert(c == (ti + 5 * ni) / (10 * ni)) by (nonlinear_arith)
                requires ti == q * (10 * ni) + r, 0 <= r < 10 * ni, ni > 0,
                    c == q + if r >= 5 * ni { 1int } else { 0int };
            assert(q <= m / 10) by (nonlinear_arith)
                requires q == ti / (10 * ni), ti <= ni * m, ni > 0, m > 0;
        }
        c as u64
    }

    /// Number of questions answered so far, a timeout counting as an answer.
    pub open spec fn answered(&self) -> nat {
        (self.correct + self.wrong + self.timeouts) as nat
    }

    /// Records a correct answer given after `elapsed_ms` of `limit_ms`:
    /// the points go to the score, the chain grows by one, and the response
    /// time is kept. Returns the points awarded.
    pub fn record_correct(&mut self, elapsed_ms: u64, limit_ms: u64) -> (pts: u64)
        requires
            old(self).wf(),
            limit_ms > 0,
            old(self).score + spec_calc_points(elapsed_ms as nat, limit_ms as nat, old(self).combo as nat) <= u64::MAX,
            old(self).correct < usize::MAX,
        ensures
            final(self).wf(),
            pts == spec_calc_points(elapsed_ms as nat, limit_ms as nat, old(self).combo as nat),
            final(self).score == old(self).score + pts,
            final(self).combo == old(self).combo + 1,
            final(self).max_combo == if old(self).combo + 1 > old(self).max_combo {
                old(self).combo + 1
            } else {
                old(self).max_combo as int
            },
            final(self).correct == old(self).correct + 1,
            final(self).wrong == old(self).wrong,
            final(self).timeouts == old(self).timeouts,
            final(self).last_pts == pts,
            final(self).response_times@ == old(self).response_times@.push(elapsed_ms),
    {
        let pts = BeatState::calc_points(elapsed_ms, limit_ms, self.combo);
        proof {
            law_points_bounds(elapsed_ms as nat, limit_ms as nat, self.combo as nat);
        }
        self.score = self.score + pts;
        self.combo = self.combo + 1;
        if self.combo > self.max_combo {
            self.max_combo = self.combo;
        }
        self.correct = self.correct + 1;
        self.last_pts = pts;
        self.response_times.push(elapsed_ms);
        pts
    }

    /// Records a wrong answer: the chain breaks and no points are shown.
    /// Returns the length of the chain that was broken.
    pub fn record_wrong(&mut self) -> (prev_combo: usize)
        requires
            old(self).wf(),
            old(self).wrong < usize::MAX,
        ensures
            final(self).wf(),
            prev_combo == old(self).combo,
            final(self).combo == 0,
            final(self).wrong == old(self).wrong + 1,
            final(self).last_pts == 0,
            final(self).score == old(self).score,
            final(self).max_combo == old(self).max_combo,
            final(self).correct == old(self).correct,
            final(self).timeouts == old(self).timeouts,
            final(self).response_times@ == old(self).response_times@,
    {
        let prev_combo = self.combo;
        self.combo = 0;
        self.wrong = self.wrong + 1;
        self.last_pts = 0;
        prev_combo
    }

    /// Records a question whose time ran out: the chain breaks.
    pub fn record_timeout(&mut self)
        requires
            old(self).wf(),
            old(self).timeouts < usize::MAX,
        ensures
            final(self).wf(),
            final(self).combo == 0,
            final(self).timeouts == old(self).timeouts + 1,
            final(self).score == old(self).score,
            final(self).max_combo == old(self).max_combo,
            final(self).correct == old(self).correct,
            final(self).wrong == old(self).wrong,
            final(self).last_pts == old(self).last_pts,
            final(self).response_times@ == old(self).response_times@,
    {
        self.combo = 0;
        self.timeouts = self.timeouts + 1;
    }
}

/// Every correct answer is worth at least 100 points and at most 1,500:
/// ×5 for an instant answer times ×3 for a chain of ten or more.
pub proof fn law_points_bounds(elapsed: nat, limit: nat, combo: nat)
    requires
        limit > 0,
    ensures
        100 <= spec_calc_points(elapsed, limit, combo) <= 1500,
{
    let e = if elapsed <= limit { elapsed } else { limit };
    let m = combo_mult_halves(combo);
    let num = 100 * m * (5 * limit - 4 * e) + limit;
    assert(num >= 201 * limit) by (nonlinear_arith)
        requires num == 100 * m * (5 * limit - 4 * e) + limit, m >= 2, e <= limit;
    assert(num <= 3001 * limit) by (nonlinear_arith)
        requires num == 100 * m * (5 * limit - 4 * e) + limit, m <= 6, e >= 0;
    assert(num / (2 * limit as int) >= 100) by (nonlinear_arith)
        requires num >= 201 * limit, limit > 0;
    assert(num / (2 * limit as int) <= 1500) by (nonlinear_arith)
        requires num <= 3001 * limit, limit > 0;
}

/// The extremes: an instant answer on a chain of ten or more scores 1,500;
/// an answer at or after the time limit without a chain scores 100.
pub proof fn law_points_extremes(limit: nat, combo: nat)
    requires
        limit > 0,
    ensures
        combo >= 10 ==> spec_calc_points(0, limit, combo) == 1500,
        combo <= 1 ==> spec_calc_points(limit, limit, combo) == 100,
{
    assert((3000 * limit + limit) as int / (2 * limit as int) == 1500) by (nonlinear_arith)
        requires limit > 0;
    if combo >= 10 {
        let m = combo_mult_halves(combo);
        assert(m == 6);
        assert(100 * m * (5 * limit - 4 * 0) + limit == 3000 * limit + limit) by (nonlinear_arith)
            requires m == 6;
    }
    if combo <= 1 {
        let m = combo_mult_halves(combo);
        assert(m == 2);
        assert(100 * m * (5 * limit - 4 * limit) + limit == 200 * limit + limit) by (nonlinear_arith)
            requires m == 2;
    }
    assert((200 * limit + limit) as int / (2 * limit as int) == 100) by (nonlinear_arith)
        requires limit > 0;
}

/// Answering faster never earns fewer points.
pub proof fn law_points_faster_is_more(e1: nat, e2: nat, limit: nat, combo: nat)
    requires
        limit > 0,
        e1 <= e2,
    ensures
        spec_calc_points(e1, limit, combo) >= spec_calc_points(e2, limit, combo),
{
    let a = if e1 <= limit { e1 } else { limit };
    let b = if e2 <= limit { e2 } else { limit };
    let m = combo_mult_halves(combo);
    assert(100 * m * (5 * limit - 4 * a) >= 100 * m * (5 * limit - 4 * b)) by (nonlinear_arith)
        requires a <= b, m >= 0;
    let n1 = 100 * m * (5 * limit - 4 * a) + limit;
    let n2 = 100 * m * (5 * limit - 4 * b) + limit;
    vstd::arithmetic::div_mod::lemma_div_is_ordered(n2, n1, 2 * limit as int);
}

/// A longer chain never earns fewer points.
pub proof fn law_points_chain_is_more(elapsed: nat, limit: nat, c1: nat, c2: nat)
    requires
        limit > 0,
        c1 <= c2,
    ensures
        spec_calc_points(elapsed, limit, c1) <= spec_calc_points(elapsed, limit, c2),
{
    let e = if elapsed <= limit { elapsed } else { limit };
    let m1 = combo_mult_halves(c1);
    let m2 = combo_mult_halves(c2);
    assert(m1 <= m2);
    assert(100 * m1 * (5 * limit - 4 * e) <= 100 * m2 * (5 * limit - 4 * e)) by (nonlinear_arith)
        requires m1 <= m2, 5 * limit - 4 * e >= 0;
    let n1 = 100 * m1 * (5 * limit - 4 * e) + limit;
    let n2 = 100 * m2 * (5 * limit - 4 * e) + limit;
    vstd::arithmetic::div_mod::lemma_div_is_ordered(n1, n2, 2 * limit as int);
}

} // verus!
