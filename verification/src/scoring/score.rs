//! The running score of one innings.

use vstd::prelude::*;
use vstd::string::StringExecFns;
use crate::scoring::ball::{
    BallOutcome,
    BallView,
    WicketView,
    extra_runs,
    run_count,
    wicket_views,
};
use crate::scoring::bounds::{fits_i32, within_i32};
use crate::text::{decimal, occurs_in, push_decimal, str_contains, str_eq};

verus! {

/// Whether a dismissal of this kind costs the batting side a wicket: every
/// kind does, except a retirement that is not "retired out".
pub open spec fn costs_wicket(kind: Seq<char>) -> bool {
    kind == "retired out"@ || !occurs_in("retired"@, kind)
}

/// How many of `wickets` cost the batting side a wicket.
pub open spec fn wickets_fallen(wickets: Seq<WicketView>) -> int
    decreases wickets.len(),
{
    if wickets.len() == 0 {
        0
    } else {
        wickets_fallen(wickets.drop_last()) + if costs_wicket(wickets.last().kind) {
            1int
        } else {
            0int
        }
    }
}

/// Mathematical value of a [`CurrentScore`]: every counter as an unbounded integer.
pub ghost struct ScoreView {
    pub wickets_left: int,
    pub wickets_lost: int,
    pub runs: int,
    pub leg_byes: int,
    pub byes: int,
    pub wides: int,
    pub no_balls: int,
    pub over: int,
    pub ball: int,
}

impl ScoreView {
    /// The score at the start of an innings: ten wickets in hand, nothing else recorded.
    pub open spec fn start() -> ScoreView {
        ScoreView {
            wickets_left: 10,
            wickets_lost: 0,
            runs: 0,
            leg_byes: 0,
            byes: 0,
            wides: 0,
            no_balls: 0,
            over: 0,
            ball: 0,
        }
    }

    /// Every counter at zero.
    pub open spec fn zero() -> ScoreView {
        ScoreView { wickets_left: 0, ..ScoreView::start() }
    }

    /// Every counter can be held in an `i32`.
    pub open spec fn fits(self) -> bool {
        &&& fits_i32(self.wickets_left)
        &&& fits_i32(self.wickets_lost)
        &&& fits_i32(self.runs)
        &&& fits_i32(self.leg_byes)
        &&& fits_i32(self.byes)
        &&& fits_i32(self.wides)
        &&& fits_i32(self.no_balls)
        &&& fits_i32(self.over)
        &&& fits_i32(self.ball)
    }

    /// The score once `ball` has been bowled.
    ///
    /// A wide or a no-ball does not use up a ball of the over. Runs off the
    /// bat and every extra go to the total. Runs taken on a wide are booked
    /// as wides together with the wide itself; penalty runs go to the total
    /// alone. Each dismissal that costs a wicket moves one wicket from those
    /// left to those lost.
    pub open spec fn after_ball(self, ball: BallView) -> ScoreView {
        let fallen = wickets_fallen(ball.dismissals());
        ScoreView {
            wickets_left: self.wickets_left - fallen,
            wickets_lost: self.wickets_lost + fallen,
            runs: self.runs + ball.total_runs(),
            leg_byes: self.leg_byes + extra_runs(ball.leg_byes),
            byes: self.byes + extra_runs(ball.byes),
            wides: self.wides + if ball.wide is Some {
                extra_runs(ball.wide) + ball.runs
            } else {
                0
            },
            no_balls: self.no_balls + extra_runs(ball.no_ball),
            over: self.over,
            ball: self.ball + if ball.is_legal() {
                1int
            } else {
                0int
            },
        }
    }

    /// The score once the current over has been called.
    pub open spec fn after_over(self) -> ScoreView {
        ScoreView { over: self.over + 1, ball: 0, ..self }
    }

    /// The three-line summary: wickets and runs, the extras, overs and balls.
    pub open spec fn summary(self) -> Seq<char> {
        decimal(self.wickets_lost) + "/"@ + decimal(self.runs) + "\n"@ + decimal(self.wides)
            + " wides, "@ + decimal(self.no_balls) + " no balls, "@ + decimal(self.byes)
            + " byes, "@ + decimal(self.leg_byes) + " leg byes\n"@ + decimal(self.over) + "."@
            + decimal(self.ball)
    }

    /// The one-line form: wickets and runs, then overs and balls in brackets.
    pub open spec fn headline(self) -> Seq<char> {
        decimal(self.wickets_lost) + "/"@ + decimal(self.runs) + " ("@ + decimal(self.over)
            + "."@ + decimal(self.ball) + " overs)"@
    }
}

/// What is scored in an innings: a delivery, or the call of "over".
pub ghost enum Play {
    Ball(BallView),
    Over,
}

/// Runs off the bat that stand as such: runs taken on a wide are wides.
pub open spec fn bat_runs(ball: BallView) -> int {
    if ball.wide is Some {
        0
    } else {
        ball.runs
    }
}

/// The runs off the bat in a passage of play.
pub open spec fn bat_runs_in(plays: Seq<Play>) -> int
    decreases plays.len(),
{
    if plays.len() == 0 {
        0
    } else {
        bat_runs_in(plays.drop_last()) + match plays.last() {
            Play::Ball(ball) => bat_runs(ball),
            Play::Over => 0,
        }
    }
}

/// The penalty runs awarded in a passage of play.
pub open spec fn penalty_runs_in(plays: Seq<Play>) -> int
    decreases plays.len(),
{
    if plays.len() == 0 {
        0
    } else {
        penalty_runs_in(plays.drop_last()) + match plays.last() {
            Play::Ball(ball) => extra_runs(ball.penalty),
            Play::Over => 0,
        }
    }
}

impl ScoreView {
    /// The score after one delivery or one call of "over".
    pub open spec fn after_play(self, play: Play) -> ScoreView {
        match play {
            Play::Ball(ball) => self.after_ball(ball),
            Play::Over => self.after_over(),
        }
    }

    /// The score after a passage of play.
    pub open spec fn after_plays(self, plays: Seq<Play>) -> ScoreView
        decreases plays.len(),
    {
        if plays.len() == 0 {
            self
        } else {
            self.after_plays(plays.drop_last()).after_play(plays.last())
        }
    }
}

/// At every point of an innings the total is the runs off the bat, the byes,
/// the leg byes, the wides, the no-balls and the penalty runs so far.
pub proof fn runs_add_up(plays: Seq<Play>)
    ensures
        ({
            let score = ScoreView::start().after_plays(plays);
            score.runs == bat_runs_in(plays) + score.byes + score.leg_byes + score.wides
                + score.no_balls + penalty_runs_in(plays)
        }),
    decreases plays.len(),
{
    if plays.len() > 0 {
        runs_add_up(plays.drop_last());
    }
}

/// Every run off the bat in a passage of play, those taken on wides too.
pub open spec fn all_bat_runs_in(plays: Seq<Play>) -> int
    decreases plays.len(),
{
    if plays.len() == 0 {
        0
    } else {
        all_bat_runs_in(plays.drop_last()) + match plays.last() {
            Play::Ball(ball) => ball.runs,
            Play::Over => 0,
        }
    }
}

/// Where no runs are taken off the bat on a wide, the total is at every
/// point every run off the bat, the byes, the leg byes, the wides, the
/// no-balls and the penalty runs so far.
pub proof fn runs_add_up_without_runs_on_wides(plays: Seq<Play>)
    requires
        forall|k: int|
            0 <= k < plays.len() ==> match #[trigger] plays[k] {
                Play::Ball(ball) => ball.wide is Some ==> ball.runs == 0,
                Play::Over => true,
            },
    ensures
        ({
            let score = ScoreView::start().after_plays(plays);
            score.runs == all_bat_runs_in(plays) + score.byes + score.leg_byes + score.wides
                + score.no_balls + penalty_runs_in(plays)
        }),
{
    runs_add_up(plays);
    no_runs_on_wides(plays);
}

proof fn no_runs_on_wides(plays: Seq<Play>)
    requires
        forall|k: int|
            0 <= k < plays.len() ==> match #[trigger] plays[k] {
                Play::Ball(ball) => ball.wide is Some ==> ball.runs == 0,
                Play::Over => true,
            },
    ensures
        all_bat_runs_in(plays) == bat_runs_in(plays),
    decreases plays.len(),
{
    if plays.len() > 0 {
        assert(plays.last() == plays[plays.len() - 1]);
        no_runs_on_wides(plays.drop_last());
    }
}

/// At every point of an innings the wickets lost and the wickets left make ten.
pub proof fn wickets_make_ten(plays: Seq<Play>)
    ensures
        ({
            let score = ScoreView::start().after_plays(plays);
            score.wickets_left + score.wickets_lost == 10
        }),
    decreases plays.len(),
{
    if plays.len() > 0 {
        wickets_make_ten(plays.drop_last());
    }
}

/// A wide does not count as a ball of the over, and neither does a no-ball.
pub proof fn wide_or_no_ball_is_no_ball_of_over(score: ScoreView, ball: BallView)
    requires
        ball.wide is Some || ball.no_ball is Some,
    ensures
        score.after_ball(ball).ball == score.ball,
        score.after_ball(ball).over == score.over,
{
}

/// A batter who retires costs no wicket, unless the batter retires out.
pub proof fn retirement_costs_no_wicket(score: ScoreView, ball: BallView)
    requires
        forall|k: int|
            0 <= k < ball.dismissals().len() ==> {
                &&& occurs_in("retired"@, (#[trigger] ball.dismissals()[k]).kind)
                &&& ball.dismissals()[k].kind != "retired out"@
            },
    ensures
        score.after_ball(ball).wickets_lost == score.wickets_lost,
        score.after_ball(ball).wickets_left == score.wickets_left,
{
    no_retirement_falls(ball.dismissals());
}

proof fn no_retirement_falls(wickets: Seq<WicketView>)
    requires
        forall|k: int| 0 <= k < wickets.len() ==> !costs_wicket((#[trigger] wickets[k]).kind),
    ensures
        wickets_fallen(wickets) == 0,
    decreases wickets.len(),
{
    if wickets.len() > 0 {
        no_retirement_falls(wickets.drop_last());
    }
}

/// "retired hurt" is a retirement that costs no wicket.
pub proof fn retired_hurt_costs_no_wicket()
    ensures
        !costs_wicket("retired hurt"@),
{
    reveal_strlit("retired hurt");
    reveal_strlit("retired out");
    reveal_strlit("retired");
    assert("retired hurt"@.subrange(0int, 0int + "retired"@.len()) =~= "retired"@);
    assert("retired hurt"@[8] != "retired out"@[8]);
}

/// A batter who retires out costs a wicket, as does every dismissal that is
/// no retirement: a delivery with one such dismissal moves one wicket from
/// those left to those lost.
pub proof fn dismissal_moves_one_wicket(score: ScoreView, ball: BallView)
    requires
        ball.dismissals().len() == 1,
        ball.dismissals()[0].kind == "retired out"@ || !occurs_in(
            "retired"@,
            ball.dismissals()[0].kind,
        ),
    ensures
        score.after_ball(ball).wickets_lost == score.wickets_lost + 1,
        score.after_ball(ball).wickets_left == score.wickets_left - 1,
{
    assert(ball.dismissals().drop_last().len() == 0);
    assert(wickets_fallen(ball.dismissals().drop_last()) == 0);
}

/// Running aggregate of one innings.
#[derive(Debug)]
pub struct CurrentScore {
    pub wickets_left: i32,
    pub wickets_lost: i32,
    pub runs: i32,
    pub leg_byes: i32,
    pub byes: i32,
    pub wides: i32,
    pub no_balls: i32,
    pub over: i32,
    pub ball: i32,
}

impl View for CurrentScore {
    type V = ScoreView;

    open spec fn view(&self) -> ScoreView {
        ScoreView {
            wickets_left: self.wickets_left as int,
            wickets_lost: self.wickets_lost as int,
            runs: self.runs as int,
            leg_byes: self.leg_byes as int,
            byes: self.byes as int,
            wides: self.wides as int,
            no_balls: self.no_balls as int,
            over: self.over as int,
            ball: self.ball as int,
        }
    }
}

impl Clone for CurrentScore {
    fn clone(&self) -> (copy: CurrentScore)
        ensures
            copy == *self,
    {
        CurrentScore {
            wickets_left: self.wickets_left,
            wickets_lost: self.wickets_lost,
            runs: self.runs,
            leg_byes: self.leg_byes,
            byes: self.byes,
            wides: self.wides,
            no_balls: self.no_balls,
            over: self.over,
            ball: self.ball,
        }
    }
}

impl Default for CurrentScore {
    fn default() -> (score: CurrentScore)
        ensures
            score@ == ScoreView::zero(),
    {
        CurrentScore {
            wickets_left: 0,
            wickets_lost: 0,
            runs: 0,
            leg_byes: 0,
            byes: 0,
            wides: 0,
            no_balls: 0,
            over: 0,
            ball: 0,
        }
    }
}

/// Whether a dismissal of this kind costs the batting side a wicket.
pub fn counts_as_wicket(kind: &str) -> (costs: bool)
    ensures
        costs == costs_wicket(kind@),
{
    str_eq(kind, "retired out") || !str_contains(kind, "retired")
}

fn wickets_lost_on(ball_outcome: &BallOutcome) -> (fallen: usize)
    ensures
        fallen == wickets_fallen(ball_outcome@.dismissals()),
        fallen <= ball_outcome@.dismissals().len(),
{
    let mut fallen: usize = 0;
    if let Some(wickets) = &ball_outcome.wicket {
        let ghost dismissals = wicket_views(wickets@);
        let mut i: usize = 0;
        while i < wickets.len()
            invariant
                i <= wickets.len(),
                dismissals == wicket_views(wickets@),
                fallen == wickets_fallen(dismissals.take(i as int)),
                fallen <= i,
            decreases wickets.len() - i,
        {
            assert(dismissals.take(i as int + 1).drop_last() =~= dismissals.take(i as int));
            if counts_as_wicket(wickets[i].kind.as_str()) {
                fallen += 1;
            }
            i += 1;
        }
        assert(dismissals.take(i as int) =~= dismissals);
    }
    fallen
}

impl CurrentScore {
    /// The score at the start of an innings.
    pub fn new() -> (score: CurrentScore)
        ensures
            score@ == ScoreView::start(),
    {
        CurrentScore {
            wickets_left: 10,
            wickets_lost: 0,
            runs: 0,
            leg_byes: 0,
            byes: 0,
            wides: 0,
            no_balls: 0,
            over: 0,
            ball: 0,
        }
    }

    /// Whether the score can take `ball_outcome`: every counter stays within
    /// an `i32`.
    pub fn can_record(&self, ball_outcome: &BallOutcome) -> (ok: bool)
        ensures
            ok == self@.after_ball(ball_outcome@).fits(),
    {
        let fallen = wickets_lost_on(ball_outcome) as i128;
        let bat = ball_outcome.runs as i128;
        let wide = run_count(ball_outcome.wide) as i128;
        let no_ball = run_count(ball_outcome.no_ball) as i128;
        let byes = run_count(ball_outcome.byes) as i128;
        let leg_byes = run_count(ball_outcome.leg_byes) as i128;
        let penalty = run_count(ball_outcome.penalty) as i128;
        let legal = ball_outcome.wide.is_none() && ball_outcome.no_ball.is_none();
        within_i32(self.wickets_left as i128 - fallen)
            && within_i32(self.wickets_lost as i128 + fallen)
            && within_i32(self.runs as i128 + bat + wide + no_ball + byes + leg_byes + penalty)
            && within_i32(self.leg_byes as i128 + leg_byes)
            && within_i32(self.byes as i128 + byes)
            && within_i32(
            self.wides as i128 + if ball_outcome.wide.is_some() {
                wide + bat
            } else {
                0
            },
        ) && within_i32(self.no_balls as i128 + no_ball)
            && within_i32(
            self.ball as i128 + if legal {
                1
            } else {
                0
            },
        )
    }

    /// Records one delivery.
    pub fn score_ball(&mut self, ball_outcome: &BallOutcome)
        requires
            old(self)@.after_ball(ball_outcome@).fits(),
        ensures
            final(self)@ == old(self)@.after_ball(ball_outcome@),
    {
        let fallen = wickets_lost_on(ball_outcome);
        let bat = ball_outcome.runs as i64;
        let wide = run_count(ball_outcome.wide);
        let no_ball = run_count(ball_outcome.no_ball);
        let byes = run_count(ball_outcome.byes);
        let leg_byes = run_count(ball_outcome.leg_byes);
        if ball_outcome.wide.is_none() && ball_outcome.no_ball.is_none() {
            self.ball = (self.ball as i64 + 1) as i32;
        }
        self.runs = (self.runs as i64 + ball_outcome.total_runs()) as i32;
        self.wickets_lost = (self.wickets_lost as i128 + fallen as i128) as i32;
        self.wickets_left = (self.wickets_left as i128 - fallen as i128) as i32;
        if ball_outcome.wide.is_some() {
            self.wides = (self.wides as i64 + wide + bat) as i32;
        }
        self.no_balls = (self.no_balls as i64 + no_ball) as i32;
        self.byes = (self.byes as i64 + byes) as i32;
        self.leg_byes = (self.leg_byes as i64 + leg_byes) as i32;
    }

    /// Ends the over: the next ball is the first of a new over.
    pub fn over(&mut self)
        requires
            old(self).over < i32::MAX,
        ensures
            final(self)@ == old(self)@.after_over(),
            final(self).over == old(self).over + 1,
            final(self).ball == 0,
    {
        self.over += 1;
        self.ball = 0;
    }

    /// Wickets and runs, the extras, and overs and balls, on three lines.
    pub fn summary(&self) -> (text: String)
        ensures
            text@ == self@.summary(),
    {
        let mut text = String::new();
        push_decimal(&mut text, self.wickets_lost as i64);
        text.append("/");
        push_decimal(&mut text, self.runs as i64);
        text.append("\n");
        push_decimal(&mut text, self.wides as i64);
        text.append(" wides, ");
        push_decimal(&mut text, self.no_balls as i64);
        text.append(" no balls, ");
        push_decimal(&mut text, self.byes as i64);
        text.append(" byes, ");
        push_decimal(&mut text, self.leg_byes as i64);
        text.append(" leg byes\n");
        push_decimal(&mut text, self.over as i64);
        text.append(".");
        push_decimal(&mut text, self.ball as i64);
        assert(text@ =~= self@.summary());
        text
    }

    /// Wickets and runs, then overs and balls in brackets, on one line.
    pub fn to_string(&self) -> (text: String)
        ensures
            text@ == self@.headline(),
    {
        let mut text = String::new();
        push_decimal(&mut text, self.wickets_lost as i64);
        text.append("/");
        push_decimal(&mut text, self.runs as i64);
        text.append(" (");
        push_decimal(&mut text, self.over as i64);
        text.append(".");
        push_decimal(&mut text, self.ball as i64);
        text.append(" overs)");
        assert(text@ =~= self@.headline());
        text
    }
}

} // verus!
